//! Mapping for EPP contact objects, as described in RFC 5733.

use vstd::prelude::*;
use vstd::string::*;

use crate::error::Error;
use crate::text::{append_escaped, spec_escape, str_eq};

pub mod create;
pub mod info;
pub mod update;

verus! {

/// What the country table resolves a name, alias or code to: the two-letter
/// code of the country, if the text names one.
pub uninterp spec fn country_alpha2_of(s: Seq<char>) -> Option<Seq<char>>;

/// Relies on `celes::Country::from_str`: resolves a country name, alias,
/// alpha-2, alpha-3 or numeric code against the ISO 3166-1 table; the result
/// depends on the input alone, and a resolved alpha-2 code is two letters.
#[verifier::external_body]
fn lookup_country(code: &str) -> (r: Option<String>)
    ensures
        r is Some <==> country_alpha2_of(code@) is Some,
        r matches Some(a) ==> Some(a@) == country_alpha2_of(code@) && a@.len() == 2,
{
    match <celes::Country as core::str::FromStr>::from_str(code) {
        Ok(c) => Some(c.alpha2.to_string()),
        Err(_) => None,
    }
}

/// A country of the ISO 3166-1 table, held as its two-letter code.
#[derive(Clone, Debug)]
pub struct Country {
    /// The two-letter (alpha-2) code.
    pub alpha2: String,
}

impl Country {
    /// Resolves a country name, alias or code. Succeeds exactly when the
    /// table knows the text, and then carries the country's two-letter code.
    pub fn new(code: &str) -> (r: Result<Country, Error>)
        ensures
            r is Ok <==> country_alpha2_of(code@) is Some,
            r matches Ok(c) ==> Some(c.alpha2@) == country_alpha2_of(code@) && c.alpha2@.len()
                == 2,
    {
        match lookup_country(code) {
            Some(a) => Ok(Country { alpha2: a }),
            None => Err(Error::Other(String::from_str("unknown country"))),
        }
    }
}

/// The `<authInfo>` password for contact transactions.
#[derive(Clone, Debug, Eq, PartialEq)]
pub struct ContactAuthInfo {
    /// The `<pw>` text under `<authInfo>`.
    pub password: String,
}

impl ContactAuthInfo {
    /// An authorization carrying the given password.
    pub fn new(password: &str) -> (r: Self)
        ensures
            r.password@ == password@,
    {
        Self { password: String::from_str(password) }
    }
}

/// A `<voice>` phone number, with its optional extension attribute.
#[derive(Clone, Debug, Eq, PartialEq)]
pub struct Voice {
    /// The `x` attribute.
    pub extension: Option<String>,
    /// The number itself.
    pub number: String,
}

impl Voice {
    /// A voice number without an extension.
    pub fn new(number: &str) -> (r: Self)
        ensures
            r.number@ == number@,
            r.extension is None,
    {
        Self { extension: None, number: String::from_str(number) }
    }

    /// Sets the extension of the number.
    pub fn set_extension(&mut self, ext: &str)
        ensures
            final(self).number == old(self).number,
            final(self).extension matches Some(e) && e@ == ext@,
    {
        self.extension = Some(String::from_str(ext));
    }
}

/// A `<fax>` phone number, with its optional extension attribute.
#[derive(Clone, Debug, Eq, PartialEq)]
pub struct Fax {
    /// The `x` attribute.
    pub extension: Option<String>,
    /// The number itself.
    pub number: String,
}

impl Fax {
    /// A fax number without an extension.
    pub fn new(number: &str) -> (r: Self)
        ensures
            r.number@ == number@,
            r.extension is None,
    {
        Self { extension: None, number: String::from_str(number) }
    }

    /// Sets the extension of the number.
    pub fn set_extension(&mut self, ext: &str)
        ensures
            final(self).number == old(self).number,
            final(self).extension matches Some(e) && e@ == ext@,
    {
        self.extension = Some(String::from_str(ext));
    }
}

/// The `<addr>` type on contact transactions.
#[derive(Clone, Debug)]
pub struct Address {
    /// The `<street>` lines.
    pub street: Vec<String>,
    /// The `<city>` text.
    pub city: String,
    /// The `<sp>` (state or province) text.
    pub province: Option<String>,
    /// The `<pc>` (postal code) text.
    pub postal_code: Option<String>,
    /// The `<cc>` country.
    pub country: Country,
}

impl Address {
    /// An address from its parts.
    pub fn new(
        street: &[&str],
        city: &str,
        province: Option<&str>,
        postal_code: Option<&str>,
        country: Country,
    ) -> (r: Self)
        ensures
            r.street.deep_view() == street.deep_view(),
            r.city@ == city@,
            (match province {
                Some(p) => r.province matches Some(x) && x@ == p@,
                None => r.province is None,
            }),
            (match postal_code {
                Some(p) => r.postal_code matches Some(x) && x@ == p@,
                None => r.postal_code is None,
            }),
            r.country == country,
    {
        let mut lines: Vec<String> = Vec::new();
        let n = street.len();
        let mut k: usize = 0;
        while k < n
            invariant
                k <= n,
                n == street@.len(),
                lines.deep_view() =~= street.deep_view().take(k as int),
            decreases n - k,
        {
            lines.push(String::from_str(street[k]));
            proof {
                assert(lines@.last()@ == street@[k as int]@);
                assert(lines.deep_view().last() == street.deep_view()[k as int]);
                assert(lines.deep_view().drop_last() =~= street.deep_view().take(k as int));
                assert(lines.deep_view() =~= street.deep_view().take(k + 1));
            }
            k += 1;
        }
        proof {
            assert(street.deep_view().take(n as int) =~= street.deep_view());
        }
        Self {
            street: lines,
            city: String::from_str(city),
            province: match province {
                Some(p) => Some(String::from_str(p)),
                None => None,
            },
            postal_code: match postal_code {
                Some(p) => Some(String::from_str(p)),
                None => None,
            },
            country,
        }
    }
}

/// The `<postalInfo>` type on contact transactions.
#[derive(Clone, Debug)]
pub struct PostalInfo {
    /// The `type` attribute (`loc` or `int`).
    pub info_type: String,
    /// The `<name>` text.
    pub name: String,
    /// The `<org>` text.
    pub organization: Option<String>,
    /// The `<addr>` data.
    pub address: Address,
}

impl PostalInfo {
    /// Postal information from its parts.
    pub fn new(info_type: &str, name: &str, organization: Option<&str>, address: Address) -> (r:
        Self)
        ensures
            r.info_type@ == info_type@,
            r.name@ == name@,
            (match organization {
                Some(o) => r.organization matches Some(x) && x@ == o@,
                None => r.organization is None,
            }),
            r.address == address,
    {
        Self {
            info_type: String::from_str(info_type),
            name: String::from_str(name),
            organization: match organization {
                Some(o) => Some(String::from_str(o)),
                None => None,
            },
            address,
        }
    }
}

/// The attribute written for a phone number's extension.
pub open spec fn spec_phone_ext(extension: Option<String>) -> Seq<char> {
    match extension {
        Some(e) => " x=\""@ + spec_escape(e@) + "\""@,
        None => Seq::empty(),
    }
}

/// The XML written for a `<voice>` element.
pub open spec fn spec_voice_xml(v: &Voice) -> Seq<char> {
    "<voice"@ + spec_phone_ext(v.extension) + ">"@ + spec_escape(v.number@) + "</voice>"@
}

/// The XML written for a `<fax>` element.
pub open spec fn spec_fax_xml(f: &Fax) -> Seq<char> {
    "<fax"@ + spec_phone_ext(f.extension) + ">"@ + spec_escape(f.number@) + "</fax>"@
}

/// Appends a `<voice>` element.
pub fn append_voice(out: &mut String, v: &Voice)
    ensures
        final(out)@ == old(out)@ + spec_voice_xml(v),
{
    out.append("<voice");
    match &v.extension {
        Some(e) => {
            out.append(" x=\"");
            append_escaped(out, e.as_str());
            out.append("\"");
        },
        None => {},
    }
    out.append(">");
    append_escaped(out, v.number.as_str());
    out.append("</voice>");
}

/// Appends a `<fax>` element.
pub fn append_fax(out: &mut String, f: &Fax)
    ensures
        final(out)@ == old(out)@ + spec_fax_xml(f),
{
    out.append("<fax");
    match &f.extension {
        Some(e) => {
            out.append(" x=\"");
            append_escaped(out, e.as_str());
            out.append("\"");
        },
        None => {},
    }
    out.append(">");
    append_escaped(out, f.number.as_str());
    out.append("</fax>");
}

/// The XML written for a list of `<street>` lines.
pub open spec fn spec_street_list(ss: Seq<Seq<char>>) -> Seq<char>
    decreases ss.len(),
{
    if ss.len() == 0 {
        Seq::empty()
    } else {
        spec_street_list(ss.drop_last()) + ("<street>"@ + spec_escape(ss.last()) + "</street>"@)
    }
}

/// The XML written for an `<addr>` element.
pub open spec fn spec_address_xml(a: &Address) -> Seq<char> {
    "<addr>"@ + spec_street_list(a.street.deep_view()) + "<city>"@ + spec_escape(a.city@)
        + "</city>"@ + (match a.province {
        Some(p) => "<sp>"@ + spec_escape(p@) + "</sp>"@,
        None => Seq::empty(),
    }) + (match a.postal_code {
        Some(p) => "<pc>"@ + spec_escape(p@) + "</pc>"@,
        None => Seq::empty(),
    }) + "<cc>"@ + spec_escape(a.country.alpha2@) + "</cc></addr>"@
}

/// Appends an `<addr>` element.
pub fn append_address(out: &mut String, a: &Address)
    ensures
        final(out)@ == old(out)@ + spec_address_xml(a),
{
    out.append("<addr>");
    let ghost head = out@;
    let n = a.street.len();
    let mut k: usize = 0;
    while k < n
        invariant
            k <= n,
            n == a.street@.len(),
            out@ == head + spec_street_list(a.street.deep_view().take(k as int)),
        decreases n - k,
    {
        out.append("<street>");
        append_escaped(out, a.street[k].as_str());
        out.append("</street>");
        proof {
            let ss = a.street.deep_view();
            assert(ss.take(k + 1).drop_last() =~= ss.take(k as int));
            assert(ss.take(k + 1).last() == ss[k as int]);
            assert(ss[k as int] == a.street@[k as int]@);
        }
        k += 1;
    }
    proof {
        assert(a.street.deep_view().take(n as int) =~= a.street.deep_view());
    }
    out.append("<city>");
    append_escaped(out, a.city.as_str());
    out.append("</city>");
    match &a.province {
        Some(p) => {
            out.append("<sp>");
            append_escaped(out, p.as_str());
            out.append("</sp>");
        },
        None => {},
    }
    match &a.postal_code {
        Some(p) => {
            out.append("<pc>");
            append_escaped(out, p.as_str());
            out.append("</pc>");
        },
        None => {},
    }
    out.append("<cc>");
    append_escaped(out, a.country.alpha2.as_str());
    out.append("</cc></addr>");
}

/// The XML written for a `<postalInfo>` element.
pub open spec fn spec_postal_info_xml(p: &PostalInfo) -> Seq<char> {
    "<postalInfo type=\""@ + spec_escape(p.info_type@) + "\"><name>"@ + spec_escape(p.name@)
        + "</name>"@ + (match p.organization {
        Some(o) => "<org>"@ + spec_escape(o@) + "</org>"@,
        None => Seq::empty(),
    }) + spec_address_xml(&p.address) + "</postalInfo>"@
}

/// Appends a `<postalInfo>` element.
pub fn append_postal_info(out: &mut String, p: &PostalInfo)
    ensures
        final(out)@ == old(out)@ + spec_postal_info_xml(p),
{
    out.append("<postalInfo type=\"");
    append_escaped(out, p.info_type.as_str());
    out.append("\"><name>");
    append_escaped(out, p.name.as_str());
    out.append("</name>");
    match &p.organization {
        Some(o) => {
            out.append("<org>");
            append_escaped(out, o.as_str());
            out.append("</org>");
        },
        None => {},
    }
    append_address(out, &p.address);
    out.append("</postalInfo>");
}

/// The `<status>` values a contact object can carry.
#[derive(Clone, Copy, Debug, Eq, PartialEq, Structural)]
pub enum Status {
    ClientDeleteProhibited,
    ServerDeleteProhibited,
    ClientTransferProhibited,
    ServerTransferProhibited,
    ClientUpdateProhibited,
    ServerUpdateProhibited,
    Linked,
    Okay,
    PendingCreate,
    PendingDelete,
    PendingTransfer,
    PendingUpdate,
}

/// The label each status is written as on the wire.
pub open spec fn spec_status_label(s: Status) -> Seq<char> {
    match s {
        Status::ClientDeleteProhibited => "clientDeleteProhibited"@,
        Status::ServerDeleteProhibited => "serverDeleteProhibited"@,
        Status::ClientTransferProhibited => "clientTransferProhibited"@,
        Status::ServerTransferProhibited => "serverTransferProhibited"@,
        Status::ClientUpdateProhibited => "clientUpdateProhibited"@,
        Status::ServerUpdateProhibited => "serverUpdateProhibited"@,
        Status::Linked => "linked"@,
        Status::Okay => "ok"@,
        Status::PendingCreate => "pendingCreate"@,
        Status::PendingDelete => "pendingDelete"@,
        Status::PendingTransfer => "pendingTransfer"@,
        Status::PendingUpdate => "pendingUpdate"@,
    }
}

impl Status {
    /// The status as it is written on the wire.
    pub fn as_str(&self) -> (r: &'static str)
        ensures
            r@ == spec_status_label(*self),
    {
        match self {
            Status::ClientDeleteProhibited => "clientDeleteProhibited",
            Status::ServerDeleteProhibited => "serverDeleteProhibited",
            Status::ClientTransferProhibited => "clientTransferProhibited",
            Status::ServerTransferProhibited => "serverTransferProhibited",
            Status::ClientUpdateProhibited => "clientUpdateProhibited",
            Status::ServerUpdateProhibited => "serverUpdateProhibited",
            Status::Linked => "linked",
            Status::Okay => "ok",
            Status::PendingCreate => "pendingCreate",
            Status::PendingDelete => "pendingDelete",
            Status::PendingTransfer => "pendingTransfer",
            Status::PendingUpdate => "pendingUpdate",
        }
    }

    /// Reads a wire label back. Returns the status exactly when the label is
    /// one a contact status is written as.
    pub fn from_label(label: &str) -> (r: Option<Status>)
        ensures
            match r {
                Some(s) => spec_status_label(s) == label@,
                None => forall|s: Status| spec_status_label(s) != label@,
            },
    {
        if str_eq(label, "clientDeleteProhibited") {
            Some(Status::ClientDeleteProhibited)
        } else if str_eq(label, "serverDeleteProhibited") {
            Some(Status::ServerDeleteProhibited)
        } else if str_eq(label, "clientTransferProhibited") {
            Some(Status::ClientTransferProhibited)
        } else if str_eq(label, "serverTransferProhibited") {
            Some(Status::ServerTransferProhibited)
        } else if str_eq(label, "clientUpdateProhibited") {
            Some(Status::ClientUpdateProhibited)
        } else if str_eq(label, "serverUpdateProhibited") {
            Some(Status::ServerUpdateProhibited)
        } else if str_eq(label, "linked") {
            Some(Status::Linked)
        } else if str_eq(label, "ok") {
            Some(Status::Okay)
        } else if str_eq(label, "pendingCreate") {
            Some(Status::PendingCreate)
        } else if str_eq(label, "pendingDelete") {
            Some(Status::PendingDelete)
        } else if str_eq(label, "pendingTransfer") {
            Some(Status::PendingTransfer)
        } else if str_eq(label, "pendingUpdate") {
            Some(Status::PendingUpdate)
        } else {
            None
        }
    }
}

} // verus!
