//! The EPP domain `<check>` command and its response data.

use vstd::prelude::*;
use vstd::string::*;

use crate::error::Error;
use crate::response::{first_span, spec_text};
use crate::text::{
    after_first, append_escaped, chars_eq, chars_of, enclosed, find_from, find_sub, spec_after,
    spec_enclosed, spec_escape, string_of,
};
use crate::xml::{Command, NoExtension, Transaction};

verus! {

/// The XML written for one `<name>` to check.
pub open spec fn spec_name_item(d: Seq<char>) -> Seq<char> {
    "<name>"@ + spec_escape(d) + "</name>"@
}

/// The XML written for a list of names to check.
pub open spec fn spec_name_list(ds: Seq<Seq<char>>) -> Seq<char>
    decreases ds.len(),
{
    if ds.len() == 0 {
        Seq::empty()
    } else {
        spec_name_list(ds.drop_last()) + spec_name_item(ds.last())
    }
}

/// The EPP `<check>` command for domains.
#[derive(Debug)]
pub struct DomainCheck<'a> {
    /// The domains to be checked for availability.
    pub domains: &'a [&'a str],
}

impl<'a> Transaction<NoExtension> for DomainCheck<'a> {

}

impl<'a> Command for DomainCheck<'a> {
    open spec fn xml_spec(&self) -> Seq<char> {
        "<check><check xmlns=\"urn:ietf:params:xml:ns:domain-1.0\">"@ + spec_name_list(
            self.domains.deep_view(),
        ) + "</check></check>"@
    }

    fn command_xml(&self) -> (r: String) {
        let mut out = String::from_str("<check><check xmlns=\"urn:ietf:params:xml:ns:domain-1.0\">");
        let ghost head = out@;
        let n = self.domains.len();
        let mut k: usize = 0;
        while k < n
            invariant
                k <= n,
                n == self.domains@.len(),
                out@ == head + spec_name_list(self.domains.deep_view().take(k as int)),
            decreases n - k,
        {
            out.append("<name>");
            append_escaped(&mut out, self.domains[k]);
            out.append("</name>");
            proof {
                let ds = self.domains.deep_view();
                assert(ds.take(k + 1).drop_last() =~= ds.take(k as int));
                assert(ds.take(k + 1).last() == ds[k as int]);
                assert(ds[k as int] == self.domains@[k as int]@);
            }
            k += 1;
        }
        proof {
            assert(self.domains.deep_view().take(n as int) =~= self.domains.deep_view());
        }
        out.append("</check></check>");
        out
    }
}

/// One checked name: whether it is available, and the name itself.
#[derive(Debug)]
pub struct Name {
    /// The `avail` attribute.
    pub available: bool,
    /// The domain name.
    pub value: String,
}

/// The reason a name is unavailable.
#[derive(Debug)]
pub struct Reason {
    /// The language of the reason, when given.
    pub lang: Option<String>,
    /// The reason text.
    pub value: String,
}

/// One `<cd>` entry of a check response.
#[derive(Debug)]
pub struct CheckedDomain {
    /// Data under the `<name>` tag.
    pub name: Name,
    /// Data under the `<reason>` tag.
    pub reason: Option<Reason>,
}

/// Ghost mirror of one checked name.
#[verifier::ext_equal]
pub struct CdSpec {
    pub available: bool,
    pub value: Seq<char>,
    pub reason: Option<Seq<char>>,
    pub reason_lang: Option<Seq<char>>,
}

impl View for CheckedDomain {
    type V = CdSpec;

    open spec fn view(&self) -> CdSpec {
        CdSpec {
            available: self.name.available,
            value: self.name.value@,
            reason: match self.reason {
                Some(ref r) => Some(r.value@),
                None => None,
            },
            reason_lang: match self.reason {
                Some(ref r) => match r.lang {
                    Some(ref l) => Some(l@),
                    None => None,
                },
                None => None,
            },
        }
    }
}

impl CheckedDomain {
    /// The availability, and the reason (if any) the registry gave.
    pub fn available(&self) -> (r: (bool, Option<&str>))
        ensures
            r.0 == self.name.available,
            match self.reason {
                Some(ref re) => r.1 matches Some(x) && x@ == re.value@,
                None => r.1 is None,
            },
    {
        (
            self.name.available,
            match &self.reason {
                Some(r) => Some(r.value.as_str()),
                None => None,
            },
        )
    }

    /// The checked domain name.
    pub fn name(&self) -> (r: &str)
        ensures
            r@ == self.name.value@,
    {
        self.name.value.as_str()
    }
}

/// The `<chkData>` of a domain check response.
#[derive(Debug)]
pub struct CheckData {
    pub list: Vec<CheckedDomain>,
}

/// How an `avail` attribute is read: the schema's boolean forms.
pub open spec fn spec_bool_text(t: Seq<char>) -> Option<bool> {
    if t == "1"@ || t == "true"@ {
        Some(true)
    } else if t == "0"@ || t == "false"@ {
        Some(false)
    } else {
        None
    }
}

/// Reads an `avail` attribute value.
fn bool_text(t: &Vec<char>) -> (r: Option<bool>)
    ensures
        r == spec_bool_text(t@),
{
    let one = chars_of("1");
    let tru = chars_of("true");
    let zero = chars_of("0");
    let fal = chars_of("false");
    if chars_eq(t, &one) || chars_eq(t, &tru) {
        Some(true)
    } else if chars_eq(t, &zero) || chars_eq(t, &fal) {
        Some(false)
    } else {
        None
    }
}

/// The `<reason>` element of one entry, decoded: its text and its optional
/// language attribute; `None` for no reason at all, and an entry that has an
/// unterminated reason tag decodes to nothing.
pub open spec fn spec_cd_reason(span: Seq<char>) -> Option<(Option<Seq<char>>, Option<Seq<char>>)> {
    match spec_text(span, "<reason"@, "</reason>"@) {
        None => Some((None, None)),
        Some(rs) => match spec_after(rs, ">"@) {
            Some(v) => Some((Some(v), spec_text(rs, " lang=\""@, "\""@))),
            None => None,
        },
    }
}

/// The first `<cd>` entry at or after `from`: its decoded form and the
/// position just past it. `None` when there is an entry that cannot be
/// decoded.
pub open spec fn spec_cd_at(s: Seq<char>, from: int) -> Option<(CdSpec, int)> {
    match spec_enclosed(s, "<cd>"@, "</cd>"@, from) {
        None => None,
        Some((span, next)) => match (
            spec_text(span, "avail=\""@, "\""@),
            spec_text(span, "\">"@, "</name>"@),
        ) {
            (Some(at), Some(v)) => match (spec_bool_text(at), spec_cd_reason(span)) {
                (Some(b), Some((reason, reason_lang))) => Some(
                    (CdSpec { available: b, value: v, reason, reason_lang }, next),
                ),
                _ => None,
            },
            _ => None,
        },
    }
}

/// All `<cd>` entries from `from` on, decoded in order. `fuel` bounds the
/// recursion; one unit per entry is always enough for this client's callers.
pub open spec fn spec_cd_list(s: Seq<char>, from: int, fuel: nat) -> Option<Seq<CdSpec>>
    decreases fuel,
{
    if find_from(s, "<cd>"@, from) is None {
        Some(Seq::empty())
    } else if fuel == 0 {
        None
    } else {
        match spec_cd_at(s, from) {
            None => None,
            Some((cd, next)) => match spec_cd_list(s, next, (fuel - 1) as nat) {
                None => None,
                Some(rest) => Some(seq![cd] + rest),
            },
        }
    }
}

/// The ghost view of a list of checked names.
pub open spec fn cds_view(v: Seq<CheckedDomain>) -> Seq<CdSpec> {
    Seq::new(v.len(), |i: int| v[i]@)
}

/// Reads the `<chkData>` fragment of a domain check response: every `<cd>`
/// entry, in order. Succeeds exactly when each entry decodes.
pub fn parse_check_data(xml: &str) -> (r: Result<CheckData, Error>)
    ensures
        ({
            let parsed = spec_cd_list(xml@, 0, xml@.len() as nat);
            &&& r is Ok <==> parsed is Some
            &&& r matches Ok(d) ==> Some(cds_view(d.list@)) == parsed
        }),
{
    let v = chars_of(xml);
    let cd_open = chars_of("<cd>");
    let cd_close = chars_of("</cd>");
    let mut list: Vec<CheckedDomain> = Vec::new();
    let mut pos: usize = 0;
    let mut fuel: usize = v.len();
    let ghost total = spec_cd_list(v@, 0, v@.len() as nat);
    proof {
        assert(cds_view(list@) =~= Seq::<CdSpec>::empty());
        match total {
            Some(t) => {
                assert(t =~= cds_view(list@) + t);
            },
            None => {},
        }
    }
    loop
        invariant
            v@ == xml@,
            cd_open@ == "<cd>"@,
            cd_close@ == "</cd>"@,
            total == spec_cd_list(v@, 0, v@.len() as nat),
            ({
                let rest = spec_cd_list(v@, pos as int, fuel as nat);
                match total {
                    None => rest is None,
                    Some(t) => rest matches Some(rs) && t == cds_view(list@) + rs,
                }
            }),
        decreases fuel,
    {
        match find_sub(&v, &cd_open, pos) {
            None => {
                proof {
                    assert(spec_cd_list(v@, pos as int, fuel as nat) == Some(Seq::<CdSpec>::empty()));
                    assert(cds_view(list@) + Seq::<CdSpec>::empty() =~= cds_view(list@));
                }
                return Ok(CheckData { list });
            },
            Some(_) => {},
        }
        if fuel == 0 {
            return Err(Error::Xml(String::from_str("malformed check data")));
        }
        let (span, next) = match enclosed(&v, &cd_open, &cd_close, pos) {
            Some(x) => x,
            None => {
                return Err(Error::Xml(String::from_str("unterminated cd entry")));
            },
        };
        let avail_t = match first_span(&span, "avail=\"", "\"") {
            Some(t) => t,
            None => {
                return Err(Error::Xml(String::from_str("cd entry without avail")));
            },
        };
        let val_t = match first_span(&span, "\">", "</name>") {
            Some(t) => t,
            None => {
                return Err(Error::Xml(String::from_str("cd entry without name")));
            },
        };
        let b = match bool_text(&avail_t) {
            Some(b) => b,
            None => {
                return Err(Error::Xml(String::from_str("cd entry with malformed avail")));
            },
        };
        let reason = match first_span(&span, "<reason", "</reason>") {
            Some(rs) => {
                let lang = match first_span(&rs, " lang=\"", "\"") {
                    Some(t) => Some(string_of(&t)),
                    None => None,
                };
                let gt = chars_of(">");
                let value = match after_first(&rs, &gt) {
                    Some(t) => string_of(&t),
                    None => {
                        return Err(Error::Xml(String::from_str("unterminated reason tag")));
                    },
                };
                Some(Reason { lang, value })
            },
            None => None,
        };
        let ghost list_before = list@;
        let cd = CheckedDomain { name: Name { available: b, value: string_of(&val_t) }, reason };
        proof {
            assert(spec_cd_at(v@, pos as int) matches Some(p) && p.0 == cd@ && p.1 == next as int);
        }
        list.push(cd);
        proof {
            assert(cds_view(list@) =~= cds_view(list_before) + seq![list@.last()@]);
            let rest_old = spec_cd_list(v@, pos as int, fuel as nat);
            let rest_new = spec_cd_list(v@, next as int, (fuel - 1) as nat);
            match total {
                None => {
                    assert(rest_new is None);
                },
                Some(t) => {
                    assert(rest_old matches Some(rs) && t == cds_view(list_before) + rs);
                    assert(rest_new matches Some(rn) && t =~= cds_view(list@) + rn);
                },
            }
        }
        pos = next;
        fuel = fuel - 1;
    }
}

} // verus!
