//! The EPP host `<check>` command and its response data.

use vstd::prelude::*;
use vstd::string::*;

use crate::domain::check::{spec_cd_list, CdSpec};
use crate::error::Error;
use crate::text::{append_escaped, spec_escape};
use crate::xml::{Command, NoExtension, Transaction};

verus! {

/// The XML written for one host `<name>` to check.
pub open spec fn spec_host_item(d: Seq<char>) -> Seq<char> {
    "<name>"@ + spec_escape(d) + "</name>"@
}

/// The XML written for a list of hosts to check.
pub open spec fn spec_host_list(ds: Seq<Seq<char>>) -> Seq<char>
    decreases ds.len(),
{
    if ds.len() == 0 {
        Seq::empty()
    } else {
        spec_host_list(ds.drop_last()) + spec_host_item(ds.last())
    }
}

/// The EPP `<check>` command for hosts.
#[derive(Clone, Debug)]
pub struct HostCheck<'a> {
    /// The hosts to be checked for availability.
    pub hosts: &'a [&'a str],
}

impl<'a> Transaction<NoExtension> for HostCheck<'a> {

}

impl<'a> Command for HostCheck<'a> {
    open spec fn xml_spec(&self) -> Seq<char> {
        "<check><check xmlns=\"urn:ietf:params:xml:ns:host-1.0\">"@ + spec_host_list(
            self.hosts.deep_view(),
        ) + "</check></check>"@
    }

    fn command_xml(&self) -> (r: String) {
        let mut out = String::from_str("<check><check xmlns=\"urn:ietf:params:xml:ns:host-1.0\">");
        let ghost head = out@;
        let n = self.hosts.len();
        let mut k: usize = 0;
        while k < n
            invariant
                k <= n,
                n == self.hosts@.len(),
                out@ == head + spec_host_list(self.hosts.deep_view().take(k as int)),
            decreases n - k,
        {
            out.append("<name>");
            append_escaped(&mut out, self.hosts[k]);
            out.append("</name>");
            proof {
                let ds = self.hosts.deep_view();
                assert(ds.take(k + 1).drop_last() =~= ds.take(k as int));
                assert(ds.take(k + 1).last() == ds[k as int]);
                assert(ds[k as int] == self.hosts@[k as int]@);
            }
            k += 1;
        }
        proof {
            assert(self.hosts.deep_view().take(n as int) =~= self.hosts.deep_view());
        }
        out.append("</check></check>");
        out
    }
}

/// One checked host name: whether it is available, and the name itself.
#[derive(Debug)]
pub struct Name {
    /// The `avail` attribute.
    pub available: bool,
    /// The host name.
    pub id: String,
}

/// The reason a host name is unavailable.
#[derive(Debug)]
pub struct Reason {
    /// The language of the reason, when given.
    pub lang: Option<String>,
    /// The reason text.
    pub value: String,
}

/// One `<cd>` entry of a host check response.
#[derive(Debug)]
pub struct CheckedHost {
    /// Data under the `<name>` tag.
    pub name: Name,
    /// Data under the `<reason>` tag.
    pub reason: Option<Reason>,
}

/// The `<chkData>` of a host check response.
#[derive(Debug)]
pub struct CheckData {
    pub list: Vec<CheckedHost>,
}

/// The ghost view of a list of checked hosts. A `<cd>` entry has the same
/// shape for hosts as for domains, so the two readers share one model.
pub open spec fn chs_view(v: Seq<CheckedHost>) -> Seq<CdSpec> {
    Seq::new(
        v.len(),
        |i: int|
            CdSpec {
                available: v[i].name.available,
                value: v[i].name.id@,
                reason: match v[i].reason {
                    Some(ref r) => Some(r.value@),
                    None => None,
                },
                reason_lang: match v[i].reason {
                    Some(ref r) => match r.lang {
                        Some(ref l) => Some(l@),
                        None => None,
                    },
                    None => None,
                },
            },
    )
}

/// Reads the `<chkData>` fragment of a host check response: every `<cd>`
/// entry, in order. Succeeds exactly when each entry decodes.
pub fn parse_check_data(xml: &str) -> (r: Result<CheckData, Error>)
    ensures
        ({
            let parsed = spec_cd_list(xml@, 0, xml@.len() as nat);
            &&& r is Ok <==> parsed is Some
            &&& r matches Ok(d) ==> Some(chs_view(d.list@)) == parsed
        }),
{
    let domains = match crate::domain::check::parse_check_data(xml) {
        Ok(d) => d,
        Err(e) => {
            return Err(e);
        },
    };
    let mut list: Vec<CheckedHost> = Vec::new();
    let n = domains.list.len();
    let mut k: usize = 0;
    while k < n
        invariant
            k <= n,
            n == domains.list@.len(),
            list@.len() == k,
            Some(crate::domain::check::cds_view(domains.list@)) == spec_cd_list(
                xml@,
                0,
                xml@.len() as nat,
            ),
            chs_view(list@) =~= crate::domain::check::cds_view(domains.list@).take(k as int),
        decreases n - k,
    {
        let entry = &domains.list[k];
        let reason = match &entry.reason {
            Some(re) => {
                let lang = match &re.lang {
                    Some(l) => Some(l.clone()),
                    None => None,
                };
                Some(Reason { lang, value: re.value.clone() })
            },
            None => None,
        };
        list.push(
            CheckedHost {
                name: Name { available: entry.name.available, id: entry.name.value.clone() },
                reason,
            },
        );
        proof {
            let dv = crate::domain::check::cds_view(domains.list@);
            assert(chs_view(list@)[k as int] =~~= dv[k as int]);
            assert(chs_view(list@) =~~= dv.take(k + 1));
        }
        k += 1;
    }
    proof {
        assert(crate::domain::check::cds_view(domains.list@).take(n as int)
            =~= crate::domain::check::cds_view(domains.list@));
        assert(chs_view(list@) == crate::domain::check::cds_view(domains.list@));
    }
    Ok(CheckData { list })
}

} // verus!
