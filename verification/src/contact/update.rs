//! The EPP contact `<update>` command.

use vstd::prelude::*;
use vstd::string::*;

use crate::contact::{
    append_fax, append_postal_info, append_voice, spec_fax_xml, spec_postal_info_xml,
    spec_status_label, spec_voice_xml, ContactAuthInfo, Fax, PostalInfo, Status, Voice,
};
use crate::contact::info::spec_auth_info_xml;
use crate::text::{append_escaped, lemma_concat_assoc, lemma_concat_empty, spec_escape};
use crate::xml::{Command, NoExtension, Transaction};

verus! {

/// The XML written for one `<status>` element.
pub open spec fn spec_status_xml(s: Status) -> Seq<char> {
    "<status s=\""@ + spec_status_label(s) + "\"/>"@
}

/// The XML written for a list of `<status>` elements.
pub open spec fn spec_status_list(ss: Seq<Status>) -> Seq<char>
    decreases ss.len(),
{
    if ss.len() == 0 {
        Seq::empty()
    } else {
        spec_status_list(ss.drop_last()) + spec_status_xml(ss.last())
    }
}

/// Appends a list of `<status>` elements.
fn append_statuses(out: &mut String, statuses: &Vec<Status>)
    ensures
        final(out)@ == old(out)@ + spec_status_list(statuses@),
{
    let ghost head = out@;
    let n = statuses.len();
    let mut k: usize = 0;
    while k < n
        invariant
            k <= n,
            n == statuses@.len(),
            out@ == head + spec_status_list(statuses@.take(k as int)),
        decreases n - k,
    {
        out.append("<status s=\"");
        out.append(statuses[k].as_str());
        out.append("\"/>");
        proof {
            assert(statuses@.take(k + 1).drop_last() =~= statuses@.take(k as int));
            assert(statuses@.take(k + 1).last() == statuses@[k as int]);
        }
        k += 1;
    }
    proof {
        assert(statuses@.take(n as int) =~= statuses@);
    }
}

/// The elements under the `<chg>` tag of a contact update.
#[derive(Debug)]
pub struct ContactChangeInfo {
    pub postal_info: Option<PostalInfo>,
    pub voice: Option<Voice>,
    pub fax: Option<Fax>,
    pub email: Option<String>,
    pub auth_info: Option<ContactAuthInfo>,
}

/// The elements under the contact `<update>` tag.
#[derive(Debug)]
pub struct ContactUpdateRequest<'a> {
    /// The contact to update.
    pub id: &'a str,
    /// Statuses to add.
    pub add_statuses: Option<Vec<Status>>,
    /// Statuses to remove.
    pub remove_statuses: Option<Vec<Status>>,
    /// The new values under `<chg>`.
    pub change_info: Option<ContactChangeInfo>,
}

/// The EPP `<update>` command for contacts.
#[derive(Debug)]
pub struct ContactUpdate<'a> {
    /// The data of the update.
    pub contact: ContactUpdateRequest<'a>,
}

impl<'a> ContactUpdate<'a> {
    /// An update of the given contact that changes nothing yet.
    pub fn new(id: &'a str) -> (r: Self)
        ensures
            r.contact.id@ == id@,
            r.contact.add_statuses is None,
            r.contact.remove_statuses is None,
            r.contact.change_info is None,
    {
        Self {
            contact: ContactUpdateRequest {
                id,
                add_statuses: None,
                remove_statuses: None,
                change_info: None,
            },
        }
    }

    /// Sets the data for the `<chg>` tag; a fax can be added afterwards.
    pub fn set_info(
        &mut self,
        email: &str,
        postal_info: PostalInfo,
        voice: Voice,
        auth_password: &str,
    )
        ensures
            final(self).contact.id == old(self).contact.id,
            final(self).contact.add_statuses == old(self).contact.add_statuses,
            final(self).contact.remove_statuses == old(self).contact.remove_statuses,
            final(self).contact.change_info matches Some(c) && {
                &&& c.email matches Some(e) && e@ == email@
                &&& c.postal_info matches Some(p) && p == postal_info
                &&& c.voice matches Some(v) && v == voice
                &&& c.auth_info matches Some(a) && a.password@ == auth_password@
                &&& c.fax is None
            },
    {
        self.contact.change_info = Some(
            ContactChangeInfo {
                email: Some(String::from_str(email)),
                postal_info: Some(postal_info),
                voice: Some(voice),
                auth_info: Some(ContactAuthInfo::new(auth_password)),
                fax: None,
            },
        );
    }

    /// Sets the fax under `<chg>`; nothing happens when no `<chg>` data has
    /// been set yet.
    pub fn set_fax(&mut self, fax: Fax)
        ensures
            final(self).contact.id == old(self).contact.id,
            final(self).contact.add_statuses == old(self).contact.add_statuses,
            final(self).contact.remove_statuses == old(self).contact.remove_statuses,
            match old(self).contact.change_info {
                Some(ref c) => final(self).contact.change_info matches Some(n) && n.fax
                    matches Some(f) && f == fax && n.email == c.email && n.postal_info
                    == c.postal_info && n.voice == c.voice && n.auth_info == c.auth_info,
                None => final(self).contact.change_info is None,
            },
    {
        if let Some(info) = &mut self.contact.change_info {
            info.fax = Some(fax);
        }
    }

    /// Sets the statuses to add.
    pub fn add(&mut self, statuses: Vec<Status>)
        ensures
            final(self).contact.id == old(self).contact.id,
            final(self).contact.remove_statuses == old(self).contact.remove_statuses,
            final(self).contact.change_info == old(self).contact.change_info,
            final(self).contact.add_statuses matches Some(s) && s == statuses,
    {
        self.contact.add_statuses = Some(statuses);
    }

    /// Sets the statuses to remove.
    pub fn remove(&mut self, statuses: Vec<Status>)
        ensures
            final(self).contact.id == old(self).contact.id,
            final(self).contact.add_statuses == old(self).contact.add_statuses,
            final(self).contact.change_info == old(self).contact.change_info,
            final(self).contact.remove_statuses matches Some(s) && s == statuses,
    {
        self.contact.remove_statuses = Some(statuses);
    }
}

/// The XML written for the `<chg>` block of a contact update.
pub open spec fn spec_change_info_xml(c: &ContactChangeInfo) -> Seq<char> {
    "<chg>"@ + (match c.postal_info {
        Some(ref p) => spec_postal_info_xml(p),
        None => Seq::empty(),
    }) + (match c.voice {
        Some(ref v) => spec_voice_xml(v),
        None => Seq::empty(),
    }) + (match c.fax {
        Some(ref f) => spec_fax_xml(f),
        None => Seq::empty(),
    }) + (match c.email {
        Some(ref e) => "<email>"@ + spec_escape(e@) + "</email>"@,
        None => Seq::empty(),
    }) + (match c.auth_info {
        Some(ref a) => spec_auth_info_xml(a.password@),
        None => Seq::empty(),
    }) + "</chg>"@
}

impl<'a> Transaction<NoExtension> for ContactUpdate<'a> {

}

impl<'a> Command for ContactUpdate<'a> {
    open spec fn xml_spec(&self) -> Seq<char> {
        "<update><update xmlns=\"urn:ietf:params:xml:ns:contact-1.0\"><id>"@ + spec_escape(
            self.contact.id@,
        ) + "</id>"@ + (match self.contact.add_statuses {
            Some(ref ss) => "<add>"@ + spec_status_list(ss@) + "</add>"@,
            None => Seq::empty(),
        }) + (match self.contact.remove_statuses {
            Some(ref ss) => "<rem>"@ + spec_status_list(ss@) + "</rem>"@,
            None => Seq::empty(),
        }) + (match self.contact.change_info {
            Some(ref c) => spec_change_info_xml(c),
            None => Seq::empty(),
        }) + "</update></update>"@
    }

    fn command_xml(&self) -> (r: String) {
        let mut out = String::from_str(
            "<update><update xmlns=\"urn:ietf:params:xml:ns:contact-1.0\"><id>",
        );
        append_escaped(&mut out, self.contact.id);
        out.append("</id>");
        match &self.contact.add_statuses {
            Some(ss) => {
                out.append("<add>");
                append_statuses(&mut out, ss);
                out.append("</add>");
            },
            None => {},
        }
        match &self.contact.remove_statuses {
            Some(ss) => {
                out.append("<rem>");
                append_statuses(&mut out, ss);
                out.append("</rem>");
            },
            None => {},
        }
        match &self.contact.change_info {
            Some(c) => append_change_info(&mut out, c),
            None => {},
        }
        out.append("</update></update>");
        out
    }
}

/// Appends the `<chg>` block of a contact update.
#[verifier::spinoff_prover]
#[verifier::rlimit(100)]
fn append_change_info(out: &mut String, c: &ContactChangeInfo)
    ensures
        final(out)@ == old(out)@ + spec_change_info_xml(c),
{
    let ghost base = out@;
    out.append("<chg>");
    match &c.postal_info {
        Some(p) => append_postal_info(out, p),
        None => {},
    }
    let ghost s1 = "<chg>"@ + (match c.postal_info {
        Some(ref p) => spec_postal_info_xml(p),
        None => Seq::empty(),
    });
    proof {
        match c.postal_info {
            Some(ref p) => lemma_concat_assoc(base, "<chg>"@, spec_postal_info_xml(p)),
            None => lemma_concat_empty("<chg>"@),
        }
        assert(out@ == base + s1);
    }
    match &c.voice {
        Some(v) => append_voice(out, v),
        None => {},
    }
    let ghost s2 = s1 + (match c.voice {
        Some(ref v) => spec_voice_xml(v),
        None => Seq::empty(),
    });
    proof {
        match c.voice {
            Some(ref v) => lemma_concat_assoc(base, s1, spec_voice_xml(v)),
            None => lemma_concat_empty(s1),
        }
        assert(out@ == base + s2);
    }
    match &c.fax {
        Some(f) => append_fax(out, f),
        None => {},
    }
    let ghost s3 = s2 + (match c.fax {
        Some(ref f) => spec_fax_xml(f),
        None => Seq::empty(),
    });
    proof {
        match c.fax {
            Some(ref f) => lemma_concat_assoc(base, s2, spec_fax_xml(f)),
            None => lemma_concat_empty(s2),
        }
        assert(out@ == base + s3);
    }
    match &c.email {
        Some(e) => {
            out.append("<email>");
            append_escaped(out, e.as_str());
            out.append("</email>");
        },
        None => {},
    }
    let ghost s4 = s3 + (match c.email {
        Some(ref e) => "<email>"@ + spec_escape(e@) + "</email>"@,
        None => Seq::empty(),
    });
    proof {
        match c.email {
            Some(ref e) => {
                lemma_concat_assoc(base + s3, "<email>"@, spec_escape(e@));
                lemma_concat_assoc(base + s3, "<email>"@ + spec_escape(e@), "</email>"@);
                lemma_concat_assoc(base, s3, "<email>"@ + spec_escape(e@) + "</email>"@);
            },
            None => lemma_concat_empty(s3),
        }
        assert(out@ == base + s4);
    }
    match &c.auth_info {
        Some(a) => {
            out.append("<authInfo><pw>");
            append_escaped(out, a.password.as_str());
            out.append("</pw></authInfo>");
        },
        None => {},
    }
    let ghost s5 = s4 + (match c.auth_info {
        Some(ref a) => spec_auth_info_xml(a.password@),
        None => Seq::empty(),
    });
    proof {
        match c.auth_info {
            Some(ref a) => {
                lemma_concat_assoc(base + s4, "<authInfo><pw>"@, spec_escape(a.password@));
                lemma_concat_assoc(
                    base + s4,
                    "<authInfo><pw>"@ + spec_escape(a.password@),
                    "</pw></authInfo>"@,
                );
                lemma_concat_assoc(base, s4, spec_auth_info_xml(a.password@));
            },
            None => lemma_concat_empty(s4),
        }
        assert(out@ == base + s5);
    }
    out.append("</chg>");
    proof {
        lemma_concat_assoc(base, s5, "</chg>"@);
        assert(spec_change_info_xml(c) == s5 + "</chg>"@);
        assert(out@ == base + spec_change_info_xml(c));
    }
}

} // verus!
