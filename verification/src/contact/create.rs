//! The EPP contact `<create>` command.

use vstd::prelude::*;
use vstd::string::*;

use crate::contact::{
    append_fax, append_postal_info, append_voice, spec_fax_xml, spec_postal_info_xml,
    spec_voice_xml, ContactAuthInfo, Fax, PostalInfo, Voice,
};
use crate::contact::info::spec_auth_info_xml;
use crate::text::{append_escaped, spec_escape};
use crate::xml::{Command, NoExtension, Transaction};

verus! {

/// The elements under the contact `<create>` tag.
#[derive(Debug)]
pub struct ContactCreateRequest<'a> {
    /// The new contact's id.
    pub id: &'a str,
    /// Postal information.
    pub postal_info: PostalInfo,
    /// The voice number, if any.
    pub voice: Option<Voice>,
    /// The fax number, if any.
    pub fax: Option<Fax>,
    /// The email address.
    pub email: &'a str,
    /// The authorization for later transactions on the contact.
    pub auth_info: ContactAuthInfo,
}

/// The EPP `<create>` command for contacts.
#[derive(Debug)]
pub struct ContactCreate<'a> {
    /// The data of the new contact.
    pub contact: ContactCreateRequest<'a>,
}

impl<'a> ContactCreate<'a> {
    /// A create command for a contact with the given id, addresses and
    /// authorization; no fax until one is set.
    pub fn new(
        id: &'a str,
        email: &'a str,
        postal_info: PostalInfo,
        voice: Option<Voice>,
        auth_password: &'a str,
    ) -> (r: Self)
        ensures
            r.contact.id@ == id@,
            r.contact.email@ == email@,
            r.contact.postal_info == postal_info,
            r.contact.voice == voice,
            r.contact.fax is None,
            r.contact.auth_info.password@ == auth_password@,
    {
        Self {
            contact: ContactCreateRequest {
                id,
                postal_info,
                voice,
                fax: None,
                email,
                auth_info: ContactAuthInfo::new(auth_password),
            },
        }
    }

    /// Sets the `<fax>` data for the request.
    pub fn set_fax(&mut self, fax: Fax)
        ensures
            final(self).contact.fax matches Some(f) && f == fax,
            final(self).contact.id == old(self).contact.id,
            final(self).contact.email == old(self).contact.email,
            final(self).contact.postal_info == old(self).contact.postal_info,
            final(self).contact.voice == old(self).contact.voice,
            final(self).contact.auth_info == old(self).contact.auth_info,
    {
        self.contact.fax = Some(fax);
    }
}

impl<'a> Transaction<NoExtension> for ContactCreate<'a> {

}

impl<'a> Command for ContactCreate<'a> {
    open spec fn xml_spec(&self) -> Seq<char> {
        "<create><create xmlns=\"urn:ietf:params:xml:ns:contact-1.0\"><id>"@ + spec_escape(
            self.contact.id@,
        ) + "</id>"@ + spec_postal_info_xml(&self.contact.postal_info) + (match self.contact.voice {
            Some(ref v) => spec_voice_xml(v),
            None => Seq::empty(),
        }) + (match self.contact.fax {
            Some(ref f) => spec_fax_xml(f),
            None => Seq::empty(),
        }) + "<email>"@ + spec_escape(self.contact.email@) + "</email>"@ + spec_auth_info_xml(
            self.contact.auth_info.password@,
        ) + "</create></create>"@
    }

    fn command_xml(&self) -> (r: String) {
        let mut out = String::from_str(
            "<create><create xmlns=\"urn:ietf:params:xml:ns:contact-1.0\"><id>",
        );
        append_escaped(&mut out, self.contact.id);
        out.append("</id>");
        append_postal_info(&mut out, &self.contact.postal_info);
        match &self.contact.voice {
            Some(v) => append_voice(&mut out, v),
            None => {},
        }
        match &self.contact.fax {
            Some(f) => append_fax(&mut out, f),
            None => {},
        }
        out.append("<email>");
        append_escaped(&mut out, self.contact.email);
        out.append("</email>");
        out.append("<authInfo><pw>");
        append_escaped(&mut out, self.contact.auth_info.password.as_str());
        out.append("</pw></authInfo>");
        out.append("</create></create>");
        out
    }
}

} // verus!
