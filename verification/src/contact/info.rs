//! The EPP contact `<info>` command.

use vstd::prelude::*;
use vstd::string::*;

use crate::contact::ContactAuthInfo;
use crate::text::{append_escaped, spec_escape};
use crate::xml::{Command, NoExtension, Transaction};

verus! {

/// The XML written for a contact `<authInfo>` element.
pub open spec fn spec_auth_info_xml(pw: Seq<char>) -> Seq<char> {
    "<authInfo><pw>"@ + spec_escape(pw) + "</pw></authInfo>"@
}

/// The elements under the contact `<info>` tag.
#[derive(Debug)]
pub struct ContactInfoRequest<'a> {
    /// The contact id to ask about.
    pub id: &'a str,
    /// The authorization for the query.
    pub auth_info: ContactAuthInfo,
}

/// The EPP `<info>` command for contacts.
#[derive(Debug)]
pub struct ContactInfo<'a> {
    /// The data of the query.
    pub info: ContactInfoRequest<'a>,
}

impl<'a> ContactInfo<'a> {
    /// An info query for the given contact id, authorized by the given
    /// password.
    pub fn new(id: &'a str, auth_password: &'a str) -> (r: ContactInfo<'a>)
        ensures
            r.info.id@ == id@,
            r.info.auth_info.password@ == auth_password@,
    {
        Self { info: ContactInfoRequest { id, auth_info: ContactAuthInfo::new(auth_password) } }
    }
}

impl<'a> Transaction<NoExtension> for ContactInfo<'a> {

}

impl<'a> Command for ContactInfo<'a> {
    open spec fn xml_spec(&self) -> Seq<char> {
        "<info><info xmlns=\"urn:ietf:params:xml:ns:contact-1.0\"><id>"@ + spec_escape(
            self.info.id@,
        ) + "</id>"@ + spec_auth_info_xml(self.info.auth_info.password@) + "</info></info>"@
    }

    fn command_xml(&self) -> (r: String) {
        let mut out = String::from_str(
            "<info><info xmlns=\"urn:ietf:params:xml:ns:contact-1.0\"><id>",
        );
        append_escaped(&mut out, self.info.id);
        out.append("</id>");
        out.append("<authInfo><pw>");
        append_escaped(&mut out, self.info.auth_info.password.as_str());
        out.append("</pw></authInfo>");
        out.append("</info></info>");
        out
    }
}

} // verus!
