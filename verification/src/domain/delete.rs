//! The EPP domain `<delete>` command.

use vstd::prelude::*;
use vstd::string::*;

use crate::text::{append_escaped, spec_escape};
use crate::xml::{Command, NoExtension, Transaction};

verus! {

/// The EPP `<delete>` command for domains.
#[derive(Debug)]
pub struct DomainDelete<'a> {
    /// The domain to delete.
    pub name: &'a str,
}

impl<'a> DomainDelete<'a> {
    /// A delete command for the given domain.
    pub fn new(name: &'a str) -> (r: Self)
        ensures
            r.name@ == name@,
    {
        DomainDelete { name }
    }
}

impl<'a> Transaction<NoExtension> for DomainDelete<'a> {

}

impl<'a> Command for DomainDelete<'a> {
    open spec fn xml_spec(&self) -> Seq<char> {
        "<delete><delete xmlns=\"urn:ietf:params:xml:ns:domain-1.0\"><name>"@ + spec_escape(
            self.name@,
        ) + "</name></delete></delete>"@
    }

    fn command_xml(&self) -> (r: String) {
        let mut out = String::from_str(
            "<delete><delete xmlns=\"urn:ietf:params:xml:ns:domain-1.0\"><name>",
        );
        append_escaped(&mut out, self.name);
        out.append("</name></delete></delete>");
        out
    }
}

} // verus!
