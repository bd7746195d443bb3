//! The EPP `<poll>` commands: requesting the next queued message, and
//! acknowledging one.

use vstd::prelude::*;
use vstd::string::*;

use crate::text::{append_escaped, spec_escape};
use crate::xml::{Command, NoExtension, Transaction};

verus! {

/// The `<poll>` command with `op="req"`: asks for the message at the head of
/// the server's queue.
#[derive(Debug)]
pub struct Poll;

impl Transaction<NoExtension> for Poll {

}

impl Command for Poll {
    open spec fn xml_spec(&self) -> Seq<char> {
        "<poll op=\"req\"/>"@
    }

    fn command_xml(&self) -> (r: String) {
        String::from_str("<poll op=\"req\"/>")
    }
}

/// The `<poll>` command with `op="ack"`.
#[derive(Debug)]
pub struct Ack<'a> {
    /// The id of the message to acknowledge.
    pub message_id: &'a str,
}

impl<'a> Transaction<NoExtension> for Ack<'a> {

}

impl<'a> Command for Ack<'a> {
    open spec fn xml_spec(&self) -> Seq<char> {
        "<poll op=\"ack\" msgID=\""@ + spec_escape(self.message_id@) + "\"/>"@
    }

    fn command_xml(&self) -> (r: String) {
        let mut out = String::from_str("<poll op=\"ack\" msgID=\"");
        append_escaped(&mut out, self.message_id);
        out.append("\"/>");
        out
    }
}

} // verus!
