//! The EPP `<poll>` command that acknowledges a queued message.

use vstd::prelude::*;
use vstd::string::*;

use crate::text::{append_escaped, spec_escape};
use crate::xml::{Command, NoExtension, Transaction};

verus! {

/// The `<poll>` command with `op="ack"`: acknowledges (and dequeues) one
/// message of the server's queue.
#[derive(Debug)]
pub struct MessageAck<'a> {
    /// The operation; always the acknowledgement.
    op: &'a str,
    /// The id of the message to acknowledge.
    message_id: &'a str,
}

impl<'a> MessageAck<'a> {
    /// An acknowledgement of the message with the given id.
    pub fn new(message_id: &'a str) -> (r: Self)
        ensures
            r.spec_message_id()@ == message_id@,
    {
        Self { op: "ack", message_id }
    }

    /// The id of the message to acknowledge, in specifications.
    pub closed spec fn spec_message_id(&self) -> &'a str {
        self.message_id
    }
}

impl<'a> Transaction<NoExtension> for MessageAck<'a> {

}

impl<'a> Command for MessageAck<'a> {
    open spec fn xml_spec(&self) -> Seq<char> {
        "<poll op=\"ack\" msgID=\""@ + spec_escape(self.spec_message_id()@) + "\"/>"@
    }

    fn command_xml(&self) -> (r: String) {
        let mut out = String::from_str("<poll op=\"ack\" msgID=\"");
        append_escaped(&mut out, self.message_id);
        out.append("\"/>");
        out
    }
}

} // verus!
