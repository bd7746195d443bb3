//! The client-facing surface: the handle over one connection, the pairing of
//! a command with its optional extension, and the rule that turns a decoded
//! response into a success or a structured command error.

use vstd::prelude::*;

use crate::connection::EppConnection;
use crate::error::Error;
use crate::hello::{parse_greeting, spec_greeting_wf, Greeting};
use crate::response::{spec_text, ResponseParts, ResponseStatus};
use crate::xml::{Command, Extension};

verus! {

/// A command paired with the extension accompanying it, if any. Which
/// pairings exist is governed by [`crate::xml::Transaction`].
#[derive(Clone, Copy, Debug)]
pub struct RequestData<'c, 'e, C, E> {
    pub command: &'c C,
    pub extension: Option<&'e E>,
}

impl<'c, C: Command> RequestData<'c, 'static, C, crate::xml::NoExtension> {
    /// A bare command, with no extension.
    pub fn from_command(command: &'c C) -> (r: Self)
        ensures
            r.command == command,
            r.extension is None,
    {
        RequestData { command, extension: None }
    }
}

impl<'c, 'e, C: Command, E: Extension> RequestData<'c, 'e, C, E> {
    /// A command together with an extension.
    pub fn from_pair(command: &'c C, extension: &'e E) -> (r: Self)
        ensures
            r.command == command,
            r.extension matches Some(e) && e == extension,
    {
        RequestData { command, extension: Some(extension) }
    }
}

/// A client's view of one EPP connection. The handle answers greeting
/// queries from the connection's cache; everything that needs the wire goes
/// through the connection task.
#[derive(Debug)]
pub struct EppClient {
    connection: EppConnection,
}

impl EppClient {
    /// The connection, in specifications.
    pub closed spec fn spec_connection(&self) -> EppConnection {
        self.connection
    }

    /// A client over an established connection.
    pub fn new(connection: EppConnection) -> (c: Self)
        ensures
            c.spec_connection() == connection,
    {
        EppClient { connection }
    }

    /// The greeting received when the connection was established (or last
    /// refreshed), in raw XML form, straight from the cache: no wire
    /// traffic.
    pub fn xml_greeting(&self) -> (r: String)
        ensures
            r@ == self.spec_connection().greeting@,
    {
        self.connection.greeting.clone()
    }

    /// The cached greeting, read into its typed form. Fails exactly when the
    /// cached document does not announce a server name.
    pub fn greeting(&self) -> (r: Result<Greeting, Error>)
        ensures
            r is Ok <==> spec_greeting_wf(self.spec_connection().greeting@),
            r matches Ok(g) ==> {
                let s = self.spec_connection().greeting@;
                &&& g.server_id@ == spec_text(s, "<svID>"@, "</svID>"@)->Some_0
                &&& (match spec_text(s, "<svDate>"@, "</svDate>"@) {
                    Some(d) => g.server_date matches Some(x) && x@ == d,
                    None => g.server_date is None,
                })
            },
    {
        parse_greeting(self.connection.greeting.as_str())
    }
}

/// Applies the protocol's success rule to a decoded response: a result code
/// in the success family passes the response through, and any other code
/// turns it into a structured command error carrying the result and the
/// transaction ids — never a partial success.
pub fn interpret_response(parts: ResponseParts) -> (r: Result<ResponseParts, Error>)
    ensures
        r is Ok <==> parts.result.code.spec_is_success(),
        r matches Ok(p) ==> p == parts,
        r matches Err(e) ==> e matches Error::Command(b) && b.result == parts.result && b.tr_ids
            == parts.tr_ids,
{
    if parts.result.code.is_success() {
        Ok(parts)
    } else {
        Err(
            Error::Command(
                Box::new(ResponseStatus { result: parts.result, tr_ids: parts.tr_ids }),
            ),
        )
    }
}

} // verus!
