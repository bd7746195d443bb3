//! The `<hello>` no-op and the server greeting it (and every connect) is
//! answered with.

use vstd::prelude::*;
use vstd::string::*;

use crate::error::Error;
use crate::response::{first_span, spec_text};
use crate::text::{chars_of, string_of};

verus! {

/// The greeting a registry announces itself with, as far as this client
/// reads it: the server's name and its timestamp, as raw text.
#[derive(Debug)]
pub struct Greeting {
    /// The `<svID>` text: the server's name.
    pub server_id: String,
    /// The `<svDate>` text, when present.
    pub server_date: Option<String>,
}

/// A well-formed greeting document: it announces a server name.
pub open spec fn spec_greeting_wf(s: Seq<char>) -> bool {
    spec_text(s, "<svID>"@, "</svID>"@) is Some
}

/// Reads a greeting document. Succeeds exactly when the document announces a
/// server name, and returns the announced spans.
pub fn parse_greeting(xml: &str) -> (r: Result<Greeting, Error>)
    ensures
        r is Ok <==> spec_greeting_wf(xml@),
        r matches Ok(g) ==> {
            &&& g.server_id@ == spec_text(xml@, "<svID>"@, "</svID>"@)->Some_0
            &&& (match spec_text(xml@, "<svDate>"@, "</svDate>"@) {
                Some(d) => g.server_date matches Some(x) && x@ == d,
                None => g.server_date is None,
            })
        },
{
    let v = chars_of(xml);
    let server_id = match first_span(&v, "<svID>", "</svID>") {
        Some(t) => string_of(&t),
        None => {
            return Err(Error::Xml(String::from_str("greeting without server name")));
        },
    };
    let server_date = match first_span(&v, "<svDate>", "</svDate>") {
        Some(t) => Some(string_of(&t)),
        None => None,
    };
    Ok(Greeting { server_id, server_date })
}

} // verus!
