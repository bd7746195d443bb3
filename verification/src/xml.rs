//! EPP XML documents: the envelope every command travels in, and the
//! capability traits that tie commands, extensions and their legal pairings
//! together.
//!
//! A command value knows how to write itself as the XML fragment that stands
//! inside `<command>`; an extension likewise for `<extension>`. Which
//! extension may accompany which command is declared by implementing
//! [`Transaction`], so that an illegal pairing does not type-check.

use vstd::prelude::*;
use vstd::string::*;

use crate::text::spec_escape;

verus! {

/// The XML declaration written before every document this client generates.
pub open spec fn spec_xml_header() -> Seq<char> {
    "<?xml version=\"1.0\" encoding=\"UTF-8\" standalone=\"no\"?>\r\n"@
}

/// The opening of the `<epp>` envelope, carrying the protocol namespace.
pub open spec fn spec_epp_open() -> Seq<char> {
    "<epp xmlns=\"urn:ietf:params:xml:ns:epp-1.0\">"@
}

/// The protocol-level no-op document, sent as a keepalive and by `hello`.
pub open spec fn spec_hello_xml() -> Seq<char> {
    spec_xml_header() + spec_epp_open() + "<hello/></epp>"@
}

/// Builds the `<hello/>` document.
pub fn hello_xml() -> (r: String)
    ensures
        r@ == spec_hello_xml(),
{
    let mut out = String::from_str(
        "<?xml version=\"1.0\" encoding=\"UTF-8\" standalone=\"no\"?>\r\n",
    );
    out.append("<epp xmlns=\"urn:ietf:params:xml:ns:epp-1.0\">");
    out.append("<hello/></epp>");
    out
}

/// A value that can stand inside `<command>` as one EPP command.
pub trait Command {
    /// The XML fragment this command writes.
    spec fn xml_spec(&self) -> Seq<char>;

    /// Writes the command as its XML fragment.
    fn command_xml(&self) -> (r: String)
        ensures
            r@ == self.xml_spec(),
    ;
}

/// A value that can stand inside `<extension>` alongside a command.
pub trait Extension {
    /// The XML fragment this extension writes; empty when the extension adds
    /// nothing to the request.
    spec fn xml_spec(&self) -> Seq<char>;

    /// Writes the extension as its XML fragment.
    fn extension_xml(&self) -> (r: String)
        ensures
            r@ == self.xml_spec(),
    ;
}

/// Declares that extension `E` is a legal companion of this command: only
/// declared pairings can be handed to [`command_document`].
pub trait Transaction<E: Extension>: Command {

}

/// The absence of an extension.
pub struct NoExtension;

impl Extension for NoExtension {
    open spec fn xml_spec(&self) -> Seq<char> {
        Seq::empty()
    }

    fn extension_xml(&self) -> (r: String) {
        let r = String::new();
        assert(r@ =~= self.xml_spec());
        r
    }
}

/// The whole document for one command: the command fragment, the extension
/// fragment (framed by `<extension>` when one is present and writes
/// anything), and the client transaction id.
pub open spec fn spec_command_document(
    cmd: Seq<char>,
    ext: Option<Seq<char>>,
    cl_trid: Seq<char>,
) -> Seq<char> {
    spec_xml_header() + spec_epp_open() + "<command>"@ + cmd + (match ext {
        Some(e) => "<extension>"@ + e + "</extension>"@,
        None => Seq::empty(),
    }) + "<clTRID>"@ + spec_escape(cl_trid) + "</clTRID></command></epp>"@
}

/// Serializes one command, its optional extension and the client transaction
/// id into the document that goes on the wire.
pub fn command_document<C: Transaction<E>, E: Extension>(
    command: &C,
    extension: Option<&E>,
    cl_trid: &str,
) -> (r: String)
    ensures
        r@ == spec_command_document(
            command.xml_spec(),
            match extension {
                Some(e) => Some(e.xml_spec()),
                None => None,
            },
            cl_trid@,
        ),
{
    let mut out = String::from_str(
        "<?xml version=\"1.0\" encoding=\"UTF-8\" standalone=\"no\"?>\r\n",
    );
    out.append("<epp xmlns=\"urn:ietf:params:xml:ns:epp-1.0\">");
    out.append("<command>");
    let cmd = command.command_xml();
    out.append(cmd.as_str());
    match extension {
        Some(e) => {
            out.append("<extension>");
            let body = e.extension_xml();
            out.append(body.as_str());
            out.append("</extension>");
        },
        None => {},
    }
    out.append("<clTRID>");
    crate::text::append_escaped(&mut out, cl_trid);
    out.append("</clTRID></command></epp>");
    out
}

} // verus!
