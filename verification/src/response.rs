//! Types for EPP responses, and the reader that extracts them from the
//! response documents this client exchanges.
//!
//! The reader works by locating the fixed tags of the response envelope and
//! taking the text between them; every function states exactly which spans of
//! the input it returns. Dates and other rich values are carried as the raw
//! text the registry sent.

use vstd::prelude::*;
use vstd::string::*;

use crate::error::Error;
use crate::text::{
    after_first, all_digits, chars_of, dec_value, enclosed, find_from, find_sub, parse_u32,
    spec_after, spec_enclosed, string_of,
};

verus! {

/// Response codes as enumerated in section 3 of RFC 5730.
#[derive(Clone, Copy, Debug, Eq, PartialEq, Structural)]
pub enum ResultCode {
    CommandCompletedSuccessfully,
    CommandCompletedSuccessfullyActionPending,
    CommandCompletedSuccessfullyNoMessages,
    CommandCompletedSuccessfullyAckToDequeue,
    CommandCompletedSuccessfullyEndingSession,
    UnknownCommand,
    CommandSyntaxError,
    CommandUseError,
    RequiredParameterMissing,
    ParameterValueRangeError,
    ParameterValueSyntaxError,
    UnimplementedProtocolVersion,
    UnimplementedCommand,
    UnimplementedOption,
    UnimplementedExtension,
    BillingFailure,
    ObjectIsNotEligibleForRenewal,
    ObjectIsNotEligibleForTransfer,
    AuthenticationError,
    AuthorizationError,
    InvalidAuthorizationInformation,
    ObjectPendingTransfer,
    ObjectNotPendingTransfer,
    ObjectExists,
    ObjectDoesNotExist,
    ObjectStatusProhibitsOperation,
    ObjectAssociationProhibitsOperation,
    ParameterValuePolicyError,
    UnimplementedObjectService,
    DataManagementPolicyViolation,
    CommandFailed,
    CommandFailedServerClosingConnection,
    AuthenticationErrorServerClosingConnection,
    SessionLimitExceededServerClosingConnection,
}

/// The numeric value each result code stands for.
pub open spec fn spec_code_value(c: ResultCode) -> u16 {
    match c {
        ResultCode::CommandCompletedSuccessfully => 1000,
        ResultCode::CommandCompletedSuccessfullyActionPending => 1001,
        ResultCode::CommandCompletedSuccessfullyNoMessages => 1300,
        ResultCode::CommandCompletedSuccessfullyAckToDequeue => 1301,
        ResultCode::CommandCompletedSuccessfullyEndingSession => 1500,
        ResultCode::UnknownCommand => 2000,
        ResultCode::CommandSyntaxError => 2001,
        ResultCode::CommandUseError => 2002,
        ResultCode::RequiredParameterMissing => 2003,
        ResultCode::ParameterValueRangeError => 2004,
        ResultCode::ParameterValueSyntaxError => 2005,
        ResultCode::UnimplementedProtocolVersion => 2100,
        ResultCode::UnimplementedCommand => 2101,
        ResultCode::UnimplementedOption => 2102,
        ResultCode::UnimplementedExtension => 2103,
        ResultCode::BillingFailure => 2104,
        ResultCode::ObjectIsNotEligibleForRenewal => 2105,
        ResultCode::ObjectIsNotEligibleForTransfer => 2106,
        ResultCode::AuthenticationError => 2200,
        ResultCode::AuthorizationError => 2201,
        ResultCode::InvalidAuthorizationInformation => 2202,
        ResultCode::ObjectPendingTransfer => 2300,
        ResultCode::ObjectNotPendingTransfer => 2301,
        ResultCode::ObjectExists => 2302,
        ResultCode::ObjectDoesNotExist => 2303,
        ResultCode::ObjectStatusProhibitsOperation => 2304,
        ResultCode::ObjectAssociationProhibitsOperation => 2305,
        ResultCode::ParameterValuePolicyError => 2306,
        ResultCode::UnimplementedObjectService => 2307,
        ResultCode::DataManagementPolicyViolation => 2308,
        ResultCode::CommandFailed => 2400,
        ResultCode::CommandFailedServerClosingConnection => 2500,
        ResultCode::AuthenticationErrorServerClosingConnection => 2501,
        ResultCode::SessionLimitExceededServerClosingConnection => 2502,
    }
}

/// Whether a number is one of the codes RFC 5730 enumerates.
pub open spec fn spec_is_known_code(code: u16) -> bool {
    ||| code == 1000
    ||| code == 1001
    ||| code == 1300
    ||| code == 1301
    ||| code == 1500
    ||| 2000 <= code <= 2005
    ||| 2100 <= code <= 2106
    ||| 2200 <= code <= 2202
    ||| 2300 <= code <= 2308
    ||| code == 2400
    ||| 2500 <= code <= 2502
}

impl ResultCode {
    /// Reads a numeric code. Returns the code exactly when the number is one
    /// of those RFC 5730 enumerates.
    pub fn from_u16(code: u16) -> (r: Option<Self>)
        ensures
            match r {
                Some(c) => spec_code_value(c) == code,
                None => !spec_is_known_code(code),
            },
    {
        let r = match code {
            1000 => Some(Self::CommandCompletedSuccessfully),
            1001 => Some(Self::CommandCompletedSuccessfullyActionPending),
            1300 => Some(Self::CommandCompletedSuccessfullyNoMessages),
            1301 => Some(Self::CommandCompletedSuccessfullyAckToDequeue),
            1500 => Some(Self::CommandCompletedSuccessfullyEndingSession),
            2000 => Some(Self::UnknownCommand),
            2001 => Some(Self::CommandSyntaxError),
            2002 => Some(Self::CommandUseError),
            2003 => Some(Self::RequiredParameterMissing),
            2004 => Some(Self::ParameterValueRangeError),
            2005 => Some(Self::ParameterValueSyntaxError),
            2100 => Some(Self::UnimplementedProtocolVersion),
            2101 => Some(Self::UnimplementedCommand),
            2102 => Some(Self::UnimplementedOption),
            2103 => Some(Self::UnimplementedExtension),
            2104 => Some(Self::BillingFailure),
            2105 => Some(Self::ObjectIsNotEligibleForRenewal),
            2106 => Some(Self::ObjectIsNotEligibleForTransfer),
            2200 => Some(Self::AuthenticationError),
            2201 => Some(Self::AuthorizationError),
            2202 => Some(Self::InvalidAuthorizationInformation),
            2300 => Some(Self::ObjectPendingTransfer),
            2301 => Some(Self::ObjectNotPendingTransfer),
            2302 => Some(Self::ObjectExists),
            2303 => Some(Self::ObjectDoesNotExist),
            2304 => Some(Self::ObjectStatusProhibitsOperation),
            2305 => Some(Self::ObjectAssociationProhibitsOperation),
            2306 => Some(Self::ParameterValuePolicyError),
            2307 => Some(Self::UnimplementedObjectService),
            2308 => Some(Self::DataManagementPolicyViolation),
            2400 => Some(Self::CommandFailed),
            2500 => Some(Self::CommandFailedServerClosingConnection),
            2501 => Some(Self::AuthenticationErrorServerClosingConnection),
            2502 => Some(Self::SessionLimitExceededServerClosingConnection),
            _ => None,
        };
        r
    }

    /// Whether the code signals a completed command.
    pub open spec fn spec_is_success(&self) -> bool {
        spec_code_value(*self) < 2000
    }

    /// Returns true exactly on the success codes (the 1xxx family).
    pub fn is_success(&self) -> (b: bool)
        ensures
            b == self.spec_is_success(),
    {
        matches!(
            self,
            ResultCode::CommandCompletedSuccessfully
                | ResultCode::CommandCompletedSuccessfullyActionPending
                | ResultCode::CommandCompletedSuccessfullyNoMessages
                | ResultCode::CommandCompletedSuccessfullyAckToDequeue
                | ResultCode::CommandCompletedSuccessfullyEndingSession
        )
    }

    /// Whether this error is likely to persist across similar requests on
    /// the same connection or session.
    pub open spec fn spec_is_persistent(&self) -> bool {
        ||| (2000 <= spec_code_value(*self) <= 2005 && spec_code_value(*self) != 2002)
        ||| 2100 <= spec_code_value(*self) <= 2103
        ||| 2500 <= spec_code_value(*self) <= 2502
    }

    /// Returns true on errors that will repeat for the same kind of command:
    /// malformed or unimplemented commands, and errors after which the
    /// server closes the connection. The same command with different
    /// arguments might still succeed in the remaining cases.
    pub fn is_persistent(&self) -> (b: bool)
        ensures
            b == self.spec_is_persistent(),
    {
        match self {
            ResultCode::UnknownCommand
            | ResultCode::CommandSyntaxError
            | ResultCode::RequiredParameterMissing
            | ResultCode::ParameterValueRangeError
            | ResultCode::ParameterValueSyntaxError
            | ResultCode::UnimplementedProtocolVersion
            | ResultCode::UnimplementedCommand
            | ResultCode::UnimplementedOption
            | ResultCode::UnimplementedExtension => true,
            ResultCode::CommandFailedServerClosingConnection
            | ResultCode::AuthenticationErrorServerClosingConnection
            | ResultCode::SessionLimitExceededServerClosingConnection => true,
            _ => false,
        }
    }
}

/// The `<undef>` element of an EPP response.
#[derive(Debug, Eq, PartialEq, Structural)]
pub struct Undef;

/// The `<value>` element under `<extValue>`.
#[derive(Debug, Eq, PartialEq, Structural)]
pub struct ResultValue {
    /// The `<undef>` element.
    pub undef: Undef,
}

/// The `<extValue>` element of a response result.
#[derive(Debug)]
pub struct ExtValue {
    /// Data under the `<value>` tag.
    pub value: ResultValue,
    /// Data under the `<reason>` tag.
    pub reason: String,
}

/// The `<result>` element of a response.
#[derive(Debug)]
pub struct EppResult {
    /// The result code.
    pub code: ResultCode,
    /// The human-readable result message.
    pub message: String,
    /// Data under the `<extValue>` tag.
    pub ext_value: Option<ExtValue>,
}

/// The `<trID>` element of a response.
#[derive(Debug)]
pub struct ResponseTRID {
    /// The client transaction id echoed back, when one was sent.
    pub client_tr_id: Option<String>,
    /// The server-assigned transaction id.
    pub server_tr_id: String,
}

/// One entry of the server's message queue, under `<msgQ>`.
#[derive(Debug)]
pub struct Message {
    /// The language of the message, when given.
    pub lang: Option<String>,
    /// The message text.
    pub text: String,
}

/// The `<msgQ>` element of a response.
#[derive(Debug)]
pub struct MessageQueue {
    /// How many messages wait on the server.
    pub count: u32,
    /// The id of the message at the head of the queue.
    pub id: String,
    /// When that message was enqueued, as the raw timestamp text.
    pub date: Option<String>,
    /// The message itself.
    pub message: Option<Message>,
}

/// The data under `<resData>`, once read into its typed form.
#[derive(Debug)]
pub struct ResponseData<D> {
    data: D,
}

impl<D> ResponseData<D> {
    /// The carried value, in specifications.
    pub closed spec fn spec_data(&self) -> D {
        self.data
    }

    /// Wraps a decoded `<resData>` value.
    pub fn new(data: D) -> (r: Self)
        ensures
            r.spec_data() == data,
    {
        ResponseData { data }
    }

    /// Unwraps the decoded value.
    pub fn into_inner(self) -> (r: D)
        ensures
            r == self.spec_data(),
    {
        self.data
    }
}

/// The data under `<extension>`, once read into its typed form.
#[derive(Debug)]
pub struct Extension<E> {
    pub data: E,
}

/// A full EPP response: result, optional message queue, optional typed
/// response data, optional typed extension data, and the transaction ids.
#[derive(Debug)]
pub struct Response<D, E> {
    /// Data under the `<result>` tag.
    pub result: EppResult,
    /// Data under the `<msgQ>` tag.
    pub message_queue: Option<MessageQueue>,
    /// Data under the `<resData>` tag.
    pub res_data: Option<ResponseData<D>>,
    /// Data under the `<extension>` tag.
    pub extension: Option<Extension<E>>,
    /// Data under the `<trID>` tag.
    pub tr_ids: ResponseTRID,
}

impl<D, E> Response<D, E> {
    /// The data under `<resData>`, when the response carries any.
    pub fn res_data(&self) -> (r: Option<&D>)
        ensures
            match self.res_data {
                Some(ref d) => r matches Some(x) && *x == d.spec_data(),
                None => r is None,
            },
    {
        match &self.res_data {
            Some(d) => Some(&d.data),
            None => None,
        }
    }

    /// The data under `<extension>`, when the response carries any.
    pub fn extension(&self) -> (r: Option<&E>)
        ensures
            match self.extension {
                Some(ref e) => r matches Some(x) && *x == e.data,
                None => r is None,
            },
    {
        match &self.extension {
            Some(e) => Some(&e.data),
            None => None,
        }
    }

    /// The message queue, when the response carries one.
    pub fn message_queue(&self) -> (r: Option<&MessageQueue>)
        ensures
            match self.message_queue {
                Some(ref q) => r matches Some(x) && *x == *q,
                None => r is None,
            },
    {
        match &self.message_queue {
            Some(q) => Some(q),
            None => None,
        }
    }
}

/// A response without message queue or response data, as used for errors.
#[derive(Debug)]
pub struct ResponseStatus {
    /// Data under the `<result>` tag.
    pub result: EppResult,
    /// Data under the `<trID>` tag.
    pub tr_ids: ResponseTRID,
}

/// The text between the first `open` and the following `close`, if both
/// occur in that order.
pub open spec fn spec_text(s: Seq<char>, open: Seq<char>, close: Seq<char>) -> Option<Seq<char>> {
    match spec_enclosed(s, open, close, 0) {
        Some((t, _)) => Some(t),
        None => None,
    }
}

/// Whether `pat` occurs anywhere in `s`.
pub open spec fn spec_has(s: Seq<char>, pat: Seq<char>) -> bool {
    find_from(s, pat, 0) is Some
}

/// Extracts the text between the first `open` and the following `close`.
pub(crate) fn first_span(v: &Vec<char>, open: &str, close: &str) -> (r: Option<Vec<char>>)
    ensures
        match r {
            Some(t) => spec_text(v@, open@, close@) == Some(t@),
            None => spec_text(v@, open@, close@) is None,
        },
{
    let o = chars_of(open);
    let c = chars_of(close);
    match enclosed(v, &o, &c, 0) {
        Some((content, _)) => Some(content),
        None => None,
    }
}

/// Whether `pat` occurs anywhere in `v`.
fn has_pattern(v: &Vec<char>, pat: &str) -> (b: bool)
    ensures
        b == spec_has(v@, pat@),
{
    let p = chars_of(pat);
    find_sub(v, &p, 0).is_some()
}

/// The result code text of a response document.
pub open spec fn spec_code_text(s: Seq<char>) -> Option<Seq<char>> {
    spec_text(s, "<result code=\""@, "\""@)
}

/// The content of the `<msgQ>` element, attributes included.
pub open spec fn spec_msgq_span(s: Seq<char>) -> Option<Seq<char>> {
    spec_text(s, "<msgQ"@, "</msgQ>"@)
}

/// The content of the `<trID>` element.
pub open spec fn spec_trid_span(s: Seq<char>) -> Option<Seq<char>> {
    spec_text(s, "<trID>"@, "</trID>"@)
}

/// A well-formed `<msgQ>` element: a numeric `count` attribute that fits a
/// `u32`, and an `id` attribute.
pub open spec fn spec_msgq_wf(q: Seq<char>) -> bool {
    &&& spec_text(q, " count=\""@, "\""@) matches Some(ct) && all_digits(ct) && dec_value(ct)
        <= u32::MAX
    &&& spec_text(q, " id=\""@, "\""@) is Some
    &&& (match spec_text(q, "<msg"@, "</msg>"@) {
        Some(m) => spec_after(m, ">"@) is Some,
        None => true,
    })
}

/// A well-formed response document, as far as this client reads one: a
/// result code that RFC 5730 enumerates, a result message, a reason whenever
/// an `<extValue>` is present, a well-formed `<msgQ>` whenever one is
/// present, and a `<trID>` with the server's transaction id.
pub open spec fn spec_response_wf(s: Seq<char>) -> bool {
    &&& spec_code_text(s) matches Some(ct) && all_digits(ct) && dec_value(ct) <= u16::MAX
        && spec_is_known_code(dec_value(ct) as u16)
    &&& spec_text(s, "<msg>"@, "</msg>"@) is Some
    &&& (spec_has(s, "<extValue>"@) ==> spec_text(s, "<reason>"@, "</reason>"@) is Some)
    &&& (spec_has(s, "<msgQ"@) ==> (match spec_msgq_span(s) {
        Some(q) => spec_msgq_wf(q),
        None => false,
    }))
    &&& spec_trid_span(s) matches Some(t) && spec_text(t, "<svTRID>"@, "</svTRID>"@) is Some
}

/// The parts of one response document: the envelope decoded, the typed
/// payloads still as raw fragments.
#[derive(Debug)]
pub struct ResponseParts {
    /// Data under the `<result>` tag.
    pub result: EppResult,
    /// Data under the `<msgQ>` tag.
    pub message_queue: Option<MessageQueue>,
    /// The raw fragment inside `<resData>`, when present.
    pub res_data: Option<String>,
    /// The raw fragment inside `<extension>`, when present.
    pub extension: Option<String>,
    /// Data under the `<trID>` tag.
    pub tr_ids: ResponseTRID,
}

/// Reads the envelope of a response document. Succeeds exactly on documents
/// that are well formed in the sense of [`spec_response_wf`], and every part
/// returned is the corresponding span of the input.
pub fn parse_response_parts(xml: &str) -> (r: Result<ResponseParts, Error>)
    ensures
        r is Ok <==> spec_response_wf(xml@),
        r matches Ok(p) ==> {
            let s = xml@;
            &&& spec_code_value(p.result.code) == dec_value(spec_code_text(s)->Some_0)
            &&& p.result.message@ == spec_text(s, "<msg>"@, "</msg>"@)->Some_0
            &&& (spec_has(s, "<extValue>"@) ==> (match p.result.ext_value {
                Some(ref v) => v.reason@ == spec_text(s, "<reason>"@, "</reason>"@)->Some_0,
                None => false,
            }))
            &&& (!spec_has(s, "<extValue>"@) ==> p.result.ext_value is None)
            &&& (spec_has(s, "<msgQ"@) ==> (match p.message_queue {
                Some(ref q) => {
                    let span = spec_msgq_span(s)->Some_0;
                    &&& q.count == dec_value(spec_text(span, " count=\""@, "\""@)->Some_0)
                    &&& q.id@ == spec_text(span, " id=\""@, "\""@)->Some_0
                    &&& (match spec_text(span, "<qDate>"@, "</qDate>"@) {
                        Some(d) => q.date matches Some(x) && x@ == d,
                        None => q.date is None,
                    })
                    &&& (match spec_text(span, "<msg"@, "</msg>"@) {
                        Some(m) => q.message matches Some(x) && x.text@ == spec_after(
                            m,
                            ">"@,
                        )->Some_0 && (match spec_text(m, " lang=\""@, "\""@) {
                            Some(l) => x.lang matches Some(y) && y@ == l,
                            None => x.lang is None,
                        }),
                        None => q.message is None,
                    })
                },
                None => false,
            }))
            &&& (!spec_has(s, "<msgQ"@) ==> p.message_queue is None)
            &&& (match spec_text(s, "<resData>"@, "</resData>"@) {
                Some(d) => p.res_data matches Some(x) && x@ == d,
                None => p.res_data is None,
            })
            &&& (match spec_text(s, "<extension>"@, "</extension>"@) {
                Some(d) => p.extension matches Some(x) && x@ == d,
                None => p.extension is None,
            })
            &&& ({
                let t = spec_trid_span(s)->Some_0;
                &&& p.tr_ids.server_tr_id@ == spec_text(t, "<svTRID>"@, "</svTRID>"@)->Some_0
                &&& (match spec_text(t, "<clTRID>"@, "</clTRID>"@) {
                    Some(c) => p.tr_ids.client_tr_id matches Some(x) && x@ == c,
                    None => p.tr_ids.client_tr_id is None,
                })
            })
        },
{
    let v = chars_of(xml);
    let code_text = match first_span(&v, "<result code=\"", "\"") {
        Some(t) => t,
        None => {
            return Err(Error::Xml(String::from_str("no result code")));
        },
    };
    let code_num = match parse_u32(&code_text) {
        Some(n) => n,
        None => {
            return Err(Error::Xml(String::from_str("result code is not a number")));
        },
    };
    if code_num > 65535 {
        return Err(Error::Xml(String::from_str("result code out of range")));
    }
    let code = match ResultCode::from_u16(code_num as u16) {
        Some(c) => c,
        None => {
            return Err(Error::Xml(String::from_str("unexpected result code")));
        },
    };
    let message = match first_span(&v, "<msg>", "</msg>") {
        Some(t) => string_of(&t),
        None => {
            return Err(Error::Xml(String::from_str("no result message")));
        },
    };
    let ext_value = if has_pattern(&v, "<extValue>") {
        match first_span(&v, "<reason>", "</reason>") {
            Some(t) => Some(ExtValue { value: ResultValue { undef: Undef }, reason: string_of(&t) }),
            None => {
                return Err(Error::Xml(String::from_str("extValue without reason")));
            },
        }
    } else {
        None
    };
    let message_queue = if has_pattern(&v, "<msgQ") {
        let span = match first_span(&v, "<msgQ", "</msgQ>") {
            Some(t) => t,
            None => {
                return Err(Error::Xml(String::from_str("unterminated msgQ")));
            },
        };
        let count_text = match first_span(&span, " count=\"", "\"") {
            Some(t) => t,
            None => {
                return Err(Error::Xml(String::from_str("msgQ without count")));
            },
        };
        let count = match parse_u32(&count_text) {
            Some(n) => n,
            None => {
                return Err(Error::Xml(String::from_str("msgQ count is not a number")));
            },
        };
        let id = match first_span(&span, " id=\"", "\"") {
            Some(t) => string_of(&t),
            None => {
                return Err(Error::Xml(String::from_str("msgQ without id")));
            },
        };
        let date = match first_span(&span, "<qDate>", "</qDate>") {
            Some(t) => Some(string_of(&t)),
            None => None,
        };
        let message = match first_span(&span, "<msg", "</msg>") {
            Some(m) => {
                let lang = match first_span(&m, " lang=\"", "\"") {
                    Some(t) => Some(string_of(&t)),
                    None => None,
                };
                let gt = chars_of(">");
                let text = match after_first(&m, &gt) {
                    Some(t) => string_of(&t),
                    None => {
                        return Err(Error::Xml(String::from_str("unterminated msg tag")));
                    },
                };
                Some(Message { lang, text })
            },
            None => None,
        };
        Some(MessageQueue { count, id, date, message })
    } else {
        None
    };
    let res_data = match first_span(&v, "<resData>", "</resData>") {
        Some(t) => Some(string_of(&t)),
        None => None,
    };
    let extension = match first_span(&v, "<extension>", "</extension>") {
        Some(t) => Some(string_of(&t)),
        None => None,
    };
    let trid_span = match first_span(&v, "<trID>", "</trID>") {
        Some(t) => t,
        None => {
            return Err(Error::Xml(String::from_str("no trID")));
        },
    };
    let server_tr_id = match first_span(&trid_span, "<svTRID>", "</svTRID>") {
        Some(t) => string_of(&t),
        None => {
            return Err(Error::Xml(String::from_str("no svTRID")));
        },
    };
    let client_tr_id = match first_span(&trid_span, "<clTRID>", "</clTRID>") {
        Some(t) => Some(string_of(&t)),
        None => None,
    };
    Ok(
        ResponseParts {
            result: EppResult { code, message, ext_value },
            message_queue,
            res_data,
            extension,
            tr_ids: ResponseTRID { client_tr_id, server_tr_id },
        },
    )
}

/// Reads a response as a bare status: the result and the transaction ids.
/// Succeeds exactly on well-formed response documents.
pub fn parse_response_status(xml: &str) -> (r: Result<ResponseStatus, Error>)
    ensures
        r is Ok <==> spec_response_wf(xml@),
        r matches Ok(p) ==> {
            let s = xml@;
            &&& spec_code_value(p.result.code) == dec_value(spec_code_text(s)->Some_0)
            &&& p.result.message@ == spec_text(s, "<msg>"@, "</msg>"@)->Some_0
            &&& (spec_has(s, "<extValue>"@) ==> (match p.result.ext_value {
                Some(ref v) => v.reason@ == spec_text(s, "<reason>"@, "</reason>"@)->Some_0,
                None => false,
            }))
            &&& (!spec_has(s, "<extValue>"@) ==> p.result.ext_value is None)
            &&& p.tr_ids.server_tr_id@ == spec_text(
                spec_trid_span(s)->Some_0,
                "<svTRID>"@,
                "</svTRID>"@,
            )->Some_0
            &&& (match spec_text(spec_trid_span(s)->Some_0, "<clTRID>"@, "</clTRID>"@) {
                Some(c) => p.tr_ids.client_tr_id matches Some(x) && x@ == c,
                None => p.tr_ids.client_tr_id is None,
            })
        },
{
    match parse_response_parts(xml) {
        Ok(p) => Ok(ResponseStatus { result: p.result, tr_ids: p.tr_ids }),
        Err(e) => Err(e),
    }
}

} // verus!
