//! The change poll extension (RFC 8590): attributes of a transform operation
//! reported through the poll queue.

use vstd::prelude::*;
use vstd::string::*;

use crate::error::Error;
use crate::response::{first_span, spec_text};
use crate::text::{after_first, chars_eq, chars_of, spec_after, string_of};

verus! {

/// Whether the reported object state describes it before or after the
/// operation.
#[derive(Clone, Copy, Debug, Eq, PartialEq, Structural)]
pub enum State {
    Before,
    After,
}

impl Default for State {
    /// When a poll message carries no state, it describes the object after
    /// the operation.
    fn default() -> (r: Self)
        ensures
            r == State::After,
    {
        State::After
    }
}

/// The operations a change poll message can report.
#[derive(Clone, Copy, Debug, Eq, PartialEq, Structural)]
pub enum OperationType {
    Create,
    Delete,
    Renew,
    Transfer,
    Update,
    Restore,
    AutoRenew,
    AutoDelete,
    AutoPurge,
    Custom,
}

/// The reported operation, with the custom name spelled out where the
/// registry used one.
#[derive(Clone, Debug, Eq, PartialEq)]
pub enum OperationKind {
    Create,
    Delete,
    Renew,
    Transfer,
    Update,
    Restore,
    AutoRenew,
    AutoDelete,
    AutoPurge,
    Custom(String),
}

/// The `<operation>` element: the operation, and the `op` attribute that
/// names a custom one.
#[derive(Debug)]
pub struct Operation {
    op: Option<String>,
    kind: OperationType,
}

impl Operation {
    /// The `op` attribute, in specifications.
    pub closed spec fn spec_op(&self) -> Option<String> {
        self.op
    }

    /// The operation, in specifications.
    pub closed spec fn spec_kind(&self) -> OperationType {
        self.kind
    }

    /// The reported operation. Fails exactly when a custom operation names
    /// no custom name.
    pub fn kind(&self) -> (r: Result<OperationKind, Error>)
        ensures
            match r {
                Ok(k) => !(self.spec_kind() is Custom) || (self.spec_op() matches Some(o) && k
                    == OperationKind::Custom(o)),
                Err(e) => self.spec_kind() is Custom && self.spec_op() is None && e.kind()
                    == crate::error::ErrorKind::Xml,
            },
            self.spec_kind() is Create ==> r == Ok::<_, Error>(OperationKind::Create),
            self.spec_kind() is Delete ==> r == Ok::<_, Error>(OperationKind::Delete),
            self.spec_kind() is Renew ==> r == Ok::<_, Error>(OperationKind::Renew),
            self.spec_kind() is Transfer ==> r == Ok::<_, Error>(OperationKind::Transfer),
            self.spec_kind() is Update ==> r == Ok::<_, Error>(OperationKind::Update),
            self.spec_kind() is Restore ==> r == Ok::<_, Error>(OperationKind::Restore),
            self.spec_kind() is AutoRenew ==> r == Ok::<_, Error>(OperationKind::AutoRenew),
            self.spec_kind() is AutoDelete ==> r == Ok::<_, Error>(OperationKind::AutoDelete),
            self.spec_kind() is AutoPurge ==> r == Ok::<_, Error>(OperationKind::AutoPurge),
    {
        match self.kind {
            OperationType::Create => Ok(OperationKind::Create),
            OperationType::Delete => Ok(OperationKind::Delete),
            OperationType::Renew => Ok(OperationKind::Renew),
            OperationType::Transfer => Ok(OperationKind::Transfer),
            OperationType::Update => Ok(OperationKind::Update),
            OperationType::Restore => Ok(OperationKind::Restore),
            OperationType::AutoRenew => Ok(OperationKind::AutoRenew),
            OperationType::AutoDelete => Ok(OperationKind::AutoDelete),
            OperationType::AutoPurge => Ok(OperationKind::AutoPurge),
            OperationType::Custom => match &self.op {
                Some(op) => Ok(OperationKind::Custom(op.clone())),
                None => Err(
                    Error::Xml(String::from_str("custom operation without an op attribute")),
                ),
            },
        }
    }
}

/// The kinds of dispute case a `<caseId>` can name.
#[derive(Clone, Copy, Debug, Eq, PartialEq, Structural)]
pub enum CaseIdentifierType {
    Udrp,
    Urs,
    Custom,
}

/// The dispute case kind, with the custom name spelled out where the
/// registry used one.
#[derive(Clone, Debug, Eq, PartialEq)]
pub enum CaseIdentifierKind {
    Udrp,
    Urs,
    Custom(String),
}

/// The `<caseId>` element: the case kind, an optional custom kind name, and
/// the case id.
#[derive(Debug)]
pub struct CaseIdentifier {
    id_type: CaseIdentifierType,
    name: Option<String>,
    /// The case id text.
    pub id: String,
}

impl CaseIdentifier {
    /// The case kind, in specifications.
    pub closed spec fn spec_type(&self) -> CaseIdentifierType {
        self.id_type
    }

    /// The custom kind name, in specifications.
    pub closed spec fn spec_name(&self) -> Option<String> {
        self.name
    }

    /// The case id, in specifications.
    pub closed spec fn spec_id(&self) -> String {
        self.id
    }

    /// The case kind. Fails exactly when a custom case kind names no name.
    pub fn kind(&self) -> (r: Result<CaseIdentifierKind, Error>)
        ensures
            match r {
                Ok(k) => !(self.spec_type() is Custom) || (self.spec_name() matches Some(n) && k
                    == CaseIdentifierKind::Custom(n)),
                Err(e) => self.spec_type() is Custom && self.spec_name() is None && e.kind()
                    == crate::error::ErrorKind::Xml,
            },
            self.spec_type() is Udrp ==> r == Ok::<_, Error>(CaseIdentifierKind::Udrp),
            self.spec_type() is Urs ==> r == Ok::<_, Error>(CaseIdentifierKind::Urs),
    {
        match self.id_type {
            CaseIdentifierType::Udrp => Ok(CaseIdentifierKind::Udrp),
            CaseIdentifierType::Urs => Ok(CaseIdentifierKind::Urs),
            CaseIdentifierType::Custom => match &self.name {
                Some(n) => Ok(CaseIdentifierKind::Custom(n.clone())),
                None => Err(
                    Error::Xml(
                        String::from_str("custom case identifier without a name attribute"),
                    ),
                ),
            },
        }
    }
}

/// The `<reason>` element: human-readable text, with its language.
#[derive(Debug, Eq, PartialEq)]
pub struct Reason {
    /// The language of the text; English when absent.
    pub lang: Option<String>,
    /// The text itself.
    pub inner: String,
}

/// The `<changeData>` element of a change poll message.
#[derive(Debug)]
pub struct ChangePoll {
    /// The operation that was executed.
    pub operation: Operation,
    /// When it was executed, as the raw timestamp text.
    pub date: String,
    /// The server transaction id of the operation.
    pub server_tr_id: String,
    /// Who executed it.
    pub who: String,
    /// The dispute case behind it, when there is one.
    pub case_id: Option<CaseIdentifier>,
    /// Why it was executed, when the registry says.
    pub reason: Option<Reason>,
    /// Whether the message describes the object before or after the
    /// operation, when it says.
    pub state: Option<State>,
}

impl ChangePoll {
    /// Whether the accompanying data describes the object before or after
    /// the operation; after it when the message does not say.
    pub fn state(&self) -> (r: State)
        ensures
            match self.state {
                Some(s) => r == s,
                None => r == State::After,
            },
    {
        match self.state {
            Some(s) => s,
            None => State::After,
        }
    }
}

/// How an operation name is read.
pub open spec fn spec_operation_type_of(t: Seq<char>) -> Option<OperationType> {
    if t == "create"@ {
        Some(OperationType::Create)
    } else if t == "delete"@ {
        Some(OperationType::Delete)
    } else if t == "renew"@ {
        Some(OperationType::Renew)
    } else if t == "transfer"@ {
        Some(OperationType::Transfer)
    } else if t == "update"@ {
        Some(OperationType::Update)
    } else if t == "restore"@ {
        Some(OperationType::Restore)
    } else if t == "autoRenew"@ {
        Some(OperationType::AutoRenew)
    } else if t == "autoDelete"@ {
        Some(OperationType::AutoDelete)
    } else if t == "autoPurge"@ {
        Some(OperationType::AutoPurge)
    } else if t == "custom"@ {
        Some(OperationType::Custom)
    } else {
        None
    }
}

/// Reads an operation name.
fn operation_type_of(t: &Vec<char>) -> (r: Option<OperationType>)
    ensures
        r == spec_operation_type_of(t@),
{
    if chars_eq(t, &chars_of("create")) {
        Some(OperationType::Create)
    } else if chars_eq(t, &chars_of("delete")) {
        Some(OperationType::Delete)
    } else if chars_eq(t, &chars_of("renew")) {
        Some(OperationType::Renew)
    } else if chars_eq(t, &chars_of("transfer")) {
        Some(OperationType::Transfer)
    } else if chars_eq(t, &chars_of("update")) {
        Some(OperationType::Update)
    } else if chars_eq(t, &chars_of("restore")) {
        Some(OperationType::Restore)
    } else if chars_eq(t, &chars_of("autoRenew")) {
        Some(OperationType::AutoRenew)
    } else if chars_eq(t, &chars_of("autoDelete")) {
        Some(OperationType::AutoDelete)
    } else if chars_eq(t, &chars_of("autoPurge")) {
        Some(OperationType::AutoPurge)
    } else if chars_eq(t, &chars_of("custom")) {
        Some(OperationType::Custom)
    } else {
        None
    }
}

/// How a state attribute is read.
pub open spec fn spec_state_of(t: Seq<char>) -> Option<State> {
    if t == "before"@ {
        Some(State::Before)
    } else if t == "after"@ {
        Some(State::After)
    } else {
        None
    }
}

/// How a case kind attribute is read.
pub open spec fn spec_case_type_of(t: Seq<char>) -> Option<CaseIdentifierType> {
    if t == "udrp"@ {
        Some(CaseIdentifierType::Udrp)
    } else if t == "urs"@ {
        Some(CaseIdentifierType::Urs)
    } else if t == "custom"@ {
        Some(CaseIdentifierType::Custom)
    } else {
        None
    }
}

/// The `<operation>` element's content, attributes included.
pub open spec fn spec_op_span(s: Seq<char>) -> Option<Seq<char>> {
    spec_text(s, "<operation"@, "</operation>"@)
}

/// The operation name: the element text of `<operation>`.
pub open spec fn spec_kind_text(s: Seq<char>) -> Option<Seq<char>> {
    match spec_op_span(s) {
        Some(o) => spec_after(o, ">"@),
        None => None,
    }
}

/// The `op` attribute of `<operation>`.
pub open spec fn spec_op_attr(s: Seq<char>) -> Option<Seq<char>> {
    match spec_op_span(s) {
        Some(o) => spec_text(o, " op=\""@, "\""@),
        None => None,
    }
}

/// The `<caseId>` element's content, attributes included.
pub open spec fn spec_case_span(s: Seq<char>) -> Option<Seq<char>> {
    spec_text(s, "<caseId"@, "</caseId>"@)
}

/// A well-formed `<changeData>` fragment, as far as this client reads one.
pub open spec fn spec_change_poll_wf(s: Seq<char>) -> bool {
    &&& (match spec_kind_text(s) {
        Some(k) => spec_operation_type_of(k) is Some,
        None => false,
    })
    &&& spec_text(s, "<date>"@, "</date>"@) is Some
    &&& spec_text(s, "<svTRID>"@, "</svTRID>"@) is Some
    &&& spec_text(s, "<who>"@, "</who>"@) is Some
    &&& (match spec_text(s, " state=\""@, "\""@) {
        Some(t) => spec_state_of(t) is Some,
        None => true,
    })
    &&& (match spec_text(s, "<reason"@, "</reason>"@) {
        Some(rs) => spec_after(rs, ">"@) is Some,
        None => true,
    })
    &&& (match spec_case_span(s) {
        Some(c) => (match spec_text(c, " type=\""@, "\""@) {
            Some(t) => spec_case_type_of(t) is Some && spec_after(c, ">"@) is Some,
            None => false,
        }),
        None => true,
    })
}

/// Reads the `<changeData>` fragment of a change poll message. Succeeds
/// exactly on fragments that are well formed in the sense of
/// [`spec_change_poll_wf`], and every part returned is the corresponding
/// span of the input.
pub fn parse_change_poll(xml: &str) -> (r: Result<ChangePoll, Error>)
    ensures
        r is Ok <==> spec_change_poll_wf(xml@),
        r matches Ok(c) ==> {
            let s = xml@;
            &&& Some(c.operation.spec_kind()) == spec_operation_type_of(spec_kind_text(s)->Some_0)
            &&& (match spec_op_attr(s) {
                Some(o) => c.operation.spec_op() matches Some(x) && x@ == o,
                None => c.operation.spec_op() is None,
            })
            &&& c.date@ == spec_text(s, "<date>"@, "</date>"@)->Some_0
            &&& c.server_tr_id@ == spec_text(s, "<svTRID>"@, "</svTRID>"@)->Some_0
            &&& c.who@ == spec_text(s, "<who>"@, "</who>"@)->Some_0
            &&& (match spec_text(s, " state=\""@, "\""@) {
                Some(t) => c.state == spec_state_of(t),
                None => c.state is None,
            })
            &&& (match spec_case_span(s) {
                Some(cs) => (match c.case_id {
                    Some(ref ci) => {
                        &&& Some(ci.spec_type()) == spec_case_type_of(
                            spec_text(cs, " type=\""@, "\""@)->Some_0,
                        )
                        &&& ci.spec_id()@ == spec_after(cs, ">"@)->Some_0
                        &&& (match spec_text(cs, " name=\""@, "\""@) {
                            Some(n) => ci.spec_name() matches Some(x) && x@ == n,
                            None => ci.spec_name() is None,
                        })
                    },
                    None => false,
                }),
                None => c.case_id is None,
            })
            &&& (match spec_text(s, "<reason"@, "</reason>"@) {
                Some(rs) => c.reason matches Some(re) && re.inner@ == spec_after(rs, ">"@)->Some_0
                    && (match spec_text(rs, " lang=\""@, "\""@) {
                    Some(l) => re.lang matches Some(y) && y@ == l,
                    None => re.lang is None,
                }),
                None => c.reason is None,
            })
        },
{
    let v = chars_of(xml);
    let op_span = match first_span(&v, "<operation", "</operation>") {
        Some(t) => t,
        None => {
            return Err(Error::Xml(String::from_str("change data without operation")));
        },
    };
    let gt = chars_of(">");
    let kind_text = match after_first(&op_span, &gt) {
        Some(t) => t,
        None => {
            return Err(Error::Xml(String::from_str("unterminated operation tag")));
        },
    };
    let kind = match operation_type_of(&kind_text) {
        Some(k) => k,
        None => {
            return Err(Error::Xml(String::from_str("unknown operation")));
        },
    };
    let op = match first_span(&op_span, " op=\"", "\"") {
        Some(t) => Some(string_of(&t)),
        None => None,
    };
    let date = match first_span(&v, "<date>", "</date>") {
        Some(t) => string_of(&t),
        None => {
            return Err(Error::Xml(String::from_str("change data without date")));
        },
    };
    let server_tr_id = match first_span(&v, "<svTRID>", "</svTRID>") {
        Some(t) => string_of(&t),
        None => {
            return Err(Error::Xml(String::from_str("change data without svTRID")));
        },
    };
    let who = match first_span(&v, "<who>", "</who>") {
        Some(t) => string_of(&t),
        None => {
            return Err(Error::Xml(String::from_str("change data without who")));
        },
    };
    let state = match first_span(&v, " state=\"", "\"") {
        Some(t) => {
            if chars_eq(&t, &chars_of("before")) {
                Some(State::Before)
            } else if chars_eq(&t, &chars_of("after")) {
                Some(State::After)
            } else {
                return Err(Error::Xml(String::from_str("unknown state")));
            }
        },
        None => None,
    };
    let case_id = match first_span(&v, "<caseId", "</caseId>") {
        Some(cs) => {
            let type_text = match first_span(&cs, " type=\"", "\"") {
                Some(t) => t,
                None => {
                    return Err(Error::Xml(String::from_str("caseId without type")));
                },
            };
            let id_type = if chars_eq(&type_text, &chars_of("udrp")) {
                CaseIdentifierType::Udrp
            } else if chars_eq(&type_text, &chars_of("urs")) {
                CaseIdentifierType::Urs
            } else if chars_eq(&type_text, &chars_of("custom")) {
                CaseIdentifierType::Custom
            } else {
                return Err(Error::Xml(String::from_str("unknown caseId type")));
            };
            let name = match first_span(&cs, " name=\"", "\"") {
                Some(t) => Some(string_of(&t)),
                None => None,
            };
            let id = match after_first(&cs, &gt) {
                Some(t) => string_of(&t),
                None => {
                    return Err(Error::Xml(String::from_str("unterminated caseId tag")));
                },
            };
            Some(CaseIdentifier { id_type, name, id })
        },
        None => None,
    };
    let reason = match first_span(&v, "<reason", "</reason>") {
        Some(rs) => {
            let lang = match first_span(&rs, " lang=\"", "\"") {
                Some(t) => Some(string_of(&t)),
                None => None,
            };
            let inner = match after_first(&rs, &gt) {
                Some(t) => string_of(&t),
                None => {
                    return Err(Error::Xml(String::from_str("unterminated reason tag")));
                },
            };
            Some(Reason { lang, inner })
        },
        None => None,
    };
    Ok(
        ChangePoll {
            operation: Operation { op, kind },
            date,
            server_tr_id,
            who,
            case_id,
            reason,
            state,
        },
    )
}

} // verus!
