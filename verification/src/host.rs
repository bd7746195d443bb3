//! Mapping for EPP host objects, as described in RFC 5732.

use vstd::prelude::*;

use crate::text::str_eq;

pub mod check;

verus! {

/// The `<status>` values a host object can carry.
#[derive(Clone, Copy, Debug, Eq, PartialEq, Structural)]
pub enum Status {
    ClientDeleteProhibited,
    ServerDeleteProhibited,
    ClientUpdateProhibited,
    ServerUpdateProhibited,
    Linked,
    Okay,
    PendingCreate,
    PendingDelete,
    PendingTransfer,
    PendingUpdate,
}

/// The label each status is written as on the wire.
pub open spec fn spec_status_label(s: Status) -> Seq<char> {
    match s {
        Status::ClientDeleteProhibited => "clientDeleteProhibited"@,
        Status::ServerDeleteProhibited => "serverDeleteProhibited"@,
        Status::ClientUpdateProhibited => "clientUpdateProhibited"@,
        Status::ServerUpdateProhibited => "serverUpdateProhibited"@,
        Status::Linked => "linked"@,
        Status::Okay => "ok"@,
        Status::PendingCreate => "pendingCreate"@,
        Status::PendingDelete => "pendingDelete"@,
        Status::PendingTransfer => "pendingTransfer"@,
        Status::PendingUpdate => "pendingUpdate"@,
    }
}

impl Status {
    /// The status as it is written on the wire.
    pub fn as_str(&self) -> (r: &'static str)
        ensures
            r@ == spec_status_label(*self),
    {
        match self {
            Status::ClientDeleteProhibited => "clientDeleteProhibited",
            Status::ServerDeleteProhibited => "serverDeleteProhibited",
            Status::ClientUpdateProhibited => "clientUpdateProhibited",
            Status::ServerUpdateProhibited => "serverUpdateProhibited",
            Status::Linked => "linked",
            Status::Okay => "ok",
            Status::PendingCreate => "pendingCreate",
            Status::PendingDelete => "pendingDelete",
            Status::PendingTransfer => "pendingTransfer",
            Status::PendingUpdate => "pendingUpdate",
        }
    }

    /// Reads a wire label back. Returns the status exactly when the label is
    /// one a host status is written as.
    pub fn from_label(label: &str) -> (r: Option<Status>)
        ensures
            match r {
                Some(s) => spec_status_label(s) == label@,
                None => forall|s: Status| spec_status_label(s) != label@,
            },
    {
        if str_eq(label, "clientDeleteProhibited") {
            Some(Status::ClientDeleteProhibited)
        } else if str_eq(label, "serverDeleteProhibited") {
            Some(Status::ServerDeleteProhibited)
        } else if str_eq(label, "clientUpdateProhibited") {
            Some(Status::ClientUpdateProhibited)
        } else if str_eq(label, "serverUpdateProhibited") {
            Some(Status::ServerUpdateProhibited)
        } else if str_eq(label, "linked") {
            Some(Status::Linked)
        } else if str_eq(label, "ok") {
            Some(Status::Okay)
        } else if str_eq(label, "pendingCreate") {
            Some(Status::PendingCreate)
        } else if str_eq(label, "pendingDelete") {
            Some(Status::PendingDelete)
        } else if str_eq(label, "pendingTransfer") {
            Some(Status::PendingTransfer)
        } else if str_eq(label, "pendingUpdate") {
            Some(Status::PendingUpdate)
        } else {
            None
        }
    }
}

} // verus!
