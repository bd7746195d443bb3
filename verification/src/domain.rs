//! Mapping for EPP domain objects, as described in RFC 5731.

use vstd::prelude::*;
use vstd::string::*;

use crate::error::Error;
use crate::text::str_eq;

pub mod check;
pub mod delete;

verus! {

/// The XML namespace of domain objects.
pub open spec fn spec_domain_xmlns() -> Seq<char> {
    "urn:ietf:params:xml:ns:domain-1.0"@
}

/// A host named by a `<hostObj>` element.
#[derive(Clone, Debug, Eq, PartialEq)]
pub struct HostObj {
    pub name: String,
}

/// The `<contact>` type on domain creation and update requests.
#[derive(Clone, Debug, Eq, PartialEq)]
pub struct DomainContact {
    /// The contact type attribute (usually admin, billing, or tech).
    pub contact_type: String,
    /// The contact id.
    pub id: String,
}

/// A registration, renewal or transfer period: so many years or months.
#[derive(Clone, Copy, Debug)]
pub enum Period {
    Years(PeriodLength),
    Months(PeriodLength),
}

/// A period length; the protocol allows 1 through 99.
#[derive(Clone, Copy, Debug)]
pub struct PeriodLength(u8);

impl PeriodLength {
    /// The length, in specifications.
    pub closed spec fn spec_len(&self) -> u8 {
        self.0
    }

    /// Accepts a length exactly when it lies between 1 and 99.
    pub fn new(length: u8) -> (r: Result<Self, Error>)
        ensures
            r is Ok <==> 1 <= length <= 99,
            r matches Ok(p) ==> p.spec_len() == length,
    {
        match length {
            1..=99 => Ok(Self(length)),
            _ => Err(
                Error::Other(
                    String::from_str("period length must be greater than 0 and less than 100"),
                ),
            ),
        }
    }
}

/// The `<authInfo>` password for domain transactions.
#[derive(Clone, Debug, Eq, PartialEq)]
pub struct DomainAuthInfo {
    /// The `<pw>` text under `<authInfo>`.
    pub password: String,
}

impl DomainAuthInfo {
    /// An authorization carrying the given password.
    pub fn new(password: &str) -> (r: Self)
        ensures
            r.password@ == password@,
    {
        Self { password: String::from_str(password) }
    }
}

/// The `<status>` values a domain object can carry.
#[derive(Clone, Copy, Debug, Eq, PartialEq, Structural)]
pub enum Status {
    ClientDeleteProhibited,
    ServerDeleteProhibited,
    ClientHold,
    ServerHold,
    ClientRenewProhibited,
    ServerRenewProhibited,
    ClientTransferProhibited,
    ServerTransferProhibited,
    ClientUpdateProhibited,
    ServerUpdateProhibited,
    Inactive,
    Okay,
    PendingCreate,
    PendingDelete,
    PendingRenew,
    PendingTransfer,
    PendingUpdate,
}

/// The label each status is written as on the wire.
pub open spec fn spec_status_label(s: Status) -> Seq<char> {
    match s {
        Status::ClientDeleteProhibited => "clientDeleteProhibited"@,
        Status::ServerDeleteProhibited => "serverDeleteProhibited"@,
        Status::ClientHold => "clientHold"@,
        Status::ServerHold => "serverHold"@,
        Status::ClientRenewProhibited => "clientRenewProhibited"@,
        Status::ServerRenewProhibited => "serverRenewProhibited"@,
        Status::ClientTransferProhibited => "clientTransferProhibited"@,
        Status::ServerTransferProhibited => "serverTransferProhibited"@,
        Status::ClientUpdateProhibited => "clientUpdateProhibited"@,
        Status::ServerUpdateProhibited => "serverUpdateProhibited"@,
        Status::Inactive => "inactive"@,
        Status::Okay => "ok"@,
        Status::PendingCreate => "pendingCreate"@,
        Status::PendingDelete => "pendingDelete"@,
        Status::PendingRenew => "pendingRenew"@,
        Status::PendingTransfer => "pendingTransfer"@,
        Status::PendingUpdate => "pendingUpdate"@,
    }
}

impl Status {
    /// The status as it is written on the wire.
    pub fn as_str(&self) -> (r: &'static str)
        ensures
            r@ == spec_status_label(*self),
    {
        match self {
            Status::ClientDeleteProhibited => "clientDeleteProhibited",
            Status::ServerDeleteProhibited => "serverDeleteProhibited",
            Status::ClientHold => "clientHold",
            Status::ServerHold => "serverHold",
            Status::ClientRenewProhibited => "clientRenewProhibited",
            Status::ServerRenewProhibited => "serverRenewProhibited",
            Status::ClientTransferProhibited => "clientTransferProhibited",
            Status::ServerTransferProhibited => "serverTransferProhibited",
            Status::ClientUpdateProhibited => "clientUpdateProhibited",
            Status::ServerUpdateProhibited => "serverUpdateProhibited",
            Status::Inactive => "inactive",
            Status::Okay => "ok",
            Status::PendingCreate => "pendingCreate",
            Status::PendingDelete => "pendingDelete",
            Status::PendingRenew => "pendingRenew",
            Status::PendingTransfer => "pendingTransfer",
            Status::PendingUpdate => "pendingUpdate",
        }
    }

    /// Reads a wire label back. Returns the status exactly when the label is
    /// one a domain status is written as.
    pub fn from_label(label: &str) -> (r: Option<Status>)
        ensures
            match r {
                Some(s) => spec_status_label(s) == label@,
                None => forall|s: Status| spec_status_label(s) != label@,
            },
    {
        if str_eq(label, "clientDeleteProhibited") {
            Some(Status::ClientDeleteProhibited)
        } else if str_eq(label, "serverDeleteProhibited") {
            Some(Status::ServerDeleteProhibited)
        } else if str_eq(label, "clientHold") {
            Some(Status::ClientHold)
        } else if str_eq(label, "serverHold") {
            Some(Status::ServerHold)
        } else if str_eq(label, "clientRenewProhibited") {
            Some(Status::ClientRenewProhibited)
        } else if str_eq(label, "serverRenewProhibited") {
            Some(Status::ServerRenewProhibited)
        } else if str_eq(label, "clientTransferProhibited") {
            Some(Status::ClientTransferProhibited)
        } else if str_eq(label, "serverTransferProhibited") {
            Some(Status::ServerTransferProhibited)
        } else if str_eq(label, "clientUpdateProhibited") {
            Some(Status::ClientUpdateProhibited)
        } else if str_eq(label, "serverUpdateProhibited") {
            Some(Status::ServerUpdateProhibited)
        } else if str_eq(label, "inactive") {
            Some(Status::Inactive)
        } else if str_eq(label, "ok") {
            Some(Status::Okay)
        } else if str_eq(label, "pendingCreate") {
            Some(Status::PendingCreate)
        } else if str_eq(label, "pendingDelete") {
            Some(Status::PendingDelete)
        } else if str_eq(label, "pendingRenew") {
            Some(Status::PendingRenew)
        } else if str_eq(label, "pendingTransfer") {
            Some(Status::PendingTransfer)
        } else if str_eq(label, "pendingUpdate") {
            Some(Status::PendingUpdate)
        } else {
            None
        }
    }
}

} // verus!
