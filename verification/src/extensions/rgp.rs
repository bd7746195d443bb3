//! The Registry Grace Period extension (RFC 3915).

use vstd::prelude::*;

use crate::text::str_eq;

verus! {

/// The grace-period statuses a domain can report.
#[derive(Clone, Copy, Debug, Eq, PartialEq, Structural)]
pub enum RgpStatus {
    AddPeriod,
    AutoRenewPeriod,
    RenewPeriod,
    TransferPeriod,
    RedemptionPeriod,
    PendingRestore,
    PendingDelete,
}

/// The label each grace-period status is written as on the wire.
pub open spec fn spec_rgp_status_label(s: RgpStatus) -> Seq<char> {
    match s {
        RgpStatus::AddPeriod => "addPeriod"@,
        RgpStatus::AutoRenewPeriod => "autoRenewPeriod"@,
        RgpStatus::RenewPeriod => "renewPeriod"@,
        RgpStatus::TransferPeriod => "transferPeriod"@,
        RgpStatus::RedemptionPeriod => "redemptionPeriod"@,
        RgpStatus::PendingRestore => "pendingRestore"@,
        RgpStatus::PendingDelete => "pendingDelete"@,
    }
}

impl RgpStatus {
    /// The status as it is written on the wire.
    pub fn as_str(&self) -> (r: &'static str)
        ensures
            r@ == spec_rgp_status_label(*self),
    {
        match self {
            RgpStatus::AddPeriod => "addPeriod",
            RgpStatus::AutoRenewPeriod => "autoRenewPeriod",
            RgpStatus::RenewPeriod => "renewPeriod",
            RgpStatus::TransferPeriod => "transferPeriod",
            RgpStatus::RedemptionPeriod => "redemptionPeriod",
            RgpStatus::PendingRestore => "pendingRestore",
            RgpStatus::PendingDelete => "pendingDelete",
        }
    }

    /// Reads a wire label back. Returns the status exactly when the label is
    /// one a grace-period status is written as.
    pub fn from_label(label: &str) -> (r: Option<RgpStatus>)
        ensures
            match r {
                Some(s) => spec_rgp_status_label(s) == label@,
                None => forall|s: RgpStatus| spec_rgp_status_label(s) != label@,
            },
    {
        if str_eq(label, "addPeriod") {
            Some(RgpStatus::AddPeriod)
        } else if str_eq(label, "autoRenewPeriod") {
            Some(RgpStatus::AutoRenewPeriod)
        } else if str_eq(label, "renewPeriod") {
            Some(RgpStatus::RenewPeriod)
        } else if str_eq(label, "transferPeriod") {
            Some(RgpStatus::TransferPeriod)
        } else if str_eq(label, "redemptionPeriod") {
            Some(RgpStatus::RedemptionPeriod)
        } else if str_eq(label, "pendingRestore") {
            Some(RgpStatus::PendingRestore)
        } else if str_eq(label, "pendingDelete") {
            Some(RgpStatus::PendingDelete)
        } else {
            None
        }
    }
}

} // verus!
