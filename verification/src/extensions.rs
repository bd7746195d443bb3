//! Protocol extensions: per-RFC additions that ride along with commands and
//! responses.

pub mod change_poll;
pub mod fee;
pub mod frnic;
pub mod rgp;
pub mod secdns;
