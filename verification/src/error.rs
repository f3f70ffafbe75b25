//! The status-code mapping of the extension call interface.
//!
//! Every extension call returns a numeric status code. Code 0 means
//! success and code 1 maps to the single recoverable domain error,
//! an aggregate query failure against the backing asset. Every other
//! code is a protocol violation: the call must abort, never guess.

use vstd::prelude::*;

verus! {

/// The one recoverable domain error of the extension interface.
#[derive(Clone, Copy, Debug, PartialEq, Eq, Structural)]
pub enum Psp22Error {
    TotalSupplyFailed,
}

/// What a status code from the host extension means.
///
/// `Fatal` is the unrecoverable path: an unknown status code aborts the
/// whole call, it is never read as any defined error variant.
#[derive(Clone, Copy, Debug, PartialEq, Eq, Structural)]
pub enum StatusOutcome {
    Accepted,
    Rejected(Psp22Error),
    Fatal,
}

/// Maps a host status code to its meaning: 0 is success, 1 the aggregate
/// query failure, anything else a fatal protocol violation.
pub fn from_status_code(status_code: u32) -> (r: StatusOutcome)
    ensures
        status_code == 0 ==> r == StatusOutcome::Accepted,
        status_code == 1 ==> r == StatusOutcome::Rejected(Psp22Error::TotalSupplyFailed),
        status_code != 0 && status_code != 1 ==> r == StatusOutcome::Fatal,
{
    match status_code {
        0u32 => StatusOutcome::Accepted,
        1u32 => StatusOutcome::Rejected(Psp22Error::TotalSupplyFailed),
        _ => StatusOutcome::Fatal,
    }
}

} // verus!
