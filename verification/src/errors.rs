//! The errors an engine operation can fail with.

use vstd::prelude::*;

verus! {

/// Why an engine operation was refused. Every failure is total: the engine's
/// state is unchanged whenever an operation returns one of these.
#[derive(Clone, Copy, Debug, PartialEq, Eq, Structural)]
pub enum EscrowError {
    /// No escrow record exists under the given order id.
    NotFound,
    /// The record has already been released or refunded; its status is terminal.
    AlreadyProcessed,
    /// The caller is not the identity this operation requires.
    NotAuthorized,
    /// The escrow amount is not strictly positive.
    InvalidAmount,
    /// Buyer and seller are the same identity.
    SameParty,
    /// The requested fee rate exceeds the allowed maximum.
    FeeTooHigh,
    /// The auto-release window has not yet elapsed.
    WindowNotElapsed,
    /// The platform configuration has not been initialized.
    NotInitialized,
}

} // verus!
