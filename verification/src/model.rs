//! The engine's data model: escrow records, platform configuration, and the
//! value transfers an operation asks the host to perform.
//!
//! Identities (buyer, seller, fee wallet, admin) and asset contracts are
//! opaque to the engine: it only ever compares them for equality and hands
//! them back in transfer instructions. They are therefore carried as plain
//! 64-bit ids; the host maps them to its own address type.

use vstd::prelude::*;

verus! {

/// Release window applied when `create_escrow` is not given one: 7 days in seconds.
pub const DEFAULT_RELEASE_WINDOW: u64 = 604800;

/// Largest platform fee the configuration accepts, in basis points (10%).
pub const MAX_PLATFORM_FEE_BPS: u32 = 1000;

/// Basis points in the whole: fee rates are fractions of 10 000.
pub const BPS_DENOMINATOR: u32 = 10000;

/// Lifecycle status of an escrow record. `Pending` is the only state an
/// operation can move out of; `Released` and `Refunded` are terminal.
/// `Disputed` is reserved for a dispute-resolution extension: no operation
/// of this engine transitions into or out of it.
#[derive(Clone, Copy, Debug, PartialEq, Eq, Structural)]
pub enum EscrowStatus {
    Pending,
    Released,
    Refunded,
    Disputed,
}

/// One order's held value and lifecycle state. All fields except `status`
/// are fixed at creation.
#[derive(Clone, Copy, Debug, PartialEq, Eq, Structural)]
pub struct Escrow {
    /// Identity of the payer, who funded the escrow.
    pub buyer: u64,
    /// Identity of the payee, who is owed the principal on release.
    pub seller: u64,
    /// Asset contract the principal is denominated in.
    pub token: u64,
    /// Principal held in custody; strictly positive.
    pub amount: i128,
    /// Lifecycle status; starts at `Pending`.
    pub status: EscrowStatus,
    /// Timestamp (seconds) captured when the record was created.
    pub created_at: u64,
    /// Seconds after `created_at` at which auto-release becomes eligible.
    pub release_window: u64,
}

/// The fee policy singleton: rate, fee wallet, and the admin allowed to
/// change either.
#[derive(Clone, Copy, Debug, PartialEq, Eq, Structural)]
pub struct PlatformConfig {
    /// Fee rate in basis points; at most `MAX_PLATFORM_FEE_BPS`.
    pub platform_fee_bps: u32,
    /// Identity credited with collected fees.
    pub platform_wallet: u64,
    /// Identity authorized to change the fee rate and wallet.
    pub admin: u64,
}

/// One side of a value transfer: either the engine's own custody or an
/// external account.
#[derive(Clone, Copy, Debug, PartialEq, Eq, Structural)]
pub enum Party {
    Custody,
    Account(u64),
}

/// An instruction to the host's asset-transfer service: move `amount` of
/// `token` from `from` to `to`. The engine never moves value itself; it
/// returns these and the host performs them atomically with the operation.
#[derive(Clone, Copy, Debug, PartialEq, Eq, Structural)]
pub struct Transfer {
    pub token: u64,
    pub from: Party,
    pub to: Party,
    pub amount: i128,
}

/// The invariant every stored escrow record satisfies: a positive principal
/// held between two distinct parties.
pub open spec fn escrow_valid(e: Escrow) -> bool {
    &&& e.amount > 0
    &&& e.buyer != e.seller
}

/// The invariant the stored configuration satisfies: the fee rate is within
/// the allowed bound.
pub open spec fn config_valid(c: PlatformConfig) -> bool {
    c.platform_fee_bps <= MAX_PLATFORM_FEE_BPS
}

} // verus!
