//! The escrow lifecycle engine: record creation, authorization-gated
//! settlement (manual release, time-gated auto-release, refund), fee
//! accrual, and administrative configuration of the fee policy.
//!
//! The engine owns all mutable state: the escrow records keyed by order id,
//! the platform configuration singleton, and the fee accumulator. Each
//! operation takes the authenticated caller and, where relevant, the current
//! time as plain arguments — the host verifies signatures and reads its
//! clock — and returns the `Transfer` instructions the host must perform
//! atomically with the operation. An operation that fails leaves the engine
//! exactly as it was.

use crate::errors::EscrowError;
use crate::fees::{
    fee_of, lemma_fee_bounds, lemma_fee_by_parts, lemma_fee_parts_bounds, net_of,
};
use crate::model::{
    config_valid, escrow_valid, Escrow, EscrowStatus, Party, PlatformConfig, Transfer,
    BPS_DENOMINATOR, DEFAULT_RELEASE_WINDOW, MAX_PLATFORM_FEE_BPS,
};
use vstd::hash_map::HashMapWithView;
use vstd::prelude::*;

verus! {

broadcast use vstd::std_specs::hash::group_hash_axioms;

/// The engine's abstract state: what its contracts are stated over.
#[verifier::ext_equal]
pub struct EngineView {
    /// Every live escrow record, keyed by order id.
    pub records: Map<u32, Escrow>,
    /// The fee policy, or `None` before initialization.
    pub config: Option<PlatformConfig>,
    /// Sum of all fees accrued by successful releases.
    pub total_fees: int,
}

/// The invariant the engine maintains across every operation: stored records
/// are valid, the configuration (once set) is within bounds, and the fee
/// accumulator never goes negative.
pub open spec fn engine_inv(v: EngineView) -> bool {
    &&& forall|id: u32| #[trigger] v.records.contains_key(id) ==> escrow_valid(v.records[id])
    &&& v.config matches Some(c) ==> config_valid(c)
    &&& v.total_fees >= 0
}

/// The configuration, where one is set; an arbitrary placeholder otherwise.
/// Contracts only apply it under `v.config is Some`.
pub open spec fn cfg_of(v: EngineView) -> PlatformConfig {
    match v.config {
        Some(c) => c,
        None => PlatformConfig { platform_fee_bps: 0, platform_wallet: 0, admin: 0 },
    }
}

/// When `create_escrow` succeeds: the authenticated caller is the buyer
/// funding the escrow, the principal is positive, and the parties differ.
pub open spec fn create_allowed(caller: u64, buyer: u64, seller: u64, amount: i128) -> bool {
    &&& caller == buyer
    &&& amount > 0
    &&& buyer != seller
}

/// When `release_funds` succeeds: the record exists, the caller is its
/// buyer, it is still pending, and the fee policy is initialized.
pub open spec fn release_allowed(v: EngineView, caller: u64, order_id: u32) -> bool {
    &&& v.records.contains_key(order_id)
    &&& caller == v.records[order_id].buyer
    &&& v.records[order_id].status is Pending
    &&& v.config is Some
}

/// Whether the record exists, is pending, and its release window has
/// elapsed at time `now`. This is the condition `can_auto_release` reports;
/// it deliberately ignores whether the fee policy is initialized.
pub open spec fn auto_release_ripe(v: EngineView, now: u64, order_id: u32) -> bool {
    &&& v.records.contains_key(order_id)
    &&& v.records[order_id].status is Pending
    &&& now >= v.records[order_id].created_at + v.records[order_id].release_window
}

/// When `auto_release` succeeds: the window has elapsed and the fee policy
/// is initialized. No identity is required — anyone may finalize a stalled
/// escrow, but nobody can rush one.
pub open spec fn auto_release_allowed(v: EngineView, now: u64, order_id: u32) -> bool {
    &&& auto_release_ripe(v, now, order_id)
    &&& v.config is Some
}

/// Who may refund an order: its buyer, or the platform operator. Platform
/// authority is bound to the configured admin identity — the same identity
/// that manages the fee policy — so it exists only once the policy is
/// initialized.
pub open spec fn refund_authorized(v: EngineView, claimant: u64, order_id: u32) -> bool {
    ||| claimant == v.records[order_id].buyer
    ||| (v.config matches Some(c) && claimant == c.admin)
}

/// When `refund` succeeds: the record exists, the claimant is authorized,
/// and the record is still pending.
pub open spec fn refund_allowed(v: EngineView, claimant: u64, order_id: u32) -> bool {
    &&& v.records.contains_key(order_id)
    &&& refund_authorized(v, claimant, order_id)
    &&& v.records[order_id].status is Pending
}

/// The fee a release of `order_id` accrues under the current policy.
pub open spec fn release_fee(v: EngineView, order_id: u32) -> int {
    fee_of(v.records[order_id].amount as int, cfg_of(v).platform_fee_bps as int)
}

/// `e` with its status moved to `Released`; every other field unchanged.
pub open spec fn released_record(e: Escrow) -> Escrow {
    Escrow { status: EscrowStatus::Released, ..e }
}

/// `e` with its status moved to `Refunded`; every other field unchanged.
pub open spec fn refunded_record(e: Escrow) -> Escrow {
    Escrow { status: EscrowStatus::Refunded, ..e }
}

/// The transfers a release performs: the fee from custody to the platform
/// wallet when it is non-zero, then the remainder from custody to the
/// seller.
pub open spec fn settlement_transfers(e: Escrow, c: PlatformConfig) -> Seq<Transfer> {
    let fee = fee_of(e.amount as int, c.platform_fee_bps as int);
    let to_seller = Transfer {
        token: e.token,
        from: Party::Custody,
        to: Party::Account(e.seller),
        amount: (e.amount - fee) as i128,
    };
    let to_wallet = Transfer {
        token: e.token,
        from: Party::Custody,
        to: Party::Account(c.platform_wallet),
        amount: fee as i128,
    };
    if fee > 0 {
        seq![to_wallet, to_seller]
    } else {
        seq![to_seller]
    }
}

/// The error `release_funds` reports, by check order: existence, then
/// authorization, then lifecycle status, then configuration.
pub open spec fn release_error(v: EngineView, caller: u64, order_id: u32) -> EscrowError {
    if !v.records.contains_key(order_id) {
        EscrowError::NotFound
    } else if caller != v.records[order_id].buyer {
        EscrowError::NotAuthorized
    } else if !(v.records[order_id].status is Pending) {
        EscrowError::AlreadyProcessed
    } else {
        EscrowError::NotInitialized
    }
}

/// The error `auto_release` reports, by check order: existence, then
/// lifecycle status, then the window, then configuration.
pub open spec fn auto_release_error(v: EngineView, now: u64, order_id: u32) -> EscrowError {
    if !v.records.contains_key(order_id) {
        EscrowError::NotFound
    } else if !(v.records[order_id].status is Pending) {
        EscrowError::AlreadyProcessed
    } else if now < v.records[order_id].created_at + v.records[order_id].release_window {
        EscrowError::WindowNotElapsed
    } else {
        EscrowError::NotInitialized
    }
}

/// The error `refund` reports, by check order: existence, then
/// authorization, then lifecycle status.
pub open spec fn refund_error(v: EngineView, claimant: u64, order_id: u32) -> EscrowError {
    if !v.records.contains_key(order_id) {
        EscrowError::NotFound
    } else if !refund_authorized(v, claimant, order_id) {
        EscrowError::NotAuthorized
    } else {
        EscrowError::AlreadyProcessed
    }
}

/// The escrow lifecycle engine. Holds the records, the fee policy, and the
/// fee accumulator; the host persists it and serializes invocations.
pub struct EscrowContract {
    records: HashMapWithView<u32, Escrow>,
    config: Option<PlatformConfig>,
    total_fees: i128,
}

impl View for EscrowContract {
    type V = EngineView;

    closed spec fn view(&self) -> EngineView {
        EngineView {
            records: self.records@,
            config: self.config,
            total_fees: self.total_fees as int,
        }
    }
}

impl EscrowContract {
    /// The engine's invariant, as seen through its abstract state.
    pub open spec fn wf(&self) -> bool {
        engine_inv(self@)
    }

    /// A fresh engine: no records, no configuration, nothing collected.
    pub fn new() -> (engine: Self)
        ensures
            engine.wf(),
            engine@.records == Map::<u32, Escrow>::empty(),
            engine@.config is None,
            engine@.total_fees == 0,
    {
        EscrowContract { records: HashMapWithView::new(), config: None, total_fees: 0 }
    }

    /// The platform fee on `amount` at `fee_bps`, rounded down. The product
    /// is computed by splitting `amount` at the basis-point denominator so
    /// that no intermediate value can leave the 128-bit range.
    pub fn calculate_fee(amount: i128, fee_bps: u32) -> (fee: i128)
        requires
            0 <= amount,
            fee_bps <= BPS_DENOMINATOR,
        ensures
            fee == fee_of(amount as int, fee_bps as int),
            0 <= fee <= amount,
    {
        proof {
            lemma_fee_by_parts(amount as int, fee_bps as int);
            lemma_fee_parts_bounds(amount as int, fee_bps as int);
            lemma_fee_bounds(amount as int, fee_bps as int);
        }
        let q = amount / 10000;
        let r = amount % 10000;
        let f = fee_bps as i128;
        q * f + (r * f) / 10000
    }

    /// Quote the fee the current policy would charge on `amount`.
    pub fn calculate_fee_for_amount(&self, amount: i128) -> (r: Result<i128, EscrowError>)
        requires
            self.wf(),
            0 <= amount,
        ensures
            match r {
                Ok(fee) => self@.config is Some && fee == fee_of(
                    amount as int,
                    cfg_of(self@).platform_fee_bps as int,
                ),
                Err(e) => self@.config is None && e == EscrowError::NotInitialized,
            },
    {
        match self.config {
            Some(cfg) => Ok(Self::calculate_fee(amount, cfg.platform_fee_bps)),
            None => Err(EscrowError::NotInitialized),
        }
    }

    /// Quote what a seller would receive if `amount` were released under the
    /// current policy.
    pub fn calculate_seller_net_amount(&self, amount: i128) -> (r: Result<i128, EscrowError>)
        requires
            self.wf(),
            0 <= amount,
        ensures
            match r {
                Ok(net) => self@.config is Some && net == net_of(
                    amount as int,
                    cfg_of(self@).platform_fee_bps as int,
                ),
                Err(e) => self@.config is None && e == EscrowError::NotInitialized,
            },
    {
        match self.config {
            Some(cfg) => {
                let fee = Self::calculate_fee(amount, cfg.platform_fee_bps);
                Ok(amount - fee)
            },
            None => Err(EscrowError::NotInitialized),
        }
    }

    /// The record stored under `order_id`.
    pub fn get_escrow(&self, order_id: u32) -> (r: Result<Escrow, EscrowError>)
        ensures
            match r {
                Ok(e) => self@.records.contains_key(order_id) && e == self@.records[order_id],
                Err(e) => !self@.records.contains_key(order_id) && e == EscrowError::NotFound,
            },
    {
        match self.records.get(&order_id) {
            Some(e) => Ok(*e),
            None => Err(EscrowError::NotFound),
        }
    }

    /// Whether `auto_release` of `order_id` would be eligible at time `now`.
    /// A missing or settled record reports "cannot" rather than an error:
    /// this is a query, not a transition.
    pub fn can_auto_release(&self, now: u64, order_id: u32) -> (r: bool)
        ensures
            r == auto_release_ripe(self@, now, order_id),
    {
        match self.records.get(&order_id) {
            Some(e) => {
                e.status == EscrowStatus::Pending && now >= e.created_at && now - e.created_at
                    >= e.release_window
            },
            None => false,
        }
    }

    /// The current fee rate in basis points.
    pub fn get_platform_fee(&self) -> (r: Result<u32, EscrowError>)
        ensures
            match r {
                Ok(bps) => self@.config is Some && bps == cfg_of(self@).platform_fee_bps,
                Err(e) => self@.config is None && e == EscrowError::NotInitialized,
            },
    {
        match self.config {
            Some(cfg) => Ok(cfg.platform_fee_bps),
            None => Err(EscrowError::NotInitialized),
        }
    }

    /// The identity currently credited with platform fees.
    pub fn get_platform_wallet(&self) -> (r: Result<u64, EscrowError>)
        ensures
            match r {
                Ok(w) => self@.config is Some && w == cfg_of(self@).platform_wallet,
                Err(e) => self@.config is None && e == EscrowError::NotInitialized,
            },
    {
        match self.config {
            Some(cfg) => Ok(cfg.platform_wallet),
            None => Err(EscrowError::NotInitialized),
        }
    }

    /// Everything the platform has collected in fees so far; zero before
    /// initialization.
    pub fn get_total_fees_collected(&self) -> (total: i128)
        ensures
            total == self@.total_fees,
    {
        self.total_fees
    }

    /// Install the fee policy: rate, fee wallet, and admin. The caller must
    /// authenticate as the admin being installed, and the rate must be at
    /// most `MAX_PLATFORM_FEE_BPS`. Also resets the fee accumulator to
    /// zero. Calling it again silently overwrites the previous policy; the
    /// records are untouched either way.
    pub fn initialize(
        &mut self,
        caller: u64,
        platform_wallet: u64,
        admin: u64,
        platform_fee_bps: u32,
    ) -> (r: Result<(), EscrowError>)
        requires
            old(self).wf(),
        ensures
            final(self).wf(),
            r is Ok <==> caller == admin && platform_fee_bps <= MAX_PLATFORM_FEE_BPS,
            match r {
                Ok(()) => {
                    &&& final(self)@.config == Some(
                        PlatformConfig { platform_fee_bps, platform_wallet, admin },
                    )
                    &&& final(self)@.total_fees == 0
                    &&& final(self)@.records == old(self)@.records
                },
                Err(e) => {
                    &&& *final(self) == *old(self)
                    &&& e == (if caller != admin {
                        EscrowError::NotAuthorized
                    } else {
                        EscrowError::FeeTooHigh
                    })
                },
            },
    {
        if caller != admin {
            return Err(EscrowError::NotAuthorized);
        }
        if platform_fee_bps > MAX_PLATFORM_FEE_BPS {
            return Err(EscrowError::FeeTooHigh);
        }
        self.config = Some(PlatformConfig { platform_fee_bps, platform_wallet, admin });
        self.total_fees = 0;
        proof {
            lemma_records_inv_carries(old(self)@, self@);
        }
        Ok(())
    }

    /// Replace the fee rate. Only the configured admin may call this, and
    /// any rate above `MAX_PLATFORM_FEE_BPS` is refused; the wallet and
    /// admin are untouched.
    pub fn update_platform_fee(&mut self, caller: u64, new_fee_bps: u32) -> (r: Result<
        (),
        EscrowError,
    >)
        requires
            old(self).wf(),
        ensures
            final(self).wf(),
            r is Ok <==> old(self)@.config is Some && caller == cfg_of(old(self)@).admin
                && new_fee_bps <= MAX_PLATFORM_FEE_BPS,
            match r {
                Ok(()) => {
                    &&& final(self)@.config == Some(
                        PlatformConfig { platform_fee_bps: new_fee_bps, ..cfg_of(old(self)@) },
                    )
                    &&& final(self)@.records == old(self)@.records
                    &&& final(self)@.total_fees == old(self)@.total_fees
                },
                Err(e) => {
                    &&& *final(self) == *old(self)
                    &&& e == (if old(self)@.config is None {
                        EscrowError::NotInitialized
                    } else if caller != cfg_of(old(self)@).admin {
                        EscrowError::NotAuthorized
                    } else {
                        EscrowError::FeeTooHigh
                    })
                },
            },
    {
        let cfg = match self.config {
            Some(c) => c,
            None => {
                return Err(EscrowError::NotInitialized);
            },
        };
        if caller != cfg.admin {
            return Err(EscrowError::NotAuthorized);
        }
        if new_fee_bps > MAX_PLATFORM_FEE_BPS {
            return Err(EscrowError::FeeTooHigh);
        }
        self.config = Some(
            PlatformConfig {
                platform_fee_bps: new_fee_bps,
                platform_wallet: cfg.platform_wallet,
                admin: cfg.admin,
            },
        );
        proof {
            lemma_records_inv_carries(old(self)@, self@);
        }
        Ok(())
    }

    /// Replace the identity that receives platform fees. Only the
    /// configured admin may call this; the rate and admin are untouched.
    pub fn update_platform_wallet(&mut self, caller: u64, new_wallet: u64) -> (r: Result<
        (),
        EscrowError,
    >)
        requires
            old(self).wf(),
        ensures
            final(self).wf(),
            r is Ok <==> old(self)@.config is Some && caller == cfg_of(old(self)@).admin,
            match r {
                Ok(()) => {
                    &&& final(self)@.config == Some(
                        PlatformConfig { platform_wallet: new_wallet, ..cfg_of(old(self)@) },
                    )
                    &&& final(self)@.records == old(self)@.records
                    &&& final(self)@.total_fees == old(self)@.total_fees
                },
                Err(e) => {
                    &&& *final(self) == *old(self)
                    &&& e == (if old(self)@.config is None {
                        EscrowError::NotInitialized
                    } else {
                        EscrowError::NotAuthorized
                    })
                },
            },
    {
        let cfg = match self.config {
            Some(c) => c,
            None => {
                return Err(EscrowError::NotInitialized);
            },
        };
        if caller != cfg.admin {
            return Err(EscrowError::NotAuthorized);
        }
        self.config = Some(
            PlatformConfig {
                platform_fee_bps: cfg.platform_fee_bps,
                platform_wallet: new_wallet,
                admin: cfg.admin,
            },
        );
        proof {
            lemma_records_inv_carries(old(self)@, self@);
        }
        Ok(())
    }

    /// Open an escrow for an order: the buyer commits `amount` of `token`
    /// for `seller`, to be held in custody until released or refunded. The
    /// caller must authenticate as the buyer; the principal must be
    /// positive and the parties distinct. `release_window` falls back to
    /// `DEFAULT_RELEASE_WINDOW` when not supplied, and `now` is recorded as
    /// the creation time. Returns the stored record together with the
    /// transfer of the principal from the buyer into custody. A record
    /// already stored under the same order id is overwritten: order ids are
    /// the caller's responsibility to keep unique.
    pub fn create_escrow(
        &mut self,
        caller: u64,
        buyer: u64,
        seller: u64,
        token: u64,
        amount: i128,
        order_id: u32,
        release_window: Option<u64>,
        now: u64,
    ) -> (r: Result<(Escrow, Transfer), EscrowError>)
        requires
            old(self).wf(),
        ensures
            final(self).wf(),
            r is Ok <==> create_allowed(caller, buyer, seller, amount),
            match r {
                Ok((rec, funding)) => {
                    &&& rec == (Escrow {
                        buyer,
                        seller,
                        token,
                        amount,
                        status: EscrowStatus::Pending,
                        created_at: now,
                        release_window: resolve_window(release_window),
                    })
                    &&& final(self)@.records == old(self)@.records.insert(order_id, rec)
                    &&& final(self)@.config == old(self)@.config
                    &&& final(self)@.total_fees == old(self)@.total_fees
                    &&& funding == (Transfer {
                        token,
                        from: Party::Account(buyer),
                        to: Party::Custody,
                        amount,
                    })
                },
                Err(e) => {
                    &&& *final(self) == *old(self)
                    &&& e == (if caller != buyer {
                        EscrowError::NotAuthorized
                    } else if amount <= 0 {
                        EscrowError::InvalidAmount
                    } else {
                        EscrowError::SameParty
                    })
                },
            },
    {
        if caller != buyer {
            return Err(EscrowError::NotAuthorized);
        }
        if amount <= 0 {
            return Err(EscrowError::InvalidAmount);
        }
        if buyer == seller {
            return Err(EscrowError::SameParty);
        }
        let window = match release_window {
            Some(w) => w,
            None => DEFAULT_RELEASE_WINDOW,
        };
        let rec = Escrow {
            buyer,
            seller,
            token,
            amount,
            status: EscrowStatus::Pending,
            created_at: now,
            release_window: window,
        };
        self.records.insert(order_id, rec);
        proof {
            lemma_records_inv_insert(old(self)@, self@, order_id, rec);
        }
        let funding = Transfer { token, from: Party::Account(buyer), to: Party::Custody, amount };
        Ok((rec, funding))
    }

    /// Settle a pending record: mark it `Released`, accrue the fee, and
    /// return the transfers to perform. Shared by `release_funds` and
    /// `auto_release`, whose eligibility checks have already passed.
    fn settle_release(&mut self, order_id: u32, rec: Escrow, cfg: PlatformConfig) -> (transfers:
        Vec<Transfer>)
        requires
            old(self).wf(),
            old(self)@.records.contains_key(order_id),
            rec == old(self)@.records[order_id],
            old(self)@.config == Some(cfg),
            old(self)@.total_fees + fee_of(rec.amount as int, cfg.platform_fee_bps as int)
                <= i128::MAX,
        ensures
            final(self).wf(),
            final(self)@.records == old(self)@.records.insert(order_id, released_record(rec)),
            final(self)@.config == old(self)@.config,
            final(self)@.total_fees == old(self)@.total_fees + release_fee(old(self)@, order_id),
            final(self)@.total_fees >= old(self)@.total_fees,
            transfers@ == settlement_transfers(rec, cfg),
    {
        proof {
            assert(escrow_valid(rec));
        }
        let fee = Self::calculate_fee(rec.amount, cfg.platform_fee_bps);
        let seller_amount = rec.amount - fee;
        let updated = Escrow {
            buyer: rec.buyer,
            seller: rec.seller,
            token: rec.token,
            amount: rec.amount,
            status: EscrowStatus::Released,
            created_at: rec.created_at,
            release_window: rec.release_window,
        };
        self.records.insert(order_id, updated);
        self.total_fees = self.total_fees + fee;
        let mut transfers: Vec<Transfer> = Vec::new();
        if fee > 0 {
            transfers.push(
                Transfer {
                    token: rec.token,
                    from: Party::Custody,
                    to: Party::Account(cfg.platform_wallet),
                    amount: fee,
                },
            );
        }
        transfers.push(
            Transfer {
                token: rec.token,
                from: Party::Custody,
                to: Party::Account(rec.seller),
                amount: seller_amount,
            },
        );
        proof {
            assert(updated == released_record(rec));
            lemma_records_inv_insert(old(self)@, self@, order_id, updated);
            assert(transfers@ =~= settlement_transfers(rec, cfg));
        }
        transfers
    }

    /// Manual release by the payer: the record's buyer signs off on the
    /// order, the fee due under the current policy is accrued and sent to
    /// the platform wallet, and the remainder goes to the seller. The
    /// record becomes `Released`, which is terminal. The accumulator
    /// precondition only rules out overflowing the 128-bit fee ledger.
    pub fn release_funds(&mut self, caller: u64, order_id: u32) -> (r: Result<
        Vec<Transfer>,
        EscrowError,
    >)
        requires
            old(self).wf(),
            release_allowed(old(self)@, caller, order_id) ==> old(self)@.total_fees
                + release_fee(old(self)@, order_id) <= i128::MAX,
        ensures
            final(self).wf(),
            final(self)@.total_fees >= old(self)@.total_fees,
            r is Ok <==> release_allowed(old(self)@, caller, order_id),
            match r {
                Ok(transfers) => {
                    &&& final(self)@.records == old(self)@.records.insert(
                        order_id,
                        released_record(old(self)@.records[order_id]),
                    )
                    &&& final(self)@.config == old(self)@.config
                    &&& final(self)@.total_fees == old(self)@.total_fees + release_fee(
                        old(self)@,
                        order_id,
                    )
                    &&& transfers@ == settlement_transfers(
                        old(self)@.records[order_id],
                        cfg_of(old(self)@),
                    )
                },
                Err(e) => {
                    &&& *final(self) == *old(self)
                    &&& e == release_error(old(self)@, caller, order_id)
                },
            },
    {
        let rec = match self.records.get(&order_id) {
            Some(e) => *e,
            None => {
                return Err(EscrowError::NotFound);
            },
        };
        if caller != rec.buyer {
            return Err(EscrowError::NotAuthorized);
        }
        if rec.status != EscrowStatus::Pending {
            return Err(EscrowError::AlreadyProcessed);
        }
        let cfg = match self.config {
            Some(c) => c,
            None => {
                return Err(EscrowError::NotInitialized);
            },
        };
        Ok(self.settle_release(order_id, rec, cfg))
    }

    /// Time-gated release, callable by anyone: once the record's release
    /// window has elapsed, the same settlement as `release_funds` happens
    /// without the buyer's signature. Eligibility is gated purely by
    /// elapsed time — anyone can trigger it, nobody can rush it.
    pub fn auto_release(&mut self, now: u64, order_id: u32) -> (r: Result<
        Vec<Transfer>,
        EscrowError,
    >)
        requires
            old(self).wf(),
            auto_release_allowed(old(self)@, now, order_id) ==> old(self)@.total_fees
                + release_fee(old(self)@, order_id) <= i128::MAX,
        ensures
            final(self).wf(),
            final(self)@.total_fees >= old(self)@.total_fees,
            r is Ok <==> auto_release_allowed(old(self)@, now, order_id),
            match r {
                Ok(transfers) => {
                    &&& final(self)@.records == old(self)@.records.insert(
                        order_id,
                        released_record(old(self)@.records[order_id]),
                    )
                    &&& final(self)@.config == old(self)@.config
                    &&& final(self)@.total_fees == old(self)@.total_fees + release_fee(
                        old(self)@,
                        order_id,
                    )
                    &&& transfers@ == settlement_transfers(
                        old(self)@.records[order_id],
                        cfg_of(old(self)@),
                    )
                },
                Err(e) => {
                    &&& *final(self) == *old(self)
                    &&& e == auto_release_error(old(self)@, now, order_id)
                },
            },
    {
        let rec = match self.records.get(&order_id) {
            Some(e) => *e,
            None => {
                return Err(EscrowError::NotFound);
            },
        };
        if rec.status != EscrowStatus::Pending {
            return Err(EscrowError::AlreadyProcessed);
        }
        if !(now >= rec.created_at && now - rec.created_at >= rec.release_window) {
            return Err(EscrowError::WindowNotElapsed);
        }
        let cfg = match self.config {
            Some(c) => c,
            None => {
                return Err(EscrowError::NotInitialized);
            },
        };
        Ok(self.settle_release(order_id, rec, cfg))
    }

    /// Return the full principal to the buyer. The claimant must
    /// authenticate and be either the record's buyer or the platform
    /// operator (the configured admin). No fee is charged: the buyer gets
    /// back exactly what was committed, whatever the fee policy says. The
    /// record becomes `Refunded`, which is terminal.
    pub fn refund(&mut self, claimant: u64, order_id: u32) -> (r: Result<Transfer, EscrowError>)
        requires
            old(self).wf(),
        ensures
            final(self).wf(),
            r is Ok <==> refund_allowed(old(self)@, claimant, order_id),
            match r {
                Ok(back) => {
                    &&& final(self)@.records == old(self)@.records.insert(
                        order_id,
                        refunded_record(old(self)@.records[order_id]),
                    )
                    &&& final(self)@.config == old(self)@.config
                    &&& final(self)@.total_fees == old(self)@.total_fees
                    &&& back == (Transfer {
                        token: old(self)@.records[order_id].token,
                        from: Party::Custody,
                        to: Party::Account(old(self)@.records[order_id].buyer),
                        amount: old(self)@.records[order_id].amount,
                    })
                },
                Err(e) => {
                    &&& *final(self) == *old(self)
                    &&& e == refund_error(old(self)@, claimant, order_id)
                },
            },
    {
        let rec = match self.records.get(&order_id) {
            Some(e) => *e,
            None => {
                return Err(EscrowError::NotFound);
            },
        };
        let is_platform = match self.config {
            Some(cfg) => claimant == cfg.admin,
            None => false,
        };
        if !(claimant == rec.buyer || is_platform) {
            return Err(EscrowError::NotAuthorized);
        }
        if rec.status != EscrowStatus::Pending {
            return Err(EscrowError::AlreadyProcessed);
        }
        let updated = Escrow {
            buyer: rec.buyer,
            seller: rec.seller,
            token: rec.token,
            amount: rec.amount,
            status: EscrowStatus::Refunded,
            created_at: rec.created_at,
            release_window: rec.release_window,
        };
        self.records.insert(order_id, updated);
        proof {
            assert(updated == refunded_record(rec));
            lemma_records_inv_insert(old(self)@, self@, order_id, updated);
        }
        Ok(
            Transfer {
                token: rec.token,
                from: Party::Custody,
                to: Party::Account(rec.buyer),
                amount: rec.amount,
            },
        )
    }
}

/// The release window an escrow is created with: the supplied number of
/// seconds, or seven days when the caller leaves it out.
pub open spec fn resolve_window(release_window: Option<u64>) -> u64 {
    match release_window {
        Some(w) => w,
        None => DEFAULT_RELEASE_WINDOW,
    }
}

/// The sum of a sequence of fees.
pub open spec fn sum_of(fees: Seq<int>) -> int
    decreases fees.len(),
{
    if fees.len() == 0 {
        0
    } else {
        sum_of(fees.drop_last()) + fees.last()
    }
}

/// The fee ledger accumulates exactly. `release_funds` and `auto_release`
/// ensure that each success steps `total_fees` by that release's computed
/// fee; this lemma states that any run of ledger states related step by
/// step in that way ends at the starting total plus the sum of every fee
/// accrued along the way.
pub proof fn lemma_fees_accumulate(totals: Seq<int>, fees: Seq<int>)
    requires
        totals.len() == fees.len() + 1,
        forall|i: int| 0 <= i < fees.len() ==> totals[i + 1] == totals[i] + fees[i],
    ensures
        totals.last() == totals[0] + sum_of(fees),
    decreases fees.len(),
{
    if fees.len() > 0 {
        let head_totals = totals.drop_last();
        let head_fees = fees.drop_last();
        assert forall|i: int| 0 <= i < head_fees.len() implies head_totals[i + 1]
            == head_totals[i] + head_fees[i] by {
            assert(head_totals[i + 1] == totals[i + 1]);
            assert(head_totals[i] == totals[i]);
            assert(head_fees[i] == fees[i]);
        }
        lemma_fees_accumulate(head_totals, head_fees);
        assert(head_totals.last() == totals[totals.len() - 2]);
        assert(totals.last() == totals[totals.len() - 2] + fees[fees.len() - 1]);
    }
}

/// Settlement happens at most once per order. Every successful settlement
/// — `release_funds`, `auto_release` or `refund` — requires the record to
/// be `Pending` and leaves it `Released` or `Refunded`; this lemma states
/// that once the record has left `Pending`, no settlement of any kind, by
/// any caller, at any time, can succeed again. Together with each
/// operation's postcondition it gives exactly-once settlement.
pub proof fn lemma_settlement_at_most_once(
    v: EngineView,
    caller: u64,
    claimant: u64,
    now: u64,
    order_id: u32,
)
    requires
        v.records.contains_key(order_id),
        !(v.records[order_id].status is Pending),
    ensures
        !release_allowed(v, caller, order_id),
        !auto_release_allowed(v, now, order_id),
        !refund_allowed(v, claimant, order_id),
{
}

/// An operation that leaves the records as they were keeps every stored
/// record valid.
proof fn lemma_records_inv_carries(pre: EngineView, post: EngineView)
    requires
        engine_inv(pre),
        post.records == pre.records,
    ensures
        forall|id: u32| #[trigger]
            post.records.contains_key(id) ==> escrow_valid(post.records[id]),
{
    assert forall|id: u32| #[trigger]
        post.records.contains_key(id) implies escrow_valid(post.records[id]) by {
        assert(pre.records.contains_key(id));
    }
}

/// Storing one valid record keeps every stored record valid.
proof fn lemma_records_inv_insert(pre: EngineView, post: EngineView, order_id: u32, rec: Escrow)
    requires
        engine_inv(pre),
        escrow_valid(rec),
        post.records == pre.records.insert(order_id, rec),
    ensures
        forall|id: u32| #[trigger]
            post.records.contains_key(id) ==> escrow_valid(post.records[id]),
{
    assert forall|id: u32| #[trigger]
        post.records.contains_key(id) implies escrow_valid(post.records[id]) by {
        if id != order_id {
            assert(pre.records.contains_key(id));
        }
    }
}

} // verus!
