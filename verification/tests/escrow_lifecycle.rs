//! Lifecycle tests: creation, release, auto-release and refund, with a toy
//! balance ledger that applies the transfers the engine returns, the way a
//! host's asset service would.

use escrow_engine::{EscrowContract, EscrowError, EscrowStatus, Party, Transfer};
use std::collections::HashMap;

const BUYER: u64 = 1;
const SELLER: u64 = 2;
const WALLET: u64 = 3;
const ADMIN: u64 = 4;
const TOKEN: u64 = 9;

struct Ledger {
    balances: HashMap<u64, i128>,
    custody: i128,
}

impl Ledger {
    fn new() -> Ledger {
        Ledger { balances: HashMap::new(), custody: 0 }
    }

    fn mint(&mut self, who: u64, amount: i128) {
        *self.balances.entry(who).or_insert(0) += amount;
    }

    fn balance(&self, who: u64) -> i128 {
        *self.balances.get(&who).unwrap_or(&0)
    }

    fn apply(&mut self, t: &Transfer) {
        match t.from {
            Party::Custody => self.custody -= t.amount,
            Party::Account(a) => *self.balances.entry(a).or_insert(0) -= t.amount,
        }
        match t.to {
            Party::Custody => self.custody += t.amount,
            Party::Account(a) => *self.balances.entry(a).or_insert(0) += t.amount,
        }
    }

    fn apply_all(&mut self, ts: &[Transfer]) {
        for t in ts {
            self.apply(t);
        }
    }
}

fn setup(fee_bps: u32) -> (EscrowContract, Ledger) {
    let mut engine = EscrowContract::new();
    engine.initialize(ADMIN, WALLET, ADMIN, fee_bps).unwrap();
    (engine, Ledger::new())
}

#[test]
fn test_create_escrow_success() {
    let (mut engine, mut ledger) = setup(500);
    ledger.mint(BUYER, 1000);

    let order_id = 1;
    let amount = 500;
    let window = 3600;

    let (escrow, funding) = engine
        .create_escrow(BUYER, BUYER, SELLER, TOKEN, amount, order_id, Some(window), 0)
        .unwrap();
    ledger.apply(&funding);

    assert_eq!(escrow.buyer, BUYER);
    assert_eq!(escrow.seller, SELLER);
    assert_eq!(escrow.amount, amount);
    assert_eq!(escrow.status, EscrowStatus::Pending);
    assert_eq!(escrow.release_window, window);

    let stored_escrow = engine.get_escrow(order_id).unwrap();
    assert_eq!(stored_escrow, escrow);
}

#[test]
fn test_create_escrow_default_window() {
    let (mut engine, mut ledger) = setup(500);
    ledger.mint(BUYER, 1000);
    let (escrow, funding) = engine
        .create_escrow(BUYER, BUYER, SELLER, TOKEN, 500, 1, None, 0)
        .unwrap();
    ledger.apply(&funding);

    assert_eq!(escrow.release_window, 604800); // 7 days
}

#[test]
fn test_release_funds_success() {
    let (mut engine, mut ledger) = setup(500);
    ledger.mint(BUYER, 1000);
    let (_, funding) = engine
        .create_escrow(BUYER, BUYER, SELLER, TOKEN, 500, 1, None, 0)
        .unwrap();
    ledger.apply(&funding);

    let transfers = engine.release_funds(BUYER, 1).unwrap();
    ledger.apply_all(&transfers);

    let escrow = engine.get_escrow(1).unwrap();
    assert_eq!(escrow.status, EscrowStatus::Released);

    // Seller receives 500 - 25 (5% fee) = 475
    assert_eq!(ledger.balance(SELLER), 475);
    // Platform receives 25 (5% fee)
    assert_eq!(ledger.balance(WALLET), 25);
    assert_eq!(ledger.custody, 0);

    // Check total fees collected
    assert_eq!(engine.get_total_fees_collected(), 25);
}

#[test]
fn test_release_funds_already_processed() {
    let (mut engine, mut ledger) = setup(500);
    ledger.mint(BUYER, 1000);
    let (_, funding) = engine
        .create_escrow(BUYER, BUYER, SELLER, TOKEN, 500, 1, None, 0)
        .unwrap();
    ledger.apply(&funding);
    let transfers = engine.release_funds(BUYER, 1).unwrap();
    ledger.apply_all(&transfers);

    assert_eq!(engine.release_funds(BUYER, 1), Err(EscrowError::AlreadyProcessed));
}

#[test]
fn test_auto_release_success_after_window() {
    let (mut engine, mut ledger) = setup(500);
    ledger.mint(BUYER, 1000);
    let window = 100;
    let (_, funding) = engine
        .create_escrow(BUYER, BUYER, SELLER, TOKEN, 500, 1, Some(window), 0)
        .unwrap();
    ledger.apply(&funding);

    // Advance time past the window
    let now = window + 1;

    assert!(engine.can_auto_release(now, 1));
    let transfers = engine.auto_release(now, 1).unwrap();
    ledger.apply_all(&transfers);

    let escrow = engine.get_escrow(1).unwrap();
    assert_eq!(escrow.status, EscrowStatus::Released);

    // Seller receives 500 - 25 (5% fee) = 475
    assert_eq!(ledger.balance(SELLER), 475);
    // Platform receives 25 (5% fee)
    assert_eq!(ledger.balance(WALLET), 25);
}

#[test]
fn test_auto_release_failure_before_window() {
    let (mut engine, mut ledger) = setup(500);
    ledger.mint(BUYER, 1000);
    let (_, funding) = engine
        .create_escrow(BUYER, BUYER, SELLER, TOKEN, 500, 1, Some(100), 0)
        .unwrap();
    ledger.apply(&funding);

    assert!(!engine.can_auto_release(0, 1));
    assert_eq!(engine.auto_release(0, 1), Err(EscrowError::WindowNotElapsed));
}

#[test]
fn test_refund_success_by_buyer() {
    let (mut engine, mut ledger) = setup(500);
    ledger.mint(BUYER, 1000);
    let (_, funding) = engine
        .create_escrow(BUYER, BUYER, SELLER, TOKEN, 500, 1, None, 0)
        .unwrap();
    ledger.apply(&funding);

    let back = engine.refund(BUYER, 1).unwrap();
    ledger.apply(&back);

    let escrow = engine.get_escrow(1).unwrap();
    assert_eq!(escrow.status, EscrowStatus::Refunded);

    assert_eq!(ledger.balance(BUYER), 1000);
}

#[test]
fn test_refund_failure_unauthorized() {
    let (mut engine, mut ledger) = setup(500);
    ledger.mint(BUYER, 1000);
    let (_, funding) = engine
        .create_escrow(BUYER, BUYER, SELLER, TOKEN, 500, 1, None, 0)
        .unwrap();
    ledger.apply(&funding);

    let unauthorized = 77;
    assert_eq!(engine.refund(unauthorized, 1), Err(EscrowError::NotAuthorized));
}

#[test]
fn test_refund_by_platform_admin() {
    let (mut engine, mut ledger) = setup(500);
    ledger.mint(BUYER, 1000);
    let (_, funding) = engine
        .create_escrow(BUYER, BUYER, SELLER, TOKEN, 500, 1, None, 0)
        .unwrap();
    ledger.apply(&funding);

    // Platform authority is bound to the configured admin identity.
    let back = engine.refund(ADMIN, 1).unwrap();
    ledger.apply(&back);

    assert_eq!(engine.get_escrow(1).unwrap().status, EscrowStatus::Refunded);
    assert_eq!(ledger.balance(BUYER), 1000);
}

#[test]
fn test_refund_ignores_fee_policy() {
    // The buyer gets back exactly the principal whatever the fee rate is.
    let (mut engine, mut ledger) = setup(1000);
    ledger.mint(BUYER, 700);
    let (_, funding) = engine
        .create_escrow(BUYER, BUYER, SELLER, TOKEN, 700, 1, None, 0)
        .unwrap();
    ledger.apply(&funding);
    assert_eq!(ledger.balance(BUYER), 0);

    let back = engine.refund(BUYER, 1).unwrap();
    assert_eq!(back.amount, 700);
    ledger.apply(&back);
    assert_eq!(ledger.balance(BUYER), 700);
    assert_eq!(ledger.balance(WALLET), 0);
    assert_eq!(engine.get_total_fees_collected(), 0);
}

#[test]
fn test_get_escrow_not_found() {
    let (engine, _) = setup(500);
    assert_eq!(engine.get_escrow(999), Err(EscrowError::NotFound));
}

#[test]
fn test_create_escrow_zero_amount() {
    let (mut engine, mut ledger) = setup(500);
    ledger.mint(BUYER, 1000);
    assert_eq!(
        engine.create_escrow(BUYER, BUYER, SELLER, TOKEN, 0, 1, None, 0),
        Err(EscrowError::InvalidAmount)
    );
}

#[test]
fn test_create_escrow_negative_amount() {
    let (mut engine, mut ledger) = setup(500);
    ledger.mint(BUYER, 1000);
    assert_eq!(
        engine.create_escrow(BUYER, BUYER, SELLER, TOKEN, -100, 1, None, 0),
        Err(EscrowError::InvalidAmount)
    );
}

#[test]
fn test_create_escrow_same_buyer_seller() {
    let (mut engine, mut ledger) = setup(500);
    ledger.mint(BUYER, 1000);
    assert_eq!(
        engine.create_escrow(BUYER, BUYER, BUYER, TOKEN, 500, 1, None, 0),
        Err(EscrowError::SameParty)
    );
}

#[test]
fn test_create_escrow_wrong_caller() {
    let (mut engine, _) = setup(500);
    // Only the buyer being charged may open the escrow.
    assert_eq!(
        engine.create_escrow(SELLER, BUYER, SELLER, TOKEN, 500, 1, None, 0),
        Err(EscrowError::NotAuthorized)
    );
}

#[test]
fn test_release_funds_wrong_caller() {
    let (mut engine, mut ledger) = setup(500);
    ledger.mint(BUYER, 1000);
    let (_, funding) = engine
        .create_escrow(BUYER, BUYER, SELLER, TOKEN, 500, 1, None, 0)
        .unwrap();
    ledger.apply(&funding);

    assert_eq!(engine.release_funds(SELLER, 1), Err(EscrowError::NotAuthorized));
}

#[test]
fn test_settle_only_once_across_operations() {
    // Whichever settlement happens first wins; release, auto-release and
    // refund all refuse the record afterwards.
    let (mut engine, mut ledger) = setup(500);
    ledger.mint(BUYER, 1000);
    let (_, funding) = engine
        .create_escrow(BUYER, BUYER, SELLER, TOKEN, 500, 1, Some(10), 0)
        .unwrap();
    ledger.apply(&funding);

    let back = engine.refund(BUYER, 1).unwrap();
    ledger.apply(&back);

    assert_eq!(engine.release_funds(BUYER, 1), Err(EscrowError::AlreadyProcessed));
    assert_eq!(engine.auto_release(1000, 1), Err(EscrowError::AlreadyProcessed));
    assert_eq!(engine.refund(BUYER, 1), Err(EscrowError::AlreadyProcessed));
    assert!(!engine.can_auto_release(1000, 1));

    // The buyer was made whole exactly once.
    assert_eq!(ledger.balance(BUYER), 1000);
    assert_eq!(ledger.custody, 0);
}

#[test]
fn test_release_before_initialize() {
    let mut engine = EscrowContract::new();
    let mut ledger = Ledger::new();
    ledger.mint(BUYER, 1000);
    let (_, funding) = engine
        .create_escrow(BUYER, BUYER, SELLER, TOKEN, 500, 1, None, 0)
        .unwrap();
    ledger.apply(&funding);

    assert_eq!(engine.release_funds(BUYER, 1), Err(EscrowError::NotInitialized));
    // A refund needs no fee policy at all.
    let back = engine.refund(BUYER, 1).unwrap();
    ledger.apply(&back);
    assert_eq!(ledger.balance(BUYER), 1000);
}

#[test]
fn test_can_auto_release_missing_record() {
    let (engine, _) = setup(500);
    assert!(!engine.can_auto_release(0, 42));
}

#[test]
fn test_auto_release_window_boundary() {
    // Exactly at created_at + window the release becomes eligible.
    let (mut engine, mut ledger) = setup(0);
    ledger.mint(BUYER, 500);
    let (_, funding) = engine
        .create_escrow(BUYER, BUYER, SELLER, TOKEN, 500, 1, Some(100), 50)
        .unwrap();
    ledger.apply(&funding);

    assert!(!engine.can_auto_release(149, 1));
    assert_eq!(engine.auto_release(149, 1), Err(EscrowError::WindowNotElapsed));
    assert!(engine.can_auto_release(150, 1));
    let transfers = engine.auto_release(150, 1).unwrap();
    ledger.apply_all(&transfers);
    // With a zero fee rate the seller receives the whole principal.
    assert_eq!(transfers.len(), 1);
    assert_eq!(ledger.balance(SELLER), 500);
    assert_eq!(ledger.balance(WALLET), 0);
    assert_eq!(engine.get_total_fees_collected(), 0);
}

#[test]
fn test_release_zero_fee_rate() {
    // create(amount=500, window=3600), then a manual release at a zero fee
    // rate pays the seller the full 500.
    let (mut engine, mut ledger) = setup(0);
    ledger.mint(BUYER, 500);
    let (escrow, funding) = engine
        .create_escrow(BUYER, BUYER, SELLER, TOKEN, 500, 1, Some(3600), 0)
        .unwrap();
    ledger.apply(&funding);
    assert_eq!(escrow.status, EscrowStatus::Pending);
    assert_eq!(escrow.release_window, 3600);

    let transfers = engine.release_funds(BUYER, 1).unwrap();
    ledger.apply_all(&transfers);
    assert_eq!(ledger.balance(SELLER), 500);
    assert_eq!(ledger.balance(WALLET), 0);
    assert_eq!(engine.get_total_fees_collected(), 0);
}
