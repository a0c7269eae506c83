//! Fee arithmetic: the mathematical definition of the platform fee, the
//! seller's net amount, and the proofs that the split conserves value and
//! stays within the principal.

use vstd::arithmetic::div_mod::{
    lemma_div_is_ordered, lemma_div_pos_is_pos, lemma_fundamental_div_mod,
    lemma_hoist_over_denominator,
};
use vstd::arithmetic::mul::{
    lemma_mul_inequality, lemma_mul_is_commutative, lemma_mul_is_distributive_add_other_way,
    lemma_mul_nonnegative,
};
use vstd::prelude::*;

verus! {

/// The platform fee on `amount` at `fee_bps` basis points, rounded down:
/// `floor(amount * fee_bps / 10000)`. Truncation favors the seller.
pub open spec fn fee_of(amount: int, fee_bps: int) -> int {
    amount * fee_bps / 10000
}

/// What the seller receives when `amount` is released at `fee_bps`:
/// the principal minus the fee.
pub open spec fn net_of(amount: int, fee_bps: int) -> int {
    amount - fee_of(amount, fee_bps)
}

/// The fee lies between zero and the principal whenever the rate is at most
/// the whole (10 000 basis points).
pub proof fn lemma_fee_bounds(amount: int, fee_bps: int)
    requires
        0 <= amount,
        0 <= fee_bps <= 10000,
    ensures
        0 <= fee_of(amount, fee_bps) <= amount,
{
    lemma_mul_nonnegative(amount, fee_bps);
    lemma_div_pos_is_pos(amount * fee_bps, 10000);
    lemma_mul_inequality(fee_bps, 10000, amount);
    lemma_mul_is_commutative(fee_bps, amount);
    lemma_mul_is_commutative(10000, amount);
    lemma_div_is_ordered(amount * fee_bps, amount * 10000, 10000);
    assert(amount * 10000 / 10000 == amount) by {
        lemma_hoist_over_denominator(0, amount, 10000);
    }
}

/// Conservation of value: the fee and the seller's net amount sum exactly to
/// the principal, for every amount and every rate in range. Rounding moves
/// value between the two shares but never creates or destroys any.
pub proof fn lemma_fee_split(amount: int, fee_bps: int)
    requires
        0 <= amount,
        0 <= fee_bps <= 10000,
    ensures
        fee_of(amount, fee_bps) + net_of(amount, fee_bps) == amount,
        0 <= fee_of(amount, fee_bps) <= amount,
        0 <= net_of(amount, fee_bps) <= amount,
{
    lemma_fee_bounds(amount, fee_bps);
}

/// Splitting the numerator at the divisor: computing the fee from the
/// quotient and remainder of `amount / 10000` avoids the full product, which
/// could exceed the 128-bit range, yet gives exactly `fee_of`.
pub proof fn lemma_fee_by_parts(amount: int, fee_bps: int)
    requires
        0 <= amount,
        0 <= fee_bps <= 10000,
    ensures
        fee_of(amount, fee_bps) == (amount / 10000) * fee_bps + (amount % 10000) * fee_bps
            / 10000,
{
    let q = amount / 10000;
    let r = amount % 10000;
    lemma_fundamental_div_mod(amount, 10000);
    assert(amount == 10000 * q + r);
    assert(amount * fee_bps == (10000 * q + r) * fee_bps);
    lemma_mul_is_distributive_add_other_way(fee_bps, 10000 * q, r);
    assert(amount * fee_bps == (10000 * q) * fee_bps + r * fee_bps) by {
        lemma_mul_is_commutative(10000 * q + r, fee_bps);
        lemma_mul_is_distributive_add_other_way(fee_bps, 10000 * q, r);
        lemma_mul_is_commutative(fee_bps, 10000 * q);
        lemma_mul_is_commutative(fee_bps, r);
    }
    assert((10000 * q) * fee_bps == (q * fee_bps) * 10000) by (nonlinear_arith);
    assert(r * fee_bps / 10000 + q * fee_bps == (r * fee_bps + (q * fee_bps) * 10000) / 10000)
        by {
        lemma_hoist_over_denominator(r * fee_bps, q * fee_bps, 10000);
    }
}

/// Bounds on the two parts of the split computation, showing each product
/// and the final sum fit comfortably under the principal.
pub proof fn lemma_fee_parts_bounds(amount: int, fee_bps: int)
    requires
        0 <= amount,
        0 <= fee_bps <= 10000,
    ensures
        0 <= (amount / 10000) * fee_bps <= amount,
        0 <= (amount % 10000) * fee_bps < 10000 * 10000,
{
    let q = amount / 10000;
    let r = amount % 10000;
    lemma_div_pos_is_pos(amount, 10000);
    lemma_mul_nonnegative(q, fee_bps);
    lemma_fundamental_div_mod(amount, 10000);
    lemma_mul_inequality(fee_bps, 10000, q);
    lemma_mul_is_commutative(fee_bps, q);
    lemma_mul_is_commutative(10000, q);
    lemma_mul_nonnegative(r, fee_bps);
    assert(r * fee_bps < 10000 * 10000) by (nonlinear_arith)
        requires
            0 <= r < 10000,
            0 <= fee_bps <= 10000,
    ;
}

} // verus!
