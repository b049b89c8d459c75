//! Fee arithmetic: turning (amount, fee rates) into the three shares, with
//! exact floor-division semantics and fund conservation.

use vstd::prelude::*;

use crate::constants::{BPS_DENOMINATOR, MAX_FEE_BPS, MAX_REFERRER_FEE_BPS};
use crate::errors::ErrorCode;
use crate::types::Split;
use vstd::arithmetic::div_mod::{
    lemma_div_of0, lemma_div_pos_is_pos, lemma_fundamental_div_mod,
    lemma_mod_division_less_than_divisor,
};
use vstd::arithmetic::mul::{
    lemma_mul_by_zero_is_zero, lemma_mul_inequality, lemma_mul_is_commutative,
    lemma_mul_is_distributive_add, lemma_mul_nonnegative,
};

verus! {

/// Both fee rates respect their configured maxima.
pub open spec fn fees_within_schedule(fee_bps: u16, referrer_fee_bps: u16) -> bool {
    fee_bps <= MAX_FEE_BPS && referrer_fee_bps <= MAX_REFERRER_FEE_BPS
}

/// The share a rate assigns to a beneficiary: `floor(amount * bps / 10000)`.
/// Rounding is always down; the remainder accrues to the creator.
pub open spec fn bps_amount(amount: u64, bps: u16) -> int {
    (amount * bps) / (BPS_DENOMINATOR as int)
}

/// Neither fee product leaves the 64-bit range.
pub open spec fn split_computable(amount: u64, fee_bps: u16, referrer_fee_bps: u16) -> bool {
    amount * referrer_fee_bps <= u64::MAX && amount * fee_bps <= u64::MAX
}

/// The exact split an accepted computation returns: both fees apply to the
/// same base amount independently, and the creator receives the rest.
pub open spec fn split_of(amount: u64, fee_bps: u16, referrer_fee_bps: u16) -> Split {
    Split {
        referrer_amount: bps_amount(amount, referrer_fee_bps) as u64,
        platform_amount: bps_amount(amount, fee_bps) as u64,
        creator_amount: (amount - bps_amount(amount, fee_bps) - bps_amount(
            amount,
            referrer_fee_bps,
        )) as u64,
    }
}

/// Everything `compute_split` promises of its result, as one statement:
/// success exactly when the rates are within schedule and both products fit
/// in 64 bits, the named split on success, and the discriminating error
/// otherwise.
pub open spec fn split_result_matches(
    amount: u64,
    fee_bps: u16,
    referrer_fee_bps: u16,
    r: Result<Split, ErrorCode>,
) -> bool {
    match r {
        Ok(s) => {
            &&& fees_within_schedule(fee_bps, referrer_fee_bps)
            &&& split_computable(amount, fee_bps, referrer_fee_bps)
            &&& s == split_of(amount, fee_bps, referrer_fee_bps)
        },
        Err(e) => {
            &&& !(fees_within_schedule(fee_bps, referrer_fee_bps) && split_computable(
                amount,
                fee_bps,
                referrer_fee_bps,
            ))
            &&& (e == ErrorCode::FeeBpsExceedsMaximum <==> !fees_within_schedule(
                fee_bps,
                referrer_fee_bps,
            ))
            &&& (e == ErrorCode::Overflow <==> fees_within_schedule(fee_bps, referrer_fee_bps)
                && !split_computable(amount, fee_bps, referrer_fee_bps))
        },
    }
}

/// With both rates within schedule, each share is a whole number of units and
/// the two fee shares fit beside each other inside the amount: the creator's
/// remainder never goes negative.
pub proof fn lemma_shares_bounded(amount: u64, fee_bps: u16, referrer_fee_bps: u16)
    requires
        fees_within_schedule(fee_bps, referrer_fee_bps),
    ensures
        0 <= bps_amount(amount, referrer_fee_bps),
        0 <= bps_amount(amount, fee_bps),
        bps_amount(amount, fee_bps) + bps_amount(amount, referrer_fee_bps) <= amount,
{
    let d = BPS_DENOMINATOR as int;
    let a = amount as int;
    let f = fee_bps as int;
    let g = referrer_fee_bps as int;
    let pf = a * f;
    let pg = a * g;
    lemma_mul_nonnegative(a, f);
    lemma_mul_nonnegative(a, g);
    lemma_div_pos_is_pos(pf, d);
    lemma_div_pos_is_pos(pg, d);
    // pf + pg == a * (f + g), and a * (f + g) <= a * d since f + g <= d.
    lemma_mul_is_distributive_add(a, f, g);
    lemma_mul_inequality(f + g, d, a);
    lemma_mul_is_commutative(a, f + g);
    lemma_mul_is_commutative(a, d);
    assert(pf + pg <= a * d);
    // Writing pf and pg as d * quotient + remainder bounds the quotients.
    lemma_fundamental_div_mod(pf, d);
    lemma_fundamental_div_mod(pg, d);
    lemma_mod_division_less_than_divisor(pf, d);
    lemma_mod_division_less_than_divisor(pg, d);
    assert(d * (pf / d) + d * (pg / d) <= a * d);
    assert(d * (pf / d + pg / d) <= d * a) by {
        lemma_mul_is_distributive_add(d, pf / d, pg / d);
        lemma_mul_is_commutative(a, d);
    }
    assert(pf / d + pg / d <= a) by {
        lemma_mul_inequality_converse_helper(d, pf / d + pg / d, a);
    }
}

/// From `d * x <= d * y` with `d > 0` conclude `x <= y`.
proof fn lemma_mul_inequality_converse_helper(d: int, x: int, y: int)
    requires
        d > 0,
        d * x <= d * y,
    ensures
        x <= y,
{
    if x > y {
        lemma_mul_inequality(y + 1, x, d);
        lemma_mul_is_commutative(d, x);
        lemma_mul_is_commutative(d, y);
        lemma_mul_is_commutative(y + 1, d);
        lemma_mul_is_distributive_add(d, y, 1);
        assert(d * (y + 1) == d * y + d);
        assert(false);
    }
}

/// A zero rate assigns a zero share.
pub proof fn lemma_zero_rate_zero_share(amount: u64)
    ensures
        bps_amount(amount, 0) == 0,
{
    lemma_mul_by_zero_is_zero(amount as int);
    lemma_div_of0(BPS_DENOMINATOR as int);
}

/// The share one rate assigns, or `Overflow` when `amount * bps` leaves the
/// 64-bit range. A zero rate short-circuits to a zero share.
fn bps_fee(amount: u64, bps: u16) -> (r: Result<u64, ErrorCode>)
    ensures
        match r {
            Ok(v) => amount * bps <= u64::MAX && v == bps_amount(amount, bps),
            Err(e) => e == ErrorCode::Overflow && amount * bps > u64::MAX,
        },
{
    if bps == 0 {
        return Ok(0);
    }
    match amount.checked_mul(bps as u64) {
        Some(product) => Ok(product / BPS_DENOMINATOR),
        None => Err(ErrorCode::Overflow),
    }
}

/// Split `amount` among referrer, platform and creator according to the two
/// rates.
///
/// Fails with `FeeBpsExceedsMaximum` exactly when a rate is over its maximum
/// (checked before any arithmetic on the amount), with `Overflow` exactly
/// when a fee product leaves the 64-bit range, and never otherwise: for every
/// accepted request the three shares reconstitute the amount exactly.
pub fn compute_split(amount: u64, fee_bps: u16, referrer_fee_bps: u16) -> (r: Result<
    Split,
    ErrorCode,
>)
    ensures
        split_result_matches(amount, fee_bps, referrer_fee_bps, r),
        r matches Ok(s) ==> s.referrer_amount + s.platform_amount + s.creator_amount == amount,
        r matches Ok(s) ==> referrer_fee_bps == 0 ==> s.referrer_amount == 0,
{
    if (fee_bps as u64) > MAX_FEE_BPS || (referrer_fee_bps as u64) > MAX_REFERRER_FEE_BPS {
        return Err(ErrorCode::FeeBpsExceedsMaximum);
    }
    let referrer_amount = match bps_fee(amount, referrer_fee_bps) {
        Ok(v) => v,
        Err(e) => {
            return Err(e);
        },
    };
    let platform_amount = match bps_fee(amount, fee_bps) {
        Ok(v) => v,
        Err(e) => {
            return Err(e);
        },
    };
    proof {
        lemma_shares_bounded(amount, fee_bps, referrer_fee_bps);
        if referrer_fee_bps == 0 {
            lemma_zero_rate_zero_share(amount);
        }
    }
    let after_platform = match amount.checked_sub(platform_amount) {
        Some(v) => v,
        None => {
            return Err(ErrorCode::Underflow);
        },
    };
    let creator_amount = match after_platform.checked_sub(referrer_amount) {
        Some(v) => v,
        None => {
            return Err(ErrorCode::Underflow);
        },
    };
    Ok(Split { referrer_amount, platform_amount, creator_amount })
}

/// Fund conservation: for every request the computation accepts, the three
/// shares sum back to the amount exactly — no remainder is dropped or
/// created.
pub proof fn lemma_fund_conservation(amount: u64, fee_bps: u16, referrer_fee_bps: u16)
    requires
        fees_within_schedule(fee_bps, referrer_fee_bps),
        split_computable(amount, fee_bps, referrer_fee_bps),
    ensures
        ({
            let s = split_of(amount, fee_bps, referrer_fee_bps);
            s.referrer_amount + s.platform_amount + s.creator_amount == amount
        }),
{
    lemma_shares_bounded(amount, fee_bps, referrer_fee_bps);
}

/// The computation is a pure function of its inputs: two results that both
/// satisfy its contract for the same inputs are identical, so calling it
/// twice with identical inputs yields an identical split.
pub proof fn lemma_compute_split_deterministic(
    amount: u64,
    fee_bps: u16,
    referrer_fee_bps: u16,
    r1: Result<Split, ErrorCode>,
    r2: Result<Split, ErrorCode>,
)
    requires
        split_result_matches(amount, fee_bps, referrer_fee_bps, r1),
        split_result_matches(amount, fee_bps, referrer_fee_bps, r2),
    ensures
        r1 == r2,
{
}

} // verus!
