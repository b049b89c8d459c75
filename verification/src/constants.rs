//! Process-wide fee configuration. The rates are fixed at build time; the
//! token allowlist is loaded once at start (see `settlement::FeeSchedule`).

use vstd::prelude::*;

verus! {

/// Fee rates are counts of basis points: one basis point is 1/10000 of a unit.
pub const BPS_DENOMINATOR: u64 = 10000;

/// Largest platform fee a request may carry (30%).
pub const MAX_FEE_BPS: u64 = 3000;

/// Largest referrer fee a request may carry (5%).
pub const MAX_REFERRER_FEE_BPS: u64 = 500;

/// Decimal precision reported for the native currency.
pub const NATIVE_DECIMALS: u8 = 9;

/// The configured rates are consistent: a referrer fee never exceeds the
/// platform fee cap, and no cap exceeds a whole unit.
pub proof fn lemma_fee_bounds_ordered()
    ensures
        0 <= MAX_REFERRER_FEE_BPS <= MAX_FEE_BPS <= BPS_DENOMINATOR,
{
}

} // verus!
