//! The units shared by every day-granular window and every basis-point share.

use vstd::prelude::*;

verus! {

/// Length of a day, in seconds. Lock, cliff, vesting and holding windows are
/// all measured with this one constant.
pub const SECONDS_PER_DAY: i64 = 86_400;

/// Basis points in a whole: 10000 bps are 100%.
pub const BPS_DENOMINATOR: u64 = 10_000;

/// The share of `amount` that `bps` basis points stand for, rounded down.
pub open spec fn bps_share(amount: int, bps: int) -> int {
    amount * bps / (BPS_DENOMINATOR as int)
}

/// A share of at most 100% of an amount lies between zero and the amount.
pub proof fn lemma_bps_share_bounded(amount: int, bps: int)
    requires
        0 <= amount,
        0 <= bps <= BPS_DENOMINATOR,
    ensures
        0 <= bps_share(amount, bps) <= amount,
{
    assert(0 <= amount * bps <= amount * 10_000) by (nonlinear_arith)
        requires
            0 <= amount,
            0 <= bps <= 10_000,
    ;
}

/// Computes the share of `amount` that `bps` basis points stand for. The
/// product is formed in a wider type, so it cannot overflow.
pub fn share_of(amount: u64, bps: u16) -> (share: u128)
    ensures
        share == bps_share(amount as int, bps as int),
{
    let wide_amount: u128 = amount as u128;
    let wide_bps: u128 = bps as u128;
    assert(wide_amount * wide_bps <= 0xffff_ffff_ffff_ffff * 0xffff) by (nonlinear_arith)
        requires
            wide_amount <= 0xffff_ffff_ffff_ffff,
            wide_bps <= 0xffff,
    ;
    wide_amount * wide_bps / (BPS_DENOMINATOR as u128)
}

} // verus!
