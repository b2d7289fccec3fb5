//! The vesting schedule: how much of a grant has unlocked at a given time.

use vstd::prelude::*;
use vstd::arithmetic::div_mod::{lemma_div_is_ordered, lemma_div_multiples_vanish};
use vstd::arithmetic::mul::lemma_mul_inequality;
use crate::units::{bps_share, share_of, SECONDS_PER_DAY};

verus! {

/// Seconds in a window of `days` days.
pub open spec fn window_seconds(days: int) -> int {
    days * (SECONDS_PER_DAY as int)
}

/// The part of `pool` that a linear release over `duration` seconds has
/// unlocked after `elapsed` of them, rounded down.
pub open spec fn linear_release(pool: int, elapsed: int, duration: int) -> int {
    pool * elapsed / duration
}

/// The cumulative amount of a grant of `total` that has unlocked at `now`.
///
/// The share `tge_bps` unlocks at once. Until `cliff_days` have passed since
/// `start` nothing more does. After the cliff the rest is released linearly
/// over `duration_days`, rounded down, and once those have passed the whole
/// grant is unlocked, exactly.
pub open spec fn vested_amount(
    total: int,
    start: int,
    cliff_days: int,
    duration_days: int,
    tge_bps: int,
    now: int,
) -> int {
    let at_start = bps_share(total, tge_bps);
    let since_cliff = now - start - window_seconds(cliff_days);
    if since_cliff < 0 {
        at_start
    } else if since_cliff >= window_seconds(duration_days) {
        total
    } else {
        at_start + linear_release(total - at_start, since_cliff, window_seconds(duration_days))
    }
}

/// Computes the seconds in a window of `days` days.
fn seconds_in_days(days: u16) -> (seconds: i128)
    ensures
        seconds == window_seconds(days as int),
        0 <= seconds <= u16::MAX * SECONDS_PER_DAY,
{
    let seconds: i64 = days as i64 * SECONDS_PER_DAY;
    seconds as i128
}

/// A linear release never unlocks more than the pool, and unlocks more as
/// more time passes.
pub proof fn lemma_linear_release_bounds(pool: int, earlier: int, later: int, duration: int)
    requires
        0 <= pool,
        0 <= earlier <= later <= duration,
        0 < duration,
    ensures
        0 <= linear_release(pool, earlier, duration) <= linear_release(pool, later, duration)
            <= pool,
{
    lemma_mul_inequality(0, earlier, pool);
    lemma_mul_inequality(earlier, later, pool);
    lemma_mul_inequality(later, duration, pool);
    assert(0 * pool == 0);
    assert(earlier * pool == pool * earlier) by (nonlinear_arith);
    assert(later * pool == pool * later) by (nonlinear_arith);
    lemma_div_is_ordered(0, pool * earlier, duration);
    lemma_div_is_ordered(pool * earlier, pool * later, duration);
    lemma_div_is_ordered(pool * later, duration * pool, duration);
    lemma_div_multiples_vanish(pool, duration);
    assert(0int / duration == 0) by (nonlinear_arith)
        requires
            0 < duration,
    ;
}

/// Computes the cumulative unlocked amount of a grant at `now`.
///
/// The grant's terms must leave the share unlocked at the start within the
/// grant, which every share of at most 100% does. Differences of timestamps
/// and products are formed in wider types, so the result is exact for every
/// pair of timestamps and every amount.
pub fn calculate_vested_amount(
    total: u64,
    start: i64,
    cliff_days: u16,
    duration_days: u16,
    tge_bps: u16,
    now: i64,
) -> (vested: u64)
    requires
        bps_share(total as int, tge_bps as int) <= total,
    ensures
        vested == vested_amount(
            total as int,
            start as int,
            cliff_days as int,
            duration_days as int,
            tge_bps as int,
            now as int,
        ),
        bps_share(total as int, tge_bps as int) <= vested <= total,
{
    let tge_amount: u64 = share_of(total, tge_bps) as u64;
    let vesting_amount: u64 = total - tge_amount;
    let elapsed: i128 = now as i128 - start as i128;
    let cliff_seconds: i128 = seconds_in_days(cliff_days);
    let duration_seconds: i128 = seconds_in_days(duration_days);
    if elapsed < cliff_seconds {
        return tge_amount;
    }
    let vesting_elapsed: i128 = elapsed - cliff_seconds;
    if vesting_elapsed >= duration_seconds {
        return total;
    }
    let pool: u128 = vesting_amount as u128;
    let passed: u128 = vesting_elapsed as u128;
    let whole: u128 = duration_seconds as u128;
    proof {
        lemma_linear_release_bounds(pool as int, passed as int, passed as int, whole as int);
        assert(pool * passed <= 0xffff_ffff_ffff_ffff * 0xffff_ffff_ffff) by (nonlinear_arith)
            requires
                pool <= 0xffff_ffff_ffff_ffff,
                passed <= 0xffff_ffff_ffff,
        ;
    }
    let released: u128 = pool * passed / whole;
    tge_amount + released as u64
}

/// Every share of at most 100% satisfies what `calculate_vested_amount` asks
/// of a grant's terms.
pub proof fn lemma_terms_valid_up_to_whole(total: u64, tge_bps: u16)
    requires
        tge_bps <= 10_000,
    ensures
        bps_share(total as int, tge_bps as int) <= total,
{
    crate::units::lemma_bps_share_bounded(total as int, tge_bps as int);
}

/// At every time the unlocked amount lies between the share unlocked at the
/// start and the whole grant.
pub proof fn lemma_vested_within_grant(
    total: u64,
    start: i64,
    cliff_days: u16,
    duration_days: u16,
    tge_bps: u16,
    now: i64,
)
    requires
        bps_share(total as int, tge_bps as int) <= total,
    ensures
        bps_share(total as int, tge_bps as int) <= vested_amount(
            total as int,
            start as int,
            cliff_days as int,
            duration_days as int,
            tge_bps as int,
            now as int,
        ) <= total,
{
    let pool = total - bps_share(total as int, tge_bps as int);
    let duration = window_seconds(duration_days as int);
    let since_cliff = now - start - window_seconds(cliff_days as int);
    if 0 <= since_cliff < duration {
        lemma_linear_release_bounds(pool, since_cliff, since_cliff, duration);
    }
}

/// The unlocked amount never falls as time advances.
pub proof fn lemma_vested_monotone(
    total: u64,
    start: i64,
    cliff_days: u16,
    duration_days: u16,
    tge_bps: u16,
    earlier: i64,
    later: i64,
)
    requires
        bps_share(total as int, tge_bps as int) <= total,
        earlier <= later,
    ensures
        vested_amount(
            total as int,
            start as int,
            cliff_days as int,
            duration_days as int,
            tge_bps as int,
            earlier as int,
        ) <= vested_amount(
            total as int,
            start as int,
            cliff_days as int,
            duration_days as int,
            tge_bps as int,
            later as int,
        ),
{
    let at_start = bps_share(total as int, tge_bps as int);
    let pool = total - at_start;
    let duration = window_seconds(duration_days as int);
    let e1 = earlier - start - window_seconds(cliff_days as int);
    let e2 = later - start - window_seconds(cliff_days as int);
    if 0 <= e2 < duration {
        if 0 <= e1 {
            lemma_linear_release_bounds(pool, e1, e2, duration);
        } else {
            lemma_linear_release_bounds(pool, e2, e2, duration);
        }
    } else if 0 <= e1 < duration {
        lemma_linear_release_bounds(pool, e1, e1, duration);
    }
}

/// At the start of a schedule exactly the share unlocked at once has vested,
/// provided the schedule has a cliff or a release period. (A schedule with
/// neither is over as it starts and has unlocked the whole grant.)
pub proof fn lemma_vested_at_start(
    total: u64,
    start: i64,
    cliff_days: u16,
    duration_days: u16,
    tge_bps: u16,
)
    requires
        cliff_days > 0 || duration_days > 0 || bps_share(total as int, tge_bps as int) == total,
    ensures
        vested_amount(
            total as int,
            start as int,
            cliff_days as int,
            duration_days as int,
            tge_bps as int,
            start as int,
        ) == bps_share(total as int, tge_bps as int),
{
    let at_start = bps_share(total as int, tge_bps as int);
    let duration = window_seconds(duration_days as int);
    if cliff_days == 0 && duration_days > 0 {
        assert((total - at_start) * 0 == 0);
        assert(0int / duration == 0) by (nonlinear_arith)
            requires
                0 < duration,
        ;
    }
}

/// Once the cliff and the release period have both passed the whole grant
/// has vested, with no rounding left over.
pub proof fn lemma_vested_in_full_at_end(
    total: u64,
    start: i64,
    cliff_days: u16,
    duration_days: u16,
    tge_bps: u16,
    now: i64,
)
    requires
        now - start >= window_seconds(cliff_days as int) + window_seconds(duration_days as int),
    ensures
        vested_amount(
            total as int,
            start as int,
            cliff_days as int,
            duration_days as int,
            tge_bps as int,
            now as int,
        ) == total,
{
}

/// With nothing unlocked at once and no cliff, the grant vests in proportion
/// to the time passed: after `now - start` seconds of a release period of
/// `duration_days`, the product of grant and seconds passed, divided by the
/// seconds of the period and rounded down.
pub proof fn lemma_vested_linear_without_cliff(
    total: u64,
    start: i64,
    duration_days: u16,
    now: i64,
)
    requires
        0 <= now - start < window_seconds(duration_days as int),
    ensures
        vested_amount(total as int, start as int, 0, duration_days as int, 0, now as int) == total
            * (now - start) / window_seconds(duration_days as int),
{
    assert(total * 0 == 0);
    assert(bps_share(total as int, 0) == 0);
}

} // verus!
