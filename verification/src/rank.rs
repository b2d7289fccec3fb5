//! Holder ranks: a rank is earned by holding time alone and scales rewards.

use vstd::prelude::*;
use crate::units::SECONDS_PER_DAY;

verus! {

/// The loyalty rank of a holder, lowest first.
#[derive(Clone, Copy, Debug, PartialEq, Eq, Structural)]
pub enum DiamondRank {
    Paper,
    Bronze,
    Silver,
    Gold,
    Platinum,
    Diamond,
}

/// Days of holding that earn `Bronze`.
pub const BRONZE_MIN_DAYS: i64 = 7;

/// Days of holding that earn `Silver`.
pub const SILVER_MIN_DAYS: i64 = 30;

/// Days of holding that earn `Gold`.
pub const GOLD_MIN_DAYS: i64 = 60;

/// Days of holding that earn `Platinum`.
pub const PLATINUM_MIN_DAYS: i64 = 90;

/// Days of holding that earn `Diamond`.
pub const DIAMOND_MIN_DAYS: i64 = 180;

impl DiamondRank {
    /// Position of the rank in the order
    /// `Paper < Bronze < Silver < Gold < Platinum < Diamond`.
    pub open spec fn level(self) -> int {
        match self {
            DiamondRank::Paper => 0,
            DiamondRank::Bronze => 1,
            DiamondRank::Silver => 2,
            DiamondRank::Gold => 3,
            DiamondRank::Platinum => 4,
            DiamondRank::Diamond => 5,
        }
    }

    /// Whole days of holding the rank asks for.
    pub open spec fn min_days(self) -> int {
        match self {
            DiamondRank::Paper => 0,
            DiamondRank::Bronze => BRONZE_MIN_DAYS as int,
            DiamondRank::Silver => SILVER_MIN_DAYS as int,
            DiamondRank::Gold => GOLD_MIN_DAYS as int,
            DiamondRank::Platinum => PLATINUM_MIN_DAYS as int,
            DiamondRank::Diamond => DIAMOND_MIN_DAYS as int,
        }
    }

    /// Reward multiplier of the rank, in basis points.
    pub open spec fn multiplier_bps(self) -> int {
        match self {
            DiamondRank::Paper => 10000,
            DiamondRank::Bronze => 15000,
            DiamondRank::Silver => 20000,
            DiamondRank::Gold => 25000,
            DiamondRank::Platinum => 30000,
            DiamondRank::Diamond => 35000,
        }
    }
}

/// Whole days between the first buy and `now`, rounded down. Negative when
/// `now` lies before the first buy.
pub open spec fn days_held(first_buy: int, now: int) -> int {
    (now - first_buy) / (SECONDS_PER_DAY as int)
}

/// The rank a holder has at `now`: the highest rank whose holding time has
/// passed since the first buy. The balance plays no part.
pub open spec fn rank_of(first_buy: int, now: int) -> DiamondRank {
    let days = days_held(first_buy, now);
    if days >= DiamondRank::Diamond.min_days() {
        DiamondRank::Diamond
    } else if days >= DiamondRank::Platinum.min_days() {
        DiamondRank::Platinum
    } else if days >= DiamondRank::Gold.min_days() {
        DiamondRank::Gold
    } else if days >= DiamondRank::Silver.min_days() {
        DiamondRank::Silver
    } else if days >= DiamondRank::Bronze.min_days() {
        DiamondRank::Bronze
    } else {
        DiamondRank::Paper
    }
}

/// Ranks a holder by the time held since `first_buy`: the highest rank
/// whose days of holding have passed, and `Paper` where none have. Total:
/// the difference of the two timestamps is formed in a wider type.
pub fn calculate_diamond_rank(first_buy: i64, now: i64) -> (rank: DiamondRank)
    ensures
        rank == rank_of(first_buy as int, now as int),
        rank == DiamondRank::Paper || rank.min_days() <= days_held(first_buy as int, now as int),
        forall|other: DiamondRank| #[trigger]
            other.min_days() <= days_held(first_buy as int, now as int) ==> other.level()
                <= rank.level(),
{
    let elapsed: i128 = now as i128 - first_buy as i128;
    let day: i128 = SECONDS_PER_DAY as i128;
    if elapsed >= DIAMOND_MIN_DAYS as i128 * day {
        DiamondRank::Diamond
    } else if elapsed >= PLATINUM_MIN_DAYS as i128 * day {
        DiamondRank::Platinum
    } else if elapsed >= GOLD_MIN_DAYS as i128 * day {
        DiamondRank::Gold
    } else if elapsed >= SILVER_MIN_DAYS as i128 * day {
        DiamondRank::Silver
    } else if elapsed >= BRONZE_MIN_DAYS as i128 * day {
        DiamondRank::Bronze
    } else {
        DiamondRank::Paper
    }
}

/// The reward multiplier of a rank, in basis points.
pub fn get_diamond_multiplier_bps(rank: DiamondRank) -> (bps: u16)
    ensures
        bps == rank.multiplier_bps(),
{
    match rank {
        DiamondRank::Paper => 10000,
        DiamondRank::Bronze => 15000,
        DiamondRank::Silver => 20000,
        DiamondRank::Gold => 25000,
        DiamondRank::Platinum => 30000,
        DiamondRank::Diamond => 35000,
    }
}

/// The rank at `now` is one whose holding time has passed, and no higher
/// rank's has.
pub proof fn lemma_rank_is_highest_earned(first_buy: int, now: int, other: DiamondRank)
    ensures
        first_buy <= now ==> rank_of(first_buy, now).min_days() <= days_held(first_buy, now),
        other.min_days() <= days_held(first_buy, now) ==> other.level() <= rank_of(
            first_buy,
            now,
        ).level(),
{
}

/// For a fixed first buy the rank never regresses as time advances.
pub proof fn lemma_rank_never_regresses(first_buy: int, earlier: int, later: int)
    requires
        earlier <= later,
    ensures
        rank_of(first_buy, earlier).level() <= rank_of(first_buy, later).level(),
{
}

/// Crossing the holding time of a rank strictly advances the rank: a holder
/// who had not yet held for `rank`'s days at `earlier` and has at `later` is
/// ranked below `rank` before and at least `rank` after.
pub proof fn lemma_rank_advances_at_threshold(
    first_buy: int,
    earlier: int,
    later: int,
    rank: DiamondRank,
)
    requires
        rank != DiamondRank::Paper,
        earlier - first_buy < rank.min_days() * SECONDS_PER_DAY,
        later - first_buy >= rank.min_days() * SECONDS_PER_DAY,
    ensures
        rank_of(first_buy, earlier).level() < rank.level(),
        rank.level() <= rank_of(first_buy, later).level(),
        rank_of(first_buy, earlier).level() < rank_of(first_buy, later).level(),
{
}

/// A higher rank multiplies rewards by strictly more.
pub proof fn lemma_multiplier_strictly_increasing(low: DiamondRank, high: DiamondRank)
    requires
        low.level() < high.level(),
    ensures
        low.multiplier_bps() < high.multiplier_bps(),
{
}

/// For a fixed first buy the reward multiplier never falls as time advances.
pub proof fn lemma_multiplier_never_regresses(first_buy: int, earlier: int, later: int)
    requires
        earlier <= later,
    ensures
        rank_of(first_buy, earlier).multiplier_bps() <= rank_of(first_buy, later).multiplier_bps(),
{
}

} // verus!
