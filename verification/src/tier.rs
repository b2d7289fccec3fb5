//! Staking tiers: the tier a stake earns and the allocation weight of a tier.

use vstd::prelude::*;

verus! {

/// The classification of a stake, lowest first.
#[derive(Clone, Copy, Debug, PartialEq, Eq, Structural)]
pub enum StakingTier {
    Public,
    Bronze,
    Silver,
    Gold,
    Diamond,
}

/// Smallest stake, in base units, that can earn `Bronze`.
pub const BRONZE_MIN_STAKE: u64 = 5_000_000_000;

/// Smallest stake, in base units, that can earn `Silver`.
pub const SILVER_MIN_STAKE: u64 = 20_000_000_000;

/// Smallest stake, in base units, that can earn `Gold`.
pub const GOLD_MIN_STAKE: u64 = 50_000_000_000;

/// Smallest stake, in base units, that can earn `Diamond`.
pub const DIAMOND_MIN_STAKE: u64 = 100_000_000_000;

/// Shortest lock, in days, that can earn `Bronze`.
pub const BRONZE_MIN_LOCK_DAYS: u16 = 30;

/// Shortest lock, in days, that can earn `Silver`.
pub const SILVER_MIN_LOCK_DAYS: u16 = 60;

/// Shortest lock, in days, that can earn `Gold`.
pub const GOLD_MIN_LOCK_DAYS: u16 = 90;

/// Shortest lock, in days, that can earn `Diamond`.
pub const DIAMOND_MIN_LOCK_DAYS: u16 = 180;

impl StakingTier {
    /// Position of the tier in the order `Public < Bronze < Silver < Gold < Diamond`.
    pub open spec fn level(self) -> int {
        match self {
            StakingTier::Public => 0,
            StakingTier::Bronze => 1,
            StakingTier::Silver => 2,
            StakingTier::Gold => 3,
            StakingTier::Diamond => 4,
        }
    }

    /// The stake a tier asks for.
    pub open spec fn min_stake(self) -> int {
        match self {
            StakingTier::Public => 0,
            StakingTier::Bronze => BRONZE_MIN_STAKE as int,
            StakingTier::Silver => SILVER_MIN_STAKE as int,
            StakingTier::Gold => GOLD_MIN_STAKE as int,
            StakingTier::Diamond => DIAMOND_MIN_STAKE as int,
        }
    }

    /// The lock, in days, a tier asks for.
    pub open spec fn min_lock_days(self) -> int {
        match self {
            StakingTier::Public => 0,
            StakingTier::Bronze => BRONZE_MIN_LOCK_DAYS as int,
            StakingTier::Silver => SILVER_MIN_LOCK_DAYS as int,
            StakingTier::Gold => GOLD_MIN_LOCK_DAYS as int,
            StakingTier::Diamond => DIAMOND_MIN_LOCK_DAYS as int,
        }
    }

    /// A stake qualifies for a tier when it meets both of the tier's thresholds.
    pub open spec fn admits(self, amount: int, lock_days: int) -> bool {
        amount >= self.min_stake() && lock_days >= self.min_lock_days()
    }

    /// Allocation weight of the tier, in basis points of the base weight.
    pub open spec fn weight(self) -> int {
        match self {
            StakingTier::Diamond => 1000,
            StakingTier::Gold => 500,
            StakingTier::Silver => 250,
            StakingTier::Bronze => 100,
            StakingTier::Public => 25,
        }
    }
}

/// The tier of a stake of `amount` locked for `lock_days`: the highest tier
/// that admits it.
pub open spec fn tier_of(amount: int, lock_days: int) -> StakingTier {
    if StakingTier::Diamond.admits(amount, lock_days) {
        StakingTier::Diamond
    } else if StakingTier::Gold.admits(amount, lock_days) {
        StakingTier::Gold
    } else if StakingTier::Silver.admits(amount, lock_days) {
        StakingTier::Silver
    } else if StakingTier::Bronze.admits(amount, lock_days) {
        StakingTier::Bronze
    } else {
        StakingTier::Public
    }
}

/// Classifies a stake: the highest tier whose amount and lock thresholds
/// the stake both meets. Total: every amount and every lock has a tier.
pub fn calculate_staking_tier(amount: u64, lock_days: u16) -> (tier: StakingTier)
    ensures
        tier == tier_of(amount as int, lock_days as int),
        tier.admits(amount as int, lock_days as int),
        forall|other: StakingTier| #[trigger]
            other.admits(amount as int, lock_days as int) ==> other.level() <= tier.level(),
{
    if amount >= DIAMOND_MIN_STAKE && lock_days >= DIAMOND_MIN_LOCK_DAYS {
        StakingTier::Diamond
    } else if amount >= GOLD_MIN_STAKE && lock_days >= GOLD_MIN_LOCK_DAYS {
        StakingTier::Gold
    } else if amount >= SILVER_MIN_STAKE && lock_days >= SILVER_MIN_LOCK_DAYS {
        StakingTier::Silver
    } else if amount >= BRONZE_MIN_STAKE && lock_days >= BRONZE_MIN_LOCK_DAYS {
        StakingTier::Bronze
    } else {
        StakingTier::Public
    }
}

/// The allocation weight of a tier.
pub fn get_tier_weight(tier: StakingTier) -> (weight: u16)
    ensures
        weight == tier.weight(),
{
    match tier {
        StakingTier::Diamond => 1000,
        StakingTier::Gold => 500,
        StakingTier::Silver => 250,
        StakingTier::Bronze => 100,
        StakingTier::Public => 25,
    }
}

/// The tier of a stake admits it, and no higher tier does.
pub proof fn lemma_tier_is_highest_admitting(amount: int, lock_days: int, other: StakingTier)
    requires
        amount >= 0,
        lock_days >= 0,
    ensures
        tier_of(amount, lock_days).admits(amount, lock_days),
        other.admits(amount, lock_days) ==> other.level() <= tier_of(amount, lock_days).level(),
{
}

/// A larger stake locked for longer never earns a lower tier.
pub proof fn lemma_tier_monotone(amount: int, lock_days: int, more: int, longer: int)
    requires
        amount <= more,
        lock_days <= longer,
    ensures
        tier_of(amount, lock_days).level() <= tier_of(more, longer).level(),
{
}

/// A higher tier weighs strictly more.
pub proof fn lemma_weight_strictly_increasing(low: StakingTier, high: StakingTier)
    requires
        low.level() < high.level(),
    ensures
        low.weight() < high.weight(),
{
}

} // verus!
