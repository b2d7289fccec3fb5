//! The outcome record of each operation, for whoever indexes or announces it.

use vstd::prelude::*;
use crate::address::Address;
use crate::rank::DiamondRank;
use crate::state::{AllocationPool, AllocationStatus};
use crate::tier::StakingTier;

verus! {

/// Tokens were staked.
#[derive(Clone, Copy, Debug, PartialEq, Eq)]
pub struct Staked {
    pub owner: Address,
    pub amount: u64,
    pub lock_days: u16,
    pub tier: StakingTier,
    pub total_staked: u64,
}

/// Tokens were taken out of the stake.
#[derive(Clone, Copy, Debug, PartialEq, Eq)]
pub struct Unstaked {
    pub owner: Address,
    pub amount: u64,
    pub return_amount: u64,
    pub penalty_amount: u64,
    pub early: bool,
    pub remaining_stake: u64,
    pub new_tier: StakingTier,
}

/// A launch was created.
#[derive(Clone, Debug, PartialEq, Eq)]
pub struct LaunchCreated {
    pub launch_id: u64,
    pub creator: Address,
    pub name: String,
    pub symbol: String,
    pub total_supply: u64,
    pub dev_allocation_bps: u16,
    pub dev_vesting_days: u16,
}

/// An allocation was asked for.
#[derive(Clone, Copy, Debug, PartialEq, Eq)]
pub struct AllocationRequested {
    pub owner: Address,
    pub launch_id: u64,
    pub pool: AllocationPool,
    pub amount_usd: u64,
    pub weight: u16,
}

/// An allocation was decided.
#[derive(Clone, Copy, Debug, PartialEq, Eq)]
pub struct AllocationFulfilled {
    pub owner: Address,
    pub launch: Address,
    pub allocated_tokens: u64,
    pub status: AllocationStatus,
}

/// Vested tokens of an allocation were claimed.
#[derive(Clone, Copy, Debug, PartialEq, Eq)]
pub struct AllocationClaimed {
    pub owner: Address,
    pub launch: Address,
    pub claimed: u64,
    pub total_claimed: u64,
    pub remaining: u64,
}

/// A holder's position changed.
#[derive(Clone, Copy, Debug, PartialEq, Eq)]
pub struct PositionUpdated {
    pub holder: Address,
    pub launch: Address,
    pub balance: u64,
    pub diamond_rank: DiamondRank,
    pub multiplier_bps: u16,
}

/// A wallet was flagged for bundling.
#[derive(Clone, Debug, PartialEq, Eq)]
pub struct BundlerFlagged {
    pub wallet: Address,
    pub evidence: String,
}

} // verus!
