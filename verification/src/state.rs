//! The records the protocol keeps, and what makes each of them well formed.

use vstd::prelude::*;
use crate::address::Address;
use crate::rank::{rank_of, DiamondRank};
use crate::tier::{tier_of, StakingTier};
use crate::units::{BPS_DENOMINATOR, SECONDS_PER_DAY};

verus! {

/// The protocol-wide aggregate. Every operation that changes a staker, a
/// launch or a bundler record updates it in the same step.
#[derive(Clone, Copy, Debug, PartialEq, Eq)]
pub struct Protocol {
    pub authority: Address,
    pub launch_token_mint: Address,
    pub total_launches: u64,
    pub total_stakers: u64,
    pub total_staked: u64,
    pub total_bundlers_caught: u64,
    pub early_unstake_penalty_bps: u16,
    pub bump: u8,
}

/// One staker's balance, lock window and tier.
#[derive(Clone, Copy, Debug, PartialEq, Eq)]
pub struct StakerAccount {
    pub owner: Address,
    pub staked_amount: u64,
    pub staked_at: i64,
    pub lock_end_timestamp: i64,
    pub tier: StakingTier,
    pub strong_holder_score: u16,
    pub total_allocations_received: u32,
    pub last_update_timestamp: i64,
    pub bump: u8,
}

/// Where a launch stands in its life.
#[derive(Clone, Copy, Debug, PartialEq, Eq, Structural)]
pub enum LaunchStatus {
    Pending,
    Active,
    Graduated,
    Failed,
}

/// A token launch and its enforced safety settings.
#[derive(Clone, Debug, PartialEq, Eq)]
pub struct Launch {
    pub creator: Address,
    pub name: String,
    pub symbol: String,
    pub total_supply: u64,
    pub dev_allocation_bps: u16,
    pub dev_vesting_days: u16,
    pub lp_lock_days: u16,
    pub holder_rewards_bps: u16,
    pub created_at: i64,
    pub launch_id: u64,
    pub status: LaunchStatus,
    pub total_raised: u64,
    pub holder_count: u64,
    pub guaranteed_pool_bps: u16,
    pub lottery_pool_bps: u16,
    pub public_pool_bps: u16,
    pub fcfs_pool_bps: u16,
    pub flipper_pool_bps: u16,
    pub liquidity_pool_bps: u16,
    pub trader_rewards_pool_bps: u16,
    pub bump: u8,
}

/// The bucket of a launch's supply that an allocation is asked from.
#[derive(Clone, Copy, Debug, PartialEq, Eq, Structural)]
pub enum AllocationPool {
    Guaranteed,
    WeightedLottery,
    PublicLottery,
    FCFS,
    Flipper,
}

/// Where an allocation stands in its life.
#[derive(Clone, Copy, Debug, PartialEq, Eq, Structural)]
pub enum AllocationStatus {
    Pending,
    Won,
    Lost,
    Claimed,
}

/// One staker's allocation in one launch: the request, what was granted and
/// how much of it has been claimed.
#[derive(Clone, Copy, Debug, PartialEq, Eq)]
pub struct Allocation {
    pub owner: Address,
    pub launch: Address,
    pub pool: AllocationPool,
    pub requested_amount_usd: u64,
    pub allocated_tokens: u64,
    pub weight: u16,
    pub status: AllocationStatus,
    pub requested_at: i64,
    pub vesting_start: i64,
    pub vesting_cliff_days: u16,
    pub vesting_duration_days: u16,
    pub tge_unlock_bps: u16,
    pub tokens_claimed: u64,
    pub bump: u8,
}

/// One holder's position in one launch.
#[derive(Clone, Copy, Debug, PartialEq, Eq)]
pub struct Position {
    pub holder: Address,
    pub launch: Address,
    pub balance: u64,
    pub first_buy_timestamp: i64,
    pub last_activity_timestamp: i64,
    pub last_claim_timestamp: i64,
    pub diamond_rank: DiamondRank,
    pub multiplier_bps: u16,
    pub total_rewards_claimed: u64,
    pub bump: u8,
}

/// A wallet flagged for bundling.
#[derive(Clone, Debug, PartialEq, Eq)]
pub struct Bundler {
    pub wallet: Address,
    pub flagged_at: i64,
    pub evidence: String,
    pub incident_count: u32,
    pub bump: u8,
}

/// Penalty on an early exit that a new protocol starts with: 10%.
pub const INITIAL_EARLY_UNSTAKE_PENALTY_BPS: u16 = 1000;

/// Largest developer allocation a launch may have, in basis points.
pub const MAX_DEV_ALLOCATION_BPS: u16 = 1000;

/// Shortest developer vesting a launch may have, in days.
pub const MIN_DEV_VESTING_DAYS: u16 = 180;

/// Shortest liquidity lock a launch may have, in days.
pub const MIN_LP_LOCK_DAYS: u16 = 365;

/// Most characters the name of a launch may have.
pub const MAX_NAME_CHARS: usize = 32;

/// Most characters the symbol of a launch may have.
pub const MAX_SYMBOL_CHARS: usize = 10;

/// Share of the supply set aside for guaranteed allocations, in basis points.
pub const GUARANTEED_POOL_BPS: u16 = 3000;

/// Share of the supply set aside for the weighted lottery, in basis points.
pub const LOTTERY_POOL_BPS: u16 = 2500;

/// Share of the supply set aside for the public lottery, in basis points.
pub const PUBLIC_POOL_BPS: u16 = 1000;

/// Share of the supply set aside for first come, first served, in basis points.
pub const FCFS_POOL_BPS: u16 = 500;

/// Share of the supply set aside for flippers, in basis points.
pub const FLIPPER_POOL_BPS: u16 = 500;

/// Share of the supply set aside for liquidity, in basis points.
pub const LIQUIDITY_POOL_BPS: u16 = 1500;

/// Share of the supply set aside for trader rewards, in basis points.
pub const TRADER_REWARDS_POOL_BPS: u16 = 1000;

/// Whole days of lock left at `now`, rounded down; zero once the lock has
/// ended.
pub open spec fn remaining_lock_days(lock_end: int, now: int) -> int {
    if lock_end > now {
        (lock_end - now) / (SECONDS_PER_DAY as int)
    } else {
        0
    }
}

impl Protocol {
    /// The early-exit penalty is a share of at most 100%.
    pub open spec fn wf(self) -> bool {
        self.early_unstake_penalty_bps <= BPS_DENOMINATOR
    }
}

impl StakerAccount {
    /// The tier is the one the balance earns with the lock that was left
    /// when the record last changed.
    pub open spec fn wf(self) -> bool {
        self.tier == tier_of(
            self.staked_amount as int,
            remaining_lock_days(
                self.lock_end_timestamp as int,
                self.last_update_timestamp as int,
            ),
        )
    }
}

impl Launch {
    /// The seven pool shares are the fixed split.
    pub open spec fn has_fixed_pool_split(self) -> bool {
        &&& self.guaranteed_pool_bps == GUARANTEED_POOL_BPS
        &&& self.lottery_pool_bps == LOTTERY_POOL_BPS
        &&& self.public_pool_bps == PUBLIC_POOL_BPS
        &&& self.fcfs_pool_bps == FCFS_POOL_BPS
        &&& self.flipper_pool_bps == FLIPPER_POOL_BPS
        &&& self.liquidity_pool_bps == LIQUIDITY_POOL_BPS
        &&& self.trader_rewards_pool_bps == TRADER_REWARDS_POOL_BPS
    }

    /// Sum of the seven pool shares, in basis points.
    pub open spec fn pool_split_total(self) -> int {
        self.guaranteed_pool_bps + self.lottery_pool_bps + self.public_pool_bps
            + self.fcfs_pool_bps + self.flipper_pool_bps + self.liquidity_pool_bps
            + self.trader_rewards_pool_bps
    }

    /// The safety settings are within their limits and the pool shares are
    /// the fixed split.
    pub open spec fn wf(self) -> bool {
        &&& self.dev_allocation_bps <= MAX_DEV_ALLOCATION_BPS
        &&& self.dev_vesting_days >= MIN_DEV_VESTING_DAYS
        &&& self.lp_lock_days >= MIN_LP_LOCK_DAYS
        &&& self.name@.len() <= MAX_NAME_CHARS
        &&& self.symbol@.len() <= MAX_SYMBOL_CHARS
        &&& self.has_fixed_pool_split()
    }
}

impl Allocation {
    /// No more has been claimed than was granted.
    pub open spec fn wf(self) -> bool {
        self.tokens_claimed <= self.allocated_tokens
    }
}

impl Position {
    /// Rank and multiplier are the ones the holding time had earned when the
    /// position last changed.
    pub open spec fn wf(self) -> bool {
        &&& self.diamond_rank == rank_of(
            self.first_buy_timestamp as int,
            self.last_activity_timestamp as int,
        )
        &&& self.multiplier_bps == self.diamond_rank.multiplier_bps()
    }
}

impl Protocol {
    /// The aggregate before the protocol is set up: nothing counted, no
    /// authority.
    pub open spec fn is_blank(self) -> bool {
        &&& self.authority.is_zero()
        &&& self.launch_token_mint.is_zero()
        &&& self.total_launches == 0
        &&& self.total_stakers == 0
        &&& self.total_staked == 0
        &&& self.total_bundlers_caught == 0
        &&& self.early_unstake_penalty_bps == 0
        &&& self.bump == 0
    }
}

impl Default for Protocol {
    fn default() -> (protocol: Protocol)
        ensures
            protocol.is_blank(),
            protocol.wf(),
    {
        Protocol {
            authority: Address::default(),
            launch_token_mint: Address::default(),
            total_launches: 0,
            total_stakers: 0,
            total_staked: 0,
            total_bundlers_caught: 0,
            early_unstake_penalty_bps: 0,
            bump: 0,
        }
    }
}

impl StakerAccount {
    /// The record of a staker before the first stake: no owner, no balance,
    /// no lock, the `Public` tier.
    pub open spec fn is_blank(self) -> bool {
        &&& self.owner.is_zero()
        &&& self.staked_amount == 0
        &&& self.staked_at == 0
        &&& self.lock_end_timestamp == 0
        &&& self.tier == StakingTier::Public
        &&& self.strong_holder_score == 0
        &&& self.total_allocations_received == 0
        &&& self.last_update_timestamp == 0
        &&& self.bump == 0
    }
}

impl Default for StakerAccount {
    fn default() -> (staker: StakerAccount)
        ensures
            staker.is_blank(),
            staker.wf(),
    {
        StakerAccount {
            owner: Address::default(),
            staked_amount: 0,
            staked_at: 0,
            lock_end_timestamp: 0,
            tier: StakingTier::Public,
            strong_holder_score: 0,
            total_allocations_received: 0,
            last_update_timestamp: 0,
            bump: 0,
        }
    }
}

impl Launch {
    /// The record of a launch before it is created: every field empty or
    /// zero, the status pending.
    pub open spec fn is_blank(self) -> bool {
        &&& self.creator.is_zero()
        &&& self.name@.len() == 0
        &&& self.symbol@.len() == 0
        &&& self.total_supply == 0
        &&& self.dev_allocation_bps == 0
        &&& self.dev_vesting_days == 0
        &&& self.lp_lock_days == 0
        &&& self.holder_rewards_bps == 0
        &&& self.created_at == 0
        &&& self.launch_id == 0
        &&& self.status == LaunchStatus::Pending
        &&& self.total_raised == 0
        &&& self.holder_count == 0
        &&& self.guaranteed_pool_bps == 0
        &&& self.lottery_pool_bps == 0
        &&& self.public_pool_bps == 0
        &&& self.fcfs_pool_bps == 0
        &&& self.flipper_pool_bps == 0
        &&& self.liquidity_pool_bps == 0
        &&& self.trader_rewards_pool_bps == 0
        &&& self.bump == 0
    }
}

impl Default for Launch {
    fn default() -> (launch: Launch)
        ensures
            launch.is_blank(),
    {
        Launch {
            creator: Address::default(),
            name: String::new(),
            symbol: String::new(),
            total_supply: 0,
            dev_allocation_bps: 0,
            dev_vesting_days: 0,
            lp_lock_days: 0,
            holder_rewards_bps: 0,
            created_at: 0,
            launch_id: 0,
            status: LaunchStatus::Pending,
            total_raised: 0,
            holder_count: 0,
            guaranteed_pool_bps: 0,
            lottery_pool_bps: 0,
            public_pool_bps: 0,
            fcfs_pool_bps: 0,
            flipper_pool_bps: 0,
            liquidity_pool_bps: 0,
            trader_rewards_pool_bps: 0,
            bump: 0,
        }
    }
}

impl Allocation {
    /// The record of an allocation before the first request: nothing asked,
    /// nothing granted, nothing claimed.
    pub open spec fn is_blank(self) -> bool {
        &&& self.owner.is_zero()
        &&& self.launch.is_zero()
        &&& self.pool == AllocationPool::Guaranteed
        &&& self.requested_amount_usd == 0
        &&& self.allocated_tokens == 0
        &&& self.weight == 0
        &&& self.status == AllocationStatus::Pending
        &&& self.requested_at == 0
        &&& self.vesting_start == 0
        &&& self.vesting_cliff_days == 0
        &&& self.vesting_duration_days == 0
        &&& self.tge_unlock_bps == 0
        &&& self.tokens_claimed == 0
        &&& self.bump == 0
    }
}

impl Default for Allocation {
    fn default() -> (allocation: Allocation)
        ensures
            allocation.is_blank(),
            allocation.wf(),
    {
        Allocation {
            owner: Address::default(),
            launch: Address::default(),
            pool: AllocationPool::Guaranteed,
            requested_amount_usd: 0,
            allocated_tokens: 0,
            weight: 0,
            status: AllocationStatus::Pending,
            requested_at: 0,
            vesting_start: 0,
            vesting_cliff_days: 0,
            vesting_duration_days: 0,
            tge_unlock_bps: 0,
            tokens_claimed: 0,
            bump: 0,
        }
    }
}

impl Position {
    /// The record of a position before the first buy: no holder, no balance,
    /// the `Paper` rank.
    pub open spec fn is_blank(self) -> bool {
        &&& self.holder.is_zero()
        &&& self.launch.is_zero()
        &&& self.balance == 0
        &&& self.first_buy_timestamp == 0
        &&& self.last_activity_timestamp == 0
        &&& self.last_claim_timestamp == 0
        &&& self.diamond_rank == DiamondRank::Paper
        &&& self.multiplier_bps == 0
        &&& self.total_rewards_claimed == 0
        &&& self.bump == 0
    }
}

impl Default for Position {
    fn default() -> (position: Position)
        ensures
            position.is_blank(),
    {
        Position {
            holder: Address::default(),
            launch: Address::default(),
            balance: 0,
            first_buy_timestamp: 0,
            last_activity_timestamp: 0,
            last_claim_timestamp: 0,
            diamond_rank: DiamondRank::Paper,
            multiplier_bps: 0,
            total_rewards_claimed: 0,
            bump: 0,
        }
    }
}

impl Bundler {
    /// The record of a wallet before it is flagged: no wallet, no evidence,
    /// no incident.
    pub open spec fn is_blank(self) -> bool {
        &&& self.wallet.is_zero()
        &&& self.flagged_at == 0
        &&& self.evidence@.len() == 0
        &&& self.incident_count == 0
        &&& self.bump == 0
    }
}

impl Default for Bundler {
    fn default() -> (bundler: Bundler)
        ensures
            bundler.is_blank(),
    {
        Bundler {
            wallet: Address::default(),
            flagged_at: 0,
            evidence: String::new(),
            incident_count: 0,
            bump: 0,
        }
    }
}

/// The pool shares of a well-formed launch add up to the whole supply.
pub proof fn lemma_pool_split_is_whole(launch: Launch)
    requires
        launch.has_fixed_pool_split(),
    ensures
        launch.pool_split_total() == BPS_DENOMINATOR,
{
}

} // verus!
