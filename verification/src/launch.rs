//! The launch registry: creating a launch under the enforced safety
//! settings.

use vstd::prelude::*;
use crate::address::Address;
use crate::error::DiamondPadError;
use crate::events::LaunchCreated;
use crate::state::{
    Launch, LaunchStatus, Protocol, FCFS_POOL_BPS, FLIPPER_POOL_BPS, GUARANTEED_POOL_BPS,
    LIQUIDITY_POOL_BPS, LOTTERY_POOL_BPS, MAX_DEV_ALLOCATION_BPS, MAX_NAME_CHARS,
    MAX_SYMBOL_CHARS, MIN_DEV_VESTING_DAYS, MIN_LP_LOCK_DAYS, PUBLIC_POOL_BPS,
    TRADER_REWARDS_POOL_BPS,
};

verus! {

/// The reason, if any, for which the settings of a launch are rejected: the
/// first limit they break, in the order developer allocation, developer
/// vesting, liquidity lock, name, symbol. Names and symbols are measured in
/// characters.
pub open spec fn launch_refusal(
    name: Seq<char>,
    symbol: Seq<char>,
    dev_allocation_bps: u16,
    dev_vesting_days: u16,
    lp_lock_days: u16,
) -> Option<DiamondPadError> {
    if dev_allocation_bps > MAX_DEV_ALLOCATION_BPS {
        Some(DiamondPadError::DevAllocationTooHigh)
    } else if dev_vesting_days < MIN_DEV_VESTING_DAYS {
        Some(DiamondPadError::VestingTooShort)
    } else if lp_lock_days < MIN_LP_LOCK_DAYS {
        Some(DiamondPadError::LpLockTooShort)
    } else if name.len() > MAX_NAME_CHARS {
        Some(DiamondPadError::NameTooLong)
    } else if symbol.len() > MAX_SYMBOL_CHARS {
        Some(DiamondPadError::SymbolTooLong)
    } else {
        None
    }
}

/// Tests the settings of a launch against the limits and reports the first
/// that is broken.
pub fn validate_launch(
    name: &str,
    symbol: &str,
    dev_allocation_bps: u16,
    dev_vesting_days: u16,
    lp_lock_days: u16,
) -> (refusal: Option<DiamondPadError>)
    ensures
        refusal == launch_refusal(
            name@,
            symbol@,
            dev_allocation_bps,
            dev_vesting_days,
            lp_lock_days,
        ),
{
    if dev_allocation_bps > MAX_DEV_ALLOCATION_BPS {
        Some(DiamondPadError::DevAllocationTooHigh)
    } else if dev_vesting_days < MIN_DEV_VESTING_DAYS {
        Some(DiamondPadError::VestingTooShort)
    } else if lp_lock_days < MIN_LP_LOCK_DAYS {
        Some(DiamondPadError::LpLockTooShort)
    } else if name.unicode_len() > MAX_NAME_CHARS {
        Some(DiamondPadError::NameTooLong)
    } else if symbol.unicode_len() > MAX_SYMBOL_CHARS {
        Some(DiamondPadError::SymbolTooLong)
    } else {
        None
    }
}

/// What creating a launch works on: the creator who signs, the aggregate
/// and the launch record to fill in.
#[derive(Clone, Debug, PartialEq, Eq)]
pub struct CreateLaunch {
    pub creator: Address,
    pub protocol: Protocol,
    pub launch: Launch,
    pub launch_bump: u8,
}

impl CreateLaunch {
    /// The limit within which a launch can be created: where the settings are
    /// accepted, the count of launches stays representable.
    pub open spec fn within_limits(
        self,
        name: Seq<char>,
        symbol: Seq<char>,
        dev_allocation_bps: u16,
        dev_vesting_days: u16,
        lp_lock_days: u16,
    ) -> bool {
        launch_refusal(name, symbol, dev_allocation_bps, dev_vesting_days, lp_lock_days) is None
            ==> self.protocol.total_launches + 1 <= u64::MAX
    }

    /// The records after a launch with the given settings is created at
    /// `now`. The launch is pending, has raised nothing and has no holders;
    /// its id is the count of launches before it, and its pool shares are
    /// the fixed split.
    pub open spec fn after(
        self,
        name: String,
        symbol: String,
        total_supply: u64,
        dev_allocation_bps: u16,
        dev_vesting_days: u16,
        lp_lock_days: u16,
        holder_rewards_bps: u16,
        now: i64,
    ) -> Self {
        CreateLaunch {
            protocol: Protocol {
                total_launches: (self.protocol.total_launches + 1) as u64,
                ..self.protocol
            },
            launch: Launch {
                creator: self.creator,
                name,
                symbol,
                total_supply,
                dev_allocation_bps,
                dev_vesting_days,
                lp_lock_days,
                holder_rewards_bps,
                created_at: now,
                launch_id: self.protocol.total_launches,
                status: LaunchStatus::Pending,
                total_raised: 0,
                holder_count: 0,
                guaranteed_pool_bps: GUARANTEED_POOL_BPS,
                lottery_pool_bps: LOTTERY_POOL_BPS,
                public_pool_bps: PUBLIC_POOL_BPS,
                fcfs_pool_bps: FCFS_POOL_BPS,
                flipper_pool_bps: FLIPPER_POOL_BPS,
                liquidity_pool_bps: LIQUIDITY_POOL_BPS,
                trader_rewards_pool_bps: TRADER_REWARDS_POOL_BPS,
                bump: self.launch_bump,
            },
            ..self
        }
    }

    /// The outcome record of creating a launch with the given settings.
    pub open spec fn record(
        self,
        name: String,
        symbol: String,
        total_supply: u64,
        dev_allocation_bps: u16,
        dev_vesting_days: u16,
    ) -> LaunchCreated {
        LaunchCreated {
            launch_id: self.protocol.total_launches,
            creator: self.creator,
            name,
            symbol,
            total_supply,
            dev_allocation_bps,
            dev_vesting_days,
        }
    }

    /// Tests at run time whether `within_limits` holds.
    pub fn check_limits(
        &self,
        name: &str,
        symbol: &str,
        dev_allocation_bps: u16,
        dev_vesting_days: u16,
        lp_lock_days: u16,
    ) -> (ok: bool)
        ensures
            ok == self.within_limits(
                name@,
                symbol@,
                dev_allocation_bps,
                dev_vesting_days,
                lp_lock_days,
            ),
    {
        match validate_launch(name, symbol, dev_allocation_bps, dev_vesting_days, lp_lock_days) {
            Some(_) => true,
            None => self.protocol.total_launches < u64::MAX,
        }
    }
}

/// Creates a launch at `now`.
///
/// Rejected, before anything changes, with `DevAllocationTooHigh` when the
/// developer allocation exceeds 1000 bps, `VestingTooShort` when the
/// developer vesting is under 180 days, `LpLockTooShort` when the liquidity
/// lock is under 365 days, `NameTooLong` when the name has more than 32
/// characters and `SymbolTooLong` when the symbol has more than 10; the
/// first of these that applies. Otherwise the launch record is filled in
/// with the settings, the fixed pool split and the next launch id, and the
/// count of launches rises by one.
pub fn create_launch(
    ctx: &mut CreateLaunch,
    name: String,
    symbol: String,
    total_supply: u64,
    dev_allocation_bps: u16,
    dev_vesting_days: u16,
    lp_lock_days: u16,
    holder_rewards_bps: u16,
    now: i64,
) -> (result: Result<LaunchCreated, DiamondPadError>)
    requires
        old(ctx).within_limits(name@, symbol@, dev_allocation_bps, dev_vesting_days, lp_lock_days),
    ensures
        match launch_refusal(name@, symbol@, dev_allocation_bps, dev_vesting_days, lp_lock_days) {
            Some(reason) => result == Err::<LaunchCreated, DiamondPadError>(reason) && *final(ctx)
                == *old(ctx),
            None => {
                &&& result == Ok::<LaunchCreated, DiamondPadError>(
                    old(ctx).record(name, symbol, total_supply, dev_allocation_bps, dev_vesting_days),
                )
                &&& *final(ctx) == old(ctx).after(
                    name,
                    symbol,
                    total_supply,
                    dev_allocation_bps,
                    dev_vesting_days,
                    lp_lock_days,
                    holder_rewards_bps,
                    now,
                )
                &&& final(ctx).launch.wf()
                &&& final(ctx).protocol.total_launches == old(ctx).protocol.total_launches + 1
            },
        },
{
    match validate_launch(
        name.as_str(),
        symbol.as_str(),
        dev_allocation_bps,
        dev_vesting_days,
        lp_lock_days,
    ) {
        Some(reason) => {
            return Err(reason);
        },
        None => {},
    }
    ctx.launch.creator = ctx.creator;
    ctx.launch.name = name.clone();
    ctx.launch.symbol = symbol.clone();
    ctx.launch.total_supply = total_supply;
    ctx.launch.dev_allocation_bps = dev_allocation_bps;
    ctx.launch.dev_vesting_days = dev_vesting_days;
    ctx.launch.lp_lock_days = lp_lock_days;
    ctx.launch.holder_rewards_bps = holder_rewards_bps;
    ctx.launch.created_at = now;
    ctx.launch.launch_id = ctx.protocol.total_launches;
    ctx.launch.status = LaunchStatus::Pending;
    ctx.launch.total_raised = 0;
    ctx.launch.holder_count = 0;
    ctx.launch.guaranteed_pool_bps = GUARANTEED_POOL_BPS;
    ctx.launch.lottery_pool_bps = LOTTERY_POOL_BPS;
    ctx.launch.public_pool_bps = PUBLIC_POOL_BPS;
    ctx.launch.fcfs_pool_bps = FCFS_POOL_BPS;
    ctx.launch.flipper_pool_bps = FLIPPER_POOL_BPS;
    ctx.launch.liquidity_pool_bps = LIQUIDITY_POOL_BPS;
    ctx.launch.trader_rewards_pool_bps = TRADER_REWARDS_POOL_BPS;
    ctx.launch.bump = ctx.launch_bump;
    ctx.protocol.total_launches = ctx.protocol.total_launches + 1;
    Ok(
        LaunchCreated {
            launch_id: ctx.launch.launch_id,
            creator: ctx.launch.creator,
            name,
            symbol,
            total_supply,
            dev_allocation_bps,
            dev_vesting_days,
        },
    )
}

/// Settings are accepted exactly when they are within every limit: a
/// developer allocation of at most 1000 bps, a developer vesting of at least
/// 180 days, a liquidity lock of at least 365 days, a name of at most 32
/// characters and a symbol of at most 10.
pub proof fn lemma_launch_accepted_iff_within_bounds(
    name: Seq<char>,
    symbol: Seq<char>,
    dev_allocation_bps: u16,
    dev_vesting_days: u16,
    lp_lock_days: u16,
)
    ensures
        launch_refusal(name, symbol, dev_allocation_bps, dev_vesting_days, lp_lock_days) is None
            <==> dev_allocation_bps <= 1000 && dev_vesting_days >= 180 && lp_lock_days >= 365
            && name.len() <= 32 && symbol.len() <= 10,
{
}

} // verus!
