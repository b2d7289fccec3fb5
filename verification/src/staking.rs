//! The stake ledger: setting up the protocol, staking, and unstaking with a
//! penalty on early exit.

use vstd::prelude::*;
use crate::address::Address;
use crate::error::DiamondPadError;
use crate::events::{Staked, Unstaked};
use crate::state::{
    remaining_lock_days, Protocol, StakerAccount, INITIAL_EARLY_UNSTAKE_PENALTY_BPS,
};
use crate::tier::{calculate_staking_tier, tier_of, StakingTier};
use crate::units::{bps_share, lemma_bps_share_bounded, share_of, SECONDS_PER_DAY};

verus! {

/// What setting up the protocol works on: the authority that signs for it
/// and the aggregate to fill in.
#[derive(Clone, Copy, Debug, PartialEq, Eq)]
pub struct Initialize {
    pub authority: Address,
    pub protocol: Protocol,
    pub protocol_bump: u8,
}

impl Initialize {
    /// The records after the protocol is set up for `launch_token_mint`: all
    /// counters at zero and the early-exit penalty at 10%.
    pub open spec fn after(self, launch_token_mint: Address) -> Initialize {
        Initialize {
            protocol: Protocol {
                authority: self.authority,
                launch_token_mint,
                total_launches: 0,
                total_stakers: 0,
                total_staked: 0,
                total_bundlers_caught: 0,
                early_unstake_penalty_bps: INITIAL_EARLY_UNSTAKE_PENALTY_BPS,
                bump: self.protocol_bump,
            },
            ..self
        }
    }
}

/// Sets up the protocol: the signer becomes its authority, every counter
/// starts at zero and the early-exit penalty at 10%. Never refused.
pub fn initialize(ctx: &mut Initialize, launch_token_mint: Address) -> (result: Result<
    (),
    DiamondPadError,
>)
    ensures
        result is Ok,
        *final(ctx) == old(ctx).after(launch_token_mint),
        final(ctx).protocol.wf(),
{
    ctx.protocol.authority = ctx.authority;
    ctx.protocol.launch_token_mint = launch_token_mint;
    ctx.protocol.total_launches = 0;
    ctx.protocol.total_stakers = 0;
    ctx.protocol.total_staked = 0;
    ctx.protocol.total_bundlers_caught = 0;
    ctx.protocol.early_unstake_penalty_bps = INITIAL_EARLY_UNSTAKE_PENALTY_BPS;
    ctx.protocol.bump = ctx.protocol_bump;
    Ok(())
}

/// What staking works on: the owner who signs, the aggregate and the
/// staker's record.
#[derive(Clone, Copy, Debug, PartialEq, Eq)]
pub struct Stake {
    pub owner: Address,
    pub protocol: Protocol,
    pub staker_account: StakerAccount,
    pub staker_account_bump: u8,
}

impl Stake {
    /// Whether the staker has no balance yet, so that this stake opens the
    /// record.
    pub open spec fn is_first(self) -> bool {
        self.staker_account.staked_amount == 0
    }

    /// The limits within which staking `amount` for `lock_days` at `now` can
    /// be carried through: the balance, the aggregate total, the count of
    /// stakers and the end of the lock all stay representable.
    pub open spec fn within_limits(self, amount: u64, lock_days: u16, now: i64) -> bool {
        amount > 0 ==> {
            &&& self.staker_account.staked_amount + amount <= u64::MAX
            &&& self.protocol.total_staked + amount <= u64::MAX
            &&& now + lock_days * SECONDS_PER_DAY <= i64::MAX
            &&& self.is_first() ==> self.protocol.total_stakers + 1 <= u64::MAX
        }
    }

    /// The records after staking `amount` for `lock_days` at `now`. The lock
    /// end is set anew from `now`, also on a top-up, and the tier is the one
    /// the new balance earns with the new lock. A refused request changes
    /// nothing.
    pub open spec fn after(self, amount: u64, lock_days: u16, now: i64) -> Stake {
        if amount > 0 {
            let balance = (self.staker_account.staked_amount + amount) as u64;
            Stake {
                protocol: Protocol {
                    total_stakers: if self.is_first() {
                        (self.protocol.total_stakers + 1) as u64
                    } else {
                        self.protocol.total_stakers
                    },
                    total_staked: (self.protocol.total_staked + amount) as u64,
                    ..self.protocol
                },
                staker_account: StakerAccount {
                    owner: if self.is_first() {
                        self.owner
                    } else {
                        self.staker_account.owner
                    },
                    staked_at: if self.is_first() {
                        now
                    } else {
                        self.staker_account.staked_at
                    },
                    bump: if self.is_first() {
                        self.staker_account_bump
                    } else {
                        self.staker_account.bump
                    },
                    staked_amount: balance,
                    lock_end_timestamp: (now + lock_days * SECONDS_PER_DAY) as i64,
                    tier: tier_of(balance as int, lock_days as int),
                    last_update_timestamp: now,
                    ..self.staker_account
                },
                ..self
            }
        } else {
            self
        }
    }

    /// What staking `amount` for `lock_days` at `now` answers: the outcome
    /// record, or the reason for the refusal.
    pub open spec fn outcome(self, amount: u64, lock_days: u16, now: i64) -> Result<
        Staked,
        DiamondPadError,
    > {
        if amount == 0 {
            Err(DiamondPadError::InvalidAmount)
        } else {
            let staked = self.after(amount, lock_days, now).staker_account;
            Ok(
                Staked {
                    owner: staked.owner,
                    amount,
                    lock_days,
                    tier: staked.tier,
                    total_staked: staked.staked_amount,
                },
            )
        }
    }

    /// Tests at run time whether `within_limits` holds.
    pub fn check_limits(&self, amount: u64, lock_days: u16, now: i64) -> (ok: bool)
        ensures
            ok == self.within_limits(amount, lock_days, now),
    {
        if amount == 0 {
            return true;
        }
        let lock_seconds: i64 = lock_days as i64 * SECONDS_PER_DAY;
        amount <= u64::MAX - self.staker_account.staked_amount
            && amount <= u64::MAX - self.protocol.total_staked
            && now <= i64::MAX - lock_seconds
            && (self.staker_account.staked_amount != 0 || self.protocol.total_stakers < u64::MAX)
    }
}

/// Stakes `amount` for `lock_days` at `now`. The caller moves `amount` into
/// custody in the same step.
///
/// Refused with `InvalidAmount` when the amount is zero. The first stake of
/// a staker opens the record and counts the staker. The amount is added to
/// the balance and to the aggregate total. The lock end is always set anew
/// to `lock_days` after `now`, and the tier is the one the new balance earns
/// with that lock.
pub fn stake(ctx: &mut Stake, amount: u64, lock_days: u16, now: i64) -> (result: Result<
    Staked,
    DiamondPadError,
>)
    requires
        old(ctx).within_limits(amount, lock_days, now),
    ensures
        result == old(ctx).outcome(amount, lock_days, now),
        *final(ctx) == old(ctx).after(amount, lock_days, now),
        result is Ok <==> amount > 0,
        result is Ok ==> {
            &&& final(ctx).staker_account.staked_amount == old(ctx).staker_account.staked_amount
                + amount
            &&& final(ctx).protocol.total_staked == old(ctx).protocol.total_staked + amount
            &&& final(ctx).staker_account.lock_end_timestamp == now + lock_days * SECONDS_PER_DAY
            &&& final(ctx).staker_account.tier == tier_of(
                old(ctx).staker_account.staked_amount + amount,
                lock_days as int,
            )
            &&& final(ctx).staker_account.wf()
        },
        old(ctx).protocol.wf() ==> final(ctx).protocol.wf(),
{
    if amount == 0 {
        return Err(DiamondPadError::InvalidAmount);
    }
    if ctx.staker_account.staked_amount == 0 {
        ctx.staker_account.owner = ctx.owner;
        ctx.staker_account.staked_at = now;
        ctx.staker_account.bump = ctx.staker_account_bump;
        ctx.protocol.total_stakers = ctx.protocol.total_stakers + 1;
    }
    ctx.staker_account.staked_amount = ctx.staker_account.staked_amount + amount;
    ctx.staker_account.lock_end_timestamp = now + lock_days as i64 * SECONDS_PER_DAY;
    ctx.staker_account.tier = calculate_staking_tier(ctx.staker_account.staked_amount, lock_days);
    ctx.staker_account.last_update_timestamp = now;
    ctx.protocol.total_staked = ctx.protocol.total_staked + amount;
    Ok(
        Staked {
            owner: ctx.staker_account.owner,
            amount,
            lock_days,
            tier: ctx.staker_account.tier,
            total_staked: ctx.staker_account.staked_amount,
        },
    )
}

/// What unstaking works on: the aggregate and the staker's record.
#[derive(Clone, Copy, Debug, PartialEq, Eq)]
pub struct Unstake {
    pub protocol: Protocol,
    pub staker_account: StakerAccount,
}

impl Unstake {
    /// Whether taking `amount` out at `now` leaves before the lock has ended.
    pub open spec fn is_early(self, now: i64) -> bool {
        now < self.staker_account.lock_end_timestamp
    }

    /// What is withheld from the proceeds of taking `amount` out at `now`:
    /// the penalty share before the lock has ended, nothing after.
    pub open spec fn penalty(self, amount: u64, now: i64) -> int {
        if self.is_early(now) {
            bps_share(amount as int, self.protocol.early_unstake_penalty_bps as int)
        } else {
            0
        }
    }

    /// The tier that is left to the staker after taking `amount` out at
    /// `now`: the one the remaining balance earns with the lock that is left.
    pub open spec fn tier_after(self, amount: u64, now: i64) -> StakingTier {
        tier_of(
            self.staker_account.staked_amount - amount,
            remaining_lock_days(self.staker_account.lock_end_timestamp as int, now as int),
        )
    }

    /// Whether `amount` can be taken out at all.
    pub open spec fn accepts(self, amount: u64) -> bool {
        0 < amount <= self.staker_account.staked_amount
    }

    /// The limits within which taking `amount` out can be carried through:
    /// the aggregate total covers the amount and the penalty does not exceed
    /// it. They hold whenever the aggregate is the sum of the stakes and the
    /// protocol is well formed.
    pub open spec fn within_limits(self, amount: u64, now: i64) -> bool {
        self.accepts(amount) ==> {
            &&& amount <= self.protocol.total_staked
            &&& self.penalty(amount, now) <= amount
        }
    }

    /// The records after taking `amount` out at `now`. The balance and the
    /// aggregate total fall by the whole amount; the penalty comes out of the
    /// proceeds, not out of the stake. A refused request changes nothing.
    pub open spec fn after(self, amount: u64, now: i64) -> Unstake {
        if self.accepts(amount) {
            let remaining = (self.staker_account.staked_amount - amount) as u64;
            Unstake {
                protocol: Protocol {
                    total_staked: (self.protocol.total_staked - amount) as u64,
                    total_stakers: if remaining == 0 && self.protocol.total_stakers > 0 {
                        (self.protocol.total_stakers - 1) as u64
                    } else {
                        self.protocol.total_stakers
                    },
                    ..self.protocol
                },
                staker_account: StakerAccount {
                    staked_amount: remaining,
                    last_update_timestamp: now,
                    tier: self.tier_after(amount, now),
                    ..self.staker_account
                },
            }
        } else {
            self
        }
    }

    /// What taking `amount` out at `now` answers: the outcome record, or the
    /// reason for the refusal.
    pub open spec fn outcome(self, amount: u64, now: i64) -> Result<Unstaked, DiamondPadError> {
        if amount == 0 {
            Err(DiamondPadError::InvalidAmount)
        } else if amount > self.staker_account.staked_amount {
            Err(DiamondPadError::InsufficientStake)
        } else {
            Ok(
                Unstaked {
                    owner: self.staker_account.owner,
                    amount,
                    return_amount: (amount - self.penalty(amount, now)) as u64,
                    penalty_amount: self.penalty(amount, now) as u64,
                    early: self.is_early(now),
                    remaining_stake: (self.staker_account.staked_amount - amount) as u64,
                    new_tier: self.tier_after(amount, now),
                },
            )
        }
    }

    /// Tests at run time whether `within_limits` holds.
    pub fn check_limits(&self, amount: u64, now: i64) -> (ok: bool)
        ensures
            ok == self.within_limits(amount, now),
    {
        if amount == 0 || amount > self.staker_account.staked_amount {
            return true;
        }
        if amount > self.protocol.total_staked {
            return false;
        }
        if now < self.staker_account.lock_end_timestamp {
            share_of(amount, self.protocol.early_unstake_penalty_bps) <= amount as u128
        } else {
            true
        }
    }
}

/// Whole days of lock left at `now`, capped at the largest count of days a
/// lock can be given.
fn lock_days_left(lock_end: i64, now: i64) -> (days: u16)
    ensures
        days as int == if remaining_lock_days(lock_end as int, now as int) > u16::MAX {
            u16::MAX as int
        } else {
            remaining_lock_days(lock_end as int, now as int)
        },
{
    if lock_end > now {
        let left: i128 = lock_end as i128 - now as i128;
        let days: i128 = left / (SECONDS_PER_DAY as i128);
        if days > u16::MAX as i128 {
            u16::MAX
        } else {
            days as u16
        }
    } else {
        0
    }
}

/// Takes `amount` out of the stake at `now`.
///
/// Refused with `InvalidAmount` when the amount is zero and with
/// `InsufficientStake` when it exceeds the balance. Before the lock has ended
/// the penalty share of the amount is withheld from what is returned; after
/// it, the whole amount is returned. The balance and the aggregate total fall
/// by the whole amount, the tier is the one the remaining balance earns with
/// the lock that is left, and a staker whose balance reaches zero is no
/// longer counted.
pub fn unstake(ctx: &mut Unstake, amount: u64, now: i64) -> (result: Result<
    Unstaked,
    DiamondPadError,
>)
    requires
        old(ctx).within_limits(amount, now),
    ensures
        result == old(ctx).outcome(amount, now),
        *final(ctx) == old(ctx).after(amount, now),
        result is Ok <==> old(ctx).accepts(amount),
        result matches Ok(record) ==> {
            &&& record.penalty_amount == old(ctx).penalty(amount, now)
            &&& record.return_amount == amount - old(ctx).penalty(amount, now)
            &&& !record.early ==> record.penalty_amount == 0 && record.return_amount == amount
            &&& final(ctx).staker_account.staked_amount == old(ctx).staker_account.staked_amount
                - amount
            &&& final(ctx).protocol.total_staked == old(ctx).protocol.total_staked - amount
            &&& final(ctx).staker_account.wf()
        },
        old(ctx).protocol.wf() ==> final(ctx).protocol.wf(),
{
    if amount == 0 {
        return Err(DiamondPadError::InvalidAmount);
    }
    if ctx.staker_account.staked_amount < amount {
        return Err(DiamondPadError::InsufficientStake);
    }
    let early = now < ctx.staker_account.lock_end_timestamp;
    let mut return_amount: u64 = amount;
    let mut penalty_amount: u64 = 0;
    if early {
        penalty_amount = share_of(amount, ctx.protocol.early_unstake_penalty_bps) as u64;
        return_amount = amount - penalty_amount;
    }
    ctx.staker_account.staked_amount = ctx.staker_account.staked_amount - amount;
    ctx.staker_account.last_update_timestamp = now;
    let days_left = lock_days_left(ctx.staker_account.lock_end_timestamp, now);
    ctx.staker_account.tier = calculate_staking_tier(ctx.staker_account.staked_amount, days_left);
    ctx.protocol.total_staked = ctx.protocol.total_staked - amount;
    if ctx.staker_account.staked_amount == 0 {
        ctx.protocol.total_stakers = ctx.protocol.total_stakers.saturating_sub(1);
    }
    Ok(
        Unstaked {
            owner: ctx.staker_account.owner,
            amount,
            return_amount,
            penalty_amount,
            early,
            remaining_stake: ctx.staker_account.staked_amount,
            new_tier: ctx.staker_account.tier,
        },
    )
}

/// Staking an amount and at once taking it out again, before the lock has
/// ended, returns the amount less the penalty share of it, and leaves the
/// aggregate total, the count of stakers and the balance where they were
/// before the stake.
pub proof fn lemma_stake_then_unstake_restores_totals(
    ctx: Stake,
    amount: u64,
    lock_days: u16,
    now: i64,
)
    requires
        amount > 0,
        lock_days > 0,
        ctx.protocol.wf(),
        ctx.within_limits(amount, lock_days, now),
    ensures
        ({
            let staked = ctx.after(amount, lock_days, now);
            let exit = Unstake { protocol: staked.protocol, staker_account: staked.staker_account };
            let left = exit.after(amount, now);
            &&& exit.within_limits(amount, now)
            &&& exit.outcome(amount, now) matches Ok(record)
            &&& record.early
            &&& record.penalty_amount == bps_share(
                amount as int,
                ctx.protocol.early_unstake_penalty_bps as int,
            )
            &&& record.return_amount == amount - bps_share(
                amount as int,
                ctx.protocol.early_unstake_penalty_bps as int,
            )
            &&& left.protocol.total_staked == ctx.protocol.total_staked
            &&& left.protocol.total_stakers == ctx.protocol.total_stakers
            &&& left.staker_account.staked_amount == ctx.staker_account.staked_amount
        }),
{
    lemma_bps_share_bounded(amount as int, ctx.protocol.early_unstake_penalty_bps as int);
}

/// Taking out an accepted amount once the lock has ended returns the whole
/// amount: nothing is withheld.
pub proof fn lemma_unstake_after_lock_returns_all(ctx: Unstake, amount: u64, now: i64)
    requires
        ctx.accepts(amount),
        now >= ctx.staker_account.lock_end_timestamp,
    ensures
        ctx.outcome(amount, now) matches Ok(record) && record.penalty_amount == 0
            && record.return_amount == amount && !record.early,
{
}

/// Taking an amount out is within limits whenever the protocol is well
/// formed and the staker's balance is part of the aggregate total.
pub proof fn lemma_unstake_within_limits(ctx: Unstake, amount: u64, now: i64)
    requires
        ctx.protocol.wf(),
        ctx.staker_account.staked_amount <= ctx.protocol.total_staked,
    ensures
        ctx.within_limits(amount, now),
{
    lemma_bps_share_bounded(amount as int, ctx.protocol.early_unstake_penalty_bps as int);
}

} // verus!
