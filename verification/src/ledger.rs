//! The aggregate seen against all staker records at once: the total staked
//! is the sum of the balances, and the count of stakers is the number of
//! records with a balance.

use vstd::prelude::*;
use crate::address::Address;
use crate::staking::{Initialize, Stake, Unstake};
use crate::state::{Protocol, StakerAccount};

verus! {

/// Sum of the balances of `stakers`.
pub open spec fn staked_sum(stakers: Seq<StakerAccount>) -> int
    decreases stakers.len(),
{
    if stakers.len() == 0 {
        0
    } else {
        staked_sum(stakers.drop_last()) + stakers.last().staked_amount
    }
}

/// Number of records among `stakers` that hold a balance.
pub open spec fn active_count(stakers: Seq<StakerAccount>) -> int
    decreases stakers.len(),
{
    if stakers.len() == 0 {
        0
    } else {
        active_count(stakers.drop_last()) + if stakers.last().staked_amount > 0 {
            1int
        } else {
            0int
        }
    }
}

/// The aggregate agrees with the staker records: its total is the sum of
/// their balances and its count is the number of them with a balance.
pub open spec fn aggregate_matches(protocol: Protocol, stakers: Seq<StakerAccount>) -> bool {
    &&& protocol.total_staked == staked_sum(stakers)
    &&& protocol.total_stakers == active_count(stakers)
}

/// Replacing one record changes the sum by the change of its balance, and
/// the count by whether it gained or lost its balance.
pub proof fn lemma_replace_record(stakers: Seq<StakerAccount>, i: int, record: StakerAccount)
    requires
        0 <= i < stakers.len(),
    ensures
        staked_sum(stakers.update(i, record)) == staked_sum(stakers) - stakers[i].staked_amount
            + record.staked_amount,
        active_count(stakers.update(i, record)) == active_count(stakers) - (if stakers[i].staked_amount
            > 0 {
            1int
        } else {
            0int
        }) + (if record.staked_amount > 0 {
            1int
        } else {
            0int
        }),
    decreases stakers.len(),
{
    let replaced = stakers.update(i, record);
    if i == stakers.len() - 1 {
        assert(replaced.drop_last() =~= stakers.drop_last());
    } else {
        lemma_replace_record(stakers.drop_last(), i, record);
        assert(replaced.drop_last() =~= stakers.drop_last().update(i, record));
    }
}

/// Every balance is part of the sum, and the sum is positive only if some
/// record holds a balance.
pub proof fn lemma_balance_within_sum(stakers: Seq<StakerAccount>, i: int)
    requires
        0 <= i < stakers.len(),
    ensures
        0 <= stakers[i].staked_amount <= staked_sum(stakers),
        stakers[i].staked_amount > 0 ==> active_count(stakers) >= 1,
        0 <= active_count(stakers),
    decreases stakers.len(),
{
    lemma_totals_nonnegative(stakers.drop_last());
    if i < stakers.len() - 1 {
        lemma_balance_within_sum(stakers.drop_last(), i);
    }
}

/// Sum and count are never negative.
pub proof fn lemma_totals_nonnegative(stakers: Seq<StakerAccount>)
    ensures
        0 <= staked_sum(stakers),
        0 <= active_count(stakers),
    decreases stakers.len(),
{
    if stakers.len() > 0 {
        lemma_totals_nonnegative(stakers.drop_last());
    }
}

/// A protocol that was just set up agrees with the empty set of records.
pub proof fn lemma_initialize_matches(ctx: Initialize, launch_token_mint: Address)
    ensures
        aggregate_matches(ctx.after(launch_token_mint).protocol, Seq::empty()),
{
}

/// A record without a balance can join the records without a change to the
/// aggregate.
pub proof fn lemma_open_record_matches(
    protocol: Protocol,
    stakers: Seq<StakerAccount>,
    record: StakerAccount,
)
    requires
        aggregate_matches(protocol, stakers),
        record.staked_amount == 0,
    ensures
        aggregate_matches(protocol, stakers.push(record)),
{
    assert(stakers.push(record).drop_last() =~= stakers);
}

/// Staking keeps the aggregate in agreement with the records: if it agreed
/// before one of the stakers staked, it agrees after, with that staker's
/// record replaced by the new one.
pub proof fn lemma_stake_keeps_aggregate(
    stakers: Seq<StakerAccount>,
    i: int,
    ctx: Stake,
    amount: u64,
    lock_days: u16,
    now: i64,
)
    requires
        0 <= i < stakers.len(),
        ctx.staker_account == stakers[i],
        aggregate_matches(ctx.protocol, stakers),
        ctx.within_limits(amount, lock_days, now),
    ensures
        aggregate_matches(
            ctx.after(amount, lock_days, now).protocol,
            stakers.update(i, ctx.after(amount, lock_days, now).staker_account),
        ),
{
    lemma_replace_record(stakers, i, ctx.after(amount, lock_days, now).staker_account);
}

/// Unstaking keeps the aggregate in agreement with the records, and while
/// the aggregate agrees with them and the protocol is well formed every
/// request to unstake is within limits.
pub proof fn lemma_unstake_keeps_aggregate(
    stakers: Seq<StakerAccount>,
    i: int,
    ctx: Unstake,
    amount: u64,
    now: i64,
)
    requires
        0 <= i < stakers.len(),
        ctx.staker_account == stakers[i],
        aggregate_matches(ctx.protocol, stakers),
        ctx.protocol.wf(),
    ensures
        ctx.within_limits(amount, now),
        aggregate_matches(
            ctx.after(amount, now).protocol,
            stakers.update(i, ctx.after(amount, now).staker_account),
        ),
{
    lemma_balance_within_sum(stakers, i);
    crate::staking::lemma_unstake_within_limits(ctx, amount, now);
    lemma_replace_record(stakers, i, ctx.after(amount, now).staker_account);
    if !ctx.accepts(amount) {
        assert(stakers.update(i, ctx.staker_account) =~= stakers);
    }
}

} // verus!
