//! The holder position tracker: a holder's balance in a launch and the rank
//! the holding time has earned.

use vstd::prelude::*;
use crate::address::Address;
use crate::error::DiamondPadError;
use crate::events::PositionUpdated;
use crate::rank::{calculate_diamond_rank, get_diamond_multiplier_bps, rank_of};
use crate::state::{Launch, Position};

verus! {

/// What recording a buy works on: the holder who signs, the launch and its
/// identity, and the position of this holder in this launch.
#[derive(Clone, Debug, PartialEq, Eq)]
pub struct RecordPosition {
    pub holder: Address,
    pub launch_key: Address,
    pub launch: Launch,
    pub position: Position,
    pub position_bump: u8,
}

impl RecordPosition {
    /// Whether the position holds nothing yet, so that this buy opens it.
    pub open spec fn is_first(self) -> bool {
        self.position.balance == 0
    }

    /// The limits within which a buy of `amount` can be recorded: the
    /// balance and the count of holders stay representable.
    pub open spec fn within_limits(self, amount: u64) -> bool {
        &&& self.position.balance + amount <= u64::MAX
        &&& self.is_first() ==> self.launch.holder_count + 1 <= u64::MAX
    }

    /// The time of the first buy once a buy at `now` is recorded.
    pub open spec fn first_buy_after(self, now: i64) -> i64 {
        if self.is_first() {
            now
        } else {
            self.position.first_buy_timestamp
        }
    }

    /// The records after a buy of `amount` at `now`. A first buy opens the
    /// position and counts the holder. The balance only ever grows. The rank
    /// is the one the time since the first buy has earned, whatever the
    /// balance, and the multiplier is that of the rank. Of the launch only
    /// the count of holders changes.
    pub open spec fn after(self, amount: u64, now: i64) -> Self {
        let rank = rank_of(self.first_buy_after(now) as int, now as int);
        RecordPosition {
            launch: Launch {
                holder_count: if self.is_first() {
                    (self.launch.holder_count + 1) as u64
                } else {
                    self.launch.holder_count
                },
                ..self.launch
            },
            position: Position {
                holder: if self.is_first() {
                    self.holder
                } else {
                    self.position.holder
                },
                launch: if self.is_first() {
                    self.launch_key
                } else {
                    self.position.launch
                },
                bump: if self.is_first() {
                    self.position_bump
                } else {
                    self.position.bump
                },
                first_buy_timestamp: self.first_buy_after(now),
                balance: (self.position.balance + amount) as u64,
                last_activity_timestamp: now,
                diamond_rank: rank,
                multiplier_bps: rank.multiplier_bps() as u16,
                ..self.position
            },
            ..self
        }
    }

    /// The outcome record of a buy of `amount` at `now`.
    pub open spec fn record(self, amount: u64, now: i64) -> PositionUpdated {
        let position = self.after(amount, now).position;
        PositionUpdated {
            holder: position.holder,
            launch: position.launch,
            balance: position.balance,
            diamond_rank: position.diamond_rank,
            multiplier_bps: position.multiplier_bps,
        }
    }

    /// Tests at run time whether `within_limits` holds.
    pub fn check_limits(&self, amount: u64) -> (ok: bool)
        ensures
            ok == self.within_limits(amount),
    {
        amount <= u64::MAX - self.position.balance && (self.position.balance != 0
            || self.launch.holder_count < u64::MAX)
    }
}

/// Records a buy of `amount` by the holder at `now`. Never refused.
///
/// A first buy opens the position, sets the time of the first buy to `now`
/// and counts the holder in the launch. The amount is added to the balance.
/// Rank and multiplier are set from the time held since the first buy alone.
pub fn record_position(ctx: &mut RecordPosition, amount: u64, now: i64) -> (result: Result<
    PositionUpdated,
    DiamondPadError,
>)
    requires
        old(ctx).within_limits(amount),
    ensures
        result == Ok::<PositionUpdated, DiamondPadError>(old(ctx).record(amount, now)),
        *final(ctx) == old(ctx).after(amount, now),
        final(ctx).position.wf(),
        final(ctx).position.balance == old(ctx).position.balance + amount,
        final(ctx).position.diamond_rank == rank_of(
            old(ctx).first_buy_after(now) as int,
            now as int,
        ),
        old(ctx).launch.wf() ==> final(ctx).launch.wf(),
{
    if ctx.position.balance == 0 {
        ctx.position.holder = ctx.holder;
        ctx.position.launch = ctx.launch_key;
        ctx.position.first_buy_timestamp = now;
        ctx.position.bump = ctx.position_bump;
        ctx.launch.holder_count = ctx.launch.holder_count + 1;
    }
    ctx.position.balance = ctx.position.balance + amount;
    ctx.position.last_activity_timestamp = now;
    ctx.position.diamond_rank = calculate_diamond_rank(ctx.position.first_buy_timestamp, now);
    ctx.position.multiplier_bps = get_diamond_multiplier_bps(ctx.position.diamond_rank);
    Ok(
        PositionUpdated {
            holder: ctx.position.holder,
            launch: ctx.position.launch,
            balance: ctx.position.balance,
            diamond_rank: ctx.position.diamond_rank,
            multiplier_bps: ctx.position.multiplier_bps,
        },
    )
}

/// The rank a buy leaves does not depend on the amount bought nor on the
/// balance: two buys at the same time on positions with the same first buy
/// leave the same rank and multiplier.
pub proof fn lemma_rank_independent_of_balance(
    ctx: RecordPosition,
    other: RecordPosition,
    amount: u64,
    other_amount: u64,
    now: i64,
)
    requires
        ctx.first_buy_after(now) == other.first_buy_after(now),
    ensures
        ctx.after(amount, now).position.diamond_rank == other.after(
            other_amount,
            now,
        ).position.diamond_rank,
        ctx.after(amount, now).position.multiplier_bps == other.after(
            other_amount,
            now,
        ).position.multiplier_bps,
{
}

/// Across two buys in the order of time, rank and multiplier never regress,
/// whatever is bought.
pub proof fn lemma_position_rank_never_regresses(
    ctx: RecordPosition,
    amount: u64,
    now: i64,
    later_amount: u64,
    later: i64,
)
    requires
        now <= later,
        ctx.within_limits(amount),
        ctx.after(amount, now).within_limits(later_amount),
    ensures
        ({
            let first = ctx.after(amount, now).position;
            let second = ctx.after(amount, now).after(later_amount, later).position;
            &&& first.diamond_rank.level() <= second.diamond_rank.level()
            &&& first.multiplier_bps <= second.multiplier_bps
        }),
{
}

} // verus!
