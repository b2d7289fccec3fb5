//! The allocation engine: asking for an allocation in a pool of a launch,
//! deciding it, and claiming what has vested of it.

use vstd::prelude::*;
use crate::address::Address;
use crate::error::DiamondPadError;
use crate::events::{AllocationClaimed, AllocationFulfilled, AllocationRequested};
use crate::state::{
    Allocation, AllocationPool, AllocationStatus, Launch, Protocol, StakerAccount,
};
use crate::tier::{get_tier_weight, StakingTier};
use crate::units::bps_share;
use crate::vesting::{
    calculate_vested_amount, lemma_terms_valid_up_to_whole, lemma_vested_within_grant,
    vested_amount,
};

verus! {

impl AllocationPool {
    /// The reason, if any, for which the pool turns away a staker of `tier`.
    /// The guaranteed pool is open to `Diamond` and `Gold` only, the weighted
    /// lottery to every tier but `Public`, the other pools to all.
    pub open spec fn refusal(self, tier: StakingTier) -> Option<DiamondPadError> {
        match self {
            AllocationPool::Guaranteed => if tier == StakingTier::Diamond || tier
                == StakingTier::Gold {
                None
            } else {
                Some(DiamondPadError::TierTooLow)
            },
            AllocationPool::WeightedLottery => if tier != StakingTier::Public {
                None
            } else {
                Some(DiamondPadError::StakingRequired)
            },
            AllocationPool::PublicLottery => None,
            AllocationPool::FCFS => None,
            AllocationPool::Flipper => None,
        }
    }

    /// Whether the pool is open to a staker of `tier`.
    pub open spec fn admits(self, tier: StakingTier) -> bool {
        self.refusal(tier) is None
    }
}

/// What asking for an allocation works on: the requester who signs, the
/// launch and its identity, the requester's staking record, and the
/// allocation record of this requester in this launch.
#[derive(Clone, Debug, PartialEq, Eq)]
pub struct RequestAllocation {
    pub requester: Address,
    pub launch_key: Address,
    pub launch: Launch,
    pub staker_account: StakerAccount,
    pub allocation: Allocation,
    pub allocation_bump: u8,
}

impl RequestAllocation {
    /// Whether a request for `pool` is accepted: the pool is open to the
    /// requester's tier.
    pub open spec fn accepts(self, pool: AllocationPool) -> bool {
        pool.admits(self.staker_account.tier)
    }

    /// The records after asking `pool` for `amount_usd` at `now`. The
    /// allocation record of the pair is overwritten by the new pending
    /// request; what an earlier decision left in it of grant and claims
    /// stays. A refused request changes nothing.
    pub open spec fn after(self, pool: AllocationPool, amount_usd: u64, now: i64) -> Self {
        if self.accepts(pool) {
            RequestAllocation {
                allocation: Allocation {
                    owner: self.requester,
                    launch: self.launch_key,
                    pool,
                    requested_amount_usd: amount_usd,
                    weight: self.staker_account.tier.weight() as u16,
                    status: AllocationStatus::Pending,
                    requested_at: now,
                    bump: self.allocation_bump,
                    ..self.allocation
                },
                ..self
            }
        } else {
            self
        }
    }

    /// What asking `pool` for `amount_usd` answers: the outcome record, or
    /// the pool's reason for the refusal. The weight is that of the tier,
    /// whatever the amount.
    pub open spec fn outcome(self, pool: AllocationPool, amount_usd: u64) -> Result<
        AllocationRequested,
        DiamondPadError,
    > {
        match pool.refusal(self.staker_account.tier) {
            Some(reason) => Err(reason),
            None => Ok(
                AllocationRequested {
                    owner: self.requester,
                    launch_id: self.launch.launch_id,
                    pool,
                    amount_usd,
                    weight: self.staker_account.tier.weight() as u16,
                },
            ),
        }
    }
}

/// Asks `pool` of the launch for an allocation worth `amount_usd`, at `now`.
///
/// Refused with `TierTooLow` when the guaranteed pool is asked by a staker
/// below `Gold`, and with `StakingRequired` when the weighted lottery is
/// asked by a `Public` staker. Otherwise the allocation record of this
/// requester in this launch becomes the pending request, weighted by the
/// requester's tier.
pub fn request_allocation(
    ctx: &mut RequestAllocation,
    pool: AllocationPool,
    amount_usd: u64,
    now: i64,
) -> (result: Result<AllocationRequested, DiamondPadError>)
    ensures
        result == old(ctx).outcome(pool, amount_usd),
        *final(ctx) == old(ctx).after(pool, amount_usd, now),
        result is Ok <==> old(ctx).accepts(pool),
        old(ctx).allocation.wf() ==> final(ctx).allocation.wf(),
{
    let tier = ctx.staker_account.tier;
    match pool {
        AllocationPool::Guaranteed => {
            if !(tier == StakingTier::Diamond || tier == StakingTier::Gold) {
                return Err(DiamondPadError::TierTooLow);
            }
        },
        AllocationPool::WeightedLottery => {
            if tier == StakingTier::Public {
                return Err(DiamondPadError::StakingRequired);
            }
        },
        AllocationPool::PublicLottery => {},
        AllocationPool::FCFS => {},
        AllocationPool::Flipper => {},
    }
    let weight = get_tier_weight(tier);
    ctx.allocation.owner = ctx.requester;
    ctx.allocation.launch = ctx.launch_key;
    ctx.allocation.pool = pool;
    ctx.allocation.requested_amount_usd = amount_usd;
    ctx.allocation.weight = weight;
    ctx.allocation.status = AllocationStatus::Pending;
    ctx.allocation.requested_at = now;
    ctx.allocation.bump = ctx.allocation_bump;
    Ok(
        AllocationRequested {
            owner: ctx.allocation.owner,
            launch_id: ctx.launch.launch_id,
            pool,
            amount_usd,
            weight,
        },
    )
}

/// The weight of a request is that of the requester's tier alone: two
/// requests of the same staker weigh the same, whatever amounts and pools
/// they ask for.
pub proof fn lemma_weight_independent_of_amount(
    ctx: RequestAllocation,
    pool: AllocationPool,
    amount_usd: u64,
    other_pool: AllocationPool,
    other_amount_usd: u64,
)
    requires
        ctx.accepts(pool),
        ctx.accepts(other_pool),
    ensures
        ctx.outcome(pool, amount_usd) matches Ok(record) && ctx.outcome(
            other_pool,
            other_amount_usd,
        ) matches Ok(other) && record.weight == other.weight && record.weight
            == ctx.staker_account.tier.weight(),
{
}

/// What deciding an allocation works on: the caller who signs, the
/// aggregate that names the authority, and the allocation record.
#[derive(Clone, Copy, Debug, PartialEq, Eq)]
pub struct FulfillAllocation {
    pub authority: Address,
    pub protocol: Protocol,
    pub allocation: Allocation,
}

/// The status a decision gives an allocation: won when tokens were granted,
/// lost when none were.
pub open spec fn decided_status(allocated_tokens: u64) -> AllocationStatus {
    if allocated_tokens > 0 {
        AllocationStatus::Won
    } else {
        AllocationStatus::Lost
    }
}

impl FulfillAllocation {
    /// Whether the caller is the protocol authority.
    pub open spec fn authorized(self) -> bool {
        self.authority == self.protocol.authority
    }

    /// The records after the allocation is decided at `now`: the grant and
    /// its vesting terms are set, vesting starts at `now`, and the claims
    /// start again from zero, whatever had been claimed of an earlier
    /// decision. A refused call changes nothing.
    pub open spec fn after(
        self,
        allocated_tokens: u64,
        vesting_cliff_days: u16,
        vesting_duration_days: u16,
        tge_unlock_bps: u16,
        now: i64,
    ) -> Self {
        if self.authorized() {
            FulfillAllocation {
                allocation: Allocation {
                    allocated_tokens,
                    vesting_start: now,
                    vesting_cliff_days,
                    vesting_duration_days,
                    tge_unlock_bps,
                    tokens_claimed: 0,
                    status: decided_status(allocated_tokens),
                    ..self.allocation
                },
                ..self
            }
        } else {
            self
        }
    }

    /// What deciding the allocation answers: the outcome record, or
    /// `Unauthorized`.
    pub open spec fn outcome(self, allocated_tokens: u64) -> Result<
        AllocationFulfilled,
        DiamondPadError,
    > {
        if self.authorized() {
            Ok(
                AllocationFulfilled {
                    owner: self.allocation.owner,
                    launch: self.allocation.launch,
                    allocated_tokens,
                    status: decided_status(allocated_tokens),
                },
            )
        } else {
            Err(DiamondPadError::Unauthorized)
        }
    }
}

/// Decides an allocation at `now`: grants `allocated_tokens` under the given
/// vesting terms.
///
/// Refused with `Unauthorized`, before anything changes, unless the caller
/// is the protocol authority. The allocation is won when tokens were granted
/// and lost when none were; vesting starts at `now` and the claims start
/// again from zero.
pub fn fulfill_allocation(
    ctx: &mut FulfillAllocation,
    allocated_tokens: u64,
    vesting_cliff_days: u16,
    vesting_duration_days: u16,
    tge_unlock_bps: u16,
    now: i64,
) -> (result: Result<AllocationFulfilled, DiamondPadError>)
    ensures
        result == old(ctx).outcome(allocated_tokens),
        *final(ctx) == old(ctx).after(
            allocated_tokens,
            vesting_cliff_days,
            vesting_duration_days,
            tge_unlock_bps,
            now,
        ),
        result is Ok <==> old(ctx).authorized(),
        result is Ok ==> final(ctx).allocation.wf(),
{
    if !(ctx.authority == ctx.protocol.authority) {
        return Err(DiamondPadError::Unauthorized);
    }
    ctx.allocation.allocated_tokens = allocated_tokens;
    ctx.allocation.vesting_start = now;
    ctx.allocation.vesting_cliff_days = vesting_cliff_days;
    ctx.allocation.vesting_duration_days = vesting_duration_days;
    ctx.allocation.tge_unlock_bps = tge_unlock_bps;
    ctx.allocation.tokens_claimed = 0;
    ctx.allocation.status = if allocated_tokens > 0 {
        AllocationStatus::Won
    } else {
        AllocationStatus::Lost
    };
    Ok(
        AllocationFulfilled {
            owner: ctx.allocation.owner,
            launch: ctx.allocation.launch,
            allocated_tokens,
            status: ctx.allocation.status,
        },
    )
}

impl Allocation {
    /// The cumulative amount of the grant that has vested at `now`.
    pub open spec fn vested(self, now: i64) -> int {
        vested_amount(
            self.allocated_tokens as int,
            self.vesting_start as int,
            self.vesting_cliff_days as int,
            self.vesting_duration_days as int,
            self.tge_unlock_bps as int,
            now as int,
        )
    }

    /// What can be claimed at `now`: what has vested beyond what was already
    /// claimed, and nothing when the claims are ahead of the schedule.
    pub open spec fn claimable(self, now: i64) -> int {
        if self.vested(now) > self.tokens_claimed {
            self.vested(now) - self.tokens_claimed
        } else {
            0
        }
    }

    /// The share unlocked at the start lies within the grant.
    pub open spec fn terms_valid(self) -> bool {
        bps_share(self.allocated_tokens as int, self.tge_unlock_bps as int)
            <= self.allocated_tokens
    }
}

/// What claiming works on: the allocation record.
#[derive(Clone, Copy, Debug, PartialEq, Eq)]
pub struct ClaimAllocation {
    pub allocation: Allocation,
}

impl ClaimAllocation {
    /// The limits within which a claim can be carried through: the vesting
    /// terms of a won allocation are valid. Every allocation decided with at
    /// most 100% unlocked at the start is within them.
    pub open spec fn within_limits(self) -> bool {
        self.allocation.status == AllocationStatus::Won ==> self.allocation.terms_valid()
    }

    /// Whether a claim at `now` is accepted: the allocation was won and
    /// something has vested beyond what was claimed.
    pub open spec fn accepts(self, now: i64) -> bool {
        self.allocation.status == AllocationStatus::Won && self.allocation.claimable(now) > 0
    }

    /// The records after a claim at `now`: what was claimable is added to
    /// the claims. A refused claim changes nothing.
    pub open spec fn after(self, now: i64) -> Self {
        if self.accepts(now) {
            ClaimAllocation {
                allocation: Allocation {
                    tokens_claimed: (self.allocation.tokens_claimed + self.allocation.claimable(
                        now,
                    )) as u64,
                    ..self.allocation
                },
            }
        } else {
            self
        }
    }

    /// What a claim at `now` answers: the outcome record, `NoAllocation`
    /// when the allocation was not won, or `NothingToClaim` when nothing has
    /// vested beyond what was claimed.
    pub open spec fn outcome(self, now: i64) -> Result<AllocationClaimed, DiamondPadError> {
        if self.allocation.status != AllocationStatus::Won {
            Err(DiamondPadError::NoAllocation)
        } else if self.allocation.claimable(now) == 0 {
            Err(DiamondPadError::NothingToClaim)
        } else {
            let total_claimed = self.allocation.tokens_claimed + self.allocation.claimable(now);
            Ok(
                AllocationClaimed {
                    owner: self.allocation.owner,
                    launch: self.allocation.launch,
                    claimed: self.allocation.claimable(now) as u64,
                    total_claimed: total_claimed as u64,
                    remaining: (self.allocation.allocated_tokens - total_claimed) as u64,
                },
            )
        }
    }

    /// Tests at run time whether `within_limits` holds.
    pub fn check_limits(&self) -> (ok: bool)
        ensures
            ok == self.within_limits(),
    {
        match self.allocation.status {
            AllocationStatus::Won => crate::units::share_of(
                self.allocation.allocated_tokens,
                self.allocation.tge_unlock_bps,
            ) <= self.allocation.allocated_tokens as u128,
            AllocationStatus::Pending => true,
            AllocationStatus::Lost => true,
            AllocationStatus::Claimed => true,
        }
    }
}

/// Claims at `now` what has vested of a won allocation. The caller moves the
/// claimed amount to the owner in the same step.
///
/// Refused with `NoAllocation` unless the allocation was won, and with
/// `NothingToClaim` when nothing has vested beyond what was already claimed.
/// Otherwise the claims rise to exactly what has vested, which never exceeds
/// the grant.
pub fn claim_allocation(ctx: &mut ClaimAllocation, now: i64) -> (result: Result<
    AllocationClaimed,
    DiamondPadError,
>)
    requires
        old(ctx).within_limits(),
    ensures
        result == old(ctx).outcome(now),
        *final(ctx) == old(ctx).after(now),
        result is Ok <==> old(ctx).accepts(now),
        result matches Ok(record) ==> {
            &&& record.claimed > 0
            &&& record.claimed == old(ctx).allocation.vested(now)
                - old(ctx).allocation.tokens_claimed
            &&& record.total_claimed == old(ctx).allocation.vested(now)
            &&& record.total_claimed + record.remaining == old(ctx).allocation.allocated_tokens
            &&& final(ctx).allocation.tokens_claimed == old(ctx).allocation.vested(now)
            &&& final(ctx).allocation.wf()
        },
        final(ctx).allocation.tokens_claimed >= old(ctx).allocation.tokens_claimed,
{
    match ctx.allocation.status {
        AllocationStatus::Won => {},
        AllocationStatus::Pending => {
            return Err(DiamondPadError::NoAllocation);
        },
        AllocationStatus::Lost => {
            return Err(DiamondPadError::NoAllocation);
        },
        AllocationStatus::Claimed => {
            return Err(DiamondPadError::NoAllocation);
        },
    }
    let vested = calculate_vested_amount(
        ctx.allocation.allocated_tokens,
        ctx.allocation.vesting_start,
        ctx.allocation.vesting_cliff_days,
        ctx.allocation.vesting_duration_days,
        ctx.allocation.tge_unlock_bps,
        now,
    );
    let claimable: u64 = vested.saturating_sub(ctx.allocation.tokens_claimed);
    if claimable == 0 {
        return Err(DiamondPadError::NothingToClaim);
    }
    ctx.allocation.tokens_claimed = ctx.allocation.tokens_claimed + claimable;
    Ok(
        AllocationClaimed {
            owner: ctx.allocation.owner,
            launch: ctx.allocation.launch,
            claimed: claimable,
            total_claimed: ctx.allocation.tokens_claimed,
            remaining: ctx.allocation.allocated_tokens - ctx.allocation.tokens_claimed,
        },
    )
}

/// An allocation decided with at most 100% unlocked at the start has valid
/// terms, so that every claim on it is within limits.
pub proof fn lemma_fulfilled_terms_valid(
    ctx: FulfillAllocation,
    allocated_tokens: u64,
    vesting_cliff_days: u16,
    vesting_duration_days: u16,
    tge_unlock_bps: u16,
    now: i64,
)
    requires
        ctx.authorized(),
        tge_unlock_bps <= 10_000,
    ensures
        ctx.after(
            allocated_tokens,
            vesting_cliff_days,
            vesting_duration_days,
            tge_unlock_bps,
            now,
        ).allocation.terms_valid(),
        (ClaimAllocation {
            allocation: ctx.after(
                allocated_tokens,
                vesting_cliff_days,
                vesting_duration_days,
                tge_unlock_bps,
                now,
            ).allocation,
        }).within_limits(),
{
    lemma_terms_valid_up_to_whole(allocated_tokens, tge_unlock_bps);
}

/// A second claim at the time of the first finds nothing to claim: once a
/// won allocation has been claimed at `now`, whether or not that claim found
/// anything, the next claim at the same `now` is refused with
/// `NothingToClaim`.
pub proof fn lemma_second_claim_at_same_time_refused(ctx: ClaimAllocation, now: i64)
    requires
        ctx.allocation.status == AllocationStatus::Won,
        ctx.allocation.terms_valid(),
    ensures
        ctx.after(now).outcome(now) == Err::<AllocationClaimed, DiamondPadError>(
            DiamondPadError::NothingToClaim,
        ),
{
    lemma_vested_within_grant(
        ctx.allocation.allocated_tokens,
        ctx.allocation.vesting_start,
        ctx.allocation.vesting_cliff_days,
        ctx.allocation.vesting_duration_days,
        ctx.allocation.tge_unlock_bps,
        now,
    );
}

/// Deciding an allocation again forgets what was claimed of the earlier
/// decision: the claims are zero afterwards, whatever they were.
pub proof fn lemma_fulfill_again_resets_claims(
    ctx: FulfillAllocation,
    allocated_tokens: u64,
    vesting_cliff_days: u16,
    vesting_duration_days: u16,
    tge_unlock_bps: u16,
    now: i64,
)
    requires
        ctx.authorized(),
    ensures
        ctx.after(
            allocated_tokens,
            vesting_cliff_days,
            vesting_duration_days,
            tge_unlock_bps,
            now,
        ).allocation.tokens_claimed == 0,
{
}

} // verus!
