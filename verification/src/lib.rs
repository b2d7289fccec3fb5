//! Accounting core of a token-launch platform: tiered staking, allocation
//! pools, vesting and holder ranks.
//!
//! The core holds no storage, reads no clock and moves no tokens. Every
//! operation is a function from the records it names, its arguments and the
//! current time to the records afterwards and an outcome record. The caller
//! loads the records, passes the time, stores what comes back and performs
//! the token transfer that the outcome record calls for, all in one atomic
//! step.
//!
//! For each operation there is a struct that bundles the records it works on
//! (`Stake`, `Unstake`, `CreateLaunch`, ...). Its `after` says what the
//! records are once the operation is done and its `outcome` what the
//! operation answers; the contract of the operation equates what the code
//! does with the two. A refused operation changes nothing.
//!
//! Sums that cannot be represented are kept out by the operation's
//! precondition, `within_limits`. Code that cannot prove it tests it with
//! `check_limits` before the call. Products and differences of timestamps
//! are formed in wider types and cannot overflow.

pub mod address;
pub mod allocation;
pub mod bundler;
pub mod error;
pub mod events;
pub mod launch;
pub mod ledger;
pub mod position;
pub mod rank;
pub mod staking;
pub mod state;
pub mod tier;
pub mod units;
pub mod vesting;

pub use crate::address::Address;
pub use crate::allocation::{
    claim_allocation, fulfill_allocation, request_allocation, ClaimAllocation, FulfillAllocation,
    RequestAllocation,
};
pub use crate::bundler::{flag_bundler, FlagBundler};
pub use crate::error::DiamondPadError;
pub use crate::events::{
    AllocationClaimed, AllocationFulfilled, AllocationRequested, BundlerFlagged, LaunchCreated,
    PositionUpdated, Staked, Unstaked,
};
pub use crate::launch::{create_launch, validate_launch, CreateLaunch};
pub use crate::position::{record_position, RecordPosition};
pub use crate::rank::{calculate_diamond_rank, get_diamond_multiplier_bps, DiamondRank};
pub use crate::staking::{initialize, stake, unstake, Initialize, Stake, Unstake};
pub use crate::state::{
    Allocation, AllocationPool, AllocationStatus, Bundler, Launch, LaunchStatus, Position,
    Protocol, StakerAccount,
};
pub use crate::tier::{calculate_staking_tier, get_tier_weight, StakingTier};
pub use crate::vesting::calculate_vested_amount;
