//! The reasons an operation is refused.

use vstd::prelude::*;

verus! {

/// Why an operation was refused. A refused operation changes no record.
#[derive(Clone, Copy, Debug, PartialEq, Eq, Structural)]
pub enum DiamondPadError {
    /// The developer allocation of a launch exceeds 10% (1000 bps).
    DevAllocationTooHigh,
    /// The developer vesting of a launch is shorter than 180 days.
    VestingTooShort,
    /// The liquidity lock of a launch is shorter than 365 days.
    LpLockTooShort,
    /// The name of a launch has more than 32 characters.
    NameTooLong,
    /// The symbol of a launch has more than 10 characters.
    SymbolTooLong,
    /// The caller is not the protocol authority.
    Unauthorized,
    /// An amount of zero was given where a positive one is needed.
    InvalidAmount,
    /// More was asked back than is staked.
    InsufficientStake,
    /// The staker's tier does not reach the pool.
    TierTooLow,
    /// The pool is open to stakers only.
    StakingRequired,
    /// The allocation was not won.
    NoAllocation,
    /// Nothing has vested beyond what was already claimed.
    NothingToClaim,
}

impl DiamondPadError {
    /// The text shown for the error.
    pub open spec fn message_text(self) -> Seq<char> {
        match self {
            DiamondPadError::DevAllocationTooHigh => "Dev allocation cannot exceed 10% (1000 bps)"@,
            DiamondPadError::VestingTooShort => "Dev vesting must be at least 180 days"@,
            DiamondPadError::LpLockTooShort => "LP must be locked for at least 365 days"@,
            DiamondPadError::NameTooLong => "Token name too long (max 32 chars)"@,
            DiamondPadError::SymbolTooLong => "Token symbol too long (max 10 chars)"@,
            DiamondPadError::Unauthorized => "Unauthorized"@,
            DiamondPadError::InvalidAmount => "Invalid amount"@,
            DiamondPadError::InsufficientStake => "Insufficient stake"@,
            DiamondPadError::TierTooLow => "Tier too low for this pool"@,
            DiamondPadError::StakingRequired => "Staking required for this pool"@,
            DiamondPadError::NoAllocation => "No allocation to claim"@,
            DiamondPadError::NothingToClaim => "Nothing to claim yet"@,
        }
    }

    /// The text shown for the error.
    pub fn message(&self) -> (text: &'static str)
        ensures
            text@ == self.message_text(),
    {
        match self {
            DiamondPadError::DevAllocationTooHigh => "Dev allocation cannot exceed 10% (1000 bps)",
            DiamondPadError::VestingTooShort => "Dev vesting must be at least 180 days",
            DiamondPadError::LpLockTooShort => "LP must be locked for at least 365 days",
            DiamondPadError::NameTooLong => "Token name too long (max 32 chars)",
            DiamondPadError::SymbolTooLong => "Token symbol too long (max 10 chars)",
            DiamondPadError::Unauthorized => "Unauthorized",
            DiamondPadError::InvalidAmount => "Invalid amount",
            DiamondPadError::InsufficientStake => "Insufficient stake",
            DiamondPadError::TierTooLow => "Tier too low for this pool",
            DiamondPadError::StakingRequired => "Staking required for this pool",
            DiamondPadError::NoAllocation => "No allocation to claim",
            DiamondPadError::NothingToClaim => "Nothing to claim yet",
        }
    }
}

} // verus!
