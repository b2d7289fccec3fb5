use diamondpad::address::Address;
use diamondpad::error::DiamondPadError;
use diamondpad::events::{Staked, Unstaked};
use diamondpad::staking::{initialize, stake, unstake, Initialize, Stake, Unstake};
use diamondpad::state::{Protocol, StakerAccount};
use diamondpad::tier::StakingTier;

const DAY: i64 = 86_400;

fn wallet(tag: u8) -> Address {
    Address { bytes: [tag; 32] }
}

fn fresh_protocol() -> Protocol {
    let mut ctx = Initialize {
        authority: wallet(1),
        protocol: Protocol::default(),
        protocol_bump: 254,
    };
    initialize(&mut ctx, wallet(2)).unwrap();
    ctx.protocol
}

fn staking(owner: Address, protocol: Protocol, staker_account: StakerAccount) -> Stake {
    Stake { owner, protocol, staker_account, staker_account_bump: 253 }
}

#[test]
fn initialize_sets_up_the_aggregate() {
    let mut ctx = Initialize {
        authority: wallet(1),
        protocol: Protocol {
            authority: wallet(9),
            launch_token_mint: wallet(9),
            total_launches: 5,
            total_stakers: 6,
            total_staked: 7,
            total_bundlers_caught: 8,
            early_unstake_penalty_bps: 9,
            bump: 10,
        },
        protocol_bump: 254,
    };
    assert_eq!(initialize(&mut ctx, wallet(2)), Ok(()));
    assert_eq!(
        ctx.protocol,
        Protocol {
            authority: wallet(1),
            launch_token_mint: wallet(2),
            total_launches: 0,
            total_stakers: 0,
            total_staked: 0,
            total_bundlers_caught: 0,
            early_unstake_penalty_bps: 1000,
            bump: 254,
        }
    );
    assert_eq!(ctx.authority, wallet(1));
    assert_eq!(ctx.protocol_bump, 254);
}

#[test]
fn stake_rejects_zero() {
    let mut ctx = staking(wallet(3), fresh_protocol(), StakerAccount::default());
    let before = ctx;
    assert_eq!(stake(&mut ctx, 0, 180, 1_000), Err(DiamondPadError::InvalidAmount));
    assert_eq!(ctx, before);
}

#[test]
fn first_stake_opens_the_record() {
    let now = 1_700_000_000;
    let mut ctx = staking(wallet(3), fresh_protocol(), StakerAccount::default());
    assert!(ctx.check_limits(100_000_000_000, 180, now));
    let record = stake(&mut ctx, 100_000_000_000, 180, now).unwrap();
    assert_eq!(
        record,
        Staked {
            owner: wallet(3),
            amount: 100_000_000_000,
            lock_days: 180,
            tier: StakingTier::Diamond,
            total_staked: 100_000_000_000,
        }
    );
    assert_eq!(
        ctx.staker_account,
        StakerAccount {
            owner: wallet(3),
            staked_amount: 100_000_000_000,
            staked_at: now,
            lock_end_timestamp: now + 180 * DAY,
            tier: StakingTier::Diamond,
            strong_holder_score: 0,
            total_allocations_received: 0,
            last_update_timestamp: now,
            bump: 253,
        }
    );
    assert_eq!(ctx.protocol.total_stakers, 1);
    assert_eq!(ctx.protocol.total_staked, 100_000_000_000);
}

#[test]
fn top_up_resets_the_lock_and_keeps_the_record() {
    let now = 1_700_000_000;
    let mut ctx = staking(wallet(3), fresh_protocol(), StakerAccount::default());
    stake(&mut ctx, 60_000_000_000, 180, now).unwrap();
    assert_eq!(ctx.staker_account.tier, StakingTier::Gold);

    // A second signer value and bump must not replace those of the open record.
    ctx.owner = wallet(4);
    ctx.staker_account_bump = 1;
    let later = now + 100 * DAY;
    let record = stake(&mut ctx, 40_000_000_000, 30, later).unwrap();

    // The lock end is set anew from the time of the top-up, not extended.
    assert_eq!(ctx.staker_account.lock_end_timestamp, later + 30 * DAY);
    assert!(ctx.staker_account.lock_end_timestamp < now + 180 * DAY);
    // The tier is that of the new balance with the new lock.
    assert_eq!(ctx.staker_account.tier, StakingTier::Bronze);
    assert_eq!(record.tier, StakingTier::Bronze);
    assert_eq!(record.total_staked, 100_000_000_000);
    assert_eq!(record.owner, wallet(3));
    assert_eq!(ctx.staker_account.owner, wallet(3));
    assert_eq!(ctx.staker_account.bump, 253);
    assert_eq!(ctx.staker_account.staked_at, now);
    assert_eq!(ctx.staker_account.last_update_timestamp, later);
    assert_eq!(ctx.protocol.total_stakers, 1);
    assert_eq!(ctx.protocol.total_staked, 100_000_000_000);
}

#[test]
fn top_up_can_raise_the_tier() {
    let now = 50;
    let mut ctx = staking(wallet(3), fresh_protocol(), StakerAccount::default());
    stake(&mut ctx, 99_999_999_999, 180, now).unwrap();
    assert_eq!(ctx.staker_account.tier, StakingTier::Gold);
    let record = stake(&mut ctx, 1, 180, now).unwrap();
    assert_eq!(record.tier, StakingTier::Diamond);
}

#[test]
fn stake_then_unstake_before_expiry_pays_the_penalty() {
    let now = 1_700_000_000;
    let amount = 12_345_678_901u64;
    let mut protocol = fresh_protocol();
    protocol.total_staked = 777;
    protocol.total_stakers = 3;
    let mut ctx = staking(wallet(3), protocol, StakerAccount::default());
    stake(&mut ctx, amount, 30, now).unwrap();
    assert_eq!(ctx.protocol.total_staked, 777 + amount);
    assert_eq!(ctx.protocol.total_stakers, 4);

    let mut exit = Unstake { protocol: ctx.protocol, staker_account: ctx.staker_account };
    assert!(exit.check_limits(amount, now));
    let record = unstake(&mut exit, amount, now).unwrap();
    let penalty = amount * 1000 / 10000;
    assert_eq!(penalty, 1_234_567_890);
    assert_eq!(
        record,
        Unstaked {
            owner: wallet(3),
            amount,
            return_amount: amount - penalty,
            penalty_amount: penalty,
            early: true,
            remaining_stake: 0,
            new_tier: StakingTier::Public,
        }
    );
    assert_eq!(exit.protocol.total_staked, 777);
    assert_eq!(exit.protocol.total_stakers, 3);
    assert_eq!(exit.staker_account.staked_amount, 0);
}

#[test]
fn unstake_one_second_before_expiry_is_early() {
    let now = 1_000;
    let mut ctx = staking(wallet(3), fresh_protocol(), StakerAccount::default());
    stake(&mut ctx, 1_000, 1, now).unwrap();
    let mut exit = Unstake { protocol: ctx.protocol, staker_account: ctx.staker_account };
    let record = unstake(&mut exit, 1_000, now + DAY - 1).unwrap();
    assert!(record.early);
    assert_eq!(record.penalty_amount, 100);
    assert_eq!(record.return_amount, 900);
}

#[test]
fn unstake_after_expiry_returns_everything() {
    let now = 1_000;
    let mut ctx = staking(wallet(3), fresh_protocol(), StakerAccount::default());
    stake(&mut ctx, 1_000, 1, now).unwrap();
    let mut exit = Unstake { protocol: ctx.protocol, staker_account: ctx.staker_account };
    let record = unstake(&mut exit, 1_000, now + DAY).unwrap();
    assert!(!record.early);
    assert_eq!(record.penalty_amount, 0);
    assert_eq!(record.return_amount, 1_000);
    assert_eq!(exit.protocol.total_staked, 0);
    assert_eq!(exit.protocol.total_stakers, 0);
}

#[test]
fn stake_without_lock_can_leave_at_once_in_full() {
    let now = 1_000;
    let mut ctx = staking(wallet(3), fresh_protocol(), StakerAccount::default());
    stake(&mut ctx, 1_000, 0, now).unwrap();
    assert_eq!(ctx.staker_account.lock_end_timestamp, now);
    let mut exit = Unstake { protocol: ctx.protocol, staker_account: ctx.staker_account };
    let record = unstake(&mut exit, 1_000, now).unwrap();
    assert!(!record.early);
    assert_eq!(record.return_amount, 1_000);
}

#[test]
fn penalty_rounds_down() {
    let mut protocol = fresh_protocol();
    protocol.total_staked = 19;
    protocol.total_stakers = 1;
    let staker = StakerAccount {
        owner: wallet(3),
        staked_amount: 19,
        lock_end_timestamp: 10 * DAY,
        ..StakerAccount::default()
    };
    let mut exit = Unstake { protocol, staker_account: staker };
    let record = unstake(&mut exit, 19, 0).unwrap();
    assert_eq!(record.penalty_amount, 1);
    assert_eq!(record.return_amount, 18);
    let staker = StakerAccount { staked_amount: 9, ..staker };
    let mut exit = Unstake { protocol, staker_account: staker };
    let record = unstake(&mut exit, 9, 0).unwrap();
    assert_eq!(record.penalty_amount, 0);
    assert_eq!(record.return_amount, 9);
}

#[test]
fn penalty_follows_the_protocol_rate() {
    let mut protocol = fresh_protocol();
    protocol.total_staked = 1_000_000;
    protocol.total_stakers = 1;
    let staker = StakerAccount {
        owner: wallet(3),
        staked_amount: 1_000_000,
        lock_end_timestamp: 10 * DAY,
        ..StakerAccount::default()
    };
    for (bps, penalty) in [(0u16, 0u64), (1, 100), (2_500, 250_000), (9_999, 999_900), (10_000, 1_000_000)] {
        protocol.early_unstake_penalty_bps = bps;
        let mut exit = Unstake { protocol, staker_account: staker };
        let record = unstake(&mut exit, 1_000_000, 0).unwrap();
        assert_eq!(record.penalty_amount, penalty);
        assert_eq!(record.return_amount, 1_000_000 - penalty);
    }
}

#[test]
fn penalty_is_exact_for_the_largest_stake() {
    let mut protocol = fresh_protocol();
    protocol.total_staked = u64::MAX;
    protocol.total_stakers = 1;
    let staker = StakerAccount {
        owner: wallet(3),
        staked_amount: u64::MAX,
        lock_end_timestamp: 10 * DAY,
        ..StakerAccount::default()
    };
    let mut exit = Unstake { protocol, staker_account: staker };
    assert!(exit.check_limits(u64::MAX, 0));
    let record = unstake(&mut exit, u64::MAX, 0).unwrap();
    assert_eq!(record.penalty_amount, 1_844_674_407_370_955_161);
    assert_eq!(record.return_amount, u64::MAX - 1_844_674_407_370_955_161);
}

#[test]
fn unstake_rejects_zero_and_too_much() {
    let mut ctx = staking(wallet(3), fresh_protocol(), StakerAccount::default());
    stake(&mut ctx, 500, 10, 0).unwrap();
    let mut exit = Unstake { protocol: ctx.protocol, staker_account: ctx.staker_account };
    let before = exit;
    assert_eq!(unstake(&mut exit, 0, 5), Err(DiamondPadError::InvalidAmount));
    assert_eq!(exit, before);
    assert_eq!(unstake(&mut exit, 501, 5), Err(DiamondPadError::InsufficientStake));
    assert_eq!(exit, before);
    assert!(unstake(&mut exit, 500, 5).is_ok());
    assert_eq!(unstake(&mut exit, 1, 5), Err(DiamondPadError::InsufficientStake));
}

#[test]
fn partial_unstake_debits_the_whole_amount() {
    let now = 0;
    let mut ctx = staking(wallet(3), fresh_protocol(), StakerAccount::default());
    stake(&mut ctx, 100_000_000_000, 180, now).unwrap();
    let mut exit = Unstake { protocol: ctx.protocol, staker_account: ctx.staker_account };
    let record = unstake(&mut exit, 40_000_000_000, now + 10 * DAY).unwrap();
    // The penalty comes out of the proceeds; balance and total fall by the amount asked.
    assert_eq!(record.penalty_amount, 4_000_000_000);
    assert_eq!(record.return_amount, 36_000_000_000);
    assert_eq!(record.remaining_stake, 60_000_000_000);
    assert_eq!(exit.staker_account.staked_amount, 60_000_000_000);
    assert_eq!(exit.protocol.total_staked, 60_000_000_000);
    assert_eq!(exit.protocol.total_stakers, 1);
    // 170 days of lock are left: the balance earns Gold.
    assert_eq!(record.new_tier, StakingTier::Gold);
    assert_eq!(exit.staker_account.tier, StakingTier::Gold);
    assert_eq!(exit.staker_account.last_update_timestamp, now + 10 * DAY);
    assert_eq!(exit.staker_account.lock_end_timestamp, now + 180 * DAY);
}

#[test]
fn tier_after_unstake_uses_the_lock_that_is_left() {
    let now = 0;
    let mut ctx = staking(wallet(3), fresh_protocol(), StakerAccount::default());
    stake(&mut ctx, 200_000_000_000, 180, now).unwrap();
    let start = Unstake { protocol: ctx.protocol, staker_account: ctx.staker_account };

    // 180 days left, less a second: 179 whole days.
    let mut exit = start;
    assert_eq!(unstake(&mut exit, 1, now + 1).unwrap().new_tier, StakingTier::Gold);
    // exactly 90 days left
    let mut exit = start;
    assert_eq!(unstake(&mut exit, 1, now + 90 * DAY).unwrap().new_tier, StakingTier::Gold);
    // 89 days and some
    let mut exit = start;
    assert_eq!(unstake(&mut exit, 1, now + 90 * DAY + 1).unwrap().new_tier, StakingTier::Silver);
    // 30 days
    let mut exit = start;
    assert_eq!(unstake(&mut exit, 1, now + 150 * DAY).unwrap().new_tier, StakingTier::Bronze);
    // under 30 days
    let mut exit = start;
    assert_eq!(unstake(&mut exit, 1, now + 151 * DAY).unwrap().new_tier, StakingTier::Public);
    // lock over
    let mut exit = start;
    assert_eq!(unstake(&mut exit, 1, now + 180 * DAY).unwrap().new_tier, StakingTier::Public);
    let mut exit = start;
    assert_eq!(unstake(&mut exit, 1, i64::MAX).unwrap().new_tier, StakingTier::Public);
}

#[test]
fn tier_after_unstake_with_a_lock_far_ahead() {
    // More whole days of lock are left than any lock can be given: the
    // balance still earns its tier.
    let mut protocol = fresh_protocol();
    protocol.total_staked = 200_000_000_000;
    protocol.total_stakers = 1;
    let staker = StakerAccount {
        owner: wallet(3),
        staked_amount: 200_000_000_000,
        lock_end_timestamp: 65_536 * DAY,
        tier: StakingTier::Diamond,
        ..StakerAccount::default()
    };
    let mut exit = Unstake { protocol, staker_account: staker };
    assert_eq!(unstake(&mut exit, 1, 0).unwrap().new_tier, StakingTier::Diamond);
    let staker = StakerAccount { lock_end_timestamp: i64::MAX, ..staker };
    let mut exit = Unstake { protocol, staker_account: staker };
    assert_eq!(unstake(&mut exit, 1, i64::MIN).unwrap().new_tier, StakingTier::Diamond);
}

#[test]
fn staker_count_does_not_fall_below_zero() {
    let mut protocol = fresh_protocol();
    protocol.total_staked = 10;
    protocol.total_stakers = 0;
    let staker = StakerAccount { owner: wallet(3), staked_amount: 10, ..StakerAccount::default() };
    let mut exit = Unstake { protocol, staker_account: staker };
    unstake(&mut exit, 10, 0).unwrap();
    assert_eq!(exit.protocol.total_stakers, 0);
    assert_eq!(exit.protocol.total_staked, 0);
}

#[test]
fn two_stakers_share_the_aggregate() {
    let now = 0;
    let mut first = staking(wallet(3), fresh_protocol(), StakerAccount::default());
    stake(&mut first, 300, 10, now).unwrap();
    let mut second = staking(wallet(4), first.protocol, StakerAccount::default());
    stake(&mut second, 700, 10, now).unwrap();
    assert_eq!(second.protocol.total_staked, 1_000);
    assert_eq!(second.protocol.total_stakers, 2);

    let mut exit = Unstake { protocol: second.protocol, staker_account: first.staker_account };
    unstake(&mut exit, 300, now + 10 * DAY).unwrap();
    assert_eq!(exit.protocol.total_staked, 700);
    assert_eq!(exit.protocol.total_stakers, 1);
    let mut exit = Unstake { protocol: exit.protocol, staker_account: second.staker_account };
    unstake(&mut exit, 699, now + 10 * DAY).unwrap();
    assert_eq!(exit.protocol.total_staked, 1);
    assert_eq!(exit.protocol.total_stakers, 1);
}

#[test]
fn stake_limits_are_told_apart() {
    let protocol = fresh_protocol();
    let ctx = staking(wallet(3), protocol, StakerAccount::default());
    assert!(ctx.check_limits(u64::MAX, u16::MAX, 0));
    assert!(ctx.check_limits(1, u16::MAX, i64::MAX - 65_535 * DAY));
    assert!(!ctx.check_limits(1, u16::MAX, i64::MAX - 65_535 * DAY + 1));
    assert!(ctx.check_limits(1, 0, i64::MAX));
    // a refused request is within limits whatever the rest
    assert!(ctx.check_limits(0, u16::MAX, i64::MAX));

    let full = StakerAccount { staked_amount: u64::MAX, ..StakerAccount::default() };
    assert!(!staking(wallet(3), protocol, full).check_limits(1, 0, 0));
    let mut crowded = protocol;
    crowded.total_stakers = u64::MAX;
    assert!(!staking(wallet(3), crowded, StakerAccount::default()).check_limits(1, 0, 0));
    let open = StakerAccount { staked_amount: 5, ..StakerAccount::default() };
    assert!(staking(wallet(3), crowded, open).check_limits(1, 0, 0));
    let mut brimming = protocol;
    brimming.total_staked = u64::MAX;
    assert!(!staking(wallet(3), brimming, StakerAccount::default()).check_limits(1, 0, 0));
}

#[test]
fn unstake_limits_are_told_apart() {
    let mut protocol = fresh_protocol();
    protocol.total_staked = 5;
    let staker = StakerAccount {
        staked_amount: 10,
        lock_end_timestamp: 100,
        ..StakerAccount::default()
    };
    let exit = Unstake { protocol, staker_account: staker };
    assert!(exit.check_limits(5, 0));
    assert!(!exit.check_limits(6, 0));
    // refused requests are within limits
    assert!(exit.check_limits(0, 0));
    assert!(exit.check_limits(11, 0));

    protocol.total_staked = 10;
    protocol.early_unstake_penalty_bps = 10_001;
    let exit = Unstake { protocol, staker_account: staker };
    // 10 * 10_001 / 10_000 rounds down to 10: still covered
    assert!(exit.check_limits(10, 0));
    protocol.early_unstake_penalty_bps = 11_000;
    let exit = Unstake { protocol, staker_account: staker };
    assert!(!exit.check_limits(10, 0));
    // after the lock nothing is withheld, whatever the rate
    assert!(exit.check_limits(10, 100));
}
