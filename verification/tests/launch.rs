use diamondpad::address::Address;
use diamondpad::error::DiamondPadError;
use diamondpad::events::LaunchCreated;
use diamondpad::launch::{create_launch, validate_launch, CreateLaunch};
use diamondpad::state::{Launch, LaunchStatus, Protocol};

fn creator() -> Address {
    Address { bytes: [5; 32] }
}

fn creating(total_launches: u64) -> CreateLaunch {
    CreateLaunch {
        creator: creator(),
        protocol: Protocol { total_launches, early_unstake_penalty_bps: 1000, ..Protocol::default() },
        launch: Launch::default(),
        launch_bump: 249,
    }
}

fn text(len: usize) -> String {
    "x".repeat(len)
}

#[test]
fn create_launch_accepts_the_boundary_values() {
    let mut ctx = creating(17);
    let record = create_launch(&mut ctx, text(32), text(10), 1_000_000, 1000, 180, 365, 300, 99).unwrap();
    assert_eq!(
        record,
        LaunchCreated {
            launch_id: 17,
            creator: creator(),
            name: text(32),
            symbol: text(10),
            total_supply: 1_000_000,
            dev_allocation_bps: 1000,
            dev_vesting_days: 180,
        }
    );
    assert_eq!(
        ctx.launch,
        Launch {
            creator: creator(),
            name: text(32),
            symbol: text(10),
            total_supply: 1_000_000,
            dev_allocation_bps: 1000,
            dev_vesting_days: 180,
            lp_lock_days: 365,
            holder_rewards_bps: 300,
            created_at: 99,
            launch_id: 17,
            status: LaunchStatus::Pending,
            total_raised: 0,
            holder_count: 0,
            guaranteed_pool_bps: 3000,
            lottery_pool_bps: 2500,
            public_pool_bps: 1000,
            fcfs_pool_bps: 500,
            flipper_pool_bps: 500,
            liquidity_pool_bps: 1500,
            trader_rewards_pool_bps: 1000,
            bump: 249,
        }
    );
    assert_eq!(ctx.protocol.total_launches, 18);
}

#[test]
fn create_launch_rejects_a_high_dev_allocation() {
    let mut ctx = creating(17);
    let before = ctx.clone();
    assert_eq!(
        create_launch(&mut ctx, text(32), text(10), 1, 1001, 180, 365, 0, 0),
        Err(DiamondPadError::DevAllocationTooHigh)
    );
    assert_eq!(ctx, before);
    assert_eq!(
        create_launch(&mut ctx, text(32), text(10), 1, u16::MAX, 180, 365, 0, 0),
        Err(DiamondPadError::DevAllocationTooHigh)
    );
}

#[test]
fn create_launch_rejects_a_short_vesting() {
    let mut ctx = creating(17);
    let before = ctx.clone();
    assert_eq!(
        create_launch(&mut ctx, text(32), text(10), 1, 1000, 179, 365, 0, 0),
        Err(DiamondPadError::VestingTooShort)
    );
    assert_eq!(ctx, before);
}

#[test]
fn create_launch_rejects_a_short_lp_lock() {
    let mut ctx = creating(17);
    let before = ctx.clone();
    assert_eq!(
        create_launch(&mut ctx, text(32), text(10), 1, 1000, 180, 364, 0, 0),
        Err(DiamondPadError::LpLockTooShort)
    );
    assert_eq!(ctx, before);
}

#[test]
fn create_launch_rejects_a_long_name() {
    let mut ctx = creating(17);
    let before = ctx.clone();
    assert_eq!(
        create_launch(&mut ctx, text(33), text(10), 1, 1000, 180, 365, 0, 0),
        Err(DiamondPadError::NameTooLong)
    );
    assert_eq!(ctx, before);
}

#[test]
fn create_launch_rejects_a_long_symbol() {
    let mut ctx = creating(17);
    let before = ctx.clone();
    assert_eq!(
        create_launch(&mut ctx, text(32), text(11), 1, 1000, 180, 365, 0, 0),
        Err(DiamondPadError::SymbolTooLong)
    );
    assert_eq!(ctx, before);
}

#[test]
fn create_launch_reports_the_first_broken_limit() {
    let mut ctx = creating(0);
    assert_eq!(
        create_launch(&mut ctx, text(33), text(11), 1, 1001, 179, 364, 0, 0),
        Err(DiamondPadError::DevAllocationTooHigh)
    );
    assert_eq!(
        create_launch(&mut ctx, text(33), text(11), 1, 1000, 179, 364, 0, 0),
        Err(DiamondPadError::VestingTooShort)
    );
    assert_eq!(
        create_launch(&mut ctx, text(33), text(11), 1, 1000, 180, 364, 0, 0),
        Err(DiamondPadError::LpLockTooShort)
    );
    assert_eq!(
        create_launch(&mut ctx, text(33), text(11), 1, 1000, 180, 365, 0, 0),
        Err(DiamondPadError::NameTooLong)
    );
    assert_eq!(
        create_launch(&mut ctx, text(32), text(11), 1, 1000, 180, 365, 0, 0),
        Err(DiamondPadError::SymbolTooLong)
    );
    assert_eq!(ctx.protocol.total_launches, 0);
}

#[test]
fn create_launch_counts_characters() {
    let mut ctx = creating(0);
    let name = "\u{1F48E}".repeat(32);
    assert_eq!(name.chars().count(), 32);
    assert!(create_launch(&mut ctx, name, "\u{00E9}".repeat(10), 1, 0, 180, 365, 0, 0).is_ok());
    assert_eq!(
        create_launch(&mut ctx, "\u{1F48E}".repeat(33), text(1), 1, 0, 180, 365, 0, 0),
        Err(DiamondPadError::NameTooLong)
    );
}

#[test]
fn create_launch_accepts_empty_texts_and_any_supply() {
    let mut ctx = creating(0);
    assert!(create_launch(&mut ctx, String::new(), String::new(), 0, 0, u16::MAX, u16::MAX, u16::MAX, i64::MIN).is_ok());
    assert!(create_launch(&mut ctx, text(1), text(1), u64::MAX, 0, 180, 365, 0, i64::MAX).is_ok());
    assert_eq!(ctx.launch.total_supply, u64::MAX);
}

#[test]
fn launch_ids_are_sequential() {
    let mut ctx = creating(0);
    for id in 0..5u64 {
        let record = create_launch(&mut ctx, text(4), text(3), 10, 500, 200, 400, 0, 7).unwrap();
        assert_eq!(record.launch_id, id);
        assert_eq!(ctx.launch.launch_id, id);
        assert_eq!(ctx.protocol.total_launches, id + 1);
    }
}

#[test]
fn pool_split_adds_up_to_the_whole() {
    let mut ctx = creating(0);
    create_launch(&mut ctx, text(4), text(3), 10, 500, 200, 400, 0, 7).unwrap();
    let launch = &ctx.launch;
    let total = launch.guaranteed_pool_bps as u32
        + launch.lottery_pool_bps as u32
        + launch.public_pool_bps as u32
        + launch.fcfs_pool_bps as u32
        + launch.flipper_pool_bps as u32
        + launch.liquidity_pool_bps as u32
        + launch.trader_rewards_pool_bps as u32;
    assert_eq!(total, 10_000);
}

#[test]
fn launch_limit_is_the_count_of_launches() {
    assert!(creating(0).check_limits("name", "SYM", 500, 200, 400));
    assert!(creating(u64::MAX - 1).check_limits("name", "SYM", 500, 200, 400));
    assert!(!creating(u64::MAX).check_limits("name", "SYM", 500, 200, 400));
    let mut ctx = creating(u64::MAX - 1);
    let record = create_launch(&mut ctx, text(4), text(3), 10, 500, 200, 400, 0, 7).unwrap();
    assert_eq!(record.launch_id, u64::MAX - 1);
    assert_eq!(ctx.protocol.total_launches, u64::MAX);
    // rejected settings are turned away whatever the count
    let mut full = creating(u64::MAX);
    assert!(full.check_limits("name", "SYM", 1001, 200, 400));
    assert!(full.check_limits("name", "a symbol too long", 500, 200, 400));
    assert_eq!(
        create_launch(&mut full, text(4), text(3), 10, 1001, 200, 400, 0, 7),
        Err(DiamondPadError::DevAllocationTooHigh)
    );
    assert_eq!(full.protocol.total_launches, u64::MAX);
}

#[test]
fn validate_launch_reports_the_first_broken_limit() {
    assert_eq!(validate_launch("name", "SYM", 1000, 180, 365), None);
    assert_eq!(validate_launch("", "", 0, u16::MAX, u16::MAX), None);
    assert_eq!(
        validate_launch("name", "SYM", 1001, 0, 0),
        Some(DiamondPadError::DevAllocationTooHigh)
    );
    assert_eq!(validate_launch("name", "SYM", 1000, 179, 0), Some(DiamondPadError::VestingTooShort));
    assert_eq!(validate_launch("name", "SYM", 1000, 180, 364), Some(DiamondPadError::LpLockTooShort));
    assert_eq!(
        validate_launch(&text(33), &text(11), 1000, 180, 365),
        Some(DiamondPadError::NameTooLong)
    );
    assert_eq!(
        validate_launch(&text(32), &text(11), 1000, 180, 365),
        Some(DiamondPadError::SymbolTooLong)
    );
}
