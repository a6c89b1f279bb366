use balansol::{Accessor, Direction, ErrorCode, MintActionState, Pool, PoolState, Pubkey};

fn key(tag: u8) -> Pubkey {
    Pubkey::new_from_array([tag; 32])
}

fn pool_with(actions: Vec<MintActionState>, reserves: Vec<u64>) -> Pool {
    let n = reserves.len() as u8;
    Pool {
        authority: key(1),
        fee: 0,
        tax: 0,
        state: PoolState::Initialized,
        mint_lpt: key(2),
        taxman: key(3),
        mints: (0..n).map(|i| key(10 + i)).collect(),
        actions,
        treasuries: (0..n).map(|i| key(20 + i)).collect(),
        reserves,
        weights: (0..n).map(|_| 1).collect(),
    }
}

fn active_pool(reserves: Vec<u64>) -> Pool {
    let actions = reserves.iter().map(|_| MintActionState::Active).collect();
    pool_with(actions, reserves)
}

#[test]
fn add_reserve_returns_new_balance() {
    let mut pool = active_pool(vec![1_000_000_000, 7]);
    assert_eq!(pool.add_reserve(0, 5), Some(1_000_000_005));
    assert_eq!(pool.reserves, vec![1_000_000_005, 7]);
}

#[test]
fn add_reserve_overflow_leaves_pool_unchanged() {
    let mut pool = active_pool(vec![u64::MAX - 4, 7]);
    let before = pool.clone();
    assert_eq!(pool.add_reserve(0, 5), None);
    assert_eq!(pool, before);
    assert_eq!(pool.add_reserve(0, 4), Some(u64::MAX));
}

#[test]
fn sub_reserve_returns_new_balance() {
    let mut pool = active_pool(vec![100, 7]);
    assert_eq!(pool.sub_reserve(1, 7), Some(0));
    assert_eq!(pool.reserves, vec![100, 0]);
}

#[test]
fn sub_reserve_underflow_leaves_pool_unchanged() {
    let mut pool = active_pool(vec![100, 7]);
    let before = pool.clone();
    assert_eq!(pool.sub_reserve(1, 8), None);
    assert_eq!(pool, before);
}

#[test]
fn add_then_sub_is_a_round_trip() {
    let mut pool = active_pool(vec![123_456, 789]);
    let before = pool.clone();
    assert_eq!(pool.add_reserve(1, 1_000), Some(1_789));
    assert_eq!(pool.sub_reserve(1, 1_000), Some(789));
    assert_eq!(pool, before);
}

#[test]
fn only_the_addressed_reserve_moves() {
    let mut pool = active_pool(vec![1, 2, 3]);
    pool.add_reserve(1, 40);
    assert_eq!(pool.reserves, vec![1, 42, 3]);
    assert_eq!(pool.weights, vec![1, 1, 1]);
    assert_eq!(pool.mints, vec![key(10), key(11), key(12)]);
}

#[test]
fn deposit_and_withdrawal_on_active_asset() {
    let mut pool = active_pool(vec![100, 200]);
    assert_eq!(pool.mutate_reserve(0, 50, Direction::Deposit), Ok(150));
    assert_eq!(pool.mutate_reserve(1, 50, Direction::Withdrawal), Ok(150));
    assert_eq!(pool.reserves, vec![150, 150]);
}

#[test]
fn withdrawal_beyond_reserve_is_underflow() {
    let mut pool = active_pool(vec![100, 200]);
    let before = pool.clone();
    assert_eq!(
        pool.mutate_reserve(0, 101, Direction::Withdrawal),
        Err(ErrorCode::ArithmeticUnderflow)
    );
    assert_eq!(pool, before);
    assert_eq!(pool.mutate_reserve(0, 100, Direction::Withdrawal), Ok(0));
}

#[test]
fn deposit_beyond_range_is_overflow() {
    let mut pool = active_pool(vec![u64::MAX, 200]);
    let before = pool.clone();
    assert_eq!(pool.mutate_reserve(0, 1, Direction::Deposit), Err(ErrorCode::ArithmeticOverflow));
    assert_eq!(pool, before);
    assert_eq!(pool.mutate_reserve(0, 0, Direction::Deposit), Ok(u64::MAX));
}

#[test]
fn paused_asset_rejects_every_mutation() {
    let mut pool = pool_with(vec![MintActionState::Paused, MintActionState::Active], vec![100, 200]);
    let before = pool.clone();
    for amount in [0, 1, 100, 101, u64::MAX] {
        assert_eq!(pool.mutate_reserve(0, amount, Direction::Deposit), Err(ErrorCode::StateRejected));
        assert_eq!(
            pool.mutate_reserve(0, amount, Direction::Withdrawal),
            Err(ErrorCode::StateRejected)
        );
    }
    assert_eq!(pool, before);
}

#[test]
fn bid_only_asset_takes_deposits_only() {
    let mut pool = pool_with(vec![MintActionState::BidOnly], vec![100]);
    assert_eq!(pool.mutate_reserve(0, 1, Direction::Withdrawal), Err(ErrorCode::StateRejected));
    assert_eq!(pool.mutate_reserve(0, 1, Direction::Deposit), Ok(101));
}

#[test]
fn ask_only_asset_gives_withdrawals_only() {
    let mut pool = pool_with(vec![MintActionState::AskOnly], vec![100]);
    assert_eq!(pool.mutate_reserve(0, 1, Direction::Deposit), Err(ErrorCode::StateRejected));
    assert_eq!(pool.mutate_reserve(0, 1, Direction::Withdrawal), Ok(99));
}

#[test]
fn pool_that_is_not_open_rejects_every_mutation() {
    for state in [
        PoolState::Uninitialized,
        PoolState::Initializing,
        PoolState::Frozen,
        PoolState::Deleted,
    ] {
        let mut pool = active_pool(vec![100, 200]);
        pool.state = state;
        assert_eq!(pool.mutate_reserve(0, 1, Direction::Deposit), Err(ErrorCode::StateRejected));
        assert_eq!(pool.mutate_reserve(1, 1, Direction::Withdrawal), Err(ErrorCode::StateRejected));
        assert_eq!(pool.reserves, vec![100, 200]);
    }
}

#[test]
fn state_is_checked_before_arithmetic() {
    let mut pool = pool_with(vec![MintActionState::Paused], vec![5]);
    assert_eq!(pool.mutate_reserve(0, 6, Direction::Withdrawal), Err(ErrorCode::StateRejected));
}

#[test]
fn position_outside_the_pool_is_not_found() {
    let mut pool = active_pool(vec![100, 200]);
    assert_eq!(pool.mutate_reserve(2, 1, Direction::Deposit), Err(ErrorCode::NotFound));
    assert_eq!(pool.mutate_reserve(usize::MAX, 1, Direction::Withdrawal), Err(ErrorCode::NotFound));
}
