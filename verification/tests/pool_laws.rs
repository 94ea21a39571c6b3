use lending_pool::asset::AssetLedger;
use lending_pool::error::PoolError;
use lending_pool::pool::LendingPool;

const ADMIN: u64 = 1;
const TOKEN: u64 = 2;
const POOL: u64 = 100;

fn funded_world(holders: &[(u64, i128)]) -> (LendingPool, AssetLedger) {
    let mut token = AssetLedger::new(TOKEN);
    for (who, amount) in holders {
        assert_eq!(token.mint(*who, *amount), Ok(()));
    }
    let mut pool = LendingPool::new(POOL);
    assert_eq!(pool.initialize(ADMIN, TOKEN, 2000, 1000), Ok(()));
    (pool, token)
}

fn sum_of_balances(pool: &LendingPool, depositors: &[u64]) -> i128 {
    depositors.iter().map(|d| pool.get_balance(*d)).sum()
}

#[test]
fn conservation_while_open() {
    let depositors = [11u64, 12, 13];
    let (mut pool, mut token) = funded_world(&[(11, 1000), (12, 1000), (13, 1000)]);
    let steps: [(u64, Option<i128>); 9] = [
        (11, Some(100)),
        (12, Some(250)),
        (11, Some(1)),
        (13, Some(0)),
        (12, None),
        (13, Some(999)),
        (11, None),
        (11, Some(40)),
        (13, None),
    ];
    for (who, step) in steps {
        match step {
            Some(amount) => assert_eq!(pool.deposit(&mut token, who, who, amount), Ok(())),
            None => assert_eq!(pool.withdraw(&mut token, who, who), Ok(())),
        }
        let (total, _, _, state) = pool.get_pool_details();
        assert_eq!(state, 0);
        assert_eq!(total, sum_of_balances(&pool, &depositors));
        assert_eq!(token.balance_of(POOL), total);
    }
    assert_eq!(pool.get_pool_details().0, 40);
    assert_eq!(token.balance_of(11), 960);
    assert_eq!(token.balance_of(12), 1000);
    assert_eq!(token.balance_of(13), 1000);
}

#[test]
fn refused_calls_change_nothing() {
    let depositors = [11u64, 12];
    let (mut pool, mut token) = funded_world(&[(11, 1000), (12, 5)]);
    assert_eq!(pool.deposit(&mut token, 11, 11, 600), Ok(()));
    let calls: [Result<(), PoolError>; 6] = [
        pool.deposit(&mut token, 12, 12, 6),
        pool.deposit(&mut token, 12, 12, -1),
        pool.deposit(&mut token, 11, 12, 1),
        pool.withdraw(&mut token, 12, 12),
        pool.withdraw(&mut token, 12, 11),
        pool.repay_loan(&mut token, ADMIN, 1),
    ];
    assert_eq!(
        calls,
        [
            Err(PoolError::TransferFailed),
            Err(PoolError::TransferFailed),
            Err(PoolError::Unauthorized),
            Err(PoolError::NoBalance),
            Err(PoolError::Unauthorized),
            Err(PoolError::InvalidState),
        ]
    );
    assert_eq!(pool.get_pool_details(), (600, 2000, 1000, 0));
    assert_eq!(sum_of_balances(&pool, &depositors), 600);
    assert_eq!(token.balance_of(POOL), 600);
    assert_eq!(token.balance_of(11), 400);
    assert_eq!(token.balance_of(12), 5);
}

#[test]
fn only_the_named_identity_may_act() {
    let (mut pool, mut token) = funded_world(&[(11, 1000), (12, 1000)]);
    assert_eq!(pool.deposit(&mut token, 12, 11, 10), Err(PoolError::Unauthorized));
    assert_eq!(pool.deposit(&mut token, ADMIN, 11, 10), Err(PoolError::Unauthorized));
    assert_eq!(pool.deposit(&mut token, 11, 11, 10), Ok(()));
    assert_eq!(pool.withdraw(&mut token, 12, 11), Err(PoolError::Unauthorized));
    assert_eq!(pool.withdraw(&mut token, ADMIN, 11), Err(PoolError::Unauthorized));
    assert_eq!(pool.fund_loan(&mut token, 11), Err(PoolError::Unauthorized));
    assert_eq!(pool.repay_loan(&mut token, 11, 1), Err(PoolError::Unauthorized));
    assert_eq!(pool.get_state(), 0);
    assert_eq!(pool.get_balance(11), 10);
    assert_eq!(pool.fund_loan(&mut token, ADMIN), Ok(()));
    assert_eq!(pool.repay_loan(&mut token, 12, 10), Err(PoolError::Unauthorized));
    assert_eq!(pool.get_state(), 1);
    assert_eq!(pool.repay_loan(&mut token, ADMIN, 10), Ok(()));
    assert_eq!(pool.get_state(), 2);
}

#[test]
fn operations_are_bound_to_states() {
    let (mut pool, mut token) = funded_world(&[(11, 1000), (12, 1000)]);
    // Open
    assert_eq!(pool.repay_loan(&mut token, ADMIN, 1), Err(PoolError::InvalidState));
    assert_eq!(pool.deposit(&mut token, 11, 11, 100), Ok(()));
    assert_eq!(pool.fund_loan(&mut token, ADMIN), Ok(()));
    // Active
    assert_eq!(pool.deposit(&mut token, 12, 12, 100), Err(PoolError::InvalidState));
    assert_eq!(pool.fund_loan(&mut token, ADMIN), Err(PoolError::InvalidState));
    assert_eq!(pool.withdraw(&mut token, 11, 11), Err(PoolError::InvalidState));
    // without a balance the withdrawal is refused for that reason first
    assert_eq!(pool.withdraw(&mut token, 12, 12), Err(PoolError::NoBalance));
    assert_eq!(pool.repay_loan(&mut token, ADMIN, 100), Ok(()));
    // Repaid
    assert_eq!(pool.deposit(&mut token, 12, 12, 100), Err(PoolError::InvalidState));
    assert_eq!(pool.fund_loan(&mut token, ADMIN), Err(PoolError::InvalidState));
    assert_eq!(pool.repay_loan(&mut token, ADMIN, 0), Err(PoolError::InvalidState));
    assert_eq!(pool.withdraw(&mut token, 11, 11), Ok(()));
}

#[test]
fn second_withdrawal_finds_no_balance() {
    let (mut pool, mut token) = funded_world(&[(11, 1000)]);
    assert_eq!(pool.deposit(&mut token, 11, 11, 321), Ok(()));
    assert_eq!(pool.withdraw(&mut token, 11, 11), Ok(()));
    assert_eq!(pool.get_balance(11), 0);
    assert_eq!(pool.withdraw(&mut token, 11, 11), Err(PoolError::NoBalance));
    assert_eq!(pool.get_balance(11), 0);
    assert_eq!(token.balance_of(11), 1000);

    // and the same once the pool is repaid
    assert_eq!(pool.deposit(&mut token, 11, 11, 321), Ok(()));
    assert_eq!(pool.fund_loan(&mut token, ADMIN), Ok(()));
    assert_eq!(pool.repay_loan(&mut token, ADMIN, 321), Ok(()));
    assert_eq!(pool.withdraw(&mut token, 11, 11), Ok(()));
    assert_eq!(pool.get_balance(11), 0);
    assert_eq!(pool.withdraw(&mut token, 11, 11), Err(PoolError::NoBalance));
    assert_eq!(token.balance_of(11), 1000);
}

// A repaid pool that holds `pot`, with balances of 2 * `smaller` for 11,
// `smaller` for 12 and `rest` for 13.
fn repaid_world(smaller: i128, rest: i128, pot: i128) -> (LendingPool, AssetLedger) {
    let total = 3 * smaller + rest;
    let (mut pool, mut token) =
        funded_world(&[(11, 2 * smaller), (12, smaller), (13, rest), (ADMIN, pot)]);
    assert_eq!(pool.deposit(&mut token, 11, 11, 2 * smaller), Ok(()));
    assert_eq!(pool.deposit(&mut token, 12, 12, smaller), Ok(()));
    assert_eq!(pool.deposit(&mut token, 13, 13, rest), Ok(()));
    assert_eq!(pool.fund_loan(&mut token, ADMIN), Ok(()));
    assert_eq!(token.balance_of(ADMIN), total + pot);
    assert_eq!(pool.repay_loan(&mut token, ADMIN, pot), Ok(()));
    assert_eq!(pool.get_state(), 2);
    assert_eq!(token.balance_of(POOL), pot);
    (pool, token)
}

#[test]
fn twice_the_balance_claims_twice_the_share() {
    // (smaller balance, other balances, pot, share of the larger, share of the smaller)
    let cases: [(i128, i128, i128, i128, i128); 4] = [
        (2, 4, 17, 6, 3),   // 4 * 17 / 10 = 6.8 and 2 * 17 / 10 = 3.4
        (1, 0, 5, 3, 1),    // 2 * 5 / 3 = 3.3 and 1 * 5 / 3 = 1.7
        (1, 0, 3, 2, 1),    // exact
        (250, 250, 1001, 500, 250), // 500 * 1001 / 1000 = 500.5
    ];
    for (smaller, rest, pot, larger_share, smaller_share) in cases {
        // each claims first, in a world of its own: both are measured
        // against the same pot
        let (mut pool, mut token) = repaid_world(smaller, rest, pot);
        assert_eq!(pool.withdraw(&mut token, 11, 11), Ok(()));
        assert_eq!(token.balance_of(11), larger_share);

        let (mut pool, mut token) = repaid_world(smaller, rest, pot);
        assert_eq!(pool.withdraw(&mut token, 12, 12), Ok(()));
        assert_eq!(token.balance_of(12), smaller_share);

        let gap = larger_share - 2 * smaller_share;
        assert!(gap == 0 || gap == 1);
    }
}

#[test]
fn initialize_works_once() {
    let mut pool = LendingPool::new(POOL);
    assert_eq!(pool.address(), POOL);
    assert_eq!(pool.get_state(), 0);
    assert_eq!(pool.get_balance(11), 0);
    assert_eq!(pool.get_pool_details(), (0, 0, 0, 0));
    assert_eq!(pool.initialize(ADMIN, TOKEN, 2000, 1000), Ok(()));
    assert_eq!(pool.get_pool_details(), (0, 2000, 1000, 0));
    assert_eq!(pool.initialize(9, 8, 7, 6), Err(PoolError::AlreadyInitialized));
    assert_eq!(pool.get_pool_details(), (0, 2000, 1000, 0));
    let mut token = AssetLedger::new(TOKEN);
    assert_eq!(pool.fund_loan(&mut token, 9), Err(PoolError::Unauthorized));
}

#[test]
fn nothing_works_before_initialize() {
    let mut pool = LendingPool::new(POOL);
    let mut token = AssetLedger::new(TOKEN);
    assert_eq!(token.mint(11, 10), Ok(()));
    assert_eq!(pool.deposit(&mut token, 11, 11, 10), Err(PoolError::Uninitialized));
    assert_eq!(pool.withdraw(&mut token, 11, 11), Err(PoolError::Uninitialized));
    assert_eq!(pool.fund_loan(&mut token, ADMIN), Err(PoolError::Uninitialized));
    assert_eq!(pool.repay_loan(&mut token, ADMIN, 10), Err(PoolError::Uninitialized));
    assert_eq!(token.balance_of(11), 10);
    assert_eq!(pool.get_pool_details(), (0, 0, 0, 0));
}

#[test]
fn an_empty_pool_has_nothing_to_release() {
    let (mut pool, mut token) = funded_world(&[(11, 10)]);
    assert_eq!(pool.fund_loan(&mut token, ADMIN), Err(PoolError::NoFunds));
    assert_eq!(pool.deposit(&mut token, 11, 11, 0), Ok(()));
    assert_eq!(pool.fund_loan(&mut token, ADMIN), Err(PoolError::NoFunds));
    assert_eq!(pool.deposit(&mut token, 11, 11, 10), Ok(()));
    assert_eq!(pool.withdraw(&mut token, 11, 11), Ok(()));
    assert_eq!(pool.fund_loan(&mut token, ADMIN), Err(PoolError::NoFunds));
    assert_eq!(pool.get_state(), 0);
}

#[test]
fn the_pool_takes_only_its_own_asset() {
    let (mut pool, _) = funded_world(&[]);
    let mut other = AssetLedger::new(TOKEN + 1);
    assert_eq!(other.mint(11, 100), Ok(()));
    assert_eq!(pool.deposit(&mut other, 11, 11, 100), Err(PoolError::TransferFailed));
    assert_eq!(other.balance_of(11), 100);
    assert_eq!(pool.get_balance(11), 0);
}

#[test]
fn a_total_beyond_the_range_is_refused() {
    let (mut pool, mut token) = funded_world(&[(11, i128::MAX), (12, 1)]);
    assert_eq!(pool.deposit(&mut token, 11, 11, i128::MAX), Ok(()));
    assert_eq!(pool.deposit(&mut token, 12, 12, 1), Err(PoolError::Overflow));
    assert_eq!(pool.get_pool_details().0, i128::MAX);
    assert_eq!(token.balance_of(12), 1);
}

#[test]
fn custody_that_was_taken_away_fails_the_transfer() {
    let (mut pool, mut token) = funded_world(&[(11, 100)]);
    assert_eq!(pool.deposit(&mut token, 11, 11, 100), Ok(()));
    // the asset ledger moves part of the custody elsewhere
    assert_eq!(token.transfer(POOL, 55, 1), Ok(()));
    assert_eq!(pool.withdraw(&mut token, 11, 11), Err(PoolError::TransferFailed));
    assert_eq!(pool.fund_loan(&mut token, ADMIN), Err(PoolError::TransferFailed));
    assert_eq!(pool.get_balance(11), 100);
    assert_eq!(token.balance_of(POOL), 99);
    assert_eq!(pool.get_state(), 0);
}
