use liquidity_pool::contract::{Deposit, LiquidityPool, PendingSwap};
use liquidity_pool::interface::LiquidityPoolTrait;
use liquidity_pool::math::quote_deposit;
use liquidity_pool::storage::{
    has_token_a, read_reserve_a, read_reserve_b, read_token_a, read_token_b, write_reserve_a,
    write_reserve_b, write_token_a, write_token_b, Storage,
};
use liquidity_pool::types::{DataKey, Error};

const TOKEN_A: u32 = 11;
const TOKEN_B: u32 = 22;
const ALICE: u32 = 100;
const CALLBACK: u32 = 200;
const NFT_DEST: u32 = 300;

fn fresh_pool() -> Storage<u32> {
    let mut env = Storage::new();
    assert_eq!(LiquidityPool::initialize(&mut env, TOKEN_A, TOKEN_B), Ok(()));
    env
}

fn funded_pool(a: i128, b: i128) -> Storage<u32> {
    let mut env = fresh_pool();
    write_reserve_a(&mut env, a);
    write_reserve_b(&mut env, b);
    env
}

fn deposit(
    env: &mut Storage<u32>,
    desired_a: i128,
    min_a: i128,
    desired_b: i128,
    min_b: i128,
) -> Result<Deposit<u32>, Error> {
    assert!(LiquidityPool::can_deposit(env, desired_a, min_a, desired_b, min_b));
    LiquidityPool::deposit_liquidity(env, ALICE, desired_a, min_a, desired_b, min_b)
}

fn begin_swap(
    env: &Storage<u32>,
    buys_a: bool,
    amount: i128,
    in_before: i128,
) -> Result<PendingSwap<u32>, Error> {
    assert!(LiquidityPool::can_swap(env, buys_a, amount));
    LiquidityPool::swap(env, Some(ALICE), CALLBACK, buys_a, amount, NFT_DEST, in_before)
}

#[test]
fn initialize_sets_the_pair_and_leaves_reserves_empty() {
    let env = fresh_pool();
    assert!(has_token_a(&env));
    assert_eq!(*read_token_a(&env), TOKEN_A);
    assert_eq!(*read_token_b(&env), TOKEN_B);
    assert_eq!(LiquidityPool::get_reserves(&env), Ok((0, 0)));
    assert!(!env.has(DataKey::ReserveA));
    assert!(!env.has(DataKey::ReserveB));
}

#[test]
fn second_initialize_is_refused_and_changes_nothing() {
    let mut env = fresh_pool();
    assert_eq!(
        LiquidityPool::initialize(&mut env, 77, 88),
        Err(Error::AlreadyInitialized)
    );
    assert_eq!(*read_token_a(&env), TOKEN_A);
    assert_eq!(*read_token_b(&env), TOKEN_B);
    assert_eq!(LiquidityPool::get_reserves(&env), Ok((0, 0)));
}

#[test]
fn uninitialized_pool_refuses_every_operation() {
    let mut env: Storage<u32> = Storage::new();
    assert!(!has_token_a(&env));
    assert_eq!(
        deposit(&mut env, 100, 0, 200, 0).err(),
        Some(Error::NotInitialized)
    );
    assert_eq!(begin_swap(&env, true, 100, 0).err(), Some(Error::NotInitialized));
    assert_eq!(begin_swap(&env, false, 0, 0).err(), Some(Error::NotInitialized));
    assert_eq!(LiquidityPool::get_reserves(&env), Err(Error::NotInitialized));
    assert_eq!(read_reserve_a(&env), 0);
    assert_eq!(read_reserve_b(&env), 0);
    assert!(!env.has(DataKey::TokenA));
    assert!(!env.has(DataKey::TokenB));
}

#[test]
fn first_deposit_of_one_unit_or_less_is_refused() {
    let cases: [(i128, i128); 8] =
        [(0, 0), (1, 1), (1, 100), (100, 1), (0, 100), (100, 0), (-5, 100), (100, -5)];
    for (a, b) in cases {
        let mut env = fresh_pool();
        assert_eq!(deposit(&mut env, a, 0, b, 0).err(), Some(Error::InvalidAmount));
        assert_eq!(LiquidityPool::get_reserves(&env), Ok((0, 0)));
        assert!(!env.has(DataKey::ReserveA));
    }
}

#[test]
fn first_deposit_of_two_units_succeeds() {
    let mut env = fresh_pool();
    let d = deposit(&mut env, 2, 0, 2, 0).ok().unwrap();
    assert_eq!((d.from, d.amount_a, d.amount_b), (ALICE, 2, 2));
    assert_eq!(LiquidityPool::get_reserves(&env), Ok((2, 2)));
}

#[test]
fn first_deposit_round_trips_through_get_reserves() {
    let mut env = fresh_pool();
    let d = deposit(&mut env, 100, 0, 200, 0).ok().unwrap();
    assert_eq!((d.from, d.amount_a, d.amount_b), (ALICE, 100, 200));
    assert_eq!(LiquidityPool::get_reserves(&env), Ok((100, 200)));
    assert_eq!(read_reserve_a(&env), 100);
    assert_eq!(read_reserve_b(&env), 200);
    assert!(env.has(DataKey::ReserveA));
    assert!(env.has(DataKey::ReserveB));
}

#[test]
fn proportional_deposit_bound_by_desired_a() {
    let mut env = funded_pool(100, 200);
    let d = deposit(&mut env, 50, 0, 1000, 0).ok().unwrap();
    assert_eq!((d.amount_a, d.amount_b), (50, 100));
    assert_eq!(LiquidityPool::get_reserves(&env), Ok((150, 300)));
}

#[test]
fn proportional_deposit_bound_by_desired_b() {
    let mut env = funded_pool(100, 200);
    let d = deposit(&mut env, 50, 10, 60, 0).ok().unwrap();
    assert_eq!((d.amount_a, d.amount_b), (30, 60));
    assert_eq!(LiquidityPool::get_reserves(&env), Ok((130, 260)));
}

#[test]
fn proportional_deposit_truncates() {
    let mut env = funded_pool(3, 10);
    let d = deposit(&mut env, 2, 0, 100, 0).ok().unwrap();
    assert_eq!((d.amount_a, d.amount_b), (2, 6));
    assert_eq!(LiquidityPool::get_reserves(&env), Ok((5, 16)));
}

#[test]
fn deposit_below_min_b_is_refused() {
    let mut env = funded_pool(100, 200);
    assert_eq!(deposit(&mut env, 50, 0, 1000, 101).err(), Some(Error::InvalidAmount));
    assert_eq!(LiquidityPool::get_reserves(&env), Ok((100, 200)));
    let d = deposit(&mut env, 50, 0, 1000, 100).ok().unwrap();
    assert_eq!((d.amount_a, d.amount_b), (50, 100));
}

#[test]
fn deposit_below_min_a_is_refused() {
    let mut env = funded_pool(100, 200);
    assert_eq!(deposit(&mut env, 50, 31, 60, 0).err(), Some(Error::InvalidAmount));
    assert_eq!(LiquidityPool::get_reserves(&env), Ok((100, 200)));
    let d = deposit(&mut env, 50, 30, 60, 0).ok().unwrap();
    assert_eq!((d.amount_a, d.amount_b), (30, 60));
}

#[test]
fn deposit_whose_matched_a_misses_the_bounds_is_refused() {
    let mut env = funded_pool(10, 3);
    // amount_b = 3 * 5 / 10 = 1 > desired_b = 0; amount_a = 10 * 0 / 3 = 0 < min_a
    assert_eq!(deposit(&mut env, 5, 1, 0, 0).err(), Some(Error::InvalidAmount));
    assert_eq!(LiquidityPool::get_reserves(&env), Ok((10, 3)));
    // amount_b = 3 * -5 / -10 = 1 > desired_b = 0; amount_a = 0 > desired_a = -5
    assert_eq!(
        quote_deposit(-10, 3, -5, -100, 0, -100),
        Some(Err(Error::InvalidAmount))
    );
}

#[test]
fn quote_follows_truncation_on_negative_values() {
    // amount_b = 3 * 5 / -10 = -1, rounded toward zero
    let q = quote_deposit(-10, 3, 5, -100, 0, -100).unwrap().unwrap();
    assert_eq!((q.amount_a, q.amount_b, q.reserve_a, q.reserve_b), (5, -1, -5, 2));
    // amount_b = -3 * -1 / -10 = 0
    let q = quote_deposit(-10, -3, -1, -100, 0, -100).unwrap().unwrap();
    assert_eq!((q.amount_a, q.amount_b, q.reserve_a, q.reserve_b), (-1, 0, -11, -3));
}

#[test]
fn quote_matches_deposit_and_reports_new_reserves() {
    let q = quote_deposit(100, 200, 50, 0, 1000, 0).unwrap().unwrap();
    assert_eq!((q.amount_a, q.amount_b, q.reserve_a, q.reserve_b), (50, 100, 150, 300));
    let q = quote_deposit(0, 0, 7, 0, 9, 0).unwrap().unwrap();
    assert_eq!((q.amount_a, q.amount_b, q.reserve_a, q.reserve_b), (7, 9, 7, 9));
    assert_eq!(quote_deposit(0, 0, 1, 0, 9, 0), Some(Err(Error::InvalidAmount)));
}

#[test]
fn quote_refuses_what_does_not_fit() {
    assert_eq!(quote_deposit(1, i128::MAX, 2, 0, 5, 0), None);
    assert_eq!(quote_deposit(1, 1, i128::MAX, 0, i128::MAX, 0), None);
    assert_eq!(quote_deposit(5, 0, 1, 0, -1, 0), None);
}

#[test]
fn deposits_keep_a_funded_pool_funded() {
    let mut env = fresh_pool();
    assert!(deposit(&mut env, 2, 0, 2, 0).is_ok());
    for (a, b) in [(0i128, 0i128), (1, 1), (5, 0), (0, 5), (1000, 3), (3, 1000)] {
        if deposit(&mut env, a, 0, b, 0).is_ok() {
            let (ra, rb) = LiquidityPool::get_reserves(&env).unwrap();
            assert!(ra > 0 && rb > 0);
        }
    }
}

#[test]
fn swap_refuses_non_positive_amounts() {
    let env = funded_pool(1000, 1000);
    assert_eq!(begin_swap(&env, true, 0, 1000).err(), Some(Error::InvalidAmount));
    assert_eq!(begin_swap(&env, false, -1, 1000).err(), Some(Error::InvalidAmount));
    assert_eq!(begin_swap(&env, false, i128::MIN, 1000).err(), Some(Error::InvalidAmount));
}

#[test]
fn swap_prices_with_the_fee() {
    let env = funded_pool(1000, 1000);
    let p = begin_swap(&env, false, 100, 1000).ok().unwrap();
    assert_eq!(p.amount_out, 90);
    assert_eq!(p.amount, 100);
    assert_eq!(p.in_before, 1000);
    assert_eq!(p.from, Some(ALICE));
    assert_eq!(p.callback, CALLBACK);
    assert_eq!(p.nft_dest, NFT_DEST);
    assert!(!p.buys_a);
    assert_eq!(p.asset_in(), DataKey::TokenA);
    assert_eq!(p.asset_out(), DataKey::TokenB);
}

#[test]
fn swap_direction_selects_the_reserves() {
    let env = funded_pool(1000, 4000);
    // buys A with B: reserve_in = 4000, reserve_out = 1000, fee-adjusted 99
    let p = begin_swap(&env, true, 100, 4000).ok().unwrap();
    assert_eq!(p.amount_out, 1000 * 99 / (4000 + 99));
    assert_eq!(p.amount_out, 24);
    assert_eq!(p.asset_in(), DataKey::TokenB);
    assert_eq!(p.asset_out(), DataKey::TokenA);
    // buys B with A: reserve_in = 1000, reserve_out = 4000
    let p = begin_swap(&env, false, 100, 1000).ok().unwrap();
    assert_eq!(p.amount_out, 360);
}

#[test]
fn under_delivery_fails_settlement() {
    let env = funded_pool(1000, 1000);
    let p = begin_swap(&env, false, 100, 1000).ok().unwrap();
    assert_eq!(p.settle(1000), Err(Error::InNotSent));
    assert_eq!(p.settle(1099), Err(Error::InNotSent));
    assert_eq!(p.settle(0), Err(Error::InNotSent));
    assert_eq!(p.settle(-1), Err(Error::InNotSent));
}

#[test]
fn exact_and_over_delivery_settle() {
    let env = funded_pool(1000, 1000);
    let p = begin_swap(&env, false, 100, 1000).ok().unwrap();
    assert_eq!(p.settle(1100), Ok(90));
    assert_eq!(p.settle(1101), Ok(90));
    assert_eq!(p.settle(i128::MAX), Ok(90));
}

#[test]
fn settlement_is_judged_without_overflow() {
    let env = funded_pool(1000, 1000);
    let p = begin_swap(&env, false, 100, i128::MAX).ok().unwrap();
    assert_eq!(p.settle(i128::MAX), Err(Error::InNotSent));
    let p = PendingSwap {
        from: None::<u32>,
        callback: CALLBACK,
        nft_dest: NFT_DEST,
        buys_a: false,
        amount: -1,
        in_before: i128::MIN,
        amount_out: 5,
    };
    assert_eq!(p.settle(i128::MIN), Ok(5));
}

#[test]
fn completed_swap_records_live_balances_by_role() {
    let mut env = funded_pool(1000, 1000);
    let p = begin_swap(&env, false, 100, 1000).ok().unwrap();
    assert_eq!(p.settle(1100), Ok(90));
    p.complete(&mut env, 1100, 910);
    assert_eq!(LiquidityPool::get_reserves(&env), Ok((1100, 910)));

    let mut env = funded_pool(1000, 1000);
    let p = begin_swap(&env, true, 100, 1000).ok().unwrap();
    assert_eq!(p.settle(1100), Ok(90));
    p.complete(&mut env, 1100, 910);
    assert_eq!(LiquidityPool::get_reserves(&env), Ok((910, 1100)));
    assert_eq!(*read_token_a(&env), TOKEN_A);
    assert_eq!(*read_token_b(&env), TOKEN_B);
}

#[test]
fn swap_never_lowers_the_product_of_reserves() {
    let pools: [(i128, i128); 5] = [(1000, 1000), (2, 2), (1, 1_000_000), (1_000_000, 1), (937, 12_345)];
    let amounts: [i128; 6] = [1, 2, 3, 100, 999, 1_000_000];
    for (a, b) in pools {
        for amount in amounts {
            for buys_a in [false, true] {
                let mut env = funded_pool(a, b);
                let (r_in, r_out) = if buys_a { (b, a) } else { (a, b) };
                let p = begin_swap(&env, buys_a, amount, r_in).ok().unwrap();
                let out = p.settle(r_in + amount).unwrap();
                assert!(out >= 0 && out < r_out);
                p.complete(&mut env, r_in + amount, r_out - out);
                let (na, nb) = LiquidityPool::get_reserves(&env).unwrap();
                assert!(na * nb >= a * b);
                assert!(na > 0 && nb > 0);
            }
        }
    }
}

#[test]
fn storage_slots_are_independent() {
    let mut env: Storage<u32> = Storage::new();
    write_reserve_b(&mut env, 9);
    assert_eq!(read_reserve_b(&env), 9);
    assert_eq!(read_reserve_a(&env), 0);
    assert!(!has_token_a(&env));
    write_token_b(&mut env, 5);
    assert!(!has_token_a(&env));
    assert_eq!(*read_token_b(&env), 5);
    write_token_a(&mut env, 4);
    assert!(has_token_a(&env));
    assert_eq!(*read_token_a(&env), 4);
    write_reserve_a(&mut env, -3);
    assert_eq!(read_reserve_a(&env), -3);
    assert_eq!(read_reserve_b(&env), 9);
    assert!(env.has(DataKey::TokenA) && env.has(DataKey::TokenB));
    assert!(env.has(DataKey::ReserveA) && env.has(DataKey::ReserveB));
}

#[test]
fn preconditions_can_be_tested_before_the_call() {
    let empty: Storage<u32> = Storage::new();
    assert!(LiquidityPool::can_deposit(&empty, i128::MAX, 0, i128::MAX, 0));
    assert!(LiquidityPool::can_swap(&empty, true, i128::MAX));

    let env = funded_pool(1000, i128::MAX);
    assert!(LiquidityPool::can_deposit(&env, 1, 0, 0, 0));
    assert!(LiquidityPool::can_deposit(&env, 2, 0, 0, 0) == false);
    assert!(LiquidityPool::can_deposit(&env, 0, 0, 0, 0));
    assert!(LiquidityPool::can_swap(&env, false, 1000) == false);
    assert!(LiquidityPool::can_swap(&env, false, 1));
    assert!(LiquidityPool::can_swap(&env, false, 0));
    assert!(LiquidityPool::can_swap(&env, true, 1000) == false);

    let env = fresh_pool();
    assert!(LiquidityPool::can_swap(&env, true, 1) == false);
    assert!(LiquidityPool::can_swap(&env, true, 2));
    assert!(LiquidityPool::can_deposit(&env, i128::MAX, 0, i128::MAX, 0));
}
