use multi_token_dex::dex::pricing::{
    compute_deposit_terms, compute_proportion, compute_swap_output, compute_withdraw_terms,
};
use multi_token_dex::dex::settlement::{refusal, settle, Transfer};
use multi_token_dex::dex::{Config, Error, Event, Pallet, Pool};
use multi_token_dex::multi_token;
use multi_token_dex::multi_token::multitoken::MultiToken;

/// A fixed account for a name, an index and a seed.
fn named_account(name: &str, index: u32, seed: u32) -> u64 {
    let mut id: u64 = 0xcbf2_9ce4_8422_2325;
    for byte in name.bytes().chain(index.to_le_bytes()).chain(seed.to_le_bytes()) {
        id ^= u64::from(byte);
        id = id.wrapping_mul(0x0000_0100_0000_01b3);
    }
    id
}

fn pool_founder() -> u64 {
    named_account("whitelisted_caller", 0, 0)
}

fn new_dex(fee: u64) -> Pallet {
    match Pallet::new(Config { fee }) {
        Some(dex) => dex,
        None => panic!("the fee is no percentage"),
    }
}

/// A ledger and a market maker with fee 3, whose pool holds 9,000,000 of
/// asset 0 and of asset 1.
fn seeded(pool_address: u64) -> (multi_token::Pallet, Pallet) {
    let mut token = multi_token::Pallet::new();
    let mut dex = new_dex(3);
    assert!(token.mint(pool_founder(), 0, 9_000_000).is_ok());
    assert!(token.mint(pool_founder(), 1, 9_000_000).is_ok());
    assert!(dex.init(&mut token, pool_founder(), pool_address, 0, 9_000_000, 1, 9_000_000).is_ok());
    (token, dex)
}

#[test]
fn should_init() {
    let mut token = multi_token::Pallet::new();
    let mut dex = new_dex(3);
    let pool_address = named_account("pool", 0, 1);
    assert!(token.mint(pool_founder(), 0, 9_000_000).is_ok());
    assert!(token.mint(pool_founder(), 1, 9_000_000).is_ok());
    assert!(dex.init(&mut token, pool_founder(), pool_address, 0, 9_000_000, 1, 9_000_000).is_ok());
    assert_eq!(token.balances(0, pool_address), 9_000_000);
    assert_eq!(token.balances(1, pool_address), 9_000_000);
    assert_eq!(
        dex.pool(),
        Some(Pool {
            pool_account: pool_address,
            asset_a_id: 0,
            asset_b_id: 1,
            lp_total_supply: 9_000_000
        })
    );
    assert_eq!(dex.balance_of(pool_founder()), 9_000_000);
    assert_eq!(token.balances(0, pool_founder()), 0);
    assert_eq!(token.balances(1, pool_founder()), 0);
}

#[test]
fn should_swap() {
    let mut token = multi_token::Pallet::new();
    let mut dex = new_dex(3);
    let pool_address = named_account("pool", 0, 1);
    let recepient = named_account("recepient", 0, 1);
    assert!(token.mint(pool_founder(), 0, 9_000_000).is_ok());
    assert!(token.mint(pool_founder(), 1, 9_000_000).is_ok());
    assert!(token.mint(recepient, 0, 100_000).is_ok());

    assert!(dex.init(&mut token, pool_founder(), pool_address, 0, 9_000_000, 1, 9_000_000).is_ok());
    assert!(dex.swap_token(&mut token, recepient, 0, 100_000).is_ok());
    assert_eq!(
        token.balances(1, recepient),
        (100_000 * 9_000_000) / (9_000_000 + 100_000) * 97 / 100
    );
    assert_eq!(token.balances(1, recepient), 95_933);
    assert_eq!(token.balances(0, recepient), 0);
    assert_eq!(token.balances(0, pool_address), 9_100_000);
    assert_eq!(token.balances(1, pool_address), 9_000_000 - 95_933);
}

#[test]
fn should_deposit() {
    let mut token = multi_token::Pallet::new();
    let mut dex = new_dex(3);
    let pool_address = named_account("pool", 0, 1);
    let recepient = named_account("recepient", 0, 1);
    assert!(token.mint(pool_founder(), 0, 9_000_000).is_ok());
    assert!(token.mint(pool_founder(), 1, 9_000_000).is_ok());
    assert!(token.mint(recepient, 0, 100_000).is_ok());
    assert!(token.mint(recepient, 1, 100_000).is_ok());

    assert!(dex.init(&mut token, pool_founder(), pool_address, 0, 9_000_000, 1, 9_000_000).is_ok());
    assert!(dex.deposit(&mut token, recepient, 100_000, 100_000).is_ok());
    assert_eq!(token.balances(0, pool_address), 9_100_000);
    assert_eq!(token.balances(1, pool_address), 9_100_000);
    assert_eq!(token.balances(0, recepient), 0);
    assert_eq!(token.balances(1, recepient), 0);
    assert_eq!(dex.balance_of(recepient), 100_000);
    assert_eq!(dex.pool().map(|pool| pool.lp_total_supply), Some(9_100_000));
}

#[test]
fn should_withdraw_with_additional_liquidity() {
    let mut token = multi_token::Pallet::new();
    let mut dex = new_dex(3);
    let pool_address = named_account("pool", 0, 1);
    let recepient = named_account("recepient", 0, 1);
    let second_recepient = named_account("recepient2", 0, 1);

    assert!(token
        .mint_batch(pool_founder(), [0, 1].to_vec(), [9_000_000, 9_000_000].to_vec())
        .is_ok());
    assert!(token.mint_batch(recepient, [0, 1].to_vec(), [1_000_000, 1_000_000].to_vec()).is_ok());
    assert!(token
        .mint_batch(second_recepient, [0, 1].to_vec(), [1_000_000, 1_000_000].to_vec())
        .is_ok());
    let initial_liquidity: u64 = 1_000_000 * 1_000_000;
    assert!(dex.init(&mut token, pool_founder(), pool_address, 0, 9_000_000, 1, 9_000_000).is_ok());
    assert!(dex.deposit(&mut token, recepient, 1_000_000, 1_000_000).is_ok());

    assert!(dex.swap_token(&mut token, second_recepient, 0, 100_000).is_ok());
    assert!(dex.swap_token(&mut token, second_recepient, 1, 100_000).is_ok());
    assert!(dex.swap_token(&mut token, second_recepient, 0, 100_000).is_ok());
    assert!(dex.swap_token(&mut token, second_recepient, 1, 100_000).is_ok());
    assert!(dex.swap_token(&mut token, second_recepient, 0, 100_000).is_ok());
    assert!(dex.swap_token(&mut token, second_recepient, 1, 100_000).is_ok());

    assert!(dex.withdraw(&mut token, recepient).is_ok());
    let first_token_balance = token.balances(0, recepient);
    let second_token_balance = token.balances(1, recepient);
    assert!(first_token_balance * second_token_balance > initial_liquidity);
    assert_eq!(dex.balance_of(recepient), 0);
    assert_eq!(dex.pool().map(|pool| pool.lp_total_supply), Some(9_000_000));
}

#[test]
fn fee_must_be_a_percentage() {
    assert!(Pallet::new(Config { fee: 0 }).is_some());
    assert!(Pallet::new(Config { fee: 100 }).is_some());
    assert!(Pallet::new(Config { fee: 101 }).is_none());
    assert!(Pallet::new(Config { fee: u64::MAX }).is_none());
    let dex = new_dex(3);
    assert_eq!(dex.fee(), 3);
    assert_eq!(dex.pool(), None);
    assert_eq!(dex.balance_of(1), 0);
}

#[test]
fn init_reports_what_it_did() {
    let mut token = multi_token::Pallet::new();
    let mut dex = new_dex(3);
    assert!(token.mint(1, 10, 500).is_ok());
    assert!(token.mint(1, 20, 700).is_ok());
    assert_eq!(
        dex.init(&mut token, 1, 2, 10, 400, 20, 600),
        Ok(Event::PoolInitialized {
            account: 1,
            pool_account: 2,
            first_token_id: 10,
            first_token_amount: 400,
            second_token_id: 20,
            second_token_amount: 600,
            liquidity: 400
        })
    );
    assert_eq!(token.balances(10, 1), 100);
    assert_eq!(token.balances(20, 1), 100);
    assert_eq!(token.balances(10, 2), 400);
    assert_eq!(token.balances(20, 2), 600);
    assert_eq!(dex.balance_of(1), 400);
    assert_eq!(dex.pool().map(|pool| pool.lp_total_supply), Some(400));
}

#[test]
fn init_is_refused_a_second_time() {
    let pool_address = named_account("pool", 0, 1);
    let (mut token, mut dex) = seeded(pool_address);
    assert!(token.mint(5, 7, 10).is_ok());
    assert!(token.mint(5, 8, 10).is_ok());
    let before = dex.pool();
    assert_eq!(dex.init(&mut token, 5, 6, 7, 10, 8, 10), Err(Error::AlreadyInitialized));
    assert_eq!(dex.pool(), before);
    assert_eq!(dex.balance_of(5), 0);
    assert_eq!(dex.balance_of(pool_founder()), 9_000_000);
    assert_eq!(token.balances(7, 5), 10);
    assert_eq!(token.balances(7, 6), 0);
}

#[test]
fn init_moves_both_amounts_or_none() {
    let mut token = multi_token::Pallet::new();
    let mut dex = new_dex(3);
    assert!(token.mint(1, 0, 100).is_ok());
    assert!(token.mint(1, 1, 50).is_ok());
    assert_eq!(
        dex.init(&mut token, 1, 2, 0, 100, 1, 51),
        Err(Error::Token(multi_token::Error::NotEnoughOwned))
    );
    assert_eq!(token.balances(0, 1), 100);
    assert_eq!(token.balances(0, 2), 0);
    assert_eq!(dex.pool(), None);
    assert_eq!(dex.balance_of(1), 0);
    assert_eq!(
        dex.init(&mut token, 1, 2, 0, 101, 1, 50),
        Err(Error::Token(multi_token::Error::NotEnoughOwned))
    );
    assert!(dex.init(&mut token, 1, 2, 0, 100, 1, 50).is_ok());
}

#[test]
fn init_with_one_asset_twice_counts_the_first_payment() {
    let mut token = multi_token::Pallet::new();
    let mut dex = new_dex(3);
    assert!(token.mint(1, 0, 100).is_ok());
    assert_eq!(
        dex.init(&mut token, 1, 2, 0, 60, 0, 60),
        Err(Error::Token(multi_token::Error::NotEnoughOwned))
    );
    assert_eq!(token.balances(0, 1), 100);
    assert_eq!(token.balances(0, 2), 0);
    assert!(dex.init(&mut token, 1, 2, 0, 60, 0, 40).is_ok());
    assert_eq!(token.balances(0, 1), 0);
    assert_eq!(token.balances(0, 2), 100);
}

#[test]
fn operations_need_a_pool() {
    let mut token = multi_token::Pallet::new();
    let mut dex = new_dex(3);
    assert!(token.mint(1, 0, 100).is_ok());
    assert_eq!(dex.swap_token(&mut token, 1, 0, 10), Err(Error::PoolUninitialized));
    assert_eq!(dex.deposit(&mut token, 1, 10, 10), Err(Error::PoolUninitialized));
    assert_eq!(dex.withdraw(&mut token, 1), Err(Error::PoolUninitialized));
    assert_eq!(token.balances(0, 1), 100);
}

#[test]
fn swap_reports_what_it_did() {
    let pool_address = named_account("pool", 0, 1);
    let (mut token, dex) = seeded(pool_address);
    assert!(token.mint(5, 1, 100_000).is_ok());
    assert_eq!(
        dex.swap_token(&mut token, 5, 1, 100_000),
        Ok(Event::Swapped {
            account: 5,
            input_token_id: 1,
            input_amount: 100_000,
            output_token_id: 0,
            output_amount: 95_933
        })
    );
    assert_eq!(token.balances(0, 5), 95_933);
    assert_eq!(token.balances(1, 5), 0);
}

#[test]
fn swap_never_lowers_the_product_of_the_reserves() {
    let pool_address = named_account("pool", 0, 1);
    let (mut token, dex) = seeded(pool_address);
    assert!(token.mint(5, 0, 10_000_000).is_ok());
    assert!(token.mint(5, 1, 10_000_000).is_ok());
    for (id, amount) in [(0, 1), (1, 7), (0, 100_000), (1, 3_000_000), (0, 0), (1, 999_999)] {
        let before = u128::from(token.balances(0, pool_address))
            * u128::from(token.balances(1, pool_address));
        assert!(dex.swap_token(&mut token, 5, id, amount).is_ok());
        let after = u128::from(token.balances(0, pool_address))
            * u128::from(token.balances(1, pool_address));
        assert!(after >= before);
    }
}

#[test]
fn swap_is_refused_whole() {
    let pool_address = named_account("pool", 0, 1);
    let (mut token, dex) = seeded(pool_address);
    assert!(token.mint(5, 0, 99_999).is_ok());
    assert_eq!(
        dex.swap_token(&mut token, 5, 0, 100_000),
        Err(Error::Token(multi_token::Error::NotEnoughOwned))
    );
    assert_eq!(token.balances(0, 5), 99_999);
    assert_eq!(token.balances(0, pool_address), 9_000_000);
    assert_eq!(token.balances(1, pool_address), 9_000_000);
    // the payout would overflow what the caller holds of the other asset
    assert!(token.mint(5, 1, u64::MAX).is_ok());
    assert_eq!(
        dex.swap_token(&mut token, 5, 0, 99_999),
        Err(Error::Token(multi_token::Error::ArithmeticOverflow))
    );
    assert_eq!(token.balances(0, 5), 99_999);
    assert_eq!(token.balances(0, pool_address), 9_000_000);
}

#[test]
fn swap_against_empty_reserves_divides_by_zero() {
    let mut token = multi_token::Pallet::new();
    let mut dex = new_dex(3);
    assert!(dex.init(&mut token, 1, 2, 0, 0, 1, 0).is_ok());
    assert_eq!(dex.swap_token(&mut token, 1, 0, 0), Err(Error::DivisionByZero));
    assert_eq!(dex.deposit(&mut token, 1, 0, 0), Err(Error::DivisionByZero));
}

#[test]
fn swap_reports_an_overflowing_product() {
    let mut token = multi_token::Pallet::new();
    let mut dex = new_dex(3);
    assert!(token.mint(1, 0, 1 << 40).is_ok());
    assert!(token.mint(1, 1, 1 << 40).is_ok());
    assert!(token.mint(5, 0, 1 << 40).is_ok());
    assert!(dex.init(&mut token, 1, 2, 0, 1 << 40, 1, 1 << 40).is_ok());
    assert_eq!(dex.swap_token(&mut token, 5, 0, 1 << 24), Err(Error::ArithmeticOverflow));
    assert_eq!(token.balances(0, 5), 1 << 40);
    assert!(dex.swap_token(&mut token, 5, 0, 1 << 10).is_ok());
}

#[test]
fn deposit_takes_only_what_the_ratio_asks_for() {
    let pool_address = named_account("pool", 0, 1);
    let (mut token, mut dex) = seeded(pool_address);
    assert!(token.mint(5, 0, 100_000).is_ok());
    assert!(token.mint(5, 1, 250_000).is_ok());
    assert_eq!(
        dex.deposit(&mut token, 5, 100_000, 250_000),
        Ok(Event::Deposited {
            account: 5,
            first_token_amount: 100_000,
            second_token_amount: 100_000,
            liquidity: 100_000
        })
    );
    assert_eq!(token.balances(0, 5), 0);
    assert_eq!(token.balances(1, 5), 150_000);
    assert_eq!(token.balances(1, pool_address), 9_100_000);
}

#[test]
fn deposit_below_the_ratio_is_refused() {
    let pool_address = named_account("pool", 0, 1);
    let (mut token, mut dex) = seeded(pool_address);
    assert!(token.mint(5, 0, 100_000).is_ok());
    assert!(token.mint(5, 1, 100_000).is_ok());
    assert_eq!(dex.deposit(&mut token, 5, 100_000, 99_999), Err(Error::WrongRatio));
    assert_eq!(token.balances(0, 5), 100_000);
    assert_eq!(token.balances(1, 5), 100_000);
    assert_eq!(dex.balance_of(5), 0);
    assert_eq!(dex.pool().map(|pool| pool.lp_total_supply), Some(9_000_000));
}

#[test]
fn deposit_rounds_both_proportions_down() {
    let mut token = multi_token::Pallet::new();
    let mut dex = new_dex(3);
    assert!(token.mint(1, 0, 3).is_ok());
    assert!(token.mint(1, 1, 10).is_ok());
    assert!(dex.init(&mut token, 1, 2, 0, 3, 1, 10).is_ok());
    assert!(token.mint(5, 0, 2).is_ok());
    assert!(token.mint(5, 1, 6).is_ok());
    // 10 * 2 / 3 = 6 and 2 * 3 / 3 = 2
    assert_eq!(
        dex.deposit(&mut token, 5, 2, 6),
        Ok(Event::Deposited {
            account: 5,
            first_token_amount: 2,
            second_token_amount: 6,
            liquidity: 2
        })
    );
    assert_eq!(token.balances(0, 2), 5);
    assert_eq!(token.balances(1, 2), 16);
    assert_eq!(dex.pool().map(|pool| pool.lp_total_supply), Some(5));
}

#[test]
fn deposit_moves_both_amounts_or_none() {
    let pool_address = named_account("pool", 0, 1);
    let (mut token, mut dex) = seeded(pool_address);
    assert!(token.mint(5, 0, 100_000).is_ok());
    assert!(token.mint(5, 1, 99_999).is_ok());
    assert_eq!(
        dex.deposit(&mut token, 5, 100_000, 100_000),
        Err(Error::Token(multi_token::Error::NotEnoughOwned))
    );
    assert_eq!(token.balances(0, 5), 100_000);
    assert_eq!(token.balances(0, pool_address), 9_000_000);
    assert_eq!(dex.balance_of(5), 0);
}

#[test]
fn deposit_refuses_a_supply_beyond_64_bits() {
    let mut token = multi_token::Pallet::new();
    let mut dex = new_dex(0);
    assert!(token.mint(1, 0, u64::MAX).is_ok());
    assert!(token.mint(1, 1, 1).is_ok());
    assert!(dex.init(&mut token, 1, 2, 0, u64::MAX, 1, 1).is_ok());
    // the pool pays the first asset out, so that the supply exceeds the reserve
    assert!(token.set_approval(2, 1, true).is_ok());
    assert!(token.transfer_from(1, 2, 1, 0, u64::MAX - 1).is_ok());
    assert_eq!(dex.deposit(&mut token, 1, 1, 1), Err(Error::ArithmeticOverflow));
    assert_eq!(dex.pool().map(|pool| pool.lp_total_supply), Some(u64::MAX));
    assert_eq!(token.balances(0, 2), 1);
}

#[test]
fn withdraw_without_shares_is_refused() {
    let pool_address = named_account("pool", 0, 1);
    let (mut token, mut dex) = seeded(pool_address);
    assert_eq!(dex.withdraw(&mut token, 5), Err(Error::NoLiquidity));
    assert_eq!(token.balances(0, pool_address), 9_000_000);
    assert_eq!(dex.pool().map(|pool| pool.lp_total_supply), Some(9_000_000));
}

#[test]
fn withdraw_pays_the_share_and_cancels_it() {
    let pool_address = named_account("pool", 0, 1);
    let (mut token, mut dex) = seeded(pool_address);
    assert!(token.mint(5, 0, 1_000_000).is_ok());
    assert!(token.mint(5, 1, 1_000_000).is_ok());
    assert!(dex.deposit(&mut token, 5, 1_000_000, 1_000_000).is_ok());
    assert_eq!(
        dex.withdraw(&mut token, pool_founder()),
        Ok(Event::Withdrawn {
            account: pool_founder(),
            first_token_amount: 9_000_000,
            second_token_amount: 9_000_000,
            liquidity: 9_000_000
        })
    );
    assert_eq!(token.balances(0, pool_founder()), 9_000_000);
    assert_eq!(token.balances(0, pool_address), 1_000_000);
    assert_eq!(dex.balance_of(pool_founder()), 0);
    assert_eq!(dex.balance_of(5), 1_000_000);
    assert_eq!(dex.pool().map(|pool| pool.lp_total_supply), Some(1_000_000));
    assert_eq!(dex.withdraw(&mut token, pool_founder()), Err(Error::NoLiquidity));
    assert!(dex.withdraw(&mut token, 5).is_ok());
    assert_eq!(dex.pool().map(|pool| pool.lp_total_supply), Some(0));
    assert_eq!(token.balances(0, pool_address), 0);
    assert_eq!(token.balances(1, pool_address), 0);
}

#[test]
fn withdraw_reports_an_overflowing_product() {
    let mut token = multi_token::Pallet::new();
    let mut dex = new_dex(3);
    assert!(token.mint(1, 0, 1 << 40).is_ok());
    assert!(token.mint(1, 1, 1 << 40).is_ok());
    assert!(dex.init(&mut token, 1, 2, 0, 1 << 40, 1, 1 << 40).is_ok());
    assert_eq!(dex.withdraw(&mut token, 1), Err(Error::ArithmeticOverflow));
    assert_eq!(dex.balance_of(1), 1 << 40);
    assert_eq!(token.balances(0, 2), 1 << 40);
}

#[test]
fn supply_is_the_sum_of_the_shares() {
    let pool_address = named_account("pool", 0, 1);
    let (mut token, mut dex) = seeded(pool_address);
    let holders = [pool_founder(), 5, 6, 7];
    for who in [5, 6, 7] {
        assert!(token.mint(who, 0, 1_000_000).is_ok());
        assert!(token.mint(who, 1, 1_000_000).is_ok());
    }
    let supply = |dex: &Pallet| dex.pool().map(|pool| pool.lp_total_supply);
    let sum = |dex: &Pallet| Some(holders.iter().map(|who| dex.balance_of(*who)).sum::<u64>());
    assert!(dex.deposit(&mut token, 5, 300_000, 300_000).is_ok());
    assert_eq!(supply(&dex), sum(&dex));
    assert!(dex.deposit(&mut token, 6, 1, 1).is_ok());
    assert_eq!(supply(&dex), sum(&dex));
    assert!(dex.swap_token(&mut token, 7, 0, 500_000).is_ok());
    assert_eq!(supply(&dex), sum(&dex));
    assert!(dex.deposit(&mut token, 5, 200_000, 700_000).is_ok());
    assert_eq!(supply(&dex), sum(&dex));
    assert!(dex.withdraw(&mut token, 5).is_ok());
    assert_eq!(supply(&dex), sum(&dex));
    assert!(dex.withdraw(&mut token, pool_founder()).is_ok());
    assert_eq!(supply(&dex), sum(&dex));
    assert_eq!(supply(&dex), Some(1));
}

#[test]
fn pool_assets_stay_as_set_up() {
    let pool_address = named_account("pool", 0, 1);
    let (mut token, mut dex) = seeded(pool_address);
    assert!(token.mint(5, 0, 1_000_000).is_ok());
    assert!(token.mint(5, 1, 1_000_000).is_ok());
    assert!(dex.deposit(&mut token, 5, 10, 10).is_ok());
    assert!(dex.swap_token(&mut token, 5, 1, 10).is_ok());
    assert!(dex.withdraw(&mut token, 5).is_ok());
    let pool = dex.pool().expect("the pool was set up");
    assert_eq!((pool.pool_account, pool.asset_a_id, pool.asset_b_id), (pool_address, 0, 1));
}

#[test]
fn proportion_multiplies_before_it_divides() {
    assert_eq!(compute_proportion(10, 2, 3), Ok(6));
    assert_eq!(compute_proportion(7, 0, 3), Ok(0));
    assert_eq!(compute_proportion(u64::MAX, 1, 1), Ok(u64::MAX));
    assert_eq!(compute_proportion(1 << 32, 1 << 32, 1 << 32), Err(Error::ArithmeticOverflow));
    assert_eq!(compute_proportion(1 << 32, 1 << 32, 0), Err(Error::ArithmeticOverflow));
    assert_eq!(compute_proportion(5, 5, 0), Err(Error::DivisionByZero));
    assert_eq!(compute_proportion(0, 0, 0), Err(Error::DivisionByZero));
}

#[test]
fn swap_output_takes_the_fee_off_the_rounded_share() {
    assert_eq!(compute_swap_output(9_000_000, 9_000_000, 100_000, 3), Ok(95_933));
    assert_eq!(compute_swap_output(9_000_000, 9_000_000, 100_000, 0), Ok(98_901));
    assert_eq!(compute_swap_output(9_000_000, 9_000_000, 100_000, 100), Ok(0));
    assert_eq!(compute_swap_output(0, 50, 10, 0), Ok(50));
    assert_eq!(compute_swap_output(10, 0, 10, 3), Ok(0));
    assert_eq!(compute_swap_output(0, 50, 0, 3), Err(Error::DivisionByZero));
    assert_eq!(compute_swap_output(u64::MAX, 1, 1, 3), Err(Error::ArithmeticOverflow));
    assert_eq!(compute_swap_output(1, u64::MAX, 2, 3), Err(Error::ArithmeticOverflow));
    // the share fits, a hundred times the share does not
    assert_eq!(compute_swap_output(0, u64::MAX, 1, 0), Err(Error::ArithmeticOverflow));
}

#[test]
fn deposit_terms_follow_the_reserves() {
    assert_eq!(
        compute_deposit_terms(9_000_000, 9_000_000, 9_000_000, 100_000, 100_000),
        Ok((100_000, 100_000))
    );
    // 10 * 2 / 3 = 6 of the second asset, 2 * 7 / 3 = 4 shares
    assert_eq!(compute_deposit_terms(3, 10, 7, 2, 6), Ok((6, 4)));
    assert_eq!(compute_deposit_terms(3, 10, 7, 2, 5), Err(Error::WrongRatio));
    assert_eq!(compute_deposit_terms(0, 10, 7, 2, 6), Err(Error::DivisionByZero));
    assert_eq!(compute_deposit_terms(3, 1 << 63, 7, 2, 6), Err(Error::ArithmeticOverflow));
    assert_eq!(compute_deposit_terms(3, 10, 1 << 63, 2, 6), Err(Error::ArithmeticOverflow));
    // one more share than 64 bits can count
    assert_eq!(
        compute_deposit_terms(u64::MAX, 0, u64::MAX, 1, 0),
        Err(Error::ArithmeticOverflow)
    );
    assert_eq!(compute_deposit_terms(u64::MAX - 1, 0, u64::MAX - 1, 1, 0), Ok((0, 1)));
    assert_eq!(compute_deposit_terms(5, 5, 0, 0, 0), Ok((0, 0)));
}

#[test]
fn withdraw_terms_follow_the_shares() {
    assert_eq!(compute_withdraw_terms(10, 20, 4, 1), Ok((2, 5)));
    assert_eq!(compute_withdraw_terms(10, 20, 4, 4), Ok((10, 20)));
    assert_eq!(compute_withdraw_terms(10, 20, 4, 0), Err(Error::NoLiquidity));
    assert_eq!(compute_withdraw_terms(10, 20, 0, 0), Err(Error::NoLiquidity));
    assert_eq!(compute_withdraw_terms(10, 20, 0, 1), Err(Error::DivisionByZero));
    assert_eq!(
        compute_withdraw_terms(1 << 40, 20, 1 << 40, 1 << 40),
        Err(Error::ArithmeticOverflow)
    );
    assert_eq!(
        compute_withdraw_terms(20, 1 << 40, 1 << 40, 1 << 40),
        Err(Error::ArithmeticOverflow)
    );
}

#[test]
fn settle_does_both_transfers_or_none() {
    let mut token = multi_token::Pallet::new();
    assert!(token.mint(1, 0, 10).is_ok());
    assert!(token.mint(2, 1, 10).is_ok());
    let pay = Transfer { from: 1, to: 2, id: 0, amount: 10 };
    let too_much = Transfer { from: 2, to: 1, id: 1, amount: 11 };
    let back = Transfer { from: 2, to: 1, id: 0, amount: 10 };
    assert_eq!(refusal(&token, pay), None);
    assert_eq!(refusal(&token, too_much), Some(multi_token::Error::NotEnoughOwned));
    assert_eq!(
        settle(&mut token, pay, too_much),
        Err(Error::Token(multi_token::Error::NotEnoughOwned))
    );
    assert_eq!(token.balances(0, 1), 10);
    assert_eq!(token.balances(0, 2), 0);
    // the second transfer spends what the first one brings
    assert_eq!(settle(&mut token, pay, back), Ok(()));
    assert_eq!(token.balances(0, 1), 10);
    assert_eq!(token.balances(0, 2), 0);
}

#[test]
fn ledger_serves_the_market_maker_through_its_trait() {
    let mut token = multi_token::Pallet::new();
    assert_eq!(MultiToken::mint(&mut token, &1, &0, &10), Ok(()));
    assert_eq!(MultiToken::balances(&token, &0, &1), 10);
    assert_eq!(MultiToken::transfer_to(&mut token, &1, &2, &0, &4), Ok(()));
    assert_eq!(MultiToken::balances(&token, &0, &1), 6);
    assert_eq!(MultiToken::balances(&token, &0, &2), 4);
    assert_eq!(
        MultiToken::transfer_to(&mut token, &1, &2, &0, &7),
        Err(multi_token::Error::NotEnoughOwned)
    );
    assert_eq!(
        MultiToken::mint(&mut token, &2, &0, &u64::MAX),
        Err(multi_token::Error::ArithmeticOverflow)
    );
    assert_eq!(MultiToken::balances(&token, &0, &2), 4);
}

#[test]
fn invariants_hold_along_a_long_run_of_calls() {
    let pool_address = named_account("pool", 0, 1);
    let (mut token, mut dex) = seeded(pool_address);
    let callers = [pool_founder(), 11, 12, 13];
    for who in [11, 12, 13] {
        assert!(token.mint_batch(who, vec![0, 1], vec![5_000_000, 5_000_000]).is_ok());
    }
    let total = |token: &multi_token::Pallet, id: u64| {
        callers.iter().map(|who| token.balances(id, *who)).sum::<u64>()
            + token.balances(id, pool_address)
    };
    let (total_0, total_1) = (total(&token, 0), total(&token, 1));
    let mut seed: u64 = 0x2545_f491_4f6c_dd1d;
    let mut next = |bound: u64| {
        seed ^= seed << 13;
        seed ^= seed >> 7;
        seed ^= seed << 17;
        seed % bound
    };
    let mut done = 0;
    for _ in 0..2_000 {
        let who = callers[next(4) as usize];
        let product = u128::from(token.balances(0, pool_address))
            * u128::from(token.balances(1, pool_address));
        let before = (
            token.balances(0, who),
            token.balances(1, who),
            token.balances(0, pool_address),
            token.balances(1, pool_address),
            dex.balance_of(who),
            dex.pool(),
        );
        let result = match next(4) {
            0 | 1 => {
                let result = dex.swap_token(&mut token, who, next(2), next(400_000));
                if result.is_ok() {
                    let after = u128::from(token.balances(0, pool_address))
                        * u128::from(token.balances(1, pool_address));
                    assert!(after >= product);
                }
                result
            }
            2 => dex.deposit(&mut token, who, next(300_000), next(600_000)),
            _ => dex.withdraw(&mut token, who),
        };
        match result {
            Ok(_) => done += 1,
            Err(_) => assert_eq!(
                before,
                (
                    token.balances(0, who),
                    token.balances(1, who),
                    token.balances(0, pool_address),
                    token.balances(1, pool_address),
                    dex.balance_of(who),
                    dex.pool(),
                )
            ),
        }
        let pool = dex.pool().expect("the pool was set up");
        assert_eq!((pool.pool_account, pool.asset_a_id, pool.asset_b_id), (pool_address, 0, 1));
        assert_eq!(
            pool.lp_total_supply,
            callers.iter().map(|who| dex.balance_of(*who)).sum::<u64>()
        );
        assert_eq!(total(&token, 0), total_0);
        assert_eq!(total(&token, 1), total_1);
    }
    assert!(done > 500);
}
