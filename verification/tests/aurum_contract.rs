use aurum::address::Address;
use aurum::aurum::{AurumContract, AurumError, RwaPayment, TOKEN_DECIMALS};
use soroban_sdk::testutils::Address as _;
use soroban_sdk::token::{StellarAssetClient, TokenClient};
use soroban_sdk::testutils::EnvTestConfig;
use soroban_sdk::Env;

fn to_lib(a: &soroban_sdk::Address) -> Address {
    Address::from_strkey(a.to_string().to_string())
}

fn to_sdk(env: &Env, a: &Address) -> soroban_sdk::Address {
    soroban_sdk::Address::from_str(env, a.strkey())
}

fn setup_test() -> (
    Env,
    soroban_sdk::Address,
    soroban_sdk::Address,
    soroban_sdk::Address,
    soroban_sdk::Address,
    soroban_sdk::Address,
) {
    // No snapshot files are written when the environment is dropped.
    let env = Env::new_with_config(EnvTestConfig { capture_snapshot_at_drop: false });
    env.mock_all_auths();

    let admin = soroban_sdk::Address::generate(&env);
    let user = soroban_sdk::Address::generate(&env);
    let merchant = soroban_sdk::Address::generate(&env);

    // A Stellar asset contract stands for the GOLD token.
    let token_admin = soroban_sdk::Address::generate(&env);
    let token_contract = env.register_stellar_asset_contract_v2(token_admin.clone());
    let gold_token_address = token_contract.address();

    // 1000 GOLD for the user (7 decimals).
    let sac_client = StellarAssetClient::new(&env, &gold_token_address);
    sac_client.mint(&user, &1_000_0000000);

    (env, admin, user, merchant, gold_token_address, token_admin)
}

/// Carries out an accepted payment on the token, as the contract does, and
/// gives back the gold units that moved.
fn settle(env: &Env, payment: &RwaPayment) -> i128 {
    let token = TokenClient::new(env, &to_sdk(env, &payment.gold_token));
    token.transfer(
        &to_sdk(env, &payment.executed.sender),
        &to_sdk(env, &payment.executed.destination),
        &payment.executed.gold_used,
    );
    payment.executed.gold_used
}

fn pay(env: &Env, client: &AurumContract, sender: &soroban_sdk::Address, destination: &soroban_sdk::Address, amount_fiat: i128) -> i128 {
    let payment = client
        .pay_with_rwa(&to_lib(sender), &to_lib(destination), amount_fiat)
        .unwrap();
    settle(env, &payment)
}

fn initialized(env: &Env, admin: &soroban_sdk::Address, gold_token: &soroban_sdk::Address, oracle_price: i128) -> AurumContract {
    let mut client = AurumContract::new();
    client
        .initialize(to_lib(admin), to_lib(gold_token), oracle_price, env.ledger().timestamp())
        .unwrap();
    client
}

#[test]
fn test_initialize() {
    let (env, admin, _user, _merchant, gold_token, _token_admin) = setup_test();
    let mut client = AurumContract::new();

    // 1 GOLD = 90,000 ARS (with 7 decimals)
    let oracle_price: i128 = 90_000_0000000;
    client
        .initialize(to_lib(&admin), to_lib(&gold_token), oracle_price, env.ledger().timestamp())
        .unwrap();

    assert_eq!(client.get_admin(), Ok(to_lib(&admin)));
    assert_eq!(client.get_gold_token(), Ok(to_lib(&gold_token)));
    assert_eq!(client.get_oracle_price(), Ok(oracle_price));
}

#[test]
fn test_payment_preview() {
    let (env, admin, _user, _merchant, gold_token, _token_admin) = setup_test();
    let oracle_price: i128 = 90_000_0000000; // 1 GOLD = 90k ARS
    let client = initialized(&env, &admin, &gold_token, oracle_price);

    // Preview: how much GOLD for 5,000 ARS?
    let fiat_amount: i128 = 5_000_0000000;
    let gold_needed = client.get_payment_preview(fiat_amount).unwrap();

    // 5000/90000 * 10^7 = 555555 (0.0555555 GOLD)
    let expected_gold: i128 = 555555;
    assert_eq!(gold_needed, expected_gold);
}

#[test]
fn test_pay_with_rwa() {
    let (env, admin, user, merchant, gold_token, _token_admin) = setup_test();
    let oracle_price: i128 = 90_000_0000000;
    let client = initialized(&env, &admin, &gold_token, oracle_price);

    let gold_client = TokenClient::new(&env, &gold_token);
    let user_balance_before = gold_client.balance(&user);
    let merchant_balance_before = gold_client.balance(&merchant);

    assert_eq!(user_balance_before, 1_000_0000000);
    assert_eq!(merchant_balance_before, 0);

    // Pay 5,000 ARS with GOLD
    let fiat_amount: i128 = 5_000_0000000;
    let gold_used = pay(&env, &client, &user, &merchant, fiat_amount);

    let expected_gold: i128 = 555555;
    assert_eq!(gold_used, expected_gold);

    let user_balance_after = gold_client.balance(&user);
    let merchant_balance_after = gold_client.balance(&merchant);

    assert_eq!(user_balance_after, user_balance_before - gold_used);
    assert_eq!(merchant_balance_after, gold_used);
}

#[test]
fn test_update_oracle_price() {
    let (env, admin, _user, _merchant, gold_token, _token_admin) = setup_test();
    let oracle_price: i128 = 90_000_0000000;
    let mut client = initialized(&env, &admin, &gold_token, oracle_price);

    // Update price to 95,000 ARS
    let new_price: i128 = 95_000_0000000;
    let source = String::from("gold-api.com");
    client
        .set_oracle_price(&to_lib(&admin), new_price, source.clone(), env.ledger().timestamp())
        .unwrap();
    assert_eq!(client.get_oracle_price(), Ok(new_price));
    assert_eq!(client.get_oracle_source(), source);
}

#[test]
fn test_multiple_payments() {
    let (env, admin, user, merchant, gold_token, _token_admin) = setup_test();
    let oracle_price: i128 = 90_000_0000000;
    let client = initialized(&env, &admin, &gold_token, oracle_price);

    let gold_client = TokenClient::new(&env, &gold_token);

    // Payment 1: 1,500 ARS (a coffee and sandwich)
    let gold_1 = pay(&env, &client, &user, &merchant, 1_500_0000000);
    // Payment 2: 25,000 ARS (grocery shopping)
    let gold_2 = pay(&env, &client, &user, &merchant, 25_000_0000000);
    // Payment 3: 3,200 ARS (taxi)
    let gold_3 = pay(&env, &client, &user, &merchant, 3_200_0000000);

    let total_gold = gold_1 + gold_2 + gold_3;
    let user_balance = gold_client.balance(&user);
    let merchant_balance = gold_client.balance(&merchant);

    assert_eq!(user_balance, 1_000_0000000 - total_gold);
    assert_eq!(merchant_balance, total_gold);
}

fn address(text: &str) -> Address {
    Address::from_strkey(String::from(text))
}

fn sample() -> AurumContract {
    let mut c = AurumContract::new();
    c.initialize(address("GADMIN"), address("CGOLD"), 90_000_0000000, 100).unwrap();
    c
}

#[test]
fn fresh_contract_reads_defaults() {
    let c = AurumContract::new();
    assert_eq!(c.get_oracle_price(), Err(AurumError::NotInitialized));
    assert_eq!(c.get_oracle_last_update(), 0);
    assert_eq!(c.get_oracle_source(), "not set");
    assert_eq!(c.get_admin(), Err(AurumError::NotInitialized));
    assert_eq!(c.get_gold_token(), Err(AurumError::NotInitialized));
    assert_eq!(c.get_payment_preview(1_000_0000000), Err(AurumError::NotInitialized));
    assert!(c.pay_with_rwa(&address("GA"), &address("GB"), 1_000_0000000).is_err());
}

#[test]
fn initialize_records_genesis_source_and_time() {
    let c = sample();
    assert_eq!(c.get_oracle_source(), "genesis/init");
    assert_eq!(c.get_oracle_last_update(), 100);
}

#[test]
fn initialize_returns_its_event() {
    let mut c = AurumContract::new();
    let event = c.initialize(address("GADMIN"), address("CGOLD"), 7, 1).unwrap();
    assert_eq!(event.admin, address("GADMIN"));
    assert_eq!(event.gold_token, address("CGOLD"));
    assert_eq!(event.oracle_price, 7);
}

#[test]
fn initialize_twice_is_refused_and_changes_nothing() {
    let mut c = sample();
    let r = c.initialize(address("GOTHER"), address("COTHER"), 1, 5);
    assert_eq!(r.unwrap_err(), AurumError::AlreadyInitialized);
    assert_eq!(c.get_admin(), Ok(address("GADMIN")));
    assert_eq!(c.get_gold_token(), Ok(address("CGOLD")));
    assert_eq!(c.get_oracle_price(), Ok(90_000_0000000));
    assert_eq!(c.get_oracle_last_update(), 100);
}

#[test]
fn initialize_with_non_positive_price_is_refused() {
    let mut c = AurumContract::new();
    let r = c.initialize(address("GADMIN"), address("CGOLD"), 0, 5);
    assert_eq!(r.unwrap_err(), AurumError::InitialPriceNotPositive);
    assert_eq!(c.get_admin(), Err(AurumError::NotInitialized));
    let r = c.initialize(address("GADMIN"), address("CGOLD"), -3, 5);
    assert_eq!(r.unwrap_err(), AurumError::InitialPriceNotPositive);
}

#[test]
fn set_oracle_price_records_source_time_and_event() {
    let mut c = sample();
    let event = c
        .set_oracle_price(&address("GADMIN"), 95_000_0000000, String::from("gold-api.com"), 777)
        .unwrap();
    assert_eq!(event.new_price, 95_000_0000000);
    assert_eq!(event.source, "gold-api.com");
    assert_eq!(event.timestamp, 777);
    assert_eq!(c.get_oracle_last_update(), 777);
    assert_eq!(c.get_admin(), Ok(address("GADMIN")));
}

#[test]
fn set_oracle_price_by_stranger_is_refused() {
    let mut c = sample();
    let r = c.set_oracle_price(&address("GSTRANGER"), 1, String::from("x"), 5);
    assert_eq!(r.unwrap_err(), AurumError::Unauthorized);
    assert_eq!(c.get_oracle_price(), Ok(90_000_0000000));
    assert_eq!(c.get_oracle_source(), "genesis/init");
}

#[test]
fn set_oracle_price_non_positive_is_refused() {
    let mut c = sample();
    let r = c.set_oracle_price(&address("GADMIN"), 0, String::from("x"), 5);
    assert_eq!(r.unwrap_err(), AurumError::PriceNotPositive);
    assert_eq!(c.get_oracle_price(), Ok(90_000_0000000));
}

#[test]
fn set_oracle_price_before_initialize_is_refused() {
    let mut c = AurumContract::new();
    let r = c.set_oracle_price(&address("GADMIN"), 5, String::from("x"), 5);
    assert_eq!(r.unwrap_err(), AurumError::NotInitialized);
}

#[test]
fn preview_refuses_non_positive_fiat() {
    let c = sample();
    assert_eq!(c.get_payment_preview(0), Err(AurumError::FiatNotPositive));
    assert_eq!(c.get_payment_preview(-10), Err(AurumError::FiatNotPositive));
}

#[test]
fn preview_refuses_overflow() {
    let c = sample();
    assert_eq!(c.get_payment_preview(i128::MAX / TOKEN_DECIMALS + 1), Err(AurumError::Overflow));
    // The largest amount that still fits.
    assert_eq!(
        c.get_payment_preview(i128::MAX / TOKEN_DECIMALS),
        Ok((i128::MAX / TOKEN_DECIMALS) * TOKEN_DECIMALS / 90_000_0000000)
    );
}

#[test]
fn preview_refuses_amounts_worth_less_than_one_unit() {
    let c = sample();
    // 89999 * 10^7 / 900000000000 < 1
    assert_eq!(c.get_payment_preview(89_999), Err(AurumError::GoldRoundsToZero));
    assert_eq!(c.get_payment_preview(90_000), Ok(1));
}

#[test]
fn zero_or_negative_stored_price_is_refused() {
    let zero = AurumContract::from_storage(None, None, Some(0), None, None);
    assert_eq!(zero.get_payment_preview(5), Err(AurumError::DivisionByZero));
    let negative = AurumContract::from_storage(None, None, Some(-7), None, None);
    assert_eq!(negative.get_payment_preview(5), Err(AurumError::GoldRoundsToZero));
}

#[test]
fn payment_without_token_is_refused() {
    let c = AurumContract::from_storage(Some(address("GADMIN")), None, Some(90_000_0000000), Some(1), None);
    assert_eq!(c.get_payment_preview(5_000_0000000), Ok(555555));
    assert_eq!(
        c.pay_with_rwa(&address("GA"), &address("GB"), 5_000_0000000).unwrap_err(),
        AurumError::NotInitialized
    );
}

#[test]
fn payment_carries_sender_destination_and_amounts() {
    let c = sample();
    let p = c.pay_with_rwa(&address("GUSER"), &address("GSHOP"), 1_500_0000000).unwrap();
    assert_eq!(p.gold_token, address("CGOLD"));
    assert_eq!(p.executed.sender, address("GUSER"));
    assert_eq!(p.executed.destination, address("GSHOP"));
    assert_eq!(p.executed.amount_fiat, 1_500_0000000);
    // 1500 / 90000 * 10^7 = 166666.6.. rounded down
    assert_eq!(p.executed.gold_used, 166666);
}

#[test]
fn payment_matches_preview() {
    let c = sample();
    for amount in [1_i128, 90_000, 1_500_0000000, 25_000_0000000, 3_200_0000000, -4, i128::MAX] {
        let preview = c.get_payment_preview(amount);
        let paid = c.pay_with_rwa(&address("GA"), &address("GB"), amount).map(|p| p.executed.gold_used);
        assert_eq!(preview, paid);
    }
}

#[test]
fn quote_is_exact_rounded_down() {
    let c = sample();
    let price: i128 = 90_000_0000000;
    for amount in [90_000_i128, 1_500_0000000, 25_000_0000000, 3_200_0000000, 123_456_789] {
        let gold = c.get_payment_preview(amount).unwrap();
        assert!(gold >= 1);
        assert!(gold * price <= amount * TOKEN_DECIMALS);
        assert!(amount * TOKEN_DECIMALS < (gold + 1) * price);
    }
}

#[test]
fn quote_is_monotone_in_fiat() {
    let c = sample();
    let small = c.get_payment_preview(1_500_0000000).unwrap();
    let large = c.get_payment_preview(1_500_0000001).unwrap();
    assert!(small <= large);
}

#[test]
fn error_messages() {
    assert_eq!(AurumError::AlreadyInitialized.message(), "already initialized");
    assert_eq!(AurumError::InitialPriceNotPositive.message(), "oracle price must be positive");
    assert_eq!(AurumError::Unauthorized.message(), "unauthorized: not admin");
    assert_eq!(AurumError::PriceNotPositive.message(), "price must be positive");
    assert_eq!(AurumError::FiatNotPositive.message(), "fiat amount must be positive");
    assert_eq!(AurumError::Overflow.message(), "overflow in gold calculation");
    assert_eq!(AurumError::DivisionByZero.message(), "division by zero");
    assert_eq!(AurumError::GoldRoundsToZero.message(), "gold amount rounds to zero");
    assert_eq!(AurumError::NotInitialized.message(), "not initialized");
}

#[test]
fn address_comparison_and_copy() {
    let a = address("GAAA");
    let b = a.clone();
    assert!(a.same_as(&b));
    assert!(!a.same_as(&address("GAAB")));
    assert_eq!(b.strkey(), "GAAA");
}
