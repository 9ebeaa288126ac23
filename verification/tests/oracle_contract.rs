use aurum::address::Address;
use aurum::oracle::{OracleContract, OracleError};

fn address(text: &str) -> Address {
    Address::from_strkey(String::from(text))
}

fn s(text: &str) -> String {
    String::from(text)
}

#[test]
fn oracle_set_then_get() {
    let mut o = OracleContract::new();
    o.initialize(address("GADMIN")).unwrap();
    // 1 XAU = $2500 -> 25000000000 with 7 decimals
    o.set_price(s("XAU"), s("USD"), 25_000_000_000).unwrap();
    assert_eq!(o.get_price(&s("XAU"), &s("USD")), Ok(25_000_000_000));
}

#[test]
fn oracle_overwrites_and_keeps_other_pairs() {
    let mut o = OracleContract::new();
    o.initialize(address("GADMIN")).unwrap();
    o.set_price(s("XAU"), s("USD"), 25_000_000_000).unwrap();
    o.set_price(s("USD"), s("ARS"), 14_250_000_000).unwrap();
    o.set_price(s("XAU"), s("USD"), 44_333_900_000).unwrap();
    assert_eq!(o.get_price(&s("XAU"), &s("USD")), Ok(44_333_900_000));
    assert_eq!(o.get_price(&s("USD"), &s("ARS")), Ok(14_250_000_000));
    // The pair is ordered: (USD, XAU) is another pair.
    assert_eq!(o.get_price(&s("USD"), &s("XAU")), Err(OracleError::PriceNotFound));
}

#[test]
fn oracle_missing_price() {
    let mut o = OracleContract::new();
    o.initialize(address("GADMIN")).unwrap();
    assert_eq!(o.get_price(&s("XAU"), &s("USD")), Err(OracleError::PriceNotFound));
}

#[test]
fn oracle_initialize_twice_is_refused() {
    let mut o = OracleContract::new();
    o.initialize(address("GADMIN")).unwrap();
    assert_eq!(o.initialize(address("GOTHER")), Err(OracleError::AlreadyInitialized));
    assert_eq!(o.admin(), Some(address("GADMIN")));
}

#[test]
fn oracle_set_before_initialize_is_refused() {
    let mut o = OracleContract::new();
    assert_eq!(o.admin(), None);
    assert_eq!(o.set_price(s("XAU"), s("USD"), 1), Err(OracleError::NotInitialized));
    assert_eq!(o.get_price(&s("XAU"), &s("USD")), Err(OracleError::PriceNotFound));
}

#[test]
fn oracle_non_positive_price_is_refused() {
    let mut o = OracleContract::new();
    o.initialize(address("GADMIN")).unwrap();
    o.set_price(s("XAU"), s("USD"), 10).unwrap();
    assert_eq!(o.set_price(s("XAU"), s("USD"), 0), Err(OracleError::PriceNotPositive));
    assert_eq!(o.set_price(s("XAU"), s("USD"), -1), Err(OracleError::PriceNotPositive));
    assert_eq!(o.get_price(&s("XAU"), &s("USD")), Ok(10));
}

#[test]
fn oracle_restored_from_storage() {
    let mut o = OracleContract::from_storage(Some(address("GADMIN")));
    o.restore_price(s("XAU"), s("USD"), 25);
    assert_eq!(o.admin(), Some(address("GADMIN")));
    assert_eq!(o.get_price(&s("XAU"), &s("USD")), Ok(25));
    assert_eq!(o.initialize(address("GX")), Err(OracleError::AlreadyInitialized));
}

#[test]
fn oracle_error_messages() {
    assert_eq!(OracleError::AlreadyInitialized.message(), "Already initialized");
    assert_eq!(OracleError::PriceNotPositive.message(), "Price must be positive");
    assert_eq!(OracleError::PriceNotFound.message(), "Price not found");
    assert_eq!(OracleError::NotInitialized.message(), "not initialized");
}

#[test]
fn oracle_set_price_is_authorized_by_stored_admin() {
    let mut o = OracleContract::new();
    assert_eq!(o.set_price_authorizer(), Err(OracleError::NotInitialized));
    o.initialize(address("GADMIN")).unwrap();
    assert_eq!(o.set_price_authorizer(), Ok(address("GADMIN")));
    o.set_price(s("XAU"), s("USD"), 5).unwrap();
    assert_eq!(o.set_price_authorizer(), Ok(address("GADMIN")));
}
