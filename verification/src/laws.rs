//! Properties of the two contracts that span several calls.
use vstd::prelude::*;

use crate::aurum::{gold_for, AurumError, AurumStorage, TOKEN_DECIMALS};
use crate::oracle::{OracleError, OracleStorage};

verus! {

/// After a successful `initialize`, the getters give back what it was given:
/// the admin, the GOLD token, the price, the ledger time, and "genesis/init"
/// as the source.
pub proof fn initialize_then_read(
    s: AurumStorage,
    admin: Seq<char>,
    gold_token: Seq<char>,
    price: i128,
    ledger_timestamp: u64,
)
    requires
        s.initialize_outcome(admin, gold_token, price, ledger_timestamp) is Ok,
    ensures
        ({
            let after = s.initialize_outcome(admin, gold_token, price, ledger_timestamp)->Ok_0;
            &&& after.admin == Some(admin)
            &&& after.gold_token == Some(gold_token)
            &&& after.oracle_price_read() == Ok::<i128, AurumError>(price)
            &&& after.oracle_last_update_read() == ledger_timestamp
            &&& after.oracle_source_read() == "genesis/init"@
        }),
{
}

/// A contract is initialized at most once: once `initialize` has succeeded,
/// every later `initialize` is refused as already initialized.
pub proof fn initialize_only_once(
    s: AurumStorage,
    admin: Seq<char>,
    gold_token: Seq<char>,
    price: i128,
    ledger_timestamp: u64,
    admin2: Seq<char>,
    gold_token2: Seq<char>,
    price2: i128,
    ledger_timestamp2: u64,
)
    requires
        s.initialize_outcome(admin, gold_token, price, ledger_timestamp) is Ok,
    ensures
        s.initialize_outcome(admin, gold_token, price, ledger_timestamp)->Ok_0.initialize_outcome(
            admin2,
            gold_token2,
            price2,
            ledger_timestamp2,
        ) == Err::<AurumStorage, AurumError>(AurumError::AlreadyInitialized),
{
}

/// After a successful price update the getters give back the new price, its
/// source and the ledger time of the update; admin and token are unchanged.
pub proof fn set_oracle_price_then_read(
    s: AurumStorage,
    caller: Seq<char>,
    new_price: i128,
    source: Seq<char>,
    ledger_timestamp: u64,
)
    requires
        s.set_oracle_price_outcome(caller, new_price, source, ledger_timestamp) is Ok,
    ensures
        ({
            let after = s.set_oracle_price_outcome(caller, new_price, source, ledger_timestamp)->Ok_0;
            &&& after.oracle_price_read() == Ok::<i128, AurumError>(new_price)
            &&& after.oracle_source_read() == source
            &&& after.oracle_last_update_read() == ledger_timestamp
            &&& after.admin == s.admin
            &&& after.gold_token == s.gold_token
        }),
{
}

/// Only the admin can update the price: any other caller is refused as
/// unauthorized, whatever price it offers.
pub proof fn only_admin_sets_price(
    s: AurumStorage,
    caller: Seq<char>,
    new_price: i128,
    source: Seq<char>,
    ledger_timestamp: u64,
)
    requires
        s.admin is Some,
        caller != s.admin->Some_0,
    ensures
        s.set_oracle_price_outcome(caller, new_price, source, ledger_timestamp) == Err::<
            AurumStorage,
            AurumError,
        >(AurumError::Unauthorized),
{
}

/// Storage is always either empty or fully written with a positive price:
/// a fresh deployment is so, and every successful `initialize` and
/// `set_oracle_price` keeps it so (a refused call changes nothing).
pub proof fn storage_stays_well_formed(
    s: AurumStorage,
    admin: Seq<char>,
    gold_token: Seq<char>,
    price: i128,
    source: Seq<char>,
    ledger_timestamp: u64,
)
    requires
        s.wf(),
    ensures
        AurumStorage::empty().wf(),
        s.initialize_outcome(admin, gold_token, price, ledger_timestamp) matches Ok(after) ==> after.wf(),
        s.set_oracle_price_outcome(admin, price, source, ledger_timestamp) matches Ok(after) ==> after.wf(),
        s.oracle_price matches Some(p) ==> p > 0,
{
}

/// On well-formed storage a payment moves exactly the gold units that the
/// preview announces, and is refused exactly when the preview is.
pub proof fn preview_matches_payment(s: AurumStorage, amount_fiat: i128)
    requires
        s.wf(),
    ensures
        s.payment_outcome(amount_fiat) == s.payment_quote(amount_fiat),
{
}

/// The quoted gold is the exact amount, rounded down: at least one unit,
/// worth no more than the fiat amount, and one unit more would be worth more.
pub proof fn quote_is_exact(s: AurumStorage, amount_fiat: i128)
    requires
        s.payment_quote(amount_fiat) is Ok,
    ensures
        ({
            let gold = s.payment_quote(amount_fiat)->Ok_0 as int;
            let price = s.oracle_price->Some_0 as int;
            &&& price > 0
            &&& gold >= 1
            &&& gold * price <= amount_fiat * TOKEN_DECIMALS
            &&& amount_fiat * TOKEN_DECIMALS < (gold + 1) * price
        }),
{
    let price = s.oracle_price->Some_0 as int;
    let scaled = amount_fiat * TOKEN_DECIMALS;
    let gold = scaled / price;
    vstd::arithmetic::div_mod::lemma_fundamental_div_mod(scaled, price);
    vstd::arithmetic::div_mod::lemma_mod_bound(scaled, price);
    assert(gold * price == price * gold) by (nonlinear_arith);
    assert((gold + 1) * price == price * gold + price) by (nonlinear_arith);
}

/// On initialized, well-formed storage a quote succeeds exactly for a
/// positive fiat amount whose scaled value fits in an `i128` and is worth at
/// least one unit of GOLD.
pub proof fn quote_succeeds_exactly_when(s: AurumStorage, amount_fiat: i128)
    requires
        s.wf(),
        s.admin is Some,
    ensures
        (s.payment_quote(amount_fiat) is Ok) <==> (amount_fiat > 0 && amount_fiat * TOKEN_DECIMALS
            <= i128::MAX && amount_fiat * TOKEN_DECIMALS >= s.oracle_price->Some_0),
{
    let price = s.oracle_price->Some_0 as int;
    if amount_fiat > 0 && amount_fiat * TOKEN_DECIMALS <= i128::MAX {
        let scaled = amount_fiat * TOKEN_DECIMALS;
        if scaled >= price {
            vstd::arithmetic::div_mod::lemma_div_is_ordered(price, scaled, price);
            vstd::arithmetic::div_mod::lemma_div_basics(price);
        } else {
            vstd::arithmetic::div_mod::lemma_basic_div(scaled, price);
        }
        assert(gold_for(amount_fiat as int, price) == scaled / price);
    }
}

/// Paying a larger fiat amount never moves fewer gold units.
pub proof fn quote_is_monotone(s: AurumStorage, amount1: i128, amount2: i128)
    requires
        s.payment_quote(amount1) is Ok,
        s.payment_quote(amount2) is Ok,
        amount1 <= amount2,
    ensures
        s.payment_quote(amount1)->Ok_0 <= s.payment_quote(amount2)->Ok_0,
{
    let price = s.oracle_price->Some_0 as int;
    vstd::arithmetic::div_mod::lemma_div_is_ordered(
        amount1 * TOKEN_DECIMALS,
        amount2 * TOKEN_DECIMALS,
        price,
    );
}

/// The oracle is initialized at most once.
pub proof fn oracle_initialize_only_once(s: OracleStorage, admin: Seq<char>, admin2: Seq<char>)
    requires
        s.initialize_outcome(admin) is Ok,
    ensures
        s.initialize_outcome(admin)->Ok_0.initialize_outcome(admin2) == Err::<OracleStorage, OracleError>(
            OracleError::AlreadyInitialized,
        ),
{
}

/// After a successful `set_price`, `get_price` gives the new price for that
/// pair and the same answer as before for every other pair.
pub proof fn set_price_then_get(
    s: OracleStorage,
    base: Seq<char>,
    quote: Seq<char>,
    price: i128,
    other_base: Seq<char>,
    other_quote: Seq<char>,
)
    requires
        s.set_price_outcome(base, quote, price) is Ok,
    ensures
        ({
            let after = s.set_price_outcome(base, quote, price)->Ok_0;
            &&& after.price_read(base, quote) == Ok::<i128, OracleError>(price)
            &&& (other_base, other_quote) != (base, quote) ==> after.price_read(other_base, other_quote)
                == s.price_read(other_base, other_quote)
        }),
{
}

/// Only the admin can set a price: `set_price` succeeds only on an initialized
/// oracle, whose stored admin is the address it demands authorization of, and
/// it leaves that admin in place.
pub proof fn set_price_authorized_by_admin(s: OracleStorage, base: Seq<char>, quote: Seq<char>, price: i128)
    requires
        s.set_price_outcome(base, quote, price) is Ok,
    ensures
        s.admin is Some,
        s.set_price_authorizer() == Ok::<Seq<char>, OracleError>(s.admin->Some_0),
        s.set_price_outcome(base, quote, price)->Ok_0.admin == s.admin,
{
}

/// Every price that `set_price` stores is positive: if all stored prices are
/// positive, they stay so after a successful `set_price` or `initialize`.
pub proof fn oracle_prices_stay_positive(
    s: OracleStorage,
    admin: Seq<char>,
    base: Seq<char>,
    quote: Seq<char>,
    price: i128,
)
    requires
        s.prices_positive(),
    ensures
        s.set_price_outcome(base, quote, price) matches Ok(after) ==> after.prices_positive(),
        s.initialize_outcome(admin) matches Ok(after) ==> after.prices_positive(),
{
}

/// `initialize` succeeds exactly on a contract with no admin and for a
/// positive price, whatever that price is; it then stores the admin, the
/// token, the price and the ledger time themselves, with "genesis/init" as
/// the source.
pub proof fn initialize_accepts_every_positive_price(
    s: AurumStorage,
    admin: Seq<char>,
    gold_token: Seq<char>,
    price: i128,
    ledger_timestamp: u64,
)
    ensures
        (s.initialize_outcome(admin, gold_token, price, ledger_timestamp) is Ok) <==> (s.admin is None
            && price > 0),
        s.initialize_outcome(admin, gold_token, price, ledger_timestamp) matches Ok(after) ==> {
            &&& after.admin == Some(admin)
            &&& after.gold_token == Some(gold_token)
            &&& after.oracle_price == Some(price)
            &&& after.oracle_last_update == Some(ledger_timestamp)
            &&& after.oracle_source == Some("genesis/init"@)
        },
        s.admin is Some ==> s.initialize_outcome(admin, gold_token, price, ledger_timestamp) == Err::<
            AurumStorage,
            AurumError,
        >(AurumError::AlreadyInitialized),
        s.admin is None && price <= 0 ==> s.initialize_outcome(admin, gold_token, price, ledger_timestamp)
            == Err::<AurumStorage, AurumError>(AurumError::InitialPriceNotPositive),
{
}

/// The stored admin can set any positive price, above or below the current
/// one: the update succeeds exactly when the caller is the stored admin and
/// the price is positive, and it then stores that price, its source and the
/// ledger time themselves, leaving admin and token as they were.
pub proof fn set_oracle_price_accepts_every_positive_price(
    s: AurumStorage,
    caller: Seq<char>,
    new_price: i128,
    source: Seq<char>,
    ledger_timestamp: u64,
)
    ensures
        (s.set_oracle_price_outcome(caller, new_price, source, ledger_timestamp) is Ok) <==> (s.admin
            == Some(caller) && new_price > 0),
        s.set_oracle_price_outcome(caller, new_price, source, ledger_timestamp) matches Ok(after) ==> {
            &&& after.oracle_price == Some(new_price)
            &&& after.oracle_last_update == Some(ledger_timestamp)
            &&& after.oracle_source == Some(source)
            &&& after.admin == s.admin
            &&& after.gold_token == s.gold_token
        },
        s.admin is None ==> s.set_oracle_price_outcome(caller, new_price, source, ledger_timestamp)
            == Err::<AurumStorage, AurumError>(AurumError::NotInitialized),
        s.admin == Some(caller) && new_price <= 0 ==> s.set_oracle_price_outcome(
            caller,
            new_price,
            source,
            ledger_timestamp,
        ) == Err::<AurumStorage, AurumError>(AurumError::PriceNotPositive),
{
}

/// The getters read the stored entries themselves: a stored price, time or
/// source comes back unchanged; without one, the price read is refused as not
/// initialized, the time reads 0 and the source reads "not set".
pub proof fn getters_read_stored_entries(s: AurumStorage)
    ensures
        s.oracle_price matches Some(p) ==> s.oracle_price_read() == Ok::<i128, AurumError>(p),
        s.oracle_price is None ==> s.oracle_price_read() == Err::<i128, AurumError>(
            AurumError::NotInitialized,
        ),
        s.oracle_last_update matches Some(t) ==> s.oracle_last_update_read() == t,
        s.oracle_last_update is None ==> s.oracle_last_update_read() == 0,
        s.oracle_source matches Some(src) ==> s.oracle_source_read() == src,
        s.oracle_source is None ==> s.oracle_source_read() == "not set"@,
{
}

/// The oracle's `initialize` succeeds exactly when no admin is stored, and
/// then stores the given admin, whatever address it is, and keeps the prices.
pub proof fn oracle_initialize_accepts_any_admin(s: OracleStorage, admin: Seq<char>)
    ensures
        (s.initialize_outcome(admin) is Ok) <==> (s.admin is None),
        s.initialize_outcome(admin) matches Ok(after) ==> after.admin == Some(admin) && after.prices
            == s.prices,
        s.admin is Some ==> s.initialize_outcome(admin) == Err::<OracleStorage, OracleError>(
            OracleError::AlreadyInitialized,
        ),
{
}

/// The oracle accepts every positive price, however large: `set_price`
/// succeeds exactly on an initialized oracle for a positive price, and then
/// `get_price` of that pair gives that price back, the admin unchanged.
pub proof fn oracle_set_price_accepts_every_positive_price(
    s: OracleStorage,
    base: Seq<char>,
    quote: Seq<char>,
    price: i128,
)
    ensures
        (s.set_price_outcome(base, quote, price) is Ok) <==> (s.admin is Some && price > 0),
        s.set_price_outcome(base, quote, price) matches Ok(after) ==> {
            &&& after.prices.contains_key((base, quote))
            &&& after.prices[(base, quote)] == price
            &&& after.price_read(base, quote) == Ok::<i128, OracleError>(price)
            &&& after.admin == s.admin
        },
        s.admin is None ==> s.set_price_outcome(base, quote, price) == Err::<OracleStorage, OracleError>(
            OracleError::NotInitialized,
        ),
        s.admin is Some && price <= 0 ==> s.set_price_outcome(base, quote, price) == Err::<
            OracleStorage,
            OracleError,
        >(OracleError::PriceNotPositive),
{
}

/// `get_price` reads the stored price of the pair itself, and is refused as
/// not found exactly when the pair has none.
pub proof fn oracle_get_price_reads_stored_price(s: OracleStorage, base: Seq<char>, quote: Seq<char>)
    ensures
        s.prices.contains_key((base, quote)) ==> s.price_read(base, quote) == Ok::<i128, OracleError>(
            s.prices[(base, quote)],
        ),
        !s.prices.contains_key((base, quote)) ==> s.price_read(base, quote) == Err::<i128, OracleError>(
            OracleError::PriceNotFound,
        ),
{
}

} // verus!
