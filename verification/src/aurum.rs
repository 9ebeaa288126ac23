//! The AURUM payment contract: its instance storage, the oracle price that
//! the admin keeps up to date, and the conversion of a fiat amount into the
//! exact amount of GOLD that pays it.
use vstd::prelude::*;
use vstd::string::*;

use crate::address::{address_view, Address};

verus! {

/// Stellar tokens carry 7 decimals: one whole GOLD is `10^7` units.
pub const TOKEN_DECIMALS: i128 = 10_000_000;

/// The instance storage's time to live is extended when it falls below this
/// many ledgers (about a day).
pub const INSTANCE_LIFETIME_THRESHOLD: u32 = 17280;

/// ... and it is then extended to this many ledgers (about thirty days).
pub const INSTANCE_BUMP_AMOUNT: u32 = 518400;

/// Why a call on the contract is refused.
#[derive(Debug, Clone, Copy, PartialEq, Eq, Structural)]
pub enum AurumError {
    /// `initialize` on a contract that already has an admin.
    AlreadyInitialized,
    /// A value that `initialize` writes was read before it was written.
    NotInitialized,
    /// `initialize` with an oracle price that is zero or negative.
    InitialPriceNotPositive,
    /// `set_oracle_price` by an address that is not the admin.
    Unauthorized,
    /// `set_oracle_price` with a price that is zero or negative.
    PriceNotPositive,
    /// A payment or preview of a fiat amount that is zero or negative.
    FiatNotPositive,
    /// The fiat amount scaled by `TOKEN_DECIMALS` does not fit in an `i128`.
    Overflow,
    /// The stored oracle price is zero.
    DivisionByZero,
    /// The fiat amount is worth less than one unit of GOLD.
    GoldRoundsToZero,
}

/// The text with which a refused call aborts.
pub open spec fn aurum_error_text(e: AurumError) -> Seq<char> {
    match e {
        AurumError::AlreadyInitialized => "already initialized"@,
        AurumError::NotInitialized => "not initialized"@,
        AurumError::InitialPriceNotPositive => "oracle price must be positive"@,
        AurumError::Unauthorized => "unauthorized: not admin"@,
        AurumError::PriceNotPositive => "price must be positive"@,
        AurumError::FiatNotPositive => "fiat amount must be positive"@,
        AurumError::Overflow => "overflow in gold calculation"@,
        AurumError::DivisionByZero => "division by zero"@,
        AurumError::GoldRoundsToZero => "gold amount rounds to zero"@,
    }
}

impl AurumError {
    /// The text with which the refused call aborts.
    pub fn message(&self) -> (s: &'static str)
        ensures
            s@ == aurum_error_text(*self),
    {
        match self {
            AurumError::AlreadyInitialized => "already initialized",
            AurumError::NotInitialized => "not initialized",
            AurumError::InitialPriceNotPositive => "oracle price must be positive",
            AurumError::Unauthorized => "unauthorized: not admin",
            AurumError::PriceNotPositive => "price must be positive",
            AurumError::FiatNotPositive => "fiat amount must be positive",
            AurumError::Overflow => "overflow in gold calculation",
            AurumError::DivisionByZero => "division by zero",
            AurumError::GoldRoundsToZero => "gold amount rounds to zero",
        }
    }
}

/// Published when the contract is initialized.
#[derive(Debug)]
pub struct InitEvent {
    pub admin: Address,
    pub gold_token: Address,
    pub oracle_price: i128,
}

/// Published when the admin updates the oracle price.
#[derive(Debug)]
pub struct OraclePriceUpdated {
    pub new_price: i128,
    pub source: String,
    pub timestamp: u64,
}

/// Published when a payment has been made.
#[derive(Debug)]
pub struct PaymentExecuted {
    pub sender: Address,
    pub destination: Address,
    pub amount_fiat: i128,
    pub gold_used: i128,
}

/// An accepted payment: `executed.gold_used` units of the token at
/// `gold_token` move from `executed.sender` to `executed.destination`, and
/// `executed` is published.
#[derive(Debug)]
pub struct RwaPayment {
    pub gold_token: Address,
    pub executed: PaymentExecuted,
}

/// What the contract's instance storage holds, entry by entry.
pub struct AurumStorage {
    pub admin: Option<Seq<char>>,
    pub gold_token: Option<Seq<char>>,
    /// Fiat units (7 decimals) that one whole GOLD costs.
    pub oracle_price: Option<i128>,
    /// Ledger timestamp of the last price update.
    pub oracle_last_update: Option<u64>,
    /// Where the price came from (for example "gold-api.com").
    pub oracle_source: Option<Seq<char>>,
}

pub open spec fn string_view(s: Option<String>) -> Option<Seq<char>> {
    match s {
        Some(s) => Some(s@),
        None => None,
    }
}

/// The gold units that pay `amount_fiat` at `price`, rounded down.
pub open spec fn gold_for(amount_fiat: int, price: int) -> int {
    amount_fiat * TOKEN_DECIMALS / price
}

impl AurumStorage {
    /// Storage as a fresh deployment has it: nothing written.
    pub open spec fn empty() -> AurumStorage {
        AurumStorage {
            admin: None,
            gold_token: None,
            oracle_price: None,
            oracle_last_update: None,
            oracle_source: None,
        }
    }

    /// Either nothing has been written, or every entry has and the price is
    /// positive.
    pub open spec fn wf(self) -> bool {
        match self.admin {
            None => self == AurumStorage::empty(),
            Some(_) => {
                &&& self.gold_token is Some
                &&& self.oracle_price is Some
                &&& self.oracle_price.unwrap() > 0
                &&& self.oracle_last_update is Some
                &&& self.oracle_source is Some
            },
        }
    }

    /// What `initialize` leaves in storage, or why it refuses.
    pub open spec fn initialize_outcome(
        self,
        admin: Seq<char>,
        gold_token: Seq<char>,
        oracle_price_fiat: i128,
        ledger_timestamp: u64,
    ) -> Result<AurumStorage, AurumError> {
        if self.admin is Some {
            Err(AurumError::AlreadyInitialized)
        } else if oracle_price_fiat <= 0 {
            Err(AurumError::InitialPriceNotPositive)
        } else {
            Ok(
                AurumStorage {
                    admin: Some(admin),
                    gold_token: Some(gold_token),
                    oracle_price: Some(oracle_price_fiat),
                    oracle_last_update: Some(ledger_timestamp),
                    oracle_source: Some("genesis/init"@),
                },
            )
        }
    }

    /// What `set_oracle_price` leaves in storage, or why it refuses.
    pub open spec fn set_oracle_price_outcome(
        self,
        caller: Seq<char>,
        new_price: i128,
        source: Seq<char>,
        ledger_timestamp: u64,
    ) -> Result<AurumStorage, AurumError> {
        match self.admin {
            None => Err(AurumError::NotInitialized),
            Some(admin) => if caller != admin {
                Err(AurumError::Unauthorized)
            } else if new_price <= 0 {
                Err(AurumError::PriceNotPositive)
            } else {
                Ok(
                    AurumStorage {
                        oracle_price: Some(new_price),
                        oracle_last_update: Some(ledger_timestamp),
                        oracle_source: Some(source),
                        ..self
                    },
                )
            },
        }
    }

    pub open spec fn oracle_price_read(self) -> Result<i128, AurumError> {
        match self.oracle_price {
            Some(p) => Ok(p),
            None => Err(AurumError::NotInitialized),
        }
    }

    pub open spec fn oracle_last_update_read(self) -> u64 {
        match self.oracle_last_update {
            Some(t) => t,
            None => 0,
        }
    }

    pub open spec fn oracle_source_read(self) -> Seq<char> {
        match self.oracle_source {
            Some(s) => s,
            None => "not set"@,
        }
    }

    /// The gold units that pay `amount_fiat` at the stored price, or why
    /// none can be given.
    pub open spec fn payment_quote(self, amount_fiat: i128) -> Result<i128, AurumError> {
        if amount_fiat <= 0 {
            Err(AurumError::FiatNotPositive)
        } else {
            match self.oracle_price {
                None => Err(AurumError::NotInitialized),
                Some(price) => if amount_fiat * TOKEN_DECIMALS > i128::MAX {
                    Err(AurumError::Overflow)
                } else if price == 0 {
                    Err(AurumError::DivisionByZero)
                } else if price < 0 || gold_for(amount_fiat as int, price as int) == 0 {
                    Err(AurumError::GoldRoundsToZero)
                } else {
                    Ok(gold_for(amount_fiat as int, price as int) as i128)
                },
            }
        }
    }

    /// The gold units that a payment of `amount_fiat` moves, or why it is
    /// refused.
    pub open spec fn payment_outcome(self, amount_fiat: i128) -> Result<i128, AurumError> {
        match self.payment_quote(amount_fiat) {
            Err(e) => Err(e),
            Ok(gold) => if self.gold_token is Some {
                Ok(gold)
            } else {
                Err(AurumError::NotInitialized)
            },
        }
    }
}

/// The AURUM contract, held as the entries of its instance storage.
pub struct AurumContract {
    admin: Option<Address>,
    gold_token: Option<Address>,
    oracle_price: Option<i128>,
    oracle_last_update: Option<u64>,
    oracle_source: Option<String>,
}

impl View for AurumContract {
    type V = AurumStorage;

    closed spec fn view(&self) -> AurumStorage {
        AurumStorage {
            admin: address_view(self.admin),
            gold_token: address_view(self.gold_token),
            oracle_price: self.oracle_price,
            oracle_last_update: self.oracle_last_update,
            oracle_source: string_view(self.oracle_source),
        }
    }
}

fn clone_address(a: &Option<Address>) -> (r: Option<Address>)
    ensures
        address_view(r) == address_view(*a),
{
    match a {
        Some(a) => Some(a.clone()),
        None => None,
    }
}

impl AurumContract {
    /// A freshly deployed contract: nothing stored yet.
    pub fn new() -> (c: AurumContract)
        ensures
            c@ == AurumStorage::empty(),
    {
        AurumContract {
            admin: None,
            gold_token: None,
            oracle_price: None,
            oracle_last_update: None,
            oracle_source: None,
        }
    }

    /// The contract whose instance storage holds these entries.
    pub fn from_storage(
        admin: Option<Address>,
        gold_token: Option<Address>,
        oracle_price: Option<i128>,
        oracle_last_update: Option<u64>,
        oracle_source: Option<String>,
    ) -> (c: AurumContract)
        ensures
            c@ == (AurumStorage {
                admin: address_view(admin),
                gold_token: address_view(gold_token),
                oracle_price,
                oracle_last_update,
                oracle_source: string_view(oracle_source),
            }),
    {
        AurumContract { admin, gold_token, oracle_price, oracle_last_update, oracle_source }
    }

    /// Initialize the contract with its admin, the GOLD token contract and the
    /// price of one GOLD in fiat (7 decimals), at the ledger time
    /// `ledger_timestamp`. The price source is recorded as "genesis/init".
    /// Refused on a contract that already has an admin, and for a price that
    /// is not positive; a refused call changes nothing.
    pub fn initialize(
        &mut self,
        admin: Address,
        gold_token: Address,
        oracle_price_fiat: i128,
        ledger_timestamp: u64,
    ) -> (r: Result<InitEvent, AurumError>)
        ensures
            match (r, old(self)@.initialize_outcome(admin@, gold_token@, oracle_price_fiat, ledger_timestamp)) {
                (Ok(event), Ok(after)) => {
                    &&& final(self)@ == after
                    &&& event.admin@ == admin@
                    &&& event.gold_token@ == gold_token@
                    &&& event.oracle_price == oracle_price_fiat
                },
                (Err(e), Err(expected)) => e == expected && final(self)@ == old(self)@,
                _ => false,
            },
    {
        if self.admin.is_some() {
            return Err(AurumError::AlreadyInitialized);
        }
        if oracle_price_fiat <= 0 {
            return Err(AurumError::InitialPriceNotPositive);
        }
        let event = InitEvent {
            admin: admin.clone(),
            gold_token: gold_token.clone(),
            oracle_price: oracle_price_fiat,
        };
        self.admin = Some(admin);
        self.gold_token = Some(gold_token);
        self.oracle_price = Some(oracle_price_fiat);
        self.oracle_last_update = Some(ledger_timestamp);
        self.oracle_source = Some(String::from_str("genesis/init"));
        Ok(event)
    }

    /// Update the oracle price on behalf of `admin` (whose authorization the
    /// host has checked), recording its source and the ledger time. Refused
    /// before initialization, for any address other than the stored admin,
    /// and for a price that is not positive; a refused call changes nothing.
    pub fn set_oracle_price(
        &mut self,
        admin: &Address,
        new_price: i128,
        source: String,
        ledger_timestamp: u64,
    ) -> (r: Result<OraclePriceUpdated, AurumError>)
        ensures
            match (r, old(self)@.set_oracle_price_outcome(admin@, new_price, source@, ledger_timestamp)) {
                (Ok(event), Ok(after)) => {
                    &&& final(self)@ == after
                    &&& event.new_price == new_price
                    &&& event.source@ == source@
                    &&& event.timestamp == ledger_timestamp
                },
                (Err(e), Err(expected)) => e == expected && final(self)@ == old(self)@,
                _ => false,
            },
    {
        match &self.admin {
            None => {
                return Err(AurumError::NotInitialized);
            },
            Some(stored) => {
                if !admin.same_as(stored) {
                    return Err(AurumError::Unauthorized);
                }
            },
        }
        if new_price <= 0 {
            return Err(AurumError::PriceNotPositive);
        }
        let event = OraclePriceUpdated {
            new_price,
            source: source.clone(),
            timestamp: ledger_timestamp,
        };
        self.oracle_price = Some(new_price);
        self.oracle_last_update = Some(ledger_timestamp);
        self.oracle_source = Some(source);
        Ok(event)
    }

    /// The current oracle price: fiat units (7 decimals) per whole GOLD.
    pub fn get_oracle_price(&self) -> (r: Result<i128, AurumError>)
        ensures
            r == self@.oracle_price_read(),
    {
        match self.oracle_price {
            Some(p) => Ok(p),
            None => Err(AurumError::NotInitialized),
        }
    }

    /// The ledger timestamp of the last price update, 0 if there was none.
    pub fn get_oracle_last_update(&self) -> (t: u64)
        ensures
            t == self@.oracle_last_update_read(),
    {
        match self.oracle_last_update {
            Some(t) => t,
            None => 0,
        }
    }

    /// Where the current price came from, "not set" if nothing was recorded.
    pub fn get_oracle_source(&self) -> (s: String)
        ensures
            s@ == self@.oracle_source_read(),
    {
        match &self.oracle_source {
            Some(s) => s.clone(),
            None => String::from_str("not set"),
        }
    }

    /// The gold units that pay `amount_fiat` at the stored price:
    /// `amount_fiat * 10^7 / price`, rounded down.
    pub fn get_payment_preview(&self, amount_fiat: i128) -> (r: Result<i128, AurumError>)
        ensures
            r == self@.payment_quote(amount_fiat),
    {
        if amount_fiat <= 0 {
            return Err(AurumError::FiatNotPositive);
        }
        let price = match self.oracle_price {
            Some(p) => p,
            None => {
                return Err(AurumError::NotInitialized);
            },
        };
        let scaled = match amount_fiat.checked_mul(TOKEN_DECIMALS) {
            Some(s) => s,
            None => {
                return Err(AurumError::Overflow);
            },
        };
        let gold = match scaled.checked_div(price) {
            Some(g) => g,
            None => {
                return Err(AurumError::DivisionByZero);
            },
        };
        if gold <= 0 {
            return Err(AurumError::GoldRoundsToZero);
        }
        Ok(gold)
    }

    /// Pay `amount_fiat` worth of goods from `sender` (whose authorization the
    /// host has checked) to `destination` with GOLD: the accepted payment
    /// moves exactly the previewed gold units, and storage is unchanged.
    pub fn pay_with_rwa(&self, sender: &Address, destination: &Address, amount_fiat: i128) -> (r:
        Result<RwaPayment, AurumError>)
        ensures
            match (r, self@.payment_outcome(amount_fiat)) {
                (Ok(payment), Ok(gold)) => {
                    &&& Some(payment.gold_token@) == self@.gold_token
                    &&& payment.executed.sender@ == sender@
                    &&& payment.executed.destination@ == destination@
                    &&& payment.executed.amount_fiat == amount_fiat
                    &&& payment.executed.gold_used == gold
                },
                (Err(e), Err(expected)) => e == expected,
                _ => false,
            },
    {
        let gold_used = match self.get_payment_preview(amount_fiat) {
            Ok(g) => g,
            Err(e) => {
                return Err(e);
            },
        };
        let gold_token = match &self.gold_token {
            Some(t) => t.clone(),
            None => {
                return Err(AurumError::NotInitialized);
            },
        };
        Ok(
            RwaPayment {
                gold_token,
                executed: PaymentExecuted {
                    sender: sender.clone(),
                    destination: destination.clone(),
                    amount_fiat,
                    gold_used,
                },
            },
        )
    }

    /// The admin address.
    pub fn get_admin(&self) -> (r: Result<Address, AurumError>)
        ensures
            match r {
                Ok(a) => self@.admin == Some(a@),
                Err(e) => self@.admin is None && e == AurumError::NotInitialized,
            },
    {
        match clone_address(&self.admin) {
            Some(a) => Ok(a),
            None => Err(AurumError::NotInitialized),
        }
    }

    /// The address of the GOLD token contract.
    pub fn get_gold_token(&self) -> (r: Result<Address, AurumError>)
        ensures
            match r {
                Ok(a) => self@.gold_token == Some(a@),
                Err(e) => self@.gold_token is None && e == AurumError::NotInitialized,
            },
    {
        match clone_address(&self.gold_token) {
            Some(a) => Ok(a),
            None => Err(AurumError::NotInitialized),
        }
    }
}

} // verus!
