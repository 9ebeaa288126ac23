//! The price oracle contract: an admin publishes prices for pairs of asset
//! symbols (base, quote), and anyone reads them back.
use vstd::prelude::*;

use crate::address::{address_view, Address};

verus! {

/// Why a call on the oracle is refused.
#[derive(Debug, Clone, Copy, PartialEq, Eq, Structural)]
pub enum OracleError {
    /// `initialize` on an oracle that already has an admin.
    AlreadyInitialized,
    /// `set_price` before `initialize`.
    NotInitialized,
    /// `set_price` with a price that is zero or negative.
    PriceNotPositive,
    /// `get_price` for a pair that has no price.
    PriceNotFound,
}

/// The text with which a refused call aborts.
pub open spec fn oracle_error_text(e: OracleError) -> Seq<char> {
    match e {
        OracleError::AlreadyInitialized => "Already initialized"@,
        OracleError::NotInitialized => "not initialized"@,
        OracleError::PriceNotPositive => "Price must be positive"@,
        OracleError::PriceNotFound => "Price not found"@,
    }
}

impl OracleError {
    /// The text with which the refused call aborts.
    pub fn message(&self) -> (s: &'static str)
        ensures
            s@ == oracle_error_text(*self),
    {
        match self {
            OracleError::AlreadyInitialized => "Already initialized",
            OracleError::NotInitialized => "not initialized",
            OracleError::PriceNotPositive => "Price must be positive",
            OracleError::PriceNotFound => "Price not found",
        }
    }
}

/// A pair of asset symbols: (base, quote).
pub type PairView = (Seq<char>, Seq<char>);

/// What the oracle's instance storage holds.
pub struct OracleStorage {
    pub admin: Option<Seq<char>>,
    /// Price of one `base` in `quote`, 7 decimals.
    pub prices: Map<PairView, i128>,
}

impl OracleStorage {
    /// What `initialize` leaves in storage, or why it refuses.
    pub open spec fn initialize_outcome(self, admin: Seq<char>) -> Result<OracleStorage, OracleError> {
        if self.admin is Some {
            Err(OracleError::AlreadyInitialized)
        } else {
            Ok(OracleStorage { admin: Some(admin), ..self })
        }
    }

    /// What `set_price` leaves in storage, or why it refuses.
    pub open spec fn set_price_outcome(self, base: Seq<char>, quote: Seq<char>, price: i128) -> Result<
        OracleStorage,
        OracleError,
    > {
        if self.admin is None {
            Err(OracleError::NotInitialized)
        } else if price <= 0 {
            Err(OracleError::PriceNotPositive)
        } else {
            Ok(OracleStorage { prices: self.prices.insert((base, quote), price), ..self })
        }
    }

    /// Every stored price is positive.
    pub open spec fn prices_positive(self) -> bool {
        forall|pair: PairView| #[trigger] self.prices.contains_key(pair) ==> self.prices[pair] > 0
    }

    /// Whose authorization `set_price` demands: the stored admin's, or the
    /// refusal that comes first when there is none.
    pub open spec fn set_price_authorizer(self) -> Result<Seq<char>, OracleError> {
        match self.admin {
            Some(admin) => Ok(admin),
            None => Err(OracleError::NotInitialized),
        }
    }

    /// What `get_price` returns.
    pub open spec fn price_read(self, base: Seq<char>, quote: Seq<char>) -> Result<i128, OracleError> {
        if self.prices.contains_key((base, quote)) {
            Ok(self.prices[(base, quote)])
        } else {
            Err(OracleError::PriceNotFound)
        }
    }
}

struct PriceEntry {
    base: String,
    quote: String,
    price: i128,
}

spec fn entry_pair(e: PriceEntry) -> PairView {
    (e.base@, e.quote@)
}

/// The oracle contract, held as its admin and its stored prices.
pub struct OracleContract {
    admin: Option<Address>,
    prices: Vec<PriceEntry>,
}

/// Index of the entry for `pair`; `entries` holds each pair at most once.
spec fn index_of(entries: Seq<PriceEntry>, pair: PairView) -> int {
    choose|i: int| 0 <= i < entries.len() && #[trigger] entry_pair(entries[i]) == pair
}

spec fn holds_pair(entries: Seq<PriceEntry>, pair: PairView) -> bool {
    exists|i: int| 0 <= i < entries.len() && #[trigger] entry_pair(entries[i]) == pair
}

spec fn entries_map(entries: Seq<PriceEntry>) -> Map<PairView, i128> {
    Map::new(|pair: PairView| holds_pair(entries, pair), |pair: PairView| entries[index_of(entries, pair)].price)
}

spec fn pairs_unique(entries: Seq<PriceEntry>) -> bool {
    forall|i: int, j: int|
        0 <= i < entries.len() && 0 <= j < entries.len() && i != j ==> entry_pair(
            #[trigger] entries[i],
        ) != entry_pair(#[trigger] entries[j])
}

proof fn lemma_entry_in_map(entries: Seq<PriceEntry>, i: int)
    requires
        pairs_unique(entries),
        0 <= i < entries.len(),
    ensures
        entries_map(entries).contains_key(entry_pair(entries[i])),
        entries_map(entries)[entry_pair(entries[i])] == entries[i].price,
{
    let pair = entry_pair(entries[i]);
    assert(holds_pair(entries, pair));
    let j = index_of(entries, pair);
    assert(entry_pair(entries[j]) == pair);
}

proof fn lemma_map_after_update(entries: Seq<PriceEntry>, i: int, e: PriceEntry)
    requires
        pairs_unique(entries),
        0 <= i < entries.len(),
        entry_pair(e) == entry_pair(entries[i]),
    ensures
        pairs_unique(entries.update(i, e)),
        entries_map(entries.update(i, e)) =~= entries_map(entries).insert(entry_pair(e), e.price),
{
    let after = entries.update(i, e);
    assert forall|a: int, b: int|
        0 <= a < after.len() && 0 <= b < after.len() && a != b implies entry_pair(#[trigger] after[a])
        != entry_pair(#[trigger] after[b]) by {
        assert(entry_pair(after[a]) == entry_pair(entries[a]));
        assert(entry_pair(after[b]) == entry_pair(entries[b]));
    }
    let m = entries_map(entries).insert(entry_pair(e), e.price);
    assert forall|pair: PairView| #[trigger] entries_map(after).contains_key(pair) <==> m.contains_key(pair) by {
        if holds_pair(after, pair) {
            let j = choose|j: int| 0 <= j < after.len() && #[trigger] entry_pair(after[j]) == pair;
            assert(entry_pair(entries[j]) == pair);
        }
        if holds_pair(entries, pair) {
            let j = choose|j: int| 0 <= j < entries.len() && #[trigger] entry_pair(entries[j]) == pair;
            assert(entry_pair(after[j]) == pair);
        }
        if pair == entry_pair(e) {
            assert(entry_pair(after[i]) == pair);
        }
    }
    assert forall|pair: PairView| #[trigger] entries_map(after).contains_key(pair) implies entries_map(
        after,
    )[pair] == m[pair] by {
        let j = index_of(after, pair);
        assert(entry_pair(after[j]) == pair);
        lemma_entry_in_map(after, j);
        if j == i {
        } else {
            assert(entry_pair(entries[j]) == pair);
            lemma_entry_in_map(entries, j);
            assert(pair != entry_pair(e));
        }
    }
}

proof fn lemma_map_after_push(entries: Seq<PriceEntry>, e: PriceEntry)
    requires
        pairs_unique(entries),
        !entries_map(entries).contains_key(entry_pair(e)),
    ensures
        pairs_unique(entries.push(e)),
        entries_map(entries.push(e)) =~= entries_map(entries).insert(entry_pair(e), e.price),
{
    let after = entries.push(e);
    let n = entries.len() as int;
    assert forall|a: int, b: int|
        0 <= a < after.len() && 0 <= b < after.len() && a != b implies entry_pair(#[trigger] after[a])
        != entry_pair(#[trigger] after[b]) by {
        if a == n {
            assert(entry_pair(entries[b]) == entry_pair(after[b]));
            if entry_pair(entries[b]) == entry_pair(e) {
                assert(holds_pair(entries, entry_pair(e)));
            }
        } else if b == n {
            assert(entry_pair(entries[a]) == entry_pair(after[a]));
            if entry_pair(entries[a]) == entry_pair(e) {
                assert(holds_pair(entries, entry_pair(e)));
            }
        } else {
            assert(entry_pair(after[a]) == entry_pair(entries[a]));
            assert(entry_pair(after[b]) == entry_pair(entries[b]));
        }
    }
    let m = entries_map(entries).insert(entry_pair(e), e.price);
    assert forall|pair: PairView| #[trigger] entries_map(after).contains_key(pair) <==> m.contains_key(pair) by {
        if holds_pair(after, pair) {
            let j = choose|j: int| 0 <= j < after.len() && #[trigger] entry_pair(after[j]) == pair;
            if j < n {
                assert(entry_pair(entries[j]) == pair);
            }
        }
        if holds_pair(entries, pair) {
            let j = choose|j: int| 0 <= j < entries.len() && #[trigger] entry_pair(entries[j]) == pair;
            assert(entry_pair(after[j]) == pair);
        }
        if pair == entry_pair(e) {
            assert(entry_pair(after[n]) == pair);
        }
    }
    assert forall|pair: PairView| #[trigger] entries_map(after).contains_key(pair) implies entries_map(
        after,
    )[pair] == m[pair] by {
        let j = index_of(after, pair);
        assert(entry_pair(after[j]) == pair);
        lemma_entry_in_map(after, j);
        if j < n {
            assert(entry_pair(entries[j]) == pair);
            lemma_entry_in_map(entries, j);
            assert(pair != entry_pair(e));
        }
    }
}

impl View for OracleContract {
    type V = OracleStorage;

    closed spec fn view(&self) -> OracleStorage {
        OracleStorage { admin: address_view(self.admin), prices: entries_map(self.prices@) }
    }
}

impl OracleContract {
    /// The stored prices hold each pair at most once.
    pub closed spec fn wf(&self) -> bool {
        pairs_unique(self.prices@)
    }

    /// A freshly deployed oracle: no admin, no prices.
    pub fn new() -> (c: OracleContract)
        ensures
            c.wf(),
            c@.admin is None,
            c@.prices == Map::<PairView, i128>::empty(),
    {
        let c = OracleContract { admin: None, prices: Vec::new() };
        assert(entries_map(c.prices@) =~= Map::<PairView, i128>::empty());
        c
    }

    /// An oracle whose storage holds `admin` and no price yet; stored prices
    /// are added with `restore_price`.
    pub fn from_storage(admin: Option<Address>) -> (c: OracleContract)
        ensures
            c.wf(),
            c@.admin == address_view(admin),
            c@.prices == Map::<PairView, i128>::empty(),
    {
        let c = OracleContract { admin, prices: Vec::new() };
        assert(entries_map(c.prices@) =~= Map::<PairView, i128>::empty());
        c
    }

    /// Index of the entry for (base, quote), if there is one.
    fn find(&self, base: &String, quote: &String) -> (r: Option<usize>)
        requires
            self.wf(),
        ensures
            match r {
                Some(i) => i < self.prices@.len() && entry_pair(self.prices@[i as int]) == (base@, quote@),
                None => !self@.prices.contains_key((base@, quote@)),
            },
    {
        let mut i: usize = 0;
        while i < self.prices.len()
            invariant
                i <= self.prices@.len(),
                forall|j: int| 0 <= j < i ==> entry_pair(#[trigger] self.prices@[j]) != (base@, quote@),
            decreases self.prices@.len() - i,
        {
            let e = &self.prices[i];
            if e.base == *base && e.quote == *quote {
                return Some(i);
            }
            i = i + 1;
        }
        None
    }

    /// Add a price that storage already holds for (base, quote).
    pub fn restore_price(&mut self, base: String, quote: String, price: i128)
        requires
            old(self).wf(),
        ensures
            final(self).wf(),
            final(self)@.admin == old(self)@.admin,
            final(self)@.prices == old(self)@.prices.insert((base@, quote@), price),
    {
        let ghost old_entries = self.prices@;
        match self.find(&base, &quote) {
            Some(i) => {
                let e = PriceEntry { base, quote, price };
                proof {
                    lemma_map_after_update(old_entries, i as int, e);
                }
                self.prices.set(i, e);
            },
            None => {
                let e = PriceEntry { base, quote, price };
                proof {
                    lemma_map_after_push(old_entries, e);
                }
                self.prices.push(e);
            },
        }
    }

    /// The stored admin, if there is one yet.
    pub fn admin(&self) -> (r: Option<Address>)
        ensures
            address_view(r) == self@.admin,
    {
        match &self.admin {
            Some(a) => Some(a.clone()),
            None => None,
        }
    }

    /// The address whose authorization `set_price` demands before it stores a
    /// price: the stored admin. Before initialization `set_price` is refused
    /// first, as not initialized.
    pub fn set_price_authorizer(&self) -> (r: Result<Address, OracleError>)
        ensures
            match (r, self@.set_price_authorizer()) {
                (Ok(a), Ok(admin)) => a@ == admin,
                (Err(e), Err(expected)) => e == expected,
                _ => false,
            },
    {
        match &self.admin {
            Some(a) => Ok(a.clone()),
            None => Err(OracleError::NotInitialized),
        }
    }

    /// Initialize the oracle with its admin; refused, with nothing changed, if
    /// it already has one.
    pub fn initialize(&mut self, admin: Address) -> (r: Result<(), OracleError>)
        requires
            old(self).wf(),
        ensures
            final(self).wf(),
            match (r, old(self)@.initialize_outcome(admin@)) {
                (Ok(()), Ok(after)) => final(self)@ == after,
                (Err(e), Err(expected)) => e == expected && final(self)@ == old(self)@,
                _ => false,
            },
    {
        if self.admin.is_some() {
            return Err(OracleError::AlreadyInitialized);
        }
        self.admin = Some(admin);
        Ok(())
    }

    /// Set the price of one `base` in `quote` (7 decimals), once the host has
    /// checked the authorization of `set_price_authorizer()`, the stored admin. Refused before
    /// initialization and for a price that is not positive; a refused call
    /// changes nothing.
    pub fn set_price(&mut self, base: String, quote: String, price: i128) -> (r: Result<(), OracleError>)
        requires
            old(self).wf(),
        ensures
            final(self).wf(),
            match (r, old(self)@.set_price_outcome(base@, quote@, price)) {
                (Ok(()), Ok(after)) => final(self)@ == after,
                (Err(e), Err(expected)) => e == expected && final(self)@ == old(self)@,
                _ => false,
            },
    {
        if self.admin.is_none() {
            return Err(OracleError::NotInitialized);
        }
        if price <= 0 {
            return Err(OracleError::PriceNotPositive);
        }
        self.restore_price(base, quote, price);
        Ok(())
    }

    /// The latest price for (base, quote).
    pub fn get_price(&self, base: &String, quote: &String) -> (r: Result<i128, OracleError>)
        requires
            self.wf(),
        ensures
            r == self@.price_read(base@, quote@),
    {
        match self.find(base, quote) {
            Some(i) => {
                proof {
                    lemma_entry_in_map(self.prices@, i as int);
                }
                Ok(self.prices[i].price)
            },
            None => Err(OracleError::PriceNotFound),
        }
    }
}

} // verus!
