# aurum

Payment logic of AURUM, a Soroban contract that lets a user pay a fiat
amount with fractions of a gold-backed token (GOLD, 7 decimals) at a price
kept by an admin-fed oracle, and of a small price-oracle contract.

- `src/` is the library, verified with Verus. Each contract is modelled by
  the entries of its instance storage (`aurum::AurumContract`,
  `oracle::OracleContract`); every entry point is a method that decides,
  from that storage and the call's arguments, the new storage, the event to
  publish (and, for a payment, the transfer to make) or why the call is
  refused. `laws.rs` proves the properties that span several calls.
- `app/` holds the Soroban contracts themselves: it loads and stores the
  instance storage, checks authorization, publishes the events and moves
  the GOLD through the token contract, and leaves every decision to `src/`.
- `tests/` runs the library, against a real Stellar asset contract where a
  payment's effect on balances is checked.
