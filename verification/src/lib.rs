//! Payment logic of the AURUM gold-backed payment contract and of the price
//! oracle contract, stated over plain models of their instance storage.

pub mod address;
pub mod aurum;
pub mod laws;
pub mod oracle;
