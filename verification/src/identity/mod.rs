//! Decentralised identifiers: identity ownership, typed delegates that expire,
//! and attributes that can be set directly or by signed transactions.
pub mod types;
pub mod pallet;
pub mod calls;
pub mod laws;
