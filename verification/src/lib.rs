//! Verified logic of the Gamma Finance runtime pallets, proof-of-work
//! sealing and RPC helpers.
//!
//! Each pallet's storage is held as plain values in a state struct, and each
//! dispatchable is a method on that struct whose contract states the resulting
//! storage, events and dispatch result.
use vstd::prelude::*;

pub mod origin;
pub mod bytemap;
pub mod sorted;
pub mod scale;
pub mod hashing;
pub mod recurring;
pub mod fixed_points;
pub mod compound_interest;
pub mod identity;
pub mod membership;
pub mod authenticate;
pub mod products;
pub mod prices;
pub mod ratings;
pub mod marketplace;
pub mod pow;
pub mod rpc;

verus! {

} // verus!
