//! Subscription-based recurring payments.
use vstd::prelude::*;

pub mod types;
pub mod state;
pub mod calls;

verus! {

} // verus!
pub mod laws;
