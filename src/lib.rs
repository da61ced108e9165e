use vstd::prelude::*;

pub mod ledger;
pub mod lifecycle;
pub mod market;
pub mod order;
pub mod registry;
pub mod types;

verus! {

} // verus!
