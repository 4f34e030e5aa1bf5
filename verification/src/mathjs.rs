//! math.js, the calculator the inline mode asks.
use vstd::prelude::*;

pub mod api;
pub mod models;

verus! {

} // verus!
