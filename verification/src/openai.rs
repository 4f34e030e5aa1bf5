//! OpenAI's code completion.
use vstd::prelude::*;

pub mod api;

verus! {

} // verus!
