//! What the bot does with messages that are not commands.
use vstd::prelude::*;

pub mod accurate;
pub mod auto_reply;
pub mod calculate_inline;
pub mod rabbit_nie_je;

verus! {

} // verus!
