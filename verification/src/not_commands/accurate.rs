//! Answering lucky dice throws.
use vstd::prelude::*;

use crate::commands::dice_reply::{dice_success, spec_dice_success};

verus! {

/// Whether a dice throw is answered with "accurate".
pub fn filter_dice(emoji: &str, value: i32) -> (r: bool)
    ensures
        r == spec_dice_success(emoji@, value),
{
    dice_success(emoji, value)
}

/// The answer to a dice throw: "accurate" for a success, nothing otherwise.
pub fn accurate_reply(emoji: &str, value: i32) -> (r: Option<&'static str>)
    ensures
        spec_dice_success(emoji@, value) ==> (r matches Some(t) && t@ == "accurate"@),
        !spec_dice_success(emoji@, value) ==> r is None,
{
    if filter_dice(emoji, value) {
        Some("accurate")
    } else {
        None
    }
}

} // verus!
