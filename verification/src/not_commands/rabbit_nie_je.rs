//! Removing messages forwarded from one channel.
use vstd::prelude::*;


verus! {

/// The channel whose forwarded messages are deleted.
pub const RABBIT_JE: i64 = -1001722954366;

/// Whether a message forwarded from this chat is deleted.
pub fn should_delete(forwarded_from_chat: Option<i64>) -> (r: bool)
    ensures
        r == (forwarded_from_chat == Some(RABBIT_JE)),
{
    match forwarded_from_chat {
        Some(id) => id == RABBIT_JE,
        None => false,
    }
}

/// The log line's start: whether deleting worked.
pub fn outcome_word(deleted: bool) -> (r: &'static str)
    ensures
        deleted ==> r@ == "Deleted"@,
        !deleted ==> r@ == "Couldn't delete"@,
{
    if deleted {
        "Deleted"
    } else {
        "Couldn't delete"
    }
}

} // verus!
