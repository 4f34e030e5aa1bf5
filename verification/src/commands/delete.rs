//! Deleting messages on the owner's request.
use vstd::prelude::*;

use crate::commands::CommandTrait;

verus! {

/// The only user whose messages the command acts on.
pub const OWNER_ID: i64 = 807128293;

/// Deletes the message that the owner replies to.
pub struct Delete;

impl CommandTrait for Delete {
    open spec fn spec_names(&self) -> Seq<Seq<char>> {
        seq!["delete"@, "del"@]
    }

    open spec fn spec_description(&self) -> Option<Seq<char>> {
        None
    }

    fn command_names(&self) -> (r: &[&str]) {
        let r: &[&str] = &["delete", "del"];
        assert(r@.map_values(|s: &str| s@) =~= self.spec_names());
        r
    }

    fn description(&self) -> (r: Option<&'static str>) {
        None
    }
}

/// The message to delete: the one replied to, when the owner asks.
pub fn message_to_delete(user_id: i64, replied_message_id: Option<i64>) -> (r: Option<i64>)
    ensures
        r == (if user_id == OWNER_ID {
            replied_message_id
        } else {
            None
        }),
{
    if user_id != OWNER_ID {
        return None;
    }
    replied_message_id
}

} // verus!
