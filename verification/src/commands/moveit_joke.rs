//! Jokes from MoveIt.
use vstd::prelude::*;

use crate::commands::CommandTrait;
use crate::text::{decimal, push_decimal, push_str, string_from_chars};

verus! {

/// Tells a joke from the MoveIt joke service.
pub struct MoveitJoke;

impl CommandTrait for MoveitJoke {
    open spec fn spec_names(&self) -> Seq<Seq<char>> {
        seq!["moveit_joke"@, "moveit"@, "muwit"@]
    }

    open spec fn spec_description(&self) -> Option<Seq<char>> {
        None
    }

    fn command_names(&self) -> (r: &[&str]) {
        let r: &[&str] = &["moveit_joke", "moveit", "muwit"];
        assert(r@.map_values(|s: &str| s@) =~= self.spec_names());
        r
    }

    fn description(&self) -> (r: Option<&'static str>) {
        None
    }
}

/// A joke with its number in brackets before it.
pub fn joke_text(id: u64, joke: &str) -> (r: String)
    ensures
        r@ == "["@ + decimal(id as nat) + "] "@ + joke@,
{
    let mut out: Vec<char> = Vec::new();
    push_str(&mut out, "[");
    push_decimal(&mut out, id as u128);
    push_str(&mut out, "] ");
    push_str(&mut out, joke);
    string_from_chars(out.as_slice())
}

} // verus!
