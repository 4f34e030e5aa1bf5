//! Questions for HopBot.
use vstd::prelude::*;

use crate::commands::CommandTrait;

verus! {

/// Asks HopBot a question.
pub struct Clippy;

impl CommandTrait for Clippy {
    open spec fn spec_names(&self) -> Seq<Seq<char>> {
        seq!["hopbot"@, "clippy"@]
    }

    open spec fn spec_description(&self) -> Option<Seq<char>> {
        Some("ask HopBot a question"@)
    }

    fn command_names(&self) -> (r: &[&str]) {
        let r: &[&str] = &["hopbot", "clippy"];
        assert(r@.map_values(|s: &str| s@) =~= self.spec_names());
        r
    }

    fn description(&self) -> (r: Option<&'static str>) {
        Some("ask HopBot a question")
    }
}

} // verus!
