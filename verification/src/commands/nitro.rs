//! Discord Nitro promotional links.
use vstd::prelude::*;

use crate::commands::CommandTrait;

verus! {

/// Generates a Discord Nitro promotional link.
pub struct Nitro;

impl CommandTrait for Nitro {
    open spec fn spec_names(&self) -> Seq<Seq<char>> {
        seq!["nitro"@]
    }

    open spec fn spec_description(&self) -> Option<Seq<char>> {
        Some("Generates a Discord Nitro promotional link"@)
    }

    fn command_names(&self) -> (r: &[&str]) {
        let r: &[&str] = &["nitro"];
        assert(r@.map_values(|s: &str| s@) =~= self.spec_names());
        r
    }

    fn description(&self) -> (r: Option<&'static str>) {
        Some("Generates a Discord Nitro promotional link")
    }
}

} // verus!
