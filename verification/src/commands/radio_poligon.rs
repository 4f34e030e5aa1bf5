//! What Radio Poligon is playing.
use vstd::prelude::*;

use crate::commands::CommandTrait;

verus! {

/// Shows what Radio Poligon is playing.
pub struct RadioPoligon;

impl CommandTrait for RadioPoligon {
    open spec fn spec_names(&self) -> Seq<Seq<char>> {
        seq!["radio_poligon"@, "poligon"@]
    }

    open spec fn spec_description(&self) -> Option<Seq<char>> {
        None
    }

    fn command_names(&self) -> (r: &[&str]) {
        let r: &[&str] = &["radio_poligon", "poligon"];
        assert(r@.map_values(|s: &str| s@) =~= self.spec_names());
        r
    }

    fn description(&self) -> (r: Option<&'static str>) {
        None
    }
}

} // verus!
