//! Jokes from StartIT.
use vstd::prelude::*;

use crate::commands::CommandTrait;
use crate::text::{push_str, string_from_chars};

verus! {

/// Tells a joke from the StartIT joke service.
pub struct StartitJoke;

impl CommandTrait for StartitJoke {
    open spec fn spec_names(&self) -> Seq<Seq<char>> {
        seq!["startit_joke"@, "startit"@]
    }

    open spec fn spec_description(&self) -> Option<Seq<char>> {
        None
    }

    fn command_names(&self) -> (r: &[&str]) {
        let r: &[&str] = &["startit_joke", "startit"];
        assert(r@.map_values(|s: &str| s@) =~= self.spec_names());
        r
    }

    fn description(&self) -> (r: Option<&'static str>) {
        None
    }
}

/// The joke, as Kacper Podpora tells it.
pub fn joke_text(joke: &str) -> (r: String)
    ensures
        r@ == "Kacper Podpora mówi: "@ + joke@,
{
    let mut out: Vec<char> = Vec::new();
    push_str(&mut out, "Kacper Podpora mówi: ");
    push_str(&mut out, joke);
    string_from_chars(out.as_slice())
}

} // verus!
