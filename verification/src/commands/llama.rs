//! Questions for Llama 3 on Groq.
use vstd::prelude::*;

use crate::commands::CommandTrait;
use crate::rate_limit::RateLimiter;

verus! {

/// Asks Llama 3 70B, served by Groq.
pub struct Llama;

impl Llama {
    pub fn rate_limit(&self) -> (r: RateLimiter<i64>)
        ensures
            r@.limit == 3,
            r@.duration == 60,
            r@.history == Map::<i64, Seq<i32>>::empty(),
    {
        RateLimiter::new(3, 60)
    }
}

impl CommandTrait for Llama {
    open spec fn spec_names(&self) -> Seq<Seq<char>> {
        seq!["llama3"@, "llama"@, "groq"@]
    }

    open spec fn spec_description(&self) -> Option<Seq<char>> {
        Some("ask Llama 3 70B"@)
    }

    fn command_names(&self) -> (r: &[&str]) {
        let r: &[&str] = &["llama3", "llama", "groq"];
        assert(r@.map_values(|s: &str| s@) =~= self.spec_names());
        r
    }

    fn description(&self) -> (r: Option<&'static str>) {
        Some("ask Llama 3 70B")
    }
}

} // verus!
