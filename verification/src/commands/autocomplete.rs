//! Google search completions.
use vstd::prelude::*;

use crate::commands::CommandTrait;
use crate::rate_limit::RateLimiter;
use crate::random::random_index;

verus! {

/// Completes a query the way Google's search box would.
pub struct Autocomplete;

impl Autocomplete {
    pub fn rate_limit(&self) -> (r: RateLimiter<i64>)
        ensures
            r@.limit == 10,
            r@.duration == 30,
            r@.history == Map::<i64, Seq<i32>>::empty(),
    {
        RateLimiter::new(10, 30)
    }
}

impl CommandTrait for Autocomplete {
    open spec fn spec_names(&self) -> Seq<Seq<char>> {
        seq!["autocomplete"@, "complete"@, "google"@]
    }

    open spec fn spec_description(&self) -> Option<Seq<char>> {
        Some("autocompletes a query with Google"@)
    }

    fn command_names(&self) -> (r: &[&str]) {
        let r: &[&str] = &["autocomplete", "complete", "google"];
        assert(r@.map_values(|s: &str| s@) =~= self.spec_names());
        r
    }

    fn description(&self) -> (r: Option<&'static str>) {
        Some("autocompletes a query with Google")
    }
}

/// The completion at the drawn position; with none there is nothing to
/// reply.
pub fn completion_reply(completions: Vec<String>, drawn: Option<usize>) -> (r: Result<String, String>)
    requires
        drawn matches Some(i) ==> i < completions@.len(),
    ensures
        drawn matches Some(i) ==> r == Ok::<String, String>(completions@[i as int]),
        drawn is None ==> (r matches Err(m) && m@ == "no autocompletions"@),
{
    let mut completions = completions;
    match drawn {
        Some(i) => Ok(completions.swap_remove(i)),
        None => Err(String::from_str("no autocompletions")),
    }
}

/// One of the completions, picked at random; with none there is nothing to
/// reply.
pub fn pick_completion(completions: Vec<String>) -> (r: Result<String, String>)
    ensures
        completions@.len() == 0 ==> (r matches Err(m) && m@ == "no autocompletions"@),
        completions@.len() > 0 ==> (r matches Ok(c) && exists|i: int|
            0 <= i < completions@.len() && completions@[i] == c),
{
    let drawn = random_index(completions.len());
    completion_reply(completions, drawn)
}

} // verus!
