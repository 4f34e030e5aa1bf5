//! Generic kebab shop names.
use vstd::prelude::*;

use crate::commands::CommandTrait;
use crate::rate_limit::RateLimiter;
use crate::random::{choose_distinct, drawn_at};
use crate::text::{push_str, string_from_chars};

verus! {

/// Names a kebab shop.
pub struct Kebab;

impl Kebab {
    pub fn rate_limit(&self) -> (r: RateLimiter<i64>)
        ensures
            r@.limit == 10,
            r@.duration == 30,
            r@.history == Map::<i64, Seq<i32>>::empty(),
    {
        RateLimiter::new(10, 30)
    }
}

impl CommandTrait for Kebab {
    open spec fn spec_names(&self) -> Seq<Seq<char>> {
        seq!["kebab"@]
    }

    open spec fn spec_description(&self) -> Option<Seq<char>> {
        Some("generates a generic kebab shop name"@)
    }

    fn command_names(&self) -> (r: &[&str]) {
        let r: &[&str] = &["kebab"];
        assert(r@.map_values(|s: &str| s@) =~= self.spec_names());
        r
    }

    fn description(&self) -> (r: Option<&'static str>) {
        Some("generates a generic kebab shop name")
    }
}

/// The words that shop names are made of.
pub open spec fn kebab_words() -> Seq<Seq<char>> {
    seq!["kebab"@, "king"@, "house"@, "super"@, "arab"@, "hot"@, "sauce"@]
}

/// The words that shop names are made of.
pub fn words() -> (r: &'static [&'static str])
    ensures
        r@.map_values(|s: &str| s@) == kebab_words(),
{
    let r: &'static [&'static str] = &["kebab", "king", "house", "super", "arab", "hot", "sauce"];
    assert(r@.map_values(|s: &str| s@) =~= kebab_words());
    r
}

/// A shop name of two words.
pub fn shop_name(first: &str, second: &str) -> (r: String)
    ensures
        r@ == first@ + " "@ + second@,
{
    let mut out: Vec<char> = Vec::new();
    push_str(&mut out, first);
    push_str(&mut out, " ");
    push_str(&mut out, second);
    string_from_chars(out.as_slice())
}

/// Two different words of the list, joined by a space.
pub fn random_name() -> (r: String)
    ensures
        exists|i: int, j: int|
            0 <= i < kebab_words().len() && 0 <= j < kebab_words().len() && i != j && r@
                == kebab_words()[i] + " "@ + kebab_words()[j],
{
    let list = words();
    assert(list@.len() == list@.map_values(|s: &str| s@).len());
    let picked = choose_distinct(list, 2);
    proof {
        let positions = choose|positions: Seq<int>| drawn_at(list@, picked@, positions);
        assert(0 <= positions[0] < list@.len() && picked@[0] == list@[positions[0]]);
        assert(0 <= positions[1] < list@.len() && picked@[1] == list@[positions[1]]);
        assert(positions[0] != positions[1]);
        assert(list@.map_values(|s: &str| s@)[positions[0]] == list@[positions[0]]@);
        assert(list@.map_values(|s: &str| s@)[positions[1]] == list@[positions[1]]@);
    }
    shop_name(picked[0], picked[1])
}

} // verus!
