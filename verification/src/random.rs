//! Random choices, drawn with the `rand` crate.
use rand::seq::{IndexedRandom, IteratorRandom};
use rand::Rng;
use vstd::prelude::*;

verus! {

/// A uniformly random position below `n`, drawn with
/// `IteratorRandom::choose` over `0..n`: `None` exactly when `n` is zero.
#[verifier::external_body]
pub(crate) fn random_index(n: usize) -> (r: Option<usize>)
    ensures
        n == 0 <==> r is None,
        r matches Some(i) ==> i < n,
{
    (0..n).choose(&mut rand::rng())
}

/// Each entry of `r` is the entry of `words` at `positions[i]`, and no
/// position is used twice.
pub open spec fn drawn_at(words: Seq<&'static str>, r: Seq<&'static str>, positions: Seq<int>) -> bool {
    &&& positions.len() == r.len()
    &&& forall|i: int|
        0 <= i < r.len() ==> 0 <= #[trigger] positions[i] < words.len() && r[i]
            == words[positions[i]]
    &&& forall|i: int, j: int|
        0 <= i < j < r.len() ==> #[trigger] positions[i] != #[trigger] positions[j]
}

/// `amount` entries of `words` at different positions, in random order,
/// drawn with `IndexedRandom::choose_multiple`, which samples without
/// repetition.
#[verifier::external_body]
pub(crate) fn choose_distinct(words: &[&'static str], amount: usize) -> (r: Vec<&'static str>)
    requires
        amount <= words@.len(),
    ensures
        r@.len() == amount,
        exists|positions: Seq<int>| drawn_at(words@, r@, positions),
{
    words.choose_multiple(&mut rand::rng(), amount).copied().collect()
}

/// `true` with probability one in ten, drawn with `Rng::random_ratio(1, 10)`.
/// Nothing is stated of the outcome.
#[verifier::external_body]
pub(crate) fn one_in_ten() -> (r: bool) {
    rand::rng().random_ratio(1, 10)
}

} // verus!
