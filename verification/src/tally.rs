//! Counting how often each name occurs, with the `counter` crate.
use counter::Counter;
use vstd::multiset::Multiset;
use vstd::prelude::*;

verus! {

#[verifier::external_type_specification]
#[verifier::external_body]
#[verifier::reject_recursive_types(T)]
#[verifier::reject_recursive_types(N)]
#[verifier::reject_recursive_types(S)]
pub struct ExCounter<T, N, S>(Counter<T, N, S>);

/// The names of a list, each as often as it occurs.
pub open spec fn name_multiset(names: Seq<String>) -> Multiset<Seq<char>> {
    names.map_values(|s: String| s@).to_multiset()
}

/// The names a counter holds, each as often as its stored count says.
pub uninterp spec fn tally(c: Counter<String>) -> Multiset<Seq<char>>;

/// The names a counter holds as keys, whatever count is stored for them (a
/// counter may hold a key whose count is zero).
pub uninterp spec fn counter_keys(c: Counter<String>) -> Set<Seq<char>>;

/// Collects `names` into a `counter::Counter` (its `FromIterator`): each name
/// is counted once per occurrence, and a name becomes a key exactly when it
/// occurs, so every key holds a count of at least one.
#[verifier::external_body]
fn count_names(names: &Vec<String>) -> (c: Counter<String>)
    ensures
        tally(c) == name_multiset(names@),
        forall|k: Seq<char>| #[trigger] counter_keys(c).contains(k) <==> tally(c).count(k) > 0,
{
    names.iter().cloned().collect()
}

/// The (name, count) pairs of a counter, ordered from the most common:
/// `Counter::most_common` lists every key once with its stored count (zero
/// included) and sorts by count, highest first; among equal counts the order
/// is left open.
#[verifier::external_body]
fn most_common(c: &Counter<String>) -> (r: Vec<(String, usize)>)
    ensures
        forall|i: int|
            0 <= i < r@.len() ==> counter_keys(*c).contains(r@[i].0@) && r@[i].1 == tally(
                *c,
            ).count(r@[i].0@),
        forall|i: int, j: int| 0 <= i < j < r@.len() ==> r@[i].0@ != r@[j].0@,
        forall|k: Seq<char>|
            #[trigger] counter_keys(*c).contains(k) ==> exists|i: int|
                0 <= i < r@.len() && r@[i].0@ == k,
        forall|i: int, j: int| 0 <= i <= j < r@.len() ==> r@[j].1 <= r@[i].1,
{
    c.most_common()
}

/// Each distinct name with the number of times it occurs, the most common
/// first.
pub fn name_counts(names: &Vec<String>) -> (r: Vec<(String, usize)>)
    ensures
        forall|i: int|
            0 <= i < r@.len() ==> r@[i].1 > 0 && r@[i].1 == name_multiset(names@).count(r@[i].0@),
        forall|i: int, j: int| 0 <= i < j < r@.len() ==> r@[i].0@ != r@[j].0@,
        forall|k: Seq<char>|
            #[trigger] name_multiset(names@).count(k) > 0 ==> exists|i: int|
                0 <= i < r@.len() && r@[i].0@ == k,
        forall|i: int, j: int| 0 <= i <= j < r@.len() ==> r@[j].1 <= r@[i].1,
{
    let c = count_names(names);
    let r = most_common(&c);
    assert forall|k: Seq<char>| #[trigger] name_multiset(names@).count(k) > 0 implies exists|i: int|
        0 <= i < r@.len() && r@[i].0@ == k by {
        assert(counter_keys(c).contains(k));
    }
    r
}

} // verus!
