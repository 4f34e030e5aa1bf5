//! Per-key sliding-window rate limiting.
//!
//! Each key keeps the times of its accepted requests, newest first. A request
//! is refused while the `limit`-th most recent accepted request lies less than
//! `duration` seconds in the past; the answer is then the remaining cooldown.
use std::collections::HashMap;
use vstd::prelude::*;

verus! {

broadcast use vstd::std_specs::hash::group_hash_axioms;

/// The abstract state of a rate limiter.
pub struct RateLimiterView {
    pub limit: nat,
    pub duration: int,
    /// For each key, the times of its accepted requests, newest first.
    pub history: Map<i64, Seq<i32>>,
}

#[verifier::reject_recursive_types(K)]
pub struct RateLimiter<K> {
    limit: usize,
    duration: i32,
    history: HashMap<K, Vec<i32>>,
}

impl View for RateLimiter<i64> {
    type V = RateLimiterView;

    closed spec fn view(&self) -> RateLimiterView {
        RateLimiterView {
            limit: self.limit as nat,
            duration: self.duration as int,
            history: self.history@.map_values(|v: Vec<i32>| v@),
        }
    }
}

/// The cooldown that a request at `time` is answered with, given the key's
/// accepted times `h` (newest first): only once `limit` requests are recorded,
/// and only while the `limit`-th most recent one is less than `duration` ago.
pub open spec fn spec_cooldown(h: Seq<i32>, limit: nat, duration: int, time: int) -> Option<int> {
    if h.len() >= limit && limit > 0 {
        let last = h[limit - 1] as int;
        if time - last < duration {
            Some(duration - (time - last))
        } else {
            None
        }
    } else {
        None
    }
}

/// The accepted times kept for a key after a request at `time`: the history is
/// cut to its `limit` newest entries, and an accepted request is put in front.
pub open spec fn spec_next_history(h: Seq<i32>, limit: nat, duration: int, time: i32) -> Seq<i32> {
    let kept = if h.len() >= limit {
        h.take(limit as int)
    } else {
        h
    };
    if spec_cooldown(h, limit, duration, time as int) is None {
        seq![time] + kept
    } else {
        kept
    }
}

/// What a request answers and leaves behind for its key: a key seen for the
/// first time is accepted and gets the history `[time]`.
pub open spec fn spec_update(entry: Option<Seq<i32>>, limit: nat, duration: int, time: i32) -> (
    Option<int>,
    Seq<i32>,
) {
    match entry {
        None => (None, seq![time]),
        Some(h) => (
            spec_cooldown(h, limit, duration, time as int),
            spec_next_history(h, limit, duration, time),
        ),
    }
}

/// The inputs on which a request stays within `i32` arithmetic and does not
/// look at an emptied history: a known key needs a positive limit, and the
/// time differences that are computed must fit in an `i32`.
pub open spec fn update_defined(entry: Option<Seq<i32>>, limit: nat, duration: int, time: int) -> bool {
    match entry {
        None => true,
        Some(h) => {
            &&& limit > 0
            &&& h.len() >= limit ==> {
                let diff = time - h[limit - 1] as int;
                &&& i32::MIN <= diff <= i32::MAX
                &&& diff < duration ==> i32::MIN <= duration - diff <= i32::MAX
            }
        },
    }
}

pub open spec fn entry_of(history: Map<i64, Seq<i32>>, key: i64) -> Option<Seq<i32>> {
    if history.contains_key(key) {
        Some(history[key])
    } else {
        None
    }
}


/// The accepted times are ordered from the newest to the oldest.
pub open spec fn newest_first(h: Seq<i32>) -> bool {
    forall|i: int, j: int| 0 <= i <= j < h.len() ==> h[j] <= h[i]
}

/// Every accepted time lies at least `duration` after the one recorded `limit`
/// places before it: no window shorter than `duration` holds more than `limit`
/// accepted requests.
pub open spec fn spaced(h: Seq<i32>, limit: nat, duration: int) -> bool {
    forall|i: int| 0 <= i && i + limit < h.len() ==> #[trigger] h[i] - h[i + limit] >= duration
}

/// A key that was never seen before is accepted and its history starts with
/// the request's time.
pub proof fn lemma_first_request_accepted(limit: nat, duration: int, time: i32)
    ensures
        spec_update(None, limit, duration, time).0 is None,
        spec_update(None, limit, duration, time).1 == seq![time],
{
}

/// A refused request is not recorded: the history only loses its entries past
/// the `limit` newest ones.
pub proof fn lemma_refused_request_not_recorded(h: Seq<i32>, limit: nat, duration: int, time: i32)
    requires
        spec_update(Some(h), limit, duration, time).0 is Some,
    ensures
        spec_update(Some(h), limit, duration, time).1 == h.take(limit as int),
        limit <= h.len(),
{
}

/// An accepted request is recorded as the newest entry, in front of the
/// `limit` newest earlier ones.
pub proof fn lemma_accepted_request_recorded(h: Seq<i32>, limit: nat, duration: int, time: i32)
    requires
        spec_update(Some(h), limit, duration, time).0 is None,
    ensures
        spec_update(Some(h), limit, duration, time).1[0] == time,
        spec_update(Some(h), limit, duration, time).1.drop_first() == (if h.len() >= limit {
            h.take(limit as int)
        } else {
            h
        }),
{
    let n = spec_update(Some(h), limit, duration, time).1;
    let kept = if h.len() >= limit {
        h.take(limit as int)
    } else {
        h
    };
    assert(n.drop_first() =~= kept);
}

/// When requests arrive in time order, the limiter never lets more than
/// `limit` requests of a key through within `duration`: the ordering and the
/// spacing of the accepted times hold after every request.
pub proof fn lemma_window_kept(h: Seq<i32>, limit: nat, duration: int, time: i32)
    requires
        limit > 0,
        newest_first(h),
        spaced(h, limit, duration),
        h.len() > 0 ==> h[0] <= time,
    ensures
        newest_first(spec_update(Some(h), limit, duration, time).1),
        spaced(spec_update(Some(h), limit, duration, time).1, limit, duration),
{
    let n = spec_update(Some(h), limit, duration, time).1;
    let kept = if h.len() >= limit {
        h.take(limit as int)
    } else {
        h
    };
    assert(forall|i: int| 0 <= i < kept.len() ==> kept[i] == h[i]);
    if spec_cooldown(h, limit, duration, time as int) is None {
        assert(n =~= seq![time] + kept);
        assert forall|i: int, j: int| 0 <= i <= j < n.len() implies n[j] <= n[i] by {
            if i > 0 {
                assert(n[i] == h[i - 1] && n[j] == h[j - 1]);
            } else if j > 0 {
                assert(n[j] == h[j - 1]);
            }
        }
        assert forall|i: int| 0 <= i && i + limit < n.len() implies #[trigger] n[i] - n[i + limit]
            >= duration by {
            if i == 0 {
                assert(h.len() >= limit);
                assert(n[limit as int] == h[limit - 1]);
            } else {
                assert(n[i] == h[i - 1]);
                assert(n[i + limit] == h[i - 1 + limit]);
            }
        }
    } else {
        assert(n =~= kept);
    }
}

/// While requests arrive in time order, a refused request waits at most
/// `duration` seconds, and always a positive time.
pub proof fn lemma_cooldown_bounded(h: Seq<i32>, limit: nat, duration: int, time: i32)
    requires
        newest_first(h),
        h.len() > 0 ==> h[0] <= time,
    ensures
        spec_update(Some(h), limit, duration, time).0 matches Some(c) ==> 0 < c <= duration,
{
}

/// The cooldown a refused request is told is exactly the wait: the same key
/// asking again that many seconds later (with nothing in between) is
/// accepted, and asking one second earlier is still refused.
pub proof fn lemma_cooldown_exact(h: Seq<i32>, limit: nat, duration: int, time: i32, later: i32)
    requires
        spec_update(Some(h), limit, duration, time).0 matches Some(c) && later == time + c,
    ensures
        spec_update(Some(spec_update(Some(h), limit, duration, time).1), limit, duration, later).0 is None,
        ({
            let c = spec_update(Some(h), limit, duration, time).0->0;
            c > 1 ==> spec_update(
                Some(spec_update(Some(h), limit, duration, time).1),
                limit,
                duration,
                (later - 1) as i32,
            ).0 == Some(1int)
        }),
{
    let kept = spec_update(Some(h), limit, duration, time).1;
    assert(kept == h.take(limit as int));
    assert(kept[limit - 1] == h[limit - 1]);
}

/// A refused request changes nothing: asking again at the same time gets the
/// same cooldown and leaves the same history.
pub proof fn lemma_refusal_repeats(h: Seq<i32>, limit: nat, duration: int, time: i32)
    requires
        spec_update(Some(h), limit, duration, time).0 is Some,
    ensures
        spec_update(Some(spec_update(Some(h), limit, duration, time).1), limit, duration, time)
            == spec_update(Some(h), limit, duration, time),
{
    let kept = spec_update(Some(h), limit, duration, time).1;
    assert(kept == h.take(limit as int));
    assert(kept[limit - 1] == h[limit - 1]);
    assert(kept.take(limit as int) =~= kept);
}

/// A request for one key leaves what every other key has recorded as it was.
pub proof fn lemma_keys_independent(history: Map<i64, Seq<i32>>, key: i64, other: i64, h: Seq<i32>)
    requires
        key != other,
    ensures
        entry_of(history.insert(key, h), other) == entry_of(history, other),
{
}

/// How many of the accepted times `all` lie less than `duration` before
/// `time`.
pub open spec fn recent_count(all: Seq<i32>, duration: int, time: int) -> nat
    decreases all.len(),
{
    if all.len() == 0 {
        0
    } else {
        (if time - all[0] < duration {
            1nat
        } else {
            0nat
        }) + recent_count(all.drop_first(), duration, time)
    }
}

/// The kept history `h` is the start of the list `all` of every accepted time
/// (newest first), and holds at least `limit` of them when there are that
/// many.
pub open spec fn tracks(h: Seq<i32>, all: Seq<i32>, limit: nat) -> bool {
    &&& h.len() <= all.len()
    &&& h == all.take(h.len() as int)
    &&& h.len() >= vstd::math::min(all.len() as int, limit as int)
}

proof fn lemma_recent_at_least(all: Seq<i32>, duration: int, time: int, n: nat)
    requires
        n <= all.len(),
        forall|j: int| 0 <= j < n ==> time - #[trigger] all[j] < duration,
    ensures
        recent_count(all, duration, time) >= n,
    decreases n,
{
    if n > 0 {
        let rest = all.drop_first();
        assert forall|j: int| 0 <= j < n - 1 implies time - #[trigger] rest[j] < duration by {
            assert(rest[j] == all[j + 1]);
        }
        lemma_recent_at_least(rest, duration, time, (n - 1) as nat);
        assert(time - all[0] < duration);
    }
}

proof fn lemma_recent_at_most(all: Seq<i32>, duration: int, time: int, m: nat)
    requires
        m <= all.len(),
        forall|j: int| m <= j < all.len() ==> time - #[trigger] all[j] >= duration,
    ensures
        recent_count(all, duration, time) <= m,
    decreases all.len(),
{
    if all.len() > 0 {
        let rest = all.drop_first();
        let m2: nat = if m > 0 {
            (m - 1) as nat
        } else {
            0
        };
        assert forall|j: int| m2 <= j < rest.len() implies time - #[trigger] rest[j] >= duration by {
            assert(rest[j] == all[j + 1]);
        }
        lemma_recent_at_most(rest, duration, time, m2);
        if m == 0 {
            assert(time - all[0] >= duration);
        }
    }
}

/// The limiter over a key's whole past: while the kept history tracks the
/// list of every accepted time (newest first, none after `time`), a request
/// is accepted exactly when fewer than `limit` accepted times lie less than
/// `duration` before it; a refusal's cooldown is the wait until the
/// `limit`-th newest accepted time is `duration` old; the request's time
/// joins the accepted times exactly when it is accepted, and the new history
/// tracks them again.
pub proof fn lemma_accepted_times(h: Seq<i32>, all: Seq<i32>, limit: nat, duration: int, time: i32)
    requires
        limit >= 1,
        newest_first(all),
        all.len() > 0 ==> all[0] <= time,
        tracks(h, all, limit),
    ensures
        spec_update(Some(h), limit, duration, time).0 is None <==> recent_count(
            all,
            duration,
            time as int,
        ) < limit,
        spec_update(Some(h), limit, duration, time).0 matches Some(c) ==> c == duration - (time
            - all[limit - 1]) && 0 < c <= duration,
        ({
            let accepted = spec_update(Some(h), limit, duration, time).0 is None;
            let next_all = if accepted {
                seq![time] + all
            } else {
                all
            };
            &&& newest_first(next_all)
            &&& tracks(spec_update(Some(h), limit, duration, time).1, next_all, limit)
        }),
{
    let t = time as int;
    if all.len() < limit {
        assert(h.len() == all.len());
        lemma_recent_at_most(all, duration, t, all.len());
    } else {
        assert(h.len() >= limit);
        assert(h[limit - 1] == all[limit - 1]);
        let last = all[limit - 1] as int;
        if t - last < duration {
            assert forall|j: int| 0 <= j < limit implies t - #[trigger] all[j] < duration by {
                assert(all[limit - 1] <= all[j]);
            }
            lemma_recent_at_least(all, duration, t, limit);
            assert(all[limit - 1] <= all[0]);
        } else {
            assert forall|j: int| limit - 1 <= j < all.len() implies t - #[trigger] all[j] >= duration by {
                assert(all[j] <= all[limit - 1]);
            }
            lemma_recent_at_most(all, duration, t, (limit - 1) as nat);
        }
    }
    let next = spec_update(Some(h), limit, duration, time).1;
    let kept = if h.len() >= limit {
        h.take(limit as int)
    } else {
        h
    };
    assert(kept =~= all.take(kept.len() as int));
    if spec_update(Some(h), limit, duration, time).0 is None {
        let next_all = seq![time] + all;
        assert(next == seq![time] + kept);
        assert(next =~= next_all.take(next.len() as int));
        assert forall|i: int, j: int| 0 <= i <= j < next_all.len() implies next_all[j] <= next_all[i] by {
            if i > 0 {
                assert(next_all[i] == all[i - 1]);
                assert(next_all[j] == all[j - 1]);
            } else if j > 0 {
                assert(next_all[j] == all[j - 1]);
                assert(all[j - 1] <= all[0]);
            }
        }
    } else {
        assert(next == kept);
    }
}

/// The histories a new limiter keeps after the requests `calls`, each a key
/// and a time, answered in order.
pub open spec fn history_after(calls: Seq<(i64, i32)>, limit: nat, duration: int) -> Map<i64, Seq<i32>>
    decreases calls.len(),
{
    if calls.len() == 0 {
        Map::empty()
    } else {
        let before = history_after(calls.drop_last(), limit, duration);
        let key = calls.last().0;
        before.insert(key, spec_update(entry_of(before, key), limit, duration, calls.last().1).1)
    }
}

/// What a new limiter answers to the last of the requests `calls`.
pub open spec fn answer_after(calls: Seq<(i64, i32)>, limit: nat, duration: int) -> Option<int> {
    let before = history_after(calls.drop_last(), limit, duration);
    spec_update(entry_of(before, calls.last().0), limit, duration, calls.last().1).0
}

/// The times of the requests for `key` among `calls` that a new limiter
/// accepted, newest first.
pub open spec fn accepted_times(calls: Seq<(i64, i32)>, key: i64, limit: nat, duration: int) -> Seq<i32>
    decreases calls.len(),
{
    if calls.len() == 0 {
        Seq::empty()
    } else {
        let rest = accepted_times(calls.drop_last(), key, limit, duration);
        if calls.last().0 == key && answer_after(calls, limit, duration) is None {
            seq![calls.last().1] + rest
        } else {
            rest
        }
    }
}

/// Each key's requests come in time order.
pub open spec fn in_time_order(calls: Seq<(i64, i32)>) -> bool {
    forall|i: int, j: int|
        0 <= i < j < calls.len() && (#[trigger] calls[i]).0 == (#[trigger] calls[j]).0 ==> calls[i].1
            <= calls[j].1
}

/// What the limiter keeps for a key after `calls`, tied to the key's accepted
/// times.
pub open spec fn kept_for(calls: Seq<(i64, i32)>, key: i64, limit: nat, duration: int) -> bool {
    let all = accepted_times(calls, key, limit, duration);
    &&& newest_first(all)
    &&& all.len() > 0 ==> exists|i: int| 0 <= i < calls.len() && calls[i] == (key, all[0])
    &&& match entry_of(history_after(calls, limit, duration), key) {
        None => all.len() == 0,
        Some(h) => tracks(h, all, limit),
    }
}

proof fn lemma_kept_for_all_keys(calls: Seq<(i64, i32)>, limit: nat, duration: int)
    requires
        limit >= 1,
        in_time_order(calls),
    ensures
        forall|key: i64| #[trigger] kept_for(calls, key, limit, duration),
    decreases calls.len(),
{
    if calls.len() > 0 {
        let prefix = calls.drop_last();
        assert(in_time_order(prefix)) by {
            assert forall|i: int, j: int|
                0 <= i < j < prefix.len() && (#[trigger] prefix[i]).0 == (#[trigger] prefix[j]).0 implies prefix[i].1
                <= prefix[j].1 by {
                assert(prefix[i] == calls[i] && prefix[j] == calls[j]);
            }
        }
        lemma_kept_for_all_keys(prefix, limit, duration);
        let key = calls.last().0;
        let time = calls.last().1;
        let before = history_after(prefix, limit, duration);
        assert forall|k: i64| #[trigger] kept_for(calls, k, limit, duration) by {
            lemma_kept_for_step(calls, k, limit, duration);
        }
    }
}

proof fn lemma_kept_for_step(calls: Seq<(i64, i32)>, k: i64, limit: nat, duration: int)
    requires
        limit >= 1,
        calls.len() > 0,
        in_time_order(calls),
        kept_for(calls.drop_last(), k, limit, duration),
    ensures
        kept_for(calls, k, limit, duration),
{
    let prefix = calls.drop_last();
    let key = calls.last().0;
    let time = calls.last().1;
    let before = history_after(prefix, limit, duration);
    let after = history_after(calls, limit, duration);
    let old_all = accepted_times(prefix, k, limit, duration);
    let all = accepted_times(calls, k, limit, duration);
    let first_ok = all.len() > 0 ==> exists|i: int| 0 <= i < calls.len() && calls[i] == (k, all[0]);
    if old_all.len() > 0 {
        let i = choose|i: int| 0 <= i < prefix.len() && prefix[i] == (k, old_all[0]);
        assert(calls[i] == prefix[i]);
        if k == key {
            assert(calls[i].0 == calls[calls.len() - 1].0);
            assert(old_all[0] <= time);
        }
    }
    if k != key {
        assert(all == old_all);
        assert(entry_of(after, k) == entry_of(before, k));
        assert(first_ok);
    } else {
        match entry_of(before, key) {
            None => {
                assert(answer_after(calls, limit, duration) is None);
                assert(all =~= seq![time]);
                assert(entry_of(after, k) == Some(seq![time]));
                assert(all.take(1) =~= seq![time]);
                assert(calls[calls.len() - 1] == (key, all[0]));
                assert(first_ok);
            },
            Some(h) => {
                lemma_accepted_times(h, old_all, limit, duration, time);
                if answer_after(calls, limit, duration) is None {
                    assert(all == seq![time] + old_all);
                    assert(calls[calls.len() - 1] == (key, all[0]));
                } else {
                    assert(all == old_all);
                }
                assert(first_ok);
                assert(entry_of(after, k) == Some(spec_update(Some(h), limit, duration, time).1));
            },
        }
    }
}

/// The limiter over a whole run: start a new limiter and answer the requests
/// `calls` in order, each key's requests coming in time order. The last
/// request is accepted exactly when fewer than `limit` of its key's earlier
/// accepted requests lie less than `duration` before it; a refusal's
/// cooldown is `duration` minus the time since the `limit`-th newest of
/// them, between 1 and `duration` seconds.
pub proof fn lemma_limiter_over_calls(calls: Seq<(i64, i32)>, limit: nat, duration: int)
    requires
        limit >= 1,
        calls.len() > 0,
        in_time_order(calls),
    ensures
        ({
            let key = calls.last().0;
            let time = calls.last().1;
            let past = accepted_times(calls.drop_last(), key, limit, duration);
            &&& answer_after(calls, limit, duration) is None <==> recent_count(past, duration, time as int)
                < limit
            &&& answer_after(calls, limit, duration) matches Some(c) ==> c == duration - (time
                - past[limit - 1]) && 0 < c <= duration
        }),
{
    let prefix = calls.drop_last();
    let key = calls.last().0;
    let time = calls.last().1;
    assert(in_time_order(prefix)) by {
        assert forall|i: int, j: int|
            0 <= i < j < prefix.len() && (#[trigger] prefix[i]).0 == (#[trigger] prefix[j]).0 implies prefix[i].1
            <= prefix[j].1 by {
            assert(prefix[i] == calls[i] && prefix[j] == calls[j]);
        }
    }
    lemma_kept_for_all_keys(prefix, limit, duration);
    assert(kept_for(prefix, key, limit, duration));
    let past = accepted_times(prefix, key, limit, duration);
    match entry_of(history_after(prefix, limit, duration), key) {
        None => {
            assert(recent_count(past, duration, time as int) == 0);
        },
        Some(h) => {
            if past.len() > 0 {
                let i = choose|i: int| 0 <= i < prefix.len() && prefix[i] == (key, past[0]);
                assert(calls[i] == prefix[i]);
                assert(calls[i].0 == calls[calls.len() - 1].0);
            }
            lemma_accepted_times(h, past, limit, duration, time);
        },
    }
}

impl RateLimiter<i64> {
    /// A limiter that allows `limit` requests per `duration` seconds for each key.
    pub fn new(limit: usize, duration: i32) -> (r: Self)
        ensures
            r@.limit == limit,
            r@.duration == duration,
            r@.history == Map::<i64, Seq<i32>>::empty(),
    {
        let r = Self { limit, duration, history: HashMap::new() };
        assert(r@.history =~= Map::<i64, Seq<i32>>::empty());
        r
    }

    /// Records a request for `key` at `time`. Returns `None` when the request
    /// is accepted, or the seconds left until it would be.
    pub fn update_rate_limit(&mut self, key: i64, time: i32) -> (cooldown: Option<i32>)
        requires
            update_defined(
                entry_of(old(self)@.history, key),
                old(self)@.limit,
                old(self)@.duration,
                time as int,
            ),
        ensures
            final(self)@.limit == old(self)@.limit,
            final(self)@.duration == old(self)@.duration,
            ({
                let (c, h) = spec_update(
                    entry_of(old(self)@.history, key),
                    old(self)@.limit,
                    old(self)@.duration,
                    time,
                );
                &&& match cooldown {
                    Some(v) => c == Some(v as int),
                    None => c is None,
                }
                &&& final(self)@.history == old(self)@.history.insert(key, h)
            }),
    {
        let ghost old_history = self@.history;
        match self.history.remove(&key) {
            Some(mut value) => {
                let ghost h = value@;
                let cooldown = if value.len() >= self.limit {
                    value.truncate(self.limit);
                    let last_time = value[value.len() - 1];
                    if time - last_time < self.duration {
                        Some(self.duration - (time - last_time))
                    } else {
                        None
                    }
                } else {
                    None
                };
                if cooldown.is_none() {
                    value.insert(0, time);
                }
                proof {
                    let kept = if h.len() >= self.limit {
                        h.take(self.limit as int)
                    } else {
                        h
                    };
                    if cooldown.is_none() {
                        assert(value@ =~= seq![time] + kept);
                    } else {
                        assert(value@ =~= kept);
                    }
                }
                self.history.insert(key, value);
                proof {
                    assert(self@.history =~= old_history.insert(
                        key,
                        spec_next_history(h, self.limit as nat, self.duration as int, time),
                    ));
                }
                cooldown
            },
            None => {
                let mut fresh: Vec<i32> = Vec::new();
                fresh.push(time);
                self.history.insert(key, fresh);
                proof {
                    assert(fresh@ =~= seq![time]);
                    assert(self@.history =~= old_history.insert(key, seq![time]));
                }
                None
            },
        }
    }
}

} // verus!
