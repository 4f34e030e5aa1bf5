//! Fixed retorts to a few phrases.
use vstd::prelude::*;

use crate::rate_limit::{entry_of, spec_update, update_defined, RateLimiter};
use crate::text::{ascii_words, chars_of, contains_chars, find, lowercase, split_ascii_words, str_equal, to_lowercase};

verus! {

/// The answer to a message's text, already lowercased: a few phrases and
/// words get a fixed retort, checked in this order.
pub open spec fn spec_retort(lowered: Seq<char>) -> Option<Seq<char>> {
    let words = ascii_words(lowered);
    if find(lowered, "tomasz fryta"@) is Some {
        Some("real madryt"@)
    } else if words.contains("obejrz"@) {
        Some("obejrzyj"@)
    } else if find(lowered, "zapytaj mu"@) is Some {
        Some("zapytaj go"@)
    } else if find(lowered, "spytaj mu"@) is Some {
        Some("spytaj go"@)
    } else if words.contains("poszłem"@) || words.contains("poszlem"@) {
        Some("poszedłem"@)
    } else {
        None
    }
}

fn has_word(words: &Vec<String>, word: &str) -> (r: bool)
    ensures
        r == words@.map_values(|w: String| w@).contains(word@),
{
    let mut i: usize = 0;
    while i < words.len()
        invariant
            i <= words.len(),
            forall|j: int| 0 <= j < i ==> words@[j]@ != word@,
        decreases words.len() - i,
    {
        if str_equal(words[i].as_str(), word) {
            assert(words@.map_values(|w: String| w@)[i as int] == word@);
            return true;
        }
        i = i + 1;
    }
    proof {
        if words@.map_values(|w: String| w@).contains(word@) {
            let vs = words@.map_values(|w: String| w@);
            let j = choose|j: int| 0 <= j < vs.len() && #[trigger] vs[j] == word@;
            assert(words@[j]@ == word@);
        }
    }
    false
}

fn contains_text(text: &Vec<char>, phrase: &str) -> (r: bool)
    ensures
        r == (find(text@, phrase@) is Some),
{
    let p = chars_of(phrase);
    contains_chars(text, &p)
}

/// The retort for a lowercased text.
pub fn retort(lowered: &str) -> (r: Option<&'static str>)
    ensures
        match r {
            Some(t) => spec_retort(lowered@) == Some(t@),
            None => spec_retort(lowered@) is None,
        },
{
    let text = chars_of(lowered);
    let words = split_ascii_words(lowered);
    if contains_text(&text, "tomasz fryta") {
        Some("real madryt")
    } else if has_word(&words, "obejrz") {
        Some("obejrzyj")
    } else if contains_text(&text, "zapytaj mu") {
        Some("zapytaj go")
    } else if contains_text(&text, "spytaj mu") {
        Some("spytaj go")
    } else if has_word(&words, "poszłem") || has_word(&words, "poszlem") {
        Some("poszedłem")
    } else {
        None
    }
}

/// The retort for a message's text, lowercased as `str::to_lowercase` does.
pub open spec fn spec_text_retort(text: Option<Seq<char>>) -> Option<Seq<char>> {
    match text {
        Some(t) => spec_retort(lowercase(t)),
        None => None,
    }
}

/// Answers a message from `user_id` sent at `date`: a retort, unless the
/// user's rate limit refuses it. Only messages that get a retort count
/// against the limit.
pub fn auto_reply(limiter: &mut RateLimiter<i64>, user_id: i64, date: i32, text: Option<&str>) -> (r: Option<&'static str>)
    requires
        update_defined(
            entry_of(old(limiter)@.history, user_id),
            old(limiter)@.limit,
            old(limiter)@.duration,
            date as int,
        ),
    ensures
        match spec_text_retort(
            match text {
                Some(t) => Some(t@),
                None => None,
            },
        ) {
            None => r is None && *final(limiter) == *old(limiter),
            Some(reply) => {
                let (cooldown, h) = spec_update(
                    entry_of(old(limiter)@.history, user_id),
                    old(limiter)@.limit,
                    old(limiter)@.duration,
                    date,
                );
                &&& final(limiter)@.limit == old(limiter)@.limit
                &&& final(limiter)@.duration == old(limiter)@.duration
                &&& final(limiter)@.history == old(limiter)@.history.insert(user_id, h)
                &&& match r {
                    Some(t) => cooldown is None && t@ == reply,
                    None => cooldown is Some,
                }
            },
        },
{
    let t = match text {
        Some(t) => t,
        None => return None,
    };
    let lowered = to_lowercase(t);
    let reply = match retort(lowered.as_str()) {
        Some(reply) => reply,
        None => return None,
    };
    match limiter.update_rate_limit(user_id, date) {
        Some(_) => None,
        None => Some(reply),
    }
}

} // verus!
