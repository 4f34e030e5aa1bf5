//! Inline calculations.
use vstd::prelude::*;

use crate::text::{ascii_words, join, join_strings, push_str, split_ascii_words, str_equal, string_from_chars};

verus! {

/// How long Telegram may cache the answer, in seconds.
pub const CACHE_TIME_SECS: i32 = 3600;

/// The query without its ASCII whitespace.
pub open spec fn squeezed(query: Seq<char>) -> Seq<char> {
    join(ascii_words(query), ""@)
}

/// What the inline query is answered with.
pub enum InlineAnswer {
    /// An empty query gets no results.
    NoResults,
    /// `2+2` (with any spacing) is answered without asking math.js.
    Fixed { title: String, message: String },
    /// Anything else is sent to math.js.
    Evaluate,
}

/// How an inline query is answered before asking math.js.
pub fn inline_answer(query: &str) -> (r: InlineAnswer)
    ensures
        query@.len() == 0 ==> r is NoResults,
        query@.len() > 0 && squeezed(query@) == "2+2"@ ==> (r matches InlineAnswer::Fixed { title, message }
            && title@ == "5"@ && message@ == query@ + " = 5"@),
        query@.len() > 0 && squeezed(query@) != "2+2"@ ==> r is Evaluate,
{
    if query.unicode_len() == 0 {
        return InlineAnswer::NoResults;
    }
    let words = split_ascii_words(query);
    let joined = join_strings(&words, "");
    if str_equal(joined.as_str(), "2+2") {
        let mut message: Vec<char> = Vec::new();
        push_str(&mut message, query);
        push_str(&mut message, " = 5");
        InlineAnswer::Fixed {
            title: String::from_str("5"),
            message: string_from_chars(message.as_slice()),
        }
    } else {
        InlineAnswer::Evaluate
    }
}

/// The result shown for math.js's answer: the result and the equation, or
/// the error twice.
pub fn evaluated_answer(query: &str, outcome: Result<String, String>) -> (r: (String, String))
    ensures
        match outcome {
            Ok(result) => r.0@ == result@ && r.1@ == query@ + " = "@ + result@,
            Err(error) => r.0@ == error@ && r.1@ == error@,
        },
{
    match outcome {
        Ok(result) => {
            let mut message: Vec<char> = Vec::new();
            push_str(&mut message, query);
            push_str(&mut message, " = ");
            push_str(&mut message, result.as_str());
            (result, string_from_chars(message.as_slice()))
        },
        Err(error) => {
            let copy = error.clone();
            (error, copy)
        },
    }
}

} // verus!
