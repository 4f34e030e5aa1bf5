//! Craiyon's image generation: retrying requests and decoding the images it sends.
use vstd::prelude::*;

use core::time::Duration;

use crate::encoding::{base64_standard, decode_base64};
use crate::text::{chars_of, string_from_chars};

pub mod api;
pub mod models;

verus! {

/// Images that Craiyon generated, and how long it took.
pub struct GeneratedResult {
    pub images: Vec<Vec<u8>>,
    pub duration: Duration,
}

/// How many times a request is sent before giving up.
pub const RETRY_COUNT: usize = 3;

/// What to do after a failed request.
pub enum RetryDecision {
    /// Send it again after this many seconds.
    RetryAfter(u64),
    /// Report the failure.
    GiveUp,
}

/// After the failure of attempt number `attempt` (counted from one): retry
/// while fewer than `RETRY_COUNT` attempts were made, waiting two seconds
/// per attempt so far, or ten when the service answered
/// `429 Too Many Requests`.
pub fn after_failure(attempt: usize, too_many_requests: bool) -> (r: RetryDecision)
    ensures
        attempt < RETRY_COUNT ==> r == RetryDecision::RetryAfter(
            (attempt * (if too_many_requests {
                10int
            } else {
                2int
            })) as u64,
        ),
        attempt >= RETRY_COUNT ==> r == RetryDecision::GiveUp,
{
    if attempt < RETRY_COUNT {
        let per_attempt: u64 = if too_many_requests {
            10
        } else {
            2
        };
        RetryDecision::RetryAfter((attempt as u64) * per_attempt)
    } else {
        RetryDecision::GiveUp
    }
}

/// `s` without its line breaks.
pub open spec fn without_newlines(s: Seq<char>) -> Seq<char>
    decreases s.len(),
{
    if s.len() == 0 {
        s
    } else if s.last() == '\n' {
        without_newlines(s.drop_last())
    } else {
        without_newlines(s.drop_last()).push(s.last())
    }
}

/// Removes the line breaks from a text, as `str::replace('\n', "")` does.
pub fn remove_newlines(s: &str) -> (r: String)
    ensures
        r@ == without_newlines(s@),
{
    let v = chars_of(s);
    let mut out: Vec<char> = Vec::new();
    let mut i: usize = 0;
    while i < v.len()
        invariant
            i <= v.len(),
            out@ == without_newlines(v@.take(i as int)),
        decreases v.len() - i,
    {
        assert(v@.take(i + 1).drop_last() =~= v@.take(i as int));
        if v[i] != '\n' {
            out.push(v[i]);
        }
        i = i + 1;
    }
    assert(v@.take(v@.len() as int) =~= v@);
    string_from_chars(out.as_slice())
}

/// Every image decodes: each text, without its line breaks, is valid base64.
pub open spec fn all_decode(data: Seq<String>) -> bool {
    forall|i: int| 0 <= i < data.len() ==> (#[trigger] base64_standard(without_newlines(data[i]@))) is Some
}

/// The images that Craiyon sent as base64 texts, decoded; `None` when one of
/// them is not valid base64.
pub fn decode_images(data: &Vec<String>) -> (r: Option<Vec<Vec<u8>>>)
    ensures
        match r {
            Some(images) => all_decode(data@) && images@.len() == data@.len() && forall|i: int|
                0 <= i < data@.len() ==> base64_standard(without_newlines(data@[i]@)) == Some(
                    #[trigger] images@[i]@,
                ),
            None => !all_decode(data@),
        },
{
    let mut images: Vec<Vec<u8>> = Vec::new();
    let mut i: usize = 0;
    while i < data.len()
        invariant
            i <= data.len(),
            images@.len() == i,
            forall|j: int|
                0 <= j < i ==> base64_standard(without_newlines(data@[j]@)) == Some(
                    #[trigger] images@[j]@,
                ),
        decreases data.len() - i,
    {
        let text = remove_newlines(data[i].as_str());
        match decode_base64(text.as_str()) {
            Ok(bytes) => images.push(bytes),
            Err(_) => {
                assert(base64_standard(without_newlines(data@[i as int]@)) is None);
                return None;
            },
        }
        i = i + 1;
    }
    assert forall|j: int| 0 <= j < data@.len() implies (#[trigger] base64_standard(
        without_newlines(data@[j]@),
    )) is Some by {
        assert(base64_standard(without_newlines(data@[j]@)) == Some(images@[j]@));
    }
    Some(images)
}

/// The result of a generation: the decoded images and the time it took.
pub fn generated_result(data: &Vec<String>, duration: Duration) -> (r: Option<GeneratedResult>)
    ensures
        match r {
            Some(g) => all_decode(data@) && g.images@.len() == data@.len() && g.duration == duration
                && forall|i: int|
                0 <= i < data@.len() ==> base64_standard(without_newlines(data@[i]@)) == Some(
                    #[trigger] g.images@[i]@,
                ),
            None => !all_decode(data@),
        },
{
    match decode_images(data) {
        Some(images) => Some(GeneratedResult { images, duration }),
        None => None,
    }
}

} // verus!
