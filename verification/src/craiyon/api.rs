//! Requests to Craiyon's generation service: when to retry, and what comes back.
use vstd::prelude::*;

use core::time::Duration;

use crate::craiyon::models::{GeneratedResult, RETRY_COUNT};
use crate::craiyon::{all_decode, base64_standard, decode_images, without_newlines};

verus! {

/// How long to wait before sending a failed request again, in seconds.
pub const RETRY_DELAY_SECS: u64 = 2;

/// What to do after a failed request.
pub enum RetryStep {
    /// Send it again after this many seconds.
    RetryAfter(u64),
    /// Report the failure.
    GiveUp,
}

/// After the failure of attempt number `attempt` (counted from one): retry
/// after two seconds while at most `RETRY_COUNT` attempts were made, so a
/// request is sent at most `RETRY_COUNT + 1` times.
pub fn after_failure(attempt: usize) -> (r: RetryStep)
    ensures
        attempt <= RETRY_COUNT ==> r == RetryStep::RetryAfter(RETRY_DELAY_SECS),
        attempt > RETRY_COUNT ==> r == RetryStep::GiveUp,
{
    if attempt <= RETRY_COUNT {
        RetryStep::RetryAfter(RETRY_DELAY_SECS)
    } else {
        RetryStep::GiveUp
    }
}

/// The result of a generation: the decoded images and the time it took.
pub fn generated_result(data: &Vec<String>, duration: Duration) -> (r: Option<GeneratedResult>)
    ensures
        match r {
            Some(g) => all_decode(data@) && g.images@.len() == data@.len() && g.duration == duration
                && forall|i: int|
                0 <= i < data@.len() ==> base64_standard(without_newlines(data@[i]@)) == Some(
                    #[trigger] g.images@[i]@,
                ),
            None => !all_decode(data@),
        },
{
    match decode_images(data) {
        Some(images) => Some(GeneratedResult { images, duration }),
        None => None,
    }
}

} // verus!
