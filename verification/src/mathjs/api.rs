//! Evaluating expressions with math.js.
use vstd::prelude::*;


verus! {

/// Where expressions are sent.
pub const API_URL: &'static str = "https://api.mathjs.org/v4/";

/// How an answer from math.js is read, by its HTTP status.
pub enum ResponseKind {
    /// `200 OK`: the body holds the result.
    Result,
    /// `400 Bad Request`: the body holds the error.
    Error,
}

/// How an answer is read; math.js answers only with these two statuses.
pub fn response_kind(status: u16) -> (r: ResponseKind)
    requires
        status == 200 || status == 400,
    ensures
        status == 200 ==> r is Result,
        status == 400 ==> r is Error,
{
    if status == 200 {
        ResponseKind::Result
    } else {
        ResponseKind::Error
    }
}

/// The outcome of an evaluation: the result, or the error as the answer
/// describes it.
pub fn evaluation(kind: ResponseKind, text: String) -> (r: Result<String, String>)
    ensures
        kind is Result ==> r == Ok::<String, String>(text),
        kind is Error ==> r == Err::<String, String>(text),
{
    match kind {
        ResponseKind::Result => Ok(text),
        ResponseKind::Error => Err(text),
    }
}

} // verus!
