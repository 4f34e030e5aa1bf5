//! What is sent to math.js and what comes back.
use vstd::prelude::*;


verus! {

/// The expression to evaluate.
pub struct Payload {
    pub expr: String,
}

/// The result of a successful evaluation.
pub struct Response {
    pub result: String,
}

/// Why an evaluation failed.
pub struct Error {
    pub error: String,
}

} // verus!
