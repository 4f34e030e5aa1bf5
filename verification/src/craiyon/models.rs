//! What Craiyon's generation service sends back.
use vstd::prelude::*;

use core::time::Duration;

verus! {

/// Images that Craiyon generated, and how long it took.
pub struct GeneratedResult {
    pub images: Vec<Vec<u8>>,
    pub duration: Duration,
}

/// How many times a failed request is sent again before giving up.
pub const RETRY_COUNT: usize = 3;

} // verus!
