//! Round trips to Telegram.
use vstd::prelude::*;

use crate::commands::CommandTrait;
use crate::text::{decimal, push_decimal, push_str, string_from_chars};

verus! {

/// Measures the round trip to Telegram.
pub struct Ping;

impl CommandTrait for Ping {
    open spec fn spec_names(&self) -> Seq<Seq<char>> {
        seq!["ping"@]
    }

    open spec fn spec_description(&self) -> Option<Seq<char>> {
        None
    }

    fn command_names(&self) -> (r: &[&str]) {
        let r: &[&str] = &["ping"];
        assert(r@.map_values(|s: &str| s@) =~= self.spec_names());
        r
    }

    fn description(&self) -> (r: Option<&'static str>) {
        None
    }
}

impl Ping {
    /// The name the command is invoked by.
    pub fn name(&self) -> (r: &'static str)
        ensures
            r@ == "ping"@,
    {
        "ping"
    }
}

/// The reply with the measured round trip in milliseconds.
pub fn ping_text(millis: u128) -> (r: String)
    ensures
        r@ == "ping: "@ + decimal(millis as nat) + "ms"@,
{
    let mut out: Vec<char> = Vec::new();
    push_str(&mut out, "ping: ");
    push_decimal(&mut out, millis);
    push_str(&mut out, "ms");
    string_from_chars(out.as_slice())
}

} // verus!
