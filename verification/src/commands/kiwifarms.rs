//! Whether The Kiwi Farms forum works.
use vstd::prelude::*;

use crate::commands::CommandTrait;
use crate::text::{decimal, push_decimal, push_str, string_from_chars};

verus! {

/// Checks whether The Kiwi Farms forum still answers.
pub struct KiwiFarms;

impl CommandTrait for KiwiFarms {
    open spec fn spec_names(&self) -> Seq<Seq<char>> {
        seq!["does_kiwifarms_work"@, "kiwifarms"@, "kf"@]
    }

    open spec fn spec_description(&self) -> Option<Seq<char>> {
        Some("checks if The Kiwi Farms forum still works"@)
    }

    fn command_names(&self) -> (r: &[&str]) {
        let r: &[&str] = &["does_kiwifarms_work", "kiwifarms", "kf"];
        assert(r@.map_values(|s: &str| s@) =~= self.spec_names());
        r
    }

    fn description(&self) -> (r: Option<&'static str>) {
        Some("checks if The Kiwi Farms forum still works")
    }
}

/// The reply to the forum's HTTP status: it works when it answers
/// `203 Non-Authoritative Information`, its front service's sign of life.
pub open spec fn spec_status_text(status: u16) -> Seq<char> {
    if status == 203 {
        "yes 🤬"@
    } else {
        decimal(status as nat) + " no"@
    }
}

/// The reply to the forum's HTTP status.
pub fn status_text(status: u16) -> (r: String)
    ensures
        r@ == spec_status_text(status),
{
    if status == 203 {
        String::from_str("yes 🤬")
    } else {
        let mut out: Vec<char> = Vec::new();
        push_decimal(&mut out, status as u128);
        push_str(&mut out, " no");
        string_from_chars(out.as_slice())
    }
}

/// The reply when the forum could not be reached, with the reason.
pub fn failure_text(reason: &str) -> (r: String)
    ensures
        r@ == "no ("@ + reason@ + ")"@,
{
    let mut out: Vec<char> = Vec::new();
    push_str(&mut out, "no (");
    push_str(&mut out, reason);
    push_str(&mut out, ")");
    string_from_chars(out.as_slice())
}

} // verus!
