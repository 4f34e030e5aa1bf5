//! Cats for HTTP status codes.
use vstd::prelude::*;

use crate::commands::{CommandError, CommandTrait};
use crate::text::{decimal, parse_u16, push_decimal, push_str, string_from_chars, unsigned_value};

verus! {

/// Replies with the http.cat picture of an HTTP status code.
pub struct Httpcat;

impl CommandTrait for Httpcat {
    open spec fn spec_names(&self) -> Seq<Seq<char>> {
        seq!["httpcat"@, "cat"@]
    }

    open spec fn spec_description(&self) -> Option<Seq<char>> {
        None
    }

    fn command_names(&self) -> (r: &[&str]) {
        let r: &[&str] = &["httpcat", "cat"];
        assert(r@.map_values(|s: &str| s@) =~= self.spec_names());
        r
    }

    fn description(&self) -> (r: Option<&'static str>) {
        None
    }
}

/// The codes that http.cat has a picture for: the HTTP status codes in use.
pub open spec fn is_known_status(n: int) -> bool {
    ||| 100 <= n <= 103
    ||| 200 <= n <= 208
    ||| n == 226
    ||| 300 <= n <= 308
    ||| 400 <= n <= 418
    ||| 421 <= n <= 426
    ||| n == 428
    ||| n == 429
    ||| n == 431
    ||| n == 451
    ||| 500 <= n <= 508
    ||| n == 510
    ||| n == 511
}

fn known_status(n: u16) -> (b: bool)
    ensures
        b == is_known_status(n as int),
{
    (100 <= n && n <= 103) || (200 <= n && n <= 208) || n == 226 || (300 <= n && n <= 308) || (
    400 <= n && n <= 418) || (421 <= n && n <= 426) || n == 428 || n == 429 || n == 431 || n
        == 451 || (500 <= n && n <= 508) || n == 510 || n == 511
}

/// The status code that `argument` names, when it is a decimal `u16` that
/// is a known status code.
pub open spec fn spec_status_code(argument: Seq<char>) -> Option<u16> {
    match unsigned_value(argument) {
        Some(v) => if v <= u16::MAX && is_known_status(v as int) {
            Some(v as u16)
        } else {
            None
        },
        None => None,
    }
}

/// The status code of the argument, or the error that the command replies
/// with.
pub fn status_code(argument: &str) -> (r: Result<u16, CommandError>)
    ensures
        match spec_status_code(argument@) {
            Some(n) => r == Ok::<u16, CommandError>(n),
            None => r matches Err(CommandError::Custom(m)) && m@
                == "error: invalid HTTP status code"@,
        },
{
    match parse_u16(argument) {
        Some(n) => {
            if known_status(n) {
                Ok(n)
            } else {
                Err(CommandError::Custom(String::from_str("error: invalid HTTP status code")))
            }
        },
        None => Err(CommandError::Custom(String::from_str("error: invalid HTTP status code"))),
    }
}

/// The address of the picture for `status`.
pub fn cat_url(status: u16) -> (r: String)
    ensures
        r@ == "https://http.cat/"@ + decimal(status as nat),
{
    let mut out: Vec<char> = Vec::new();
    push_str(&mut out, "https://http.cat/");
    push_decimal(&mut out, status as u128);
    string_from_chars(out.as_slice())
}

} // verus!
