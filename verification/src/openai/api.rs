//! Code completions from OpenAI.
use vstd::prelude::*;

use crate::text::{push_str, string_from_chars};

verus! {

/// Where completions are asked for.
pub const COMPLETIONS_URL: &'static str = "https://api.openai.com/v1/engines/code-davinci-002/completions";

/// The `Authorization` header for a token.
pub fn authorization(token: &str) -> (r: String)
    ensures
        r@ == "Bearer "@ + token@,
{
    let mut out: Vec<char> = Vec::new();
    push_str(&mut out, "Bearer ");
    push_str(&mut out, token);
    string_from_chars(out.as_slice())
}

/// The completion: the text of the first choice.
pub fn first_choice(choices: Vec<String>) -> (r: String)
    requires
        choices@.len() > 0,
    ensures
        r == choices@[0],
{
    let mut choices = choices;
    choices.swap_remove(0)
}

} // verus!
