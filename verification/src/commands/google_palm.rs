//! Questions for Google PaLM.
use vstd::prelude::*;

use crate::commands::CommandTrait;
use crate::rate_limit::RateLimiter;
use crate::text::{join, push_chars, push_joined, push_signed_decimal, push_str, signed_decimal, string_from_chars};

verus! {

/// Asks Google PaLM.
pub struct GooglePalm;

impl GooglePalm {
    pub fn rate_limit(&self) -> (r: RateLimiter<i64>)
        ensures
            r@.limit == 3,
            r@.duration == 45,
            r@.history == Map::<i64, Seq<i32>>::empty(),
    {
        RateLimiter::new(3, 45)
    }
}

impl CommandTrait for GooglePalm {
    open spec fn spec_names(&self) -> Seq<Seq<char>> {
        seq!["google_palm"@, "palm"@]
    }

    open spec fn spec_description(&self) -> Option<Seq<char>> {
        Some("ask Google PaLM"@)
    }

    fn command_names(&self) -> (r: &[&str]) {
        let r: &[&str] = &["google_palm", "palm"];
        assert(r@.map_values(|s: &str| s@) =~= self.spec_names());
        r
    }

    fn description(&self) -> (r: Option<&'static str>) {
        Some("ask Google PaLM")
    }
}

/// The prompt as it is sent: the user's text and a line break.
pub fn prompt_text(prompt: &str) -> (r: String)
    ensures
        r@ == prompt@ + "\n"@,
{
    let mut out: Vec<char> = Vec::new();
    push_str(&mut out, prompt);
    push_str(&mut out, "\n");
    string_from_chars(out.as_slice())
}

/// A reason why the request was filtered, with its message when there is one.
pub struct ContentFilter {
    pub reason: String,
    pub message: Option<String>,
}

/// How one filter is described: its reason, and its message after a colon.
pub open spec fn filter_text(f: ContentFilter) -> Seq<char> {
    match f.message {
        Some(m) => f.reason@ + ": "@ + m@,
        None => f.reason@,
    }
}

/// The reply when Google filtered the request.
pub open spec fn spec_filtered_text(filters: Seq<ContentFilter>) -> Seq<char> {
    "request filtered by Google: "@ + join(filters.map_values(|f: ContentFilter| filter_text(f)), ", "@)
        + "."@
}

/// The reply when Google filtered the request: each filter's reason, with
/// its message, separated by commas.
pub fn filtered_text(filters: &Vec<ContentFilter>) -> (r: String)
    ensures
        r@ == spec_filtered_text(filters@),
{
    let mut out: Vec<char> = Vec::new();
    push_str(&mut out, "request filtered by Google: ");
    let ghost head = out@;
    let mut reasons: Vec<char> = Vec::new();
    let mut k: usize = 0;
    while k < filters.len()
        invariant
            k <= filters.len(),
            reasons@ == join(filters@.map_values(|f: ContentFilter| filter_text(f)).take(k as int), ", "@),
        decreases filters.len() - k,
    {
        let f = &filters[k];
        let mut part: Vec<char> = Vec::new();
        push_str(&mut part, f.reason.as_str());
        match &f.message {
            Some(m) => {
                push_str(&mut part, ": ");
                push_str(&mut part, m.as_str());
            },
            None => {},
        }
        assert(part@ == filter_text(filters@[k as int]));
        let ghost done = filters@.map_values(|f: ContentFilter| filter_text(f)).take(k as int);
        push_joined(&mut reasons, &part, ", ", k == 0, Ghost(done));
        assert(done.push(part@) =~= filters@.map_values(|f: ContentFilter| filter_text(f)).take(k + 1));
        k = k + 1;
    }
    assert(filters@.map_values(|f: ContentFilter| filter_text(f)).take(filters.len() as int)
        =~= filters@.map_values(|f: ContentFilter| filter_text(f)));
    push_chars(&mut out, &reasons);
    push_str(&mut out, ".");
    string_from_chars(out.as_slice())
}

/// The reply when the service answered with an error.
pub fn error_text(code: i64, message: &str) -> (r: String)
    ensures
        r@ == "error "@ + signed_decimal(code as int) + ": "@ + message@,
{
    let mut out: Vec<char> = Vec::new();
    push_str(&mut out, "error ");
    push_signed_decimal(&mut out, code);
    push_str(&mut out, ": ");
    push_str(&mut out, message);
    string_from_chars(out.as_slice())
}

/// The notice sent when the answer holds no text.
pub fn empty_answer_notice(answer: &str) -> (r: Option<&'static str>)
    ensures
        answer@.len() == 0 ==> (r matches Some(n) && n@ == "no text was generated."@),
        answer@.len() > 0 ==> r is None,
{
    if answer.unicode_len() == 0 {
        Some("no text was generated.")
    } else {
        None
    }
}

} // verus!
