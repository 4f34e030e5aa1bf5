//! Web addresses, parsed and built with the `url` crate.
use url::{ParseError, Url};
use vstd::prelude::*;

verus! {

/// The outcome of parsing an address.
pub enum UrlParse {
    /// The address as the parser writes it out.
    Parsed(String),
    /// Parsing failed; whether only the scheme was missing, and the error's
    /// message.
    Failed { relative_without_base: bool, message: String },
}

pub enum UrlParseView {
    Parsed(Seq<char>),
    Failed { relative_without_base: bool, message: Seq<char> },
}

impl View for UrlParse {
    type V = UrlParseView;

    open spec fn view(&self) -> UrlParseView {
        match self {
            UrlParse::Parsed(s) => UrlParseView::Parsed(s@),
            UrlParse::Failed { relative_without_base, message } => UrlParseView::Failed {
                relative_without_base: *relative_without_base,
                message: message@,
            },
        }
    }
}

/// What `Url::parse` makes of an input.
pub uninterp spec fn url_parse(input: Seq<char>) -> UrlParseView;

/// What `Url::parse(base)` followed by `set_fragment(Some(fragment))` writes
/// out, or `None` when `base` does not parse.
pub uninterp spec fn url_with_fragment(base: Seq<char>, fragment: Seq<char>) -> Option<Seq<char>>;

/// What `Url::parse_with_params(base, [(key, value)])` writes out, or `None`
/// when `base` does not parse.
pub uninterp spec fn url_with_param(base: Seq<char>, key: Seq<char>, value: Seq<char>) -> Option<
    Seq<char>,
>;

/// Calls `Url::parse`; the outcome is named `url_parse` of the input.
#[verifier::external_body]
pub(crate) fn parse_url(input: &str) -> (r: UrlParse)
    ensures
        r@ == url_parse(input@),
{
    match Url::parse(input) {
        Ok(url) => UrlParse::Parsed(url.to_string()),
        Err(err) => UrlParse::Failed {
            relative_without_base: err == ParseError::RelativeUrlWithoutBase,
            message: err.to_string(),
        },
    }
}

/// Calls `Url::parse` and `Url::set_fragment`; the result is named
/// `url_with_fragment` of the arguments.
#[verifier::external_body]
pub(crate) fn set_fragment(base: &str, fragment: &str) -> (r: Option<String>)
    ensures
        match r {
            Some(s) => url_with_fragment(base@, fragment@) == Some(s@),
            None => url_with_fragment(base@, fragment@) is None,
        },
{
    match Url::parse(base) {
        Ok(mut url) => {
            url.set_fragment(Some(fragment));
            Some(url.to_string())
        },
        Err(_) => None,
    }
}

/// Calls `Url::parse_with_params` with one parameter; the result is named
/// `url_with_param` of the arguments.
#[verifier::external_body]
pub(crate) fn with_param(base: &str, key: &str, value: &str) -> (r: Option<String>)
    ensures
        match r {
            Some(s) => url_with_param(base@, key@, value@) == Some(s@),
            None => url_with_param(base@, key@, value@) is None,
        },
{
    match Url::parse_with_params(base, [(key, value)]) {
        Ok(url) => Some(url.to_string()),
        Err(_) => None,
    }
}

} // verus!
