//! Screenshots of web pages.
use vstd::prelude::*;

use crate::commands::CommandTrait;
use crate::links::{parse_url, url_parse, UrlParse, UrlParseView};
use crate::message_entities::{plain, text, views, Entity};
use crate::rate_limit::RateLimiter;
use crate::text::{push_str, string_from_chars};

verus! {

/// Screenshots a web page with microlink.
pub struct Screenshot;

impl Screenshot {
    pub fn rate_limit(&self) -> (r: RateLimiter<i64>)
        ensures
            r@.limit == 3,
            r@.duration == 120,
            r@.history == Map::<i64, Seq<i32>>::empty(),
    {
        RateLimiter::new(3, 120)
    }
}

impl CommandTrait for Screenshot {
    open spec fn spec_names(&self) -> Seq<Seq<char>> {
        seq!["screenshot"@, "ss"@, "webimg"@, "webimage"@, "webscreenshot"@]
    }

    open spec fn spec_description(&self) -> Option<Seq<char>> {
        Some("screenshot a webpage"@)
    }

    fn command_names(&self) -> (r: &[&str]) {
        let r: &[&str] = &["screenshot", "ss", "webimg", "webimage", "webscreenshot"];
        assert(r@.map_values(|s: &str| s@) =~= self.spec_names());
        r
    }

    fn description(&self) -> (r: Option<&'static str>) {
        Some("screenshot a webpage")
    }
}

/// The address to screenshot: the argument as `Url::parse` reads it, or,
/// when only the scheme is missing, with `http://` in front; the parser's
/// message when neither parses.
pub open spec fn spec_target(argument: Seq<char>) -> Result<Seq<char>, Seq<char>> {
    match url_parse(argument) {
        UrlParseView::Parsed(u) => Ok(u),
        UrlParseView::Failed { relative_without_base, message } => if relative_without_base {
            match url_parse("http://"@ + argument) {
                UrlParseView::Parsed(u) => Ok(u),
                UrlParseView::Failed { message, .. } => Err(message),
            }
        } else {
            Err(message)
        },
    }
}

/// The address to screenshot.
pub fn target_url(argument: &str) -> (r: Result<String, String>)
    ensures
        match r {
            Ok(u) => spec_target(argument@) == Ok::<Seq<char>, Seq<char>>(u@),
            Err(m) => spec_target(argument@) == Err::<Seq<char>, Seq<char>>(m@),
        },
{
    match parse_url(argument) {
        UrlParse::Parsed(u) => Ok(u),
        UrlParse::Failed { relative_without_base, message } => {
            if relative_without_base {
                let mut out: Vec<char> = Vec::new();
                push_str(&mut out, "http://");
                push_str(&mut out, argument);
                let with_scheme = string_from_chars(out.as_slice());
                match parse_url(with_scheme.as_str()) {
                    UrlParse::Parsed(u) => Ok(u),
                    UrlParse::Failed { message, .. } => Err(message),
                }
            } else {
                Err(message)
            }
        },
    }
}

/// The error microlink answered with, in MarkdownV2: its code (escaped)
/// linking to its explanation, and its message (escaped).
pub fn error_markdown(escaped_code: &str, more: &str, escaped_message: &str) -> (r: String)
    ensures
        r@ == "["@ + escaped_code@ + "]("@ + more@ + "): "@ + escaped_message@,
{
    let mut out: Vec<char> = Vec::new();
    push_str(&mut out, "[");
    push_str(&mut out, escaped_code);
    push_str(&mut out, "](");
    push_str(&mut out, more);
    push_str(&mut out, "): ");
    push_str(&mut out, escaped_message);
    string_from_chars(out.as_slice())
}

/// The screenshot's caption: the page's title as plain text, or none when
/// the page has no title.
pub fn photo_caption(title: Option<String>) -> (r: Option<Vec<Entity>>)
    ensures
        match title {
            Some(t) => r matches Some(es) && views(es@) == seq![plain(t@)],
            None => r is None,
        },
{
    match title {
        Some(t) => {
            let mut es: Vec<Entity> = Vec::new();
            es.push(text(t));
            assert(views(es@) =~= seq![plain(t@)]);
            Some(es)
        },
        None => None,
    }
}

} // verus!
