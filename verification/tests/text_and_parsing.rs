use craiyon_bot::parsed_command::{FormattedText, ParsedCommand, TextEntity};
use craiyon_bot::rate_limit::RateLimiter;
use craiyon_bot::tally::name_counts;
use craiyon_bot::text::{decimal_string, join_strings, parse_u16, split_ascii_words};

fn command(text: &str, length: i32) -> FormattedText {
    FormattedText {
        text: text.into(),
        entities: vec![TextEntity { offset: 0, length, is_bot_command: true }],
    }
}

#[test]
fn parses_a_command_with_username_and_arguments() {
    let parsed = ParsedCommand::parse(&command("/Start@some_bot  hello world", 15)).unwrap();
    assert_eq!(parsed.name, "start");
    assert_eq!(parsed.bot_username.as_deref(), Some("some_bot"));
    assert_eq!(parsed.arguments.as_deref(), Some("hello world"));
}

#[test]
fn parses_a_bare_command() {
    let parsed = ParsedCommand::parse(&command("/ping", 5)).unwrap();
    assert_eq!(parsed.name, "ping");
    assert_eq!(parsed.bot_username, None);
    assert_eq!(parsed.arguments, None);
}

#[test]
fn text_without_a_leading_command_does_not_parse() {
    let text = FormattedText {
        text: "hi /ping".into(),
        entities: vec![TextEntity { offset: 3, length: 5, is_bot_command: true }],
    };
    assert!(ParsedCommand::parse(&text).is_none());
    let text = FormattedText { text: "/ping".into(), entities: vec![] };
    assert!(ParsedCommand::parse(&text).is_none());
    assert!(ParsedCommand::parse(&command("/ping", 0)).is_none());
}

#[test]
fn rate_limiter_accepts_up_to_the_limit_per_window() {
    let mut limiter = RateLimiter::new(2, 60);
    assert_eq!(limiter.update_rate_limit(7, 100), None);
    assert_eq!(limiter.update_rate_limit(7, 110), None);
    assert_eq!(limiter.update_rate_limit(7, 120), Some(40));
    assert_eq!(limiter.update_rate_limit(7, 159), Some(1));
    assert_eq!(limiter.update_rate_limit(7, 160), None);
    assert_eq!(limiter.update_rate_limit(8, 120), None);
}

#[test]
fn refused_requests_are_not_counted() {
    let mut limiter = RateLimiter::new(1, 10);
    assert_eq!(limiter.update_rate_limit(1, 0), None);
    assert_eq!(limiter.update_rate_limit(1, 5), Some(5));
    assert_eq!(limiter.update_rate_limit(1, 9), Some(1));
    assert_eq!(limiter.update_rate_limit(1, 10), None);
}

#[test]
fn parses_u16_like_str_parse() {
    assert_eq!(parse_u16("404"), Some(404));
    assert_eq!(parse_u16("+7"), Some(7));
    assert_eq!(parse_u16("65535"), Some(65535));
    assert_eq!(parse_u16("65536"), None);
    assert_eq!(parse_u16("99999999999999"), None);
    assert_eq!(parse_u16(""), None);
    assert_eq!(parse_u16("+"), None);
    assert_eq!(parse_u16("-1"), None);
    assert_eq!(parse_u16("4 04"), None);
    assert_eq!(parse_u16("007"), Some(7));
}

#[test]
fn splits_at_ascii_whitespace() {
    assert_eq!(split_ascii_words("  a  bc\td\n"), vec!["a", "bc", "d"]);
    assert!(split_ascii_words(" \t ").is_empty());
    assert_eq!(split_ascii_words("one"), vec!["one"]);
}

#[test]
fn joins_with_a_separator() {
    let parts = vec!["a".to_string(), "b".to_string(), "c".to_string()];
    assert_eq!(join_strings(&parts, ", "), "a, b, c");
    assert_eq!(join_strings(&Vec::new(), ", "), "");
}

#[test]
fn writes_decimals() {
    assert_eq!(decimal_string(0), "0");
    assert_eq!(decimal_string(1234567890), "1234567890");
    assert_eq!(decimal_string(u64::MAX), "18446744073709551615");
}

#[test]
fn counts_names_most_common_first() {
    let names: Vec<String> = ["b", "a", "b", "c", "b", "a"].iter().map(|s| s.to_string()).collect();
    let counts = name_counts(&names);
    assert_eq!(counts.len(), 3);
    assert_eq!(counts[0], ("b".to_string(), 3));
    assert_eq!(counts[1], ("a".to_string(), 2));
    assert_eq!(counts[2], ("c".to_string(), 1));
}

#[test]
fn rate_limiter_counts_only_accepted_requests_in_the_window() {
    let mut limiter = RateLimiter::new(2, 60);
    assert_eq!(limiter.update_rate_limit(3, 0), None);
    assert_eq!(limiter.update_rate_limit(3, 10), None);
    assert_eq!(limiter.update_rate_limit(3, 20), Some(40));
    assert_eq!(limiter.update_rate_limit(3, 61), None);
    assert_eq!(limiter.update_rate_limit(3, 65), Some(5));
    assert_eq!(limiter.update_rate_limit(3, 70), None);
}
