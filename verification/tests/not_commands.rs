use craiyon_bot::craiyon::api::{after_failure as api_after_failure, RetryStep};
use craiyon_bot::craiyon::{after_failure, generated_result, remove_newlines, RetryDecision};
use craiyon_bot::logchamp::{enabled, file_line, level_str, max_level, Level};
use craiyon_bot::mathjs::api::{evaluation, response_kind, ResponseKind};
use craiyon_bot::not_commands::accurate::accurate_reply;
use craiyon_bot::not_commands::auto_reply::{auto_reply, retort};
use craiyon_bot::not_commands::calculate_inline::{evaluated_answer, inline_answer, InlineAnswer};
use craiyon_bot::not_commands::rabbit_nie_je::{should_delete, RABBIT_JE};
use craiyon_bot::openai::api::{authorization, first_choice};
use craiyon_bot::passwordpurgatory::make_hell_url;
use craiyon_bot::rate_limit::RateLimiter;

#[test]
fn retorts() {
    assert_eq!(retort("to tomasz fryta!"), Some("real madryt"));
    assert_eq!(retort("musisz obejrz to"), Some("obejrzyj"));
    assert_eq!(retort("obejrzec"), None);
    assert_eq!(retort("zapytaj mu się"), Some("zapytaj go"));
    assert_eq!(retort("spytaj mu"), Some("spytaj go"));
    assert_eq!(retort("wczoraj poszłem"), Some("poszedłem"));
    assert_eq!(retort("nic"), None);
}

#[test]
fn auto_reply_lowercases_and_is_rate_limited() {
    let mut limiter = RateLimiter::new(1, 60);
    assert_eq!(auto_reply(&mut limiter, 1, 0, Some("Tomasz FRYTA")), Some("real madryt"));
    assert_eq!(auto_reply(&mut limiter, 1, 10, Some("nothing here")), None);
    assert_eq!(auto_reply(&mut limiter, 1, 20, Some("tomasz fryta")), None);
    assert_eq!(auto_reply(&mut limiter, 2, 20, Some("tomasz fryta")), Some("real madryt"));
    assert_eq!(auto_reply(&mut limiter, 1, 60, Some("tomasz fryta")), Some("real madryt"));
    assert_eq!(auto_reply(&mut limiter, 3, 0, None), None);
}

#[test]
fn inline_calculation() {
    assert!(matches!(inline_answer(""), InlineAnswer::NoResults));
    match inline_answer(" 2 + 2 ") {
        InlineAnswer::Fixed { title, message } => {
            assert_eq!(title, "5");
            assert_eq!(message, " 2 + 2  = 5");
        }
        _ => panic!("2+2 is answered directly"),
    }
    assert!(matches!(inline_answer("2+3"), InlineAnswer::Evaluate));
    assert_eq!(
        evaluated_answer("1+1", Ok("2".into())),
        ("2".to_string(), "1+1 = 2".to_string())
    );
    assert_eq!(evaluated_answer("x", Err("bad".into())), ("bad".to_string(), "bad".to_string()));
}

#[test]
fn dice_and_forwards() {
    assert_eq!(accurate_reply("🎯", 6), Some("accurate"));
    assert_eq!(accurate_reply("🎯", 5), None);
    assert!(should_delete(Some(RABBIT_JE)));
    assert!(!should_delete(Some(1)));
    assert!(!should_delete(None));
}

#[test]
fn logger_levels() {
    assert!(max_level("craiyon-bot::commands") == Level::Debug);
    assert!(max_level("craiyon-bot") == Level::Debug);
    assert!(max_level("reqwest::connect") == Level::Info);
    assert!(enabled("craiyon-bot::x", Level::Debug));
    assert!(!enabled("hyper", Level::Debug));
    assert!(enabled("hyper", Level::Warn));
    assert!(!enabled("craiyon-bot", Level::Trace));
    assert_eq!(level_str(Level::Warn), "WARN");
    assert_eq!(
        file_line("2024-01-01 00:00:00", "craiyon-bot", Level::Info, "hi"),
        "2024-01-01 00:00:00 [craiyon-bot INFO] hi"
    );
}

#[test]
fn craiyon_retries() {
    assert!(matches!(after_failure(1, false), RetryDecision::RetryAfter(2)));
    assert!(matches!(after_failure(2, true), RetryDecision::RetryAfter(20)));
    assert!(matches!(after_failure(3, false), RetryDecision::GiveUp));
    assert!(matches!(api_after_failure(3), RetryStep::RetryAfter(2)));
    assert!(matches!(api_after_failure(4), RetryStep::GiveUp));
    assert_eq!(remove_newlines("aGVs\nbG8=\n"), "aGVsbG8=");
    let data = vec!["aGVs\nbG8=".to_string(), "d29y\nbGQ=".to_string()];
    let result = generated_result(&data, std::time::Duration::from_secs(3)).unwrap();
    assert_eq!(result.images, vec![b"hello".to_vec(), b"world".to_vec()]);
    assert_eq!(result.duration.as_secs(), 3);
    assert!(generated_result(&vec!["@@@".to_string()], std::time::Duration::ZERO).is_none());
}

#[test]
fn small_services() {
    assert!(matches!(response_kind(200), ResponseKind::Result));
    assert!(matches!(response_kind(400), ResponseKind::Error));
    assert_eq!(evaluation(ResponseKind::Error, "oops".into()), Err("oops".to_string()));
    assert_eq!(authorization("abc"), "Bearer abc");
    assert_eq!(first_choice(vec!["x".into(), "y".into()]), "x");
    assert_eq!(
        make_hell_url("hunter 2").unwrap(),
        "https://api.passwordpurgatory.com/make-hell?password=hunter+2"
    );
}
