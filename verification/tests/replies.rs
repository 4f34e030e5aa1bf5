use craiyon_bot::commands::badtranslate::{translated_text, words_to_translate};
use craiyon_bot::commands::craiyon::renamed_notice;
use craiyon_bot::commands::craiyon_search::{
    caption_line, picture_url, results_caption, results_to_show, ShownResult,
};
use craiyon_bot::commands::generate::{caption_markdown, prompt_argument};
use craiyon_bot::commands::markov_chain::{generated_reply, learning_notice, may_generate};
use craiyon_bot::commands::mevo::stats_entities;
use craiyon_bot::commands::moveit_joke::joke_text;
use craiyon_bot::commands::obscuretube::video_url;
use craiyon_bot::commands::start::start_text;
use craiyon_bot::commands::startit_joke::joke_text as startit_joke_text;
use craiyon_bot::commands::translate::translation_entities;
use craiyon_bot::commands::stable_diffusion::{prompt_argument as sd_prompt_argument, status_markdown, PromptStep};
use craiyon_bot::commands::stable_diffusion::HordeStatus;
use craiyon_bot::commands::CommandError;

#[test]
fn start_greeting() {
    let es = start_text();
    assert_eq!(es.len(), 11);
    assert!(es[0].text.starts_with("hello! this bot contains many useful and fun commands like:\n"));
    assert_eq!(es[1].text, "≫ cobalt");
    assert_eq!(es[1].url.as_deref(), Some("https://cobalt.tools/"));
    assert_eq!(es[10].text, "!\n- @zuzia");
}

#[test]
fn markov_chain_replies() {
    assert!(may_generate(true, false));
    assert!(may_generate(false, true));
    assert!(!may_generate(false, false));
    let notice = learning_notice();
    assert_eq!(notice[1].text, "/config markov_chain_learning true");
    assert!(notice[1].code);
    assert_eq!(generated_reply(None), "no text was generated.");
    assert_eq!(generated_reply(Some("hey".into())), "hey");
}

#[test]
fn mevo_and_translate() {
    let es = stats_entities(5, 100, 40, 90, "12 min".into(), "15 min".into());
    let texts: Vec<&str> = es.iter().map(|e| e.text.as_str()).collect();
    assert_eq!(
        texts,
        vec![
            "jadący teraz: ",
            "5",
            ", dzisiaj: ",
            "100",
            " (",
            "40",
            " użytkowników), wczoraj: ",
            "90",
            "\nśredni czas dzisiaj: ",
            "12 min",
            ", w tym roku: ",
            "15 min",
        ]
    );
    assert!(es[1].bold && !es[0].bold);
    let es = translation_entities("Polish", "English", "hello".into());
    let texts: Vec<&str> = es.iter().map(|e| e.text.as_str()).collect();
    assert_eq!(texts, vec!["Polish", " ➜ ", "English", "\n", "hello"]);
}

#[test]
fn bad_translation_words() {
    assert_eq!(words_to_translate("dzień  dobry\tpanie"), vec!["dzień", "dobry", "panie"]);
    let words = vec!["day".to_string(), "good".to_string()];
    assert_eq!(translated_text(&words), "day good");
}

#[test]
fn craiyon_texts() {
    let notice: Vec<String> = renamed_notice().into_iter().map(|e| e.text).collect();
    assert_eq!(notice[0], "this command was renamed to ");
    assert_eq!(notice[8], ". use one of them instead.");
    assert_eq!(results_to_show((0..12).collect::<Vec<i32>>()).len(), 9);
    assert_eq!(picture_url("abc").unwrap(), "https://pics.craiyon.com/abc");
    assert_eq!(picture_url("a b").unwrap(), "https://pics.craiyon.com/a%20b");
    let shown = vec![
        ShownResult { escaped_prompt: "a cat".into(), image_id: "x".into() },
        ShownResult { escaped_prompt: "a dog".into(), image_id: "y".into() },
    ];
    assert_eq!(
        results_caption(&shown),
        "1\\. [a cat](https://pics.craiyon.com/x)\n2\\. [a dog](https://pics.craiyon.com/y)"
    );
    assert_eq!(caption_line(3, "a cat", "id"), "3\\. [a cat](https://pics.craiyon.com/id)");
    assert_eq!(caption_markdown("cat", "1 min"), "generated *cat* in 1 min\\.");
    assert!(matches!(prompt_argument(None), Err(CommandError::MissingArgument("prompt to generate"))));
}

#[test]
fn small_texts() {
    assert_eq!(joke_text(12, "haha"), "[12] haha");
    assert_eq!(startit_joke_text("joke"), "Kacper Podpora mówi: joke");
    assert_eq!(video_url("dQw4w9WgXcQ"), "https://youtu.be/dQw4w9WgXcQ");
    let status = HordeStatus {
        waiting: 0,
        processing: 1,
        finished: 1,
        done: false,
        wait_time: 40,
        queue_position: 0,
    };
    assert_eq!(
        status_markdown("a\\.b", &status, "1 min", false),
        "Generating a\\.b…\n`[=====-----]` ETA: 1 min"
    );
    assert!(status_markdown("x", &status, "1 min", true).ends_with("yourself](https://stablehorde.net/)\\!"));
}

#[test]
fn stable_diffusion_missing_prompt_is_answered() {
    assert!(matches!(sd_prompt_argument(None), PromptStep::ReplyMissingArgument("prompt to generate")));
    match sd_prompt_argument(Some("a cat".to_string())) {
        PromptStep::Generate(p) => assert_eq!(p, "a cat"),
        PromptStep::ReplyMissingArgument(_) => panic!("a prompt was given"),
    }
}
