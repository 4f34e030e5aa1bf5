use craiyon_bot::commands::autocomplete::{completion_reply, pick_completion};
use craiyon_bot::commands::charinfo::char_entities;
use craiyon_bot::commands::config::{
    chat_admin_guard, chat_group_guard, configure_learning, is_markov_chain_learning,
    learning_reply, setting_names, MemberStatus,
};
use craiyon_bot::commands::convert::{
    find_currency, joiner, lookup_currency, resolve_currencies, target_currencies, CurrencyMatch,
};
use craiyon_bot::commands::craiyon::{caption_entities, Craiyon, Model};
use craiyon_bot::commands::delete::{message_to_delete, OWNER_ID};
use craiyon_bot::commands::dice_reply::{dice_success, reply_for};
use craiyon_bot::commands::craiyon_search::result_pictures;
use craiyon_bot::images::{decode_picture, decoded_pictures, ImageKind};
use craiyon_bot::commands::different_dimension_me::{
    check_image, crop_region, crop_result_image, redrawn_png, refusal_text,
};
use craiyon_bot::commands::flux::{image_bytes, prompt_of};
use craiyon_bot::commands::google_palm::{error_text, filtered_text, ContentFilter};
use craiyon_bot::commands::groq::{hide_thinking_sections, Groq};
use craiyon_bot::commands::httpcat::{cat_url, status_code};
use craiyon_bot::commands::kebab::{random_name, shop_name};
use craiyon_bot::commands::kiwifarms::status_text;
use craiyon_bot::commands::makersuite::{format_citations, CitationSource};
use craiyon_bot::commands::chat_completion::{api_error, conversation, ChainMessage};
use craiyon_bot::commands::openrouter::{prompt_messages, OpenRouter};
use craiyon_bot::commands::ping::ping_text;
use craiyon_bot::commands::polymarket::{event_entities, keep_markets, Event, Market};
use craiyon_bot::commands::radio_sur::{stations_reply, StationEntities};
use craiyon_bot::commands::screenshot::{photo_caption, target_url};
use craiyon_bot::commands::sex::sticker_index;
use craiyon_bot::commands::stable_diffusion::{credits_for, HordeStatus, PollState, PollStep};
use craiyon_bot::commands::stablehorde::progress_bar;
use craiyon_bot::commands::trollslate::{languages_line, pick_languages};
use craiyon_bot::commands::tts::text_to_synthesize;
use craiyon_bot::commands::urbandictionary::{
    format_date, format_definition, remove_brackets, CalendarDate, Card,
};
use craiyon_bot::commands::yt_dlp::{check_download, media_name, Infojson};
use craiyon_bot::commands::{CommandError, CommandTrait};
use craiyon_bot::message_entities::{text_str, Entity};

fn custom_message(error: CommandError) -> String {
    match error {
        CommandError::Custom(m) => m,
        other => panic!("unexpected error {other:?}"),
    }
}

fn texts(es: &[Entity]) -> Vec<String> {
    es.iter().map(|e| e.text.clone()).collect()
}

#[test]
fn httpcat_accepts_known_status_codes() {
    assert_eq!(status_code("404").unwrap(), 404);
    assert_eq!(status_code("418").unwrap(), 418);
    assert_eq!(custom_message(status_code("419").unwrap_err()), "error: invalid HTTP status code");
    assert_eq!(custom_message(status_code("cat").unwrap_err()), "error: invalid HTTP status code");
    assert_eq!(custom_message(status_code("70000").unwrap_err()), "error: invalid HTTP status code");
    assert_eq!(cat_url(503), "https://http.cat/503");
}

#[test]
fn kiwifarms_status() {
    assert_eq!(status_text(203), "yes 🤬");
    assert_eq!(status_text(502), "502 no");
}

#[test]
fn tts_needs_a_short_text() {
    match text_to_synthesize(None).unwrap_err() {
        CommandError::MissingArgument(m) => assert_eq!(m, "text to synthesize"),
        other => panic!("unexpected error {other:?}"),
    }
    assert_eq!(
        custom_message(text_to_synthesize(Some("ą".repeat(1025))).unwrap_err()),
        "this text is too long."
    );
    assert_eq!(text_to_synthesize(Some("ą".repeat(1024))).unwrap(), "ą".repeat(1024));
}

#[test]
fn small_replies() {
    assert_eq!(sticker_index(Some("?why")), 0);
    assert_eq!(sticker_index(Some("why?")), 1);
    assert_eq!(sticker_index(None), 1);
    assert_eq!(message_to_delete(OWNER_ID, Some(5)), Some(5));
    assert_eq!(message_to_delete(1, Some(5)), None);
    assert_eq!(ping_text(42), "ping: 42ms");
}

#[test]
fn dice_successes() {
    assert!(dice_success("🎲", 6));
    assert!(!dice_success("🎲", 5));
    assert!(dice_success("🏀", 5));
    assert!(dice_success("⚽", 3));
    assert!(!dice_success("⚽", 2));
    assert!(dice_success("🎰", 1));
    assert!(dice_success("🎰", 22));
    assert!(dice_success("🎰", 64));
    assert!(!dice_success("🎰", 2));
    assert!(!dice_success("🎰", -20));
    assert!(!dice_success("🃏", 6));
    assert_eq!(reply_for(true, false), Some("accurate"));
    assert_eq!(reply_for(false, true), Some("skill issue"));
    assert_eq!(reply_for(false, false), None);
}

#[test]
fn charinfo_names_characters() {
    let es = char_entities("A é");
    assert_eq!(
        texts(&es),
        vec![
            "A",
            " ",
            "U+0041",
            " – ",
            "LATIN CAPITAL LETTER A",
            "\n",
            "\n",
            "é",
            " ",
            "U+00E9",
            " – ",
            "LATIN SMALL LETTER E WITH ACUTE",
        ]
    );
    let long = char_entities("abcdefghijkl");
    assert_eq!(long.last().unwrap().text, "…");
    assert_eq!(long.len(), 10 * 6 - 1 + 1);
}

#[test]
fn urbandictionary_definition() {
    assert_eq!(remove_brackets("a [word] here"), "a word here");
    assert_eq!(format_date(&CalendarDate { year: 2024, month: 3, day: 7 }), "2024-03-07");
    assert_eq!(format_date(&CalendarDate { year: 33, month: 12, day: 31 }), "0033-12-31");
    let card = Card {
        word: "yeet".into(),
        definition: "to [throw]".into(),
        example: "[]".into(),
        permalink: "https://yeet.urbanup.com/1".into(),
        author: "some one".into(),
        written_on: CalendarDate { year: 2019, month: 1, day: 2 },
        thumbs_up: 10,
        thumbs_down: 2,
    };
    let es = format_definition(&card).unwrap();
    assert_eq!(
        texts(&es),
        vec!["yeet", "\n", "to throw", "\n\n", "by ", "some one", ", ", "2019-01-02", "\n", "👍 ", "10", " 👎 ", "2"]
    );
    assert_eq!(es[0].url.as_deref(), Some("https://yeet.urbanup.com/1"));
    assert!(es[0].bold);
    assert_eq!(es[5].url.as_deref(), Some("https://urbandictionary.com/author.php?author=some+one"));
}

#[test]
fn yt_dlp_refusals() {
    let base = || Infojson {
        extractor: "youtube".into(),
        live_status: None,
        duration: Some(60),
        filesize_approx: None,
        artist: None,
        channel: Some("chan".into()),
        track: None,
        title: Some("song".into()),
        webpage_url: "https://youtu.be/x".into(),
        ext: "mp4".into(),
    };
    assert!(check_download(&base()).is_ok());
    let mut info = base();
    info.extractor = "pornhub".into();
    assert_eq!(custom_message(check_download(&info).unwrap_err()), "bruh");
    let mut info = base();
    info.live_status = Some("is_live".into());
    assert_eq!(custom_message(check_download(&info).unwrap_err()), "cannot download livestreams.");
    let mut info = base();
    info.duration = Some(3601);
    assert_eq!(
        custom_message(check_download(&info).unwrap_err()),
        "cannot download media longer than 1h."
    );
    let mut info = base();
    info.duration = None;
    assert_eq!(
        custom_message(check_download(&info).unwrap_err()),
        "cannot download media, because duration and filesize are unknown."
    );
    info.filesize_approx = Some(2 * 1024 * 1024 * 1024);
    assert_eq!(
        custom_message(check_download(&info).unwrap_err()),
        "cannot download media larger than 1 GiB."
    );
    let name = media_name(&base()).unwrap();
    assert_eq!(name.text, "chan – song");
    assert!(name.italic);
    assert_eq!(name.url.as_deref(), Some("https://youtu.be/x"));
}

#[test]
fn convert_arguments() {
    let words = |ws: &[&str]| ws.iter().map(|w| w.to_string()).collect::<Vec<_>>();
    assert_eq!(target_currencies(&words(&["to", "pln", "btc"])), vec!["pln", "btc"]);
    assert_eq!(target_currencies(&words(&["TO"])), vec!["usd"]);
    assert_eq!(target_currencies(&words(&[])), vec!["usd"]);
    assert_eq!(find_currency(&words(&["USD", "PLN"]), "pln"), Some(1));
    assert_eq!(find_currency(&words(&["USD"]), "gbp"), None);
    assert_eq!(joiner(2), " = ");
    assert_eq!(joiner(3), "\n= ");
}

#[test]
fn config_rules() {
    assert!(is_markov_chain_learning("Markov_Chain_Learning"));
    assert!(!is_markov_chain_learning("markov"));
    assert!(chat_group_guard(true).is_ok());
    assert_eq!(
        custom_message(chat_group_guard(false).unwrap_err()),
        "this setting can be only set in groups."
    );
    assert!(chat_admin_guard(MemberStatus::Creator).is_ok());
    assert!(chat_admin_guard(MemberStatus::Administrator { can_change_info: true }).is_ok());
    assert_eq!(
        custom_message(chat_admin_guard(MemberStatus::Other).unwrap_err()),
        "this setting requires the Change Group Info permission."
    );
    assert_eq!(learning_reply(true, false), "Markov chain learning was already enabled.");
    assert_eq!(texts(&setting_names()), vec!["markov_chain_learning"]);
    let mut chats = std::collections::HashSet::new();
    assert_eq!(configure_learning(&mut chats, -5, true), "Markov chain will now learn from chat messages.");
    assert_eq!(configure_learning(&mut chats, -5, true), "Markov chain learning was already enabled.");
    assert!(chats.contains(&-5));
    assert_eq!(
        configure_learning(&mut chats, -5, false),
        "Markov chain won't learn from chat messages anymore."
    );
    assert_eq!(configure_learning(&mut chats, -5, false), "Markov chain learning was already disabled.");
    assert!(chats.is_empty());
}

#[test]
fn craiyon_commands_and_caption() {
    let art = Craiyon::art();
    assert_eq!(art.command_names(), &["craiyon_art"]);
    assert!(art.model() == Model::Art);
    let urls = vec!["https://a/1".to_string(), "https://a/2".to_string()];
    let es = caption_entities("cat".into(), "5s".into(), &urls, "dog".into());
    assert_eq!(
        texts(&es),
        vec!["drawn ", "cat", " in ", "5s", ".\ndownload: ", "1", " ", "2", "\nsuggested prompt: ", "dog"]
    );
    assert_eq!(es[6 - 1].url.as_deref(), Some("https://a/1"));
    assert_eq!(es[7].url.as_deref(), Some("https://a/2"));
}

#[test]
fn flux_prompt_and_image() {
    assert_eq!(prompt_of(Some("  /flux  a red fox ")), Some("a red fox".to_string()));
    assert_eq!(prompt_of(Some("/flux")), None);
    assert_eq!(prompt_of(None), None);
    assert_eq!(image_bytes("aGVsbG8=").unwrap(), b"hello".to_vec());
    assert!(matches!(image_bytes("not base64!"), Err(CommandError::Custom(_))));
}

#[test]
fn palm_replies() {
    let filters = vec![
        ContentFilter { reason: "SAFETY".into(), message: Some("nope".into()) },
        ContentFilter { reason: "OTHER".into(), message: None },
    ];
    assert_eq!(filtered_text(&filters), "request filtered by Google: SAFETY: nope, OTHER.");
    assert_eq!(error_text(-3, "bad"), "error -3: bad");
}

#[test]
fn groq_hides_thinking() {
    let text: String = hide_thinking_sections("<think>abc</think> answer").into_iter().collect();
    assert_eq!(text, "[18 thinking chars hidden]\n\nanswer");
    let reply = Groq::thinker().reply_text("<think>x</think>", "length");
    assert_eq!(reply.text, "[16 thinking chars hidden]\n\n [length]");
    assert!(reply.markdown);
}

#[test]
fn gemini_citations() {
    let sources = vec![
        CitationSource { uri: Some("https://a".into()), license: Some("mit".into()) },
        CitationSource { uri: None, license: None },
        CitationSource { uri: Some("https://c".into()), license: Some(String::new()) },
    ];
    assert_eq!(format_citations(&sources), "\n[1] [mit] https://a\n[3] https://c");
}

#[test]
fn openrouter_conversation() {
    let chain = vec![
        ChainMessage { text: Some("hi".into()), bot_author: false },
        ChainMessage { text: None, bot_author: false },
        ChainMessage { text: Some("hello".into()), bot_author: true },
    ];
    let messages = prompt_messages(chain).unwrap();
    assert_eq!(messages.len(), 3);
    assert_eq!(messages[0].role, "system");
    assert_eq!(messages[1].role, "user");
    assert_eq!(messages[1].content, "hi");
    assert_eq!(messages[2].role, "assistant");
    let empty = vec![ChainMessage { text: None, bot_author: true }];
    assert_eq!(custom_message(prompt_messages(empty).unwrap_err()), "no prompt provided.");
    assert_eq!(OpenRouter::perplexity().model(), "perplexity/sonar");
    let only_system = conversation(&vec![ChainMessage { text: None, bot_author: false }]);
    assert_eq!(only_system.len(), 1);
    assert_eq!(custom_message(api_error(429, "slow down")), "error 429: slow down");
}

#[test]
fn polymarket_markets() {
    let market = |title: Option<&str>, outcomes: &[&str], prices: &[&str], labels: &[&str]| Market {
        group_item_title: title.map(|t| t.to_string()),
        outcomes: outcomes.iter().map(|s| s.to_string()).collect(),
        outcome_prices: prices.iter().map(|s| s.to_string()).collect(),
        price_labels: labels.iter().map(|s| s.to_string()).collect(),
    };
    let kept = keep_markets(vec![
        market(Some("A"), &["Yes", "No"], &["0", "1"], &["0.0%", "100.0%"]),
        market(Some("B"), &["Yes", "No"], &["0.3", "0.7"], &["30.0%", "70.0%"]),
    ]);
    assert_eq!(kept.len(), 1);
    assert_eq!(kept[0].group_item_title.as_deref(), Some("B"));
    let event = Event {
        title: "Election".into(),
        slug: "election".into(),
        end_date: CalendarDate { year: 2028, month: 11, day: 7 },
        markets: vec![
            market(Some("B"), &["Yes", "No"], &["0.3", "0.7"], &["30.0%", "70.0%"]),
            market(None, &["Red", "Blue"], &["0.4", "0.6"], &["40.0%", "60.0%"]),
            market(Some("C"), &["Yes", "No"], &[], &[]),
        ],
    };
    let es = event_entities(&event);
    assert_eq!(
        texts(&es),
        vec![
            "Election", " (", "2028-11-07", ")\n", "B", ": ", "30.0%", "\n", "Red", " ", "40.0%",
            " / ", "Blue", " ", "60.0%",
        ]
    );
    assert_eq!(es[0].url.as_deref(), Some("https://polymarket.com/event/election"));
}

#[test]
fn radio_sur_orders_stations() {
    let station = |id: i64, t: &str| StationEntities { id, entities: vec![text_str(t)] };
    let es = stations_reply(vec![station(3, "c"), station(1, "a"), station(2, "b")]);
    assert_eq!(texts(&es), vec!["a", "\n\n", "b", "\n\n", "c"]);
}

#[test]
fn screenshot_adds_a_scheme() {
    assert_eq!(target_url("example.com").unwrap(), "http://example.com/");
    assert_eq!(target_url("https://example.com/a").unwrap(), "https://example.com/a");
    assert!(target_url("http://[::1").is_err());
}

#[test]
fn stable_diffusion_polling() {
    let status = |done: bool, finished: usize, wait_time: u64| HordeStatus {
        waiting: 1,
        processing: 0,
        finished,
        done,
        wait_time,
        queue_position: 3,
    };
    let mut state = PollState::new();
    assert!(matches!(state.step(status(false, 0, 40), 0), PollStep::Publish { join_notice: true }));
    assert!(matches!(state.step(status(false, 0, 40), 20_000), PollStep::Skip));
    assert!(matches!(state.step(status(false, 1, 20), 5_000), PollStep::Skip));
    assert!(matches!(state.step(status(false, 1, 20), 10_000), PollStep::Publish { join_notice: true }));
    assert!(matches!(state.step(status(true, 2, 0), 11_000), PollStep::Done));
    assert_eq!(progress_bar(1, 1, 1), "[=====-----     ]");
    let workers: Vec<String> = ["w1", "w2", "w1"].iter().map(|s| s.to_string()).collect();
    assert_eq!(credits_for(&workers), vec!["w1 (2)", "w2"]);
}

#[test]
fn trollslate_languages() {
    let picked = pick_languages();
    assert_eq!(picked.len(), 9);
    for (i, a) in picked.iter().enumerate() {
        for b in &picked[i + 1..] {
            assert_ne!(a, b);
        }
    }
    let names = vec!["English".to_string(), "Polish".to_string()];
    assert_eq!(languages_line(&names), "*English* ➜ *Polish*");
}

#[test]
fn different_dimension_me_checks() {
    assert_eq!(custom_message(check_image(None).unwrap_err()), "send or reply to an image.");
    assert_eq!(
        custom_message(check_image(Some(4 * 1024 * 1024 + 1)).unwrap_err()),
        "the image cannot be larger than 4 MiB."
    );
    assert!(check_image(Some(4 * 1024 * 1024)).is_ok());
    let region = crop_region(800, 1257).unwrap();
    assert_eq!((region.x, region.y, region.width, region.height), (20, 543, 758, 504));
    assert!(crop_region(801, 1257).is_none());
    assert_eq!(
        refusal_text(7, "IMG_ILLEGAL", "ignored".into()),
        "Xi Jinping does not approve of this image and has censored it (error 7: IMG_ILLEGAL)"
    );
    assert_eq!(refusal_text(7, "OTHER", "described".into()), "described");
}

#[test]
fn random_picks() {
    let name = random_name();
    let words: Vec<&str> = name.split(' ').collect();
    assert_eq!(words.len(), 2);
    assert_ne!(words[0], words[1]);
    let pool = ["kebab", "king", "house", "super", "arab", "hot", "sauce"];
    assert!(pool.contains(&words[0]) && pool.contains(&words[1]));
    assert_eq!(pick_completion(vec!["one".into()]).unwrap(), "one");
    assert_eq!(pick_completion(Vec::new()).unwrap_err(), "no autocompletions");
}

#[test]
fn crops_the_service_layouts() {
    let jpeg = encoded(800, 1257, image::ImageFormat::Jpeg);
    let result = decode_picture(&jpeg, ImageKind::Jpeg).unwrap();
    assert_eq!(result.size(), (800, 1257));
    let cropped = crop_result_image(result);
    assert_eq!(cropped.size(), (758, 504));
    let image = cropped.into_image();
    assert_eq!((image.width(), image.height()), (758, 504));
    let other_layout = encoded(1000, 930, image::ImageFormat::Jpeg);
    let other_layout = decode_picture(&other_layout, ImageKind::Jpeg).unwrap();
    assert_eq!(crop_result_image(other_layout).size(), (471, 705));
    let other = decode_picture(&encoded(10, 20, image::ImageFormat::Jpeg), ImageKind::Jpeg).unwrap();
    assert_eq!(crop_result_image(other).size(), (10, 20));
}

#[test]
fn completions_and_names() {
    let options = vec!["a".to_string(), "b".to_string()];
    assert_eq!(completion_reply(options, Some(1)).unwrap(), "b");
    assert_eq!(completion_reply(Vec::new(), None).unwrap_err(), "no autocompletions");
    assert_eq!(shop_name("kebab", "king"), "kebab king");
}

fn encoded(width: u32, height: u32, format: image::ImageFormat) -> Vec<u8> {
    let mut buffer = std::io::Cursor::new(Vec::new());
    image::DynamicImage::new_rgb8(width, height).write_to(&mut buffer, format).unwrap();
    buffer.into_inner()
}

#[test]
fn redraws_and_crops_the_service_result() {
    let png = redrawn_png(&encoded(800, 1257, image::ImageFormat::Jpeg)).unwrap();
    let image = image::load_from_memory_with_format(&png, image::ImageFormat::Png).unwrap();
    assert_eq!((image.width(), image.height()), (758, 504));
    assert!(redrawn_png(&b"not a jpeg".to_vec()).is_err());
}

#[test]
fn search_pictures_are_resized() {
    let images = vec![encoded(10, 10, image::ImageFormat::WebP), b"broken".to_vec()];
    let pictures = result_pictures(&images);
    assert_eq!(pictures.len(), 1);
    assert_eq!(pictures[0].size(), (512, 512));
}

#[test]
fn decoding_keeps_order_and_drops_broken_inputs() {
    let images = vec![
        encoded(3, 4, image::ImageFormat::WebP),
        b"broken".to_vec(),
        encoded(5, 6, image::ImageFormat::WebP),
    ];
    let pictures = decoded_pictures(&images, ImageKind::WebP, None);
    let sizes: Vec<(u32, u32)> = pictures.iter().map(|p| p.size()).collect();
    assert_eq!(sizes, vec![(3, 4), (5, 6)]);
    assert!(decode_picture(b"broken", ImageKind::WebP).is_err());
    assert!(decode_picture(&images[0], ImageKind::Jpeg).is_err());
}

fn codes(list: &[&str]) -> Vec<String> {
    list.iter().map(|c| c.to_string()).collect()
}

#[test]
fn currencies_are_looked_up_fiat_first() {
    let fiat = codes(&["USD", "GBP", "BTC"]);
    let coins = codes(&["BTC", "ETH"]);
    assert_eq!(lookup_currency(&fiat, &coins, "eur"), Some(CurrencyMatch::Euro));
    assert_eq!(lookup_currency(&fiat, &coins, "gbp"), Some(CurrencyMatch::Fiat(1)));
    assert_eq!(lookup_currency(&fiat, &coins, "btc"), Some(CurrencyMatch::Fiat(2)));
    assert_eq!(lookup_currency(&fiat, &coins, "Eth"), Some(CurrencyMatch::Coin(1)));
    assert_eq!(lookup_currency(&fiat, &coins, "xyz"), None);
}

#[test]
fn unknown_currencies_fail_in_order() {
    let fiat = codes(&["USD"]);
    let coins = codes(&["ETH"]);
    let (source, targets) =
        resolve_currencies(&fiat, &coins, "usd".to_string(), &codes(&["eth", "EUR"])).unwrap();
    assert_eq!(source, CurrencyMatch::Fiat(0));
    assert_eq!(targets, vec![CurrencyMatch::Coin(0), CurrencyMatch::Euro]);
    match resolve_currencies(&fiat, &coins, "abc".to_string(), &codes(&["def"])) {
        Err(CommandError::CustomFormattedText(es)) => {
            assert_eq!(texts(&es), vec!["could not find source currency ", "abc"]);
            assert!(!es[0].code && es[1].code);
        }
        _ => panic!("the source is unknown"),
    }
    match resolve_currencies(&fiat, &coins, "eth".to_string(), &codes(&["usd", "def", "ghi"])) {
        Err(CommandError::CustomFormattedText(es)) => {
            assert_eq!(texts(&es), vec!["could not find target currency ", "def"]);
            assert!(!es[0].code && es[1].code);
        }
        _ => panic!("a target is unknown"),
    }
}

#[test]
fn screenshot_caption_is_the_page_title() {
    let caption = photo_caption(Some("Example Domain".to_string())).unwrap();
    assert_eq!(texts(&caption), vec!["Example Domain"]);
    assert!(!caption[0].bold && !caption[0].code && caption[0].url.is_none());
    assert!(photo_caption(None).is_none());
}
