use craiyon_bot::commands::cobalt_download::{
    download_error_for, error_message, file_extension, format_api_error, format_error_text,
    audio_tags, first_stream, items_to_send, picker_actions, PickerAction, PickerItem, video_size, ErrorText, StreamInfo,
    media_kind, normalized_url, placeholder_values, status_entities, CobaltDownload, ErrorContext,
    MediaKind, PlaceholderValue,
};
use craiyon_bot::commands::{CommandError, CommandTrait};
use serde_json::Value;

fn localization(pairs: &[(&str, &str)]) -> Vec<(String, String)> {
    pairs.iter().map(|(k, v)| (k.to_string(), v.to_string())).collect()
}

#[test]
fn test_format_api_error() {
    assert_eq!(
        format_api_error(
            &localization(&[]),
            ErrorContext { code: "error.api.example".into(), context: None }
        ),
        "error.api.example"
    );

    assert_eq!(
        format_api_error(
            &localization(&[("example", "foo")]),
            ErrorContext { code: "error.bar.example".into(), context: None }
        ),
        "error.bar.example"
    );

    assert_eq!(
        format_api_error(
            &localization(&[("example", "foo")]),
            ErrorContext { code: "error.api.example".into(), context: None }
        ),
        "foo"
    );

    assert_eq!(
        format_api_error(
            &localization(&[("example", "foo {{ bar }} baz")]),
            ErrorContext {
                code: "error.api.example".into(),
                context: Some(placeholder_values(&vec![("bar".into(), Value::String("bax".into()))]))
            }
        ),
        "foo bax baz"
    );
}

#[test]
fn api_error_fills_only_the_first_placeholder_of_each_key() {
    let text = format_api_error(
        &localization(&[("x", "{{ a }}-{{ a }}-{{ b }}")]),
        ErrorContext {
            code: "error.api.x".into(),
            context: Some(placeholder_values(&vec![
                ("a".into(), Value::from(1)),
                ("b".into(), Value::Bool(true)),
            ])),
        },
    );
    assert_eq!(text, "1-{{ a }}-true");
    let text = format_error_text(
        &localization(&[("x", "{{ a }}")]),
        ErrorText { code: "error.api.x".into(), context: Some(vec![("a".into(), "v".into())]) },
    );
    assert_eq!(text, "v");
}

#[test]
fn api_error_without_localization_gives_the_code() {
    let error = ErrorContext { code: "error.api.fetch.fail".into(), context: None };
    assert_eq!(error_message(None, error), "error.api.fetch.fail");
    let error = ErrorContext { code: "error.api.fetch.fail".into(), context: None };
    let texts = localization(&[("fetch.fail", "could not fetch")]);
    assert_eq!(error_message(Some(&texts), error), "could not fetch");
}

#[test]
fn twitter_mirrors_become_twitter() {
    assert_eq!(
        normalized_url("https://fxtwitter.com/user/status/1"),
        "https://twitter.com/user/status/1"
    );
    assert_eq!(normalized_url("https://stupidpenisx.com/a"), "https://twitter.com/a");
    assert_eq!(normalized_url("https://youtube.com/watch?v=x"), "https://youtube.com/watch?v=x");
    assert_eq!(normalized_url("http://fxtwitter.com/a"), "http://fxtwitter.com/a");
}

#[test]
fn file_kinds_by_extension() {
    assert!(matches!(media_kind("clip.MP4"), MediaKind::Video));
    assert!(matches!(media_kind("song.opus"), MediaKind::Audio));
    assert!(matches!(media_kind("song.Weba"), MediaKind::Audio));
    assert!(matches!(media_kind("archive.tar.gz"), MediaKind::Document));
    assert!(matches!(media_kind("mp4"), MediaKind::Document));
    assert!(matches!(media_kind(".mp4"), MediaKind::Document));
    assert!(matches!(media_kind("a/.mp4"), MediaKind::Document));
    assert!(matches!(media_kind("x.mp4/"), MediaKind::Video));
    assert!(matches!(media_kind("dir/clip.mp4/."), MediaKind::Video));
    assert!(matches!(media_kind("clip.mp4/.."), MediaKind::Document));
    assert_eq!(file_extension("dir.d/name"), None);
    assert_eq!(file_extension("a.b.c"), Some("c".to_string()));
    assert_eq!(file_extension("noext"), None);
    assert_eq!(file_extension(".hidden"), None);
    assert_eq!(file_extension("trailing."), Some(String::new()));
}

#[test]
fn picker_sends_at_most_ten() {
    let items: Vec<u32> = (0..14).collect();
    assert_eq!(items_to_send(items), (0..10).collect::<Vec<u32>>());
    assert_eq!(items_to_send(vec![1, 2]), vec![1, 2]);
}

#[test]
fn status_names_the_instance() {
    let es = status_entities("kityune");
    assert_eq!(es.len(), 3);
    assert_eq!(es[0].text, "downloading from ");
    assert_eq!(es[1].text, "kityune");
    assert!(es[1].code);
    assert_eq!(es[2].text, "…");
}

#[test]
fn download_error_links_to_cobalt_with_the_url() {
    let error = download_error_for("failed".into(), "https://example.com/video").unwrap();
    match error {
        CommandError::CustomFormattedText(es) => {
            assert_eq!(es.len(), 3);
            assert_eq!(es[0].text, "failed");
            assert_eq!(es[1].text, "\n");
            assert_eq!(es[2].text, "download using cobalt.tools");
            assert_eq!(
                es[2].url.as_deref(),
                Some("https://cobalt.tools/#https://example.com/video")
            );
        }
        other => panic!("unexpected error {other:?}"),
    }
}

#[test]
fn cobalt_commands() {
    let auto = CobaltDownload::auto();
    assert_eq!(auto.command_names(), &["cobalt_download", "cobalt", "download", "dl"]);
    assert!(!auto.audio_only());
    let audio = CobaltDownload::audio();
    assert_eq!(audio.description(), Some("download audio using ≫ cobalt"));
    assert!(audio.audio_only());
}

fn stream(codec: &str, width: Option<i64>, height: Option<i64>, title: Option<&str>, artist: Option<&str>) -> StreamInfo {
    StreamInfo {
        codec_type: Some(codec.to_string()),
        width,
        height,
        title: title.map(String::from),
        artist: artist.map(String::from),
    }
}

#[test]
fn video_size_comes_from_the_first_video_stream() {
    let streams = vec![
        stream("audio", Some(7), Some(7), Some("t"), None),
        stream("video", Some(1920), Some(1080), None, None),
        stream("video", Some(640), Some(480), None, None),
    ];
    assert_eq!(first_stream(&streams, "video"), Some(1));
    assert_eq!(video_size(&streams), (1920, 1080));
    assert_eq!(video_size(&vec![stream("video", None, Some(2), None, None)]), (0, 2));
    assert_eq!(video_size(&Vec::new()), (0, 0));
}

#[test]
fn audio_tags_come_from_the_first_audio_stream() {
    let mut untyped = stream("audio", None, None, Some("skipped"), None);
    untyped.codec_type = None;
    let streams = vec![
        untyped,
        stream("video", Some(1), Some(1), Some("video title"), Some("x")),
        stream("audio", None, None, Some("Song"), Some("Band")),
        stream("audio", None, None, Some("Other"), Some("Else")),
    ];
    assert_eq!(audio_tags(&streams), ("Song".to_string(), "Band".to_string()));
    assert_eq!(
        audio_tags(&vec![stream("audio", None, None, None, Some("Band"))]),
        (String::new(), "Band".to_string())
    );
    assert_eq!(audio_tags(&Vec::new()), (String::new(), String::new()));
}

#[test]
fn json_values_become_placeholder_texts() {
    let values = placeholder_values(&vec![
        ("s".to_string(), Value::String("bax".into())),
        ("n".to_string(), Value::from(1)),
        ("b".to_string(), Value::Bool(true)),
        ("q".to_string(), Value::from(vec!["x"])),
    ]);
    let keys: Vec<&str> = values.iter().map(|(k, _)| k.as_str()).collect();
    assert_eq!(keys, vec!["s", "n", "b", "q"]);
    assert!(matches!(&values[0].1, PlaceholderValue::Text(t) if t == "bax"));
    assert!(matches!(&values[1].1, PlaceholderValue::Serialized(t) if t == "1"));
    assert!(matches!(&values[2].1, PlaceholderValue::Serialized(t) if t == "true"));
    assert!(matches!(&values[3].1, PlaceholderValue::Serialized(t) if t == "[\"x\"]"));
    let text = format_api_error(
        &localization(&[("x", "{{ s }} {{ n }} {{ q }}")]),
        ErrorContext { code: "error.api.x".into(), context: Some(values) },
    );
    assert_eq!(text, "bax 1 [\"x\"]");
}

fn item(n: usize, thumb: bool) -> PickerItem {
    PickerItem { url: format!("https://e.x/{n}"), thumb: if thumb { Some(format!("t{n}")) } else { None } }
}

fn download_urls(actions: &[PickerAction]) -> Vec<(String, Option<String>)> {
    actions
        .iter()
        .filter_map(|a| match a {
            PickerAction::Download { url, filename } => Some((url.clone(), filename.clone())),
            _ => None,
        })
        .collect()
}

#[test]
fn picker_sends_ten_documents_then_the_audio() {
    let items: Vec<PickerItem> = (0..12).map(|n| item(n, n % 2 == 0)).collect();
    let actions = picker_actions(items, Some("https://e.x/a".into()), Some("a.mp3".into()));
    assert_eq!(actions.len(), 10 + 1 + 2 + 1 + 1);
    let downloads = download_urls(&actions);
    assert_eq!(downloads.len(), 11);
    for (n, d) in downloads.iter().take(10).enumerate() {
        assert_eq!(d, &(format!("https://e.x/{n}"), None));
    }
    assert_eq!(downloads[10], ("https://e.x/a".to_string(), Some("a.mp3".to_string())));
    assert!(matches!(actions[11], PickerAction::ShowUploading));
    match &actions[12] {
        PickerAction::SendAlbum { thumbnails } => {
            let expected: Vec<Option<String>> =
                (0..10).map(|n| if n % 2 == 0 { Some(format!("t{n}")) } else { None }).collect();
            assert_eq!(thumbnails, &expected);
        }
        _ => panic!("the album comes after the downloads"),
    }
    assert!(matches!(actions[13], PickerAction::ReplyAudio));
    assert!(matches!(actions[14], PickerAction::DeleteStatus));
}

#[test]
fn picker_without_audio_sends_no_audio_reply() {
    let actions = picker_actions(vec![item(1, true)], None, Some("ignored".into()));
    assert_eq!(actions.len(), 4);
    assert_eq!(download_urls(&actions), vec![("https://e.x/1".to_string(), None)]);
    assert!(matches!(actions[1], PickerAction::ShowUploading));
    assert!(matches!(&actions[2], PickerAction::SendAlbum { thumbnails } if thumbnails == &vec![Some("t1".to_string())]));
    assert!(matches!(actions[3], PickerAction::DeleteStatus));
}
