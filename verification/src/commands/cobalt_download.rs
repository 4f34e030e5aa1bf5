//! Downloads through cobalt: links, error messages and how files are sent.
use serde_json::Value;
use vstd::prelude::*;

use crate::commands::{CommandError, CommandTrait};
use crate::links::{set_fragment, url_with_fragment};
use crate::message_entities::{code, code_text, link, plain, text, text_str, views, with_url, Entity, EntityView};
use crate::text::{
    chars_equal, chars_of, chars_start_with, eq_ignore_ascii_case, find, find_chars, push_chars, push_str,
    slice_chars, starts_with, str_eq_ignore_ascii_case, str_equal, string_from_chars, string_of_range,
};

verus! {

/// Downloads online media through a cobalt instance.
pub struct CobaltDownload {
    command_names: &'static [&'static str],
    description: &'static str,
    audio_only: bool,
}

impl CobaltDownload {
    /// Whether only the audio is asked for.
    pub closed spec fn spec_audio_only(&self) -> bool {
        self.audio_only
    }

    /// The command that downloads whatever media the link holds.
    pub fn auto() -> (r: Self)
        ensures
            r.spec_names() == seq!["cobalt_download"@, "cobalt"@, "download"@, "dl"@],
            r.spec_description() == Some("download online media using ≫ cobalt"@),
            !r.spec_audio_only(),
    {
        let r = Self {
            command_names: &["cobalt_download", "cobalt", "download", "dl"],
            description: "download online media using ≫ cobalt",
            audio_only: false,
        };
        assert(r.spec_names() =~= seq!["cobalt_download"@, "cobalt"@, "download"@, "dl"@]);
        r
    }

    /// The command that downloads only the audio.
    pub fn audio() -> (r: Self)
        ensures
            r.spec_names() == seq![
                "cobalt_download_audio"@,
                "cobalt_audio"@,
                "download_audio"@,
                "dla"@,
            ],
            r.spec_description() == Some("download audio using ≫ cobalt"@),
            r.spec_audio_only(),
    {
        let r = Self {
            command_names: &["cobalt_download_audio", "cobalt_audio", "download_audio", "dla"],
            description: "download audio using ≫ cobalt",
            audio_only: true,
        };
        assert(r.spec_names() =~= seq![
            "cobalt_download_audio"@,
            "cobalt_audio"@,
            "download_audio"@,
            "dla"@,
        ]);
        r
    }

    /// Whether only the audio is asked for.
    pub fn audio_only(&self) -> (r: bool)
        ensures
            r == self.spec_audio_only(),
    {
        self.audio_only
    }
}

impl CommandTrait for CobaltDownload {
    closed spec fn spec_names(&self) -> Seq<Seq<char>> {
        self.command_names@.map_values(|s: &str| s@)
    }

    closed spec fn spec_description(&self) -> Option<Seq<char>> {
        Some(self.description@)
    }

    fn command_names(&self) -> (r: &[&str]) {
        self.command_names
    }

    fn description(&self) -> (r: Option<&'static str>) {
        Some(self.description)
    }
}

/// Twitter mirrors whose links are sent to cobalt as Twitter links.
pub open spec fn twitter_mirrors() -> Seq<Seq<char>> {
    seq![
        "fxtwitter.com"@,
        "fixupx.com"@,
        "twittpr.com"@,
        "vxtwitter.com"@,
        "fixvx.com"@,
        "girlcockx.com"@,
        "stupidpenisx.com"@,
    ]
}

fn mirrors() -> (r: &'static [&'static str])
    ensures
        r@.map_values(|s: &str| s@) == twitter_mirrors(),
{
    let r: &'static [&'static str] = &[
        "fxtwitter.com",
        "fixupx.com",
        "twittpr.com",
        "vxtwitter.com",
        "fixvx.com",
        "girlcockx.com",
        "stupidpenisx.com",
    ];
    assert(r@.map_values(|s: &str| s@) =~= twitter_mirrors());
    r
}

/// The start of a link to a mirror's page.
pub open spec fn mirror_prefix(host: Seq<char>) -> Seq<char> {
    "https://"@ + host + "/"@
}

/// The first mirror at or after position `k` of the list whose prefix starts
/// `url`.
pub open spec fn first_mirror_from(url: Seq<char>, k: int) -> Option<int>
    decreases twitter_mirrors().len() - k,
{
    if k < 0 || k >= twitter_mirrors().len() {
        None
    } else if starts_with(url, mirror_prefix(twitter_mirrors()[k])) {
        Some(k)
    } else {
        first_mirror_from(url, k + 1)
    }
}

/// A link to a Twitter mirror made a link to the same page on Twitter; other
/// links stay as they are.
pub open spec fn spec_normalized_url(url: Seq<char>) -> Seq<char> {
    match first_mirror_from(url, 0) {
        Some(k) => "https://twitter.com/"@ + url.skip(mirror_prefix(twitter_mirrors()[k]).len() as int),
        None => url,
    }
}

/// The link that is sent to cobalt.
pub fn normalized_url(url: &str) -> (r: String)
    ensures
        r@ == spec_normalized_url(url@),
{
    let list = mirrors();
    let u = chars_of(url);
    let mut k: usize = 0;
    while k < list.len()
        invariant
            k <= list.len(),
            list@.map_values(|s: &str| s@) == twitter_mirrors(),
            u@ == url@,
            first_mirror_from(url@, k as int) == first_mirror_from(url@, 0),
        decreases list.len() - k,
    {
        let mut prefix: Vec<char> = Vec::new();
        push_str(&mut prefix, "https://");
        push_str(&mut prefix, list[k]);
        push_str(&mut prefix, "/");
        assert(list@[k as int]@ == twitter_mirrors()[k as int]);
        assert(prefix@ == mirror_prefix(twitter_mirrors()[k as int]));
        if chars_start_with(&u, &prefix) {
            let mut out: Vec<char> = Vec::new();
            push_str(&mut out, "https://twitter.com/");
            let rest = slice_chars(&u, prefix.len(), u.len());
            push_chars(&mut out, &rest);
            assert(out@ =~= spec_normalized_url(url@));
            return string_from_chars(out.as_slice());
        }
        k = k + 1;
    }
    String::from_str(url)
}

#[verifier::external_type_specification]
#[verifier::external_body]
pub struct ExJsonValue(Value);

/// A placeholder's JSON value as it is put into a message: a JSON string by
/// its own text, any other value by its serialised JSON.
#[derive(Debug)]
pub enum PlaceholderValue {
    /// A JSON string's text.
    Text(String),
    /// Any other JSON value, serialised.
    Serialized(String),
}

/// The text a placeholder's value is written as.
pub open spec fn placeholder_text(value: PlaceholderValue) -> Seq<char> {
    match value {
        PlaceholderValue::Text(t) => t@,
        PlaceholderValue::Serialized(s) => s@,
    }
}

/// An error that cobalt reported: a code, and the values for the
/// placeholders of its message, in the order they came.
pub struct ErrorContext {
    pub code: String,
    pub context: Option<Vec<(String, PlaceholderValue)>>,
}

/// An error with the values of its placeholders written out as text.
pub struct ErrorText {
    pub code: String,
    pub context: Option<Vec<(String, String)>>,
}

/// Turns a JSON value into a placeholder value: a `Value::String` becomes
/// `Text` with its own text (cloned), any other value `Serialized` with what
/// `Value`'s `Display` writes (`serde_json::to_string`). Nothing is stated of
/// the result: the JSON value is opaque here.
#[verifier::external_body]
fn placeholder_of(value: &Value) -> (r: PlaceholderValue) {
    match value {
        Value::String(text) => PlaceholderValue::Text(text.clone()),
        other => PlaceholderValue::Serialized(other.to_string()),
    }
}

/// The JSON values of an error's context as placeholder values, under the
/// same keys, in the same order.
pub fn placeholder_values(context: &Vec<(String, Value)>) -> (r: Vec<(String, PlaceholderValue)>)
    ensures
        r@.len() == context@.len(),
        forall|i: int| 0 <= i < r@.len() ==> (#[trigger] r@[i]).0@ == context@[i].0@,
{
    let mut r: Vec<(String, PlaceholderValue)> = Vec::new();
    let mut i: usize = 0;
    while i < context.len()
        invariant
            i <= context.len(),
            r@.len() == i,
            forall|j: int| 0 <= j < i ==> (#[trigger] r@[j]).0@ == context@[j].0@,
        decreases context.len() - i,
    {
        let key = context[i].0.clone();
        let value = placeholder_of(&context[i].1);
        r.push((key, value));
        i = i + 1;
    }
    r
}

/// A key and its text, as character sequences.
pub open spec fn text_pairs(texts: Seq<(String, String)>) -> Seq<(Seq<char>, Seq<char>)> {
    texts.map_values(|p: (String, String)| (p.0@, p.1@))
}

/// A key and the text its value is written as.
pub open spec fn value_pairs(values: Seq<(String, PlaceholderValue)>) -> Seq<(Seq<char>, Seq<char>)> {
    values.map_values(|p: (String, PlaceholderValue)| (p.0@, placeholder_text(p.1)))
}

/// The placeholders' values written out as text, under the same keys.
pub fn written_context(context: &Vec<(String, PlaceholderValue)>) -> (r: Vec<(String, String)>)
    ensures
        text_pairs(r@) == value_pairs(context@),
{
    let mut r: Vec<(String, String)> = Vec::new();
    let mut i: usize = 0;
    while i < context.len()
        invariant
            i <= context.len(),
            r@.len() == i,
            text_pairs(r@) == value_pairs(context@.take(i as int)),
        decreases context.len() - i,
    {
        let key = context[i].0.clone();
        let text = match &context[i].1 {
            PlaceholderValue::Text(t) => t.clone(),
            PlaceholderValue::Serialized(t) => t.clone(),
        };
        let ghost before = r@;
        assert(text@ == placeholder_text(context@[i as int].1));
        r.push((key, text));
        assert(r@ == before.push((key, text)));
        assert(key@ == context@[i as int].0@);
        assert forall|j: int| 0 <= j <= i implies #[trigger] text_pairs(r@)[j] == value_pairs(
            context@.take(i + 1),
        )[j] by {
            if j < i {
                assert(text_pairs(before)[j] == value_pairs(context@.take(i as int))[j]);
            }
        }
        assert(text_pairs(r@) =~= value_pairs(context@.take(i + 1)));
        i = i + 1;
    }
    assert(context@.take(i as int) =~= context@);
    r
}

/// The text of the first entry of `localization` under `key`.
pub open spec fn lookup(localization: Seq<(String, String)>, key: Seq<char>) -> Option<Seq<char>>
    decreases localization.len(),
{
    if localization.len() == 0 {
        None
    } else if localization[0].0@ == key {
        Some(localization[0].1@)
    } else {
        lookup(localization.drop_first(), key)
    }
}

/// The placeholder for a key: the key between `{{ ` and ` }}`.
pub open spec fn placeholder(key: Seq<char>) -> Seq<char> {
    "{{ "@ + key + " }}"@
}

/// The first placeholder for `key` in `text` replaced by `value`; the text
/// stays as it is when it holds none.
pub open spec fn fill_one(text: Seq<char>, key: Seq<char>, value: Seq<char>) -> Seq<char> {
    match find(text, placeholder(key)) {
        Some(i) => text.take(i) + value + text.skip(i + placeholder(key).len()),
        None => text,
    }
}

/// Each (key, text) of `context` filled in, in order.
pub open spec fn fill_all(text: Seq<char>, context: Seq<(Seq<char>, Seq<char>)>) -> Seq<char>
    decreases context.len(),
{
    if context.len() == 0 {
        text
    } else {
        fill_one(fill_all(text, context.drop_last()), context.last().0, context.last().1)
    }
}

/// The prefix of the codes that have a localized message.
pub open spec fn api_prefix() -> Seq<char> {
    "error.api."@
}

/// The message for an error: the localized text for its code, without the
/// prefix `error.api.`, with the placeholders filled in; the code itself
/// when it lacks the prefix or has no localized text.
pub open spec fn spec_api_error(
    localization: Seq<(String, String)>,
    code: Seq<char>,
    context: Option<Seq<(Seq<char>, Seq<char>)>>,
) -> Seq<char> {
    if !starts_with(code, api_prefix()) {
        code
    } else {
        match lookup(localization, code.skip(api_prefix().len() as int)) {
            None => code,
            Some(text) => match context {
                Some(c) => fill_all(text, c),
                None => text,
            },
        }
    }
}

/// The (key, text) pairs of an error whose values are written out.
pub open spec fn written_pairs(context: Option<Vec<(String, String)>>) -> Option<Seq<(Seq<char>, Seq<char>)>> {
    match context {
        Some(c) => Some(text_pairs(c@)),
        None => None,
    }
}

/// The (key, text) pairs of an error as cobalt reported it.
pub open spec fn context_pairs(context: Option<Vec<(String, PlaceholderValue)>>) -> Option<Seq<(Seq<char>, Seq<char>)>> {
    match context {
        Some(c) => Some(value_pairs(c@)),
        None => None,
    }
}

fn find_text(localization: &Vec<(String, String)>, key: &Vec<char>) -> (r: Option<Vec<char>>)
    ensures
        match r {
            Some(t) => lookup(localization@, key@) == Some(t@),
            None => lookup(localization@, key@) is None,
        },
{
    let mut k: usize = 0;
    assert(localization@.skip(0) =~= localization@);
    while k < localization.len()
        invariant
            k <= localization.len(),
            lookup(localization@.skip(k as int), key@) == lookup(localization@, key@),
        decreases localization.len() - k,
    {
        assert(localization@.skip(k as int).drop_first() =~= localization@.skip(k + 1));
        let entry_key = chars_of(localization[k].0.as_str());
        if chars_equal(&entry_key, key) {
            return Some(chars_of(localization[k].1.as_str()));
        }
        k = k + 1;
    }
    None
}

fn fill(text: Vec<char>, key: &str, value: &str) -> (r: Vec<char>)
    ensures
        r@ == fill_one(text@, key@, value@),
{
    let mut pattern: Vec<char> = Vec::new();
    push_str(&mut pattern, "{{ ");
    push_str(&mut pattern, key);
    push_str(&mut pattern, " }}");
    match find_chars(&text, &pattern, 0) {
        Some(i) => {
            let mut out = slice_chars(&text, 0, i);
            push_str(&mut out, value);
            let rest = slice_chars(&text, i + pattern.len(), text.len());
            push_chars(&mut out, &rest);
            assert(out@ =~= fill_one(text@, key@, value@));
            out
        },
        None => text,
    }
}

/// The message for an error whose values are written out, made from the
/// localized texts.
pub fn format_error_text(localization: &Vec<(String, String)>, error: ErrorText) -> (r: String)
    ensures
        r@ == spec_api_error(localization@, error.code@, written_pairs(error.context)),
{
    let code = chars_of(error.code.as_str());
    let mut prefix: Vec<char> = Vec::new();
    push_str(&mut prefix, "error.api.");
    if !chars_start_with(&code, &prefix) {
        return error.code;
    }
    let key = slice_chars(&code, prefix.len(), code.len());
    assert(key@ =~= error.code@.skip(api_prefix().len() as int));
    match find_text(localization, &key) {
        None => error.code,
        Some(found) => {
            let mut text = found;
            match &error.context {
                Some(context) => {
                    let mut k: usize = 0;
                    while k < context.len()
                        invariant
                            k <= context.len(),
                            text@ == fill_all(found@, text_pairs(context@).take(k as int)),
                        decreases context.len() - k,
                    {
                        assert(text_pairs(context@).take(k + 1).drop_last() =~= text_pairs(context@).take(k as int));
                        text = fill(text, context[k].0.as_str(), context[k].1.as_str());
                        k = k + 1;
                    }
                    assert(text_pairs(context@).take(context.len() as int) =~= text_pairs(context@));
                },
                None => {},
            }
            string_from_chars(text.as_slice())
        },
    }
}

/// The message for an error that cobalt reported, made from its localized
/// texts: each placeholder filled with its value's text.
pub fn format_api_error(localization: &Vec<(String, String)>, error: ErrorContext) -> (r: String)
    ensures
        r@ == spec_api_error(localization@, error.code@, context_pairs(error.context)),
{
    let ErrorContext { code, context } = error;
    let context = match context {
        Some(values) => Some(written_context(&values)),
        None => None,
    };
    format_error_text(localization, ErrorText { code, context })
}

/// The message for an error: the localized one when the texts could be
/// fetched, the code otherwise.
pub fn error_message(localization: Option<&Vec<(String, String)>>, error: ErrorContext) -> (r: String)
    ensures
        localization is None ==> r@ == error.code@,
        localization matches Some(l) ==> r@ == spec_api_error(l@, error.code@, context_pairs(error.context)),
{
    match localization {
        Some(l) => format_api_error(l, error),
        None => error.code,
    }
}

/// The extension of a file name (one path component), as `Path::extension`
/// reads it: what follows the last `.`, unless there is none or the only one
/// starts the name.
pub open spec fn name_extension(name: Seq<char>) -> Option<Seq<char>> {
    match last_index_of(name, '.') {
        Some(i) => if i == 0 {
            None
        } else {
            Some(name.skip(i + 1))
        },
        None => None,
    }
}

/// The position of the last `c` in `s`.
pub open spec fn last_index_of(s: Seq<char>, c: char) -> Option<int>
    decreases s.len(),
{
    if s.len() == 0 {
        None
    } else if s.last() == c {
        Some(s.len() - 1)
    } else {
        last_index_of(s.drop_last(), c)
    }
}

/// What follows the last `/` of `s` (all of `s` when it has none).
pub open spec fn after_last_slash(s: Seq<char>) -> Seq<char> {
    match last_index_of(s, '/') {
        Some(i) => s.skip(i + 1),
        None => s,
    }
}

/// The final component of a path, as `Path::file_name` reads it: trailing
/// `/` and `/.` are passed over, and a path that ends in `..`, is `.`, or has
/// no component left (empty, or only `/`) has none.
pub open spec fn final_component(path: Seq<char>) -> Option<Seq<char>>
    decreases path.len(),
{
    if path.len() == 0 {
        None
    } else if path.last() == '/' {
        final_component(path.drop_last())
    } else if path == seq!['.'] {
        None
    } else if path.len() >= 2 && path.last() == '.' && path[path.len() - 2] == '/' {
        final_component(path.drop_last())
    } else if after_last_slash(path) == seq!['.', '.'] {
        None
    } else {
        Some(after_last_slash(path))
    }
}

/// The extension of a path, as `Path::extension` reads it: that of its
/// final component, if it has one.
pub open spec fn spec_extension(path: Seq<char>) -> Option<Seq<char>> {
    match final_component(path) {
        Some(c) => name_extension(c),
        None => None,
    }
}

/// Where the last `c` of `v[..end]` is.
fn last_position(v: &Vec<char>, end: usize, c: char) -> (r: Option<usize>)
    requires
        end <= v.len(),
    ensures
        match r {
            Some(i) => last_index_of(v@.take(end as int), c) == Some(i as int) && i < end,
            None => last_index_of(v@.take(end as int), c) is None,
        },
{
    let mut i = end;
    while i > 0
        invariant
            i <= end <= v.len(),
            last_index_of(v@.take(i as int), c) == last_index_of(v@.take(end as int), c),
        decreases i,
    {
        assert(v@.take(i as int).drop_last() =~= v@.take(i - 1));
        if v[i - 1] == c {
            return Some(i - 1);
        }
        i = i - 1;
    }
    assert(v@.take(0) =~= Seq::<char>::empty());
    None
}

/// Where the final component of a path lies.
fn final_component_range(v: &Vec<char>) -> (r: Option<(usize, usize)>)
    ensures
        match r {
            Some((a, b)) => a <= b <= v.len() && final_component(v@) == Some(v@.subrange(a as int, b as int)),
            None => final_component(v@) is None,
        },
{
    let mut end = v.len();
    assert(v@.take(end as int) =~= v@);
    loop
        invariant
            end <= v.len(),
            final_component(v@.take(end as int)) == final_component(v@),
        ensures
            0 < end <= v.len(),
            final_component(v@.take(end as int)) == final_component(v@),
            v@[end - 1] != '/',
            !(end == 1 && v@[0] == '.'),
            !(end >= 2 && v@[end - 1] == '.' && v@[end - 2] == '/'),
        decreases end,
    {
        if end == 0 {
            return None;
        }
        assert(v@.take(end as int).drop_last() =~= v@.take(end - 1));
        if v[end - 1] == '/' {
            end = end - 1;
        } else if end == 1 && v[0] == '.' {
            assert(v@.take(1) =~= seq!['.']);
            return None;
        } else if end >= 2 && v[end - 1] == '.' && v[end - 2] == '/' {
            end = end - 1;
        } else {
            break;
        }
    }
    let ghost t = v@.take(end as int);
    assert(t.last() == v@[end - 1]);
    assert(t != seq!['.']) by {
        if t == seq!['.'] {
            assert(t.len() == 1 && t[0] == '.');
            assert(v@[0] == '.');
        }
    }
    assert(!(t.len() >= 2 && t.last() == '.' && t[t.len() - 2] == '/')) by {
        if t.len() >= 2 {
            assert(t[t.len() - 2] == v@[end - 2]);
        }
    }
    let start = match last_position(v, end, '/') {
        Some(i) => i + 1,
        None => 0,
    };
    assert(after_last_slash(t) =~= v@.subrange(start as int, end as int));
    if end - start == 2 && v[start] == '.' && v[start + 1] == '.' {
        assert(v@.subrange(start as int, end as int) =~= seq!['.', '.']);
        return None;
    }
    assert(after_last_slash(t) != seq!['.', '.']) by {
        if after_last_slash(t) == seq!['.', '.'] {
            assert(v@.subrange(start as int, end as int).len() == 2);
            assert(v@.subrange(start as int, end as int)[0] == v@[start as int]);
            assert(v@.subrange(start as int, end as int)[1] == v@[start + 1]);
        }
    }
    Some((start, end))
}

/// The extension of a file's path.
pub fn file_extension(path: &str) -> (r: Option<String>)
    ensures
        match r {
            Some(e) => spec_extension(path@) == Some(e@),
            None => spec_extension(path@) is None,
        },
{
    let v = chars_of(path);
    match final_component_range(&v) {
        None => None,
        Some((a, b)) => {
            let name = slice_chars(&v, a, b);
            match last_position(&name, name.len(), '.') {
                None => {
                    assert(name@.take(name@.len() as int) =~= name@);
                    None
                },
                Some(i) => {
                    assert(name@.take(name@.len() as int) =~= name@);
                    if i == 0 {
                        None
                    } else {
                        Some(string_of_range(&name, i + 1, name.len()))
                    }
                },
            }
        },
    }
}

/// How a downloaded file is sent.
pub enum MediaKind {
    /// As a video: `mp4` files.
    Video,
    /// As audio: `mp3`, `opus` and `weba` files.
    Audio,
    /// As a plain document: everything else.
    Document,
}

/// How a file with this name is sent, by its extension in any ASCII case.
pub open spec fn spec_media_kind(name: Seq<char>) -> MediaKind {
    match spec_extension(name) {
        Some(e) => if eq_ignore_ascii_case(e, "mp4"@) {
            MediaKind::Video
        } else if eq_ignore_ascii_case(e, "mp3"@) || eq_ignore_ascii_case(e, "opus"@)
            || eq_ignore_ascii_case(e, "weba"@) {
            MediaKind::Audio
        } else {
            MediaKind::Document
        },
        None => MediaKind::Document,
    }
}

/// How a file with this name is sent.
pub fn media_kind(name: &str) -> (r: MediaKind)
    ensures
        r == spec_media_kind(name@),
{
    match file_extension(name) {
        Some(e) => {
            if str_eq_ignore_ascii_case(e.as_str(), "mp4") {
                MediaKind::Video
            } else if str_eq_ignore_ascii_case(e.as_str(), "mp3") || str_eq_ignore_ascii_case(
                e.as_str(),
                "opus",
            ) || str_eq_ignore_ascii_case(e.as_str(), "weba") {
                MediaKind::Audio
            } else {
                MediaKind::Document
            }
        },
        None => MediaKind::Document,
    }
}

/// What a media probe reports of one stream of a file, as plain values.
pub struct StreamInfo {
    /// "video", "audio", ...
    pub codec_type: Option<String>,
    pub width: Option<i64>,
    pub height: Option<i64>,
    /// The title tag.
    pub title: Option<String>,
    /// The artist tag.
    pub artist: Option<String>,
}

pub open spec fn has_codec(stream: StreamInfo, codec: Seq<char>) -> bool {
    stream.codec_type matches Some(c) && c@ == codec
}

/// The position of the first stream of this codec type.
pub open spec fn first_of_codec(streams: Seq<StreamInfo>, codec: Seq<char>) -> Option<int>
    decreases streams.len(),
{
    if streams.len() == 0 {
        None
    } else {
        match first_of_codec(streams.drop_last(), codec) {
            Some(i) => Some(i),
            None => if has_codec(streams.last(), codec) {
                Some(streams.len() - 1)
            } else {
                None
            },
        }
    }
}

proof fn lemma_first_of_codec_bounds(streams: Seq<StreamInfo>, codec: Seq<char>)
    ensures
        first_of_codec(streams, codec) matches Some(i) ==> 0 <= i < streams.len() && has_codec(
            streams[i],
            codec,
        ),
    decreases streams.len(),
{
    if streams.len() > 0 {
        lemma_first_of_codec_bounds(streams.drop_last(), codec);
    }
}

proof fn lemma_first_of_codec_prefix(streams: Seq<StreamInfo>, codec: Seq<char>, j: int)
    requires
        0 <= j <= streams.len(),
        first_of_codec(streams.take(j), codec) is Some,
    ensures
        first_of_codec(streams, codec) == first_of_codec(streams.take(j), codec),
    decreases streams.len(),
{
    if streams.len() > j {
        assert(streams.drop_last().take(j) =~= streams.take(j));
        lemma_first_of_codec_prefix(streams.drop_last(), codec, j);
    } else {
        assert(streams.take(j) =~= streams);
    }
}

/// The first stream of this codec type, if any.
pub fn first_stream(streams: &Vec<StreamInfo>, codec: &str) -> (r: Option<usize>)
    ensures
        r matches Some(i) ==> first_of_codec(streams@, codec@) == Some(i as int),
        r is None ==> first_of_codec(streams@, codec@) is None,
{
    let mut k: usize = 0;
    while k < streams.len()
        invariant
            k <= streams.len(),
            first_of_codec(streams@.take(k as int), codec@) is None,
        decreases streams.len() - k,
    {
        assert(streams@.take(k as int + 1).drop_last() =~= streams@.take(k as int));
        let found = match &streams[k].codec_type {
            Some(c) => str_equal(c.as_str(), codec),
            None => false,
        };
        if found {
            proof {
                lemma_first_of_codec_prefix(streams@, codec@, k as int + 1);
            }
            return Some(k);
        }
        k = k + 1;
    }
    assert(streams@.take(k as int) =~= streams@);
    None
}

/// A stream dimension, 0 where it is not reported.
pub open spec fn dimension(d: Option<i64>) -> int {
    match d {
        Some(v) => v as int,
        None => 0,
    }
}

pub open spec fn fits_i32(d: Option<i64>) -> bool {
    d matches Some(v) ==> i32::MIN <= v <= i32::MAX
}

/// The width and height of the first video stream; 0 for what is missing.
pub open spec fn spec_video_size(streams: Seq<StreamInfo>) -> (int, int) {
    match first_of_codec(streams, "video"@) {
        Some(i) => (dimension(streams[i].width), dimension(streams[i].height)),
        None => (0, 0),
    }
}

/// Whether the first video stream's size fits the message's fields.
pub open spec fn video_size_fits(streams: Seq<StreamInfo>) -> bool {
    first_of_codec(streams, "video"@) matches Some(i) ==> fits_i32(streams[i].width) && fits_i32(
        streams[i].height,
    )
}

/// The size a video is sent with.
pub fn video_size(streams: &Vec<StreamInfo>) -> (r: (i32, i32))
    requires
        video_size_fits(streams@),
    ensures
        r.0 == spec_video_size(streams@).0,
        r.1 == spec_video_size(streams@).1,
{
    proof {
        reveal_strlit("video");
        lemma_first_of_codec_bounds(streams@, "video"@);
    }
    match first_stream(streams, "video") {
        Some(i) => {
            let w: i32 = match streams[i].width {
                Some(v) => v as i32,
                None => 0,
            };
            let h: i32 = match streams[i].height {
                Some(v) => v as i32,
                None => 0,
            };
            (w, h)
        },
        None => (0, 0),
    }
}

/// A tag's text, empty where it is missing.
pub open spec fn tag_text(t: Option<String>) -> Seq<char> {
    match t {
        Some(s) => s@,
        None => Seq::empty(),
    }
}

/// The title and performer of the first audio stream; empty for what is
/// missing.
pub open spec fn spec_audio_tags(streams: Seq<StreamInfo>) -> (Seq<char>, Seq<char>) {
    match first_of_codec(streams, "audio"@) {
        Some(i) => (tag_text(streams[i].title), tag_text(streams[i].artist)),
        None => (Seq::empty(), Seq::empty()),
    }
}

fn tag_or_empty(t: &Option<String>) -> (r: String)
    ensures
        r@ == tag_text(*t),
{
    match t {
        Some(s) => s.clone(),
        None => String::new(),
    }
}

/// The title and performer an audio file is sent with.
pub fn audio_tags(streams: &Vec<StreamInfo>) -> (r: (String, String))
    ensures
        r.0@ == spec_audio_tags(streams@).0,
        r.1@ == spec_audio_tags(streams@).1,
{
    proof {
        reveal_strlit("audio");
        lemma_first_of_codec_bounds(streams@, "audio"@);
    }
    match first_stream(streams, "audio") {
        Some(i) => (tag_or_empty(&streams[i].title), tag_or_empty(&streams[i].artist)),
        None => (String::new(), String::new()),
    }
}

/// The most files of a picker that are sent.
pub const PICKER_LIMIT: usize = 10;

/// The picker's items that are sent: the first `PICKER_LIMIT`.
pub fn items_to_send<T>(items: Vec<T>) -> (r: Vec<T>)
    ensures
        r@ == (if items@.len() > PICKER_LIMIT {
            items@.take(PICKER_LIMIT as int)
        } else {
            items@
        }),
{
    let mut items = items;
    items.truncate(PICKER_LIMIT);
    items
}

/// One file that cobalt offers to pick: where it is, and its thumbnail.
pub struct PickerItem {
    pub url: String,
    pub thumb: Option<String>,
}

/// A step in sending the files of a picker.
pub enum PickerAction {
    /// Download this file, under this file name when one is given.
    Download { url: String, filename: Option<String> },
    /// Change the status message to "uploading…".
    ShowUploading,
    /// Send the downloaded picker files (every download but the audio) as
    /// one album of documents replying to the command's message, each with
    /// the thumbnail at its position.
    SendAlbum { thumbnails: Vec<Option<String>> },
    /// Reply with the downloaded audio file, once the album is sent.
    ReplyAudio,
    /// Delete the status message.
    DeleteStatus,
}

pub enum PickerActionView {
    Download { url: Seq<char>, filename: Option<Seq<char>> },
    ShowUploading,
    SendAlbum { thumbnails: Seq<Option<Seq<char>>> },
    ReplyAudio,
    DeleteStatus,
}

/// A text that may be missing, as characters.
pub open spec fn opt_text(o: Option<String>) -> Option<Seq<char>> {
    match o {
        Some(t) => Some(t@),
        None => None,
    }
}

impl View for PickerAction {
    type V = PickerActionView;

    open spec fn view(&self) -> PickerActionView {
        match self {
            PickerAction::Download { url, filename } => PickerActionView::Download {
                url: url@,
                filename: opt_text(*filename),
            },
            PickerAction::ShowUploading => PickerActionView::ShowUploading,
            PickerAction::SendAlbum { thumbnails } => PickerActionView::SendAlbum {
                thumbnails: thumbnails@.map_values(|t: Option<String>| opt_text(t)),
            },
            PickerAction::ReplyAudio => PickerActionView::ReplyAudio,
            PickerAction::DeleteStatus => PickerActionView::DeleteStatus,
        }
    }
}

/// The picker items that are sent: the first `PICKER_LIMIT`.
pub open spec fn kept_items(items: Seq<PickerItem>) -> Seq<PickerItem> {
    if items.len() > PICKER_LIMIT {
        items.take(PICKER_LIMIT as int)
    } else {
        items
    }
}

/// How a picker is sent: the kept items are downloaded in order (without a
/// file name), then the audio (under its file name) if there is one; the
/// status shows "uploading…"; the items go out as one album of documents
/// with their thumbnails; the audio follows as a reply exactly when there is
/// one; and the status message is deleted.
pub open spec fn spec_picker_actions(
    items: Seq<PickerItem>,
    audio: Option<String>,
    audio_filename: Option<String>,
) -> Seq<PickerActionView> {
    let kept = kept_items(items);
    let downloads = kept.map_values(
        |it: PickerItem| PickerActionView::Download { url: it.url@, filename: None },
    );
    let audio_download = match audio {
        Some(u) => seq![PickerActionView::Download { url: u@, filename: opt_text(audio_filename) }],
        None => Seq::empty(),
    };
    let album = seq![
        PickerActionView::ShowUploading,
        PickerActionView::SendAlbum { thumbnails: kept.map_values(|it: PickerItem| opt_text(it.thumb)) },
    ];
    let audio_reply = if audio is Some {
        seq![PickerActionView::ReplyAudio]
    } else {
        Seq::empty()
    };
    downloads + audio_download + album + audio_reply + seq![PickerActionView::DeleteStatus]
}

pub open spec fn action_views(actions: Seq<PickerAction>) -> Seq<PickerActionView> {
    actions.map_values(|a: PickerAction| a@)
}

fn clone_opt(o: &Option<String>) -> (r: Option<String>)
    ensures
        opt_text(r) == opt_text(*o),
{
    match o {
        Some(t) => Some(t.clone()),
        None => None,
    }
}

/// The steps that send a picker's files.
pub fn picker_actions(items: Vec<PickerItem>, audio: Option<String>, audio_filename: Option<String>) -> (r: Vec<PickerAction>)
    ensures
        action_views(r@) == spec_picker_actions(items@, audio, audio_filename),
{
    let ghost given_audio = audio;
    let kept = items_to_send(items);
    let ghost kept_view = kept@;
    let mut r: Vec<PickerAction> = Vec::new();
    let mut thumbnails: Vec<Option<String>> = Vec::new();
    let mut i: usize = 0;
    while i < kept.len()
        invariant
            i <= kept@.len(),
            kept@ == kept_view,
            action_views(r@) == kept_view.take(i as int).map_values(
                |it: PickerItem| PickerActionView::Download { url: it.url@, filename: None },
            ),
            thumbnails@.map_values(|t: Option<String>| opt_text(t)) == kept_view.take(i as int).map_values(
                |it: PickerItem| opt_text(it.thumb),
            ),
        decreases kept@.len() - i,
    {
        let ghost (before, before_thumbs) = (r@, thumbnails@);
        r.push(PickerAction::Download { url: kept[i].url.clone(), filename: None });
        thumbnails.push(clone_opt(&kept[i].thumb));
        assert(kept_view.take(i + 1) =~= kept_view.take(i as int).push(kept_view[i as int]));
        assert(action_views(r@) =~= action_views(before).push(r@.last()@));
        assert(thumbnails@.map_values(|t: Option<String>| opt_text(t)) =~= before_thumbs.map_values(
            |t: Option<String>| opt_text(t),
        ).push(opt_text(thumbnails@.last())));
        i = i + 1;
    }
    assert(kept_view.take(i as int) =~= kept_view);
    let ghost downloads = action_views(r@);
    let has_audio = audio.is_some();
    match audio {
        Some(u) => r.push(PickerAction::Download { url: u, filename: audio_filename }),
        None => {},
    }
    let ghost with_audio = action_views(r@);
    r.push(PickerAction::ShowUploading);
    r.push(PickerAction::SendAlbum { thumbnails });
    if has_audio {
        r.push(PickerAction::ReplyAudio);
    }
    r.push(PickerAction::DeleteStatus);
    proof {
        let spec = spec_picker_actions(items@, given_audio, audio_filename);
        assert(kept_items(items@) == kept_view);
        assert(action_views(r@) =~= spec);
    }
    r
}

pub open spec fn spec_status_entities(instance: Seq<char>) -> Seq<EntityView> {
    seq![plain("downloading from "@), code(instance), plain("…"@)]
}

/// The status message while files are downloaded from an instance.
pub fn status_entities(instance: &str) -> (r: Vec<Entity>)
    ensures
        views(r@) == spec_status_entities(instance@),
{
    let mut r: Vec<Entity> = Vec::new();
    r.push(text_str("downloading from "));
    r.push(code_text(String::from_str(instance)));
    r.push(text_str("…"));
    assert(views(r@) =~= spec_status_entities(instance@));
    r
}

/// cobalt's web page, opened on the link that failed.
pub open spec fn cobalt_page(url: Seq<char>) -> Option<Seq<char>> {
    url_with_fragment("https://cobalt.tools/"@, url)
}

pub open spec fn spec_error_entities(message: Seq<char>, page: Seq<char>) -> Seq<EntityView> {
    seq![plain(message), plain("\n"@), link(plain("download using cobalt.tools"@), page)]
}

/// The error for a failed download: the message, and a link to try the
/// download on cobalt's web page.
pub fn download_error(message: String, page: String) -> (r: CommandError)
    ensures
        r matches CommandError::CustomFormattedText(es) && views(es@) == spec_error_entities(
            message@,
            page@,
        ),
{
    let mut es: Vec<Entity> = Vec::new();
    es.push(text(message));
    es.push(text_str("\n"));
    es.push(with_url(text_str("download using cobalt.tools"), page));
    assert(views(es@) =~= spec_error_entities(message@, page@));
    CommandError::CustomFormattedText(es)
}

/// The error for a failed download of `url`, with the link to cobalt's web
/// page built by `url`; `None` when that address cannot be built.
pub fn download_error_for(message: String, url: &str) -> (r: Option<CommandError>)
    ensures
        match r {
            Some(e) => cobalt_page(url@) matches Some(p) && e matches CommandError::CustomFormattedText(
                es,
            ) && views(es@) == spec_error_entities(message@, p),
            None => cobalt_page(url@) is None,
        },
{
    match set_fragment("https://cobalt.tools/", url) {
        Some(page) => Some(download_error(message, page)),
        None => None,
    }
}

} // verus!
