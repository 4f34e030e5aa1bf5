//! Downloads with yt-dlp: what is refused, how media is named and sent.
use vstd::prelude::*;

use crate::commands::cobalt_download::MediaKind;
use crate::commands::{CommandError, CommandTrait};
use crate::message_entities::{italic, italic_text, link, plain, text, text_str, views, with_url, Entity, EntityView};
use crate::text::{join, join_strings, str_equal};

verus! {

/// Downloads media with yt-dlp.
pub struct YtDlp {
    command_names: &'static [&'static str],
    command_description: &'static str,
    format: Option<&'static str>,
}

impl YtDlp {
    /// The format asked of yt-dlp, if any.
    pub closed spec fn spec_format(&self) -> Option<Seq<char>> {
        match self.format {
            Some(f) => Some(f@),
            None => None,
        }
    }

    /// The command that downloads the media as it is.
    pub fn video() -> (r: Self)
        ensures
            r.spec_names() == seq!["yt_dlp"@, "ytdlp"@, "yt"@],
            r.spec_description() == Some("Download media using yt-dlp"@),
            r.spec_format() is None,
    {
        let r = Self {
            command_names: &["yt_dlp", "ytdlp", "yt"],
            command_description: "Download media using yt-dlp",
            format: None,
        };
        assert(r.spec_names() =~= seq!["yt_dlp"@, "ytdlp"@, "yt"@]);
        r
    }

    /// The command that downloads the best audio only.
    pub fn audio() -> (r: Self)
        ensures
            r.spec_names() == seq!["yt_dlp_audio"@, "ytdlp_audio"@, "yta"@],
            r.spec_description() == Some("Download audio using yt-dlp"@),
            r.spec_format() == Some("bestaudio"@),
    {
        let r = Self {
            command_names: &["yt_dlp_audio", "ytdlp_audio", "yta"],
            command_description: "Download audio using yt-dlp",
            format: Some("bestaudio"),
        };
        assert(r.spec_names() =~= seq!["yt_dlp_audio"@, "ytdlp_audio"@, "yta"@]);
        r
    }

    /// The format asked of yt-dlp, if any.
    pub fn format(&self) -> (r: Option<&'static str>)
        ensures
            match r {
                Some(f) => self.spec_format() == Some(f@),
                None => self.spec_format() is None,
            },
    {
        self.format
    }
}

impl CommandTrait for YtDlp {
    closed spec fn spec_names(&self) -> Seq<Seq<char>> {
        self.command_names@.map_values(|s: &str| s@)
    }

    closed spec fn spec_description(&self) -> Option<Seq<char>> {
        Some(self.command_description@)
    }

    fn command_names(&self) -> (r: &[&str]) {
        self.command_names
    }

    fn description(&self) -> (r: Option<&'static str>) {
        Some(self.command_description)
    }
}

/// What yt-dlp tells about the media before downloading it.
pub struct Infojson {
    pub extractor: String,
    pub live_status: Option<String>,
    /// In seconds.
    pub duration: Option<u64>,
    /// In bytes.
    pub filesize_approx: Option<u64>,
    pub artist: Option<String>,
    pub channel: Option<String>,
    pub track: Option<String>,
    pub title: Option<String>,
    pub webpage_url: String,
    pub ext: String,
}

/// Extractors whose media is refused.
pub open spec fn refused_extractors() -> Seq<Seq<char>> {
    seq![
        "alphaporno"@,
        "beeg"@,
        "behindkink"@,
        "bongacams"@,
        "cam4"@,
        "camsoda"@,
        "chaturbate"@,
        "drtuber"@,
        "eporner"@,
        "erocast"@,
        "eroprofile"@,
        "goshgay"@,
        "hotnewhiphop"@,
        "lovehomeporn"@,
        "manyvids"@,
        "motherless"@,
        "nubilesporn"@,
        "nuvid"@,
        "peekvids"@,
        "pornbox"@,
        "pornflip"@,
        "pornhub"@,
        "pornotube"@,
        "pornovoisines"@,
        "pornoxo"@,
        "redgifs"@,
        "redtube"@,
        "rule34video"@,
        "sexu"@,
        "slutload"@,
        "spankbang"@,
        "stripchat"@,
        "sunporno"@,
        "theholetv"@,
        "thisvid"@,
        "tnaflix"@,
        "tube8"@,
        "txxx"@,
        "xhamster"@,
        "xnxx"@,
        "xvideos"@,
        "xxxymovies"@,
        "youjizz"@,
        "youporn"@,
        "zenporn"@,
    ]
}

fn refused_list() -> (r: &'static [&'static str])
    ensures
        r@.map_values(|s: &str| s@) == refused_extractors(),
{
    let r: &'static [&'static str] = &[
        "alphaporno",
        "beeg",
        "behindkink",
        "bongacams",
        "cam4",
        "camsoda",
        "chaturbate",
        "drtuber",
        "eporner",
        "erocast",
        "eroprofile",
        "goshgay",
        "hotnewhiphop",
        "lovehomeporn",
        "manyvids",
        "motherless",
        "nubilesporn",
        "nuvid",
        "peekvids",
        "pornbox",
        "pornflip",
        "pornhub",
        "pornotube",
        "pornovoisines",
        "pornoxo",
        "redgifs",
        "redtube",
        "rule34video",
        "sexu",
        "slutload",
        "spankbang",
        "stripchat",
        "sunporno",
        "theholetv",
        "thisvid",
        "tnaflix",
        "tube8",
        "txxx",
        "xhamster",
        "xnxx",
        "xvideos",
        "xxxymovies",
        "youjizz",
        "youporn",
        "zenporn",
    ];
    assert(r@.map_values(|s: &str| s@) =~= refused_extractors());
    r
}

/// Whether media of this extractor is refused.
pub fn is_refused_extractor(extractor: &str) -> (r: bool)
    ensures
        r == refused_extractors().contains(extractor@),
{
    let list = refused_list();
    let mut k: usize = 0;
    while k < list.len()
        invariant
            k <= list.len(),
            list@.map_values(|s: &str| s@) == refused_extractors(),
            forall|j: int| 0 <= j < k ==> refused_extractors()[j] != extractor@,
        decreases list.len() - k,
    {
        assert(list@.map_values(|s: &str| s@)[k as int] == list@[k as int]@);
        if str_equal(list[k], extractor) {
            assert(refused_extractors()[k as int] == extractor@);
            return true;
        }
        k = k + 1;
    }
    false
}

/// The longest media that is downloaded, in seconds: an hour.
pub const MAX_DURATION: u64 = 3600;

/// The largest media that is downloaded, in bytes: a GiB.
pub const MAX_FILESIZE: u64 = 1073741824;

/// Why the media is not downloaded, checked in this order; `None` when it
/// is.
pub open spec fn spec_refusal(info: Infojson) -> Option<Seq<char>> {
    if refused_extractors().contains(info.extractor@) {
        Some("bruh"@)
    } else if info.live_status matches Some(s) && s@ == "is_live"@ {
        Some("cannot download livestreams."@)
    } else if info.live_status matches Some(s) && s@ == "is_upcoming"@ {
        Some("this is an upcoming livestream."@)
    } else if info.live_status matches Some(s) && s@ == "post_live"@ {
        Some("this livestream is still processing."@)
    } else if info.duration matches Some(d) && d > MAX_DURATION {
        Some("cannot download media longer than 1h."@)
    } else if info.duration is None && info.filesize_approx is None {
        Some("cannot download media, because duration and filesize are unknown."@)
    } else if info.filesize_approx matches Some(f) && f > MAX_FILESIZE {
        Some("cannot download media larger than 1 GiB."@)
    } else {
        None
    }
}

fn refuse(message: &str) -> (r: Result<(), CommandError>)
    ensures
        r matches Err(CommandError::Custom(m)) && m@ == message@,
{
    Err(CommandError::Custom(String::from_str(message)))
}

/// Whether the media may be downloaded, or the error to reply with.
pub fn check_download(info: &Infojson) -> (r: Result<(), CommandError>)
    ensures
        match spec_refusal(*info) {
            Some(m) => r matches Err(CommandError::Custom(e)) && e@ == m,
            None => r is Ok,
        },
{
    if is_refused_extractor(info.extractor.as_str()) {
        return refuse("bruh");
    }
    match &info.live_status {
        Some(s) => {
            if str_equal(s.as_str(), "is_live") {
                return refuse("cannot download livestreams.");
            } else if str_equal(s.as_str(), "is_upcoming") {
                return refuse("this is an upcoming livestream.");
            } else if str_equal(s.as_str(), "post_live") {
                return refuse("this livestream is still processing.");
            }
        },
        None => {},
    }
    match info.duration {
        Some(d) => {
            if d > MAX_DURATION {
                return refuse("cannot download media longer than 1h.");
            }
        },
        None => {
            if info.filesize_approx.is_none() {
                return refuse("cannot download media, because duration and filesize are unknown.");
            }
        },
    }
    match info.filesize_approx {
        Some(f) => {
            if f > MAX_FILESIZE {
                return refuse("cannot download media larger than 1 GiB.");
            }
        },
        None => {},
    }
    Ok(())
}

/// Who made the media: the artist, else the channel.
pub open spec fn spec_creator(info: Infojson) -> Option<Seq<char>> {
    match info.artist {
        Some(a) => Some(a@),
        None => match info.channel {
            Some(c) => Some(c@),
            None => None,
        },
    }
}

/// What the media is called: the track, else the title.
pub open spec fn spec_title(info: Infojson) -> Option<Seq<char>> {
    match info.track {
        Some(t) => Some(t@),
        None => match info.title {
            Some(t) => Some(t@),
            None => None,
        },
    }
}

/// The media's name: creator and title, those that are known, joined by a
/// dash, in italics and linking to the page; `None` when neither is known.
pub open spec fn spec_media_name(info: Infojson) -> Option<EntityView> {
    let parts = (match spec_creator(info) {
        Some(c) => seq![c],
        None => Seq::empty(),
    }) + (match spec_title(info) {
        Some(t) => seq![t],
        None => Seq::empty(),
    });
    if parts.len() == 0 {
        None
    } else {
        Some(link(italic(join(parts, " – "@)), info.webpage_url@))
    }
}

/// Who made the media.
pub fn creator(info: &Infojson) -> (r: Option<String>)
    ensures
        match r {
            Some(c) => spec_creator(*info) == Some(c@),
            None => spec_creator(*info) is None,
        },
{
    match &info.artist {
        Some(a) => Some(a.clone()),
        None => match &info.channel {
            Some(c) => Some(c.clone()),
            None => None,
        },
    }
}

/// What the media is called.
pub fn title(info: &Infojson) -> (r: Option<String>)
    ensures
        match r {
            Some(t) => spec_title(*info) == Some(t@),
            None => spec_title(*info) is None,
        },
{
    match &info.track {
        Some(t) => Some(t.clone()),
        None => match &info.title {
            Some(t) => Some(t.clone()),
            None => None,
        },
    }
}

/// The media's name, as shown in messages.
pub fn media_name(info: &Infojson) -> (r: Option<Entity>)
    ensures
        match r {
            Some(e) => spec_media_name(*info) == Some(e@),
            None => spec_media_name(*info) is None,
        },
{
    let mut parts: Vec<String> = Vec::new();
    match creator(info) {
        Some(c) => parts.push(c),
        None => {},
    }
    match title(info) {
        Some(t) => parts.push(t),
        None => {},
    }
    let ghost expected = (match spec_creator(*info) {
        Some(c) => seq![c],
        None => Seq::<Seq<char>>::empty(),
    }) + (match spec_title(*info) {
        Some(t) => seq![t],
        None => Seq::<Seq<char>>::empty(),
    });
    assert(parts@.map_values(|p: String| p@) =~= expected);
    if parts.len() == 0 {
        None
    } else {
        let name = join_strings(&parts, " – ");
        Some(with_url(italic_text(name), info.webpage_url.clone()))
    }
}

pub open spec fn spec_status_entities(info: Infojson) -> Seq<EntityView> {
    seq![
        plain("downloading "@),
        match spec_media_name(info) {
            Some(n) => n,
            None => plain(info.webpage_url@),
        },
        plain("…"@),
    ]
}

/// The status message while the media downloads.
pub fn status_entities(info: &Infojson) -> (r: Vec<Entity>)
    ensures
        views(r@) == spec_status_entities(*info),
{
    let mut r: Vec<Entity> = Vec::new();
    r.push(text_str("downloading "));
    match media_name(info) {
        Some(n) => r.push(n),
        None => r.push(text(info.webpage_url.clone())),
    }
    r.push(text_str("…"));
    assert(views(r@) =~= spec_status_entities(*info));
    r
}

/// How the downloaded file is sent, by the extension yt-dlp gave it.
pub open spec fn spec_send_kind(ext: Seq<char>) -> MediaKind {
    if ext == "mp4"@ || ext == "mov"@ || ext == "webm"@ || ext == "flv"@ {
        MediaKind::Video
    } else if ext == "m4a"@ || ext == "aac"@ || ext == "mp3"@ || ext == "ogg"@ || ext == "opus"@ {
        MediaKind::Audio
    } else {
        MediaKind::Document
    }
}

/// How the downloaded file is sent.
pub fn send_kind(ext: &str) -> (r: MediaKind)
    ensures
        r == spec_send_kind(ext@),
{
    if str_equal(ext, "mp4") || str_equal(ext, "mov") || str_equal(ext, "webm") || str_equal(
        ext,
        "flv",
    ) {
        MediaKind::Video
    } else if str_equal(ext, "m4a") || str_equal(ext, "aac") || str_equal(ext, "mp3") || str_equal(
        ext,
        "ogg",
    ) || str_equal(ext, "opus") {
        MediaKind::Audio
    } else {
        MediaKind::Document
    }
}

/// The duration given to Telegram, in seconds; zero when unknown.
pub fn message_duration(duration: Option<u64>) -> (r: i32)
    requires
        duration matches Some(d) ==> d <= i32::MAX,
    ensures
        r == (match duration {
            Some(d) => d as int,
            None => 0,
        }),
{
    match duration {
        Some(d) => d as i32,
        None => 0,
    }
}

} // verus!
