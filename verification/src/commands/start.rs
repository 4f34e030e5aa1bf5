//! The greeting for `/start` and `/help`.
use vstd::prelude::*;

use crate::commands::CommandTrait;
use crate::message_entities::{link, plain, text_str, views, with_url, Entity, EntityView};

verus! {

/// Greets the user and lists the most useful commands.
pub struct Start;

impl CommandTrait for Start {
    open spec fn spec_names(&self) -> Seq<Seq<char>> {
        seq!["start"@, "help"@]
    }

    open spec fn spec_description(&self) -> Option<Seq<char>> {
        None
    }

    fn command_names(&self) -> (r: &[&str]) {
        let r: &[&str] = &["start", "help"];
        assert(r@.map_values(|s: &str| s@) =~= self.spec_names());
        r
    }

    fn description(&self) -> (r: Option<&'static str>) {
        None
    }
}

pub open spec fn spec_start_text() -> Seq<EntityView> {
    seq![
        plain(
            "hello! this bot contains many useful and fun commands like:\n• /gemini (/g) – talk to Google Gemini\n• /cobalt_download (/dl), /cobalt_download_audio (/dla) – download media using "@,
        ),
        link(plain("≫ cobalt"@), "https://cobalt.tools/"@),
        plain("\n• /yt_dlp (/yt), /yt_dlp_audio (/yta) – download media using "@),
        link(plain("yt-dlp"@), "https://github.com/yt-dlp/yt-dlp"@),
        plain(
            "\n• /translate (/tr) – translate text using Google Translate\n• /convert (/c) – convert between popular currencies and cryptocurrencies\n• /screenshot (/ss) – screenshot websites\n• /urbandictionary (/ud) – get slang term definitions\n• /charinfo (/ch) – see Unicode character names\nand more!\n\nyou can reply to other messages or quote their parts to provide arguments. this is my open-source hobby project, made using "@,
        ),
        link(plain("Rust"@), "https://www.rust-lang.org/"@),
        plain(" and "@),
        link(plain("TDLib"@), "https://core.telegram.org/tdlib"@),
        plain(". not everything will always work. star the repository on "@),
        link(plain("GitHub"@), "https://github.com/jelni/craiyon-bot"@),
        plain("!\n- @zuzia"@),
    ]
}

fn linked(t: &str, u: &str) -> (e: Entity)
    ensures
        e@ == link(plain(t@), u@),
{
    with_url(text_str(t), String::from_str(u))
}

/// The greeting.
pub fn start_text() -> (r: Vec<Entity>)
    ensures
        views(r@) == spec_start_text(),
{
    let mut r: Vec<Entity> = Vec::new();
    r.push(
        text_str(
            "hello! this bot contains many useful and fun commands like:\n• /gemini (/g) – talk to Google Gemini\n• /cobalt_download (/dl), /cobalt_download_audio (/dla) – download media using ",
        ),
    );
    r.push(linked("≫ cobalt", "https://cobalt.tools/"));
    r.push(text_str("\n• /yt_dlp (/yt), /yt_dlp_audio (/yta) – download media using "));
    r.push(linked("yt-dlp", "https://github.com/yt-dlp/yt-dlp"));
    r.push(
        text_str(
            "\n• /translate (/tr) – translate text using Google Translate\n• /convert (/c) – convert between popular currencies and cryptocurrencies\n• /screenshot (/ss) – screenshot websites\n• /urbandictionary (/ud) – get slang term definitions\n• /charinfo (/ch) – see Unicode character names\nand more!\n\nyou can reply to other messages or quote their parts to provide arguments. this is my open-source hobby project, made using ",
        ),
    );
    r.push(linked("Rust", "https://www.rust-lang.org/"));
    r.push(text_str(" and "));
    r.push(linked("TDLib", "https://core.telegram.org/tdlib"));
    r.push(text_str(". not everything will always work. star the repository on "));
    r.push(linked("GitHub", "https://github.com/jelni/craiyon-bot"));
    r.push(text_str("!\n- @zuzia"));
    assert(views(r@) =~= spec_start_text());
    r
}

} // verus!
