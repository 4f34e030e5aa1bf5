//! Searching Craiyon's images.
use vstd::prelude::*;

use crate::images::{byte_seqs, decoded_origins, decoded_pictures, origins, ImageKind, Picture};
use crate::commands::CommandTrait;
use crate::links::{parse_url, url_parse, UrlParse, UrlParseView};
use crate::text::{chars_of, decimal, join, push_decimal, push_joined, push_str, string_from_chars};

verus! {

/// Searches images that Craiyon drew.
pub struct CraiyonSearch;

impl CommandTrait for CraiyonSearch {
    open spec fn spec_names(&self) -> Seq<Seq<char>> {
        seq!["search"@, "craiyon_search"@]
    }

    open spec fn spec_description(&self) -> Option<Seq<char>> {
        Some("search images generated with 🖍 Craiyon"@)
    }

    fn command_names(&self) -> (r: &[&str]) {
        let r: &[&str] = &["search", "craiyon_search"];
        assert(r@.map_values(|s: &str| s@) =~= self.spec_names());
        r
    }

    fn description(&self) -> (r: Option<&'static str>) {
        Some("search images generated with 🖍 Craiyon")
    }
}

/// The most results that are shown.
pub const RESULT_LIMIT: usize = 9;

/// The results that are shown: the first `RESULT_LIMIT`.
pub fn results_to_show<T>(results: Vec<T>) -> (r: Vec<T>)
    ensures
        r@ == (if results@.len() > RESULT_LIMIT {
            results@.take(RESULT_LIMIT as int)
        } else {
            results@
        }),
{
    let mut results = results;
    results.truncate(RESULT_LIMIT);
    results
}

/// Where a result's picture is: `https://pics.craiyon.com/` and the id, as
/// `Url::parse` reads and writes it; `None` when that does not parse.
pub open spec fn spec_picture_url(image_id: Seq<char>) -> Option<Seq<char>> {
    match url_parse("https://pics.craiyon.com/"@ + image_id) {
        UrlParseView::Parsed(u) => Some(u),
        UrlParseView::Failed { .. } => None,
    }
}

/// Where a result's picture is.
pub fn picture_url(image_id: &str) -> (r: Option<String>)
    ensures
        match r {
            Some(u) => spec_picture_url(image_id@) == Some(u@),
            None => spec_picture_url(image_id@) is None,
        },
{
    let mut out: Vec<char> = Vec::new();
    push_str(&mut out, "https://pics.craiyon.com/");
    push_str(&mut out, image_id);
    let address = string_from_chars(out.as_slice());
    match parse_url(address.as_str()) {
        UrlParse::Parsed(u) => Some(u),
        UrlParse::Failed { .. } => None,
    }
}

/// A line of the caption in Telegram's MarkdownV2: the result's number, and
/// its prompt (already escaped) linking to its picture.
pub open spec fn spec_caption_line(number: nat, escaped_prompt: Seq<char>, image_id: Seq<char>) -> Seq<char> {
    decimal(number) + "\\. ["@ + escaped_prompt + "](https://pics.craiyon.com/"@ + image_id + ")"@
}

/// A line of the caption.
pub fn caption_line(number: u64, escaped_prompt: &str, image_id: &str) -> (r: String)
    ensures
        r@ == spec_caption_line(number as nat, escaped_prompt@, image_id@),
{
    let mut out: Vec<char> = Vec::new();
    push_decimal(&mut out, number as u128);
    push_str(&mut out, "\\. [");
    push_str(&mut out, escaped_prompt);
    push_str(&mut out, "](https://pics.craiyon.com/");
    push_str(&mut out, image_id);
    push_str(&mut out, ")");
    string_from_chars(out.as_slice())
}


/// A search result as it is shown: its prompt, already shortened and
/// escaped for MarkdownV2, and the id of its picture.
pub struct ShownResult {
    pub escaped_prompt: String,
    pub image_id: String,
}

/// The caption's lines, numbered from one in the order of the results.
pub open spec fn caption_lines(results: Seq<ShownResult>) -> Seq<Seq<char>> {
    Seq::new(
        results.len(),
        |i: int| spec_caption_line((i + 1) as nat, results[i].escaped_prompt@, results[i].image_id@),
    )
}

/// The caption in MarkdownV2: one numbered line per result, joined by line
/// breaks.
pub fn results_caption(results: &Vec<ShownResult>) -> (r: String)
    ensures
        r@ == join(caption_lines(results@), "\n"@),
{
    let mut out: Vec<char> = Vec::new();
    let mut k: usize = 0;
    while k < results.len()
        invariant
            k <= results.len(),
            out@ == join(caption_lines(results@).take(k as int), "\n"@),
        decreases results.len() - k,
    {
        let line = caption_line((k + 1) as u64, results[k].escaped_prompt.as_str(), results[k].image_id.as_str());
        let part = chars_of(line.as_str());
        let ghost done = caption_lines(results@).take(k as int);
        push_joined(&mut out, &part, "\n", k == 0, Ghost(done));
        assert(done.push(part@) =~= caption_lines(results@).take(k + 1));
        k = k + 1;
    }
    assert(caption_lines(results@).take(results.len() as int) =~= caption_lines(results@));
    string_from_chars(out.as_slice())
}


/// The pictures of the results that decode (WebP), each resized to 512×512
/// for the collage.
pub fn result_pictures(images: &Vec<Vec<u8>>) -> (r: Vec<Picture>)
    ensures
        origins(r@) == decoded_origins(byte_seqs(images@), true, Some((512, 512))),
        forall|i: int| 0 <= i < r@.len() ==> (#[trigger] r@[i]).spec_width() == 512 && r@[i].spec_height() == 512,
{
    decoded_pictures(images, ImageKind::WebP, Some((512, 512)))
}

} // verus!
