//! Images from Craiyon's generation service, sent as one collage.
use vstd::prelude::*;

use crate::images::{byte_seqs, decoded_origins, decoded_pictures, origins, ImageKind, Picture};
use crate::commands::{CommandError, CommandTrait};
use crate::rate_limit::RateLimiter;
use crate::text::{push_str, string_from_chars};

verus! {

/// Generates images with Craiyon's generation service.
pub struct Generate;

impl Generate {
    pub fn rate_limit(&self) -> (r: RateLimiter<i64>)
        ensures
            r@.limit == 3,
            r@.duration == 60,
            r@.history == Map::<i64, Seq<i32>>::empty(),
    {
        RateLimiter::new(3, 60)
    }
}

impl CommandTrait for Generate {
    open spec fn spec_names(&self) -> Seq<Seq<char>> {
        seq!["generate"@, "g"@, "gen"@, "craiyon"@]
    }

    open spec fn spec_description(&self) -> Option<Seq<char>> {
        Some("generate images using 🖍 Craiyon"@)
    }

    fn command_names(&self) -> (r: &[&str]) {
        let r: &[&str] = &["generate", "g", "gen", "craiyon"];
        assert(r@.map_values(|s: &str| s@) =~= self.spec_names());
        r
    }

    fn description(&self) -> (r: Option<&'static str>) {
        Some("generate images using 🖍 Craiyon")
    }
}

/// The prompt, which must be given.
pub fn prompt_argument(arguments: Option<String>) -> (r: Result<String, CommandError>)
    ensures
        match arguments {
            Some(p) => r == Ok::<String, CommandError>(p),
            None => r matches Err(CommandError::MissingArgument(m)) && m@ == "prompt to generate"@,
        },
{
    match arguments {
        Some(p) => Ok(p),
        None => Err(CommandError::MissingArgument("prompt to generate")),
    }
}

/// The status message while the images are generated.
pub fn generating_text(prompt: &str) -> (r: String)
    ensures
        r@ == "generating "@ + prompt@ + "…"@,
{
    let mut out: Vec<char> = Vec::new();
    push_str(&mut out, "generating ");
    push_str(&mut out, prompt);
    push_str(&mut out, "…");
    string_from_chars(out.as_slice())
}

/// The caption in Telegram's MarkdownV2, from the escaped prompt and the
/// duration already written out.
pub fn caption_markdown(escaped_prompt: &str, duration: &str) -> (r: String)
    ensures
        r@ == "generated *"@ + escaped_prompt@ + "* in "@ + duration@ + "\\."@,
{
    let mut out: Vec<char> = Vec::new();
    push_str(&mut out, "generated *");
    push_str(&mut out, escaped_prompt);
    push_str(&mut out, "* in ");
    push_str(&mut out, duration);
    push_str(&mut out, "\\.");
    string_from_chars(out.as_slice())
}


/// The generated pictures that decode (WebP), each resized to 256×256 for
/// the collage.
pub fn result_pictures(images: &Vec<Vec<u8>>) -> (r: Vec<Picture>)
    ensures
        origins(r@) == decoded_origins(byte_seqs(images@), true, Some((256, 256))),
        forall|i: int| 0 <= i < r@.len() ==> (#[trigger] r@[i]).spec_width() == 256 && r@[i].spec_height() == 256,
{
    decoded_pictures(images, ImageKind::WebP, Some((256, 256)))
}

} // verus!
