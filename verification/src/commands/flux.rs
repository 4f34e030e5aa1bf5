//! Images from FLUX.1 [schnell].
use vstd::prelude::*;

use crate::commands::{CommandError, CommandTrait};
use crate::encoding::{base64_standard, decode_base64};
use crate::text::{chars_of, push_str, replace_all, replace_chars, slice_chars, string_from_chars, string_of_range, trim, trim_bounds};

verus! {

/// Generates an image with FLUX.1 [schnell] on Together.
pub struct Flux;

impl CommandTrait for Flux {
    open spec fn spec_names(&self) -> Seq<Seq<char>> {
        seq!["flux"@]
    }

    open spec fn spec_description(&self) -> Option<Seq<char>> {
        Some("generate an image using FLUX[schnell]"@)
    }

    fn command_names(&self) -> (r: &[&str]) {
        let r: &[&str] = &["flux"];
        assert(r@.map_values(|s: &str| s@) =~= self.spec_names());
        r
    }

    fn description(&self) -> (r: Option<&'static str>) {
        Some("generate an image using FLUX[schnell]")
    }
}

/// The prompt in a message's text: the text trimmed, without any `/flux`,
/// and trimmed again; `None` when nothing is left.
pub open spec fn spec_prompt(message_text: Seq<char>) -> Option<Seq<char>> {
    let p = trim(replace_all(trim(message_text), "/flux"@, ""@));
    if p.len() > 0 {
        Some(p)
    } else {
        None
    }
}

/// The prompt of the message, when it has text.
pub fn prompt_of(message_text: Option<&str>) -> (r: Option<String>)
    ensures
        match message_text {
            Some(t) => match r {
                Some(p) => spec_prompt(t@) == Some(p@),
                None => spec_prompt(t@) is None,
            },
            None => r is None,
        },
{
    match message_text {
        None => None,
        Some(t) => {
            let v = chars_of(t);
            let (a, b) = trim_bounds(&v);
            let trimmed = slice_chars(&v, a, b);
            let mut command: Vec<char> = Vec::new();
            push_str(&mut command, "/flux");
            let nothing: Vec<char> = Vec::new();
            proof {
                reveal_strlit("/flux");
                reveal_strlit("");
            }
            assert(command@ =~= "/flux"@);
            assert(nothing@ =~= ""@);
            let replaced = replace_chars(&trimmed, &command, &nothing);
            let (c, d) = trim_bounds(&replaced);
            if c == d {
                None
            } else {
                Some(string_of_range(&replaced, c, d))
            }
        },
    }
}

/// The reply when the message holds no prompt.
pub fn no_prompt_reply() -> (r: String)
    ensures
        r@ == "Please provide a prompt."@,
{
    String::from_str("Please provide a prompt.")
}

/// What is asked of Together.
pub struct ImageRequest {
    pub model: String,
    pub prompt: String,
    pub width: u32,
    pub height: u32,
    pub steps: u32,
    pub n: u32,
    pub response_format: String,
}

/// One 1024×768 image of the prompt, in four steps, sent back as base64.
pub fn image_request(prompt: String) -> (r: ImageRequest)
    ensures
        r.model@ == "black-forest-labs/FLUX.1-schnell-Free"@,
        r.prompt == prompt,
        r.width == 1024,
        r.height == 768,
        r.steps == 4,
        r.n == 1,
        r.response_format@ == "b64_json"@,
{
    ImageRequest {
        model: String::from_str("black-forest-labs/FLUX.1-schnell-Free"),
        prompt,
        width: 1024,
        height: 768,
        steps: 4,
        n: 1,
        response_format: String::from_str("b64_json"),
    }
}

/// The reply when Together answered with an error.
pub fn api_error_reply(error: &str) -> (r: String)
    ensures
        r@ == "Together API error: "@ + error@,
{
    let mut out: Vec<char> = Vec::new();
    push_str(&mut out, "Together API error: ");
    push_str(&mut out, error);
    string_from_chars(out.as_slice())
}

/// The image's bytes, from the base64 text that Together sent; the
/// decoder's message when it is not valid base64.
pub fn image_bytes(b64_json: &str) -> (r: Result<Vec<u8>, CommandError>)
    ensures
        match r {
            Ok(bytes) => base64_standard(b64_json@) == Some(bytes@),
            Err(e) => base64_standard(b64_json@) is None && e is Custom,
        },
{
    match decode_base64(b64_json) {
        Ok(bytes) => Ok(bytes),
        Err(message) => Err(CommandError::Custom(message)),
    }
}

/// The caption, with the time taken already written in seconds.
pub fn caption_text(prompt: &str, seconds: &str) -> (r: String)
    ensures
        r@ == "generated with FLUX: "@ + prompt@ + "\n("@ + seconds@ + "s)"@,
{
    let mut out: Vec<char> = Vec::new();
    push_str(&mut out, "generated with FLUX: ");
    push_str(&mut out, prompt);
    push_str(&mut out, "\n(");
    push_str(&mut out, seconds);
    push_str(&mut out, "s)");
    string_from_chars(out.as_slice())
}

} // verus!
