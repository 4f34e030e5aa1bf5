//! Images from models hosted on fal.
use vstd::prelude::*;

use crate::commands::CommandTrait;
use crate::message_entities::{bold, bold_text, link, plain, text, text_str, views, with_url, Entity, EntityView};
use crate::rate_limit::RateLimiter;
use crate::text::{push_str, string_from_chars};

verus! {

/// Generates an image with a model hosted on fal.
pub struct Fal {
    command_names: &'static [&'static str],
    description: &'static str,
    model_name: &'static str,
}

impl Fal {
    /// The model that generates.
    pub closed spec fn spec_model(&self) -> Seq<char> {
        self.model_name@
    }

    /// NVIDIA's Sana.
    pub fn sana() -> (r: Self)
        ensures
            r.spec_names() == seq!["sana"@],
            r.spec_description() == Some("generate an image using NVIDIA's \u{fe0f}Sana"@),
            r.spec_model() == "fal-ai/sana"@,
    {
        let r = Self {
            command_names: &["sana"],
            description: "generate an image using NVIDIA's \u{fe0f}Sana",
            model_name: "fal-ai/sana",
        };
        assert(r.spec_names() =~= seq!["sana"@]);
        r
    }

    /// Stable Diffusion XL.
    pub fn sdxl() -> (r: Self)
        ensures
            r.spec_names() == seq!["sdxl"@],
            r.spec_description() == Some("generate an image using Stable Diffusion XL"@),
            r.spec_model() == "fal-ai/fast-sdxl"@,
    {
        let r = Self {
            command_names: &["sdxl"],
            description: "generate an image using Stable Diffusion XL",
            model_name: "fal-ai/fast-sdxl",
        };
        assert(r.spec_names() =~= seq!["sdxl"@]);
        r
    }

    /// The model that generates.
    pub fn model(&self) -> (r: &'static str)
        ensures
            r@ == self.spec_model(),
    {
        self.model_name
    }

    pub fn rate_limit(&self) -> (r: RateLimiter<i64>)
        ensures
            r@.limit == 1,
            r@.duration == 120,
            r@.history == Map::<i64, Seq<i32>>::empty(),
    {
        RateLimiter::new(1, 120)
    }
}

impl CommandTrait for Fal {
    closed spec fn spec_names(&self) -> Seq<Seq<char>> {
        self.command_names@.map_values(|s: &str| s@)
    }

    closed spec fn spec_description(&self) -> Option<Seq<char>> {
        Some(self.description@)
    }

    fn command_names(&self) -> (r: &[&str]) {
        self.command_names
    }

    fn description(&self) -> (r: Option<&'static str>) {
        Some(self.description)
    }
}

pub open spec fn spec_caption(prompt: Seq<char>, seconds: Seq<char>, url: Seq<char>) -> Seq<EntityView> {
    seq![
        plain("generated "@),
        bold(prompt),
        plain(" in "@ + seconds + "s. "@),
        link(plain("download"@), url),
    ]
}

/// The caption: the prompt, the inference time already written in seconds,
/// and a link to the image.
pub fn caption_entities(prompt: String, seconds: &str, url: String) -> (r: Vec<Entity>)
    ensures
        views(r@) == spec_caption(prompt@, seconds@, url@),
{
    let mut timing: Vec<char> = Vec::new();
    push_str(&mut timing, " in ");
    push_str(&mut timing, seconds);
    push_str(&mut timing, "s. ");
    let mut r: Vec<Entity> = Vec::new();
    r.push(text_str("generated "));
    r.push(bold_text(prompt));
    r.push(text(string_from_chars(timing.as_slice())));
    r.push(with_url(text_str("download"), url));
    assert(views(r@) =~= spec_caption(prompt@, seconds@, url@));
    r
}

} // verus!
