//! Images from Craiyon.
use vstd::prelude::*;

use crate::images::{byte_seqs, decoded_origins, decoded_pictures, origins, ImageKind, Picture};
use crate::commands::CommandTrait;
use crate::message_entities::{bold, bold_text, code, code_text, link, plain, text, text_str, views, with_url, Entity, EntityView};
use crate::rate_limit::RateLimiter;
use crate::text::{decimal, decimal_string, push_str, string_from_chars};

verus! {

/// The command that was renamed; it tells which ones to use now.
pub struct Generate;

impl CommandTrait for Generate {
    open spec fn spec_names(&self) -> Seq<Seq<char>> {
        seq!["generate"@]
    }

    open spec fn spec_description(&self) -> Option<Seq<char>> {
        None
    }

    fn command_names(&self) -> (r: &[&str]) {
        let r: &[&str] = &["generate"];
        assert(r@.map_values(|s: &str| s@) =~= self.spec_names());
        r
    }

    fn description(&self) -> (r: Option<&'static str>) {
        None
    }
}

pub open spec fn spec_renamed_notice() -> Seq<EntityView> {
    seq![
        plain("this command was renamed to "@),
        code("/craiyon_art"@),
        plain(", "@),
        code("/craiyon_drawing"@),
        plain(", "@),
        code("/craiyon_photo"@),
        plain(", and "@),
        code("/craiyon"@),
        plain(". use one of them instead."@),
    ]
}

/// The reply: the commands to use instead.
pub fn renamed_notice() -> (r: Vec<Entity>)
    ensures
        views(r@) == spec_renamed_notice(),
{
    let mut r: Vec<Entity> = Vec::new();
    r.push(text_str("this command was renamed to "));
    r.push(code_text(String::from_str("/craiyon_art")));
    r.push(text_str(", "));
    r.push(code_text(String::from_str("/craiyon_drawing")));
    r.push(text_str(", "));
    r.push(code_text(String::from_str("/craiyon_photo")));
    r.push(text_str(", and "));
    r.push(code_text(String::from_str("/craiyon")));
    r.push(text_str(". use one of them instead."));
    assert(views(r@) =~= spec_renamed_notice());
    r
}

/// Craiyon's image models.
#[derive(PartialEq, Eq, Structural, Clone, Copy)]
pub enum Model {
    Art,
    Drawing,
    Photo,
    /// Craiyon's "none" model: no particular style.
    NoStyle,
}

/// Draws images with one of Craiyon's models.
pub struct Craiyon {
    command_names: &'static [&'static str],
    description: &'static str,
    model: Model,
}

impl Craiyon {
    /// The model that draws.
    pub closed spec fn spec_model(&self) -> Model {
        self.model
    }

    /// Draws with the Art model.
    pub fn art() -> (r: Self)
        ensures
            r.spec_names() == seq!["craiyon_art"@],
            r.spec_description() == Some("generate images using 🖍 Craiyon V3 Art model"@),
            r.spec_model() == Model::Art,
    {
        let r = Self {
            command_names: &["craiyon_art"],
            description: "generate images using 🖍 Craiyon V3 Art model",
            model: Model::Art,
        };
        assert(r.spec_names() =~= seq!["craiyon_art"@]);
        r
    }

    /// Draws with the Drawing model.
    pub fn drawing() -> (r: Self)
        ensures
            r.spec_names() == seq!["craiyon_drawing"@],
            r.spec_description() == Some("generate images using 🖍 Craiyon V3 Drawing model"@),
            r.spec_model() == Model::Drawing,
    {
        let r = Self {
            command_names: &["craiyon_drawing"],
            description: "generate images using 🖍 Craiyon V3 Drawing model",
            model: Model::Drawing,
        };
        assert(r.spec_names() =~= seq!["craiyon_drawing"@]);
        r
    }

    /// Draws with the Photo model.
    pub fn photo() -> (r: Self)
        ensures
            r.spec_names() == seq!["craiyon_photo"@],
            r.spec_description() == Some("generate images using 🖍 Craiyon V3 Photo model"@),
            r.spec_model() == Model::Photo,
    {
        let r = Self {
            command_names: &["craiyon_photo"],
            description: "generate images using 🖍 Craiyon V3 Photo model",
            model: Model::Photo,
        };
        assert(r.spec_names() =~= seq!["craiyon_photo"@]);
        r
    }

    /// Draws with no model style.
    pub fn none() -> (r: Self)
        ensures
            r.spec_names() == seq!["craiyon"@],
            r.spec_description() == Some("generate images using 🖍 Craiyon V3 None model"@),
            r.spec_model() == Model::NoStyle,
    {
        let r = Self {
            command_names: &["craiyon"],
            description: "generate images using 🖍 Craiyon V3 None model",
            model: Model::NoStyle,
        };
        assert(r.spec_names() =~= seq!["craiyon"@]);
        r
    }

    /// The model that draws.
    pub fn model(&self) -> (r: Model)
        ensures
            r == self.spec_model(),
    {
        self.model
    }

    pub fn rate_limit(&self) -> (r: RateLimiter<i64>)
        ensures
            r@.limit == 2,
            r@.duration == 30,
            r@.history == Map::<i64, Seq<i32>>::empty(),
    {
        RateLimiter::new(2, 30)
    }
}

impl CommandTrait for Craiyon {
    closed spec fn spec_names(&self) -> Seq<Seq<char>> {
        self.command_names@.map_values(|s: &str| s@)
    }

    closed spec fn spec_description(&self) -> Option<Seq<char>> {
        Some(self.description@)
    }

    fn command_names(&self) -> (r: &[&str]) {
        self.command_names
    }

    fn description(&self) -> (r: Option<&'static str>) {
        Some(self.description)
    }
}

/// The status message while the images are drawn.
pub fn drawing_text(prompt: &str) -> (r: String)
    ensures
        r@ == "drawing "@ + prompt@ + "…"@,
{
    let mut out: Vec<char> = Vec::new();
    push_str(&mut out, "drawing ");
    push_str(&mut out, prompt);
    push_str(&mut out, "…");
    string_from_chars(out.as_slice())
}

/// The numbered links to the images, each after a space.
pub open spec fn numbered_links(urls: Seq<String>) -> Seq<EntityView>
    decreases urls.len(),
{
    if urls.len() == 0 {
        Seq::empty()
    } else {
        numbered_links(urls.drop_last()) + seq![
            plain(" "@),
            link(plain(decimal(urls.len() as nat)), urls.last()@),
        ]
    }
}

/// The numbered links without the space before the first.
pub open spec fn download_links(urls: Seq<String>) -> Seq<EntityView> {
    if urls.len() == 0 {
        Seq::empty()
    } else {
        numbered_links(urls).drop_first()
    }
}

/// The caption of the collage: the prompt, how long drawing took, a link to
/// each image and the prompt Craiyon suggests next.
pub open spec fn spec_caption(prompt: Seq<char>, duration: Seq<char>, urls: Seq<String>, suggested: Seq<char>) -> Seq<EntityView> {
    seq![plain("drawn "@), bold(prompt), plain(" in "@), plain(duration), plain(".\ndownload: "@)]
        + download_links(urls) + seq![plain("\nsuggested prompt: "@), code(suggested)]
}

/// Links to the images, numbered from one and separated by spaces.
pub fn download_link_entities(urls: &Vec<String>) -> (r: Vec<Entity>)
    ensures
        views(r@) == download_links(urls@),
{
    let mut links: Vec<Entity> = Vec::new();
    let mut i: usize = 0;
    while i < urls.len()
        invariant
            i <= urls.len(),
            views(links@) == numbered_links(urls@.take(i as int)),
        decreases urls.len() - i,
    {
        let ghost before = views(links@);
        links.push(text_str(" "));
        let n = decimal_string((i + 1) as u64);
        links.push(with_url(text(n), urls[i].clone()));
        assert(urls@.take(i + 1).drop_last() =~= urls@.take(i as int));
        assert(views(links@) =~= before + seq![
            plain(" "@),
            link(plain(decimal((i + 1) as nat)), urls@[i as int]@),
        ]);
        i = i + 1;
    }
    assert(urls@.take(urls.len() as int) =~= urls@);
    let ghost all = views(links@);
    if links.len() > 0 {
        links.remove(0);
        assert(views(links@) =~= all.drop_first());
    } else {
        assert(views(links@) =~= download_links(urls@));
    }
    links
}

/// The caption of the collage, from the prompt and suggested prompt as
/// shown and the duration already written out.
pub fn caption_entities(prompt: String, duration: String, urls: &Vec<String>, suggested: String) -> (r: Vec<Entity>)
    ensures
        views(r@) == spec_caption(prompt@, duration@, urls@, suggested@),
{
    let mut links = download_link_entities(urls);
    let mut r: Vec<Entity> = Vec::new();
    r.push(text_str("drawn "));
    r.push(bold_text(prompt));
    r.push(text_str(" in "));
    r.push(text(duration));
    r.push(text_str(".\ndownload: "));
    r.append(&mut links);
    r.push(text_str("\nsuggested prompt: "));
    r.push(code_text(suggested));
    assert(views(r@) =~= spec_caption(prompt@, duration@, urls@, suggested@));
    r
}

/// The drawn pictures that decode (WebP), in order, for the collage.
pub fn result_pictures(images: &Vec<Vec<u8>>) -> (r: Vec<Picture>)
    ensures
        origins(r@) == decoded_origins(byte_seqs(images@), true, None),
{
    decoded_pictures(images, ImageKind::WebP, None)
}

} // verus!
