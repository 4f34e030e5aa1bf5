//! Obscure YouTube videos.
use vstd::prelude::*;

use crate::commands::CommandTrait;
use crate::text::{push_str, string_from_chars};

verus! {

/// Finds an obscure YouTube video with very few views.
pub struct ObscureTube;

impl CommandTrait for ObscureTube {
    open spec fn spec_names(&self) -> Seq<Seq<char>> {
        seq!["obscuretube"@, "obscure"@, "noviews"@]
    }

    open spec fn spec_description(&self) -> Option<Seq<char>> {
        Some("get a random obscure YouTube video with very few views"@)
    }

    fn command_names(&self) -> (r: &[&str]) {
        let r: &[&str] = &["obscuretube", "obscure", "noviews"];
        assert(r@.map_values(|s: &str| s@) =~= self.spec_names());
        r
    }

    fn description(&self) -> (r: Option<&'static str>) {
        Some("get a random obscure YouTube video with very few views")
    }
}

/// The short YouTube address of a video.
pub fn video_url(identifier: &str) -> (r: String)
    ensures
        r@ == "https://youtu.be/"@ + identifier@,
{
    let mut out: Vec<char> = Vec::new();
    push_str(&mut out, "https://youtu.be/");
    push_str(&mut out, identifier);
    string_from_chars(out.as_slice())
}

} // verus!
