//! Google Translate.
use vstd::prelude::*;

use crate::commands::CommandTrait;
use crate::message_entities::{bold, bold_text, plain, text, text_str, views, Entity, EntityView};

verus! {

/// Translates text with Google Translate.
pub struct Translate;

impl CommandTrait for Translate {
    open spec fn spec_names(&self) -> Seq<Seq<char>> {
        seq!["translate"@, "tr"@, "trans"@]
    }

    open spec fn spec_description(&self) -> Option<Seq<char>> {
        Some("translate text using Google Translate"@)
    }

    fn command_names(&self) -> (r: &[&str]) {
        let r: &[&str] = &["translate", "tr", "trans"];
        assert(r@.map_values(|s: &str| s@) =~= self.spec_names());
        r
    }

    fn description(&self) -> (r: Option<&'static str>) {
        Some("translate text using Google Translate")
    }
}

pub open spec fn spec_translation_entities(
    source_language: Seq<char>,
    target_language: Seq<char>,
    translation: Seq<char>,
) -> Seq<EntityView> {
    seq![bold(source_language), plain(" ➜ "@), bold(target_language), plain("\n"@), plain(translation)]
}

/// The reply: the two languages in bold, then the translation.
pub fn translation_entities(source_language: &str, target_language: &str, translation: String) -> (r: Vec<Entity>)
    ensures
        views(r@) == spec_translation_entities(source_language@, target_language@, translation@),
{
    let mut r: Vec<Entity> = Vec::new();
    r.push(bold_text(String::from_str(source_language)));
    r.push(text_str(" ➜ "));
    r.push(bold_text(String::from_str(target_language)));
    r.push(text_str("\n"));
    r.push(text(translation));
    assert(views(r@) =~= spec_translation_entities(source_language@, target_language@, translation@));
    r
}

} // verus!
