//! Word-by-word translations.
use vstd::prelude::*;

use crate::commands::CommandTrait;
use crate::text::{ascii_words, join, join_strings, split_ascii_words};

verus! {

/// Translates every word of a text on its own.
pub struct BadTranslate;

impl CommandTrait for BadTranslate {
    open spec fn spec_names(&self) -> Seq<Seq<char>> {
        seq!["badtranslate"@, "btr"@, "btrans"@]
    }

    open spec fn spec_description(&self) -> Option<Seq<char>> {
        Some("badly translate text by translating every word separately"@)
    }

    fn command_names(&self) -> (r: &[&str]) {
        let r: &[&str] = &["badtranslate", "btr", "btrans"];
        assert(r@.map_values(|s: &str| s@) =~= self.spec_names());
        r
    }

    fn description(&self) -> (r: Option<&'static str>) {
        Some("badly translate text by translating every word separately")
    }
}

/// The words that are translated one by one: the text split at ASCII
/// whitespace.
pub fn words_to_translate(text: &str) -> (r: Vec<String>)
    ensures
        r@.map_values(|w: String| w@) == ascii_words(text@),
{
    split_ascii_words(text)
}

/// The reply: the translated words, separated by spaces.
pub fn translated_text(translations: &Vec<String>) -> (r: String)
    ensures
        r@ == join(translations@.map_values(|t: String| t@), " "@),
{
    join_strings(translations, " ")
}

} // verus!
