//! Text to speech.
use vstd::prelude::*;

use crate::commands::{CommandError, CommandTrait};
use crate::text::chars_of;

verus! {

/// Reads a text aloud with the Ivona voice Jan.
pub struct Tts;

impl CommandTrait for Tts {
    open spec fn spec_names(&self) -> Seq<Seq<char>> {
        seq!["tts"@, "ivona"@]
    }

    open spec fn spec_description(&self) -> Option<Seq<char>> {
        None
    }

    fn command_names(&self) -> (r: &[&str]) {
        let r: &[&str] = &["tts", "ivona"];
        assert(r@.map_values(|s: &str| s@) =~= self.spec_names());
        r
    }

    fn description(&self) -> (r: Option<&'static str>) {
        None
    }
}

impl Tts {
    /// The name the command is invoked by.
    pub fn name(&self) -> (r: &'static str)
        ensures
            r@ == "tts"@,
    {
        "tts"
    }

    /// The other names the command is invoked by.
    pub fn aliases(&self) -> (r: &[&str])
        ensures
            r@.map_values(|s: &str| s@) == seq!["ivona"@],
    {
        let r: &[&str] = &["ivona"];
        assert(r@.map_values(|s: &str| s@) =~= seq!["ivona"@]);
        r
    }
}

/// The most characters that are read aloud.
pub const MAX_CHARS: usize = 1024;

/// The text to read aloud: it must be given and at most `MAX_CHARS`
/// characters long.
pub fn text_to_synthesize(arguments: Option<String>) -> (r: Result<String, CommandError>)
    ensures
        match arguments {
            None => r matches Err(CommandError::MissingArgument(m)) && m@ == "text to synthesize"@,
            Some(t) => if t@.len() > MAX_CHARS {
                r matches Err(CommandError::Custom(m)) && m@ == "this text is too long."@
            } else {
                r == Ok::<String, CommandError>(t)
            },
        },
{
    match arguments {
        None => Err(CommandError::MissingArgument("text to synthesize")),
        Some(t) => {
            let count = chars_of(t.as_str()).len();
            if count > MAX_CHARS {
                Err(CommandError::Custom(String::from_str("this text is too long.")))
            } else {
                Ok(t)
            }
        },
    }
}

} // verus!
