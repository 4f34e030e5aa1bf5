//! The bot's commands: their names, descriptions, rate limits, and the
//! decisions and texts that their replies are made of.
use vstd::prelude::*;

use crate::message_entities::Entity;

pub mod autocomplete;
pub mod badtranslate;
pub mod charinfo;
pub mod chat_completion;
pub mod cobalt_download;
pub mod config;
pub mod convert;
pub mod craiyon;
pub mod craiyon_search;
pub mod delete;
pub mod dice_reply;
pub mod different_dimension_me;
pub mod fal;
pub mod flux;
pub mod generate;
pub mod google_palm;
pub mod groq;
pub mod hopbot;
pub mod httpcat;
pub mod kebab;
pub mod kiwifarms;
pub mod llama;
pub mod makersuite;
pub mod markov_chain;
pub mod mevo;
pub mod moveit_joke;
pub mod nitro;
pub mod obscuretube;
pub mod openrouter;
pub mod petittube;
pub mod ping;
pub mod polymarket;
pub mod radio_poligon;
pub mod radio_sur;
pub mod screenshot;
pub mod sex;
pub mod stable_diffusion;
pub mod stablehorde;
pub mod start;
pub mod startit_joke;
pub mod translate;
pub mod trollslate;
pub mod tts;
pub mod urbandictionary;
pub mod yt_dlp;

verus! {

/// Why a command did not do what it was asked.
#[derive(Debug)]
pub enum CommandError {
    /// The command needs an argument that was not given; names what it is.
    MissingArgument(&'static str),
    /// A message for the user.
    Custom(String),
    /// A message for the user, with styles and links.
    CustomFormattedText(Vec<Entity>),
}

/// What every command tells about itself: the names it is invoked by and a
/// description for the command list.
pub trait CommandTrait {
    spec fn spec_names(&self) -> Seq<Seq<char>>;

    spec fn spec_description(&self) -> Option<Seq<char>>;

    fn command_names(&self) -> (r: &[&str])
        ensures
            r@.map_values(|s: &str| s@) == self.spec_names(),
    ;

    fn description(&self) -> (r: Option<&'static str>)
        ensures
            match r {
                Some(d) => self.spec_description() == Some(d@),
                None => self.spec_description() is None,
            },
    ;
}

} // verus!
