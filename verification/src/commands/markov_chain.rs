//! Text from a Markov chain of the chat's messages.
use vstd::prelude::*;

use crate::commands::CommandTrait;
use crate::message_entities::{code, code_text, plain, text_str, views, Entity, EntityView};

verus! {

/// Generates text from the messages seen in a chat.
pub struct MarkovChain;

impl CommandTrait for MarkovChain {
    open spec fn spec_names(&self) -> Seq<Seq<char>> {
        seq!["markov_chain"@, "markov"@, "chain"@]
    }

    open spec fn spec_description(&self) -> Option<Seq<char>> {
        Some("generate text based on seen chat messages"@)
    }

    fn command_names(&self) -> (r: &[&str]) {
        let r: &[&str] = &["markov_chain", "markov", "chain"];
        assert(r@.map_values(|s: &str| s@) =~= self.spec_names());
        r
    }

    fn description(&self) -> (r: Option<&'static str>) {
        Some("generate text based on seen chat messages")
    }
}

/// Text is generated in private chats and in chats where learning was
/// enabled.
pub fn may_generate(is_private_chat: bool, learning_enabled: bool) -> (r: bool)
    ensures
        r == (is_private_chat || learning_enabled),
{
    is_private_chat || learning_enabled
}

pub open spec fn spec_learning_notice() -> Seq<EntityView> {
    seq![
        plain("a chat admin has to enable Markov chain learning with "@),
        code("/config markov_chain_learning true"@),
        plain("."@),
    ]
}

/// The reply in a chat where learning is not enabled.
pub fn learning_notice() -> (r: Vec<Entity>)
    ensures
        views(r@) == spec_learning_notice(),
{
    let mut r: Vec<Entity> = Vec::new();
    r.push(text_str("a chat admin has to enable Markov chain learning with "));
    r.push(code_text(String::from_str("/config markov_chain_learning true")));
    r.push(text_str("."));
    assert(views(r@) =~= spec_learning_notice());
    r
}

/// The reply: the generated text, or a notice when nothing was generated.
pub fn generated_reply(generated: Option<String>) -> (r: String)
    ensures
        r@ == (match generated {
            Some(t) => t@,
            None => "no text was generated."@,
        }),
{
    match generated {
        Some(t) => t,
        None => String::from_str("no text was generated."),
    }
}

} // verus!
