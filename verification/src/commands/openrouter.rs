//! Questions for models on OpenRouter.
use vstd::prelude::*;

use crate::commands::chat_completion::{chain_turns, conversation, turns_of, ChainMessage, PromptMessage};
use crate::commands::makersuite::SYSTEM_INSTRUCTION;
use crate::commands::{CommandError, CommandTrait};
use crate::rate_limit::RateLimiter;

verus! {

/// Asks a model through OpenRouter.
pub struct OpenRouter {
    command_names: &'static [&'static str],
    description: &'static str,
    model: &'static str,
    rate_limit: (usize, i32),
}

impl OpenRouter {
    /// The model that answers.
    pub closed spec fn spec_model(&self) -> Seq<char> {
        self.model@
    }

    /// The rate limit: requests per user, and the window in seconds.
    pub closed spec fn spec_rate_limit(&self) -> (usize, i32) {
        self.rate_limit
    }

    /// Mistral Small 3.
    pub fn mistral() -> (r: Self)
        ensures
            r.spec_names() == seq!["mistral"@],
            r.spec_description() == Some("ask Mistral Small 3"@),
            r.spec_model() == "mistralai/mistral-small-24b-instruct-2501"@,
            r.spec_rate_limit() == (6usize, 60i32),
    {
        let r = Self {
            command_names: &["mistral"],
            description: "ask Mistral Small 3",
            model: "mistralai/mistral-small-24b-instruct-2501",
            rate_limit: (6, 60),
        };
        assert(r.spec_names() =~= seq!["mistral"@]);
        r
    }

    /// Perplexity Sonar.
    pub fn perplexity() -> (r: Self)
        ensures
            r.spec_names() == seq!["perplexity"@, "sonar"@],
            r.spec_description() == Some("ask Perplexity Sonar"@),
            r.spec_model() == "perplexity/sonar"@,
            r.spec_rate_limit() == (2usize, 120i32),
    {
        let r = Self {
            command_names: &["perplexity", "sonar"],
            description: "ask Perplexity Sonar",
            model: "perplexity/sonar",
            rate_limit: (2, 120),
        };
        assert(r.spec_names() =~= seq!["perplexity"@, "sonar"@]);
        r
    }

    /// The model that answers.
    pub fn model(&self) -> (r: &'static str)
        ensures
            r@ == self.spec_model(),
    {
        self.model
    }

    pub fn rate_limit(&self) -> (r: RateLimiter<i64>)
        ensures
            r@.limit == self.spec_rate_limit().0,
            r@.duration == self.spec_rate_limit().1,
            r@.history == Map::<i64, Seq<i32>>::empty(),
    {
        RateLimiter::new(self.rate_limit.0, self.rate_limit.1)
    }
}

impl CommandTrait for OpenRouter {
    closed spec fn spec_names(&self) -> Seq<Seq<char>> {
        self.command_names@.map_values(|s: &str| s@)
    }

    closed spec fn spec_description(&self) -> Option<Seq<char>> {
        Some(self.description@)
    }

    fn command_names(&self) -> (r: &[&str]) {
        self.command_names
    }

    fn description(&self) -> (r: Option<&'static str>) {
        Some(self.description)
    }
}

/// The conversation sent to the model: the system instruction, then the
/// chain's messages that have text; an error when none has.
pub fn prompt_messages(chain: Vec<ChainMessage>) -> (r: Result<Vec<PromptMessage>, CommandError>)
    ensures
        chain_turns(chain@).len() == 0 ==> (r matches Err(CommandError::Custom(m)) && m@
            == "no prompt provided."@),
        chain_turns(chain@).len() > 0 ==> (r matches Ok(ms) && turns_of(ms@) == seq![
            ("system"@, SYSTEM_INSTRUCTION@),
        ] + chain_turns(chain@)),
{
    let messages = conversation(&chain);
    assert(messages@.len() == turns_of(messages@).len());
    if messages.len() <= 1 {
        return Err(CommandError::Custom(String::from_str("no prompt provided.")));
    }
    Ok(messages)
}

} // verus!
