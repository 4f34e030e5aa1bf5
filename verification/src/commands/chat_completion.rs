//! Chat completions: the conversation sent to a model, and the reply built
//! from its answer.
use vstd::prelude::*;

use crate::commands::makersuite::SYSTEM_INSTRUCTION;
use crate::commands::CommandError;
use crate::text::{
    chars_of, push_chars, push_signed_decimal, push_str, signed_decimal, str_equal, string_from_chars,
    trim, trim_bounds,
};

verus! {

/// The text to reply with, and whether it is to be read as Markdown.
pub struct ReplyText {
    pub text: String,
    pub markdown: bool,
}

/// The completion with its finish reason appended unless it is `stop`.
pub open spec fn with_finish_reason(text: Seq<char>, finish_reason: Seq<char>) -> Seq<char> {
    if finish_reason != "stop"@ {
        text + " ["@ + finish_reason + "]"@
    } else {
        text
    }
}

/// A blank completion is answered with a fixed plain notice; any other
/// completion is sent as Markdown.
pub open spec fn spec_reply(text: Seq<char>) -> (Seq<char>, bool) {
    if trim(text).len() == 0 {
        ("[no text generated]"@, false)
    } else {
        (text, true)
    }
}

/// Builds the reply for a completion `text` that stopped for `finish_reason`.
pub fn reply_for_completion(text: &Vec<char>, finish_reason: &str) -> (r: ReplyText)
    ensures
        (r.text@, r.markdown) == spec_reply(with_finish_reason(text@, finish_reason@)),
{
    let mut out: Vec<char> = Vec::new();
    push_chars(&mut out, text);
    if !str_equal(finish_reason, "stop") {
        push_str(&mut out, " [");
        push_str(&mut out, finish_reason);
        push_str(&mut out, "]");
    }
    assert(out@ =~= with_finish_reason(text@, finish_reason@));
    let (a, b) = trim_bounds(&out);
    if a == b {
        ReplyText { text: String::from_str("[no text generated]"), markdown: false }
    } else {
        ReplyText { text: string_from_chars(out.as_slice()), markdown: true }
    }
}

/// A message of the reply chain the command was sent in.
pub struct ChainMessage {
    pub text: Option<String>,
    /// Whether the bot wrote it.
    pub bot_author: bool,
}

/// A message of the conversation sent to the model.
#[derive(Debug)]
pub struct PromptMessage {
    pub role: &'static str,
    pub content: String,
}

/// The role of a chain message: `assistant` for the bot's, `user` for the
/// others.
pub open spec fn role_of(m: ChainMessage) -> Seq<char> {
    if m.bot_author {
        "assistant"@
    } else {
        "user"@
    }
}

/// The chain's messages that have text, as (role, content), in order.
pub open spec fn chain_turns(chain: Seq<ChainMessage>) -> Seq<(Seq<char>, Seq<char>)>
    decreases chain.len(),
{
    if chain.len() == 0 {
        Seq::empty()
    } else {
        chain_turns(chain.drop_last()) + match chain.last().text {
            Some(t) => seq![(role_of(chain.last()), t@)],
            None => Seq::empty(),
        }
    }
}

/// (role, content) of each message.
pub open spec fn turns_of(messages: Seq<PromptMessage>) -> Seq<(Seq<char>, Seq<char>)> {
    messages.map_values(|m: PromptMessage| (m.role@, m.content@))
}

/// The conversation sent to the model: the system instruction, then the
/// chain's messages that have text.
pub fn conversation(chain: &Vec<ChainMessage>) -> (r: Vec<PromptMessage>)
    ensures
        turns_of(r@) == seq![("system"@, SYSTEM_INSTRUCTION@)] + chain_turns(chain@),
{
    let mut messages: Vec<PromptMessage> = Vec::new();
    messages.push(PromptMessage { role: "system", content: String::from_str(SYSTEM_INSTRUCTION) });
    let ghost head = seq![("system"@, SYSTEM_INSTRUCTION@)];
    assert(turns_of(messages@) =~= head);
    let mut i: usize = 0;
    while i < chain.len()
        invariant
            i <= chain.len(),
            turns_of(messages@) == head + chain_turns(chain@.take(i as int)),
        decreases chain.len() - i,
    {
        assert(chain@.take(i + 1).drop_last() =~= chain@.take(i as int));
        let ghost before = messages@;
        match &chain[i].text {
            Some(t) => {
                let role: &'static str = if chain[i].bot_author {
                    "assistant"
                } else {
                    "user"
                };
                messages.push(PromptMessage { role, content: t.clone() });
                assert(turns_of(messages@) =~= turns_of(before) + seq![
                    (role_of(chain@[i as int]), t@),
                ]);
            },
            None => {},
        }
        i = i + 1;
    }
    assert(chain@.take(chain.len() as int) =~= chain@);
    messages
}

/// The error when the model service answered with an error.
pub fn api_error(code: i64, message: &str) -> (r: CommandError)
    ensures
        r matches CommandError::Custom(m) && m@ == "error "@ + signed_decimal(code as int) + ": "@
            + message@,
{
    let mut out: Vec<char> = Vec::new();
    push_str(&mut out, "error ");
    push_signed_decimal(&mut out, code);
    push_str(&mut out, ": ");
    push_str(&mut out, message);
    CommandError::Custom(string_from_chars(out.as_slice()))
}

} // verus!
