//! Splitting a message that starts with a bot command into the command's name,
//! the bot it is addressed to and its arguments.
use vstd::prelude::*;

use crate::text::{
    chars_of, drop_ascii_ws, find_char, index_of, lowercase, skip_ascii_ws, string_of_range,
    to_lowercase,
};

verus! {

/// A marked range of a message's text, counted in characters.
#[derive(Clone, Copy)]
pub struct TextEntity {
    pub offset: i32,
    pub length: i32,
    /// Whether the range marks a bot command such as `/start@some_bot`.
    pub is_bot_command: bool,
}

/// A message's text together with its marked ranges.
pub struct FormattedText {
    pub text: String,
    pub entities: Vec<TextEntity>,
}

pub struct ParsedCommand {
    pub name: String,
    pub bot_username: Option<String>,
    pub arguments: Option<String>,
}

/// The first entity that marks a bot command at the very start of the text.
pub open spec fn command_entity(es: Seq<TextEntity>) -> Option<TextEntity>
    decreases es.len(),
{
    if es.len() == 0 {
        None
    } else if es[0].is_bot_command && es[0].offset == 0 {
        Some(es[0])
    } else {
        command_entity(es.drop_first())
    }
}

/// `s[from..to]`, with both ends cut to the length of `s`.
pub open spec fn clamped(s: Seq<char>, from: int, to: int) -> Seq<char> {
    let n = s.len() as int;
    let a = if from < n {
        from
    } else {
        n
    };
    let b = if to < a {
        a
    } else if to < n {
        to
    } else {
        n
    };
    s.subrange(a, b)
}

/// The command text that the entity covers, without its leading `/`.
pub open spec fn command_word(text: Seq<char>, e: TextEntity) -> Seq<char> {
    clamped(text, 1, e.length as int)
}

/// The command's name: the command word up to its first `@`, lowercased.
pub open spec fn spec_command_name(word: Seq<char>) -> Seq<char> {
    match index_of(word, '@') {
        Some(i) => lowercase(word.take(i)),
        None => lowercase(word),
    }
}

/// The bot the command is addressed to: what follows the first `@`.
pub open spec fn spec_bot_username(word: Seq<char>) -> Option<Seq<char>> {
    match index_of(word, '@') {
        Some(i) => Some(word.skip(i + 1)),
        None => None,
    }
}

/// The arguments: the text after the command, without leading ASCII
/// whitespace; `None` when nothing is left.
pub open spec fn spec_arguments(text: Seq<char>, e: TextEntity) -> Option<Seq<char>> {
    let rest = drop_ascii_ws(clamped(text, e.length as int, text.len() as int));
    if rest.len() == 0 {
        None
    } else {
        Some(rest)
    }
}

/// A command parses when the text starts with a bot command entity of length
/// at least one.
pub open spec fn parses(es: Seq<TextEntity>) -> bool {
    command_entity(es) matches Some(e) && e.length >= 1
}

proof fn lemma_command_entity_skip(es: Seq<TextEntity>, i: int)
    requires
        0 <= i < es.len(),
        !(es[i].is_bot_command && es[i].offset == 0),
    ensures
        command_entity(es.skip(i)) == command_entity(es.skip(i + 1)),
{
    assert(es.skip(i).drop_first() =~= es.skip(i + 1));
}

/// Space, tab, line feed, form feed or carriage return.
spec fn blank(c: char) -> bool {
    c == ' ' || c == '\t' || c == '\n' || c == '\x0C' || c == '\r'
}

proof fn lemma_drop_leading_blanks(s: Seq<char>)
    ensures
        exists|k: int|
            0 <= k <= s.len() && drop_ascii_ws(s) == s.skip(k) && (forall|i: int| 0 <= i < k ==> blank(#[trigger] s[i]))
                && (k < s.len() ==> !blank(s[k])),
    decreases s.len(),
{
    if s.len() > 0 && blank(s[0]) {
        let t = s.drop_first();
        lemma_drop_leading_blanks(t);
        let k = choose|k: int|
            0 <= k <= t.len() && drop_ascii_ws(t) == t.skip(k) && (forall|i: int| 0 <= i < k ==> blank(#[trigger] t[i]))
                && (k < t.len() ==> !blank(t[k]));
        assert(t.skip(k) =~= s.skip(k + 1));
        assert forall|i: int| 0 <= i < k + 1 implies blank(#[trigger] s[i]) by {
            if i > 0 {
                assert(s[i] == t[i - 1]);
            }
        }
        assert(k + 1 < s.len() ==> s[k + 1] == t[k]);
    } else {
        assert(s.skip(0) =~= s);
    }
}

/// The arguments are what follows the command entity, from its first
/// character that is not ASCII whitespace to the end of the text; there are
/// none exactly when nothing but ASCII whitespace follows the entity. This
/// does not depend on whether the command names a bot with `@`.
pub proof fn lemma_arguments_follow_the_command(text: Seq<char>, e: TextEntity)
    requires
        0 <= e.length <= text.len(),
    ensures
        spec_arguments(text, e) is None <==> forall|i: int|
            e.length <= i < text.len() ==> (#[trigger] text[i] == ' ' || text[i] == '\t' || text[i] == '\n'
                || text[i] == '\x0C' || text[i] == '\r'),
        spec_arguments(text, e) matches Some(a) ==> exists|k: int|
            e.length <= k < text.len() && a == text.skip(k) && !(text[k] == ' ' || text[k] == '\t'
                || text[k] == '\n' || text[k] == '\x0C' || text[k] == '\r') && forall|i: int|
                e.length <= i < k ==> (#[trigger] text[i] == ' ' || text[i] == '\t' || text[i] == '\n'
                    || text[i] == '\x0C' || text[i] == '\r'),
{
    let l = e.length as int;
    let rest = clamped(text, l, text.len() as int);
    assert(rest =~= text.skip(l));
    lemma_drop_leading_blanks(rest);
    let k = choose|k: int|
        0 <= k <= rest.len() && drop_ascii_ws(rest) == rest.skip(k) && (forall|i: int| 0 <= i < k ==> blank(#[trigger] rest[i]))
            && (k < rest.len() ==> !blank(rest[k]));
    assert(rest.skip(k) =~= text.skip(l + k));
    assert forall|i: int| l <= i < l + k implies blank(#[trigger] text[i]) by {
        assert(text[i] == rest[i - l]);
    }
    if k < rest.len() {
        assert(text[l + k] == rest[k]);
    } else {
        assert forall|i: int| l <= i < text.len() implies blank(#[trigger] text[i]) by {
            assert(text[i] == rest[i - l]);
        }
    }
}

impl ParsedCommand {
    /// Reads the bot command at the start of `formatted_text`, if there is one.
    pub fn parse(formatted_text: &FormattedText) -> (r: Option<ParsedCommand>)
        requires
            command_entity(formatted_text.entities@) matches Some(e) ==> e.length > i32::MIN,
        ensures
            r is Some <==> parses(formatted_text.entities@),
            r matches Some(p) ==> {
                let e = command_entity(formatted_text.entities@)->0;
                let text = formatted_text.text@;
                let word = command_word(text, e);
                &&& p.name@ == spec_command_name(word)
                &&& match p.bot_username {
                    Some(u) => spec_bot_username(word) == Some(u@),
                    None => spec_bot_username(word) is None,
                }
                &&& match p.arguments {
                    Some(a) => spec_arguments(text, e) == Some(a@),
                    None => spec_arguments(text, e) is None,
                }
            },
    {
        let entities = &formatted_text.entities;
        let mut i: usize = 0;
        assert(entities@.skip(0) =~= entities@);
        while i < entities.len() && !(entities[i].is_bot_command && entities[i].offset == 0)
            invariant
                i <= entities.len(),
                command_entity(entities@.skip(i as int)) == command_entity(entities@),
            decreases entities.len() - i,
        {
            proof {
                lemma_command_entity_skip(entities@, i as int);
            }
            i = i + 1;
        }
        if i == entities.len() {
            assert(entities@.skip(i as int) =~= Seq::<TextEntity>::empty());
            return None;
        }
        let entity = entities[i];
        proof {
            assert(entities@.skip(i as int)[0] == entities@[i as int]);
        }
        if entity.length - 1 < 0 {
            return None;
        }
        let text = chars_of(formatted_text.text.as_str());
        let n = text.len();
        let from: usize = if 1 < n {
            1
        } else {
            n
        };
        let len_minus_one = (entity.length - 1) as usize;
        let to: usize = if len_minus_one <= n - from {
            from + len_minus_one
        } else {
            n
        };
        let word_string = string_of_range(&text, from, to);
        let word = chars_of(word_string.as_str());
        proof {
            assert(word@ =~= command_word(text@, entity));
        }
        let (name_part, username) = match find_char(&word, '@') {
            Some(at) => (
                string_of_range(&word, 0, at),
                Some(string_of_range(&word, at + 1, word.len())),
            ),
            None => (word_string, None),
        };
        proof {
            if let Some(at) = index_of(word@, '@') {
                assert(word@.subrange(0, at) =~= word@.take(at));
                assert(word@.subrange(at + 1, word@.len() as int) =~= word@.skip(at + 1));
            }
        }
        let skip_to: usize = if (entity.length as usize) < n {
            entity.length as usize
        } else {
            n
        };
        let start = skip_ascii_ws(&text, skip_to);
        proof {
            assert(text@.subrange(skip_to as int, n as int) =~= clamped(
                text@,
                entity.length as int,
                n as int,
            ));
        }
        let arguments = if start == n {
            None
        } else {
            Some(string_of_range(&text, start, n))
        };
        Some(
            ParsedCommand {
                name: to_lowercase(name_part.as_str()),
                bot_username: username,
                arguments,
            },
        )
    }
}

} // verus!
