//! Unicode character names.
use vstd::prelude::*;

use crate::commands::CommandTrait;
use crate::message_entities::{code, code_text, plain, text_str, views, Entity, EntityView};
use crate::text::{ascii_ws, chars_of, hex4, is_ascii_ws, push_hex4, push_str, string_from_chars};

verus! {

/// Names the Unicode characters of a text.
pub struct CharInfo;

impl CommandTrait for CharInfo {
    open spec fn spec_names(&self) -> Seq<Seq<char>> {
        seq!["charinfo"@, "ch"@]
    }

    open spec fn spec_description(&self) -> Option<Seq<char>> {
        Some("get Unicode character names"@)
    }

    fn command_names(&self) -> (r: &[&str]) {
        let r: &[&str] = &["charinfo", "ch"];
        assert(r@.map_values(|s: &str| s@) =~= self.spec_names());
        r
    }

    fn description(&self) -> (r: Option<&'static str>) {
        Some("get Unicode character names")
    }
}

/// The name that the Unicode data tables give a code point, as
/// `charname::get_name` returns it (`"UNKNOWN CHARACTER"` for a code point
/// without one).
pub uninterp spec fn unicode_name(code_point: u32) -> Seq<char>;

/// Calls `charname::get_name`; its result is named `unicode_name` of the
/// code point, the tables are not restated.
#[verifier::external_body]
fn char_name(code_point: u32) -> (r: &'static str)
    ensures
        r@ == unicode_name(code_point),
{
    charname::get_name(code_point)
}

/// The most characters that are described.
pub const MAX_CHARS: usize = 10;

/// What is shown for one character: a line break alone for ASCII
/// whitespace, else a line break, the character, its code point as `U+XXXX`
/// and its name.
pub open spec fn char_info(c: char) -> Seq<EntityView> {
    if is_ascii_ws(c) {
        seq![plain("\n"@)]
    } else {
        seq![
            plain("\n"@),
            code(seq![c]),
            plain(" "@),
            code("U+"@ + hex4(c as nat)),
            plain(" – "@),
            code(unicode_name(c as u32)),
        ]
    }
}

/// The descriptions of `cs`, one after the other.
pub open spec fn char_infos(cs: Seq<char>) -> Seq<EntityView>
    decreases cs.len(),
{
    if cs.len() == 0 {
        Seq::empty()
    } else {
        char_infos(cs.drop_last()) + char_info(cs.last())
    }
}

/// The reply: the first `MAX_CHARS` characters described, without the line
/// break before the first, and an ellipsis when there were more.
pub open spec fn spec_char_entities(s: Seq<char>) -> Seq<EntityView> {
    let described = char_infos(
        if s.len() > MAX_CHARS {
            s.take(MAX_CHARS as int)
        } else {
            s
        },
    );
    let shown = if described.len() > 0 {
        described.drop_first()
    } else {
        described
    };
    if s.len() > MAX_CHARS {
        shown.push(plain("…"@))
    } else {
        shown
    }
}

fn push_char_info(out: &mut Vec<Entity>, c: char)
    ensures
        views(final(out)@) == views(old(out)@) + char_info(c),
{
    let ghost start = views(out@);
    if ascii_ws(c) {
        out.push(text_str("\n"));
    } else {
        out.push(text_str("\n"));
        let mut one: Vec<char> = Vec::new();
        one.push(c);
        out.push(code_text(string_from_chars(one.as_slice())));
        out.push(text_str(" "));
        let mut point: Vec<char> = Vec::new();
        push_str(&mut point, "U+");
        push_hex4(&mut point, c as u32);
        out.push(code_text(string_from_chars(point.as_slice())));
        out.push(text_str(" – "));
        out.push(code_text(String::from_str(char_name(c as u32))));
    }
    assert(views(out@) =~= start + char_info(c));
}

/// The reply for the text `s`.
pub fn char_entities(s: &str) -> (r: Vec<Entity>)
    ensures
        views(r@) == spec_char_entities(s@),
{
    let v = chars_of(s);
    let n = if v.len() > MAX_CHARS {
        MAX_CHARS
    } else {
        v.len()
    };
    let mut out: Vec<Entity> = Vec::new();
    let mut i: usize = 0;
    while i < n
        invariant
            i <= n <= v.len(),
            views(out@) == char_infos(v@.take(i as int)),
        decreases n - i,
    {
        push_char_info(&mut out, v[i]);
        assert(v@.take(i + 1).drop_last() =~= v@.take(i as int));
        i = i + 1;
    }
    let ghost described = views(out@);
    assert(v@.take(n as int) =~= (if v@.len() > MAX_CHARS {
        v@.take(MAX_CHARS as int)
    } else {
        v@
    }));
    if out.len() > 0 {
        out.remove(0);
        assert(views(out@) =~= described.drop_first());
    }
    if v.len() > MAX_CHARS {
        out.push(text_str("…"));
    }
    assert(views(out@) =~= spec_char_entities(s@));
    out
}

} // verus!
