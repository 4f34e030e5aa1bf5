//! Urban Dictionary definitions.
use vstd::prelude::*;

use crate::commands::{CommandError, CommandTrait};
use crate::links::{url_with_param, with_param};
use crate::message_entities::{bold, bold_text, italic, italic_text, link, plain, text, text_str, views, with_url, Entity, EntityView};
use crate::text::{chars_of, decimal, decimal_string, push_chars, push_decimal, string_from_chars};

verus! {

/// Looks words up in Urban Dictionary.
pub struct UrbanDictionary;

impl CommandTrait for UrbanDictionary {
    open spec fn spec_names(&self) -> Seq<Seq<char>> {
        seq!["urbandictionary"@, "urban_dictionary"@, "ud"@, "urban"@, "dictionary"@]
    }

    open spec fn spec_description(&self) -> Option<Seq<char>> {
        Some("get a word definition from Urban Dictionary"@)
    }

    fn command_names(&self) -> (r: &[&str]) {
        let r: &[&str] = &["urbandictionary", "urban_dictionary", "ud", "urban", "dictionary"];
        assert(r@.map_values(|s: &str| s@) =~= self.spec_names());
        r
    }

    fn description(&self) -> (r: Option<&'static str>) {
        Some("get a word definition from Urban Dictionary")
    }
}

/// A calendar day.
pub struct CalendarDate {
    pub year: i32,
    pub month: u8,
    pub day: u8,
}

/// A definition from Urban Dictionary.
pub struct Card {
    pub word: String,
    pub definition: String,
    pub example: String,
    pub permalink: String,
    pub author: String,
    pub written_on: CalendarDate,
    pub thumbs_up: u64,
    pub thumbs_down: u64,
}

/// `n` in decimal, padded with zeros in front to at least `width` digits.
pub open spec fn zero_padded(n: nat, width: nat) -> Seq<char> {
    let d = decimal(n);
    if d.len() < width {
        Seq::new((width - d.len()) as nat, |i: int| '0') + d
    } else {
        d
    }
}

/// A day as the format `[year]-[month]-[day]` of the `time` crate writes
/// it: the year with at least four digits (and a minus sign when negative),
/// the month and the day with two.
pub open spec fn date_text(d: CalendarDate) -> Seq<char> {
    (if d.year < 0 {
        "-"@ + zero_padded((-d.year) as nat, 4)
    } else {
        zero_padded(d.year as nat, 4)
    }) + "-"@ + zero_padded(d.month as nat, 2) + "-"@ + zero_padded(d.day as nat, 2)
}

fn push_zero_padded(out: &mut Vec<char>, n: u32, width: usize)
    requires
        width <= 4,
    ensures
        final(out)@ == old(out)@ + zero_padded(n as nat, width as nat),
{
    let mut digits: Vec<char> = Vec::new();
    push_decimal(&mut digits, n as u128);
    assert(digits@ =~= decimal(n as nat));
    let ghost start = out@;
    if digits.len() < width {
        let pad = width - digits.len();
        let mut k: usize = 0;
        while k < pad
            invariant
                k <= pad,
                out@ == start + Seq::new(k as nat, |i: int| '0'),
            decreases pad - k,
        {
            out.push('0');
            k = k + 1;
            assert(out@ =~= start + Seq::new(k as nat, |i: int| '0'));
        }
    }
    push_chars(out, &digits);
    assert(out@ =~= start + zero_padded(n as nat, width as nat));
}

/// Writes a day as `[year]-[month]-[day]`.
pub fn format_date(d: &CalendarDate) -> (r: String)
    requires
        -9999 <= d.year <= 9999,
    ensures
        r@ == date_text(*d),
{
    proof {
        reveal_strlit("-");
    }
    let mut out: Vec<char> = Vec::new();
    if d.year < 0 {
        out.push('-');
        let magnitude: u32 = (-d.year) as u32;
        assert(magnitude as nat == (-d.year) as nat);
        push_zero_padded(&mut out, magnitude, 4);
    } else {
        push_zero_padded(&mut out, d.year as u32, 4);
    }
    let ghost year_part = out@;
    assert(year_part =~= (if d.year < 0 {
        "-"@ + zero_padded((-d.year) as nat, 4)
    } else {
        zero_padded(d.year as nat, 4)
    }));
    out.push('-');
    push_zero_padded(&mut out, d.month as u32, 2);
    out.push('-');
    push_zero_padded(&mut out, d.day as u32, 2);
    assert(out@ =~= date_text(*d));
    string_from_chars(out.as_slice())
}

/// `s` without its square brackets, which mark links to other words.
pub open spec fn without_brackets(s: Seq<char>) -> Seq<char>
    decreases s.len(),
{
    if s.len() == 0 {
        s
    } else if s.last() == '[' || s.last() == ']' {
        without_brackets(s.drop_last())
    } else {
        without_brackets(s.drop_last()).push(s.last())
    }
}

/// Removes the square brackets from a text.
pub fn remove_brackets(s: &str) -> (r: String)
    ensures
        r@ == without_brackets(s@),
{
    let v = chars_of(s);
    let mut out: Vec<char> = Vec::new();
    let mut i: usize = 0;
    while i < v.len()
        invariant
            i <= v.len(),
            out@ == without_brackets(v@.take(i as int)),
        decreases v.len() - i,
    {
        assert(v@.take(i + 1).drop_last() =~= v@.take(i as int));
        let c = v[i];
        if c != '[' && c != ']' {
            out.push(c);
        }
        i = i + 1;
    }
    assert(v@.take(v@.len() as int) =~= v@);
    string_from_chars(out.as_slice())
}

/// The reply for a definition, given the address of its author's page.
pub open spec fn spec_definition_entities(card: Card, author_url: Seq<char>) -> Seq<EntityView> {
    let description = without_brackets(card.definition@);
    let example = without_brackets(card.example@);
    seq![link(bold(card.word@), card.permalink@), plain("\n"@), plain(description), plain("\n\n"@)]
        + (if example.len() > 0 {
        seq![italic(example), plain("\n\n"@)]
    } else {
        Seq::empty()
    }) + seq![
        plain("by "@),
        link(plain(card.author@), author_url),
        plain(", "@),
        plain(date_text(card.written_on)),
        plain("\n"@),
    ] + seq![
        plain("👍 "@),
        plain(decimal(card.thumbs_up as nat)),
        plain(" 👎 "@),
        plain(decimal(card.thumbs_down as nat)),
    ]
}

/// Removing the brackets leaves something exactly when the text holds a
/// character other than `[` and `]`, and what is left holds no bracket.
pub proof fn lemma_without_brackets(s: Seq<char>)
    ensures
        without_brackets(s).len() > 0 <==> exists|i: int| 0 <= i < s.len() && s[i] != '[' && s[i] != ']',
        forall|i: int| 0 <= i < without_brackets(s).len() ==> #[trigger] without_brackets(s)[i] != '['
            && without_brackets(s)[i] != ']',
        without_brackets(s).len() <= s.len(),
    decreases s.len(),
{
    if s.len() > 0 {
        let t = s.drop_last();
        lemma_without_brackets(t);
        if exists|i: int| 0 <= i < t.len() && t[i] != '[' && t[i] != ']' {
            let i = choose|i: int| 0 <= i < t.len() && t[i] != '[' && t[i] != ']';
            assert(s[i] == t[i]);
        }
        if exists|i: int| 0 <= i < s.len() && s[i] != '[' && s[i] != ']' {
            let i = choose|i: int| 0 <= i < s.len() && s[i] != '[' && s[i] != ']';
            if i < s.len() - 1 {
                assert(t[i] == s[i]);
            }
        }
    }
}

/// The reply shows the example, brackets removed, in italics right after the
/// definition and its blank line, followed by a blank line, whenever the
/// example holds anything but brackets; otherwise the author line follows
/// the definition directly.
pub proof fn lemma_example_shown(card: Card, author_url: Seq<char>)
    ensures
        ({
            let r = spec_definition_entities(card, author_url);
            &&& r[2].text == without_brackets(card.definition@)
            &&& r[3].text == "\n\n"@
            &&& (exists|i: int|
                0 <= i < card.example@.len() && card.example@[i] != '[' && card.example@[i] != ']') ==> {
                &&& r.len() == 15
                &&& r[4].italic && !r[4].bold && r[4].url is None
                &&& r[4].text == without_brackets(card.example@)
                &&& r[5].text == "\n\n"@ && !r[5].italic
                &&& r[6].text == "by "@
            }
            &&& (forall|i: int| 0 <= i < card.example@.len() ==> card.example@[i] == '[' || card.example@[i] == ']')
                ==> r.len() == 13 && r[4].text == "by "@
        }),
{
    lemma_without_brackets(card.example@);
}

/// The reply for a definition: the word linking to it, the definition and
/// its example without brackets, the author linking to their page, the day
/// it was written and its votes.
pub fn definition_entities(card: &Card, author_url: String) -> (r: Vec<Entity>)
    requires
        -9999 <= card.written_on.year <= 9999,
    ensures
        views(r@) == spec_definition_entities(*card, author_url@),
{
    let mut r: Vec<Entity> = Vec::new();
    r.push(with_url(bold_text(card.word.clone()), card.permalink.clone()));
    r.push(text_str("\n"));
    r.push(text(remove_brackets(card.definition.as_str())));
    r.push(text_str("\n\n"));
    let ghost head = views(r@);
    let example = remove_brackets(card.example.as_str());
    let has_example = example.unicode_len() > 0;
    if has_example {
        r.push(italic_text(example));
        r.push(text_str("\n\n"));
    }
    r.push(text_str("by "));
    r.push(with_url(text(card.author.clone()), author_url));
    r.push(text_str(", "));
    r.push(text(format_date(&card.written_on)));
    r.push(text_str("\n"));
    r.push(text_str("👍 "));
    r.push(text(decimal_string(card.thumbs_up)));
    r.push(text_str(" 👎 "));
    r.push(text(decimal_string(card.thumbs_down)));
    assert(views(r@) =~= spec_definition_entities(*card, author_url@));
    r
}

/// The page that lists an author's definitions.
pub open spec fn author_page(author: Seq<char>) -> Option<Seq<char>> {
    url_with_param("https://urbandictionary.com/author.php"@, "author"@, author)
}

/// The reply for a definition, with the author's page built by `url`; `None`
/// when that address cannot be built.
pub fn format_definition(card: &Card) -> (r: Option<Vec<Entity>>)
    requires
        -9999 <= card.written_on.year <= 9999,
    ensures
        match r {
            Some(es) => author_page(card.author@) matches Some(u) && views(es@)
                == spec_definition_entities(*card, u),
            None => author_page(card.author@) is None,
        },
{
    match with_param("https://urbandictionary.com/author.php", "author", card.author.as_str()) {
        Some(u) => Some(definition_entities(card, u)),
        None => None,
    }
}

/// The error for a word without definitions.
pub fn no_definitions() -> (r: CommandError)
    ensures
        r matches CommandError::Custom(m) && m@ == "sorry, there are no definitions for this word."@,
{
    CommandError::Custom(String::from_str("sorry, there are no definitions for this word."))
}

} // verus!
