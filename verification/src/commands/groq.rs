//! Text generation through Groq-hosted models.
use vstd::prelude::*;

use crate::commands::chat_completion::{reply_for_completion, spec_reply, with_finish_reason, ReplyText};
use crate::commands::CommandTrait;
use crate::rate_limit::RateLimiter;
use crate::text::{
    chars_of, count_char, decimal, find, find_chars, find_from, is_whitespace, lemma_count_concat,
    lemma_count_split, lemma_count_trim, lemma_find_from, matches_at, push_chars, push_decimal,
    slice_chars, str_equal, trim, trim_bounds, utf8_len, utf8_len_range,
};

verus! {

pub struct Groq {
    command_names: &'static [&'static str],
    description: &'static str,
    model_name: &'static str,
}

pub open spec fn think_open() -> Seq<char> {
    seq!['<', 't', 'h', 'i', 'n', 'k', '>']
}

pub open spec fn think_close() -> Seq<char> {
    seq!['<', '/', 't', 'h', 'i', 'n', 'k', '>']
}

/// The line put in front of the text in place of a removed thinking section
/// of `bytes` UTF-8 bytes.
pub open spec fn hidden_notice(bytes: nat) -> Seq<char> {
    seq!['['] + decimal(bytes) + seq![
        ' ', 't', 'h', 'i', 'n', 'k', 'i', 'n', 'g', ' ', 'c', 'h', 'a', 'r', 's', ' ', 'h', 'i',
        'd', 'd', 'e', 'n', ']', '\n', '\n',
    ]
}

/// One removal: the first `<think>` section that has a closing `</think>` is
/// cut out, the rest is trimmed, and a notice with the cut length goes in
/// front. `None` when there is no such section.
pub open spec fn strip_step(t: Seq<char>) -> Option<Seq<char>> {
    match find(t, think_open()) {
        None => None,
        Some(s) => match find_from(t, think_close(), s) {
            None => None,
            Some(e) => Some(
                hidden_notice(utf8_len(t.subrange(s, e + 8))) + trim(
                    t.subrange(0, s) + t.subrange(e + 8, t.len() as int),
                ),
            ),
        },
    }
}

/// At most `fuel` removals, stopping early when none is left.
pub open spec fn strip_with_fuel(t: Seq<char>, fuel: nat) -> Seq<char>
    decreases fuel,
{
    if fuel == 0 {
        t
    } else {
        match strip_step(t) {
            None => t,
            Some(u) => strip_with_fuel(u, (fuel - 1) as nat),
        }
    }
}

/// The text with every complete thinking section removed, one after the
/// other. Each removal takes away at least one `<`, so the number of `<` in the
/// text bounds the number of removals.
pub open spec fn hide_thinking(t: Seq<char>) -> Seq<char> {
    strip_with_fuel(t, count_char(t, '<'))
}

proof fn lemma_count_absent(s: Seq<char>, c: char)
    requires
        forall|i: int| 0 <= i < s.len() ==> s[i] != c,
    ensures
        count_char(s, c) == 0,
    decreases s.len(),
{
    if s.len() > 0 {
        lemma_count_absent(s.drop_last(), c);
    }
}

proof fn lemma_decimal_digits(n: nat)
    ensures
        forall|i: int| 0 <= i < decimal(n).len() ==> decimal(n)[i] != '<',
    decreases n,
{
    if n >= 10 {
        lemma_decimal_digits(n / 10);
        assert forall|i: int| 0 <= i < decimal(n).len() implies decimal(n)[i] != '<' by {
            if i < decimal(n / 10).len() {
                assert(decimal(n)[i] == decimal(n / 10)[i]);
            }
        }
    }
}

/// Each removal takes away at least one `<`.
pub proof fn lemma_strip_step_shrinks(t: Seq<char>)
    ensures
        strip_step(t) matches Some(u) ==> count_char(u, '<') < count_char(t, '<'),
{
    if let Some(s) = find(t, think_open()) {
        lemma_find_from(t, think_open(), 0);
        if let Some(e) = find_from(t, think_close(), s) {
            lemma_find_from(t, think_close(), s);
            let u = strip_step(t)->0;
            let notice = hidden_notice(utf8_len(t.subrange(s, e + 8)));
            lemma_decimal_digits(utf8_len(t.subrange(s, e + 8)));
            assert forall|i: int| 0 <= i < notice.len() implies notice[i] != '<' by {
                let d = decimal(utf8_len(t.subrange(s, e + 8)));
                if 1 <= i < 1 + d.len() {
                    assert(notice[i] == d[i - 1]);
                }
            }
            lemma_count_absent(notice, '<');
            let a = t.subrange(0, s);
            let m = t.subrange(s, e + 8);
            let b = t.subrange(e + 8, t.len() as int);
            lemma_count_trim(a + b, '<');
            lemma_count_concat(a, b, '<');
            lemma_count_concat(notice, trim(a + b), '<');
            lemma_count_split(t, s, '<');
            lemma_count_split(t.subrange(s, t.len() as int), e + 8 - s, '<');
            assert(t.subrange(s, t.len() as int).subrange(0, e + 8 - s) =~= m);
            assert(t.subrange(s, t.len() as int).subrange(e + 8 - s, t.len() - s) =~= b);
            assert(t.subrange(s, s + 7) == think_open());
            assert(m[0] == '<') by {
                assert(t.subrange(s, s + 7)[0] == '<');
            }
            lemma_count_split(m, 1, '<');
            assert(m.subrange(0, 1).drop_last() =~= Seq::<char>::empty());
            assert(count_char(m.subrange(0, 1).drop_last(), '<') == 0);
            assert(m.subrange(0, 1).last() == '<');
            assert(count_char(m.subrange(0, 1), '<') == 1);
        }
    }
}

proof fn lemma_fuel_enough(t: Seq<char>, f: nat)
    requires
        f >= count_char(t, '<'),
    ensures
        strip_with_fuel(t, f) == strip_with_fuel(t, count_char(t, '<')),
    decreases f,
{
    lemma_strip_step_shrinks(t);
    if f > 0 {
        if let Some(u) = strip_step(t) {
            lemma_fuel_enough(u, (f - 1) as nat);
            lemma_fuel_enough(u, (count_char(t, '<') - 1) as nat);
        }
    }
}

/// A text without `<think>` is left as it is.
pub proof fn lemma_no_thinking_unchanged(t: Seq<char>)
    requires
        find(t, think_open()) is None,
    ensures
        hide_thinking(t) == t,
{
}

/// Removes complete `<think>…</think>` sections, one at a time, as the
/// reasoning model's replies contain them.
pub fn hide_thinking_sections(content: &str) -> (r: Vec<char>)
    ensures
        r@ == hide_thinking(content@),
        strip_step(r@) is None,
{
    let open: Vec<char> = vec!['<', 't', 'h', 'i', 'n', 'k', '>'];
    let close: Vec<char> = vec!['<', '/', 't', 'h', 'i', 'n', 'k', '>'];
    assert(open@ =~= think_open());
    assert(close@ =~= think_close());
    let mut t = chars_of(content);
    loop
        invariant
            open@ == think_open(),
            close@ == think_close(),
            hide_thinking(t@) == hide_thinking(content@),
        ensures
            strip_step(t@) is None,
            hide_thinking(t@) == hide_thinking(content@),
        decreases count_char(t@, '<'),
    {
        proof {
            lemma_strip_step_shrinks(t@);
        }
        let start = match find_chars(&t, &open, 0) {
            Some(s) => s,
            None => {
                assert(strip_step(t@) is None);
                break ;
            },
        };
        let end = match find_chars(&t, &close, start) {
            Some(e) => e,
            None => {
                assert(strip_step(t@) is None);
                break ;
            },
        };
        assert(close@.len() == 8);
        let ghost before = t@;
        let removed = utf8_len_range(&t, start, end + 8);
        let mut rest = slice_chars(&t, 0, start);
        let tail = slice_chars(&t, end + 8, t.len());
        push_chars(&mut rest, &tail);
        let (a, b) = trim_bounds(&rest);
        let kept = slice_chars(&rest, a, b);
        let mut next: Vec<char> = vec!['['];
        push_decimal(&mut next, removed);
        let suffix: Vec<char> = vec![
            ' ', 't', 'h', 'i', 'n', 'k', 'i', 'n', 'g', ' ', 'c', 'h', 'a', 'r', 's', ' ', 'h',
            'i', 'd', 'd', 'e', 'n', ']', '\n', '\n',
        ];
        push_chars(&mut next, &suffix);
        push_chars(&mut next, &kept);
        proof {
            assert(next@ =~= hidden_notice(utf8_len(before.subrange(start as int, end + 8)))
                + trim(before.subrange(0, start as int) + before.subrange(
                end + 8,
                before.len() as int,
            )));
            assert(strip_step(before) == Some(next@));
            lemma_fuel_enough(next@, (count_char(before, '<') - 1) as nat);
        }
        t = next;
    }
    proof {
        if count_char(t@, '<') > 0 {
            assert(strip_with_fuel(t@, count_char(t@, '<')) == t@);
        }
    }
    t
}

impl Groq {
    pub closed spec fn model(&self) -> Seq<char> {
        self.model_name@
    }

    pub fn llama() -> (r: Self)
        ensures
            r.spec_names() == seq!["llama"@],
            r.spec_description() == Some("generate text using llama 3.3"@),
            r.model() == "llama-3.3-70b-specdec"@,
    {
        let r = Self {
            command_names: &["llama"],
            description: "generate text using llama 3.3",
            model_name: "llama-3.3-70b-specdec",
        };
        assert(r.spec_names() =~= seq!["llama"@]);
        r
    }

    pub fn thinker() -> (r: Self)
        ensures
            r.spec_names() == seq!["thinker"@, "r1"@],
            r.spec_description() == Some("generate text using deepseek r1 (70b distilled)"@),
            r.model() == "deepseek-r1-distill-llama-70b"@,
    {
        let r = Self {
            command_names: &["thinker", "r1"],
            description: "generate text using deepseek r1 (70b distilled)",
            model_name: "deepseek-r1-distill-llama-70b",
        };
        assert(r.spec_names() =~= seq!["thinker"@, "r1"@]);
        r
    }

    pub fn rate_limit(&self) -> (r: RateLimiter<i64>)
        ensures
            r@.limit == 6,
            r@.duration == 60,
            r@.history == Map::<i64, Seq<i32>>::empty(),
    {
        RateLimiter::new(6, 60)
    }

    /// The reply for a completion: the reasoning model's thinking sections are
    /// hidden, a finish reason other than `stop` is appended, and a blank
    /// result becomes a fixed notice.
    pub fn reply_text(&self, content: &str, finish_reason: &str) -> (r: ReplyText)
        ensures
            (r.text@, r.markdown) == spec_reply(
                with_finish_reason(
                    if self.model() == "deepseek-r1-distill-llama-70b"@ {
                        hide_thinking(content@)
                    } else {
                        content@
                    },
                    finish_reason@,
                ),
            ),
    {
        let text = if str_equal(self.model_name, "deepseek-r1-distill-llama-70b") {
            hide_thinking_sections(content)
        } else {
            chars_of(content)
        };
        reply_for_completion(&text, finish_reason)
    }
}

impl CommandTrait for Groq {
    closed spec fn spec_names(&self) -> Seq<Seq<char>> {
        self.command_names@.map_values(|s: &str| s@)
    }

    closed spec fn spec_description(&self) -> Option<Seq<char>> {
        Some(self.description@)
    }

    fn command_names(&self) -> (r: &[&str]) {
        self.command_names
    }

    fn description(&self) -> (r: Option<&'static str>) {
        Some(self.description)
    }
}

} // verus!
