//! Translations through random languages.
use vstd::prelude::*;

use crate::commands::CommandTrait;
use crate::random::{choose_distinct, drawn_at};
use crate::text::{join, push_joined, push_str, string_from_chars};

verus! {

/// Translates a text through a chain of random languages.
pub struct Trollslate;

impl CommandTrait for Trollslate {
    open spec fn spec_names(&self) -> Seq<Seq<char>> {
        seq!["trollslate"@, "troll"@]
    }

    open spec fn spec_description(&self) -> Option<Seq<char>> {
        Some("translate text through many random languages"@)
    }

    fn command_names(&self) -> (r: &[&str]) {
        let r: &[&str] = &["trollslate", "troll"];
        assert(r@.map_values(|s: &str| s@) =~= self.spec_names());
        r
    }

    fn description(&self) -> (r: Option<&'static str>) {
        Some("translate text through many random languages")
    }
}

/// The language at position `i` of the pool.
pub open spec fn pool_language(i: int) -> Seq<char> {
    if i == 0 {
        "am"@
    } else if i == 1 {
        "ar"@
    } else if i == 2 {
        "ca"@
    } else if i == 3 {
        "cy"@
    } else if i == 4 {
        "haw"@
    } else if i == 5 {
        "hi"@
    } else if i == 6 {
        "iw"@
    } else if i == 7 {
        "ja"@
    } else if i == 8 {
        "ka"@
    } else if i == 9 {
        "ko"@
    } else if i == 10 {
        "ru"@
    } else if i == 11 {
        "si"@
    } else if i == 12 {
        "so"@
    } else if i == 13 {
        "sw"@
    } else if i == 14 {
        "xh"@
    } else if i == 15 {
        "zh-CN"@
    } else if i == 16 {
        "zu"@
    } else {
        Seq::empty()
    }
}

/// The languages the text passes through.
pub open spec fn language_pool() -> Seq<Seq<char>> {
    Seq::new(17, |i: int| pool_language(i))
}

fn pool() -> (r: &'static [&'static str])
    ensures
        r@.map_values(|s: &str| s@) == language_pool(),
{
    let r: &'static [&'static str] = &["am", "ar", "ca", "cy", "haw", "hi", "iw", "ja", "ka", "ko", "ru", "si", "so", "sw", "xh", "zh-CN", "zu"];
    assert(r@.map_values(|s: &str| s@) =~= language_pool());
    r
}

/// The first two letters of each language in the pool, as a number; it
/// grows along the pool.
pub open spec fn letters_key(s: Seq<char>) -> int {
    (s[0] as int) * 1114112 + (s[1] as int)
}

proof fn lemma_pool_keys(i: int)
    requires
        0 <= i < 16,
    ensures
        letters_key(pool_language(i)) < letters_key(pool_language(i + 1)),
{
    reveal_strlit("am");
    reveal_strlit("ar");
    reveal_strlit("ca");
    reveal_strlit("cy");
    reveal_strlit("haw");
    reveal_strlit("hi");
    reveal_strlit("iw");
    reveal_strlit("ja");
    reveal_strlit("ka");
    reveal_strlit("ko");
    reveal_strlit("ru");
    reveal_strlit("si");
    reveal_strlit("so");
    reveal_strlit("sw");
    reveal_strlit("xh");
    reveal_strlit("zh-CN");
    reveal_strlit("zu");
}

proof fn lemma_pool_increasing(a: int, b: int)
    requires
        0 <= a < b < 17,
    ensures
        letters_key(pool_language(a)) < letters_key(pool_language(b)),
    decreases b - a,
{
    lemma_pool_keys(b - 1);
    if a < b - 1 {
        lemma_pool_increasing(a, b - 1);
    }
}

/// No language is in the pool twice.
proof fn lemma_pool_distinct()
    ensures
        forall|a: int, b: int|
            0 <= a < b < language_pool().len() ==> #[trigger] language_pool()[a] != #[trigger] language_pool()[b],
{
    assert forall|a: int, b: int| 0 <= a < b < language_pool().len() implies #[trigger] language_pool()[a]
        != #[trigger] language_pool()[b] by {
        lemma_pool_increasing(a, b);
    }
}

/// How many languages of the pool the text passes through.
pub const CHAIN_LENGTH: usize = 9;

/// Languages of the pool, all different, in random order.
pub fn pick_languages() -> (r: Vec<&'static str>)
    ensures
        r@.len() == CHAIN_LENGTH,
        forall|i: int| 0 <= i < r@.len() ==> language_pool().contains(#[trigger] r@[i]@),
        forall|i: int, j: int| 0 <= i < j < r@.len() ==> #[trigger] r@[i]@ != #[trigger] r@[j]@,
{
    let list = pool();
    assert(list@.len() == language_pool().len());
    let picked = choose_distinct(list, CHAIN_LENGTH);
    proof {
        let positions = choose|positions: Seq<int>| drawn_at(list@, picked@, positions);
        assert forall|i: int| 0 <= i < picked@.len() implies language_pool().contains(#[trigger] picked@[i]@) by {
            assert(0 <= positions[i] < list@.len() && picked@[i] == list@[positions[i]]);
            assert(list@.map_values(|s: &str| s@)[positions[i]] == list@[positions[i]]@);
        }
        assert forall|i: int, j: int| 0 <= i < j < picked@.len() implies #[trigger] picked@[i]@ != #[trigger] picked@[j]@ by {
            assert(0 <= positions[i] < list@.len() && picked@[i] == list@[positions[i]]);
            assert(0 <= positions[j] < list@.len() && picked@[j] == list@[positions[j]]);
            assert(positions[i] != positions[j]);
            assert(list@.map_values(|s: &str| s@)[positions[i]] == list@[positions[i]]@);
            assert(list@.map_values(|s: &str| s@)[positions[j]] == list@[positions[j]]@);
            lemma_pool_distinct();
            if positions[i] < positions[j] {
                assert(language_pool()[positions[i]] != language_pool()[positions[j]]);
            } else {
                assert(language_pool()[positions[j]] != language_pool()[positions[i]]);
            }
        }
    }
    picked
}

/// The language the chain ends in: the one asked for, else the text's own.
pub fn final_language(target: Option<String>, source: String) -> (r: String)
    ensures
        r@ == (match target {
            Some(t) => t@,
            None => source@,
        }),
{
    match target {
        Some(t) => t,
        None => source,
    }
}

/// A language name in bold, in MarkdownV2.
pub open spec fn starred(name: Seq<char>) -> Seq<char> {
    "*"@ + name + "*"@
}

/// The chain of languages in MarkdownV2: the names, already escaped, in
/// bold and joined by arrows.
pub open spec fn spec_languages_line(escaped_names: Seq<String>) -> Seq<char> {
    join(escaped_names.map_values(|n: String| starred(n@)), " ➜ "@)
}

pub fn languages_line(escaped_names: &Vec<String>) -> (r: String)
    ensures
        r@ == spec_languages_line(escaped_names@),
{
    let mut out: Vec<char> = Vec::new();
    let mut k: usize = 0;
    while k < escaped_names.len()
        invariant
            k <= escaped_names.len(),
            out@ == join(escaped_names@.take(k as int).map_values(|n: String| starred(n@)), " ➜ "@),
        decreases escaped_names.len() - k,
    {
        let mut part: Vec<char> = Vec::new();
        push_str(&mut part, "*");
        push_str(&mut part, escaped_names[k].as_str());
        push_str(&mut part, "*");
        let ghost done = escaped_names@.take(k as int).map_values(|n: String| starred(n@));
        push_joined(&mut out, &part, " ➜ ", k == 0, Ghost(done));
        assert(done.push(part@) =~= escaped_names@.take(k + 1).map_values(|n: String| starred(n@)));
        k = k + 1;
    }
    assert(escaped_names@.take(escaped_names.len() as int) =~= escaped_names@);
    string_from_chars(out.as_slice())
}

/// The reply in MarkdownV2: the chain, then the escaped final text.
pub fn reply_markdown(languages: &str, escaped_text: &str) -> (r: String)
    ensures
        r@ == languages@ + "\n"@ + escaped_text@,
{
    let mut out: Vec<char> = Vec::new();
    push_str(&mut out, languages);
    push_str(&mut out, "\n");
    push_str(&mut out, escaped_text);
    string_from_chars(out.as_slice())
}

} // verus!
