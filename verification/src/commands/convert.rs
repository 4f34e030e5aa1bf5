//! Currency conversion: the words of the request, where the currencies are found, and the reply's layout.
use vstd::prelude::*;

use crate::commands::{CommandError, CommandTrait};
use crate::message_entities::{code, code_text, plain, text_str, views, Entity, EntityView};
use crate::rate_limit::RateLimiter;
use crate::text::{eq_ignore_ascii_case, str_eq_ignore_ascii_case};

verus! {

/// Converts amounts between currencies and cryptocurrencies.
pub struct Convert;

impl Convert {
    pub fn rate_limit(&self) -> (r: RateLimiter<i64>)
        ensures
            r@.limit == 10,
            r@.duration == 30,
            r@.history == Map::<i64, Seq<i32>>::empty(),
    {
        RateLimiter::new(10, 30)
    }
}

impl CommandTrait for Convert {
    open spec fn spec_names(&self) -> Seq<Seq<char>> {
        seq!["convert"@, "c"@, "rates"@, "rate"@, "price"@]
    }

    open spec fn spec_description(&self) -> Option<Seq<char>> {
        Some("convert between popular currencies and cryptocurrencies"@)
    }

    fn command_names(&self) -> (r: &[&str]) {
        let r: &[&str] = &["convert", "c", "rates", "rate", "price"];
        assert(r@.map_values(|s: &str| s@) =~= self.spec_names());
        r
    }

    fn description(&self) -> (r: Option<&'static str>) {
        Some("convert between popular currencies and cryptocurrencies")
    }
}

/// The target currencies named by the words after the source currency: each
/// word, or the word after a `to` (in any ASCII case); a `to` with nothing
/// after it ends the list.
pub open spec fn named_targets(words: Seq<String>) -> Seq<Seq<char>>
    decreases words.len(),
{
    if words.len() == 0 {
        Seq::empty()
    } else if eq_ignore_ascii_case(words[0]@, "to"@) {
        if words.len() > 1 {
            seq![words[1]@] + named_targets(words.skip(2))
        } else {
            Seq::empty()
        }
    } else {
        seq![words[0]@] + named_targets(words.drop_first())
    }
}

/// The target currencies: those named, or the US dollar when none is.
pub open spec fn spec_targets(words: Seq<String>) -> Seq<Seq<char>> {
    if named_targets(words).len() == 0 {
        seq!["usd"@]
    } else {
        named_targets(words)
    }
}

/// Words none of which is `to` name themselves: each word is a target, in
/// order; with no words at all the target is `usd`.
pub proof fn lemma_plain_words_are_targets(words: Seq<String>)
    requires
        forall|i: int| 0 <= i < words.len() ==> !eq_ignore_ascii_case(#[trigger] words[i]@, "to"@),
    ensures
        named_targets(words) == words.map_values(|s: String| s@),
        words.len() > 0 ==> spec_targets(words) == words.map_values(|s: String| s@),
        words.len() == 0 ==> spec_targets(words) == seq!["usd"@],
    decreases words.len(),
{
    if words.len() > 0 {
        let rest = words.drop_first();
        assert forall|i: int| 0 <= i < rest.len() implies !eq_ignore_ascii_case(#[trigger] rest[i]@, "to"@) by {
            assert(rest[i] == words[i + 1]);
        }
        assert(!eq_ignore_ascii_case(words[0]@, "to"@));
        lemma_plain_words_are_targets(rest);
        assert(named_targets(words) =~= words.map_values(|s: String| s@));
    }
}

/// A `to` followed by a word names that word as the next target, and the
/// words after it are read on as before.
pub proof fn lemma_to_names_the_next_word(to: String, currency: String, rest: Seq<String>)
    requires
        eq_ignore_ascii_case(to@, "to"@),
    ensures
        named_targets(seq![to, currency] + rest) == seq![currency@] + named_targets(rest),
{
    let w = seq![to, currency] + rest;
    assert(w[0] == to && w[1] == currency);
    assert(w.skip(2) =~= rest);
}

/// There is always at least one target.
pub proof fn lemma_targets_never_empty(words: Seq<String>)
    ensures
        spec_targets(words).len() > 0,
{
}

/// The target currencies of the command's words after the source currency.
pub fn target_currencies(words: &Vec<String>) -> (r: Vec<String>)
    ensures
        r@.map_values(|s: String| s@) == spec_targets(words@),
{
    let mut out: Vec<String> = Vec::new();
    let mut i: usize = 0;
    assert(words@.skip(0) =~= words@);
    while i < words.len()
        invariant
            i <= words.len(),
            out@.map_values(|s: String| s@) + named_targets(words@.skip(i as int)) == named_targets(words@),
        decreases words.len() - i,
    {
        let ghost rest = words@.skip(i as int);
        let ghost before = out@.map_values(|s: String| s@);
        assert(rest[0] == words@[i as int]);
        if str_eq_ignore_ascii_case(words[i].as_str(), "to") {
            if i + 1 < words.len() {
                out.push(words[i + 1].clone());
                assert(rest[1] == words@[i + 1]);
                assert(rest.skip(2) =~= words@.skip(i + 2));
                assert(out@.map_values(|s: String| s@) =~= before.push(words@[i + 1]@));
                i = i + 2;
            } else {
                assert(named_targets(rest) =~= Seq::<Seq<char>>::empty());
                assert(words@.skip(words@.len() as int) =~= Seq::<String>::empty());
                i = words.len();
            }
        } else {
            out.push(words[i].clone());
            assert(rest.drop_first() =~= words@.skip(i + 1));
            assert(out@.map_values(|s: String| s@) =~= before.push(words@[i as int]@));
            i = i + 1;
        }
    }
    assert(words@.skip(i as int) =~= Seq::<String>::empty());
    if out.len() == 0 {
        out.push(String::from_str("usd"));
    }
    assert(out@.map_values(|s: String| s@) =~= spec_targets(words@));
    out
}

/// Whether `currency` names the euro, in which the fiat rates are given.
pub fn is_euro(currency: &str) -> (r: bool)
    ensures
        r == eq_ignore_ascii_case(currency@, "eur"@),
{
    str_eq_ignore_ascii_case(currency, "eur")
}

/// The first position of `codes` that names `currency`, in any ASCII case.
pub open spec fn code_position(codes: Seq<String>, currency: Seq<char>) -> Option<int>
    decreases codes.len(),
{
    if codes.len() == 0 {
        None
    } else if eq_ignore_ascii_case(codes[0]@, currency) {
        Some(0)
    } else {
        match code_position(codes.drop_first(), currency) {
            Some(i) => Some(i + 1),
            None => None,
        }
    }
}

/// A position within a tail of a list, made a position in the whole list.
pub open spec fn shifted(p: Option<int>, by: int) -> Option<int> {
    match p {
        Some(j) => Some(j + by),
        None => None,
    }
}

/// Finds a currency among the fiat rates' or the coins' codes.
pub fn find_currency(codes: &Vec<String>, currency: &str) -> (r: Option<usize>)
    ensures
        match r {
            Some(i) => code_position(codes@, currency@) == Some(i as int) && i < codes@.len(),
            None => code_position(codes@, currency@) is None,
        },
{
    let mut i: usize = 0;
    assert(codes@.skip(0) =~= codes@);
    while i < codes.len()
        invariant
            i <= codes.len(),
            code_position(codes@, currency@) == shifted(code_position(codes@.skip(i as int), currency@), i as int),
        decreases codes.len() - i,
    {
        assert(codes@.skip(i as int).drop_first() =~= codes@.skip(i + 1));
        assert(codes@.skip(i as int)[0] == codes@[i as int]);
        if str_eq_ignore_ascii_case(codes[i].as_str(), currency) {
            return Some(i);
        }
        i = i + 1;
    }
    assert(codes@.skip(i as int) =~= Seq::<String>::empty());
    None
}

/// Where a currency code was found.
#[derive(PartialEq, Eq, Structural, Clone, Copy, Debug)]
pub enum CurrencyMatch {
    /// The euro, in which the fiat rates are given.
    Euro,
    /// The fiat rate at this position.
    Fiat(usize),
    /// The coin at this position.
    Coin(usize),
}

/// A currency is looked up as the euro first, then among the fiat rates, then
/// among the coins, in any ASCII case.
pub open spec fn spec_lookup(fiat: Seq<String>, coins: Seq<String>, code: Seq<char>) -> Option<
    CurrencyMatch,
> {
    if eq_ignore_ascii_case(code, "eur"@) {
        Some(CurrencyMatch::Euro)
    } else {
        match code_position(fiat, code) {
            Some(i) => Some(CurrencyMatch::Fiat(i as usize)),
            None => match code_position(coins, code) {
                Some(i) => Some(CurrencyMatch::Coin(i as usize)),
                None => None,
            },
        }
    }
}

/// Looks a currency up: the euro, else a fiat rate, else a coin; `None` when
/// it is in neither list.
pub fn lookup_currency(fiat: &Vec<String>, coins: &Vec<String>, code: &str) -> (r: Option<
    CurrencyMatch,
>)
    ensures
        r == spec_lookup(fiat@, coins@, code@),
        r matches Some(CurrencyMatch::Fiat(i)) ==> i < fiat@.len(),
        r matches Some(CurrencyMatch::Coin(i)) ==> i < coins@.len(),
{
    proof {
        reveal_strlit("eur");
    }
    if is_euro(code) {
        return Some(CurrencyMatch::Euro);
    }
    match find_currency(fiat, code) {
        Some(i) => Some(CurrencyMatch::Fiat(i)),
        None => match find_currency(coins, code) {
            Some(i) => Some(CurrencyMatch::Coin(i)),
            None => None,
        },
    }
}

/// Whether each of these codes is found.
pub open spec fn all_found(fiat: Seq<String>, coins: Seq<String>, codes: Seq<String>) -> bool {
    forall|i: int| 0 <= i < codes.len() ==> (#[trigger] spec_lookup(fiat, coins, codes[i]@)) is Some
}

/// Looks up the source currency, then each target in order; the first that is
/// found nowhere ends the lookup with its error.
pub fn resolve_currencies(
    fiat: &Vec<String>,
    coins: &Vec<String>,
    source: String,
    targets: &Vec<String>,
) -> (r: Result<(CurrencyMatch, Vec<CurrencyMatch>), CommandError>)
    ensures
        r is Ok <==> spec_lookup(fiat@, coins@, source@) is Some && all_found(fiat@, coins@, targets@),
        r matches Ok((s, ts)) ==> Some(s) == spec_lookup(fiat@, coins@, source@) && ts@.len()
            == targets@.len() && forall|i: int|
            0 <= i < ts@.len() ==> Some(#[trigger] ts@[i]) == spec_lookup(fiat@, coins@, targets@[i]@),
        spec_lookup(fiat@, coins@, source@) is None ==> (r matches Err(
            CommandError::CustomFormattedText(es),
        ) && views(es@) == spec_not_found(true, source@)),
        spec_lookup(fiat@, coins@, source@) is Some && !all_found(fiat@, coins@, targets@) ==> exists|
            j: int,
        |
            0 <= j < targets@.len() && spec_lookup(fiat@, coins@, targets@[j]@) is None && all_found(
                fiat@,
                coins@,
                targets@.take(j),
            ) && (r matches Err(CommandError::CustomFormattedText(es)) && views(es@)
                == spec_not_found(false, targets@[j]@)),
{
    let s = match lookup_currency(fiat, coins, source.as_str()) {
        Some(m) => m,
        None => {
            return Err(currency_not_found(true, source));
        },
    };
    let mut ts: Vec<CurrencyMatch> = Vec::new();
    let mut k: usize = 0;
    while k < targets.len()
        invariant
            k <= targets.len(),
            ts@.len() == k,
            Some(s) == spec_lookup(fiat@, coins@, source@),
            forall|i: int| 0 <= i < k ==> Some(#[trigger] ts@[i]) == spec_lookup(fiat@, coins@, targets@[i]@),
        decreases targets.len() - k,
    {
        match lookup_currency(fiat, coins, targets[k].as_str()) {
            Some(m) => ts.push(m),
            None => {
                let e = currency_not_found(false, targets[k].clone());
                proof {
                    assert(all_found(fiat@, coins@, targets@.take(k as int))) by {
                        assert forall|i: int| 0 <= i < k implies (#[trigger] spec_lookup(
                            fiat@,
                            coins@,
                            targets@.take(k as int)[i]@,
                        )) is Some by {
                            assert(targets@.take(k as int)[i] == targets@[i]);
                            assert(Some(ts@[i]) == spec_lookup(fiat@, coins@, targets@[i]@));
                        }
                    }
                    assert(!all_found(fiat@, coins@, targets@));
                }
                return Err(e);
            },
        }
        k = k + 1;
    }
    proof {
        assert forall|i: int| 0 <= i < targets@.len() implies (#[trigger] spec_lookup(
            fiat@,
            coins@,
            targets@[i]@,
        )) is Some by {
            assert(Some(ts@[i]) == spec_lookup(fiat@, coins@, targets@[i]@));
        }
    }
    Ok((s, ts))
}

/// What separates the amounts in the reply: ` = ` for two, a line break
/// and `= ` for more.
pub fn joiner(count: usize) -> (r: &'static str)
    ensures
        count <= 2 ==> r@ == " = "@,
        count > 2 ==> r@ == "\n= "@,
{
    if count <= 2 {
        " = "
    } else {
        "\n= "
    }
}

pub open spec fn spec_not_found(source: bool, currency: Seq<char>) -> Seq<EntityView> {
    seq![
        plain(if source {
            "could not find source currency "@
        } else {
            "could not find target currency "@
        }),
        code(currency),
    ]
}

/// The error for a currency that is neither a fiat currency nor a coin.
pub fn currency_not_found(source: bool, currency: String) -> (r: CommandError)
    ensures
        r matches CommandError::CustomFormattedText(es) && views(es@) == spec_not_found(source, currency@),
{
    let mut es: Vec<Entity> = Vec::new();
    if source {
        es.push(text_str("could not find source currency "));
    } else {
        es.push(text_str("could not find target currency "));
    }
    es.push(code_text(currency));
    assert(views(es@) =~= spec_not_found(source, currency@));
    CommandError::CustomFormattedText(es)
}

} // verus!
