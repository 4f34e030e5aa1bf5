//! Polymarket's odds on world events.
use vstd::prelude::*;

use crate::commands::urbandictionary::{date_text, format_date, CalendarDate};
use crate::commands::{CommandError, CommandTrait};
use crate::message_entities::{bold, bold_text, link, plain, text, text_str, views, with_url, Entity, EntityView};
use crate::text::{push_str, str_equal, string_from_chars};

verus! {

/// Shows the odds that Polymarket gives on world events.
pub struct Polymarket;

impl CommandTrait for Polymarket {
    open spec fn spec_names(&self) -> Seq<Seq<char>> {
        seq!["polymarket"@, "poly"@]
    }

    open spec fn spec_description(&self) -> Option<Seq<char>> {
        Some("check Polymarket bets on world events"@)
    }

    fn command_names(&self) -> (r: &[&str]) {
        let r: &[&str] = &["polymarket", "poly"];
        assert(r@.map_values(|s: &str| s@) =~= self.spec_names());
        r
    }

    fn description(&self) -> (r: Option<&'static str>) {
        Some("check Polymarket bets on world events")
    }
}

/// A market of an event: its outcomes and their prices, with each price
/// already written as a percentage.
pub struct Market {
    pub group_item_title: Option<String>,
    pub outcomes: Vec<String>,
    pub outcome_prices: Vec<String>,
    pub price_labels: Vec<String>,
}

/// An event with its markets.
pub struct Event {
    pub title: String,
    pub slug: String,
    pub end_date: CalendarDate,
    pub markets: Vec<Market>,
}

/// The views of a list of texts.
pub open spec fn texts(v: Seq<String>) -> Seq<Seq<char>> {
    v.map_values(|s: String| s@)
}

/// A market that is already decided: its prices are exactly `0` and `1`,
/// or `0.0005` and `0.9995`.
pub open spec fn settled(m: Market) -> bool {
    texts(m.outcome_prices@) == seq!["0"@, "1"@] || texts(m.outcome_prices@) == seq![
        "0.0005"@,
        "0.9995"@,
    ]
}

/// The markets that are not decided, in order.
pub open spec fn open_markets(ms: Seq<Market>) -> Seq<Market>
    decreases ms.len(),
{
    if ms.len() == 0 {
        ms
    } else if settled(ms.last()) {
        open_markets(ms.drop_last())
    } else {
        open_markets(ms.drop_last()).push(ms.last())
    }
}

/// The markets that are shown: the undecided ones when there are several,
/// else the one there is; of those, the ones that have prices.
pub open spec fn kept_markets(ms: Seq<Market>) -> Seq<Market> {
    if ms.len() > 1 {
        open_markets(ms)
    } else {
        ms
    }
}

/// The markets that have prices, in order.
pub open spec fn priced(ms: Seq<Market>) -> Seq<Market>
    decreases ms.len(),
{
    if ms.len() == 0 {
        ms
    } else if ms.last().outcome_prices@.len() == 0 {
        priced(ms.drop_last())
    } else {
        priced(ms.drop_last()).push(ms.last())
    }
}

/// Each outcome with its price, separated by slashes.
pub open spec fn outcome_list(outcomes: Seq<String>, labels: Seq<String>) -> Seq<EntityView>
    decreases outcomes.len(),
{
    if outcomes.len() == 0 || labels.len() == 0 {
        Seq::empty()
    } else {
        let n = vstd::math::min(outcomes.len() as int, labels.len() as int);
        let earlier = outcome_list(outcomes.take(n - 1), labels.take(n - 1));
        earlier + (if n > 1 {
            seq![plain(" / "@)]
        } else {
            Seq::empty()
        }) + seq![plain(outcomes[n - 1]@), plain(" "@), plain(labels[n - 1]@)]
    }
}

/// What is shown of a market: its title, when it has one, then the price
/// of `Yes` for a yes/no market, else every outcome with its price.
pub open spec fn market_entities(m: Market) -> Seq<EntityView> {
    (if m.group_item_title matches Some(t) && t@.len() > 0 {
        seq![plain(m.group_item_title->0@), plain(": "@)]
    } else {
        Seq::empty()
    }) + if texts(m.outcomes@) == seq!["Yes"@, "No"@] {
        seq![plain(m.price_labels@[0]@)]
    } else {
        outcome_list(m.outcomes@, m.price_labels@)
    }
}

/// The markets among the first `i` that are shown, when `several` tells
/// whether the event has more than one.
pub open spec fn kept_markets_upto(ms: Seq<Market>, i: int, several: bool) -> Seq<Market> {
    if several {
        open_markets(ms.take(i))
    } else {
        ms.take(i)
    }
}

/// The markets one per line.
pub open spec fn market_lines(ms: Seq<Market>) -> Seq<EntityView>
    decreases ms.len(),
{
    if ms.len() == 0 {
        Seq::empty()
    } else if ms.len() == 1 {
        market_entities(ms[0])
    } else {
        market_lines(ms.drop_last()) + seq![plain("\n"@)] + market_entities(ms.last())
    }
}

/// The event's page.
pub open spec fn event_url(slug: Seq<char>) -> Seq<char> {
    "https://polymarket.com/event/"@ + slug
}

/// The reply: the event's title linking to its page, its end date, and its
/// markets.
pub open spec fn spec_event_entities(e: Event) -> Seq<EntityView> {
    seq![
        link(bold(e.title@), event_url(e.slug@)),
        plain(" ("@),
        plain(date_text(e.end_date)),
        plain(")\n"@),
    ] + market_lines(priced(kept_markets(e.markets@)))
}

/// Each market has a written price for each price.
pub open spec fn labelled(ms: Seq<Market>) -> bool {
    forall|i: int| 0 <= i < ms.len() ==> (#[trigger] ms[i]).price_labels@.len() == ms[i].outcome_prices@.len()
}

fn texts_equal(v: &Vec<String>, a: &str, b: &str) -> (r: bool)
    ensures
        r == (texts(v@) == seq![a@, b@]),
{
    if v.len() != 2 {
        assert(texts(v@).len() != seq![a@, b@].len());
        return false;
    }
    let r = str_equal(v[0].as_str(), a) && str_equal(v[1].as_str(), b);
    if r {
        assert(texts(v@) =~= seq![a@, b@]);
    } else {
        assert(texts(v@)[0] != a@ || texts(v@)[1] != b@);
    }
    r
}

fn is_settled(m: &Market) -> (r: bool)
    ensures
        r == settled(*m),
{
    texts_equal(&m.outcome_prices, "0", "1") || texts_equal(&m.outcome_prices, "0.0005", "0.9995")
}

proof fn lemma_open_labelled(ms: Seq<Market>)
    requires
        labelled(ms),
    ensures
        labelled(open_markets(ms)),
        labelled(priced(ms)),
    decreases ms.len(),
{
    if ms.len() > 0 {
        assert(labelled(ms.drop_last())) by {
            assert forall|i: int| 0 <= i < ms.drop_last().len() implies (#[trigger] ms.drop_last()[i]).price_labels@.len()
                == ms.drop_last()[i].outcome_prices@.len() by {
                assert(ms.drop_last()[i] == ms[i]);
            }
        }
        lemma_open_labelled(ms.drop_last());
        assert(ms[ms.len() - 1] == ms.last());
        let o = open_markets(ms.drop_last());
        let p = priced(ms.drop_last());
        assert forall|i: int| 0 <= i < o.push(ms.last()).len() implies (#[trigger] o.push(ms.last())[i]).price_labels@.len()
            == o.push(ms.last())[i].outcome_prices@.len() by {
            if i < o.len() {
                assert(o.push(ms.last())[i] == o[i]);
            }
        }
        assert forall|i: int| 0 <= i < p.push(ms.last()).len() implies (#[trigger] p.push(ms.last())[i]).price_labels@.len()
            == p.push(ms.last())[i].outcome_prices@.len() by {
            if i < p.len() {
                assert(p.push(ms.last())[i] == p[i]);
            }
        }
    }
}

/// The markets that are shown, undecided ones first filtered when there
/// are several.
pub fn keep_markets(markets: Vec<Market>) -> (r: Vec<Market>)
    ensures
        r@ == kept_markets(markets@),
{
    if markets.len() <= 1 {
        return markets;
    }
    let mut markets = markets;
    let ghost all = markets@;
    let mut kept_rev: Vec<Market> = Vec::new();
    // Taken from the back: `kept_rev` holds the open markets after the
    // first `markets.len()`, last first.
    while markets.len() > 0
        invariant
            open_markets(all) == open_markets(markets@) + kept_rev@.reverse(),
            markets@ == all.take(markets@.len() as int),
            markets@.len() <= all.len(),
        decreases markets.len(),
    {
        let ghost before = markets@;
        let m = markets.pop().unwrap();
        assert(before.drop_last() =~= markets@);
        assert(markets@ =~= all.take(markets@.len() as int));
        if !is_settled(&m) {
            let ghost k = kept_rev@;
            kept_rev.push(m);
            assert(kept_rev@.reverse() =~= seq![m] + k.reverse());
            assert(open_markets(before) == open_markets(markets@).push(m));
        }
    }
    assert(open_markets(markets@) =~= Seq::<Market>::empty());
    let mut kept: Vec<Market> = Vec::new();
    let ghost target = kept_rev@.reverse();
    assert(target =~= open_markets(all));
    while kept_rev.len() > 0
        invariant
            target == kept@ + kept_rev@.reverse(),
        decreases kept_rev.len(),
    {
        let ghost rest = kept_rev@;
        let m = kept_rev.pop().unwrap();
        assert(rest.reverse() =~= seq![m] + kept_rev@.reverse());
        kept.push(m);
    }
    assert(kept@ =~= target);
    kept
}

proof fn lemma_outcome_list_take(o: Seq<String>, l: Seq<String>)
    requires
        o.len() > 0,
        l.len() > 0,
    ensures
        ({
            let n = vstd::math::min(o.len() as int, l.len() as int);
            outcome_list(o.take(n), l.take(n)) == outcome_list(o, l)
        }),
{
    let n = vstd::math::min(o.len() as int, l.len() as int);
    assert(o.take(n).take(n - 1) =~= o.take(n - 1));
    assert(l.take(n).take(n - 1) =~= l.take(n - 1));
    assert(o.take(n)[n - 1] == o[n - 1]);
    assert(l.take(n)[n - 1] == l[n - 1]);
}

fn push_market(out: &mut Vec<Entity>, m: &Market)
    requires
        m.price_labels@.len() == m.outcome_prices@.len(),
        m.outcome_prices@.len() > 0,
    ensures
        views(final(out)@) == views(old(out)@) + market_entities(*m),
{
    let ghost start = views(out@);
    match &m.group_item_title {
        Some(t) => {
            if t.unicode_len() > 0 {
                out.push(text(t.clone()));
                out.push(text_str(": "));
            }
        },
        None => {},
    }
    let ghost titled = views(out@);
    if texts_equal(&m.outcomes, "Yes", "No") {
        out.push(text(m.price_labels[0].clone()));
        proof {
            reveal_strlit("Yes");
            reveal_strlit("No");
        }
        assert(views(out@) =~= titled + seq![plain(m.price_labels@[0]@)]);
    } else {
        let n = if m.outcomes.len() < m.price_labels.len() {
            m.outcomes.len()
        } else {
            m.price_labels.len()
        };
        let mut j: usize = 0;
        while j < n
            invariant
                j <= n,
                n == vstd::math::min(m.outcomes@.len() as int, m.price_labels@.len() as int),
                views(out@) == titled + outcome_list(m.outcomes@.take(j as int), m.price_labels@.take(j as int)),
            decreases n - j,
        {
            let ghost before = views(out@);
            if j > 0 {
                out.push(text_str(" / "));
            }
            out.push(text(m.outcomes[j].clone()));
            out.push(text_str(" "));
            out.push(text(m.price_labels[j].clone()));
            proof {
                let o = m.outcomes@.take(j + 1);
                let l = m.price_labels@.take(j + 1);
                assert(o.take(j as int) =~= m.outcomes@.take(j as int));
                assert(l.take(j as int) =~= m.price_labels@.take(j as int));
                assert(vstd::math::min(o.len() as int, l.len() as int) == j + 1);
                assert(o[j as int] == m.outcomes@[j as int]);
                assert(l[j as int] == m.price_labels@[j as int]);
                let tail = (if j > 0 {
                    seq![plain(" / "@)]
                } else {
                    Seq::<EntityView>::empty()
                }) + seq![plain(o[j as int]@), plain(" "@), plain(l[j as int]@)];
                assert(outcome_list(o, l) == outcome_list(
                    m.outcomes@.take(j as int),
                    m.price_labels@.take(j as int),
                ) + tail);
                assert(views(out@) =~= before + tail);
                assert(views(out@) =~= titled + outcome_list(o, l));
            }
            j = j + 1;
        }
        proof {
            let o = m.outcomes@;
            let l = m.price_labels@;
            if o.len() == 0 || l.len() == 0 {
                assert(outcome_list(o.take(0), l.take(0)) =~= outcome_list(o, l));
            } else {
                lemma_outcome_list_take(o, l);
            }
        }
    }
    assert(views(out@) =~= start + market_entities(*m));
}


/// The reply for an event.
pub fn event_entities(e: &Event) -> (r: Vec<Entity>)
    requires
        labelled(e.markets@),
        -9999 <= e.end_date.year <= 9999,
    ensures
        views(r@) == spec_event_entities(*e),
{
    let mut r: Vec<Entity> = Vec::new();
    let mut url: Vec<char> = Vec::new();
    push_str(&mut url, "https://polymarket.com/event/");
    push_str(&mut url, e.slug.as_str());
    r.push(with_url(bold_text(e.title.clone()), string_from_chars(url.as_slice())));
    r.push(text_str(" ("));
    r.push(text(format_date(&e.end_date)));
    r.push(text_str(")\n"));
    let ghost head = views(r@);
    let ms = &e.markets;
    let several = ms.len() > 1;
    let mut shown: usize = 0;
    let mut i: usize = 0;
    assert(ms@.take(0) =~= Seq::<Market>::empty());
    while i < ms.len()
        invariant
            i <= ms.len(),
            several == (ms@.len() > 1),
            labelled(ms@),
            views(r@) == head + market_lines(priced(kept_markets_upto(ms@, i as int, several))),
            shown == priced(kept_markets_upto(ms@, i as int, several)).len(),
            shown <= i,
        decreases ms.len() - i,
    {
        let m = &ms[i];
        assert(ms@.take(i + 1).drop_last() =~= ms@.take(i as int));
        assert(ms@.take(i + 1).last() == ms@[i as int]);
        let keep = !several || !is_settled(m);
        let ghost prev = priced(kept_markets_upto(ms@, i as int, several));
        let ghost before = views(r@);
        proof {
            let t = ms@.take(i + 1);
            assert(t.drop_last() =~= ms@.take(i as int));
            assert(t.last() == *m);
            if several {
                assert(kept_markets_upto(ms@, i + 1, several) == (if settled(*m) {
                    open_markets(ms@.take(i as int))
                } else {
                    open_markets(ms@.take(i as int)).push(*m)
                }));
            } else {
                assert(kept_markets_upto(ms@, i + 1, several) == ms@.take(i as int).push(*m));
            }
        }
        if keep && m.outcome_prices.len() > 0 {
            assert(ms@[i as int].price_labels@.len() == ms@[i as int].outcome_prices@.len());
            if shown > 0 {
                r.push(text_str("\n"));
            }
            let ghost separated = views(r@);
            assert(shown > 0 ==> separated =~= before + seq![plain("\n"@)]);
            assert(shown == 0 ==> separated =~= before);
            push_market(&mut r, m);
            shown = shown + 1;
            proof {
                let k = if several {
                    open_markets(ms@.take(i as int))
                } else {
                    ms@.take(i as int)
                };
                assert(k.push(*m).drop_last() =~= k);
                assert(priced(k.push(*m)) == prev.push(*m));
                assert(prev.push(*m).drop_last() =~= prev);
                assert(prev.push(*m)[prev.len() as int] == *m);
                if prev.len() == 0 {
                    assert(market_lines(prev.push(*m)) == market_entities(*m));
                    assert(views(r@) =~= head + market_lines(prev.push(*m)));
                } else {
                    assert(market_lines(prev.push(*m)) == market_lines(prev) + seq![plain("\n"@)]
                        + market_entities(*m));
                    assert(views(r@) =~= head + market_lines(prev.push(*m)));
                }
            }
        } else {
            proof {
                let k = if several {
                    open_markets(ms@.take(i as int))
                } else {
                    ms@.take(i as int)
                };
                assert(k.push(*m).drop_last() =~= k);
            }
        }
        i = i + 1;
    }
    assert(ms@.take(ms@.len() as int) =~= ms@);
    r
}

/// The error when no event matches the query.
pub fn no_results() -> (r: CommandError)
    ensures
        r matches CommandError::Custom(m) && m@ == "no results found."@,
{
    CommandError::Custom(String::from_str("no results found."))
}

} // verus!
