//! What Sur Radio's stations are playing.
use vstd::prelude::*;

use crate::commands::CommandTrait;
use crate::message_entities::{plain, text_str, views, Entity, EntityView};

verus! {

/// Shows what the stations of Sur Radio are playing.
pub struct RadioSur;

impl CommandTrait for RadioSur {
    open spec fn spec_names(&self) -> Seq<Seq<char>> {
        seq!["radio_sur"@, "sur"@]
    }

    open spec fn spec_description(&self) -> Option<Seq<char>> {
        None
    }

    fn command_names(&self) -> (r: &[&str]) {
        let r: &[&str] = &["radio_sur", "sur"];
        assert(r@.map_values(|s: &str| s@) =~= self.spec_names());
        r
    }

    fn description(&self) -> (r: Option<&'static str>) {
        None
    }
}

/// What a station is playing, ready to be shown, with the station's id.
pub struct StationEntities {
    pub id: i64,
    pub entities: Vec<Entity>,
}

/// The stations are in the order of their ids.
pub open spec fn sorted_by_id(s: Seq<StationEntities>) -> bool {
    forall|i: int, j: int| 0 <= i <= j < s.len() ==> #[trigger] s[i].id <= #[trigger] s[j].id
}

/// The stations ordered by id, as `sort_unstable_by_key` orders them:
/// the same stations, in order of their ids; stations with equal ids may
/// come in any order.
pub fn sort_by_id(stations: Vec<StationEntities>) -> (r: Vec<StationEntities>)
    ensures
        r@.to_multiset() == stations@.to_multiset(),
        sorted_by_id(r@),
{
    broadcast use vstd::seq_lib::group_to_multiset_ensures;
    broadcast use vstd::multiset::group_multiset_axioms;

    let ghost all = stations@;
    let mut rest = stations;
    let mut out: Vec<StationEntities> = Vec::new();
    while rest.len() > 0
        invariant
            sorted_by_id(out@),
            out@.to_multiset().add(rest@.to_multiset()) == all.to_multiset(),
        decreases rest.len(),
    {
        let ghost before_rest = rest@;
        let ghost before_out = out@;
        let station = rest.pop().unwrap();
        assert(before_rest =~= rest@.push(station));
        proof {
            vstd::seq_lib::to_multiset_build(rest@, station);
        }
        let mut p: usize = 0;
        while p < out.len() && out[p].id <= station.id
            invariant
                p <= out.len(),
                out@ == before_out,
                forall|k: int| 0 <= k < p ==> #[trigger] out@[k].id <= station.id,
            decreases out.len() - p,
        {
            p = p + 1;
        }
        let ghost id = station.id;
        out.insert(p, station);
        proof {
            vstd::seq_lib::to_multiset_insert(before_out, p as int, station);
            assert(out@ == before_out.insert(p as int, station));
            assert forall|i: int, j: int| 0 <= i <= j < out@.len() implies #[trigger] out@[i].id <= #[trigger] out@[j].id by {
                if j < p {
                    assert(out@[i] == before_out[i]);
                    assert(out@[j] == before_out[j]);
                } else if j == p {
                    if i < p {
                        assert(out@[i] == before_out[i]);
                    }
                } else {
                    assert(out@[j] == before_out[j - 1]);
                    assert(p < before_out.len());
                    assert(before_out[p as int].id > id);
                    if i < p {
                        assert(out@[i] == before_out[i]);
                        assert(before_out[i].id <= before_out[p as int].id);
                    } else if i == p {
                        assert(before_out[p as int].id <= before_out[j - 1].id);
                    } else {
                        assert(out@[i] == before_out[i - 1]);
                    }
                }
            }
            assert(out@.to_multiset().add(rest@.to_multiset()) =~= all.to_multiset());
        }
    }
    assert(rest@.to_multiset() =~= vstd::multiset::Multiset::<StationEntities>::empty());
    assert(out@.to_multiset() =~= out@.to_multiset().add(rest@.to_multiset()));
    out
}

/// The stations' texts one after the other, separated by blank lines.
pub open spec fn joined_stations(s: Seq<StationEntities>) -> Seq<EntityView>
    decreases s.len(),
{
    if s.len() == 0 {
        Seq::empty()
    } else if s.len() == 1 {
        views(s[0].entities@)
    } else {
        joined_stations(s.drop_last()) + seq![plain("\n\n"@)] + views(s.last().entities@)
    }
}

/// The stations' texts in the given order.
pub fn join_stations(stations: Vec<StationEntities>) -> (r: Vec<Entity>)
    ensures
        views(r@) == joined_stations(stations@),
{
    let ghost all = stations@;
    let mut stations = stations;
    let mut parts: Vec<StationEntities> = Vec::new();
    while stations.len() > 0
        invariant
            all == stations@ + parts@.reverse(),
        decreases stations.len(),
    {
        let ghost before = parts@;
        let s = stations.pop().unwrap();
        parts.push(s);
        assert(parts@.reverse() =~= seq![s] + before.reverse());
    }
    assert(parts@.reverse() =~= all);
    let mut out: Vec<Entity> = Vec::new();
    let mut n: usize = 0;
    let total = parts.len();
    while parts.len() > 0
        invariant
            total == all.len(),
            n + parts@.len() == total,
            parts@.reverse() == all.skip(n as int),
            views(out@) == joined_stations(all.take(n as int)),
        decreases parts.len(),
    {
        let ghost rest = parts@;
        let mut s = parts.pop().unwrap();
        assert(rest.reverse() =~= seq![s] + parts@.reverse());
        assert(all.skip(n as int)[0] == s);
        assert(all[n as int] == s);
        assert(all.skip(n + 1) =~= all.skip(n as int).drop_first());
        let ghost before = views(out@);
        if n > 0 {
            out.push(text_str("\n\n"));
        }
        let ghost mid = views(out@);
        let ghost group = views(s.entities@);
        out.append(&mut s.entities);
        proof {
            let t = all.take(n + 1);
            assert(t.drop_last() =~= all.take(n as int));
            assert(t.last() == all[n as int]);
            assert(views(out@) =~= mid + group);
            if n == 0 {
                assert(views(out@) =~= joined_stations(t));
            } else {
                assert(mid =~= before + seq![plain("\n\n"@)]);
                assert(views(out@) =~= joined_stations(t));
            }
        }
        n = n + 1;
    }
    assert(all.take(n as int) =~= all);
    out
}

/// The reply: the stations ordered by id, separated by blank lines.
pub fn stations_reply(stations: Vec<StationEntities>) -> (r: Vec<Entity>)
    ensures
        exists|ordered: Seq<StationEntities>|
            ordered.to_multiset() == stations@.to_multiset() && sorted_by_id(ordered) && views(r@)
                == joined_stations(ordered),
{
    let ordered = sort_by_id(stations);
    let ghost o = ordered@;
    let r = join_stations(ordered);
    assert(o.to_multiset() == stations@.to_multiset() && sorted_by_id(o) && views(r@) == joined_stations(o));
    r
}

} // verus!
