//! Mevo bike statistics.
use vstd::prelude::*;

use crate::commands::CommandTrait;
use crate::message_entities::{bold, bold_text, plain, text_str, views, Entity, EntityView};
use crate::text::{decimal, decimal_string};

verus! {

/// Shows the statistics of Gdańsk's Mevo bike system.
pub struct Mevo;

impl CommandTrait for Mevo {
    open spec fn spec_names(&self) -> Seq<Seq<char>> {
        seq!["mevo"@]
    }

    open spec fn spec_description(&self) -> Option<Seq<char>> {
        None
    }

    fn command_names(&self) -> (r: &[&str]) {
        let r: &[&str] = &["mevo"];
        assert(r@.map_values(|s: &str| s@) =~= self.spec_names());
        r
    }

    fn description(&self) -> (r: Option<&'static str>) {
        None
    }
}

pub open spec fn spec_stats_entities(
    active_trips: u64,
    trips_today: u64,
    users_today: u64,
    trips_yesterday: u64,
    median_today: Seq<char>,
    median_this_year: Seq<char>,
) -> Seq<EntityView> {
    seq![
        plain("jadący teraz: "@),
        bold(decimal(active_trips as nat)),
        plain(", dzisiaj: "@),
        bold(decimal(trips_today as nat)),
        plain(" ("@),
        bold(decimal(users_today as nat)),
        plain(" użytkowników), wczoraj: "@),
        bold(decimal(trips_yesterday as nat)),
        plain("\nśredni czas dzisiaj: "@),
        bold(median_today),
        plain(", w tym roku: "@),
        bold(median_this_year),
    ]
}

/// The reply: trips under way, today's trips and riders, yesterday's
/// trips, and the median trip times of today and of this year, already
/// written as durations.
pub fn stats_entities(
    active_trips: u64,
    trips_today: u64,
    users_today: u64,
    trips_yesterday: u64,
    median_today: String,
    median_this_year: String,
) -> (r: Vec<Entity>)
    ensures
        views(r@) == spec_stats_entities(
            active_trips,
            trips_today,
            users_today,
            trips_yesterday,
            median_today@,
            median_this_year@,
        ),
{
    let mut r: Vec<Entity> = Vec::new();
    r.push(text_str("jadący teraz: "));
    r.push(bold_text(decimal_string(active_trips)));
    r.push(text_str(", dzisiaj: "));
    r.push(bold_text(decimal_string(trips_today)));
    r.push(text_str(" ("));
    r.push(bold_text(decimal_string(users_today)));
    r.push(text_str(" użytkowników), wczoraj: "));
    r.push(bold_text(decimal_string(trips_yesterday)));
    r.push(text_str("\nśredni czas dzisiaj: "));
    r.push(bold_text(median_today));
    r.push(text_str(", w tym roku: "));
    r.push(bold_text(median_this_year));
    assert(views(r@) =~= spec_stats_entities(
        active_trips,
        trips_today,
        users_today,
        trips_yesterday,
        median_today@,
        median_this_year@,
    ));
    r
}

} // verus!
