//! The bot's logger: which records are kept and how they are written.
use vstd::prelude::*;

use crate::text::{chars_equal, chars_of, find, find_chars, push_str, slice_chars, string_from_chars};

verus! {

/// How severe a log record is, from the most severe.
#[derive(PartialEq, Eq, Structural, Clone, Copy)]
pub enum Level {
    Error,
    Warn,
    Info,
    Debug,
    Trace,
}

/// The place of a level in the order of `log::Level`: `Error` is the least
/// and `Trace` the greatest.
pub open spec fn rank(l: Level) -> int {
    match l {
        Level::Error => 1,
        Level::Warn => 2,
        Level::Info => 3,
        Level::Debug => 4,
        Level::Trace => 5,
    }
}

fn level_rank(l: Level) -> (r: u8)
    ensures
        r == rank(l),
{
    match l {
        Level::Error => 1,
        Level::Warn => 2,
        Level::Info => 3,
        Level::Debug => 4,
        Level::Trace => 5,
    }
}

/// The crate part of a record's target: what comes before the first `::`.
pub open spec fn first_segment(target: Seq<char>) -> Seq<char> {
    match find(target, "::"@) {
        Some(i) => target.take(i),
        None => target,
    }
}

/// The most detailed level that is logged for a target: `Debug` for the
/// bot's own records, `Info` for everything else.
pub open spec fn spec_max_level(target: Seq<char>) -> Level {
    if first_segment(target) == "craiyon-bot"@ {
        Level::Debug
    } else {
        Level::Info
    }
}

/// The most detailed level that is logged for a target.
pub fn max_level(target: &str) -> (r: Level)
    ensures
        r == spec_max_level(target@),
{
    let v = chars_of(target);
    let sep = chars_of("::");
    let crate_part = match find_chars(&v, &sep, 0) {
        Some(i) => slice_chars(&v, 0, i),
        None => v,
    };
    assert(crate_part@ =~= first_segment(target@));
    let own = chars_of("craiyon-bot");
    if chars_equal(&crate_part, &own) {
        Level::Debug
    } else {
        Level::Info
    }
}

/// Whether a record of `level` for `target` is logged.
pub fn enabled(target: &str, level: Level) -> (r: bool)
    ensures
        r == (rank(level) <= rank(spec_max_level(target@))),
{
    level_rank(level) <= level_rank(max_level(target))
}

/// A level's name as `log::Level::as_str` writes it.
pub open spec fn level_name(l: Level) -> Seq<char> {
    match l {
        Level::Error => "ERROR"@,
        Level::Warn => "WARN"@,
        Level::Info => "INFO"@,
        Level::Debug => "DEBUG"@,
        Level::Trace => "TRACE"@,
    }
}

pub fn level_str(l: Level) -> (r: &'static str)
    ensures
        r@ == level_name(l),
{
    match l {
        Level::Error => "ERROR",
        Level::Warn => "WARN",
        Level::Info => "INFO",
        Level::Debug => "DEBUG",
        Level::Trace => "TRACE",
    }
}

/// The terminal colours of the levels.
#[derive(PartialEq, Eq, Structural, Clone, Copy)]
pub enum LevelColor {
    BrightRed,
    BrightYellow,
    BrightCyan,
    BrightMagenta,
    BrightGreen,
}

/// The colour a level is printed in.
pub fn level_color(l: Level) -> (r: LevelColor)
    ensures
        l == Level::Error ==> r == LevelColor::BrightRed,
        l == Level::Warn ==> r == LevelColor::BrightYellow,
        l == Level::Info ==> r == LevelColor::BrightCyan,
        l == Level::Debug ==> r == LevelColor::BrightMagenta,
        l == Level::Trace ==> r == LevelColor::BrightGreen,
{
    match l {
        Level::Error => LevelColor::BrightRed,
        Level::Warn => LevelColor::BrightYellow,
        Level::Info => LevelColor::BrightCyan,
        Level::Debug => LevelColor::BrightMagenta,
        Level::Trace => LevelColor::BrightGreen,
    }
}

/// A record's line in the log file.
pub fn file_line(timestamp: &str, target: &str, level: Level, message: &str) -> (r: String)
    ensures
        r@ == timestamp@ + " ["@ + target@ + " "@ + level_name(level) + "] "@ + message@,
{
    let mut out: Vec<char> = Vec::new();
    push_str(&mut out, timestamp);
    push_str(&mut out, " [");
    push_str(&mut out, target);
    push_str(&mut out, " ");
    push_str(&mut out, level_str(level));
    push_str(&mut out, "] ");
    push_str(&mut out, message);
    string_from_chars(out.as_slice())
}

/// The file the log is written to.
pub const LOG_FILE: &'static str = ".log";

} // verus!
