//! Stickers of the fratik_sex set.
use vstd::prelude::*;

use crate::commands::CommandTrait;
use crate::text::chars_of;

verus! {

/// Replies with a sticker of the fratik_sex set.
pub struct Sex;

impl CommandTrait for Sex {
    open spec fn spec_names(&self) -> Seq<Seq<char>> {
        seq!["sex"@, "xes"@]
    }

    open spec fn spec_description(&self) -> Option<Seq<char>> {
        None
    }

    fn command_names(&self) -> (r: &[&str]) {
        let r: &[&str] = &["sex", "xes"];
        assert(r@.map_values(|s: &str| s@) =~= self.spec_names());
        r
    }

    fn description(&self) -> (r: Option<&'static str>) {
        None
    }
}

/// Which sticker of the set is sent: the first when the argument starts
/// with a question mark, the second otherwise.
pub fn sticker_index(argument: Option<&str>) -> (r: usize)
    ensures
        r == (if argument matches Some(a) && a@.len() > 0 && a@[0] == '?' {
            0usize
        } else {
            1usize
        }),
{
    match argument {
        Some(a) => {
            let v = chars_of(a);
            if v.len() > 0 && v[0] == '?' {
                0
            } else {
                1
            }
        },
        None => 1,
    }
}

} // verus!
