//! Answers to dice throws.
use vstd::prelude::*;

use crate::random::one_in_ten;
use crate::text::str_equal;

verus! {

/// The dice throws that are answered with "accurate": a six on the die,
/// the dartboard or the bowling alley, a basket, a goal, and three of a
/// kind on the slot machine (its values 1, 22 and 43).
pub open spec fn spec_dice_success(emoji: Seq<char>, value: i32) -> bool {
    if emoji == "🎲"@ || emoji == "🎯"@ || emoji == "🎳"@ {
        value == 6
    } else if emoji == "🏀"@ {
        value >= 4
    } else if emoji == "⚽"@ {
        value >= 3
    } else if emoji == "🎰"@ {
        value >= 0 && value % 21 == 1
    } else {
        false
    }
}

/// Whether a throw is answered with "accurate".
pub fn dice_success(emoji: &str, value: i32) -> (r: bool)
    ensures
        r == spec_dice_success(emoji@, value),
{
    if str_equal(emoji, "🎲") || str_equal(emoji, "🎯") || str_equal(emoji, "🎳") {
        value == 6
    } else if str_equal(emoji, "🏀") {
        value >= 4
    } else if str_equal(emoji, "⚽") {
        value >= 3
    } else if str_equal(emoji, "🎰") {
        value % 21 == 1
    } else {
        false
    }
}

/// The answer to a throw: "accurate" for a success, else "skill issue" when
/// `teased` (drawn one time in ten), else nothing.
pub open spec fn spec_reply(success: bool, teased: bool) -> Option<Seq<char>> {
    if success {
        Some("accurate"@)
    } else if teased {
        Some("skill issue"@)
    } else {
        None
    }
}

pub fn reply_for(success: bool, teased: bool) -> (r: Option<&'static str>)
    ensures
        match r {
            Some(t) => spec_reply(success, teased) == Some(t@),
            None => spec_reply(success, teased) is None,
        },
{
    if success {
        Some("accurate")
    } else if teased {
        Some("skill issue")
    } else {
        None
    }
}

/// The answer to a throw, drawing the one-in-ten tease when it missed.
pub fn dice_reply(emoji: &str, value: i32) -> (r: Option<&'static str>)
    ensures
        spec_dice_success(emoji@, value) ==> (r matches Some(t) && t@ == "accurate"@),
        !spec_dice_success(emoji@, value) ==> (r is None || (r matches Some(t) && t@
            == "skill issue"@)),
{
    let success = dice_success(emoji, value);
    if success {
        return reply_for(true, false);
    }
    reply_for(false, one_in_ten())
}

/// How long the bot waits before it answers, in seconds.
pub const REPLY_DELAY_SECS: u64 = 3;

proof fn lemma_emoji_distinct()
    ensures
        "🏀"@ != "🎲"@ && "🏀"@ != "🎯"@ && "🏀"@ != "🎳"@,
        "⚽"@ != "🎲"@ && "⚽"@ != "🎯"@ && "⚽"@ != "🎳"@ && "⚽"@ != "🏀"@,
        "❓"@ != "🎲"@ && "❓"@ != "🎯"@ && "❓"@ != "🎳"@ && "❓"@ != "🏀"@ && "❓"@ != "⚽"@
            && "❓"@ != "🎰"@,
{
    reveal_strlit("🎲");
    reveal_strlit("🎯");
    reveal_strlit("🎳");
    reveal_strlit("🏀");
    reveal_strlit("⚽");
    reveal_strlit("🎰");
    reveal_strlit("❓");
    assert("🎲"@[0] == '🎲' && "🎯"@[0] == '🎯' && "🎳"@[0] == '🎳' && "🏀"@[0] == '🏀');
    assert("⚽"@[0] == '⚽' && "🎰"@[0] == '🎰' && "❓"@[0] == '❓');
}

/// The outcome of a throw of each kind: dice, darts and bowling succeed
/// only on 6, basketball from 4 up, football from 3 up (3, 4 and 5 are
/// goals); any other emoji never succeeds.
pub proof fn lemma_dice_thresholds(value: i32)
    ensures
        spec_dice_success("🎲"@, value) <==> value == 6,
        spec_dice_success("🎯"@, value) <==> value == 6,
        spec_dice_success("🎳"@, value) <==> value == 6,
        spec_dice_success("🏀"@, value) <==> value >= 4,
        spec_dice_success("⚽"@, value) <==> value >= 3,
        !spec_dice_success("❓"@, value),
{
    lemma_emoji_distinct();
}

/// For the kinds that score by reaching a value (basketball, football), a
/// higher value succeeds whenever a lower one does.
pub proof fn lemma_dice_monotone(emoji: Seq<char>, low: i32, high: i32)
    requires
        emoji == "🏀"@ || emoji == "⚽"@,
        low <= high,
        spec_dice_success(emoji, low),
    ensures
        spec_dice_success(emoji, high),
{
    lemma_emoji_distinct();
}

} // verus!
