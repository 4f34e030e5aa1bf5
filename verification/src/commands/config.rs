//! Per-chat settings.
use std::collections::HashSet;

use vstd::prelude::*;

use crate::commands::{CommandError, CommandTrait};
use crate::message_entities::{code, code_text, plain, text_str, views, Entity, EntityView};
use crate::text::{ascii_lowercase, chars_equal, chars_of, to_ascii_lower};

verus! {

broadcast use vstd::std_specs::hash::group_hash_axioms;

/// Changes the bot's settings for a chat.
pub struct Config;

impl CommandTrait for Config {
    open spec fn spec_names(&self) -> Seq<Seq<char>> {
        seq!["config"@, "set"@]
    }

    open spec fn spec_description(&self) -> Option<Seq<char>> {
        Some("configure bot settings"@)
    }

    fn command_names(&self) -> (r: &[&str]) {
        let r: &[&str] = &["config", "set"];
        assert(r@.map_values(|s: &str| s@) =~= self.spec_names());
        r
    }

    fn description(&self) -> (r: Option<&'static str>) {
        Some("configure bot settings")
    }
}

/// The setting that lets the Markov chain learn from a chat.
pub const MARKOV_CHAIN_LEARNING: &'static str = "markov_chain_learning";

pub open spec fn spec_setting_names() -> Seq<EntityView> {
    seq![code("markov_chain_learning"@)]
}

/// The settings there are, one per line.
pub fn setting_names() -> (r: Vec<Entity>)
    ensures
        views(r@) == spec_setting_names(),
{
    let mut r: Vec<Entity> = Vec::new();
    r.push(code_text(String::from_str(MARKOV_CHAIN_LEARNING)));
    assert(views(r@) =~= spec_setting_names());
    r
}

pub open spec fn spec_settings_list() -> Seq<EntityView> {
    seq![plain("list of available settings:\n"@)] + spec_setting_names()
}

/// The reply when no setting is named.
pub fn settings_list() -> (r: Vec<Entity>)
    ensures
        views(r@) == spec_settings_list(),
{
    let mut r: Vec<Entity> = Vec::new();
    r.push(text_str("list of available settings:\n"));
    let mut names = setting_names();
    r.append(&mut names);
    assert(views(r@) =~= spec_settings_list());
    r
}

pub open spec fn spec_unknown_setting() -> Seq<EntityView> {
    seq![plain("unknown setting name. available settings include:\n"@)] + spec_setting_names()
}

/// The error for a setting that does not exist.
pub fn unknown_setting() -> (r: CommandError)
    ensures
        r matches CommandError::CustomFormattedText(es) && views(es@) == spec_unknown_setting(),
{
    let mut r: Vec<Entity> = Vec::new();
    r.push(text_str("unknown setting name. available settings include:\n"));
    let mut names = setting_names();
    r.append(&mut names);
    assert(views(r@) =~= spec_unknown_setting());
    CommandError::CustomFormattedText(r)
}

/// Whether the setting named is the Markov chain one, in any ASCII case.
pub fn is_markov_chain_learning(name: &str) -> (r: bool)
    ensures
        r == (ascii_lowercase(name@) == MARKOV_CHAIN_LEARNING@),
{
    let v = chars_of(name);
    let mut lower: Vec<char> = Vec::new();
    let mut i: usize = 0;
    while i < v.len()
        invariant
            i <= v.len(),
            lower@ == ascii_lowercase(v@.take(i as int)),
        decreases v.len() - i,
    {
        lower.push(to_ascii_lower(v[i]));
        i = i + 1;
        assert(lower@ =~= ascii_lowercase(v@.take(i as int)));
    }
    assert(v@.take(v@.len() as int) =~= v@);
    let expected = chars_of(MARKOV_CHAIN_LEARNING);
    chars_equal(&lower, &expected)
}

/// The setting can only be set in groups.
pub fn chat_group_guard(is_group: bool) -> (r: Result<(), CommandError>)
    ensures
        is_group ==> r is Ok,
        !is_group ==> (r matches Err(CommandError::Custom(m)) && m@
            == "this setting can be only set in groups."@),
{
    if is_group {
        Ok(())
    } else {
        Err(CommandError::Custom(String::from_str("this setting can be only set in groups.")))
    }
}

/// A user's place in a chat.
pub enum MemberStatus {
    Creator,
    Administrator { can_change_info: bool },
    Other,
}

/// Only the chat's creator and the administrators who may change the
/// group's info can set it.
pub open spec fn may_configure(status: MemberStatus) -> bool {
    match status {
        MemberStatus::Creator => true,
        MemberStatus::Administrator { can_change_info } => can_change_info,
        MemberStatus::Other => false,
    }
}

/// The user must be allowed to change the group's info.
pub fn chat_admin_guard(status: MemberStatus) -> (r: Result<(), CommandError>)
    ensures
        may_configure(status) ==> r is Ok,
        !may_configure(status) ==> (r matches Err(CommandError::Custom(m)) && m@
            == "this setting requires the Change Group Info permission."@),
{
    let allowed = match status {
        MemberStatus::Creator => true,
        MemberStatus::Administrator { can_change_info } => can_change_info,
        MemberStatus::Other => false,
    };
    if allowed {
        Ok(())
    } else {
        Err(
            CommandError::Custom(
                String::from_str("this setting requires the Change Group Info permission."),
            ),
        )
    }
}

/// The reply after learning was switched on (`enable`) or off, telling
/// whether that changed anything.
pub open spec fn spec_learning_reply(enable: bool, changed: bool) -> Seq<char> {
    if enable {
        if changed {
            "Markov chain will now learn from chat messages."@
        } else {
            "Markov chain learning was already enabled."@
        }
    } else {
        if changed {
            "Markov chain won't learn from chat messages anymore."@
        } else {
            "Markov chain learning was already disabled."@
        }
    }
}

pub fn learning_reply(enable: bool, changed: bool) -> (r: &'static str)
    ensures
        r@ == spec_learning_reply(enable, changed),
{
    if enable {
        if changed {
            "Markov chain will now learn from chat messages."
        } else {
            "Markov chain learning was already enabled."
        }
    } else {
        if changed {
            "Markov chain won't learn from chat messages anymore."
        } else {
            "Markov chain learning was already disabled."
        }
    }
}


/// Switches Markov chain learning on (`enable`) or off for a chat in the set
/// of chats that have it on, and tells whether that changed the set.
pub fn set_learning(learning_chats: &mut HashSet<i64>, chat_id: i64, enable: bool) -> (changed: bool)
    ensures
        enable ==> final(learning_chats)@ == old(learning_chats)@.insert(chat_id) && changed == !old(
            learning_chats,
        )@.contains(chat_id),
        !enable ==> final(learning_chats)@ == old(learning_chats)@.remove(chat_id) && changed == old(
            learning_chats,
        )@.contains(chat_id),
{
    if enable {
        learning_chats.insert(chat_id)
    } else {
        learning_chats.remove(&chat_id)
    }
}

/// Sets Markov chain learning for a chat and gives the reply.
pub fn configure_learning(learning_chats: &mut HashSet<i64>, chat_id: i64, enable: bool) -> (r: &'static str)
    ensures
        enable ==> final(learning_chats)@ == old(learning_chats)@.insert(chat_id),
        !enable ==> final(learning_chats)@ == old(learning_chats)@.remove(chat_id),
        r@ == spec_learning_reply(
            enable,
            if enable {
                !old(learning_chats)@.contains(chat_id)
            } else {
                old(learning_chats)@.contains(chat_id)
            },
        ),
{
    let changed = set_learning(learning_chats, chat_id, enable);
    learning_reply(enable, changed)
}

} // verus!
