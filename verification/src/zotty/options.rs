//! The `config` command, by which administrators read and set guild options.

use vstd::prelude::*;

use crate::text::str_eq;

verus! {

/// What a `config` command asks for.
#[derive(Debug, PartialEq, Eq, Structural)]
pub enum ConfigAction {
    /// `config set <key> <value>`.
    SetValue,
    /// `config get <key>`.
    GetValue,
    /// Anything else: the usage is shown.
    Usage,
}

/// The action that the command's first argument names.
pub open spec fn config_action_spec(arg: Option<Seq<char>>) -> ConfigAction {
    match arg {
        Some(s) => if s == "set"@ {
            ConfigAction::SetValue
        } else if s == "get"@ {
            ConfigAction::GetValue
        } else {
            ConfigAction::Usage
        },
        None => ConfigAction::Usage,
    }
}

/// The action that the command's first argument names.
pub fn config_action(arg: Option<&str>) -> (a: ConfigAction)
    ensures
        a == config_action_spec(match arg {
            Some(s) => Some(s@),
            None => None,
        }),
        (arg matches Some(s) && s@ == "set"@) ==> a == ConfigAction::SetValue,
        (arg matches Some(s) && s@ == "get"@) ==> a == ConfigAction::GetValue,
        !(arg matches Some(s) && (s@ == "set"@ || s@ == "get"@)) ==> a == ConfigAction::Usage,
{
    let text = match arg {
        Some(s) => s,
        None => "",
    };
    proof {
        reveal_strlit("");
        reveal_strlit("set");
        reveal_strlit("get");
        assert(""@.len() == 0 && "set"@.len() == 3 && "get"@.len() == 3);
        assert("set"@[0] == 's' && "get"@[0] == 'g');
        assert("set"@ != "get"@);
    }
    if str_eq(text, "set") {
        ConfigAction::SetValue
    } else if str_eq(text, "get") {
        ConfigAction::GetValue
    } else {
        ConfigAction::Usage
    }
}

/// The usage shown by the config command.
pub const CONFIG_USAGE: &'static str = "config {get|set} <key> [value]";

/// How a config command is answered.
#[derive(Debug, PartialEq, Eq, Structural)]
pub enum ConfigReply {
    /// Used outside a guild: the wrong-place error.
    WrongPlace,
    /// Sent by a bot, by someone who is not a member, or by a member who is
    /// not an administrator: no answer.
    Silent,
    /// An administrator's command: the action its argument names.
    Act(ConfigAction),
}

/// How a config command is answered: outside a guild with the error; from a
/// bot, from someone not found as a member, or from a member without
/// administrator permission, not at all; else by the action that its first
/// argument names.
pub fn config_reply(in_guild: bool, author_is_bot: bool, member_found: bool, is_admin: bool, arg: Option<&str>) -> (r: ConfigReply)
    ensures
        r == (if !in_guild {
            ConfigReply::WrongPlace
        } else if author_is_bot || !member_found || !is_admin {
            ConfigReply::Silent
        } else {
            ConfigReply::Act(config_action_spec(match arg {
                Some(s) => Some(s@),
                None => None,
            }))
        }),
        !in_guild ==> r == ConfigReply::WrongPlace,
        in_guild && (author_is_bot || !member_found || !is_admin) ==> r == ConfigReply::Silent,
        in_guild && !author_is_bot && member_found && is_admin && (arg matches Some(s) && s@ == "set"@)
            ==> r == ConfigReply::Act(ConfigAction::SetValue),
        in_guild && !author_is_bot && member_found && is_admin && (arg matches Some(s) && s@ == "get"@)
            ==> r == ConfigReply::Act(ConfigAction::GetValue),
        in_guild && !author_is_bot && member_found && is_admin && !(arg matches Some(s) && (s@ == "set"@
            || s@ == "get"@)) ==> r == ConfigReply::Act(ConfigAction::Usage),
{
    if !in_guild {
        ConfigReply::WrongPlace
    } else if author_is_bot || !member_found || !is_admin {
        ConfigReply::Silent
    } else {
        ConfigReply::Act(config_action(arg))
    }
}

} // verus!
