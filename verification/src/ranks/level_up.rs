//! The message that congratulates a member on a new level.

use vstd::prelude::*;
use serenity::model::misc::Mentionable;

use crate::text::{int_decimal, nat_digits, replace, replace_all, int_to_string};

verus! {

/// The message used when a guild configured none.
pub const DEFAULT_LEVEL_UP_MESSAGE: &'static str = "GG %player%, you just advanced to level %level%";

/// How Discord mentions the user with this id: `<@id>`.
pub open spec fn mention_text(user_id: u64) -> Seq<char> {
    seq!['<', '@'] + nat_digits(user_id as nat) + seq!['>']
}

/// serenity's mention of a user id, `UserId(id).mention().to_string()`, which
/// serenity's `Display` for `Mention` writes as `<@id>`.
#[verifier::external_body]
fn user_mention(user_id: u64) -> (s: String)
    ensures
        s@ == mention_text(user_id),
{
    serenity::model::id::UserId(user_id).mention().to_string()
}

/// The congratulation for the member `user_id` reaching `level`: the guild's
/// template if it configured one, else `default_template`, with each
/// `%player%` replaced by a mention of the member, then each `%level%` by
/// the level.
pub fn level_up_message(configured: Option<&str>, default_template: &str, user_id: u64, level: i32) -> (m: String)
    ensures
        m@ == replace_all(
            replace_all(
                match configured {
                    Some(t) => t@,
                    None => default_template@,
                },
                "%player%"@,
                mention_text(user_id),
            ),
            "%level%"@,
            int_decimal(level as int),
        ),
{
    proof {
        reveal_strlit("%player%");
        reveal_strlit("%level%");
    }
    let template = match configured {
        Some(t) => t,
        None => default_template,
    };
    let mention = user_mention(user_id);
    let with_player = replace(template, "%player%", mention.as_str());
    let level_text = int_to_string(level as i64);
    replace(with_player.as_str(), "%level%", level_text.as_str())
}

/// Whether a guild's `send_level_up_message` setting turns the message on:
/// only the value `true` does.
pub fn level_up_enabled(setting: Option<&str>) -> (r: bool)
    ensures
        r == (setting matches Some(s) && s@ == "true"@),
{
    match setting {
        Some(s) => crate::text::str_eq(s, "true"),
        None => false,
    }
}

} // verus!
