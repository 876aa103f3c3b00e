//! The first levelling module: experience without levels.

pub mod rank_card;

use vstd::prelude::*;

use crate::database::DBUser;
use crate::ranks::cooldown_passed;

verus! {

/// The experience a message at time `now` gives `user` when the award drawn
/// is `gain`: none if no more than 59 seconds passed since the last award,
/// else the old experience plus `gain`.
pub open spec fn message_xp_spec(user: DBUser, now: i64, gain: i32) -> Option<i32> {
    if cooldown_passed(user.last_xp, now) {
        Some((user.xp + gain) as i32)
    } else {
        None
    }
}

/// The new experience of `user` after a message at time `now` with award
/// `gain`, or `None` when the cooldown has not passed.
pub fn message_xp(user: &DBUser, now: i64, gain: i32) -> (r: Option<i32>)
    requires
        cooldown_passed(user.last_xp, now) ==> i32::MIN <= user.xp + gain <= i32::MAX,
    ensures
        r == message_xp_spec(*user, now, gain),
        now - user.last_xp > 59 ==> r == Some((user.xp + gain) as i32),
        now - user.last_xp <= 59 ==> r is None,
{
    if (now as i128) - (user.last_xp as i128) > 59 {
        Some(user.xp + gain)
    } else {
        None
    }
}

/// Once the cooldown has passed, a message adds the gain to the experience
/// already earned: nothing earned is lost, and a non-negative gain never
/// lowers the experience.
pub proof fn lemma_message_xp_adds_gain(user: DBUser, now: i64, gain: i32)
    requires
        now - user.last_xp > 59,
        i32::MIN <= user.xp + gain <= i32::MAX,
    ensures
        message_xp_spec(user, now, gain) == Some((user.xp + gain) as i32),
        0 <= gain ==> message_xp_spec(user, now, gain)->0 >= user.xp,
{
}

/// Within the cooldown a message changes nothing.
pub proof fn lemma_message_xp_cooldown(user: DBUser, now: i64, gain: i32)
    requires
        now - user.last_xp <= 59,
    ensures
        message_xp_spec(user, now, gain) is None,
{
}

/// Two awarded messages add both gains: the record written by the first
/// (its experience, stamped with its time) earns the second gain on top.
pub proof fn lemma_message_xp_accumulates(user: DBUser, now1: i64, gain1: i32, now2: i64, gain2: i32)
    requires
        now1 - user.last_xp > 59,
        now2 - now1 > 59,
        i32::MIN <= user.xp + gain1 <= i32::MAX,
        i32::MIN <= user.xp + gain1 + gain2 <= i32::MAX,
    ensures
        message_xp_spec(
            DBUser {
                user_id: user.user_id,
                level: user.level,
                xp: message_xp_spec(user, now1, gain1)->0,
                last_xp: now1,
            },
            now2,
            gain2,
        ) == Some((user.xp + gain1 + gain2) as i32),
{
}

} // verus!
