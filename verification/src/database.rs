//! What the bot keeps of each member of a guild.

use vstd::prelude::*;

verus! {

/// A member's levelling record, as stored for a guild.
pub struct DBUser {
    /// The member's Discord id, in decimal.
    pub user_id: String,
    /// The member's level.
    pub level: i32,
    /// The experience gathered towards the next level.
    pub xp: i32,
    /// When the member was last awarded experience, in seconds since the
    /// Unix epoch.
    pub last_xp: i64,
}

} // verus!
