//! Ranks: experience, levels and the rank and leaderboard commands.

pub mod colour;
pub mod leaderboard;
pub mod level_up;
pub mod rank_card;

use vstd::prelude::*;
use rand::Rng;

use crate::commands::Args;
use crate::database::DBUser;
use crate::text::{parse_u64_spec, str_chars, str_eq};

verus! {

// ---------------------------------------------------------------------------
// Levels
// ---------------------------------------------------------------------------

/// The experience needed to pass level `level`.
pub open spec fn level_xp(level: int) -> int {
    5 * level * level + 50 * level + 100
}

/// Whether `level_xp(level)` can be computed in `i32` without overflow.
pub open spec fn level_xp_fits(level: int) -> bool {
    &&& 5 * (level * level) <= i32::MAX
    &&& level_xp(level) <= i32::MAX
}

/// The experience needed to pass a level: `5 * level² + 50 * level + 100`.
pub fn get_level_xp(level: i32) -> (r: i32)
    requires
        level_xp_fits(level as int),
    ensures
        r == level_xp(level as int),
        r == 5 * level * level + 50 * level + 100,
{
    proof {
        let l = level as int;
        assert(0 <= l * l <= i32::MAX) by (nonlinear_arith)
            requires
                5 * (l * l) <= i32::MAX,
        ;
        assert(-125 <= 5 * (l * l) + 50 * l) by (nonlinear_arith);
        assert(i32::MIN <= 50 * l <= i32::MAX) by (nonlinear_arith)
            requires
                5 * (l * l) <= i32::MAX,
        ;
        assert(5 * l * l == 5 * (l * l)) by (nonlinear_arith);
    }
    5 * (level * level) + 50 * level + 100
}

/// Each level needs more experience than the one before, from level -5 on.
pub proof fn lemma_level_xp_increasing(a: int, b: int)
    requires
        -5 <= a < b,
    ensures
        level_xp(a) < level_xp(b),
{
    assert(level_xp(b) - level_xp(a) == 5 * (b - a) * (b + a + 10)) by (nonlinear_arith);
    assert(5 * (b - a) * (b + a + 10) > 0) by (nonlinear_arith)
        requires
            -5 <= a < b,
    ;
}

// ---------------------------------------------------------------------------
// Awarding experience
// ---------------------------------------------------------------------------

/// What a message does to a member's record.
#[derive(Debug, PartialEq, Eq, Structural)]
pub enum XpUpdate {
    /// Too soon after the last award: nothing changes.
    Unchanged,
    /// The experience becomes `xp`; the level stays.
    Xp { xp: i32 },
    /// The member reaches `level`, with `xp` carried over.
    LevelUp { level: i32, xp: i32 },
}

/// Whether more than 59 seconds passed between the last award and `now`.
pub open spec fn cooldown_passed(last_xp: i64, now: i64) -> bool {
    now - last_xp > 59
}

/// The update a message brings at time `now` when the award drawn is `gain`.
pub open spec fn xp_award(user: DBUser, now: i64, gain: i32) -> XpUpdate {
    if cooldown_passed(user.last_xp, now) {
        let xp = user.xp + gain;
        let needed = level_xp(user.level as int);
        if xp > needed {
            XpUpdate::LevelUp { level: (user.level + 1) as i32, xp: (xp - needed) as i32 }
        } else {
            XpUpdate::Xp { xp: xp as i32 }
        }
    } else {
        XpUpdate::Unchanged
    }
}

/// Whether the award can be computed in `i32` without overflow.
pub open spec fn xp_award_fits(user: DBUser, now: i64, gain: i32) -> bool {
    cooldown_passed(user.last_xp, now) ==> {
        let xp = user.xp + gain;
        &&& i32::MIN <= xp <= i32::MAX
        &&& level_xp_fits(user.level as int)
        &&& xp > level_xp(user.level as int) ==> {
            &&& user.level + 1 <= i32::MAX
            &&& xp - level_xp(user.level as int) <= i32::MAX
        }
    }
}

/// Decides what a message does to `user`'s record at time `now` (seconds
/// since the Unix epoch) when the award drawn is `gain`: nothing if no more
/// than 59 seconds passed since the last award; otherwise the experience
/// grows by `gain`, and if it then exceeds what the level needs, the member
/// goes up one level and keeps the excess.
pub fn award_xp(user: &DBUser, now: i64, gain: i32) -> (u: XpUpdate)
    requires
        xp_award_fits(*user, now, gain),
    ensures
        u == xp_award(*user, now, gain),
        now - user.last_xp <= 59 ==> u == XpUpdate::Unchanged,
        now - user.last_xp > 59 && user.xp + gain <= 5 * user.level * user.level + 50 * user.level + 100
            ==> u == (XpUpdate::Xp { xp: (user.xp + gain) as i32 }),
        now - user.last_xp > 59 && user.xp + gain > 5 * user.level * user.level + 50 * user.level + 100
            ==> u == (XpUpdate::LevelUp {
            level: (user.level + 1) as i32,
            xp: (user.xp + gain - (5 * user.level * user.level + 50 * user.level + 100)) as i32,
        }),
{
    if (now as i128) - (user.last_xp as i128) > 59 {
        let xp = user.xp + gain;
        let needed = get_level_xp(user.level);
        if xp > needed {
            XpUpdate::LevelUp { level: user.level + 1, xp: xp - needed }
        } else {
            XpUpdate::Xp { xp }
        }
    } else {
        XpUpdate::Unchanged
    }
}

/// The current time, in whole seconds since the Unix epoch (chrono's
/// `Utc::now().timestamp()`). Nothing is claimed of the value: it is the
/// clock's.
#[verifier::external_body]
fn now_timestamp() -> (t: i64) {
    chrono::Utc::now().timestamp()
}

/// A random award for one message (rand's `thread_rng().gen_range(15..25)`),
/// which the crate documents to lie in the half-open range.
#[verifier::external_body]
fn random_xp_gain() -> (g: i32)
    ensures
        15 <= g < 25,
{
    rand::thread_rng().gen_range(15..25)
}

/// Whether `level_xp(level)` can be computed in `i32` without overflow.
pub fn level_xp_fits_check(level: i32) -> (r: bool)
    ensures
        r == level_xp_fits(level as int),
{
    let l = level as i128;
    proof {
        let li = l as int;
        assert(l * l == li * li);
        assert(5 * (l * l) == 5 * (li * li));
        assert(0 <= li * li <= 0x4000_0000_0000_0000) by (nonlinear_arith)
            requires
                -0x8000_0000 <= li <= 0x8000_0000,
        ;
        assert(5 * li * li == 5 * (li * li)) by (nonlinear_arith);
    }
    5 * (l * l) <= 2147483647 && 5 * (l * l) + 50 * l + 100 <= 2147483647
}

/// Whether every possible award for a message at time `now` can be computed
/// without overflow.
pub open spec fn message_award_fits_at(user: DBUser, now: i64) -> bool {
    forall|gain: i32| 15 <= gain < 25 ==> #[trigger] xp_award_fits(user, now, gain)
}

/// Whether every possible award for a message at time `now` can be computed
/// without overflow (the test to make before `award_message_xp_at`).
pub fn message_award_fits_at_check(user: &DBUser, now: i64) -> (r: bool)
    ensures
        r == message_award_fits_at(*user, now),
{
    if (now as i128) - (user.last_xp as i128) <= 59 {
        return true;
    }
    let fits_level = level_xp_fits_check(user.level);
    let xp = user.xp as i64 + 24;
    let r = if !fits_level || xp > 2147483647 {
        false
    } else {
        let needed = get_level_xp(user.level) as i64;
        xp <= needed || (user.level < i32::MAX && xp - needed <= 2147483647)
    };
    proof {
        if !r {
            assert(!xp_award_fits(*user, now, 24i32));
        }
    }
    r
}

/// What a message from `user` at time `now` does to the record: when more
/// than 59 seconds passed since the last award, draws an award of 15 to 24
/// experience and applies it as `award_xp` does; otherwise nothing changes.
pub fn award_message_xp_at(user: &DBUser, now: i64) -> (u: XpUpdate)
    requires
        message_award_fits_at(*user, now),
    ensures
        !cooldown_passed(user.last_xp, now) ==> u == XpUpdate::Unchanged,
        exists|gain: i32| 15 <= gain < 25 && u == xp_award(*user, now, gain),
{
    if (now as i128) - (user.last_xp as i128) > 59 {
        let gain = random_xp_gain();
        assert(xp_award_fits(*user, now, gain));
        award_xp(user, now, gain)
    } else {
        assert(xp_award(*user, now, 15) == XpUpdate::Unchanged);
        XpUpdate::Unchanged
    }
}

/// What a message from `user` does to the record now: reads the clock and
/// returns the time read together with the update, which `award_message_xp_at`
/// gives for that time; `None` in place of the update when an award at that
/// time could overflow.
pub fn award_message_xp(user: &DBUser) -> (r: (i64, Option<XpUpdate>))
    ensures
        r.1 is None <==> !message_award_fits_at(*user, r.0),
        r.1 matches Some(u) ==> exists|gain: i32| 15 <= gain < 25 && u == xp_award(*user, r.0, gain),
{
    let now = now_timestamp();
    if message_award_fits_at_check(user, now) {
        (now, Some(award_message_xp_at(user, now)))
    } else {
        (now, None)
    }
}

/// The experience needed to pass every level below `level`.
pub open spec fn xp_below_level(level: nat) -> int
    decreases level,
{
    if level == 0 {
        0
    } else {
        xp_below_level((level - 1) as nat) + level_xp(level - 1)
    }
}

/// All experience ever gathered by a member at `level` with `xp` towards the
/// next level.
pub open spec fn total_xp(level: int, xp: int) -> int {
    xp_below_level(level as nat) + xp
}

/// The level and experience after `u` is applied to `user`.
pub open spec fn applied(user: DBUser, u: XpUpdate) -> (int, int) {
    match u {
        XpUpdate::Unchanged => (user.level as int, user.xp as int),
        XpUpdate::Xp { xp } => (user.level as int, xp as int),
        XpUpdate::LevelUp { level, xp } => (level as int, xp as int),
    }
}

/// A sound record: a non-negative level and experience that does not exceed
/// what the level needs.
pub open spec fn progress_valid(level: int, xp: int) -> bool {
    &&& 0 <= level
    &&& 0 <= xp <= level_xp(level)
}

/// An award adds exactly the gain to the member's total experience when the
/// cooldown has passed, and nothing otherwise: levelling up never loses or
/// creates experience.
pub proof fn lemma_award_conserves_total_xp(user: DBUser, now: i64, gain: i32)
    requires
        0 <= user.level,
        xp_award_fits(user, now, gain),
    ensures
        total_xp(applied(user, xp_award(user, now, gain)).0, applied(user, xp_award(user, now, gain)).1)
            == total_xp(user.level as int, user.xp as int) + (if cooldown_passed(user.last_xp, now) {
            gain as int
        } else {
            0
        }),
{
    let u = xp_award(user, now, gain);
    if let XpUpdate::LevelUp { level, xp } = u {
        assert(xp_below_level((user.level + 1) as nat) == xp_below_level(user.level as nat)
            + level_xp(user.level as int));
    }
}

/// Experience is awarded exactly when more than 59 seconds passed since the
/// last award.
pub proof fn lemma_award_only_after_cooldown(user: DBUser, now: i64, gain: i32)
    ensures
        (xp_award(user, now, gain) == XpUpdate::Unchanged) <==> !cooldown_passed(user.last_xp, now),
{
}

/// A message award keeps a sound record sound.
pub proof fn lemma_award_keeps_progress_valid(user: DBUser, now: i64, gain: i32)
    requires
        progress_valid(user.level as int, user.xp as int),
        15 <= gain < 25,
        xp_award_fits(user, now, gain),
    ensures
        progress_valid(applied(user, xp_award(user, now, gain)).0, applied(user, xp_award(user, now, gain)).1),
{
    let l = user.level as int;
    assert(level_xp(l) >= 100) by (nonlinear_arith)
        requires
            l >= 0,
    ;
    assert(level_xp(l + 1) == level_xp(l) + 10 * l + 55) by (nonlinear_arith);
}

// ---------------------------------------------------------------------------
// Roles
// ---------------------------------------------------------------------------

/// What std's `str::to_lowercase` gives for `s` (full Unicode lowercase
/// mapping).
pub uninterp spec fn lowercase(s: Seq<char>) -> Seq<char>;

/// std's `str::to_lowercase`.
#[verifier::external_body]
fn to_lowercase(s: &str) -> (r: String)
    ensures
        r@ == lowercase(s@),
{
    s.to_lowercase()
}

/// Whether one of the (already lowercased) role names is `tester`.
pub fn contains_tester(lowercase_names: &Vec<String>) -> (r: bool)
    ensures
        r == exists|i: int| 0 <= i < lowercase_names@.len() && #[trigger] lowercase_names@[i]@ == "tester"@,
{
    let mut i: usize = 0;
    while i < lowercase_names.len()
        invariant
            i <= lowercase_names.len(),
            forall|j: int| 0 <= j < i ==> #[trigger] lowercase_names@[j]@ != "tester"@,
        decreases lowercase_names.len() - i,
    {
        if str_eq(lowercase_names[i].as_str(), "tester") {
            return true;
        }
        i = i + 1;
    }
    false
}

/// Whether a member with these role names has the tester role: one of the
/// names is `tester` in any letter case.
pub fn has_tester_role(role_names: &Vec<String>) -> (r: bool)
    ensures
        r == exists|i: int| 0 <= i < role_names@.len() && lowercase(#[trigger] role_names@[i]@) == "tester"@,
{
    let mut lowered: Vec<String> = Vec::new();
    let mut i: usize = 0;
    while i < role_names.len()
        invariant
            i <= role_names.len(),
            lowered@.len() == i,
            forall|j: int| 0 <= j < i ==> #[trigger] lowered@[j]@ == lowercase(role_names@[j]@),
        decreases role_names.len() - i,
    {
        lowered.push(to_lowercase(role_names[i].as_str()));
        i = i + 1;
    }
    let r = contains_tester(&lowered);
    proof {
        if r {
            let k = choose|k: int| 0 <= k < lowered@.len() && #[trigger] lowered@[k]@ == "tester"@;
            assert(lowercase(role_names@[k]@) == "tester"@);
        } else {
            assert forall|k: int| 0 <= k < role_names@.len() implies lowercase(
                #[trigger] role_names@[k]@,
            ) != "tester"@ by {
                assert(lowered@[k]@ == lowercase(role_names@[k]@));
            }
        }
    }
    r
}

// ---------------------------------------------------------------------------
// The member a rank command is about
// ---------------------------------------------------------------------------

/// Whether serenity's `UserId::from_str` panics on `s`: a string that starts
/// with `<@` and has at least three characters is sliced up to its last byte,
/// which must then end a character.
pub open spec fn user_id_parse_panics(s: Seq<char>) -> bool {
    &&& s.len() >= 3
    &&& s[0] == '<'
    &&& s[1] == '@'
    &&& (s.last() as u32) >= 128
}

/// The id in a user mention `<@id>` or `<@!id>`, if it is one.
pub open spec fn mention_id(s: Seq<char>) -> Option<u64> {
    if s.len() >= 4 && s[0] == '<' && s[1] == '@' && s[2] == '!' {
        parse_u64_spec(s.subrange(3, s.len() - 1))
    } else if s.len() >= 4 && s[0] == '<' && s[1] == '@' {
        parse_u64_spec(s.subrange(2, s.len() - 1))
    } else {
        None
    }
}

/// What serenity's `UserId::from_str` gives: the id of a mention, else the
/// whole string read as a `u64`.
pub open spec fn user_id_of(s: Seq<char>) -> Option<u64> {
    match mention_id(s) {
        Some(id) => Some(id),
        None => parse_u64_spec(s),
    }
}

/// serenity's `UserId::from_str` (through `utils::parse_username`): a mention
/// `<@id>` or `<@!id>` gives its id (the text between the prefix and the last
/// character, read as a `u64`); otherwise the whole string is read as a
/// `u64`; an `Err` becomes `None`.
#[verifier::external_body]
fn user_id_from_str(s: &str) -> (r: Option<u64>)
    requires
        !user_id_parse_panics(s@),
    ensures
        r == user_id_of(s@),
{
    s.parse::<serenity::model::id::UserId>().ok().map(|id| id.0)
}

/// Reads a user id or mention as serenity's `UserId::from_str` does; `None`
/// where it fails, and where serenity would panic (a text starting `<@`
/// whose last character takes more than one byte).
pub fn parse_user_id(s: &str) -> (r: Option<u64>)
    ensures
        user_id_parse_panics(s@) ==> r is None,
        !user_id_parse_panics(s@) ==> r == user_id_of(s@),
{
    let v = str_chars(s);
    if v.len() >= 3 && v[0] == '<' && v[1] == '@' && (v[v.len() - 1] as u32) >= 128 {
        return None;
    }
    user_id_from_str(s)
}

/// Whom a rank command is about.
#[derive(Debug, PartialEq, Eq, Structural)]
pub enum RankTarget {
    /// The member with this id.
    User(u64),
    /// The single argument is not a user id or mention.
    Unparsable,
    /// Too many arguments: the usage is to be shown.
    Usage,
}

/// Whom `rank` with `args`, sent by `author`, is about.
pub open spec fn rank_target_spec(args: Seq<Seq<char>>, author: u64) -> RankTarget {
    if args.len() == 0 {
        RankTarget::User(author)
    } else if args.len() == 1 {
        if user_id_parse_panics(args[0]) {
            RankTarget::Unparsable
        } else {
            match user_id_of(args[0]) {
                Some(id) => RankTarget::User(id),
                None => RankTarget::Unparsable,
            }
        }
    } else {
        RankTarget::Usage
    }
}

/// Whom a rank command is about: the author when there is no argument; the
/// user that a single argument names (a mention or an id); with more
/// arguments, nobody, and the usage is shown.
pub fn rank_target(args: &Args, author: u64) -> (t: RankTarget)
    ensures
        t == rank_target_spec(args@, author),
        args@.len() == 0 ==> t == RankTarget::User(author),
        args@.len() >= 2 ==> t == RankTarget::Usage,
        args@.len() == 1 ==> (t matches RankTarget::User(id) ==> !user_id_parse_panics(args@[0]) && user_id_of(args@[0]) == Some(id)),
        args@.len() == 1 ==> (t is Unparsable <==> user_id_parse_panics(args@[0]) || user_id_of(args@[0]) is None),
        args@.len() == 1 ==> !(t is Usage),
{
    if args.is_empty() {
        RankTarget::User(author)
    } else if args.len() == 1 {
        let arg = match args.current() {
            Some(a) => a,
            None => {
                return RankTarget::Unparsable;
            },
        };
        match parse_user_id(arg) {
            Some(id) => RankTarget::User(id),
            None => RankTarget::Unparsable,
        }
    } else {
        RankTarget::Usage
    }
}

// ---------------------------------------------------------------------------
// Replies of the rank and leaderboard commands
// ---------------------------------------------------------------------------

/// The error shown for a guild command used outside a guild.
pub const WRONG_PLACE_MESSAGE: &'static str = "Sorry, you can't use that command here";

/// The error shown for a command aimed at a bot.
pub const BOT_TARGET_MESSAGE: &'static str = "Sorry, you can't use this command on a bot";

/// The title of a usage reply.
pub const INVALID_ARGUMENTS: &'static str = "Invalid arguments";

/// The usage shown by the rank and leaderboard commands.
pub const RANK_USAGE: &'static str = "rank [user]";

/// What the bot learnt of the member a command is about.
pub struct MemberFacts {
    pub is_bot: bool,
    pub role_names: Vec<String>,
}

/// How a rank or leaderboard command is answered.
#[derive(Debug, PartialEq, Eq, Structural)]
pub enum MemberReply {
    /// Used outside a guild: `WRONG_PLACE_MESSAGE`.
    WrongPlace,
    /// The argument names no user.
    Unparsable,
    /// No such member: the usage is shown.
    Usage,
    /// The member is a bot: `BOT_TARGET_MESSAGE`.
    BotTarget,
    /// The member takes no part in levelling: no answer.
    Silent,
    /// The card is drawn and sent.
    Proceed,
}

/// How a leaderboard command is answered, from whether it came from a guild
/// and what was found of the member.
pub open spec fn member_reply_spec(in_guild: bool, member: Option<MemberFacts>) -> MemberReply {
    if !in_guild {
        MemberReply::WrongPlace
    } else {
        match member {
            None => MemberReply::Usage,
            Some(m) => if m.is_bot {
                MemberReply::BotTarget
            } else if exists|i: int| 0 <= i < m.role_names@.len() && lowercase(#[trigger] m.role_names@[i]@) == "tester"@ {
                MemberReply::Proceed
            } else {
                MemberReply::Silent
            },
        }
    }
}

/// How a leaderboard command is answered: outside a guild, with the error;
/// when the member is not found, with the usage; for a bot, with the bot
/// error; for a member without the tester role, not at all; else with the
/// card.
pub fn member_reply(in_guild: bool, member: Option<&MemberFacts>) -> (r: MemberReply)
    ensures
        r == member_reply_spec(in_guild, match member {
            Some(m) => Some(*m),
            None => None,
        }),
        !in_guild ==> r == MemberReply::WrongPlace,
        in_guild && member is None ==> r == MemberReply::Usage,
        in_guild && (member matches Some(m) && m.is_bot) ==> r == MemberReply::BotTarget,
        in_guild && (member matches Some(m) && !m.is_bot) ==> (r == MemberReply::Proceed || r == MemberReply::Silent),
        member is Some && in_guild && !member->0.is_bot ==> (r == MemberReply::Proceed <==> exists|i: int|
            0 <= i < member->0.role_names@.len() && lowercase(#[trigger] member->0.role_names@[i]@) == "tester"@),
{
    if !in_guild {
        MemberReply::WrongPlace
    } else {
        match member {
            None => MemberReply::Usage,
            Some(m) => if m.is_bot {
                MemberReply::BotTarget
            } else if has_tester_role(&m.role_names) {
                MemberReply::Proceed
            } else {
                MemberReply::Silent
            },
        }
    }
}

/// How a rank command is answered: outside a guild, with the error; then by
/// its target: an unparsable argument, the usage for too many arguments,
/// else as `member_reply` for the member found.
pub fn rank_reply(in_guild: bool, target: &RankTarget, member: Option<&MemberFacts>) -> (r: MemberReply)
    ensures
        r == (if !in_guild {
            MemberReply::WrongPlace
        } else {
            match *target {
                RankTarget::Unparsable => MemberReply::Unparsable,
                RankTarget::Usage => MemberReply::Usage,
                RankTarget::User(_) => member_reply_spec(true, match member {
                    Some(m) => Some(*m),
                    None => None,
                }),
            }
        }),
        !in_guild ==> r == MemberReply::WrongPlace,
        in_guild && *target == RankTarget::Unparsable ==> r == MemberReply::Unparsable,
        in_guild && *target == RankTarget::Usage ==> r == MemberReply::Usage,
        in_guild && target is User && member is None ==> r == MemberReply::Usage,
        in_guild && target is User && (member matches Some(m) && m.is_bot) ==> r == MemberReply::BotTarget,
        member is Some && in_guild && target is User && !member->0.is_bot ==> (r == MemberReply::Proceed
            <==> exists|i: int| 0 <= i < member->0.role_names@.len() && lowercase(#[trigger] member->0.role_names@[i]@) == "tester"@),
        in_guild && target is User && (member matches Some(m) && !m.is_bot) ==> (r == MemberReply::Proceed
            || r == MemberReply::Silent),
{
    if !in_guild {
        return MemberReply::WrongPlace;
    }
    proof {
        if let Some(m) = member {
            lemma_member_reply_kinds(*m);
        }
    }
    match target {
        RankTarget::Unparsable => MemberReply::Unparsable,
        RankTarget::Usage => MemberReply::Usage,
        RankTarget::User(_) => member_reply(true, member),
    }
}

/// Whether a message earns experience: it is not from a bot, it was sent in
/// a guild, and its author was found to have the tester role (`has_role` is
/// `None` when the role or the author's roles could not be looked up).
pub fn awards_xp(author_is_bot: bool, in_guild: bool, has_role: Option<bool>) -> (r: bool)
    ensures
        r == (!author_is_bot && in_guild && has_role == Some(true)),
{
    !author_is_bot && in_guild && match has_role {
        Some(b) => b,
        None => false,
    }
}

/// What `member_reply_spec` gives a member found in a guild: the bot error
/// for any bot, whatever its roles; otherwise the card for a tester and no
/// answer for anyone else.
pub proof fn lemma_member_reply_kinds(m: MemberFacts)
    ensures
        m.is_bot ==> member_reply_spec(true, Some(m)) == MemberReply::BotTarget,
        !m.is_bot ==> (member_reply_spec(true, Some(m)) == MemberReply::Proceed <==> exists|i: int|
            0 <= i < m.role_names@.len() && lowercase(#[trigger] m.role_names@[i]@) == "tester"@),
        !m.is_bot ==> (member_reply_spec(true, Some(m)) == MemberReply::Proceed || member_reply_spec(
            true,
            Some(m),
        ) == MemberReply::Silent),
{
}

/// Outside a guild a command gets the wrong-place error; in a guild, a
/// missing member gets the usage.
pub proof fn lemma_member_reply_place(member: Option<MemberFacts>)
    ensures
        member_reply_spec(false, member) == MemberReply::WrongPlace,
        member_reply_spec(true, None) == MemberReply::Usage,
{
}

/// A rank command with two or more arguments shows the usage; without any,
/// it is about its author; with one, it is about the user that argument
/// names, or unparsable.
pub proof fn lemma_rank_target_by_arity(args: Seq<Seq<char>>, author: u64)
    ensures
        args.len() >= 2 ==> rank_target_spec(args, author) == RankTarget::Usage,
        args.len() == 0 ==> rank_target_spec(args, author) == RankTarget::User(author),
        args.len() == 1 ==> (rank_target_spec(args, author) matches RankTarget::User(id)
            ==> user_id_of(args[0]) == Some(id)),
        args.len() == 1 ==> !(rank_target_spec(args, author) is Usage),
{
}

/// An award made once the cooldown has passed adds the gain: without a
/// level-up the new experience is the old plus the gain; with one, the level
/// goes up by one and the experience is the sum minus the level's
/// requirement. Within the cooldown nothing changes.
pub proof fn lemma_award_adds_gain(user: DBUser, now: i64, gain: i32)
    ensures
        now - user.last_xp <= 59 ==> xp_award(user, now, gain) == XpUpdate::Unchanged,
        now - user.last_xp > 59 && user.xp + gain <= 5 * user.level * user.level + 50 * user.level + 100
            ==> xp_award(user, now, gain) == (XpUpdate::Xp { xp: (user.xp + gain) as i32 }),
        now - user.last_xp > 59 && user.xp + gain > 5 * user.level * user.level + 50 * user.level + 100
            ==> xp_award(user, now, gain) == (XpUpdate::LevelUp {
            level: (user.level + 1) as i32,
            xp: (user.xp + gain - (5 * user.level * user.level + 50 * user.level + 100)) as i32,
        }),
{
}

} // verus!
