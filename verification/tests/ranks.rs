use zotty::commands::Args;
use zotty::database::DBUser;
use zotty::ranks::{award_message_xp, awards_xp, parse_user_id, award_message_xp_at, member_reply, message_award_fits_at_check, rank_reply, MemberFacts, MemberReply, award_xp, get_level_xp, has_tester_role, rank_target, RankTarget, XpUpdate};

fn user(level: i32, xp: i32, last_xp: i64) -> DBUser {
    DBUser { user_id: "1234".to_string(), level, xp, last_xp }
}

#[test]
fn level_xp_follows_the_formula() {
    assert_eq!(get_level_xp(0), 100);
    assert_eq!(get_level_xp(1), 155);
    assert_eq!(get_level_xp(2), 220);
    assert_eq!(get_level_xp(10), 1100);
    assert_eq!(get_level_xp(-5), -25);
    assert_eq!(get_level_xp(20000), 5 * 20000 * 20000 + 50 * 20000 + 100);
}

#[test]
fn level_xp_grows_with_the_level() {
    let mut previous = get_level_xp(-5);
    for level in -4..200 {
        let next = get_level_xp(level);
        assert!(next > previous);
        previous = next;
    }
}

#[test]
fn no_award_within_a_minute() {
    let u = user(3, 50, 1_000);
    assert_eq!(award_xp(&u, 1_059, 20), XpUpdate::Unchanged);
    assert_eq!(award_xp(&u, 1_000, 20), XpUpdate::Unchanged);
    assert_eq!(award_xp(&u, 900, 20), XpUpdate::Unchanged);
}

#[test]
fn award_adds_the_gain() {
    let u = user(3, 50, 1_000);
    assert_eq!(award_xp(&u, 1_060, 20), XpUpdate::Xp { xp: 70 });
}

#[test]
fn award_reaching_exactly_the_level_xp_stays_on_the_level() {
    let u = user(0, 80, 0);
    assert_eq!(award_xp(&u, 100, 20), XpUpdate::Xp { xp: 100 });
}

#[test]
fn award_beyond_the_level_xp_levels_up_with_the_excess() {
    let u = user(0, 90, 0);
    assert_eq!(award_xp(&u, 100, 20), XpUpdate::LevelUp { level: 1, xp: 10 });
    let u = user(1, 150, 0);
    assert_eq!(award_xp(&u, 60, 24), XpUpdate::LevelUp { level: 2, xp: 19 });
}

fn xp_below(level: i32) -> i64 {
    (0..level).map(|l| get_level_xp(l) as i64).sum()
}

#[test]
fn awards_conserve_total_experience() {
    for (level, xp) in [(0, 0), (0, 99), (2, 210), (5, 3), (7, 645)] {
        for gain in 15..25 {
            let u = user(level, xp, 0);
            let before = xp_below(level) + xp as i64;
            let (l, x) = match award_xp(&u, 1_000, gain) {
                XpUpdate::Unchanged => (level, xp),
                XpUpdate::Xp { xp } => (level, xp),
                XpUpdate::LevelUp { level, xp } => (level, xp),
            };
            assert_eq!(xp_below(l) + x as i64, before + gain as i64);
            assert!(0 <= x && x <= get_level_xp(l));
        }
    }
}

#[test]
fn a_message_award_lies_in_range() {
    for _ in 0..50 {
        let u = user(4, 100, 0);
        match award_message_xp(&u).1.unwrap() {
            XpUpdate::Xp { xp } => assert!((115..125).contains(&xp)),
            other => panic!("unexpected {:?}", other),
        }
    }
    let u = user(0, 95, 0);
    match award_message_xp(&u).1.unwrap() {
        XpUpdate::LevelUp { level, xp } => {
            assert_eq!(level, 1);
            assert!((10..20).contains(&xp));
        }
        other => panic!("unexpected {:?}", other),
    }
}

#[test]
fn a_message_right_after_an_award_gives_nothing() {
    let u = user(4, 100, i64::MAX);
    assert_eq!(award_message_xp(&u).1, Some(XpUpdate::Unchanged));
}

#[test]
fn tester_role_is_found_in_any_case() {
    assert!(has_tester_role(&vec!["Member".to_string(), "TESTER".to_string()]));
    assert!(has_tester_role(&vec!["tester".to_string()]));
    assert!(has_tester_role(&vec!["TeStEr".to_string()]));
    assert!(!has_tester_role(&vec!["testers".to_string(), "test".to_string()]));
    assert!(!has_tester_role(&vec![]));
}

#[test]
fn rank_without_arguments_is_about_the_author() {
    assert_eq!(rank_target(&Args::parse(""), 77), RankTarget::User(77));
}

#[test]
fn rank_reads_mentions_and_ids() {
    assert_eq!(rank_target(&Args::parse("<@123>"), 1), RankTarget::User(123));
    assert_eq!(rank_target(&Args::parse("<@!456>"), 1), RankTarget::User(456));
    assert_eq!(rank_target(&Args::parse("789"), 1), RankTarget::User(789));
    assert_eq!(rank_target(&Args::parse("+789"), 1), RankTarget::User(789));
}

#[test]
fn rank_rejects_what_is_not_a_user() {
    assert_eq!(rank_target(&Args::parse("abc"), 1), RankTarget::Unparsable);
    assert_eq!(rank_target(&Args::parse("<@&123>"), 1), RankTarget::Unparsable);
    assert_eq!(rank_target(&Args::parse("<@>"), 1), RankTarget::Unparsable);
    assert_eq!(rank_target(&Args::parse("<@é"), 1), RankTarget::Unparsable);
    assert_eq!(rank_target(&Args::parse("<@12é"), 1), RankTarget::Unparsable);
    assert_eq!(rank_target(&Args::parse("-5"), 1), RankTarget::Unparsable);
}

#[test]
fn rank_with_two_arguments_shows_the_usage() {
    assert_eq!(rank_target(&Args::parse("<@1> <@2>"), 1), RankTarget::Usage);
}

#[test]
fn a_message_at_a_given_time_awards_after_the_cooldown() {
    let u = user(4, 100, 1_000);
    assert_eq!(award_message_xp_at(&u, 1_059), XpUpdate::Unchanged);
    match award_message_xp_at(&u, 1_060) {
        XpUpdate::Xp { xp } => assert!((115..125).contains(&xp)),
        other => panic!("unexpected {:?}", other),
    }
    let huge = user(0, i32::MAX - 10, 1_000);
    assert!(message_award_fits_at_check(&huge, 1_030));
    assert_eq!(award_message_xp_at(&huge, 1_030), XpUpdate::Unchanged);
    assert!(!message_award_fits_at_check(&huge, 2_000));
}

#[test]
fn a_message_award_that_could_overflow_is_refused() {
    let u = user(0, i32::MAX - 10, 0);
    let (now, update) = award_message_xp(&u);
    assert!(now > 59);
    assert_eq!(update, None);
}

fn facts(is_bot: bool, roles: &[&str]) -> MemberFacts {
    MemberFacts { is_bot, role_names: roles.iter().map(|r| r.to_string()).collect() }
}

#[test]
fn member_replies() {
    assert_eq!(member_reply(false, Some(&facts(false, &["tester"]))), MemberReply::WrongPlace);
    assert_eq!(member_reply(true, None), MemberReply::Usage);
    assert_eq!(member_reply(true, Some(&facts(true, &["tester"]))), MemberReply::BotTarget);
    assert_eq!(member_reply(true, Some(&facts(false, &["member"]))), MemberReply::Silent);
    assert_eq!(member_reply(true, Some(&facts(false, &["Tester"]))), MemberReply::Proceed);
}

#[test]
fn rank_replies() {
    let tester = facts(false, &["TESTER"]);
    assert_eq!(rank_reply(false, &RankTarget::Unparsable, None), MemberReply::WrongPlace);
    assert_eq!(rank_reply(true, &RankTarget::Unparsable, None), MemberReply::Unparsable);
    assert_eq!(rank_reply(true, &RankTarget::Usage, Some(&tester)), MemberReply::Usage);
    assert_eq!(rank_reply(true, &RankTarget::User(5), None), MemberReply::Usage);
    assert_eq!(rank_reply(true, &RankTarget::User(5), Some(&tester)), MemberReply::Proceed);
}

#[test]
fn user_ids_are_read_like_serenity() {
    assert_eq!(parse_user_id("123456789012345678"), Some(123456789012345678));
    assert_eq!(parse_user_id("<@42>"), Some(42));
    assert_eq!(parse_user_id("<@!42>"), Some(42));
    assert_eq!(parse_user_id("<@é"), None);
    assert_eq!(parse_user_id("x"), None);
    assert_eq!(parse_user_id(""), None);
    assert_eq!(parse_user_id("18446744073709551616"), None);
}

#[test]
fn only_tester_messages_in_guilds_earn_experience() {
    assert!(awards_xp(false, true, Some(true)));
    assert!(!awards_xp(true, true, Some(true)));
    assert!(!awards_xp(false, false, Some(true)));
    assert!(!awards_xp(false, true, Some(false)));
    assert!(!awards_xp(false, true, None));
}
