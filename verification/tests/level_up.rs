use zotty::ranks::level_up::{level_up_enabled, level_up_message, DEFAULT_LEVEL_UP_MESSAGE};

#[test]
fn default_message_mentions_the_member_and_level() {
    assert_eq!(
        level_up_message(None, DEFAULT_LEVEL_UP_MESSAGE, 123456789, 5),
        "GG <@123456789>, you just advanced to level 5"
    );
}

#[test]
fn configured_message_wins_over_the_default() {
    assert_eq!(
        level_up_message(Some("%player% is now %level%! (%level%)"), DEFAULT_LEVEL_UP_MESSAGE, 7, 12),
        "<@7> is now 12! (12)"
    );
    assert_eq!(level_up_message(Some("plain text"), DEFAULT_LEVEL_UP_MESSAGE, 7, 12), "plain text");
}

#[test]
fn level_up_messages_are_sent_only_when_set_to_true() {
    assert!(level_up_enabled(Some("true")));
    assert!(!level_up_enabled(Some("True")));
    assert!(!level_up_enabled(Some("false")));
    assert!(!level_up_enabled(None));
}
