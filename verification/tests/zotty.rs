use zotty::zotty::image_utils::{background_image_path, typeface_path, BackgroundImage, FontWeight};
use zotty::zotty::options::{config_action, config_reply, ConfigAction, ConfigReply};
use zotty::zotty::web::{mutual_guilds, PartialGuild};

fn guild(id: &str) -> PartialGuild {
    PartialGuild {
        id: id.to_string(),
        name: format!("guild {}", id),
        icon: None,
        owner: false,
        permissions: "0".to_string(),
    }
}

#[test]
fn config_command_actions() {
    assert_eq!(config_action(Some("set")), ConfigAction::SetValue);
    assert_eq!(config_action(Some("get")), ConfigAction::GetValue);
    assert_eq!(config_action(Some("SET")), ConfigAction::Usage);
    assert_eq!(config_action(None), ConfigAction::Usage);
}

#[test]
fn card_asset_paths() {
    assert_eq!(background_image_path(&BackgroundImage::Rank), "rank.png");
    assert_eq!(background_image_path(&BackgroundImage::Leaderboard), "leaderboard.png");
    assert_eq!(typeface_path(&FontWeight::Light), "font-light.otf");
    assert_eq!(typeface_path(&FontWeight::Regular), "font.otf");
}

#[test]
fn dashboard_lists_guilds_shared_with_the_bot_in_order() {
    let user_guilds = vec![guild("3"), guild("1"), guild("2"), guild("1"), guild("5")];
    let bot = vec!["1".to_string(), "2".to_string(), "4".to_string(), "1".to_string()];
    let shared = mutual_guilds(user_guilds, &bot);
    let ids: Vec<&str> = shared.iter().map(|g| g.id.as_str()).collect();
    assert_eq!(ids, vec!["1", "2", "1"]);
}

#[test]
fn dashboard_lists_nothing_without_shared_guilds() {
    assert!(mutual_guilds(vec![guild("9")], &vec!["8".to_string()]).is_empty());
    assert!(mutual_guilds(vec![], &vec!["8".to_string()]).is_empty());
    assert!(mutual_guilds(vec![guild("9")], &vec![]).is_empty());
}

#[test]
fn config_replies() {
    assert_eq!(config_reply(false, false, true, true, Some("set")), ConfigReply::WrongPlace);
    assert_eq!(config_reply(true, true, true, true, Some("set")), ConfigReply::Silent);
    assert_eq!(config_reply(true, false, false, true, Some("set")), ConfigReply::Silent);
    assert_eq!(config_reply(true, false, true, false, Some("set")), ConfigReply::Silent);
    assert_eq!(config_reply(true, false, true, true, Some("set")), ConfigReply::Act(ConfigAction::SetValue));
    assert_eq!(config_reply(true, false, true, true, None), ConfigReply::Act(ConfigAction::Usage));
}
