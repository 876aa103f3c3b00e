use zotty::help::{error_title, get_hd_url, help_page, help_topic, icon_url, usage_description, HelpTopic};
use zotty::zotty::config::Colours;

fn colours() -> Colours {
    Colours { help: 1, moderator: 2, music: 3, commands: 4, error: 5, ranks: 6 }
}

#[test]
fn help_topics_and_their_aliases() {
    assert_eq!(help_topic(Some("mod")), HelpTopic::Moderator);
    assert_eq!(help_topic(Some("moderator")), HelpTopic::Moderator);
    assert_eq!(help_topic(Some("music")), HelpTopic::Music);
    assert_eq!(help_topic(Some("utils")), HelpTopic::Utilities);
    assert_eq!(help_topic(Some("utilities")), HelpTopic::Utilities);
    assert_eq!(help_topic(Some("Music")), HelpTopic::Main);
    assert_eq!(help_topic(None), HelpTopic::Main);
}

#[test]
fn main_help_page_lists_the_topics() {
    let page = help_page(&HelpTopic::Main, "!", &colours());
    assert_eq!(page.title, "**Help**");
    assert_eq!(page.colour, 1);
    assert_eq!(page.fields.len(), 3);
    assert_eq!(page.fields[0].name, "**Moderator**");
    assert_eq!(page.fields[0].value, "`!help moderator`");
    assert!(page.fields[0].inline);
}

#[test]
fn moderator_help_page_uses_the_prefix() {
    let page = help_page(&HelpTopic::Moderator, "z.", &colours());
    assert_eq!(page.title, "**Help Moderator**");
    assert_eq!(page.colour, 2);
    assert_eq!(page.fields.len(), 7);
    assert_eq!(page.fields[0].name, "`z.mute [user]`");
    assert_eq!(page.fields[6].value, "Sets up the discord bot. See `z.setup help` for more information");
    assert!(!page.fields[6].inline);
}

#[test]
fn music_help_page_shows_aliases() {
    let page = help_page(&HelpTopic::Music, "?", &colours());
    assert_eq!(page.colour, 3);
    assert_eq!(page.fields.len(), 9);
    assert_eq!(page.fields[0].value, "Joins the voice channel the user is in \n*aliases:* `?join`");
    assert_eq!(page.fields[5].value, "Shows which songs are in the queue \n*aliases:* `?playlist, ?q`");
    assert_eq!(page.fields[8].value, "Stops the song and disconnects from the voice channel. \nthis will clear the entire playlist");
}

#[test]
fn utilities_help_page() {
    let page = help_page(&HelpTopic::Utilities, "!", &colours());
    assert_eq!(page.title, "**Help Utilities**");
    assert_eq!(page.colour, 4);
    assert_eq!(page.fields[2].name, "`!suggest [message]`");
}

#[test]
fn error_and_usage_texts() {
    assert_eq!(error_title("Invalid arguments"), "**Invalid arguments**");
    assert_eq!(usage_description("!", "rank [user]"), "Usage: `!rank [user]`");
}

#[test]
fn icon_urls_follow_discords_cdn() {
    assert_eq!(icon_url(123, "abc"), "https://cdn.discordapp.com/icons/123/abc.webp");
    assert_eq!(icon_url(7, "a_xyz"), "https://cdn.discordapp.com/icons/7/a_xyz.gif");
    assert_eq!(icon_url(7, "ab"), "https://cdn.discordapp.com/icons/7/ab.webp");
}

#[test]
fn hd_url_drops_the_last_five_bytes() {
    assert_eq!(get_hd_url(123, Some("abc")), Some("https://cdn.discordapp.com/icons/123/abc".to_string()));
    assert_eq!(get_hd_url(7, Some("a_xyz")), Some("https://cdn.discordapp.com/icons/7/a_xy".to_string()));
    assert_eq!(get_hd_url(7, None), None);
}
