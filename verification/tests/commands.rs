use zotty::commands::{parse_command, Args, CommandName};

#[test]
fn parse_splits_on_runs_of_whitespace() {
    let args = Args::parse("rank  <@123>\t x\n");
    assert_eq!(args.len(), 3);
    assert_eq!(args.current(), Some("rank"));
    assert!(!args.is_empty());
}

#[test]
fn parse_of_blank_text_has_no_words() {
    let args = Args::parse(" \t\r\n ");
    assert_eq!(args.len(), 0);
    assert!(args.is_empty());
    assert_eq!(args.current(), None);
    assert!(Args::parse("").is_empty());
}

#[test]
fn parse_splits_on_unicode_whitespace() {
    let args = Args::parse("a\u{3000}b\u{a0}c\u{2003}d");
    assert_eq!(args.len(), 4);
    assert_eq!(args.current(), Some("a"));
}

#[test]
fn parse_keeps_non_whitespace_symbols_together() {
    let args = Args::parse("   héllo,wörld!  ");
    assert_eq!(args.len(), 1);
    assert_eq!(args.current(), Some("héllo,wörld!"));
}

#[test]
fn parse_of_joined_words_gives_the_words_back() {
    let words = ["leaderboard", "2", "<@!42>"];
    let joined = words.join(" ");
    let args = Args::parse(&joined);
    assert_eq!(args.len(), 3);
    assert_eq!(args.current(), Some("leaderboard"));
    assert_eq!(Args::parse("2").current(), Some("2"));
}

#[test]
fn parse_matches_split_whitespace() {
    for text in ["", "a", " a b  c ", "x\u{85}y\u{2028}z", "tab\tsep\u{0b}v\u{0c}f"] {
        let args = Args::parse(text);
        let expected: Vec<&str> = text.split_whitespace().collect();
        assert_eq!(args.len(), expected.len());
        assert_eq!(args.current(), expected.first().copied());
    }
}

#[test]
fn commands_are_read_after_the_prefix() {
    let c = parse_command("!rank <@12>  extra", "!").unwrap();
    assert_eq!(c.name, CommandName::Rank);
    assert_eq!(c.args.len(), 2);
    assert_eq!(c.args.current(), Some("<@12>"));
    let c = parse_command("z.help", "z.").unwrap();
    assert_eq!(c.name, CommandName::Help);
    assert!(c.args.is_empty());
    assert_eq!(parse_command("!leaderboard\t3", "!").unwrap().name, CommandName::Leaderboard);
    assert_eq!(parse_command("!config get x", "!").unwrap().name, CommandName::Config);
}

#[test]
fn other_messages_are_no_commands() {
    assert!(parse_command("hello !rank", "!").is_none());
    assert!(parse_command("! rank", "!").is_none());
    assert!(parse_command("!ranking", "!").is_none());
    assert!(parse_command("!Rank", "!").is_none());
    assert!(parse_command("!", "!").is_none());
    assert!(parse_command("", "!").is_none());
    assert!(parse_command("?rank", "!").is_none());
}
