//! The help command: which page is asked for, and what each page says.

use vstd::prelude::*;
use vstd::utf8::{encode_utf8, is_char_boundary};

use crate::text::{chars_to_string, nat_digits, push_str, str_chars, str_eq, u64_to_string};
use crate::zotty::config::Colours;

verus! {

/// The pages of the help command.
#[derive(Debug, PartialEq, Eq, Structural)]
pub enum HelpTopic {
    Main,
    Moderator,
    Music,
    Utilities,
}

/// The page that the help command's first argument asks for: `mod` or
/// `moderator`, `music`, `utils` or `utilities`; anything else, or nothing,
/// gives the main page.
pub fn help_topic(arg: Option<&str>) -> (t: HelpTopic)
    ensures
        t == (match arg {
            Some(a) => if a@ == "mod"@ || a@ == "moderator"@ {
                HelpTopic::Moderator
            } else if a@ == "music"@ {
                HelpTopic::Music
            } else if a@ == "utils"@ || a@ == "utilities"@ {
                HelpTopic::Utilities
            } else {
                HelpTopic::Main
            },
            None => HelpTopic::Main,
        }),
{
    match arg {
        Some(a) => {
            if str_eq(a, "mod") || str_eq(a, "moderator") {
                HelpTopic::Moderator
            } else if str_eq(a, "music") {
                HelpTopic::Music
            } else if str_eq(a, "utils") || str_eq(a, "utilities") {
                HelpTopic::Utilities
            } else {
                HelpTopic::Main
            }
        },
        None => HelpTopic::Main,
    }
}

/// One field of a help embed.
pub struct HelpField {
    pub name: String,
    pub value: String,
    pub inline: bool,
}

/// A help embed: its title, colour and fields.
pub struct HelpPage {
    pub title: String,
    pub colour: i32,
    pub fields: Vec<HelpField>,
}

/// The text of a field: name, value, and whether it is inline.
pub open spec fn field_view(f: HelpField) -> (Seq<char>, Seq<char>, bool) {
    (f.name@, f.value@, f.inline)
}

/// A command as the help shows it: `` `{prefix}{command}` ``.
pub open spec fn command(p: Seq<char>, cmd: Seq<char>) -> Seq<char> {
    "`"@ + p + cmd + "`"@
}

/// A description that ends with the command's aliases.
pub open spec fn with_aliases(text: Seq<char>, aliases: Seq<char>) -> Seq<char> {
    text + " \n*aliases:* "@ + aliases
}

/// The title of a help page.
pub open spec fn help_title(topic: HelpTopic) -> Seq<char> {
    match topic {
        HelpTopic::Main => "**Help**"@,
        HelpTopic::Moderator => "**Help Moderator**"@,
        HelpTopic::Music => "**Help Music**"@,
        HelpTopic::Utilities => "**Help Utilities**"@,
    }
}

/// The colour of a help page.
pub open spec fn help_colour(topic: HelpTopic, colours: Colours) -> i32 {
    match topic {
        HelpTopic::Main => colours.help,
        HelpTopic::Moderator => colours.moderator,
        HelpTopic::Music => colours.music,
        HelpTopic::Utilities => colours.commands,
    }
}

/// The fields of a help page, for the command prefix `p`.
pub open spec fn help_fields(topic: HelpTopic, p: Seq<char>) -> Seq<(Seq<char>, Seq<char>, bool)> {
    match topic {
        HelpTopic::Main => seq![
            ("**Moderator**"@, command(p, "help moderator"@), true),
            ("**Music**"@, command(p, "help music"@), true),
            ("**Utilities**"@, command(p, "help utilities"@), true),
        ],
        HelpTopic::Moderator => seq![
            (command(p, "mute [user]"@), "Mutes the mentioned user"@, false),
            (command(p, "kick [user]"@), "Kicks the mentioned user"@, false),
            (command(p, "ban [user]"@), "Bans the mentioned user"@, false),
            (command(p, "unmute [user]"@), "Unmutes the mentioned user"@, false),
            (command(p, "purge [number of messages]"@), "Clears a specified amount of messages"@, false),
            (command(p, "stream [message]"@), "Sets the bot's status to streaming the specified message"@, false),
            (
                command(p, "setup [help | discord]"@),
                "Sets up the discord bot. See "@ + command(p, "setup help"@) + " for more information"@,
                false,
            ),
        ],
        HelpTopic::Music => seq![
            (command(p, "connect [user]"@), with_aliases("Joins the voice channel the user is in"@, command(p, "join"@)), false),
            (command(p, "play [name to search or url]"@), with_aliases("Plays the specified song"@, command(p, "p"@)), false),
            (command(p, "pause"@), "Pauses the current song"@, false),
            (command(p, "resume"@), "Resumes the current song"@, false),
            (command(p, "skip"@), with_aliases("Skips the current song"@, command(p, "s"@)), false),
            (
                command(p, "queue"@),
                with_aliases("Shows which songs are in the queue"@, "`"@ + p + "playlist, "@ + p + "q`"@),
                false,
            ),
            (
                command(p, "playing"@),
                with_aliases("Lists the current song"@, "`"@ + p + "current, "@ + p + "np`"@),
                false,
            ),
            (command(p, "volume [volume 1-100]"@), with_aliases("Adjusts the volume for all users"@, command(p, "vol"@)), false),
            (
                command(p, "stop"@),
                "Stops the song and disconnects from the voice channel. \nthis will clear the entire playlist"@,
                false,
            ),
        ],
        HelpTopic::Utilities => seq![
            (command(p, "say [message]"@), "Repeats what the user says"@, false),
            (command(p, "poll [message]"@), "Creates a poll"@, false),
            (command(p, "suggest [message]"@), "Suggests an idea to #server-suggestions"@, false),
        ],
    }
}

/// What each help page lists, field by field, for the prefix `p`: the main
/// page points at the three topic pages; the moderator, music and utilities
/// pages describe each command.
pub proof fn lemma_help_page_texts(p: Seq<char>)
    ensures
        help_fields(HelpTopic::Main, p).len() == 3,
        help_fields(HelpTopic::Main, p)[0] == ("**Moderator**"@, "`"@ + p + "help moderator"@ + "`"@, true),
        help_fields(HelpTopic::Main, p)[1] == ("**Music**"@, "`"@ + p + "help music"@ + "`"@, true),
        help_fields(HelpTopic::Main, p)[2] == ("**Utilities**"@, "`"@ + p + "help utilities"@ + "`"@, true),
        help_fields(HelpTopic::Moderator, p).len() == 7,
        help_fields(HelpTopic::Moderator, p)[0] == ("`"@ + p + "mute [user]"@ + "`"@, "Mutes the mentioned user"@, false),
        help_fields(HelpTopic::Moderator, p)[1] == ("`"@ + p + "kick [user]"@ + "`"@, "Kicks the mentioned user"@, false),
        help_fields(HelpTopic::Moderator, p)[2] == ("`"@ + p + "ban [user]"@ + "`"@, "Bans the mentioned user"@, false),
        help_fields(HelpTopic::Moderator, p)[3] == ("`"@ + p + "unmute [user]"@ + "`"@, "Unmutes the mentioned user"@, false),
        help_fields(HelpTopic::Moderator, p)[4] == (
            "`"@ + p + "purge [number of messages]"@ + "`"@,
            "Clears a specified amount of messages"@,
            false,
        ),
        help_fields(HelpTopic::Moderator, p)[5] == (
            "`"@ + p + "stream [message]"@ + "`"@,
            "Sets the bot's status to streaming the specified message"@,
            false,
        ),
        help_fields(HelpTopic::Moderator, p)[6] == (
            "`"@ + p + "setup [help | discord]"@ + "`"@,
            "Sets up the discord bot. See "@ + "`"@ + p + "setup help"@ + "`"@ + " for more information"@,
            false,
        ),
        help_fields(HelpTopic::Music, p).len() == 9,
        help_fields(HelpTopic::Music, p)[0] == (
            "`"@ + p + "connect [user]"@ + "`"@,
            "Joins the voice channel the user is in"@ + " \n*aliases:* "@ + "`"@ + p + "join"@ + "`"@,
            false,
        ),
        help_fields(HelpTopic::Music, p)[1] == (
            "`"@ + p + "play [name to search or url]"@ + "`"@,
            "Plays the specified song"@ + " \n*aliases:* "@ + "`"@ + p + "p"@ + "`"@,
            false,
        ),
        help_fields(HelpTopic::Music, p)[2] == ("`"@ + p + "pause"@ + "`"@, "Pauses the current song"@, false),
        help_fields(HelpTopic::Music, p)[3] == ("`"@ + p + "resume"@ + "`"@, "Resumes the current song"@, false),
        help_fields(HelpTopic::Music, p)[4] == (
            "`"@ + p + "skip"@ + "`"@,
            "Skips the current song"@ + " \n*aliases:* "@ + "`"@ + p + "s"@ + "`"@,
            false,
        ),
        help_fields(HelpTopic::Music, p)[5] == (
            "`"@ + p + "queue"@ + "`"@,
            "Shows which songs are in the queue"@ + " \n*aliases:* "@ + "`"@ + p + "playlist, "@ + p + "q`"@,
            false,
        ),
        help_fields(HelpTopic::Music, p)[6] == (
            "`"@ + p + "playing"@ + "`"@,
            "Lists the current song"@ + " \n*aliases:* "@ + "`"@ + p + "current, "@ + p + "np`"@,
            false,
        ),
        help_fields(HelpTopic::Music, p)[7] == (
            "`"@ + p + "volume [volume 1-100]"@ + "`"@,
            "Adjusts the volume for all users"@ + " \n*aliases:* "@ + "`"@ + p + "vol"@ + "`"@,
            false,
        ),
        help_fields(HelpTopic::Music, p)[8] == (
            "`"@ + p + "stop"@ + "`"@,
            "Stops the song and disconnects from the voice channel. \nthis will clear the entire playlist"@,
            false,
        ),
        help_fields(HelpTopic::Utilities, p).len() == 3,
        help_fields(HelpTopic::Utilities, p)[0] == ("`"@ + p + "say [message]"@ + "`"@, "Repeats what the user says"@, false),
        help_fields(HelpTopic::Utilities, p)[1] == ("`"@ + p + "poll [message]"@ + "`"@, "Creates a poll"@, false),
        help_fields(HelpTopic::Utilities, p)[2] == (
            "`"@ + p + "suggest [message]"@ + "`"@,
            "Suggests an idea to #server-suggestions"@,
            false,
        ),
{
}

/// The titles and colours of the help pages.
pub proof fn lemma_help_page_titles(colours: Colours)
    ensures
        help_title(HelpTopic::Main) == "**Help**"@ && help_colour(HelpTopic::Main, colours) == colours.help,
        help_title(HelpTopic::Moderator) == "**Help Moderator**"@ && help_colour(HelpTopic::Moderator, colours)
            == colours.moderator,
        help_title(HelpTopic::Music) == "**Help Music**"@ && help_colour(HelpTopic::Music, colours) == colours.music,
        help_title(HelpTopic::Utilities) == "**Help Utilities**"@ && help_colour(HelpTopic::Utilities, colours)
            == colours.commands,
{
}

/// `` `{prefix}{cmd}` ``.
fn command_text(prefix: &str, cmd: &str) -> (s: String)
    ensures
        s@ == command(prefix@, cmd@),
{
    let mut v: Vec<char> = Vec::new();
    push_str(&mut v, "`");
    push_str(&mut v, prefix);
    push_str(&mut v, cmd);
    push_str(&mut v, "`");
    chars_to_string(&v)
}

/// `text`, then the aliases.
fn aliases_text(text: &str, aliases: &str) -> (s: String)
    ensures
        s@ == with_aliases(text@, aliases@),
{
    let mut v: Vec<char> = Vec::new();
    push_str(&mut v, text);
    push_str(&mut v, " \n*aliases:* ");
    push_str(&mut v, aliases);
    chars_to_string(&v)
}

/// A field whose value is fixed text.
fn plain_field(name: String, value: &str, inline: bool) -> (f: HelpField)
    ensures
        field_view(f) == (name@, value@, inline),
{
    let mut v: Vec<char> = Vec::new();
    push_str(&mut v, value);
    HelpField { name, value: chars_to_string(&v), inline }
}

/// A command field whose description ends with one alias command.
fn alias_field(prefix: &str, cmd: &str, text: &str, alias: &str) -> (f: HelpField)
    ensures
        field_view(f) == (command(prefix@, cmd@), with_aliases(text@, command(prefix@, alias@)), false),
{
    let a = command_text(prefix, alias);
    HelpField { name: command_text(prefix, cmd), value: aliases_text(text, a.as_str()), inline: false }
}

/// A command field whose description ends with two alias commands.
fn two_alias_field(prefix: &str, cmd: &str, text: &str, first: &str, second: &str) -> (f: HelpField)
    ensures
        field_view(f) == (
            command(prefix@, cmd@),
            with_aliases(text@, "`"@ + prefix@ + first@ + prefix@ + second@),
            false,
        ),
{
    let mut v: Vec<char> = Vec::new();
    push_str(&mut v, "`");
    push_str(&mut v, prefix);
    push_str(&mut v, first);
    push_str(&mut v, prefix);
    push_str(&mut v, second);
    let a = chars_to_string(&v);
    HelpField { name: command_text(prefix, cmd), value: aliases_text(text, a.as_str()), inline: false }
}

/// An owned copy of `s`.
fn owned(s: &str) -> (r: String)
    ensures
        r@ == s@,
{
    let mut v: Vec<char> = Vec::new();
    push_str(&mut v, s);
    chars_to_string(&v)
}

/// A command field with a fixed description.
fn command_field(prefix: &str, cmd: &str, description: &str) -> (f: HelpField)
    ensures
        field_view(f) == (command(prefix@, cmd@), description@, false),
{
    plain_field(command_text(prefix, cmd), description, false)
}

/// The fields of a help page, in order.
fn fields_of(topic: &HelpTopic, prefix: &str) -> (fields: Vec<HelpField>)
    ensures
        fields@.map_values(|f: HelpField| field_view(f)) == help_fields(*topic, prefix@),
{
    let mut fields: Vec<HelpField> = Vec::new();
    match topic {
        HelpTopic::Main => {
            fields.push(HelpField { name: owned("**Moderator**"), value: command_text(prefix, "help moderator"), inline: true });
            fields.push(HelpField { name: owned("**Music**"), value: command_text(prefix, "help music"), inline: true });
            fields.push(HelpField { name: owned("**Utilities**"), value: command_text(prefix, "help utilities"), inline: true });
        },
        HelpTopic::Moderator => {
            fields.push(command_field(prefix, "mute [user]", "Mutes the mentioned user"));
            fields.push(command_field(prefix, "kick [user]", "Kicks the mentioned user"));
            fields.push(command_field(prefix, "ban [user]", "Bans the mentioned user"));
            fields.push(command_field(prefix, "unmute [user]", "Unmutes the mentioned user"));
            fields.push(command_field(prefix, "purge [number of messages]", "Clears a specified amount of messages"));
            fields.push(command_field(prefix, "stream [message]", "Sets the bot's status to streaming the specified message"));
            let mut v: Vec<char> = Vec::new();
            push_str(&mut v, "Sets up the discord bot. See ");
            let setup_help = command_text(prefix, "setup help");
            push_str(&mut v, setup_help.as_str());
            push_str(&mut v, " for more information");
            fields.push(HelpField { name: command_text(prefix, "setup [help | discord]"), value: chars_to_string(&v), inline: false });
        },
        HelpTopic::Music => {
            fields.push(alias_field(prefix, "connect [user]", "Joins the voice channel the user is in", "join"));
            fields.push(alias_field(prefix, "play [name to search or url]", "Plays the specified song", "p"));
            fields.push(command_field(prefix, "pause", "Pauses the current song"));
            fields.push(command_field(prefix, "resume", "Resumes the current song"));
            fields.push(alias_field(prefix, "skip", "Skips the current song", "s"));
            fields.push(two_alias_field(prefix, "queue", "Shows which songs are in the queue", "playlist, ", "q`"));
            fields.push(two_alias_field(prefix, "playing", "Lists the current song", "current, ", "np`"));
            fields.push(alias_field(prefix, "volume [volume 1-100]", "Adjusts the volume for all users", "vol"));
            fields.push(command_field(prefix, "stop", "Stops the song and disconnects from the voice channel. \nthis will clear the entire playlist"));
        },
        HelpTopic::Utilities => {
            fields.push(command_field(prefix, "say [message]", "Repeats what the user says"));
            fields.push(command_field(prefix, "poll [message]", "Creates a poll"));
            fields.push(command_field(prefix, "suggest [message]", "Suggests an idea to #server-suggestions"));
        },
    }
    assert(fields@.map_values(|f: HelpField| field_view(f)) =~= help_fields(*topic, prefix@));
    fields
}

/// The help page on `topic` for a bot whose command prefix is `prefix`.
pub fn help_page(topic: &HelpTopic, prefix: &str, colours: &Colours) -> (page: HelpPage)
    ensures
        page.title@ == help_title(*topic),
        page.colour == help_colour(*topic, *colours),
        page.fields@.map_values(|f: HelpField| field_view(f)) == help_fields(*topic, prefix@),
{
    let (title, colour) = match topic {
        HelpTopic::Main => (owned("**Help**"), colours.help),
        HelpTopic::Moderator => (owned("**Help Moderator**"), colours.moderator),
        HelpTopic::Music => (owned("**Help Music**"), colours.music),
        HelpTopic::Utilities => (owned("**Help Utilities**"), colours.commands),
    };
    HelpPage { title, colour, fields: fields_of(topic, prefix) }
}

/// The title of an error embed: the error in bold, `**{error}**`.
pub fn error_title(error: &str) -> (s: String)
    ensures
        s@ == "**"@ + error@ + "**"@,
{
    let mut v: Vec<char> = Vec::new();
    push_str(&mut v, "**");
    push_str(&mut v, error);
    push_str(&mut v, "**");
    chars_to_string(&v)
}

/// The description of a usage embed: ``Usage: `{prefix}{usage}` ``.
pub fn usage_description(prefix: &str, usage: &str) -> (s: String)
    ensures
        s@ == "Usage: "@ + command(prefix@, usage@),
{
    let mut v: Vec<char> = Vec::new();
    push_str(&mut v, "Usage: `");
    push_str(&mut v, prefix);
    push_str(&mut v, usage);
    push_str(&mut v, "`");
    proof {
        reveal_strlit("Usage: `");
        reveal_strlit("Usage: ");
        reveal_strlit("`");
        assert("Usage: `"@ =~= "Usage: "@ + "`"@);
    }
    assert(v@ =~= "Usage: "@ + command(prefix@, usage@));
    chars_to_string(&v)
}

/// std's `String::truncate`, which shortens the string to its first
/// `new_len` bytes (its documentation: panics unless `new_len` lies on a
/// character boundary).
#[verifier::external_body]
fn truncate(s: &mut String, new_len: usize)
    requires
        new_len <= encode_utf8(old(s)@).len(),
        is_char_boundary(encode_utf8(old(s)@), new_len as int),
    ensures
        encode_utf8(final(s)@) == encode_utf8(old(s)@).take(new_len as int),
{
    s.truncate(new_len)
}

/// The extension of a guild icon: `.gif` for an animated icon (its hash
/// starts with `a_`), `.webp` otherwise.
pub open spec fn icon_extension(icon: Seq<char>) -> Seq<char> {
    if icon.len() >= 2 && icon[0] == 'a' && icon[1] == '_' {
        ".gif"@
    } else {
        ".webp"@
    }
}

/// The URL of a guild's icon on Discord's CDN, from the guild's id and the
/// icon's hash (serenity's `Guild::icon_url`).
pub open spec fn guild_icon_url(id: u64, icon: Seq<char>) -> Seq<char> {
    "https://cdn.discordapp.com/icons/"@ + nat_digits(id as nat) + "/"@ + icon + icon_extension(icon)
}

/// The URL of a guild's icon, as serenity's `Guild::icon_url` writes it.
pub fn icon_url(guild_id: u64, icon: &str) -> (url: String)
    ensures
        url@ == guild_icon_url(guild_id, icon@),
{
    let mut v: Vec<char> = Vec::new();
    push_str(&mut v, "https://cdn.discordapp.com/icons/");
    let id = u64_to_string(guild_id);
    push_str(&mut v, id.as_str());
    push_str(&mut v, "/");
    push_str(&mut v, icon);
    let chars = str_chars(icon);
    if chars.len() >= 2 && chars[0] == 'a' && chars[1] == '_' {
        push_str(&mut v, ".gif");
    } else {
        push_str(&mut v, ".webp");
    }
    assert(v@ =~= guild_icon_url(guild_id, icon@));
    chars_to_string(&v)
}

/// Whether an icon URL can lose its last five bytes: it has them, and they
/// start a character.
pub open spec fn extension_removable(url: Seq<char>) -> bool {
    &&& encode_utf8(url).len() >= 5
    &&& is_char_boundary(encode_utf8(url), encode_utf8(url).len() - 5)
}

/// The high-resolution URL of a guild's icon: the icon URL of the guild with
/// the id and icon hash given, without its last five bytes (for a `.webp`
/// icon, its extension), so that Discord serves the full image.
pub fn get_hd_url(guild_id: u64, icon: Option<&str>) -> (r: Option<String>)
    requires
        icon matches Some(h) ==> extension_removable(guild_icon_url(guild_id, h@)) && encode_utf8(
            guild_icon_url(guild_id, h@),
        ).len() <= usize::MAX,
    ensures
        r is Some <==> icon is Some,
        r matches Some(u) ==> encode_utf8(u@) == encode_utf8(guild_icon_url(guild_id, icon->0@)).take(
            encode_utf8(guild_icon_url(guild_id, icon->0@)).len() - 5,
        ),
{
    match icon {
        Some(h) => {
            let mut u = icon_url(guild_id, h);
            let n = u.as_str().len();
            truncate(&mut u, n - 5);
            Some(u)
        },
        None => None,
    }
}

} // verus!
