//! Command arguments: the words of a message after the command name.

use vstd::prelude::*;

use crate::text::{chars_eq, chars_to_string, str_chars};

verus! {

/// Whether `c` has the Unicode `White_Space` property (what
/// `char::is_whitespace` tests).
pub open spec fn is_white_space(c: char) -> bool {
    ||| ('\t' <= c && c <= '\r')
    ||| c == ' '
    ||| c == '\u{85}'
    ||| c == '\u{a0}'
    ||| c == '\u{1680}'
    ||| ('\u{2000}' <= c && c <= '\u{200a}')
    ||| c == '\u{2028}'
    ||| c == '\u{2029}'
    ||| c == '\u{202f}'
    ||| c == '\u{205f}'
    ||| c == '\u{3000}'
}

/// Tests the Unicode `White_Space` property.
pub fn is_whitespace(c: char) -> (r: bool)
    ensures
        r == is_white_space(c),
{
    ('\t' <= c && c <= '\r') || c == ' ' || c == '\u{85}' || c == '\u{a0}' || c == '\u{1680}' || (
    '\u{2000}' <= c && c <= '\u{200a}') || c == '\u{2028}' || c == '\u{2029}' || c == '\u{202f}'
        || c == '\u{205f}' || c == '\u{3000}'
}

/// The length of the run of non-whitespace characters that starts `s`.
pub open spec fn word_len(s: Seq<char>) -> nat
    decreases s.len(),
{
    if s.len() == 0 || is_white_space(s[0]) {
        0
    } else {
        1 + word_len(s.drop_first())
    }
}

/// The first word is no longer than the text, and not empty when the text
/// starts with a non-whitespace character.
pub proof fn lemma_word_len_bound(s: Seq<char>)
    ensures
        word_len(s) <= s.len(),
        s.len() > 0 && !is_white_space(s[0]) ==> word_len(s) >= 1,
    decreases s.len(),
{
    if s.len() > 0 && !is_white_space(s[0]) {
        lemma_word_len_bound(s.drop_first());
    }
}

/// The words of `s`: its maximal runs of non-whitespace characters, in
/// order (what `str::split_whitespace` yields).
pub open spec fn split_whitespace(s: Seq<char>) -> Seq<Seq<char>>
    decreases s.len(),
{
    if s.len() == 0 {
        seq![]
    } else if is_white_space(s[0]) {
        split_whitespace(s.drop_first())
    } else {
        proof {
            lemma_word_len_bound(s);
        }
        seq![s.take(word_len(s) as int)] + split_whitespace(s.skip(word_len(s) as int))
    }
}

/// A run of `m` non-whitespace characters that ends `t` or is followed by
/// whitespace is the first word of `t`.
pub proof fn lemma_word_len(t: Seq<char>, m: int)
    requires
        0 <= m <= t.len(),
        forall|k: int| 0 <= k < m ==> !is_white_space(#[trigger] t[k]),
        m == t.len() || is_white_space(t[m]),
    ensures
        word_len(t) == m,
    decreases m,
{
    if m > 0 {
        assert forall|k: int| 0 <= k < m - 1 implies !is_white_space(
            #[trigger] t.drop_first()[k],
        ) by {
            assert(t.drop_first()[k] == t[k + 1]);
        }
        if m < t.len() {
            assert(t.drop_first()[m - 1] == t[m]);
        }
        lemma_word_len(t.drop_first(), m - 1);
    }
}

/// Whether `w` can be a word: non-empty, with no whitespace.
pub open spec fn is_word(w: Seq<char>) -> bool {
    &&& w.len() > 0
    &&& forall|k: int| 0 <= k < w.len() ==> !is_white_space(#[trigger] w[k])
}

/// The words of a message, as typed after the command name.
pub struct Args {
    args: Vec<String>,
}

impl View for Args {
    type V = Seq<Seq<char>>;

    closed spec fn view(&self) -> Seq<Seq<char>> {
        self.args@.map_values(|a: String| a@)
    }
}

impl Args {
    /// Splits `string` into its whitespace-separated words.
    pub fn parse(string: &str) -> (a: Args)
        ensures
            a@ == split_whitespace(string@),
    {
        let v = str_chars(string);
        let mut args: Vec<String> = Vec::new();
        let mut i: usize = 0;
        assert(v@.skip(0) =~= v@);
        while i < v.len()
            invariant
                i <= v.len(),
                v@ == string@,
                args@.map_values(|a: String| a@) + split_whitespace(v@.skip(i as int))
                    == split_whitespace(v@),
            decreases v.len() - i,
        {
            let ghost rest = v@.skip(i as int);
            if is_whitespace(v[i]) {
                assert(rest.drop_first() =~= v@.skip(i + 1));
                i = i + 1;
            } else {
                let mut word: Vec<char> = Vec::new();
                let mut j: usize = i;
                while j < v.len() && !is_whitespace(v[j])
                    invariant
                        i <= j <= v.len(),
                        word@ == v@.subrange(i as int, j as int),
                        forall|k: int| i <= k < j ==> !is_white_space(#[trigger] v@[k]),
                    decreases v.len() - j,
                {
                    word.push(v[j]);
                    j = j + 1;
                    assert(word@ =~= v@.subrange(i as int, j as int));
                }
                proof {
                    let m = (j - i) as int;
                    assert forall|k: int| 0 <= k < m implies !is_white_space(#[trigger] rest[k]) by {
                        assert(rest[k] == v@[i + k]);
                    }
                    if j < v.len() {
                        assert(rest[m] == v@[j as int]);
                    }
                    lemma_word_len(rest, m);
                    assert(rest.take(m) =~= word@);
                    assert(rest.skip(m) =~= v@.skip(j as int));
                }
                let s = chars_to_string(&word);
                let ghost before = args@;
                args.push(s);
                assert(args@.map_values(|a: String| a@) =~= before.map_values(|a: String| a@).push(
                    word@,
                ));
                i = j;
            }
        }
        assert(v@.skip(i as int) =~= Seq::<char>::empty());
        assert(args@.map_values(|a: String| a@) =~= split_whitespace(v@));
        Args { args }
    }

    /// The number of words.
    pub fn len(&self) -> (n: usize)
        ensures
            n == self@.len(),
    {
        self.args.len()
    }

    /// Whether there are no words.
    pub fn is_empty(&self) -> (r: bool)
        ensures
            r == (self@.len() == 0),
    {
        self.args.len() == 0
    }

    /// The first word, if any.
    pub fn current(&self) -> (r: Option<&str>)
        ensures
            r is None <==> self@.len() == 0,
            r matches Some(w) ==> w@ == self@[0],
    {
        if self.args.len() == 0 {
            None
        } else {
            Some(self.args[0].as_str())
        }
    }
}

/// The commands the bot answers.
#[derive(Debug, PartialEq, Eq, Structural)]
pub enum CommandName {
    Help,
    Rank,
    Leaderboard,
    Config,
}

/// The command a name stands for, if any.
pub open spec fn command_name_of(name: Seq<char>) -> Option<CommandName> {
    if name == "help"@ {
        Some(CommandName::Help)
    } else if name == "rank"@ {
        Some(CommandName::Rank)
    } else if name == "leaderboard"@ {
        Some(CommandName::Leaderboard)
    } else if name == "config"@ {
        Some(CommandName::Config)
    } else {
        None
    }
}

/// Whether `s` starts with `prefix`.
pub open spec fn starts_with(s: Seq<char>, prefix: Seq<char>) -> bool {
    prefix.len() <= s.len() && s.take(prefix.len() as int) == prefix
}

/// The text after the prefix of a message that starts with it.
pub open spec fn after_prefix(content: Seq<char>, prefix: Seq<char>) -> Seq<char> {
    content.skip(prefix.len() as int)
}

/// The command name of a message: the characters after the prefix up to the
/// first whitespace.
pub open spec fn command_word(content: Seq<char>, prefix: Seq<char>) -> Seq<char> {
    after_prefix(content, prefix).take(word_len(after_prefix(content, prefix)) as int)
}

/// The arguments of a message: the words after the command name.
pub open spec fn command_args(content: Seq<char>, prefix: Seq<char>) -> Seq<Seq<char>> {
    split_whitespace(after_prefix(content, prefix).skip(word_len(after_prefix(content, prefix)) as int))
}

/// A command, with its arguments.
pub struct Command {
    pub name: CommandName,
    pub args: Args,
}

/// Reads a message as a command: it must start with the prefix, directly
/// followed by a command name (`help`, `rank`, `leaderboard` or `config`)
/// that ends at whitespace or at the end; the words after it are the
/// arguments. Any other message is no command.
pub fn parse_command(content: &str, prefix: &str) -> (r: Option<Command>)
    ensures
        r is Some <==> starts_with(content@, prefix@) && command_name_of(command_word(content@, prefix@)) is Some,
        r matches Some(c) ==> Some(c.name) == command_name_of(command_word(content@, prefix@))
            && c.args@ == command_args(content@, prefix@),
{
    let v = str_chars(content);
    let p = str_chars(prefix);
    if p.len() > v.len() {
        return None;
    }
    let mut i: usize = 0;
    while i < p.len()
        invariant
            v@ == content@,
            p@ == prefix@,
            p.len() <= v.len(),
            i <= p.len(),
            forall|j: int| 0 <= j < i ==> v@[j] == p@[j],
        decreases p.len() - i,
    {
        if v[i] != p[i] {
            assert(v@.take(p@.len() as int)[i as int] == v@[i as int]);
            assert(v@.take(p@.len() as int) != p@);
            assert(!starts_with(v@, p@));
            return None;
        }
        i = i + 1;
    }
    assert(v@.take(p@.len() as int) =~= p@);
    let ghost rest = v@.skip(p@.len() as int);
    let mut name: Vec<char> = Vec::new();
    let mut j: usize = p.len();
    while j < v.len() && !is_whitespace(v[j])
        invariant
            v@ == content@,
            p@ == prefix@,
            p.len() <= j <= v.len(),
            rest == v@.skip(p@.len() as int),
            name@ == v@.subrange(p@.len() as int, j as int),
            forall|k: int| p.len() <= k < j ==> !is_white_space(#[trigger] v@[k]),
        decreases v.len() - j,
    {
        name.push(v[j]);
        j = j + 1;
        assert(name@ =~= v@.subrange(p@.len() as int, j as int));
    }
    let ghost m = (j - p.len()) as int;
    proof {
        assert forall|k: int| 0 <= k < m implies !is_white_space(#[trigger] rest[k]) by {
            assert(rest[k] == v@[p.len() + k]);
        }
        if j < v.len() {
            assert(rest[m] == v@[j as int]);
        }
        lemma_word_len(rest, m);
        assert(rest.take(m) =~= name@);
    }
    let command = if chars_eq(&name, &str_chars("help")) {
        CommandName::Help
    } else if chars_eq(&name, &str_chars("rank")) {
        CommandName::Rank
    } else if chars_eq(&name, &str_chars("leaderboard")) {
        CommandName::Leaderboard
    } else if chars_eq(&name, &str_chars("config")) {
        CommandName::Config
    } else {
        return None;
    };
    let mut tail: Vec<char> = Vec::new();
    let mut k: usize = j;
    while k < v.len()
        invariant
            j <= k <= v.len(),
            tail@ == v@.subrange(j as int, k as int),
        decreases v.len() - k,
    {
        tail.push(v[k]);
        k = k + 1;
        assert(tail@ =~= v@.subrange(j as int, k as int));
    }
    assert(tail@ =~= rest.skip(m));
    let tail_text = chars_to_string(&tail);
    Some(Command { name: command, args: Args::parse(tail_text.as_str()) })
}

/// The four command names, and that no other text names a command.
pub proof fn lemma_command_names(name: Seq<char>)
    ensures
        command_name_of("help"@) == Some(CommandName::Help),
        command_name_of("rank"@) == Some(CommandName::Rank),
        command_name_of("leaderboard"@) == Some(CommandName::Leaderboard),
        command_name_of("config"@) == Some(CommandName::Config),
        name != "help"@ && name != "rank"@ && name != "leaderboard"@ && name != "config"@
            ==> command_name_of(name) is None,
{
    reveal_strlit("help");
    reveal_strlit("rank");
    reveal_strlit("leaderboard");
    reveal_strlit("config");
    assert("rank"@ != "help"@) by {
        assert("rank"@[0] != "help"@[0]);
    }
    assert("leaderboard"@ != "help"@ && "leaderboard"@ != "rank"@) by {
        assert("leaderboard"@.len() != "help"@.len());
    }
    assert("config"@ != "help"@ && "config"@ != "rank"@ && "config"@ != "leaderboard"@) by {
        assert("config"@.len() != "help"@.len());
        assert("config"@.len() != "leaderboard"@.len());
    }
}

/// Every word that `split_whitespace` yields is a word: non-empty and free of
/// whitespace.
pub proof fn lemma_split_whitespace_words(s: Seq<char>)
    ensures
        forall|i: int|
            0 <= i < split_whitespace(s).len() ==> is_word(#[trigger] split_whitespace(s)[i]),
    decreases s.len(),
{
    if s.len() > 0 {
        if is_white_space(s[0]) {
            lemma_split_whitespace_words(s.drop_first());
            assert(split_whitespace(s) == split_whitespace(s.drop_first()));
        } else {
            lemma_word_len_bound(s);
            let m = word_len(s) as int;
            lemma_split_whitespace_words(s.skip(m));
            lemma_word_prefix_no_whitespace(s);
            let ws = split_whitespace(s);
            assert(ws == seq![s.take(m)] + split_whitespace(s.skip(m)));
            assert(ws[0] == s.take(m));
            assert forall|k: int| 0 <= k < m implies !is_white_space(#[trigger] s.take(m)[k]) by {
                assert(s.take(m)[k] == s[k]);
            }
            assert(is_word(ws[0]));
            assert forall|i: int| 0 <= i < ws.len() implies is_word(#[trigger] ws[i]) by {
                if i > 0 {
                    assert(ws[i] == split_whitespace(s.skip(m))[i - 1]);
                }
            }
        }
    }
}

/// The first `word_len(s)` characters of `s` are not whitespace.
pub proof fn lemma_word_prefix_no_whitespace(s: Seq<char>)
    ensures
        forall|k: int| 0 <= k < word_len(s) ==> !is_white_space(#[trigger] s[k]),
    decreases s.len(),
{
    lemma_word_len_bound(s);
    if s.len() > 0 && !is_white_space(s[0]) {
        lemma_word_prefix_no_whitespace(s.drop_first());
        assert forall|k: int| 0 <= k < word_len(s) implies !is_white_space(#[trigger] s[k]) by {
            if k > 0 {
                assert(s[k] == s.drop_first()[k - 1]);
            }
        }
    }
}

/// The words joined by single spaces.
pub open spec fn join_words(ws: Seq<Seq<char>>) -> Seq<char>
    decreases ws.len(),
{
    if ws.len() == 0 {
        seq![]
    } else if ws.len() == 1 {
        ws[0]
    } else {
        ws[0] + seq![' '] + join_words(ws.drop_first())
    }
}

/// Splitting words joined by spaces gives the words back.
pub proof fn lemma_split_join(ws: Seq<Seq<char>>)
    requires
        forall|i: int| 0 <= i < ws.len() ==> is_word(#[trigger] ws[i]),
    ensures
        split_whitespace(join_words(ws)) == ws,
    decreases ws.len(),
{
    if ws.len() == 0 {
        assert(split_whitespace(join_words(ws)) =~= ws);
    } else {
        let w = ws[0];
        assert(is_word(w));
        let tail: Seq<char> = if ws.len() == 1 {
            seq![]
        } else {
            seq![' '] + join_words(ws.drop_first())
        };
        assert(join_words(ws) =~= w + tail);
        let t = w + tail;
        assert forall|k: int| 0 <= k < w.len() implies !is_white_space(#[trigger] t[k]) by {
            assert(t[k] == w[k]);
        }
        if ws.len() > 1 {
            assert(t[w.len() as int] == ' ');
        }
        lemma_word_len(t, w.len() as int);
        assert(t.take(w.len() as int) =~= w);
        assert(t.skip(w.len() as int) =~= tail);
        if ws.len() == 1 {
            assert(split_whitespace(tail) =~= Seq::<Seq<char>>::empty());
            assert(split_whitespace(t) =~= ws);
        } else {
            assert(forall|i: int|
                0 <= i < ws.drop_first().len() ==> #[trigger] ws.drop_first()[i] == ws[i + 1]);
            lemma_split_join(ws.drop_first());
            assert(tail.drop_first() =~= join_words(ws.drop_first()));
            assert(split_whitespace(tail) == split_whitespace(join_words(ws.drop_first())));
            assert(split_whitespace(t) =~= seq![w] + ws.drop_first());
            assert(seq![w] + ws.drop_first() =~= ws);
        }
    }
}

} // verus!
