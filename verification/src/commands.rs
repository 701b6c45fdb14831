//! The command grammar of inbound messages.
//!
//! A message is a command when it starts with `!`, followed by a word (letters,
//! digits or underscores), and, for the argument-bearing commands, by at least
//! one whitespace character and a remainder that runs to the end of the
//! message.  When the whitespace run swallows the whole tail, its last
//! character is given up again and becomes the remainder, so a marker followed
//! by two or more blanks still parses.  The `undo` marker needs no argument and
//! tolerates one.  Anything else is no command at all: the caller treats the
//! whole message as free-form chat, and parsing never fails.

use vstd::prelude::*;

verus! {

/// A recognised command, holding its raw argument where one is taken.
#[derive(Debug)]
pub enum Command {
    Chat(String),
    Ask(String),
    Define(String),
    Cases(String),
    Example(String),
    Undo,
}

/// The ghost image of a `Command`, over character sequences.
pub enum CommandView {
    Chat(Seq<char>),
    Ask(Seq<char>),
    Define(Seq<char>),
    Cases(Seq<char>),
    Example(Seq<char>),
    Undo,
}

impl View for Command {
    type V = CommandView;

    open spec fn view(&self) -> CommandView {
        match self {
            Command::Chat(a) => CommandView::Chat(a@),
            Command::Ask(a) => CommandView::Ask(a@),
            Command::Define(a) => CommandView::Define(a@),
            Command::Cases(a) => CommandView::Cases(a@),
            Command::Example(a) => CommandView::Example(a@),
            Command::Undo => CommandView::Undo,
        }
    }
}

impl DeepView for Command {
    type V = CommandView;

    open spec fn deep_view(&self) -> CommandView {
        self@
    }
}

impl PartialEq for Command {
    fn eq(&self, other: &Command) -> (r: bool) {
        match (self, other) {
            (Command::Chat(a), Command::Chat(b)) => str_eq(a.as_str(), b.as_str()),
            (Command::Ask(a), Command::Ask(b)) => str_eq(a.as_str(), b.as_str()),
            (Command::Define(a), Command::Define(b)) => str_eq(a.as_str(), b.as_str()),
            (Command::Cases(a), Command::Cases(b)) => str_eq(a.as_str(), b.as_str()),
            (Command::Example(a), Command::Example(b)) => str_eq(a.as_str(), b.as_str()),
            (Command::Undo, Command::Undo) => true,
            _ => false,
        }
    }
}

impl Eq for Command {}

impl vstd::std_specs::cmp::PartialEqSpecImpl for Command {
    open spec fn obeys_eq_spec() -> bool {
        true
    }

    open spec fn eq_spec(&self, other: &Command) -> bool {
        match (self, other) {
            (Command::Chat(a), Command::Chat(b)) => a@ == b@,
            (Command::Ask(a), Command::Ask(b)) => a@ == b@,
            (Command::Define(a), Command::Define(b)) => a@ == b@,
            (Command::Cases(a), Command::Cases(b)) => a@ == b@,
            (Command::Example(a), Command::Example(b)) => a@ == b@,
            (Command::Undo, Command::Undo) => true,
            _ => false,
        }
    }
}

/// A word character: what may stand in a command's marker word.
pub open spec fn is_word_char(c: char) -> bool {
    ||| c == '_'
    ||| 'a' <= c && c <= 'z'
    ||| 'A' <= c && c <= 'Z'
    ||| '0' <= c && c <= '9'
}

/// A whitespace character, as the grammar counts whitespace.
pub open spec fn is_space_char(c: char) -> bool {
    c == ' ' || c == '\t' || c == '\n' || c == '\r' || c == '\x0b' || c == '\x0c'
}

/// Where the run of word characters that starts at `i` ends.
pub open spec fn word_run_end(s: Seq<char>, i: int) -> int
    decreases s.len() - i,
{
    if 0 <= i && i < s.len() && is_word_char(s[i]) {
        word_run_end(s, i + 1)
    } else {
        i
    }
}

/// Where the run of whitespace characters that starts at `i` ends.
pub open spec fn space_run_end(s: Seq<char>, i: int) -> int
    decreases s.len() - i,
{
    if 0 <= i && i < s.len() && is_space_char(s[i]) {
        space_run_end(s, i + 1)
    } else {
        i
    }
}

/// What `Command::read` returns on a message, entirely at the ghost level.
pub open spec fn parse_command(s: Seq<char>) -> Option<CommandView> {
    if s.len() < 1 || s[0] != '!' {
        None
    } else {
        let we = word_run_end(s, 1);
        if we == 1 {
            None
        } else {
            let word = s.subrange(1, we);
            if we == s.len() {
                if word == "undo"@ {
                    Some(CommandView::Undo)
                } else {
                    None
                }
            } else {
                let se = space_run_end(s, we);
                if se == we || s.len() - we < 2 {
                    None
                } else {
                    let split = if se < s.len() {
                        se
                    } else {
                        s.len() - 1
                    };
                    let arg = s.subrange(split, s.len() as int);
                    if word == "undo"@ {
                        Some(CommandView::Undo)
                    } else if word == "chat"@ {
                        Some(CommandView::Chat(arg))
                    } else if word == "ask"@ {
                        Some(CommandView::Ask(arg))
                    } else if word == "def"@ {
                        Some(CommandView::Define(arg))
                    } else if word == "cases"@ {
                        Some(CommandView::Cases(arg))
                    } else if word == "ex"@ {
                        Some(CommandView::Example(arg))
                    } else {
                        None
                    }
                }
            }
        }
    }
}

/// A run of word characters from `i` to `j`, and no further, ends at `j`.
proof fn lemma_word_run(s: Seq<char>, i: int, j: int)
    requires
        0 <= i <= j <= s.len(),
        forall|k: int| i <= k < j ==> is_word_char(#[trigger] s[k]),
        j == s.len() || !is_word_char(s[j]),
    ensures
        word_run_end(s, i) == j,
    decreases j - i,
{
    if i < j {
        lemma_word_run(s, i + 1, j);
    }
}

/// A run of whitespace from `i` to `j`, and no further, ends at `j`.
proof fn lemma_space_run(s: Seq<char>, i: int, j: int)
    requires
        0 <= i <= j <= s.len(),
        forall|k: int| i <= k < j ==> is_space_char(#[trigger] s[k]),
        j == s.len() || !is_space_char(s[j]),
    ensures
        space_run_end(s, i) == j,
    decreases j - i,
{
    if i < j {
        lemma_space_run(s, i + 1, j);
    }
}

/// Shape of a message `'!' word ' ' argument`: the word run ends where the
/// single blank stands, and the whitespace run ends right after it.
proof fn lemma_marked_message_runs(s: Seq<char>, we: int, a: Seq<char>)
    requires
        s.len() == we + 1 + a.len(),
        2 <= we,
        forall|k: int| 1 <= k < we ==> is_word_char(#[trigger] s[k]),
        s[we] == ' ',
        a.len() > 0,
        !is_space_char(s[we + 1]),
    ensures
        word_run_end(s, 1) == we,
        space_run_end(s, we) == we + 1,
{
    lemma_word_run(s, 1, we);
    lemma_space_run(s, we, we + 1);
}

/// Round trip of the grammar: each recognised marker word, followed by one
/// blank and a nonempty argument without leading whitespace, parses back to
/// its command holding exactly that argument; the bare `undo` marker parses
/// to `Undo`.  Parsing itself is total: `parse_command` is defined on every
/// character sequence.
pub proof fn lemma_parse_round_trip(a: Seq<char>)
    requires
        a.len() > 0,
        !is_space_char(a[0]),
    ensures
        parse_command("!chat "@ + a) == Some(CommandView::Chat(a)),
        parse_command("!ask "@ + a) == Some(CommandView::Ask(a)),
        parse_command("!def "@ + a) == Some(CommandView::Define(a)),
        parse_command("!cases "@ + a) == Some(CommandView::Cases(a)),
        parse_command("!ex "@ + a) == Some(CommandView::Example(a)),
        parse_command("!undo"@) == Some(CommandView::Undo),
{
    reveal_strlit("undo");
    reveal_strlit("chat");
    reveal_strlit("ask");
    reveal_strlit("def");
    reveal_strlit("cases");
    reveal_strlit("ex");
    {
        let s = "!chat "@ + a;
        reveal_strlit("!chat ");
        assert(s[0] == '!');
        assert(forall|k: int| 1 <= k < 5 ==> is_word_char(#[trigger] s[k]));
        assert(s[5] == ' ' && s[6] == a[0]);
        lemma_marked_message_runs(s, 5, a);
        assert(s.subrange(1, 5) =~= "chat"@);
        assert(s.subrange(6, s.len() as int) =~= a);
        assert(("chat"@)[0] != ("undo"@)[0]);
        assert(parse_command(s) == Some(CommandView::Chat(a)));
    }
    {
        let s = "!ask "@ + a;
        reveal_strlit("!ask ");
        assert(s[0] == '!');
        assert(forall|k: int| 1 <= k < 4 ==> is_word_char(#[trigger] s[k]));
        assert(s[4] == ' ' && s[5] == a[0]);
        lemma_marked_message_runs(s, 4, a);
        assert(s.subrange(1, 4) =~= "ask"@);
        assert(s.subrange(5, s.len() as int) =~= a);
        assert(parse_command(s) == Some(CommandView::Ask(a)));
    }
    {
        let s = "!def "@ + a;
        reveal_strlit("!def ");
        assert(s[0] == '!');
        assert(forall|k: int| 1 <= k < 4 ==> is_word_char(#[trigger] s[k]));
        assert(s[4] == ' ' && s[5] == a[0]);
        lemma_marked_message_runs(s, 4, a);
        assert(s.subrange(1, 4) =~= "def"@);
        assert(s.subrange(5, s.len() as int) =~= a);
        assert(("def"@)[0] != ("ask"@)[0]);
        assert(parse_command(s) == Some(CommandView::Define(a)));
    }
    {
        let s = "!cases "@ + a;
        reveal_strlit("!cases ");
        assert(s[0] == '!');
        assert(forall|k: int| 1 <= k < 6 ==> is_word_char(#[trigger] s[k]));
        assert(s[6] == ' ' && s[7] == a[0]);
        lemma_marked_message_runs(s, 6, a);
        assert(s.subrange(1, 6) =~= "cases"@);
        assert(s.subrange(7, s.len() as int) =~= a);
        assert(parse_command(s) == Some(CommandView::Cases(a)));
    }
    {
        let s = "!ex "@ + a;
        reveal_strlit("!ex ");
        assert(s[0] == '!');
        assert(forall|k: int| 1 <= k < 3 ==> is_word_char(#[trigger] s[k]));
        assert(s[3] == ' ' && s[4] == a[0]);
        lemma_marked_message_runs(s, 3, a);
        assert(s.subrange(1, 3) =~= "ex"@);
        assert(s.subrange(4, s.len() as int) =~= a);
        assert(parse_command(s) == Some(CommandView::Example(a)));
    }
    {
        let s = "!undo"@;
        reveal_strlit("!undo");
        assert(s[0] == '!');
        assert(forall|k: int| 1 <= k < 5 ==> is_word_char(#[trigger] s[k]));
        lemma_word_run(s, 1, 5);
        assert(s.subrange(1, 5) =~= "undo"@);
        assert(parse_command(s) == Some(CommandView::Undo));
    }
}

fn is_word_char_exec(c: char) -> (b: bool)
    ensures
        b == is_word_char(c),
{
    c == '_' || ('a' <= c && c <= 'z') || ('A' <= c && c <= 'Z') || ('0' <= c && c <= '9')
}

fn is_space_char_exec(c: char) -> (b: bool)
    ensures
        b == is_space_char(c),
{
    c == ' ' || c == '\t' || c == '\n' || c == '\r' || c == '\x0b' || c == '\x0c'
}

fn word_run_end_exec(s: &str, from: usize, n: usize) -> (r: usize)
    requires
        from <= n,
        n == s@.len(),
    ensures
        from <= r <= n,
        r == word_run_end(s@, from as int),
{
    let mut i: usize = from;
    while i < n && is_word_char_exec(s.get_char(i))
        invariant
            from <= i <= n,
            n == s@.len(),
            forall|k: int| from <= k < i ==> is_word_char(#[trigger] s@[k]),
        decreases n - i,
    {
        i = i + 1;
    }
    proof {
        lemma_word_run(s@, from as int, i as int);
    }
    i
}

pub(crate) fn space_run_end_exec(s: &str, from: usize, n: usize) -> (r: usize)
    requires
        from <= n,
        n == s@.len(),
    ensures
        from <= r <= n,
        r == space_run_end(s@, from as int),
{
    let mut i: usize = from;
    while i < n && is_space_char_exec(s.get_char(i))
        invariant
            from <= i <= n,
            n == s@.len(),
            forall|k: int| from <= k < i ==> is_space_char(#[trigger] s@[k]),
        decreases n - i,
    {
        i = i + 1;
    }
    proof {
        lemma_space_run(s@, from as int, i as int);
    }
    i
}

/// Character-for-character equality of two string slices.
pub(crate) fn str_eq(a: &str, b: &str) -> (r: bool)
    ensures
        r == (a@ == b@),
{
    let an = a.unicode_len();
    let bn = b.unicode_len();
    if an != bn {
        return false;
    }
    let mut i: usize = 0;
    while i < an
        invariant
            i <= an,
            an == a@.len(),
            an == b@.len(),
            forall|k: int| 0 <= k < i ==> a@[k] == b@[k],
        decreases an - i,
    {
        if a.get_char(i) != b.get_char(i) {
            return false;
        }
        i = i + 1;
    }
    proof {
        assert(a@ =~= b@);
    }
    true
}

impl Command {
    /// Total parse of a raw message.  `None` never signals an error: it says
    /// the message is free-form chat.
    pub fn read(s: &str) -> (r: Option<Command>)
        ensures
            r.deep_view() == parse_command(s@),
    {
        let n = s.unicode_len();
        if n < 1 {
            return None;
        }
        if s.get_char(0) != '!' {
            return None;
        }
        let we = word_run_end_exec(s, 1, n);
        if we == 1 {
            return None;
        }
        let word = s.substring_char(1, we);
        if we == n {
            if str_eq(word, "undo") {
                Some(Command::Undo)
            } else {
                None
            }
        } else {
            let se = space_run_end_exec(s, we, n);
            if se == we || n - we < 2 {
                return None;
            }
            let split = if se < n {
                se
            } else {
                n - 1
            };
            let arg = s.substring_char(split, n).to_owned();
            if str_eq(word, "undo") {
                Some(Command::Undo)
            } else if str_eq(word, "chat") {
                Some(Command::Chat(arg))
            } else if str_eq(word, "ask") {
                Some(Command::Ask(arg))
            } else if str_eq(word, "def") {
                Some(Command::Define(arg))
            } else if str_eq(word, "cases") {
                Some(Command::Cases(arg))
            } else if str_eq(word, "ex") {
                Some(Command::Example(arg))
            } else {
                None
            }
        }
    }
}

} // verus!
