//! The decisions of the interactive front end: command-line flags, the
//! user's input lines and the API key typed in.

use crate::text::{str_chars, string_of, trim, trim_bounds};
use vstd::prelude::*;

verus! {

/// `c` is `p` up to ASCII case, for a pattern character `p` that is not an
/// upper-case letter.
pub open spec fn char_eq_ci(c: char, p: char) -> bool {
    c == p || ('a' <= p && p <= 'z' && (c as u32) + 32 == (p as u32))
}

/// `s` lower-cased in ASCII is `p`.
pub open spec fn eq_ci(s: Seq<char>, p: Seq<char>) -> bool {
    s.len() == p.len() && forall|i: int| 0 <= i < s.len() ==> char_eq_ci(#[trigger] s[i], p[i])
}

pub open spec fn is_help_arg(s: Seq<char>) -> bool {
    eq_ci(s, seq!['-', '-', 'h', 'e', 'l', 'p']) || eq_ci(s, seq!['-', 'h'])
}

pub open spec fn is_clear_arg(s: Seq<char>) -> bool {
    eq_ci(s, seq!['-', '-', 'c', 'l', 'e', 'a', 'r']) || eq_ci(s, seq!['-', 'c'])
}

/// What the command line asks for.
#[derive(Debug, PartialEq, Eq)]
pub enum Command {
    /// Print the usage text.
    Help,
    /// Forget the stored API key.
    Clear,
    /// Chat, starting with the given prompt where there is one.
    Chat(Option<String>),
}

fn eq_ci_exec(s: &Vec<char>, p: &Vec<char>) -> (r: bool)
    ensures
        r == eq_ci(s@, p@),
{
    if s.len() != p.len() {
        return false;
    }
    let mut i: usize = 0;
    while i < s.len()
        invariant
            i <= s@.len(),
            s@.len() == p@.len(),
            forall|j: int| 0 <= j < i ==> char_eq_ci(#[trigger] s@[j], p@[j]),
        decreases s@.len() - i,
    {
        let c = s[i];
        let q = p[i];
        let ok = c == q || ('a' <= q && q <= 'z' && (c as u32) == (q as u32) - 32);
        if !ok {
            return false;
        }
        i = i + 1;
    }
    true
}

/// Whether `arg` asks for the usage text: `--help` or `-h`, in any ASCII case.
pub fn is_help_flag(arg: &str) -> (r: bool)
    ensures
        r == is_help_arg(arg@),
{
    let s = str_chars(arg);
    eq_ci_exec(&s, &vec!['-', '-', 'h', 'e', 'l', 'p']) || eq_ci_exec(&s, &vec!['-', 'h'])
}

/// Whether `arg` asks to forget the key: `--clear` or `-c`, in any ASCII case.
pub fn is_clear_flag(arg: &str) -> (r: bool)
    ensures
        r == is_clear_arg(arg@),
{
    let s = str_chars(arg);
    eq_ci_exec(&s, &vec!['-', '-', 'c', 'l', 'e', 'a', 'r']) || eq_ci_exec(&s, &vec!['-', 'c'])
}

/// Reads the command line, program name first. A help flag anywhere wins,
/// then a clear flag; otherwise a single argument is the first prompt,
/// trimmed.
pub fn parse_args(args: &Vec<String>) -> (r: Command)
    ensures
        (exists|i: int| 0 <= i < args@.len() && is_help_arg(#[trigger] args@[i]@)) ==> r
            == Command::Help,
        !(exists|i: int| 0 <= i < args@.len() && is_help_arg(#[trigger] args@[i]@)) && (exists|
            i: int,
        | 0 <= i < args@.len() && is_clear_arg(#[trigger] args@[i]@)) ==> r == Command::Clear,
        !(exists|i: int| 0 <= i < args@.len() && is_help_arg(#[trigger] args@[i]@)) && !(exists|
            i: int,
        | 0 <= i < args@.len() && is_clear_arg(#[trigger] args@[i]@)) ==> {
            &&& r is Chat
            &&& args@.len() == 2 ==> r->Chat_0 is Some && r->Chat_0->0@ == trim(args@[1]@)
            &&& args@.len() != 2 ==> r->Chat_0 is None
        },
{
    let mut i: usize = 0;
    while i < args.len()
        invariant
            i <= args@.len(),
            forall|j: int| 0 <= j < i ==> !is_help_arg(#[trigger] args@[j]@),
        decreases args@.len() - i,
    {
        if is_help_flag(args[i].as_str()) {
            return Command::Help;
        }
        i = i + 1;
    }
    let mut i: usize = 0;
    while i < args.len()
        invariant
            i <= args@.len(),
            forall|j: int| 0 <= j < i ==> !is_clear_arg(#[trigger] args@[j]@),
            forall|j: int| 0 <= j < args@.len() ==> !is_help_arg(#[trigger] args@[j]@),
        decreases args@.len() - i,
    {
        if is_clear_flag(args[i].as_str()) {
            return Command::Clear;
        }
        i = i + 1;
    }
    if args.len() == 2 {
        Command::Chat(Some(trimmed(args[1].as_str())))
    } else {
        Command::Chat(None)
    }
}

/// `s` without surrounding whitespace.
pub fn trimmed(s: &str) -> (r: String)
    ensures
        r@ == trim(s@),
{
    let cs = str_chars(s);
    let (lo, hi) = trim_bounds(&cs, 0);
    assert(cs@.subrange(0, cs@.len() as int) =~= cs@);
    string_of(&cs.as_slice()[lo..hi])
}

/// What a line typed by the user asks for.
#[derive(Debug, PartialEq, Eq)]
pub enum UserInput {
    /// `exit`: end the session.
    Exit,
    /// Nothing but whitespace: ask again.
    Empty,
    /// A question, trimmed.
    Prompt(String),
}

pub open spec fn exit_word() -> Seq<char> {
    seq!['e', 'x', 'i', 't']
}

/// Reads one input line: after trimming, `exit` ends the session, an empty
/// line is skipped and anything else is a question.
pub fn parse_input(line: &str) -> (r: UserInput)
    ensures
        trim(line@) == exit_word() ==> r == UserInput::Exit,
        trim(line@).len() == 0 ==> r == UserInput::Empty,
        trim(line@) != exit_word() && trim(line@).len() > 0 ==> r is Prompt && r->Prompt_0@ == trim(
            line@,
        ),
{
    let t = trimmed(line);
    let cs = str_chars(t.as_str());
    if cs.len() == 0 {
        UserInput::Empty
    } else if cs.len() == 4 && cs[0] == 'e' && cs[1] == 'x' && cs[2] == 'i' && cs[3] == 't' {
        assert(cs@ =~= exit_word());
        UserInput::Exit
    } else {
        assert(cs@ != exit_word()) by {
            if cs@ == exit_word() {
                assert(cs@[0] == 'e' && cs@[1] == 'x' && cs@[2] == 'i' && cs@[3] == 't');
            }
        }
        UserInput::Prompt(t)
    }
}

pub open spec fn key_prefix() -> Seq<char> {
    seq!['s', 'k', '-']
}

/// Reads the API key typed in: trimmed, it must start with `sk-` and have
/// more than three characters.
pub fn parse_api_key(line: &str) -> (r: Option<String>)
    ensures
        r is Some <==> trim(line@).len() > 3 && trim(line@).subrange(0, 3) == key_prefix(),
        r is Some ==> r->0@ == trim(line@),
{
    let t = trimmed(line);
    let cs = str_chars(t.as_str());
    if cs.len() > 3 && cs[0] == 's' && cs[1] == 'k' && cs[2] == '-' {
        assert(cs@.subrange(0, 3) =~= key_prefix());
        Some(t)
    } else {
        proof {
            if cs@.len() > 3 && cs@.subrange(0, 3) == key_prefix() {
                assert(cs@.subrange(0, 3)[0] == 's');
                assert(cs@.subrange(0, 3)[1] == 'k');
                assert(cs@.subrange(0, 3)[2] == '-');
            }
        }
        None
    }
}

} // verus!
