//! Reading a chat message as a command.
use vstd::prelude::*;
use crate::text::text_eq;
use crate::utils::{parse_args, split_args, texts};

verus! {

/// The commands the bot answers.
#[derive(Clone, Copy, Debug, PartialEq, Eq, Structural)]
pub enum Command {
    Ping,
    Help,
    Prefix,
    Link,
    Unlink,
    Me,
    /// Any other name: ignored.
    Unknown,
}

pub open spec fn command_of(name: Seq<char>) -> Command {
    if name == "ping"@ {
        Command::Ping
    } else if name == "help"@ {
        Command::Help
    } else if name == "prefix"@ {
        Command::Prefix
    } else if name == "link"@ {
        Command::Link
    } else if name == "unlink"@ {
        Command::Unlink
    } else if name == "me"@ {
        Command::Me
    } else {
        Command::Unknown
    }
}

impl Command {
    pub fn from_name(name: &str) -> (r: Command)
        ensures
            r == command_of(name@),
    {
        if text_eq(name, "ping") {
            Command::Ping
        } else if text_eq(name, "help") {
            Command::Help
        } else if text_eq(name, "prefix") {
            Command::Prefix
        } else if text_eq(name, "link") {
            Command::Link
        } else if text_eq(name, "unlink") {
            Command::Unlink
        } else if text_eq(name, "me") {
            Command::Me
        } else {
            Command::Unknown
        }
    }
}

pub open spec fn starts_with(s: Seq<char>, prefix: Seq<char>) -> bool {
    prefix.len() <= s.len() && s.subrange(0, prefix.len() as int) == prefix
}

/// A message as a command: when it starts with the prefix, the arguments of
/// the rest, of which the first names the command. A message that does not
/// start with the prefix, or holds nothing after it, is no command.
pub open spec fn command_line(content: Seq<char>, prefix: Seq<char>) -> Option<
    (Seq<char>, Seq<Seq<char>>),
> {
    if starts_with(content, prefix) {
        let args = split_args(content.subrange(prefix.len() as int, content.len() as int));
        if args.len() > 0 {
            Some((args[0], args.drop_first()))
        } else {
            None
        }
    } else {
        None
    }
}

/// Reads a message as a command under `prefix`: the command's name and its
/// arguments.
pub fn split_command(content: &str, prefix: &str) -> (r: Option<(String, Vec<String>)>)
    ensures
        match r {
            Some((name, args)) => command_line(content@, prefix@) == Some((name@, texts(args@))),
            None => command_line(content@, prefix@) is None,
        },
{
    let n = content.unicode_len();
    let p = prefix.unicode_len();
    if p > n {
        return None;
    }
    if !text_eq(content.substring_char(0, p), prefix) {
        return None;
    }
    let mut args = parse_args(content.substring_char(p, n));
    if args.len() == 0 {
        return None;
    }
    let ghost all = args@;
    let name = args.remove(0);
    assert(texts(args@) =~= texts(all).drop_first());
    Some((name, args))
}

} // verus!
