//! The closed set of chat commands and their parsing.
//!
//! One command exists: `Start`. It is recognized when the update's text is
//! exactly the slash prefix followed by the keyword `start`, matched
//! case-insensitively, with no arguments after it.

use vstd::prelude::*;
use vstd::string::StrSliceExecFns;

verus! {

/// The closed enumeration of recognized chat commands.
#[derive(Clone, Copy, Debug, PartialEq, Eq, Structural)]
pub enum Command {
    Start,
}

/// Holds exactly of the texts that spell the start command: a slash, then
/// the five letters of `start`, each in either case, and nothing more.
pub open spec fn is_start_text(s: Seq<char>) -> bool {
    &&& s.len() == 6
    &&& s[0] == '/'
    &&& (s[1] == 's' || s[1] == 'S')
    &&& (s[2] == 't' || s[2] == 'T')
    &&& (s[3] == 'a' || s[3] == 'A')
    &&& (s[4] == 'r' || s[4] == 'R')
    &&& (s[5] == 't' || s[5] == 'T')
}

/// What parsing returns on each text: the start command on its spellings,
/// nothing on every other text.
pub open spec fn parse_command_spec(s: Seq<char>) -> Option<Command> {
    if is_start_text(s) {
        Some(Command::Start)
    } else {
        None
    }
}

/// Parses an update's text as a command.
pub fn parse_command(text: &str) -> (r: Option<Command>)
    ensures
        r == parse_command_spec(text@),
{
    let len = text.unicode_len();
    if len != 6 {
        return None;
    }
    let c0 = text.get_char(0);
    let c1 = text.get_char(1);
    let c2 = text.get_char(2);
    let c3 = text.get_char(3);
    let c4 = text.get_char(4);
    let c5 = text.get_char(5);
    if c0 == '/' && (c1 == 's' || c1 == 'S') && (c2 == 't' || c2 == 'T')
        && (c3 == 'a' || c3 == 'A') && (c4 == 'r' || c4 == 'R') && (c5 == 't' || c5 == 'T') {
        Some(Command::Start)
    } else {
        None
    }
}

} // verus!
