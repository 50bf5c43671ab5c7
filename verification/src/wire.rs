//! The text format on the child's standard streams: one command per line
//! going in, one line of output per line coming out.

use vstd::prelude::*;
use vstd::string::*;
use vstd::utf8::*;

verus! {

/// The byte that ends a line.
pub const LINE_FEED: u8 = 10;

/// The byte that may precede the line feed and is then not part of the line.
pub const CARRIAGE_RETURN: u8 = 13;

/// A command as the child reads it: the command's text followed by exactly
/// one line break.
pub open spec fn framed(command: Seq<char>) -> Seq<char> {
    command.push('\n')
}

/// What the child reads when `commands` are written one after the other:
/// each command framed, in order, with nothing between them.
pub open spec fn wire_text(commands: Seq<Seq<char>>) -> Seq<char>
    decreases commands.len(),
{
    if commands.len() == 0 {
        Seq::empty()
    } else {
        wire_text(commands.drop_last()) + framed(commands.last())
    }
}

/// A line without the carriage return that may end it.
pub open spec fn without_carriage_return(line: Seq<u8>) -> Seq<u8> {
    if line.len() > 0 && line.last() == CARRIAGE_RETURN {
        line.drop_last()
    } else {
        line
    }
}

/// The text to write to the child's standard input for one command.
pub fn frame_command(command: &str) -> (wire: String)
    ensures
        wire@ == framed(command@),
{
    let mut wire = String::from_str(command);
    wire.append("\n");
    proof {
        reveal_strlit("\n");
        assert("\n"@ =~= seq!['\n']);
        assert(wire@ =~= framed(command@));
    }
    wire
}

/// Calls `String::from_utf8`. The result is the text that `bytes` encode,
/// when they are valid UTF-8, and nothing otherwise.
#[verifier::external_body]
pub(crate) fn decode_line(bytes: Vec<u8>) -> (text: Option<String>)
    ensures
        valid_utf8(bytes@) ==> text is Some && text->Some_0@ == decode_utf8(bytes@),
        !valid_utf8(bytes@) ==> text is None,
{
    match String::from_utf8(bytes) {
        Ok(text) => Some(text),
        Err(_) => None,
    }
}

} // verus!
