//! The text that travels over a connection: the lines the server writes and
//! the way a line read from a client is cleaned up.

use vstd::prelude::*;
use vstd::string::StringExecFns;

verus! {

/// Whether `c` is white space in the sense of Unicode's `White_Space`
/// property: the controls from tab to carriage return, the space, next
/// line, the no-break space, and the spaces and separators beyond them.
pub open spec fn is_whitespace(c: char) -> bool {
    let code = c as u32;
    ||| 0x09 <= code <= 0x0D
    ||| code == 0x20
    ||| code == 0x85
    ||| code == 0xA0
    ||| code == 0x1680
    ||| 0x2000 <= code <= 0x200A
    ||| code == 0x2028
    ||| code == 0x2029
    ||| code == 0x202F
    ||| code == 0x205F
    ||| code == 0x3000
}

/// `text` without the white space it starts with.
pub open spec fn trimmed_start(text: Seq<char>) -> Seq<char>
    decreases text.len(),
{
    if text.len() > 0 && is_whitespace(text.first()) {
        trimmed_start(text.drop_first())
    } else {
        text
    }
}

/// `text` without the white space it ends with.
pub open spec fn trimmed_end(text: Seq<char>) -> Seq<char>
    decreases text.len(),
{
    if text.len() > 0 && is_whitespace(text.last()) {
        trimmed_end(text.drop_last())
    } else {
        text
    }
}

/// `text` without the white space around it.
pub open spec fn trimmed(text: Seq<char>) -> Seq<char> {
    trimmed_end(trimmed_start(text))
}

/// Calls `str::trim`, which returns the part of `line` that is left when
/// the white space at both ends is taken away, white space being what
/// Unicode's `White_Space` property says it is.
#[verifier::external_body]
pub(crate) fn trim(line: &str) -> (text: &str)
    ensures
        text@ == trimmed(line@),
{
    line.trim()
}

/// The line that asks a client for a handle.
pub open spec fn prompt_text() -> Seq<char> {
    "Enter username: \n"@
}

/// The line that turns an empty handle down.
pub open spec fn empty_handle_text() -> Seq<char> {
    "\x1b[31mUsername cannot be empty.\x1b[0m\n"@
}

/// The line that tells a client that `handle` is held by someone else.
pub open spec fn taken_text(handle: Seq<char>) -> Seq<char> {
    "\x1b[31mUsername '"@ + handle + "' is taken.\x1b[0m\n"@
}

/// The line that greets the client who now holds `handle`.
pub open spec fn welcome_text(handle: Seq<char>) -> Seq<char> {
    "\x1b[32mWelcome, "@ + handle + "!\x1b[0m\n"@
}

/// `line` as it is written to a connection: the line and a newline.
pub open spec fn line_text(line: Seq<char>) -> Seq<char> {
    line.push('\n')
}

/// The line that carries `message` from `from` to the other clients:
/// the handle in square brackets, a colon, a space, then the message.
pub open spec fn broadcast_text(from: Seq<char>, message: Seq<char>) -> Seq<char> {
    seq!['['] + from + seq![']', ':', ' '] + message
}

/// Builds the line that asks a client for a handle.
pub fn prompt_line() -> (line: String)
    ensures
        line@ == prompt_text(),
{
    String::from_str("Enter username: \n")
}

/// Builds the line that turns an empty handle down.
pub fn empty_handle_line() -> (line: String)
    ensures
        line@ == empty_handle_text(),
{
    String::from_str("\x1b[31mUsername cannot be empty.\x1b[0m\n")
}

/// Builds the line that tells a client that `handle` is held by someone else.
pub fn taken_line(handle: &str) -> (line: String)
    ensures
        line@ == taken_text(handle@),
{
    let mut line = String::from_str("\x1b[31mUsername '");
    line.append(handle);
    line.append("' is taken.\x1b[0m\n");
    line
}

/// Builds the line that greets the client who now holds `handle`.
pub fn welcome_line(handle: &str) -> (line: String)
    ensures
        line@ == welcome_text(handle@),
{
    let mut line = String::from_str("\x1b[32mWelcome, ");
    line.append(handle);
    line.append("!\x1b[0m\n");
    line
}

/// Builds `line` as it is written to a connection.
pub fn line_of(line: &str) -> (text: String)
    ensures
        text@ == line_text(line@),
{
    proof {
        reveal_strlit("\n");
    }
    let mut text = String::from_str(line);
    text.append("\n");
    assert("\n"@ =~= seq!['\n']);
    assert(text@ =~= line@.push('\n'));
    text
}

/// Builds the line that carries `message` from `from` to the other clients.
pub fn broadcast_line(from: &str, message: &str) -> (line: String)
    ensures
        line@ == broadcast_text(from@, message@),
{
    proof {
        reveal_strlit("[");
        reveal_strlit("]: ");
    }
    let mut line = String::from_str("[");
    line.append(from);
    line.append("]: ");
    line.append(message);
    assert("["@ =~= seq!['[']);
    assert("]: "@ =~= seq![']', ':', ' ']);
    line
}

} // verus!
