//! The text a simulated client sends, and the address it connects to.

use vstd::prelude::*;
use vstd::string::StringExecFns;

verus! {

/// The character that stands for the digit `d`.
pub open spec fn digit_char(d: nat) -> char {
    if d == 0 {
        '0'
    } else if d == 1 {
        '1'
    } else if d == 2 {
        '2'
    } else if d == 3 {
        '3'
    } else if d == 4 {
        '4'
    } else if d == 5 {
        '5'
    } else if d == 6 {
        '6'
    } else if d == 7 {
        '7'
    } else if d == 8 {
        '8'
    } else {
        '9'
    }
}

/// `n` written in decimal, without leading zeros.
pub open spec fn decimal_text(n: nat) -> Seq<char>
    decreases n,
{
    if n < 10 {
        seq![digit_char(n)]
    } else {
        decimal_text(n / 10).push(digit_char(n % 10))
    }
}

/// The address of the server at `host` and `port`: the two with a colon
/// between them.
pub open spec fn server_address_text(host: Seq<char>, port: nat) -> Seq<char> {
    host + seq![':'] + decimal_text(port)
}

/// Whether `pattern` occurs somewhere in `line`.
pub open spec fn contains_text(line: Seq<char>, pattern: Seq<char>) -> bool {
    exists|at: int|
        0 <= at && at + pattern.len() <= line.len() && #[trigger] line.subrange(
            at,
            at + pattern.len(),
        ) == pattern
}

/// What a server's answer holds when it turns a handle down as taken.
pub open spec fn refusal_marker() -> Seq<char> {
    "\u{5df2}\u{88ab}\u{5360}\u{7528}"@
}

/// The handle that the client numbered `client_id` asks for.
pub open spec fn client_name_text(client_id: nat) -> Seq<char> {
    "TestUser-"@ + decimal_text(client_id)
}

/// The message that the client numbered `client_id` sends.
pub open spec fn client_message_text(client_id: nat) -> Seq<char> {
    "hello from "@ + decimal_text(client_id)
}

/// Calls `str::contains` with a string as the pattern, which says whether
/// the pattern occurs somewhere in the line.
#[verifier::external_body]
pub(crate) fn contains(line: &str, pattern: &str) -> (found: bool)
    ensures
        found == contains_text(line@, pattern@),
{
    line.contains(pattern)
}

/// Whether a server's answer turns the handle down as taken.
pub fn is_refusal(answer: &str) -> (refused: bool)
    ensures
        refused == contains_text(answer@, refusal_marker()),
{
    contains(answer, "\u{5df2}\u{88ab}\u{5360}\u{7528}")
}

fn digit(d: u64) -> (text: &'static str)
    requires
        d < 10,
    ensures
        text@ == seq![digit_char(d as nat)],
{
    proof {
        reveal_strlit("0");
        reveal_strlit("1");
        reveal_strlit("2");
        reveal_strlit("3");
        reveal_strlit("4");
        reveal_strlit("5");
        reveal_strlit("6");
        reveal_strlit("7");
        reveal_strlit("8");
        reveal_strlit("9");
    }
    let text = if d == 0 {
        "0"
    } else if d == 1 {
        "1"
    } else if d == 2 {
        "2"
    } else if d == 3 {
        "3"
    } else if d == 4 {
        "4"
    } else if d == 5 {
        "5"
    } else if d == 6 {
        "6"
    } else if d == 7 {
        "7"
    } else if d == 8 {
        "8"
    } else {
        "9"
    };
    assert(text@ =~= seq![digit_char(d as nat)]);
    text
}

/// Writes `n` in decimal.
pub fn decimal(n: u64) -> (text: String)
    ensures
        text@ == decimal_text(n as nat),
    decreases n,
{
    if n < 10 {
        String::from_str(digit(n))
    } else {
        let mut text = decimal(n / 10);
        text.append(digit(n % 10));
        assert(text@ =~= decimal_text(n as nat));
        text
    }
}

/// Builds the address of the server at `host` and `port`.
pub fn server_address(host: &str, port: u16) -> (address: String)
    ensures
        address@ == server_address_text(host@, port as nat),
{
    proof {
        reveal_strlit(":");
    }
    let mut address = String::from_str(host);
    address.append(":");
    address.append(decimal(port as u64).as_str());
    assert(":"@ =~= seq![':']);
    address
}

/// Builds the handle that the client numbered `client_id` asks for.
pub fn client_name(client_id: usize) -> (name: String)
    ensures
        name@ == client_name_text(client_id as nat),
{
    let mut name = String::from_str("TestUser-");
    name.append(decimal(client_id as u64).as_str());
    name
}

/// Builds the message that the client numbered `client_id` sends.
pub fn client_message(client_id: usize) -> (message: String)
    ensures
        message@ == client_message_text(client_id as nat),
{
    let mut message = String::from_str("hello from ");
    message.append(decimal(client_id as u64).as_str());
    message
}

} // verus!
