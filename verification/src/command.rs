//! Text commands for the hardware command interface.
//!
//! A command has the form `<MODULE>:<VERB> <ARGS>` and is handed to the
//! controller of a module as a passthrough request.

use vstd::prelude::*;
use vstd::string::*;

verus! {

/// The module whose controller drives the one-way channel.
pub const CHANNEL_MODULE: &'static str = "rhm";

/// The verb that sends a packet on the one-way channel, with the space that
/// separates it from its argument.
pub const SEND_VERB: &'static str = "RMS:GS:SEND ";

/// The lower-case hexadecimal digit for a value below sixteen.
pub open spec fn hex_char(n: int) -> char {
    if n == 0 {
        '0'
    } else if n == 1 {
        '1'
    } else if n == 2 {
        '2'
    } else if n == 3 {
        '3'
    } else if n == 4 {
        '4'
    } else if n == 5 {
        '5'
    } else if n == 6 {
        '6'
    } else if n == 7 {
        '7'
    } else if n == 8 {
        '8'
    } else if n == 9 {
        '9'
    } else if n == 10 {
        'a'
    } else if n == 11 {
        'b'
    } else if n == 12 {
        'c'
    } else if n == 13 {
        'd'
    } else if n == 14 {
        'e'
    } else {
        'f'
    }
}

/// The hexadecimal text of a byte string: two digits per byte, high nibble
/// first, in the order of the bytes.
pub open spec fn hex_of(bytes: Seq<u8>) -> Seq<char> {
    Seq::new(
        2 * bytes.len(),
        |i: int|
            if i % 2 == 0 {
                hex_char(bytes[i / 2] as int / 16)
            } else {
                hex_char(bytes[i / 2] as int % 16)
            },
    )
}

/// The command that sends a packet on the one-way channel.
pub open spec fn send_command_of(packet: Seq<u8>) -> Seq<char> {
    SEND_VERB@ + hex_of(packet)
}

/// The passthrough request that hands a command to the controller of a module
/// and asks for the acknowledgement and the echoed command.
pub open spec fn passthrough_of(module: Seq<char>, command: Seq<char>) -> Seq<char> {
    "mutation { passthrough(module: \""@ + module + "\", command: \""@ + command
        + "\") { status, command } }"@
}

pub(crate) fn hex_digit(n: u8) -> (digit: &'static str)
    requires
        n < 16,
    ensures
        digit@ == seq![hex_char(n as int)],
{
    proof {
        reveal_strlit("0");
        reveal_strlit("1");
        reveal_strlit("2");
        reveal_strlit("3");
        reveal_strlit("4");
        reveal_strlit("5");
        reveal_strlit("6");
        reveal_strlit("7");
        reveal_strlit("8");
        reveal_strlit("9");
        reveal_strlit("a");
        reveal_strlit("b");
        reveal_strlit("c");
        reveal_strlit("d");
        reveal_strlit("e");
        reveal_strlit("f");
    }
    let digit = if n == 0 {
        "0"
    } else if n == 1 {
        "1"
    } else if n == 2 {
        "2"
    } else if n == 3 {
        "3"
    } else if n == 4 {
        "4"
    } else if n == 5 {
        "5"
    } else if n == 6 {
        "6"
    } else if n == 7 {
        "7"
    } else if n == 8 {
        "8"
    } else if n == 9 {
        "9"
    } else if n == 10 {
        "a"
    } else if n == 11 {
        "b"
    } else if n == 12 {
        "c"
    } else if n == 13 {
        "d"
    } else if n == 14 {
        "e"
    } else {
        "f"
    };
    assert(digit@ =~= seq![hex_char(n as int)]);
    digit
}

/// Writes a byte string as lower-case hexadecimal text.
pub fn encode_hex(bytes: &[u8]) -> (text: String)
    ensures
        text@ == hex_of(bytes@),
{
    let mut text = String::new();
    let mut i: usize = 0;
    assert(text@ =~= hex_of(bytes@.take(0)));
    while i < bytes.len()
        invariant
            i <= bytes@.len(),
            text@ == hex_of(bytes@.take(i as int)),
        decreases bytes@.len() - i,
    {
        let byte = bytes[i];
        let ghost before = text@;
        text.append(hex_digit(byte / 16));
        text.append(hex_digit(byte % 16));
        i += 1;
        assert(text@ =~= hex_of(bytes@.take(i as int))) by {
            let done = bytes@.take(i as int);
            let prev = bytes@.take(i - 1);
            assert(text@ == before + seq![hex_char(byte as int / 16)] + seq![
                hex_char(byte as int % 16),
            ]);
            assert(done.len() == i);
            assert forall|k: int| 0 <= k < 2 * i implies text@[k] == hex_of(done)[k] by {
                if k < 2 * (i - 1) {
                    assert(text@[k] == hex_of(prev)[k]);
                    assert(prev[k / 2] == done[k / 2]);
                } else {
                    assert(done[k / 2] == byte);
                }
            }
        }
    }
    assert(bytes@.take(i as int) == bytes@);
    text
}

/// The command that sends a packet on the one-way channel.
pub fn send_command(packet: &[u8]) -> (command: String)
    ensures
        command@ == send_command_of(packet@),
{
    let hex = encode_hex(packet);
    String::from_str(SEND_VERB).concat(hex.as_str())
}

/// The passthrough request that hands a command to the controller of a module.
pub fn passthrough_request(module: &str, command: &str) -> (request: String)
    ensures
        request@ == passthrough_of(module@, command@),
{
    let mut request = String::from_str("mutation { passthrough(module: \"");
    request.append(module);
    request.append("\", command: \"");
    request.append(command);
    request.append("\") { status, command } }");
    request
}

/// Hexadecimal text has two digits for each byte.
pub proof fn law_hex_len(bytes: Seq<u8>)
    ensures
        hex_of(bytes).len() == 2 * bytes.len(),
{
}

} // verus!
