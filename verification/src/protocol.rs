//! The text protocol spoken over TCP: each message received is read as
//! UTF-8, stripped of surrounding whitespace and taken as one command; the
//! car answers every readable message with `Executed: ` and the command,
//! cut to fit a 64-byte reply, and a newline.
use vstd::prelude::*;
use vstd::utf8::valid_utf8;
use vstd::utf8::decode_utf8;
use vstd::utf8::encode_utf8;
use crate::movement::Movement;

verus! {

/// Whether a character has the Unicode White_Space property.
pub open spec fn is_white_space(c: char) -> bool {
    let v = c as u32;
    ||| 0x9 <= v <= 0xd
    ||| v == 0x20
    ||| v == 0x85
    ||| v == 0xa0
    ||| v == 0x1680
    ||| 0x2000 <= v <= 0x200a
    ||| v == 0x2028
    ||| v == 0x2029
    ||| v == 0x202f
    ||| v == 0x205f
    ||| v == 0x3000
}

/// The text without its leading whitespace.
pub open spec fn trim_start_chars(text: Seq<char>) -> Seq<char>
    decreases text.len(),
{
    if text.len() > 0 && is_white_space(text[0]) {
        trim_start_chars(text.drop_first())
    } else {
        text
    }
}

/// The text without its trailing whitespace.
pub open spec fn trim_end_chars(text: Seq<char>) -> Seq<char>
    decreases text.len(),
{
    if text.len() > 0 && is_white_space(text.last()) {
        trim_end_chars(text.drop_last())
    } else {
        text
    }
}

/// The text without leading and trailing whitespace.
pub open spec fn trim_whitespace(text: Seq<char>) -> Seq<char> {
    trim_end_chars(trim_start_chars(text))
}

/// Calls `core::str::from_utf8`. Its documentation says that it succeeds
/// exactly when the bytes are valid UTF-8 and that the string slice it gives
/// then consists of those bytes; the contract states both over vstd's model
/// of UTF-8. The error value is dropped.
#[verifier::external_body]
fn text_of_bytes(bytes: &[u8]) -> (text: Option<&str>)
    ensures
        text is Some <==> valid_utf8(bytes@),
        text matches Some(s) ==> encode_utf8(s@) == bytes@,
{
    match core::str::from_utf8(bytes) {
        Ok(s) => Some(s),
        Err(_) => None,
    }
}

/// Calls `str::trim`, which std documents as removing leading and trailing
/// whitespace, whitespace being the characters with the Unicode White_Space
/// property (listed in `is_white_space`).
#[verifier::external_body]
fn trim_text(text: &str) -> (trimmed: &str)
    ensures
        trimmed@ == trim_whitespace(text@),
{
    text.trim()
}

/// What a message asks the car to do.
#[derive(Clone, Copy, Debug, PartialEq, Eq, Structural)]
pub enum Command {
    /// Store this movement as the shared movement command.
    Move(Movement),
    /// Set the motor PWM duty cycle to this percentage.
    SetSpeed(u8),
    /// No command has this text.
    Unknown,
}

/// The command a trimmed message text stands for.
pub open spec fn command_of(text: Seq<char>) -> Command {
    if text == seq!['f'] || text == seq!['F'] || text == seq!['W'] {
        Command::Move(Movement::Forward)
    } else if text == seq!['b'] || text == seq!['B'] || text == seq!['S'] {
        Command::Move(Movement::Reverse)
    } else if text == seq!['l'] || text == seq!['L'] || text == seq!['A'] {
        Command::Move(Movement::Left)
    } else if text == seq!['r'] || text == seq!['R'] || text == seq!['D'] {
        Command::Move(Movement::Right)
    } else if text == seq!['x'] || text == seq!['X'] {
        Command::Move(Movement::Stop)
    } else if text == seq!['1'] || text == seq!['6', '0'] {
        Command::SetSpeed(60)
    } else if text == seq!['2'] || text == seq!['7', '0'] {
        Command::SetSpeed(70)
    } else if text == seq!['3'] || text == seq!['8', '0'] {
        Command::SetSpeed(80)
    } else if text == seq!['4'] || text == seq!['9', '0'] {
        Command::SetSpeed(90)
    } else if text == seq!['5'] || text == seq!['1', '0', '0'] {
        Command::SetSpeed(100)
    } else {
        Command::Unknown
    }
}

/// Reads the command in a trimmed message text.
pub fn parse_command(text: &str) -> (command: Command)
    ensures
        command == command_of(text@),
{
    let len = text.unicode_len();
    if len == 1 {
        let c = text.get_char(0);
        proof {
            assert(text@ =~= seq![c]);
        }
        match c {
            'f' | 'F' | 'W' => Command::Move(Movement::Forward),
            'b' | 'B' | 'S' => Command::Move(Movement::Reverse),
            'l' | 'L' | 'A' => Command::Move(Movement::Left),
            'r' | 'R' | 'D' => Command::Move(Movement::Right),
            'x' | 'X' => Command::Move(Movement::Stop),
            '1' => Command::SetSpeed(60),
            '2' => Command::SetSpeed(70),
            '3' => Command::SetSpeed(80),
            '4' => Command::SetSpeed(90),
            '5' => Command::SetSpeed(100),
            _ => {
                proof {
                    assert(seq![c][0] == c);
                }
                Command::Unknown
            },
        }
    } else if len == 2 {
        let c0 = text.get_char(0);
        let c1 = text.get_char(1);
        proof {
            assert(text@ =~= seq![c0, c1]);
            assert(seq![c0, c1][0] == c0 && seq![c0, c1][1] == c1);
        }
        if c1 != '0' {
            Command::Unknown
        } else {
            match c0 {
                '6' => Command::SetSpeed(60),
                '7' => Command::SetSpeed(70),
                '8' => Command::SetSpeed(80),
                '9' => Command::SetSpeed(90),
                _ => Command::Unknown,
            }
        }
    } else if len == 3 {
        let c0 = text.get_char(0);
        let c1 = text.get_char(1);
        let c2 = text.get_char(2);
        proof {
            assert(text@ =~= seq![c0, c1, c2]);
            assert(seq![c0, c1, c2][0] == c0 && seq![c0, c1, c2][1] == c1 && seq![
                c0,
                c1,
                c2,
            ][2] == c2);
        }
        if c0 == '1' && c1 == '0' && c2 == '0' {
            Command::SetSpeed(100)
        } else {
            Command::Unknown
        }
    } else {
        Command::Unknown
    }
}

/// Size of the reply buffer, in bytes.
pub const RESPONSE_CAPACITY: usize = 64;

/// Length of the `Executed: ` prefix, in bytes.
pub const PREFIX_LEN: usize = 10;

/// The most bytes of the command that are echoed: what is left of the reply
/// buffer after the prefix and the final newline.
pub const ECHO_LIMIT: usize = RESPONSE_CAPACITY - PREFIX_LEN - 1;

/// The bytes of `Executed: `.
pub open spec fn executed_prefix() -> Seq<u8> {
    seq![0x45u8, 0x78, 0x65, 0x63, 0x75, 0x74, 0x65, 0x64, 0x3a, 0x20]
}

/// How many bytes of a command of `len` bytes are echoed.
pub open spec fn echoed_len(len: int) -> int {
    if len < ECHO_LIMIT {
        len
    } else {
        ECHO_LIMIT as int
    }
}

/// The reply to a command whose UTF-8 bytes are `command`: the prefix, as
/// much of the command as fits, and a newline.
pub open spec fn response_bytes(command: Seq<u8>) -> Seq<u8> {
    executed_prefix() + command.take(echoed_len(command.len() as int)) + seq![0x0au8]
}

/// Builds the reply to a trimmed command text.
pub fn build_response(command: &str) -> (response: Vec<u8>)
    ensures
        response@ == response_bytes(encode_utf8(command@)),
{
    let bytes = command.as_bytes();
    let mut response: Vec<u8> = vec![0x45u8, 0x78, 0x65, 0x63, 0x75, 0x74, 0x65, 0x64, 0x3a, 0x20];
    let copy_len: usize = if bytes.len() < ECHO_LIMIT {
        bytes.len()
    } else {
        ECHO_LIMIT
    };
    let mut i: usize = 0;
    while i < copy_len
        invariant
            copy_len <= bytes@.len(),
            copy_len == echoed_len(bytes@.len() as int),
            i <= copy_len,
            response@ == executed_prefix() + bytes@.take(i as int),
        decreases copy_len - i,
    {
        response.push(bytes[i]);
        proof {
            assert(bytes@.take(i as int + 1) =~= bytes@.take(i as int).push(bytes@[i as int]));
        }
        i = i + 1;
    }
    response.push(0x0a);
    response
}

/// What the car does with one message: the command to carry out and the
/// bytes to send back.
#[derive(Debug)]
pub struct Reply {
    pub command: Command,
    pub response: Vec<u8>,
}

/// Handles one received message. A message that is not valid UTF-8 is
/// ignored: no command and no reply.
pub fn handle_message(received: &[u8]) -> (reply: Option<Reply>)
    ensures
        reply is Some <==> valid_utf8(received@),
        reply matches Some(r) ==> {
            let text = trim_whitespace(decode_utf8(received@));
            &&& r.command == command_of(text)
            &&& r.response@ == response_bytes(encode_utf8(text))
        },
{
    match text_of_bytes(received) {
        None => None,
        Some(text) => {
            proof {
                vstd::utf8::encode_utf8_decode_utf8(text@);
            }
            let command_text = trim_text(text);
            let command = parse_command(command_text);
            let response = build_response(command_text);
            Some(Reply { command, response })
        },
    }
}

/// Every reply fits the reply buffer, starts with `Executed: ` and ends with
/// a newline.
pub proof fn lemma_response_fits(command: Seq<u8>)
    ensures
        response_bytes(command).len() <= RESPONSE_CAPACITY,
        response_bytes(command).take(PREFIX_LEN as int) == executed_prefix(),
        response_bytes(command).last() == 0x0au8,
{
    assert(response_bytes(command).take(PREFIX_LEN as int) =~= executed_prefix());
}

/// A command that fits is echoed whole.
pub proof fn lemma_short_command_echoed(command: Seq<u8>)
    requires
        command.len() <= ECHO_LIMIT,
    ensures
        response_bytes(command) == executed_prefix() + command + seq![0x0au8],
{
    assert(command.take(command.len() as int) =~= command);
}

proof fn lemma_trim_start_skips_white_space(pad: Seq<char>, text: Seq<char>)
    requires
        forall|i: int| 0 <= i < pad.len() ==> is_white_space(#[trigger] pad[i]),
    ensures
        trim_start_chars(pad + text) == trim_start_chars(text),
    decreases pad.len(),
{
    if pad.len() > 0 {
        assert((pad + text)[0] == pad[0]);
        assert((pad + text).drop_first() =~= pad.drop_first() + text);
        lemma_trim_start_skips_white_space(pad.drop_first(), text);
    } else {
        assert(pad + text =~= text);
    }
}

proof fn lemma_trim_end_skips_white_space(text: Seq<char>, pad: Seq<char>)
    requires
        forall|i: int| 0 <= i < pad.len() ==> is_white_space(#[trigger] pad[i]),
    ensures
        trim_end_chars(text + pad) == trim_end_chars(text),
    decreases pad.len(),
{
    if pad.len() > 0 {
        assert((text + pad).last() == pad.last());
        assert((text + pad).drop_last() =~= text + pad.drop_last());
        lemma_trim_end_skips_white_space(text, pad.drop_last());
    } else {
        assert(text + pad =~= text);
    }
}

/// Whitespace around a command does not change what it means: for a
/// command text that starts and ends with something other than whitespace,
/// padding it on either side with whitespace gives the same command.
pub proof fn lemma_padding_ignored(before: Seq<char>, text: Seq<char>, after: Seq<char>)
    requires
        text.len() > 0,
        !is_white_space(text[0]),
        !is_white_space(text.last()),
        forall|i: int| 0 <= i < before.len() ==> is_white_space(#[trigger] before[i]),
        forall|i: int| 0 <= i < after.len() ==> is_white_space(#[trigger] after[i]),
    ensures
        trim_whitespace(before + text + after) == text,
        command_of(trim_whitespace(before + text + after)) == command_of(text),
{
    assert(before + text + after =~= before + (text + after));
    lemma_trim_start_skips_white_space(before, text + after);
    assert((text + after)[0] == text[0]);
    lemma_trim_end_skips_white_space(text, after);
}

proof fn lemma_text_is_char(text: Seq<char>, c: char)
    ensures
        (text == seq![c]) <==> (text.len() == 1 && text[0] == c),
{
    if text.len() == 1 && text[0] == c {
        assert(text =~= seq![c]);
    }
    assert(seq![c][0] == c);
}

proof fn lemma_text_is_pair(text: Seq<char>, c0: char, c1: char)
    ensures
        (text == seq![c0, c1]) <==> (text.len() == 2 && text[0] == c0 && text[1] == c1),
{
    if text.len() == 2 && text[0] == c0 && text[1] == c1 {
        assert(text =~= seq![c0, c1]);
    }
    assert(seq![c0, c1][0] == c0 && seq![c0, c1][1] == c1);
}

/// Only the listed texts are commands: each movement has its letters, each
/// speed its digit and its percentage, and every other text is unknown. A
/// speed command always asks for 60, 70, 80, 90 or 100 percent.
pub proof fn lemma_only_listed_texts_are_commands(text: Seq<char>)
    ensures
        command_of(text) == Command::Move(Movement::Forward) <==> (text == seq!['f'] || text
            == seq!['F'] || text == seq!['W']),
        command_of(text) == Command::Move(Movement::Reverse) <==> (text == seq!['b'] || text
            == seq!['B'] || text == seq!['S']),
        command_of(text) == Command::Move(Movement::Left) <==> (text == seq!['l'] || text
            == seq!['L'] || text == seq!['A']),
        command_of(text) == Command::Move(Movement::Right) <==> (text == seq!['r'] || text
            == seq!['R'] || text == seq!['D']),
        command_of(text) == Command::Move(Movement::Stop) <==> (text == seq!['x'] || text
            == seq!['X']),
        command_of(text) == Command::SetSpeed(60) <==> (text == seq!['1'] || text == seq![
            '6',
            '0',
        ]),
        command_of(text) == Command::SetSpeed(70) <==> (text == seq!['2'] || text == seq![
            '7',
            '0',
        ]),
        command_of(text) == Command::SetSpeed(80) <==> (text == seq!['3'] || text == seq![
            '8',
            '0',
        ]),
        command_of(text) == Command::SetSpeed(90) <==> (text == seq!['4'] || text == seq![
            '9',
            '0',
        ]),
        command_of(text) == Command::SetSpeed(100) <==> (text == seq!['5'] || text == seq![
            '1',
            '0',
            '0',
        ]),
        command_of(text) matches Command::SetSpeed(p) ==> (p == 60 || p == 70 || p == 80 || p
            == 90 || p == 100),
{
    lemma_text_is_char(text, 'f');
    lemma_text_is_char(text, 'F');
    lemma_text_is_char(text, 'W');
    lemma_text_is_char(text, 'b');
    lemma_text_is_char(text, 'B');
    lemma_text_is_char(text, 'S');
    lemma_text_is_char(text, 'l');
    lemma_text_is_char(text, 'L');
    lemma_text_is_char(text, 'A');
    lemma_text_is_char(text, 'r');
    lemma_text_is_char(text, 'R');
    lemma_text_is_char(text, 'D');
    lemma_text_is_char(text, 'x');
    lemma_text_is_char(text, 'X');
    lemma_text_is_char(text, '1');
    lemma_text_is_char(text, '2');
    lemma_text_is_char(text, '3');
    lemma_text_is_char(text, '4');
    lemma_text_is_char(text, '5');
    lemma_text_is_pair(text, '6', '0');
    lemma_text_is_pair(text, '7', '0');
    lemma_text_is_pair(text, '8', '0');
    lemma_text_is_pair(text, '9', '0');
    if text == seq!['1', '0', '0'] {
        assert(text.len() == 3);
    }
}

/// The reply is the ten bytes `Executed: `, then the first bytes of the
/// command (all of them if there are at most 53, else the first 53), then a
/// newline.
pub proof fn lemma_echo_is_command_prefix(command: Seq<u8>)
    ensures
        response_bytes(command).len() == 11 + (if command.len() < 53 {
            command.len() as int
        } else {
            53
        }),
        response_bytes(command).subrange(0, 10) == seq![
            0x45u8,
            0x78,
            0x65,
            0x63,
            0x75,
            0x74,
            0x65,
            0x64,
            0x3a,
            0x20,
        ],
        forall|i: int|
            0 <= i < response_bytes(command).len() - 11 ==> response_bytes(command)[10 + i]
                == #[trigger] command[i],
        response_bytes(command)[response_bytes(command).len() - 1] == 0x0au8,
{
    assert(response_bytes(command).subrange(0, 10) =~= executed_prefix());
}

} // verus!
