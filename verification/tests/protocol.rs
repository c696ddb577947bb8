use robot_car::movement::Movement;
use robot_car::protocol::{build_response, handle_message, parse_command, Command};

fn reply_of(message: &[u8]) -> (Command, Vec<u8>) {
    let reply = handle_message(message).expect("valid UTF-8 gets a reply");
    (reply.command, reply.response)
}

#[test]
fn movement_letters() {
    for (texts, m) in [
        (["f", "F", "W"], Movement::Forward),
        (["b", "B", "S"], Movement::Reverse),
        (["l", "L", "A"], Movement::Left),
        (["r", "R", "D"], Movement::Right),
    ] {
        for t in texts {
            assert_eq!(parse_command(t), Command::Move(m));
        }
    }
    assert_eq!(parse_command("x"), Command::Move(Movement::Stop));
    assert_eq!(parse_command("X"), Command::Move(Movement::Stop));
}

#[test]
fn speed_commands() {
    assert_eq!(parse_command("1"), Command::SetSpeed(60));
    assert_eq!(parse_command("60"), Command::SetSpeed(60));
    assert_eq!(parse_command("2"), Command::SetSpeed(70));
    assert_eq!(parse_command("70"), Command::SetSpeed(70));
    assert_eq!(parse_command("3"), Command::SetSpeed(80));
    assert_eq!(parse_command("80"), Command::SetSpeed(80));
    assert_eq!(parse_command("4"), Command::SetSpeed(90));
    assert_eq!(parse_command("90"), Command::SetSpeed(90));
    assert_eq!(parse_command("5"), Command::SetSpeed(100));
    assert_eq!(parse_command("100"), Command::SetSpeed(100));
}

#[test]
fn unknown_commands() {
    for t in ["", "w", "s", "ff", "6", "50", "61", "101", "1000", "forward", "\u{e9}", "00"] {
        assert_eq!(parse_command(t), Command::Unknown, "{t}");
    }
}

#[test]
fn message_is_trimmed() {
    assert_eq!(reply_of(b"f\n"), (Command::Move(Movement::Forward), b"Executed: f\n".to_vec()));
    assert_eq!(reply_of(b"  100\r\n"), (Command::SetSpeed(100), b"Executed: 100\n".to_vec()));
    assert_eq!(reply_of(b"\tB \x0b\x0c"), (Command::Move(Movement::Reverse), b"Executed: B\n".to_vec()));
    // Unicode whitespace: no-break space and ideographic space.
    let padded = "\u{a0}L\u{3000}".as_bytes();
    assert_eq!(reply_of(padded), (Command::Move(Movement::Left), b"Executed: L\n".to_vec()));
}

#[test]
fn unknown_message_still_answered() {
    assert_eq!(reply_of(b"hello\n"), (Command::Unknown, b"Executed: hello\n".to_vec()));
    assert_eq!(reply_of(b" \n"), (Command::Unknown, b"Executed: \n".to_vec()));
    assert_eq!(reply_of(b""), (Command::Unknown, b"Executed: \n".to_vec()));
    assert_eq!(reply_of(b"f f"), (Command::Unknown, b"Executed: f f\n".to_vec()));
}

#[test]
fn invalid_utf8_is_ignored() {
    assert!(handle_message(&[0xff]).is_none());
    assert!(handle_message(&[b'f', 0xc3]).is_none());
    assert!(handle_message(&[0xed, 0xa0, 0x80]).is_none());
    // Overlong encoding and a code point above U+10FFFF.
    assert!(handle_message(&[0xc0, 0x80]).is_none());
    assert!(handle_message(&[0xf4, 0x90, 0x80, 0x80]).is_none());
}

#[test]
fn four_byte_character_is_valid() {
    let (command, response) = reply_of("\u{1F697}".as_bytes());
    assert_eq!(command, Command::Unknown);
    assert_eq!(response, b"Executed: \xf0\x9f\x9a\x97\n".to_vec());
}

#[test]
fn non_ascii_command_is_echoed() {
    let (command, response) = reply_of("\u{e9}".as_bytes());
    assert_eq!(command, Command::Unknown);
    assert_eq!(response, b"Executed: \xc3\xa9\n".to_vec());
}

#[test]
fn long_command_is_cut_to_fit() {
    let long = [b'a'; 64];
    let (_, response) = reply_of(&long);
    assert_eq!(response.len(), 64);
    assert_eq!(&response[..10], b"Executed: ");
    assert_eq!(&response[10..63], &[b'a'; 53][..]);
    assert_eq!(response[63], b'\n');

    let exact = [b'z'; 53];
    let (_, response) = reply_of(&exact);
    assert_eq!(response.len(), 64);
    let shorter = [b'z'; 52];
    let (_, response) = reply_of(&shorter);
    assert_eq!(response.len(), 63);
}

#[test]
fn response_builder() {
    assert_eq!(build_response("x"), b"Executed: x\n".to_vec());
    assert_eq!(build_response(""), b"Executed: \n".to_vec());
}
