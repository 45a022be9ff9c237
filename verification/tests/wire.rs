use reprl::violation::Violation;
use reprl::wire::{
    greeting, receive_length, verify_echo, Command, COMMAND_LEN, CONTROL_READ_FD,
    CONTROL_WRITE_FD, DATA_READ_FD, DATA_WRITE_FD, LENGTH_LEN,
};

#[test]
fn descriptors_are_the_agreed_ones() {
    assert_eq!(CONTROL_READ_FD, 100);
    assert_eq!(CONTROL_WRITE_FD, 101);
    assert_eq!(DATA_READ_FD, 102);
    assert_eq!(DATA_WRITE_FD, 103);
    assert_eq!(COMMAND_LEN, 4);
    assert_eq!(LENGTH_LEN, 8);
}

#[test]
fn greeting_is_exactly_helo() {
    let bytes = greeting();
    assert_eq!(bytes.len(), 4);
    assert_eq!(&bytes, b"HELO");
}

#[test]
fn handshake_accepts_the_echo() {
    assert_eq!(verify_echo(b"HELO", 4), Ok(()));
}

#[test]
fn handshake_rejects_another_answer() {
    assert_eq!(verify_echo(b"helo", 4), Err(Violation::HandshakeMismatch));
    assert_eq!(verify_echo(b"exec", 4), Err(Violation::HandshakeMismatch));
    assert_eq!(verify_echo(b"HELO!", 4), Err(Violation::HandshakeMismatch));
}

#[test]
fn handshake_rejects_a_short_read() {
    assert_eq!(verify_echo(b"HEL\0", 3), Err(Violation::ShortRead));
    assert_eq!(verify_echo(b"\0\0\0\0", 0), Err(Violation::ShortRead));
    assert_eq!(verify_echo(b"HELO", -1), Err(Violation::ShortRead));
}

#[test]
fn tokens_spell_their_commands() {
    assert_eq!(&Command::Helo.to_bytes(), b"HELO");
    assert_eq!(&Command::Exec.to_bytes(), b"exec");
    assert_eq!(Command::parse(b"HELO"), Some(Command::Helo));
    assert_eq!(Command::parse(b"exec"), Some(Command::Exec));
}

#[test]
fn other_bytes_are_no_command() {
    assert_eq!(Command::parse(b"EXEC"), None);
    assert_eq!(Command::parse(b"exe"), None);
    assert_eq!(Command::parse(b"execs"), None);
    assert_eq!(Command::parse(b""), None);
    assert_eq!(Command::parse(b"exeb"), None);
}

#[test]
fn a_command_needs_all_four_bytes() {
    assert_eq!(Command::receive(b"exec", 4), Ok(Command::Exec));
    assert_eq!(Command::receive(b"HELO", 4), Ok(Command::Helo));
    assert_eq!(Command::receive(b"exec", 3), Err(Violation::ShortRead));
    assert_eq!(Command::receive(b"exec", 5), Err(Violation::ShortRead));
    assert_eq!(Command::receive(b"quit", 4), Err(Violation::UnexpectedCommand));
}

#[test]
fn length_is_little_endian() {
    assert_eq!(receive_length(&[0, 0, 0, 0, 0, 0, 0, 0], 8), Ok(0));
    assert_eq!(receive_length(&[1, 0, 0, 0, 0, 0, 0, 0], 8), Ok(1));
    assert_eq!(receive_length(&[1, 2, 0, 0, 0, 0, 0, 0], 8), Ok(513));
    assert_eq!(receive_length(&[0, 0, 0, 0, 0, 0, 0, 1], 8), Ok(1 << 56));
    assert_eq!(receive_length(&[0xff; 8], 8), Ok(u64::MAX));
    assert_eq!(
        receive_length(&[0x08, 0x07, 0x06, 0x05, 0x04, 0x03, 0x02, 0x01], 8),
        Ok(0x0102_0304_0506_0708)
    );
}

#[test]
fn length_agrees_with_the_standard_decoding() {
    for value in [0u64, 5, 255, 256, 65_535, 1 << 32, 0xdead_beef_0bad_f00d, u64::MAX - 1] {
        assert_eq!(receive_length(&value.to_le_bytes(), 8), Ok(value));
    }
}

#[test]
fn length_needs_all_eight_bytes() {
    assert_eq!(receive_length(&[5, 0, 0, 0, 0, 0, 0, 0], 7), Err(Violation::ShortRead));
    assert_eq!(receive_length(&[5, 0, 0, 0, 0, 0, 0, 0], 0), Err(Violation::ShortRead));
    assert_eq!(receive_length(&[5, 0, 0, 0, 0, 0, 0, 0], -1), Err(Violation::ShortRead));
    assert_eq!(receive_length(&[5, 0, 0, 0, 0, 0, 0], 8), Err(Violation::ShortRead));
    assert_eq!(receive_length(&[5, 0, 0, 0, 0, 0, 0, 0, 0], 8), Err(Violation::ShortRead));
}
