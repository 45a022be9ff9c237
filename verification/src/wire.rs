//! The wire format of the control channel: descriptors, command tokens and
//! the length prefix.

use vstd::prelude::*;
use crate::violation::Violation;

verus! {

/// Descriptor on which commands and lengths arrive from the driver.
pub const CONTROL_READ_FD: i32 = 100;

/// Descriptor on which the greeting and the status words go to the driver.
pub const CONTROL_WRITE_FD: i32 = 101;

/// Descriptor that delivers script bytes, or backs the mapped region.
pub const DATA_READ_FD: i32 = 102;

/// Descriptor of the side channel that scripts print to.
pub const DATA_WRITE_FD: i32 = 103;

/// Number of bytes in a command token.
pub const COMMAND_LEN: usize = 4;

/// Number of bytes in a length prefix.
pub const LENGTH_LEN: usize = 8;

/// A token of the control channel.
#[derive(Clone, Copy, Debug, PartialEq, Eq, Structural)]
pub enum Command {
    /// The handshake greeting and its echo.
    Helo,
    /// A request to run one script.
    Exec,
}

/// The ASCII bytes `HELO`.
pub open spec fn helo_token() -> Seq<u8> {
    seq![0x48u8, 0x45u8, 0x4cu8, 0x4fu8]
}

/// The ASCII bytes `exec`.
pub open spec fn exec_token() -> Seq<u8> {
    seq![0x65u8, 0x78u8, 0x65u8, 0x63u8]
}

/// The command that four bytes spell, if any.
pub open spec fn command_of(bytes: Seq<u8>) -> Option<Command> {
    if bytes == helo_token() {
        Some(Command::Helo)
    } else if bytes == exec_token() {
        Some(Command::Exec)
    } else {
        None
    }
}

/// What a completed read of a command means: `count` is what the read
/// returned, `bytes` the buffer it filled.
pub open spec fn read_command(bytes: Seq<u8>, count: int) -> Result<Command, Violation> {
    if count != COMMAND_LEN {
        Err(Violation::ShortRead)
    } else {
        match command_of(bytes) {
            Some(command) => Ok(command),
            None => Err(Violation::UnexpectedCommand),
        }
    }
}

/// The number that eight bytes hold in little-endian order.
pub open spec fn le_value(bytes: Seq<u8>) -> int
    recommends
        bytes.len() == LENGTH_LEN,
{
    bytes[0] + 0x100 * bytes[1] + 0x1_0000 * bytes[2] + 0x100_0000 * bytes[3] + 0x1_0000_0000
        * bytes[4] + 0x100_0000_0000 * bytes[5] + 0x1_0000_0000_0000 * bytes[6]
        + 0x100_0000_0000_0000 * bytes[7]
}

/// What a completed read of a length prefix means.
pub open spec fn read_length(bytes: Seq<u8>, count: int) -> Result<u64, Violation> {
    if count != LENGTH_LEN || bytes.len() != LENGTH_LEN {
        Err(Violation::ShortRead)
    } else {
        Ok(le_value(bytes) as u64)
    }
}

/// What the echo of the greeting means.
pub open spec fn echo_verdict(bytes: Seq<u8>, count: int) -> Result<(), Violation> {
    match read_command(bytes, count) {
        Ok(Command::Helo) => Ok(()),
        Err(Violation::ShortRead) => Err(Violation::ShortRead),
        _ => Err(Violation::HandshakeMismatch),
    }
}

impl Command {
    /// The four bytes that spell this command.
    pub open spec fn token(self) -> Seq<u8> {
        match self {
            Command::Helo => helo_token(),
            Command::Exec => exec_token(),
        }
    }

    /// The bytes to put on the wire for this command.
    pub fn to_bytes(self) -> (bytes: [u8; 4])
        ensures
            bytes@ == self.token(),
    {
        let bytes: [u8; 4] = match self {
            Command::Helo => [0x48, 0x45, 0x4c, 0x4f],
            Command::Exec => [0x65, 0x78, 0x65, 0x63],
        };
        assert(bytes@ =~= self.token());
        bytes
    }

    /// Recognises a command token.
    pub fn parse(bytes: &[u8]) -> (command: Option<Command>)
        ensures
            command == command_of(bytes@),
    {
        if bytes.len() != 4 {
            return None;
        }
        if bytes[0] == 0x48 && bytes[1] == 0x45 && bytes[2] == 0x4c && bytes[3] == 0x4f {
            assert(bytes@ =~= helo_token());
            Some(Command::Helo)
        } else if bytes[0] == 0x65 && bytes[1] == 0x78 && bytes[2] == 0x65 && bytes[3] == 0x63 {
            assert(bytes@ =~= exec_token());
            Some(Command::Exec)
        } else {
            None
        }
    }

    /// Interprets a completed read of a command: `buffer` is the four-byte
    /// buffer handed to the read, `count` what the read returned.
    pub fn receive(buffer: &[u8], count: isize) -> (result: Result<Command, Violation>)
        ensures
            result == read_command(buffer@, count as int),
    {
        if count != 4 {
            return Err(Violation::ShortRead);
        }
        match Command::parse(buffer) {
            Some(command) => Ok(command),
            None => Err(Violation::UnexpectedCommand),
        }
    }
}

/// Interprets a completed read of a length prefix: `buffer` is the
/// eight-byte buffer handed to the read, `count` what the read returned.
pub fn receive_length(buffer: &[u8], count: isize) -> (result: Result<u64, Violation>)
    ensures
        result == read_length(buffer@, count as int),
{
    if count != 8 || buffer.len() != 8 {
        return Err(Violation::ShortRead);
    }
    let b0: u64 = buffer[0] as u64;
    let b1: u64 = buffer[1] as u64;
    let b2: u64 = buffer[2] as u64;
    let b3: u64 = buffer[3] as u64;
    let b4: u64 = buffer[4] as u64;
    let b5: u64 = buffer[5] as u64;
    let b6: u64 = buffer[6] as u64;
    let b7: u64 = buffer[7] as u64;
    Ok(
        b0 + 0x100 * b1 + 0x1_0000 * b2 + 0x100_0000 * b3 + 0x1_0000_0000 * b4 + 0x100_0000_0000
            * b5 + 0x1_0000_0000_0000 * b6 + 0x100_0000_0000_0000 * b7,
    )
}

/// The bytes with which the harness opens the conversation.
pub fn greeting() -> (bytes: [u8; 4])
    ensures
        bytes@ == helo_token(),
{
    Command::Helo.to_bytes()
}

/// Judges the driver's answer to the greeting: `buffer` is the four-byte
/// buffer handed to the read, `count` what the read returned.
pub fn verify_echo(buffer: &[u8], count: isize) -> (result: Result<(), Violation>)
    ensures
        result == echo_verdict(buffer@, count as int),
{
    match Command::receive(buffer, count) {
        Ok(Command::Helo) => Ok(()),
        Err(Violation::ShortRead) => Err(Violation::ShortRead),
        _ => Err(Violation::HandshakeMismatch),
    }
}

} // verus!
