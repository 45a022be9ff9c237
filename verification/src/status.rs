//! Execution outcomes and the status word reported for them.

use vstd::prelude::*;

verus! {

/// What the execution bridge reads of a value thrown by a script.
#[derive(Clone, Copy, Debug, PartialEq, Eq, Structural)]
pub enum Thrown {
    /// The thrown value is itself an integer.
    Integer(i64),
    /// Anything else: an error object, a string, a parse failure.
    Other,
}

/// The result of running one script, as far as the driver gets to see it.
#[derive(Clone, Copy, Debug, PartialEq, Eq, Structural)]
pub enum Outcome {
    /// The script ran to completion.
    Success,
    /// The script threw an integer; `code` is that integer cut to eight bits.
    Coded { code: u8 },
    /// The script failed in any other way.
    Generic,
}

/// The exit code carried by a thrown integer: its low eight bits.
pub open spec fn low_byte(value: int) -> int {
    value % 256
}

/// The outcome that stands for a run that ended with `thrown`, or normally
/// when nothing was thrown.
pub open spec fn outcome_of(completion: Option<Thrown>) -> Outcome {
    match completion {
        None => Outcome::Success,
        Some(Thrown::Integer(value)) => Outcome::Coded { code: low_byte(value as int) as u8 },
        Some(Thrown::Other) => Outcome::Generic,
    }
}

/// The exit code reported for an outcome.
pub open spec fn exit_code_of(outcome: Outcome) -> int {
    match outcome {
        Outcome::Success => 0,
        Outcome::Coded { code } => code as int,
        Outcome::Generic => 1,
    }
}

/// The status word reported for an outcome: the exit code in the
/// second-lowest byte, every other byte zero.
pub open spec fn status_word_of(outcome: Outcome) -> int {
    256 * exit_code_of(outcome)
}

/// The four bytes of a word, lowest first.
pub open spec fn le_bytes(word: u32) -> Seq<u8> {
    seq![
        (word % 0x100) as u8,
        (word / 0x100 % 0x100) as u8,
        (word / 0x1_0000 % 0x100) as u8,
        (word / 0x100_0000) as u8,
    ]
}

/// The four bytes of a word, highest first.
pub open spec fn be_bytes(word: u32) -> Seq<u8> {
    seq![
        (word / 0x100_0000) as u8,
        (word / 0x1_0000 % 0x100) as u8,
        (word / 0x100 % 0x100) as u8,
        (word % 0x100) as u8,
    ]
}

/// True when `bytes` are the bytes of `word` in one of the two orders in
/// which a machine can store it.
pub open spec fn is_native_encoding(word: u32, bytes: Seq<u8>) -> bool {
    bytes == le_bytes(word) || bytes == be_bytes(word)
}

/// Calls `u32::to_ne_bytes`, which the standard library documents to return
/// the memory representation of the integer in the byte order of the target:
/// big-endian on some machines, little-endian on the others.
#[verifier::external_body]
fn native_bytes(word: u32) -> (bytes: [u8; 4])
    ensures
        is_native_encoding(word, bytes@),
{
    word.to_ne_bytes()
}

/// The bytes in which a status word goes on the wire: the word as this
/// machine stores it.
pub fn status_bytes(word: u32) -> (bytes: [u8; 4])
    ensures
        is_native_encoding(word, bytes@),
{
    native_bytes(word)
}

/// Cuts a thrown integer down to the eight bits that fit the status word.
pub fn truncate_code(value: i64) -> (code: u8)
    ensures
        code as int == low_byte(value as int),
{
    let masked: i64 = value & 0xff;
    assert(0 <= masked < 256 && masked as int == (value as int) % 256) by (bit_vector)
        requires
            masked == value & 0xff,
    ;
    masked as u8
}

impl Outcome {
    /// Classifies the end of a run: `None` when the script completed,
    /// `Some` with what the bridge saw of the thrown value otherwise.
    pub fn classify(completion: Option<Thrown>) -> (outcome: Outcome)
        ensures
            outcome == outcome_of(completion),
    {
        match completion {
            None => Outcome::Success,
            Some(Thrown::Integer(value)) => Outcome::Coded { code: truncate_code(value) },
            Some(Thrown::Other) => Outcome::Generic,
        }
    }

    /// The process-like exit code of this outcome.
    pub fn exit_code(self) -> (code: u8)
        ensures
            code as int == exit_code_of(self),
    {
        match self {
            Outcome::Success => 0,
            Outcome::Coded { code } => code,
            Outcome::Generic => 1,
        }
    }

    /// The 32-bit status word sent to the driver for this outcome.
    pub fn status_word(self) -> (word: u32)
        ensures
            word as int == status_word_of(self),
            word & 0xff == 0,
            (word >> 8) & 0xff == exit_code_of(self),
            word >> 16 == 0,
    {
        let code: u32 = self.exit_code() as u32;
        let word: u32 = code << 8;
        assert(word == 256 * code && word & 0xff == 0 && (word >> 8) & 0xff == code && word >> 16
            == 0) by (bit_vector)
            requires
                code < 256,
                word == code << 8,
        ;
        word
    }
}

} // verus!
