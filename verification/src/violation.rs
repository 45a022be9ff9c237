//! The ways in which a conversation with the driver, or a call of the host
//! function, can break the protocol.

use vstd::prelude::*;

verus! {

/// A breach of the protocol. None of these is recoverable: the harness is
/// expected to abort at once, and the driver to restart it.
#[derive(Clone, Copy, Debug, PartialEq, Eq, Structural)]
pub enum Violation {
    /// A read transferred another number of bytes than was asked for, or the
    /// declared payload length cannot be held by this machine at all.
    ShortRead,
    /// The bytes read in place of a command are not the run request.
    UnexpectedCommand,
    /// The driver did not echo the handshake greeting.
    HandshakeMismatch,
    /// The payload is not text in the engine's source encoding.
    InvalidText,
    /// The buffer of the null-terminated transport is not one string that
    /// ends exactly at its last byte.
    BadTerminator,
    /// The host function was called with a command it does not know.
    UnknownHostCommand,
    /// The host function was called with an argument of the wrong kind.
    HostArgument,
    /// The host function was asked to crash with a selector other than zero.
    CrashSelector { selector: i64 },
    /// An event was reported that the current state does not wait for.
    OutOfTurn,
}

} // verus!
