//! Script transport: how the bytes of a script reach the harness, and when
//! a transfer counts as complete.
//!
//! Three strategies deliver the same payload. They differ in the buffer the
//! harness has to provide, in what it asks the data channel for, and in how
//! it convinces itself afterwards that all of the payload arrived.

use vstd::prelude::*;
use vstd::slice::{slice_subrange, slice_to_vec};
use vstd::utf8::{decode_utf8, encode_utf8, encode_utf8_decode_utf8, valid_utf8};
use crate::violation::Violation;

verus! {

/// The way script bytes cross from the driver into the harness.
#[derive(Clone, Copy, Debug, PartialEq, Eq, Structural)]
pub enum Transport {
    /// The data descriptor is mapped once, read-only; the driver writes the
    /// payload into the backing memory before it sends the run request.
    Mapped,
    /// The payload is read from the data descriptor into a buffer of
    /// exactly its length.
    DirectRead,
    /// The payload is read into a zeroed buffer one byte longer than itself,
    /// which is then taken as one null-terminated string.
    NullTerminated,
}

/// What the harness has to do to fetch a payload.
#[derive(Clone, Copy, Debug, PartialEq, Eq, Structural)]
pub struct Plan {
    /// Size of the zeroed buffer to provide, in bytes.
    pub capacity: usize,
    /// Number of bytes to read from the data descriptor into the front of
    /// that buffer.
    pub request: usize,
}

/// The plan for a payload of `length` bytes, or `None` where no buffer of
/// the size it takes can exist on this machine.
pub open spec fn plan_of(transport: Transport, length: u64) -> Option<Plan> {
    match transport {
        Transport::Mapped => Some(Plan { capacity: 0, request: 0 }),
        Transport::DirectRead => if length <= isize::MAX {
            Some(Plan { capacity: length as usize, request: length as usize })
        } else {
            None
        },
        Transport::NullTerminated => if length + 1 <= isize::MAX {
            Some(Plan { capacity: (length + 1) as usize, request: length as usize })
        } else {
            None
        },
    }
}

/// True when `data` holds exactly one string of `length` bytes followed by
/// its terminator: a zero at index `length` and none before it.
pub open spec fn terminated_at(data: Seq<u8>, length: int) -> bool {
    &&& 0 <= length < data.len()
    &&& data[length] == 0
    &&& forall|i: int| 0 <= i < length ==> data[i] != 0
}

/// The payload bytes that a completed transfer delivered.
///
/// `data` is the mapped region, or the buffer that was read into; `count`
/// is what the read returned, and plays no part for the mapped region.
pub open spec fn delivered(transport: Transport, length: u64, data: Seq<u8>, count: int) -> Result<
    Seq<u8>,
    Violation,
> {
    match transport {
        Transport::Mapped => if length <= data.len() {
            Ok(data.subrange(0, length as int))
        } else {
            Err(Violation::ShortRead)
        },
        Transport::DirectRead => if count == length && length <= data.len() {
            Ok(data.subrange(0, length as int))
        } else {
            Err(Violation::ShortRead)
        },
        Transport::NullTerminated => if count == length && length < data.len() {
            if terminated_at(data, length as int) {
                Ok(data.subrange(0, length as int))
            } else {
                Err(Violation::BadTerminator)
            }
        } else {
            Err(Violation::ShortRead)
        },
    }
}

/// True when the data channel made fewer bytes available than `length`:
/// the mapped region is smaller, or the read returned less.
pub open spec fn fell_short(transport: Transport, length: u64, data: Seq<u8>, count: int) -> bool {
    match transport {
        Transport::Mapped => data.len() < length,
        _ => count < length,
    }
}

/// The text of payload bytes, if they are text.
pub open spec fn text_of(payload: Seq<u8>) -> Result<Seq<char>, Violation> {
    if valid_utf8(payload) {
        Ok(decode_utf8(payload))
    } else {
        Err(Violation::InvalidText)
    }
}

/// The script that a completed transfer delivered.
pub open spec fn script_of(transport: Transport, length: u64, data: Seq<u8>, count: int) -> Result<
    Seq<char>,
    Violation,
> {
    match delivered(transport, length, data, count) {
        Ok(payload) => text_of(payload),
        Err(violation) => Err(violation),
    }
}

/// Calls `String::from_utf8`. The standard library documents that it
/// succeeds exactly on well-formed UTF-8 and that the string it returns
/// holds the very bytes it was given; `valid_utf8` and `encode_utf8` are
/// vstd's statement of that encoding.
#[verifier::external_body]
fn string_from_utf8(bytes: Vec<u8>) -> (text: Option<String>)
    ensures
        text is Some <==> valid_utf8(bytes@),
        text matches Some(s) ==> encode_utf8(s@) == bytes@,
{
    match String::from_utf8(bytes) {
        Ok(text) => Some(text),
        Err(_) => None,
    }
}

/// Decodes payload bytes as text.
pub fn decode_text(payload: &[u8]) -> (result: Result<String, Violation>)
    ensures
        match text_of(payload@) {
            Ok(text) => result matches Ok(s) && s@ == text,
            Err(violation) => result == Err::<String, Violation>(violation),
        },
{
    match string_from_utf8(slice_to_vec(payload)) {
        Some(text) => {
            proof {
                encode_utf8_decode_utf8(text@);
            }
            Ok(text)
        },
        None => Err(Violation::InvalidText),
    }
}

/// Checks that the first `length` bytes of `data` hold no zero.
fn no_zero_before(data: &[u8], length: usize) -> (clean: bool)
    requires
        length <= data@.len(),
    ensures
        clean == forall|i: int| 0 <= i < length ==> data@[i] != 0,
{
    let mut index: usize = 0;
    while index < length
        invariant
            index <= length <= data@.len(),
            forall|i: int| 0 <= i < index ==> data@[i] != 0,
        decreases length - index,
    {
        if data[index] == 0 {
            return false;
        }
        index += 1;
    }
    true
}

impl Transport {
    /// Says what buffer to provide and how much to read for a payload of
    /// `length` bytes.
    pub fn plan(self, length: u64) -> (plan: Option<Plan>)
        ensures
            plan == plan_of(self, length),
    {
        match self {
            Transport::Mapped => Some(Plan { capacity: 0, request: 0 }),
            Transport::DirectRead => if length <= isize::MAX as u64 {
                Some(Plan { capacity: length as usize, request: length as usize })
            } else {
                None
            },
            Transport::NullTerminated => if length < isize::MAX as u64 {
                Some(Plan { capacity: (length + 1) as usize, request: length as usize })
            } else {
                None
            },
        }
    }

    /// Takes the payload out of a completed transfer.
    ///
    /// `data` is the mapped region, or the buffer that was read into, and
    /// `count` what the read returned. The transfer is short unless the
    /// number of bytes transferred is exactly `length`.
    pub fn payload<'a>(self, length: u64, data: &'a [u8], count: isize) -> (result: Result<
        &'a [u8],
        Violation,
    >)
        ensures
            match delivered(self, length, data@, count as int) {
                Ok(payload) => result matches Ok(p) && p@ == payload,
                Err(violation) => result == Err::<&[u8], Violation>(violation),
            },
    {
        let available: usize = data.len();
        match self {
            Transport::Mapped => {
                if length > available as u64 {
                    return Err(Violation::ShortRead);
                }
            },
            Transport::DirectRead => {
                if count < 0 || count as u64 != length || length > available as u64 {
                    return Err(Violation::ShortRead);
                }
            },
            Transport::NullTerminated => {
                if count < 0 || count as u64 != length || length >= available as u64 {
                    return Err(Violation::ShortRead);
                }
                let end: usize = length as usize;
                if data[end] != 0 || !no_zero_before(data, end) {
                    return Err(Violation::BadTerminator);
                }
            },
        }
        Ok(slice_subrange(data, 0, length as usize))
    }

    /// Turns a completed transfer into the script to run: the payload,
    /// decoded as text.
    pub fn accept(self, length: u64, data: &[u8], count: isize) -> (result: Result<
        String,
        Violation,
    >)
        ensures
            match script_of(self, length, data@, count as int) {
                Ok(text) => result matches Ok(s) && s@ == text,
                Err(violation) => result == Err::<String, Violation>(violation),
            },
    {
        match self.payload(length, data, count) {
            Ok(payload) => decode_text(payload),
            Err(violation) => Err(violation),
        }
    }
}

} // verus!
