//! The host function that scripts call to print on the side channel or to
//! ask for a deliberate crash.
//!
//! The function is installed under [`HOST_FUNCTION_NAME`] in every fresh
//! engine context. What it decides is here; what it then does to the
//! process is left to the embedding program.

use vstd::prelude::*;
use vstd::string::StrSliceExecFns;
use vstd::utf8::encode_utf8;
use crate::violation::Violation;

verus! {

/// Global name under which the host function is installed.
pub const HOST_FUNCTION_NAME: &'static str = "fuzzilli";

/// Number of arguments the host function declares.
pub const HOST_FUNCTION_ARITY: u32 = 2;

/// What the host function reads of one of its arguments.
#[derive(Clone, Debug, PartialEq, Eq)]
pub enum HostValue {
    /// The argument is a string.
    Text(String),
    /// The argument is an integer.
    Integer(i64),
    /// The argument is missing, or of any other kind.
    Other,
}

/// What the host function has to do for a well-formed call.
#[derive(Clone, Debug, PartialEq, Eq)]
pub enum HostAction {
    /// Write these bytes to the side channel and flush it.
    Print { bytes: Vec<u8> },
    /// Write through an address that is not mapped, so that the operating
    /// system ends the process with a memory fault.
    Crash,
}

/// The mathematical content of a [`HostAction`].
pub enum HostActionView {
    Print { bytes: Seq<u8> },
    Crash,
}

impl View for HostAction {
    type V = HostActionView;

    open spec fn view(&self) -> HostActionView {
        match self {
            HostAction::Print { bytes } => HostActionView::Print { bytes: bytes@ },
            HostAction::Crash => HostActionView::Crash,
        }
    }
}

/// The command that prints its argument on the side channel.
pub open spec fn print_command() -> Seq<char> {
    "FUZZILLI_PRINT"@
}

/// The command that crashes the process.
pub open spec fn crash_command() -> Seq<char> {
    "FUZZILLI_CRASH"@
}

/// What a print request does with its argument.
pub open spec fn print_request(argument: HostValue) -> Result<HostActionView, Violation> {
    match argument {
        HostValue::Text(text) => Ok(HostActionView::Print { bytes: encode_utf8(text@) }),
        _ => Err(Violation::HostArgument),
    }
}

/// What a crash request does with its argument.
pub open spec fn crash_request(argument: HostValue) -> Result<HostActionView, Violation> {
    match argument {
        HostValue::Integer(selector) => if selector == 0 {
            Ok(HostActionView::Crash)
        } else {
            Err(Violation::CrashSelector { selector })
        },
        _ => Err(Violation::HostArgument),
    }
}

/// What a call of the host function with these two arguments asks for.
pub open spec fn request_of(command: HostValue, argument: HostValue) -> Result<
    HostActionView,
    Violation,
> {
    match command {
        HostValue::Text(name) => if name@ == print_command() {
            print_request(argument)
        } else if name@ == crash_command() {
            crash_request(argument)
        } else {
            Err(Violation::UnknownHostCommand)
        },
        _ => Err(Violation::HostArgument),
    }
}

/// Decides what a call of the host function asks for.
///
/// `command` and `argument` are the first and second argument of the call.
/// An error means that the process is to abort; for
/// [`Violation::CrashSelector`] it reports the selector as it does.
pub fn dispatch(command: &HostValue, argument: &HostValue) -> (result: Result<
    HostAction,
    Violation,
>)
    ensures
        match request_of(*command, *argument) {
            Ok(action) => result matches Ok(a) && a@ == action,
            Err(violation) => result == Err::<HostAction, Violation>(violation),
        },
{
    let name: &String = match command {
        HostValue::Text(name) => name,
        _ => {
            return Err(Violation::HostArgument);
        },
    };
    if *name == "FUZZILLI_PRINT".to_owned() {
        match argument {
            HostValue::Text(text) => Ok(HostAction::Print { bytes: text.as_str().as_bytes_vec() }),
            _ => Err(Violation::HostArgument),
        }
    } else if *name == "FUZZILLI_CRASH".to_owned() {
        match argument {
            HostValue::Integer(selector) => if *selector == 0 {
                Ok(HostAction::Crash)
            } else {
                Err(Violation::CrashSelector { selector: *selector })
            },
            _ => Err(Violation::HostArgument),
        }
    } else {
        Err(Violation::UnknownHostCommand)
    }
}

} // verus!
