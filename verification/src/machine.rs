//! The request loop as a state machine.
//!
//! The harness is in one of five states. Each state waits for one event,
//! which the embedding program produces by carrying out the action that
//! belongs to the state. [`State::step`] decides what follows.

use vstd::prelude::*;
use crate::status::{is_native_encoding, outcome_of, status_bytes, status_word_of, Outcome, Thrown};
use crate::transport::{plan_of, script_of, Plan, Transport};
use crate::violation::Violation;
use crate::wire::{read_command, read_length, receive_length, Command, COMMAND_LEN, LENGTH_LEN};

verus! {

/// Where the harness stands in the handling of one request.
#[derive(Clone, Debug, PartialEq, Eq)]
pub enum State {
    /// Waiting for the four bytes of the next command.
    AwaitCommand,
    /// Waiting for the eight bytes of the length prefix.
    ReadLength,
    /// Waiting for the payload of `length` bytes, fetched as `plan` says.
    ReadPayload { length: u64, plan: Plan },
    /// Waiting for the engine to finish `script` in a fresh context.
    Execute { script: String },
    /// Waiting for `status` to be written to the driver.
    ReportStatus { status: u32 },
}

/// The mathematical content of a [`State`].
pub enum StateView {
    AwaitCommand,
    ReadLength,
    ReadPayload { length: u64, plan: Plan },
    Execute { script: Seq<char> },
    ReportStatus { status: u32 },
}

impl View for State {
    type V = StateView;

    open spec fn view(&self) -> StateView {
        match self {
            State::AwaitCommand => StateView::AwaitCommand,
            State::ReadLength => StateView::ReadLength,
            State::ReadPayload { length, plan } => StateView::ReadPayload {
                length: *length,
                plan: *plan,
            },
            State::Execute { script } => StateView::Execute { script: script@ },
            State::ReportStatus { status } => StateView::ReportStatus { status: *status },
        }
    }
}

/// What happened when the harness carried out an action.
#[derive(Clone, Debug, PartialEq, Eq)]
pub enum Event<'a> {
    /// A read from the control descriptor returned `count`; `buffer` is the
    /// buffer it was given, of exactly the length that was asked for.
    Control { buffer: &'a [u8], count: isize },
    /// The payload was fetched: `data` is the mapped region, or the buffer
    /// that was read into, and `count` what the read returned.
    Payload { data: &'a [u8], count: isize },
    /// The engine is done with the script: `None` if it completed, else what
    /// the bridge saw of the thrown value.
    Finished { completion: Option<Thrown> },
    /// The status word is written and the coverage counters are reset.
    Reported,
}

/// The mathematical content of an [`Event`].
pub enum EventView {
    Control { bytes: Seq<u8>, count: int },
    Payload { data: Seq<u8>, count: int },
    Finished { completion: Option<Thrown> },
    Reported,
}

impl<'a> View for Event<'a> {
    type V = EventView;

    open spec fn view(&self) -> EventView {
        match self {
            Event::Control { buffer, count } => EventView::Control {
                bytes: buffer@,
                count: *count as int,
            },
            Event::Payload { data, count } => EventView::Payload {
                data: data@,
                count: *count as int,
            },
            Event::Finished { completion } => EventView::Finished { completion: *completion },
            Event::Reported => EventView::Reported,
        }
    }
}

/// What the embedding program has to do next.
#[derive(Clone, Debug, PartialEq, Eq)]
pub enum Action<'a> {
    /// Read exactly `len` bytes from the control read descriptor, blocking,
    /// and report [`Event::Control`].
    ReadControl { len: usize },
    /// Fetch a payload of `length` bytes as `plan` says and report
    /// [`Event::Payload`].
    Fetch { length: u64, plan: Plan },
    /// Run `script` as top-level source in a fresh engine context that has
    /// the host function installed, tear the context down, and report
    /// [`Event::Finished`].
    Run { script: &'a str },
    /// Flush standard output and standard error, write `bytes` to the
    /// control write descriptor, reset the coverage counters, in this order,
    /// and report [`Event::Reported`].
    Report { bytes: [u8; 4] },
}

/// The mathematical content of an [`Action`].
pub enum ActionView {
    ReadControl { len: int },
    Fetch { length: u64, plan: Plan },
    Run { script: Seq<char> },
    Report { bytes: Seq<u8> },
}

impl<'a> View for Action<'a> {
    type V = ActionView;

    open spec fn view(&self) -> ActionView {
        match self {
            Action::ReadControl { len } => ActionView::ReadControl { len: *len as int },
            Action::Fetch { length, plan } => ActionView::Fetch { length: *length, plan: *plan },
            Action::Run { script } => ActionView::Run { script: script@ },
            Action::Report { bytes } => ActionView::Report { bytes: bytes@ },
        }
    }
}

/// The state in which every harness starts, and to which it returns after
/// every request.
pub open spec fn initial() -> StateView {
    StateView::AwaitCommand
}

/// True when `action` is what a harness in `state` has to do.
pub open spec fn is_action_of(state: StateView, action: ActionView) -> bool {
    match state {
        StateView::AwaitCommand => action == (ActionView::ReadControl { len: COMMAND_LEN as int }),
        StateView::ReadLength => action == (ActionView::ReadControl { len: LENGTH_LEN as int }),
        StateView::ReadPayload { length, plan } => action == (ActionView::Fetch { length, plan }),
        StateView::Execute { script } => action == (ActionView::Run { script }),
        StateView::ReportStatus { status } => action matches ActionView::Report { bytes }
            && is_native_encoding(status, bytes),
    }
}

/// The state that follows `state` when `event` is reported, or the
/// violation that ends the process.
pub open spec fn next(transport: Transport, state: StateView, event: EventView) -> Result<
    StateView,
    Violation,
> {
    match (state, event) {
        (StateView::AwaitCommand, EventView::Control { bytes, count }) => match read_command(
            bytes,
            count,
        ) {
            Ok(Command::Exec) => Ok(StateView::ReadLength),
            Ok(Command::Helo) => Err(Violation::UnexpectedCommand),
            Err(violation) => Err(violation),
        },
        (StateView::ReadLength, EventView::Control { bytes, count }) => match read_length(
            bytes,
            count,
        ) {
            Ok(length) => match plan_of(transport, length) {
                Some(plan) => Ok(StateView::ReadPayload { length, plan }),
                None => Err(Violation::ShortRead),
            },
            Err(violation) => Err(violation),
        },
        (StateView::ReadPayload { length, plan }, EventView::Payload { data, count }) => match script_of(
            transport,
            length,
            data,
            count,
        ) {
            Ok(script) => Ok(StateView::Execute { script }),
            Err(violation) => Err(violation),
        },
        (StateView::Execute { script }, EventView::Finished { completion }) => Ok(
            StateView::ReportStatus { status: status_word_of(outcome_of(completion)) as u32 },
        ),
        (StateView::ReportStatus { status }, EventView::Reported) => Ok(StateView::AwaitCommand),
        _ => Err(Violation::OutOfTurn),
    }
}

impl State {
    /// The state in which the harness enters its loop.
    pub fn start() -> (state: State)
        ensures
            state@ == initial(),
    {
        State::AwaitCommand
    }

    /// What to do in this state.
    pub fn action(&self) -> (action: Action<'_>)
        ensures
            is_action_of(self@, action@),
    {
        match self {
            State::AwaitCommand => Action::ReadControl { len: COMMAND_LEN },
            State::ReadLength => Action::ReadControl { len: LENGTH_LEN },
            State::ReadPayload { length, plan } => Action::Fetch { length: *length, plan: *plan },
            State::Execute { script } => Action::Run { script: script.as_str() },
            State::ReportStatus { status } => Action::Report { bytes: status_bytes(*status) },
        }
    }

    /// Moves on when the action of this state has been carried out and
    /// `event` says how it went.
    pub fn step(self, transport: Transport, event: &Event<'_>) -> (result: Result<State, Violation>)
        ensures
            match next(transport, self@, event@) {
                Ok(state) => result matches Ok(s) && s@ == state,
                Err(violation) => result == Err::<State, Violation>(violation),
            },
    {
        match (self, event) {
            (State::AwaitCommand, Event::Control { buffer, count }) => {
                match Command::receive(buffer, *count) {
                    Ok(Command::Exec) => Ok(State::ReadLength),
                    Ok(Command::Helo) => Err(Violation::UnexpectedCommand),
                    Err(violation) => Err(violation),
                }
            },
            (State::ReadLength, Event::Control { buffer, count }) => {
                match receive_length(buffer, *count) {
                    Ok(length) => match transport.plan(length) {
                        Some(plan) => Ok(State::ReadPayload { length, plan }),
                        None => Err(Violation::ShortRead),
                    },
                    Err(violation) => Err(violation),
                }
            },
            (State::ReadPayload { length, plan }, Event::Payload { data, count }) => {
                match transport.accept(length, data, *count) {
                    Ok(script) => Ok(State::Execute { script }),
                    Err(violation) => Err(violation),
                }
            },
            (State::Execute { script }, Event::Finished { completion }) => {
                Ok(State::ReportStatus { status: Outcome::classify(*completion).status_word() })
            },
            (State::ReportStatus { status }, Event::Reported) => Ok(State::AwaitCommand),
            _ => Err(Violation::OutOfTurn),
        }
    }
}

} // verus!
