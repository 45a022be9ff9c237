//! What holds of whole conversations: runs of the state machine over
//! sequences of events, and the laws that every such run obeys.

use vstd::prelude::*;
use vstd::utf8::{decode_utf8, valid_utf8};
use crate::machine::{initial, next, EventView, StateView};
use crate::status::{outcome_of, status_word_of, Thrown};
use crate::transport::{delivered, fell_short, plan_of, Transport};
use crate::violation::Violation;
use crate::wire::{exec_token, le_value, COMMAND_LEN, LENGTH_LEN};

verus! {

/// The states that a harness passes through when it starts in `start` and
/// is fed `events` one by one, or the violation that ended the process.
pub open spec fn run(transport: Transport, start: StateView, events: Seq<EventView>) -> Result<
    Seq<StateView>,
    Violation,
>
    decreases events.len(),
{
    if events.len() == 0 {
        Ok(Seq::empty())
    } else {
        match next(transport, start, events[0]) {
            Err(violation) => Err(violation),
            Ok(state) => match run(transport, state, events.drop_first()) {
                Err(violation) => Err(violation),
                Ok(rest) => Ok(seq![state] + rest),
            },
        }
    }
}

/// The status words that a harness reported while it passed through
/// `states`, in the order in which it reported them.
pub open spec fn reported(states: Seq<StateView>) -> Seq<u32>
    decreases states.len(),
{
    if states.len() == 0 {
        Seq::empty()
    } else {
        match states[0] {
            StateView::ReportStatus { status } => seq![status] + reported(states.drop_first()),
            _ => reported(states.drop_first()),
        }
    }
}

/// One request as the driver sends it, with what the engine made of it.
pub struct Exchange {
    /// The eight bytes of the length prefix.
    pub prefix: Seq<u8>,
    /// The bytes of the script.
    pub script: Seq<u8>,
    /// The mapped region, or the buffer that the payload was read into.
    pub data: Seq<u8>,
    /// What the read of the payload returned.
    pub count: int,
    /// How the run ended.
    pub completion: Option<Thrown>,
}

impl Exchange {
    /// The length that the prefix declares.
    pub open spec fn length(self) -> u64 {
        le_value(self.prefix) as u64
    }

    /// True when the request is one that the harness owes an answer to: the
    /// prefix declares the length of the script, the transport delivered
    /// exactly the script, and the script is text.
    pub open spec fn well_formed(self, transport: Transport) -> bool {
        &&& self.prefix.len() == LENGTH_LEN
        &&& le_value(self.prefix) == self.script.len()
        &&& plan_of(transport, self.length()) is Some
        &&& delivered(transport, self.length(), self.data, self.count) == Ok::<
            Seq<u8>,
            Violation,
        >(self.script)
        &&& valid_utf8(self.script)
    }

    /// The events that the harness sees in the course of the request.
    pub open spec fn events(self) -> Seq<EventView> {
        seq![
            EventView::Control { bytes: exec_token(), count: COMMAND_LEN as int },
            EventView::Control { bytes: self.prefix, count: LENGTH_LEN as int },
            EventView::Payload { data: self.data, count: self.count },
            EventView::Finished { completion: self.completion },
            EventView::Reported,
        ]
    }

    /// The status word that answers the request.
    pub open spec fn status(self) -> u32 {
        status_word_of(outcome_of(self.completion)) as u32
    }

    /// The states that the harness passes through in the course of the
    /// request.
    pub open spec fn states(self, transport: Transport) -> Seq<StateView> {
        seq![
            StateView::ReadLength,
            StateView::ReadPayload {
                length: self.length(),
                plan: plan_of(transport, self.length())->0,
            },
            StateView::Execute { script: decode_utf8(self.script) },
            StateView::ReportStatus { status: self.status() },
            StateView::AwaitCommand,
        ]
    }
}

/// The events of a whole conversation: those of each request in turn.
pub open spec fn session_events(exchanges: Seq<Exchange>) -> Seq<EventView>
    decreases exchanges.len(),
{
    if exchanges.len() == 0 {
        Seq::empty()
    } else {
        exchanges[0].events() + session_events(exchanges.drop_first())
    }
}

/// The states of a whole conversation: those of each request in turn.
pub open spec fn session_states(transport: Transport, exchanges: Seq<Exchange>) -> Seq<StateView>
    decreases exchanges.len(),
{
    if exchanges.len() == 0 {
        Seq::empty()
    } else {
        exchanges[0].states(transport) + session_states(transport, exchanges.drop_first())
    }
}

/// Running over two sequences of events in a row is running over the first
/// and then, from where that ended, over the second.
pub proof fn run_concat(
    transport: Transport,
    start: StateView,
    first: Seq<EventView>,
    second: Seq<EventView>,
)
    ensures
        run(transport, start, first + second) == match run(transport, start, first) {
            Err(violation) => Err::<Seq<StateView>, Violation>(violation),
            Ok(states) => match run(
                transport,
                if states.len() == 0 {
                    start
                } else {
                    states.last()
                },
                second,
            ) {
                Err(violation) => Err(violation),
                Ok(rest) => Ok(states + rest),
            },
        },
    decreases first.len(),
{
    if first.len() == 0 {
        assert(first + second =~= second);
        match run(transport, start, second) {
            Ok(rest) => {
                assert(Seq::<StateView>::empty() + rest =~= rest);
            },
            Err(_) => {},
        }
    } else {
        let all = first + second;
        assert(all[0] == first[0]);
        assert(all.drop_first() =~= first.drop_first() + second);
        match next(transport, start, first[0]) {
            Err(_) => {},
            Ok(state) => {
                run_concat(transport, state, first.drop_first(), second);
                match run(transport, state, first.drop_first()) {
                    Err(_) => {},
                    Ok(tail) => {
                        let states = seq![state] + tail;
                        if tail.len() == 0 {
                            assert(states.last() == state);
                        } else {
                            assert(states.last() == tail.last());
                        }
                        match run(transport, states.last(), second) {
                            Err(_) => {},
                            Ok(rest) => {
                                assert(seq![state] + (tail + rest) =~= states + rest);
                            },
                        }
                    },
                }
            },
        }
    }
}

/// A request that the harness owes an answer to takes it through the five
/// states once, from the initial state back to it, and is answered by one
/// status word: the one that stands for how the run ended. The word is
/// reported before the harness waits for the next command.
pub proof fn law_round_trip(transport: Transport, exchange: Exchange)
    requires
        exchange.well_formed(transport),
    ensures
        run(transport, initial(), exchange.events()) == Ok::<Seq<StateView>, Violation>(
            exchange.states(transport),
        ),
        reported(exchange.states(transport)) == seq![exchange.status()],
        exchange.states(transport).last() == initial(),
{
    let events = exchange.events();
    let states = exchange.states(transport);
    let e1 = events.drop_first();
    let e2 = e1.drop_first();
    let e3 = e2.drop_first();
    let e4 = e3.drop_first();
    let e5 = e4.drop_first();
    let r5 = Seq::<StateView>::empty();
    let r4 = seq![states[4]] + r5;
    let r3 = seq![states[3]] + r4;
    let r2 = seq![states[2]] + r3;
    let r1 = seq![states[1]] + r2;
    let r0 = seq![states[0]] + r1;
    assert(e5.len() == 0);
    assert(run(transport, states[4], e5) == Ok::<Seq<StateView>, Violation>(r5));
    assert(e4[0] == events[4]);
    assert(next(transport, states[3], e4[0]) == Ok::<StateView, Violation>(states[4]));
    assert(run(transport, states[3], e4) == Ok::<Seq<StateView>, Violation>(r4));
    assert(e3[0] == events[3]);
    assert(next(transport, states[2], e3[0]) == Ok::<StateView, Violation>(states[3]));
    assert(run(transport, states[2], e3) == Ok::<Seq<StateView>, Violation>(r3));
    assert(e2[0] == events[2]);
    assert(next(transport, states[1], e2[0]) == Ok::<StateView, Violation>(states[2]));
    assert(run(transport, states[1], e2) == Ok::<Seq<StateView>, Violation>(r2));
    assert(e1[0] == events[1]);
    assert(next(transport, states[0], e1[0]) == Ok::<StateView, Violation>(states[1]));
    assert(run(transport, states[0], e1) == Ok::<Seq<StateView>, Violation>(r1));
    assert(next(transport, initial(), events[0]) == Ok::<StateView, Violation>(states[0]));
    assert(run(transport, initial(), events) == Ok::<Seq<StateView>, Violation>(r0));
    assert(r0 =~= states);
    reveal_with_fuel(reported, 6);
    assert(reported(states) =~= seq![exchange.status()]);
}

/// The status words of two stretches of states in a row are those of the
/// first followed by those of the second.
pub proof fn reported_concat(first: Seq<StateView>, second: Seq<StateView>)
    ensures
        reported(first + second) == reported(first) + reported(second),
    decreases first.len(),
{
    if first.len() == 0 {
        assert(first + second =~= second);
        assert(reported(first) + reported(second) =~= reported(second));
    } else {
        let all = first + second;
        assert(all[0] == first[0]);
        assert(all.drop_first() =~= first.drop_first() + second);
        reported_concat(first.drop_first(), second);
        match first[0] {
            StateView::ReportStatus { status } => {
                assert(seq![status] + (reported(first.drop_first()) + reported(second)) =~= (
                seq![status] + reported(first.drop_first())) + reported(second));
            },
            _ => {},
        }
    }
}

/// The states of a conversation come in groups of five, one group for each
/// request, in the order of the requests.
pub proof fn session_states_layout(transport: Transport, exchanges: Seq<Exchange>, index: int)
    requires
        0 <= index < exchanges.len(),
    ensures
        session_states(transport, exchanges).len() == 5 * exchanges.len(),
        session_states(transport, exchanges).subrange(5 * index, 5 * index + 5)
            == exchanges[index].states(transport),
    decreases exchanges.len(),
{
    let head = exchanges[0].states(transport);
    let rest = exchanges.drop_first();
    let all = session_states(transport, exchanges);
    assert(all == head + session_states(transport, rest));
    if rest.len() > 0 {
        session_states_layout(transport, rest, 0);
    }
    if index == 0 {
        assert(all.subrange(0, 5) =~= head);
    } else {
        session_states_layout(transport, rest, index - 1);
        assert(rest[index - 1] == exchanges[index]);
        assert(all.subrange(5 * index, 5 * index + 5) =~= session_states(transport, rest).subrange(
            5 * (index - 1),
            5 * (index - 1) + 5,
        ));
    }
}

/// Across any number of requests in a row that the harness owes an answer
/// to, it passes through exactly the states of each request in turn. It
/// reports as many status words as there were requests, the word of each
/// request in the place of that request, and ends where it began.
pub proof fn law_sequencing(transport: Transport, exchanges: Seq<Exchange>)
    requires
        forall|i: int| 0 <= i < exchanges.len() ==> (#[trigger] exchanges[i]).well_formed(transport),
    ensures
        run(transport, initial(), session_events(exchanges)) == Ok::<Seq<StateView>, Violation>(
            session_states(transport, exchanges),
        ),
        reported(session_states(transport, exchanges)) == Seq::new(
            exchanges.len(),
            |i: int| exchanges[i].status(),
        ),
        exchanges.len() > 0 ==> session_states(transport, exchanges).last() == initial(),
    decreases exchanges.len(),
{
    let words = Seq::new(exchanges.len(), |i: int| exchanges[i].status());
    if exchanges.len() == 0 {
        assert(reported(session_states(transport, exchanges)) =~= words);
    } else {
        let head = exchanges[0];
        let rest = exchanges.drop_first();
        assert forall|i: int| 0 <= i < rest.len() implies (#[trigger] rest[i]).well_formed(
            transport,
        ) by {
            assert(rest[i] == exchanges[i + 1]);
        }
        law_round_trip(transport, head);
        law_sequencing(transport, rest);
        run_concat(transport, initial(), head.events(), session_events(rest));
        reported_concat(head.states(transport), session_states(transport, rest));
        let rest_words = Seq::new(rest.len(), |i: int| rest[i].status());
        assert(seq![head.status()] + rest_words =~= words) by {
            assert forall|i: int| 0 <= i < words.len() implies (seq![head.status()] + rest_words)[i]
                == words[i] by {
                if i > 0 {
                    assert(rest[i - 1] == exchanges[i]);
                }
            }
        }
        let all = session_states(transport, exchanges);
        assert(all == head.states(transport) + session_states(transport, rest));
        if rest.len() == 0 {
            assert(session_states(transport, rest) =~= Seq::<StateView>::empty());
            assert(all =~= head.states(transport));
        } else {
            assert(all.last() == session_states(transport, rest).last());
        }
    }
}

/// In a conversation of requests that the harness owes an answer to, the
/// status word of each request is reported directly after the run of its
/// own script, and directly before the harness waits for the next command.
pub proof fn law_status_follows_script(
    transport: Transport,
    exchanges: Seq<Exchange>,
    index: int,
)
    requires
        0 <= index < exchanges.len(),
    ensures
        session_states(transport, exchanges).len() == 5 * exchanges.len(),
        session_states(transport, exchanges)[5 * index + 2] == (StateView::Execute {
            script: decode_utf8(exchanges[index].script),
        }),
        session_states(transport, exchanges)[5 * index + 3] == (StateView::ReportStatus {
            status: exchanges[index].status(),
        }),
        session_states(transport, exchanges)[5 * index + 4] == initial(),
{
    session_states_layout(transport, exchanges, index);
    let all = session_states(transport, exchanges);
    let group = all.subrange(5 * index, 5 * index + 5);
    assert(group[2] == all[5 * index + 2]);
    assert(group[3] == all[5 * index + 3]);
    assert(group[4] == all[5 * index + 4]);
}

/// A request whose declared length the data channel does not satisfy ends
/// the process with a short read, whatever went before it and whatever is
/// reported after it: no status word answers it.
pub proof fn law_short_payload_is_fatal(
    transport: Transport,
    exchanges: Seq<Exchange>,
    prefix: Seq<u8>,
    data: Seq<u8>,
    count: int,
    rest: Seq<EventView>,
)
    requires
        forall|i: int| 0 <= i < exchanges.len() ==> (#[trigger] exchanges[i]).well_formed(transport),
        prefix.len() == LENGTH_LEN,
        fell_short(transport, le_value(prefix) as u64, data, count),
    ensures
        run(
            transport,
            initial(),
            session_events(exchanges) + (seq![
                EventView::Control { bytes: exec_token(), count: COMMAND_LEN as int },
                EventView::Control { bytes: prefix, count: LENGTH_LEN as int },
                EventView::Payload { data, count },
            ] + rest),
        ) == Err::<Seq<StateView>, Violation>(Violation::ShortRead),
{
    let request = seq![
        EventView::Control { bytes: exec_token(), count: COMMAND_LEN as int },
        EventView::Control { bytes: prefix, count: LENGTH_LEN as int },
        EventView::Payload { data, count },
    ];
    let tail = request + rest;
    law_sequencing(transport, exchanges);
    run_concat(transport, initial(), session_events(exchanges), tail);
    let t1 = tail.drop_first();
    let t2 = t1.drop_first();
    assert(tail[0] == request[0]);
    assert(t1[0] == request[1]);
    assert(t2[0] == request[2]);
    let length = le_value(prefix) as u64;
    assert(next(transport, initial(), tail[0]) == Ok::<StateView, Violation>(StateView::ReadLength));
    match plan_of(transport, length) {
        None => {
            assert(next(transport, StateView::ReadLength, t1[0]) == Err::<StateView, Violation>(
                Violation::ShortRead,
            ));
            assert(run(transport, StateView::ReadLength, t1) == Err::<Seq<StateView>, Violation>(
                Violation::ShortRead,
            ));
        },
        Some(plan) => {
            let waiting = StateView::ReadPayload { length, plan };
            assert(next(transport, StateView::ReadLength, t1[0]) == Ok::<StateView, Violation>(
                waiting,
            ));
            assert(next(transport, waiting, t2[0]) == Err::<StateView, Violation>(
                Violation::ShortRead,
            ));
            assert(run(transport, waiting, t2) == Err::<Seq<StateView>, Violation>(
                Violation::ShortRead,
            ));
            assert(run(transport, StateView::ReadLength, t1) == Err::<Seq<StateView>, Violation>(
                Violation::ShortRead,
            ));
        },
    }
    assert(run(transport, initial(), tail) == Err::<Seq<StateView>, Violation>(
        Violation::ShortRead,
    ));
}

} // verus!
