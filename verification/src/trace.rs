//! The relay as a machine over events, and what holds of every run of it.

use vstd::prelude::*;
use crate::pump::{Interest, PumpState};

verus! {

/// One thing that happens to the relay.
pub ghost enum Event {
    /// A drain of the master obtained these bytes.
    MasterRead(Seq<u8>),
    /// The master took this many bytes from the head of the input.
    MasterWrote(nat),
    /// The master signalled its end.
    MasterClosed,
    /// The terminal took this many bytes from the head of the output.
    TerminalWrote(nat),
    /// A drain of the terminal obtained these bytes.
    TerminalRead(Seq<u8>),
    /// The terminal signalled its end.
    TerminalClosed,
}

/// Whether `event` can meet the relay in `state`: nothing happens to a relay
/// that has ended, a closed master is neither read nor written, and no sink
/// takes more than is queued for it.
pub open spec fn permitted(state: PumpState, event: Event) -> bool {
    &&& !state.ended
    &&& match event {
        Event::MasterRead(_) => state.master_open(),
        Event::MasterWrote(n) => state.master_open() && n <= state.input.len(),
        Event::TerminalWrote(n) => n <= state.output.len(),
        _ => true,
    }
}

/// The state that `event` leaves the relay in.
pub open spec fn step(state: PumpState, event: Event) -> PumpState {
    match event {
        Event::MasterRead(bytes) => state.after_master_read(bytes),
        Event::MasterWrote(n) => state.after_master_write(n as int),
        Event::MasterClosed => state.after_master_close(),
        Event::TerminalWrote(n) => state.after_terminal_write(n as int),
        Event::TerminalRead(bytes) => state.after_terminal_read(bytes),
        Event::TerminalClosed => state.after_terminal_close(),
    }
}

/// Whether each of `events`, taken in order from `state`, is permitted in
/// the state it meets.
pub open spec fn orderly(state: PumpState, events: Seq<Event>) -> bool
    decreases events.len(),
{
    events.len() == 0 || (permitted(state, events[0]) && orderly(
        step(state, events[0]),
        events.skip(1),
    ))
}

/// The state after all of `events`, taken in order from `state`.
pub open spec fn run(state: PumpState, events: Seq<Event>) -> PumpState
    decreases events.len(),
{
    if events.len() == 0 {
        state
    } else {
        run(step(state, events[0]), events.skip(1))
    }
}

/// The bytes that `event` sends to the recorder as output.
pub open spec fn shown_as_output(event: Event) -> Seq<u8> {
    match event {
        Event::MasterRead(bytes) => bytes,
        _ => Seq::<u8>::empty(),
    }
}

/// The bytes that `event` sends to the recorder as input.
pub open spec fn shown_as_input(event: Event) -> Seq<u8> {
    match event {
        Event::TerminalRead(bytes) => bytes,
        _ => Seq::<u8>::empty(),
    }
}

/// Everything that `events` send to the recorder as output, in order.
pub open spec fn output_shown(events: Seq<Event>) -> Seq<u8>
    decreases events.len(),
{
    if events.len() == 0 {
        Seq::<u8>::empty()
    } else {
        shown_as_output(events[0]) + output_shown(events.skip(1))
    }
}

/// Everything that `events` send to the recorder as input, in order.
pub open spec fn input_shown(events: Seq<Event>) -> Seq<u8>
    decreases events.len(),
{
    if events.len() == 0 {
        Seq::<u8>::empty()
    } else {
        shown_as_input(events[0]) + input_shown(events.skip(1))
    }
}

/// Whether the terminal signals its end somewhere in `events`.
pub open spec fn terminal_closes(events: Seq<Event>) -> bool {
    exists|i: int| 0 <= i < events.len() && events[i] == Event::TerminalClosed
}

/// A permitted event keeps a consistent relay consistent.
pub proof fn law_step_consistent(state: PumpState, event: Event)
    requires
        state.consistent(),
        permitted(state, event),
    ensures
        step(state, event).consistent(),
{
    let next = step(state, event);
    match event {
        Event::MasterRead(bytes) => {
            assert(next.from_master =~= next.to_terminal + next.output);
        },
        Event::MasterWrote(n) => {
            let k = n as int;
            assert(state.input =~= state.input.take(k) + state.input.skip(k));
            assert(next.from_terminal =~= next.to_master + next.dropped_input + next.input);
        },
        Event::MasterClosed => {
            assert(next.from_terminal =~= next.to_master + next.dropped_input + next.input);
        },
        Event::TerminalWrote(n) => {
            let k = n as int;
            assert(state.output =~= state.output.take(k) + state.output.skip(k));
            assert(next.from_master =~= next.to_terminal + next.output);
        },
        Event::TerminalRead(bytes) => {
            assert(next.from_terminal =~= next.to_master + next.dropped_input + next.input);
        },
        Event::TerminalClosed => {},
    }
}

/// Every state that an orderly run reaches from a consistent state is
/// consistent: in particular no byte is lost, doubled or moved out of order
/// on its way through either buffer, however the writes were cut up.
pub proof fn law_run_consistent(state: PumpState, events: Seq<Event>)
    requires
        state.consistent(),
        orderly(state, events),
    ensures
        run(state, events).consistent(),
    decreases events.len(),
{
    if events.len() > 0 {
        law_step_consistent(state, events[0]);
        law_run_consistent(step(state, events[0]), events.skip(1));
    }
}

/// Over any run, what was read from the master is exactly what was sent to
/// the recorder as output, and what was read from the terminal is exactly
/// what was sent to it as input: byte for byte and in order.
pub proof fn law_recorded_without_loss(state: PumpState, events: Seq<Event>)
    ensures
        run(state, events).from_master == state.from_master + output_shown(events),
        run(state, events).from_terminal == state.from_terminal + input_shown(events),
    decreases events.len(),
{
    if events.len() == 0 {
        assert(state.from_master + output_shown(events) =~= state.from_master);
        assert(state.from_terminal + input_shown(events) =~= state.from_terminal);
    } else {
        let next = step(state, events[0]);
        law_recorded_without_loss(next, events.skip(1));
        assert(next.from_master =~= state.from_master + shown_as_output(events[0]));
        assert(next.from_terminal =~= state.from_terminal + shown_as_input(events[0]));
        assert(state.from_master + output_shown(events) =~= (state.from_master + shown_as_output(
            events[0],
        )) + output_shown(events.skip(1)));
        assert(state.from_terminal + input_shown(events) =~= (state.from_terminal
            + shown_as_input(events[0])) + input_shown(events.skip(1)));
    }
}

/// A run in which the terminal never signals its end does not end while
/// output is queued: if it has ended, the terminal has taken every byte
/// that the master gave.
pub proof fn law_graceful_end(state: PumpState, events: Seq<Event>)
    requires
        state.consistent(),
        !state.ended,
        orderly(state, events),
        !terminal_closes(events),
        run(state, events).ended,
    ensures
        run(state, events).output.len() == 0,
        run(state, events).to_terminal == run(state, events).from_master,
    decreases events.len(),
{
    if events.len() > 0 {
        let next = step(state, events[0]);
        let rest = events.skip(1);
        law_step_consistent(state, events[0]);
        assert(events[0] != Event::TerminalClosed);
        assert(!terminal_closes(rest)) by {
            if terminal_closes(rest) {
                let i = choose|i: int| 0 <= i < rest.len() && rest[i] == Event::TerminalClosed;
                assert(events[i + 1] == Event::TerminalClosed);
            }
        }
        if next.ended {
            assert(orderly(next, rest));
            if rest.len() > 0 {
                assert(permitted(next, rest[0]));
            }
            assert(next.terminal_interest != Interest::retired());
            assert(next.to_terminal =~= next.from_master);
        } else {
            law_graceful_end(next, rest);
        }
    }
}

/// The terminal's end ends a running relay at once and for good, with both
/// buffers as they were, whether or not anything is queued in them.
pub proof fn law_abrupt_end(state: PumpState)
    requires
        !state.ended,
    ensures
        permitted(state, Event::TerminalClosed),
        step(state, Event::TerminalClosed).ended,
        step(state, Event::TerminalClosed).output == state.output,
        step(state, Event::TerminalClosed).input == state.input,
        forall|event: Event| !permitted(step(state, Event::TerminalClosed), event),
{
}

} // verus!
