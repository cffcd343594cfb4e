//! The relay's state and its reaction to each readiness condition.

use vstd::prelude::*;
use vstd::slice::slice_subrange;
use crate::readiness::BUF_SIZE;
use crate::recorder::{Recorder, Tap, TapLog};
use crate::transfer::{drained, fits, lemma_taken_bounded, read_all, taken, write_all};
use crate::transfer::{ReadAttempt, WriteAttempt};

verus! {

/// The readiness conditions that a descriptor is registered for.
#[derive(Clone, Copy, Debug, PartialEq, Eq, Structural)]
pub struct Interest {
    pub readable: bool,
    pub writable: bool,
}

impl Interest {
    /// No condition: the descriptor has left the poller.
    pub open spec fn retired() -> Interest {
        Interest { readable: false, writable: false }
    }

    /// Readable only.
    pub open spec fn read() -> Interest {
        Interest { readable: true, writable: false }
    }

    /// Readable and writable.
    pub open spec fn read_write() -> Interest {
        Interest { readable: true, writable: true }
    }
}

/// What the relay is and has done, as contracts see it.
///
/// Besides the state proper it keeps the account of each flow: what was read
/// from its source, what its sink took, and what was given up.
pub ghost struct PumpState {
    /// Bytes read from the master and not yet written to the terminal.
    pub output: Seq<u8>,
    /// Bytes read from the terminal and not yet written to the master.
    pub input: Seq<u8>,
    /// The master has closed while output was still queued.
    pub flush: bool,
    /// The relay has ended.
    pub ended: bool,
    pub master_interest: Interest,
    pub terminal_interest: Interest,
    /// Every byte ever read from the master.
    pub from_master: Seq<u8>,
    /// Every byte ever written to the terminal.
    pub to_terminal: Seq<u8>,
    /// Every byte ever read from the terminal.
    pub from_terminal: Seq<u8>,
    /// Every byte ever written to the master.
    pub to_master: Seq<u8>,
    /// Input that was still queued when the master closed.
    pub dropped_input: Seq<u8>,
}

impl PumpState {
    /// The state before anything has happened.
    pub open spec fn initial() -> PumpState {
        PumpState {
            output: Seq::empty(),
            input: Seq::empty(),
            flush: false,
            ended: false,
            master_interest: Interest::read(),
            terminal_interest: Interest::read(),
            from_master: Seq::empty(),
            to_terminal: Seq::empty(),
            from_terminal: Seq::empty(),
            to_master: Seq::empty(),
            dropped_input: Seq::empty(),
        }
    }

    /// No byte is invented, lost, doubled or moved out of order: what came
    /// from a source is what its sink took, then what was given up when the
    /// master closed, then what is still queued.
    ///
    /// Nothing is given up while the master is open.
    pub open spec fn conserves(self) -> bool {
        &&& self.from_master == self.to_terminal + self.output
        &&& self.from_terminal == self.to_master + self.dropped_input + self.input
        &&& self.master_open() ==> self.dropped_input.len() == 0
    }

    /// The relay runs and the master has not signalled its end.
    pub open spec fn master_open(self) -> bool {
        !self.ended && !self.flush
    }

    /// Each interest set follows its buffer: while the relay runs the
    /// terminal is watched for reading, and for writing exactly while output
    /// is queued; while the master is open it is watched for reading, and
    /// for writing exactly while input is queued.
    pub open spec fn watched(self) -> bool {
        &&& !self.ended ==> self.terminal_interest == if self.output.len() > 0 {
            Interest::read_write()
        } else {
            Interest::read()
        }
        &&& self.master_open() ==> self.master_interest == if self.input.len() > 0 {
            Interest::read_write()
        } else {
            Interest::read()
        }
    }

    /// The relay goes on after the master's end only while output is queued,
    /// and it ends with output queued only by the terminal's end.
    pub open spec fn settled(self) -> bool {
        &&& self.flush && !self.ended ==> self.output.len() > 0
        &&& self.ended && self.terminal_interest != Interest::retired() ==> self.output.len()
            == 0
    }

    /// Everything that holds of the relay in every state.
    pub open spec fn consistent(self) -> bool {
        self.conserves() && self.watched() && self.settled()
    }

    /// The state after a drain of the master obtained `bytes`.
    pub open spec fn after_master_read(self, bytes: Seq<u8>) -> PumpState {
        PumpState {
            output: self.output + bytes,
            from_master: self.from_master + bytes,
            terminal_interest: if bytes.len() > 0 {
                Interest::read_write()
            } else {
                self.terminal_interest
            },
            ..self
        }
    }

    /// The state after the master took the first `n` bytes of the input.
    pub open spec fn after_master_write(self, n: int) -> PumpState {
        PumpState {
            input: self.input.skip(n),
            to_master: self.to_master + self.input.take(n),
            master_interest: if n == self.input.len() {
                Interest::read()
            } else {
                self.master_interest
            },
            ..self
        }
    }

    /// The state after the master signalled its end: it leaves the poller and
    /// the queued input is given up. The relay ends at once unless output is
    /// still queued.
    pub open spec fn after_master_close(self) -> PumpState {
        PumpState {
            input: Seq::empty(),
            dropped_input: self.dropped_input + self.input,
            master_interest: Interest::retired(),
            flush: self.flush || self.output.len() > 0,
            ended: self.output.len() == 0,
            ..self
        }
    }

    /// The state after the terminal took the first `n` bytes of the output.
    /// Once the output is gone the relay ends if the master has closed;
    /// otherwise the terminal is no longer watched for writing.
    pub open spec fn after_terminal_write(self, n: int) -> PumpState {
        PumpState {
            output: self.output.skip(n),
            to_terminal: self.to_terminal + self.output.take(n),
            ended: n == self.output.len() && self.flush,
            terminal_interest: if n == self.output.len() && !self.flush {
                Interest::read()
            } else {
                self.terminal_interest
            },
            ..self
        }
    }

    /// The state after a drain of the terminal obtained `bytes`.
    pub open spec fn after_terminal_read(self, bytes: Seq<u8>) -> PumpState {
        PumpState {
            input: self.input + bytes,
            from_terminal: self.from_terminal + bytes,
            master_interest: if bytes.len() > 0 {
                Interest::read_write()
            } else {
                self.master_interest
            },
            ..self
        }
    }

    /// The state after the terminal signalled its end: the relay ends with
    /// both buffers as they are.
    pub open spec fn after_terminal_close(self) -> PumpState {
        PumpState { terminal_interest: Interest::retired(), ended: true, ..self }
    }
}

/// The relay between a pseudo-terminal's master side and the controlling
/// terminal.
pub struct Pump {
    output: Vec<u8>,
    input: Vec<u8>,
    flush: bool,
    ended: bool,
    master_interest: Interest,
    terminal_interest: Interest,
    account: Ghost<PumpState>,
}

impl View for Pump {
    type V = PumpState;

    closed spec fn view(&self) -> PumpState {
        PumpState {
            output: self.output@,
            input: self.input@,
            flush: self.flush,
            ended: self.ended,
            master_interest: self.master_interest,
            terminal_interest: self.terminal_interest,
            ..self.account@
        }
    }
}

impl Pump {
    /// A relay that has moved nothing, with both descriptors watched for
    /// reading.
    pub fn new() -> (pump: Pump)
        ensures
            pump@ == PumpState::initial(),
            pump@.consistent(),
    {
        let pump = Pump {
            output: Vec::with_capacity(BUF_SIZE),
            input: Vec::with_capacity(BUF_SIZE),
            flush: false,
            ended: false,
            master_interest: Interest { readable: true, writable: false },
            terminal_interest: Interest { readable: true, writable: false },
            account: Ghost(PumpState::initial()),
        };
        assert(pump@.from_master == pump@.to_terminal + pump@.output);
        assert(pump@.from_terminal == pump@.to_master + pump@.dropped_input + pump@.input);
        pump
    }

    /// The output still owed to the terminal: what a write to it offers.
    pub fn output(&self) -> (bytes: &Vec<u8>)
        ensures
            bytes@ == self@.output,
    {
        &self.output
    }

    /// The input still owed to the master: what a write to it offers.
    pub fn input(&self) -> (bytes: &Vec<u8>)
        ensures
            bytes@ == self@.input,
    {
        &self.input
    }

    /// Whether the master has closed with output still to deliver.
    pub fn is_flushing(&self) -> (flush: bool)
        ensures
            flush == self@.flush,
    {
        self.flush
    }

    /// Whether the relay has ended.
    pub fn has_ended(&self) -> (ended: bool)
        ensures
            ended == self@.ended,
    {
        self.ended
    }

    /// The conditions that the master is to be registered for.
    pub fn master_interest(&self) -> (interest: Interest)
        ensures
            interest == self@.master_interest,
    {
        self.master_interest
    }

    /// The conditions that the terminal is to be registered for.
    pub fn terminal_interest(&self) -> (interest: Interest)
        ensures
            interest == self@.terminal_interest,
    {
        self.terminal_interest
    }

    /// The master was readable and `attempts` is what the reads returned.
    /// The bytes obtained join the output and go through the tap, just
    /// those and in order; if there were any, the terminal is to be watched
    /// for writing too. Returns their number.
    pub fn master_readable<R: Recorder>(
        &mut self,
        attempts: &Vec<ReadAttempt>,
        tap: &mut Tap<R>,
    ) -> (fresh: usize)
        requires
            old(self)@.consistent(),
            old(self)@.master_open(),
        ensures
            final(self)@ == old(self)@.after_master_read(drained(attempts@)),
            final(self)@.consistent(),
            fresh == drained(attempts@).len(),
            final(tap)@ == (TapLog {
                output: old(tap)@.output + drained(attempts@),
                ..old(tap)@
            }),
    {
        let offset: usize = self.output.len();
        let fresh: usize = read_all(attempts, &mut self.output);
        proof {
            let bytes = drained(attempts@);
            self.account@ = PumpState {
                from_master: self.account@.from_master + bytes,
                ..self.account@
            };
            assert(self@.to_terminal + (old(self)@.output + bytes) == (self@.to_terminal + old(
                self,
            )@.output) + bytes);
        }
        if fresh > 0 {
            let chunk = slice_subrange(self.output.as_slice(), offset, self.output.len());
            assert(chunk@ == drained(attempts@));
            tap.output(chunk);
            self.terminal_interest = Interest { readable: true, writable: true };
        } else {
            assert(drained(attempts@) == Seq::<u8>::empty());
            assert(tap@.output + Seq::<u8>::empty() == tap@.output);
        }
        fresh
    }

    /// The master was writable and `attempts` is what the writes of the
    /// queued input returned. What the master took leaves the head of the
    /// input; the rest stays as it is for the next round. Once the input is
    /// gone the master is watched for reading only. Returns how many bytes
    /// stay queued.
    pub fn master_writable(&mut self, attempts: &Vec<WriteAttempt>) -> (left: usize)
        requires
            old(self)@.consistent(),
            old(self)@.master_open(),
            fits(attempts@, old(self)@.input.len()),
        ensures
            final(self)@ == old(self)@.after_master_write(
                taken(attempts@, old(self)@.input.len()) as int,
            ),
            final(self)@.consistent(),
            left == final(self)@.input.len(),
    {
        let left: usize = write_all(attempts, &mut self.input);
        proof {
            let n = taken(attempts@, old(self)@.input.len()) as int;
            let queued = old(self)@.input;
            lemma_taken_bounded(attempts@, queued.len());
            self.account@ = PumpState {
                to_master: self.account@.to_master + queued.take(n),
                ..self.account@
            };
            assert(queued == queued.take(n) + queued.skip(n));
            assert(self@.from_terminal =~= self@.to_master + self@.dropped_input + self@.input);
        }
        if left == 0 {
            self.master_interest = Interest { readable: true, writable: false };
        }
        left
    }

    /// The master signalled its end. It is to leave the poller, and the
    /// input still queued is given up. Returns whether the relay has ended:
    /// it has if no output is queued; otherwise it goes on until the
    /// terminal has taken the output.
    pub fn master_read_closed(&mut self) -> (ended: bool)
        requires
            old(self)@.consistent(),
            !old(self)@.ended,
        ensures
            final(self)@ == old(self)@.after_master_close(),
            final(self)@.consistent(),
            ended == final(self)@.ended,
            ended ==> final(self)@.to_terminal == final(self)@.from_master,
    {
        proof {
            self.account@ = PumpState {
                dropped_input: self.account@.dropped_input + self.input@,
                ..self.account@
            };
        }
        self.input.clear();
        self.master_interest = Interest { readable: false, writable: false };
        if self.output.len() > 0 {
            self.flush = true;
        } else {
            self.ended = true;
        }
        assert(self@.from_terminal =~= self@.to_master + self@.dropped_input + self@.input);
        assert(self.ended ==> self@.to_terminal =~= self@.from_master);
        self.ended
    }

    /// The terminal was writable and `attempts` is what the writes of the
    /// queued output returned. What the terminal took leaves the head of
    /// the output; the rest stays as it is for the next round. Returns
    /// whether the relay has ended: it has once the output is gone after
    /// the master closed, and then the terminal has taken every byte that
    /// the master gave.
    pub fn terminal_writable(&mut self, attempts: &Vec<WriteAttempt>) -> (ended: bool)
        requires
            old(self)@.consistent(),
            !old(self)@.ended,
            fits(attempts@, old(self)@.output.len()),
        ensures
            final(self)@ == old(self)@.after_terminal_write(
                taken(attempts@, old(self)@.output.len()) as int,
            ),
            final(self)@.consistent(),
            ended == final(self)@.ended,
            ended ==> final(self)@.to_terminal == final(self)@.from_master,
    {
        let left: usize = write_all(attempts, &mut self.output);
        proof {
            let n = taken(attempts@, old(self)@.output.len()) as int;
            let queued = old(self)@.output;
            lemma_taken_bounded(attempts@, queued.len());
            self.account@ = PumpState {
                to_terminal: self.account@.to_terminal + queued.take(n),
                ..self.account@
            };
            assert(queued == queued.take(n) + queued.skip(n));
            assert(self@.from_master =~= self@.to_terminal + self@.output);
        }
        if left == 0 {
            if self.flush {
                self.ended = true;
            } else {
                self.terminal_interest = Interest { readable: true, writable: false };
            }
        }
        assert(self.ended ==> self@.to_terminal =~= self@.from_master);
        self.ended
    }

    /// The terminal was readable and `attempts` is what the reads returned.
    /// The bytes obtained join the input and go through the tap, just those
    /// and in order; if there were any, the master is to be watched for
    /// writing too. Returns their number.
    pub fn terminal_readable<R: Recorder>(
        &mut self,
        attempts: &Vec<ReadAttempt>,
        tap: &mut Tap<R>,
    ) -> (fresh: usize)
        requires
            old(self)@.consistent(),
            !old(self)@.ended,
        ensures
            final(self)@ == old(self)@.after_terminal_read(drained(attempts@)),
            final(self)@.consistent(),
            fresh == drained(attempts@).len(),
            final(tap)@ == (TapLog {
                input: old(tap)@.input + drained(attempts@),
                ..old(tap)@
            }),
    {
        let offset: usize = self.input.len();
        let fresh: usize = read_all(attempts, &mut self.input);
        proof {
            let bytes = drained(attempts@);
            self.account@ = PumpState {
                from_terminal: self.account@.from_terminal + bytes,
                ..self.account@
            };
            assert(self@.from_terminal =~= self@.to_master + self@.dropped_input + self@.input);
        }
        if fresh > 0 {
            let chunk = slice_subrange(self.input.as_slice(), offset, self.input.len());
            assert(chunk@ == drained(attempts@));
            tap.input(chunk);
            self.master_interest = Interest { readable: true, writable: true };
        } else {
            assert(drained(attempts@) == Seq::<u8>::empty());
            assert(tap@.input + Seq::<u8>::empty() == tap@.input);
        }
        fresh
    }

    /// The terminal signalled its end. It is to leave the poller and the
    /// relay ends at once, whatever is still queued: both buffers stay as
    /// they are and nothing more is delivered.
    pub fn terminal_read_closed(&mut self)
        requires
            old(self)@.consistent(),
            !old(self)@.ended,
        ensures
            final(self)@ == old(self)@.after_terminal_close(),
            final(self)@.consistent(),
            final(self)@.ended,
    {
        self.terminal_interest = Interest { readable: false, writable: false };
        self.ended = true;
    }
}

} // verus!
