//! The sink that observes a session, and the tap through which the relay
//! feeds it.

use vstd::prelude::*;

verus! {

/// The error that a sink may fail its start with. It is carried through, never
/// inspected.
#[verifier::external_type_specification]
#[verifier::external_body]
pub struct ExIoError(std::io::Error);

/// An observer of one session. It is told the terminal's size once, before
/// the session exists, and then every chunk that the relay reads, in the
/// order in which the relay reads them. Where a chunk ends carries no
/// meaning.
pub trait Recorder {
    /// Announces a session on a terminal of `size` (columns, rows). A failure
    /// calls the session off.
    fn start(&mut self, size: (u16, u16)) -> Result<(), std::io::Error>;

    /// Takes bytes that the child wrote to its terminal.
    fn output(&mut self, data: &[u8]);

    /// Takes bytes that the user typed on the controlling terminal.
    fn input(&mut self, data: &[u8]);
}

/// What a tap has handed to its recorder.
pub ghost struct TapLog {
    /// The sizes of the starts it announced, in order.
    pub starts: Seq<(u16, u16)>,
    /// All bytes it handed over as output, in order.
    pub output: Seq<u8>,
    /// All bytes it handed over as input, in order.
    pub input: Seq<u8>,
}

impl TapLog {
    /// The log of a tap that has handed on nothing.
    pub open spec fn blank() -> TapLog {
        TapLog { starts: Seq::empty(), output: Seq::empty(), input: Seq::empty() }
    }
}

/// The relay's line to a recorder. It hands on every call and keeps the
/// account of what it handed on.
pub struct Tap<'a, R: Recorder> {
    recorder: &'a mut R,
    log: Ghost<TapLog>,
}

impl<'a, R: Recorder> View for Tap<'a, R> {
    type V = TapLog;

    closed spec fn view(&self) -> TapLog {
        self.log@
    }
}

impl<'a, R: Recorder> Tap<'a, R> {
    /// A tap on `recorder` that has handed on nothing yet.
    pub fn new(recorder: &'a mut R) -> (tap: Self)
        ensures
            tap@ == TapLog::blank(),
    {
        Tap { recorder, log: Ghost(TapLog::blank()) }
    }

    /// Hands the start on to the recorder, and its answer back. Whether the
    /// start succeeds is the recorder's to say.
    pub fn start(&mut self, size: (u16, u16)) -> (answer: Result<(), std::io::Error>)
        ensures
            final(self)@ == (TapLog { starts: old(self)@.starts.push(size), ..old(self)@ }),
    {
        proof {
            self.log@ = TapLog { starts: self.log@.starts.push(size), ..self.log@ };
        }
        self.recorder.start(size)
    }

    /// Hands `data` to the recorder's `output`.
    pub fn output(&mut self, data: &[u8])
        ensures
            final(self)@ == (TapLog { output: old(self)@.output + data@, ..old(self)@ }),
    {
        self.recorder.output(data);
        proof {
            self.log@ = TapLog { output: self.log@.output + data@, ..self.log@ };
        }
    }

    /// Hands `data` to the recorder's `input`.
    pub fn input(&mut self, data: &[u8])
        ensures
            final(self)@ == (TapLog { input: old(self)@.input + data@, ..old(self)@ }),
    {
        self.recorder.input(data);
        proof {
            self.log@ = TapLog { input: self.log@.input + data@, ..self.log@ };
        }
    }
}

/// A recorder that keeps both streams in memory.
pub struct Transcript {
    size: Option<(u16, u16)>,
    output: Vec<u8>,
    input: Vec<u8>,
}

impl Transcript {
    /// The size that the session started with, if it has started.
    pub closed spec fn started_with(&self) -> Option<(u16, u16)> {
        self.size
    }

    /// The child's bytes that it holds.
    pub closed spec fn kept_output(&self) -> Seq<u8> {
        self.output@
    }

    /// The user's bytes that it holds.
    pub closed spec fn kept_input(&self) -> Seq<u8> {
        self.input@
    }

    /// An empty transcript of a session that has not started.
    pub fn new() -> (t: Transcript)
        ensures
            t.started_with().is_none(),
            t.kept_output() == Seq::<u8>::empty(),
            t.kept_input() == Seq::<u8>::empty(),
    {
        Transcript { size: None, output: Vec::new(), input: Vec::new() }
    }

    /// The size announced at the start, columns first.
    pub fn size(&self) -> (size: Option<(u16, u16)>)
        ensures
            size == self.started_with(),
    {
        self.size
    }

    /// The child's bytes recorded so far.
    pub fn recorded_output(&self) -> (bytes: &Vec<u8>)
        ensures
            bytes@ == self.kept_output(),
    {
        &self.output
    }

    /// The user's bytes recorded so far.
    pub fn recorded_input(&self) -> (bytes: &Vec<u8>)
        ensures
            bytes@ == self.kept_input(),
    {
        &self.input
    }
}

impl Recorder for Transcript {
    fn start(&mut self, size: (u16, u16)) -> (started: Result<(), std::io::Error>)
        ensures
            started.is_ok(),
            final(self).started_with() == Some(size),
            final(self).kept_output() == old(self).kept_output(),
            final(self).kept_input() == old(self).kept_input(),
    {
        self.size = Some(size);
        Ok(())
    }

    fn output(&mut self, data: &[u8])
        ensures
            final(self).kept_output() == old(self).kept_output() + data@,
            final(self).kept_input() == old(self).kept_input(),
            final(self).started_with() == old(self).started_with(),
    {
        let ghost before = self.output@;
        self.output.extend_from_slice(data);
        assert(self.output@ == before + data@);
    }

    fn input(&mut self, data: &[u8])
        ensures
            final(self).kept_input() == old(self).kept_input() + data@,
            final(self).kept_output() == old(self).kept_output(),
            final(self).started_with() == old(self).started_with(),
    {
        let ghost before = self.input@;
        self.input.extend_from_slice(data);
        assert(self.input@ == before + data@);
    }
}

} // verus!
