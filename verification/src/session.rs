//! The edges of a session: what is checked before launch, the size the
//! session starts with, and the exit code it ends with.

use vstd::prelude::*;
use crate::recorder::{Recorder, Tap, TapLog};

verus! {

/// Columns of a terminal whose size cannot be asked.
pub const DEFAULT_COLUMNS: u16 = 80;

/// Rows of a terminal whose size cannot be asked.
pub const DEFAULT_ROWS: u16 = 24;

/// Where an argument holds a NUL byte, which no program argument may.
#[derive(Clone, Copy, Debug, PartialEq, Eq, Structural)]
pub struct NulByte {
    /// The index of the first argument that holds one.
    pub argument: usize,
    /// The index of the first NUL byte in that argument.
    pub position: usize,
}

/// How the wait for the child came out.
#[derive(Clone, Copy, Debug, PartialEq, Eq, Structural)]
pub enum WaitOutcome {
    /// The child exited by itself, with this code.
    Exited(i32),
    /// A signal with this number ended the child.
    Signaled(i32),
    /// Anything else that a wait may report.
    Other,
}

/// Whether `bytes` holds no NUL byte.
pub open spec fn nul_free(bytes: Seq<u8>) -> bool {
    forall|i: int| 0 <= i < bytes.len() ==> bytes[i] != 0
}

/// Whether `position` is where the first NUL byte of `bytes` stands.
pub open spec fn first_nul_at(bytes: Seq<u8>, position: int) -> bool {
    &&& 0 <= position < bytes.len()
    &&& bytes[position] == 0
    &&& nul_free(bytes.take(position))
}

/// The size a session starts with, columns first: the size that the
/// terminal gave, or 80 by 24 where it gave none.
pub open spec fn size_or_default(queried: Option<(u16, u16)>) -> (u16, u16) {
    match queried {
        Some(size) => size,
        None => (DEFAULT_COLUMNS, DEFAULT_ROWS),
    }
}

/// The exit code that stands for a wait outcome: the child's own code; 128
/// plus the signal's number; 1 for anything else.
pub open spec fn code_of(outcome: WaitOutcome) -> int {
    match outcome {
        WaitOutcome::Exited(code) => code as int,
        WaitOutcome::Signaled(signal) => 128 + signal,
        WaitOutcome::Other => 1,
    }
}

/// The position of the first NUL byte in `bytes`, if there is one.
pub fn find_nul(bytes: &[u8]) -> (found: Option<usize>)
    ensures
        match found {
            Some(position) => first_nul_at(bytes@, position as int),
            None => nul_free(bytes@),
        },
{
    let mut i: usize = 0;
    while i < bytes.len()
        invariant
            i <= bytes.len(),
            forall|k: int| 0 <= k < i ==> bytes@[k] != 0,
        decreases bytes.len() - i,
    {
        if bytes[i] == 0 {
            return Some(i);
        }
        i = i + 1;
    }
    None
}

/// Checks an argument vector before anything else is touched: it passes if
/// no argument holds a NUL byte; otherwise the first such byte is reported.
pub fn check_arguments(args: &Vec<Vec<u8>>) -> (checked: Result<(), NulByte>)
    ensures
        match checked {
            Ok(_) => forall|i: int| 0 <= i < args@.len() ==> nul_free(#[trigger] args@[i]@),
            Err(at) => {
                &&& at.argument < args@.len()
                &&& forall|i: int| 0 <= i < at.argument ==> nul_free(#[trigger] args@[i]@)
                &&& first_nul_at(args@[at.argument as int]@, at.position as int)
            },
        },
{
    let mut i: usize = 0;
    while i < args.len()
        invariant
            i <= args.len(),
            forall|k: int| 0 <= k < i ==> nul_free(#[trigger] args@[k]@),
        decreases args.len() - i,
    {
        match find_nul(args[i].as_slice()) {
            Some(position) => {
                return Err(NulByte { argument: i, position });
            },
            None => {},
        }
        i = i + 1;
    }
    Ok(())
}

/// The size a session starts with, from what the terminal answered.
pub fn terminal_size(queried: Option<(u16, u16)>) -> (size: (u16, u16))
    ensures
        size == size_or_default(queried),
{
    match queried {
        Some(size) => size,
        None => (DEFAULT_COLUMNS, DEFAULT_ROWS),
    }
}

/// What a launch goes on with once the recorder has answered its start:
/// the size that was announced, or the recorder's failure as it is.
pub fn started_with(size: (u16, u16), answer: Result<(), std::io::Error>) -> (started: Result<
    (u16, u16),
    std::io::Error,
>)
    ensures
        started == match answer {
            Ok(_) => Ok::<(u16, u16), std::io::Error>(size),
            Err(e) => Err::<(u16, u16), std::io::Error>(e),
        },
{
    match answer {
        Ok(_) => Ok(size),
        Err(e) => Err(e),
    }
}

/// Tells the recorder, once, that a session starts, with the size that the
/// terminal gave or the default, and hands back that size. Whether the
/// start succeeds is the recorder's to say: its failure is handed back as it
/// is. Neither stream is touched.
pub fn announce<R: Recorder>(queried: Option<(u16, u16)>, tap: &mut Tap<R>) -> (started: Result<
    (u16, u16),
    std::io::Error,
>)
    ensures
        started matches Ok(size) ==> size == size_or_default(queried),
        final(tap)@ == (TapLog {
            starts: old(tap)@.starts.push(size_or_default(queried)),
            ..old(tap)@
        }),
{
    let size: (u16, u16) = terminal_size(queried);
    let answer = tap.start(size);
    started_with(size, answer)
}

/// The exit code for a wait outcome.
pub fn exit_code(outcome: WaitOutcome) -> (code: i32)
    requires
        outcome matches WaitOutcome::Signaled(signal) ==> signal <= i32::MAX - 128,
    ensures
        code == code_of(outcome),
{
    match outcome {
        WaitOutcome::Exited(code) => code,
        WaitOutcome::Signaled(signal) => 128 + signal,
        WaitOutcome::Other => 1,
    }
}

/// Settles a session from how the relay and the wait for the child ended.
/// A failure of the relay is the result, whatever the wait gave; then a
/// failure of the wait; else the exit code of the wait's outcome.
pub fn reconcile<E>(relay: Result<(), E>, wait: Result<WaitOutcome, E>) -> (result: Result<i32, E>)
    requires
        relay.is_ok() ==> (wait matches Ok(WaitOutcome::Signaled(signal)) ==> signal <= i32::MAX
            - 128),
    ensures
        result == match relay {
            Err(e) => Err::<i32, E>(e),
            Ok(_) => match wait {
                Err(e) => Err::<i32, E>(e),
                Ok(outcome) => Ok::<i32, E>(code_of(outcome) as i32),
            },
        },
{
    match relay {
        Err(e) => Err(e),
        Ok(_) => match wait {
            Err(e) => Err(e),
            Ok(outcome) => Ok(exit_code(outcome)),
        },
    }
}

} // verus!
