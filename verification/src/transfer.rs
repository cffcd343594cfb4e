//! Draining a source into a transfer buffer and flushing a buffer's head
//! into a sink, from the outcomes of the non-blocking attempts.

use vstd::prelude::*;

verus! {

/// What one non-blocking read returned.
#[derive(Debug)]
pub enum ReadAttempt {
    /// The bytes the read obtained; none if it obtained nothing.
    Data(Vec<u8>),
    /// The read failed, or nothing more is available right now.
    Failed,
}

/// What one non-blocking write returned.
#[derive(Clone, Copy, Debug, PartialEq, Eq)]
pub enum WriteAttempt {
    /// The number of offered bytes that the sink took.
    Accepted(usize),
    /// The write failed, or the sink takes nothing more right now.
    Failed,
}

/// The bytes that a drain obtains: those of every attempt before the first
/// failure, in order.
pub open spec fn drained(attempts: Seq<ReadAttempt>) -> Seq<u8>
    decreases attempts.len(),
{
    if attempts.len() == 0 {
        Seq::<u8>::empty()
    } else {
        match attempts[0] {
            ReadAttempt::Failed => Seq::<u8>::empty(),
            ReadAttempt::Data(bytes) => bytes@ + drained(attempts.skip(1)),
        }
    }
}

/// Whether no attempt claims more bytes than were still on offer when it was
/// made. Attempts after a failure, or after the last byte went, were never
/// made and do not count.
pub open spec fn fits(attempts: Seq<WriteAttempt>, offered: nat) -> bool
    decreases attempts.len(),
{
    if attempts.len() == 0 || offered == 0 {
        true
    } else {
        match attempts[0] {
            WriteAttempt::Failed => true,
            WriteAttempt::Accepted(n) => n <= offered && fits(
                attempts.skip(1),
                (offered - n) as nat,
            ),
        }
    }
}

/// The number of bytes that a flush delivers out of `offered`: the sum of
/// what the attempts took, up to the first failure or until nothing is left.
pub open spec fn taken(attempts: Seq<WriteAttempt>, offered: nat) -> nat
    decreases attempts.len(),
{
    if attempts.len() == 0 || offered == 0 {
        0
    } else {
        match attempts[0] {
            WriteAttempt::Failed => 0,
            WriteAttempt::Accepted(n) => if n <= offered {
                n as nat + taken(attempts.skip(1), (offered - n) as nat)
            } else {
                offered
            },
        }
    }
}

/// A flush never delivers more than was offered.
pub proof fn lemma_taken_bounded(attempts: Seq<WriteAttempt>, offered: nat)
    ensures
        taken(attempts, offered) <= offered,
    decreases attempts.len(),
{
    if attempts.len() != 0 && offered != 0 {
        match attempts[0] {
            WriteAttempt::Failed => {},
            WriteAttempt::Accepted(n) => {
                if n <= offered {
                    lemma_taken_bounded(attempts.skip(1), (offered - n) as nat);
                }
            },
        }
    }
}

/// What a flush delivers and what it leaves make up what was queued, in
/// the same order.
pub proof fn law_flush_splits(data: Seq<u8>, attempts: Seq<WriteAttempt>)
    ensures
        taken(attempts, data.len()) <= data.len(),
        data.take(taken(attempts, data.len()) as int) + data.skip(
            taken(attempts, data.len()) as int,
        ) == data,
{
    lemma_taken_bounded(attempts, data.len());
    let n = taken(attempts, data.len()) as int;
    assert(data.take(n) + data.skip(n) =~= data);
}

/// Two flushes in a row deliver each queued byte at most once and in order:
/// what the first delivers, then what the second delivers out of the rest,
/// then what stays queued, is what was queued at the start.
pub proof fn law_flushes_compose(
    data: Seq<u8>,
    first: Seq<WriteAttempt>,
    second: Seq<WriteAttempt>,
)
    ensures
        ({
            let rest = data.skip(taken(first, data.len()) as int);
            let kept = rest.skip(taken(second, rest.len()) as int);
            &&& data.take(taken(first, data.len()) as int) + rest.take(
                taken(second, rest.len()) as int,
            ) + kept == data
            &&& kept == data.skip((taken(first, data.len()) + taken(second, rest.len())) as int)
        }),
{
    lemma_taken_bounded(first, data.len());
    let n1 = taken(first, data.len()) as int;
    let rest = data.skip(n1);
    lemma_taken_bounded(second, rest.len());
    let n2 = taken(second, rest.len()) as int;
    assert(rest.skip(n2) =~= data.skip(n1 + n2));
    assert(data.take(n1) + rest.take(n2) + rest.skip(n2) =~= data);
}

/// Appends to `out` what the attempts of one drain obtained and returns how
/// many bytes that was.
pub fn read_all(attempts: &Vec<ReadAttempt>, out: &mut Vec<u8>) -> (read: usize)
    ensures
        final(out)@ == old(out)@ + drained(attempts@),
        read == drained(attempts@).len(),
{
    let base: usize = out.len();
    let mut i: usize = 0;
    assert(attempts@.skip(0) == attempts@);
    while i < attempts.len()
        invariant_except_break
            i <= attempts.len(),
            old(out)@ + drained(attempts@) == out@ + drained(attempts@.skip(i as int)),
        ensures
            out@ == old(out)@ + drained(attempts@),
        decreases attempts.len() - i,
    {
        assert(attempts@.skip(i as int).skip(1) == attempts@.skip(i + 1));
        assert(attempts@.skip(i as int)[0] == attempts@[i as int]);
        match &attempts[i] {
            ReadAttempt::Failed => {
                assert(out@ + Seq::<u8>::empty() == out@);
                break ;
            },
            ReadAttempt::Data(bytes) => {
                let ghost before = out@;
                out.extend_from_slice(bytes.as_slice());
                assert(out@ == before + bytes@);
                assert(before + (bytes@ + drained(attempts@.skip(i + 1))) == (before + bytes@)
                    + drained(attempts@.skip(i + 1)));
            },
        }
        i = i + 1;
    }
    out.len() - base
}

/// Removes from the head of `data` what the attempts of one flush delivered
/// and returns how many bytes stay queued. The rest keeps its order.
pub fn write_all(attempts: &Vec<WriteAttempt>, data: &mut Vec<u8>) -> (left: usize)
    requires
        fits(attempts@, old(data)@.len()),
    ensures
        final(data)@ == old(data)@.skip(taken(attempts@, old(data)@.len()) as int),
        left == final(data)@.len(),
        left == old(data)@.len() - taken(attempts@, old(data)@.len()),
{
    let total: usize = data.len();
    let mut left: usize = total;
    let mut i: usize = 0;
    assert(attempts@.skip(0) == attempts@);
    while i < attempts.len() && left > 0
        invariant_except_break
            i <= attempts.len(),
            left <= total,
            fits(attempts@.skip(i as int), left as nat),
            taken(attempts@, total as nat) == (total - left) + taken(
                attempts@.skip(i as int),
                left as nat,
            ),
        ensures
            left <= total,
            taken(attempts@, total as nat) == total - left,
        decreases attempts.len() - i,
    {
        assert(attempts@.skip(i as int).skip(1) == attempts@.skip(i + 1));
        assert(attempts@.skip(i as int)[0] == attempts@[i as int]);
        match attempts[i] {
            WriteAttempt::Failed => {
                break ;
            },
            WriteAttempt::Accepted(n) => {
                left = left - n;
            },
        }
        i = i + 1;
    }
    if left == 0 {
        data.clear();
    } else {
        let rest: Vec<u8> = data.split_off(total - left);
        *data = rest;
    }
    left
}

} // verus!
