use core::task::Context;
use core::task::Poll;
use vstd::prelude::*;

use crate::async_io::buffer::Buffer;
use crate::async_io::cursor::WriteCursor;
use crate::async_io::delivery::in_call;
use crate::async_io::error::Error;
use crate::async_io::error::TlsError;
use crate::async_io::state::ChannelState;
use crate::async_io::traits::AsyncIO;
use crate::async_io::utils::poll_write;

verus! {

/// What a turn of `recv` does, from the state that the engine reported.
#[derive(Debug, Clone, Copy, PartialEq, Eq, Structural)]
pub enum RecvStep {
    /// Take the decrypted records.
    Records,
    /// Nothing is decrypted yet: read from the transport.
    Read,
    /// The connection is closed: return what has been received.
    Stop,
}

/// The step that answers `state` in `recv`, or `None` where the state has
/// no place on an open channel.
pub open spec fn recv_step_for(state: ChannelState) -> Option<RecvStep> {
    match state {
        ChannelState::ReadableApplication => Some(RecvStep::Records),
        ChannelState::WritableApplication => Some(RecvStep::Read),
        ChannelState::Closed => Some(RecvStep::Stop),
        _ => None,
    }
}

/// How a flush goes on after one write to the transport, which found
/// `before` bytes buffered and left `after`: it suspends if the write would
/// block, aborts if the transport took no byte, and otherwise writes again
/// (`None`).
pub fn settle_flush<E>(would_block: bool, before: usize, after: usize) -> (r: Option<
    Poll<Result<(), Error<E>>>,
>)
    requires
        after <= before,
        0 < before,
    ensures
        would_block ==> r == Some(Poll::<Result<(), Error<E>>>::Pending),
        !would_block && after == before ==> r == Some(
            Poll::Ready(Err::<(), Error<E>>(Error::ConnectionAborted)),
        ),
        !would_block && after < before ==> r.is_none(),
{
    if would_block {
        Some(Poll::Pending)
    } else if after == before {
        Some(Poll::Ready(Err(Error::ConnectionAborted)))
    } else {
        None
    }
}

/// Whether draining goes on after one write to the transport, which found
/// `before` bytes buffered and left `after`: only if the transport took
/// some bytes without blocking and some are left.
pub fn drain_goes_on(would_block: bool, before: usize, after: usize) -> (r: bool)
    ensures
        r == (!would_block && after < before && 0 < after),
{
    !would_block && after < before && 0 < after
}

/// How a `recv` goes on.
#[derive(Debug, Clone, Copy, PartialEq, Eq, Structural)]
pub enum RecvFlow {
    /// Take another turn.
    GoOn,
    /// Return this many bytes.
    Return(usize),
    /// Nothing is there and the transport would block: suspend.
    Suspend,
}

/// How a `recv` goes on after a read of the transport, with `used` bytes
/// in the destination: a read that would block ends the call, with a short
/// read if there are bytes and a suspension if there are none; any other
/// read is followed by another turn.
pub fn settle_recv_read(would_block: bool, used: usize) -> (r: RecvFlow)
    ensures
        r == if !would_block {
            RecvFlow::GoOn
        } else if used != 0 {
            RecvFlow::Return(used)
        } else {
            RecvFlow::Suspend
        },
{
    if !would_block {
        RecvFlow::GoOn
    } else if used != 0 {
        RecvFlow::Return(used)
    } else {
        RecvFlow::Suspend
    }
}

/// How a `recv` goes on at the end of a turn that took records or found the
/// connection closed: it returns what it has if the connection is closed
/// or the destination is full, and takes another turn otherwise.
pub fn settle_recv_turn(closed: bool, full: bool, used: usize) -> (r: RecvFlow)
    ensures
        r == if closed || full {
            RecvFlow::Return(used)
        } else {
            RecvFlow::GoOn
        },
{
    if closed || full {
        RecvFlow::Return(used)
    } else {
        RecvFlow::GoOn
    }
}

/// The input that a turn of `recv` has used up, after a record that took
/// `record` bytes more; `None` if that is more than a buffer can hold.
pub fn add_discard(discard: usize, record: usize) -> (r: Option<usize>)
    ensures
        discard + record <= usize::MAX ==> r == Some((discard + record) as usize),
        discard + record > usize::MAX ==> r.is_none(),
{
    discard.checked_add(record)
}

/// An established channel: the engine, the transport, a buffer for each
/// direction, and decrypted bytes that did not fit the last destination.
pub struct TlsStream<C, IO> {
    pub conn: C,
    pub incoming: Buffer,
    pub io: IO,
    pub outgoing: Buffer,
    /// Decrypted payload that a destination had no room for. The next
    /// `recv` delivers it before anything else.
    pub pending: Vec<u8>,
}

impl<C, IO: AsyncIO> TlsStream<C, IO> {
    pub open spec fn wf(&self) -> bool {
        self.incoming.wf() && self.outgoing.wf()
    }

    /// Whether `send` may encrypt, from the state that the engine reported
    /// for no new input. Only a writable channel may; a protocol error
    /// is passed on, and every other state aborts the connection.
    pub fn admit_send(state: Result<ChannelState, TlsError>) -> (r: Result<(), Error<IO::Error>>)
        ensures
            match state {
                Ok(ChannelState::WritableApplication) => r == Ok::<(), Error<IO::Error>>(()),
                Ok(_) => r == Err::<(), Error<IO::Error>>(Error::ConnectionAborted),
                Err(e) => r == Err::<(), Error<IO::Error>>(Error::TlsError(e)),
            },
    {
        match state {
            Ok(ChannelState::WritableApplication) => Ok(()),
            Ok(_) => Err(Error::ConnectionAborted),
            Err(e) => Err(Error::TlsError(e)),
        }
    }

    /// Writes buffered ciphertext to the transport for as long as the
    /// transport takes some. Bytes that stay behind are kept, in order, for
    /// a later `send` or `flush`; that is no error. With nothing buffered
    /// the transport is left alone and the call succeeds; an error of the
    /// transport leaves bytes buffered.
    pub fn drain(&mut self, cx: &mut Context<'_>) -> (r: Result<(), Error<IO::Error>>)
        requires
            old(self).wf(),
        ensures
            final(self).wf(),
            final(self).conn == old(self).conn,
            final(self).incoming == old(self).incoming,
            final(self).pending == old(self).pending,
            final(self).outgoing@.used <= old(self).outgoing@.used,
            final(self).outgoing@.filled() == old(self).outgoing@.filled().skip(
                old(self).outgoing@.used - final(self).outgoing@.used,
            ),
            r matches Err(e) ==> e is TransitError && final(self).outgoing@.used > 0,
            old(self).outgoing@.used == 0 ==> r is Ok && final(self).outgoing == old(self).outgoing
                && final(self).io == old(self).io,
    {
        while !self.outgoing.is_empty()
            invariant
                self.wf(),
                old(self).wf(),
                self.conn == old(self).conn,
                self.incoming == old(self).incoming,
                self.pending == old(self).pending,
                self.outgoing@.used <= old(self).outgoing@.used,
                self.outgoing@.filled() == old(self).outgoing@.filled().skip(
                    old(self).outgoing@.used - self.outgoing@.used,
                ),
                old(self).outgoing@.used == 0 ==> self.outgoing == old(self).outgoing && self.io
                    == old(self).io,
            decreases self.outgoing@.used,
        {
            let before = self.outgoing.len();
            let ghost filled_before = self.outgoing@.filled();
            let would_block = poll_write(&mut self.io, &mut self.outgoing, cx)?;
            proof {
                lemma_tail_of_tail(
                    old(self).outgoing@.filled(),
                    old(self).outgoing@.used - before,
                    before - self.outgoing@.used,
                );
            }
            if !drain_goes_on(would_block, before, self.outgoing.len()) {
                break ;
            }
        }
        Ok(())
    }

    /// Ends a `send` of `len` bytes that the engine has encrypted into the
    /// outgoing buffer: drains what the transport takes now and reports all
    /// `len` bytes as accepted. Bytes that stay buffered are no error. With
    /// nothing buffered the transport is left alone and the call succeeds;
    /// only the transport can make it fail, and then bytes are left
    /// buffered.
    pub fn finish_send(&mut self, cx: &mut Context<'_>, len: usize) -> (r: Poll<
        Result<usize, Error<IO::Error>>,
    >)
        requires
            old(self).wf(),
        ensures
            final(self).wf(),
            final(self).conn == old(self).conn,
            final(self).incoming == old(self).incoming,
            final(self).pending == old(self).pending,
            final(self).outgoing@.filled() == old(self).outgoing@.filled().skip(
                old(self).outgoing@.used - final(self).outgoing@.used,
            ),
            final(self).outgoing@.used <= old(self).outgoing@.used,
            !(r is Pending),
            r matches Poll::Ready(Ok(n)) ==> n == len,
            r matches Poll::Ready(Err(e)) ==> e is TransitError && final(self).outgoing@.used > 0,
            old(self).outgoing@.used == 0 ==> r == Poll::Ready(Ok::<usize, Error<IO::Error>>(len))
                && final(self).outgoing == old(self).outgoing && final(self).io == old(self).io,
    {
        match self.drain(cx) {
            Ok(()) => Poll::Ready(Ok(len)),
            Err(e) => Poll::Ready(Err(e)),
        }
    }

    /// Writes the outgoing buffer to the transport until it is empty or the
    /// transport would block. A transport that takes no byte of a buffer
    /// that holds some has gone away: the connection is aborted.
    pub fn poll_flush(&mut self, cx: &mut Context<'_>) -> (r: Poll<Result<(), Error<IO::Error>>>)
        requires
            old(self).wf(),
        ensures
            final(self).wf(),
            final(self).conn == old(self).conn,
            final(self).incoming == old(self).incoming,
            final(self).pending == old(self).pending,
            final(self).outgoing@.used <= old(self).outgoing@.used,
            final(self).outgoing@.filled() == old(self).outgoing@.filled().skip(
                old(self).outgoing@.used - final(self).outgoing@.used,
            ),
            r matches Poll::Ready(Ok(_)) ==> final(self).outgoing@.used == 0,
            r is Pending ==> final(self).outgoing@.used > 0,
            r matches Poll::Ready(Err(e)) ==> (e is TransitError || e is ConnectionAborted)
                && final(self).outgoing@.used > 0,
    {
        while !self.outgoing.is_empty()
            invariant
                self.wf(),
                old(self).wf(),
                self.conn == old(self).conn,
                self.incoming == old(self).incoming,
                self.pending == old(self).pending,
                self.outgoing@.used <= old(self).outgoing@.used,
                self.outgoing@.filled() == old(self).outgoing@.filled().skip(
                    old(self).outgoing@.used - self.outgoing@.used,
                ),
            decreases self.outgoing@.used,
        {
            let before = self.outgoing.len();
            let would_block = match poll_write(&mut self.io, &mut self.outgoing, cx) {
                Ok(would_block) => would_block,
                Err(e) => {
                    return Poll::Ready(Err(e));
                },
            };
            proof {
                lemma_tail_of_tail(
                    old(self).outgoing@.filled(),
                    old(self).outgoing@.used - before,
                    before - self.outgoing@.used,
                );
            }
            match settle_flush(would_block, before, self.outgoing.len()) {
                Some(end) => {
                    return end;
                },
                None => {},
            }
        }
        Poll::Ready(Ok(()))
    }

    /// Releases the channel. No closing record is sent and the buffers are
    /// left as they are: the channel is simply given up.
    pub fn poll_close(&mut self, cx: &mut Context<'_>) -> (r: Poll<Result<(), Error<IO::Error>>>)
        ensures
            r matches Poll::Ready(Ok(_)),
            *final(self) == *old(self),
    {
        Poll::Ready(Ok(()))
    }

    /// Decides what a turn of `recv` does, from the state that the engine
    /// reported for the buffered input. A state that has no place on an
    /// open channel aborts the connection; a protocol error is passed on.
    pub fn recv_step(state: Result<ChannelState, TlsError>) -> (r: Result<
        RecvStep,
        Error<IO::Error>,
    >)
        ensures
            match state {
                Ok(s) => match recv_step_for(s) {
                    Some(step) => r == Ok::<RecvStep, Error<IO::Error>>(step),
                    None => r == Err::<RecvStep, Error<IO::Error>>(Error::ConnectionAborted),
                },
                Err(e) => r == Err::<RecvStep, Error<IO::Error>>(Error::TlsError(e)),
            },
    {
        match state {
            Ok(ChannelState::ReadableApplication) => Ok(RecvStep::Records),
            Ok(ChannelState::WritableApplication) => Ok(RecvStep::Read),
            Ok(ChannelState::Closed) => Ok(RecvStep::Stop),
            Ok(_) => Err(Error::ConnectionAborted),
            Err(e) => Err(Error::TlsError(e)),
        }
    }

    /// Gives the transport back and drops the rest.
    pub fn into_io(self) -> (r: IO)
        ensures
            r == self.io,
    {
        self.io
    }
}

/// A tail of a tail is a tail: skipping `a` and then `b` skips `a + b`.
pub proof fn lemma_tail_of_tail(s: Seq<u8>, a: int, b: int)
    requires
        0 <= a,
        0 <= b,
        a + b <= s.len(),
    ensures
        s.skip(a).skip(b) == s.skip(a + b),
{
    assert(s.skip(a).skip(b) =~= s.skip(a + b));
}

/// Moves held-back payload into the destination, as much as fits, and keeps
/// the rest. Nothing is lost and nothing changes place: what is written and
/// what stays pending are, one after the other, what was written and what
/// was pending before.
pub fn deliver_pending(pending: &mut Vec<u8>, cursor: &mut WriteCursor<'_>)
    requires
        old(cursor).wf(),
    ensures
        final(cursor).wf(),
        final(cursor).buf@.len() == old(cursor).buf@.len(),
        final(final(cursor).buf)@ == final(old(cursor).buf)@,
        final(cursor).written() + final(pending)@ == old(cursor).written() + old(pending)@,
        final(cursor).used == old(cursor).used + crate::async_io::cursor::copied_len(
            old(cursor).spec_remaining_capacity(),
            old(pending)@.len(),
        ),
        final(cursor).buf@.skip(final(cursor).used as int) == old(cursor).buf@.skip(
            final(cursor).used as int,
        ),
        in_call(
            final(cursor).written(),
            final(cursor).spec_remaining_capacity(),
            final(pending)@,
        ) == in_call(old(cursor).written(), 0, old(pending)@).call(
            old(cursor).spec_remaining_capacity(),
        ),
{
    let rest = cursor.append(pending.as_slice());
    let kept = vstd::slice::slice_to_vec(rest);
    proof {
        let n = crate::async_io::cursor::copied_len(
            old(cursor).spec_remaining_capacity(),
            old(pending)@.len(),
        ) as int;
        assert(old(pending)@.take(n) + old(pending)@.skip(n) =~= old(pending)@);
        assert(cursor.written() + kept@ =~= old(cursor).written() + old(pending)@);
        assert(cursor.written() =~= old(cursor).written() + old(pending)@.take(n));
        assert(kept@ =~= old(pending)@.skip(n));
    }
    *pending = kept;
}

/// Delivers the payload of one decrypted record: into the destination as
/// far as it fits, the rest into `pending`, behind what is pending already.
/// Nothing is lost and nothing changes place.
pub fn accept_record(pending: &mut Vec<u8>, cursor: &mut WriteCursor<'_>, payload: &[u8])
    requires
        old(cursor).wf(),
        old(pending)@.len() > 0 ==> old(cursor).spec_remaining_capacity() == 0,
    ensures
        final(cursor).wf(),
        final(cursor).buf@.len() == old(cursor).buf@.len(),
        final(final(cursor).buf)@ == final(old(cursor).buf)@,
        final(cursor).written() + final(pending)@ == old(cursor).written() + old(pending)@
            + payload@,
        final(cursor).used == old(cursor).used + crate::async_io::cursor::copied_len(
            old(cursor).spec_remaining_capacity(),
            payload@.len(),
        ),
        final(cursor).buf@.skip(final(cursor).used as int) == old(cursor).buf@.skip(
            final(cursor).used as int,
        ),
        final(pending)@ == old(pending)@ + payload@.skip(
            crate::async_io::cursor::copied_len(
                old(cursor).spec_remaining_capacity(),
                payload@.len(),
            ) as int,
        ),
        in_call(
            final(cursor).written(),
            final(cursor).spec_remaining_capacity(),
            final(pending)@,
        ) == in_call(
            old(cursor).written(),
            old(cursor).spec_remaining_capacity(),
            old(pending)@,
        ).record(payload@),
        final(pending)@.len() > 0 ==> final(cursor).spec_remaining_capacity() == 0,
{
    let rest = cursor.append(payload);
    let ghost n = crate::async_io::cursor::copied_len(
        old(cursor).spec_remaining_capacity(),
        payload@.len(),
    ) as int;
    let mut i: usize = 0;
    while i < rest.len()
        invariant
            i <= rest@.len(),
            pending@ == old(pending)@ + rest@.take(i as int),
        decreases rest@.len() - i,
    {
        pending.push(rest[i]);
        proof {
            assert(rest@.take(i as int).push(rest@[i as int]) =~= rest@.take(i + 1));
        }
        i = i + 1;
    }
    proof {
        assert(rest@.take(rest@.len() as int) =~= rest@);
        assert(payload@.take(n) + payload@.skip(n) =~= payload@);
        assert(cursor.written() + pending@ =~= old(cursor).written() + old(pending)@ + payload@);
        assert(cursor.written() =~= old(cursor).written() + payload@.take(n));
        assert(pending@ =~= old(pending)@ + payload@.skip(n));
    }
}

/// How the taking of records goes on within a turn of `recv`.
#[derive(Debug, Clone, Copy, PartialEq, Eq, Structural)]
pub enum RecordsFlow {
    /// Ask the engine for the next record.
    Ask,
    /// Take no more records in this turn.
    Stop,
}

/// Whether a record is asked for: only while the destination has room.
pub fn records_flow(full: bool) -> (r: RecordsFlow)
    ensures
        r == if full {
            RecordsFlow::Stop
        } else {
            RecordsFlow::Ask
        },
{
    if full {
        RecordsFlow::Stop
    } else {
        RecordsFlow::Ask
    }
}

/// Takes what the engine answered when it was asked for the next record, in
/// a turn that has used up `discard` bytes of input so far.
///
/// A record, given as the input that it took and its payload, is
/// delivered as `accept_record` says; the input that it took is added to
/// what the turn has used up, and another record is asked for if the
/// destination still has room. No record ends the taking of records and
/// changes nothing. A failure of the engine is passed on as a protocol
/// error and changes nothing.
pub fn take_record<E>(
    pending: &mut Vec<u8>,
    cursor: &mut WriteCursor<'_>,
    discard: usize,
    answer: Option<Result<(usize, &[u8]), TlsError>>,
) -> (r: Result<(usize, RecordsFlow), Error<E>>)
    requires
        old(cursor).wf(),
        old(pending)@.len() > 0 ==> old(cursor).spec_remaining_capacity() == 0,
        answer matches Some(Ok(record)) ==> discard + record.0 <= usize::MAX,
    ensures
        final(cursor).wf(),
        final(cursor).buf@.len() == old(cursor).buf@.len(),
        final(final(cursor).buf)@ == final(old(cursor).buf)@,
        final(pending)@.len() > 0 ==> final(cursor).spec_remaining_capacity() == 0,
        match answer {
            Some(Ok(record)) => {
                &&& r == Ok::<(usize, RecordsFlow), Error<E>>(
                    (
                        (discard + record.0) as usize,
                        if final(cursor).spec_remaining_capacity() == 0 {
                            RecordsFlow::Stop
                        } else {
                            RecordsFlow::Ask
                        },
                    ),
                )
                &&& final(cursor).written() + final(pending)@ == old(cursor).written() + old(
                    pending,
                )@ + record.1@
                &&& final(cursor).used == old(cursor).used + crate::async_io::cursor::copied_len(
                    old(cursor).spec_remaining_capacity(),
                    record.1@.len(),
                )
                &&& final(cursor).buf@.skip(final(cursor).used as int) == old(cursor).buf@.skip(
                    final(cursor).used as int,
                )
                &&& final(pending)@ == old(pending)@ + record.1@.skip(
                    crate::async_io::cursor::copied_len(
                        old(cursor).spec_remaining_capacity(),
                        record.1@.len(),
                    ) as int,
                )
                &&& in_call(
                    final(cursor).written(),
                    final(cursor).spec_remaining_capacity(),
                    final(pending)@,
                ) == in_call(
                    old(cursor).written(),
                    old(cursor).spec_remaining_capacity(),
                    old(pending)@,
                ).record(record.1@)
            },
            Some(Err(e)) => {
                &&& r == Err::<(usize, RecordsFlow), Error<E>>(Error::TlsError(e))
                &&& final(cursor).used == old(cursor).used
                &&& final(cursor).buf@ == old(cursor).buf@
                &&& final(pending)@ == old(pending)@
            },
            None => {
                &&& r == Ok::<(usize, RecordsFlow), Error<E>>((discard, RecordsFlow::Stop))
                &&& final(cursor).used == old(cursor).used
                &&& final(cursor).buf@ == old(cursor).buf@
                &&& final(pending)@ == old(pending)@
            },
        },
{
    match answer {
        Some(Ok(record)) => {
            accept_record(pending, cursor, record.1);
            Ok((discard + record.0, records_flow(cursor.is_full())))
        },
        Some(Err(e)) => Err(Error::TlsError(e)),
        None => Ok((discard, RecordsFlow::Stop)),
    }
}

} // verus!
