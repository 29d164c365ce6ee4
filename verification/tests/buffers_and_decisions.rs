use std::sync::Arc;
use std::task::{Context, Poll, Wake, Waker};

use sel4_support::async_io::buffer::Buffer;
use sel4_support::async_io::connect::{
    due_engine_call, settle_handshake_read, settle_handshake_write, Action, ConnectInner,
    EngineCall, Progress, Updates,
};
use sel4_support::async_io::connector::NoServerCertVerifier;
use sel4_support::async_io::cursor::WriteCursor;
use sel4_support::async_io::error::{
    ClosedError, EncodeError, EncryptError, Error, InsufficientSizeError, TlsError,
};
use sel4_support::async_io::state::ChannelState;
use sel4_support::async_io::stream::{
    accept_record, add_discard, deliver_pending, drain_goes_on, records_flow, settle_flush,
    settle_recv_read, settle_recv_turn, take_record, RecordsFlow, RecvFlow, RecvStep, TlsStream,
};
use sel4_support::capdl::cram::CramUsize;
use sel4_support::async_io::traits::{
    account_read, poll_read_exact, poll_write_all, AsyncIO, TcpSocketWrapper,
};
use sel4_support::async_io::utils::{
    make_room, poll_read, poll_write, settle_first_attempt, settle_read, settle_retry,
    settle_write, try_or_resize_and_retry, INCOMING_GROWTH,
};

struct Idle;

impl Wake for Idle {
    fn wake(self: Arc<Self>) {}
}

fn idle_waker() -> Waker {
    Waker::from(Arc::new(Idle))
}

/// A transport that answers each call with the next step of a script.
struct Scripted {
    reads: Vec<Poll<Result<Vec<u8>, u8>>>,
    writes: Vec<Poll<Result<usize, u8>>>,
    written: Vec<u8>,
}

impl Scripted {
    fn new() -> Self {
        Scripted { reads: Vec::new(), writes: Vec::new(), written: Vec::new() }
    }
}

impl AsyncIO for Scripted {
    type Error = u8;

    fn poll_recv(&mut self, _cx: &mut Context<'_>, buf: &mut [u8]) -> Poll<Result<usize, u8>> {
        if self.reads.is_empty() {
            return Poll::Pending;
        }
        match self.reads.remove(0) {
            Poll::Pending => Poll::Pending,
            Poll::Ready(Err(e)) => Poll::Ready(Err(e)),
            Poll::Ready(Ok(bytes)) => {
                let n = bytes.len().min(buf.len());
                buf[..n].copy_from_slice(&bytes[..n]);
                Poll::Ready(Ok(n))
            }
        }
    }

    fn poll_send(&mut self, _cx: &mut Context<'_>, buf: &[u8]) -> Poll<Result<usize, u8>> {
        if self.writes.is_empty() {
            self.written.extend_from_slice(buf);
            return Poll::Ready(Ok(buf.len()));
        }
        match self.writes.remove(0) {
            Poll::Pending => Poll::Pending,
            Poll::Ready(Err(e)) => Poll::Ready(Err(e)),
            Poll::Ready(Ok(limit)) => {
                let n = limit.min(buf.len());
                self.written.extend_from_slice(&buf[..n]);
                Poll::Ready(Ok(n))
            }
        }
    }
}

fn filled_with(bytes: &[u8], spare: usize) -> Buffer {
    let mut buffer = Buffer::new();
    buffer.reserve(bytes.len() + spare);
    buffer.unfilled()[..bytes.len()].copy_from_slice(bytes);
    buffer.advance(bytes.len());
    buffer
}

#[test]
fn new_buffer_is_empty() {
    let buffer = Buffer::new();
    assert!(buffer.is_empty());
    assert_eq!(buffer.len(), 0);
    assert_eq!(buffer.capacity(), 0);
    assert_eq!(buffer.filled(), &[] as &[u8]);
    let mut buffer = Buffer::default();
    assert_eq!(buffer.capacity(), 0);
    assert!(buffer.unfilled().is_empty());
    assert!(buffer.filled_mut().is_empty());
}

#[test]
fn reserve_adds_zeroed_capacity_and_keeps_used() {
    let mut buffer = Buffer::new();
    buffer.reserve(5);
    assert_eq!(buffer.capacity(), 5);
    assert_eq!(buffer.len(), 0);
    assert_eq!(buffer.unfilled(), &[0, 0, 0, 0, 0]);
    buffer.unfilled().copy_from_slice(&[1, 2, 3, 4, 5]);
    buffer.advance(2);
    buffer.reserve(3);
    assert_eq!(buffer.capacity(), 8);
    assert_eq!(buffer.len(), 2);
    assert_eq!(buffer.filled(), &[1, 2]);
    assert_eq!(buffer.unfilled(), &[3, 4, 5, 0, 0, 0]);
    buffer.reserve(0);
    assert_eq!(buffer.capacity(), 8);
    assert_eq!(buffer.len(), 2);
}

#[test]
fn advance_marks_bytes_filled() {
    let mut buffer = Buffer::new();
    buffer.reserve(4);
    buffer.unfilled().copy_from_slice(&[9, 8, 7, 6]);
    buffer.advance(0);
    assert!(buffer.is_empty());
    buffer.advance(3);
    assert_eq!(buffer.len(), 3);
    assert!(!buffer.is_empty());
    assert_eq!(buffer.filled(), &[9, 8, 7]);
    assert_eq!(buffer.unfilled(), &[6]);
    buffer.advance(1);
    assert_eq!(buffer.filled(), &[9, 8, 7, 6]);
    assert!(buffer.unfilled().is_empty());
    assert_eq!(buffer.capacity(), 4);
}

#[test]
fn discard_keeps_the_rest_in_order() {
    let mut buffer = filled_with(&[1, 2, 3, 4, 5, 6], 2);
    buffer.discard(0);
    assert_eq!(buffer.filled(), &[1, 2, 3, 4, 5, 6]);
    let before = buffer.filled().to_vec();
    buffer.discard(2);
    assert_eq!(buffer.filled(), &before[2..]);
    assert_eq!(buffer.filled(), &[3, 4, 5, 6]);
    assert_eq!(buffer.len(), 4);
    assert_eq!(buffer.capacity(), 8);
    buffer.discard(4);
    assert!(buffer.is_empty());
    assert_eq!(buffer.capacity(), 8);
    assert_eq!(buffer.unfilled().len(), 8);
}

#[test]
fn filled_mut_rewrites_in_place() {
    let mut buffer = filled_with(&[1, 2, 3], 2);
    for b in buffer.filled_mut() {
        *b += 10;
    }
    assert_eq!(buffer.filled(), &[11, 12, 13]);
    assert_eq!(buffer.len(), 3);
    assert_eq!(buffer.capacity(), 5);
}

#[test]
fn used_never_exceeds_capacity_over_many_operations() {
    let mut buffer = Buffer::new();
    let mut model: Vec<u8> = Vec::new();
    for round in 0..50usize {
        let grow = round % 7;
        buffer.reserve(grow);
        assert!(buffer.len() <= buffer.capacity());
        let take = (round % 5).min(buffer.capacity() - buffer.len());
        for (i, b) in buffer.unfilled()[..take].iter_mut().enumerate() {
            *b = (round + i) as u8;
            model.push((round + i) as u8);
        }
        buffer.advance(take);
        assert!(buffer.len() <= buffer.capacity());
        let drop = (round % 3).min(buffer.len());
        let capacity = buffer.capacity();
        buffer.discard(drop);
        model.drain(..drop);
        assert_eq!(buffer.capacity(), capacity);
        assert!(buffer.len() <= buffer.capacity());
        assert_eq!(buffer.filled(), &model[..]);
    }
}

#[test]
fn cursor_appends_what_fits() {
    let mut dst = [0u8; 5];
    let mut cursor = WriteCursor::new(&mut dst);
    assert_eq!(cursor.used(), 0);
    assert_eq!(cursor.remaining_capacity(), 5);
    assert!(!cursor.is_full());
    assert!(cursor.append(&[1, 2]).is_empty());
    assert_eq!(cursor.used(), 2);
    assert_eq!(cursor.remaining_capacity(), 3);
    assert_eq!(cursor.unfilled(), &[0, 0, 0]);
    assert!(cursor.append(&[]).is_empty());
    assert_eq!(cursor.used(), 2);
    let rest = cursor.append(&[3, 4, 5, 6, 7]);
    assert_eq!(rest, &[6, 7]);
    assert_eq!(rest.len(), 5 - 3);
    assert!(cursor.is_full());
    assert_eq!(cursor.remaining_capacity(), 0);
    let rest = cursor.append(&[8, 9]);
    assert_eq!(rest, &[8, 9]);
    assert_eq!(cursor.into_used(), 5);
    assert_eq!(dst, [1, 2, 3, 4, 5]);
}

#[test]
fn cursor_never_writes_past_the_destination() {
    let mut backing = [0xeeu8; 8];
    {
        let mut cursor = WriteCursor::new(&mut backing[2..5]);
        let rest = cursor.append(&[1, 2, 3, 4, 5, 6]);
        assert_eq!(rest.len(), 3);
        assert_eq!(cursor.into_used(), 3);
    }
    assert_eq!(backing, [0xee, 0xee, 1, 2, 3, 0xee, 0xee, 0xee]);

    let mut empty: [u8; 0] = [];
    let mut cursor = WriteCursor::new(&mut empty);
    assert!(cursor.is_full());
    assert_eq!(cursor.append(&[1]), &[1]);
    assert_eq!(cursor.into_used(), 0);
}

#[test]
fn first_attempt_is_booked_or_grows_once() {
    let mut outgoing = Buffer::new();
    outgoing.reserve(4);
    assert_eq!(settle_first_attempt(Ok(3), &mut outgoing), Some(3));
    assert_eq!(outgoing.len(), 3);
    assert_eq!(outgoing.capacity(), 4);
    let asked = InsufficientSizeError { required_size: 10 };
    assert_eq!(settle_first_attempt(Err(asked), &mut outgoing), None);
    assert_eq!(outgoing.len(), 3);
    assert_eq!(outgoing.capacity(), 14);
    assert_eq!(outgoing.unfilled().len(), 11);
}

#[test]
fn retry_is_final() {
    let mut outgoing = Buffer::new();
    outgoing.reserve(8);
    assert!(matches!(settle_retry::<u8>(Ok(8), &mut outgoing), Ok(8)));
    assert_eq!(outgoing.len(), 8);
    let again = Error::EncodeError(EncodeError::InsufficientSize(InsufficientSizeError {
        required_size: 99,
    }));
    assert!(matches!(
        settle_retry::<u8>(Err(again), &mut outgoing),
        Err(Error::EncodeError(EncodeError::InsufficientSize(InsufficientSizeError {
            required_size: 99
        })))
    ));
    assert_eq!(outgoing.len(), 8);
    assert_eq!(outgoing.capacity(), 8);
}

fn encode_map(e: EncodeError) -> Result<InsufficientSizeError, Error<u8>> {
    match e {
        EncodeError::InsufficientSize(is) => Ok(is),
        other => Err(Error::from(other)),
    }
}

#[test]
fn try_or_resize_and_retry_calls_at_most_twice() {
    let message = [7u8; 6];

    let mut outgoing = Buffer::new();
    outgoing.reserve(10);
    let mut calls = 0;
    let wrote = try_or_resize_and_retry(
        |dst: &mut [u8]| {
            calls += 1;
            dst[..6].copy_from_slice(&message);
            Ok::<usize, EncodeError>(6)
        },
        encode_map,
        &mut outgoing,
    );
    assert!(matches!(wrote, Ok(6)));
    assert_eq!(calls, 1);
    assert_eq!(outgoing.filled(), &message);
    assert_eq!(outgoing.capacity(), 10);

    let mut outgoing = filled_with(&[1, 2], 1);
    let mut seen = Vec::new();
    let wrote = try_or_resize_and_retry(
        |dst: &mut [u8]| {
            seen.push(dst.len());
            if dst.len() < 6 {
                Err(EncodeError::InsufficientSize(InsufficientSizeError { required_size: 6 }))
            } else {
                dst[..6].copy_from_slice(&message);
                Ok(6)
            }
        },
        encode_map,
        &mut outgoing,
    );
    assert!(matches!(wrote, Ok(6)));
    assert_eq!(seen, vec![1, 7]);
    assert_eq!(outgoing.capacity(), 9);
    assert_eq!(outgoing.filled(), &[1, 2, 7, 7, 7, 7, 7, 7]);

    let mut outgoing = filled_with(&[1, 2], 0);
    let mut calls = 0;
    let failed = try_or_resize_and_retry(
        |_dst: &mut [u8]| {
            calls += 1;
            Err::<usize, EncodeError>(EncodeError::InsufficientSize(InsufficientSizeError {
                required_size: 4,
            }))
        },
        encode_map,
        &mut outgoing,
    );
    assert!(matches!(
        failed,
        Err(Error::EncodeError(EncodeError::InsufficientSize(InsufficientSizeError {
            required_size: 4
        })))
    ));
    assert_eq!(calls, 2);
    assert_eq!(outgoing.capacity(), 6);
    assert_eq!(outgoing.filled(), &[1, 2]);

    let mut outgoing = filled_with(&[1, 2], 3);
    let mut calls = 0;
    let failed = try_or_resize_and_retry(
        |_dst: &mut [u8]| {
            calls += 1;
            Err::<usize, EncodeError>(EncodeError::AlreadyEncoded)
        },
        encode_map,
        &mut outgoing,
    );
    assert!(matches!(failed, Err(Error::EncodeError(EncodeError::AlreadyEncoded))));
    assert_eq!(calls, 1);
    assert_eq!(outgoing.capacity(), 5);
    assert_eq!(outgoing.len(), 2);
}

#[test]
fn make_room_grows_only_a_full_buffer() {
    let mut incoming = Buffer::new();
    make_room(&mut incoming);
    assert_eq!(incoming.capacity(), INCOMING_GROWTH);
    assert_eq!(INCOMING_GROWTH, 256 * 1024);
    make_room(&mut incoming);
    assert_eq!(incoming.capacity(), INCOMING_GROWTH);
    let mut incoming = filled_with(&[1, 2, 3], 0);
    make_room(&mut incoming);
    assert_eq!(incoming.capacity(), 3 + INCOMING_GROWTH);
    assert_eq!(incoming.filled(), &[1, 2, 3]);
    let mut incoming = filled_with(&[1, 2, 3], 1);
    make_room(&mut incoming);
    assert_eq!(incoming.capacity(), 4);
}

#[test]
fn transport_answers_are_booked() {
    let mut incoming = filled_with(&[1], 4);
    assert!(matches!(settle_read::<u8>(Poll::Ready(Ok(2)), &mut incoming), Ok(false)));
    assert_eq!(incoming.len(), 3);
    assert!(matches!(settle_read::<u8>(Poll::Pending, &mut incoming), Ok(true)));
    assert_eq!(incoming.len(), 3);
    assert!(matches!(
        settle_read::<u8>(Poll::Ready(Err(4)), &mut incoming),
        Err(Error::TransitError(4))
    ));
    assert_eq!(incoming.len(), 3);

    let mut outgoing = filled_with(&[1, 2, 3, 4], 0);
    assert!(matches!(settle_write::<u8>(Poll::Ready(Ok(3)), &mut outgoing), Ok(false)));
    assert_eq!(outgoing.filled(), &[4]);
    assert!(matches!(settle_write::<u8>(Poll::Pending, &mut outgoing), Ok(true)));
    assert!(matches!(
        settle_write::<u8>(Poll::Ready(Err(5)), &mut outgoing),
        Err(Error::TransitError(5))
    ));
    assert_eq!(outgoing.filled(), &[4]);
}

#[test]
fn poll_read_and_poll_write_move_bytes() {
    let waker = idle_waker();
    let mut cx = Context::from_waker(&waker);
    let mut io = Scripted::new();
    io.reads.push(Poll::Ready(Ok(vec![5, 6, 7])));
    io.reads.push(Poll::Pending);
    io.reads.push(Poll::Ready(Err(1)));
    let mut incoming = filled_with(&[4], 0);
    assert!(matches!(poll_read(&mut io, &mut incoming, &mut cx), Ok(false)));
    assert_eq!(incoming.filled(), &[4, 5, 6, 7]);
    assert_eq!(incoming.capacity(), 1 + INCOMING_GROWTH);
    assert!(matches!(poll_read(&mut io, &mut incoming, &mut cx), Ok(true)));
    assert_eq!(incoming.filled(), &[4, 5, 6, 7]);
    assert!(matches!(poll_read(&mut io, &mut incoming, &mut cx), Err(Error::TransitError(1))));
    assert_eq!(incoming.filled(), &[4, 5, 6, 7]);

    io.writes.push(Poll::Ready(Ok(3)));
    io.writes.push(Poll::Pending);
    io.writes.push(Poll::Ready(Err(2)));
    assert!(matches!(poll_write(&mut io, &mut incoming, &mut cx), Ok(false)));
    assert_eq!(io.written, vec![4, 5, 6]);
    assert_eq!(incoming.filled(), &[7]);
    assert!(matches!(poll_write(&mut io, &mut incoming, &mut cx), Ok(true)));
    assert!(matches!(poll_write(&mut io, &mut incoming, &mut cx), Err(Error::TransitError(2))));
    assert_eq!(incoming.filled(), &[7]);
    assert!(matches!(poll_write(&mut io, &mut incoming, &mut cx), Ok(false)));
    assert_eq!(io.written, vec![4, 5, 6, 7]);
    assert!(incoming.is_empty());
}

#[test]
fn read_exact_and_write_all() {
    let waker = idle_waker();
    let mut cx = Context::from_waker(&waker);
    assert!(matches!(account_read::<u8>(2, 10, 3), Ok(5)));
    assert!(matches!(account_read::<u8>(2, 10, 0), Err(ClosedError::Closed)));

    let mut io = Scripted::new();
    io.reads.push(Poll::Ready(Ok(vec![1, 2])));
    io.reads.push(Poll::Pending);
    io.reads.push(Poll::Ready(Ok(vec![3, 4, 5, 6])));
    let mut buf = [0u8; 5];
    let mut pos = 0;
    assert!(matches!(poll_read_exact(&mut io, &mut cx, &mut buf, &mut pos), Poll::Pending));
    assert_eq!(pos, 2);
    assert!(matches!(
        poll_read_exact(&mut io, &mut cx, &mut buf, &mut pos),
        Poll::Ready(Ok(()))
    ));
    assert_eq!(pos, 5);
    assert_eq!(buf, [1, 2, 3, 4, 5]);
    assert!(matches!(
        poll_read_exact(&mut io, &mut cx, &mut buf, &mut pos),
        Poll::Ready(Ok(()))
    ));

    io.reads.push(Poll::Ready(Ok(vec![9])));
    io.reads.push(Poll::Ready(Ok(vec![])));
    let mut pos = 0;
    assert!(matches!(
        poll_read_exact(&mut io, &mut cx, &mut buf, &mut pos),
        Poll::Ready(Err(ClosedError::Closed))
    ));
    assert_eq!(pos, 1);
    io.reads.push(Poll::Ready(Err(3)));
    assert!(matches!(
        poll_read_exact(&mut io, &mut cx, &mut buf, &mut pos),
        Poll::Ready(Err(ClosedError::Other(3)))
    ));

    io.writes.push(Poll::Ready(Ok(2)));
    io.writes.push(Poll::Pending);
    let mut pos = 0;
    assert!(matches!(poll_write_all(&mut io, &mut cx, &[1, 2, 3], &mut pos), Poll::Pending));
    assert_eq!(pos, 2);
    assert!(matches!(
        poll_write_all(&mut io, &mut cx, &[1, 2, 3], &mut pos),
        Poll::Ready(Ok(()))
    ));
    assert_eq!(io.written, vec![1, 2, 3]);
    io.writes.push(Poll::Ready(Ok(0)));
    let mut pos = 0;
    assert!(matches!(
        poll_write_all(&mut io, &mut cx, &[1], &mut pos),
        Poll::Ready(Err(ClosedError::Closed))
    ));
    io.writes.push(Poll::Ready(Err(8)));
    assert!(matches!(
        poll_write_all(&mut io, &mut cx, &[1], &mut pos),
        Poll::Ready(Err(ClosedError::Other(8)))
    ));
    assert!(matches!(ClosedError::from(4u8), ClosedError::Other(4)));
}

fn broken() -> TlsError {
    TlsError { description: String::from("broken") }
}

#[test]
fn advance_decides_by_state() {
    type Inner = ConnectInner<(), Scripted>;
    let mut updates = Updates::default();
    assert!(!updates.transmit_complete);
    assert!(matches!(
        Inner::advance(&mut updates, Ok(ChannelState::NeedsEncode)),
        Ok(Action::Continue)
    ));
    assert!(matches!(
        Inner::advance(&mut updates, Ok(ChannelState::NeedsTransmit)),
        Ok(Action::Write)
    ));
    assert!(!updates.transmit_complete);
    updates.transmit_complete = true;
    assert!(matches!(
        Inner::advance(&mut updates, Ok(ChannelState::NeedsReceive)),
        Ok(Action::Read)
    ));
    assert!(updates.transmit_complete);
    assert!(matches!(
        Inner::advance(&mut updates, Ok(ChannelState::NeedsTransmit)),
        Ok(Action::Continue)
    ));
    assert!(!updates.transmit_complete);
    assert!(matches!(
        Inner::advance(&mut updates, Ok(ChannelState::ReadableApplication)),
        Ok(Action::Break)
    ));
    assert!(matches!(
        Inner::advance(&mut updates, Ok(ChannelState::WritableApplication)),
        Ok(Action::Break)
    ));
    assert!(matches!(
        Inner::advance(&mut updates, Ok(ChannelState::Closed)),
        Err(Error::ConnectionAborted)
    ));
    updates.transmit_complete = true;
    match Inner::advance(&mut updates, Err(broken())) {
        Err(Error::TlsError(err)) => assert_eq!(err.description, "broken"),
        _ => panic!("expected the protocol error"),
    }
    assert!(updates.transmit_complete);
}

#[test]
fn perform_acts_on_the_transport() {
    let waker = idle_waker();
    let mut cx = Context::from_waker(&waker);
    let mut inner = ConnectInner::new((), Scripted::new());
    let mut updates = Updates::default();
    assert!(matches!(
        inner.perform(&mut updates, Action::Continue, &mut cx),
        Ok(Progress::Again)
    ));
    assert!(matches!(inner.perform(&mut updates, Action::Break, &mut cx), Ok(Progress::Finish)));

    inner.outgoing.reserve(4);
    inner.outgoing.unfilled().copy_from_slice(&[1, 2, 3, 4]);
    inner.outgoing.advance(4);
    inner.io.writes.push(Poll::Ready(Ok(3)));
    inner.io.writes.push(Poll::Pending);
    assert!(matches!(inner.perform(&mut updates, Action::Write, &mut cx), Ok(Progress::Again)));
    assert!(!updates.transmit_complete);
    assert!(matches!(
        inner.perform(&mut updates, Action::Write, &mut cx),
        Ok(Progress::Suspend)
    ));
    assert!(!updates.transmit_complete);
    assert_eq!(inner.outgoing.filled(), &[4]);
    assert!(matches!(inner.perform(&mut updates, Action::Write, &mut cx), Ok(Progress::Again)));
    assert!(updates.transmit_complete);
    assert_eq!(inner.io.written, vec![1, 2, 3, 4]);

    assert!(matches!(inner.perform(&mut updates, Action::Read, &mut cx), Ok(Progress::Suspend)));
    inner.io.reads.push(Poll::Ready(Ok(vec![8, 9])));
    inner.io.reads.push(Poll::Ready(Ok(vec![])));
    assert!(matches!(inner.perform(&mut updates, Action::Read, &mut cx), Ok(Progress::Again)));
    assert_eq!(inner.incoming.filled(), &[8, 9]);
    assert!(matches!(
        inner.perform(&mut updates, Action::Read, &mut cx),
        Err(Error::ConnectionAborted)
    ));
    assert_eq!(inner.incoming.filled(), &[8, 9]);
    assert!(updates.transmit_complete);
}

#[test]
fn channel_decisions() {
    type Stream = TlsStream<(), Scripted>;
    assert!(matches!(Stream::admit_send(Ok(ChannelState::WritableApplication)), Ok(())));
    for state in [
        ChannelState::Closed,
        ChannelState::ReadableApplication,
        ChannelState::NeedsEncode,
        ChannelState::NeedsTransmit,
        ChannelState::NeedsReceive,
    ] {
        assert!(matches!(Stream::admit_send(Ok(state)), Err(Error::ConnectionAborted)));
    }
    assert!(matches!(Stream::admit_send(Err(broken())), Err(Error::TlsError(_))));

    assert!(matches!(
        Stream::recv_step(Ok(ChannelState::ReadableApplication)),
        Ok(RecvStep::Records)
    ));
    assert!(matches!(
        Stream::recv_step(Ok(ChannelState::WritableApplication)),
        Ok(RecvStep::Read)
    ));
    assert!(matches!(Stream::recv_step(Ok(ChannelState::Closed)), Ok(RecvStep::Stop)));
    for state in [ChannelState::NeedsEncode, ChannelState::NeedsTransmit, ChannelState::NeedsReceive] {
        assert!(matches!(Stream::recv_step(Ok(state)), Err(Error::ConnectionAborted)));
    }
    assert!(matches!(Stream::recv_step(Err(broken())), Err(Error::TlsError(_))));
}

#[test]
fn records_and_pending_payload_keep_every_byte() {
    let mut dst = [0u8; 4];
    let mut pending: Vec<u8> = Vec::new();
    {
        let mut cursor = WriteCursor::new(&mut dst);
        accept_record(&mut pending, &mut cursor, &[1, 2]);
        assert!(pending.is_empty());
        accept_record(&mut pending, &mut cursor, &[3, 4, 5, 6]);
        assert_eq!(pending, vec![5, 6]);
        accept_record(&mut pending, &mut cursor, &[7]);
        assert_eq!(pending, vec![5, 6, 7]);
        assert_eq!(cursor.into_used(), 4);
    }
    assert_eq!(dst, [1, 2, 3, 4]);

    let mut next = [0u8; 2];
    {
        let mut cursor = WriteCursor::new(&mut next);
        deliver_pending(&mut pending, &mut cursor);
        assert_eq!(cursor.into_used(), 2);
    }
    assert_eq!(next, [5, 6]);
    assert_eq!(pending, vec![7]);
    let mut last = [0u8; 3];
    {
        let mut cursor = WriteCursor::new(&mut last);
        deliver_pending(&mut pending, &mut cursor);
        assert_eq!(cursor.used(), 1);
        deliver_pending(&mut pending, &mut cursor);
        assert_eq!(cursor.into_used(), 1);
    }
    assert_eq!(last, [7, 0, 0]);
    assert!(pending.is_empty());
}

#[test]
fn errors_wrap_their_causes() {
    let insufficient = InsufficientSizeError { required_size: 3 };
    assert!(matches!(
        Error::<u8>::from(EncodeError::InsufficientSize(insufficient)),
        Error::EncodeError(EncodeError::InsufficientSize(InsufficientSizeError { required_size: 3 }))
    ));
    assert!(matches!(
        Error::<u8>::from(EncodeError::AlreadyEncoded),
        Error::EncodeError(EncodeError::AlreadyEncoded)
    ));
    assert!(matches!(
        Error::<u8>::from(EncryptError::EncryptExhausted),
        Error::EncryptError(EncryptError::EncryptExhausted)
    ));
    assert!(matches!(
        Error::<u8>::from(EncryptError::InsufficientSize(insufficient)),
        Error::EncryptError(EncryptError::InsufficientSize(_))
    ));
    match Error::<u8>::from(broken()) {
        Error::TlsError(err) => assert_eq!(err.description, "broken"),
        _ => panic!("expected the protocol error"),
    }
}

#[test]
fn verifier_accepts_everything() {
    let verifier = NoServerCertVerifier;
    assert!(verifier.verify_server_cert(b"cert", &[b"ca".to_vec()], "example.com", b"", 0).is_ok());
    assert!(verifier.verify_server_cert(b"", &[], "", b"", u64::MAX).is_ok());
    assert!(verifier.verify_tls12_signature(b"message", b"cert", b"signature").is_ok());
    assert!(verifier.verify_tls13_signature(b"", b"", b"").is_ok());
}

#[test]
fn socket_wrapper_passes_through() {
    let waker = idle_waker();
    let mut cx = Context::from_waker(&waker);
    let mut io = Scripted::new();
    io.reads.push(Poll::Ready(Ok(vec![1, 2])));
    let mut wrapper = TcpSocketWrapper::new(io);
    let mut buf = [0u8; 4];
    assert!(matches!(wrapper.poll_recv(&mut cx, &mut buf), Poll::Ready(Ok(2))));
    assert_eq!(&buf[..2], &[1, 2]);
    assert!(matches!(wrapper.poll_recv(&mut cx, &mut buf), Poll::Pending));
    assert!(matches!(wrapper.poll_send(&mut cx, &[7, 8, 9]), Poll::Ready(Ok(3))));
    wrapper.inner_mut().writes.push(Poll::Ready(Err(6)));
    assert!(matches!(wrapper.poll_send(&mut cx, &[1]), Poll::Ready(Err(6))));
    assert_eq!(wrapper.into_inner().written, vec![7, 8, 9]);
}

#[test]
fn settled_steps_of_flush_and_drain() {
    assert!(matches!(settle_flush::<u8>(true, 5, 5), Some(Poll::Pending)));
    assert!(matches!(settle_flush::<u8>(true, 5, 2), Some(Poll::Pending)));
    assert!(matches!(
        settle_flush::<u8>(false, 5, 5),
        Some(Poll::Ready(Err(Error::ConnectionAborted)))
    ));
    assert!(settle_flush::<u8>(false, 5, 4).is_none());
    assert!(settle_flush::<u8>(false, 5, 0).is_none());

    assert!(drain_goes_on(false, 5, 3));
    assert!(!drain_goes_on(false, 5, 0));
    assert!(!drain_goes_on(false, 5, 5));
    assert!(!drain_goes_on(true, 5, 3));
    assert!(!drain_goes_on(true, 5, 5));
}

#[test]
fn settled_steps_of_the_handshake() {
    assert!(matches!(settle_handshake_read::<u8>(true, 3, 3), Ok(Progress::Suspend)));
    assert!(matches!(settle_handshake_read::<u8>(false, 3, 3), Err(Error::ConnectionAborted)));
    assert!(matches!(settle_handshake_read::<u8>(false, 3, 4), Ok(Progress::Again)));

    let mut updates = Updates::default();
    assert_eq!(settle_handshake_write(false, true, &mut updates), Progress::Again);
    assert!(updates.transmit_complete);
    assert_eq!(settle_handshake_write(true, false, &mut updates), Progress::Suspend);
    assert!(!updates.transmit_complete);
    assert_eq!(settle_handshake_write(true, true, &mut updates), Progress::Suspend);
    assert!(updates.transmit_complete);

    let done = Updates { transmit_complete: true };
    let not_done = Updates { transmit_complete: false };
    assert_eq!(due_engine_call(&done, &Ok(ChannelState::NeedsEncode)), EngineCall::Encode);
    assert_eq!(due_engine_call(&not_done, &Ok(ChannelState::NeedsEncode)), EngineCall::Encode);
    assert_eq!(due_engine_call(&done, &Ok(ChannelState::NeedsTransmit)), EngineCall::Acknowledge);
    assert_eq!(due_engine_call(&not_done, &Ok(ChannelState::NeedsTransmit)), EngineCall::Nothing);
    for state in [
        ChannelState::NeedsReceive,
        ChannelState::ReadableApplication,
        ChannelState::WritableApplication,
        ChannelState::Closed,
    ] {
        assert_eq!(due_engine_call(&done, &Ok(state)), EngineCall::Nothing);
    }
    assert_eq!(due_engine_call(&done, &Err(broken())), EngineCall::Nothing);
}

#[test]
fn settled_steps_of_recv() {
    assert_eq!(settle_recv_read(false, 0), RecvFlow::GoOn);
    assert_eq!(settle_recv_read(false, 9), RecvFlow::GoOn);
    assert_eq!(settle_recv_read(true, 0), RecvFlow::Suspend);
    assert_eq!(settle_recv_read(true, 9), RecvFlow::Return(9));
    assert_eq!(settle_recv_turn(false, false, 3), RecvFlow::GoOn);
    assert_eq!(settle_recv_turn(false, true, 3), RecvFlow::Return(3));
    assert_eq!(settle_recv_turn(true, false, 0), RecvFlow::Return(0));
    assert_eq!(settle_recv_turn(true, true, 4), RecvFlow::Return(4));
    assert_eq!(add_discard(3, 4), Some(7));
    assert_eq!(add_discard(usize::MAX, 1), None);
    assert_eq!(add_discard(usize::MAX, 0), Some(usize::MAX));
}

#[test]
fn read_exact_and_write_all_with_nothing_to_do() {
    let waker = idle_waker();
    let mut cx = Context::from_waker(&waker);
    let mut io = Scripted::new();
    let mut buf = [1u8, 2, 3];
    let mut pos = 3;
    assert!(matches!(poll_read_exact(&mut io, &mut cx, &mut buf, &mut pos), Poll::Ready(Ok(()))));
    assert_eq!(buf, [1, 2, 3]);
    assert!(matches!(poll_write_all(&mut io, &mut cx, &buf, &mut pos), Poll::Ready(Ok(()))));
    assert!(io.written.is_empty());
    let mut none: [u8; 0] = [];
    let mut pos = 0;
    assert!(matches!(poll_read_exact(&mut io, &mut cx, &mut none, &mut pos), Poll::Ready(Ok(()))));
}

#[test]
fn finish_send_with_nothing_buffered_leaves_the_transport_alone() {
    let mut transport = Scripted::new();
    transport.writes.push(Poll::Ready(Err(9)));
    let mut stream = TlsStream {
        conn: (),
        incoming: Buffer::new(),
        io: transport,
        outgoing: Buffer::new(),
        pending: Vec::new(),
    };
    let waker = idle_waker();
    let mut cx = Context::from_waker(&waker);
    assert!(matches!(stream.finish_send(&mut cx, 37), Poll::Ready(Ok(37))));
    assert_eq!(stream.io.writes.len(), 1);
    assert!(stream.io.written.is_empty());
    assert!(stream.outgoing.is_empty());

    stream.outgoing = filled_with(&[1, 2, 3], 0);
    assert!(matches!(stream.finish_send(&mut cx, 3), Poll::Ready(Err(Error::TransitError(9)))));
    assert_eq!(stream.outgoing.filled(), &[1, 2, 3]);

    stream.io.writes.push(Poll::Ready(Ok(2)));
    stream.io.writes.push(Poll::Pending);
    assert!(matches!(stream.finish_send(&mut cx, 3), Poll::Ready(Ok(3))));
    assert_eq!(stream.io.written, vec![1, 2]);
    assert_eq!(stream.outgoing.filled(), &[3]);
}

#[test]
fn turn_plan_pairs_the_engine_call_with_the_action() {
    type Inner = ConnectInner<(), Scripted>;
    let mut updates = Updates { transmit_complete: false };
    assert!(matches!(
        Inner::turn_plan(&mut updates, Ok(ChannelState::NeedsEncode)),
        Ok((EngineCall::Encode, Action::Continue))
    ));
    assert!(matches!(
        Inner::turn_plan(&mut updates, Ok(ChannelState::NeedsTransmit)),
        Ok((EngineCall::Nothing, Action::Write))
    ));
    assert!(!updates.transmit_complete);
    updates.transmit_complete = true;
    assert!(matches!(
        Inner::turn_plan(&mut updates, Ok(ChannelState::NeedsTransmit)),
        Ok((EngineCall::Acknowledge, Action::Continue))
    ));
    assert!(!updates.transmit_complete);
    updates.transmit_complete = true;
    assert!(matches!(
        Inner::turn_plan(&mut updates, Ok(ChannelState::NeedsReceive)),
        Ok((EngineCall::Nothing, Action::Read))
    ));
    assert!(updates.transmit_complete);
    assert!(matches!(
        Inner::turn_plan(&mut updates, Ok(ChannelState::WritableApplication)),
        Ok((EngineCall::Nothing, Action::Break))
    ));
    assert!(matches!(
        Inner::turn_plan(&mut updates, Ok(ChannelState::ReadableApplication)),
        Ok((EngineCall::Nothing, Action::Break))
    ));
    assert!(matches!(
        Inner::turn_plan(&mut updates, Ok(ChannelState::Closed)),
        Err(Error::ConnectionAborted)
    ));
    assert!(matches!(Inner::turn_plan(&mut updates, Err(broken())), Err(Error::TlsError(_))));
    assert!(updates.transmit_complete);
}

#[test]
fn records_are_taken_while_the_destination_has_room() {
    assert_eq!(records_flow(false), RecordsFlow::Ask);
    assert_eq!(records_flow(true), RecordsFlow::Stop);

    let mut dst = [0u8; 5];
    let mut pending: Vec<u8> = Vec::new();
    {
        let mut cursor = WriteCursor::new(&mut dst);
        let first = take_record::<u8>(&mut pending, &mut cursor, 10, Some(Ok((7, &[1, 2][..]))));
        assert!(matches!(first, Ok((17, RecordsFlow::Ask))));
        assert_eq!(cursor.used(), 2);
        let none = take_record::<u8>(&mut pending, &mut cursor, 17, None);
        assert!(matches!(none, Ok((17, RecordsFlow::Stop))));
        assert_eq!(cursor.used(), 2);
        let failed = take_record::<u8>(&mut pending, &mut cursor, 17, Some(Err(broken())));
        assert!(matches!(failed, Err(Error::TlsError(_))));
        assert_eq!(cursor.used(), 2);
        assert!(pending.is_empty());
        let second =
            take_record::<u8>(&mut pending, &mut cursor, 17, Some(Ok((9, &[3, 4, 5, 6, 7][..]))));
        assert!(matches!(second, Ok((26, RecordsFlow::Stop))));
        assert_eq!(cursor.used(), 5);
        let third = take_record::<u8>(&mut pending, &mut cursor, 26, Some(Ok((3, &[8][..]))));
        assert!(matches!(third, Ok((29, RecordsFlow::Stop))));
    }
    assert_eq!(dst, [1, 2, 3, 4, 5]);
    assert_eq!(pending, vec![6, 7, 8]);
}

#[test]
fn integers_stand_in_for_usize() {
    assert_eq!(200u8.into_usize(), 200);
    assert_eq!(u16::MAX.into_usize(), 65535);
    assert_eq!(70_000u32.into_usize(), 70_000);
    assert_eq!(5_000_000_000u64.into_usize(), 5_000_000_000);
    assert_eq!(<u8 as CramUsize>::from_usize(255), 255u8);
    assert_eq!(<u16 as CramUsize>::from_usize(256), 256u16);
    assert_eq!(<u32 as CramUsize>::from_usize(0), 0u32);
    assert_eq!(<u64 as CramUsize>::from_usize(usize::MAX), usize::MAX as u64);
    assert_eq!(<u16 as CramUsize>::into_usize_range(&(3u16..9u16)), 3usize..9usize);
    assert_eq!(<u64 as CramUsize>::into_usize_range(&(0u64..4096u64)), 0usize..4096usize);
    assert_eq!(<u8 as CramUsize>::from_usize_range(&(3usize..9usize)), 3u8..9u8);
    assert_eq!(<u32 as CramUsize>::from_usize_range(&(7usize..7usize)), 7u32..7u32);
}
