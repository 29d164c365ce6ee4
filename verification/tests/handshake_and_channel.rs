use std::collections::VecDeque;
use std::sync::Arc;
use std::task::{Context, Poll, Wake, Waker};

use sel4_support::async_io::connect::{Connect, ConnectInner, EngineCall, Progress, Updates};
use sel4_support::async_io::connector::TcpConnector;
use sel4_support::async_io::cursor::WriteCursor;
use sel4_support::async_io::error::{
    EncodeError, EncryptError, Error, InsufficientSizeError, TlsError,
};
use sel4_support::async_io::state::ChannelState;
use sel4_support::async_io::stream::{
    add_discard, deliver_pending, records_flow, settle_recv_read, settle_recv_turn, take_record,
    RecordsFlow, RecvFlow, RecvStep, TlsStream,
};
use sel4_support::async_io::traits::AsyncIO;
use sel4_support::async_io::utils::{poll_read, try_or_resize_and_retry};

// A waker that does nothing: the tests poll by hand.

struct Idle;

impl Wake for Idle {
    fn wake(self: Arc<Self>) {}
}

fn idle_waker() -> Waker {
    Waker::from(Arc::new(Idle))
}

// A transport that plays a script and records what is written to it.

#[derive(Debug, Clone, PartialEq, Eq)]
enum Read {
    Data(Vec<u8>),
    WouldBlock,
    Eof,
    Fail(u32),
}

#[derive(Debug, Clone, Copy, PartialEq, Eq)]
enum Write {
    UpTo(usize),
    WouldBlock,
    Fail(u32),
}

struct Wire {
    reads: VecDeque<Read>,
    writes: VecDeque<Write>,
    per_read: usize,
    written: Vec<u8>,
    write_calls: usize,
}

impl Wire {
    fn new() -> Self {
        Wire {
            reads: VecDeque::new(),
            writes: VecDeque::new(),
            per_read: usize::MAX,
            written: Vec::new(),
            write_calls: 0,
        }
    }

    fn deliver(&mut self, bytes: &[u8]) {
        self.reads.push_back(Read::Data(bytes.to_vec()));
    }
}

impl AsyncIO for Wire {
    type Error = u32;

    fn poll_recv(&mut self, _cx: &mut Context<'_>, buf: &mut [u8]) -> Poll<Result<usize, u32>> {
        match self.reads.pop_front() {
            None | Some(Read::WouldBlock) => Poll::Pending,
            Some(Read::Eof) => Poll::Ready(Ok(0)),
            Some(Read::Fail(code)) => Poll::Ready(Err(code)),
            Some(Read::Data(bytes)) => {
                let n = bytes.len().min(buf.len()).min(self.per_read);
                buf[..n].copy_from_slice(&bytes[..n]);
                if n < bytes.len() {
                    self.reads.push_front(Read::Data(bytes[n..].to_vec()));
                }
                Poll::Ready(Ok(n))
            }
        }
    }

    fn poll_send(&mut self, _cx: &mut Context<'_>, buf: &[u8]) -> Poll<Result<usize, u32>> {
        self.write_calls += 1;
        match self.writes.pop_front().unwrap_or(Write::UpTo(usize::MAX)) {
            Write::WouldBlock => Poll::Pending,
            Write::Fail(code) => Poll::Ready(Err(code)),
            Write::UpTo(limit) => {
                let n = buf.len().min(limit);
                self.written.extend_from_slice(&buf[..n]);
                Poll::Ready(Ok(n))
            }
        }
    }
}

// A toy record engine. Its handshake sends HELLO, waits for the peer's
// WELCOME, and sends READY. A record on the wire is a two-byte length and
// the payload with every byte XORed with MASK; a length of 0xffff closes.

const HELLO: &[u8] = b"client-hello";
const WELCOME: &[u8] = b"server-welcome";
const READY: &[u8] = b"client-ready";
const MASK: u8 = 0x5a;

#[derive(Debug, Clone, Copy, PartialEq, Eq)]
enum Phase {
    EncodeHello,
    TransmitHello,
    AwaitWelcome,
    EncodeReady,
    TransmitReady,
    Open,
    Closed,
}

struct Toy {
    phase: Phase,
    offset: usize,
    encode_calls: usize,
    encrypt_calls: usize,
    done_calls: usize,
    always_insufficient: bool,
    broken_record: bool,
}

impl Toy {
    fn new() -> Self {
        Toy {
            phase: Phase::EncodeHello,
            offset: 0,
            encode_calls: 0,
            encrypt_calls: 0,
            done_calls: 0,
            always_insufficient: false,
            broken_record: false,
        }
    }

    fn open() -> Self {
        let mut toy = Toy::new();
        toy.phase = Phase::Open;
        toy
    }

    fn process(&mut self, incoming: &mut [u8]) -> (usize, Result<ChannelState, TlsError>) {
        self.offset = 0;
        match self.phase {
            Phase::EncodeHello | Phase::EncodeReady => (0, Ok(ChannelState::NeedsEncode)),
            Phase::TransmitHello | Phase::TransmitReady => (0, Ok(ChannelState::NeedsTransmit)),
            Phase::AwaitWelcome => {
                if incoming.len() < WELCOME.len() {
                    (0, Ok(ChannelState::NeedsReceive))
                } else if &incoming[..WELCOME.len()] == WELCOME {
                    self.phase = Phase::EncodeReady;
                    (WELCOME.len(), Ok(ChannelState::NeedsEncode))
                } else {
                    (0, Err(TlsError { description: String::from("unexpected greeting") }))
                }
            }
            Phase::Open => {
                if incoming.len() >= 2 {
                    let len = usize::from(incoming[0]) << 8 | usize::from(incoming[1]);
                    if len == 0xffff {
                        self.phase = Phase::Closed;
                        return (2, Ok(ChannelState::Closed));
                    }
                    if incoming.len() >= 2 + len {
                        return (0, Ok(ChannelState::ReadableApplication));
                    }
                }
                (0, Ok(ChannelState::WritableApplication))
            }
            Phase::Closed => (0, Ok(ChannelState::Closed)),
        }
    }

    fn encode(&mut self, dst: &mut [u8]) -> Result<usize, EncodeError> {
        self.encode_calls += 1;
        let message = match self.phase {
            Phase::EncodeHello => HELLO,
            Phase::EncodeReady => READY,
            _ => return Err(EncodeError::AlreadyEncoded),
        };
        if self.always_insufficient || dst.len() < message.len() {
            return Err(EncodeError::InsufficientSize(InsufficientSizeError {
                required_size: message.len(),
            }));
        }
        dst[..message.len()].copy_from_slice(message);
        self.phase = match self.phase {
            Phase::EncodeHello => Phase::TransmitHello,
            _ => Phase::TransmitReady,
        };
        Ok(message.len())
    }

    fn done(&mut self) {
        self.done_calls += 1;
        self.phase = match self.phase {
            Phase::TransmitHello => Phase::AwaitWelcome,
            Phase::TransmitReady => Phase::Open,
            other => other,
        };
    }

    fn encrypt(&mut self, plaintext: &[u8], dst: &mut [u8]) -> Result<usize, EncryptError> {
        self.encrypt_calls += 1;
        let needed = 2 + plaintext.len();
        if self.always_insufficient || dst.len() < needed {
            return Err(EncryptError::InsufficientSize(InsufficientSizeError {
                required_size: needed,
            }));
        }
        dst[0] = (plaintext.len() >> 8) as u8;
        dst[1] = plaintext.len() as u8;
        for (d, p) in dst[2..needed].iter_mut().zip(plaintext) {
            *d = p ^ MASK;
        }
        Ok(needed)
    }

    fn next_record<'i>(
        &mut self,
        incoming: &'i mut [u8],
    ) -> Option<Result<(usize, &'i [u8]), TlsError>> {
        let rest = &mut incoming[self.offset..];
        if rest.len() < 2 {
            return None;
        }
        let len = usize::from(rest[0]) << 8 | usize::from(rest[1]);
        if len == 0xffff || rest.len() < 2 + len {
            return None;
        }
        if self.broken_record {
            return Some(Err(TlsError { description: String::from("bad record") }));
        }
        for b in rest[2..2 + len].iter_mut() {
            *b ^= MASK;
        }
        self.offset += 2 + len;
        Some(Ok((2 + len, &rest[2..2 + len])))
    }
}

fn record(payload: &[u8]) -> Vec<u8> {
    let mut out = vec![(payload.len() >> 8) as u8, payload.len() as u8];
    out.extend(payload.iter().map(|b| b ^ MASK));
    out
}

fn close_record() -> Vec<u8> {
    vec![0xff, 0xff]
}

// The loops that drive the engine and the transport through the library.

fn turn(
    inner: &mut ConnectInner<Toy, Wire>,
    updates: &mut Updates,
    cx: &mut Context<'_>,
) -> Result<Progress, Error<u32>> {
    let (discard, state) = inner.conn.process(inner.incoming.filled_mut());
    assert!(discard <= inner.incoming.len());
    let outcome = match ConnectInner::<Toy, Wire>::turn_plan(updates, state) {
        Ok((EngineCall::Encode, action)) => {
            let conn = &mut inner.conn;
            try_or_resize_and_retry(
                |dst: &mut [u8]| conn.encode(dst),
                |e: EncodeError| match e {
                    EncodeError::InsufficientSize(is) => Ok(is),
                    other => Err(Error::from(other)),
                },
                &mut inner.outgoing,
            )
            .map(|_| action)
        }
        Ok((EngineCall::Acknowledge, action)) => {
            inner.conn.done();
            Ok(action)
        }
        Ok((EngineCall::Nothing, action)) => Ok(action),
        Err(err) => Err(err),
    };
    inner.incoming.discard(discard);
    let action = outcome?;
    inner.perform(updates, action, cx)
}

fn poll_connect(
    connect: &mut Connect<Toy, Wire>,
    cx: &mut Context<'_>,
) -> Poll<Result<TlsStream<Toy, Wire>, Error<u32>>> {
    let mut inner = connect.take().expect("polled after completion");
    let mut updates = Updates::default();
    loop {
        match turn(&mut inner, &mut updates, cx) {
            Ok(Progress::Again) => continue,
            Ok(Progress::Suspend) => {
                connect.restore(inner);
                return Poll::Pending;
            }
            Ok(Progress::Finish) => return Poll::Ready(Ok(inner.into_stream())),
            Err(err) => return Poll::Ready(Err(err)),
        }
    }
}

fn poll_send(
    stream: &mut TlsStream<Toy, Wire>,
    cx: &mut Context<'_>,
    buf: &[u8],
) -> Poll<Result<usize, Error<u32>>> {
    let (_, state) = stream.conn.process(&mut []);
    if let Err(err) = TlsStream::<Toy, Wire>::admit_send(state) {
        return Poll::Ready(Err(err));
    }
    let conn = &mut stream.conn;
    let encrypted = try_or_resize_and_retry(
        |dst: &mut [u8]| conn.encrypt(buf, dst),
        |e: EncryptError| match e {
            EncryptError::InsufficientSize(is) => Ok(is),
            other => Err(Error::from(other)),
        },
        &mut stream.outgoing,
    );
    if let Err(err) = encrypted {
        return Poll::Ready(Err(err));
    }
    stream.finish_send(cx, buf.len())
}

fn poll_recv(
    stream: &mut TlsStream<Toy, Wire>,
    cx: &mut Context<'_>,
    buf: &mut [u8],
) -> Poll<Result<usize, Error<u32>>> {
    let mut cursor = WriteCursor::new(buf);
    deliver_pending(&mut stream.pending, &mut cursor);
    let mut flow = settle_recv_turn(false, cursor.is_full(), cursor.used());
    while flow == RecvFlow::GoOn {
        let (mut discard, state) = stream.conn.process(stream.incoming.filled_mut());
        let outcome = match TlsStream::<Toy, Wire>::recv_step(state) {
            Ok(RecvStep::Records) => {
                let mut taken = Ok(());
                let mut records = records_flow(cursor.is_full());
                while records == RecordsFlow::Ask {
                    let answer = stream.conn.next_record(stream.incoming.filled_mut());
                    if let Some(Ok((used_up, _))) = &answer {
                        assert!(add_discard(discard, *used_up).is_some());
                    }
                    assert!(stream.pending.is_empty() || cursor.is_full());
                    match take_record(&mut stream.pending, &mut cursor, discard, answer) {
                        Ok((used_up, next)) => {
                            discard = used_up;
                            records = next;
                        }
                        Err(err) => {
                            taken = Err(err);
                            records = RecordsFlow::Stop;
                        }
                    }
                }
                taken.map(|()| settle_recv_turn(false, cursor.is_full(), cursor.used()))
            }
            Ok(RecvStep::Read) => poll_read(&mut stream.io, &mut stream.incoming, cx)
                .map(|would_block| settle_recv_read(would_block, cursor.used())),
            Ok(RecvStep::Stop) => Ok(settle_recv_turn(true, cursor.is_full(), cursor.used())),
            Err(err) => Err(err),
        };
        stream.incoming.discard(discard);
        match outcome {
            Ok(next) => flow = next,
            Err(err) => return Poll::Ready(Err(err)),
        }
    }
    match flow {
        RecvFlow::Suspend => Poll::Pending,
        RecvFlow::Return(used) => {
            assert_eq!(used, cursor.into_used());
            Poll::Ready(Ok(used))
        }
        RecvFlow::GoOn => unreachable!(),
    }
}

fn ready<T>(poll: Poll<T>) -> T {
    match poll {
        Poll::Ready(value) => value,
        Poll::Pending => panic!("pending"),
    }
}

fn connected(wire: Wire) -> TlsStream<Toy, Wire> {
    let waker = idle_waker();
    let mut cx = Context::from_waker(&waker);
    let mut connect = Connect::new(Toy::new(), wire);
    match ready(poll_connect(&mut connect, &mut cx)) {
        Ok(stream) => stream,
        Err(_) => panic!("handshake failed"),
    }
}

const REQUEST: &[u8] = b"GET / HTTP/1.1\r\nHost: example.com\r\n\r\n";

#[test]
fn handshake_then_request_and_response() {
    let waker = idle_waker();
    let mut cx = Context::from_waker(&waker);
    let mut wire = Wire::new();
    wire.deliver(WELCOME);
    let mut stream = connected(wire);

    let mut expected_wire = Vec::new();
    expected_wire.extend_from_slice(HELLO);
    expected_wire.extend_from_slice(READY);
    assert_eq!(stream.io.written, expected_wire);
    assert_eq!(stream.conn.done_calls, 2);
    assert!(stream.incoming.is_empty());
    assert!(stream.outgoing.is_empty());

    let sent = ready(poll_send(&mut stream, &mut cx, REQUEST));
    assert!(matches!(sent, Ok(n) if n == REQUEST.len()));
    assert!(matches!(ready(stream.poll_flush(&mut cx)), Ok(())));
    expected_wire.extend_from_slice(&record(REQUEST));
    assert_eq!(stream.io.written, expected_wire);

    let body: Vec<u8> = (0..3000u32).map(|i| (i % 251) as u8).collect();
    stream.io.deliver(&record(&body[..1200]));
    stream.io.deliver(&record(&body[1200..]));
    stream.io.deliver(&close_record());

    let mut received = Vec::new();
    let mut buf = vec![0u8; 1024];
    loop {
        match ready(poll_recv(&mut stream, &mut cx, &mut buf)) {
            Ok(0) => break,
            Ok(n) => received.extend_from_slice(&buf[..n]),
            Err(_) => panic!("recv failed"),
        }
    }
    assert_eq!(received.len(), 3000);
    assert_eq!(received, body);
}

#[test]
fn handshake_with_one_byte_per_read() {
    let waker = idle_waker();
    let mut cx = Context::from_waker(&waker);
    let mut wire = Wire::new();
    wire.per_read = 1;
    wire.deliver(WELCOME);
    let mut connect = Connect::new(Toy::new(), wire);
    let stream = match ready(poll_connect(&mut connect, &mut cx)) {
        Ok(stream) => stream,
        Err(_) => panic!("handshake failed"),
    };
    assert!(connect.inner.is_none());
    assert_eq!(stream.conn.phase, Phase::Open);
    assert!(stream.incoming.is_empty());
    assert_eq!(stream.incoming.capacity(), 262144);
    let mut expected_wire = Vec::new();
    expected_wire.extend_from_slice(HELLO);
    expected_wire.extend_from_slice(READY);
    assert_eq!(stream.io.written, expected_wire);
}

#[test]
fn recv_into_four_bytes_with_a_thousand_pending() {
    let waker = idle_waker();
    let mut cx = Context::from_waker(&waker);
    let payload: Vec<u8> = (0..1000u32).map(|i| (i % 256) as u8).collect();
    let mut wire = Wire::new();
    wire.deliver(&record(&payload));
    let mut stream = Connect::new(Toy::open(), wire).take().unwrap().into_stream();

    let mut small = [0u8; 4];
    assert!(matches!(ready(poll_recv(&mut stream, &mut cx, &mut small)), Ok(4)));
    assert_eq!(small, [0, 1, 2, 3]);
    assert_eq!(stream.pending.len(), 996);
    assert_eq!(stream.pending, payload[4..].to_vec());
    assert!(stream.incoming.is_empty());

    let mut received = small.to_vec();
    let mut buf = [0u8; 300];
    while received.len() < 1000 {
        match ready(poll_recv(&mut stream, &mut cx, &mut buf)) {
            Ok(n) => {
                assert!(n > 0);
                received.extend_from_slice(&buf[..n]);
            }
            Err(_) => panic!("recv failed"),
        }
    }
    assert_eq!(received, payload);
    assert!(stream.pending.is_empty());
    assert!(matches!(poll_recv(&mut stream, &mut cx, &mut buf), Poll::Pending));
}

#[test]
fn handshake_write_would_block_then_resumes() {
    let waker = idle_waker();
    let mut cx = Context::from_waker(&waker);
    let mut wire = Wire::new();
    wire.writes.push_back(Write::WouldBlock);
    wire.deliver(WELCOME);
    let mut connect = Connect::new(Toy::new(), wire);

    assert!(matches!(poll_connect(&mut connect, &mut cx), Poll::Pending));
    {
        let inner = connect.inner.as_ref().unwrap();
        assert!(inner.io.written.is_empty());
        assert_eq!(inner.outgoing.filled(), HELLO);
        // The outgoing buffer starts without capacity: the first encode asks
        // for room and the retry writes.
        assert_eq!(inner.conn.encode_calls, 2);
        assert_eq!(inner.conn.done_calls, 0);
    }

    let stream = match ready(poll_connect(&mut connect, &mut cx)) {
        Ok(stream) => stream,
        Err(_) => panic!("handshake failed"),
    };
    let mut expected_wire = Vec::new();
    expected_wire.extend_from_slice(HELLO);
    expected_wire.extend_from_slice(READY);
    assert_eq!(stream.io.written, expected_wire);
    assert_eq!(stream.conn.encode_calls, 3);
    assert_eq!(stream.conn.done_calls, 2);
}

#[test]
fn handshake_partial_writes_send_each_byte_once() {
    let waker = idle_waker();
    let mut cx = Context::from_waker(&waker);
    let mut wire = Wire::new();
    wire.writes.push_back(Write::UpTo(5));
    wire.writes.push_back(Write::WouldBlock);
    wire.writes.push_back(Write::UpTo(3));
    wire.deliver(WELCOME);
    let mut connect = Connect::new(Toy::new(), wire);
    assert!(matches!(poll_connect(&mut connect, &mut cx), Poll::Pending));
    assert_eq!(connect.inner.as_ref().unwrap().io.written, HELLO[..5].to_vec());
    assert_eq!(connect.inner.as_ref().unwrap().outgoing.filled(), &HELLO[5..]);
    let stream = match ready(poll_connect(&mut connect, &mut cx)) {
        Ok(stream) => stream,
        Err(_) => panic!("handshake failed"),
    };
    let mut expected_wire = Vec::new();
    expected_wire.extend_from_slice(HELLO);
    expected_wire.extend_from_slice(READY);
    assert_eq!(stream.io.written, expected_wire);
}

#[test]
fn recv_returns_zero_when_engine_reports_closed() {
    let waker = idle_waker();
    let mut cx = Context::from_waker(&waker);
    let mut wire = Wire::new();
    wire.deliver(&close_record());
    let mut stream = Connect::new(Toy::open(), wire).take().unwrap().into_stream();
    let mut buf = [0u8; 16];
    assert!(matches!(poll_recv(&mut stream, &mut cx, &mut buf), Poll::Ready(Ok(0))));
    assert!(matches!(poll_recv(&mut stream, &mut cx, &mut buf), Poll::Ready(Ok(0))));
}

#[test]
fn recv_suspends_without_data_and_returns_short_with_some() {
    let waker = idle_waker();
    let mut cx = Context::from_waker(&waker);
    let mut stream = Connect::new(Toy::open(), Wire::new()).take().unwrap().into_stream();
    let mut buf = [0u8; 16];
    assert!(matches!(poll_recv(&mut stream, &mut cx, &mut buf), Poll::Pending));

    stream.io.deliver(&record(b"abc"));
    assert!(matches!(poll_recv(&mut stream, &mut cx, &mut buf), Poll::Ready(Ok(3))));
    assert_eq!(&buf[..3], b"abc");
}

#[test]
fn chunking_of_reads_does_not_change_the_payload() {
    let waker = idle_waker();
    let mut cx = Context::from_waker(&waker);
    let mut bytes = record(b"first record");
    bytes.extend(record(b"and a second one"));
    bytes.extend(close_record());

    let mut outcomes = Vec::new();
    for per_read in [usize::MAX, 1, 7] {
        let mut wire = Wire::new();
        wire.per_read = per_read;
        wire.deliver(&bytes);
        let mut stream = Connect::new(Toy::open(), wire).take().unwrap().into_stream();
        let mut received = Vec::new();
        let mut buf = [0u8; 64];
        loop {
            match poll_recv(&mut stream, &mut cx, &mut buf) {
                Poll::Ready(Ok(0)) => break,
                Poll::Ready(Ok(n)) => received.extend_from_slice(&buf[..n]),
                Poll::Ready(Err(_)) => panic!("recv failed"),
                Poll::Pending => panic!("pending"),
            }
        }
        outcomes.push(received);
    }
    assert_eq!(outcomes[0], b"first recordand a second one".to_vec());
    assert_eq!(outcomes[0], outcomes[1]);
    assert_eq!(outcomes[0], outcomes[2]);
}

#[test]
fn handshake_aborts_on_end_of_stream() {
    let waker = idle_waker();
    let mut cx = Context::from_waker(&waker);
    let mut wire = Wire::new();
    wire.reads.push_back(Read::Data(WELCOME[..4].to_vec()));
    wire.reads.push_back(Read::Eof);
    let mut connect = Connect::new(Toy::new(), wire);
    assert!(matches!(
        poll_connect(&mut connect, &mut cx),
        Poll::Ready(Err(Error::ConnectionAborted))
    ));
    assert!(connect.inner.is_none());
}

#[test]
fn handshake_passes_transport_and_protocol_errors_on() {
    let waker = idle_waker();
    let mut cx = Context::from_waker(&waker);
    let mut wire = Wire::new();
    wire.reads.push_back(Read::Fail(7));
    let mut connect = Connect::new(Toy::new(), wire);
    assert!(matches!(
        poll_connect(&mut connect, &mut cx),
        Poll::Ready(Err(Error::TransitError(7)))
    ));

    let mut wire = Wire::new();
    wire.writes.push_back(Write::Fail(9));
    let mut connect = Connect::new(Toy::new(), wire);
    assert!(matches!(
        poll_connect(&mut connect, &mut cx),
        Poll::Ready(Err(Error::TransitError(9)))
    ));

    let mut wire = Wire::new();
    wire.deliver(b"server-goodbye");
    let mut connect = Connect::new(Toy::new(), wire);
    match poll_connect(&mut connect, &mut cx) {
        Poll::Ready(Err(Error::TlsError(err))) => assert_eq!(err.description, "unexpected greeting"),
        _ => panic!("expected a protocol error"),
    }
}

#[test]
fn encode_that_never_fits_fails_after_one_retry() {
    let waker = idle_waker();
    let mut cx = Context::from_waker(&waker);
    let mut toy = Toy::new();
    toy.always_insufficient = true;
    let mut connect = Connect::new(toy, Wire::new());
    let mut inner = connect.take().unwrap();
    let mut updates = Updates::default();
    let outcome = turn(&mut inner, &mut updates, &mut cx);
    assert!(matches!(
        outcome,
        Err(Error::EncodeError(EncodeError::InsufficientSize(InsufficientSizeError {
            required_size: 12
        })))
    ));
    assert_eq!(inner.conn.encode_calls, 2);
    assert_eq!(inner.outgoing.capacity(), 12);
    assert_eq!(inner.outgoing.len(), 0);
}

#[test]
fn send_on_closed_channel_is_aborted() {
    let waker = idle_waker();
    let mut cx = Context::from_waker(&waker);
    let mut toy = Toy::open();
    toy.phase = Phase::Closed;
    let mut stream = Connect::new(toy, Wire::new()).take().unwrap().into_stream();
    assert!(matches!(
        poll_send(&mut stream, &mut cx, b"late"),
        Poll::Ready(Err(Error::ConnectionAborted))
    ));
    assert_eq!(stream.conn.encrypt_calls, 0);
    assert!(stream.outgoing.is_empty());
}

#[test]
fn send_accepts_everything_while_transport_blocks() {
    let waker = idle_waker();
    let mut cx = Context::from_waker(&waker);
    let mut wire = Wire::new();
    wire.writes.push_back(Write::WouldBlock);
    wire.writes.push_back(Write::UpTo(4));
    wire.writes.push_back(Write::WouldBlock);
    let mut stream = Connect::new(Toy::open(), wire).take().unwrap().into_stream();

    assert!(matches!(poll_send(&mut stream, &mut cx, b"hello"), Poll::Ready(Ok(5))));
    assert_eq!(stream.outgoing.filled(), record(b"hello").as_slice());
    assert!(stream.io.written.is_empty());

    assert!(matches!(poll_send(&mut stream, &mut cx, b"world"), Poll::Ready(Ok(5))));
    let mut all = record(b"hello");
    all.extend(record(b"world"));
    assert_eq!(stream.io.written, all[..4].to_vec());
    assert_eq!(stream.outgoing.filled(), &all[4..]);

    assert!(matches!(stream.poll_flush(&mut cx), Poll::Ready(Ok(()))));
    assert_eq!(stream.io.written, all);
    assert!(stream.outgoing.is_empty());
}

#[test]
fn send_retries_encrypt_once_with_the_room_asked_for() {
    let waker = idle_waker();
    let mut cx = Context::from_waker(&waker);
    let mut wire = Wire::new();
    wire.writes.push_back(Write::WouldBlock);
    let mut stream = Connect::new(Toy::open(), wire).take().unwrap().into_stream();
    assert_eq!(stream.outgoing.capacity(), 0);
    assert!(matches!(poll_send(&mut stream, &mut cx, b"abcdef"), Poll::Ready(Ok(6))));
    assert_eq!(stream.conn.encrypt_calls, 2);
    assert_eq!(stream.outgoing.capacity(), 8);
    assert_eq!(stream.outgoing.len(), 8);

    let mut toy = Toy::open();
    toy.always_insufficient = true;
    let mut stream = Connect::new(toy, Wire::new()).take().unwrap().into_stream();
    assert!(matches!(
        poll_send(&mut stream, &mut cx, b"abcdef"),
        Poll::Ready(Err(Error::EncryptError(EncryptError::InsufficientSize(
            InsufficientSizeError { required_size: 8 }
        ))))
    ));
    assert_eq!(stream.conn.encrypt_calls, 2);
    assert_eq!(stream.outgoing.capacity(), 8);
    assert!(stream.outgoing.is_empty());
}

#[test]
fn recv_passes_a_broken_record_on() {
    let waker = idle_waker();
    let mut cx = Context::from_waker(&waker);
    let mut wire = Wire::new();
    wire.deliver(&record(b"xyz"));
    let mut toy = Toy::open();
    toy.broken_record = true;
    let mut stream = Connect::new(toy, wire).take().unwrap().into_stream();
    let mut buf = [0u8; 8];
    match poll_recv(&mut stream, &mut cx, &mut buf) {
        Poll::Ready(Err(Error::TlsError(err))) => assert_eq!(err.description, "bad record"),
        _ => panic!("expected a protocol error"),
    }
}

#[test]
fn flush_suspends_and_aborts() {
    let waker = idle_waker();
    let mut cx = Context::from_waker(&waker);
    let mut stream = Connect::new(Toy::open(), Wire::new()).take().unwrap().into_stream();
    assert!(matches!(stream.poll_flush(&mut cx), Poll::Ready(Ok(()))));
    assert_eq!(stream.io.write_calls, 0);

    stream.io.writes.push_back(Write::WouldBlock);
    stream.io.writes.push_back(Write::WouldBlock);
    assert!(matches!(poll_send(&mut stream, &mut cx, b"data"), Poll::Ready(Ok(4))));
    assert!(matches!(stream.poll_flush(&mut cx), Poll::Pending));
    assert_eq!(stream.outgoing.len(), 6);

    stream.io.writes.push_back(Write::UpTo(2));
    stream.io.writes.push_back(Write::UpTo(0));
    assert!(matches!(
        stream.poll_flush(&mut cx),
        Poll::Ready(Err(Error::ConnectionAborted))
    ));
    assert_eq!(stream.outgoing.len(), 4);

    stream.io.writes.push_back(Write::Fail(3));
    assert!(matches!(stream.poll_flush(&mut cx), Poll::Ready(Err(Error::TransitError(3)))));
    assert_eq!(stream.outgoing.len(), 4);

    assert!(matches!(stream.poll_flush(&mut cx), Poll::Ready(Ok(()))));
    assert_eq!(stream.io.written, record(b"data"));
}

#[test]
fn close_is_ready_and_changes_nothing() {
    let waker = idle_waker();
    let mut cx = Context::from_waker(&waker);
    let mut wire = Wire::new();
    wire.writes.push_back(Write::WouldBlock);
    let mut stream = Connect::new(Toy::open(), wire).take().unwrap().into_stream();
    assert!(matches!(poll_send(&mut stream, &mut cx, b"kept"), Poll::Ready(Ok(4))));
    assert!(matches!(stream.poll_close(&mut cx), Poll::Ready(Ok(()))));
    assert_eq!(stream.outgoing.len(), 6);
    assert!(stream.io.written.is_empty());
    let wire = stream.into_io();
    assert_eq!(wire.write_calls, 1);
}

#[test]
fn connector_starts_a_handshake_or_fails_at_once() {
    let connector = TcpConnector::from(42u32);
    assert_eq!(*connector.config(), 42);
    let started = connector.connect(Ok(Toy::new()), Wire::new());
    match started {
        Ok(connect) => {
            let inner = connect.inner.as_ref().unwrap();
            assert!(inner.incoming.is_empty());
            assert!(inner.outgoing.is_empty());
            assert_eq!(inner.io.write_calls, 0);
        }
        Err(_) => panic!("expected a handshake"),
    }
    let refused: Result<Connect<Toy, Wire>, Error<u32>> = connector.connect(
        Err(TlsError { description: String::from("no such name") }),
        Wire::new(),
    );
    match refused {
        Err(Error::TlsError(err)) => assert_eq!(err.description, "no such name"),
        _ => panic!("expected a failure"),
    }
}
