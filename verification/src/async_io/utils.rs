use core::task::Context;
use core::task::Poll;
use vstd::prelude::*;
use vstd::std_specs::convert::FromSpec;

use crate::async_io::buffer::fits;
use crate::async_io::buffer::receive;
use crate::async_io::buffer::Buffer;
use crate::async_io::error::Error;
use crate::async_io::error::InsufficientSizeError;
use crate::async_io::traits::AsyncIO;

verus! {

/// The capacity added to an incoming buffer that has no spare byte left
/// when a read is due.
pub const INCOMING_GROWTH: usize = 262144;

/// Makes sure that `incoming` has spare bytes to read into: a buffer without
/// any grows by `INCOMING_GROWTH`, any other stays as it is.
pub fn make_room(incoming: &mut Buffer)
    requires
        old(incoming).wf(),
        old(incoming)@.capacity() + INCOMING_GROWTH <= usize::MAX,
    ensures
        final(incoming).wf(),
        final(incoming)@ == if old(incoming)@.spare().len() == 0 {
            old(incoming)@.reserve(INCOMING_GROWTH as nat)
        } else {
            old(incoming)@
        },
        final(incoming)@.spare().len() > 0,
{
    if incoming.capacity() == incoming.len() {
        incoming.reserve(INCOMING_GROWTH);
    }
}

/// Books what the transport answered to a read into the spare bytes of
/// `incoming`: bytes read are marked filled. Returns `true` if the read
/// would block.
pub fn settle_read<E>(answer: Poll<Result<usize, E>>, incoming: &mut Buffer) -> (r: Result<
    bool,
    Error<E>,
>)
    requires
        old(incoming).wf(),
        answer matches Poll::Ready(Ok(n)) ==> n <= old(incoming)@.spare().len(),
    ensures
        final(incoming).wf(),
        match answer {
            Poll::Ready(Ok(n)) => r == Ok::<bool, Error<E>>(false) && final(incoming)@ == old(incoming)@.advance(n as nat),
            Poll::Ready(Err(e)) => r == Err::<bool, Error<E>>(Error::TransitError(e))
                && final(incoming)@ == old(incoming)@,
            Poll::Pending => r == Ok::<bool, Error<E>>(true) && final(incoming)@ == old(incoming)@,
        },
{
    match answer {
        Poll::Ready(Ok(read)) => {
            incoming.advance(read);
            Ok(false)
        },
        Poll::Ready(Err(e)) => Err(Error::TransitError(e)),
        Poll::Pending => Ok(true),
    }
}

/// Books what the transport answered to a write of the filled bytes of
/// `outgoing`: bytes written are discarded from the front. Returns `true`
/// if the write would block.
pub fn settle_write<E>(answer: Poll<Result<usize, E>>, outgoing: &mut Buffer) -> (r: Result<
    bool,
    Error<E>,
>)
    requires
        old(outgoing).wf(),
        answer matches Poll::Ready(Ok(n)) ==> n <= old(outgoing)@.used,
    ensures
        final(outgoing).wf(),
        match answer {
            Poll::Ready(Ok(n)) => r == Ok::<bool, Error<E>>(false) && final(outgoing)@ == old(outgoing)@.discard(n as nat),
            Poll::Ready(Err(e)) => r == Err::<bool, Error<E>>(Error::TransitError(e))
                && final(outgoing)@ == old(outgoing)@,
            Poll::Pending => r == Ok::<bool, Error<E>>(true) && final(outgoing)@ == old(outgoing)@,
        },
{
    match answer {
        Poll::Ready(Ok(written)) => {
            outgoing.discard(written);
            Ok(false)
        },
        Poll::Ready(Err(e)) => Err(Error::TransitError(e)),
        Poll::Pending => Ok(true),
    }
}

/// Reads once from the transport into the spare bytes of `incoming`, which
/// grows first if it has none. Returns `true` if the read would block.
///
/// The filled bytes that were there stay in front; what the transport read
/// is filled in behind them: the buffer ends as the model `receive` says
/// for the chunk that the transport delivered.
pub fn poll_read<IO: AsyncIO>(io: &mut IO, incoming: &mut Buffer, cx: &mut Context<'_>) -> (r:
    Result<bool, Error<IO::Error>>)
    requires
        old(incoming).wf(),
        old(incoming)@.capacity() + INCOMING_GROWTH <= usize::MAX,
    ensures
        final(incoming).wf(),
        final(incoming)@.capacity() == if old(incoming)@.spare().len() == 0 {
            old(incoming)@.capacity() + INCOMING_GROWTH
        } else {
            old(incoming)@.capacity() as int
        },
        final(incoming)@.filled().take(old(incoming)@.used as int) == old(incoming)@.filled(),
        r matches Ok(false) ==> final(incoming)@.used >= old(incoming)@.used,
        !(r matches Ok(false)) ==> final(incoming)@.used == old(incoming)@.used,
        r matches Err(e) ==> e is TransitError,
        r matches Ok(false) ==> exists|chunk: Seq<u8>|
            {
                &&& fits(old(incoming)@, chunk, INCOMING_GROWTH as nat)
                &&& final(incoming)@.used == (#[trigger] receive(
                    old(incoming)@,
                    chunk,
                    INCOMING_GROWTH as nat,
                )).used
                &&& final(incoming)@.filled() == receive(
                    old(incoming)@,
                    chunk,
                    INCOMING_GROWTH as nat,
                ).filled()
                &&& final(incoming)@.capacity() == receive(
                    old(incoming)@,
                    chunk,
                    INCOMING_GROWTH as nat,
                ).capacity()
            },
{
    make_room(incoming);
    let ghost grown = incoming@;
    let answer = io.poll_recv(cx, incoming.unfilled());
    proof {
        assert(grown.filled() =~= old(incoming)@.filled());
        assert(incoming@.filled() =~= grown.filled());
    }
    let r = settle_read(answer, incoming);
    proof {
        assert(incoming@.filled().take(old(incoming)@.used as int) =~= old(incoming)@.filled());
        if r matches Ok(false) {
            let chunk = incoming@.filled().skip(old(incoming)@.used as int);
            let model = receive(old(incoming)@, chunk, INCOMING_GROWTH as nat);
            crate::async_io::buffer::lemma_receive_filled(
                old(incoming)@,
                chunk,
                INCOMING_GROWTH as nat,
            );
            assert(incoming@.filled() =~= old(incoming)@.filled() + chunk);
            assert(model.capacity() == incoming@.capacity());
        }
    }
    r
}

/// Writes the filled bytes of `outgoing` once to the transport and discards
/// what was written. Returns `true` if the write would block.
///
/// What stays filled is a tail of what was filled: nothing is written twice
/// and nothing is skipped. A write that did not block leaves the buffer as
/// the model `discard` says for the number of bytes that the transport
/// took.
pub fn poll_write<IO: AsyncIO>(io: &mut IO, outgoing: &mut Buffer, cx: &mut Context<'_>) -> (r:
    Result<bool, Error<IO::Error>>)
    requires
        old(outgoing).wf(),
    ensures
        final(outgoing).wf(),
        final(outgoing)@.capacity() == old(outgoing)@.capacity(),
        final(outgoing)@.used <= old(outgoing)@.used,
        final(outgoing)@.filled() == old(outgoing)@.filled().skip(
            old(outgoing)@.used - final(outgoing)@.used,
        ),
        !(r matches Ok(false)) ==> final(outgoing)@ == old(outgoing)@,
        r matches Ok(false) ==> exists|n: nat|
            n <= old(outgoing)@.used && final(outgoing)@ == #[trigger] old(outgoing)@.discard(n),
        r matches Err(e) ==> e is TransitError,
{
    let answer = io.poll_send(cx, outgoing.filled());
    let ghost answered = answer;
    let r = settle_write(answer, outgoing);
    proof {
        match answered {
            Poll::Ready(Ok(n)) => {
                assert(outgoing@ == old(outgoing)@.discard(n as nat));
            },
            _ => {},
        }
        assert(outgoing@.filled() =~= old(outgoing)@.filled().skip(
            old(outgoing)@.used - outgoing@.used,
        ));
    }
    r
}

/// One growth is enough for the retry: after the capacity has grown by the
/// size that the engine asked for, the spare bytes hold at least that
/// size, the filled bytes are as they were, and whatever the engine then
/// writes within the spare bytes is booked without growing again.
pub proof fn lemma_one_growth_suffices(
    m: crate::async_io::buffer::BufferModel,
    required: nat,
    written: nat,
)
    requires
        m.wf(),
        written <= m.spare().len() + required,
    ensures
        m.reserve(required).capacity() == m.capacity() + required,
        m.reserve(required).spare().len() == m.spare().len() + required,
        m.reserve(required).spare().len() >= required,
        m.reserve(required).filled() == m.filled(),
        m.reserve(required).advance(written).wf(),
        m.reserve(required).advance(written).capacity() == m.capacity() + required,
        m.reserve(required).advance(written).used == m.used + written,
{
    crate::async_io::buffer::lemma_reserve_grows(m, required);
}

/// Settles the first attempt of the engine to write into the spare bytes of
/// `outgoing`.
///
/// Where the engine wrote `n` bytes they are marked filled and `Some(n)` is
/// returned: no retry is due. Where it asked for more room, exactly the
/// size it asked for is added to the capacity and `None` is returned: one
/// retry is due.
pub fn settle_first_attempt(
    first: Result<usize, InsufficientSizeError>,
    outgoing: &mut Buffer,
) -> (r: Option<usize>)
    requires
        old(outgoing).wf(),
        first matches Ok(n) ==> n <= old(outgoing)@.spare().len(),
        first matches Err(e) ==> old(outgoing)@.capacity() + e.required_size <= usize::MAX,
    ensures
        final(outgoing).wf(),
        match first {
            Ok(n) => r == Some(n) && final(outgoing)@ == old(outgoing)@.advance(n as nat),
            Err(e) => r.is_none() && final(outgoing)@ == old(outgoing)@.reserve(
                e.required_size as nat,
            ),
        },
{
    match first {
        Ok(written) => {
            outgoing.advance(written);
            Some(written)
        },
        Err(e) => {
            outgoing.reserve(e.required_size);
            None
        },
    }
}

/// Settles the one retry. Bytes written are marked filled; any failure,
/// a second lack of room included, is final and leaves `outgoing` alone.
pub fn settle_retry<E>(second: Result<usize, Error<E>>, outgoing: &mut Buffer) -> (r: Result<
    usize,
    Error<E>,
>)
    requires
        old(outgoing).wf(),
        second matches Ok(n) ==> n <= old(outgoing)@.spare().len(),
    ensures
        final(outgoing).wf(),
        r == second,
        match second {
            Ok(n) => final(outgoing)@ == old(outgoing)@.advance(n as nat),
            Err(_) => final(outgoing)@ == old(outgoing)@,
        },
{
    match second {
        Ok(written) => {
            outgoing.advance(written);
            Ok(written)
        },
        Err(e) => Err(e),
    }
}

/// `spare` with `n` zero bytes behind it: the spare bytes of a buffer after
/// its capacity has grown by `n`.
pub open spec fn grown(spare: Seq<u8>, n: nat) -> Seq<u8> {
    spare + Seq::new(n, |i: int| 0u8)
}

/// Lets `f` write into the spare bytes of `outgoing`. If `f` fails and
/// `map_err` finds that it lacked room, the capacity grows by the size asked
/// for and `f` runs once more; what `f` then returns is final.
///
/// `f` runs first on the spare bytes as they are. If it succeeds, its
/// count is returned and nothing grows. If it fails and `map_err` makes an
/// error of the failure, that error is returned and nothing grows. If it
/// fails and `map_err` finds the size that it lacked, the capacity grows by
/// exactly that size and `f` runs a second and last time, on the spare
/// bytes that are now there: its count or its failure is the result. If
/// `f` cannot fail, neither can this function.
pub fn try_or_resize_and_retry<E1, E2, F, M>(mut f: F, map_err: M, outgoing: &mut Buffer) -> (r:
    Result<usize, Error<E2>>) where
    F: FnMut(&mut [u8]) -> Result<usize, E1>,
    M: FnOnce(E1) -> Result<InsufficientSizeError, Error<E2>>,
    Error<E2>: From<E1>,

    requires
        old(outgoing).wf(),
        forall|b: &mut [u8]| f.requires((b,)),
        forall|e: E1| map_err.requires((e,)),
        forall|b: &mut [u8], w: Result<usize, E1>|
            f.ensures((b,), w) ==> (w matches Ok(n) ==> n <= b@.len()),
        forall|e: E1, s: InsufficientSizeError|
            map_err.ensures((e,), Ok(s)) ==> old(outgoing)@.capacity() + s.required_size
                <= usize::MAX,
    ensures
        final(outgoing).wf(),
        final(outgoing)@.capacity() >= old(outgoing)@.capacity(),
        final(outgoing)@.filled().take(old(outgoing)@.used as int) == old(outgoing)@.filled(),
        r matches Ok(n) ==> final(outgoing)@.used == old(outgoing)@.used + n,
        r is Err ==> final(outgoing)@.used == old(outgoing)@.used,
        (forall|b: &mut [u8], w: Result<usize, E1>| f.ensures((b,), w) ==> w is Ok) ==> r is Ok,
        r matches Ok(n) ==> {
            ||| final(outgoing)@.capacity() == old(outgoing)@.capacity() && exists|b: &mut [u8]|
                b@ == old(outgoing)@.spare() && #[trigger] f.ensures((b,), Ok::<usize, E1>(n))
                    && final(outgoing)@.data == old(outgoing)@.filled() + final(b)@
            ||| exists|b: &mut [u8], e1: E1, s: InsufficientSizeError, b2: &mut [u8]|
                #![trigger f.ensures((b,), Err::<usize, E1>(e1)), map_err.ensures((e1,), Ok::<InsufficientSizeError, Error<E2>>(s)), f.ensures((b2,), Ok::<usize, E1>(n))]
                b@ == old(outgoing)@.spare() && f.ensures((b,), Err::<usize, E1>(e1))
                    && map_err.ensures((e1,), Ok::<InsufficientSizeError, Error<E2>>(s))
                    && final(outgoing)@.capacity() == old(outgoing)@.capacity() + s.required_size
                    && b2@ == grown(final(b)@, s.required_size as nat) && f.ensures(
                    (b2,),
                    Ok::<usize, E1>(n),
                ) && final(outgoing)@.data == old(outgoing)@.filled() + final(b2)@
        },
        r matches Err(e) ==> {
            ||| final(outgoing)@.capacity() == old(outgoing)@.capacity() && exists|
                b: &mut [u8],
                e1: E1,
            |
                #![trigger f.ensures((b,), Err::<usize, E1>(e1)), map_err.ensures((e1,), Err::<InsufficientSizeError, Error<E2>>(e))]
                b@ == old(outgoing)@.spare() && f.ensures((b,), Err::<usize, E1>(e1))
                    && map_err.ensures((e1,), Err::<InsufficientSizeError, Error<E2>>(e))
                    && final(outgoing)@.data == old(outgoing)@.filled() + final(b)@
            ||| exists|b: &mut [u8], e1: E1, s: InsufficientSizeError, b2: &mut [u8], e2: E1|
                #![trigger f.ensures((b,), Err::<usize, E1>(e1)), map_err.ensures((e1,), Ok::<InsufficientSizeError, Error<E2>>(s)), f.ensures((b2,), Err::<usize, E1>(e2))]
                b@ == old(outgoing)@.spare() && f.ensures((b,), Err::<usize, E1>(e1))
                    && map_err.ensures((e1,), Ok::<InsufficientSizeError, Error<E2>>(s))
                    && final(outgoing)@.capacity() == old(outgoing)@.capacity() + s.required_size
                    && b2@ == grown(final(b)@, s.required_size as nat) && f.ensures(
                    (b2,),
                    Err::<usize, E1>(e2),
                ) && final(outgoing)@.data == old(outgoing)@.filled() + final(b2)@
                    && (<Error<E2> as FromSpec<E1>>::obeys_from_spec() ==> e == <Error<
                    E2,
                > as FromSpec<E1>>::from_spec(e2))
        },
{
    let first = f(outgoing.unfilled());
    let ghost first_seen = first;
    let attempt = match first {
        Ok(written) => {
            assert(first_seen == Ok::<usize, E1>(written));
            assert(exists|b: &mut [u8]| #[trigger] f.ensures((b,), first_seen));
            assert(exists|b: &mut [u8]| #[trigger] f.ensures((b,), Ok::<usize, E1>(written)));
            Ok(written)
        },
        Err(e) => match map_err(e) {
            Ok(insufficient) => Err(insufficient),
            Err(fatal) => {
                return Err(fatal);
            },
        },
    };
    match settle_first_attempt(attempt, outgoing) {
        Some(written) => Ok(written),
        None => {
            let again = f(outgoing.unfilled());
            let ghost again_seen = again;
            let second = match again {
                Ok(written) => {
                    assert(again_seen == Ok::<usize, E1>(written));
                    assert(exists|b: &mut [u8]| #[trigger] f.ensures((b,), again_seen));
                    assert(exists|b: &mut [u8]| #[trigger] f.ensures((b,), Ok::<usize, E1>(written)));
                    Ok(written)
                },
                Err(e) => Err(Error::from(e)),
            };
            settle_retry(second, outgoing)
        },
    }
}

} // verus!
