use core::task::Context;
use core::task::Poll;
use vstd::prelude::*;

use crate::async_io::buffer::subslice_mut;
use crate::async_io::error::ClosedError;

verus! {

/// `core::task::Context`: the waker of the task that polls. Nothing is read
/// from it here; it is handed on to the transport.
#[verifier::external_type_specification]
#[verifier::external_body]
pub struct ExContext<'a>(Context<'a>);

/// `core::task::Poll`: `Ready` with a value, or `Pending`.
#[verifier::external_type_specification]
#[verifier::reject_recursive_types(T)]
pub struct ExPoll<T>(Poll<T>);

/// A non-blocking byte-stream transport.
///
/// Implementations report how many bytes they moved, which is never more
/// than the slice they were given holds. The bridge relies on this.
pub trait AsyncIO {
    type Error;

    /// Reads into the front of `buf`, or registers the task to be woken when
    /// the transport is readable.
    fn poll_recv(&mut self, cx: &mut Context<'_>, buf: &mut [u8]) -> (r: Poll<
        Result<usize, Self::Error>,
    >)
        ensures
            r matches Poll::Ready(Ok(n)) ==> n <= old(buf)@.len(),
    ;

    /// Writes from the front of `buf`, or registers the task to be woken when
    /// the transport is writable.
    fn poll_send(&mut self, cx: &mut Context<'_>, buf: &[u8]) -> (r: Poll<
        Result<usize, Self::Error>,
    >)
        ensures
            r matches Poll::Ready(Ok(n)) ==> n <= buf@.len(),
    ;
}

/// Wraps a socket so that it can serve as the transport of a channel.
pub struct TcpSocketWrapper<S> {
    inner: S,
}

impl<S> TcpSocketWrapper<S> {
    pub closed spec fn spec_inner(&self) -> S {
        self.inner
    }

    pub fn new(inner: S) -> (r: Self)
        ensures
            r.spec_inner() == inner,
    {
        TcpSocketWrapper { inner }
    }

    pub fn inner_mut(&mut self) -> (r: &mut S)
        ensures
            *r == old(self).spec_inner(),
            final(self).spec_inner() == *final(r),
    {
        &mut self.inner
    }

    pub fn into_inner(self) -> (r: S)
        ensures
            r == self.spec_inner(),
    {
        self.inner
    }
}

impl<S: AsyncIO> AsyncIO for TcpSocketWrapper<S> {
    type Error = S::Error;

    fn poll_recv(&mut self, cx: &mut Context<'_>, buf: &mut [u8]) -> (r: Poll<
        Result<usize, Self::Error>,
    >) {
        self.inner.poll_recv(cx, buf)
    }

    fn poll_send(&mut self, cx: &mut Context<'_>, buf: &[u8]) -> (r: Poll<
        Result<usize, Self::Error>,
    >) {
        self.inner.poll_send(cx, buf)
    }
}

/// What one read means for a caller that wants `total` bytes and has `pos`
/// of them: the new position, or the end of the stream.
pub fn account_read<E>(pos: usize, total: usize, n: usize) -> (r: Result<usize, ClosedError<E>>)
    requires
        pos < total,
        n <= total - pos,
    ensures
        n == 0 ==> r == Err::<usize, ClosedError<E>>(ClosedError::Closed),
        n != 0 ==> r == Ok::<usize, ClosedError<E>>((pos + n) as usize),
{
    if n == 0 {
        Err(ClosedError::Closed)
    } else {
        Ok(pos + n)
    }
}

/// Reads until `buf` is full from position `*pos` on, as far as the
/// transport delivers without blocking.
///
/// Returns `Pending` where the transport would block; `*pos` then tells how
/// far the read got, and a later call goes on from there. A read of no bytes
/// before `buf` is full is the end of the stream: `ClosedError::Closed`.
pub fn poll_read_exact<IO: AsyncIO>(
    io: &mut IO,
    cx: &mut Context<'_>,
    buf: &mut [u8],
    pos: &mut usize,
) -> (r: Poll<Result<(), ClosedError<IO::Error>>>)
    requires
        *old(pos) <= old(buf)@.len(),
    ensures
        final(buf)@.len() == old(buf)@.len(),
        *old(pos) <= *final(pos) <= old(buf)@.len(),
        final(buf)@.take(*old(pos) as int) == old(buf)@.take(*old(pos) as int),
        r matches Poll::Ready(Ok(_)) ==> *final(pos) == old(buf)@.len(),
        r matches Poll::Ready(Err(ClosedError::Closed)) ==> *final(pos) < old(buf)@.len(),
        *old(pos) == old(buf)@.len() ==> (r matches Poll::Ready(Ok(_)) && final(buf)@ == old(buf)@),
        r is Pending ==> *final(pos) < old(buf)@.len(),
{
    let total = buf.len();
    while *pos < total
        invariant
            total == buf@.len(),
            buf@.len() == old(buf)@.len(),
            *old(pos) <= *pos <= total,
            buf@.take(*old(pos) as int) == old(buf)@.take(*old(pos) as int),
            *old(pos) == old(buf)@.len() ==> buf@ == old(buf)@,
        decreases total - *pos,
    {
        let ghost before = buf@;
        let start = *pos;
        let rest = subslice_mut(buf, start, total);
        match io.poll_recv(cx, rest) {
            Poll::Ready(Ok(n)) => {
                proof {
                    assert(buf@.take(*old(pos) as int) =~= before.take(*old(pos) as int));
                }
                match account_read::<IO::Error>(start, total, n) {
                    Ok(next) => {
                        *pos = next;
                    },
                    Err(e) => {
                        return Poll::Ready(Err(e));
                    },
                }
            },
            Poll::Ready(Err(e)) => {
                proof {
                    assert(buf@.take(*old(pos) as int) =~= before.take(*old(pos) as int));
                }
                return Poll::Ready(Err(ClosedError::Other(e)));
            },
            Poll::Pending => {
                proof {
                    assert(buf@.take(*old(pos) as int) =~= before.take(*old(pos) as int));
                }
                return Poll::Pending;
            },
        }
    }
    Poll::Ready(Ok(()))
}

/// Writes `buf` from position `*pos` on until all of it is written, as far
/// as the transport takes it without blocking.
///
/// Returns `Pending` where the transport would block; `*pos` then tells how
/// far the write got. A write of no bytes before the end of `buf` is the end
/// of the stream: `ClosedError::Closed`.
pub fn poll_write_all<IO: AsyncIO>(
    io: &mut IO,
    cx: &mut Context<'_>,
    buf: &[u8],
    pos: &mut usize,
) -> (r: Poll<Result<(), ClosedError<IO::Error>>>)
    requires
        *old(pos) <= buf@.len(),
    ensures
        *old(pos) <= *final(pos) <= buf@.len(),
        r matches Poll::Ready(Ok(_)) ==> *final(pos) == buf@.len(),
        r matches Poll::Ready(Err(ClosedError::Closed)) ==> *final(pos) < buf@.len(),
        *old(pos) == buf@.len() ==> r matches Poll::Ready(Ok(_)),
        r is Pending ==> *final(pos) < buf@.len(),
{
    let total = buf.len();
    while *pos < total
        invariant
            total == buf@.len(),
            *old(pos) <= *pos <= total,
        decreases total - *pos,
    {
        let start = *pos;
        let rest = vstd::slice::slice_subrange(buf, start, total);
        match io.poll_send(cx, rest) {
            Poll::Ready(Ok(n)) => {
                match account_read::<IO::Error>(start, total, n) {
                    Ok(next) => {
                        *pos = next;
                    },
                    Err(e) => {
                        return Poll::Ready(Err(e));
                    },
                }
            },
            Poll::Ready(Err(e)) => {
                return Poll::Ready(Err(ClosedError::Other(e)));
            },
            Poll::Pending => {
                return Poll::Pending;
            },
        }
    }
    Poll::Ready(Ok(()))
}

} // verus!
