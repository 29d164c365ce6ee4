use vstd::prelude::*;

verus! {

/// A bounded write position over a destination slice that the caller owns.
pub struct WriteCursor<'a> {
    pub buf: &'a mut [u8],
    pub used: usize,
}

/// The number of bytes that `append` copies: as many as fit.
pub open spec fn copied_len(remaining: nat, data_len: nat) -> nat {
    if remaining <= data_len {
        remaining
    } else {
        data_len
    }
}

impl<'a> WriteCursor<'a> {
    /// The invariant of a cursor: the write position is within the destination.
    pub open spec fn wf(&self) -> bool {
        self.used <= self.buf@.len()
    }

    /// The bytes the destination holds now.
    pub open spec fn dest(&self) -> Seq<u8> {
        self.buf@
    }

    /// The bytes written so far.
    pub open spec fn written(&self) -> Seq<u8> {
        self.buf@.take(self.used as int)
    }

    pub open spec fn spec_remaining_capacity(&self) -> nat {
        (self.buf@.len() - self.used) as nat
    }

    /// Wraps `buf` with nothing written yet. The cursor writes through to
    /// `buf`: what `buf` holds in the end is what the cursor's slice holds in
    /// the end.
    pub fn new(buf: &'a mut [u8]) -> (r: Self)
        ensures
            r.buf@ == old(buf)@,
            final(r.buf)@ == final(buf)@,
            r.used == 0,
            r.wf(),
    {
        WriteCursor { buf, used: 0 }
    }

    pub fn used(&self) -> (r: usize)
        ensures
            r == self.used,
    {
        self.used
    }

    /// Gives the cursor up and returns how many bytes were written. The
    /// destination keeps the bytes it holds now.
    pub fn into_used(self) -> (r: usize)
        ensures
            r == self.used,
            final(self.buf)@ == self.dest(),
    {
        self.used
    }

    /// Copies as much of `data` as fits behind the bytes written so far and
    /// returns the part of `data` that did not fit.
    pub fn append<'b>(&mut self, data: &'b [u8]) -> (r: &'b [u8])
        requires
            old(self).wf(),
        ensures
            final(self).wf(),
            final(self).buf@.len() == old(self).buf@.len(),
            final(self).used == old(self).used + copied_len(
                old(self).spec_remaining_capacity(),
                data@.len(),
            ),
            final(self).written() == old(self).written() + data@.take(
                copied_len(old(self).spec_remaining_capacity(), data@.len()) as int,
            ),
            final(self).buf@.skip(final(self).used as int) == old(self).buf@.skip(
                final(self).used as int,
            ),
            final(final(self).buf)@ == final(old(self).buf)@,
            r@ == data@.skip(
                copied_len(old(self).spec_remaining_capacity(), data@.len()) as int,
            ),
            r@.len() == if data@.len() >= old(self).spec_remaining_capacity() {
                data@.len() - old(self).spec_remaining_capacity()
            } else {
                0
            },
    {
        let remaining = self.remaining_capacity();
        let len = if remaining <= data.len() {
            remaining
        } else {
            data.len()
        };
        let start = self.used;
        let total = self.buf.len();
        let mut i: usize = 0;
        while i < len
            invariant
                i <= len,
                total == self.buf@.len(),
                len <= data@.len(),
                start + len <= self.buf@.len(),
                self.used == start,
                start == old(self).used,
                self.buf@.len() == old(self).buf@.len(),
                final(self.buf)@ == final(old(self).buf)@,
                forall|j: int| 0 <= j < start ==> self.buf@[j] == old(self).buf@[j],
                forall|j: int| 0 <= j < i ==> self.buf@[start + j] == data@[j],
                forall|j: int|
                    start + i <= j < self.buf@.len() ==> self.buf@[j] == old(self).buf@[j],
            decreases len - i,
        {
            let b = data[i];
            self.buf[start + i] = b;
            i = i + 1;
        }
        self.used = start + len;
        proof {
            assert(self.written() =~= old(self).written() + data@.take(len as int));
            assert(self.buf@.skip(self.used as int) =~= old(self).buf@.skip(self.used as int));
        }
        let (_, rest) = data.split_at(len);
        assert(rest@ =~= data@.skip(len as int));
        rest
    }

    /// The part of the destination that is not written yet.
    pub fn unfilled(&mut self) -> (r: &mut [u8])
        requires
            old(self).wf(),
        ensures
            r@ == old(self).buf@.skip(old(self).used as int),
            final(r)@.len() == r@.len(),
            final(self).used == old(self).used,
            final(self).buf@ == old(self).written() + final(r)@,
            final(final(self).buf)@ == final(old(self).buf)@,
            final(self).wf(),
    {
        let used = self.used;
        let n = self.buf.len();
        let r = crate::async_io::buffer::subslice_mut(self.buf, used, n);
        proof {
            assert(old(self).buf@.subrange(n as int, n as int) =~= Seq::<u8>::empty());
            assert(old(self).written() + final(r)@ + Seq::<u8>::empty() =~= old(self).written()
                + final(r)@);
            assert(old(self).buf@.subrange(used as int, n as int) =~= old(self).buf@.skip(
                used as int,
            ));
        }
        r
    }

    pub fn is_full(&self) -> (r: bool)
        requires
            self.wf(),
        ensures
            r == (self.used == self.dest().len()),
    {
        self.remaining_capacity() == 0
    }

    pub fn remaining_capacity(&self) -> (r: usize)
        requires
            self.wf(),
        ensures
            r == self.spec_remaining_capacity(),
    {
        self.buf.len() - self.used
    }
}

} // verus!
