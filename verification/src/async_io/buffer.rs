use vstd::prelude::*;

verus! {

/// The bytes a buffer owns together with the length of its filled prefix.
pub struct BufferModel {
    pub data: Seq<u8>,
    pub used: nat,
}

impl BufferModel {
    pub open spec fn wf(self) -> bool {
        self.used <= self.data.len()
    }

    pub open spec fn capacity(self) -> nat {
        self.data.len()
    }

    /// The filled prefix.
    pub open spec fn filled(self) -> Seq<u8> {
        self.data.take(self.used as int)
    }

    /// The bytes behind the filled prefix.
    pub open spec fn spare(self) -> Seq<u8> {
        self.data.skip(self.used as int)
    }

    pub open spec fn empty() -> Self {
        BufferModel { data: Seq::empty(), used: 0 }
    }

    pub open spec fn advance(self, n: nat) -> Self {
        BufferModel { data: self.data, used: self.used + n }
    }

    /// Drops the first `n` filled bytes and moves the rest of the filled
    /// prefix to the front. The tail of the storage keeps the bytes it had.
    pub open spec fn discard(self, n: nat) -> Self {
        BufferModel {
            data: self.data.subrange(n as int, self.used as int) + self.data.skip(self.used - n),
            used: (self.used - n) as nat,
        }
    }

    pub open spec fn reserve(self, n: nat) -> Self {
        BufferModel { data: self.data + Seq::new(n, |i: int| 0u8), used: self.used }
    }

    /// Writes `chunk` at the start of the spare bytes and marks it filled.
    pub open spec fn fill(self, chunk: Seq<u8>) -> Self {
        BufferModel {
            data: self.filled() + chunk + self.spare().skip(chunk.len() as int),
            used: self.used + chunk.len(),
        }
    }
}

/// One bookkeeping operation on a buffer.
pub enum BufferOp {
    Advance(nat),
    Discard(nat),
    Reserve(nat),
}

impl BufferOp {
    /// Whether the operation's precondition holds of `m`.
    pub open spec fn enabled(self, m: BufferModel) -> bool {
        match self {
            BufferOp::Advance(n) => n <= m.capacity() - m.used,
            BufferOp::Discard(n) => n <= m.used,
            BufferOp::Reserve(_) => true,
        }
    }

    pub open spec fn apply(self, m: BufferModel) -> BufferModel {
        match self {
            BufferOp::Advance(n) => m.advance(n),
            BufferOp::Discard(n) => m.discard(n),
            BufferOp::Reserve(n) => m.reserve(n),
        }
    }
}

/// Whether every operation of `ops`, applied in order from `m`, is enabled
/// when its turn comes.
pub open spec fn ops_enabled(m: BufferModel, ops: Seq<BufferOp>) -> bool
    decreases ops.len(),
{
    if ops.len() == 0 {
        true
    } else {
        ops[0].enabled(m) && ops_enabled(ops[0].apply(m), ops.skip(1))
    }
}

/// The model reached from `m` by applying `ops` in order.
pub open spec fn apply_ops(m: BufferModel, ops: Seq<BufferOp>) -> BufferModel
    decreases ops.len(),
{
    if ops.len() == 0 {
        m
    } else {
        apply_ops(ops[0].apply(m), ops.skip(1))
    }
}

/// A single enabled operation keeps the filled length within the capacity.
pub proof fn lemma_op_preserves_wf(m: BufferModel, op: BufferOp)
    requires
        m.wf(),
        op.enabled(m),
    ensures
        op.apply(m).wf(),
{
}

/// Whatever sequence of `advance`, `discard` and `reserve` is applied, the
/// filled length never exceeds the capacity.
pub proof fn lemma_ops_preserve_wf(m: BufferModel, ops: Seq<BufferOp>)
    requires
        m.wf(),
        ops_enabled(m, ops),
    ensures
        apply_ops(m, ops).wf(),
    decreases ops.len(),
{
    if ops.len() > 0 {
        lemma_op_preserves_wf(m, ops[0]);
        lemma_ops_preserve_wf(ops[0].apply(m), ops.skip(1));
    }
}

/// After `discard(n)` the filled bytes are the previous filled bytes without
/// their first `n`, in the same order.
pub proof fn lemma_discard_filled(m: BufferModel, n: nat)
    requires
        m.wf(),
        n <= m.used,
    ensures
        m.discard(n).filled() == m.filled().skip(n as int),
        m.discard(n).capacity() == m.capacity(),
{
    assert(m.discard(n).filled() =~= m.filled().skip(n as int));
}

/// `reserve(n)` adds exactly `n` zero bytes of capacity and leaves the filled
/// bytes alone.
pub proof fn lemma_reserve_grows(m: BufferModel, n: nat)
    requires
        m.wf(),
    ensures
        m.reserve(n).capacity() == m.capacity() + n,
        m.reserve(n).capacity() >= m.capacity(),
        m.reserve(n).used == m.used,
        m.reserve(n).filled() == m.filled(),
        m.reserve(n).spare() == m.spare() + Seq::new(n, |i: int| 0u8),
{
    assert(m.reserve(n).filled() =~= m.filled());
    assert(m.reserve(n).spare() =~= m.spare() + Seq::new(n, |i: int| 0u8));
}

/// The buffer after one read of the transport that delivered `chunk`: a
/// buffer without a spare byte grows by `growth` first, then `chunk` is
/// filled in.
pub open spec fn receive(m: BufferModel, chunk: Seq<u8>, growth: nat) -> BufferModel {
    if m.spare().len() == 0 {
        m.reserve(growth).fill(chunk)
    } else {
        m.fill(chunk)
    }
}

/// Whether the transport can have delivered `chunk` in one read: whether it
/// fits the spare bytes that the read offers.
pub open spec fn fits(m: BufferModel, chunk: Seq<u8>, growth: nat) -> bool {
    if m.spare().len() == 0 {
        chunk.len() <= growth
    } else {
        chunk.len() <= m.spare().len()
    }
}

/// The buffer after a series of reads that delivered `chunks`, one each.
pub open spec fn receive_all(m: BufferModel, chunks: Seq<Seq<u8>>, growth: nat) -> BufferModel
    decreases chunks.len(),
{
    if chunks.len() == 0 {
        m
    } else {
        receive_all(receive(m, chunks[0], growth), chunks.skip(1), growth)
    }
}

/// Whether each of `chunks` fits when its turn comes.
pub open spec fn all_fit(m: BufferModel, chunks: Seq<Seq<u8>>, growth: nat) -> bool
    decreases chunks.len(),
{
    if chunks.len() == 0 {
        true
    } else {
        fits(m, chunks[0], growth) && all_fit(
            receive(m, chunks[0], growth),
            chunks.skip(1),
            growth,
        )
    }
}

/// One read puts the delivered bytes behind the filled ones and nothing
/// else.
pub proof fn lemma_receive_filled(m: BufferModel, chunk: Seq<u8>, growth: nat)
    requires
        m.wf(),
        fits(m, chunk, growth),
    ensures
        receive(m, chunk, growth).wf(),
        receive(m, chunk, growth).filled() == m.filled() + chunk,
{
    let g = if m.spare().len() == 0 {
        m.reserve(growth)
    } else {
        m
    };
    lemma_reserve_grows(m, growth);
    assert(g.fill(chunk).filled() =~= g.filled() + chunk);
}

/// After any series of reads the filled bytes are the ones that were filled
/// before, followed by everything that was delivered, in order.
pub proof fn lemma_receive_all_filled(m: BufferModel, chunks: Seq<Seq<u8>>, growth: nat)
    requires
        m.wf(),
        all_fit(m, chunks, growth),
    ensures
        receive_all(m, chunks, growth).wf(),
        receive_all(m, chunks, growth).filled() == m.filled() + chunks.flatten(),
    decreases chunks.len(),
{
    if chunks.len() == 0 {
        assert(chunks.flatten() =~= Seq::<u8>::empty());
        assert(m.filled() + Seq::<u8>::empty() =~= m.filled());
    } else {
        let next = receive(m, chunks[0], growth);
        lemma_receive_filled(m, chunks[0], growth);
        lemma_receive_all_filled(next, chunks.skip(1), growth);
        assert(chunks.skip(1) =~= chunks.drop_first());
        assert(chunks.flatten() == chunks.first() + chunks.drop_first().flatten());
        assert(m.filled() + chunks[0] + chunks.skip(1).flatten() =~= m.filled() + (chunks[0]
            + chunks.skip(1).flatten()));
    }
}

/// The bytes handed to the engine do not depend on how the transport cut
/// them up: two series of reads that deliver the same bytes, in whatever
/// chunks, leave the same filled bytes.
pub proof fn lemma_chunking_is_immaterial(
    m: BufferModel,
    xs: Seq<Seq<u8>>,
    ys: Seq<Seq<u8>>,
    growth: nat,
)
    requires
        m.wf(),
        all_fit(m, xs, growth),
        all_fit(m, ys, growth),
        xs.flatten() == ys.flatten(),
    ensures
        receive_all(m, xs, growth).filled() == receive_all(m, ys, growth).filled(),
{
    lemma_receive_all_filled(m, xs, growth);
    lemma_receive_all_filled(m, ys, growth);
}

/// Bytes that arrive after the engine has consumed a prefix land where they
/// would have landed had they arrived before: discarding and filling
/// commute on the filled bytes.
pub proof fn lemma_discard_fill_commute(m: BufferModel, n: nat, chunk: Seq<u8>)
    requires
        m.wf(),
        n <= m.used,
        chunk.len() <= m.spare().len(),
    ensures
        m.discard(n).fill(chunk).filled() == m.fill(chunk).discard(n).filled(),
        m.discard(n).fill(chunk).filled() == m.filled().skip(n as int) + chunk,
{
    assert(m.discard(n).fill(chunk).filled() =~= m.filled().skip(n as int) + chunk);
    assert(m.fill(chunk).discard(n).filled() =~= m.filled().skip(n as int) + chunk);
}

/// The buffer after a series of writes of which the transport took
/// `counts` bytes, one count each: every write discards what was taken.
pub open spec fn written_all(m: BufferModel, counts: Seq<nat>) -> BufferModel
    decreases counts.len(),
{
    if counts.len() == 0 {
        m
    } else {
        written_all(m.discard(counts[0]), counts.skip(1))
    }
}

/// Whether the transport can have taken each of `counts` when its turn
/// came: no more than was filled then.
pub open spec fn all_taken(m: BufferModel, counts: Seq<nat>) -> bool
    decreases counts.len(),
{
    if counts.len() == 0 {
        true
    } else {
        counts[0] <= m.used && all_taken(m.discard(counts[0]), counts.skip(1))
    }
}

/// The bytes that the transport took over a series of writes: of each
/// write the first bytes of what was filled then, one after the other.
pub open spec fn taken_bytes(m: BufferModel, counts: Seq<nat>) -> Seq<u8>
    decreases counts.len(),
{
    if counts.len() == 0 {
        Seq::empty()
    } else {
        m.filled().take(counts[0] as int) + taken_bytes(m.discard(counts[0]), counts.skip(1))
    }
}

/// Over any series of writes, whatever the transport took each time, what
/// it took in all followed by what is still filled is what was filled at
/// first: every byte goes out once and in order, and a later write offers
/// only what no earlier write has taken.
pub proof fn lemma_writes_take_in_order(m: BufferModel, counts: Seq<nat>)
    requires
        m.wf(),
        all_taken(m, counts),
    ensures
        written_all(m, counts).wf(),
        written_all(m, counts).capacity() == m.capacity(),
        taken_bytes(m, counts) + written_all(m, counts).filled() == m.filled(),
        taken_bytes(m, counts).is_prefix_of(m.filled()),
    decreases counts.len(),
{
    if counts.len() == 0 {
        assert(Seq::<u8>::empty() + m.filled() =~= m.filled());
    } else {
        let n = counts[0];
        let next = m.discard(n);
        lemma_discard_filled(m, n);
        lemma_writes_take_in_order(next, counts.skip(1));
        assert(m.filled().take(n as int) + m.filled().skip(n as int) =~= m.filled());
        assert(taken_bytes(m, counts) + written_all(m, counts).filled() =~= m.filled().take(
            n as int,
        ) + (taken_bytes(next, counts.skip(1)) + written_all(next, counts.skip(1)).filled()));
    }
}

/// A growable byte buffer split into a filled prefix and spare bytes behind it.
pub struct Buffer {
    inner: Vec<u8>,
    used: usize,
}

impl View for Buffer {
    type V = BufferModel;

    closed spec fn view(&self) -> BufferModel {
        BufferModel { data: self.inner@, used: self.used as nat }
    }
}

/// `&mut s[start..end]` of std: the sub-slice between the two indices, whose
/// length cannot change while it is borrowed, and around which `s` keeps
/// its bytes.
#[verifier::external_body]
pub(crate) fn subslice_mut(s: &mut [u8], start: usize, end: usize) -> (r: &mut [u8])
    requires
        start <= end <= old(s)@.len(),
    ensures
        r@ == old(s)@.subrange(start as int, end as int),
        final(r)@.len() == r@.len(),
        final(s)@ == old(s)@.subrange(0, start as int) + final(r)@ + old(s)@.subrange(
            end as int,
            old(s)@.len() as int,
        ),
{
    &mut s[start..end]
}

impl Buffer {
    /// The invariant of a buffer: the filled length is within the capacity.
    pub open spec fn wf(&self) -> bool {
        self@.wf()
    }

    pub fn new() -> (r: Self)
        ensures
            r@ == BufferModel::empty(),
            r.wf(),
    {
        Buffer { inner: Vec::new(), used: 0 }
    }

    /// Marks `num_bytes` more of the spare bytes as filled.
    pub fn advance(&mut self, num_bytes: usize)
        requires
            old(self).wf(),
            num_bytes <= old(self)@.capacity() - old(self)@.used,
        ensures
            final(self)@ == old(self)@.advance(num_bytes as nat),
            final(self).wf(),
    {
        let capacity = self.inner.len();
        assert(self.used + num_bytes <= capacity);
        self.used = self.used + num_bytes;
    }

    /// Removes `num_bytes` bytes from the front of the filled prefix and
    /// moves what remains of it to offset 0.
    pub fn discard(&mut self, num_bytes: usize)
        requires
            old(self).wf(),
            num_bytes <= old(self)@.used,
        ensures
            final(self)@ == old(self)@.discard(num_bytes as nat),
            final(self).wf(),
    {
        if num_bytes == 0 {
            assert(self@.discard(0).data =~= self@.data);
            return ;
        }
        let remaining = self.used - num_bytes;
        let mut i: usize = 0;
        while i < remaining
            invariant
                i <= remaining,
                remaining + num_bytes == self.used,
                self.used == old(self).used,
                self.used <= self.inner@.len(),
                self.inner@.len() == old(self).inner@.len(),
                forall|j: int| 0 <= j < i ==> self.inner@[j] == old(self).inner@[j + num_bytes],
                forall|j: int| i <= j < self.inner@.len() ==> self.inner@[j] == old(self).inner@[j],
            decreases remaining - i,
        {
            let b = self.inner[i + num_bytes];
            self.inner[i] = b;
            i = i + 1;
        }
        self.used = remaining;
        assert(self@.data =~= old(self)@.discard(num_bytes as nat).data);
    }

    /// Adds `additional_bytes` zero bytes of capacity behind the spare bytes.
    pub fn reserve(&mut self, additional_bytes: usize)
        requires
            old(self).wf(),
            old(self)@.capacity() + additional_bytes <= usize::MAX,
        ensures
            final(self)@ == old(self)@.reserve(additional_bytes as nat),
            final(self).wf(),
    {
        let new_len = self.inner.len() + additional_bytes;
        self.inner.resize(new_len, 0u8);
        assert(self@.data =~= old(self)@.reserve(additional_bytes as nat).data);
    }

    pub fn is_empty(&self) -> (r: bool)
        ensures
            r == (self@.used == 0),
    {
        self.used == 0
    }

    /// The number of filled bytes.
    pub fn len(&self) -> (r: usize)
        ensures
            r == self@.used,
    {
        self.used
    }

    /// The filled prefix, to read.
    pub fn filled(&self) -> (r: &[u8])
        requires
            self.wf(),
        ensures
            r@ == self@.filled(),
    {
        vstd::slice::slice_subrange(self.inner.as_slice(), 0, self.used)
    }

    /// The filled prefix, to rewrite in place. The spare bytes and the filled
    /// length stay as they are.
    pub fn filled_mut(&mut self) -> (r: &mut [u8])
        requires
            old(self).wf(),
        ensures
            r@ == old(self)@.filled(),
            final(r)@.len() == r@.len(),
            final(self)@ == (BufferModel {
                data: final(r)@ + old(self)@.spare(),
                used: old(self)@.used,
            }),
            final(self).wf(),
    {
        let used = self.used;
        let r = subslice_mut(self.inner.as_mut_slice(), 0, used);
        proof {
            assert(old(self).inner@.subrange(0, 0) + final(r)@ =~= final(r)@);
            assert(old(self).inner@.subrange(used as int, old(self).inner@.len() as int)
                =~= old(self)@.spare());
        }
        r
    }

    /// The spare bytes, to write into. The filled prefix and the filled
    /// length stay as they are.
    pub fn unfilled(&mut self) -> (r: &mut [u8])
        requires
            old(self).wf(),
        ensures
            r@ == old(self)@.spare(),
            final(r)@.len() == r@.len(),
            final(self)@ == (BufferModel {
                data: old(self)@.filled() + final(r)@,
                used: old(self)@.used,
            }),
            final(self).wf(),
    {
        let used = self.used;
        let capacity = self.inner.len();
        let r = subslice_mut(self.inner.as_mut_slice(), used, capacity);
        proof {
            assert(old(self).inner@.subrange(capacity as int, capacity as int) =~= Seq::<u8>::empty());
            assert(old(self)@.filled() + final(r)@ + Seq::<u8>::empty() =~= old(self)@.filled()
                + final(r)@);
        }
        r
    }

    /// The number of bytes the buffer owns, filled or spare.
    pub fn capacity(&self) -> (r: usize)
        ensures
            r == self@.capacity(),
    {
        self.inner.len()
    }
}

impl Default for Buffer {
    fn default() -> (r: Self)
        ensures
            r@ == BufferModel::empty(),
    {
        Buffer::new()
    }
}

} // verus!
