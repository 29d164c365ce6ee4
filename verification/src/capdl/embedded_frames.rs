use vstd::prelude::*;

verus! {

/// The content of the embedded frames, one after the other, and the
/// alignment that it is to be loaded at.
pub struct EmbeddedFramesData {
    pub alignment: usize,
    pub data: Vec<u8>,
}

/// The least multiple of `align` that is not less than `len`.
pub open spec fn next_multiple_of(len: int, align: int) -> int {
    if len % align == 0 {
        len
    } else {
        len + (align - len % align)
    }
}

/// Whether `align` is a power of two.
pub open spec fn is_power_of_two(align: usize) -> bool {
    align > 0 && (align as u64) & ((align - 1) as u64) == 0
}

/// The least multiple of `align` that is not less than `len` is a multiple
/// of `align`, not less than `len`, and less than `len + align`.
pub proof fn lemma_next_multiple_of(len: int, align: int)
    requires
        0 <= len,
        0 < align,
    ensures
        next_multiple_of(len, align) % align == 0,
        len <= next_multiple_of(len, align) < len + align,
{
    if len % align != 0 {
        let q = len / align;
        let r = len % align;
        assert(len == q * align + r) by (nonlinear_arith)
            requires
                q == len / align,
                r == len % align,
                align > 0,
        ;
        assert((q * align + align) % align == 0) by (nonlinear_arith)
            requires
                align > 0,
        ;
    }
}

impl EmbeddedFramesData {
    pub fn new(alignment: usize) -> (r: Self)
        ensures
            r.alignment == alignment,
            r.data@.len() == 0,
    {
        EmbeddedFramesData { alignment, data: Vec::new() }
    }

    /// Pads the data with zeros up to the next multiple of `align`.
    pub fn align_to(&mut self, align: usize)
        requires
            is_power_of_two(align),
            next_multiple_of(old(self).data@.len() as int, align as int) <= usize::MAX,
        ensures
            final(self).alignment == old(self).alignment,
            final(self).data@.len() == next_multiple_of(old(self).data@.len() as int, align as int),
            final(self).data@.len() % (align as nat) == 0,
            final(self).data@ == old(self).data@ + Seq::new(
                (final(self).data@.len() - old(self).data@.len()) as nat,
                |i: int| 0u8,
            ),
    {
        let len = self.data.len();
        let rem = len % align;
        let target = if rem == 0 {
            len
        } else {
            len + (align - rem)
        };
        proof {
            lemma_next_multiple_of(len as int, align as int);
        }
        self.data.resize(target, 0u8);
        proof {
            assert(self.data@ =~= old(self).data@ + Seq::new(
                (target - len) as nat,
                |i: int| 0u8,
            ));
        }
    }

    /// Adds `bytes` at the end and returns the offset at which they start.
    pub fn append(&mut self, bytes: &[u8]) -> (r: usize)
        ensures
            r == old(self).data@.len(),
            final(self).alignment == old(self).alignment,
            final(self).data@ == old(self).data@ + bytes@,
    {
        let start = self.data.len();
        self.data.extend_from_slice(bytes);
        start
    }
}

} // verus!
