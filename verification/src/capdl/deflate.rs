use vstd::prelude::*;

verus! {

/// The raw DEFLATE stream that `miniz_oxide` makes of `raw` at `level`.
pub uninterp spec fn deflated(raw: Seq<u8>, level: u8) -> Seq<u8>;

/// What `miniz_oxide` makes of the stream `src` when it inflates it into a
/// destination that holds `before`, with or without a zlib header and
/// with or without regard to the checksum: the number of bytes written if
/// the stream was inflated whole, and the bytes that the destination holds
/// afterwards.
pub uninterp spec fn inflated(
    src: Seq<u8>,
    before: Seq<u8>,
    zlib_header: bool,
    ignore_adler32: bool,
) -> (Option<usize>, Seq<u8>);

/// What inflating a raw DEFLATE stream gives: `inflated` without a zlib
/// header and without regard to the checksum.
pub open spec fn inflated_raw(src: Seq<u8>, before: Seq<u8>) -> (Option<usize>, Seq<u8>) {
    inflated(src, before, false, true)
}

/// `miniz_oxide::deflate::compress_to_vec`: compresses `raw` into a fresh
/// vector, as a raw DEFLATE stream, at a level from 0 to 10.
#[verifier::external_body]
pub(crate) fn compress_to_vec(raw: &[u8], level: u8) -> (r: Vec<u8>)
    requires
        level <= 10,
    ensures
        r@ == deflated(raw@, level),
{
    miniz_oxide::deflate::compress_to_vec(raw, level)
}

/// `miniz_oxide::inflate::decompress_slice_iter_to_slice` on a single source
/// slice: inflates `src` into the front of `dst`. On success it returns the
/// number of bytes written, which `dst` had room for. `dst` keeps its
/// length.
#[verifier::external_body]
pub(crate) fn decompress_to_slice(
    src: &[u8],
    dst: &mut [u8],
    zlib_header: bool,
    ignore_adler32: bool,
) -> (r: Option<usize>)
    ensures
        r == inflated(src@, old(dst)@, zlib_header, ignore_adler32).0,
        final(dst)@ == inflated(src@, old(dst)@, zlib_header, ignore_adler32).1,
        final(dst)@.len() == old(dst)@.len(),
        r matches Some(n) ==> n <= old(dst)@.len(),
{
    miniz_oxide::inflate::decompress_slice_iter_to_slice(
        dst,
        core::iter::once(src),
        zlib_header,
        ignore_adler32,
    ).ok()
}

} // verus!
