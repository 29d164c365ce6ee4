use vstd::bytes::spec_u16_to_le_bytes;
use vstd::bytes::spec_u32_to_le_bytes;
use vstd::bytes::spec_u64_to_le_bytes;
use vstd::prelude::*;
use zerocopy::AsBytes;

verus! {

/// Whether `bytes` are the bytes `le`, least significant first, in one of
/// the two orders in which a machine holds a number: as they are, or last
/// to first.
pub open spec fn in_machine_order(bytes: Seq<u8>, le: Seq<u8>) -> bool {
    bytes == le || bytes == le.reverse()
}

/// Whether the bytes `before` and `after` of two numbers, whose bytes least
/// significant first are `le_before` and `le_after`, are in the same one
/// of the two orders in which a machine holds a number.
pub open spec fn in_same_machine_order(
    before: Seq<u8>,
    le_before: Seq<u8>,
    after: Seq<u8>,
    le_after: Seq<u8>,
) -> bool {
    ||| before == le_before && after == le_after
    ||| before == le_before.reverse() && after == le_after.reverse()
}

/// `zerocopy::AsBytes::as_bytes` of a `u8`: the one byte that it is.
#[verifier::external_body]
pub(crate) fn u8_as_bytes(x: &u8) -> (r: &[u8])
    ensures
        r@ == seq![*x],
{
    x.as_bytes()
}

/// `zerocopy::AsBytes::as_bytes` of a `u16`: its two bytes, in the order in
/// which the machine holds them.
#[verifier::external_body]
pub(crate) fn u16_as_bytes(x: &u16) -> (r: &[u8])
    ensures
        r@.len() == 2,
        in_machine_order(r@, spec_u16_to_le_bytes(*x)),
{
    x.as_bytes()
}

/// `zerocopy::AsBytes::as_bytes` of a `u32`: its four bytes, in the order in
/// which the machine holds them.
#[verifier::external_body]
pub(crate) fn u32_as_bytes(x: &u32) -> (r: &[u8])
    ensures
        r@.len() == 4,
        in_machine_order(r@, spec_u32_to_le_bytes(*x)),
{
    x.as_bytes()
}

/// `zerocopy::AsBytes::as_bytes` of a `u64`: its eight bytes, in the order
/// in which the machine holds them.
#[verifier::external_body]
pub(crate) fn u64_as_bytes(x: &u64) -> (r: &[u8])
    ensures
        r@.len() == 8,
        in_machine_order(r@, spec_u64_to_le_bytes(*x)),
{
    x.as_bytes()
}

/// `zerocopy::AsBytes::as_bytes_mut` of a `u8`: the one byte that it is, to
/// write through.
#[verifier::external_body]
pub(crate) fn u8_as_bytes_mut(x: &mut u8) -> (r: &mut [u8])
    ensures
        r@ == seq![*old(x)],
        final(r)@.len() == 1,
        *final(x) == final(r)@[0],
{
    x.as_bytes_mut()
}

/// `zerocopy::AsBytes::as_bytes_mut` of a `u16`: its two bytes, to write
/// through. The number ends as the one whose bytes, in the same order, are
/// the bytes written.
#[verifier::external_body]
pub(crate) fn u16_as_bytes_mut(x: &mut u16) -> (r: &mut [u8])
    ensures
        r@.len() == 2,
        final(r)@.len() == 2,
        in_same_machine_order(
            r@,
            spec_u16_to_le_bytes(*old(x)),
            final(r)@,
            spec_u16_to_le_bytes(*final(x)),
        ),
{
    x.as_bytes_mut()
}

/// `zerocopy::AsBytes::as_bytes_mut` of a `u32`: its four bytes, to write
/// through. The number ends as the one whose bytes, in the same order, are
/// the bytes written.
#[verifier::external_body]
pub(crate) fn u32_as_bytes_mut(x: &mut u32) -> (r: &mut [u8])
    ensures
        r@.len() == 4,
        final(r)@.len() == 4,
        in_same_machine_order(
            r@,
            spec_u32_to_le_bytes(*old(x)),
            final(r)@,
            spec_u32_to_le_bytes(*final(x)),
        ),
{
    x.as_bytes_mut()
}

/// `zerocopy::AsBytes::as_bytes_mut` of a `u64`: its eight bytes, to write
/// through. The number ends as the one whose bytes, in the same order, are
/// the bytes written.
#[verifier::external_body]
pub(crate) fn u64_as_bytes_mut(x: &mut u64) -> (r: &mut [u8])
    ensures
        r@.len() == 8,
        final(r)@.len() == 8,
        in_same_machine_order(
            r@,
            spec_u64_to_le_bytes(*old(x)),
            final(r)@,
            spec_u64_to_le_bytes(*final(x)),
        ),
{
    x.as_bytes_mut()
}

} // verus!
