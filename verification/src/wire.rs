//! Reading integers off the front of a byte buffer.

use vstd::prelude::*;

verus! {

/// The number that a sequence of bytes stands for, least significant byte first.
pub open spec fn le_value(bytes: Seq<u8>) -> nat
    decreases bytes.len(),
{
    if bytes.len() == 0 {
        0
    } else {
        bytes[0] as nat + 256 * le_value(bytes.skip(1))
    }
}

/// The value of three bytes, written out.
pub proof fn lemma_le_value_3(bytes: Seq<u8>)
    requires
        bytes.len() == 3,
    ensures
        le_value(bytes) == bytes[0] + 256 * bytes[1] + 65536 * bytes[2],
        le_value(bytes) < 0x100_0000,
{
    let s1 = bytes.skip(1);
    let s2 = s1.skip(1);
    let s3 = s2.skip(1);
    assert(s3.len() == 0);
    assert(le_value(s3) == 0);
    assert(le_value(s2) == s2[0] as nat + 256 * le_value(s3));
    assert(le_value(s1) == s1[0] as nat + 256 * le_value(s2));
    assert(le_value(bytes) == bytes[0] as nat + 256 * le_value(s1));
}

/// `bytes::Buf::get_u8` on a byte slice: gives the first byte, and the slice
/// without it. The outside function panics on an empty slice.
#[verifier::external_body]
pub(crate) fn buf_get_u8<'a>(bytes: &'a [u8]) -> (r: (u8, &'a [u8]))
    requires
        bytes@.len() >= 1,
    ensures
        r.0 == bytes@[0],
        r.1@ == bytes@.skip(1),
{
    let mut rest = bytes;
    let value = bytes::Buf::get_u8(&mut rest);
    (value, rest)
}

/// `bytes::Buf::get_uint_le` on a byte slice: gives the number that the first
/// `nbytes` bytes stand for, least significant byte first, and the slice
/// without them. The outside function panics if `nbytes` is more than 8 or
/// more than the slice holds.
#[verifier::external_body]
pub(crate) fn buf_get_uint_le<'a>(bytes: &'a [u8], nbytes: usize) -> (r: (u64, &'a [u8]))
    requires
        nbytes <= 8,
        nbytes <= bytes@.len(),
    ensures
        r.0 == le_value(bytes@.take(nbytes as int)),
        r.1@ == bytes@.skip(nbytes as int),
{
    let mut rest = bytes;
    let value = bytes::Buf::get_uint_le(&mut rest, nbytes);
    (value, rest)
}

} // verus!
