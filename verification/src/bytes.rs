//! Small helpers for reading fixed size byte groups out of byte buffers.

use vstd::prelude::*;

verus! {

/// Copies `N` bytes out of `bytes`, starting at `offset`.
pub fn array_from_slice<const N: usize>(bytes: &[u8], offset: usize) -> (r: [u8; N])
    requires
        offset + N <= bytes@.len(),
    ensures
        r@ == bytes@.subrange(offset as int, offset + N),
{
    let mut r: [u8; N] = vstd::array::array_fill_for_copy_types::<u8, N>(0u8);
    let len = bytes.len();
    let mut i: usize = 0;
    while i < N
        invariant
            0 <= i <= N,
            len == bytes@.len(),
            offset + N <= bytes@.len(),
            r@.len() == N,
            forall|j: int| 0 <= j < i ==> r@[j] == bytes@[offset + j],
        decreases N - i,
    {
        r[i] = bytes[offset + i];
        i = i + 1;
    }
    assert(r@ =~= bytes@.subrange(offset as int, offset + N));
    r
}

/// Appends all of `src` to `dst`.
pub fn extend_from_slice(dst: &mut Vec<u8>, src: &[u8])
    ensures
        final(dst)@ == old(dst)@ + src@,
{
    let mut i: usize = 0;
    while i < src.len()
        invariant
            0 <= i <= src@.len(),
            dst@ == old(dst)@ + src@.subrange(0, i as int),
        decreases src@.len() - i,
    {
        dst.push(src[i]);
        i = i + 1;
        assert(dst@ =~= old(dst)@ + src@.subrange(0, i as int));
    }
    assert(src@.subrange(0, src@.len() as int) =~= src@);
}

/// Little-endian encoding of a `u32`.
pub fn u32_to_le_array(value: u32) -> (r: [u8; 4])
    ensures
        r@ == vstd::bytes::spec_u32_to_le_bytes(value),
{
    let v = vstd::bytes::u32_to_le_bytes(value);
    let r: [u8; 4] = array_from_slice::<4>(v.as_slice(), 0);
    assert(r@ =~= vstd::bytes::spec_u32_to_le_bytes(value));
    r
}

/// Little-endian encoding of a `u64`.
pub fn u64_to_le_array(value: u64) -> (r: [u8; 8])
    ensures
        r@ == vstd::bytes::spec_u64_to_le_bytes(value),
{
    let v = vstd::bytes::u64_to_le_bytes(value);
    let r: [u8; 8] = array_from_slice::<8>(v.as_slice(), 0);
    assert(r@ =~= vstd::bytes::spec_u64_to_le_bytes(value));
    r
}

} // verus!
