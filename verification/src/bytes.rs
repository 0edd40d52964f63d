use vstd::prelude::*;
use vstd::bytes::{spec_u32_from_le_bytes, spec_u32_to_le_bytes, spec_u64_from_le_bytes, spec_u64_to_le_bytes};
use vstd::slice::slice_subrange;
use crate::pubkey::Pubkey;

verus! {

/// Appends `bytes` to `out`.
pub fn extend_from(out: &mut Vec<u8>, bytes: &[u8])
    ensures
        final(out)@ == old(out)@ + bytes@,
{
    let mut i: usize = 0;
    while i < bytes.len()
        invariant
            0 <= i <= bytes@.len(),
            out@ == old(out)@ + bytes@.subrange(0, i as int),
        decreases bytes@.len() - i,
    {
        out.push(bytes[i]);
        i = i + 1;
        assert(out@ =~= old(out)@ + bytes@.subrange(0, i as int));
    }
    assert(bytes@.subrange(0, i as int) =~= bytes@);
}

/// Appends the little-endian bytes of `v`.
pub fn push_u64(out: &mut Vec<u8>, v: u64)
    ensures
        final(out)@ == old(out)@ + spec_u64_to_le_bytes(v),
{
    let b = vstd::bytes::u64_to_le_bytes(v);
    extend_from(out, b.as_slice());
}

/// Appends the little-endian bytes of `v`.
pub fn push_u32(out: &mut Vec<u8>, v: u32)
    ensures
        final(out)@ == old(out)@ + spec_u32_to_le_bytes(v),
{
    let b = vstd::bytes::u32_to_le_bytes(v);
    extend_from(out, b.as_slice());
}

/// Appends the 32 bytes of an address.
pub fn push_pubkey(out: &mut Vec<u8>, key: &Pubkey)
    ensures
        final(out)@ == old(out)@ + key@,
{
    let bytes = key.to_bytes();
    extend_from(out, bytes.as_slice());
}

/// The little-endian `u64` at `pos` in `bytes`.
pub fn read_u64(bytes: &[u8], pos: usize) -> (r: u64)
    requires
        pos + 8 <= bytes@.len(),
    ensures
        r == spec_u64_from_le_bytes(bytes@.subrange(pos as int, pos + 8)),
{
    let _n = bytes.len();
    vstd::bytes::u64_from_le_bytes(slice_subrange(bytes, pos, pos + 8))
}

/// The little-endian `u32` at `pos` in `bytes`.
pub fn read_u32(bytes: &[u8], pos: usize) -> (r: u32)
    requires
        pos + 4 <= bytes@.len(),
    ensures
        r == spec_u32_from_le_bytes(bytes@.subrange(pos as int, pos + 4)),
{
    let _n = bytes.len();
    vstd::bytes::u32_from_le_bytes(slice_subrange(bytes, pos, pos + 4))
}

/// The address in the 32 bytes at `pos` in `bytes`.
pub fn read_pubkey(bytes: &[u8], pos: usize) -> (r: Pubkey)
    requires
        pos + 32 <= bytes@.len(),
    ensures
        r@ == bytes@.subrange(pos as int, pos + 32),
{
    let mut key = [0u8; 32];
    let mut i: usize = 0;
    let _n = bytes.len();
    while i < 32
        invariant
            0 <= i <= 32,
            bytes@.len() <= usize::MAX,
            pos + 32 <= bytes@.len(),
            key@.len() == 32,
            forall|j: int| 0 <= j < i ==> key@[j] == bytes@[pos + j],
        decreases 32 - i,
    {
        key[i] = bytes[pos + i];
        i = i + 1;
    }
    assert(key@ =~= bytes@.subrange(pos as int, pos + 32));
    Pubkey::new_from_array(key)
}

/// Writes `src` over the start of `dst`.
pub fn copy_prefix(dst: &mut [u8], src: &[u8])
    requires
        src@.len() <= old(dst)@.len(),
    ensures
        final(dst)@ == src@ + old(dst)@.subrange(src@.len() as int, old(dst)@.len() as int),
{
    let mut i: usize = 0;
    while i < src.len()
        invariant
            0 <= i <= src@.len(),
            src@.len() <= old(dst)@.len(),
            dst@.len() == old(dst)@.len(),
            forall|j: int|
                0 <= j < dst@.len() ==> #[trigger] dst@[j] == if j < i {
                    src@[j]
                } else {
                    old(dst)@[j]
                },
        decreases src@.len() - i,
    {
        dst[i] = src[i];
        i = i + 1;
    }
    assert(dst@ =~= src@ + old(dst)@.subrange(src@.len() as int, old(dst)@.len() as int));
}

} // verus!
