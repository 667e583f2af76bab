//! Shared pieces of the fixed-layout record codec.

use crate::address::Address;
use vstd::prelude::*;

verus! {

/// Why a buffer does not decode as a record.
#[derive(Debug, Clone, Copy, PartialEq, Eq, Structural)]
pub enum DecodeError {
    /// The buffer is not exactly the record's size.
    SizeMismatch { expected: usize, observed: usize },
    /// The leading byte is not one of the service's discriminators.
    InvalidDiscriminator(u8),
}

/// The 32 bytes of `src` from `offset` on, as an address.
pub fn read_address(src: &[u8], offset: usize) -> (r: Address)
    requires
        offset + 32 <= src@.len(),
    ensures
        r@ == src@.subrange(offset as int, offset + 32),
{
    let n = src.len();
    let mut r: Address = [0u8; 32];
    let mut i: usize = 0;
    while i < 32
        invariant
            i <= 32,
            n == src@.len(),
            offset + 32 <= src@.len(),
            r@.len() == 32,
            forall|j: int| 0 <= j < i ==> r@[j] == src@[offset + j],
        decreases 32 - i,
    {
        r[i] = src[offset + i];
        i += 1;
    }
    assert(r@ =~= src@.subrange(offset as int, offset + 32));
    r
}

/// Appends the bytes of `tail` to `out`.
pub fn append_bytes(out: &mut Vec<u8>, tail: &[u8])
    ensures
        final(out)@ == old(out)@ + tail@,
{
    let mut i: usize = 0;
    while i < tail.len()
        invariant
            i <= tail@.len(),
            out@ == old(out)@ + tail@.subrange(0, i as int),
        decreases tail@.len() - i,
    {
        out.push(tail[i]);
        i += 1;
        assert(out@ =~= old(out)@ + tail@.subrange(0, i as int));
    }
    assert(tail@.subrange(0, tail@.len() as int) =~= tail@);
}

} // verus!
