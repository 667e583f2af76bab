//! The counter record and its fixed little-endian layout:
//! `[discriminator:1][owner:32][bump:1][count:8][reserved:31]`.

use crate::address::Address;
use crate::codec::{append_bytes, read_address, DecodeError};
use crate::counter::account_discriminator::AccountDiscriminator;
use vstd::bytes::{spec_u64_from_le_bytes, spec_u64_to_le_bytes, u64_from_le_bytes, u64_to_le_bytes};
use vstd::prelude::*;

verus! {

/// The size in bytes of an encoded counter record.
pub const COUNTER_V1_SIZE: usize = 73;

/// The number of reserved bytes at the end of a counter record.
pub const COUNTER_V1_RESERVED: usize = 31;

/// A counter record.
pub struct CounterV1 {
    pub discriminator: AccountDiscriminator,
    pub owner: Address,
    pub bump: u8,
    pub count: u64,
    pub reserved: [u8; 31],
}

/// The mathematical value of a counter record.
pub ghost struct CounterV1Spec {
    pub discriminator: AccountDiscriminator,
    pub owner: Seq<u8>,
    pub bump: u8,
    pub count: u64,
    pub reserved: Seq<u8>,
}

impl View for CounterV1 {
    type V = CounterV1Spec;

    open spec fn view(&self) -> CounterV1Spec {
        CounterV1Spec {
            discriminator: self.discriminator,
            owner: self.owner@,
            bump: self.bump,
            count: self.count,
            reserved: self.reserved@,
        }
    }
}

impl CounterV1Spec {
    /// Field widths match the layout.
    pub open spec fn wf(self) -> bool {
        self.owner.len() == 32 && self.reserved.len() == COUNTER_V1_RESERVED
    }
}

/// The encoding of a counter record.
pub open spec fn encode_counter(r: CounterV1Spec) -> Seq<u8> {
    seq![r.discriminator.spec_byte()] + r.owner + seq![r.bump] + spec_u64_to_le_bytes(r.count) + r.reserved
}

/// The record that `bytes` encodes, or why there is none.
pub open spec fn decode_counter(bytes: Seq<u8>) -> Result<CounterV1Spec, DecodeError> {
    if bytes.len() != COUNTER_V1_SIZE {
        Err(DecodeError::SizeMismatch { expected: COUNTER_V1_SIZE, observed: bytes.len() as usize })
    } else {
        match AccountDiscriminator::spec_from_byte(bytes[0]) {
            None => Err(DecodeError::InvalidDiscriminator(bytes[0])),
            Some(discriminator) => Ok(CounterV1Spec {
                discriminator,
                owner: bytes.subrange(1, 33),
                bump: bytes[33],
                count: spec_u64_from_le_bytes(bytes.subrange(34, 42)),
                reserved: bytes.subrange(42, 73),
            }),
        }
    }
}

/// The record a fresh or reactivated counter holds: active, count zero,
/// reserved bytes zero.
pub open spec fn initial_counter(owner: Seq<u8>, bump: u8) -> CounterV1Spec {
    CounterV1Spec {
        discriminator: AccountDiscriminator::CounterV1Account,
        owner,
        bump,
        count: 0,
        reserved: Seq::new(COUNTER_V1_RESERVED as nat, |_i: int| 0u8),
    }
}

impl CounterV1 {
    /// The size in bytes of an encoded counter record.
    pub fn size() -> (r: usize)
        ensures
            r == COUNTER_V1_SIZE,
    {
        COUNTER_V1_SIZE
    }

    /// An active record for `owner`, with count zero.
    pub fn new(owner: Address, bump: u8) -> (r: CounterV1)
        ensures
            r@ == initial_counter(owner@, bump),
    {
        let r = CounterV1 {
            discriminator: AccountDiscriminator::CounterV1Account,
            owner,
            bump,
            count: 0,
            reserved: [0u8; 31],
        };
        assert(r.reserved@ =~= Seq::new(COUNTER_V1_RESERVED as nat, |_i: int| 0u8));
        r
    }

    /// Encodes the record; the result is always `size()` bytes.
    pub fn serialize(&self) -> (r: Vec<u8>)
        ensures
            r@ == encode_counter(self@),
            r@.len() == COUNTER_V1_SIZE,
    {
        let mut out: Vec<u8> = Vec::new();
        out.push(self.discriminator.to_byte());
        append_bytes(&mut out, self.owner.as_slice());
        out.push(self.bump);
        let count_bytes = u64_to_le_bytes(self.count);
        append_bytes(&mut out, count_bytes.as_slice());
        append_bytes(&mut out, self.reserved.as_slice());
        assert(out@ =~= encode_counter(self@));
        out
    }

    /// Decodes a record; fails unless `src` is exactly `size()` bytes and
    /// starts with a known discriminator.
    pub fn deserialize(src: &[u8]) -> (r: Result<CounterV1, DecodeError>)
        ensures
            match decode_counter(src@) {
                Ok(v) => r matches Ok(c) && c@ == v,
                Err(e) => r == Err::<CounterV1, DecodeError>(e),
            },
    {
        if src.len() != COUNTER_V1_SIZE {
            return Err(DecodeError::SizeMismatch { expected: COUNTER_V1_SIZE, observed: src.len() });
        }
        let discriminator = match AccountDiscriminator::try_from_byte(src[0]) {
            Ok(d) => d,
            Err(_) => {
                return Err(DecodeError::InvalidDiscriminator(src[0]));
            },
        };
        let owner = read_address(src, 1);
        let bump = src[33];
        let count = u64_from_le_bytes(vstd::slice::slice_subrange(src, 34, 42));
        let mut reserved: [u8; 31] = [0u8; 31];
        let mut i: usize = 0;
        while i < COUNTER_V1_RESERVED
            invariant
                i <= COUNTER_V1_RESERVED,
                src@.len() == COUNTER_V1_SIZE,
                reserved@.len() == COUNTER_V1_RESERVED,
                forall|j: int| 0 <= j < i ==> reserved@[j] == src@[42 + j],
            decreases COUNTER_V1_RESERVED - i,
        {
            reserved[i] = src[42 + i];
            i += 1;
        }
        assert(reserved@ =~= src@.subrange(42, 73));
        Ok(CounterV1 { discriminator, owner, bump, count, reserved })
    }
}

/// Decoding an encoded record gives the record back, and the encoding is
/// always exactly the record size.
pub proof fn lemma_counter_round_trip(r: CounterV1Spec)
    requires
        r.wf(),
    ensures
        encode_counter(r).len() == COUNTER_V1_SIZE,
        decode_counter(encode_counter(r)) == Ok::<CounterV1Spec, DecodeError>(r),
{
    vstd::bytes::lemma_auto_spec_u64_to_from_le_bytes();
    let b = encode_counter(r);
    assert(b.len() == COUNTER_V1_SIZE);
    assert(b.subrange(1, 33) =~= r.owner);
    assert(b.subrange(34, 42) =~= spec_u64_to_le_bytes(r.count));
    assert(b.subrange(42, 73) =~= r.reserved);
    assert(b[0] == r.discriminator.spec_byte());
    assert(b[33] == r.bump);
}

} // verus!
