//! The vault record and its fixed layout: `[discriminator:1][owner:32][bump:1]`.
//! The vault's balance is the account's own lamports, not a stored field.

use crate::address::Address;
use crate::codec::{read_address, DecodeError};
use crate::vault::account_discriminator::AccountDiscriminator;
use vstd::prelude::*;

verus! {

/// The size in bytes of an encoded vault record.
pub const VAULT_V1_SIZE: usize = 34;

/// A vault record.
#[derive(Debug, Clone, Copy, PartialEq, Eq)]
pub struct VaultV1 {
    pub discriminator: AccountDiscriminator,
    pub owner: Address,
    pub bump: u8,
}

/// The encoding of a vault record.
pub open spec fn encode_vault(r: VaultV1) -> Seq<u8> {
    seq![r.discriminator.spec_byte()] + r.owner@ + seq![r.bump]
}

/// The record that `bytes` encodes, or why there is none.
pub open spec fn decode_vault(bytes: Seq<u8>) -> Result<VaultV1, DecodeError> {
    if bytes.len() != VAULT_V1_SIZE {
        Err(DecodeError::SizeMismatch { expected: VAULT_V1_SIZE, observed: bytes.len() as usize })
    } else {
        match AccountDiscriminator::spec_from_byte(bytes[0]) {
            None => Err(DecodeError::InvalidDiscriminator(bytes[0])),
            Some(discriminator) => Ok(VaultV1 {
                discriminator,
                owner: choose|a: Address| a@ == bytes.subrange(1, 33),
                bump: bytes[33],
            }),
        }
    }
}

/// The record a fresh or reactivated vault holds.
pub open spec fn initial_vault(owner: Address, bump: u8) -> VaultV1 {
    VaultV1 { discriminator: AccountDiscriminator::VaultV1Account, owner, bump }
}

impl VaultV1 {
    /// The size in bytes of an encoded vault record.
    pub fn size() -> (r: usize)
        ensures
            r == VAULT_V1_SIZE,
    {
        VAULT_V1_SIZE
    }

    /// Decodes a record; fails unless `data` is exactly `size()` bytes and
    /// starts with a known discriminator.
    pub fn from_bytes(data: &[u8]) -> (r: Result<VaultV1, DecodeError>)
        ensures
            r == decode_vault(data@),
    {
        if data.len() != VAULT_V1_SIZE {
            return Err(DecodeError::SizeMismatch { expected: VAULT_V1_SIZE, observed: data.len() });
        }
        let discriminator = match AccountDiscriminator::try_from_byte(data[0]) {
            Ok(d) => d,
            Err(_) => {
                return Err(DecodeError::InvalidDiscriminator(data[0]));
            },
        };
        let owner = read_address(data, 1);
        let bump = data[33];
        proof {
            let c = choose|a: Address| a@ == data@.subrange(1, 33);
            assert(owner =~= c);
        }
        Ok(VaultV1 { discriminator, owner, bump })
    }

    /// Encodes the record; the result is always `size()` bytes.
    pub fn to_bytes(&self) -> (r: [u8; VAULT_V1_SIZE])
        ensures
            r@ == encode_vault(*self),
            r@.len() == VAULT_V1_SIZE,
    {
        let mut bytes: [u8; VAULT_V1_SIZE] = [0u8; VAULT_V1_SIZE];
        bytes[0] = self.discriminator.to_byte();
        let mut i: usize = 0;
        while i < 32
            invariant
                i <= 32,
                bytes@.len() == VAULT_V1_SIZE,
                bytes@[0] == self.discriminator.spec_byte(),
                forall|j: int| 0 <= j < i ==> bytes@[1 + j] == self.owner@[j],
            decreases 32 - i,
        {
            bytes[1 + i] = self.owner[i];
            i += 1;
        }
        bytes[33] = self.bump;
        assert(bytes@ =~= encode_vault(*self));
        bytes
    }

    /// The owner identity stored in the record.
    pub fn owner(&self) -> (r: Address)
        ensures
            r == self.owner,
    {
        self.owner
    }

    /// Replaces the stored owner identity.
    pub fn set_owner(&mut self, owner: Address)
        ensures
            *final(self) == (VaultV1 { owner, ..*old(self) }),
    {
        self.owner = owner;
    }
}

/// Decoding an encoded vault record gives the record back, and the encoding
/// is always exactly the record size.
pub proof fn lemma_vault_round_trip(r: VaultV1)
    ensures
        encode_vault(r).len() == VAULT_V1_SIZE,
        decode_vault(encode_vault(r)) == Ok::<VaultV1, DecodeError>(r),
{
    let b = encode_vault(r);
    assert(b.subrange(1, 33) =~= r.owner@);
    assert(b[0] == r.discriminator.spec_byte());
    assert(b[33] == r.bump);
    let c = choose|a: Address| a@ == b.subrange(1, 33);
    assert(c =~= r.owner);
}

} // verus!
