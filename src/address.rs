//! Addresses and the deterministic derivation of storage addresses.

use vstd::prelude::*;

verus! {

/// A 32-byte account identity.
pub type Address = [u8; 32];

/// The derived address and bump that the host's search finds for the seeds
/// `[seed, owner]` under `program_id`, or `None` where no bump gives one.
pub uninterp spec fn program_address_of(seed: Seq<u8>, owner: Address, program_id: Address) -> Option<(Address, u8)>;

/// Relies on `solana_pubkey::Pubkey::try_find_program_address`, which hashes
/// the seeds `[seed, owner, bump]` with the program id for each bump from 255
/// down and returns the first result that lies off the curve, or `None`. Its
/// result depends on its arguments alone.
#[verifier::external_body]
pub(crate) fn try_find_program_address(seed: &[u8], owner: &Address, program_id: &Address) -> (r: Option<(Address, u8)>)
    ensures
        r == program_address_of(seed@, *owner, *program_id),
{
    let program = solana_pubkey::Pubkey::new_from_array(*program_id);
    solana_pubkey::Pubkey::try_find_program_address(&[seed, owner.as_slice()], &program)
        .map(|(found, bump)| (found.to_bytes(), bump))
}

/// Relies on `pinocchio_system::ID`, the system program's id
/// `11111111111111111111111111111111`, which is 32 zero bytes.
#[verifier::external_body]
pub(crate) fn system_program_id() -> (r: Address)
    ensures
        r@ == Seq::new(32, |_i: int| 0u8),
{
    pinocchio_system::ID
}

/// Byte-wise equality of two addresses.
pub fn address_eq(a: &Address, b: &Address) -> (r: bool)
    ensures
        r == (*a == *b),
{
    let mut i: usize = 0;
    while i < 32
        invariant
            0 <= i <= 32,
            a@.len() == 32,
            b@.len() == 32,
            forall|j: int| 0 <= j < i ==> a@[j] == b@[j],
        decreases 32 - i,
    {
        if a[i] != b[i] {
            return false;
        }
        i += 1;
    }
    assert(*a =~= *b);
    true
}

} // verus!
