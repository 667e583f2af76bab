//! The vault service: one lamport vault per owner, at an address derived
//! from the owner and the service's program id.

pub mod account_discriminator;
pub mod error;
pub mod instructions;
pub mod instructions_discriminator;
pub mod lifecycle;
pub mod processor;
pub mod state;

use crate::address::{program_address_of, try_find_program_address, Address};
use vstd::prelude::*;

verus! {

/// The seed of vault addresses: the bytes of `vault_v1`.
pub const VAULT_V1_SEED: [u8; 8] = [118, 97, 117, 108, 116, 95, 118, 49];

/// The vault address and bump for `owner` under `program_id`, if one exists.
pub open spec fn vault_address(program_id: Address, owner: Address) -> Option<(Address, u8)> {
    program_address_of(VAULT_V1_SEED@, owner, program_id)
}

/// Derives the vault address of `owner` from the seeds `[vault_v1, owner]`,
/// or `None` in the (improbable) case that no bump gives a valid address.
pub fn try_find_vault_v1(program_id: &Address, owner: &Address) -> (r: Option<(Address, u8)>)
    ensures
        r == vault_address(*program_id, *owner),
{
    try_find_program_address(VAULT_V1_SEED.as_slice(), owner, program_id)
}

/// Derives the vault address of `owner`; a valid address must exist.
pub fn find_vault_v1(program_id: &Address, owner: &Address) -> (r: (Address, u8))
    requires
        vault_address(*program_id, *owner) is Some,
    ensures
        Some(r) == vault_address(*program_id, *owner),
{
    match try_find_vault_v1(program_id, owner) {
        Some(found) => found,
        None => {
            proof {
                assert(false);
            }
            ([0u8; 32], 0u8)
        },
    }
}

/// The vault address of `owner` alone, or `None` where none can be derived.
pub fn find_vault_v1_address(program_id: &Address, owner: &Address) -> (r: Option<Address>)
    ensures
        match vault_address(*program_id, *owner) {
            Some((a, _)) => r == Some(a),
            None => r is None,
        },
{
    if try_find_vault_v1(program_id, owner).is_none() {
        return None;
    }
    Some(find_vault_v1(program_id, owner).0)
}

} // verus!
