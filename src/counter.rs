//! The counter service: one counter record per owner, at an address derived
//! from the owner and the service's program id.

pub mod account_discriminator;
pub mod error;

pub mod instructions;
pub mod instructions_discriminator;
pub mod lifecycle;
pub mod processor;

pub mod state;

use crate::address::{program_address_of, try_find_program_address, Address};
use vstd::prelude::*;

verus! {

/// The seed of counter addresses: the bytes of `counter_v1`.
pub const COUNTER_V1_SEED: [u8; 10] = [99, 111, 117, 110, 116, 101, 114, 95, 118, 49];

/// The counter address and bump for `owner` under `program_id`, if one exists.
pub open spec fn counter_address(program_id: Address, owner: Address) -> Option<(Address, u8)> {
    program_address_of(COUNTER_V1_SEED@, owner, program_id)
}

/// Derives the counter address of `owner` from the seeds `[counter_v1, owner]`,
/// or `None` in the (improbable) case that no bump gives a valid address.
pub fn try_find_counter_v1(program_id: &Address, owner: &Address) -> (r: Option<(Address, u8)>)
    ensures
        r == counter_address(*program_id, *owner),
{
    try_find_program_address(COUNTER_V1_SEED.as_slice(), owner, program_id)
}

/// Derives the counter address of `owner`; a valid address must exist.
pub fn find_counter_v1(program_id: &Address, owner: &Address) -> (r: (Address, u8))
    requires
        counter_address(*program_id, *owner) is Some,
    ensures
        Some(r) == counter_address(*program_id, *owner),
{
    match try_find_counter_v1(program_id, owner) {
        Some(found) => found,
        None => {
            proof {
                assert(false);
            }
            ([0u8; 32], 0u8)
        },
    }
}

/// The counter address of `owner` alone, or `None` where none can be derived.
pub fn find_counter_v1_address(program_id: &Address, owner: &Address) -> (r: Option<Address>)
    ensures
        match counter_address(*program_id, *owner) {
            Some((a, _)) => r == Some(a),
            None => r is None,
        },
{
    if try_find_counter_v1(program_id, owner).is_none() {
        return None;
    }
    Some(find_counter_v1(program_id, owner).0)
}

} // verus!
