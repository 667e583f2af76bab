//! Facts about the vault lifecycle that hold for every input.

use crate::account::{AccountView, EffectSpec, ProgramError, RentMinimums};
use crate::address::Address;
use crate::counter::error::custom;
use crate::counter::instructions::system_program_address;
use crate::vault::account_discriminator::AccountDiscriminator;
use crate::vault::error::INITIALIZE_VAULT_V1_OFFSET;
use crate::vault::instructions::{initialize_vault_checks, InitializeVaultV1Accounts, InitializeVaultV1Error};
use crate::vault::processor::{vault_outcome, vault_plan};
use crate::vault::vault_address;
use vstd::prelude::*;

verus! {

/// Initialize on a vault account that already holds an active or a
/// deactivated vault fails with "must be empty" (once the signer, writable,
/// address and system-program checks that precede it pass), so the dispatcher plans nothing
/// and, by `process_instruction`, leaves every account as it was.
pub proof fn lemma_initialize_refuses_existing_vault(
    program_id: Address,
    accounts: Seq<AccountView>,
    instruction_data: Seq<u8>,
    rent: RentMinimums,
)
    requires
        accounts.len() == 3,
        accounts[0].is_signer,
        accounts[0].is_writable,
        accounts[1].is_writable,
        vault_address(program_id, accounts[0].key) matches Some((a, _)) && accounts[1].key == a,
        accounts[2].key == system_program_address(),
        AccountDiscriminator::spec_check(AccountDiscriminator::VaultV1Account, accounts[1].data@) is Ok
            || AccountDiscriminator::spec_check(AccountDiscriminator::DeactivatedAccount, accounts[1].data@) is Ok,
        instruction_data.len() > 0,
        instruction_data[0] == 1,
    ensures
        initialize_vault_checks(program_id, accounts)
            == Err::<InitializeVaultV1Accounts, InitializeVaultV1Error>(InitializeVaultV1Error::VaultMustBeEmpty),
        vault_plan(program_id, accounts, instruction_data, rent) == Err::<Seq<EffectSpec>, ProgramError>(
            custom(INITIALIZE_VAULT_V1_OFFSET, 0x06),
        ),
        vault_outcome(program_id, accounts, instruction_data, rent) is Err,
{
}

} // verus!
