//! The vault service's dispatcher: parse the operation, validate, plan the
//! effects, and (on the host model) carry them out; every failure surfaces as
//! one flat `ProgramError`.

use crate::account::{apply_effects, effects_result, effects_view, AccountState, AccountView, Effect, EffectSpec, ProgramError, RentMinimums};
use crate::address::Address;
use crate::vault::error::{
    deactivate_vault_code, failure_code, InstructionFailure, deposit_code, discriminator_error_code, initialize_vault_code, reactivate_vault_code,
    withdraw_code, InstructionError,
};
use crate::vault::instructions::{
    amount_arg, deactivate_vault_checks, deactivate_vault_effects, deposit_checks, deposit_effects,
    initialize_vault_checks, initialize_vault_effects, reactivate_vault_checks, reactivate_vault_effects,
    withdraw_checks, withdraw_effects, DeactivateVaultV1, DepositV1, DepositV1Error, InitializeVaultV1,
    ReactivateVaultV1, WithdrawV1, WithdrawV1Error,
};
use crate::vault::instructions_discriminator::InstructionDiscriminator;
use vstd::prelude::*;

verus! {

/// What the vault service plans for an instruction: the host effects of the
/// operation it names, or the flat error of the first check that fails.
pub open spec fn vault_plan(program_id: Address, accounts: Seq<AccountView>, instruction_data: Seq<u8>, rent: RentMinimums)
    -> Result<Seq<EffectSpec>, ProgramError>
{
    match InstructionDiscriminator::spec_parse(instruction_data) {
        Err(e) => Err(discriminator_error_code(e)),
        Ok((discriminator, args)) => match discriminator {
            InstructionDiscriminator::InitializeVaultV1 => match initialize_vault_checks(program_id, accounts) {
                Err(e) => Err(initialize_vault_code(e)),
                Ok(a) => Ok(initialize_vault_effects(a, rent)),
            },
            InstructionDiscriminator::DepositV1 => match deposit_checks(program_id, accounts) {
                Err(e) => Err(deposit_code(e)),
                Ok(a) => match amount_arg(args) {
                    None => Err(deposit_code(DepositV1Error::InvalidInstructionData)),
                    Some(amount) => match deposit_effects(a.owner, accounts[1].data@, amount) {
                        Err(e) => Err(deposit_code(e)),
                        Ok(es) => Ok(es),
                    },
                },
            },
            InstructionDiscriminator::WithdrawV1 => match withdraw_checks(program_id, accounts) {
                Err(e) => Err(withdraw_code(e)),
                Ok(a) => match amount_arg(args) {
                    None => Err(withdraw_code(WithdrawV1Error::InvalidInstructionData)),
                    Some(amount) => match withdraw_effects(a.owner, accounts[1].data@, accounts[1].lamports, amount, rent) {
                        Err(e) => Err(withdraw_code(e)),
                        Ok(es) => Ok(es),
                    },
                },
            },
            InstructionDiscriminator::DeactivateVaultV1 => match deactivate_vault_checks(program_id, accounts) {
                Err(e) => Err(deactivate_vault_code(e)),
                Ok(_) => Ok(deactivate_vault_effects(accounts[1].lamports, rent)),
            },
            InstructionDiscriminator::ReactivateVaultV1 => match reactivate_vault_checks(program_id, accounts) {
                Err(e) => Err(reactivate_vault_code(e)),
                Ok(a) => Ok(reactivate_vault_effects(a, accounts[1].lamports, rent)),
            },
        },
    }
}

/// The result of an instruction on the host model: the new authority and
/// storage accounts, or the flat error.
pub open spec fn vault_outcome(program_id: Address, accounts: Seq<AccountView>, instruction_data: Seq<u8>, rent: RentMinimums)
    -> Result<(AccountState, AccountState), ProgramError>
{
    match vault_plan(program_id, accounts, instruction_data, rent) {
        Err(e) => Err(e),
        Ok(effects) => effects_result(program_id@, accounts[0]@, accounts[1]@, effects),
    }
}

/// Parses, validates and plans an instruction: the effects of the named
/// operation, or the flat error of the first failing check.
pub fn plan_instruction(program_id: &Address, accounts: &[AccountView], instruction_data: &[u8], rent: &RentMinimums)
    -> (r: Result<Vec<Effect>, ProgramError>)
    ensures
        match vault_plan(*program_id, accounts@, instruction_data@, *rent) {
            Ok(es) => r matches Ok(v) && effects_view(v@) == es && accounts@.len() >= 2,
            Err(e) => r == Err::<Vec<Effect>, ProgramError>(e),
        },
{
    match plan_instruction_detailed(program_id, accounts, instruction_data, rent) {
        Ok(effects) => Ok(effects),
        Err(failure) => Err(ProgramError::from(failure)),
    }
}

/// Parses, validates and plans an instruction: the effects of the named
/// operation, or the typed failure of the first failing check, whose flat
/// form is the error `plan_instruction` reports.
pub fn plan_instruction_detailed(program_id: &Address, accounts: &[AccountView], instruction_data: &[u8], rent: &RentMinimums)
    -> (r: Result<Vec<Effect>, InstructionFailure>)
    ensures
        match vault_plan(*program_id, accounts@, instruction_data@, *rent) {
            Ok(es) => r matches Ok(v) && effects_view(v@) == es && accounts@.len() >= 2,
            Err(e) => r matches Err(f) && failure_code(f) == e,
        },
{
    let (discriminator, args) = match InstructionDiscriminator::parse(instruction_data) {
        Ok(parsed) => parsed,
        Err(e) => {
            return Err(InstructionFailure::Discriminator(e));
        },
    };
    let planned = match discriminator {
        InstructionDiscriminator::InitializeVaultV1 => match InitializeVaultV1::try_from(program_id, accounts, args) {
            Err(e) => Err(InstructionError::from(e)),
            Ok(ix) => match ix.execute(rent) {
                Err(e) => Err(InstructionError::from(e)),
                Ok(effects) => Ok(effects),
            },
        },
        InstructionDiscriminator::DepositV1 => match DepositV1::try_from(program_id, accounts, args) {
            Err(e) => Err(InstructionError::from(e)),
            Ok(ix) => match ix.execute(&accounts[1]) {
                Err(e) => Err(InstructionError::from(e)),
                Ok(effects) => Ok(effects),
            },
        },
        InstructionDiscriminator::WithdrawV1 => match WithdrawV1::try_from(program_id, accounts, args) {
            Err(e) => Err(InstructionError::from(e)),
            Ok(ix) => match ix.execute(&accounts[1], rent) {
                Err(e) => Err(InstructionError::from(e)),
                Ok(effects) => Ok(effects),
            },
        },
        InstructionDiscriminator::DeactivateVaultV1 => match DeactivateVaultV1::try_from(program_id, accounts, args) {
            Err(e) => Err(InstructionError::from(e)),
            Ok(ix) => match ix.execute(&accounts[1], rent) {
                Err(e) => Err(InstructionError::from(e)),
                Ok(effects) => Ok(effects),
            },
        },
        InstructionDiscriminator::ReactivateVaultV1 => match ReactivateVaultV1::try_from(program_id, accounts, args) {
            Err(e) => Err(InstructionError::from(e)),
            Ok(ix) => match ix.execute(&accounts[1], rent) {
                Err(e) => Err(InstructionError::from(e)),
                Ok(effects) => Ok(effects),
            },
        },
    };
    match planned {
        Ok(effects) => Ok(effects),
        Err(e) => Err(InstructionFailure::Instruction(e)),
    }
}

/// Runs an instruction on the host model: plans it, then carries out its
/// effects on the authority (first) and vault (second) accounts. Where the
/// plan fails, no account is touched.
pub fn process_instruction(program_id: &Address, accounts: &mut Vec<AccountView>, instruction_data: &[u8], rent: &RentMinimums)
    -> (r: Result<(), ProgramError>)
    ensures
        match vault_outcome(*program_id, old(accounts)@, instruction_data@, *rent) {
            Ok((a, s)) => r is Ok && final(accounts)@.len() == old(accounts)@.len() && final(accounts)@[0]@ == a
                && final(accounts)@[1]@ == s
                && forall|i: int| 2 <= i < old(accounts)@.len() ==> final(accounts)@[i] == old(accounts)@[i],
            Err(e) => r == Err::<(), ProgramError>(e),
        },
        vault_plan(*program_id, old(accounts)@, instruction_data@, *rent) is Err ==> final(accounts)@ == old(accounts)@,
{
    let effects = plan_instruction(program_id, accounts.as_slice(), instruction_data, rent)?;
    let ghost before = accounts@;
    let mut vault = accounts.remove(1);
    let mut authority = accounts.remove(0);
    let applied = apply_effects(program_id, &mut authority, &mut vault, &effects);
    accounts.insert(0, authority);
    accounts.insert(1, vault);
    proof {
        assert forall|i: int| 2 <= i < before.len() implies accounts@[i] == before[i] by {
            assert(accounts@[i] == before[i]);
        }
    }
    applied
}

} // verus!
