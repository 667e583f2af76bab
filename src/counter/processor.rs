//! The counter service's dispatcher: parse the operation, validate, plan the
//! effects, and (on the host model) carry them out; every failure surfaces as
//! one flat `ProgramError`.

use crate::account::{apply_effects, effects_result, effects_view, AccountState, AccountView, Effect, EffectSpec, ProgramError, RentMinimums};
use crate::address::Address;
use crate::counter::error::{
    count_update_code, failure_code, InstructionFailure, deactivate_counter_code, discriminator_error_code, initialize_counter_code,
    reactivate_counter_code, InstructionError, DECREMENT_COUNT_V1_OFFSET, INCREMENT_COUNT_V1_OFFSET,
    SET_COUNT_V1_OFFSET,
};
use crate::counter::instructions::{
    count_update_checks, count_update_effects, deactivate_counter_checks, deactivate_counter_effects,
    initialize_counter_checks, initialize_counter_effects, reactivate_counter_checks, reactivate_counter_effects,
    set_count_args, CountUpdate, DeactivateCounterV1, DecrementCountV1, IncrementCountV1, InitializeCounterV1,
    ReactivateCounterV1, SetCountV1,
};
use crate::counter::instructions_discriminator::InstructionDiscriminator;
use vstd::prelude::*;

verus! {

/// The effects a count update plans once its accounts pass, or its failure.
pub open spec fn count_update_plan(offset: u32, program_id: Address, accounts: Seq<AccountView>, update: CountUpdate)
    -> Result<Seq<EffectSpec>, ProgramError>
{
    match count_update_checks(program_id, accounts) {
        Err(e) => Err(count_update_code(offset, e)),
        Ok(_) => match count_update_effects(accounts[1].data@, update) {
            Err(e) => Err(count_update_code(offset, e)),
            Ok(es) => Ok(es),
        },
    }
}

/// What the counter service plans for an instruction: the host effects of
/// the operation it names, or the flat error of the first check that fails.
pub open spec fn counter_plan(program_id: Address, accounts: Seq<AccountView>, instruction_data: Seq<u8>, rent: RentMinimums)
    -> Result<Seq<EffectSpec>, ProgramError>
{
    match InstructionDiscriminator::spec_parse(instruction_data) {
        Err(e) => Err(discriminator_error_code(e)),
        Ok((discriminator, args)) => match discriminator {
            InstructionDiscriminator::InitializeCounterV1 => match initialize_counter_checks(program_id, accounts) {
                Err(e) => Err(initialize_counter_code(e)),
                Ok(a) => Ok(initialize_counter_effects(a, rent)),
            },
            InstructionDiscriminator::DeactivateCounterV1 => match deactivate_counter_checks(program_id, accounts) {
                Err(e) => Err(deactivate_counter_code(e)),
                Ok(_) => Ok(deactivate_counter_effects(accounts[1].lamports, rent)),
            },
            InstructionDiscriminator::IncrementCountV1 =>
                count_update_plan(INCREMENT_COUNT_V1_OFFSET, program_id, accounts, CountUpdate::Increment),
            InstructionDiscriminator::DecrementCountV1 =>
                count_update_plan(DECREMENT_COUNT_V1_OFFSET, program_id, accounts, CountUpdate::Decrement),
            InstructionDiscriminator::SetCountV1 => match count_update_checks(program_id, accounts) {
                Err(e) => Err(count_update_code(SET_COUNT_V1_OFFSET, e)),
                Ok(_) => match set_count_args(args) {
                    Err(e) => Err(count_update_code(SET_COUNT_V1_OFFSET, crate::counter::instructions::CountUpdateV1Error::DeserializeError(e))),
                    Ok(parsed) => count_update_plan(SET_COUNT_V1_OFFSET, program_id, accounts, CountUpdate::SetTo(parsed.count)),
                },
            },
            InstructionDiscriminator::ReactivateCounterV1 => match reactivate_counter_checks(program_id, accounts) {
                Err(e) => Err(reactivate_counter_code(e)),
                Ok(a) => Ok(reactivate_counter_effects(a, accounts[1].lamports, rent)),
            },
        },
    }
}

/// The result of an instruction on the host model: the new authority and
/// storage accounts, or the flat error.
pub open spec fn counter_outcome(program_id: Address, accounts: Seq<AccountView>, instruction_data: Seq<u8>, rent: RentMinimums)
    -> Result<(AccountState, AccountState), ProgramError>
{
    match counter_plan(program_id, accounts, instruction_data, rent) {
        Err(e) => Err(e),
        Ok(effects) => effects_result(program_id@, accounts[0]@, accounts[1]@, effects),
    }
}

/// Parses, validates and plans an instruction: the effects of the named
/// operation, or the flat error of the first failing check.
pub fn plan_instruction(program_id: &Address, accounts: &[AccountView], instruction_data: &[u8], rent: &RentMinimums)
    -> (r: Result<Vec<Effect>, ProgramError>)
    ensures
        match counter_plan(*program_id, accounts@, instruction_data@, *rent) {
            Ok(es) => r matches Ok(v) && effects_view(v@) == es && accounts@.len() >= 2,
            Err(e) => r == Err::<Vec<Effect>, ProgramError>(e),
        },
{
    match plan_instruction_detailed(program_id, accounts, instruction_data, rent) {
        Ok(effects) => Ok(effects),
        Err(failure) => Err(ProgramError::from(failure)),
    }
}

/// Parses, validates and plans an instruction: the effects of the named
/// operation, or the typed failure of the first failing check, whose flat
/// form is the error `plan_instruction` reports.
pub fn plan_instruction_detailed(program_id: &Address, accounts: &[AccountView], instruction_data: &[u8], rent: &RentMinimums)
    -> (r: Result<Vec<Effect>, InstructionFailure>)
    ensures
        match counter_plan(*program_id, accounts@, instruction_data@, *rent) {
            Ok(es) => r matches Ok(v) && effects_view(v@) == es && accounts@.len() >= 2,
            Err(e) => r matches Err(f) && failure_code(f) == e,
        },
{
    let (discriminator, args) = match InstructionDiscriminator::parse(instruction_data) {
        Ok(parsed) => parsed,
        Err(e) => {
            return Err(InstructionFailure::Discriminator(e));
        },
    };
    match discriminator {
        InstructionDiscriminator::InitializeCounterV1 => match InitializeCounterV1::try_from(program_id, accounts, args) {
            Err(e) => Err(InstructionFailure::Instruction(InstructionError::from_initialize(e))),
            Ok(ix) => match ix.execute(rent) {
                Err(e) => Err(InstructionFailure::Instruction(InstructionError::from_initialize(e))),
                Ok(effects) => Ok(effects),
            },
        },
        InstructionDiscriminator::DeactivateCounterV1 => match DeactivateCounterV1::try_from(program_id, accounts, args) {
            Err(e) => Err(InstructionFailure::Instruction(InstructionError::from_deactivate(e))),
            Ok(ix) => match ix.execute(&accounts[1], rent) {
                Err(e) => Err(InstructionFailure::Instruction(InstructionError::from_deactivate(e))),
                Ok(effects) => Ok(effects),
            },
        },
        InstructionDiscriminator::IncrementCountV1 => match IncrementCountV1::try_from(program_id, accounts, args) {
            Err(e) => Err(InstructionFailure::Instruction(InstructionError::from_increment(e))),
            Ok(ix) => match ix.execute(&accounts[1]) {
                Err(e) => Err(InstructionFailure::Instruction(InstructionError::from_increment(e))),
                Ok(effects) => Ok(effects),
            },
        },
        InstructionDiscriminator::DecrementCountV1 => match DecrementCountV1::try_from(program_id, accounts, args) {
            Err(e) => Err(InstructionFailure::Instruction(InstructionError::from_decrement(e))),
            Ok(ix) => match ix.execute(&accounts[1]) {
                Err(e) => Err(InstructionFailure::Instruction(InstructionError::from_decrement(e))),
                Ok(effects) => Ok(effects),
            },
        },
        InstructionDiscriminator::SetCountV1 => match SetCountV1::try_from(program_id, accounts, args) {
            Err(e) => Err(InstructionFailure::Instruction(InstructionError::from_set_count(e))),
            Ok(ix) => match ix.execute(&accounts[1]) {
                Err(e) => Err(InstructionFailure::Instruction(InstructionError::from_set_count(e))),
                Ok(effects) => Ok(effects),
            },
        },
        InstructionDiscriminator::ReactivateCounterV1 => match ReactivateCounterV1::try_from(program_id, accounts, args) {
            Err(e) => Err(InstructionFailure::Instruction(InstructionError::from_reactivate(e))),
            Ok(ix) => match ix.execute(&accounts[1], rent) {
                Err(e) => Err(InstructionFailure::Instruction(InstructionError::from_reactivate(e))),
                Ok(effects) => Ok(effects),
            },
        },
    }
}

/// Runs an instruction on the host model: plans it, then carries out its
/// effects on the authority (first) and storage (second) accounts. Where the
/// plan fails, no account is touched.
pub fn process_instruction(program_id: &Address, accounts: &mut Vec<AccountView>, instruction_data: &[u8], rent: &RentMinimums)
    -> (r: Result<(), ProgramError>)
    ensures
        match counter_outcome(*program_id, old(accounts)@, instruction_data@, *rent) {
            Ok((a, s)) => r is Ok && final(accounts)@.len() == old(accounts)@.len() && final(accounts)@[0]@ == a
                && final(accounts)@[1]@ == s
                && forall|i: int| 2 <= i < old(accounts)@.len() ==> final(accounts)@[i] == old(accounts)@[i],
            Err(e) => r == Err::<(), ProgramError>(e),
        },
        counter_plan(*program_id, old(accounts)@, instruction_data@, *rent) is Err ==> final(accounts)@ == old(accounts)@,
{
    let effects = plan_instruction(program_id, accounts.as_slice(), instruction_data, rent)?;
    let ghost before = accounts@;
    let mut storage = accounts.remove(1);
    let mut authority = accounts.remove(0);
    let applied = apply_effects(program_id, &mut authority, &mut storage, &effects);
    accounts.insert(0, authority);
    accounts.insert(1, storage);
    proof {
        assert forall|i: int| 2 <= i < before.len() implies accounts@[i] == before[i] by {
            assert(accounts@[i] == before[i]);
        }
    }
    applied
}

} // verus!
