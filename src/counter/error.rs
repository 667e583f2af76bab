//! The counter service's error taxonomy and its flat numeric export:
//! `operation offset + local code`, with retired local codes left as gaps.

use crate::account::ProgramError;
use crate::counter::instructions::{
    CountUpdateV1Error, DeactivateCounterV1Error, InitializeCounterV1Error, ReactivateCounterV1Error,
};
use crate::counter::instructions_discriminator::InstructionDiscriminatorError;
use vstd::prelude::*;

verus! {

pub const INSTRUCTION_DISCRIMINATOR_ERROR_OFFSET: u32 = 0x000;

pub const INITIALIZE_COUNTER_V1_OFFSET: u32 = 0x100;

pub const DEACTIVATE_COUNTER_V1_OFFSET: u32 = 0x200;

pub const INCREMENT_COUNT_V1_OFFSET: u32 = 0x300;

pub const DECREMENT_COUNT_V1_OFFSET: u32 = 0x400;

pub const SET_COUNT_V1_OFFSET: u32 = 0x500;

pub const REACTIVATE_COUNTER_V1_OFFSET: u32 = 0x600;

/// A failed counter operation, tagged with the operation.
#[derive(Debug, Clone, Copy, PartialEq, Eq)]
pub enum InstructionError {
    ProgramError(ProgramError),
    InitializeCounterV1(InitializeCounterV1Error),
    DeactivateCounterV1(DeactivateCounterV1Error),
    IncrementCountV1(CountUpdateV1Error),
    DecrementCountV1(CountUpdateV1Error),
    SetCountV1(CountUpdateV1Error),
    ReactivateCounterV1(ReactivateCounterV1Error),
}

pub type InstructionResult<T> = Result<T, InstructionError>;

/// The service-defined error `offset + local`.
pub open spec fn custom(offset: u32, local: u32) -> ProgramError {
    ProgramError::Custom((offset + local) as u32)
}

/// The local code of each initialize error (host errors pass through).
pub open spec fn initialize_counter_code(e: InitializeCounterV1Error) -> ProgramError {
    match e {
        InitializeCounterV1Error::ProgramError(pe) => pe,
        InitializeCounterV1Error::NotEnoughAccounts { .. } => custom(INITIALIZE_COUNTER_V1_OFFSET, 0x01),
        InitializeCounterV1Error::PayerMustBeSigner => custom(INITIALIZE_COUNTER_V1_OFFSET, 0x02),
        InitializeCounterV1Error::CounterMustBeWriteable => custom(INITIALIZE_COUNTER_V1_OFFSET, 0x03),
        InitializeCounterV1Error::CounterAddressMismatch { .. } => custom(INITIALIZE_COUNTER_V1_OFFSET, 0x04),
        InitializeCounterV1Error::CounterMustBeEmpty => custom(INITIALIZE_COUNTER_V1_OFFSET, 0x05),
        InitializeCounterV1Error::CounterMustHaveZeroLamports => custom(INITIALIZE_COUNTER_V1_OFFSET, 0x06),
        InitializeCounterV1Error::CounterMustBeOwnedBySystemProgram => custom(INITIALIZE_COUNTER_V1_OFFSET, 0x07),
        InitializeCounterV1Error::SystemProgramAddressMismatch => custom(INITIALIZE_COUNTER_V1_OFFSET, 0x08),
        InitializeCounterV1Error::DeserializeError(_) => custom(INITIALIZE_COUNTER_V1_OFFSET, 0x09),
        InitializeCounterV1Error::SerializeError => custom(INITIALIZE_COUNTER_V1_OFFSET, 0x0a),
        InitializeCounterV1Error::SerializedSizeMismatch { .. } => custom(INITIALIZE_COUNTER_V1_OFFSET, 0x0b),
    }
}

/// The local code of each deactivate error; 0x06, 0x07, 0x09 and 0x0a are
/// retired.
pub open spec fn deactivate_counter_code(e: DeactivateCounterV1Error) -> ProgramError {
    match e {
        DeactivateCounterV1Error::ProgramError(pe) => pe,
        DeactivateCounterV1Error::NotEnoughAccounts { .. } => custom(DEACTIVATE_COUNTER_V1_OFFSET, 0x01),
        DeactivateCounterV1Error::OwnerMustBeSigner => custom(DEACTIVATE_COUNTER_V1_OFFSET, 0x02),
        DeactivateCounterV1Error::OwnerMustBeWriteable => custom(DEACTIVATE_COUNTER_V1_OFFSET, 0x03),
        DeactivateCounterV1Error::CounterMustBeWriteable => custom(DEACTIVATE_COUNTER_V1_OFFSET, 0x04),
        DeactivateCounterV1Error::CounterAddressMismatch { .. } => custom(DEACTIVATE_COUNTER_V1_OFFSET, 0x05),
        DeactivateCounterV1Error::DeserializeError(_) => custom(DEACTIVATE_COUNTER_V1_OFFSET, 0x08),
        DeactivateCounterV1Error::AccountDiscriminatorError(_) => custom(DEACTIVATE_COUNTER_V1_OFFSET, 0x0b),
    }
}

/// The local code of each count-update error under `offset`; 0x03, 0x06 and
/// 0x09 are retired.
pub open spec fn count_update_code(offset: u32, e: CountUpdateV1Error) -> ProgramError {
    match e {
        CountUpdateV1Error::ProgramError(pe) => pe,
        CountUpdateV1Error::NotEnoughAccounts { .. } => custom(offset, 0x01),
        CountUpdateV1Error::OwnerMustBeSigner => custom(offset, 0x02),
        CountUpdateV1Error::CounterMustBeWriteable => custom(offset, 0x04),
        CountUpdateV1Error::CounterAddressMismatch { .. } => custom(offset, 0x05),
        CountUpdateV1Error::DeserializeError(_) => custom(offset, 0x07),
        CountUpdateV1Error::SerializeError => custom(offset, 0x08),
        CountUpdateV1Error::SerializedSizeMismatch { .. } => custom(offset, 0x0a),
        CountUpdateV1Error::AccountDiscriminatorError(_) => custom(offset, 0x0b),
    }
}

/// The local code of each reactivate error; 0x05 and 0x09 are retired.
pub open spec fn reactivate_counter_code(e: ReactivateCounterV1Error) -> ProgramError {
    match e {
        ReactivateCounterV1Error::ProgramError(pe) => pe,
        ReactivateCounterV1Error::NotEnoughAccounts { .. } => custom(REACTIVATE_COUNTER_V1_OFFSET, 0x01),
        ReactivateCounterV1Error::PayerMustBeSigner => custom(REACTIVATE_COUNTER_V1_OFFSET, 0x02),
        ReactivateCounterV1Error::CounterMustBeWriteable => custom(REACTIVATE_COUNTER_V1_OFFSET, 0x03),
        ReactivateCounterV1Error::CounterAddressMismatch { .. } => custom(REACTIVATE_COUNTER_V1_OFFSET, 0x04),
        ReactivateCounterV1Error::SystemProgramAddressMismatch => custom(REACTIVATE_COUNTER_V1_OFFSET, 0x06),
        ReactivateCounterV1Error::DeserializeError(_) => custom(REACTIVATE_COUNTER_V1_OFFSET, 0x07),
        ReactivateCounterV1Error::SerializeError => custom(REACTIVATE_COUNTER_V1_OFFSET, 0x08),
        ReactivateCounterV1Error::SerializedSizeMismatch { .. } => custom(REACTIVATE_COUNTER_V1_OFFSET, 0x0a),
        ReactivateCounterV1Error::AccountDiscriminatorError(_) => custom(REACTIVATE_COUNTER_V1_OFFSET, 0x0b),
    }
}

/// The flat error that the caller sees for an operation's failure.
pub open spec fn instruction_error_code(e: InstructionError) -> ProgramError {
    match e {
        InstructionError::ProgramError(pe) => pe,
        InstructionError::InitializeCounterV1(e) => initialize_counter_code(e),
        InstructionError::DeactivateCounterV1(e) => deactivate_counter_code(e),
        InstructionError::IncrementCountV1(e) => count_update_code(INCREMENT_COUNT_V1_OFFSET, e),
        InstructionError::DecrementCountV1(e) => count_update_code(DECREMENT_COUNT_V1_OFFSET, e),
        InstructionError::SetCountV1(e) => count_update_code(SET_COUNT_V1_OFFSET, e),
        InstructionError::ReactivateCounterV1(e) => reactivate_counter_code(e),
    }
}

/// The flat error for an instruction that names no operation.
pub open spec fn discriminator_error_code(e: InstructionDiscriminatorError) -> ProgramError {
    match e {
        InstructionDiscriminatorError::Missing => custom(INSTRUCTION_DISCRIMINATOR_ERROR_OFFSET, 0x01),
        InstructionDiscriminatorError::Invalid(_) => custom(INSTRUCTION_DISCRIMINATOR_ERROR_OFFSET, 0x02),
    }
}

fn initialize_counter_error(e: InitializeCounterV1Error) -> (r: ProgramError)
    ensures
        r == initialize_counter_code(e),
{
    let local: u32 = match e {
        InitializeCounterV1Error::ProgramError(pe) => {
            return pe;
        },
        InitializeCounterV1Error::NotEnoughAccounts { .. } => 0x01,
        InitializeCounterV1Error::PayerMustBeSigner => 0x02,
        InitializeCounterV1Error::CounterMustBeWriteable => 0x03,
        InitializeCounterV1Error::CounterAddressMismatch { .. } => 0x04,
        InitializeCounterV1Error::CounterMustBeEmpty => 0x05,
        InitializeCounterV1Error::CounterMustHaveZeroLamports => 0x06,
        InitializeCounterV1Error::CounterMustBeOwnedBySystemProgram => 0x07,
        InitializeCounterV1Error::SystemProgramAddressMismatch => 0x08,
        InitializeCounterV1Error::DeserializeError(_) => 0x09,
        InitializeCounterV1Error::SerializeError => 0x0a,
        InitializeCounterV1Error::SerializedSizeMismatch { .. } => 0x0b,
    };
    ProgramError::Custom(INITIALIZE_COUNTER_V1_OFFSET + local)
}

fn deactivate_counter_error(e: DeactivateCounterV1Error) -> (r: ProgramError)
    ensures
        r == deactivate_counter_code(e),
{
    let local: u32 = match e {
        DeactivateCounterV1Error::ProgramError(pe) => {
            return pe;
        },
        DeactivateCounterV1Error::NotEnoughAccounts { .. } => 0x01,
        DeactivateCounterV1Error::OwnerMustBeSigner => 0x02,
        DeactivateCounterV1Error::OwnerMustBeWriteable => 0x03,
        DeactivateCounterV1Error::CounterMustBeWriteable => 0x04,
        DeactivateCounterV1Error::CounterAddressMismatch { .. } => 0x05,
        DeactivateCounterV1Error::DeserializeError(_) => 0x08,
        DeactivateCounterV1Error::AccountDiscriminatorError(_) => 0x0b,
    };
    ProgramError::Custom(DEACTIVATE_COUNTER_V1_OFFSET + local)
}

fn count_update_error(offset: u32, e: CountUpdateV1Error) -> (r: ProgramError)
    requires
        offset <= 0x600,
    ensures
        r == count_update_code(offset, e),
{
    let local: u32 = match e {
        CountUpdateV1Error::ProgramError(pe) => {
            return pe;
        },
        CountUpdateV1Error::NotEnoughAccounts { .. } => 0x01,
        CountUpdateV1Error::OwnerMustBeSigner => 0x02,
        CountUpdateV1Error::CounterMustBeWriteable => 0x04,
        CountUpdateV1Error::CounterAddressMismatch { .. } => 0x05,
        CountUpdateV1Error::DeserializeError(_) => 0x07,
        CountUpdateV1Error::SerializeError => 0x08,
        CountUpdateV1Error::SerializedSizeMismatch { .. } => 0x0a,
        CountUpdateV1Error::AccountDiscriminatorError(_) => 0x0b,
    };
    ProgramError::Custom(offset + local)
}

fn reactivate_counter_error(e: ReactivateCounterV1Error) -> (r: ProgramError)
    ensures
        r == reactivate_counter_code(e),
{
    let local: u32 = match e {
        ReactivateCounterV1Error::ProgramError(pe) => {
            return pe;
        },
        ReactivateCounterV1Error::NotEnoughAccounts { .. } => 0x01,
        ReactivateCounterV1Error::PayerMustBeSigner => 0x02,
        ReactivateCounterV1Error::CounterMustBeWriteable => 0x03,
        ReactivateCounterV1Error::CounterAddressMismatch { .. } => 0x04,
        ReactivateCounterV1Error::SystemProgramAddressMismatch => 0x06,
        ReactivateCounterV1Error::DeserializeError(_) => 0x07,
        ReactivateCounterV1Error::SerializeError => 0x08,
        ReactivateCounterV1Error::SerializedSizeMismatch { .. } => 0x0a,
        ReactivateCounterV1Error::AccountDiscriminatorError(_) => 0x0b,
    };
    ProgramError::Custom(REACTIVATE_COUNTER_V1_OFFSET + local)
}

impl From<InstructionError> for ProgramError {
    /// Flattens an operation's failure into the caller-visible error: host
    /// errors pass through, the others become `Custom(offset + local code)`.
    fn from(e: InstructionError) -> (r: ProgramError) {
        match e {
            InstructionError::ProgramError(pe) => pe,
            InstructionError::InitializeCounterV1(e) => initialize_counter_error(e),
            InstructionError::DeactivateCounterV1(e) => deactivate_counter_error(e),
            InstructionError::IncrementCountV1(e) => count_update_error(INCREMENT_COUNT_V1_OFFSET, e),
            InstructionError::DecrementCountV1(e) => count_update_error(DECREMENT_COUNT_V1_OFFSET, e),
            InstructionError::SetCountV1(e) => count_update_error(SET_COUNT_V1_OFFSET, e),
            InstructionError::ReactivateCounterV1(e) => reactivate_counter_error(e),
        }
    }
}

impl vstd::std_specs::convert::FromSpecImpl<InstructionError> for ProgramError {
    open spec fn obeys_from_spec() -> bool {
        true
    }

    open spec fn from_spec(v: InstructionError) -> ProgramError {
        instruction_error_code(v)
    }
}

impl From<InstructionDiscriminatorError> for ProgramError {
    fn from(e: InstructionDiscriminatorError) -> (r: ProgramError) {
        let local: u32 = match e {
            InstructionDiscriminatorError::Missing => 0x01,
            InstructionDiscriminatorError::Invalid(_) => 0x02,
        };
        ProgramError::Custom(INSTRUCTION_DISCRIMINATOR_ERROR_OFFSET + local)
    }
}

impl vstd::std_specs::convert::FromSpecImpl<InstructionDiscriminatorError> for ProgramError {
    open spec fn obeys_from_spec() -> bool {
        true
    }

    open spec fn from_spec(v: InstructionDiscriminatorError) -> ProgramError {
        discriminator_error_code(v)
    }
}

impl InstructionError {
    /// Tags an initialize failure; a host error stays a host error.
    pub fn from_initialize(e: InitializeCounterV1Error) -> (r: InstructionError)
        ensures
            instruction_error_code(r) == initialize_counter_code(e),
    {
        match e {
            InitializeCounterV1Error::ProgramError(pe) => InstructionError::ProgramError(pe),
            _ => InstructionError::InitializeCounterV1(e),
        }
    }

    /// Tags a deactivate failure; a host error stays a host error.
    pub fn from_deactivate(e: DeactivateCounterV1Error) -> (r: InstructionError)
        ensures
            instruction_error_code(r) == deactivate_counter_code(e),
    {
        match e {
            DeactivateCounterV1Error::ProgramError(pe) => InstructionError::ProgramError(pe),
            _ => InstructionError::DeactivateCounterV1(e),
        }
    }

    /// Tags an increment failure; a host error stays a host error.
    pub fn from_increment(e: CountUpdateV1Error) -> (r: InstructionError)
        ensures
            instruction_error_code(r) == count_update_code(INCREMENT_COUNT_V1_OFFSET, e),
    {
        match e {
            CountUpdateV1Error::ProgramError(pe) => InstructionError::ProgramError(pe),
            _ => InstructionError::IncrementCountV1(e),
        }
    }

    /// Tags a decrement failure; a host error stays a host error.
    pub fn from_decrement(e: CountUpdateV1Error) -> (r: InstructionError)
        ensures
            instruction_error_code(r) == count_update_code(DECREMENT_COUNT_V1_OFFSET, e),
    {
        match e {
            CountUpdateV1Error::ProgramError(pe) => InstructionError::ProgramError(pe),
            _ => InstructionError::DecrementCountV1(e),
        }
    }

    /// Tags a set-count failure; a host error stays a host error.
    pub fn from_set_count(e: CountUpdateV1Error) -> (r: InstructionError)
        ensures
            instruction_error_code(r) == count_update_code(SET_COUNT_V1_OFFSET, e),
    {
        match e {
            CountUpdateV1Error::ProgramError(pe) => InstructionError::ProgramError(pe),
            _ => InstructionError::SetCountV1(e),
        }
    }

    /// Tags a reactivate failure; a host error stays a host error.
    pub fn from_reactivate(e: ReactivateCounterV1Error) -> (r: InstructionError)
        ensures
            instruction_error_code(r) == reactivate_counter_code(e),
    {
        match e {
            ReactivateCounterV1Error::ProgramError(pe) => InstructionError::ProgramError(pe),
            _ => InstructionError::ReactivateCounterV1(e),
        }
    }
}

/// Why an instruction fails, before it is flattened: it names no operation,
/// or the named operation fails.
#[derive(Debug, Clone, Copy, PartialEq, Eq)]
pub enum InstructionFailure {
    Discriminator(InstructionDiscriminatorError),
    Instruction(InstructionError),
}

/// The flat error that the caller sees for a failure.
pub open spec fn failure_code(f: InstructionFailure) -> ProgramError {
    match f {
        InstructionFailure::Discriminator(e) => discriminator_error_code(e),
        InstructionFailure::Instruction(e) => instruction_error_code(e),
    }
}

impl From<InstructionFailure> for ProgramError {
    fn from(f: InstructionFailure) -> (r: ProgramError) {
        match f {
            InstructionFailure::Discriminator(e) => ProgramError::from(e),
            InstructionFailure::Instruction(e) => ProgramError::from(e),
        }
    }
}

impl vstd::std_specs::convert::FromSpecImpl<InstructionFailure> for ProgramError {
    open spec fn obeys_from_spec() -> bool {
        true
    }

    open spec fn from_spec(f: InstructionFailure) -> ProgramError {
        failure_code(f)
    }
}

} // verus!
