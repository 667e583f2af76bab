//! The vault service's error taxonomy and its flat numeric export:
//! `operation offset + local code`.

use crate::account::ProgramError;
use crate::counter::error::custom;
use crate::vault::instructions::{
    DeactivateVaultV1Error, DepositV1Error, InitializeVaultV1Error, ReactivateVaultV1Error, WithdrawV1Error,
};
use crate::vault::instructions_discriminator::InstructionDiscriminatorError;
use vstd::prelude::*;

verus! {

pub const INSTRUCTION_DISCRIMINATOR_ERROR_OFFSET: u32 = 0x000;

pub const INITIALIZE_VAULT_V1_OFFSET: u32 = 0x100;

pub const DEPOSIT_V1_OFFSET: u32 = 0x200;

pub const WITHDRAW_V1_OFFSET: u32 = 0x300;

pub const DEACTIVATE_VAULT_V1_OFFSET: u32 = 0x400;

pub const REACTIVATE_VAULT_V1_OFFSET: u32 = 0x500;

/// A failed vault operation, tagged with the operation.
#[derive(Debug, Clone, Copy, PartialEq, Eq)]
pub enum InstructionError {
    ProgramError(ProgramError),
    InitializeVaultV1(InitializeVaultV1Error),
    DepositV1(DepositV1Error),
    WithdrawV1(WithdrawV1Error),
    DeactivateVaultV1(DeactivateVaultV1Error),
    ReactivateVaultV1(ReactivateVaultV1Error),
}

pub type InstructionResult<T> = Result<T, InstructionError>;

pub open spec fn initialize_vault_code(e: InitializeVaultV1Error) -> ProgramError {
    match e {
        InitializeVaultV1Error::ProgramError(pe) => pe,
        InitializeVaultV1Error::NotEnoughAccounts { .. } => custom(INITIALIZE_VAULT_V1_OFFSET, 0x01),
        InitializeVaultV1Error::PayerMustBeSigner => custom(INITIALIZE_VAULT_V1_OFFSET, 0x02),
        InitializeVaultV1Error::PayerMustBeWriteable => custom(INITIALIZE_VAULT_V1_OFFSET, 0x03),
        InitializeVaultV1Error::VaultMustBeWriteable => custom(INITIALIZE_VAULT_V1_OFFSET, 0x04),
        InitializeVaultV1Error::VaultAddressMismatch { .. } => custom(INITIALIZE_VAULT_V1_OFFSET, 0x05),
        InitializeVaultV1Error::VaultMustBeEmpty => custom(INITIALIZE_VAULT_V1_OFFSET, 0x06),
        InitializeVaultV1Error::VaultMustHaveZeroLamports => custom(INITIALIZE_VAULT_V1_OFFSET, 0x07),
        InitializeVaultV1Error::VaultMustBeOwnedBySystemProgram => custom(INITIALIZE_VAULT_V1_OFFSET, 0x08),
        InitializeVaultV1Error::SystemProgramAddressMismatch => custom(INITIALIZE_VAULT_V1_OFFSET, 0x09),
        InitializeVaultV1Error::SerializedSizeMismatch { .. } => custom(INITIALIZE_VAULT_V1_OFFSET, 0x0a),
    }
}

pub open spec fn deposit_code(e: DepositV1Error) -> ProgramError {
    match e {
        DepositV1Error::ProgramError(pe) => pe,
        DepositV1Error::NotEnoughAccounts { .. } => custom(DEPOSIT_V1_OFFSET, 0x01),
        DepositV1Error::OwnerMustBeSigner => custom(DEPOSIT_V1_OFFSET, 0x02),
        DepositV1Error::OwnerMustBeWriteable => custom(DEPOSIT_V1_OFFSET, 0x03),
        DepositV1Error::VaultMustBeWriteable => custom(DEPOSIT_V1_OFFSET, 0x04),
        DepositV1Error::VaultAddressMismatch { .. } => custom(DEPOSIT_V1_OFFSET, 0x05),
        DepositV1Error::VaultMustBeOwnedByProgram => custom(DEPOSIT_V1_OFFSET, 0x06),
        DepositV1Error::SystemProgramAddressMismatch => custom(DEPOSIT_V1_OFFSET, 0x07),
        DepositV1Error::AccountDiscriminatorError(_) => custom(DEPOSIT_V1_OFFSET, 0x08),
        DepositV1Error::InvalidInstructionData => custom(DEPOSIT_V1_OFFSET, 0x09),
        DepositV1Error::OwnerMismatch { .. } => custom(DEPOSIT_V1_OFFSET, 0x0a),
    }
}

pub open spec fn withdraw_code(e: WithdrawV1Error) -> ProgramError {
    match e {
        WithdrawV1Error::ProgramError(pe) => pe,
        WithdrawV1Error::NotEnoughAccounts { .. } => custom(WITHDRAW_V1_OFFSET, 0x01),
        WithdrawV1Error::OwnerMustBeSigner => custom(WITHDRAW_V1_OFFSET, 0x02),
        WithdrawV1Error::OwnerMustBeWriteable => custom(WITHDRAW_V1_OFFSET, 0x03),
        WithdrawV1Error::VaultMustBeWriteable => custom(WITHDRAW_V1_OFFSET, 0x04),
        WithdrawV1Error::VaultAddressMismatch { .. } => custom(WITHDRAW_V1_OFFSET, 0x05),
        WithdrawV1Error::VaultMustBeOwnedByProgram => custom(WITHDRAW_V1_OFFSET, 0x06),
        WithdrawV1Error::AccountDiscriminatorError(_) => custom(WITHDRAW_V1_OFFSET, 0x07),
        WithdrawV1Error::InvalidInstructionData => custom(WITHDRAW_V1_OFFSET, 0x08),
        WithdrawV1Error::OwnerMismatch { .. } => custom(WITHDRAW_V1_OFFSET, 0x09),
        WithdrawV1Error::InsufficientFunds { .. } => custom(WITHDRAW_V1_OFFSET, 0x0a),
        WithdrawV1Error::WouldViolateRentMinimum { .. } => custom(WITHDRAW_V1_OFFSET, 0x0b),
    }
}

pub open spec fn deactivate_vault_code(e: DeactivateVaultV1Error) -> ProgramError {
    match e {
        DeactivateVaultV1Error::ProgramError(pe) => pe,
        DeactivateVaultV1Error::NotEnoughAccounts { .. } => custom(DEACTIVATE_VAULT_V1_OFFSET, 0x01),
        DeactivateVaultV1Error::OwnerMustBeSigner => custom(DEACTIVATE_VAULT_V1_OFFSET, 0x02),
        DeactivateVaultV1Error::OwnerMustBeWriteable => custom(DEACTIVATE_VAULT_V1_OFFSET, 0x03),
        DeactivateVaultV1Error::VaultMustBeWriteable => custom(DEACTIVATE_VAULT_V1_OFFSET, 0x04),
        DeactivateVaultV1Error::VaultAddressMismatch { .. } => custom(DEACTIVATE_VAULT_V1_OFFSET, 0x05),
        DeactivateVaultV1Error::AccountDiscriminatorError(_) => custom(DEACTIVATE_VAULT_V1_OFFSET, 0x06),
    }
}

pub open spec fn reactivate_vault_code(e: ReactivateVaultV1Error) -> ProgramError {
    match e {
        ReactivateVaultV1Error::ProgramError(pe) => pe,
        ReactivateVaultV1Error::NotEnoughAccounts { .. } => custom(REACTIVATE_VAULT_V1_OFFSET, 0x01),
        ReactivateVaultV1Error::PayerMustBeSigner => custom(REACTIVATE_VAULT_V1_OFFSET, 0x02),
        ReactivateVaultV1Error::PayerMustBeWriteable => custom(REACTIVATE_VAULT_V1_OFFSET, 0x03),
        ReactivateVaultV1Error::VaultMustBeWriteable => custom(REACTIVATE_VAULT_V1_OFFSET, 0x04),
        ReactivateVaultV1Error::VaultAddressMismatch { .. } => custom(REACTIVATE_VAULT_V1_OFFSET, 0x05),
        ReactivateVaultV1Error::SystemProgramAddressMismatch => custom(REACTIVATE_VAULT_V1_OFFSET, 0x06),
        ReactivateVaultV1Error::AccountDiscriminatorError(_) => custom(REACTIVATE_VAULT_V1_OFFSET, 0x07),
        ReactivateVaultV1Error::SerializedSizeMismatch { .. } => custom(REACTIVATE_VAULT_V1_OFFSET, 0x08),
    }
}

/// The flat error that the caller sees for an operation's failure.
pub open spec fn instruction_error_code(e: InstructionError) -> ProgramError {
    match e {
        InstructionError::ProgramError(pe) => pe,
        InstructionError::InitializeVaultV1(e) => initialize_vault_code(e),
        InstructionError::DepositV1(e) => deposit_code(e),
        InstructionError::WithdrawV1(e) => withdraw_code(e),
        InstructionError::DeactivateVaultV1(e) => deactivate_vault_code(e),
        InstructionError::ReactivateVaultV1(e) => reactivate_vault_code(e),
    }
}

/// The flat error for an instruction that names no operation.
pub open spec fn discriminator_error_code(e: InstructionDiscriminatorError) -> ProgramError {
    match e {
        InstructionDiscriminatorError::Missing => custom(INSTRUCTION_DISCRIMINATOR_ERROR_OFFSET, 0x01),
        InstructionDiscriminatorError::Invalid(_) => custom(INSTRUCTION_DISCRIMINATOR_ERROR_OFFSET, 0x02),
    }
}

fn initialize_vault_error(e: InitializeVaultV1Error) -> (r: ProgramError)
    ensures
        r == initialize_vault_code(e),
{
    let local: u32 = match e {
        InitializeVaultV1Error::ProgramError(pe) => {
            return pe;
        },
        InitializeVaultV1Error::NotEnoughAccounts { .. } => 0x01,
        InitializeVaultV1Error::PayerMustBeSigner => 0x02,
        InitializeVaultV1Error::PayerMustBeWriteable => 0x03,
        InitializeVaultV1Error::VaultMustBeWriteable => 0x04,
        InitializeVaultV1Error::VaultAddressMismatch { .. } => 0x05,
        InitializeVaultV1Error::VaultMustBeEmpty => 0x06,
        InitializeVaultV1Error::VaultMustHaveZeroLamports => 0x07,
        InitializeVaultV1Error::VaultMustBeOwnedBySystemProgram => 0x08,
        InitializeVaultV1Error::SystemProgramAddressMismatch => 0x09,
        InitializeVaultV1Error::SerializedSizeMismatch { .. } => 0x0a,
    };
    ProgramError::Custom(INITIALIZE_VAULT_V1_OFFSET + local)
}

fn deposit_error(e: DepositV1Error) -> (r: ProgramError)
    ensures
        r == deposit_code(e),
{
    let local: u32 = match e {
        DepositV1Error::ProgramError(pe) => {
            return pe;
        },
        DepositV1Error::NotEnoughAccounts { .. } => 0x01,
        DepositV1Error::OwnerMustBeSigner => 0x02,
        DepositV1Error::OwnerMustBeWriteable => 0x03,
        DepositV1Error::VaultMustBeWriteable => 0x04,
        DepositV1Error::VaultAddressMismatch { .. } => 0x05,
        DepositV1Error::VaultMustBeOwnedByProgram => 0x06,
        DepositV1Error::SystemProgramAddressMismatch => 0x07,
        DepositV1Error::AccountDiscriminatorError(_) => 0x08,
        DepositV1Error::InvalidInstructionData => 0x09,
        DepositV1Error::OwnerMismatch { .. } => 0x0a,
    };
    ProgramError::Custom(DEPOSIT_V1_OFFSET + local)
}

fn withdraw_error(e: WithdrawV1Error) -> (r: ProgramError)
    ensures
        r == withdraw_code(e),
{
    let local: u32 = match e {
        WithdrawV1Error::ProgramError(pe) => {
            return pe;
        },
        WithdrawV1Error::NotEnoughAccounts { .. } => 0x01,
        WithdrawV1Error::OwnerMustBeSigner => 0x02,
        WithdrawV1Error::OwnerMustBeWriteable => 0x03,
        WithdrawV1Error::VaultMustBeWriteable => 0x04,
        WithdrawV1Error::VaultAddressMismatch { .. } => 0x05,
        WithdrawV1Error::VaultMustBeOwnedByProgram => 0x06,
        WithdrawV1Error::AccountDiscriminatorError(_) => 0x07,
        WithdrawV1Error::InvalidInstructionData => 0x08,
        WithdrawV1Error::OwnerMismatch { .. } => 0x09,
        WithdrawV1Error::InsufficientFunds { .. } => 0x0a,
        WithdrawV1Error::WouldViolateRentMinimum { .. } => 0x0b,
    };
    ProgramError::Custom(WITHDRAW_V1_OFFSET + local)
}

fn deactivate_vault_error(e: DeactivateVaultV1Error) -> (r: ProgramError)
    ensures
        r == deactivate_vault_code(e),
{
    let local: u32 = match e {
        DeactivateVaultV1Error::ProgramError(pe) => {
            return pe;
        },
        DeactivateVaultV1Error::NotEnoughAccounts { .. } => 0x01,
        DeactivateVaultV1Error::OwnerMustBeSigner => 0x02,
        DeactivateVaultV1Error::OwnerMustBeWriteable => 0x03,
        DeactivateVaultV1Error::VaultMustBeWriteable => 0x04,
        DeactivateVaultV1Error::VaultAddressMismatch { .. } => 0x05,
        DeactivateVaultV1Error::AccountDiscriminatorError(_) => 0x06,
    };
    ProgramError::Custom(DEACTIVATE_VAULT_V1_OFFSET + local)
}

fn reactivate_vault_error(e: ReactivateVaultV1Error) -> (r: ProgramError)
    ensures
        r == reactivate_vault_code(e),
{
    let local: u32 = match e {
        ReactivateVaultV1Error::ProgramError(pe) => {
            return pe;
        },
        ReactivateVaultV1Error::NotEnoughAccounts { .. } => 0x01,
        ReactivateVaultV1Error::PayerMustBeSigner => 0x02,
        ReactivateVaultV1Error::PayerMustBeWriteable => 0x03,
        ReactivateVaultV1Error::VaultMustBeWriteable => 0x04,
        ReactivateVaultV1Error::VaultAddressMismatch { .. } => 0x05,
        ReactivateVaultV1Error::SystemProgramAddressMismatch => 0x06,
        ReactivateVaultV1Error::AccountDiscriminatorError(_) => 0x07,
        ReactivateVaultV1Error::SerializedSizeMismatch { .. } => 0x08,
    };
    ProgramError::Custom(REACTIVATE_VAULT_V1_OFFSET + local)
}

impl From<InstructionError> for ProgramError {
    /// Flattens an operation's failure into the caller-visible error: host
    /// errors pass through, the others become `Custom(offset + local code)`.
    fn from(e: InstructionError) -> (r: ProgramError) {
        match e {
            InstructionError::ProgramError(pe) => pe,
            InstructionError::InitializeVaultV1(e) => initialize_vault_error(e),
            InstructionError::DepositV1(e) => deposit_error(e),
            InstructionError::WithdrawV1(e) => withdraw_error(e),
            InstructionError::DeactivateVaultV1(e) => deactivate_vault_error(e),
            InstructionError::ReactivateVaultV1(e) => reactivate_vault_error(e),
        }
    }
}

impl vstd::std_specs::convert::FromSpecImpl<InstructionError> for ProgramError {
    open spec fn obeys_from_spec() -> bool {
        true
    }

    open spec fn from_spec(v: InstructionError) -> ProgramError {
        instruction_error_code(v)
    }
}

impl From<InstructionDiscriminatorError> for ProgramError {
    fn from(e: InstructionDiscriminatorError) -> (r: ProgramError) {
        let local: u32 = match e {
            InstructionDiscriminatorError::Missing => 0x01,
            InstructionDiscriminatorError::Invalid(_) => 0x02,
        };
        ProgramError::Custom(INSTRUCTION_DISCRIMINATOR_ERROR_OFFSET + local)
    }
}

impl vstd::std_specs::convert::FromSpecImpl<InstructionDiscriminatorError> for ProgramError {
    open spec fn obeys_from_spec() -> bool {
        true
    }

    open spec fn from_spec(v: InstructionDiscriminatorError) -> ProgramError {
        discriminator_error_code(v)
    }
}

impl From<InitializeVaultV1Error> for InstructionError {
    /// Tags an initialize failure; a host error stays a host error.
    fn from(e: InitializeVaultV1Error) -> (r: InstructionError) {
        match e {
            InitializeVaultV1Error::ProgramError(pe) => InstructionError::ProgramError(pe),
            _ => InstructionError::InitializeVaultV1(e),
        }
    }
}

impl vstd::std_specs::convert::FromSpecImpl<InitializeVaultV1Error> for InstructionError {
    open spec fn obeys_from_spec() -> bool {
        true
    }

    open spec fn from_spec(e: InitializeVaultV1Error) -> InstructionError {
        match e {
            InitializeVaultV1Error::ProgramError(pe) => InstructionError::ProgramError(pe),
            _ => InstructionError::InitializeVaultV1(e),
        }
    }
}

impl From<DepositV1Error> for InstructionError {
    /// Tags a deposit failure; a host error stays a host error.
    fn from(e: DepositV1Error) -> (r: InstructionError) {
        match e {
            DepositV1Error::ProgramError(pe) => InstructionError::ProgramError(pe),
            _ => InstructionError::DepositV1(e),
        }
    }
}

impl vstd::std_specs::convert::FromSpecImpl<DepositV1Error> for InstructionError {
    open spec fn obeys_from_spec() -> bool {
        true
    }

    open spec fn from_spec(e: DepositV1Error) -> InstructionError {
        match e {
            DepositV1Error::ProgramError(pe) => InstructionError::ProgramError(pe),
            _ => InstructionError::DepositV1(e),
        }
    }
}

impl From<WithdrawV1Error> for InstructionError {
    /// Tags a withdraw failure; a host error stays a host error.
    fn from(e: WithdrawV1Error) -> (r: InstructionError) {
        match e {
            WithdrawV1Error::ProgramError(pe) => InstructionError::ProgramError(pe),
            _ => InstructionError::WithdrawV1(e),
        }
    }
}

impl vstd::std_specs::convert::FromSpecImpl<WithdrawV1Error> for InstructionError {
    open spec fn obeys_from_spec() -> bool {
        true
    }

    open spec fn from_spec(e: WithdrawV1Error) -> InstructionError {
        match e {
            WithdrawV1Error::ProgramError(pe) => InstructionError::ProgramError(pe),
            _ => InstructionError::WithdrawV1(e),
        }
    }
}

impl From<DeactivateVaultV1Error> for InstructionError {
    /// Tags a deactivate failure; a host error stays a host error.
    fn from(e: DeactivateVaultV1Error) -> (r: InstructionError) {
        match e {
            DeactivateVaultV1Error::ProgramError(pe) => InstructionError::ProgramError(pe),
            _ => InstructionError::DeactivateVaultV1(e),
        }
    }
}

impl vstd::std_specs::convert::FromSpecImpl<DeactivateVaultV1Error> for InstructionError {
    open spec fn obeys_from_spec() -> bool {
        true
    }

    open spec fn from_spec(e: DeactivateVaultV1Error) -> InstructionError {
        match e {
            DeactivateVaultV1Error::ProgramError(pe) => InstructionError::ProgramError(pe),
            _ => InstructionError::DeactivateVaultV1(e),
        }
    }
}

impl From<ReactivateVaultV1Error> for InstructionError {
    /// Tags a reactivate failure; a host error stays a host error.
    fn from(e: ReactivateVaultV1Error) -> (r: InstructionError) {
        match e {
            ReactivateVaultV1Error::ProgramError(pe) => InstructionError::ProgramError(pe),
            _ => InstructionError::ReactivateVaultV1(e),
        }
    }
}

impl vstd::std_specs::convert::FromSpecImpl<ReactivateVaultV1Error> for InstructionError {
    open spec fn obeys_from_spec() -> bool {
        true
    }

    open spec fn from_spec(e: ReactivateVaultV1Error) -> InstructionError {
        match e {
            ReactivateVaultV1Error::ProgramError(pe) => InstructionError::ProgramError(pe),
            _ => InstructionError::ReactivateVaultV1(e),
        }
    }
}

/// Why an instruction fails, before it is flattened: it names no operation,
/// or the named operation fails.
#[derive(Debug, Clone, Copy, PartialEq, Eq)]
pub enum InstructionFailure {
    Discriminator(InstructionDiscriminatorError),
    Instruction(InstructionError),
}

/// The flat error that the caller sees for a failure.
pub open spec fn failure_code(f: InstructionFailure) -> ProgramError {
    match f {
        InstructionFailure::Discriminator(e) => discriminator_error_code(e),
        InstructionFailure::Instruction(e) => instruction_error_code(e),
    }
}

impl From<InstructionFailure> for ProgramError {
    fn from(f: InstructionFailure) -> (r: ProgramError) {
        match f {
            InstructionFailure::Discriminator(e) => ProgramError::from(e),
            InstructionFailure::Instruction(e) => ProgramError::from(e),
        }
    }
}

impl vstd::std_specs::convert::FromSpecImpl<InstructionFailure> for ProgramError {
    open spec fn obeys_from_spec() -> bool {
        true
    }

    open spec fn from_spec(f: InstructionFailure) -> ProgramError {
        failure_code(f)
    }
}

} // verus!
