use pinocchio_counter::basic_counter::CounterError;
use pinocchio_counter::codec::DecodeError;
use pinocchio_counter::counter::account_discriminator::{AccountDiscriminator, AccountDiscriminatorError};
use pinocchio_counter::counter::error::InstructionError;
use pinocchio_counter::counter::instructions::{
    CountUpdateV1Error, DeactivateCounterV1Error, InitializeCounterV1Error, ReactivateCounterV1Error,
};
use pinocchio_counter::counter::instructions_discriminator::InstructionDiscriminatorError;
use pinocchio_counter::vault::error::InstructionError as VaultInstructionError;
use pinocchio_counter::vault::instructions::{
    DeactivateVaultV1Error, DepositV1Error, InitializeVaultV1Error, ReactivateVaultV1Error, WithdrawV1Error,
};
use pinocchio_counter::ProgramError;

#[test]
fn test_instruction_discriminator_error_codes() {
    let test_cases = [
        (0x001, InstructionDiscriminatorError::Missing),
        (0x002, InstructionDiscriminatorError::Invalid(u8::MAX)),
    ];
    for (expected_code, error) in test_cases {
        let program_error: ProgramError = error.into();
        assert!(matches!(program_error, ProgramError::Custom(code) if code == expected_code));
    }
}

#[test]
fn test_instruction_error_codes() {
    let zero = [0u8; 32];
    let read_error = DecodeError::SizeMismatch { expected: 73, observed: 0 };
    let test_cases = [
        (0x101, InstructionError::InitializeCounterV1(InitializeCounterV1Error::NotEnoughAccounts { expected: 3, observed: 2 })),
        (0x102, InstructionError::InitializeCounterV1(InitializeCounterV1Error::PayerMustBeSigner)),
        (0x103, InstructionError::InitializeCounterV1(InitializeCounterV1Error::CounterMustBeWriteable)),
        (0x104, InstructionError::InitializeCounterV1(InitializeCounterV1Error::CounterAddressMismatch { expected: zero, observed: zero })),
        (0x105, InstructionError::InitializeCounterV1(InitializeCounterV1Error::CounterMustBeEmpty)),
        (0x106, InstructionError::InitializeCounterV1(InitializeCounterV1Error::CounterMustHaveZeroLamports)),
        (0x107, InstructionError::InitializeCounterV1(InitializeCounterV1Error::CounterMustBeOwnedBySystemProgram)),
        (0x108, InstructionError::InitializeCounterV1(InitializeCounterV1Error::SystemProgramAddressMismatch)),
        (0x109, InstructionError::InitializeCounterV1(InitializeCounterV1Error::DeserializeError(read_error))),
        (0x10a, InstructionError::InitializeCounterV1(InitializeCounterV1Error::SerializeError)),
        (0x10b, InstructionError::InitializeCounterV1(InitializeCounterV1Error::SerializedSizeMismatch { expected: 100, observed: 50 })),
        (0x201, InstructionError::DeactivateCounterV1(DeactivateCounterV1Error::NotEnoughAccounts { expected: 2, observed: 1 })),
        (0x202, InstructionError::DeactivateCounterV1(DeactivateCounterV1Error::OwnerMustBeSigner)),
        (0x203, InstructionError::DeactivateCounterV1(DeactivateCounterV1Error::OwnerMustBeWriteable)),
        (0x204, InstructionError::DeactivateCounterV1(DeactivateCounterV1Error::CounterMustBeWriteable)),
        (0x205, InstructionError::DeactivateCounterV1(DeactivateCounterV1Error::CounterAddressMismatch { expected: zero, observed: zero })),
        (0x208, InstructionError::DeactivateCounterV1(DeactivateCounterV1Error::DeserializeError(read_error))),
        (0x20b, InstructionError::DeactivateCounterV1(DeactivateCounterV1Error::AccountDiscriminatorError(AccountDiscriminatorError::Missing))),
        (0x301, InstructionError::IncrementCountV1(CountUpdateV1Error::NotEnoughAccounts { expected: 2, observed: 1 })),
        (0x302, InstructionError::IncrementCountV1(CountUpdateV1Error::OwnerMustBeSigner)),
        (0x304, InstructionError::IncrementCountV1(CountUpdateV1Error::CounterMustBeWriteable)),
        (0x305, InstructionError::IncrementCountV1(CountUpdateV1Error::CounterAddressMismatch { expected: zero, observed: zero })),
        (0x307, InstructionError::IncrementCountV1(CountUpdateV1Error::DeserializeError(read_error))),
        (0x308, InstructionError::IncrementCountV1(CountUpdateV1Error::SerializeError)),
        (0x30a, InstructionError::IncrementCountV1(CountUpdateV1Error::SerializedSizeMismatch { expected: 100, observed: 50 })),
        (0x30b, InstructionError::IncrementCountV1(CountUpdateV1Error::AccountDiscriminatorError(
            AccountDiscriminatorError::DiscriminatorMismatch {
                expected: AccountDiscriminator::CounterV1Account,
                observed: AccountDiscriminator::DeactivatedAccount,
            },
        ))),
        (0x401, InstructionError::DecrementCountV1(CountUpdateV1Error::NotEnoughAccounts { expected: 2, observed: 1 })),
        (0x402, InstructionError::DecrementCountV1(CountUpdateV1Error::OwnerMustBeSigner)),
        (0x404, InstructionError::DecrementCountV1(CountUpdateV1Error::CounterMustBeWriteable)),
        (0x405, InstructionError::DecrementCountV1(CountUpdateV1Error::CounterAddressMismatch { expected: zero, observed: zero })),
        (0x407, InstructionError::DecrementCountV1(CountUpdateV1Error::DeserializeError(read_error))),
        (0x408, InstructionError::DecrementCountV1(CountUpdateV1Error::SerializeError)),
        (0x40a, InstructionError::DecrementCountV1(CountUpdateV1Error::SerializedSizeMismatch { expected: 100, observed: 50 })),
        (0x40b, InstructionError::DecrementCountV1(CountUpdateV1Error::AccountDiscriminatorError(AccountDiscriminatorError::Invalid(0)))),
        (0x501, InstructionError::SetCountV1(CountUpdateV1Error::NotEnoughAccounts { expected: 2, observed: 1 })),
        (0x502, InstructionError::SetCountV1(CountUpdateV1Error::OwnerMustBeSigner)),
        (0x504, InstructionError::SetCountV1(CountUpdateV1Error::CounterMustBeWriteable)),
        (0x505, InstructionError::SetCountV1(CountUpdateV1Error::CounterAddressMismatch { expected: zero, observed: zero })),
        (0x507, InstructionError::SetCountV1(CountUpdateV1Error::DeserializeError(read_error))),
        (0x508, InstructionError::SetCountV1(CountUpdateV1Error::SerializeError)),
        (0x50a, InstructionError::SetCountV1(CountUpdateV1Error::SerializedSizeMismatch { expected: 100, observed: 50 })),
        (0x50b, InstructionError::SetCountV1(CountUpdateV1Error::AccountDiscriminatorError(AccountDiscriminatorError::Missing))),
        (0x601, InstructionError::ReactivateCounterV1(ReactivateCounterV1Error::NotEnoughAccounts { expected: 3, observed: 2 })),
        (0x602, InstructionError::ReactivateCounterV1(ReactivateCounterV1Error::PayerMustBeSigner)),
        (0x603, InstructionError::ReactivateCounterV1(ReactivateCounterV1Error::CounterMustBeWriteable)),
        (0x604, InstructionError::ReactivateCounterV1(ReactivateCounterV1Error::CounterAddressMismatch { expected: zero, observed: zero })),
        (0x606, InstructionError::ReactivateCounterV1(ReactivateCounterV1Error::SystemProgramAddressMismatch)),
        (0x607, InstructionError::ReactivateCounterV1(ReactivateCounterV1Error::DeserializeError(read_error))),
        (0x608, InstructionError::ReactivateCounterV1(ReactivateCounterV1Error::SerializeError)),
        (0x60a, InstructionError::ReactivateCounterV1(ReactivateCounterV1Error::SerializedSizeMismatch { expected: 100, observed: 50 })),
        (0x60b, InstructionError::ReactivateCounterV1(ReactivateCounterV1Error::AccountDiscriminatorError(AccountDiscriminatorError::Missing))),
    ];
    for (expected_code, error) in test_cases {
        let program_error: ProgramError = error.into();
        assert!(
            matches!(program_error, ProgramError::Custom(code) if code == expected_code),
            "Expected error code {expected_code:#x}, got {program_error:?}"
        );
    }
}

#[test]
fn host_errors_pass_through_unchanged() {
    let program_error: ProgramError =
        InstructionError::from_initialize(InitializeCounterV1Error::ProgramError(ProgramError::InvalidSeeds)).into();
    assert_eq!(program_error, ProgramError::InvalidSeeds);
    let program_error: ProgramError =
        InstructionError::from_increment(CountUpdateV1Error::ProgramError(ProgramError::InsufficientFunds)).into();
    assert_eq!(program_error, ProgramError::InsufficientFunds);
    let wrapped = InstructionError::from_set_count(CountUpdateV1Error::OwnerMustBeSigner);
    assert_eq!(wrapped, InstructionError::SetCountV1(CountUpdateV1Error::OwnerMustBeSigner));
}

#[test]
fn vault_instruction_error_codes() {
    let zero = [0u8; 32];
    let test_cases = [
        (0x101, VaultInstructionError::InitializeVaultV1(InitializeVaultV1Error::NotEnoughAccounts { expected: 3, observed: 2 })),
        (0x103, VaultInstructionError::InitializeVaultV1(InitializeVaultV1Error::PayerMustBeWriteable)),
        (0x106, VaultInstructionError::InitializeVaultV1(InitializeVaultV1Error::VaultMustBeEmpty)),
        (0x109, VaultInstructionError::InitializeVaultV1(InitializeVaultV1Error::SystemProgramAddressMismatch)),
        (0x10a, VaultInstructionError::InitializeVaultV1(InitializeVaultV1Error::SerializedSizeMismatch { expected: 34, observed: 0 })),
        (0x202, VaultInstructionError::DepositV1(DepositV1Error::OwnerMustBeSigner)),
        (0x206, VaultInstructionError::DepositV1(DepositV1Error::VaultMustBeOwnedByProgram)),
        (0x207, VaultInstructionError::DepositV1(DepositV1Error::SystemProgramAddressMismatch)),
        (0x209, VaultInstructionError::DepositV1(DepositV1Error::InvalidInstructionData)),
        (0x20a, VaultInstructionError::DepositV1(DepositV1Error::OwnerMismatch { expected: zero, observed: zero })),
        (0x305, VaultInstructionError::WithdrawV1(WithdrawV1Error::VaultAddressMismatch { expected: zero, observed: zero })),
        (0x30a, VaultInstructionError::WithdrawV1(WithdrawV1Error::InsufficientFunds { available: 1, requested: 2 })),
        (0x30b, VaultInstructionError::WithdrawV1(WithdrawV1Error::WouldViolateRentMinimum { available: 0, requested: 0, rent_minimum: 5 })),
        (0x401, VaultInstructionError::DeactivateVaultV1(DeactivateVaultV1Error::NotEnoughAccounts { expected: 2, observed: 3 })),
        (0x406, VaultInstructionError::DeactivateVaultV1(DeactivateVaultV1Error::AccountDiscriminatorError(
            pinocchio_counter::vault::account_discriminator::AccountDiscriminatorError::Missing,
        ))),
        (0x503, VaultInstructionError::ReactivateVaultV1(ReactivateVaultV1Error::PayerMustBeWriteable)),
        (0x507, VaultInstructionError::ReactivateVaultV1(ReactivateVaultV1Error::AccountDiscriminatorError(
            pinocchio_counter::vault::account_discriminator::AccountDiscriminatorError::Invalid(3),
        ))),
        (0x508, VaultInstructionError::ReactivateVaultV1(ReactivateVaultV1Error::SerializedSizeMismatch { expected: 34, observed: 1 })),
    ];
    for (expected_code, error) in test_cases {
        let program_error: ProgramError = error.into();
        assert_eq!(program_error, ProgramError::Custom(expected_code));
    }
}

#[test]
fn vault_operation_errors_are_tagged() {
    let tagged: VaultInstructionError = DepositV1Error::OwnerMustBeSigner.into();
    assert_eq!(tagged, VaultInstructionError::DepositV1(DepositV1Error::OwnerMustBeSigner));
    let host: VaultInstructionError = WithdrawV1Error::ProgramError(ProgramError::InvalidAccountData).into();
    assert_eq!(host, VaultInstructionError::ProgramError(ProgramError::InvalidAccountData));
}

#[test]
fn counter_error_messages_and_codes() {
    let cases = [
        (CounterError::CounterAddressMismatch, "Counter address must match", 1),
        (CounterError::CounterMustBeEmpty, "Counter must be empty", 2),
        (CounterError::CounterMustBeOwnedBySystemProgram, "Counter must be owned by system program", 3),
        (CounterError::CounterMustBeWriteable, "Counter must be writable", 4),
        (CounterError::CounterMustHaveZeroLamports, "Counter must have zero lamports", 5),
        (CounterError::InvalidInstructionDiscriminator(9), "Invalid instruction discriminator", 6),
        (CounterError::NotEnoughAccounts { expected: 3, observed: 1 }, "Not enough accounts", 7),
        (CounterError::PayerMustBeSigner, "Payer must be a signer", 8),
        (CounterError::SerializeError, "Serialization error", 9),
        (CounterError::SerializedSizeMismatch { expected: 1, observed: 2 }, "Serialized size mismatch", 10),
        (CounterError::SystemProgramAddressMismatch, "System program address must match", 11),
    ];
    for (error, message, code) in cases {
        assert_eq!(error.as_str(), message);
        assert_eq!(error.to_string(), message);
        assert_eq!(error.code(), code);
        assert_eq!(ProgramError::from(error), ProgramError::Custom(code));
    }
}
