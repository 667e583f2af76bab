//! The counter service's record kinds and the discriminator guard.

use crate::counter::state::COUNTER_V1_SIZE;
use vstd::prelude::*;

verus! {

/// The kind of record a counter storage account holds, by its leading byte.
#[derive(Debug, Clone, Copy, PartialEq, Eq, Structural)]
pub enum AccountDiscriminator {
    /// An active counter record (byte 1).
    CounterV1Account,
    /// A deactivated account (byte 255).
    DeactivatedAccount,
}

/// Why a buffer fails the discriminator guard.
#[derive(Debug, Clone, Copy, PartialEq, Eq, Structural)]
pub enum AccountDiscriminatorError {
    Missing,
    DiscriminatorMismatch { expected: AccountDiscriminator, observed: AccountDiscriminator },
    SerializedSizeMismatch { expected: usize, observed: usize },
    Invalid(u8),
}

/// The size of a deactivated account: its discriminator only.
pub const DEACTIVATED_ACCOUNT_SIZE: usize = 1;

/// The byte that marks an active counter record.
pub const COUNTER_V1_ACCOUNT_TAG: u8 = 1;

/// The byte that marks a deactivated account.
pub const DEACTIVATED_ACCOUNT_TAG: u8 = 255;

impl AccountDiscriminator {
    pub open spec fn spec_byte(self) -> u8 {
        match self {
            AccountDiscriminator::CounterV1Account => COUNTER_V1_ACCOUNT_TAG,
            AccountDiscriminator::DeactivatedAccount => DEACTIVATED_ACCOUNT_TAG,
        }
    }

    pub open spec fn spec_from_byte(byte: u8) -> Option<AccountDiscriminator> {
        if byte == COUNTER_V1_ACCOUNT_TAG {
            Some(AccountDiscriminator::CounterV1Account)
        } else if byte == DEACTIVATED_ACCOUNT_TAG {
            Some(AccountDiscriminator::DeactivatedAccount)
        } else {
            None
        }
    }

    pub open spec fn spec_account_size(self) -> usize {
        match self {
            AccountDiscriminator::CounterV1Account => COUNTER_V1_SIZE,
            AccountDiscriminator::DeactivatedAccount => DEACTIVATED_ACCOUNT_SIZE,
        }
    }

    /// The leading byte of this kind of record.
    pub fn to_byte(self) -> (r: u8)
        ensures
            r == self.spec_byte(),
    {
        match self {
            AccountDiscriminator::CounterV1Account => COUNTER_V1_ACCOUNT_TAG,
            AccountDiscriminator::DeactivatedAccount => DEACTIVATED_ACCOUNT_TAG,
        }
    }

    /// The kind that `byte` marks, or `Invalid(byte)`.
    pub fn try_from_byte(byte: u8) -> (r: Result<AccountDiscriminator, AccountDiscriminatorError>)
        ensures
            match Self::spec_from_byte(byte) {
                Some(d) => r == Ok::<AccountDiscriminator, AccountDiscriminatorError>(d),
                None => r == Err::<AccountDiscriminator, AccountDiscriminatorError>(AccountDiscriminatorError::Invalid(byte)),
            },
    {
        if byte == COUNTER_V1_ACCOUNT_TAG {
            Ok(AccountDiscriminator::CounterV1Account)
        } else if byte == DEACTIVATED_ACCOUNT_TAG {
            Ok(AccountDiscriminator::DeactivatedAccount)
        } else {
            Err(AccountDiscriminatorError::Invalid(byte))
        }
    }

    /// The fixed size of an account that holds this kind of record.
    pub fn expected_account_size(self) -> (r: usize)
        ensures
            r == self.spec_account_size(),
    {
        match self {
            AccountDiscriminator::CounterV1Account => COUNTER_V1_SIZE,
            AccountDiscriminator::DeactivatedAccount => DEACTIVATED_ACCOUNT_SIZE,
        }
    }

    /// What the guard decides for `data` when `expected` is the kind the
    /// caller needs: a missing byte, then an unknown byte, then another kind,
    /// then a wrong size, each fails in that order.
    pub open spec fn spec_check(expected: AccountDiscriminator, data: Seq<u8>) -> Result<(), AccountDiscriminatorError> {
        if data.len() == 0 {
            Err(AccountDiscriminatorError::Missing)
        } else {
            match Self::spec_from_byte(data[0]) {
                None => Err(AccountDiscriminatorError::Invalid(data[0])),
                Some(observed) => {
                    if observed != expected {
                        Err(AccountDiscriminatorError::DiscriminatorMismatch { expected, observed })
                    } else if data.len() != expected.spec_account_size() {
                        Err(AccountDiscriminatorError::SerializedSizeMismatch {
                            expected: expected.spec_account_size(),
                            observed: data.len() as usize,
                        })
                    } else {
                        Ok(())
                    }
                },
            }
        }
    }

    /// Checks that account data holds a record of kind `expected` at that
    /// kind's size, before any field of it is read.
    pub fn check(expected_discriminator: AccountDiscriminator, data: &[u8]) -> (r: Result<(), AccountDiscriminatorError>)
        ensures
            r == Self::spec_check(expected_discriminator, data@),
    {
        if data.len() == 0 {
            return Err(AccountDiscriminatorError::Missing);
        }
        let observed_discriminator = Self::try_from_byte(data[0])?;
        if observed_discriminator != expected_discriminator {
            return Err(AccountDiscriminatorError::DiscriminatorMismatch {
                expected: expected_discriminator,
                observed: observed_discriminator,
            });
        }
        let expected_size = expected_discriminator.expected_account_size();
        let observed_size = data.len();
        if observed_size != expected_size {
            return Err(AccountDiscriminatorError::SerializedSizeMismatch {
                expected: expected_size,
                observed: observed_size,
            });
        }
        Ok(())
    }
}

impl From<AccountDiscriminator> for u8 {
    fn from(discriminator: AccountDiscriminator) -> (r: u8) {
        discriminator.to_byte()
    }
}

impl vstd::std_specs::convert::FromSpecImpl<AccountDiscriminator> for u8 {
    open spec fn obeys_from_spec() -> bool {
        true
    }

    open spec fn from_spec(v: AccountDiscriminator) -> u8 {
        v.spec_byte()
    }
}

} // verus!
