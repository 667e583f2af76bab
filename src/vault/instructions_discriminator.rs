//! The vault service's operations, by the leading byte of the instruction.

use vstd::prelude::*;

verus! {

/// A vault operation.
#[derive(Debug, Clone, Copy, PartialEq, Eq, Structural)]
pub enum InstructionDiscriminator {
    InitializeVaultV1,
    DepositV1,
    WithdrawV1,
    DeactivateVaultV1,
    ReactivateVaultV1,
}

/// Why the instruction data names no operation.
#[derive(Debug, Clone, Copy, PartialEq, Eq, Structural)]
pub enum InstructionDiscriminatorError {
    Missing,
    Invalid(u8),
}

impl InstructionDiscriminator {
    pub open spec fn spec_byte(self) -> u8 {
        match self {
            InstructionDiscriminator::InitializeVaultV1 => 1,
            InstructionDiscriminator::DepositV1 => 2,
            InstructionDiscriminator::WithdrawV1 => 3,
            InstructionDiscriminator::DeactivateVaultV1 => 4,
            InstructionDiscriminator::ReactivateVaultV1 => 5,
        }
    }

    /// The operation that `byte` names, if any.
    pub open spec fn spec_from_byte(byte: u8) -> Option<InstructionDiscriminator> {
        if byte == 1 {
            Some(InstructionDiscriminator::InitializeVaultV1)
        } else if byte == 2 {
            Some(InstructionDiscriminator::DepositV1)
        } else if byte == 3 {
            Some(InstructionDiscriminator::WithdrawV1)
        } else if byte == 4 {
            Some(InstructionDiscriminator::DeactivateVaultV1)
        } else if byte == 5 {
            Some(InstructionDiscriminator::ReactivateVaultV1)
        } else {
            None
        }
    }

    /// The operation and its payload, or why there is none.
    pub open spec fn spec_parse(data: Seq<u8>) -> Result<(InstructionDiscriminator, Seq<u8>), InstructionDiscriminatorError> {
        if data.len() == 0 {
            Err(InstructionDiscriminatorError::Missing)
        } else {
            match Self::spec_from_byte(data[0]) {
                Some(d) => Ok((d, data.drop_first())),
                None => Err(InstructionDiscriminatorError::Invalid(data[0])),
            }
        }
    }

    /// The leading instruction byte of this operation.
    pub fn to_byte(self) -> (r: u8)
        ensures
            r == self.spec_byte(),
    {
        match self {
            InstructionDiscriminator::InitializeVaultV1 => 1,
            InstructionDiscriminator::DepositV1 => 2,
            InstructionDiscriminator::WithdrawV1 => 3,
            InstructionDiscriminator::DeactivateVaultV1 => 4,
            InstructionDiscriminator::ReactivateVaultV1 => 5,
        }
    }

    /// The operation that `byte` names, or `Invalid(byte)`.
    pub fn try_from_byte(byte: u8) -> (r: Result<InstructionDiscriminator, InstructionDiscriminatorError>)
        ensures
            match Self::spec_from_byte(byte) {
                Some(d) => r == Ok::<InstructionDiscriminator, InstructionDiscriminatorError>(d),
                None => r == Err::<InstructionDiscriminator, InstructionDiscriminatorError>(InstructionDiscriminatorError::Invalid(byte)),
            },
    {
        match byte {
            1 => Ok(InstructionDiscriminator::InitializeVaultV1),
            2 => Ok(InstructionDiscriminator::DepositV1),
            3 => Ok(InstructionDiscriminator::WithdrawV1),
            4 => Ok(InstructionDiscriminator::DeactivateVaultV1),
            5 => Ok(InstructionDiscriminator::ReactivateVaultV1),
            _ => Err(InstructionDiscriminatorError::Invalid(byte)),
        }
    }

    /// Splits instruction data into the operation its first byte names and
    /// the remaining payload.
    pub fn parse(instruction_data: &[u8]) -> (r: Result<(InstructionDiscriminator, &[u8]), InstructionDiscriminatorError>)
        ensures
            match Self::spec_parse(instruction_data@) {
                Ok((d, rest)) => r matches Ok((d2, rest2)) && d2 == d && rest2@ == rest,
                Err(e) => r == Err::<(InstructionDiscriminator, &[u8]), InstructionDiscriminatorError>(e),
            },
    {
        if instruction_data.len() == 0 {
            return Err(InstructionDiscriminatorError::Missing);
        }
        let discriminator = Self::try_from_byte(instruction_data[0])?;
        let rest = vstd::slice::slice_subrange(instruction_data, 1, instruction_data.len());
        assert(rest@ =~= instruction_data@.drop_first());
        Ok((discriminator, rest))
    }
}

impl From<InstructionDiscriminator> for u8 {
    fn from(discriminator: InstructionDiscriminator) -> (r: u8) {
        discriminator.to_byte()
    }
}

impl vstd::std_specs::convert::FromSpecImpl<InstructionDiscriminator> for u8 {
    open spec fn obeys_from_spec() -> bool {
        true
    }

    open spec fn from_spec(v: InstructionDiscriminator) -> u8 {
        v.spec_byte()
    }
}

} // verus!
