//! The basic counter program: one flat error enum with its own codes, a
//! five-operation instruction set, and account creation under the seed
//! `counter`.

use crate::account::{effects_view, AccountView, Effect, EffectSpec, ProgramError, RentMinimums};

use crate::address::{address_eq, program_address_of, try_find_program_address, Address};
use crate::counter::instructions::{system_program, system_program_address};
use crate::counter::state::{encode_counter, initial_counter, CounterV1, COUNTER_V1_SIZE};
use vstd::prelude::*;

verus! {

/// Every failure of the basic counter program.
#[derive(Debug, Clone, Copy, PartialEq, Eq)]
pub enum CounterError {
    CounterAddressMismatch,
    CounterMustBeEmpty,
    CounterMustBeOwnedBySystemProgram,
    CounterMustBeWriteable,
    CounterMustHaveZeroLamports,
    InvalidInstructionDiscriminator(u8),
    NotEnoughAccounts { expected: usize, observed: usize },
    PayerMustBeSigner,
    SerializeError,
    SerializedSizeMismatch { expected: usize, observed: usize },
    SystemProgramAddressMismatch,
}

pub type CounterResult<T> = Result<T, CounterError>;

/// The human-readable message of each error.
pub open spec fn counter_error_message(e: CounterError) -> Seq<char> {
    match e {
        CounterError::CounterAddressMismatch => "Counter address must match"@,
        CounterError::CounterMustBeEmpty => "Counter must be empty"@,
        CounterError::CounterMustBeOwnedBySystemProgram => "Counter must be owned by system program"@,
        CounterError::CounterMustBeWriteable => "Counter must be writable"@,
        CounterError::CounterMustHaveZeroLamports => "Counter must have zero lamports"@,
        CounterError::InvalidInstructionDiscriminator(_) => "Invalid instruction discriminator"@,
        CounterError::NotEnoughAccounts { .. } => "Not enough accounts"@,
        CounterError::PayerMustBeSigner => "Payer must be a signer"@,
        CounterError::SerializeError => "Serialization error"@,
        CounterError::SerializedSizeMismatch { .. } => "Serialized size mismatch"@,
        CounterError::SystemProgramAddressMismatch => "System program address must match"@,
    }
}

/// The numeric code of each error, from 1 in alphabetical order of variant.
pub open spec fn counter_error_code(e: CounterError) -> u32 {
    match e {
        CounterError::CounterAddressMismatch => 1,
        CounterError::CounterMustBeEmpty => 2,
        CounterError::CounterMustBeOwnedBySystemProgram => 3,
        CounterError::CounterMustBeWriteable => 4,
        CounterError::CounterMustHaveZeroLamports => 5,
        CounterError::InvalidInstructionDiscriminator(_) => 6,
        CounterError::NotEnoughAccounts { .. } => 7,
        CounterError::PayerMustBeSigner => 8,
        CounterError::SerializeError => 9,
        CounterError::SerializedSizeMismatch { .. } => 10,
        CounterError::SystemProgramAddressMismatch => 11,
    }
}

impl CounterError {
    /// The human-readable message of this error.
    pub fn as_str(&self) -> (r: &'static str)
        ensures
            r@ == counter_error_message(*self),
    {
        match self {
            CounterError::CounterAddressMismatch => "Counter address must match",
            CounterError::CounterMustBeEmpty => "Counter must be empty",
            CounterError::CounterMustBeOwnedBySystemProgram => "Counter must be owned by system program",
            CounterError::CounterMustBeWriteable => "Counter must be writable",
            CounterError::CounterMustHaveZeroLamports => "Counter must have zero lamports",
            CounterError::InvalidInstructionDiscriminator(_) => "Invalid instruction discriminator",
            CounterError::NotEnoughAccounts { .. } => "Not enough accounts",
            CounterError::PayerMustBeSigner => "Payer must be a signer",
            CounterError::SerializeError => "Serialization error",
            CounterError::SerializedSizeMismatch { .. } => "Serialized size mismatch",
            CounterError::SystemProgramAddressMismatch => "System program address must match",
        }
    }

    /// The human-readable message of this error, as an owned string.
    pub fn to_string(&self) -> (r: String)
        ensures
            r@ == counter_error_message(*self),
    {
        self.as_str().to_string()
    }

    /// The numeric code of this error.
    pub fn code(&self) -> (r: u32)
        ensures
            r == counter_error_code(*self),
    {
        match self {
            CounterError::CounterAddressMismatch => 1,
            CounterError::CounterMustBeEmpty => 2,
            CounterError::CounterMustBeOwnedBySystemProgram => 3,
            CounterError::CounterMustBeWriteable => 4,
            CounterError::CounterMustHaveZeroLamports => 5,
            CounterError::InvalidInstructionDiscriminator(_) => 6,
            CounterError::NotEnoughAccounts { .. } => 7,
            CounterError::PayerMustBeSigner => 8,
            CounterError::SerializeError => 9,
            CounterError::SerializedSizeMismatch { .. } => 10,
            CounterError::SystemProgramAddressMismatch => 11,
        }
    }
}

impl From<CounterError> for ProgramError {
    fn from(e: CounterError) -> (r: ProgramError) {
        ProgramError::Custom(e.code())
    }
}

impl vstd::std_specs::convert::FromSpecImpl<CounterError> for ProgramError {
    open spec fn obeys_from_spec() -> bool {
        true
    }

    open spec fn from_spec(e: CounterError) -> ProgramError {
        ProgramError::Custom(counter_error_code(e))
    }
}

/// An operation of the basic counter program.
#[derive(Debug, Clone, Copy, PartialEq, Eq, Structural)]
pub enum InstructionDiscriminator {
    InitializeCounterV1,
    DeactivateCounterV1,
    DecrementCountV1,
    IncrementCountV1,
    SetCountV1,
}

impl InstructionDiscriminator {
    pub open spec fn spec_byte(self) -> u8 {
        match self {
            InstructionDiscriminator::InitializeCounterV1 => 1,
            InstructionDiscriminator::DeactivateCounterV1 => 2,
            InstructionDiscriminator::DecrementCountV1 => 3,
            InstructionDiscriminator::IncrementCountV1 => 4,
            InstructionDiscriminator::SetCountV1 => 5,
        }
    }

    pub open spec fn spec_from_byte(byte: u8) -> Option<InstructionDiscriminator> {
        if byte == 1 {
            Some(InstructionDiscriminator::InitializeCounterV1)
        } else if byte == 2 {
            Some(InstructionDiscriminator::DeactivateCounterV1)
        } else if byte == 3 {
            Some(InstructionDiscriminator::DecrementCountV1)
        } else if byte == 4 {
            Some(InstructionDiscriminator::IncrementCountV1)
        } else if byte == 5 {
            Some(InstructionDiscriminator::SetCountV1)
        } else {
            None
        }
    }

    /// The operation and its payload; an empty instruction reports byte 0 as
    /// the invalid discriminator.
    pub open spec fn spec_parse(data: Seq<u8>) -> Result<(InstructionDiscriminator, Seq<u8>), CounterError> {
        if data.len() == 0 {
            Err(CounterError::InvalidInstructionDiscriminator(0))
        } else {
            match Self::spec_from_byte(data[0]) {
                Some(d) => Ok((d, data.drop_first())),
                None => Err(CounterError::InvalidInstructionDiscriminator(data[0])),
            }
        }
    }

    /// The leading instruction byte of this operation.
    pub fn to_byte(self) -> (r: u8)
        ensures
            r == self.spec_byte(),
    {
        match self {
            InstructionDiscriminator::InitializeCounterV1 => 1,
            InstructionDiscriminator::DeactivateCounterV1 => 2,
            InstructionDiscriminator::DecrementCountV1 => 3,
            InstructionDiscriminator::IncrementCountV1 => 4,
            InstructionDiscriminator::SetCountV1 => 5,
        }
    }

    /// The operation that `byte` names.
    pub fn try_from_byte(byte: u8) -> (r: CounterResult<InstructionDiscriminator>)
        ensures
            match Self::spec_from_byte(byte) {
                Some(d) => r == Ok::<InstructionDiscriminator, CounterError>(d),
                None => r == Err::<InstructionDiscriminator, CounterError>(CounterError::InvalidInstructionDiscriminator(byte)),
            },
    {
        match byte {
            1 => Ok(InstructionDiscriminator::InitializeCounterV1),
            2 => Ok(InstructionDiscriminator::DeactivateCounterV1),
            3 => Ok(InstructionDiscriminator::DecrementCountV1),
            4 => Ok(InstructionDiscriminator::IncrementCountV1),
            5 => Ok(InstructionDiscriminator::SetCountV1),
            _ => Err(CounterError::InvalidInstructionDiscriminator(byte)),
        }
    }

    /// Splits instruction data into the operation its first byte names and
    /// the remaining payload.
    pub fn parse(instruction_data: &[u8]) -> (r: CounterResult<(InstructionDiscriminator, &[u8])>)
        ensures
            match Self::spec_parse(instruction_data@) {
                Ok((d, rest)) => r matches Ok((d2, rest2)) && d2 == d && rest2@ == rest,
                Err(e) => r == Err::<(InstructionDiscriminator, &[u8]), CounterError>(e),
            },
    {
        if instruction_data.len() == 0 {
            return Err(CounterError::InvalidInstructionDiscriminator(0));
        }
        let discriminator = Self::try_from_byte(instruction_data[0])?;
        let rest = vstd::slice::slice_subrange(instruction_data, 1, instruction_data.len());
        assert(rest@ =~= instruction_data@.drop_first());
        Ok((discriminator, rest))
    }
}

impl From<InstructionDiscriminator> for u8 {
    fn from(discriminator: InstructionDiscriminator) -> (r: u8) {
        discriminator.to_byte()
    }
}

impl vstd::std_specs::convert::FromSpecImpl<InstructionDiscriminator> for u8 {
    open spec fn obeys_from_spec() -> bool {
        true
    }

    open spec fn from_spec(v: InstructionDiscriminator) -> u8 {
        v.spec_byte()
    }
}

/// The seed of basic counter addresses: the bytes of `counter`.
pub const COUNTER_SEED: [u8; 7] = [99, 111, 117, 110, 116, 101, 114];

/// The basic counter address and bump of `owner`, if one exists.
pub open spec fn basic_counter_address(program_id: Address, owner: Address) -> Option<(Address, u8)> {
    program_address_of(COUNTER_SEED@, owner, program_id)
}

/// Derives the basic counter address of `owner`.
pub fn try_find_counter_address(program_id: &Address, owner: &Address) -> (r: Option<(Address, u8)>)
    ensures
        r == basic_counter_address(*program_id, *owner),
{
    try_find_program_address(COUNTER_SEED.as_slice(), owner, program_id)
}

/// What a validated create call carries on to execution.
#[derive(Debug, Clone, Copy, PartialEq, Eq)]
pub struct CreateCounterV1Accounts {
    pub payer: Address,
    pub counter_bump: u8,
}

/// A validated create call.
pub struct CreateCounterV1 {
    pub program_id: Address,
    pub accounts: CreateCounterV1Accounts,
}

/// The validation of a create call's accounts `[payer, counter, system
/// program]`, first failure first. `None` where no address can be derived.
pub open spec fn create_counter_checks(program_id: Address, accounts: Seq<AccountView>)
    -> Option<Result<CreateCounterV1Accounts, CounterError>>
{
    if accounts.len() != 3 {
        Some(Err(CounterError::NotEnoughAccounts { expected: 3, observed: accounts.len() as usize }))
    } else if !accounts[0].is_signer {
        Some(Err(CounterError::PayerMustBeSigner))
    } else if !accounts[1].is_writable {
        Some(Err(CounterError::CounterMustBeWriteable))
    } else {
        match basic_counter_address(program_id, accounts[0].key) {
            None => None,
            Some((expected, bump)) => Some(
                if accounts[1].key != expected {
                    Err(CounterError::CounterAddressMismatch)
                } else if accounts[2].key != system_program_address() {
                    Err(CounterError::SystemProgramAddressMismatch)
                } else if accounts[1].data@.len() != 0 {
                    Err(CounterError::CounterMustBeEmpty)
                } else if accounts[1].lamports > 0 {
                    Err(CounterError::CounterMustHaveZeroLamports)
                } else if accounts[1].owner != system_program_address() {
                    Err(CounterError::CounterMustBeOwnedBySystemProgram)
                } else {
                    Ok(CreateCounterV1Accounts { payer: accounts[0].key, counter_bump: bump })
                },
            ),
        }
    }
}

/// Create makes the record-sized account at the rent minimum and writes a
/// fresh record owned by the payer.
pub open spec fn create_counter_effects(a: CreateCounterV1Accounts, rent: RentMinimums) -> Seq<EffectSpec> {
    seq![
        EffectSpec::CreateAccount { space: COUNTER_V1_SIZE as nat, lamports: rent.record },
        EffectSpec::WriteData { data: encode_counter(initial_counter(a.payer@, a.counter_bump)) },
    ]
}

impl CreateCounterV1Accounts {
    /// Validates a create call's accounts. A failed address derivation is a
    /// host error.
    pub fn try_from(program_id: &Address, accounts: &[AccountView]) -> (r: Result<CreateCounterV1Accounts, ProgramError>)
        ensures
            match create_counter_checks(*program_id, accounts@) {
                None => r == Err::<CreateCounterV1Accounts, ProgramError>(ProgramError::InvalidSeeds),
                Some(Ok(a)) => r == Ok::<CreateCounterV1Accounts, ProgramError>(a),
                Some(Err(e)) => r == Err::<CreateCounterV1Accounts, ProgramError>(ProgramError::Custom(counter_error_code(e))),
            },
    {
        if accounts.len() != 3 {
            return Err(ProgramError::from(CounterError::NotEnoughAccounts { expected: 3, observed: accounts.len() }));
        }
        let payer = &accounts[0];
        let counter = &accounts[1];
        let system = &accounts[2];
        if !payer.is_signer {
            return Err(ProgramError::from(CounterError::PayerMustBeSigner));
        }
        if !counter.is_writable {
            return Err(ProgramError::from(CounterError::CounterMustBeWriteable));
        }
        let (counter_address, counter_bump) = match try_find_counter_address(program_id, &payer.key) {
            Some(found) => found,
            None => {
                return Err(ProgramError::InvalidSeeds);
            },
        };
        if !address_eq(&counter.key, &counter_address) {
            return Err(ProgramError::from(CounterError::CounterAddressMismatch));
        }
        let system_id = system_program();
        if !address_eq(&system.key, &system_id) {
            return Err(ProgramError::from(CounterError::SystemProgramAddressMismatch));
        }
        if counter.data.len() != 0 {
            return Err(ProgramError::from(CounterError::CounterMustBeEmpty));
        }
        if counter.lamports > 0 {
            return Err(ProgramError::from(CounterError::CounterMustHaveZeroLamports));
        }
        if !address_eq(&counter.owner, &system_id) {
            return Err(ProgramError::from(CounterError::CounterMustBeOwnedBySystemProgram));
        }
        Ok(CreateCounterV1Accounts { payer: payer.key, counter_bump })
    }

}

impl CreateCounterV1 {
    /// Validates a create call; it takes no payload.
    pub fn try_from(program_id: &Address, accounts: &[AccountView], args: &[u8]) -> (r: Result<CreateCounterV1, ProgramError>)
        ensures
            match create_counter_checks(*program_id, accounts@) {
                None => r == Err::<CreateCounterV1, ProgramError>(ProgramError::InvalidSeeds),
                Some(Ok(a)) => r matches Ok(ix) && ix.program_id == *program_id && ix.accounts == a,
                Some(Err(e)) => r == Err::<CreateCounterV1, ProgramError>(ProgramError::Custom(counter_error_code(e))),
            },
    {
        let accounts = CreateCounterV1Accounts::try_from(program_id, accounts)?;
        Ok(CreateCounterV1 { program_id: *program_id, accounts })
    }

    /// Plans the creation of the counter account and its first record.
    pub fn execute(&self, rent: &RentMinimums) -> (r: Result<Vec<Effect>, ProgramError>)
        ensures
            r matches Ok(v) && effects_view(v@) == create_counter_effects(self.accounts, *rent),
    {
        let state = CounterV1::new(self.accounts.payer, self.accounts.counter_bump);
        let serialized = state.serialize();
        if serialized.len() != CounterV1::size() {
            return Err(ProgramError::from(CounterError::SerializedSizeMismatch { expected: CounterV1::size(), observed: serialized.len() }));
        }
        let mut effects: Vec<Effect> = Vec::new();
        effects.push(Effect::CreateAccount { space: CounterV1::size(), lamports: rent.record });
        effects.push(Effect::WriteData { data: serialized });
        assert(effects_view(effects@) =~= create_counter_effects(self.accounts, *rent));
        Ok(effects)
    }
}

/// What the basic counter program plans for an instruction. It implements
/// one operation, `InitializeCounterV1` (account creation). The other four
/// operations are valid bytes that this program does not carry out: they
/// are refused as invalid instruction data, not as unknown operations.
pub open spec fn basic_counter_plan(program_id: Address, accounts: Seq<AccountView>, instruction_data: Seq<u8>, rent: RentMinimums)
    -> Result<Seq<EffectSpec>, ProgramError>
{
    match InstructionDiscriminator::spec_parse(instruction_data) {
        Err(e) => Err(ProgramError::Custom(counter_error_code(e))),
        Ok((InstructionDiscriminator::InitializeCounterV1, _)) => match create_counter_checks(program_id, accounts) {
            None => Err(ProgramError::InvalidSeeds),
            Some(Err(e)) => Err(ProgramError::Custom(counter_error_code(e))),
            Some(Ok(a)) => Ok(create_counter_effects(a, rent)),
        },
        Ok(_) => Err(ProgramError::InvalidInstructionData),
    }
}

/// Parses, validates and plans an instruction of the basic counter program.
pub fn plan_instruction(program_id: &Address, accounts: &[AccountView], instruction_data: &[u8], rent: &RentMinimums)
    -> (r: Result<Vec<Effect>, ProgramError>)
    ensures
        match basic_counter_plan(*program_id, accounts@, instruction_data@, *rent) {
            Ok(es) => r matches Ok(v) && effects_view(v@) == es,
            Err(e) => r == Err::<Vec<Effect>, ProgramError>(e),
        },
{
    let (discriminator, args) = match InstructionDiscriminator::parse(instruction_data) {
        Ok(parsed) => parsed,
        Err(e) => {
            return Err(ProgramError::from(e));
        },
    };
    match discriminator {
        InstructionDiscriminator::InitializeCounterV1 => {
            let ix = CreateCounterV1::try_from(program_id, accounts, args)?;
            ix.execute(rent)
        },
        _ => Err(ProgramError::InvalidInstructionData),
    }
}

} // verus!
