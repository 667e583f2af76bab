//! The counter operations: each validates its account list in a fixed order
//! (arity, signer / writable flags, derived address, then content) and plans
//! the host effects of its lifecycle transition.
//!
//! The derived-address check is the only ownership check: the storage
//! address is derived from the signer, so the owner stored in the record is
//! not read again.

use crate::account::{effects_view, AccountView, Effect, EffectSpec, ProgramError, RentMinimums};
use crate::address::{address_eq, system_program_id, Address};
use crate::codec::DecodeError;
use crate::counter::account_discriminator::{
    AccountDiscriminator, AccountDiscriminatorError, DEACTIVATED_ACCOUNT_SIZE, DEACTIVATED_ACCOUNT_TAG,
};
use crate::counter::state::{decode_counter, encode_counter, initial_counter, CounterV1, CounterV1Spec, COUNTER_V1_SIZE};
use crate::counter::{counter_address, try_find_counter_v1};
use vstd::bytes::{spec_u64_from_le_bytes, u64_from_le_bytes};
use vstd::prelude::*;

verus! {

/// The address of the system program, as a spec value.
pub open spec fn system_program_address() -> Address {
    choose|a: Address| a@ == Seq::new(32, |_i: int| 0u8)
}

/// The system program's id, equal to `system_program_address()`.
pub(crate) fn system_program() -> (r: Address)
    ensures
        r == system_program_address(),
{
    let r = system_program_id();
    proof {
        let c = system_program_address();
        assert(exists|a: Address| a@ == Seq::new(32, |_i: int| 0u8));
        assert(r =~= c);
    }
    r
}

/// `a - b`, or zero where `b` exceeds `a`.
pub open spec fn saturating_sub(a: u64, b: u64) -> u64 {
    if a >= b {
        (a - b) as u64
    } else {
        0
    }
}

// ---------------------------------------------------------------------------
// InitializeCounterV1: accounts [payer, counter, system program]
// ---------------------------------------------------------------------------

/// Why an initialize call is refused.
#[derive(Debug, Clone, Copy, PartialEq, Eq)]
pub enum InitializeCounterV1Error {
    ProgramError(ProgramError),
    NotEnoughAccounts { expected: usize, observed: usize },
    PayerMustBeSigner,
    CounterMustBeWriteable,
    CounterAddressMismatch { expected: Address, observed: Address },
    CounterMustBeEmpty,
    CounterMustHaveZeroLamports,
    CounterMustBeOwnedBySystemProgram,
    SystemProgramAddressMismatch,
    DeserializeError(DecodeError),
    SerializeError,
    SerializedSizeMismatch { expected: usize, observed: usize },
}

/// What a validated initialize call carries on to execution.
#[derive(Debug, Clone, Copy, PartialEq, Eq)]
pub struct InitializeCounterV1Accounts {
    pub payer: Address,
    pub counter_bump: u8,
}

/// A validated initialize call.
pub struct InitializeCounterV1 {
    pub program_id: Address,
    pub accounts: InitializeCounterV1Accounts,
}

/// The validation of an initialize call's accounts, first failure first:
/// arity, flags, derived address, the system program account, then the
/// storage content. The storage account must be empty, unfunded and still
/// the system program's, which refuses both active and deactivated accounts.
pub open spec fn initialize_counter_checks(program_id: Address, accounts: Seq<AccountView>)
    -> Result<InitializeCounterV1Accounts, InitializeCounterV1Error>
{
    if accounts.len() != 3 {
        Err(InitializeCounterV1Error::NotEnoughAccounts { expected: 3, observed: accounts.len() as usize })
    } else if !accounts[0].is_signer {
        Err(InitializeCounterV1Error::PayerMustBeSigner)
    } else if !accounts[1].is_writable {
        Err(InitializeCounterV1Error::CounterMustBeWriteable)
    } else {
        match counter_address(program_id, accounts[0].key) {
            None => Err(InitializeCounterV1Error::ProgramError(ProgramError::InvalidSeeds)),
            Some((expected, bump)) => {
                if accounts[1].key != expected {
                    Err(InitializeCounterV1Error::CounterAddressMismatch { expected, observed: accounts[1].key })
                } else if accounts[2].key != system_program_address() {
                    Err(InitializeCounterV1Error::SystemProgramAddressMismatch)
                } else if accounts[1].data@.len() != 0 {
                    Err(InitializeCounterV1Error::CounterMustBeEmpty)
                } else if accounts[1].lamports > 0 {
                    Err(InitializeCounterV1Error::CounterMustHaveZeroLamports)
                } else if accounts[1].owner != system_program_address() {
                    Err(InitializeCounterV1Error::CounterMustBeOwnedBySystemProgram)
                } else {
                    Ok(InitializeCounterV1Accounts { payer: accounts[0].key, counter_bump: bump })
                }
            },
        }
    }
}

/// Initialize creates the record-sized account funded at the rent minimum and
/// writes a fresh record owned by the payer.
pub open spec fn initialize_counter_effects(a: InitializeCounterV1Accounts, rent: RentMinimums) -> Seq<EffectSpec> {
    seq![
        EffectSpec::CreateAccount { space: COUNTER_V1_SIZE as nat, lamports: rent.record },
        EffectSpec::WriteData { data: encode_counter(initial_counter(a.payer@, a.counter_bump)) },
    ]
}

impl InitializeCounterV1Accounts {
    /// Validates an initialize call's accounts.
    pub fn try_from(program_id: &Address, accounts: &[AccountView]) -> (r: Result<InitializeCounterV1Accounts, InitializeCounterV1Error>)
        ensures
            r == initialize_counter_checks(*program_id, accounts@),
    {
        if accounts.len() != 3 {
            return Err(InitializeCounterV1Error::NotEnoughAccounts { expected: 3, observed: accounts.len() });
        }
        let payer = &accounts[0];
        let counter = &accounts[1];
        let system = &accounts[2];
        if !payer.is_signer {
            return Err(InitializeCounterV1Error::PayerMustBeSigner);
        }
        if !counter.is_writable {
            return Err(InitializeCounterV1Error::CounterMustBeWriteable);
        }
        let (expected_counter, counter_bump) = match try_find_counter_v1(program_id, &payer.key) {
            Some(found) => found,
            None => {
                return Err(InitializeCounterV1Error::ProgramError(ProgramError::InvalidSeeds));
            },
        };
        if !address_eq(&counter.key, &expected_counter) {
            return Err(InitializeCounterV1Error::CounterAddressMismatch { expected: expected_counter, observed: counter.key });
        }
        let system_id = system_program();
        if !address_eq(&system.key, &system_id) {
            return Err(InitializeCounterV1Error::SystemProgramAddressMismatch);
        }
        if counter.data.len() != 0 {
            return Err(InitializeCounterV1Error::CounterMustBeEmpty);
        }
        if counter.lamports > 0 {
            return Err(InitializeCounterV1Error::CounterMustHaveZeroLamports);
        }
        if !address_eq(&counter.owner, &system_id) {
            return Err(InitializeCounterV1Error::CounterMustBeOwnedBySystemProgram);
        }
        Ok(InitializeCounterV1Accounts { payer: payer.key, counter_bump })
    }
}

impl InitializeCounterV1 {
    /// Validates an initialize call; it takes no payload.
    pub fn try_from(program_id: &Address, accounts: &[AccountView], args: &[u8]) -> (r: Result<InitializeCounterV1, InitializeCounterV1Error>)
        ensures
            match initialize_counter_checks(*program_id, accounts@) {
                Ok(a) => r matches Ok(ix) && ix.program_id == *program_id && ix.accounts == a,
                Err(e) => r == Err::<InitializeCounterV1, InitializeCounterV1Error>(e),
            },
    {
        let accounts = InitializeCounterV1Accounts::try_from(program_id, accounts)?;
        Ok(InitializeCounterV1 { program_id: *program_id, accounts })
    }

    /// Plans the creation of the counter account and its first record.
    pub fn execute(&self, rent: &RentMinimums) -> (r: Result<Vec<Effect>, InitializeCounterV1Error>)
        ensures
            r matches Ok(v) && effects_view(v@) == initialize_counter_effects(self.accounts, *rent),
    {
        let state = CounterV1::new(self.accounts.payer, self.accounts.counter_bump);
        let serialized = state.serialize();
        if serialized.len() != CounterV1::size() {
            return Err(InitializeCounterV1Error::SerializedSizeMismatch { expected: CounterV1::size(), observed: serialized.len() });
        }
        let mut effects: Vec<Effect> = Vec::new();
        effects.push(Effect::CreateAccount { space: CounterV1::size(), lamports: rent.record });
        effects.push(Effect::WriteData { data: serialized });
        assert(effects_view(effects@) =~= initialize_counter_effects(self.accounts, *rent));
        Ok(effects)
    }
}

// ---------------------------------------------------------------------------
// DeactivateCounterV1: accounts [owner, counter]
// ---------------------------------------------------------------------------

/// Why a deactivate call is refused.
#[derive(Debug, Clone, Copy, PartialEq, Eq)]
pub enum DeactivateCounterV1Error {
    ProgramError(ProgramError),
    NotEnoughAccounts { expected: usize, observed: usize },
    OwnerMustBeSigner,
    OwnerMustBeWriteable,
    CounterMustBeWriteable,
    CounterAddressMismatch { expected: Address, observed: Address },
    DeserializeError(DecodeError),
    AccountDiscriminatorError(AccountDiscriminatorError),
}

/// What a validated deactivate call carries on to execution.
#[derive(Debug, Clone, Copy, PartialEq, Eq)]
pub struct DeactivateCounterV1Accounts {
    pub owner: Address,
    pub counter_bump: u8,
}

/// A validated deactivate call.
pub struct DeactivateCounterV1 {
    pub program_id: Address,
    pub accounts: DeactivateCounterV1Accounts,
}

/// The validation of a deactivate call's accounts, first failure first.
pub open spec fn deactivate_counter_checks(program_id: Address, accounts: Seq<AccountView>)
    -> Result<DeactivateCounterV1Accounts, DeactivateCounterV1Error>
{
    if accounts.len() != 2 {
        Err(DeactivateCounterV1Error::NotEnoughAccounts { expected: 2, observed: accounts.len() as usize })
    } else if !accounts[0].is_signer {
        Err(DeactivateCounterV1Error::OwnerMustBeSigner)
    } else if !accounts[0].is_writable {
        Err(DeactivateCounterV1Error::OwnerMustBeWriteable)
    } else if !accounts[1].is_writable {
        Err(DeactivateCounterV1Error::CounterMustBeWriteable)
    } else {
        match counter_address(program_id, accounts[0].key) {
            None => Err(DeactivateCounterV1Error::ProgramError(ProgramError::InvalidSeeds)),
            Some((expected, bump)) => {
                if accounts[1].key != expected {
                    Err(DeactivateCounterV1Error::CounterAddressMismatch { expected, observed: accounts[1].key })
                } else {
                    match AccountDiscriminator::spec_check(AccountDiscriminator::CounterV1Account, accounts[1].data@) {
                        Err(e) => Err(DeactivateCounterV1Error::AccountDiscriminatorError(e)),
                        Ok(_) => Ok(DeactivateCounterV1Accounts { owner: accounts[0].key, counter_bump: bump }),
                    }
                }
            },
        }
    }
}

/// Deactivate tags the account deactivated before shrinking it to one byte,
/// then hands every lamport above the one-byte rent minimum to the owner.
pub open spec fn deactivate_counter_effects(counter_lamports: u64, rent: RentMinimums) -> Seq<EffectSpec> {
    seq![
        EffectSpec::WriteFirstByte { value: DEACTIVATED_ACCOUNT_TAG },
        EffectSpec::Resize { len: DEACTIVATED_ACCOUNT_SIZE as nat },
        EffectSpec::Release { lamports: saturating_sub(counter_lamports, rent.deactivated) },
    ]
}

impl DeactivateCounterV1Accounts {
    /// Validates a deactivate call's accounts.
    pub fn try_from(program_id: &Address, accounts: &[AccountView]) -> (r: Result<DeactivateCounterV1Accounts, DeactivateCounterV1Error>)
        ensures
            r == deactivate_counter_checks(*program_id, accounts@),
    {
        if accounts.len() != 2 {
            return Err(DeactivateCounterV1Error::NotEnoughAccounts { expected: 2, observed: accounts.len() });
        }
        let owner = &accounts[0];
        let counter = &accounts[1];
        if !owner.is_signer {
            return Err(DeactivateCounterV1Error::OwnerMustBeSigner);
        }
        if !owner.is_writable {
            return Err(DeactivateCounterV1Error::OwnerMustBeWriteable);
        }
        if !counter.is_writable {
            return Err(DeactivateCounterV1Error::CounterMustBeWriteable);
        }
        let (expected_counter, counter_bump) = match try_find_counter_v1(program_id, &owner.key) {
            Some(found) => found,
            None => {
                return Err(DeactivateCounterV1Error::ProgramError(ProgramError::InvalidSeeds));
            },
        };
        if !address_eq(&counter.key, &expected_counter) {
            return Err(DeactivateCounterV1Error::CounterAddressMismatch { expected: expected_counter, observed: counter.key });
        }
        match AccountDiscriminator::check(AccountDiscriminator::CounterV1Account, counter.data.as_slice()) {
            Err(e) => Err(DeactivateCounterV1Error::AccountDiscriminatorError(e)),
            Ok(_) => Ok(DeactivateCounterV1Accounts { owner: owner.key, counter_bump }),
        }
    }
}

impl DeactivateCounterV1 {
    /// Validates a deactivate call; it takes no payload.
    pub fn try_from(program_id: &Address, accounts: &[AccountView], args: &[u8]) -> (r: Result<DeactivateCounterV1, DeactivateCounterV1Error>)
        ensures
            match deactivate_counter_checks(*program_id, accounts@) {
                Ok(a) => r matches Ok(ix) && ix.program_id == *program_id && ix.accounts == a,
                Err(e) => r == Err::<DeactivateCounterV1, DeactivateCounterV1Error>(e),
            },
    {
        let accounts = DeactivateCounterV1Accounts::try_from(program_id, accounts)?;
        Ok(DeactivateCounterV1 { program_id: *program_id, accounts })
    }

    /// Plans the deactivation of `counter`, which holds `counter.lamports`.
    pub fn execute(&self, counter: &AccountView, rent: &RentMinimums) -> (r: Result<Vec<Effect>, DeactivateCounterV1Error>)
        ensures
            r matches Ok(v) && effects_view(v@) == deactivate_counter_effects(counter.lamports, *rent),
    {
        let excess = if counter.lamports >= rent.deactivated {
            counter.lamports - rent.deactivated
        } else {
            0
        };
        let mut effects: Vec<Effect> = Vec::new();
        effects.push(Effect::WriteFirstByte { value: DEACTIVATED_ACCOUNT_TAG });
        effects.push(Effect::Resize { len: DEACTIVATED_ACCOUNT_SIZE });
        effects.push(Effect::Release { lamports: excess });
        assert(effects_view(effects@) =~= deactivate_counter_effects(counter.lamports, *rent));
        Ok(effects)
    }
}

// ---------------------------------------------------------------------------
// IncrementCountV1, DecrementCountV1, SetCountV1: accounts [owner, counter]
// ---------------------------------------------------------------------------

/// Why a count update (increment, decrement or set) is refused.
#[derive(Debug, Clone, Copy, PartialEq, Eq)]
pub enum CountUpdateV1Error {
    ProgramError(ProgramError),
    NotEnoughAccounts { expected: usize, observed: usize },
    OwnerMustBeSigner,
    CounterMustBeWriteable,
    CounterAddressMismatch { expected: Address, observed: Address },
    DeserializeError(DecodeError),
    SerializeError,
    SerializedSizeMismatch { expected: usize, observed: usize },
    AccountDiscriminatorError(AccountDiscriminatorError),
}

pub type IncrementCountV1Error = CountUpdateV1Error;

pub type DecrementCountV1Error = CountUpdateV1Error;

pub type SetCountV1Error = CountUpdateV1Error;

/// What a validated count update carries on to execution.
#[derive(Debug, Clone, Copy, PartialEq, Eq)]
pub struct CountUpdateV1Accounts {
    pub owner: Address,
}

pub type IncrementCountV1Accounts = CountUpdateV1Accounts;

pub type DecrementCountV1Accounts = CountUpdateV1Accounts;

pub type SetCountV1Accounts = CountUpdateV1Accounts;

/// The payload of a set-count call: the new count, little-endian.
#[derive(Debug, Clone, Copy, PartialEq, Eq)]
pub struct SetCountV1Args {
    pub count: u64,
}

/// How a count update changes the count.
#[derive(Debug, Clone, Copy, PartialEq, Eq)]
pub enum CountUpdate {
    Increment,
    Decrement,
    SetTo(u64),
}

/// A validated increment call.
pub struct IncrementCountV1 {
    pub program_id: Address,
    pub accounts: CountUpdateV1Accounts,
}

/// A validated decrement call.
pub struct DecrementCountV1 {
    pub program_id: Address,
    pub accounts: CountUpdateV1Accounts,
}

/// A validated set-count call.
pub struct SetCountV1 {
    pub program_id: Address,
    pub accounts: CountUpdateV1Accounts,
    pub args: SetCountV1Args,
}

/// The count after one increment: one more, saturating at the maximum.
pub open spec fn incremented(count: u64) -> u64 {
    if count == u64::MAX {
        count
    } else {
        (count + 1) as u64
    }
}

/// The count after one decrement: one less, saturating at zero.
pub open spec fn decremented(count: u64) -> u64 {
    if count == 0 {
        count
    } else {
        (count - 1) as u64
    }
}

pub open spec fn updated_count(count: u64, update: CountUpdate) -> u64 {
    match update {
        CountUpdate::Increment => incremented(count),
        CountUpdate::Decrement => decremented(count),
        CountUpdate::SetTo(v) => v,
    }
}

/// Adds one to `count`, saturating at `u64::MAX`.
pub fn increment(count: u64) -> (r: u64)
    ensures
        r == incremented(count),
        r >= count,
{
    count.saturating_add(1)
}

/// Subtracts one from `count`, saturating at zero.
pub fn decrement(count: u64) -> (r: u64)
    ensures
        r == decremented(count),
        r <= count,
{
    count.saturating_sub(1)
}

/// The validation shared by all count updates, first failure first.
pub open spec fn count_update_checks(program_id: Address, accounts: Seq<AccountView>)
    -> Result<CountUpdateV1Accounts, CountUpdateV1Error>
{
    if accounts.len() != 2 {
        Err(CountUpdateV1Error::NotEnoughAccounts { expected: 2, observed: accounts.len() as usize })
    } else if !accounts[0].is_signer {
        Err(CountUpdateV1Error::OwnerMustBeSigner)
    } else if !accounts[1].is_writable {
        Err(CountUpdateV1Error::CounterMustBeWriteable)
    } else {
        match counter_address(program_id, accounts[0].key) {
            None => Err(CountUpdateV1Error::ProgramError(ProgramError::InvalidSeeds)),
            Some((expected, _bump)) => {
                if accounts[1].key != expected {
                    Err(CountUpdateV1Error::CounterAddressMismatch { expected, observed: accounts[1].key })
                } else {
                    match AccountDiscriminator::spec_check(AccountDiscriminator::CounterV1Account, accounts[1].data@) {
                        Err(e) => Err(CountUpdateV1Error::AccountDiscriminatorError(e)),
                        Ok(_) => Ok(CountUpdateV1Accounts { owner: accounts[0].key }),
                    }
                }
            },
        }
    }
}

/// A count update decodes the record, changes its count and writes it back.
pub open spec fn count_update_effects(data: Seq<u8>, update: CountUpdate) -> Result<Seq<EffectSpec>, CountUpdateV1Error> {
    match decode_counter(data) {
        Err(e) => Err(CountUpdateV1Error::DeserializeError(e)),
        Ok(record) => Ok(seq![
            EffectSpec::WriteData {
                data: encode_counter(CounterV1Spec { count: updated_count(record.count, update), ..record }),
            },
        ]),
    }
}

/// The payload of a set-count call: at least eight bytes, the first eight of
/// which are the count.
pub open spec fn set_count_args(args: Seq<u8>) -> Result<SetCountV1Args, DecodeError> {
    if args.len() < 8 {
        Err(DecodeError::SizeMismatch { expected: 8, observed: args.len() as usize })
    } else {
        Ok(SetCountV1Args { count: spec_u64_from_le_bytes(args.subrange(0, 8)) })
    }
}

impl CountUpdateV1Accounts {
    /// Validates a count update's accounts.
    pub fn try_from(program_id: &Address, accounts: &[AccountView]) -> (r: Result<CountUpdateV1Accounts, CountUpdateV1Error>)
        ensures
            r == count_update_checks(*program_id, accounts@),
    {
        if accounts.len() != 2 {
            return Err(CountUpdateV1Error::NotEnoughAccounts { expected: 2, observed: accounts.len() });
        }
        let owner = &accounts[0];
        let counter = &accounts[1];
        if !owner.is_signer {
            return Err(CountUpdateV1Error::OwnerMustBeSigner);
        }
        if !counter.is_writable {
            return Err(CountUpdateV1Error::CounterMustBeWriteable);
        }
        let (expected_counter, _bump) = match try_find_counter_v1(program_id, &owner.key) {
            Some(found) => found,
            None => {
                return Err(CountUpdateV1Error::ProgramError(ProgramError::InvalidSeeds));
            },
        };
        if !address_eq(&counter.key, &expected_counter) {
            return Err(CountUpdateV1Error::CounterAddressMismatch { expected: expected_counter, observed: counter.key });
        }
        match AccountDiscriminator::check(AccountDiscriminator::CounterV1Account, counter.data.as_slice()) {
            Err(e) => Err(CountUpdateV1Error::AccountDiscriminatorError(e)),
            Ok(_) => Ok(CountUpdateV1Accounts { owner: owner.key }),
        }
    }
}

/// Plans the rewrite of the counter record in `data` with its count changed
/// by `update`.
pub fn rewrite_count(data: &[u8], update: CountUpdate) -> (r: Result<Vec<Effect>, CountUpdateV1Error>)
    ensures
        match count_update_effects(data@, update) {
            Ok(es) => r matches Ok(v) && effects_view(v@) == es,
            Err(e) => r == Err::<Vec<Effect>, CountUpdateV1Error>(e),
        },
{
    let mut counter_state = match CounterV1::deserialize(data) {
        Ok(c) => c,
        Err(e) => {
            return Err(CountUpdateV1Error::DeserializeError(e));
        },
    };
    counter_state.count = match update {
        CountUpdate::Increment => increment(counter_state.count),
        CountUpdate::Decrement => decrement(counter_state.count),
        CountUpdate::SetTo(v) => v,
    };
    let serialized = counter_state.serialize();
    if serialized.len() != CounterV1::size() {
        return Err(CountUpdateV1Error::SerializedSizeMismatch { expected: CounterV1::size(), observed: serialized.len() });
    }
    let mut effects: Vec<Effect> = Vec::new();
    effects.push(Effect::WriteData { data: serialized });
    proof {
        let record = decode_counter(data@)->Ok_0;
        assert(counter_state@ == (CounterV1Spec { count: updated_count(record.count, update), ..record }));
    }
    assert(effects_view(effects@) =~= count_update_effects(data@, update)->Ok_0);
    Ok(effects)
}

impl SetCountV1Args {
    /// Reads the new count from a set-count payload.
    pub fn deserialize(src: &[u8]) -> (r: Result<SetCountV1Args, DecodeError>)
        ensures
            r == set_count_args(src@),
    {
        if src.len() < 8 {
            return Err(DecodeError::SizeMismatch { expected: 8, observed: src.len() });
        }
        let count = u64_from_le_bytes(vstd::slice::slice_subrange(src, 0, 8));
        Ok(SetCountV1Args { count })
    }
}

impl IncrementCountV1 {
    /// Validates an increment call; it takes no payload.
    pub fn try_from(program_id: &Address, accounts: &[AccountView], args: &[u8]) -> (r: Result<IncrementCountV1, CountUpdateV1Error>)
        ensures
            match count_update_checks(*program_id, accounts@) {
                Ok(a) => r matches Ok(ix) && ix.program_id == *program_id && ix.accounts == a,
                Err(e) => r == Err::<IncrementCountV1, CountUpdateV1Error>(e),
            },
    {
        let accounts = CountUpdateV1Accounts::try_from(program_id, accounts)?;
        Ok(IncrementCountV1 { program_id: *program_id, accounts })
    }

    /// Plans the rewrite of `counter` with its count one higher, saturating.
    pub fn execute(&self, counter: &AccountView) -> (r: Result<Vec<Effect>, CountUpdateV1Error>)
        ensures
            match count_update_effects(counter.data@, CountUpdate::Increment) {
                Ok(es) => r matches Ok(v) && effects_view(v@) == es,
                Err(e) => r == Err::<Vec<Effect>, CountUpdateV1Error>(e),
            },
    {
        rewrite_count(counter.data.as_slice(), CountUpdate::Increment)
    }
}

impl DecrementCountV1 {
    /// Validates a decrement call; it takes no payload.
    pub fn try_from(program_id: &Address, accounts: &[AccountView], args: &[u8]) -> (r: Result<DecrementCountV1, CountUpdateV1Error>)
        ensures
            match count_update_checks(*program_id, accounts@) {
                Ok(a) => r matches Ok(ix) && ix.program_id == *program_id && ix.accounts == a,
                Err(e) => r == Err::<DecrementCountV1, CountUpdateV1Error>(e),
            },
    {
        let accounts = CountUpdateV1Accounts::try_from(program_id, accounts)?;
        Ok(DecrementCountV1 { program_id: *program_id, accounts })
    }

    /// Plans the rewrite of `counter` with its count one lower, saturating.
    pub fn execute(&self, counter: &AccountView) -> (r: Result<Vec<Effect>, CountUpdateV1Error>)
        ensures
            match count_update_effects(counter.data@, CountUpdate::Decrement) {
                Ok(es) => r matches Ok(v) && effects_view(v@) == es,
                Err(e) => r == Err::<Vec<Effect>, CountUpdateV1Error>(e),
            },
    {
        rewrite_count(counter.data.as_slice(), CountUpdate::Decrement)
    }
}

impl SetCountV1 {
    /// Validates a set-count call: its accounts first, then its payload.
    pub fn try_from(program_id: &Address, accounts: &[AccountView], args: &[u8]) -> (r: Result<SetCountV1, CountUpdateV1Error>)
        ensures
            match count_update_checks(*program_id, accounts@) {
                Ok(a) => match set_count_args(args@) {
                    Ok(parsed) => r matches Ok(ix) && ix.program_id == *program_id && ix.accounts == a && ix.args == parsed,
                    Err(e) => r == Err::<SetCountV1, CountUpdateV1Error>(CountUpdateV1Error::DeserializeError(e)),
                },
                Err(e) => r == Err::<SetCountV1, CountUpdateV1Error>(e),
            },
    {
        let accounts = CountUpdateV1Accounts::try_from(program_id, accounts)?;
        let args = match SetCountV1Args::deserialize(args) {
            Ok(a) => a,
            Err(e) => {
                return Err(CountUpdateV1Error::DeserializeError(e));
            },
        };
        Ok(SetCountV1 { program_id: *program_id, accounts, args })
    }

    /// Plans the rewrite of `counter` with its count set to the payload's.
    pub fn execute(&self, counter: &AccountView) -> (r: Result<Vec<Effect>, CountUpdateV1Error>)
        ensures
            match count_update_effects(counter.data@, CountUpdate::SetTo(self.args.count)) {
                Ok(es) => r matches Ok(v) && effects_view(v@) == es,
                Err(e) => r == Err::<Vec<Effect>, CountUpdateV1Error>(e),
            },
    {
        rewrite_count(counter.data.as_slice(), CountUpdate::SetTo(self.args.count))
    }
}

// ---------------------------------------------------------------------------
// ReactivateCounterV1: accounts [payer, counter, system program]
// ---------------------------------------------------------------------------

/// Why a reactivate call is refused.
#[derive(Debug, Clone, Copy, PartialEq, Eq)]
pub enum ReactivateCounterV1Error {
    ProgramError(ProgramError),
    NotEnoughAccounts { expected: usize, observed: usize },
    PayerMustBeSigner,
    CounterMustBeWriteable,
    CounterAddressMismatch { expected: Address, observed: Address },
    SystemProgramAddressMismatch,
    DeserializeError(DecodeError),
    SerializeError,
    SerializedSizeMismatch { expected: usize, observed: usize },
    AccountDiscriminatorError(AccountDiscriminatorError),
}

/// What a validated reactivate call carries on to execution.
#[derive(Debug, Clone, Copy, PartialEq, Eq)]
pub struct ReactivateCounterV1Accounts {
    pub payer: Address,
    pub counter_bump: u8,
}

/// A validated reactivate call.
pub struct ReactivateCounterV1 {
    pub program_id: Address,
    pub accounts: ReactivateCounterV1Accounts,
}

/// The validation of a reactivate call's accounts, first failure first; the
/// storage account must be a deactivated one.
pub open spec fn reactivate_counter_checks(program_id: Address, accounts: Seq<AccountView>)
    -> Result<ReactivateCounterV1Accounts, ReactivateCounterV1Error>
{
    if accounts.len() != 3 {
        Err(ReactivateCounterV1Error::NotEnoughAccounts { expected: 3, observed: accounts.len() as usize })
    } else if !accounts[0].is_signer {
        Err(ReactivateCounterV1Error::PayerMustBeSigner)
    } else if !accounts[1].is_writable {
        Err(ReactivateCounterV1Error::CounterMustBeWriteable)
    } else {
        match counter_address(program_id, accounts[0].key) {
            None => Err(ReactivateCounterV1Error::ProgramError(ProgramError::InvalidSeeds)),
            Some((expected, bump)) => {
                if accounts[1].key != expected {
                    Err(ReactivateCounterV1Error::CounterAddressMismatch { expected, observed: accounts[1].key })
                } else if accounts[2].key != system_program_address() {
                    Err(ReactivateCounterV1Error::SystemProgramAddressMismatch)
                } else {
                    match AccountDiscriminator::spec_check(AccountDiscriminator::DeactivatedAccount, accounts[1].data@) {
                        Err(e) => Err(ReactivateCounterV1Error::AccountDiscriminatorError(e)),
                        Ok(_) => Ok(ReactivateCounterV1Accounts { payer: accounts[0].key, counter_bump: bump }),
                    }
                }
            },
        }
    }
}

/// Reactivate tops the account up from the payer to the record-size rent
/// minimum (when short), regrows it and writes a fresh record: a hard reset.
pub open spec fn reactivate_counter_effects(a: ReactivateCounterV1Accounts, counter_lamports: u64, rent: RentMinimums) -> Seq<EffectSpec> {
    let shortfall = saturating_sub(rent.record, counter_lamports);
    let rest = seq![
        EffectSpec::Resize { len: COUNTER_V1_SIZE as nat },
        EffectSpec::WriteData { data: encode_counter(initial_counter(a.payer@, a.counter_bump)) },
    ];
    if shortfall > 0 {
        seq![EffectSpec::Transfer { lamports: shortfall }] + rest
    } else {
        rest
    }
}

impl ReactivateCounterV1Accounts {
    /// Validates a reactivate call's accounts.
    pub fn try_from(program_id: &Address, accounts: &[AccountView]) -> (r: Result<ReactivateCounterV1Accounts, ReactivateCounterV1Error>)
        ensures
            r == reactivate_counter_checks(*program_id, accounts@),
    {
        if accounts.len() != 3 {
            return Err(ReactivateCounterV1Error::NotEnoughAccounts { expected: 3, observed: accounts.len() });
        }
        let payer = &accounts[0];
        let counter = &accounts[1];
        let system = &accounts[2];
        if !payer.is_signer {
            return Err(ReactivateCounterV1Error::PayerMustBeSigner);
        }
        if !counter.is_writable {
            return Err(ReactivateCounterV1Error::CounterMustBeWriteable);
        }
        let (expected_counter, counter_bump) = match try_find_counter_v1(program_id, &payer.key) {
            Some(found) => found,
            None => {
                return Err(ReactivateCounterV1Error::ProgramError(ProgramError::InvalidSeeds));
            },
        };
        if !address_eq(&counter.key, &expected_counter) {
            return Err(ReactivateCounterV1Error::CounterAddressMismatch { expected: expected_counter, observed: counter.key });
        }
        let system_id = system_program();
        if !address_eq(&system.key, &system_id) {
            return Err(ReactivateCounterV1Error::SystemProgramAddressMismatch);
        }
        match AccountDiscriminator::check(AccountDiscriminator::DeactivatedAccount, counter.data.as_slice()) {
            Err(e) => Err(ReactivateCounterV1Error::AccountDiscriminatorError(e)),
            Ok(_) => Ok(ReactivateCounterV1Accounts { payer: payer.key, counter_bump }),
        }
    }
}

impl ReactivateCounterV1 {
    /// Validates a reactivate call; it takes no payload.
    pub fn try_from(program_id: &Address, accounts: &[AccountView], args: &[u8]) -> (r: Result<ReactivateCounterV1, ReactivateCounterV1Error>)
        ensures
            match reactivate_counter_checks(*program_id, accounts@) {
                Ok(a) => r matches Ok(ix) && ix.program_id == *program_id && ix.accounts == a,
                Err(e) => r == Err::<ReactivateCounterV1, ReactivateCounterV1Error>(e),
            },
    {
        let accounts = ReactivateCounterV1Accounts::try_from(program_id, accounts)?;
        Ok(ReactivateCounterV1 { program_id: *program_id, accounts })
    }

    /// Plans the reactivation of `counter`, which holds `counter.lamports`.
    pub fn execute(&self, counter: &AccountView, rent: &RentMinimums) -> (r: Result<Vec<Effect>, ReactivateCounterV1Error>)
        ensures
            r matches Ok(v) && effects_view(v@) == reactivate_counter_effects(self.accounts, counter.lamports, *rent),
    {
        let shortfall = if rent.record >= counter.lamports {
            rent.record - counter.lamports
        } else {
            0
        };
        let mut effects: Vec<Effect> = Vec::new();
        if shortfall > 0 {
            effects.push(Effect::Transfer { lamports: shortfall });
        }
        effects.push(Effect::Resize { len: CounterV1::size() });
        let state = CounterV1::new(self.accounts.payer, self.accounts.counter_bump);
        let serialized = state.serialize();
        if serialized.len() != CounterV1::size() {
            return Err(ReactivateCounterV1Error::SerializedSizeMismatch { expected: CounterV1::size(), observed: serialized.len() });
        }
        effects.push(Effect::WriteData { data: serialized });
        assert(effects_view(effects@) =~= reactivate_counter_effects(self.accounts, counter.lamports, *rent));
        Ok(effects)
    }
}

} // verus!
