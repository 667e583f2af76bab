//! The host's view of an account, the host errors, and a model of the host
//! primitives that a lifecycle transition uses (account creation, transfers,
//! resizing, data writes).

use crate::address::Address;
use vstd::prelude::*;

verus! {

/// An account as an instruction sees it: its address, owning program,
/// lamport balance, data, and the signer / writable flags of the call.
#[derive(Debug, Clone)]
pub struct AccountView {
    pub key: Address,
    pub owner: Address,
    pub lamports: u64,
    pub data: Vec<u8>,
    pub is_signer: bool,
    pub is_writable: bool,
}

/// The mathematical value of an `AccountView`.
pub ghost struct AccountState {
    pub key: Seq<u8>,
    pub owner: Seq<u8>,
    pub lamports: u64,
    pub data: Seq<u8>,
    pub is_signer: bool,
    pub is_writable: bool,
}

impl View for AccountView {
    type V = AccountState;

    open spec fn view(&self) -> AccountState {
        AccountState {
            key: self.key@,
            owner: self.owner@,
            lamports: self.lamports,
            data: self.data@,
            is_signer: self.is_signer,
            is_writable: self.is_writable,
        }
    }
}

/// Errors raised by the host rather than by a service's own checks.
#[derive(Debug, Clone, Copy, PartialEq, Eq, Structural)]
pub enum ProgramError {
    /// A service-defined error code.
    Custom(u32),
    InvalidInstructionData,
    InvalidAccountData,
    AccountDataTooSmall,
    InsufficientFunds,
    AccountAlreadyInitialized,
    InvalidSeeds,
    ArithmeticOverflow,
}

/// The lamport minimums for rent exemption that a service needs: for a
/// deactivated (one-byte) account and for an active record of the service.
#[derive(Debug, Clone, Copy, PartialEq, Eq, Structural)]
pub struct RentMinimums {
    pub deactivated: u64,
    pub record: u64,
}

impl RentMinimums {
    /// A larger account never needs a smaller balance.
    pub open spec fn wf(&self) -> bool {
        self.deactivated <= self.record
    }
}

/// One step of a lifecycle transition, to be carried out by the host on the
/// instruction's first account (the authority: payer or owner) and its
/// second account (the storage account).
#[derive(Debug, Clone)]
pub enum Effect {
    /// The system program creates the storage account with `space` zeroed
    /// bytes, funded with `lamports` from the authority, and assigns it to the
    /// calling program.
    CreateAccount { space: usize, lamports: u64 },
    /// The system program moves `lamports` from the authority to storage.
    Transfer { lamports: u64 },
    /// The program moves `lamports` from storage (which it owns) to the authority.
    Release { lamports: u64 },
    /// The storage data is truncated or zero-extended to `len` bytes.
    Resize { len: usize },
    /// The first byte of the storage data is set to `value`.
    WriteFirstByte { value: u8 },
    /// The storage data is overwritten with `data`, of the same length.
    WriteData { data: Vec<u8> },
}

/// The mathematical value of an `Effect`.
pub ghost enum EffectSpec {
    CreateAccount { space: nat, lamports: u64 },
    Transfer { lamports: u64 },
    Release { lamports: u64 },
    Resize { len: nat },
    WriteFirstByte { value: u8 },
    WriteData { data: Seq<u8> },
}

impl View for Effect {
    type V = EffectSpec;

    open spec fn view(&self) -> EffectSpec {
        match self {
            Effect::CreateAccount { space, lamports } => EffectSpec::CreateAccount { space: *space as nat, lamports: *lamports },
            Effect::Transfer { lamports } => EffectSpec::Transfer { lamports: *lamports },
            Effect::Release { lamports } => EffectSpec::Release { lamports: *lamports },
            Effect::Resize { len } => EffectSpec::Resize { len: *len as nat },
            Effect::WriteFirstByte { value } => EffectSpec::WriteFirstByte { value: *value },
            Effect::WriteData { data } => EffectSpec::WriteData { data: data@ },
        }
    }
}

/// The view of a list of effects.
pub open spec fn effects_view(effects: Seq<Effect>) -> Seq<EffectSpec> {
    effects.map_values(|e: Effect| e@)
}

/// `data` cut or zero-extended to `len` bytes.
pub open spec fn resized(data: Seq<u8>, len: nat) -> Seq<u8> {
    if len <= data.len() {
        data.subrange(0, len as int)
    } else {
        data + Seq::new((len - data.len()) as nat, |_i: int| 0u8)
    }
}

/// What the host does to (authority, storage) for one effect.
pub open spec fn effect_result(program_id: Seq<u8>, authority: AccountState, storage: AccountState, effect: EffectSpec)
    -> Result<(AccountState, AccountState), ProgramError>
{
    match effect {
        EffectSpec::CreateAccount { space, lamports } => {
            if storage.lamports != 0 || storage.data.len() != 0 {
                Err(ProgramError::AccountAlreadyInitialized)
            } else if authority.lamports < lamports {
                Err(ProgramError::InsufficientFunds)
            } else {
                Ok((
                    AccountState { lamports: (authority.lamports - lamports) as u64, ..authority },
                    AccountState {
                        lamports,
                        data: Seq::new(space, |_i: int| 0u8),
                        owner: program_id,
                        ..storage
                    },
                ))
            }
        },
        EffectSpec::Transfer { lamports } => {
            if authority.lamports < lamports {
                Err(ProgramError::InsufficientFunds)
            } else if storage.lamports + lamports > u64::MAX {
                Err(ProgramError::ArithmeticOverflow)
            } else {
                Ok((
                    AccountState { lamports: (authority.lamports - lamports) as u64, ..authority },
                    AccountState { lamports: (storage.lamports + lamports) as u64, ..storage },
                ))
            }
        },
        EffectSpec::Release { lamports } => {
            if storage.lamports < lamports {
                Err(ProgramError::InsufficientFunds)
            } else if authority.lamports + lamports > u64::MAX {
                Err(ProgramError::ArithmeticOverflow)
            } else {
                Ok((
                    AccountState { lamports: (authority.lamports + lamports) as u64, ..authority },
                    AccountState { lamports: (storage.lamports - lamports) as u64, ..storage },
                ))
            }
        },
        EffectSpec::Resize { len } => Ok((authority, AccountState { data: resized(storage.data, len), ..storage })),
        EffectSpec::WriteFirstByte { value } => {
            if storage.data.len() == 0 {
                Err(ProgramError::AccountDataTooSmall)
            } else {
                Ok((authority, AccountState { data: storage.data.update(0, value), ..storage }))
            }
        },
        EffectSpec::WriteData { data } => {
            if data.len() != storage.data.len() {
                Err(ProgramError::AccountDataTooSmall)
            } else {
                Ok((authority, AccountState { data, ..storage }))
            }
        },
    }
}

/// What the host does to (authority, storage) for a list of effects, in
/// order; the first failure aborts the whole list.
pub open spec fn effects_result(program_id: Seq<u8>, authority: AccountState, storage: AccountState, effects: Seq<EffectSpec>)
    -> Result<(AccountState, AccountState), ProgramError>
    decreases effects.len(),
{
    if effects.len() == 0 {
        Ok((authority, storage))
    } else {
        match effect_result(program_id, authority, storage, effects[0]) {
            Ok((a, s)) => effects_result(program_id, a, s, effects.drop_first()),
            Err(e) => Err(e),
        }
    }
}

/// A vector of `len` zero bytes.
pub fn zeroed(len: usize) -> (r: Vec<u8>)
    ensures
        r@ == Seq::new(len as nat, |_i: int| 0u8),
{
    let mut r: Vec<u8> = Vec::new();
    let mut i: usize = 0;
    while i < len
        invariant
            i <= len,
            r@ == Seq::new(i as nat, |_i: int| 0u8),
        decreases len - i,
    {
        r.push(0u8);
        i += 1;
        assert(r@ =~= Seq::new(i as nat, |_i: int| 0u8));
    }
    r
}

/// Cuts or zero-extends `data` to `len` bytes.
fn resize_data(data: &mut Vec<u8>, len: usize)
    ensures
        final(data)@ == resized(old(data)@, len as nat),
{
    if len <= data.len() {
        data.truncate(len);
    } else {
        let start: usize = data.len();
        let ghost initial_data = data@;
        while data.len() < len
            invariant
                start <= data.len() <= len,
                start == initial_data.len(),
                data@ == initial_data + Seq::new((data.len() - start) as nat, |_i: int| 0u8),
            decreases len - data.len(),
        {
            data.push(0u8);
            assert(data@ =~= initial_data + Seq::new((data.len() - start) as nat, |_i: int| 0u8));
        }
    }
}

/// Carries out one effect on (authority, storage), as the host would.
pub fn apply_effect(program_id: &Address, authority: &mut AccountView, storage: &mut AccountView, effect: &Effect)
    -> (r: Result<(), ProgramError>)
    ensures
        match effect_result(program_id@, old(authority)@, old(storage)@, effect@) {
            Ok((a, s)) => r is Ok && final(authority)@ == a && final(storage)@ == s,
            Err(e) => r == Err::<(), ProgramError>(e),
        },
{
    match effect {
        Effect::CreateAccount { space, lamports } => {
            if storage.lamports != 0 || storage.data.len() != 0 {
                return Err(ProgramError::AccountAlreadyInitialized);
            }
            if authority.lamports < *lamports {
                return Err(ProgramError::InsufficientFunds);
            }
            authority.lamports = authority.lamports - *lamports;
            storage.lamports = *lamports;
            storage.data = zeroed(*space);
            storage.owner = *program_id;
            Ok(())
        },
        Effect::Transfer { lamports } => {
            if authority.lamports < *lamports {
                return Err(ProgramError::InsufficientFunds);
            }
            if storage.lamports > u64::MAX - *lamports {
                return Err(ProgramError::ArithmeticOverflow);
            }
            authority.lamports = authority.lamports - *lamports;
            storage.lamports = storage.lamports + *lamports;
            Ok(())
        },
        Effect::Release { lamports } => {
            if storage.lamports < *lamports {
                return Err(ProgramError::InsufficientFunds);
            }
            if authority.lamports > u64::MAX - *lamports {
                return Err(ProgramError::ArithmeticOverflow);
            }
            storage.lamports = storage.lamports - *lamports;
            authority.lamports = authority.lamports + *lamports;
            Ok(())
        },
        Effect::Resize { len } => {
            resize_data(&mut storage.data, *len);
            Ok(())
        },
        Effect::WriteFirstByte { value } => {
            if storage.data.len() == 0 {
                return Err(ProgramError::AccountDataTooSmall);
            }
            storage.data.set(0, *value);
            Ok(())
        },
        Effect::WriteData { data } => {
            if data.len() != storage.data.len() {
                return Err(ProgramError::AccountDataTooSmall);
            }
            let mut i: usize = 0;
            while i < data.len()
                invariant
                    i <= data@.len(),
                    storage.data@.len() == data@.len(),
                    forall|j: int| 0 <= j < i ==> storage.data@[j] == data@[j],
                    storage.key == old(storage).key,
                    storage.owner == old(storage).owner,
                    storage.lamports == old(storage).lamports,
                    storage.is_signer == old(storage).is_signer,
                    storage.is_writable == old(storage).is_writable,
                decreases data@.len() - i,
            {
                storage.data.set(i, data[i]);
                i += 1;
            }
            assert(storage.data@ =~= data@);
            Ok(())
        },
    }
}

/// Carries out a list of effects in order, stopping at the first failure.
pub fn apply_effects(program_id: &Address, authority: &mut AccountView, storage: &mut AccountView, effects: &Vec<Effect>)
    -> (r: Result<(), ProgramError>)
    ensures
        match effects_result(program_id@, old(authority)@, old(storage)@, effects_view(effects@)) {
            Ok((a, s)) => r is Ok && final(authority)@ == a && final(storage)@ == s,
            Err(e) => r == Err::<(), ProgramError>(e),
        },
{
    let ghost all = effects_view(effects@);
    assert(all.subrange(0, all.len() as int) =~= all);
    let mut i: usize = 0;
    while i < effects.len()
        invariant
            i <= effects@.len(),
            all == effects_view(effects@),
            effects_result(program_id@, old(authority)@, old(storage)@, all)
                == effects_result(program_id@, authority@, storage@, all.subrange(i as int, all.len() as int)),
        decreases effects@.len() - i,
    {
        let ghost rest = all.subrange(i as int, all.len() as int);
        assert(rest[0] == effects@[i as int]@);
        assert(rest.drop_first() =~= all.subrange(i + 1, all.len() as int));
        apply_effect(program_id, authority, storage, &effects[i])?;
        i += 1;
    }
    assert(all.subrange(i as int, all.len() as int) =~= Seq::<EffectSpec>::empty());
    Ok(())
}

} // verus!
