//! The vault operations: each validates its account list in a fixed order
//! (arity, signer / writable flags, derived address, owning program, then
//! content) and plans the host effects of its transition.
//!
//! Deposits and withdrawals move lamports, so besides the derived-address
//! check they also compare the owner stored in the record with the signer,
//! which keeps them safe should the address seeds ever change.

use crate::account::{effects_view, AccountView, Effect, EffectSpec, ProgramError, RentMinimums};
use crate::address::{address_eq, Address};
use crate::counter::instructions::{saturating_sub, system_program, system_program_address};
use crate::vault::account_discriminator::{
    AccountDiscriminator, AccountDiscriminatorError, DEACTIVATED_ACCOUNT_SIZE, DEACTIVATED_ACCOUNT_TAG,
};
use crate::vault::state::{decode_vault, encode_vault, initial_vault, VaultV1, VAULT_V1_SIZE};
use crate::vault::{try_find_vault_v1, vault_address};
use vstd::bytes::{spec_u64_from_le_bytes, u64_from_le_bytes};
use vstd::prelude::*;

verus! {

/// The amount in a deposit or withdraw payload: at least eight bytes, the
/// first eight of which are the amount, little-endian.
pub open spec fn amount_arg(data: Seq<u8>) -> Option<u64> {
    if data.len() < 8 {
        None
    } else {
        Some(spec_u64_from_le_bytes(data.subrange(0, 8)))
    }
}

/// Reads the amount of a deposit or withdraw payload.
fn parse_amount(data: &[u8]) -> (r: Option<u64>)
    ensures
        r == amount_arg(data@),
{
    if data.len() < 8 {
        return None;
    }
    Some(u64_from_le_bytes(vstd::slice::slice_subrange(data, 0, 8)))
}

// ---------------------------------------------------------------------------
// InitializeVaultV1: accounts [payer, vault, system program]
// ---------------------------------------------------------------------------

/// Why an initialize call is refused.
#[derive(Debug, Clone, Copy, PartialEq, Eq)]
pub enum InitializeVaultV1Error {
    ProgramError(ProgramError),
    NotEnoughAccounts { expected: usize, observed: usize },
    PayerMustBeSigner,
    PayerMustBeWriteable,
    VaultMustBeWriteable,
    VaultAddressMismatch { expected: Address, observed: Address },
    VaultMustBeEmpty,
    VaultMustHaveZeroLamports,
    VaultMustBeOwnedBySystemProgram,
    SystemProgramAddressMismatch,
    SerializedSizeMismatch { expected: usize, observed: usize },
}

/// What a validated initialize call carries on to execution.
#[derive(Debug, Clone, Copy, PartialEq, Eq)]
pub struct InitializeVaultV1Accounts {
    pub payer: Address,
    pub vault_bump: u8,
}

/// A validated initialize call.
pub struct InitializeVaultV1 {
    pub program_id: Address,
    pub accounts: InitializeVaultV1Accounts,
}

/// The validation of an initialize call's accounts, first failure first:
/// arity, flags, derived address, the system program account, then the
/// vault's content (empty, unfunded, still the system program's).
pub open spec fn initialize_vault_checks(program_id: Address, accounts: Seq<AccountView>)
    -> Result<InitializeVaultV1Accounts, InitializeVaultV1Error>
{
    if accounts.len() != 3 {
        Err(InitializeVaultV1Error::NotEnoughAccounts { expected: 3, observed: accounts.len() as usize })
    } else if !accounts[0].is_signer {
        Err(InitializeVaultV1Error::PayerMustBeSigner)
    } else if !accounts[0].is_writable {
        Err(InitializeVaultV1Error::PayerMustBeWriteable)
    } else if !accounts[1].is_writable {
        Err(InitializeVaultV1Error::VaultMustBeWriteable)
    } else {
        match vault_address(program_id, accounts[0].key) {
            None => Err(InitializeVaultV1Error::ProgramError(ProgramError::InvalidSeeds)),
            Some((expected, bump)) => {
                if accounts[1].key != expected {
                    Err(InitializeVaultV1Error::VaultAddressMismatch { expected, observed: accounts[1].key })
                } else if accounts[2].key != system_program_address() {
                    Err(InitializeVaultV1Error::SystemProgramAddressMismatch)
                } else if accounts[1].data@.len() != 0 {
                    Err(InitializeVaultV1Error::VaultMustBeEmpty)
                } else if accounts[1].lamports > 0 {
                    Err(InitializeVaultV1Error::VaultMustHaveZeroLamports)
                } else if accounts[1].owner != system_program_address() {
                    Err(InitializeVaultV1Error::VaultMustBeOwnedBySystemProgram)
                } else {
                    Ok(InitializeVaultV1Accounts { payer: accounts[0].key, vault_bump: bump })
                }
            },
        }
    }
}

/// Initialize creates the record-sized vault funded at the rent minimum and
/// writes its record.
pub open spec fn initialize_vault_effects(a: InitializeVaultV1Accounts, rent: RentMinimums) -> Seq<EffectSpec> {
    seq![
        EffectSpec::CreateAccount { space: VAULT_V1_SIZE as nat, lamports: rent.record },
        EffectSpec::WriteData { data: encode_vault(initial_vault(a.payer, a.vault_bump)) },
    ]
}

impl InitializeVaultV1Accounts {
    /// Validates an initialize call's accounts.
    pub fn try_from(program_id: &Address, accounts: &[AccountView]) -> (r: Result<InitializeVaultV1Accounts, InitializeVaultV1Error>)
        ensures
            r == initialize_vault_checks(*program_id, accounts@),
    {
        if accounts.len() != 3 {
            return Err(InitializeVaultV1Error::NotEnoughAccounts { expected: 3, observed: accounts.len() });
        }
        let payer = &accounts[0];
        let vault = &accounts[1];
        let system = &accounts[2];
        if !payer.is_signer {
            return Err(InitializeVaultV1Error::PayerMustBeSigner);
        }
        if !payer.is_writable {
            return Err(InitializeVaultV1Error::PayerMustBeWriteable);
        }
        if !vault.is_writable {
            return Err(InitializeVaultV1Error::VaultMustBeWriteable);
        }
        let (expected_vault, vault_bump) = match try_find_vault_v1(program_id, &payer.key) {
            Some(found) => found,
            None => {
                return Err(InitializeVaultV1Error::ProgramError(ProgramError::InvalidSeeds));
            },
        };
        if !address_eq(&vault.key, &expected_vault) {
            return Err(InitializeVaultV1Error::VaultAddressMismatch { expected: expected_vault, observed: vault.key });
        }
        let system_id = system_program();
        if !address_eq(&system.key, &system_id) {
            return Err(InitializeVaultV1Error::SystemProgramAddressMismatch);
        }
        if vault.data.len() != 0 {
            return Err(InitializeVaultV1Error::VaultMustBeEmpty);
        }
        if vault.lamports > 0 {
            return Err(InitializeVaultV1Error::VaultMustHaveZeroLamports);
        }
        if !address_eq(&vault.owner, &system_id) {
            return Err(InitializeVaultV1Error::VaultMustBeOwnedBySystemProgram);
        }
        Ok(InitializeVaultV1Accounts { payer: payer.key, vault_bump })
    }
}

impl InitializeVaultV1 {
    /// Validates an initialize call; it takes no payload.
    pub fn try_from(program_id: &Address, accounts: &[AccountView], args: &[u8]) -> (r: Result<InitializeVaultV1, InitializeVaultV1Error>)
        ensures
            match initialize_vault_checks(*program_id, accounts@) {
                Ok(a) => r matches Ok(ix) && ix.program_id == *program_id && ix.accounts == a,
                Err(e) => r == Err::<InitializeVaultV1, InitializeVaultV1Error>(e),
            },
    {
        let accounts = InitializeVaultV1Accounts::try_from(program_id, accounts)?;
        Ok(InitializeVaultV1 { program_id: *program_id, accounts })
    }

    /// Plans the creation of the vault account and its record.
    pub fn execute(&self, rent: &RentMinimums) -> (r: Result<Vec<Effect>, InitializeVaultV1Error>)
        ensures
            r matches Ok(v) && effects_view(v@) == initialize_vault_effects(self.accounts, *rent),
    {
        let state = VaultV1 {
            discriminator: AccountDiscriminator::VaultV1Account,
            owner: self.accounts.payer,
            bump: self.accounts.vault_bump,
        };
        let serialized = vstd::slice::slice_to_vec(state.to_bytes().as_slice());
        if serialized.len() != VaultV1::size() {
            return Err(InitializeVaultV1Error::SerializedSizeMismatch { expected: VaultV1::size(), observed: serialized.len() });
        }
        let mut effects: Vec<Effect> = Vec::new();
        effects.push(Effect::CreateAccount { space: VaultV1::size(), lamports: rent.record });
        effects.push(Effect::WriteData { data: serialized });
        assert(effects_view(effects@) =~= initialize_vault_effects(self.accounts, *rent));
        Ok(effects)
    }
}

// ---------------------------------------------------------------------------
// DepositV1: accounts [owner, vault, system program]
// ---------------------------------------------------------------------------

/// Why a deposit is refused.
#[derive(Debug, Clone, Copy, PartialEq, Eq)]
pub enum DepositV1Error {
    ProgramError(ProgramError),
    NotEnoughAccounts { expected: usize, observed: usize },
    OwnerMustBeSigner,
    OwnerMustBeWriteable,
    VaultMustBeWriteable,
    VaultAddressMismatch { expected: Address, observed: Address },
    VaultMustBeOwnedByProgram,
    SystemProgramAddressMismatch,
    AccountDiscriminatorError(AccountDiscriminatorError),
    InvalidInstructionData,
    OwnerMismatch { expected: Address, observed: Address },
}

/// The payload of a deposit.
#[derive(Debug, Clone, Copy, PartialEq, Eq)]
pub struct DepositV1Args {
    pub amount: u64,
}

/// What a validated deposit carries on to execution.
#[derive(Debug, Clone, Copy, PartialEq, Eq)]
pub struct DepositV1Accounts {
    pub owner: Address,
}

/// A validated deposit.
pub struct DepositV1 {
    pub program_id: Address,
    pub accounts: DepositV1Accounts,
    pub args: DepositV1Args,
}

/// The validation of a deposit's accounts, first failure first: arity,
/// flags, derived address, owning program, the system program account, then
/// the discriminator guard.
pub open spec fn deposit_checks(program_id: Address, accounts: Seq<AccountView>) -> Result<DepositV1Accounts, DepositV1Error> {
    if accounts.len() != 3 {
        Err(DepositV1Error::NotEnoughAccounts { expected: 3, observed: accounts.len() as usize })
    } else if !accounts[0].is_signer {
        Err(DepositV1Error::OwnerMustBeSigner)
    } else if !accounts[0].is_writable {
        Err(DepositV1Error::OwnerMustBeWriteable)
    } else if !accounts[1].is_writable {
        Err(DepositV1Error::VaultMustBeWriteable)
    } else {
        match vault_address(program_id, accounts[0].key) {
            None => Err(DepositV1Error::ProgramError(ProgramError::InvalidSeeds)),
            Some((expected, _bump)) => {
                if accounts[1].key != expected {
                    Err(DepositV1Error::VaultAddressMismatch { expected, observed: accounts[1].key })
                } else if accounts[1].owner != program_id {
                    Err(DepositV1Error::VaultMustBeOwnedByProgram)
                } else if accounts[2].key != system_program_address() {
                    Err(DepositV1Error::SystemProgramAddressMismatch)
                } else {
                    match AccountDiscriminator::spec_check(AccountDiscriminator::VaultV1Account, accounts[1].data@) {
                        Err(e) => Err(DepositV1Error::AccountDiscriminatorError(e)),
                        Ok(_) => Ok(DepositV1Accounts { owner: accounts[0].key }),
                    }
                }
            },
        }
    }
}

/// A deposit re-checks the stored owner against the signer, then has the
/// system program move `amount` from the owner into the vault.
pub open spec fn deposit_effects(owner: Address, vault_data: Seq<u8>, amount: u64) -> Result<Seq<EffectSpec>, DepositV1Error> {
    match decode_vault(vault_data) {
        Err(_) => Err(DepositV1Error::ProgramError(ProgramError::InvalidAccountData)),
        Ok(record) => {
            if record.owner != owner {
                Err(DepositV1Error::OwnerMismatch { expected: record.owner, observed: owner })
            } else {
                Ok(seq![EffectSpec::Transfer { lamports: amount }])
            }
        },
    }
}

impl DepositV1Args {
    /// Reads a deposit payload; fewer than eight bytes are refused.
    pub fn parse(data: &[u8]) -> (r: Result<DepositV1Args, DepositV1Error>)
        ensures
            match amount_arg(data@) {
                Some(amount) => r == Ok::<DepositV1Args, DepositV1Error>(DepositV1Args { amount }),
                None => r == Err::<DepositV1Args, DepositV1Error>(DepositV1Error::InvalidInstructionData),
            },
    {
        match parse_amount(data) {
            Some(amount) => Ok(DepositV1Args { amount }),
            None => Err(DepositV1Error::InvalidInstructionData),
        }
    }
}

impl DepositV1Accounts {
    /// Validates a deposit's accounts.
    pub fn try_from(program_id: &Address, accounts: &[AccountView]) -> (r: Result<DepositV1Accounts, DepositV1Error>)
        ensures
            r == deposit_checks(*program_id, accounts@),
    {
        if accounts.len() != 3 {
            return Err(DepositV1Error::NotEnoughAccounts { expected: 3, observed: accounts.len() });
        }
        let owner = &accounts[0];
        let vault = &accounts[1];
        let system = &accounts[2];
        if !owner.is_signer {
            return Err(DepositV1Error::OwnerMustBeSigner);
        }
        if !owner.is_writable {
            return Err(DepositV1Error::OwnerMustBeWriteable);
        }
        if !vault.is_writable {
            return Err(DepositV1Error::VaultMustBeWriteable);
        }
        let (expected_vault, _bump) = match try_find_vault_v1(program_id, &owner.key) {
            Some(found) => found,
            None => {
                return Err(DepositV1Error::ProgramError(ProgramError::InvalidSeeds));
            },
        };
        if !address_eq(&vault.key, &expected_vault) {
            return Err(DepositV1Error::VaultAddressMismatch { expected: expected_vault, observed: vault.key });
        }
        if !address_eq(&vault.owner, program_id) {
            return Err(DepositV1Error::VaultMustBeOwnedByProgram);
        }
        let system_id = system_program();
        if !address_eq(&system.key, &system_id) {
            return Err(DepositV1Error::SystemProgramAddressMismatch);
        }
        match AccountDiscriminator::check(AccountDiscriminator::VaultV1Account, vault.data.as_slice()) {
            Err(e) => Err(DepositV1Error::AccountDiscriminatorError(e)),
            Ok(_) => Ok(DepositV1Accounts { owner: owner.key }),
        }
    }
}

impl DepositV1 {
    /// Validates a deposit: its accounts first, then its payload.
    pub fn try_from(program_id: &Address, accounts: &[AccountView], args: &[u8]) -> (r: Result<DepositV1, DepositV1Error>)
        ensures
            match deposit_checks(*program_id, accounts@) {
                Ok(a) => match amount_arg(args@) {
                    Some(amount) => r matches Ok(ix) && ix.program_id == *program_id && ix.accounts == a && ix.args.amount == amount,
                    None => r == Err::<DepositV1, DepositV1Error>(DepositV1Error::InvalidInstructionData),
                },
                Err(e) => r == Err::<DepositV1, DepositV1Error>(e),
            },
    {
        let accounts = DepositV1Accounts::try_from(program_id, accounts)?;
        let args = DepositV1Args::parse(args)?;
        Ok(DepositV1 { program_id: *program_id, accounts, args })
    }

    /// Plans the deposit into `vault`.
    pub fn execute(&self, vault: &AccountView) -> (r: Result<Vec<Effect>, DepositV1Error>)
        ensures
            match deposit_effects(self.accounts.owner, vault.data@, self.args.amount) {
                Ok(es) => r matches Ok(v) && effects_view(v@) == es,
                Err(e) => r == Err::<Vec<Effect>, DepositV1Error>(e),
            },
    {
        let vault_state = match VaultV1::from_bytes(vault.data.as_slice()) {
            Ok(v) => v,
            Err(_) => {
                return Err(DepositV1Error::ProgramError(ProgramError::InvalidAccountData));
            },
        };
        if !address_eq(&vault_state.owner(), &self.accounts.owner) {
            return Err(DepositV1Error::OwnerMismatch { expected: vault_state.owner(), observed: self.accounts.owner });
        }
        let mut effects: Vec<Effect> = Vec::new();
        effects.push(Effect::Transfer { lamports: self.args.amount });
        assert(effects_view(effects@) =~= seq![EffectSpec::Transfer { lamports: self.args.amount }]);
        Ok(effects)
    }
}

// ---------------------------------------------------------------------------
// WithdrawV1: accounts [owner, vault]
// ---------------------------------------------------------------------------

/// Why a withdrawal is refused.
#[derive(Debug, Clone, Copy, PartialEq, Eq)]
pub enum WithdrawV1Error {
    ProgramError(ProgramError),
    NotEnoughAccounts { expected: usize, observed: usize },
    OwnerMustBeSigner,
    OwnerMustBeWriteable,
    VaultMustBeWriteable,
    VaultAddressMismatch { expected: Address, observed: Address },
    VaultMustBeOwnedByProgram,
    AccountDiscriminatorError(AccountDiscriminatorError),
    InvalidInstructionData,
    OwnerMismatch { expected: Address, observed: Address },
    InsufficientFunds { available: u64, requested: u64 },
    WouldViolateRentMinimum { available: u64, requested: u64, rent_minimum: u64 },
}

/// The payload of a withdrawal.
#[derive(Debug, Clone, Copy, PartialEq, Eq)]
pub struct WithdrawV1Args {
    pub amount: u64,
}

/// What a validated withdrawal carries on to execution.
#[derive(Debug, Clone, Copy, PartialEq, Eq)]
pub struct WithdrawV1Accounts {
    pub owner: Address,
    pub vault_bump: u8,
}

/// A validated withdrawal.
pub struct WithdrawV1 {
    pub program_id: Address,
    pub accounts: WithdrawV1Accounts,
    pub args: WithdrawV1Args,
}

/// The validation of a withdrawal's accounts, first failure first.
pub open spec fn withdraw_checks(program_id: Address, accounts: Seq<AccountView>) -> Result<WithdrawV1Accounts, WithdrawV1Error> {
    if accounts.len() != 2 {
        Err(WithdrawV1Error::NotEnoughAccounts { expected: 2, observed: accounts.len() as usize })
    } else if !accounts[0].is_signer {
        Err(WithdrawV1Error::OwnerMustBeSigner)
    } else if !accounts[0].is_writable {
        Err(WithdrawV1Error::OwnerMustBeWriteable)
    } else if !accounts[1].is_writable {
        Err(WithdrawV1Error::VaultMustBeWriteable)
    } else {
        match vault_address(program_id, accounts[0].key) {
            None => Err(WithdrawV1Error::ProgramError(ProgramError::InvalidSeeds)),
            Some((expected, bump)) => {
                if accounts[1].key != expected {
                    Err(WithdrawV1Error::VaultAddressMismatch { expected, observed: accounts[1].key })
                } else if accounts[1].owner != program_id {
                    Err(WithdrawV1Error::VaultMustBeOwnedByProgram)
                } else {
                    match AccountDiscriminator::spec_check(AccountDiscriminator::VaultV1Account, accounts[1].data@) {
                        Err(e) => Err(WithdrawV1Error::AccountDiscriminatorError(e)),
                        Ok(_) => Ok(WithdrawV1Accounts { owner: accounts[0].key, vault_bump: bump }),
                    }
                }
            },
        }
    }
}

/// A withdrawal re-checks the stored owner, then pays out `amount` only from
/// the lamports above the vault's rent minimum; a vault already below its
/// minimum pays out nothing.
pub open spec fn withdraw_effects(owner: Address, vault_data: Seq<u8>, vault_lamports: u64, amount: u64, rent: RentMinimums)
    -> Result<Seq<EffectSpec>, WithdrawV1Error>
{
    match decode_vault(vault_data) {
        Err(_) => Err(WithdrawV1Error::ProgramError(ProgramError::InvalidAccountData)),
        Ok(record) => {
            let available = saturating_sub(vault_lamports, rent.record);
            if record.owner != owner {
                Err(WithdrawV1Error::OwnerMismatch { expected: record.owner, observed: owner })
            } else if available < amount {
                Err(WithdrawV1Error::InsufficientFunds { available, requested: amount })
            } else if saturating_sub(vault_lamports, amount) < rent.record {
                Err(WithdrawV1Error::WouldViolateRentMinimum { available, requested: amount, rent_minimum: rent.record })
            } else {
                Ok(seq![EffectSpec::Release { lamports: amount }])
            }
        },
    }
}

impl WithdrawV1Args {
    /// Reads a withdraw payload; fewer than eight bytes are refused.
    pub fn parse(data: &[u8]) -> (r: Result<WithdrawV1Args, WithdrawV1Error>)
        ensures
            match amount_arg(data@) {
                Some(amount) => r == Ok::<WithdrawV1Args, WithdrawV1Error>(WithdrawV1Args { amount }),
                None => r == Err::<WithdrawV1Args, WithdrawV1Error>(WithdrawV1Error::InvalidInstructionData),
            },
    {
        match parse_amount(data) {
            Some(amount) => Ok(WithdrawV1Args { amount }),
            None => Err(WithdrawV1Error::InvalidInstructionData),
        }
    }
}

impl WithdrawV1Accounts {
    /// Validates a withdrawal's accounts.
    pub fn try_from(program_id: &Address, accounts: &[AccountView]) -> (r: Result<WithdrawV1Accounts, WithdrawV1Error>)
        ensures
            r == withdraw_checks(*program_id, accounts@),
    {
        if accounts.len() != 2 {
            return Err(WithdrawV1Error::NotEnoughAccounts { expected: 2, observed: accounts.len() });
        }
        let owner = &accounts[0];
        let vault = &accounts[1];
        if !owner.is_signer {
            return Err(WithdrawV1Error::OwnerMustBeSigner);
        }
        if !owner.is_writable {
            return Err(WithdrawV1Error::OwnerMustBeWriteable);
        }
        if !vault.is_writable {
            return Err(WithdrawV1Error::VaultMustBeWriteable);
        }
        let (expected_vault, vault_bump) = match try_find_vault_v1(program_id, &owner.key) {
            Some(found) => found,
            None => {
                return Err(WithdrawV1Error::ProgramError(ProgramError::InvalidSeeds));
            },
        };
        if !address_eq(&vault.key, &expected_vault) {
            return Err(WithdrawV1Error::VaultAddressMismatch { expected: expected_vault, observed: vault.key });
        }
        if !address_eq(&vault.owner, program_id) {
            return Err(WithdrawV1Error::VaultMustBeOwnedByProgram);
        }
        match AccountDiscriminator::check(AccountDiscriminator::VaultV1Account, vault.data.as_slice()) {
            Err(e) => Err(WithdrawV1Error::AccountDiscriminatorError(e)),
            Ok(_) => Ok(WithdrawV1Accounts { owner: owner.key, vault_bump }),
        }
    }
}

impl WithdrawV1 {
    /// Validates a withdrawal: its accounts first, then its payload.
    pub fn try_from(program_id: &Address, accounts: &[AccountView], args: &[u8]) -> (r: Result<WithdrawV1, WithdrawV1Error>)
        ensures
            match withdraw_checks(*program_id, accounts@) {
                Ok(a) => match amount_arg(args@) {
                    Some(amount) => r matches Ok(ix) && ix.program_id == *program_id && ix.accounts == a && ix.args.amount == amount,
                    None => r == Err::<WithdrawV1, WithdrawV1Error>(WithdrawV1Error::InvalidInstructionData),
                },
                Err(e) => r == Err::<WithdrawV1, WithdrawV1Error>(e),
            },
    {
        let accounts = WithdrawV1Accounts::try_from(program_id, accounts)?;
        let args = WithdrawV1Args::parse(args)?;
        Ok(WithdrawV1 { program_id: *program_id, accounts, args })
    }

    /// Plans the withdrawal from `vault`, keeping its rent minimum in place.
    pub fn execute(&self, vault: &AccountView, rent: &RentMinimums) -> (r: Result<Vec<Effect>, WithdrawV1Error>)
        ensures
            match withdraw_effects(self.accounts.owner, vault.data@, vault.lamports, self.args.amount, *rent) {
                Ok(es) => r matches Ok(v) && effects_view(v@) == es,
                Err(e) => r == Err::<Vec<Effect>, WithdrawV1Error>(e),
            },
    {
        let amount = self.args.amount;
        let vault_state = match VaultV1::from_bytes(vault.data.as_slice()) {
            Ok(v) => v,
            Err(_) => {
                return Err(WithdrawV1Error::ProgramError(ProgramError::InvalidAccountData));
            },
        };
        if !address_eq(&vault_state.owner(), &self.accounts.owner) {
            return Err(WithdrawV1Error::OwnerMismatch { expected: vault_state.owner(), observed: self.accounts.owner });
        }
        let rent_exempt_minimum = rent.record;
        let vault_lamports = vault.lamports;
        let available = vault_lamports.saturating_sub(rent_exempt_minimum);
        if available < amount {
            return Err(WithdrawV1Error::InsufficientFunds { available, requested: amount });
        }
        let remaining_after_withdraw = vault_lamports.saturating_sub(amount);
        if remaining_after_withdraw < rent_exempt_minimum {
            return Err(WithdrawV1Error::WouldViolateRentMinimum { available, requested: amount, rent_minimum: rent_exempt_minimum });
        }
        let mut effects: Vec<Effect> = Vec::new();
        effects.push(Effect::Release { lamports: amount });
        assert(effects_view(effects@) =~= seq![EffectSpec::Release { lamports: amount }]);
        Ok(effects)
    }
}

// ---------------------------------------------------------------------------
// DeactivateVaultV1: accounts [owner, vault]
// ---------------------------------------------------------------------------

/// Why a deactivate call is refused.
#[derive(Debug, Clone, Copy, PartialEq, Eq)]
pub enum DeactivateVaultV1Error {
    ProgramError(ProgramError),
    NotEnoughAccounts { expected: usize, observed: usize },
    OwnerMustBeSigner,
    OwnerMustBeWriteable,
    VaultMustBeWriteable,
    VaultAddressMismatch { expected: Address, observed: Address },
    AccountDiscriminatorError(AccountDiscriminatorError),
}

/// What a validated deactivate call carries on to execution.
#[derive(Debug, Clone, Copy, PartialEq, Eq)]
pub struct DeactivateVaultV1Accounts {
    pub owner: Address,
    pub vault_bump: u8,
}

/// A validated deactivate call.
pub struct DeactivateVaultV1 {
    pub program_id: Address,
    pub accounts: DeactivateVaultV1Accounts,
}

/// The validation of a deactivate call's accounts, first failure first.
pub open spec fn deactivate_vault_checks(program_id: Address, accounts: Seq<AccountView>)
    -> Result<DeactivateVaultV1Accounts, DeactivateVaultV1Error>
{
    if accounts.len() != 2 {
        Err(DeactivateVaultV1Error::NotEnoughAccounts { expected: 2, observed: accounts.len() as usize })
    } else if !accounts[0].is_signer {
        Err(DeactivateVaultV1Error::OwnerMustBeSigner)
    } else if !accounts[0].is_writable {
        Err(DeactivateVaultV1Error::OwnerMustBeWriteable)
    } else if !accounts[1].is_writable {
        Err(DeactivateVaultV1Error::VaultMustBeWriteable)
    } else {
        match vault_address(program_id, accounts[0].key) {
            None => Err(DeactivateVaultV1Error::ProgramError(ProgramError::InvalidSeeds)),
            Some((expected, bump)) => {
                if accounts[1].key != expected {
                    Err(DeactivateVaultV1Error::VaultAddressMismatch { expected, observed: accounts[1].key })
                } else {
                    match AccountDiscriminator::spec_check(AccountDiscriminator::VaultV1Account, accounts[1].data@) {
                        Err(e) => Err(DeactivateVaultV1Error::AccountDiscriminatorError(e)),
                        Ok(_) => Ok(DeactivateVaultV1Accounts { owner: accounts[0].key, vault_bump: bump }),
                    }
                }
            },
        }
    }
}

/// Deactivate tags the vault deactivated before shrinking it to one byte,
/// then hands every lamport above the one-byte rent minimum to the owner.
pub open spec fn deactivate_vault_effects(vault_lamports: u64, rent: RentMinimums) -> Seq<EffectSpec> {
    seq![
        EffectSpec::WriteFirstByte { value: DEACTIVATED_ACCOUNT_TAG },
        EffectSpec::Resize { len: DEACTIVATED_ACCOUNT_SIZE as nat },
        EffectSpec::Release { lamports: saturating_sub(vault_lamports, rent.deactivated) },
    ]
}

impl DeactivateVaultV1Accounts {
    /// Validates a deactivate call's accounts.
    pub fn try_from(program_id: &Address, accounts: &[AccountView]) -> (r: Result<DeactivateVaultV1Accounts, DeactivateVaultV1Error>)
        ensures
            r == deactivate_vault_checks(*program_id, accounts@),
    {
        if accounts.len() != 2 {
            return Err(DeactivateVaultV1Error::NotEnoughAccounts { expected: 2, observed: accounts.len() });
        }
        let owner = &accounts[0];
        let vault = &accounts[1];
        if !owner.is_signer {
            return Err(DeactivateVaultV1Error::OwnerMustBeSigner);
        }
        if !owner.is_writable {
            return Err(DeactivateVaultV1Error::OwnerMustBeWriteable);
        }
        if !vault.is_writable {
            return Err(DeactivateVaultV1Error::VaultMustBeWriteable);
        }
        let (expected_vault, vault_bump) = match try_find_vault_v1(program_id, &owner.key) {
            Some(found) => found,
            None => {
                return Err(DeactivateVaultV1Error::ProgramError(ProgramError::InvalidSeeds));
            },
        };
        if !address_eq(&vault.key, &expected_vault) {
            return Err(DeactivateVaultV1Error::VaultAddressMismatch { expected: expected_vault, observed: vault.key });
        }
        match AccountDiscriminator::check(AccountDiscriminator::VaultV1Account, vault.data.as_slice()) {
            Err(e) => Err(DeactivateVaultV1Error::AccountDiscriminatorError(e)),
            Ok(_) => Ok(DeactivateVaultV1Accounts { owner: owner.key, vault_bump }),
        }
    }
}

impl DeactivateVaultV1 {
    /// Validates a deactivate call; it takes no payload.
    pub fn try_from(program_id: &Address, accounts: &[AccountView], args: &[u8]) -> (r: Result<DeactivateVaultV1, DeactivateVaultV1Error>)
        ensures
            match deactivate_vault_checks(*program_id, accounts@) {
                Ok(a) => r matches Ok(ix) && ix.program_id == *program_id && ix.accounts == a,
                Err(e) => r == Err::<DeactivateVaultV1, DeactivateVaultV1Error>(e),
            },
    {
        let accounts = DeactivateVaultV1Accounts::try_from(program_id, accounts)?;
        Ok(DeactivateVaultV1 { program_id: *program_id, accounts })
    }

    /// Plans the deactivation of `vault`, which holds `vault.lamports`.
    pub fn execute(&self, vault: &AccountView, rent: &RentMinimums) -> (r: Result<Vec<Effect>, DeactivateVaultV1Error>)
        ensures
            r matches Ok(v) && effects_view(v@) == deactivate_vault_effects(vault.lamports, *rent),
    {
        let excess = vault.lamports.saturating_sub(rent.deactivated);
        let mut effects: Vec<Effect> = Vec::new();
        effects.push(Effect::WriteFirstByte { value: DEACTIVATED_ACCOUNT_TAG });
        effects.push(Effect::Resize { len: DEACTIVATED_ACCOUNT_SIZE });
        effects.push(Effect::Release { lamports: excess });
        assert(effects_view(effects@) =~= deactivate_vault_effects(vault.lamports, *rent));
        Ok(effects)
    }
}

// ---------------------------------------------------------------------------
// ReactivateVaultV1: accounts [payer, vault, system program]
// ---------------------------------------------------------------------------

/// Why a reactivate call is refused.
#[derive(Debug, Clone, Copy, PartialEq, Eq)]
pub enum ReactivateVaultV1Error {
    ProgramError(ProgramError),
    NotEnoughAccounts { expected: usize, observed: usize },
    PayerMustBeSigner,
    PayerMustBeWriteable,
    VaultMustBeWriteable,
    VaultAddressMismatch { expected: Address, observed: Address },
    SystemProgramAddressMismatch,
    AccountDiscriminatorError(AccountDiscriminatorError),
    SerializedSizeMismatch { expected: usize, observed: usize },
}

/// What a validated reactivate call carries on to execution.
#[derive(Debug, Clone, Copy, PartialEq, Eq)]
pub struct ReactivateVaultV1Accounts {
    pub payer: Address,
    pub vault_bump: u8,
}

/// A validated reactivate call.
pub struct ReactivateVaultV1 {
    pub program_id: Address,
    pub accounts: ReactivateVaultV1Accounts,
}

/// The validation of a reactivate call's accounts, first failure first; the
/// vault must be a deactivated one.
pub open spec fn reactivate_vault_checks(program_id: Address, accounts: Seq<AccountView>)
    -> Result<ReactivateVaultV1Accounts, ReactivateVaultV1Error>
{
    if accounts.len() != 3 {
        Err(ReactivateVaultV1Error::NotEnoughAccounts { expected: 3, observed: accounts.len() as usize })
    } else if !accounts[0].is_signer {
        Err(ReactivateVaultV1Error::PayerMustBeSigner)
    } else if !accounts[0].is_writable {
        Err(ReactivateVaultV1Error::PayerMustBeWriteable)
    } else if !accounts[1].is_writable {
        Err(ReactivateVaultV1Error::VaultMustBeWriteable)
    } else {
        match vault_address(program_id, accounts[0].key) {
            None => Err(ReactivateVaultV1Error::ProgramError(ProgramError::InvalidSeeds)),
            Some((expected, bump)) => {
                if accounts[1].key != expected {
                    Err(ReactivateVaultV1Error::VaultAddressMismatch { expected, observed: accounts[1].key })
                } else if accounts[2].key != system_program_address() {
                    Err(ReactivateVaultV1Error::SystemProgramAddressMismatch)
                } else {
                    match AccountDiscriminator::spec_check(AccountDiscriminator::DeactivatedAccount, accounts[1].data@) {
                        Err(e) => Err(ReactivateVaultV1Error::AccountDiscriminatorError(e)),
                        Ok(_) => Ok(ReactivateVaultV1Accounts { payer: accounts[0].key, vault_bump: bump }),
                    }
                }
            },
        }
    }
}

/// Reactivate tops the vault up from the payer to the record-size rent
/// minimum (when short), regrows it and writes its record.
pub open spec fn reactivate_vault_effects(a: ReactivateVaultV1Accounts, vault_lamports: u64, rent: RentMinimums) -> Seq<EffectSpec> {
    let shortfall = saturating_sub(rent.record, vault_lamports);
    let rest = seq![
        EffectSpec::Resize { len: VAULT_V1_SIZE as nat },
        EffectSpec::WriteData { data: encode_vault(initial_vault(a.payer, a.vault_bump)) },
    ];
    if shortfall > 0 {
        seq![EffectSpec::Transfer { lamports: shortfall }] + rest
    } else {
        rest
    }
}

impl ReactivateVaultV1Accounts {
    /// Validates a reactivate call's accounts.
    pub fn try_from(program_id: &Address, accounts: &[AccountView]) -> (r: Result<ReactivateVaultV1Accounts, ReactivateVaultV1Error>)
        ensures
            r == reactivate_vault_checks(*program_id, accounts@),
    {
        if accounts.len() != 3 {
            return Err(ReactivateVaultV1Error::NotEnoughAccounts { expected: 3, observed: accounts.len() });
        }
        let payer = &accounts[0];
        let vault = &accounts[1];
        let system = &accounts[2];
        if !payer.is_signer {
            return Err(ReactivateVaultV1Error::PayerMustBeSigner);
        }
        if !payer.is_writable {
            return Err(ReactivateVaultV1Error::PayerMustBeWriteable);
        }
        if !vault.is_writable {
            return Err(ReactivateVaultV1Error::VaultMustBeWriteable);
        }
        let (expected_vault, vault_bump) = match try_find_vault_v1(program_id, &payer.key) {
            Some(found) => found,
            None => {
                return Err(ReactivateVaultV1Error::ProgramError(ProgramError::InvalidSeeds));
            },
        };
        if !address_eq(&vault.key, &expected_vault) {
            return Err(ReactivateVaultV1Error::VaultAddressMismatch { expected: expected_vault, observed: vault.key });
        }
        let system_id = system_program();
        if !address_eq(&system.key, &system_id) {
            return Err(ReactivateVaultV1Error::SystemProgramAddressMismatch);
        }
        match AccountDiscriminator::check(AccountDiscriminator::DeactivatedAccount, vault.data.as_slice()) {
            Err(e) => Err(ReactivateVaultV1Error::AccountDiscriminatorError(e)),
            Ok(_) => Ok(ReactivateVaultV1Accounts { payer: payer.key, vault_bump }),
        }
    }
}

impl ReactivateVaultV1 {
    /// Validates a reactivate call; it takes no payload.
    pub fn try_from(program_id: &Address, accounts: &[AccountView], args: &[u8]) -> (r: Result<ReactivateVaultV1, ReactivateVaultV1Error>)
        ensures
            match reactivate_vault_checks(*program_id, accounts@) {
                Ok(a) => r matches Ok(ix) && ix.program_id == *program_id && ix.accounts == a,
                Err(e) => r == Err::<ReactivateVaultV1, ReactivateVaultV1Error>(e),
            },
    {
        let accounts = ReactivateVaultV1Accounts::try_from(program_id, accounts)?;
        Ok(ReactivateVaultV1 { program_id: *program_id, accounts })
    }

    /// Plans the reactivation of `vault`, which holds `vault.lamports`.
    pub fn execute(&self, vault: &AccountView, rent: &RentMinimums) -> (r: Result<Vec<Effect>, ReactivateVaultV1Error>)
        ensures
            r matches Ok(v) && effects_view(v@) == reactivate_vault_effects(self.accounts, vault.lamports, *rent),
    {
        let shortfall = rent.record.saturating_sub(vault.lamports);
        let mut effects: Vec<Effect> = Vec::new();
        if shortfall > 0 {
            effects.push(Effect::Transfer { lamports: shortfall });
        }
        effects.push(Effect::Resize { len: VaultV1::size() });
        let state = VaultV1 {
            discriminator: AccountDiscriminator::VaultV1Account,
            owner: self.accounts.payer,
            bump: self.accounts.vault_bump,
        };
        let serialized = vstd::slice::slice_to_vec(state.to_bytes().as_slice());
        if serialized.len() != VaultV1::size() {
            return Err(ReactivateVaultV1Error::SerializedSizeMismatch { expected: VaultV1::size(), observed: serialized.len() });
        }
        effects.push(Effect::WriteData { data: serialized });
        assert(effects_view(effects@) =~= reactivate_vault_effects(self.accounts, vault.lamports, *rent));
        Ok(effects)
    }
}

} // verus!
