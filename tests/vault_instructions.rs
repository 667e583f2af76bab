use pinocchio_counter::vault::processor::process_instruction;
use pinocchio_counter::vault::state::VaultV1;
use pinocchio_counter::vault::try_find_vault_v1;
use pinocchio_counter::{AccountView, Address, ProgramError, RentMinimums};

const PROGRAM: Address = [31; 32];
const OWNER: Address = [32; 32];
const OTHER: Address = [33; 32];
const SYSTEM: Address = [0; 32];
const RENT: RentMinimums = RentMinimums { deactivated: 897_840, record: 1_127_520 };
const FUNDS: u64 = 10_000_000_000;

fn account(key: Address, owner: Address, lamports: u64, data: Vec<u8>, is_signer: bool, is_writable: bool) -> AccountView {
    AccountView { key, owner, lamports, data, is_signer, is_writable }
}

fn vault_of(owner: &Address) -> (Address, u8) {
    try_find_vault_v1(&PROGRAM, owner).unwrap()
}

fn signer(key: Address) -> AccountView {
    account(key, SYSTEM, FUNDS, vec![], true, true)
}

fn system() -> AccountView {
    account(SYSTEM, SYSTEM, 1, vec![], false, false)
}

fn init_accounts(owner: Address) -> Vec<AccountView> {
    vec![signer(owner), account(vault_of(&owner).0, SYSTEM, 0, vec![], false, true), system()]
}

/// [owner, vault, system program] after a successful Initialize.
fn initialized(owner: Address) -> Vec<AccountView> {
    let mut accounts = init_accounts(owner);
    process_instruction(&PROGRAM, &mut accounts, &[1], &RENT).unwrap();
    accounts
}

fn with_amount(op: u8, amount: u64) -> Vec<u8> {
    let mut data = vec![op];
    data.extend_from_slice(&amount.to_le_bytes());
    data
}

fn run(accounts: &mut Vec<AccountView>, data: &[u8]) -> Result<(), ProgramError> {
    process_instruction(&PROGRAM, accounts, data, &RENT)
}

// InitializeVaultV1

#[test]
fn initialize_vault_v1_succeeds() {
    let accounts = initialized(OWNER);
    let (_, bump) = vault_of(&OWNER);
    let vault = &accounts[1];
    assert_eq!(vault.data.len(), VaultV1::size());
    assert_eq!(vault.data[0], 1);
    assert_ne!(vault.lamports, 0, "Vault should have lamports");
    assert_eq!(vault.owner, PROGRAM);
    let state = VaultV1::from_bytes(&vault.data).unwrap();
    assert_eq!(state.owner, OWNER);
    assert_eq!(state.bump, bump);
}

#[test]
fn initialize_vault_v1_fails_when_payer_not_signer() {
    let mut accounts = init_accounts(OWNER);
    accounts[0].is_signer = false;
    assert_eq!(run(&mut accounts, &[1]), Err(ProgramError::Custom(0x102)));
}

#[test]
fn initialize_vault_v1_fails_when_vault_not_writable() {
    let mut accounts = init_accounts(OWNER);
    accounts[1].is_writable = false;
    assert_eq!(run(&mut accounts, &[1]), Err(ProgramError::Custom(0x104)));
}

#[test]
fn initialize_vault_v1_fails_when_vault_address_mismatch() {
    let mut accounts = init_accounts(OWNER);
    accounts[1].key = vault_of(&OTHER).0;
    assert_eq!(run(&mut accounts, &[1]), Err(ProgramError::Custom(0x105)));
}

#[test]
fn initialize_vault_v1_fails_when_system_program_address_mismatch() {
    let mut accounts = init_accounts(OWNER);
    accounts[2].key = [34; 32];
    assert_eq!(run(&mut accounts, &[1]), Err(ProgramError::Custom(0x109)));
}

#[test]
fn initialize_vault_v1_fails_when_not_enough_accounts() {
    let mut accounts = init_accounts(OWNER);
    accounts.truncate(2);
    assert_eq!(run(&mut accounts, &[1]), Err(ProgramError::Custom(0x101)));
}

#[test]
fn fails_when_vault_has_pre_existing_data() {
    let mut accounts = initialized(OWNER);
    assert_eq!(run(&mut accounts, &[1]), Err(ProgramError::Custom(0x106)));
}

#[test]
fn fails_when_vault_has_non_zero_lamports() {
    let mut accounts = init_accounts(OWNER);
    accounts[1].lamports = 1_000_000;
    assert_eq!(run(&mut accounts, &[1]), Err(ProgramError::Custom(0x107)));
}

#[test]
fn fails_when_reinitializing_deactivated_vault() {
    let accounts = initialized(OWNER);
    let mut pair = vec![accounts[0].clone(), accounts[1].clone()];
    run(&mut pair, &[4]).unwrap();
    assert_eq!(pair[1].data, vec![255]);
    let mut again = vec![pair[0].clone(), pair[1].clone(), system()];
    assert_eq!(run(&mut again, &[1]), Err(ProgramError::Custom(0x106)));
}

#[test]
fn initialize_vault_v1_fails_with_invalid_instruction_discriminator() {
    let mut accounts = init_accounts(OWNER);
    assert_eq!(run(&mut accounts, &[99]), Err(ProgramError::Custom(0x2)));
}

#[test]
fn initialize_vault_v1_fails_with_empty_instruction_data() {
    let mut accounts = init_accounts(OWNER);
    assert_eq!(run(&mut accounts, &[]), Err(ProgramError::Custom(0x1)));
}

// DepositV1

#[test]
fn deposit_v1_succeeds() {
    let mut accounts = initialized(OWNER);
    let initial_vault_balance = accounts[1].lamports;
    let deposit_amount = 100_000_000;
    run(&mut accounts, &with_amount(2, deposit_amount)).unwrap();
    assert_eq!(accounts[1].lamports, initial_vault_balance + deposit_amount);
}

#[test]
fn succeeds_with_multiple_deposits() {
    let mut accounts = initialized(OWNER);
    let initial_vault_balance = accounts[1].lamports;
    let deposit_amount = 50_000_000;
    for i in 1..=3 {
        run(&mut accounts, &with_amount(2, deposit_amount)).unwrap();
        assert_eq!(accounts[1].lamports, initial_vault_balance + (deposit_amount * i));
    }
}

#[test]
fn deposit_v1_fails_when_owner_not_signer() {
    let mut accounts = initialized(OWNER);
    accounts[0].is_signer = false;
    assert_eq!(run(&mut accounts, &with_amount(2, 1_000)), Err(ProgramError::Custom(0x202)));
}

#[test]
fn deposit_v1_fails_when_vault_not_writable() {
    let mut accounts = initialized(OWNER);
    accounts[1].is_writable = false;
    assert_eq!(run(&mut accounts, &with_amount(2, 1_000)), Err(ProgramError::Custom(0x204)));
}

#[test]
fn deposit_v1_fails_when_vault_address_mismatch() {
    let mut accounts = initialized(OWNER);
    accounts[1].key = [35; 32];
    assert_eq!(run(&mut accounts, &with_amount(2, 1_000)), Err(ProgramError::Custom(0x205)));
}

#[test]
fn deposit_v1_fails_when_system_program_address_mismatch() {
    let mut accounts = initialized(OWNER);
    accounts[2].key = [36; 32];
    assert_eq!(run(&mut accounts, &with_amount(2, 1_000)), Err(ProgramError::Custom(0x207)));
}

#[test]
fn deposit_v1_fails_when_not_enough_accounts() {
    let mut accounts = initialized(OWNER);
    accounts.truncate(2);
    assert_eq!(run(&mut accounts, &with_amount(2, 1_000)), Err(ProgramError::Custom(0x201)));
}

#[test]
fn fails_when_vault_not_initialized() {
    let mut accounts = init_accounts(OWNER);
    assert_eq!(run(&mut accounts, &with_amount(2, 1_000)), Err(ProgramError::Custom(0x206)));
}

#[test]
fn deposit_v1_fails_when_owner_mismatch() {
    let victim = initialized(OWNER);
    let mut accounts = vec![signer(OTHER), victim[1].clone(), system()];
    assert_eq!(run(&mut accounts, &with_amount(2, 1_000)), Err(ProgramError::Custom(0x205)));
}

#[test]
fn fails_with_invalid_instruction_data() {
    let mut accounts = initialized(OWNER);
    assert_eq!(run(&mut accounts, &[2, 1, 2, 3]), Err(ProgramError::Custom(0x209)));
}

#[test]
fn deposit_v1_fails_with_invalid_instruction_discriminator() {
    let mut accounts = initialized(OWNER);
    assert_eq!(run(&mut accounts, &with_amount(77, 1_000)), Err(ProgramError::Custom(0x2)));
}

// WithdrawV1, DeactivateVaultV1, ReactivateVaultV1

#[test]
fn withdraw_v1_succeeds() {
    let mut accounts = initialized(OWNER);
    run(&mut accounts, &with_amount(2, 100_000_000)).unwrap();
    let mut pair = vec![accounts[0].clone(), accounts[1].clone()];
    let vault_balance_before = pair[1].lamports;
    let owner_balance_before = pair[0].lamports;
    let withdraw_amount = 50_000_000;
    run(&mut pair, &with_amount(3, withdraw_amount)).unwrap();
    assert_eq!(pair[1].lamports, vault_balance_before - withdraw_amount);
    assert!(pair[0].lamports > owner_balance_before);
}

#[test]
fn deactivate_vault_v1_succeeds() {
    let accounts = initialized(OWNER);
    let vault_balance_before = accounts[1].lamports;
    let mut pair = vec![accounts[0].clone(), accounts[1].clone()];
    run(&mut pair, &[4]).unwrap();
    assert_eq!(pair[1].data.len(), 1);
    assert_eq!(pair[1].data[0], 255);
    assert!(pair[1].lamports < vault_balance_before);
}

#[test]
fn reactivate_vault_v1_succeeds() {
    let accounts = initialized(OWNER);
    let mut pair = vec![accounts[0].clone(), accounts[1].clone()];
    run(&mut pair, &[4]).unwrap();
    assert_eq!(pair[1].data[0], 255);
    let mut trio = vec![pair[0].clone(), pair[1].clone(), system()];
    run(&mut trio, &[5]).unwrap();
    assert_eq!(trio[1].data.len(), VaultV1::size());
    assert_eq!(trio[1].data[0], 1);
    assert_eq!(VaultV1::from_bytes(&trio[1].data).unwrap().owner, OWNER);
}

#[test]
fn deposit_checks_system_program_before_discriminator() {
    let accounts = initialized(OWNER);
    let mut pair = vec![accounts[0].clone(), accounts[1].clone()];
    run(&mut pair, &[4]).unwrap();
    assert_eq!(pair[1].data, vec![255]);
    let mut deposit = vec![pair[0].clone(), pair[1].clone(), system()];
    deposit[2].key = [36; 32];
    assert_eq!(run(&mut deposit, &with_amount(2, 1_000)), Err(ProgramError::Custom(0x207)));
    deposit[2].key = SYSTEM;
    assert_eq!(run(&mut deposit, &with_amount(2, 1_000)), Err(ProgramError::Custom(0x208)));
}

#[test]
fn initialize_vault_checks_system_program_before_content() {
    let mut accounts = initialized(OWNER);
    accounts[2].key = [37; 32];
    assert_eq!(run(&mut accounts, &[1]), Err(ProgramError::Custom(0x109)));
}
