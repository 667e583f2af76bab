use pinocchio_counter::counter::processor::process_instruction;
use pinocchio_counter::counter::state::CounterV1;
use pinocchio_counter::counter::try_find_counter_v1;
use pinocchio_counter::{AccountView, Address, ProgramError, RentMinimums};

const PROGRAM: Address = [21; 32];
const OWNER: Address = [22; 32];
const OTHER: Address = [23; 32];
const SYSTEM: Address = [0; 32];
const RENT: RentMinimums = RentMinimums { deactivated: 897_840, record: 1_398_960 };
const FUNDS: u64 = 10_000_000_000;

fn account(key: Address, owner: Address, lamports: u64, data: Vec<u8>, is_signer: bool, is_writable: bool) -> AccountView {
    AccountView { key, owner, lamports, data, is_signer, is_writable }
}

fn counter_of(owner: &Address) -> (Address, u8) {
    try_find_counter_v1(&PROGRAM, owner).unwrap()
}

fn signer(key: Address) -> AccountView {
    account(key, SYSTEM, FUNDS, vec![], true, true)
}

fn system() -> AccountView {
    account(SYSTEM, SYSTEM, 1, vec![], false, false)
}

fn init_accounts(owner: Address) -> Vec<AccountView> {
    vec![signer(owner), account(counter_of(&owner).0, SYSTEM, 0, vec![], false, true), system()]
}

/// [owner, counter] after a successful Initialize.
fn initialized(owner: Address) -> Vec<AccountView> {
    let mut accounts = init_accounts(owner);
    process_instruction(&PROGRAM, &mut accounts, &[1], &RENT).unwrap();
    accounts.truncate(2);
    accounts
}

/// [owner, counter] after Initialize and Deactivate.
fn deactivated(owner: Address) -> Vec<AccountView> {
    let mut accounts = initialized(owner);
    process_instruction(&PROGRAM, &mut accounts, &[2], &RENT).unwrap();
    accounts
}

fn set_count(count: u64) -> Vec<u8> {
    let mut data = vec![5u8];
    data.extend_from_slice(&count.to_le_bytes());
    data
}

fn record(counter: &AccountView) -> CounterV1 {
    CounterV1::deserialize(&counter.data).unwrap()
}

fn run(accounts: &mut Vec<AccountView>, data: &[u8]) -> Result<(), ProgramError> {
    process_instruction(&PROGRAM, accounts, data, &RENT)
}

// InitializeCounterV1

#[test]
fn initialize_counter_v1_succeeds() {
    let accounts = initialized(OWNER);
    let (_, bump) = counter_of(&OWNER);
    let counter = &accounts[1];
    assert_eq!(counter.data.len(), CounterV1::size());
    assert_eq!(counter.data[0], 1);
    assert_ne!(counter.lamports, 0);
    assert_eq!(counter.owner, PROGRAM);
    let state = record(counter);
    assert_eq!(state.owner, OWNER);
    assert_eq!(state.bump, bump);
    assert_eq!(state.count, 0);
    assert_eq!(state.reserved, [0; 31]);
}

#[test]
fn initialize_counter_v1_fails_when_payer_not_signer() {
    let mut accounts = init_accounts(OWNER);
    accounts[0].is_signer = false;
    assert_eq!(run(&mut accounts, &[1]), Err(ProgramError::Custom(0x102)));
}

#[test]
fn initialize_counter_v1_fails_when_counter_not_writable() {
    let mut accounts = init_accounts(OWNER);
    accounts[1].is_writable = false;
    assert_eq!(run(&mut accounts, &[1]), Err(ProgramError::Custom(0x103)));
}

#[test]
fn initialize_counter_v1_fails_when_counter_address_mismatch() {
    let mut accounts = init_accounts(OWNER);
    accounts[1].key = counter_of(&OTHER).0;
    assert_eq!(run(&mut accounts, &[1]), Err(ProgramError::Custom(0x104)));
}

#[test]
fn initialize_counter_v1_fails_when_system_program_address_mismatch() {
    let mut accounts = init_accounts(OWNER);
    accounts[2].key = [44; 32];
    assert_eq!(run(&mut accounts, &[1]), Err(ProgramError::Custom(0x108)));
}

#[test]
fn initialize_counter_v1_fails_when_counter_has_pre_existing_data() {
    let existing = initialized(OWNER);
    let mut accounts = vec![existing[0].clone(), existing[1].clone(), system()];
    assert_eq!(run(&mut accounts, &[1]), Err(ProgramError::Custom(0x105)));
}

#[test]
fn fails_when_reinitializing_deactivated_counter() {
    let existing = deactivated(OWNER);
    assert_eq!(existing[1].data, vec![255]);
    let mut accounts = vec![existing[0].clone(), existing[1].clone(), system()];
    assert_eq!(run(&mut accounts, &[1]), Err(ProgramError::Custom(0x105)));
}

#[test]
fn initialize_counter_v1_fails_with_invalid_instruction_discriminator() {
    let mut accounts = init_accounts(OWNER);
    assert_eq!(run(&mut accounts, &[99]), Err(ProgramError::Custom(0x2)));
}

#[test]
fn initialize_counter_v1_fails_with_empty_instruction_data() {
    let mut accounts = init_accounts(OWNER);
    assert_eq!(run(&mut accounts, &[]), Err(ProgramError::Custom(0x1)));
}

#[test]
fn initialize_counter_v1_fails_when_not_enough_accounts() {
    let mut accounts = init_accounts(OWNER);
    accounts.truncate(2);
    assert_eq!(run(&mut accounts, &[1]), Err(ProgramError::Custom(0x101)));
}

// DeactivateCounterV1

#[test]
fn deactivate_counter_v1_succeeds() {
    let mut accounts = initialized(OWNER);
    let counter_lamports_before = accounts[1].lamports;
    let owner_lamports_before = accounts[0].lamports;
    assert_ne!(counter_lamports_before, 0);
    run(&mut accounts, &[2]).unwrap();
    assert_eq!(accounts[1].data.len(), 1);
    assert_eq!(accounts[1].data[0], 255);
    let received = accounts[0].lamports - owner_lamports_before;
    assert_eq!(received, counter_lamports_before - RENT.deactivated);
    assert_eq!(accounts[1].lamports, RENT.deactivated);
}

#[test]
fn deactivate_counter_v1_fails_when_owner_not_signer() {
    let mut accounts = initialized(OWNER);
    accounts[0].is_signer = false;
    assert_eq!(run(&mut accounts, &[2]), Err(ProgramError::Custom(0x202)));
}

#[test]
fn deactivate_counter_v1_fails_when_counter_not_writable() {
    let mut accounts = initialized(OWNER);
    accounts[1].is_writable = false;
    assert_eq!(run(&mut accounts, &[2]), Err(ProgramError::Custom(0x204)));
}

#[test]
fn deactivate_counter_v1_fails_when_counter_address_mismatch() {
    let mut accounts = initialized(OWNER);
    accounts[1].key = [45; 32];
    assert_eq!(run(&mut accounts, &[2]), Err(ProgramError::Custom(0x205)));
}

#[test]
fn deactivate_counter_v1_fails_when_owner_mismatch_address_validation() {
    let victim = initialized(OWNER);
    let mut accounts = vec![signer(OTHER), victim[1].clone()];
    assert_eq!(run(&mut accounts, &[2]), Err(ProgramError::Custom(0x205)));
}

#[test]
fn deactivate_counter_v1_fails_when_not_enough_accounts() {
    let mut accounts = initialized(OWNER);
    accounts.truncate(1);
    assert_eq!(run(&mut accounts, &[2]), Err(ProgramError::Custom(0x201)));
}

#[test]
fn deactivate_counter_v1_fails_with_invalid_instruction_discriminator() {
    let mut accounts = initialized(OWNER);
    assert_eq!(run(&mut accounts, &[255]), Err(ProgramError::Custom(0x2)));
}

#[test]
fn deactivate_counter_v1_fails_with_empty_instruction_data() {
    let mut accounts = initialized(OWNER);
    assert_eq!(run(&mut accounts, &[]), Err(ProgramError::Custom(0x1)));
}

#[test]
fn deactivate_counter_v1_fails_when_counter_has_invalid_discriminator() {
    let mut accounts = initialized(OWNER);
    accounts[1].data[0] = 99;
    assert_eq!(run(&mut accounts, &[2]), Err(ProgramError::Custom(0x20b)));
}

// IncrementCountV1

#[test]
fn increment_count_v1_succeeds() {
    let mut accounts = initialized(OWNER);
    let before = record(&accounts[1]);
    assert_eq!(before.count, 0);
    run(&mut accounts, &[4]).unwrap();
    let after = record(&accounts[1]);
    assert_eq!(after.count, 1);
    assert_eq!(after.owner, before.owner);
    assert_eq!(after.bump, before.bump);
}

#[test]
fn increment_count_v1_succeeds_multiple_times() {
    let mut accounts = initialized(OWNER);
    for expected_count in 1..=5 {
        run(&mut accounts, &[4]).unwrap();
        assert_eq!(record(&accounts[1]).count, expected_count);
    }
}

#[test]
fn increment_count_v1_fails_when_owner_not_signer() {
    let mut accounts = initialized(OWNER);
    accounts[0].is_signer = false;
    assert_eq!(run(&mut accounts, &[4]), Err(ProgramError::Custom(0x302)));
}

#[test]
fn increment_count_v1_fails_when_counter_not_writable() {
    let mut accounts = initialized(OWNER);
    accounts[1].is_writable = false;
    assert_eq!(run(&mut accounts, &[4]), Err(ProgramError::Custom(0x304)));
}

#[test]
fn increment_count_v1_fails_when_counter_address_mismatch() {
    let mut accounts = initialized(OWNER);
    accounts[1].key = [46; 32];
    assert_eq!(run(&mut accounts, &[4]), Err(ProgramError::Custom(0x305)));
}

#[test]
fn increment_count_v1_fails_when_owner_mismatch_address_validation() {
    let victim = initialized(OWNER);
    let mut accounts = vec![signer(OTHER), victim[1].clone()];
    assert_eq!(run(&mut accounts, &[4]), Err(ProgramError::Custom(0x305)));
}

#[test]
fn increment_count_v1_fails_when_not_enough_accounts() {
    let mut accounts = initialized(OWNER);
    accounts.truncate(1);
    assert_eq!(run(&mut accounts, &[4]), Err(ProgramError::Custom(0x301)));
}

#[test]
fn increment_count_v1_fails_when_counter_not_initialized() {
    let mut accounts = init_accounts(OWNER);
    accounts.truncate(2);
    assert!(run(&mut accounts, &[4]).is_err());
}

#[test]
fn increment_count_v1_fails_when_counter_has_invalid_discriminator() {
    let mut accounts = initialized(OWNER);
    accounts[1].data[0] = 99;
    assert_eq!(accounts[1].data[0], 99);
    assert_eq!(run(&mut accounts, &[4]), Err(ProgramError::Custom(0x30b)));
}

#[test]
fn increment_count_v1_fails_when_counter_is_deactivated() {
    let mut accounts = deactivated(OWNER);
    assert_eq!(run(&mut accounts, &[4]), Err(ProgramError::Custom(0x30b)));
}

#[test]
fn saturates_at_max_when_incrementing_from_max() {
    let mut accounts = initialized(OWNER);
    run(&mut accounts, &set_count(u64::MAX)).unwrap();
    assert_eq!(record(&accounts[1]).count, u64::MAX);
    run(&mut accounts, &[4]).unwrap();
    assert_eq!(record(&accounts[1]).count, u64::MAX);
}

// SetCountV1

#[test]
fn set_count_v1_succeeds() {
    let mut accounts = initialized(OWNER);
    let before = record(&accounts[1]);
    assert_eq!(before.count, 0);
    run(&mut accounts, &set_count(42)).unwrap();
    let after = record(&accounts[1]);
    assert_eq!(after.count, 42);
    assert_eq!(after.owner, before.owner);
    assert_eq!(after.bump, before.bump);
}

#[test]
fn set_count_v1_succeeds_multiple_times() {
    let mut accounts = initialized(OWNER);
    for count in [10, 100, 1000, 0, u64::MAX] {
        run(&mut accounts, &set_count(count)).unwrap();
        assert_eq!(record(&accounts[1]).count, count);
    }
}

#[test]
fn set_count_v1_fails_when_owner_not_signer() {
    let mut accounts = initialized(OWNER);
    accounts[0].is_signer = false;
    assert_eq!(run(&mut accounts, &set_count(50)), Err(ProgramError::Custom(0x502)));
}

#[test]
fn set_count_v1_fails_when_counter_not_writable() {
    let mut accounts = initialized(OWNER);
    accounts[1].is_writable = false;
    assert_eq!(run(&mut accounts, &set_count(50)), Err(ProgramError::Custom(0x504)));
}

#[test]
fn set_count_v1_fails_when_counter_address_mismatch() {
    let mut accounts = initialized(OWNER);
    accounts[1].key = [47; 32];
    assert_eq!(run(&mut accounts, &set_count(50)), Err(ProgramError::Custom(0x505)));
}

#[test]
fn set_count_v1_fails_when_owner_mismatch() {
    let victim = initialized(OWNER);
    let mut accounts = vec![signer(OTHER), victim[1].clone()];
    assert_eq!(run(&mut accounts, &set_count(1)), Err(ProgramError::Custom(0x505)));
}

#[test]
fn set_count_v1_fails_when_not_enough_accounts() {
    let mut accounts = initialized(OWNER);
    accounts.truncate(1);
    assert_eq!(run(&mut accounts, &set_count(50)), Err(ProgramError::Custom(0x501)));
}

#[test]
fn set_count_v1_fails_when_counter_not_initialized() {
    let mut accounts = init_accounts(OWNER);
    accounts.truncate(2);
    assert!(run(&mut accounts, &set_count(100)).is_err());
}

#[test]
fn set_count_v1_fails_when_counter_has_invalid_discriminator() {
    let mut accounts = initialized(OWNER);
    accounts[1].data[0] = 99;
    assert_eq!(run(&mut accounts, &set_count(42)), Err(ProgramError::Custom(0x50b)));
}

#[test]
fn set_count_v1_fails_when_counter_is_deactivated() {
    let mut accounts = deactivated(OWNER);
    assert_eq!(run(&mut accounts, &set_count(100)), Err(ProgramError::Custom(0x50b)));
}

// ReactivateCounterV1

#[test]
fn succeeds_full_lifecycle() {
    let mut accounts = initialized(OWNER);
    assert_eq!(accounts[1].data.len(), CounterV1::size());
    run(&mut accounts, &[2]).unwrap();
    assert_eq!(accounts[1].data.len(), 1);
    assert_eq!(accounts[1].data[0], 255);
    let owner_lamports_before_reactivate = accounts[0].lamports;
    let mut accounts = vec![accounts[0].clone(), accounts[1].clone(), system()];
    run(&mut accounts, &[6]).unwrap();
    let counter = &accounts[1];
    assert_eq!(counter.data.len(), CounterV1::size());
    assert_eq!(counter.data[0], 1);
    let state = record(counter);
    assert_eq!(state.owner, OWNER);
    assert_eq!(state.bump, counter_of(&OWNER).1);
    assert_eq!(state.count, 0, "Counter count should be reset to 0");
    let additional_lamports_needed = RENT.record - RENT.deactivated;
    let lamports_spent = owner_lamports_before_reactivate.saturating_sub(accounts[0].lamports);
    assert!(lamports_spent >= additional_lamports_needed);
    assert_eq!(counter.lamports, RENT.record);
}

#[test]
fn succeeds_after_increment_and_deactivate() {
    let mut accounts = initialized(OWNER);
    for _ in 0..5 {
        run(&mut accounts, &[4]).unwrap();
    }
    assert_eq!(record(&accounts[1]).count, 5, "Counter should have count of 5");
    run(&mut accounts, &[2]).unwrap();
    let mut accounts = vec![accounts[0].clone(), accounts[1].clone(), system()];
    run(&mut accounts, &[6]).unwrap();
    assert_eq!(record(&accounts[1]).count, 0);
}

#[test]
fn reactivate_counter_v1_fails_when_payer_not_signer() {
    let existing = deactivated(OWNER);
    let mut accounts = vec![existing[0].clone(), existing[1].clone(), system()];
    accounts[0].is_signer = false;
    assert_eq!(run(&mut accounts, &[6]), Err(ProgramError::Custom(0x602)));
}

#[test]
fn reactivate_counter_v1_fails_when_not_enough_accounts() {
    let mut accounts = deactivated(OWNER);
    assert_eq!(run(&mut accounts, &[6]), Err(ProgramError::Custom(0x601)));
}

#[test]
fn reactivate_counter_v1_fails_with_invalid_instruction_discriminator() {
    let existing = deactivated(OWNER);
    let mut accounts = vec![existing[0].clone(), existing[1].clone(), system()];
    assert_eq!(run(&mut accounts, &[200]), Err(ProgramError::Custom(0x2)));
}

#[test]
fn reactivate_counter_v1_fails_with_empty_instruction_data() {
    let existing = deactivated(OWNER);
    let mut accounts = vec![existing[0].clone(), existing[1].clone(), system()];
    assert_eq!(run(&mut accounts, &[]), Err(ProgramError::Custom(0x1)));
}

#[test]
fn initialize_checks_system_program_before_content() {
    let existing = initialized(OWNER);
    let mut accounts = vec![existing[0].clone(), existing[1].clone(), system()];
    accounts[2].key = [48; 32];
    assert_eq!(run(&mut accounts, &[1]), Err(ProgramError::Custom(0x108)));
}
