use pinocchio_counter::basic_counter::{plan_instruction, try_find_counter_address};
use pinocchio_counter::counter::state::CounterV1;
use pinocchio_counter::{apply_effects, AccountView, Address, ProgramError, RentMinimums};

const PROGRAM: Address = [41; 32];
const OWNER: Address = [42; 32];
const SYSTEM: Address = [0; 32];
const RENT: RentMinimums = RentMinimums { deactivated: 897_840, record: 1_398_960 };

fn account(key: Address, owner: Address, lamports: u64, data: Vec<u8>, is_signer: bool, is_writable: bool) -> AccountView {
    AccountView { key, owner, lamports, data, is_signer, is_writable }
}

fn create_accounts() -> Vec<AccountView> {
    let (counter, _) = try_find_counter_address(&PROGRAM, &OWNER).unwrap();
    vec![
        account(OWNER, SYSTEM, 10_000_000_000, vec![], true, true),
        account(counter, SYSTEM, 0, vec![], false, true),
        account(SYSTEM, SYSTEM, 1, vec![], false, false),
    ]
}

/// Plans the instruction and, where that succeeds, carries it out.
fn run(accounts: &mut Vec<AccountView>, data: &[u8]) -> Result<(), ProgramError> {
    let effects = plan_instruction(&PROGRAM, accounts, data, &RENT)?;
    let mut storage = accounts.remove(1);
    let mut authority = accounts.remove(0);
    let result = apply_effects(&PROGRAM, &mut authority, &mut storage, &effects);
    accounts.insert(0, authority);
    accounts.insert(1, storage);
    result
}

#[test]
fn test_create_counter_v1_success() {
    let mut accounts = create_accounts();
    run(&mut accounts, &[1]).unwrap();
    let (_, bump) = try_find_counter_address(&PROGRAM, &OWNER).unwrap();
    let counter_account = &accounts[1];
    assert_eq!(counter_account.data.len(), CounterV1::size());
    assert_ne!(counter_account.lamports, 0);
    assert_eq!(counter_account.owner, PROGRAM);
    let counter = CounterV1::deserialize(&counter_account.data).unwrap();
    assert_eq!(counter.owner, OWNER);
    assert_eq!(counter.bump, bump);
    assert_eq!(counter.count, 0);
    assert_eq!(counter.reserved, [0; 31]);
}

#[test]
fn test_create_counter_fails_when_payer_not_signer() {
    let mut accounts = create_accounts();
    accounts[0].is_signer = false;
    assert_eq!(run(&mut accounts, &[1]), Err(ProgramError::Custom(0x8)));
}

#[test]
fn test_create_counter_fails_when_counter_not_writable() {
    let mut accounts = create_accounts();
    accounts[1].is_writable = false;
    assert_eq!(run(&mut accounts, &[1]), Err(ProgramError::Custom(0x4)));
}

#[test]
fn test_create_counter_fails_when_counter_address_mismatch() {
    let mut accounts = create_accounts();
    accounts[1].key = [43; 32];
    assert_eq!(run(&mut accounts, &[1]), Err(ProgramError::Custom(0x1)));
}

#[test]
fn test_create_counter_fails_when_system_program_address_mismatch() {
    let mut accounts = create_accounts();
    accounts[2].key = [44; 32];
    assert_eq!(run(&mut accounts, &[1]), Err(ProgramError::Custom(0xb)));
}

#[test]
fn test_create_counter_fails_when_counter_has_pre_existing_data() {
    let mut accounts = create_accounts();
    run(&mut accounts, &[1]).unwrap();
    assert!(!accounts[1].data.is_empty(), "Counter should have data");
    assert_eq!(run(&mut accounts, &[1]), Err(ProgramError::Custom(0x2)));
}

#[test]
fn test_create_counter_fails_with_invalid_instruction_discriminator() {
    let mut accounts = create_accounts();
    assert_eq!(run(&mut accounts, &[99]), Err(ProgramError::Custom(0x6)));
}

#[test]
fn test_create_counter_fails_with_empty_instruction_data() {
    let mut accounts = create_accounts();
    assert_eq!(run(&mut accounts, &[]), Err(ProgramError::Custom(0x6)));
}

#[test]
fn test_create_counter_fails_when_not_enough_accounts() {
    let mut accounts = create_accounts();
    accounts.truncate(2);
    assert_eq!(run(&mut accounts, &[1]), Err(ProgramError::Custom(0x7)));
}

#[test]
fn basic_program_refuses_unimplemented_operations() {
    let mut accounts = create_accounts();
    for op in [2u8, 3, 4, 5] {
        assert_eq!(run(&mut accounts, &[op]), Err(ProgramError::InvalidInstructionData));
    }
}

#[test]
fn create_checks_system_program_before_content() {
    let mut accounts = create_accounts();
    run(&mut accounts, &[1]).unwrap();
    accounts[2].key = [45; 32];
    assert_eq!(run(&mut accounts, &[1]), Err(ProgramError::Custom(0xb)));
}
