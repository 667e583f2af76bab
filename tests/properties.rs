use pinocchio_counter::counter::account_discriminator::AccountDiscriminator as CounterAccountDiscriminator;
use pinocchio_counter::counter::instructions::{decrement, increment, SetCountV1Args};
use pinocchio_counter::counter::state::CounterV1;
use pinocchio_counter::counter::try_find_counter_v1;
use pinocchio_counter::vault::account_discriminator::AccountDiscriminator as VaultAccountDiscriminator;
use pinocchio_counter::vault::instructions::{DepositV1Args, WithdrawV1Args};
use pinocchio_counter::vault::state::VaultV1;
use pinocchio_counter::vault::try_find_vault_v1;
use pinocchio_counter::Address;

/// A fixed pseudo-random sequence (xorshift64), so every run checks the same inputs.
struct Samples(u64);

impl Samples {
    fn next(&mut self) -> u64 {
        self.0 ^= self.0 << 13;
        self.0 ^= self.0 >> 7;
        self.0 ^= self.0 << 17;
        self.0
    }

    fn address(&mut self) -> Address {
        let mut out = [0u8; 32];
        for chunk in out.chunks_mut(8) {
            chunk.copy_from_slice(&self.next().to_le_bytes());
        }
        out
    }
}

const EDGE_COUNTS: [u64; 6] = [0, 1, 2, u64::MAX / 2, u64::MAX - 1, u64::MAX];

fn counts() -> Vec<u64> {
    let mut samples = Samples(0x9e37_79b9_7f4a_7c15);
    let mut values = EDGE_COUNTS.to_vec();
    for _ in 0..200 {
        values.push(samples.next());
    }
    values
}

#[test]
fn fuzz_set_count_v1_args_serialization_roundtrip() {
    for count in counts() {
        let serialized = count.to_le_bytes();
        let deserialized = SetCountV1Args::deserialize(&serialized).unwrap();
        assert_eq!(count, deserialized.count);
    }
}

#[test]
fn fuzz_counter_serialization_roundtrip_all_fields() {
    let mut samples = Samples(7);
    for count in counts() {
        let owner = samples.address();
        let bump = samples.next() as u8;
        let original = CounterV1 {
            discriminator: CounterAccountDiscriminator::CounterV1Account,
            owner,
            bump,
            count,
            reserved: [0; 31],
        };
        let serialized = original.serialize();
        assert_eq!(serialized.len(), CounterV1::size());
        let deserialized = CounterV1::deserialize(&serialized).unwrap();
        assert_eq!(original.discriminator, deserialized.discriminator);
        assert_eq!(original.owner, deserialized.owner);
        assert_eq!(original.bump, deserialized.bump);
        assert_eq!(original.count, deserialized.count);
    }
}

#[test]
fn fuzz_increment_decrement_properties() {
    for initial_count in counts() {
        let after_increment = increment(initial_count);
        assert!(after_increment >= initial_count);
        if initial_count < u64::MAX {
            assert_eq!(after_increment, initial_count + 1);
        } else {
            assert_eq!(after_increment, u64::MAX);
        }
        let after_decrement = decrement(initial_count);
        assert!(after_decrement <= initial_count);
        if initial_count > 0 {
            assert_eq!(after_decrement, initial_count - 1);
        } else {
            assert_eq!(after_decrement, 0);
        }
        if initial_count < u64::MAX {
            assert_eq!(decrement(increment(initial_count)), initial_count);
        }
    }
}

#[test]
fn fuzz_counter_operation_sequences() {
    let mut samples = Samples(99);
    for _ in 0..20 {
        let mut count: u64 = 0;
        for _ in 0..200 {
            let op = samples.next() as u8;
            match op % 3 {
                0 => {
                    let new_count = increment(count);
                    assert!(new_count >= count);
                    count = new_count;
                }
                1 => {
                    let new_count = decrement(count);
                    assert!(new_count <= count);
                    count = new_count;
                }
                _ => count = op as u64,
            }
        }
    }
}

#[test]
fn fuzz_find_counter_address_deterministic() {
    let mut samples = Samples(11);
    for _ in 0..20 {
        let program_id = samples.address();
        let owner = samples.address();
        let result1 = try_find_counter_v1(&program_id, &owner);
        let result2 = try_find_counter_v1(&program_id, &owner);
        assert_eq!(result1, result2, "derivation must be deterministic");
    }
}

#[test]
fn fuzz_find_counter_address_collision_resistance() {
    let mut samples = Samples(13);
    for _ in 0..20 {
        let program_id = samples.address();
        let owner1 = samples.address();
        let owner2 = samples.address();
        if owner1 == owner2 {
            continue;
        }
        if let (Some((addr1, _)), Some((addr2, _))) =
            (try_find_counter_v1(&program_id, &owner1), try_find_counter_v1(&program_id, &owner2))
        {
            assert_ne!(addr1, addr2, "different owners must get different counter addresses");
        }
    }
}

#[test]
fn fuzz_find_counter_address_program_isolation() {
    let mut samples = Samples(17);
    for _ in 0..20 {
        let program_id1 = samples.address();
        let program_id2 = samples.address();
        let owner = samples.address();
        if program_id1 == program_id2 {
            continue;
        }
        if let (Some((addr1, _)), Some((addr2, _))) =
            (try_find_counter_v1(&program_id1, &owner), try_find_counter_v1(&program_id2, &owner))
        {
            assert_ne!(addr1, addr2, "different programs must get different counter addresses");
        }
    }
}

#[test]
fn fuzz_vault_v1_serialization_roundtrip() {
    let mut samples = Samples(19);
    for _ in 0..100 {
        let original = VaultV1 {
            discriminator: VaultAccountDiscriminator::VaultV1Account,
            owner: samples.address(),
            bump: samples.next() as u8,
        };
        let serialized = original.to_bytes();
        assert_eq!(serialized.len(), VaultV1::size());
        let deserialized = VaultV1::from_bytes(&serialized).unwrap();
        assert_eq!(original.discriminator, deserialized.discriminator);
        assert_eq!(original.owner, deserialized.owner);
        assert_eq!(original.bump, deserialized.bump);
    }
}

#[test]
fn fuzz_deposit_v1_args_serialization_roundtrip() {
    for amount in counts() {
        let serialized = amount.to_le_bytes();
        let deserialized = DepositV1Args::parse(&serialized).unwrap();
        assert_eq!(amount, deserialized.amount);
    }
}

#[test]
fn fuzz_withdraw_v1_args_serialization_roundtrip() {
    for amount in counts() {
        let serialized = amount.to_le_bytes();
        let deserialized = WithdrawV1Args::parse(&serialized).unwrap();
        assert_eq!(amount, deserialized.amount);
    }
}

#[test]
fn fuzz_find_vault_address_deterministic() {
    let mut samples = Samples(23);
    for _ in 0..20 {
        let program_id = samples.address();
        let owner = samples.address();
        assert_eq!(try_find_vault_v1(&program_id, &owner), try_find_vault_v1(&program_id, &owner));
    }
}
