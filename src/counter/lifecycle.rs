//! Facts about the counter lifecycle that span several calls or hold for
//! every input.

use crate::account::{effects_result, AccountView, ProgramError, RentMinimums};
use crate::address::Address;
use crate::codec::DecodeError;
use crate::counter::account_discriminator::{AccountDiscriminator, AccountDiscriminatorError, DEACTIVATED_ACCOUNT_TAG};
use crate::counter::counter_address;
use crate::counter::error::{custom, INITIALIZE_COUNTER_V1_OFFSET};
use crate::account::EffectSpec;
use crate::counter::state::{encode_counter, CounterV1Spec};
use crate::counter::instructions::{
    count_update_effects, CountUpdate,
    count_update_checks, decremented, incremented, initialize_counter_checks, system_program_address,
    CountUpdateV1Error, InitializeCounterV1Error,
};
use crate::counter::processor::{counter_outcome, counter_plan};
use crate::counter::state::{decode_counter, initial_counter, lemma_counter_round_trip, COUNTER_V1_SIZE};
use vstd::prelude::*;

verus! {

/// Deriving a counter address is a function of the program id and the owner:
/// two derivations from the same inputs agree.
pub proof fn lemma_counter_address_deterministic(
    program_id: Address,
    owner: Address,
    first: Option<(Address, u8)>,
    second: Option<(Address, u8)>,
)
    requires
        first == counter_address(program_id, owner),
        second == counter_address(program_id, owner),
    ensures
        first == second,
{
}

/// Increment never lowers the count: it adds one below the maximum and stays
/// at the maximum; decrement subtracts one above zero and stays at zero.
pub proof fn lemma_saturating_count(count: u64)
    ensures
        incremented(count) >= count,
        count < u64::MAX ==> incremented(count) == count + 1,
        count == u64::MAX ==> incremented(count) == u64::MAX,
        decremented(count) <= count,
        count > 0 ==> decremented(count) == count - 1,
        count == 0 ==> decremented(count) == 0,
{
}

/// Initialize on a storage account that already holds an active or a
/// deactivated counter fails with "must be empty" (once the signer, writable,
/// address and system-program checks that precede it pass), so the dispatcher plans nothing
/// and, by `process_instruction`, leaves every account as it was.
pub proof fn lemma_initialize_refuses_existing_counter(
    program_id: Address,
    accounts: Seq<AccountView>,
    instruction_data: Seq<u8>,
    rent: RentMinimums,
)
    requires
        accounts.len() == 3,
        accounts[0].is_signer,
        accounts[1].is_writable,
        counter_address(program_id, accounts[0].key) matches Some((a, _)) && accounts[1].key == a,
        accounts[2].key == system_program_address(),
        AccountDiscriminator::spec_check(AccountDiscriminator::CounterV1Account, accounts[1].data@) is Ok
            || AccountDiscriminator::spec_check(AccountDiscriminator::DeactivatedAccount, accounts[1].data@) is Ok,
        instruction_data.len() > 0,
        instruction_data[0] == 1,
    ensures
        initialize_counter_checks(program_id, accounts)
            == Err::<crate::counter::instructions::InitializeCounterV1Accounts, InitializeCounterV1Error>(
            InitializeCounterV1Error::CounterMustBeEmpty,
        ),
        counter_plan(program_id, accounts, instruction_data, rent) == Err::<Seq<EffectSpec>, ProgramError>(
            custom(INITIALIZE_COUNTER_V1_OFFSET, 0x05),
        ),
        counter_outcome(program_id, accounts, instruction_data, rent) is Err,
{
}

/// A deactivated (one-byte, tag 255) buffer handed to an operation that
/// needs an active counter is refused by the discriminator guard as a kind
/// mismatch, before any field is read.
pub proof fn lemma_guard_rejects_deactivated_counter(program_id: Address, accounts: Seq<AccountView>)
    requires
        accounts.len() == 2,
        accounts[0].is_signer,
        accounts[1].is_writable,
        counter_address(program_id, accounts[0].key) matches Some((a, _)) && accounts[1].key == a,
        accounts[1].data@ == seq![DEACTIVATED_ACCOUNT_TAG],
    ensures
        AccountDiscriminator::spec_check(AccountDiscriminator::CounterV1Account, accounts[1].data@)
            == Err::<(), AccountDiscriminatorError>(AccountDiscriminatorError::DiscriminatorMismatch {
            expected: AccountDiscriminator::CounterV1Account,
            observed: AccountDiscriminator::DeactivatedAccount,
        }),
        count_update_checks(program_id, accounts)
            == Err::<crate::counter::instructions::CountUpdateV1Accounts, CountUpdateV1Error>(
            CountUpdateV1Error::AccountDiscriminatorError(AccountDiscriminatorError::DiscriminatorMismatch {
                expected: AccountDiscriminator::CounterV1Account,
                observed: AccountDiscriminator::DeactivatedAccount,
            }),
        ),
{
}

/// Deactivate then reactivate: starting from an active, rent-exempt counter
/// with any count, deactivation leaves a one-byte tag-255 account at the
/// one-byte rent minimum and pays the excess to the owner; reactivation by the
/// same owner then restores a record-sized active counter with count zero (a
/// hard reset) holding exactly the record-size rent minimum.
pub proof fn lemma_deactivate_reactivate_resets(
    program_id: Address,
    owner: AccountView,
    counter: AccountView,
    system: AccountView,
    rent: RentMinimums,
)
    requires
        rent.wf(),
        owner.is_signer,
        owner.is_writable,
        counter.is_writable,
        system.key == system_program_address(),
        counter_address(program_id, owner.key) matches Some((a, _)) && counter.key == a,
        decode_counter(counter.data@) matches Ok(record) && record.discriminator == AccountDiscriminator::CounterV1Account,
        counter.lamports >= rent.record,
        owner.lamports + counter.lamports <= u64::MAX,
    ensures
        ({
            let deactivated = counter_outcome(program_id, seq![owner, counter], seq![2u8], rent);
            &&& deactivated matches Ok((o1, c1))
            &&& c1.data == seq![DEACTIVATED_ACCOUNT_TAG]
            &&& c1.lamports == rent.deactivated
            &&& o1.lamports == owner.lamports + counter.lamports - rent.deactivated
            &&& forall|owner2: AccountView, counter2: AccountView|
                owner2@ == o1 && counter2@ == c1 ==> {
                    let bump = counter_address(program_id, owner.key)->Some_0.1;
                    let reactivated = counter_outcome(program_id, seq![owner2, counter2, system], seq![6u8], rent);
                    &&& reactivated matches Ok((o2, c2))
                    &&& c2.data.len() == COUNTER_V1_SIZE
                    &&& decode_counter(c2.data) == Ok::<_, DecodeError>(initial_counter(owner.key@, bump))
                    &&& initial_counter(owner.key@, bump).count == 0
                    &&& c2.lamports == rent.record
                    &&& o2.lamports == o1.lamports - (rent.record - rent.deactivated)
                }
        }),
{
    reveal_with_fuel(effects_result, 4);
    let record = decode_counter(counter.data@)->Ok_0;
    assert(counter.data@.len() == COUNTER_V1_SIZE);
    assert(AccountDiscriminator::spec_check(AccountDiscriminator::CounterV1Account, counter.data@) is Ok);
    let d1 = counter.data@.update(0, DEACTIVATED_ACCOUNT_TAG);
    assert(d1.subrange(0, 1) =~= seq![DEACTIVATED_ACCOUNT_TAG]);
    let deactivated = counter_outcome(program_id, seq![owner, counter], seq![2u8], rent);
    assert(seq![2u8].drop_first() =~= Seq::<u8>::empty());
    assert(deactivated is Ok);
    let (o1, c1) = deactivated->Ok_0;
    assert(c1.data =~= seq![DEACTIVATED_ACCOUNT_TAG]);
    let bump = counter_address(program_id, owner.key)->Some_0.1;
    let fresh = initial_counter(owner.key@, bump);
    assert forall|owner2: AccountView, counter2: AccountView|
        owner2@ == o1 && counter2@ == c1 implies {
            let reactivated = counter_outcome(program_id, seq![owner2, counter2, system], seq![6u8], rent);
            &&& reactivated matches Ok((o2, c2))
            &&& c2.data.len() == COUNTER_V1_SIZE
            &&& decode_counter(c2.data) == Ok::<_, DecodeError>(fresh)
            &&& fresh.count == 0
            &&& c2.lamports == rent.record
            &&& o2.lamports == o1.lamports - (rent.record - rent.deactivated)
        } by {
        assert(owner2.key =~= owner.key);
        assert(counter2.key =~= counter.key);
        assert(seq![6u8].drop_first() =~= Seq::<u8>::empty());
        assert(counter2.data@ =~= seq![DEACTIVATED_ACCOUNT_TAG]);
        assert(fresh.reserved.len() == 31);
        lemma_counter_round_trip(fresh);
        let reactivated = counter_outcome(program_id, seq![owner2, counter2, system], seq![6u8], rent);
        assert(reactivated is Ok);
    }
}

/// The data a count update writes over a record, when it plans one.
pub open spec fn rewritten(data: Seq<u8>, update: CountUpdate) -> Seq<u8> {
    count_update_effects(data, update)->Ok_0[0]->WriteData_data
}

/// Initialize by a funded payer creates the storage account at the record
/// size and rent minimum, owned by the program, holding a fresh record with
/// count zero for the payer.
pub proof fn lemma_initialize_creates_fresh_counter(
    program_id: Address,
    accounts: Seq<AccountView>,
    rent: RentMinimums,
)
    requires
        initialize_counter_checks(program_id, accounts) is Ok,
        accounts[0].lamports >= rent.record,
    ensures
        ({
            let bump = counter_address(program_id, accounts[0].key)->Some_0.1;
            let created = counter_outcome(program_id, accounts, seq![1u8], rent);
            &&& created matches Ok((payer, counter))
            &&& counter.data == encode_counter(initial_counter(accounts[0].key@, bump))
            &&& counter.data.len() == COUNTER_V1_SIZE
            &&& counter.data[0] == 1
            &&& counter.lamports == rent.record
            &&& counter.owner == program_id@
            &&& payer.lamports == accounts[0].lamports - rent.record
        }),
{
    reveal_with_fuel(effects_result, 3);
    assert(seq![1u8].drop_first() =~= Seq::<u8>::empty());
    let bump = counter_address(program_id, accounts[0].key)->Some_0.1;
    let fresh = initial_counter(accounts[0].key@, bump);
    lemma_counter_round_trip(fresh);
}

/// From a fresh record, three increments give count 3 and a set-count of 42
/// gives count 42; owner and bump are kept and every rewrite is a full
/// record.
pub proof fn lemma_fresh_counter_increments_then_set(owner: Address, bump: u8)
    ensures
        ({
            let d0 = encode_counter(initial_counter(owner@, bump));
            let d1 = rewritten(d0, CountUpdate::Increment);
            let d2 = rewritten(d1, CountUpdate::Increment);
            let d3 = rewritten(d2, CountUpdate::Increment);
            let d4 = rewritten(d3, CountUpdate::SetTo(42));
            &&& count_update_effects(d0, CountUpdate::Increment) is Ok
            &&& count_update_effects(d1, CountUpdate::Increment) is Ok
            &&& count_update_effects(d2, CountUpdate::Increment) is Ok
            &&& count_update_effects(d3, CountUpdate::SetTo(42)) is Ok
            &&& decode_counter(d3) == Ok::<_, DecodeError>(CounterV1Spec { count: 3, ..initial_counter(owner@, bump) })
            &&& decode_counter(d4) == Ok::<_, DecodeError>(CounterV1Spec { count: 42, ..initial_counter(owner@, bump) })
            &&& d4.len() == COUNTER_V1_SIZE
        }),
{
    let r0 = initial_counter(owner@, bump);
    let r1 = CounterV1Spec { count: 1, ..r0 };
    let r2 = CounterV1Spec { count: 2, ..r0 };
    let r3 = CounterV1Spec { count: 3, ..r0 };
    let r4 = CounterV1Spec { count: 42, ..r0 };
    lemma_counter_round_trip(r0);
    lemma_counter_round_trip(r1);
    lemma_counter_round_trip(r2);
    lemma_counter_round_trip(r3);
    lemma_counter_round_trip(r4);
    let d0 = encode_counter(r0);
    assert(rewritten(d0, CountUpdate::Increment) == encode_counter(r1));
    assert(rewritten(encode_counter(r1), CountUpdate::Increment) == encode_counter(r2));
    assert(rewritten(encode_counter(r2), CountUpdate::Increment) == encode_counter(r3));
    assert(rewritten(encode_counter(r3), CountUpdate::SetTo(42)) == encode_counter(r4));
}

} // verus!
