//! Records: what a granted request leaves in the accounts, field by field, and what it leaves alone.

use vstd::prelude::*;

use crate::accounts::{owner_denial, Approve, CreateSubaccountInfo, CreateTransaction};
use crate::error::{ErrorCode, WalletError};
use crate::events::TransactionCreateEvent;
use crate::execution::burned;
use crate::pubkey::{program_id, Pubkey};
use crate::seeds::{
    address_bytes, derived_address, derived_bump, find_program_address, found_bytes, seed_bytes,
    subaccount_seeds,
};
use crate::smart_wallet::{
    create_transaction_denial, new_transaction, new_wallet, signature_recorded,
    subaccount_recorded, transaction_created, with_owners, with_signature, with_transaction,
};
use crate::state::{
    count_signers, instruction_states, is_slot_of, lemma_owner_slot, owner_slot, InstructionState,
    SmartWallet, SubaccountInfo, SubaccountType, TXInstruction, Transaction, TransactionState,
    WalletState,
};

verus! {

/// A wallet, an instruction and a transaction are known by their views: two with the same view have
/// the same fields, and the same lists element by element.
pub proof fn law_views_leave_nothing_out(
    w1: SmartWallet,
    w2: SmartWallet,
    i1: TXInstruction,
    i2: TXInstruction,
    t1: Transaction,
    t2: Transaction,
)
    ensures
        w1@ == w2@ <==> {
            &&& w1.base == w2.base
            &&& w1.bump == w2.bump
            &&& w1.threshold == w2.threshold
            &&& w1.minimum_delay == w2.minimum_delay
            &&& w1.grace_period == w2.grace_period
            &&& w1.owner_set_seqno == w2.owner_set_seqno
            &&& w1.num_transactions == w2.num_transactions
            &&& w1.owners@ == w2.owners@
        },
        i1@ == i2@ <==> {
            &&& i1.program_id == i2.program_id
            &&& i1.keys@ == i2.keys@
            &&& i1.data@ == i2.data@
        },
        t1@ == t2@ ==> {
            &&& t1.smart_wallet == t2.smart_wallet
            &&& t1.index == t2.index
            &&& t1.bump == t2.bump
            &&& t1.proposer == t2.proposer
            &&& t1.signers@ == t2.signers@
            &&& t1.owner_set_seqno == t2.owner_set_seqno
            &&& t1.eta == t2.eta
            &&& t1.executor == t2.executor
            &&& t1.executed_at == t2.executed_at
            &&& same_instructions(t1.instructions@, t2.instructions@)
        },
{
    if t1@ == t2@ {
        law_listed_instructions_are_the_same(t1.instructions@, t2.instructions@);
    }
}

/// Whether two lists hold the same instructions in the same order: program, accounts and data.
pub open spec fn same_instructions(one: Seq<TXInstruction>, two: Seq<TXInstruction>) -> bool {
    &&& one.len() == two.len()
    &&& forall|i: int|
        0 <= i < one.len() ==> {
            &&& (#[trigger] one[i]).program_id == two[i].program_id
            &&& one[i].keys@ == two[i].keys@
            &&& one[i].data@ == two[i].data@
        }
}

/// Two lists of instructions with the same contents hold the same instructions in the same order, and
/// the other way round.
pub proof fn law_listed_instructions_are_the_same(
    one: Seq<TXInstruction>,
    two: Seq<TXInstruction>,
)
    ensures
        instruction_states(one) == instruction_states(two) <==> same_instructions(one, two),
{
    if instruction_states(one) == instruction_states(two) {
        assert(instruction_states(one).len() == one.len());
        assert(instruction_states(two).len() == two.len());
        assert forall|i: int| 0 <= i < one.len() implies {
            &&& (#[trigger] one[i]).program_id == two[i].program_id
            &&& one[i].keys@ == two[i].keys@
            &&& one[i].data@ == two[i].data@
        } by {
            assert(instruction_states(one)[i] == one[i]@);
            assert(instruction_states(two)[i] == two[i]@);
        }
    }
    if same_instructions(one, two) {
        assert forall|i: int| 0 <= i < one.len() implies instruction_states(one)[i]
            == instruction_states(two)[i] by {
            assert(one[i].program_id == two[i].program_id);
        }
        assert(instruction_states(one) =~= instruction_states(two));
    }
}

/// A new wallet holds what was passed, and starts with no transaction and its first set of owners.
/// Each of the owners passed may act as one, and nobody else.
pub proof fn law_new_wallet_holds_what_was_passed(
    base: Pubkey,
    bump: u8,
    owners: Seq<Pubkey>,
    threshold: u64,
    minimum_delay: i64,
    key: Pubkey,
)
    ensures
        ({
            let wallet = new_wallet(base, bump, owners, threshold, minimum_delay);
            &&& wallet.base == base
            &&& wallet.bump == bump
            &&& wallet.owners == owners
            &&& wallet.threshold == threshold
            &&& wallet.minimum_delay == minimum_delay
            &&& wallet.grace_period == 14 * 24 * 60 * 60
            &&& wallet.owner_set_seqno == 0
            &&& wallet.num_transactions == 0
            &&& owner_denial(wallet.owners, key) is None <==> owners.contains(key)
        }),
{
}

/// After its owners were replaced, the owners of a wallet are exactly those passed, whatever their
/// number: each of them may act as an owner and nobody else may. The threshold is the smaller of the
/// one before and their number. The set of owners counts as a new one, and all else stays.
pub proof fn law_owners_are_exactly_those_passed(
    wallet: WalletState,
    owners: Seq<Pubkey>,
    key: Pubkey,
)
    requires
        wallet.owner_set_seqno < u32::MAX,
    ensures
        ({
            let after = with_owners(wallet, owners);
            &&& after.owners == owners
            &&& owner_denial(after.owners, key) is None <==> owners.contains(key)
            &&& after.threshold <= wallet.threshold
            &&& after.threshold <= owners.len()
            &&& after.threshold == wallet.threshold || after.threshold == owners.len()
            &&& after.owner_set_seqno == wallet.owner_set_seqno + 1
            &&& after.base == wallet.base
            &&& after.bump == wallet.bump
            &&& after.minimum_delay == wallet.minimum_delay
            &&& after.grace_period == wallet.grace_period
            &&& after.num_transactions == wallet.num_transactions
        }),
{
}

/// Of two replacements of the owners the last one alone decides who the owners are; what the first
/// one leaves behind is a threshold within its number of owners.
pub proof fn law_last_owners_count(wallet: WalletState, first: Seq<Pubkey>, second: Seq<Pubkey>)
    requires
        wallet.owner_set_seqno + 1 < u32::MAX,
    ensures
        ({
            let one = with_owners(with_owners(wallet, first), second);
            let two = with_owners(wallet, second);
            &&& one.owners == two.owners
            &&& first.len() >= second.len() ==> one.threshold == two.threshold
            &&& first.len() < second.len() && first.len() <= wallet.threshold ==> one.threshold
                == first.len()
        }),
{
}

/// A new transaction holds what was passed, belongs to the wallet and its present set of owners, has
/// not been executed, and is signed at the first place of its proposer and at no other.
pub proof fn law_new_transaction_holds_what_was_passed(
    wallet_key: Pubkey,
    wallet: WalletState,
    bump: u8,
    proposer: Pubkey,
    instructions: Seq<InstructionState>,
    eta: i64,
)
    ensures
        ({
            let tx = new_transaction(wallet_key, wallet, bump, proposer, instructions, eta);
            &&& tx.smart_wallet == wallet_key
            &&& tx.index == wallet.num_transactions
            &&& tx.bump == bump
            &&& tx.proposer == proposer
            &&& tx.instructions == instructions
            &&& tx.owner_set_seqno == wallet.owner_set_seqno
            &&& tx.eta == eta
            &&& forall|i: int| 0 <= i < 32 ==> #[trigger] tx.executor@[i] == 0
            &&& tx.executed_at == -1
            &&& tx.signers.len() == wallet.owners.len()
            &&& forall|i: int|
                0 <= i < tx.signers.len() ==> (#[trigger] tx.signers[i] <==> wallet.owners[i]
                    == proposer && forall|j: int| 0 <= j < i ==> wallet.owners[j] != proposer)
        }),
{
    let tx = new_transaction(wallet_key, wallet, bump, proposer, instructions, eta);
    lemma_owner_slot(wallet.owners, proposer);
    assert forall|i: int| 0 <= i < tx.signers.len() implies (#[trigger] tx.signers[i]
        <==> wallet.owners[i] == proposer && forall|j: int|
        0 <= j < i ==> wallet.owners[j] != proposer) by {
        assert(tx.signers[i] <==> owner_slot(wallet.owners, proposer) == Some(i));
        if wallet.owners[i] == proposer && forall|j: int|
            0 <= j < i ==> wallet.owners[j] != proposer {
            assert(is_slot_of(wallet.owners, proposer, i));
        }
    }
}

/// To create a transaction changes nothing of the wallet but its count of transactions, which goes up
/// by one.
pub proof fn law_creation_counts_one_transaction(wallet: WalletState)
    requires
        wallet.num_transactions < u64::MAX,
    ensures
        ({
            let after = with_transaction(wallet);
            &&& after.num_transactions == wallet.num_transactions + 1
            &&& after.base == wallet.base
            &&& after.bump == wallet.bump
            &&& after.threshold == wallet.threshold
            &&& after.minimum_delay == wallet.minimum_delay
            &&& after.grace_period == wallet.grace_period
            &&& after.owner_set_seqno == wallet.owner_set_seqno
            &&& after.owners == wallet.owners
        }),
{
}

/// The answer to a request for a new transaction and the accounts afterwards: where it is granted,
/// the transaction's account holds the instructions and the ETA that were passed and one signature,
/// the wallet's count has gone up, and the event reports the same; where it is refused, nothing has
/// changed.
pub proof fn law_created_transaction_is_stored(
    before: CreateTransaction,
    after: CreateTransaction,
    bump: u8,
    instructions: Seq<TXInstruction>,
    eta: i64,
    now: i64,
    outcome: Result<TransactionCreateEvent, WalletError>,
)
    requires
        transaction_created(
            before,
            after,
            bump,
            instruction_states(instructions),
            eta,
            now,
            outcome,
        ),
    ensures
        ({
            let denial = create_transaction_denial(
                before.smart_wallet.data@,
                before.proposer.key,
                eta,
                now,
            );
            &&& outcome is Ok <==> denial is None
            &&& outcome is Err ==> Some(outcome->Err_0) == denial && after == before
        }),
        outcome is Ok ==> {
            let wallet = before.smart_wallet.data;
            let tx = after.transaction.data;
            let event = outcome->Ok_0;
            &&& before.smart_wallet.data.owners@.contains(before.proposer.key)
            &&& tx.smart_wallet == before.smart_wallet.key
            &&& tx.index == wallet.num_transactions
            &&& tx.bump == bump
            &&& tx.proposer == before.proposer.key
            &&& same_instructions(tx.instructions@, instructions)
            &&& tx.owner_set_seqno == wallet.owner_set_seqno
            &&& tx.eta == eta
            &&& tx.executed_at == -1
            &&& tx.signers@.len() == wallet.owners@.len()
            &&& after.smart_wallet.data.num_transactions == wallet.num_transactions + 1
            &&& after.smart_wallet.data.owners@ == wallet.owners@
            &&& after.smart_wallet.data.threshold == wallet.threshold
            &&& after.smart_wallet.data.minimum_delay == wallet.minimum_delay
            &&& after.smart_wallet.data.owner_set_seqno == wallet.owner_set_seqno
            &&& after.smart_wallet.data.grace_period == wallet.grace_period
            &&& after.smart_wallet.data.base == wallet.base
            &&& after.smart_wallet.data.bump == wallet.bump
            &&& after.smart_wallet.key == before.smart_wallet.key
            &&& after.transaction.key == before.transaction.key
            &&& after.proposer == before.proposer
            &&& event.smart_wallet == before.smart_wallet.key
            &&& event.transaction == before.transaction.key
            &&& event.proposer == before.proposer.key
            &&& same_instructions(event.instructions@, instructions)
            &&& event.eta == eta
            &&& event.timestamp == now
        },
{
    if outcome is Ok {
        law_listed_instructions_are_the_same(
            after.transaction.data.instructions@,
            instructions,
        );
        law_listed_instructions_are_the_same(outcome->Ok_0.instructions@, instructions);
    }
}

/// A signature is set, or taken back, at the first place of its owner; every other signature and all
/// else of the transaction stays.
pub proof fn law_signature_changes_one_place(
    wallet: WalletState,
    tx: TransactionState,
    owner: Pubkey,
    signed: bool,
)
    requires
        wallet.owners.contains(owner),
        tx.signers.len() == wallet.owners.len(),
    ensures
        ({
            let after = with_signature(wallet, tx, owner, signed);
            &&& after.signers.len() == tx.signers.len()
            &&& forall|i: int|
                0 <= i < tx.signers.len() ==> #[trigger] after.signers[i] == if wallet.owners[i]
                    == owner && forall|j: int| 0 <= j < i ==> wallet.owners[j] != owner {
                    signed
                } else {
                    tx.signers[i]
                }
            &&& after.smart_wallet == tx.smart_wallet
            &&& after.index == tx.index
            &&& after.bump == tx.bump
            &&& after.proposer == tx.proposer
            &&& after.instructions == tx.instructions
            &&& after.owner_set_seqno == tx.owner_set_seqno
            &&& after.eta == tx.eta
            &&& after.executor == tx.executor
            &&& after.executed_at == tx.executed_at
        }),
{
    lemma_owner_slot(wallet.owners, owner);
    let after = with_signature(wallet, tx, owner, signed);
    assert forall|i: int| 0 <= i < tx.signers.len() implies #[trigger] after.signers[i]
        == if wallet.owners[i] == owner && forall|j: int| 0 <= j < i ==> wallet.owners[j] != owner {
        signed
    } else {
        tx.signers[i]
    } by {
        if wallet.owners[i] == owner && forall|j: int| 0 <= j < i ==> wallet.owners[j] != owner {
            assert(is_slot_of(wallet.owners, owner, i));
        }
    }
}

/// A granted request to sign stores the owner's signature in the transaction's account at the owner's
/// place, and leaves the wallet and the addresses alone.
pub proof fn law_signature_is_stored(before: Approve, after: Approve, signed: bool, slot: int)
    requires
        signature_recorded(before, after, signed),
        0 <= slot < before.smart_wallet.data.owners@.len(),
        before.smart_wallet.data.owners@[slot] == before.owner.key,
        forall|j: int| 0 <= j < slot ==> before.smart_wallet.data.owners@[j] != before.owner.key,
    ensures
        before.denial() is None,
        after.transaction.data.signers@ == before.transaction.data.signers@.update(slot, signed),
        same_instructions(
            after.transaction.data.instructions@,
            before.transaction.data.instructions@,
        ),
        after.transaction.data.smart_wallet == before.transaction.data.smart_wallet,
        after.transaction.data.index == before.transaction.data.index,
        after.transaction.data.bump == before.transaction.data.bump,
        after.transaction.data.proposer == before.transaction.data.proposer,
        after.transaction.data.owner_set_seqno == before.transaction.data.owner_set_seqno,
        after.transaction.data.eta == before.transaction.data.eta,
        after.transaction.data.executor == before.transaction.data.executor,
        after.transaction.data.executed_at == before.transaction.data.executed_at,
        after.transaction.key == before.transaction.key,
        after.smart_wallet == before.smart_wallet,
        after.owner == before.owner,
{
    let owners = before.smart_wallet.data.owners@;
    lemma_owner_slot(owners, before.owner.key);
    assert(is_slot_of(owners, before.owner.key, slot));
    law_listed_instructions_are_the_same(
        after.transaction.data.instructions@,
        before.transaction.data.instructions@,
    );
}

/// The place of an owner is the first one at which the owner's key stands, and only owners have one.
pub proof fn law_owner_signs_at_the_first_place(owners: Seq<Pubkey>, key: Pubkey, slot: int)
    ensures
        owner_slot(owners, key) == Some(slot) <==> {
            &&& 0 <= slot < owners.len()
            &&& owners[slot] == key
            &&& forall|i: int| 0 <= i < slot ==> owners[i] != key
        },
        owner_slot(owners, key) is None <==> !owners.contains(key),
{
    lemma_owner_slot(owners, key);
    if 0 <= slot < owners.len() && owners[slot] == key && forall|i: int|
        0 <= i < slot ==> owners[i] != key {
        assert(is_slot_of(owners, key, slot));
    }
}

/// The number of signatures is the number of places that are set: one more place that is set counts
/// one more wherever it stands, one that is not counts nothing.
pub proof fn law_signatures_are_counted_once_each(signers: Seq<bool>, more: Seq<bool>)
    ensures
        count_signers(Seq::<bool>::empty()) == 0,
        count_signers(seq![true]) == 1,
        count_signers(seq![false]) == 0,
        count_signers(signers + more) == count_signers(signers) + count_signers(more),
    decreases more.len(),
{
    assert(seq![true].drop_last() =~= Seq::<bool>::empty());
    assert(seq![false].drop_last() =~= Seq::<bool>::empty());
    reveal_with_fuel(count_signers, 2);
    if more.len() == 0 {
        assert(signers + more =~= signers);
    } else {
        law_signatures_are_counted_once_each(signers, more.drop_last());
        assert((signers + more).drop_last() =~= signers + more.drop_last());
        assert((signers + more).last() == more.last());
    }
}

/// A transaction is burned by noting who executed it and when; all else stays, its signatures and
/// instructions among it.
pub proof fn law_burning_notes_executor_and_time(tx: TransactionState, executor: Pubkey, now: i64)
    ensures
        ({
            let after = burned(tx, executor, now);
            &&& after.executor == executor
            &&& after.executed_at == now
            &&& after.smart_wallet == tx.smart_wallet
            &&& after.index == tx.index
            &&& after.bump == tx.bump
            &&& after.proposer == tx.proposer
            &&& after.instructions == tx.instructions
            &&& after.signers == tx.signers
            &&& after.owner_set_seqno == tx.owner_set_seqno
            &&& after.eta == tx.eta
        }),
{
}

/// A subaccount is recorded exactly if the address passed is the derived one, for any two addresses;
/// what is recorded is its wallet, type and index. Otherwise nothing changes.
pub proof fn law_subaccount_is_recorded_at_its_address(
    before: CreateSubaccountInfo,
    after: CreateSubaccountInfo,
    address: Seq<u8>,
    subaccount: Pubkey,
    info: SubaccountInfo,
    verdict: Result<(), WalletError>,
)
    requires
        subaccount_recorded(before, after, address, subaccount, info, verdict),
    ensures
        verdict is Ok <==> subaccount@ == address,
        verdict is Ok ==> {
            &&& after.subaccount_info.data.smart_wallet == info.smart_wallet
            &&& after.subaccount_info.data.subaccount_type == info.subaccount_type
            &&& after.subaccount_info.data.index == info.index
            &&& after.subaccount_info.key == before.subaccount_info.key
        },
        verdict is Err ==> {
            &&& verdict->Err_0 == WalletError::Code(ErrorCode::SubaccountOwnerMismatch)
            &&& after == before
        },
{
}

/// The address and the bump seed of a subaccount are those that the search finds for its seeds, and
/// the bytes of what was found are its own.
pub proof fn law_derived_address_is_the_one_found(
    subaccount_type: SubaccountType,
    smart_wallet: Pubkey,
    index: u64,
    key: Pubkey,
    bump: u8,
)
    ensures
        ({
            let found = find_program_address(
                subaccount_seeds(subaccount_type, smart_wallet, index),
                program_id(),
            );
            let address = derived_address(subaccount_type, smart_wallet, index);
            let with = derived_bump(subaccount_type, smart_wallet, index);
            &&& found == Some((key@, bump)) <==> address == Some(key@) && with == Some(bump)
            &&& found is None <==> address is None
            &&& found is None <==> with is None
        }),
        found_bytes(Some((key, bump))) == Some((key@, bump)),
        found_bytes(None) is None,
        address_bytes(Some(key)) == Some(key@),
        address_bytes(None) is None,
        key@.len() == 32,
        forall|i: int| 0 <= i < 32 ==> #[trigger] key@[i] == key.bytes[i],
{
}

/// The contents of a list of seeds are those of its seeds, one by one.
pub proof fn law_seeds_are_taken_one_by_one(seeds: Seq<Vec<u8>>, contents: Seq<Seq<u8>>)
    ensures
        seed_bytes(seeds) == contents <==> {
            &&& seeds.len() == contents.len()
            &&& forall|i: int| 0 <= i < seeds.len() ==> (#[trigger] seeds[i])@ == contents[i]
        },
{
    if seed_bytes(seeds) == contents {
        assert forall|i: int| 0 <= i < seeds.len() implies (#[trigger] seeds[i])@ == contents[i] by {
            assert(seed_bytes(seeds)[i] == seeds[i]@);
        }
    }
    if seeds.len() == contents.len() && forall|i: int|
        0 <= i < seeds.len() ==> (#[trigger] seeds[i])@ == contents[i] {
        assert(seed_bytes(seeds) =~= contents);
    }
}

} // verus!
