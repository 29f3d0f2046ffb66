//! Signatures: every one that is counted is that of another owner.

use vstd::prelude::*;

use crate::accounts::{execution_denial, membership_denial, time_denial};
use crate::pubkey::Pubkey;
use crate::smart_wallet::{new_transaction, with_signature};
use crate::state::{
    count_signers, is_slot_of, lemma_owner_slot, owner_slot, InstructionState, TransactionState,
    WalletState,
};
use crate::NOT_EXECUTED;

verus! {

/// Whether `signers` has a place for each of `owners`, and is set at no place but those at which an
/// owner signs.
pub open spec fn signatures_valid(owners: Seq<Pubkey>, signers: Seq<bool>) -> bool {
    &&& signers.len() == owners.len()
    &&& forall|i: int|
        0 <= i < signers.len() && #[trigger] signers[i] ==> is_slot_of(owners, owners[i], i)
}

/// Whether the owner `key` has signed.
pub open spec fn has_signed(owners: Seq<Pubkey>, signers: Seq<bool>, key: Pubkey) -> bool {
    match owner_slot(owners, key) {
        Some(slot) => signers[slot],
        None => false,
    }
}

/// The owners who have signed.
pub open spec fn approvers(owners: Seq<Pubkey>, signers: Seq<bool>) -> Set<Pubkey> {
    Set::new(|key: Pubkey| has_signed(owners, signers, key))
}

/// The owners who have signed at one of the first `bound` places.
spec fn early_approvers(owners: Seq<Pubkey>, signers: Seq<bool>, bound: int) -> Set<Pubkey> {
    Set::new(
        |key: Pubkey| has_signed(owners, signers, key) && owner_slot(owners, key)->0 < bound,
    )
}

proof fn lemma_early_approvers(owners: Seq<Pubkey>, signers: Seq<bool>, bound: int)
    requires
        signatures_valid(owners, signers),
        0 <= bound <= signers.len(),
    ensures
        early_approvers(owners, signers, bound).finite(),
        early_approvers(owners, signers, bound).len() == count_signers(signers.take(bound)),
    decreases bound,
{
    let now = early_approvers(owners, signers, bound);
    if bound == 0 {
        assert forall|key: Pubkey| !now.contains(key) by {
            lemma_owner_slot(owners, key);
        }
        assert(now =~= Set::empty());
    } else {
        let last = bound - 1;
        let before = early_approvers(owners, signers, last);
        let key = owners[last];
        lemma_early_approvers(owners, signers, last);
        assert(signers.take(bound).drop_last() =~= signers.take(last));
        assert forall|other: Pubkey| now.contains(other) implies before.contains(other) || (other
            == key && signers[last]) by {
            lemma_owner_slot(owners, other);
        }
        if signers[last] {
            lemma_owner_slot(owners, key);
            assert(is_slot_of(owners, key, last));
            assert(now =~= before.insert(key));
            assert(!before.contains(key));
        } else {
            assert(now =~= before);
        }
    }
}

/// The number of signatures that is held against the threshold is the number of different owners
/// who have signed: no owner is counted twice, and nobody but an owner is counted.
pub proof fn law_each_signature_is_another_owner(owners: Seq<Pubkey>, signers: Seq<bool>)
    requires
        signatures_valid(owners, signers),
    ensures
        approvers(owners, signers).finite(),
        approvers(owners, signers).len() == count_signers(signers),
        forall|key: Pubkey| #[trigger]
            approvers(owners, signers).contains(key) ==> owners.contains(key),
{
    let bound = signers.len() as int;
    lemma_early_approvers(owners, signers, bound);
    assert forall|key: Pubkey| #[trigger] approvers(owners, signers).contains(key) implies {
        &&& owners.contains(key)
        &&& early_approvers(owners, signers, bound).contains(key)
    } by {
        lemma_owner_slot(owners, key);
    }
    assert(approvers(owners, signers) =~= early_approvers(owners, signers, bound));
    assert(signers.take(bound) =~= signers);
}

/// A transaction of the wallet's present owners that was not executed, and for which the time has
/// come, can be executed exactly if at least as many different owners as the threshold says have
/// signed it, and only by an owner.
pub proof fn law_execution_takes_threshold_owners(
    wallet_key: Pubkey,
    wallet: WalletState,
    tx: TransactionState,
    owner: Pubkey,
    now: i64,
)
    requires
        signatures_valid(wallet.owners, tx.signers),
    ensures
        execution_denial(wallet_key, wallet, tx, owner, now) is None <==> {
            &&& membership_denial(wallet_key, wallet, tx) is None
            &&& tx.executed_at == NOT_EXECUTED
            &&& time_denial(tx.eta, wallet.grace_period, now) is None
            &&& approvers(wallet.owners, tx.signers).len() >= wallet.threshold
            &&& wallet.owners.contains(owner)
        },
        approvers(wallet.owners, tx.signers).finite(),
        forall|key: Pubkey| #[trigger]
            approvers(wallet.owners, tx.signers).contains(key) ==> wallet.owners.contains(key),
{
    law_each_signature_is_another_owner(wallet.owners, tx.signers);
}

/// A new transaction is signed by its creator and by nobody else.
pub proof fn law_creator_signs(
    wallet_key: Pubkey,
    wallet: WalletState,
    bump: u8,
    proposer: Pubkey,
    instructions: Seq<InstructionState>,
    eta: i64,
)
    requires
        wallet.owners.contains(proposer),
    ensures
        ({
            let tx = new_transaction(wallet_key, wallet, bump, proposer, instructions, eta);
            &&& signatures_valid(wallet.owners, tx.signers)
            &&& approvers(wallet.owners, tx.signers) == set![proposer]
            &&& count_signers(tx.signers) == 1
        }),
{
    let tx = new_transaction(wallet_key, wallet, bump, proposer, instructions, eta);
    lemma_owner_slot(wallet.owners, proposer);
    assert forall|key: Pubkey| #[trigger]
        approvers(wallet.owners, tx.signers).contains(key) implies key == proposer by {
        lemma_owner_slot(wallet.owners, key);
    }
    assert(approvers(wallet.owners, tx.signers) =~= set![proposer]);
    law_each_signature_is_another_owner(wallet.owners, tx.signers);
}

/// To approve adds the owner to those who have signed, to unapprove takes the owner out; nobody
/// else's signature changes.
pub proof fn law_signature_is_the_owners_own(
    wallet: WalletState,
    tx: TransactionState,
    owner: Pubkey,
)
    requires
        wallet.owners.contains(owner),
        signatures_valid(wallet.owners, tx.signers),
    ensures
        ({
            let before = approvers(wallet.owners, tx.signers);
            let approved = with_signature(wallet, tx, owner, true);
            let unapproved = with_signature(wallet, tx, owner, false);
            &&& signatures_valid(wallet.owners, approved.signers)
            &&& approvers(wallet.owners, approved.signers) == before.insert(owner)
            &&& signatures_valid(wallet.owners, unapproved.signers)
            &&& approvers(wallet.owners, unapproved.signers) == before.remove(owner)
        }),
{
    let before = approvers(wallet.owners, tx.signers);
    let approved = with_signature(wallet, tx, owner, true);
    let unapproved = with_signature(wallet, tx, owner, false);
    lemma_owner_slot(wallet.owners, owner);
    assert forall|key: Pubkey| #[trigger]
        approvers(wallet.owners, approved.signers).contains(key) == before.insert(owner).contains(
            key,
        ) by {
        lemma_owner_slot(wallet.owners, key);
    }
    assert forall|key: Pubkey| #[trigger]
        approvers(wallet.owners, unapproved.signers).contains(key) == before.remove(
            owner,
        ).contains(key) by {
        lemma_owner_slot(wallet.owners, key);
    }
    assert(approvers(wallet.owners, approved.signers) =~= before.insert(owner));
    assert(approvers(wallet.owners, unapproved.signers) =~= before.remove(owner));
}

/// Of several approvals and withdrawals of one owner the last one counts; those of different owners
/// do not depend on their order.
pub proof fn law_last_signature_counts(
    wallet: WalletState,
    tx: TransactionState,
    owner: Pubkey,
    other: Pubkey,
    first: bool,
    second: bool,
)
    requires
        signatures_valid(wallet.owners, tx.signers),
    ensures
        with_signature(wallet, with_signature(wallet, tx, owner, first), owner, second)
            == with_signature(wallet, tx, owner, second),
        other != owner ==> with_signature(
            wallet,
            with_signature(wallet, tx, owner, first),
            other,
            second,
        ) == with_signature(wallet, with_signature(wallet, tx, other, second), owner, first),
{
    lemma_owner_slot(wallet.owners, owner);
    lemma_owner_slot(wallet.owners, other);
    let twice = with_signature(wallet, with_signature(wallet, tx, owner, first), owner, second);
    assert(twice.signers =~= with_signature(wallet, tx, owner, second).signers);
    if other != owner {
        let one = with_signature(wallet, with_signature(wallet, tx, owner, first), other, second);
        let two = with_signature(wallet, with_signature(wallet, tx, other, second), owner, first);
        assert(one.signers =~= two.signers);
    }
}

} // verus!
