//! Lifecycles: from its creation on a transaction can be signed by every owner, and once enough have
//! signed it, it can be executed.

use vstd::prelude::*;

use crate::accounts::execution_denial;
use crate::laws::history::{answered, created, denial, stage_after, Request};
use crate::laws::signatures::{
    approvers, law_creator_signs, law_each_signature_is_another_owner,
    law_signature_is_the_owners_own, signatures_valid,
};
use crate::pubkey::Pubkey;
use crate::state::{InstructionState, WalletState};

verus! {

/// Whether the last thing that `key` has said of a transaction proposed by `proposer`, by the first
/// `k` of `requests`, is that it approves. To propose is to approve.
pub open spec fn approves(key: Pubkey, proposer: Pubkey, requests: Seq<Request>, k: nat) -> bool
    decreases k,
{
    if k == 0 {
        key == proposer
    } else if requests[k - 1] == (Request::Approve { owner: key }) {
        true
    } else if requests[k - 1] == (Request::Unapprove { owner: key }) {
        false
    } else {
        approves(key, proposer, requests, (k - 1) as nat)
    }
}

/// Whether none of the first `k` requests replaces the owners.
pub open spec fn owners_kept(requests: Seq<Request>, k: nat) -> bool {
    forall|i: int| 0 <= i < k ==> !(#[trigger] requests[i] is SetOwners)
}

/// Whether none of the first `k` requests executes the transaction.
pub open spec fn not_executed(requests: Seq<Request>, k: nat) -> bool {
    forall|i: int| 0 <= i < k ==> !(#[trigger] requests[i] is Execute)
}

/// From the moment that a transaction was created, and as long as the owners are not replaced, every
/// owner can approve and unapprove it, and nobody else can. Exactly those owners have signed whose
/// last answer is an approval.
pub proof fn law_every_owner_can_sign_from_creation_on(
    wallet_key: Pubkey,
    wallet: WalletState,
    bump: u8,
    proposer: Pubkey,
    instructions: Seq<InstructionState>,
    eta: i64,
    requests: Seq<Request>,
    k: nat,
    owner: Pubkey,
)
    requires
        wallet.owners.contains(proposer),
        wallet.num_transactions < u64::MAX,
        k <= requests.len(),
        owners_kept(requests, k),
    ensures
        ({
            let start = created(wallet_key, wallet, bump, proposer, instructions, eta);
            let stage = stage_after(wallet_key, start, requests, k);
            let is_owner = wallet.owners.contains(owner);
            &&& denial(wallet_key, stage, Request::Approve { owner }) is None <==> is_owner
            &&& denial(wallet_key, stage, Request::Unapprove { owner }) is None <==> is_owner
            &&& approvers(wallet.owners, stage.tx.signers).contains(owner) <==> is_owner
                && approves(owner, proposer, requests, k)
            &&& signatures_valid(wallet.owners, stage.tx.signers)
            &&& stage.wallet.owners == wallet.owners
            &&& stage.wallet.grace_period == wallet.grace_period
            &&& stage.wallet.owner_set_seqno == wallet.owner_set_seqno
            &&& stage.tx.owner_set_seqno == wallet.owner_set_seqno
            &&& stage.tx.smart_wallet == wallet_key
            &&& stage.tx.eta == eta
            &&& stage.tx.instructions == instructions
        }),
    decreases k,
{
    let start = created(wallet_key, wallet, bump, proposer, instructions, eta);
    if k == 0 {
        law_creator_signs(wallet_key, wallet, bump, proposer, instructions, eta);
    } else {
        let before = (k - 1) as nat;
        law_every_owner_can_sign_from_creation_on(
            wallet_key,
            wallet,
            bump,
            proposer,
            instructions,
            eta,
            requests,
            before,
            owner,
        );
        let stage = stage_after(wallet_key, start, requests, before);
        let request = requests[k - 1];
        assert(stage_after(wallet_key, start, requests, k) == answered(wallet_key, stage, request));
        assert(!(requests[k - 1] is SetOwners));
        if denial(wallet_key, stage, request) is None {
            match request {
                Request::Approve { owner: other } => {
                    law_signature_is_the_owners_own(stage.wallet, stage.tx, other);
                },
                Request::Unapprove { owner: other } => {
                    law_signature_is_the_owners_own(stage.wallet, stage.tx, other);
                },
                _ => {},
            }
        }
    }
}

/// The owners whose last answer is an approval.
pub open spec fn standing_approvals(
    owners: Seq<Pubkey>,
    proposer: Pubkey,
    requests: Seq<Request>,
    k: nat,
) -> Set<Pubkey> {
    Set::new(|key: Pubkey| owners.contains(key) && approves(key, proposer, requests, k))
}

/// A transaction that was created and not executed can be executed by an owner, from its ETA on and
/// within the grace period, exactly if at least as many different owners as the threshold says stand
/// by their approval.
pub proof fn law_approved_transaction_can_be_executed(
    wallet_key: Pubkey,
    wallet: WalletState,
    bump: u8,
    proposer: Pubkey,
    instructions: Seq<InstructionState>,
    eta: i64,
    requests: Seq<Request>,
    k: nat,
    executor: Pubkey,
    now: i64,
)
    requires
        wallet.owners.contains(proposer),
        wallet.num_transactions < u64::MAX,
        k <= requests.len(),
        owners_kept(requests, k),
        not_executed(requests, k),
    ensures
        ({
            let start = created(wallet_key, wallet, bump, proposer, instructions, eta);
            let stage = stage_after(wallet_key, start, requests, k);
            let signed = standing_approvals(wallet.owners, proposer, requests, k);
            &&& signed.finite()
            &&& execution_denial(wallet_key, stage.wallet, stage.tx, executor, now) is None <==> {
                &&& signed.len() >= stage.wallet.threshold
                &&& wallet.owners.contains(executor)
                &&& eta <= now
                &&& eta == -1 || now <= eta + wallet.grace_period <= i64::MAX
            }
        }),
{
    let start = created(wallet_key, wallet, bump, proposer, instructions, eta);
    let stage = stage_after(wallet_key, start, requests, k);
    let signed = standing_approvals(wallet.owners, proposer, requests, k);
    lemma_unexecuted(wallet_key, wallet, bump, proposer, instructions, eta, requests, k);
    law_every_owner_can_sign_from_creation_on(
        wallet_key,
        wallet,
        bump,
        proposer,
        instructions,
        eta,
        requests,
        k,
        proposer,
    );
    law_each_signature_is_another_owner(wallet.owners, stage.tx.signers);
    assert forall|key: Pubkey| #[trigger]
        approvers(wallet.owners, stage.tx.signers).contains(key) == signed.contains(key) by {
        law_every_owner_can_sign_from_creation_on(
            wallet_key,
            wallet,
            bump,
            proposer,
            instructions,
            eta,
            requests,
            k,
            key,
        );
    }
    assert(approvers(wallet.owners, stage.tx.signers) =~= signed);
}

/// A transaction that nobody has asked to execute is not executed.
proof fn lemma_unexecuted(
    wallet_key: Pubkey,
    wallet: WalletState,
    bump: u8,
    proposer: Pubkey,
    instructions: Seq<InstructionState>,
    eta: i64,
    requests: Seq<Request>,
    k: nat,
)
    requires
        k <= requests.len(),
        not_executed(requests, k),
    ensures
        stage_after(
            wallet_key,
            created(wallet_key, wallet, bump, proposer, instructions, eta),
            requests,
            k,
        ).tx.executed_at == -1,
    decreases k,
{
    if k > 0 {
        lemma_unexecuted(
            wallet_key,
            wallet,
            bump,
            proposer,
            instructions,
            eta,
            requests,
            (k - 1) as nat,
        );
        assert(!(requests[k - 1] is Execute));
    }
}

} // verus!
