//! Histories: what holds of a wallet and one of its transactions after any number of requests, made
//! one after the other, whether they were refused or not.

use vstd::prelude::*;

use crate::accounts::{
    execution_denial, membership_denial, signature_denial, time_denial, Approve,
};
use crate::error::{ErrorCode, WalletError};
use crate::execution::burned;
use crate::laws::signatures::{
    approvers, law_creator_signs, law_each_signature_is_another_owner,
    law_signature_is_the_owners_own, signatures_valid,
};
use crate::pubkey::Pubkey;
use crate::smart_wallet::{
    change_threshold_denial, create_transaction_denial, creation_denial, eta_denial,
    new_transaction, new_wallet, set_owners_denial, with_owners, with_signature, with_transaction,
};
use crate::state::{lemma_owner_slot, InstructionState, TransactionState, WalletState};
use crate::{DEFAULT_GRACE_PERIOD, MAX_DELAY_SECONDS, NOT_EXECUTED, NO_ETA};

verus! {

/// A wallet and one of its transactions.
#[verifier::ext_equal]
pub struct Stage {
    pub wallet: WalletState,
    pub tx: TransactionState,
}

/// A request to the wallet. `CreateTransaction` makes another transaction than the one of the stage.
pub enum Request {
    SetOwners { is_signer: bool, owners: Seq<Pubkey> },
    ChangeThreshold { is_signer: bool, threshold: u64 },
    CreateTransaction { proposer: Pubkey, eta: i64, now: i64 },
    Approve { owner: Pubkey },
    Unapprove { owner: Pubkey },
    /// An execution allowed at `now`, all of whose instructions succeed and which is over at
    /// `executed_at`.
    Execute { owner: Pubkey, now: i64, executed_at: i64 },
}

/// Why the wallet at `wallet_key` refuses a request.
pub open spec fn denial(wallet_key: Pubkey, stage: Stage, request: Request) -> Option<WalletError> {
    match request {
        Request::SetOwners { is_signer, owners } => set_owners_denial(is_signer, stage.wallet),
        Request::ChangeThreshold { is_signer, threshold } => change_threshold_denial(
            is_signer,
            stage.wallet,
            threshold,
        ),
        Request::CreateTransaction { proposer, eta, now } => create_transaction_denial(
            stage.wallet,
            proposer,
            eta,
            now,
        ),
        Request::Approve { owner } => signature_denial(wallet_key, stage.wallet, stage.tx, owner),
        Request::Unapprove { owner } => signature_denial(wallet_key, stage.wallet, stage.tx, owner),
        Request::Execute { owner, now, executed_at } => execution_denial(
            wallet_key,
            stage.wallet,
            stage.tx,
            owner,
            now,
        ),
    }
}

/// What a request that is not refused leads to.
pub open spec fn carried_out(stage: Stage, request: Request) -> Stage {
    match request {
        Request::SetOwners { is_signer, owners } => Stage {
            wallet: with_owners(stage.wallet, owners),
            ..stage
        },
        Request::ChangeThreshold { is_signer, threshold } => Stage {
            wallet: WalletState { threshold, ..stage.wallet },
            ..stage
        },
        Request::CreateTransaction { proposer, eta, now } => Stage {
            wallet: with_transaction(stage.wallet),
            ..stage
        },
        Request::Approve { owner } => Stage {
            tx: with_signature(stage.wallet, stage.tx, owner, true),
            ..stage
        },
        Request::Unapprove { owner } => Stage {
            tx: with_signature(stage.wallet, stage.tx, owner, false),
            ..stage
        },
        Request::Execute { owner, now, executed_at } => Stage {
            tx: burned(stage.tx, owner, executed_at),
            ..stage
        },
    }
}

/// What a request leads to. One that is refused changes nothing.
pub open spec fn answered(wallet_key: Pubkey, stage: Stage, request: Request) -> Stage {
    if denial(wallet_key, stage, request) is None {
        carried_out(stage, request)
    } else {
        stage
    }
}

/// The stage after the first `k` of `requests`.
pub open spec fn stage_after(
    wallet_key: Pubkey,
    start: Stage,
    requests: Seq<Request>,
    k: nat,
) -> Stage
    decreases k,
{
    if k == 0 {
        start
    } else {
        answered(
            wallet_key,
            stage_after(wallet_key, start, requests, (k - 1) as nat),
            requests[k - 1],
        )
    }
}

/// Whether the `k`-th of `requests` is carried out.
pub open spec fn accepted(wallet_key: Pubkey, start: Stage, requests: Seq<Request>, k: nat) -> bool {
    denial(wallet_key, stage_after(wallet_key, start, requests, k), requests[k as int]) is None
}

/// Whether the wallet has a minimum delay and a grace period as every wallet is created with.
pub open spec fn periods_valid(wallet: WalletState) -> bool {
    &&& 0 <= wallet.minimum_delay <= MAX_DELAY_SECONDS
    &&& wallet.grace_period == DEFAULT_GRACE_PERIOD
}

/// The stage right after `proposer` has created a transaction of the wallet.
pub open spec fn created(
    wallet_key: Pubkey,
    wallet: WalletState,
    bump: u8,
    proposer: Pubkey,
    instructions: Seq<InstructionState>,
    eta: i64,
) -> Stage {
    Stage {
        wallet: with_transaction(wallet),
        tx: new_transaction(wallet_key, wallet, bump, proposer, instructions, eta),
    }
}

/// The transaction is one of the wallet's: it was counted, it was made for the present owners or
/// for earlier ones, and where for the present ones, its signatures are theirs.
pub open spec fn consistent(wallet_key: Pubkey, stage: Stage) -> bool {
    &&& stage.tx.smart_wallet == wallet_key
    &&& stage.tx.index < stage.wallet.num_transactions
    &&& stage.tx.owner_set_seqno <= stage.wallet.owner_set_seqno
    &&& stage.tx.owner_set_seqno == stage.wallet.owner_set_seqno ==> signatures_valid(
        stage.wallet.owners,
        stage.tx.signers,
    )
}

/// `later` may come after `earlier`: the counters have not gone down, what a wallet and a
/// transaction are made with is the same, and a transaction that was executed still is.
pub open spec fn follows(earlier: Stage, later: Stage) -> bool {
    &&& later.wallet.base == earlier.wallet.base
    &&& later.wallet.bump == earlier.wallet.bump
    &&& later.wallet.minimum_delay == earlier.wallet.minimum_delay
    &&& later.wallet.grace_period == earlier.wallet.grace_period
    &&& later.wallet.owner_set_seqno >= earlier.wallet.owner_set_seqno
    &&& later.wallet.owner_set_seqno == earlier.wallet.owner_set_seqno ==> later.wallet.owners
        == earlier.wallet.owners
    &&& later.wallet.num_transactions >= earlier.wallet.num_transactions
    &&& later.tx.smart_wallet == earlier.tx.smart_wallet
    &&& later.tx.index == earlier.tx.index
    &&& later.tx.bump == earlier.tx.bump
    &&& later.tx.proposer == earlier.tx.proposer
    &&& later.tx.instructions == earlier.tx.instructions
    &&& later.tx.owner_set_seqno == earlier.tx.owner_set_seqno
    &&& later.tx.eta == earlier.tx.eta
    &&& earlier.tx.executed_at != NOT_EXECUTED ==> later.tx.executed_at
        == earlier.tx.executed_at && later.tx.executor == earlier.tx.executor
}

/// A request keeps a consistent stage consistent.
proof fn lemma_step(wallet_key: Pubkey, stage: Stage, request: Request)
    requires
        consistent(wallet_key, stage),
    ensures
        consistent(wallet_key, answered(wallet_key, stage, request)),
        follows(stage, answered(wallet_key, stage, request)),
{
    if denial(wallet_key, stage, request) is None {
        match request {
            Request::Approve { owner } => {
                law_signature_is_the_owners_own(stage.wallet, stage.tx, owner);
            },
            Request::Unapprove { owner } => {
                law_signature_is_the_owners_own(stage.wallet, stage.tx, owner);
            },
            _ => {},
        }
    }
}

/// Every stage from the `i`-th on follows the `i`-th and is consistent.
proof fn lemma_history(
    wallet_key: Pubkey,
    start: Stage,
    requests: Seq<Request>,
    i: nat,
    j: nat,
)
    requires
        consistent(wallet_key, stage_after(wallet_key, start, requests, i)),
        i <= j,
    ensures
        consistent(wallet_key, stage_after(wallet_key, start, requests, j)),
        follows(
            stage_after(wallet_key, start, requests, i),
            stage_after(wallet_key, start, requests, j),
        ),
    decreases j,
{
    if i < j {
        let k = (j - 1) as nat;
        lemma_history(wallet_key, start, requests, i, k);
        lemma_step(wallet_key, stage_after(wallet_key, start, requests, k), requests[k as int]);
    }
}

/// A transaction that was just created is consistent with its wallet.
pub proof fn law_created_transaction_is_consistent(
    wallet_key: Pubkey,
    wallet: WalletState,
    bump: u8,
    proposer: Pubkey,
    instructions: Seq<InstructionState>,
    eta: i64,
    now: i64,
)
    requires
        create_transaction_denial(wallet, proposer, eta, now) is None,
    ensures
        consistent(
            wallet_key,
            created(wallet_key, wallet, bump, proposer, instructions, eta),
        ),
{
    law_creator_signs(wallet_key, wallet, bump, proposer, instructions, eta);
}

/// Whatever requests follow, a transaction stays consistent with its wallet; what the two are made
/// with never changes, and the counters never go down.
pub proof fn law_consistency_is_kept(
    wallet_key: Pubkey,
    start: Stage,
    requests: Seq<Request>,
    k: nat,
)
    requires
        consistent(wallet_key, start),
        k <= requests.len(),
    ensures
        consistent(wallet_key, stage_after(wallet_key, start, requests, k)),
        follows(start, stage_after(wallet_key, start, requests, k)),
{
    lemma_history(wallet_key, start, requests, 0, k);
}

/// Whatever requests came before, a transaction has a place for the signature of every owner who may
/// sign it, so that each request to approve or unapprove it can be answered.
pub proof fn law_owner_finds_a_slot(
    wallet_key: Pubkey,
    start: Stage,
    requests: Seq<Request>,
    k: nat,
    accounts: Approve,
)
    requires
        consistent(wallet_key, start),
        k <= requests.len(),
        accounts.smart_wallet.key == wallet_key,
        accounts.smart_wallet.data@ == stage_after(wallet_key, start, requests, k).wallet,
        accounts.transaction.data@ == stage_after(wallet_key, start, requests, k).tx,
    ensures
        accounts.spec_has_slot(),
{
    lemma_history(wallet_key, start, requests, 0, k);
    lemma_owner_slot(accounts.smart_wallet.data@.owners, accounts.owner.key);
}

/// A transaction is executed at most once: after it was executed, every further request to execute
/// it is refused.
pub proof fn law_executed_once(
    wallet_key: Pubkey,
    start: Stage,
    requests: Seq<Request>,
    i: nat,
    j: nat,
)
    requires
        consistent(wallet_key, start),
        i < j < requests.len(),
        requests[i as int] is Execute,
        requests[i as int]->Execute_executed_at != NOT_EXECUTED,
        accepted(wallet_key, start, requests, i),
        requests[j as int] is Execute,
    ensures
        !accepted(wallet_key, start, requests, j),
{
    lemma_history(wallet_key, start, requests, 0, i);
    lemma_step(wallet_key, stage_after(wallet_key, start, requests, i), requests[i as int]);
    lemma_history(wallet_key, start, requests, i + 1, j);
}

/// An executed transaction that is still its owners' is refused as already executed.
pub proof fn law_executed_is_answered(
    wallet_key: Pubkey,
    wallet: WalletState,
    tx: TransactionState,
    executor: Pubkey,
    executed_at: i64,
    owner: Pubkey,
    now: i64,
)
    requires
        membership_denial(wallet_key, wallet, tx) is None,
        executed_at != NOT_EXECUTED,
    ensures
        execution_denial(wallet_key, wallet, burned(tx, executor, executed_at), owner, now) == Some(
            WalletError::Code(ErrorCode::AlreadyExecuted),
        ),
{
}

/// Once the owners were replaced, a transaction from before can neither be signed nor be executed:
/// the answer is that the owner set has changed.
pub proof fn law_new_owners_void_transactions(
    wallet_key: Pubkey,
    start: Stage,
    requests: Seq<Request>,
    i: nat,
    j: nat,
)
    requires
        consistent(wallet_key, start),
        i < j < requests.len(),
        requests[i as int] is SetOwners,
        accepted(wallet_key, start, requests, i),
        requests[j as int] is Approve || requests[j as int] is Unapprove
            || requests[j as int] is Execute,
    ensures
        denial(
            wallet_key,
            stage_after(wallet_key, start, requests, j),
            requests[j as int],
        ) == Some(WalletError::Code(ErrorCode::OwnerSetChanged)),
{
    lemma_history(wallet_key, start, requests, 0, i);
    lemma_step(wallet_key, stage_after(wallet_key, start, requests, i), requests[i as int]);
    lemma_history(wallet_key, start, requests, i + 1, j);
}

/// Whatever requests came before, a transaction is executed only if at that moment at least as many
/// different owners as the threshold says have signed it.
pub proof fn law_executed_with_threshold(
    wallet_key: Pubkey,
    start: Stage,
    requests: Seq<Request>,
    k: nat,
)
    requires
        consistent(wallet_key, start),
        k < requests.len(),
        requests[k as int] is Execute,
        accepted(wallet_key, start, requests, k),
    ensures
        ({
            let stage = stage_after(wallet_key, start, requests, k);
            let signed = approvers(stage.wallet.owners, stage.tx.signers);
            &&& signed.finite()
            &&& signed.len() >= stage.wallet.threshold
            &&& forall|key: Pubkey| #[trigger]
                signed.contains(key) ==> stage.wallet.owners.contains(key)
            &&& stage.wallet.owners.contains(requests[k as int]->Execute_owner)
        }),
{
    lemma_history(wallet_key, start, requests, 0, k);
    let stage = stage_after(wallet_key, start, requests, k);
    law_each_signature_is_another_owner(stage.wallet.owners, stage.tx.signers);
}

/// A transaction of a wallet with a minimum delay is executed no earlier than that delay after its
/// creation; one with an ETA no earlier than the ETA, and no later than the grace period after it.
pub proof fn law_timelock_holds(
    wallet_key: Pubkey,
    wallet: WalletState,
    bump: u8,
    proposer: Pubkey,
    instructions: Seq<InstructionState>,
    eta: i64,
    created_at: i64,
    requests: Seq<Request>,
    k: nat,
)
    requires
        create_transaction_denial(wallet, proposer, eta, created_at) is None,
        k < requests.len(),
        requests[k as int] is Execute,
        accepted(
            wallet_key,
            created(wallet_key, wallet, bump, proposer, instructions, eta),
            requests,
            k,
        ),
    ensures
        ({
            let now = requests[k as int]->Execute_now;
            &&& wallet.minimum_delay != 0 ==> now >= created_at + wallet.minimum_delay
            &&& eta != NO_ETA ==> eta <= now <= eta + wallet.grace_period
            &&& eta != NO_ETA ==> now <= created_at + MAX_DELAY_SECONDS + wallet.grace_period
        }),
{
    let start = created(wallet_key, wallet, bump, proposer, instructions, eta);
    law_creator_signs(wallet_key, wallet, bump, proposer, instructions, eta);
    lemma_history(wallet_key, start, requests, 0, k);
}

/// In a wallet with a minimum delay every transaction needs an ETA, and one that keeps the delay can
/// be had: the earliest is accepted when the transaction is created, and from it on for the length
/// of the grace period the time does not stand in the way of the execution. In a wallet without one
/// a transaction needs no ETA, and can then be executed at any time since 1970.
pub proof fn law_earliest_eta_is_open(wallet: WalletState, created_at: i64, now: i64)
    requires
        periods_valid(wallet),
        created_at >= 0,
        created_at + wallet.minimum_delay + wallet.grace_period <= i64::MAX,
    ensures
        ({
            let eta = (created_at + wallet.minimum_delay) as i64;
            &&& eta_denial(wallet.minimum_delay, eta, created_at) is None
            &&& eta <= now <= eta + wallet.grace_period ==> time_denial(
                eta,
                wallet.grace_period,
                now,
            ) is None
        }),
        wallet.minimum_delay != 0 ==> eta_denial(wallet.minimum_delay, NO_ETA, created_at) == Some(
            WalletError::Code(ErrorCode::InvalidETA),
        ),
        wallet.minimum_delay == 0 ==> eta_denial(wallet.minimum_delay, NO_ETA, created_at) is None,
        now >= 0 ==> time_denial(NO_ETA, wallet.grace_period, now) is None,
{
}

/// A wallet that was just created has valid periods, and keeps them whatever requests follow.
pub proof fn law_periods_stay_valid(
    wallet_key: Pubkey,
    base: Pubkey,
    bump: u8,
    max_owners: u8,
    owners: Seq<Pubkey>,
    threshold: u64,
    minimum_delay: i64,
    tx: TransactionState,
    requests: Seq<Request>,
    k: nat,
)
    requires
        creation_denial(max_owners, owners, minimum_delay) is None,
        k <= requests.len(),
    ensures
        ({
            let wallet = new_wallet(base, bump, owners, threshold, minimum_delay);
            periods_valid(stage_after(wallet_key, Stage { wallet, tx }, requests, k).wallet)
        }),
    decreases k,
{
    if k > 0 {
        law_periods_stay_valid(
            wallet_key,
            base,
            bump,
            max_owners,
            owners,
            threshold,
            minimum_delay,
            tx,
            requests,
            (k - 1) as nat,
        );
    }
}

/// To replace the owners or to change the threshold leaves a threshold that the owners can reach by
/// their number, and every further request keeps it so.
pub proof fn law_threshold_stays_within_owners(
    wallet_key: Pubkey,
    start: Stage,
    requests: Seq<Request>,
    i: nat,
    j: nat,
)
    requires
        i <= j <= requests.len(),
        ({
            let stage = stage_after(wallet_key, start, requests, i);
            ||| stage.wallet.threshold <= stage.wallet.owners.len()
            ||| i < j && requests[i as int] is SetOwners && accepted(
                wallet_key,
                start,
                requests,
                i,
            )
            ||| i < j && requests[i as int] is ChangeThreshold && accepted(
                wallet_key,
                start,
                requests,
                i,
            )
        }),
    ensures
        stage_after(wallet_key, start, requests, j).wallet.threshold <= stage_after(
            wallet_key,
            start,
            requests,
            j,
        ).wallet.owners.len(),
    decreases j,
{
    if i < j {
        let k = (j - 1) as nat;
        if i < k {
            law_threshold_stays_within_owners(wallet_key, start, requests, i, k);
        }
        let stage = stage_after(wallet_key, start, requests, k);
        assert(stage_after(wallet_key, start, requests, j) == answered(
            wallet_key,
            stage,
            requests[k as int],
        ));
    }
}

/// The transactions of a wallet are numbered in the order of their creation, without gaps: a new one
/// gets the number of those that were created before it, which no earlier one has.
pub proof fn law_transactions_are_numbered(
    wallet_key: Pubkey,
    stage: Stage,
    bump: u8,
    proposer: Pubkey,
    instructions: Seq<InstructionState>,
    eta: i64,
    now: i64,
)
    requires
        consistent(wallet_key, stage),
        create_transaction_denial(stage.wallet, proposer, eta, now) is None,
    ensures
        ({
            let next = created(wallet_key, stage.wallet, bump, proposer, instructions, eta);
            &&& next.tx.index == stage.wallet.num_transactions
            &&& next.tx.index > stage.tx.index
            &&& next.wallet.num_transactions == stage.wallet.num_transactions + 1
        }),
{
}

} // verus!
