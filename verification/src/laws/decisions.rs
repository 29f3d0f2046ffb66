//! Decisions: exactly which requests are granted, and with which error the others are refused.

use vstd::prelude::*;

use crate::accounts::{
    answers, auth_denial, execution_denial, membership_denial, owner_denial, signature_denial,
    time_denial, Approve, ExecuteTransaction,
};
use crate::error::{ErrorCode, Invariant, WalletError};
use crate::pubkey::Pubkey;
use crate::smart_wallet::{
    change_threshold_denial, create_transaction_denial, creation_denial, eta_denial,
    set_owners_denial,
};
use crate::state::{count_signers, owner_slot, TransactionState, WalletState};
use crate::MAX_DELAY_SECONDS;

verus! {

/// A check succeeds exactly if there is no reason against the request, and fails with that reason
/// where there is one.
pub proof fn law_check_gives_the_reason(
    verdict: Result<(), WalletError>,
    denial: Option<WalletError>,
)
    ensures
        answers(verdict, denial) <==> {
            &&& verdict is Ok <==> denial is None
            &&& verdict is Err ==> verdict->Err_0 == denial->0
        },
{
}

/// A wallet is created for every number of owners up to the maximum that was passed, none included,
/// and for every minimum delay from 0 to the maximum delay, both included. Otherwise a negative delay
/// comes before one that is too high, and that before too many owners.
pub proof fn law_wallet_is_created_within_its_limits(
    max_owners: u8,
    owners: Seq<Pubkey>,
    minimum_delay: i64,
)
    ensures
        ({
            let denial = creation_denial(max_owners, owners, minimum_delay);
            let delay_fits = 0 <= minimum_delay <= MAX_DELAY_SECONDS;
            &&& denial is None <==> delay_fits && owners.len() <= max_owners
            &&& denial == Some(WalletError::InvariantFailed(Invariant::DelayMustBePositive))
                <==> minimum_delay < 0
            &&& denial == Some(WalletError::Code(ErrorCode::DelayTooHigh)) <==> minimum_delay
                > MAX_DELAY_SECONDS
            &&& denial == Some(WalletError::InvariantFailed(Invariant::MaxOwners)) <==> delay_fits
                && owners.len() > max_owners
        }),
{
}

/// The owners of a wallet can be replaced, by any list, exactly if the wallet has signed and its
/// count of replacements can go up.
pub proof fn law_wallet_may_replace_its_owners(is_signer: bool, wallet: WalletState)
    ensures
        ({
            let denial = set_owners_denial(is_signer, wallet);
            &&& denial is None <==> is_signer && wallet.owner_set_seqno < u32::MAX
            &&& denial == Some(WalletError::MissingSignature) <==> !is_signer
            &&& denial == Some(WalletError::IntegerOverflow) <==> is_signer
                && wallet.owner_set_seqno == u32::MAX
            &&& auth_denial(is_signer) is None <==> is_signer
        }),
{
}

/// The threshold of a wallet can be set to every number up to that of its owners, 0 included, exactly
/// if the wallet has signed.
pub proof fn law_wallet_may_choose_its_threshold(
    is_signer: bool,
    wallet: WalletState,
    threshold: u64,
)
    ensures
        ({
            let denial = change_threshold_denial(is_signer, wallet, threshold);
            &&& denial is None <==> is_signer && threshold <= wallet.owners.len()
            &&& denial == Some(WalletError::MissingSignature) <==> !is_signer
            &&& denial == Some(WalletError::Code(ErrorCode::InvalidThreshold)) <==> is_signer
                && threshold > wallet.owners.len()
        }),
{
}

/// An ETA is accepted exactly if it keeps the wallet's minimum delay, where there is one, and, unless
/// it says that there is none, lies between the present and the maximum delay from it: the whole
/// interval, with both ends. Each refusal comes on the ETAs that its error speaks of.
pub proof fn law_eta_is_accepted_on_the_whole_interval(minimum_delay: i64, eta: i64, now: i64)
    ensures
        ({
            let denial = eta_denial(minimum_delay, eta, now);
            let earliest = now + minimum_delay;
            let in_range = i64::MIN <= earliest <= i64::MAX;
            let keeps_delay = minimum_delay == 0 || in_range && earliest <= eta;
            &&& denial is None <==> keeps_delay && (eta == -1 || 0 <= eta && now <= eta <= now
                + MAX_DELAY_SECONDS)
            &&& denial == Some(WalletError::Code(ErrorCode::InvalidETA)) <==> minimum_delay != 0
                && in_range && eta < earliest
            &&& denial == Some(WalletError::InvariantFailed(Invariant::EtaMustBePositive))
                <==> keeps_delay && eta < -1
            &&& denial == Some(WalletError::InvariantFailed(Invariant::EtaMustBeInTheFuture))
                <==> keeps_delay && 0 <= eta < now
            &&& denial == Some(WalletError::Code(ErrorCode::DelayTooHigh)) <==> keeps_delay && 0
                <= eta && MAX_DELAY_SECONDS < eta - now <= i64::MAX
            &&& denial == Some(WalletError::IntegerOverflow) <==> (minimum_delay != 0 && !in_range)
                || keeps_delay && 0 <= eta && eta - now > i64::MAX
        }),
{
}

/// A transaction with an ETA can be proposed for every point in time from the minimum delay after the
/// present to the maximum delay after it, whether or not the wallet has a minimum delay; and later
/// ETAs in that interval are as good as the earliest.
pub proof fn law_owner_may_choose_a_later_eta(
    wallet: WalletState,
    proposer: Pubkey,
    eta: i64,
    now: i64,
)
    requires
        wallet.owners.contains(proposer),
        wallet.num_transactions < u64::MAX,
        wallet.minimum_delay >= 0,
        now >= 0,
        now + wallet.minimum_delay <= eta <= now + MAX_DELAY_SECONDS,
    ensures
        create_transaction_denial(wallet, proposer, eta, now) is None,
{
}

/// A transaction is created exactly if its proposer is an owner, its ETA is accepted and the wallet's
/// count of transactions can go up; the first of these that does not hold gives the error.
pub proof fn law_owner_may_propose(wallet: WalletState, proposer: Pubkey, eta: i64, now: i64)
    ensures
        ({
            let denial = create_transaction_denial(wallet, proposer, eta, now);
            let of_eta = eta_denial(wallet.minimum_delay, eta, now);
            let is_owner = wallet.owners.contains(proposer);
            &&& denial is None <==> is_owner && of_eta is None && wallet.num_transactions
                < u64::MAX
            &&& !is_owner ==> denial == Some(WalletError::Code(ErrorCode::InvalidOwner))
            &&& is_owner && of_eta is Some ==> denial == of_eta
            &&& is_owner && of_eta is None && wallet.num_transactions == u64::MAX ==> denial
                == Some(WalletError::IntegerOverflow)
        }),
{
}

/// A key may act as an owner exactly if it is one of the owners, wherever it stands among them.
pub proof fn law_owners_may_act(owners: Seq<Pubkey>, key: Pubkey)
    ensures
        owner_denial(owners, key) is None <==> exists|i: int|
            0 <= i < owners.len() && owners[i] == key,
        owner_denial(owners, key) is Some ==> owner_denial(owners, key) == Some(
            WalletError::Code(ErrorCode::InvalidOwner),
        ),
{
    if owners.contains(key) {
        let i = choose|i: int| 0 <= i < owners.len() && owners[i] == key;
        assert(owners[i] == key);
    }
}

/// A transaction is put before the owners of a wallet exactly if it was made for that wallet and its
/// present set of owners: nothing else of the two matters. So any two transactions that agree in
/// these are treated the same.
pub proof fn law_membership_is_wallet_and_owner_set(
    wallet_key: Pubkey,
    wallet: WalletState,
    tx: TransactionState,
)
    ensures
        ({
            let denial = membership_denial(wallet_key, wallet, tx);
            let of_wallet = tx.smart_wallet == wallet_key;
            let of_owners = tx.owner_set_seqno == wallet.owner_set_seqno;
            &&& denial is None <==> of_wallet && of_owners
            &&& denial == Some(WalletError::KeyMismatch) <==> !of_wallet
            &&& denial == Some(WalletError::Code(ErrorCode::OwnerSetChanged)) <==> of_wallet
                && !of_owners
        }),
{
}

/// A signature is set or taken back exactly by an owner, on a transaction of the wallet and its
/// present set of owners, whether or not the owner has signed and the transaction was executed.
pub proof fn law_owners_may_sign(
    wallet_key: Pubkey,
    wallet: WalletState,
    tx: TransactionState,
    owner: Pubkey,
)
    ensures
        ({
            let denial = signature_denial(wallet_key, wallet, tx, owner);
            let of_wallet = tx.smart_wallet == wallet_key;
            let of_owners = tx.owner_set_seqno == wallet.owner_set_seqno;
            &&& denial is None <==> of_wallet && of_owners && wallet.owners.contains(owner)
            &&& denial == Some(WalletError::KeyMismatch) <==> !of_wallet
            &&& denial == Some(WalletError::Code(ErrorCode::OwnerSetChanged)) <==> of_wallet
                && !of_owners
            &&& denial == Some(WalletError::Code(ErrorCode::InvalidOwner)) <==> of_wallet
                && of_owners && !wallet.owners.contains(owner)
        }),
{
}

/// The time stands in the way of an execution exactly before the ETA and, where there is one, after
/// the grace period.
pub proof fn law_time_is_open_from_eta_to_grace(eta: i64, grace_period: i64, now: i64)
    ensures
        ({
            let denial = time_denial(eta, grace_period, now);
            let end = eta + grace_period;
            let has_end = i64::MIN <= end <= i64::MAX;
            &&& denial is None <==> eta <= now && (eta == -1 || has_end && now <= end)
            &&& denial == Some(WalletError::Code(ErrorCode::TransactionNotReady)) <==> now < eta
            &&& denial == Some(WalletError::Code(ErrorCode::TransactionIsStale)) <==> eta != -1
                && eta <= now && has_end && now > end
            &&& denial == Some(WalletError::IntegerOverflow) <==> eta != -1 && eta <= now
                && !has_end
        }),
{
}

/// An execution is refused for the first of these reasons: another wallet, an earlier set of owners,
/// an earlier execution, the time, too few signatures, no owner. With none of them it is allowed.
pub proof fn law_execution_is_refused_for_its_first_reason(
    wallet_key: Pubkey,
    wallet: WalletState,
    tx: TransactionState,
    owner: Pubkey,
    now: i64,
)
    ensures
        ({
            let denial = execution_denial(wallet_key, wallet, tx, owner, now);
            let of_time = time_denial(tx.eta, wallet.grace_period, now);
            let of_wallet = tx.smart_wallet == wallet_key;
            let of_owners = of_wallet && tx.owner_set_seqno == wallet.owner_set_seqno;
            let unused = of_owners && tx.executed_at == -1;
            let in_time = unused && of_time is None;
            let signed = in_time && count_signers(tx.signers) >= wallet.threshold;
            &&& denial is None <==> signed && wallet.owners.contains(owner)
            &&& !of_wallet ==> denial == Some(WalletError::KeyMismatch)
            &&& of_wallet && !of_owners ==> denial == Some(
                WalletError::Code(ErrorCode::OwnerSetChanged),
            )
            &&& of_owners && !unused ==> denial == Some(
                WalletError::Code(ErrorCode::AlreadyExecuted),
            )
            &&& unused && !in_time ==> denial == of_time
            &&& in_time && !signed ==> denial == Some(
                WalletError::Code(ErrorCode::NotEnoughSigners),
            )
            &&& signed && !wallet.owners.contains(owner) ==> denial == Some(
                WalletError::Code(ErrorCode::InvalidOwner),
            )
        }),
{
}

/// A request to sign or to execute is decided by the contents of its own accounts: the wallet, its
/// address, the transaction and the owner who asks.
pub proof fn law_requests_are_decided_by_their_accounts(
    signing: Approve,
    executing: ExecuteTransaction,
    now: i64,
)
    ensures
        signing.denial() is None <==> {
            &&& signing.transaction.data.smart_wallet == signing.smart_wallet.key
            &&& signing.transaction.data.owner_set_seqno
                == signing.smart_wallet.data.owner_set_seqno
            &&& signing.smart_wallet.data.owners@.contains(signing.owner.key)
        },
        executing.denial(now) is None <==> {
            let wallet = executing.smart_wallet.data;
            let tx = executing.transaction.data;
            &&& tx.smart_wallet == executing.smart_wallet.key
            &&& tx.owner_set_seqno == wallet.owner_set_seqno
            &&& tx.executed_at == -1
            &&& tx.eta <= now
            &&& tx.eta == -1 || now <= tx.eta + wallet.grace_period <= i64::MAX
            &&& count_signers(tx.signers@) >= wallet.threshold
            &&& wallet.owners@.contains(executing.owner.key)
        },
{
}

/// Signing asks for a place only of a request that is granted, and then only that the owner's own
/// place is there.
pub proof fn law_only_the_owners_place_is_asked_for(accounts: Approve, slot: int)
    requires
        owner_slot(accounts.smart_wallet.data.owners@, accounts.owner.key) == Some(slot),
    ensures
        accounts.spec_has_slot() <==> (accounts.denial() is None ==> slot
            < accounts.transaction.data.signers@.len()),
{
}

} // verus!
