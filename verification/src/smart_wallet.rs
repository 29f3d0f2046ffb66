//! The requests that the program answers.

use vstd::prelude::*;

use crate::accounts::{
    answers, auth_denial, owner_denial, Approve, Auth, CreateSmartWallet, CreateSubaccountInfo,
    CreateTransaction, ExecuteTransaction, OwnerInvokeInstruction,
};
use crate::error::{ErrorCode, Invariant, WalletError};
use crate::events::{
    TransactionApproveEvent, TransactionCreateEvent, TransactionUnapproveEvent,
    WalletChangeThresholdEvent, WalletCreateEvent, WalletSetOwnersEvent,
};
use crate::execution::{Execution, Invocation, Progress};
use crate::pubkey::{lemma_pubkey_ext_equal, zero_key, Pubkey};
use crate::seeds::{
    derived_address, derived_bump, seed_bytes, signed_address, subaccount_address,
    subaccount_signer, subaccount_signer_seeds, wallet_signer, wallet_signer_seeds,
};
use crate::state::{
    instruction_states, owner_slot, InstructionState, SmartWallet, SubaccountInfo, SubaccountType,
    TXInstruction, Transaction, TransactionState, WalletState,
};
use crate::{DEFAULT_GRACE_PERIOD, MAX_DELAY_SECONDS, NOT_EXECUTED, NO_ETA};

verus! {

/// The first of the two reasons that there is.
pub open spec fn first_denial(
    first: Option<WalletError>,
    second: Option<WalletError>,
) -> Option<WalletError> {
    if first is Some {
        first
    } else {
        second
    }
}

/// Why a wallet with these parameters cannot be created.
pub open spec fn creation_denial(
    max_owners: u8,
    owners: Seq<Pubkey>,
    minimum_delay: i64,
) -> Option<WalletError> {
    if minimum_delay < 0 {
        Some(WalletError::InvariantFailed(Invariant::DelayMustBePositive))
    } else if minimum_delay > MAX_DELAY_SECONDS {
        Some(WalletError::Code(ErrorCode::DelayTooHigh))
    } else if owners.len() > max_owners {
        Some(WalletError::InvariantFailed(Invariant::MaxOwners))
    } else {
        None
    }
}

/// A wallet as it is created: its owners were never replaced, and it has no transactions.
pub open spec fn new_wallet(
    base: Pubkey,
    bump: u8,
    owners: Seq<Pubkey>,
    threshold: u64,
    minimum_delay: i64,
) -> WalletState {
    WalletState {
        base,
        bump,
        threshold,
        minimum_delay,
        grace_period: DEFAULT_GRACE_PERIOD,
        owner_set_seqno: 0,
        num_transactions: 0,
        owners,
    }
}

/// Initializes a new [`SmartWallet`] account with a set of owners and a threshold.
pub fn create_smart_wallet(
    accounts: &mut CreateSmartWallet,
    bump: u8,
    max_owners: u8,
    owners: Vec<Pubkey>,
    threshold: u64,
    minimum_delay: i64,
    now: i64,
) -> (outcome: Result<WalletCreateEvent, WalletError>)
    ensures
        match outcome {
            Ok(event) => {
                &&& creation_denial(max_owners, owners@, minimum_delay) is None
                &&& final(accounts).base == old(accounts).base
                &&& final(accounts).smart_wallet.key == old(accounts).smart_wallet.key
                &&& final(accounts).smart_wallet.data@ == new_wallet(
                    old(accounts).base.key,
                    bump,
                    owners@,
                    threshold,
                    minimum_delay,
                )
                &&& event.smart_wallet == old(accounts).smart_wallet.key
                &&& event.owners@ == owners@
                &&& event.threshold == threshold
                &&& event.minimum_delay == minimum_delay
                &&& event.timestamp == now
            },
            Err(error) => {
                &&& creation_denial(max_owners, owners@, minimum_delay) == Some(error)
                &&& *final(accounts) == *old(accounts)
            },
        },
{
    if minimum_delay < 0 {
        return Err(WalletError::InvariantFailed(Invariant::DelayMustBePositive));
    }
    if minimum_delay > MAX_DELAY_SECONDS {
        return Err(WalletError::Code(ErrorCode::DelayTooHigh));
    }
    if owners.len() > max_owners as usize {
        return Err(WalletError::InvariantFailed(Invariant::MaxOwners));
    }
    let listed = owners.clone();
    assert(listed@ =~= owners@);
    accounts.smart_wallet.data =
    SmartWallet {
        base: accounts.base.key,
        bump,
        threshold,
        minimum_delay,
        grace_period: DEFAULT_GRACE_PERIOD,
        owner_set_seqno: 0,
        num_transactions: 0,
        owners,
    };
    Ok(
        WalletCreateEvent {
            smart_wallet: accounts.smart_wallet.key,
            owners: listed,
            threshold,
            minimum_delay,
            timestamp: now,
        },
    )
}

/// Why the owners of the wallet cannot be replaced.
pub open spec fn set_owners_denial(is_signer: bool, wallet: WalletState) -> Option<WalletError> {
    first_denial(
        auth_denial(is_signer),
        if wallet.owner_set_seqno == u32::MAX {
            Some(WalletError::IntegerOverflow)
        } else {
            None
        },
    )
}

/// The wallet with its owners replaced. The threshold goes down where there are fewer owners.
pub open spec fn with_owners(wallet: WalletState, owners: Seq<Pubkey>) -> WalletState {
    WalletState {
        threshold: if owners.len() < wallet.threshold {
            owners.len() as u64
        } else {
            wallet.threshold
        },
        owner_set_seqno: (wallet.owner_set_seqno + 1) as u32,
        owners,
        ..wallet
    }
}

/// Sets the owners field on the smart wallet. The only way this can be invoked is via a recursive
/// call from `execute_transaction` to `set_owners`.
pub fn set_owners(accounts: &mut Auth, owners: Vec<Pubkey>, now: i64) -> (outcome: Result<
    WalletSetOwnersEvent,
    WalletError,
>)
    ensures
        match outcome {
            Ok(event) => {
                &&& set_owners_denial(
                    old(accounts).is_signer,
                    old(accounts).smart_wallet.data@,
                ) is None
                &&& final(accounts).is_signer == old(accounts).is_signer
                &&& final(accounts).smart_wallet.key == old(accounts).smart_wallet.key
                &&& final(accounts).smart_wallet.data@ == with_owners(
                    old(accounts).smart_wallet.data@,
                    owners@,
                )
                &&& event.smart_wallet == old(accounts).smart_wallet.key
                &&& event.owners@ == owners@
                &&& event.timestamp == now
            },
            Err(error) => {
                &&& set_owners_denial(
                    old(accounts).is_signer,
                    old(accounts).smart_wallet.data@,
                ) == Some(error)
                &&& *final(accounts) == *old(accounts)
            },
        },
{
    accounts.validate()?;
    let seqno: u32 = match accounts.smart_wallet.data.owner_set_seqno.checked_add(1) {
        Some(seqno) => seqno,
        None => return Err(WalletError::IntegerOverflow),
    };
    if (owners.len() as u64) < accounts.smart_wallet.data.threshold {
        accounts.smart_wallet.data.threshold = owners.len() as u64;
    }
    let listed = owners.clone();
    assert(listed@ =~= owners@);
    accounts.smart_wallet.data.owners = owners;
    accounts.smart_wallet.data.owner_set_seqno = seqno;
    Ok(
        WalletSetOwnersEvent {
            smart_wallet: accounts.smart_wallet.key,
            owners: listed,
            timestamp: now,
        },
    )
}

/// Why the threshold of the wallet cannot be changed.
pub open spec fn change_threshold_denial(
    is_signer: bool,
    wallet: WalletState,
    threshold: u64,
) -> Option<WalletError> {
    first_denial(
        auth_denial(is_signer),
        if threshold > wallet.owners.len() {
            Some(WalletError::Code(ErrorCode::InvalidThreshold))
        } else {
            None
        },
    )
}

/// Changes the execution threshold of the smart wallet. The only way this can be invoked is via a
/// recursive call from `execute_transaction` to `change_threshold`.
pub fn change_threshold(accounts: &mut Auth, threshold: u64, now: i64) -> (outcome: Result<
    WalletChangeThresholdEvent,
    WalletError,
>)
    ensures
        match outcome {
            Ok(event) => {
                &&& change_threshold_denial(
                    old(accounts).is_signer,
                    old(accounts).smart_wallet.data@,
                    threshold,
                ) is None
                &&& final(accounts).is_signer == old(accounts).is_signer
                &&& final(accounts).smart_wallet.key == old(accounts).smart_wallet.key
                &&& final(accounts).smart_wallet.data@ == (WalletState {
                    threshold,
                    ..old(accounts).smart_wallet.data@
                })
                &&& event.smart_wallet == old(accounts).smart_wallet.key
                &&& event.threshold == threshold
                &&& event.timestamp == now
            },
            Err(error) => {
                &&& change_threshold_denial(
                    old(accounts).is_signer,
                    old(accounts).smart_wallet.data@,
                    threshold,
                ) == Some(error)
                &&& *final(accounts) == *old(accounts)
            },
        },
{
    accounts.validate()?;
    if threshold > accounts.smart_wallet.data.owners.len() as u64 {
        return Err(WalletError::Code(ErrorCode::InvalidThreshold));
    }
    accounts.smart_wallet.data.threshold = threshold;
    Ok(
        WalletChangeThresholdEvent {
            smart_wallet: accounts.smart_wallet.key,
            threshold,
            timestamp: now,
        },
    )
}

/// Why a transaction created at `now` cannot have the given ETA. It has to keep the wallet's
/// minimum delay, if there is one; and where it is set, it has to be neither negative nor in the
/// past nor too far in the future.
pub open spec fn eta_denial(minimum_delay: i64, eta: i64, now: i64) -> Option<WalletError> {
    if minimum_delay != 0 && !(i64::MIN <= now + minimum_delay <= i64::MAX) {
        Some(WalletError::IntegerOverflow)
    } else if minimum_delay != 0 && eta < now + minimum_delay {
        Some(WalletError::Code(ErrorCode::InvalidETA))
    } else if eta == NO_ETA {
        None
    } else if eta < 0 {
        Some(WalletError::InvariantFailed(Invariant::EtaMustBePositive))
    } else if eta - now > i64::MAX {
        Some(WalletError::IntegerOverflow)
    } else if eta < now {
        Some(WalletError::InvariantFailed(Invariant::EtaMustBeInTheFuture))
    } else if eta - now > MAX_DELAY_SECONDS {
        Some(WalletError::Code(ErrorCode::DelayTooHigh))
    } else {
        None
    }
}

/// Checks the ETA of a transaction that is created at `now`.
fn check_eta(minimum_delay: i64, eta: i64, now: i64) -> (verdict: Result<(), WalletError>)
    ensures
        answers(verdict, eta_denial(minimum_delay, eta, now)),
{
    if minimum_delay != 0 {
        match now.checked_add(minimum_delay) {
            None => return Err(WalletError::IntegerOverflow),
            Some(earliest) => if eta < earliest {
                return Err(WalletError::Code(ErrorCode::InvalidETA));
            },
        }
    }
    if eta != NO_ETA {
        if eta < 0 {
            return Err(WalletError::InvariantFailed(Invariant::EtaMustBePositive));
        }
        let delay: i64 = match eta.checked_sub(now) {
            None => return Err(WalletError::IntegerOverflow),
            Some(delay) => delay,
        };
        if delay < 0 {
            return Err(WalletError::InvariantFailed(Invariant::EtaMustBeInTheFuture));
        }
        if delay > MAX_DELAY_SECONDS {
            return Err(WalletError::Code(ErrorCode::DelayTooHigh));
        }
    }
    Ok(())
}

/// Why `proposer` cannot create a transaction with the given ETA at `now`.
pub open spec fn create_transaction_denial(
    wallet: WalletState,
    proposer: Pubkey,
    eta: i64,
    now: i64,
) -> Option<WalletError> {
    first_denial(
        owner_denial(wallet.owners, proposer),
        first_denial(
            eta_denial(wallet.minimum_delay, eta, now),
            if wallet.num_transactions == u64::MAX {
                Some(WalletError::IntegerOverflow)
            } else {
                None
            },
        ),
    )
}

/// The wallet with one more transaction.
pub open spec fn with_transaction(wallet: WalletState) -> WalletState {
    WalletState { num_transactions: (wallet.num_transactions + 1) as u64, ..wallet }
}

/// A transaction as it is created: signed by its proposer alone, and not executed.
pub open spec fn new_transaction(
    wallet_key: Pubkey,
    wallet: WalletState,
    bump: u8,
    proposer: Pubkey,
    instructions: Seq<InstructionState>,
    eta: i64,
) -> TransactionState {
    TransactionState {
        smart_wallet: wallet_key,
        index: wallet.num_transactions,
        bump,
        proposer,
        instructions,
        signers: Seq::new(
            wallet.owners.len(),
            |i: int| owner_slot(wallet.owners, proposer) == Some(i),
        ),
        owner_set_seqno: wallet.owner_set_seqno,
        eta,
        executor: zero_key(),
        executed_at: NOT_EXECUTED,
    }
}

/// Creates a new [`Transaction`] account, automatically signed by the creator, which must be one of
/// the owners of the smart wallet.
pub fn create_transaction(
    accounts: &mut CreateTransaction,
    bump: u8,
    instructions: Vec<TXInstruction>,
    now: i64,
) -> (outcome: Result<TransactionCreateEvent, WalletError>)
    ensures
        transaction_created(
            *old(accounts),
            *final(accounts),
            bump,
            instruction_states(instructions@),
            NO_ETA,
            now,
            outcome,
        ),
{
    create_transaction_with_timelock(accounts, bump, instructions, NO_ETA, now)
}

/// What a request for a new transaction does and answers.
pub open spec fn transaction_created(
    before: CreateTransaction,
    after: CreateTransaction,
    bump: u8,
    instructions: Seq<InstructionState>,
    eta: i64,
    now: i64,
    outcome: Result<TransactionCreateEvent, WalletError>,
) -> bool {
    let wallet = before.smart_wallet.data@;
    let denial = create_transaction_denial(wallet, before.proposer.key, eta, now);
    match outcome {
        Ok(event) => {
            &&& denial is None
            &&& after.smart_wallet.key == before.smart_wallet.key
            &&& after.smart_wallet.data@ == with_transaction(wallet)
            &&& after.transaction.key == before.transaction.key
            &&& after.transaction.data@ == new_transaction(
                before.smart_wallet.key,
                wallet,
                bump,
                before.proposer.key,
                instructions,
                eta,
            )
            &&& after.proposer == before.proposer
            &&& event.smart_wallet == before.smart_wallet.key
            &&& event.transaction == before.transaction.key
            &&& event.proposer == before.proposer.key
            &&& instruction_states(event.instructions@) == instructions
            &&& event.eta == eta
            &&& event.timestamp == now
        },
        Err(error) => {
            &&& denial == Some(error)
            &&& after == before
        },
    }
}

/// Creates a new [`Transaction`] account with time delay. `eta` is the point in time from which the
/// transaction can be executed.
pub fn create_transaction_with_timelock(
    accounts: &mut CreateTransaction,
    bump: u8,
    instructions: Vec<TXInstruction>,
    eta: i64,
    now: i64,
) -> (outcome: Result<TransactionCreateEvent, WalletError>)
    ensures
        transaction_created(
            *old(accounts),
            *final(accounts),
            bump,
            instruction_states(instructions@),
            eta,
            now,
            outcome,
        ),
{
    let proposer = accounts.proposer.key;
    let owner_index = accounts.smart_wallet.data.owner_index(proposer)?;
    check_eta(accounts.smart_wallet.data.minimum_delay, eta, now)?;

    // Nobody but the proposer has signed yet.
    let mut signers: Vec<bool> = Vec::new();
    signers.resize(accounts.smart_wallet.data.owners.len(), false);
    signers[owner_index] = true;
    assert(signers@ =~= Seq::new(
        accounts.smart_wallet.data@.owners.len(),
        |i: int| owner_slot(accounts.smart_wallet.data@.owners, proposer) == Some(i),
    ));

    let index: u64 = accounts.smart_wallet.data.num_transactions;
    let num_transactions: u64 = match index.checked_add(1) {
        Some(num_transactions) => num_transactions,
        None => return Err(WalletError::IntegerOverflow),
    };
    accounts.smart_wallet.data.num_transactions = num_transactions;

    let listed = instructions.clone();
    assert(instruction_states(listed@) =~= instruction_states(instructions@));
    accounts.transaction.data =
    Transaction {
        smart_wallet: accounts.smart_wallet.key,
        index,
        bump,
        proposer,
        instructions,
        signers,
        owner_set_seqno: accounts.smart_wallet.data.owner_set_seqno,
        eta,
        executor: Pubkey::default(),
        executed_at: NOT_EXECUTED,
    };
    Ok(
        TransactionCreateEvent {
            smart_wallet: accounts.smart_wallet.key,
            transaction: accounts.transaction.key,
            proposer,
            instructions: listed,
            eta,
            timestamp: now,
        },
    )
}

/// The transaction with the owner's signature set or taken back.
pub open spec fn with_signature(
    wallet: WalletState,
    tx: TransactionState,
    owner: Pubkey,
    signed: bool,
) -> TransactionState {
    match owner_slot(wallet.owners, owner) {
        Some(slot) => TransactionState { signers: tx.signers.update(slot, signed), ..tx },
        None => tx,
    }
}

/// What a request to set or take back a signature does, where it is not refused.
pub open spec fn signature_recorded(before: Approve, after: Approve, signed: bool) -> bool {
    &&& before.denial() is None
    &&& after.smart_wallet == before.smart_wallet
    &&& after.owner == before.owner
    &&& after.transaction.key == before.transaction.key
    &&& after.transaction.data@ == with_signature(
        before.smart_wallet.data@,
        before.transaction.data@,
        before.owner.key,
        signed,
    )
}

/// Sets the owner's signature, or takes it back.
fn record_signature(accounts: &mut Approve, signed: bool) -> (verdict: Result<(), WalletError>)
    requires
        old(accounts).spec_has_slot(),
    ensures
        match verdict {
            Ok(()) => signature_recorded(*old(accounts), *final(accounts), signed),
            Err(error) => old(accounts).denial() == Some(error) && *final(accounts) == *old(
                accounts,
            ),
        },
{
    accounts.validate()?;
    let owner_index = accounts.smart_wallet.data.owner_index(accounts.owner.key)?;
    accounts.transaction.data.signers[owner_index] = signed;
    Ok(())
}

/// Approves a transaction on behalf of an owner of the smart wallet.
pub fn approve(accounts: &mut Approve, now: i64) -> (outcome: Result<
    TransactionApproveEvent,
    WalletError,
>)
    requires
        old(accounts).spec_has_slot(),
    ensures
        match outcome {
            Ok(event) => {
                &&& signature_recorded(*old(accounts), *final(accounts), true)
                &&& event.smart_wallet == old(accounts).smart_wallet.key
                &&& event.transaction == old(accounts).transaction.key
                &&& event.owner == old(accounts).owner.key
                &&& event.timestamp == now
            },
            Err(error) => old(accounts).denial() == Some(error) && *final(accounts) == *old(
                accounts,
            ),
        },
{
    record_signature(accounts, true)?;
    Ok(
        TransactionApproveEvent {
            smart_wallet: accounts.smart_wallet.key,
            transaction: accounts.transaction.key,
            owner: accounts.owner.key,
            timestamp: now,
        },
    )
}

/// Unapproves a transaction on behalf of an owner of the smart wallet.
pub fn unapprove(accounts: &mut Approve, now: i64) -> (outcome: Result<
    TransactionUnapproveEvent,
    WalletError,
>)
    requires
        old(accounts).spec_has_slot(),
    ensures
        match outcome {
            Ok(event) => {
                &&& signature_recorded(*old(accounts), *final(accounts), false)
                &&& event.smart_wallet == old(accounts).smart_wallet.key
                &&& event.transaction == old(accounts).transaction.key
                &&& event.owner == old(accounts).owner.key
                &&& event.timestamp == now
            },
            Err(error) => old(accounts).denial() == Some(error) && *final(accounts) == *old(
                accounts,
            ),
        },
{
    record_signature(accounts, false)?;
    Ok(
        TransactionUnapproveEvent {
            smart_wallet: accounts.smart_wallet.key,
            transaction: accounts.transaction.key,
            owner: accounts.owner.key,
            timestamp: now,
        },
    )
}

/// Executes the given transaction if threshold owners have signed it. The instructions are signed
/// by the wallet itself; [`do_execute_transaction`](crate::execution::do_execute_transaction) takes
/// the execution from here.
pub fn execute_transaction(accounts: &ExecuteTransaction, now: i64) -> (outcome: Result<
    Execution,
    WalletError,
>)
    ensures
        match outcome {
            Ok(execution) => {
                &&& accounts.denial(now) is None
                &&& seed_bytes(execution.signer_seeds@) == wallet_signer_seeds(
                    accounts.smart_wallet.data@,
                )
                &&& execution.progress == Progress::Started
            },
            Err(error) => accounts.denial(now) == Some(error),
        },
{
    accounts.validate(now)?;
    let signer_seeds = wallet_signer(&accounts.smart_wallet.data);
    Ok(Execution { signer_seeds, progress: Progress::Started })
}

/// Executes the given transaction signed by the given derived address, if threshold owners have
/// signed it. This allows a smart wallet to send SOL.
pub fn execute_transaction_derived(
    accounts: &ExecuteTransaction,
    index: u64,
    bump: u8,
    now: i64,
) -> (outcome: Result<Execution, WalletError>)
    ensures
        match outcome {
            Ok(execution) => {
                &&& accounts.denial(now) is None
                &&& seed_bytes(execution.signer_seeds@) == subaccount_signer_seeds(
                    SubaccountType::Derived,
                    accounts.smart_wallet.key,
                    index,
                    bump,
                )
                &&& execution.progress == Progress::Started
            },
            Err(error) => accounts.denial(now) == Some(error),
        },
{
    accounts.validate(now)?;
    let signer_seeds = subaccount_signer(
        SubaccountType::Derived,
        &accounts.smart_wallet.key,
        index,
        bump,
    );
    Ok(Execution { signer_seeds, progress: Progress::Started })
}

/// Invokes an arbitrary instruction as an address derived from the wallet, i.e. as an "Owner
/// Invoker".
///
/// This is useful for using the multisig as a whitelist or as a council, e.g. a whitelist of
/// approved owners.
pub fn owner_invoke_instruction(
    accounts: &OwnerInvokeInstruction,
    index: u64,
    bump: u8,
    ix: TXInstruction,
) -> (outcome: Result<Invocation, WalletError>)
    ensures
        match outcome {
            Ok(invocation) => {
                &&& owner_denial(accounts.smart_wallet.data@.owners, accounts.owner.key) is None
                &&& invocation.is_of(
                    ix@,
                    subaccount_signer_seeds(
                        SubaccountType::OwnerInvoker,
                        accounts.smart_wallet.key,
                        index,
                        bump,
                    ),
                )
            },
            Err(error) => owner_denial(
                accounts.smart_wallet.data@.owners,
                accounts.owner.key,
            ) == Some(error),
        },
{
    accounts.validate()?;
    let signer_seeds = subaccount_signer(
        SubaccountType::OwnerInvoker,
        &accounts.smart_wallet.key,
        index,
        bump,
    );
    Ok(Invocation { instruction: ix, signer_seeds })
}

/// What a request to record a subaccount does and answers where `address` is the subaccount's
/// derived address.
pub open spec fn subaccount_recorded(
    before: CreateSubaccountInfo,
    after: CreateSubaccountInfo,
    address: Seq<u8>,
    subaccount: Pubkey,
    info: SubaccountInfo,
    verdict: Result<(), WalletError>,
) -> bool {
    match verdict {
        Ok(()) => {
            &&& subaccount@ == address
            &&& after.subaccount_info.key == before.subaccount_info.key
            &&& after.subaccount_info.data == info
        },
        Err(error) => {
            &&& subaccount@ != address
            &&& error == WalletError::Code(ErrorCode::SubaccountOwnerMismatch)
            &&& after == before
        },
    }
}

/// Records a subaccount whose derived address is `address`, if that is the address that was passed.
pub fn record_subaccount(
    accounts: &mut CreateSubaccountInfo,
    address: Pubkey,
    subaccount: Pubkey,
    smart_wallet: Pubkey,
    index: u64,
    subaccount_type: SubaccountType,
) -> (verdict: Result<(), WalletError>)
    ensures
        subaccount_recorded(
            *old(accounts),
            *final(accounts),
            address@,
            subaccount,
            SubaccountInfo { smart_wallet, subaccount_type, index },
            verdict,
        ),
{
    if address != subaccount {
        proof {
            if address@ == subaccount@ {
                lemma_pubkey_ext_equal(address, subaccount);
            }
        }
        return Err(WalletError::Code(ErrorCode::SubaccountOwnerMismatch));
    }
    accounts.subaccount_info.data.smart_wallet = smart_wallet;
    accounts.subaccount_info.data.subaccount_type = subaccount_type;
    accounts.subaccount_info.data.index = index;
    Ok(())
}

/// Records information about a subaccount, specifically what wallet it belongs to, its type
/// (derived or owner invoker) and its index. What is recorded is the address for which the wallet
/// signs with the subaccount's seeds and bump seed.
pub fn create_subaccount_info(
    accounts: &mut CreateSubaccountInfo,
    _bump: u8,
    subaccount: Pubkey,
    smart_wallet: Pubkey,
    index: u64,
    subaccount_type: SubaccountType,
) -> (verdict: Result<(), WalletError>)
    requires
        derived_address(subaccount_type, smart_wallet, index) is Some,
    ensures
        subaccount_recorded(
            *old(accounts),
            *final(accounts),
            derived_address(subaccount_type, smart_wallet, index)->0,
            subaccount,
            SubaccountInfo { smart_wallet, subaccount_type, index },
            verdict,
        ),
        verdict is Ok ==> signed_address(
            subaccount_signer_seeds(
                subaccount_type,
                smart_wallet,
                index,
                derived_bump(subaccount_type, smart_wallet, index)->0,
            ),
        ) == Some(subaccount@),
{
    let found = subaccount_address(subaccount_type, &smart_wallet, index);
    let (address, _derived_bump) = found.unwrap();
    record_subaccount(accounts, address, subaccount, smart_wallet, index, subaccount_type)
}

/// Records information about a subaccount as [`create_subaccount_info`] does. `None`, with nothing
/// recorded, in the statistically improbable event that no bump seed gives the subaccount an
/// address.
pub fn try_create_subaccount_info(
    accounts: &mut CreateSubaccountInfo,
    bump: u8,
    subaccount: Pubkey,
    smart_wallet: Pubkey,
    index: u64,
    subaccount_type: SubaccountType,
) -> (outcome: Option<Result<(), WalletError>>)
    ensures
        match outcome {
            Some(verdict) => {
                &&& derived_address(subaccount_type, smart_wallet, index) is Some
                &&& subaccount_recorded(
                    *old(accounts),
                    *final(accounts),
                    derived_address(subaccount_type, smart_wallet, index)->0,
                    subaccount,
                    SubaccountInfo { smart_wallet, subaccount_type, index },
                    verdict,
                )
                &&& verdict is Ok ==> signed_address(
                    subaccount_signer_seeds(
                        subaccount_type,
                        smart_wallet,
                        index,
                        derived_bump(subaccount_type, smart_wallet, index)->0,
                    ),
                ) == Some(subaccount@)
            },
            None => {
                &&& derived_address(subaccount_type, smart_wallet, index) is None
                &&& *final(accounts) == *old(accounts)
            },
        },
{
    if subaccount_address(subaccount_type, &smart_wallet, index).is_none() {
        return None;
    }
    Some(
        create_subaccount_info(accounts, bump, subaccount, smart_wallet, index, subaccount_type),
    )
}

} // verus!
