//! Calls: what each request answers and leaves in its accounts, for every call of its function. The
//! statements speak of the accounts before and after the call and of what was passed, and of nothing
//! in between.

use vstd::bytes::spec_u64_to_le_bytes;
use vstd::prelude::*;

use crate::accounts::{
    Approve, Auth, CreateSmartWallet, CreateSubaccountInfo, CreateTransaction, ExecuteTransaction,
    OwnerInvokeInstruction,
};
use crate::error::{ErrorCode, Invariant, WalletError};
use crate::events::{
    TransactionApproveEvent, TransactionCreateEvent, TransactionUnapproveEvent,
    WalletChangeThresholdEvent, WalletCreateEvent, WalletSetOwnersEvent,
};
use crate::execution::{
    do_execute_transaction, Execution, ExecutionAction, ExecutionEvent, Invocation, Progress,
};
use crate::laws::decisions::law_eta_is_accepted_on_the_whole_interval;
use crate::laws::records::{
    law_created_transaction_is_stored, law_listed_instructions_are_the_same,
    law_new_transaction_holds_what_was_passed, law_owner_signs_at_the_first_place,
    law_seeds_are_taken_one_by_one, law_signature_is_stored, same_instructions,
};
use crate::pubkey::{program_id, Pubkey};
use crate::seeds::{
    ascii, derived_address, find_program_address, program_address, seed_bytes, signed_address,
    signer_address, subaccount_address, subaccount_signer, subaccount_signer_seeds, wallet_signer,
    wallet_signer_seeds,
};
use crate::smart_wallet::{
    approve, change_threshold, create_smart_wallet, create_subaccount_info, create_transaction,
    create_transaction_with_timelock, eta_denial, execute_transaction, execute_transaction_derived,
    owner_invoke_instruction, record_subaccount, set_owners, signature_recorded,
    transaction_created, try_create_subaccount_info, unapprove,
};
use crate::state::{
    count_signers, instruction_states, owner_slot, SmartWallet, SubaccountType, TXInstruction,
    Transaction,
};
use crate::MAX_DELAY_SECONDS;

verus! {

/// Every call of `create_smart_wallet`: a wallet is made for up to `max_owners` owners and a delay
/// from 0 to the maximum, and holds what was passed; otherwise nothing changes.
pub proof fn law_create_smart_wallet()
    ensures
        forall|
            accounts: &mut CreateSmartWallet,
            bump: u8,
            max_owners: u8,
            owners: Vec<Pubkey>,
            threshold: u64,
            minimum_delay: i64,
            now: i64,
            outcome: Result<WalletCreateEvent, WalletError>,
        |
            #[trigger] call_ensures(
                create_smart_wallet,
                (accounts, bump, max_owners, owners, threshold, minimum_delay, now),
                outcome,
            ) ==> {
                &&& outcome is Ok <==> 0 <= minimum_delay <= MAX_DELAY_SECONDS && owners@.len()
                    <= max_owners
                &&& outcome matches Err(error) ==> {
                    &&& *final(accounts) == *accounts
                    &&& minimum_delay < 0 ==> error == WalletError::InvariantFailed(
                        Invariant::DelayMustBePositive,
                    )
                    &&& minimum_delay > MAX_DELAY_SECONDS ==> error == WalletError::Code(
                        ErrorCode::DelayTooHigh,
                    )
                    &&& 0 <= minimum_delay <= MAX_DELAY_SECONDS ==> error
                        == WalletError::InvariantFailed(Invariant::MaxOwners)
                }
                &&& outcome matches Ok(event) ==> {
                    let wallet = final(accounts).smart_wallet.data;
                    &&& wallet.base == accounts.base.key
                    &&& wallet.bump == bump
                    &&& wallet.owners@ == owners@
                    &&& wallet.threshold == threshold
                    &&& wallet.minimum_delay == minimum_delay
                    &&& wallet.grace_period == 14 * 24 * 60 * 60
                    &&& wallet.owner_set_seqno == 0
                    &&& wallet.num_transactions == 0
                    &&& final(accounts).smart_wallet.key == accounts.smart_wallet.key
                    &&& final(accounts).base == accounts.base
                    &&& event.smart_wallet == accounts.smart_wallet.key
                    &&& event.owners@ == owners@
                    &&& event.threshold == threshold
                    &&& event.minimum_delay == minimum_delay
                    &&& event.timestamp == now
                }
            },
{
}

/// Whether nothing of a wallet but its owners, its threshold and the number of its owner set differs.
pub open spec fn same_but_owners(one: SmartWallet, two: SmartWallet) -> bool {
    &&& one.base == two.base
    &&& one.bump == two.bump
    &&& one.minimum_delay == two.minimum_delay
    &&& one.grace_period == two.grace_period
    &&& one.num_transactions == two.num_transactions
}

/// Every call of `set_owners`: the wallet's owners become exactly the list passed, whatever its
/// length, and its threshold the smaller of the one before and their number, if the wallet has signed.
pub proof fn law_set_owners()
    ensures
        forall|
            accounts: &mut Auth,
            owners: Vec<Pubkey>,
            now: i64,
            outcome: Result<WalletSetOwnersEvent, WalletError>,
        |
            #[trigger] call_ensures(set_owners, (accounts, owners, now), outcome) ==> {
                let before = accounts.smart_wallet.data;
                let after = final(accounts).smart_wallet.data;
                &&& outcome is Ok <==> accounts.is_signer && before.owner_set_seqno < u32::MAX
                &&& outcome matches Err(error) ==> {
                    &&& *final(accounts) == *accounts
                    &&& !accounts.is_signer ==> error == WalletError::MissingSignature
                    &&& accounts.is_signer ==> error == WalletError::IntegerOverflow
                }
                &&& outcome matches Ok(event) ==> {
                    &&& after.owners@ == owners@
                    &&& after.threshold == if before.threshold <= owners@.len() {
                        before.threshold as int
                    } else {
                        owners@.len() as int
                    }
                    &&& after.owner_set_seqno == before.owner_set_seqno + 1
                    &&& same_but_owners(before, after)
                    &&& final(accounts).smart_wallet.key == accounts.smart_wallet.key
                    &&& final(accounts).is_signer == accounts.is_signer
                    &&& event.smart_wallet == accounts.smart_wallet.key
                    &&& event.owners@ == owners@
                    &&& event.timestamp == now
                }
            },
{
}

/// Every call of `change_threshold`: the threshold becomes the number passed, up to the number of
/// owners, if the wallet has signed; nothing else changes.
pub proof fn law_change_threshold()
    ensures
        forall|
            accounts: &mut Auth,
            threshold: u64,
            now: i64,
            outcome: Result<WalletChangeThresholdEvent, WalletError>,
        |
            #[trigger] call_ensures(change_threshold, (accounts, threshold, now), outcome) ==> {
                let before = accounts.smart_wallet.data;
                let after = final(accounts).smart_wallet.data;
                &&& outcome is Ok <==> accounts.is_signer && threshold <= before.owners@.len()
                &&& outcome matches Err(error) ==> {
                    &&& *final(accounts) == *accounts
                    &&& !accounts.is_signer ==> error == WalletError::MissingSignature
                    &&& accounts.is_signer ==> error == WalletError::Code(
                        ErrorCode::InvalidThreshold,
                    )
                }
                &&& outcome matches Ok(event) ==> {
                    &&& after.threshold == threshold
                    &&& after.owners@ == before.owners@
                    &&& after.owner_set_seqno == before.owner_set_seqno
                    &&& same_but_owners(before, after)
                    &&& final(accounts).smart_wallet.key == accounts.smart_wallet.key
                    &&& final(accounts).is_signer == accounts.is_signer
                    &&& event.smart_wallet == accounts.smart_wallet.key
                    &&& event.threshold == threshold
                    &&& event.timestamp == now
                }
            },
{
}

/// Whether the transaction's signatures are one for each owner, set at the first place of `key` alone.
pub open spec fn signed_by_one(signers: Seq<bool>, owners: Seq<Pubkey>, key: Pubkey) -> bool {
    &&& signers.len() == owners.len()
    &&& forall|i: int|
        0 <= i < signers.len() ==> (#[trigger] signers[i] <==> owners[i] == key && forall|j: int|
            0 <= j < i ==> owners[j] != key)
}

/// Whether a wallet with the given minimum delay takes the ETA at `now`.
pub open spec fn eta_taken(minimum_delay: i64, eta: i64, now: i64) -> bool {
    &&& minimum_delay == 0 || now + minimum_delay <= eta && i64::MIN <= now + minimum_delay
    &&& eta == -1 || 0 <= eta && now <= eta <= now + MAX_DELAY_SECONDS
}

/// What a proposal answers and leaves in its accounts.
pub open spec fn proposed(
    before: CreateTransaction,
    after: CreateTransaction,
    bump: u8,
    instructions: Seq<TXInstruction>,
    eta: i64,
    now: i64,
    outcome: Result<TransactionCreateEvent, WalletError>,
) -> bool {
    let wallet = before.smart_wallet.data;
    let left = after.smart_wallet.data;
    let tx = after.transaction.data;
    let is_owner = wallet.owners@.contains(before.proposer.key);
    &&& outcome is Ok <==> is_owner && eta_taken(wallet.minimum_delay, eta, now)
        && wallet.num_transactions < u64::MAX
    &&& outcome matches Err(error) ==> {
        &&& after == before
        &&& !is_owner ==> error == WalletError::Code(ErrorCode::InvalidOwner)
        &&& is_owner && !eta_taken(wallet.minimum_delay, eta, now) ==> Some(error) == eta_denial(
            wallet.minimum_delay,
            eta,
            now,
        )
        &&& is_owner && eta_taken(wallet.minimum_delay, eta, now) ==> error
            == WalletError::IntegerOverflow
    }
    &&& outcome matches Ok(event) ==> {
        &&& tx.smart_wallet == before.smart_wallet.key
        &&& tx.index == wallet.num_transactions
        &&& tx.bump == bump
        &&& tx.proposer == before.proposer.key
        &&& same_instructions(tx.instructions@, instructions)
        &&& signed_by_one(tx.signers@, wallet.owners@, before.proposer.key)
        &&& tx.owner_set_seqno == wallet.owner_set_seqno
        &&& tx.eta == eta
        &&& forall|i: int| 0 <= i < 32 ==> #[trigger] tx.executor@[i] == 0
        &&& tx.executed_at == -1
        &&& left.num_transactions == wallet.num_transactions + 1
        &&& left.owners@ == wallet.owners@
        &&& left.threshold == wallet.threshold
        &&& left.owner_set_seqno == wallet.owner_set_seqno
        &&& left.base == wallet.base
        &&& left.bump == wallet.bump
        &&& left.minimum_delay == wallet.minimum_delay
        &&& left.grace_period == wallet.grace_period
        &&& after.smart_wallet.key == before.smart_wallet.key
        &&& after.transaction.key == before.transaction.key
        &&& after.proposer == before.proposer
        &&& event.smart_wallet == before.smart_wallet.key
        &&& event.transaction == before.transaction.key
        &&& event.proposer == before.proposer.key
        &&& same_instructions(event.instructions@, instructions)
        &&& event.eta == eta
        &&& event.timestamp == now
    }
}

/// Every call of `create_transaction_with_timelock`: an owner's proposal with an ETA on the whole
/// interval that the wallet takes is stored as it was passed, signed by the proposer alone.
pub proof fn law_create_transaction_with_timelock()
    ensures
        forall|
            accounts: &mut CreateTransaction,
            bump: u8,
            instructions: Vec<TXInstruction>,
            eta: i64,
            now: i64,
            outcome: Result<TransactionCreateEvent, WalletError>,
        |
            #[trigger] call_ensures(
                create_transaction_with_timelock,
                (accounts, bump, instructions, eta, now),
                outcome,
            ) ==> proposed(
                *accounts,
                *final(accounts),
                bump,
                instructions@,
                eta,
                now,
                outcome,
            ),
{
    assert forall|
        accounts: &mut CreateTransaction,
        bump: u8,
        instructions: Vec<TXInstruction>,
        eta: i64,
        now: i64,
        outcome: Result<TransactionCreateEvent, WalletError>,
    |
        #[trigger] call_ensures(
            create_transaction_with_timelock,
            (accounts, bump, instructions, eta, now),
            outcome,
        ) implies proposed(
        *accounts,
        *final(accounts),
        bump,
        instructions@,
        eta,
        now,
        outcome,
    ) by {
        lemma_proposed(*accounts, *final(accounts), bump, instructions@, eta, now, outcome);
    }
}

/// Every call of `create_transaction`: the same without an ETA.
pub proof fn law_create_transaction()
    ensures
        forall|
            accounts: &mut CreateTransaction,
            bump: u8,
            instructions: Vec<TXInstruction>,
            now: i64,
            outcome: Result<TransactionCreateEvent, WalletError>,
        |
            #[trigger] call_ensures(
                create_transaction,
                (accounts, bump, instructions, now),
                outcome,
            ) ==> proposed(*accounts, *final(accounts), bump, instructions@, -1i64, now, outcome),
{
    assert forall|
        accounts: &mut CreateTransaction,
        bump: u8,
        instructions: Vec<TXInstruction>,
        now: i64,
        outcome: Result<TransactionCreateEvent, WalletError>,
    |
        #[trigger] call_ensures(
            create_transaction,
            (accounts, bump, instructions, now),
            outcome,
        ) implies proposed(
        *accounts,
        *final(accounts),
        bump,
        instructions@,
        -1i64,
        now,
        outcome,
    ) by {
        lemma_proposed(*accounts, *final(accounts), bump, instructions@, -1i64, now, outcome);
    }
}

proof fn lemma_proposed(
    before: CreateTransaction,
    after: CreateTransaction,
    bump: u8,
    instructions: Seq<TXInstruction>,
    eta: i64,
    now: i64,
    outcome: Result<TransactionCreateEvent, WalletError>,
)
    requires
        transaction_created(
            before,
            after,
            bump,
            instruction_states(instructions),
            eta,
            now,
            outcome,
        ),
    ensures
        proposed(before, after, bump, instructions, eta, now, outcome),
{
    let wallet = before.smart_wallet.data@;
    law_created_transaction_is_stored(before, after, bump, instructions, eta, now, outcome);
    law_eta_is_accepted_on_the_whole_interval(wallet.minimum_delay, eta, now);
    law_new_transaction_holds_what_was_passed(
        before.smart_wallet.key,
        wallet,
        bump,
        before.proposer.key,
        instruction_states(instructions),
        eta,
    );
}

/// What a request to set or take back a signature leaves in its accounts where it is granted.
pub open spec fn signed(before: Approve, after: Approve, value: bool) -> bool {
    let tx = before.transaction.data;
    let left = after.transaction.data;
    let owners = before.smart_wallet.data.owners@;
    &&& left.signers@.len() == tx.signers@.len()
    &&& forall|i: int|
        0 <= i < tx.signers@.len() && i < owners.len() ==> #[trigger] left.signers@[i]
            == if owners[i] == before.owner.key && forall|j: int|
            0 <= j < i ==> owners[j] != before.owner.key {
            value
        } else {
            tx.signers@[i]
        }
    &&& same_instructions(left.instructions@, tx.instructions@)
    &&& left.smart_wallet == tx.smart_wallet
    &&& left.index == tx.index
    &&& left.bump == tx.bump
    &&& left.proposer == tx.proposer
    &&& left.owner_set_seqno == tx.owner_set_seqno
    &&& left.eta == tx.eta
    &&& left.executor == tx.executor
    &&& left.executed_at == tx.executed_at
    &&& after.transaction.key == before.transaction.key
    &&& after.smart_wallet == before.smart_wallet
    &&& after.owner == before.owner
}

/// Whether the transaction has a place for the signature of who asks, the first one of the owner's key.
pub open spec fn has_place(accounts: Approve) -> bool {
    let owners = accounts.smart_wallet.data.owners@;
    let key = accounts.owner.key;
    forall|i: int|
        0 <= i < owners.len() && #[trigger] owners[i] == key && (forall|j: int|
            0 <= j < i ==> owners[j] != key) ==> i < accounts.transaction.data.signers@.len()
}

/// Whether an owner asks to sign a transaction of the wallet and its present owners.
pub open spec fn may_sign(accounts: Approve) -> bool {
    &&& accounts.transaction.data.smart_wallet == accounts.smart_wallet.key
    &&& accounts.transaction.data.owner_set_seqno == accounts.smart_wallet.data.owner_set_seqno
    &&& accounts.smart_wallet.data.owners@.contains(accounts.owner.key)
}

/// The error with which a request to sign is refused.
pub open spec fn signing_error(accounts: Approve) -> WalletError {
    if accounts.transaction.data.smart_wallet != accounts.smart_wallet.key {
        WalletError::KeyMismatch
    } else if accounts.transaction.data.owner_set_seqno
        != accounts.smart_wallet.data.owner_set_seqno {
        WalletError::Code(ErrorCode::OwnerSetChanged)
    } else {
        WalletError::Code(ErrorCode::InvalidOwner)
    }
}

/// Every call of `approve`: granted to every owner on every transaction of the present owners, it sets
/// the owner's signature and nothing else.
pub proof fn law_approve()
    ensures
        forall|
            accounts: &mut Approve,
            now: i64,
            outcome: Result<TransactionApproveEvent, WalletError>,
        |
            #[trigger] call_ensures(approve, (accounts, now), outcome) ==> {
                &&& outcome is Ok <==> may_sign(*accounts)
                &&& outcome matches Err(error) ==> {
                    &&& error == signing_error(*accounts)
                    &&& *final(accounts) == *accounts
                }
                &&& outcome matches Ok(event) ==> {
                    &&& has_place(*accounts) ==> signed(*accounts, *final(accounts), true)
                    &&& event.smart_wallet == accounts.smart_wallet.key
                    &&& event.transaction == accounts.transaction.key
                    &&& event.owner == accounts.owner.key
                    &&& event.timestamp == now
                }
            },
{
    assert forall|
        accounts: &mut Approve,
        now: i64,
        outcome: Result<TransactionApproveEvent, WalletError>,
    |
        #[trigger] call_ensures(approve, (accounts, now), outcome) && outcome is Ok && has_place(
            *accounts,
        ) implies signed(*accounts, *final(accounts), true) by {
        lemma_signed(*accounts, *final(accounts), true);
    }
}

/// Every call of `unapprove`: granted as `approve` is, it takes the owner's signature back and changes
/// nothing else.
pub proof fn law_unapprove()
    ensures
        forall|
            accounts: &mut Approve,
            now: i64,
            outcome: Result<TransactionUnapproveEvent, WalletError>,
        |
            #[trigger] call_ensures(unapprove, (accounts, now), outcome) ==> {
                &&& outcome is Ok <==> may_sign(*accounts)
                &&& outcome matches Err(error) ==> {
                    &&& error == signing_error(*accounts)
                    &&& *final(accounts) == *accounts
                }
                &&& outcome matches Ok(event) ==> {
                    &&& has_place(*accounts) ==> signed(*accounts, *final(accounts), false)
                    &&& event.smart_wallet == accounts.smart_wallet.key
                    &&& event.transaction == accounts.transaction.key
                    &&& event.owner == accounts.owner.key
                    &&& event.timestamp == now
                }
            },
{
    assert forall|
        accounts: &mut Approve,
        now: i64,
        outcome: Result<TransactionUnapproveEvent, WalletError>,
    |
        #[trigger] call_ensures(unapprove, (accounts, now), outcome) && outcome is Ok && has_place(
            *accounts,
        ) implies signed(*accounts, *final(accounts), false) by {
        lemma_signed(*accounts, *final(accounts), false);
    }
}

proof fn lemma_signed(before: Approve, after: Approve, value: bool)
    requires
        signature_recorded(before, after, value),
        has_place(before),
    ensures
        signed(before, after, value),
{
    let owners = before.smart_wallet.data.owners@;
    let key = before.owner.key;
    let slot = owner_slot(owners, key)->0;
    law_owner_signs_at_the_first_place(owners, key, slot);
    law_signature_is_stored(before, after, value, slot);
}

/// Whether an owner may execute the transaction at `now`: it is the wallet's and its present owners',
/// was not executed, is past its ETA and within the grace period, and has enough signatures.
pub open spec fn may_execute(accounts: ExecuteTransaction, now: i64) -> bool {
    let wallet = accounts.smart_wallet.data;
    let tx = accounts.transaction.data;
    &&& tx.smart_wallet == accounts.smart_wallet.key
    &&& tx.owner_set_seqno == wallet.owner_set_seqno
    &&& tx.executed_at == -1
    &&& tx.eta <= now
    &&& tx.eta == -1 || now <= tx.eta + wallet.grace_period <= i64::MAX
    &&& count_signers(tx.signers@) >= wallet.threshold
    &&& wallet.owners@.contains(accounts.owner.key)
}

/// The error with which a request to execute is refused: the first condition that does not hold.
pub open spec fn executing_error(accounts: ExecuteTransaction, now: i64) -> WalletError {
    let wallet = accounts.smart_wallet.data;
    let tx = accounts.transaction.data;
    if tx.smart_wallet != accounts.smart_wallet.key {
        WalletError::KeyMismatch
    } else if tx.owner_set_seqno != wallet.owner_set_seqno {
        WalletError::Code(ErrorCode::OwnerSetChanged)
    } else if tx.executed_at != -1 {
        WalletError::Code(ErrorCode::AlreadyExecuted)
    } else if now < tx.eta {
        WalletError::Code(ErrorCode::TransactionNotReady)
    } else if tx.eta != -1 && !(i64::MIN <= tx.eta + wallet.grace_period <= i64::MAX) {
        WalletError::IntegerOverflow
    } else if tx.eta != -1 && now > tx.eta + wallet.grace_period {
        WalletError::Code(ErrorCode::TransactionIsStale)
    } else if count_signers(tx.signers@) < wallet.threshold {
        WalletError::Code(ErrorCode::NotEnoughSigners)
    } else {
        WalletError::Code(ErrorCode::InvalidOwner)
    }
}

/// Whether `seeds` are a text, an address and a bump seed.
pub open spec fn are_wallet_seeds(seeds: Seq<Vec<u8>>, wallet: SmartWallet) -> bool {
    &&& seeds.len() == 3
    &&& seeds[0]@ == ascii("GokiSmartWallet"@)
    &&& seeds[1]@ == wallet.base.bytes@
    &&& seeds[2]@ == seq![wallet.bump]
}

/// Whether `seeds` are a text, the address of a wallet, an index in little-endian order and a bump
/// seed.
pub open spec fn are_subaccount_seeds(
    seeds: Seq<Vec<u8>>,
    text: Seq<char>,
    smart_wallet: Pubkey,
    index: u64,
    bump: u8,
) -> bool {
    &&& seeds.len() == 4
    &&& seeds[0]@ == ascii(text)
    &&& seeds[1]@ == smart_wallet.bytes@
    &&& seeds[2]@ == spec_u64_to_le_bytes(index)
    &&& seeds[3]@ == seq![bump]
}

/// Every call of `execute_transaction`: allowed exactly where an owner may execute, it signs with the
/// seeds of the wallet's own address.
pub proof fn law_execute_transaction()
    ensures
        forall|
            accounts: &ExecuteTransaction,
            now: i64,
            outcome: Result<Execution, WalletError>,
        |
            #[trigger] call_ensures(execute_transaction, (accounts, now), outcome) ==> {
                &&& outcome is Ok <==> may_execute(*accounts, now)
                &&& outcome matches Err(error) ==> error == executing_error(*accounts, now)
                &&& outcome matches Ok(execution) ==> are_wallet_seeds(
                    execution.signer_seeds@,
                    accounts.smart_wallet.data,
                ) && execution.progress is Started
            },
{
    assert forall|
        accounts: &ExecuteTransaction,
        now: i64,
        outcome: Result<Execution, WalletError>,
    |
        #[trigger] call_ensures(
            execute_transaction,
            (accounts, now),
            outcome,
        ) && outcome is Ok implies are_wallet_seeds(
        outcome->Ok_0.signer_seeds@,
        accounts.smart_wallet.data,
    ) by {
        law_seeds_are_taken_one_by_one(
            outcome->Ok_0.signer_seeds@,
            wallet_signer_seeds(accounts.smart_wallet.data@),
        );
    }
}

/// Every call of `execute_transaction_derived`: allowed exactly where an owner may execute, it signs
/// with the seeds of the derived address with the index and bump seed that were passed.
pub proof fn law_execute_transaction_derived()
    ensures
        forall|
            accounts: &ExecuteTransaction,
            index: u64,
            bump: u8,
            now: i64,
            outcome: Result<Execution, WalletError>,
        |
            #[trigger] call_ensures(
                execute_transaction_derived,
                (accounts, index, bump, now),
                outcome,
            ) ==> {
                &&& outcome is Ok <==> may_execute(*accounts, now)
                &&& outcome matches Err(error) ==> error == executing_error(*accounts, now)
                &&& outcome matches Ok(execution) ==> are_subaccount_seeds(
                    execution.signer_seeds@,
                    "GokiSmartWalletDerived"@,
                    accounts.smart_wallet.key,
                    index,
                    bump,
                ) && execution.progress is Started
            },
{
    assert forall|
        accounts: &ExecuteTransaction,
        index: u64,
        bump: u8,
        now: i64,
        outcome: Result<Execution, WalletError>,
    |
        #[trigger] call_ensures(
            execute_transaction_derived,
            (accounts, index, bump, now),
            outcome,
        ) && outcome is Ok implies are_subaccount_seeds(
        outcome->Ok_0.signer_seeds@,
        "GokiSmartWalletDerived"@,
        accounts.smart_wallet.key,
        index,
        bump,
    ) by {
        law_seeds_are_taken_one_by_one(
            outcome->Ok_0.signer_seeds@,
            subaccount_signer_seeds(
                SubaccountType::Derived,
                accounts.smart_wallet.key,
                index,
                bump,
            ),
        );
    }
}

/// Every call of `owner_invoke_instruction`: every owner, and nobody else, may invoke any instruction,
/// which is invoked whole, signed with the seeds of the owner invoker.
pub proof fn law_owner_invoke_instruction()
    ensures
        forall|
            accounts: &OwnerInvokeInstruction,
            index: u64,
            bump: u8,
            ix: TXInstruction,
            outcome: Result<Invocation, WalletError>,
        |
            #[trigger] call_ensures(
                owner_invoke_instruction,
                (accounts, index, bump, ix),
                outcome,
            ) ==> {
                &&& outcome is Ok <==> accounts.smart_wallet.data.owners@.contains(
                    accounts.owner.key,
                )
                &&& outcome matches Err(error) ==> error == WalletError::Code(
                    ErrorCode::InvalidOwner,
                )
                &&& outcome matches Ok(invocation) ==> {
                    &&& invocation.instruction.program_id == ix.program_id
                    &&& invocation.instruction.keys@ == ix.keys@
                    &&& invocation.instruction.data@ == ix.data@
                    &&& are_subaccount_seeds(
                        invocation.signer_seeds@,
                        "GokiSmartWalletOwnerInvoker"@,
                        accounts.smart_wallet.key,
                        index,
                        bump,
                    )
                }
            },
{
    assert forall|
        accounts: &OwnerInvokeInstruction,
        index: u64,
        bump: u8,
        ix: TXInstruction,
        outcome: Result<Invocation, WalletError>,
    |
        #[trigger] call_ensures(
            owner_invoke_instruction,
            (accounts, index, bump, ix),
            outcome,
        ) && outcome is Ok implies are_subaccount_seeds(
        outcome->Ok_0.signer_seeds@,
        "GokiSmartWalletOwnerInvoker"@,
        accounts.smart_wallet.key,
        index,
        bump,
    ) by {
        law_seeds_are_taken_one_by_one(
            outcome->Ok_0.signer_seeds@,
            subaccount_signer_seeds(
                SubaccountType::OwnerInvoker,
                accounts.smart_wallet.key,
                index,
                bump,
            ),
        );
    }
}

/// What a request to record a subaccount answers and leaves where `address` is the derived one.
pub open spec fn recorded(
    before: CreateSubaccountInfo,
    after: CreateSubaccountInfo,
    address: Seq<u8>,
    subaccount: Pubkey,
    smart_wallet: Pubkey,
    index: u64,
    subaccount_type: SubaccountType,
    verdict: Result<(), WalletError>,
) -> bool {
    let info = after.subaccount_info.data;
    &&& verdict is Ok <==> subaccount.bytes@ == address
    &&& verdict is Ok ==> {
        &&& info.smart_wallet == smart_wallet
        &&& info.index == index
        &&& info.subaccount_type == subaccount_type
        &&& after.subaccount_info.key == before.subaccount_info.key
    }
    &&& verdict matches Err(error) ==> {
        &&& error == WalletError::Code(ErrorCode::SubaccountOwnerMismatch)
        &&& after == before
    }
}

/// Every call of `record_subaccount`, `create_subaccount_info` and `try_create_subaccount_info`: a
/// subaccount is recorded with its wallet, type and index exactly if its address is the derived one.
pub proof fn law_create_subaccount_info()
    ensures
        forall|
            accounts: &mut CreateSubaccountInfo,
            address: Pubkey,
            subaccount: Pubkey,
            smart_wallet: Pubkey,
            index: u64,
            subaccount_type: SubaccountType,
            verdict: Result<(), WalletError>,
        |
            #[trigger] call_ensures(
                record_subaccount,
                (accounts, address, subaccount, smart_wallet, index, subaccount_type),
                verdict,
            ) ==> recorded(
                *accounts,
                *final(accounts),
                address.bytes@,
                subaccount,
                smart_wallet,
                index,
                subaccount_type,
                verdict,
            ),
        forall|
            accounts: &mut CreateSubaccountInfo,
            bump: u8,
            subaccount: Pubkey,
            smart_wallet: Pubkey,
            index: u64,
            subaccount_type: SubaccountType,
            verdict: Result<(), WalletError>,
        |
            #[trigger] call_ensures(
                create_subaccount_info,
                (accounts, bump, subaccount, smart_wallet, index, subaccount_type),
                verdict,
            ) ==> recorded(
                *accounts,
                *final(accounts),
                derived_address(subaccount_type, smart_wallet, index)->0,
                subaccount,
                smart_wallet,
                index,
                subaccount_type,
                verdict,
            ),
        forall|
            accounts: &mut CreateSubaccountInfo,
            bump: u8,
            subaccount: Pubkey,
            smart_wallet: Pubkey,
            index: u64,
            subaccount_type: SubaccountType,
            outcome: Option<Result<(), WalletError>>,
        |
            #[trigger] call_ensures(
                try_create_subaccount_info,
                (accounts, bump, subaccount, smart_wallet, index, subaccount_type),
                outcome,
            ) ==> match (derived_address(subaccount_type, smart_wallet, index), outcome) {
                (Some(address), Some(verdict)) => recorded(
                    *accounts,
                    *final(accounts),
                    address,
                    subaccount,
                    smart_wallet,
                    index,
                    subaccount_type,
                    verdict,
                ),
                (None, None) => *final(accounts) == *accounts,
                _ => false,
            },
{
}

/// Every call of `do_execute_transaction`: at each step of the execution the next stored instruction
/// is handed out whole, with the seeds of the execution; at the end the transaction is burned; and an
/// error is handed on.
pub proof fn law_do_execute_transaction<E>()
    ensures
        forall|
            accounts: &mut ExecuteTransaction,
            execution: &mut Execution,
            event: ExecutionEvent<E>,
            action: ExecutionAction<E>,
        |
            #[trigger] call_ensures(
                do_execute_transaction::<E>,
                (accounts, execution, event),
                action,
            ) ==> stepped(
                *accounts,
                *final(accounts),
                *execution,
                *final(execution),
                event,
                action,
            ),
{
    assert forall|
        accounts: &mut ExecuteTransaction,
        execution: &mut Execution,
        event: ExecutionEvent<E>,
        action: ExecutionAction<E>,
    |
        #[trigger] call_ensures(
            do_execute_transaction::<E>,
            (accounts, execution, event),
            action,
        ) implies stepped(
        *accounts,
        *final(accounts),
        *execution,
        *final(execution),
        event,
        action,
    ) by {
        let stored = accounts.transaction.data.instructions@;
        let n = accounts.transaction.data@.instructions.len();
        assert(n == stored.len() && n == accounts.transaction.data.instructions.len());
        assert forall|i: int| 0 <= i < n implies accounts.transaction.data@.instructions[i]
            == #[trigger] stored[i]@ by {
        }
        if action is Invoke {
            law_seeds_are_taken_one_by_one(
                action->Invoke_0.signer_seeds@,
                seed_bytes(execution.signer_seeds@),
            );
        }
        law_listed_instructions_are_the_same(
            final(accounts).transaction.data.instructions@,
            stored,
        );
    }
}

/// Whether `action` hands out the stored instruction at `i` whole, with the seeds of the execution.
pub open spec fn hands_out<E>(
    action: ExecutionAction<E>,
    stored: Seq<TXInstruction>,
    seeds: Seq<Vec<u8>>,
    i: int,
) -> bool {
    action matches ExecutionAction::Invoke(invocation) && {
        &&& invocation.instruction.program_id == stored[i].program_id
        &&& invocation.instruction.keys@ == stored[i].keys@
        &&& invocation.instruction.data@ == stored[i].data@
        &&& invocation.signer_seeds@.len() == seeds.len()
        &&& forall|j: int|
            0 <= j < seeds.len() ==> (#[trigger] invocation.signer_seeds@[j])@ == seeds[j]@
    }
}

/// Whether an execution of which `done` instructions have succeeded goes on with the next one, or
/// reads the clock where there is none.
pub open spec fn goes_on<E>(
    action: ExecutionAction<E>,
    stored: Seq<TXInstruction>,
    after: Execution,
    done: int,
) -> bool {
    if done < stored.len() {
        &&& hands_out(action, stored, after.signer_seeds@, done)
        &&& after.progress matches Progress::Invoking(i) && i == done
    } else {
        &&& action is ReadClock
        &&& after.progress is ReadingClock
    }
}

/// Whether nothing of a transaction but who executed it and when differs.
pub open spec fn same_but_burned(one: Transaction, two: Transaction) -> bool {
    &&& one.smart_wallet == two.smart_wallet
    &&& one.index == two.index
    &&& one.bump == two.bump
    &&& one.proposer == two.proposer
    &&& same_instructions(one.instructions@, two.instructions@)
    &&& one.signers@ == two.signers@
    &&& one.owner_set_seqno == two.owner_set_seqno
    &&& one.eta == two.eta
}

/// What a step of an execution asks for and leaves in its accounts.
pub open spec fn stepped<E>(
    before: ExecuteTransaction,
    after: ExecuteTransaction,
    was: Execution,
    is_now: Execution,
    event: ExecutionEvent<E>,
    action: ExecutionAction<E>,
) -> bool {
    let stored = before.transaction.data.instructions@;
    &&& is_now.signer_seeds == was.signer_seeds
    &&& !(action is Report) ==> after == before
    &&& match (was.progress, event) {
        (Progress::Started, ExecutionEvent::Begin) => goes_on(action, stored, is_now, 0),
        (Progress::Invoking(i), ExecutionEvent::Invoked(Ok(_))) => if i < stored.len() {
            goes_on(action, stored, is_now, i + 1)
        } else {
            action is Abort && is_now.progress is Aborted
        },
        (Progress::Invoking(_), ExecutionEvent::Invoked(Err(error))) => {
            &&& action == ExecutionAction::Fail(error)
            &&& is_now.progress is Aborted
        },
        (Progress::ReadingClock, ExecutionEvent::Clock(Ok(now))) => {
            &&& is_now.progress is Executed
            &&& after.transaction.data.executor == before.owner.key
            &&& after.transaction.data.executed_at == now
            &&& same_but_burned(before.transaction.data, after.transaction.data)
            &&& after.transaction.key == before.transaction.key
            &&& after.smart_wallet == before.smart_wallet
            &&& after.owner == before.owner
            &&& action matches ExecutionAction::Report(report) && {
                &&& report.smart_wallet == before.smart_wallet.key
                &&& report.transaction == before.transaction.key
                &&& report.executor == before.owner.key
                &&& report.timestamp == now
            }
        },
        (Progress::ReadingClock, ExecutionEvent::Clock(Err(error))) => {
            &&& action == ExecutionAction::Fail(error)
            &&& is_now.progress is Aborted
        },
        _ => action is Abort && is_now.progress is Aborted,
    }
}

/// Every call of `owner_index` and `num_signers`: an owner is found at the first place of the owner's
/// key, nobody else is found, and the signatures that are set are counted.
pub proof fn law_owner_index_and_num_signers()
    ensures
        forall|wallet: &SmartWallet, key: Pubkey, index: Result<usize, WalletError>|
            #[trigger] call_ensures(SmartWallet::owner_index, (wallet, key), index) ==> {
                let owners = wallet.owners@;
                &&& index is Ok <==> owners.contains(key)
                &&& index matches Ok(slot) ==> slot < owners.len() && owners[slot as int] == key
                    && forall|i: int| 0 <= i < slot ==> owners[i] != key
                &&& index matches Err(error) ==> error == WalletError::Code(
                    ErrorCode::InvalidOwner,
                )
            },
        forall|tx: &Transaction, count: usize|
            #[trigger] call_ensures(Transaction::num_signers, (tx,), count) ==> count
                == count_signers(tx.signers@),
{
}

/// Every call of `wallet_signer` and `subaccount_signer`: the seeds are made of a text, an address, an
/// index where there is one, and the bump seed.
pub proof fn law_signers()
    ensures
        forall|wallet: &SmartWallet, seeds: Vec<Vec<u8>>|
            #[trigger] call_ensures(wallet_signer, (wallet,), seeds) ==> are_wallet_seeds(
                seeds@,
                *wallet,
            ),
        forall|
            subaccount_type: SubaccountType,
            smart_wallet: &Pubkey,
            index: u64,
            bump: u8,
            seeds: Vec<Vec<u8>>,
        |
            #[trigger] call_ensures(
                subaccount_signer,
                (subaccount_type, smart_wallet, index, bump),
                seeds,
            ) ==> are_subaccount_seeds(
                seeds@,
                match subaccount_type {
                    SubaccountType::Derived => "GokiSmartWalletDerived"@,
                    SubaccountType::OwnerInvoker => "GokiSmartWalletOwnerInvoker"@,
                },
                *smart_wallet,
                index,
                bump,
            ),
{
    assert forall|wallet: &SmartWallet, seeds: Vec<Vec<u8>>| #[trigger]
        call_ensures(wallet_signer, (wallet,), seeds) implies are_wallet_seeds(seeds@, *wallet) by {
        law_seeds_are_taken_one_by_one(seeds@, wallet_signer_seeds(wallet@));
    }
    assert forall|
        subaccount_type: SubaccountType,
        smart_wallet: &Pubkey,
        index: u64,
        bump: u8,
        seeds: Vec<Vec<u8>>,
    |
        #[trigger] call_ensures(
            subaccount_signer,
            (subaccount_type, smart_wallet, index, bump),
            seeds,
        ) implies are_subaccount_seeds(
        seeds@,
        match subaccount_type {
            SubaccountType::Derived => "GokiSmartWalletDerived"@,
            SubaccountType::OwnerInvoker => "GokiSmartWalletOwnerInvoker"@,
        },
        *smart_wallet,
        index,
        bump,
    ) by {
        law_seeds_are_taken_one_by_one(
            seeds@,
            subaccount_signer_seeds(subaccount_type, *smart_wallet, index, bump),
        );
    }
}

/// Every call of `subaccount_address` and `signer_address`: the address of a subaccount is the one that
/// the search finds for this program from a text, the wallet and the index, and the one for which this
/// program signs with these and the bump seed; an address is signed for by this program alone.
pub proof fn law_addresses()
    ensures
        forall|
            subaccount_type: SubaccountType,
            smart_wallet: &Pubkey,
            index: u64,
            found: Option<(Pubkey, u8)>,
        |
            #[trigger] call_ensures(
                subaccount_address,
                (subaccount_type, smart_wallet, index),
                found,
            ) ==> {
                let text = match subaccount_type {
                    SubaccountType::Derived => "GokiSmartWalletDerived"@,
                    SubaccountType::OwnerInvoker => "GokiSmartWalletOwnerInvoker"@,
                };
                let seeds = seq![ascii(text), smart_wallet.bytes@, spec_u64_to_le_bytes(index)];
                match found {
                    Some((key, bump)) => {
                        &&& find_program_address(seeds, program_id()) == Some((key.bytes@, bump))
                        &&& program_address(seeds.push(seq![bump]), program_id()) == Some(
                            key.bytes@,
                        )
                    },
                    None => find_program_address(seeds, program_id()) is None,
                }
            },
        forall|seeds: &Vec<Vec<u8>>, address: Option<Pubkey>|
            #[trigger] call_ensures(signer_address, (seeds,), address) ==> match address {
                Some(key) => program_address(seed_bytes(seeds@), program_id()) == Some(key.bytes@),
                None => program_address(seed_bytes(seeds@), program_id()) is None,
            },
        forall|seeds: Seq<Seq<u8>>| #[trigger]
            signed_address(seeds) == program_address(seeds, program_id()),
{
}

/// A text is taken byte by byte.
pub proof fn law_texts_are_taken_byte_by_byte(text: Seq<char>)
    ensures
        ascii(text).len() == text.len(),
        forall|i: int| 0 <= i < text.len() ==> #[trigger] ascii(text)[i] == text[i] as u8,
{
}

/// Every call of the checks that stand before the requests: they give what the requests answer.
pub proof fn law_checks()
    ensures
        forall|accounts: &Auth, verdict: Result<(), WalletError>|
            #[trigger] call_ensures(Auth::validate, (accounts,), verdict) ==> {
                &&& verdict is Ok <==> accounts.is_signer
                &&& verdict matches Err(error) ==> error == WalletError::MissingSignature
            },
        forall|accounts: &Approve, verdict: Result<(), WalletError>|
            #[trigger] call_ensures(Approve::validate, (accounts,), verdict) ==> {
                let tx = accounts.transaction.data;
                &&& verdict is Ok <==> tx.smart_wallet == accounts.smart_wallet.key
                    && tx.owner_set_seqno == accounts.smart_wallet.data.owner_set_seqno
                &&& verdict matches Err(error) ==> error == signing_error(*accounts)
            },
        forall|accounts: &Approve, found: bool|
            #[trigger] call_ensures(Approve::has_slot, (accounts,), found) ==> (found <==> (may_sign(
                *accounts,
            ) ==> has_place(*accounts))),
        forall|accounts: &ExecuteTransaction, now: i64, verdict: Result<(), WalletError>|
            #[trigger] call_ensures(ExecuteTransaction::validate, (accounts, now), verdict) ==> {
                &&& verdict is Ok <==> may_execute(*accounts, now)
                &&& verdict matches Err(error) ==> error == executing_error(*accounts, now)
            },
        forall|accounts: &OwnerInvokeInstruction, verdict: Result<(), WalletError>|
            #[trigger] call_ensures(OwnerInvokeInstruction::validate, (accounts,), verdict) ==> {
                &&& verdict is Ok <==> accounts.smart_wallet.data.owners@.contains(
                    accounts.owner.key,
                )
                &&& verdict matches Err(error) ==> error == WalletError::Code(
                    ErrorCode::InvalidOwner,
                )
            },
{
    assert forall|accounts: &Approve, found: bool|
        #[trigger] call_ensures(Approve::has_slot, (accounts,), found) implies (found <==> (
    may_sign(*accounts) ==> has_place(*accounts))) by {
        let owners = accounts.smart_wallet.data.owners@;
        let slot = owner_slot(owners, accounts.owner.key)->0;
        law_owner_signs_at_the_first_place(owners, accounts.owner.key, slot);
        if may_sign(*accounts) {
            assert(owners[slot] == accounts.owner.key);
        }
    }
}

/// Every request can be made in every state of its accounts. The two exceptions: a signature of an
/// owner for which the transaction has no place, and a subaccount for which no bump seed gives an
/// address.
pub proof fn law_requests_can_always_be_made<E>()
    ensures
        forall|
            accounts: &mut CreateSmartWallet,
            bump: u8,
            max_owners: u8,
            owners: Vec<Pubkey>,
            threshold: u64,
            minimum_delay: i64,
            now: i64,
        |
            #[trigger] call_requires(
                create_smart_wallet,
                (accounts, bump, max_owners, owners, threshold, minimum_delay, now),
            ),
        forall|accounts: &mut Auth, owners: Vec<Pubkey>, now: i64|
            #[trigger] call_requires(set_owners, (accounts, owners, now)),
        forall|accounts: &mut Auth, threshold: u64, now: i64|
            #[trigger] call_requires(change_threshold, (accounts, threshold, now)),
        forall|accounts: &mut CreateTransaction, bump: u8, ixs: Vec<TXInstruction>, now: i64|
            #[trigger] call_requires(create_transaction, (accounts, bump, ixs, now)),
        forall|
            accounts: &mut CreateTransaction,
            bump: u8,
            ixs: Vec<TXInstruction>,
            eta: i64,
            now: i64,
        |
            #[trigger] call_requires(
                create_transaction_with_timelock,
                (accounts, bump, ixs, eta, now),
            ),
        forall|accounts: &mut Approve, now: i64|
            (may_sign(*accounts) ==> has_place(*accounts)) ==> #[trigger] call_requires(
                approve,
                (accounts, now),
            ),
        forall|accounts: &mut Approve, now: i64|
            (may_sign(*accounts) ==> has_place(*accounts)) ==> #[trigger] call_requires(
                unapprove,
                (accounts, now),
            ),
        forall|accounts: &ExecuteTransaction, now: i64|
            #[trigger] call_requires(execute_transaction, (accounts, now)),
        forall|accounts: &ExecuteTransaction, index: u64, bump: u8, now: i64|
            #[trigger] call_requires(execute_transaction_derived, (accounts, index, bump, now)),
        forall|accounts: &OwnerInvokeInstruction, index: u64, bump: u8, ix: TXInstruction|
            #[trigger] call_requires(owner_invoke_instruction, (accounts, index, bump, ix)),
        forall|
            accounts: &mut CreateSubaccountInfo,
            bump: u8,
            subaccount: Pubkey,
            smart_wallet: Pubkey,
            index: u64,
            subaccount_type: SubaccountType,
        |
            #[trigger] call_requires(
                try_create_subaccount_info,
                (accounts, bump, subaccount, smart_wallet, index, subaccount_type),
            ),
        forall|
            accounts: &mut CreateSubaccountInfo,
            bump: u8,
            subaccount: Pubkey,
            smart_wallet: Pubkey,
            index: u64,
            subaccount_type: SubaccountType,
        |
            derived_address(subaccount_type, smart_wallet, index) is Some
                ==> #[trigger] call_requires(
                create_subaccount_info,
                (accounts, bump, subaccount, smart_wallet, index, subaccount_type),
            ),
        forall|
            accounts: &mut ExecuteTransaction,
            execution: &mut Execution,
            event: ExecutionEvent<E>,
        |
            #[trigger] call_requires(do_execute_transaction::<E>, (accounts, execution, event)),
{
    assert forall|accounts: Approve| #![auto]
        (may_sign(accounts) ==> has_place(accounts)) implies accounts.spec_has_slot() by {
        let owners = accounts.smart_wallet.data.owners@;
        let slot = owner_slot(owners, accounts.owner.key)->0;
        law_owner_signs_at_the_first_place(owners, accounts.owner.key, slot);
    }
}

} // verus!
