//! Transactions from their creation to their execution.

use smart_wallet::accounts::{
    Account, Approve, Auth, CreateTransaction, ExecuteTransaction, OwnerInvokeInstruction, Signer,
};
use smart_wallet::error::{ErrorCode, Invariant, WalletError};
use smart_wallet::execution::{
    do_execute_transaction, Execution, ExecutionAction, ExecutionEvent, Progress,
};
use smart_wallet::pubkey::Pubkey;
use smart_wallet::smart_wallet::{
    approve, create_transaction, create_transaction_with_timelock, execute_transaction,
    execute_transaction_derived, owner_invoke_instruction, set_owners, unapprove,
};
use smart_wallet::state::{SmartWallet, TXAccountMeta, TXInstruction, Transaction};
use smart_wallet::{DEFAULT_GRACE_PERIOD, MAX_DELAY_SECONDS, NO_ETA};

const NOW: i64 = 1_700_000_000;

/// What happens, where errors are numbers.
type Event = ExecutionEvent<u32>;

fn key(n: u8) -> Pubkey {
    Pubkey { bytes: [n; 32] }
}

fn wallet(minimum_delay: i64) -> SmartWallet {
    SmartWallet {
        base: key(50),
        bump: 253,
        threshold: 2,
        minimum_delay,
        grace_period: DEFAULT_GRACE_PERIOD,
        owner_set_seqno: 3,
        num_transactions: 7,
        owners: vec![key(1), key(2), key(3)],
    }
}

fn instruction(n: u8) -> TXInstruction {
    TXInstruction {
        program_id: key(n),
        keys: vec![TXAccountMeta { pubkey: key(n + 1), is_signer: true, is_writable: false }],
        data: vec![n, n + 1],
    }
}

fn blank() -> Transaction {
    Transaction {
        smart_wallet: Pubkey::default(),
        index: 0,
        bump: 0,
        proposer: Pubkey::default(),
        instructions: vec![],
        signers: vec![],
        owner_set_seqno: 0,
        eta: 0,
        executor: Pubkey::default(),
        executed_at: 0,
    }
}

fn creation(minimum_delay: i64, proposer: u8) -> CreateTransaction {
    CreateTransaction {
        smart_wallet: Account { key: key(60), data: wallet(minimum_delay) },
        transaction: Account { key: key(70), data: blank() },
        proposer: Signer { key: key(proposer) },
    }
}

fn signing(tx: Account<Transaction>, owner: u8) -> Approve {
    Approve {
        smart_wallet: Account { key: key(60), data: wallet(0) },
        transaction: tx,
        owner: Signer { key: key(owner) },
    }
}

fn proposed(eta: i64) -> Account<Transaction> {
    let mut accounts = creation(0, 2);
    let instructions = vec![instruction(10), instruction(20)];
    create_transaction_with_timelock(&mut accounts, 9, instructions, eta, NOW).unwrap();
    accounts.transaction
}

fn executing(tx: Account<Transaction>, owner: u8) -> ExecuteTransaction {
    ExecuteTransaction {
        smart_wallet: Account { key: key(60), data: wallet(0) },
        transaction: tx,
        owner: Signer { key: key(owner) },
    }
}

fn approved(eta: i64) -> Account<Transaction> {
    let mut accounts = signing(proposed(eta), 1);
    approve(&mut accounts, NOW).unwrap();
    accounts.transaction
}

#[test]
fn creator_signs_a_new_transaction() {
    let mut accounts = creation(0, 2);
    let event = create_transaction(&mut accounts, 9, vec![instruction(10)], NOW).unwrap();
    let tx = &accounts.transaction.data;
    assert_eq!(tx.smart_wallet, key(60));
    assert_eq!(tx.index, 7);
    assert_eq!(tx.bump, 9);
    assert_eq!(tx.proposer, key(2));
    assert_eq!(tx.instructions.len(), 1);
    assert_eq!(tx.instructions[0].program_id, key(10));
    assert_eq!(tx.instructions[0].data, vec![10, 11]);
    assert_eq!(tx.signers, vec![false, true, false]);
    assert_eq!(tx.num_signers(), 1);
    assert_eq!(tx.owner_set_seqno, 3);
    assert_eq!(tx.eta, NO_ETA);
    assert_eq!(tx.executor, Pubkey::default());
    assert_eq!(tx.executed_at, -1);
    assert_eq!(accounts.smart_wallet.data.num_transactions, 8);
    assert_eq!(event.smart_wallet, key(60));
    assert_eq!(event.transaction, key(70));
    assert_eq!(event.proposer, key(2));
    assert_eq!(event.instructions.len(), 1);
    assert_eq!(event.instructions[0].keys[0].pubkey, key(11));
    assert_eq!(event.eta, NO_ETA);
    assert_eq!(event.timestamp, NOW);
}

#[test]
fn transactions_are_numbered() {
    let mut accounts = creation(0, 1);
    create_transaction(&mut accounts, 0, vec![], NOW).unwrap();
    assert_eq!(accounts.transaction.data.index, 7);
    create_transaction(&mut accounts, 0, vec![], NOW).unwrap();
    assert_eq!(accounts.transaction.data.index, 8);
    accounts.smart_wallet.data.num_transactions = u64::MAX;
    let refused = create_transaction(&mut accounts, 0, vec![], NOW).unwrap_err();
    assert_eq!(refused, WalletError::IntegerOverflow);
    assert_eq!(accounts.transaction.data.index, 8);
}

#[test]
fn only_owners_propose() {
    let mut accounts = creation(0, 4);
    let refused = create_transaction(&mut accounts, 0, vec![], NOW).unwrap_err();
    assert_eq!(refused, WalletError::Code(ErrorCode::InvalidOwner));
    assert_eq!(accounts.smart_wallet.data.num_transactions, 7);
    assert_eq!(accounts.transaction.data.executed_at, 0);
}

#[test]
fn eta_keeps_the_minimum_delay() {
    let mut accounts = creation(100, 1);
    let refused =
        create_transaction_with_timelock(&mut accounts, 0, vec![], NOW + 99, NOW).unwrap_err();
    assert_eq!(refused, WalletError::Code(ErrorCode::InvalidETA));
    let refused = create_transaction(&mut accounts, 0, vec![], NOW).unwrap_err();
    assert_eq!(refused, WalletError::Code(ErrorCode::InvalidETA));
    create_transaction_with_timelock(&mut accounts, 0, vec![], NOW + 100, NOW).unwrap();
    assert_eq!(accounts.transaction.data.eta, NOW + 100);
}

#[test]
fn eta_is_checked() {
    let mut accounts = creation(0, 1);
    let refused = create_transaction_with_timelock(&mut accounts, 0, vec![], -2, NOW).unwrap_err();
    assert_eq!(refused, WalletError::InvariantFailed(Invariant::EtaMustBePositive));
    let refused =
        create_transaction_with_timelock(&mut accounts, 0, vec![], NOW - 1, NOW).unwrap_err();
    assert_eq!(refused, WalletError::InvariantFailed(Invariant::EtaMustBeInTheFuture));
    let late = NOW + MAX_DELAY_SECONDS;
    let refused =
        create_transaction_with_timelock(&mut accounts, 0, vec![], late + 1, NOW).unwrap_err();
    assert_eq!(refused, WalletError::Code(ErrorCode::DelayTooHigh));
    assert!(create_transaction_with_timelock(&mut accounts, 0, vec![], late, NOW).is_ok());
    assert!(create_transaction_with_timelock(&mut accounts, 0, vec![], NOW, NOW).is_ok());
}

#[test]
fn times_do_not_overflow() {
    let mut accounts = creation(100, 1);
    let refused =
        create_transaction_with_timelock(&mut accounts, 0, vec![], i64::MAX, i64::MAX - 99)
            .unwrap_err();
    assert_eq!(refused, WalletError::IntegerOverflow);
    let mut accounts = creation(0, 1);
    let refused =
        create_transaction_with_timelock(&mut accounts, 0, vec![], i64::MAX, -1).unwrap_err();
    assert_eq!(refused, WalletError::IntegerOverflow);
}

#[test]
fn approvals_can_be_taken_back() {
    let mut accounts = signing(proposed(NO_ETA), 3);
    let event = approve(&mut accounts, NOW).unwrap();
    assert_eq!(accounts.transaction.data.signers, vec![false, true, true]);
    assert_eq!(event.smart_wallet, key(60));
    assert_eq!(event.transaction, key(70));
    assert_eq!(event.owner, key(3));
    assert_eq!(event.timestamp, NOW);
    approve(&mut accounts, NOW).unwrap();
    assert_eq!(accounts.transaction.data.num_signers(), 2);
    let event = unapprove(&mut accounts, NOW + 1).unwrap();
    assert_eq!(accounts.transaction.data.signers, vec![false, true, false]);
    assert_eq!(event.owner, key(3));
    assert_eq!(event.transaction, key(70));
    assert_eq!(event.smart_wallet, key(60));
    assert_eq!(event.timestamp, NOW + 1);
}

#[test]
fn only_owners_approve() {
    let mut accounts = signing(proposed(NO_ETA), 4);
    assert!(accounts.has_slot());
    let refused = approve(&mut accounts, NOW).unwrap_err();
    assert_eq!(refused, WalletError::Code(ErrorCode::InvalidOwner));
    let refused = unapprove(&mut accounts, NOW).unwrap_err();
    assert_eq!(refused, WalletError::Code(ErrorCode::InvalidOwner));
    assert_eq!(accounts.transaction.data.signers, vec![false, true, false]);
}

#[test]
fn transaction_has_to_be_the_wallets() {
    let mut accounts = signing(proposed(NO_ETA), 1);
    accounts.smart_wallet.key = key(61);
    assert_eq!(approve(&mut accounts, NOW).unwrap_err(), WalletError::KeyMismatch);
    let mut executed = executing(approved(NO_ETA), 1);
    executed.smart_wallet.key = key(61);
    assert_eq!(execute_transaction(&executed, NOW).unwrap_err(), WalletError::KeyMismatch);
}

#[test]
fn missing_place_is_found() {
    let mut accounts = signing(proposed(NO_ETA), 3);
    accounts.transaction.data.signers.truncate(2);
    assert!(!accounts.has_slot());
    accounts.owner.key = key(2);
    assert!(accounts.has_slot());
}

#[test]
fn new_owners_void_transactions() {
    let mut auth =
        Auth { smart_wallet: Account { key: key(60), data: wallet(0) }, is_signer: true };
    set_owners(&mut auth, vec![key(1), key(2), key(3)], NOW).unwrap();
    let changed = WalletError::Code(ErrorCode::OwnerSetChanged);
    let mut signed = signing(proposed(NO_ETA), 1);
    signed.smart_wallet = auth.smart_wallet;
    assert_eq!(approve(&mut signed, NOW).unwrap_err(), changed);
    assert_eq!(unapprove(&mut signed, NOW).unwrap_err(), changed);
    let mut executed = executing(approved(NO_ETA), 1);
    executed.smart_wallet = signed.smart_wallet;
    assert_eq!(execute_transaction(&executed, NOW).unwrap_err(), changed);
}

#[test]
fn execution_takes_the_threshold() {
    let refused = execute_transaction(&executing(proposed(NO_ETA), 1), NOW).unwrap_err();
    assert_eq!(refused, WalletError::Code(ErrorCode::NotEnoughSigners));
    assert!(execute_transaction(&executing(approved(NO_ETA), 1), NOW).is_ok());
    let refused = execute_transaction(&executing(approved(NO_ETA), 4), NOW).unwrap_err();
    assert_eq!(refused, WalletError::Code(ErrorCode::InvalidOwner));
}

#[test]
fn execution_keeps_the_time_lock() {
    let eta = NOW + 500;
    let refused = execute_transaction(&executing(approved(eta), 1), eta - 1).unwrap_err();
    assert_eq!(refused, WalletError::Code(ErrorCode::TransactionNotReady));
    let end = eta + DEFAULT_GRACE_PERIOD;
    assert!(execute_transaction(&executing(approved(eta), 1), eta).is_ok());
    assert!(execute_transaction(&executing(approved(eta), 1), end).is_ok());
    let refused = execute_transaction(&executing(approved(eta), 1), end + 1).unwrap_err();
    assert_eq!(refused, WalletError::Code(ErrorCode::TransactionIsStale));
}

#[test]
fn grace_period_does_not_overflow() {
    let mut accounts = executing(approved(NO_ETA), 1);
    accounts.transaction.data.eta = i64::MAX - 1;
    let refused = execute_transaction(&accounts, i64::MAX).unwrap_err();
    assert_eq!(refused, WalletError::IntegerOverflow);
}

#[test]
fn transaction_is_executed_once() {
    let mut accounts = executing(approved(NO_ETA), 1);
    let mut execution = execute_transaction(&accounts, NOW).unwrap();
    for n in [10u8, 20] {
        let event = if n == 10 { Event::Begin } else { Event::Invoked(Ok(())) };
        match do_execute_transaction(&mut accounts, &mut execution, event) {
            ExecutionAction::Invoke(invocation) => {
                assert_eq!(invocation.instruction.program_id, key(n));
                assert_eq!(invocation.instruction.data, vec![n, n + 1]);
                assert_eq!(invocation.signer_seeds, execution.signer_seeds);
            }
            other => panic!("unexpected {:?}", other),
        }
        assert_eq!(accounts.transaction.data.executed_at, -1);
    }
    let action =
        do_execute_transaction(&mut accounts, &mut execution, Event::Invoked(Ok(())));
    assert!(matches!(action, ExecutionAction::ReadClock));
    match do_execute_transaction(&mut accounts, &mut execution, Event::Clock(Ok(NOW + 5))) {
        ExecutionAction::Report(event) => {
            assert_eq!(event.smart_wallet, key(60));
            assert_eq!(event.transaction, key(70));
            assert_eq!(event.executor, key(1));
            assert_eq!(event.timestamp, NOW + 5);
        }
        other => panic!("unexpected {:?}", other),
    }
    assert_eq!(execution.progress, Progress::Executed);
    assert_eq!(accounts.transaction.data.executor, key(1));
    assert_eq!(accounts.transaction.data.executed_at, NOW + 5);
    let refused = execute_transaction(&accounts, NOW + 6).unwrap_err();
    assert_eq!(refused, WalletError::Code(ErrorCode::AlreadyExecuted));
}

#[test]
fn failed_instruction_burns_nothing() {
    let mut accounts = executing(approved(NO_ETA), 1);
    let mut execution = execute_transaction(&accounts, NOW).unwrap();
    do_execute_transaction(&mut accounts, &mut execution, Event::Begin);
    let action =
        do_execute_transaction(&mut accounts, &mut execution, Event::Invoked(Err(17)));
    assert!(matches!(action, ExecutionAction::Fail(17)));
    assert_eq!(execution.progress, Progress::Aborted);
    assert_eq!(accounts.transaction.data.executed_at, -1);
    let action =
        do_execute_transaction(&mut accounts, &mut execution, Event::Clock(Ok(NOW)));
    assert!(matches!(action, ExecutionAction::Abort));
    assert_eq!(accounts.transaction.data.executed_at, -1);
}

#[test]
fn unread_clock_burns_nothing() {
    let mut accounts = executing(approved(NO_ETA), 1);
    let mut execution = execute_transaction(&accounts, NOW).unwrap();
    for event in [Event::Begin, Event::Invoked(Ok(())), Event::Invoked(Ok(()))] {
        do_execute_transaction(&mut accounts, &mut execution, event);
    }
    assert_eq!(execution.progress, Progress::ReadingClock);
    let action = do_execute_transaction(&mut accounts, &mut execution, Event::Clock(Err(18)));
    assert!(matches!(action, ExecutionAction::Fail(18)));
    assert_eq!(execution.progress, Progress::Aborted);
    assert_eq!(accounts.transaction.data.executed_at, -1);
}

#[test]
fn unexpected_event_ends_the_execution() {
    let mut accounts = executing(approved(NO_ETA), 1);
    let mut execution = execute_transaction(&accounts, NOW).unwrap();
    let action = do_execute_transaction(&mut accounts, &mut execution, Event::Invoked(Err(17)));
    assert!(matches!(action, ExecutionAction::Abort));
    assert_eq!(execution.progress, Progress::Aborted);
}

#[test]
fn no_eta_is_open_since_its_point_in_time() {
    assert!(execute_transaction(&executing(approved(NO_ETA), 1), 0).is_ok());
    assert!(execute_transaction(&executing(approved(NO_ETA), 1), -1).is_ok());
    let refused = execute_transaction(&executing(approved(NO_ETA), 1), -2).unwrap_err();
    assert_eq!(refused, WalletError::Code(ErrorCode::TransactionNotReady));
}

#[test]
fn transaction_without_instructions_is_burned_at_once() {
    let mut tx = approved(NO_ETA);
    tx.data.instructions.clear();
    let mut accounts = executing(tx, 3);
    let mut execution = Execution { signer_seeds: vec![], progress: Progress::Started };
    let action = do_execute_transaction(&mut accounts, &mut execution, Event::Begin);
    assert!(matches!(action, ExecutionAction::ReadClock));
}

#[test]
fn wallet_signs_for_its_transactions() {
    let execution = execute_transaction(&executing(approved(NO_ETA), 1), NOW).unwrap();
    assert_eq!(
        execution.signer_seeds,
        vec![b"GokiSmartWallet".to_vec(), vec![50; 32], vec![253]],
    );
    assert_eq!(execution.progress, Progress::Started);
}

#[test]
fn each_wallet_signs_with_its_own_seeds() {
    let mut accounts = executing(approved(NO_ETA), 1);
    let one = execute_transaction(&accounts, NOW).unwrap().signer_seeds.concat();
    accounts.smart_wallet.data.base.bytes[31] = 51;
    let two = execute_transaction(&accounts, NOW).unwrap().signer_seeds.concat();
    accounts.smart_wallet.data.base = key(50);
    accounts.smart_wallet.data.bump = 252;
    let three = execute_transaction(&accounts, NOW).unwrap().signer_seeds.concat();
    assert_ne!(one, two);
    assert_ne!(one, three);
    assert_ne!(two, three);
}

#[test]
fn longest_delay_can_be_kept() {
    let mut accounts = creation(MAX_DELAY_SECONDS, 1);
    let eta = NOW + MAX_DELAY_SECONDS;
    let refused =
        create_transaction_with_timelock(&mut accounts, 0, vec![], eta - 1, NOW).unwrap_err();
    assert_eq!(refused, WalletError::Code(ErrorCode::InvalidETA));
    assert!(create_transaction_with_timelock(&mut accounts, 0, vec![], eta, NOW).is_ok());
}

#[test]
fn derived_address_signs_for_transactions() {
    let accounts = executing(approved(NO_ETA), 1);
    let execution = execute_transaction_derived(&accounts, 258, 251, NOW).unwrap();
    assert_eq!(
        execution.signer_seeds,
        vec![
            b"GokiSmartWalletDerived".to_vec(),
            vec![60; 32],
            vec![2, 1, 0, 0, 0, 0, 0, 0],
            vec![251],
        ],
    );
    let unsigned = executing(proposed(NO_ETA), 1);
    let refused = execute_transaction_derived(&unsigned, 258, 251, NOW).unwrap_err();
    assert_eq!(refused, WalletError::Code(ErrorCode::NotEnoughSigners));
}

#[test]
fn owner_invokes_an_instruction() {
    let mut accounts = OwnerInvokeInstruction {
        smart_wallet: Account { key: key(60), data: wallet(0) },
        owner: Signer { key: key(3) },
    };
    let invocation = owner_invoke_instruction(&accounts, 1, 250, instruction(30)).unwrap();
    assert_eq!(invocation.instruction.program_id, key(30));
    assert_eq!(invocation.instruction.keys[0].pubkey, key(31));
    assert_eq!(invocation.instruction.data, vec![30, 31]);
    assert_eq!(
        invocation.signer_seeds,
        vec![
            b"GokiSmartWalletOwnerInvoker".to_vec(),
            vec![60; 32],
            vec![1, 0, 0, 0, 0, 0, 0, 0],
            vec![250],
        ],
    );
    accounts.owner.key = key(4);
    let refused = owner_invoke_instruction(&accounts, 1, 250, instruction(30)).unwrap_err();
    assert_eq!(refused, WalletError::Code(ErrorCode::InvalidOwner));
}
