//! How a transaction is executed: its instructions are invoked one after the other, and then it is
//! burned.

use vstd::prelude::*;

use crate::accounts::ExecuteTransaction;
use crate::events::TransactionExecuteEvent;
use crate::pubkey::Pubkey;
use crate::seeds::seed_bytes;
use crate::state::{InstructionState, TXInstruction, TransactionState};

verus! {

/// The execution of a transaction.
#[derive(Debug)]
pub struct Execution {
    /// The seeds, with the bump seed, of the address that signs for the instructions.
    pub signer_seeds: Vec<Vec<u8>>,
    /// How far the execution has come.
    pub progress: Progress,
}

/// A single instruction to invoke.
#[derive(Debug)]
pub struct Invocation {
    /// The instruction.
    pub instruction: TXInstruction,
    /// The seeds, with the bump seed, of the address that signs for it.
    pub signer_seeds: Vec<Vec<u8>>,
}

impl Invocation {
    /// Whether this invokes `instruction`, signed by the address that `seeds` derive.
    pub open spec fn is_of(self, instruction: InstructionState, seeds: Seq<Seq<u8>>) -> bool {
        &&& self.instruction@ == instruction
        &&& seed_bytes(self.signer_seeds@) == seeds
    }
}

/// How far an execution has come.
#[derive(Clone, Copy, Debug, PartialEq, Eq, Structural)]
pub enum Progress {
    /// Nothing was invoked yet.
    Started,
    /// The instruction with this index is being invoked.
    Invoking(usize),
    /// All instructions were invoked; the clock is being read.
    ReadingClock,
    /// The transaction was burned.
    Executed,
    /// The execution has failed.
    Aborted,
}

/// What happened outside of the program. `E` is the error of what was called there.
#[derive(Debug)]
pub enum ExecutionEvent<E> {
    /// The execution was asked for.
    Begin,
    /// The instruction was invoked, with this outcome.
    Invoked(Result<(), E>),
    /// The clock was read, with this outcome.
    Clock(Result<i64, E>),
}

/// What to do next.
#[derive(Debug)]
pub enum ExecutionAction<E> {
    /// Invoke the instruction.
    Invoke(Invocation),
    /// Read the clock.
    ReadClock,
    /// Report the event: the execution is over.
    Report(TransactionExecuteEvent),
    /// Give up with this error, the one of the call that failed.
    Fail(E),
    /// Give up: the execution did not wait for what happened.
    Abort,
}

/// Where an execution of `n` instructions stands once the first `done` were invoked.
pub open spec fn progress_after(n: nat, done: int) -> Progress {
    if done < n {
        Progress::Invoking(done as usize)
    } else {
        Progress::ReadingClock
    }
}

/// Where an execution of `n` instructions stands after `event`. A call that fails ends it, and so
/// does an event that it does not wait for.
pub open spec fn next_progress<E>(
    n: nat,
    progress: Progress,
    event: ExecutionEvent<E>,
) -> Progress {
    match (progress, event) {
        (Progress::Started, ExecutionEvent::Begin) => progress_after(n, 0),
        (Progress::Invoking(i), ExecutionEvent::Invoked(Ok(()))) => if i < n {
            progress_after(n, i + 1)
        } else {
            Progress::Aborted
        },
        (Progress::ReadingClock, ExecutionEvent::Clock(Ok(_))) => Progress::Executed,
        _ => Progress::Aborted,
    }
}

/// The error of the call that an execution was waiting for, where `event` brings one.
pub open spec fn failure<E>(progress: Progress, event: ExecutionEvent<E>) -> Option<E> {
    match (progress, event) {
        (Progress::Invoking(_), ExecutionEvent::Invoked(Err(error))) => Some(error),
        (Progress::ReadingClock, ExecutionEvent::Clock(Err(error))) => Some(error),
        _ => None,
    }
}

/// The transaction after it was executed.
pub open spec fn burned(tx: TransactionState, executor: Pubkey, now: i64) -> TransactionState {
    TransactionState { executor, executed_at: now, ..tx }
}

/// Whether `action` is what there is to do when the execution of the transaction in `accounts`,
/// signed by the address that `seeds` derive, stands at `progress` and `event` happens.
pub open spec fn action_fits<E>(
    action: ExecutionAction<E>,
    accounts: ExecuteTransaction,
    seeds: Seq<Seq<u8>>,
    progress: Progress,
    event: ExecutionEvent<E>,
) -> bool {
    let tx = accounts.transaction.data@;
    match next_progress(tx.instructions.len(), progress, event) {
        Progress::Invoking(i) => action matches ExecutionAction::Invoke(invocation)
            && invocation.is_of(tx.instructions[i as int], seeds),
        Progress::ReadingClock => action is ReadClock,
        Progress::Executed => action == ExecutionAction::<E>::Report(
            TransactionExecuteEvent {
                smart_wallet: accounts.smart_wallet.key,
                transaction: accounts.transaction.key,
                executor: accounts.owner.key,
                timestamp: event->Clock_0->Ok_0,
            },
        ),
        _ => match failure(progress, event) {
            Some(error) => action == ExecutionAction::Fail(error),
            None => action is Abort,
        },
    }
}

/// Takes an execution one step further: all instructions are invoked in their order, and then the
/// transaction is burned to ensure one time use. Where an instruction fails, or the clock cannot be
/// read, the execution ends with the error of that call and nothing is burned.
pub fn do_execute_transaction<E>(
    accounts: &mut ExecuteTransaction,
    execution: &mut Execution,
    event: ExecutionEvent<E>,
) -> (action: ExecutionAction<E>)
    ensures
        final(execution).signer_seeds == old(execution).signer_seeds,
        final(execution).progress == next_progress(
            old(accounts).transaction.data@.instructions.len(),
            old(execution).progress,
            event,
        ),
        action_fits(
            action,
            *old(accounts),
            seed_bytes(old(execution).signer_seeds@),
            old(execution).progress,
            event,
        ),
        final(execution).progress is Executed ==> {
            &&& final(accounts).smart_wallet == old(accounts).smart_wallet
            &&& final(accounts).owner == old(accounts).owner
            &&& final(accounts).transaction.key == old(accounts).transaction.key
            &&& final(accounts).transaction.data@ == burned(
                old(accounts).transaction.data@,
                old(accounts).owner.key,
                event->Clock_0->Ok_0,
            )
        },
        !(final(execution).progress is Executed) ==> *final(accounts) == *old(accounts),
{
    let n: usize = accounts.transaction.data.instructions.len();
    let done: usize = match (execution.progress, event) {
        (Progress::Started, ExecutionEvent::Begin) => 0,
        (Progress::Invoking(i), ExecutionEvent::Invoked(Ok(()))) => if i < n {
            i + 1
        } else {
            execution.progress = Progress::Aborted;
            return ExecutionAction::Abort;
        },
        (Progress::Invoking(_), ExecutionEvent::Invoked(Err(error))) => {
            execution.progress = Progress::Aborted;
            return ExecutionAction::Fail(error);
        },
        (Progress::ReadingClock, ExecutionEvent::Clock(Ok(now))) => {
            accounts.transaction.data.executor = accounts.owner.key;
            accounts.transaction.data.executed_at = now;
            execution.progress = Progress::Executed;
            return ExecutionAction::Report(
                TransactionExecuteEvent {
                    smart_wallet: accounts.smart_wallet.key,
                    transaction: accounts.transaction.key,
                    executor: accounts.owner.key,
                    timestamp: now,
                },
            );
        },
        (Progress::ReadingClock, ExecutionEvent::Clock(Err(error))) => {
            execution.progress = Progress::Aborted;
            return ExecutionAction::Fail(error);
        },
        _ => {
            execution.progress = Progress::Aborted;
            return ExecutionAction::Abort;
        },
    };
    if done < n {
        execution.progress = Progress::Invoking(done);
        let signer_seeds = execution.signer_seeds.clone();
        assert forall|i: int| 0 <= i < signer_seeds@.len() implies (#[trigger] signer_seeds@[i])@
            == execution.signer_seeds@[i]@ by {
            assert(signer_seeds@[i]@ =~= execution.signer_seeds@[i]@);
        }
        assert(seed_bytes(signer_seeds@) =~= seed_bytes(execution.signer_seeds@));
        let instruction = accounts.transaction.data.instructions[done].clone();
        ExecutionAction::Invoke(Invocation { instruction, signer_seeds })
    } else {
        execution.progress = Progress::ReadingClock;
        ExecutionAction::ReadClock
    }
}

} // verus!
