//! Runs: what an execution has done by the time it is over.

use vstd::prelude::*;

use crate::accounts::ExecuteTransaction;
use crate::execution::{
    action_fits, failure, next_progress, progress_after, ExecutionAction, ExecutionEvent, Progress,
};
use crate::laws::records::law_seeds_are_taken_one_by_one;

verus! {

/// Where an execution of `n` instructions stands after `events`.
pub open spec fn run<E>(n: nat, events: Seq<ExecutionEvent<E>>) -> Progress
    decreases events.len(),
{
    if events.len() == 0 {
        Progress::Started
    } else {
        next_progress(n, run(n, events.drop_last()), events.last())
    }
}

/// Whether an instruction was invoked and succeeded.
pub open spec fn succeeded<E>(event: ExecutionEvent<E>) -> bool {
    event matches ExecutionEvent::Invoked(outcome) && outcome is Ok
}

/// Whether the clock was read.
pub open spec fn clock_read<E>(event: ExecutionEvent<E>) -> bool {
    event matches ExecutionEvent::Clock(outcome) && outcome is Ok
}

/// Whether a call failed.
pub open spec fn failed<E>(event: ExecutionEvent<E>) -> bool {
    match event {
        ExecutionEvent::Begin => false,
        ExecutionEvent::Invoked(outcome) => outcome is Err,
        ExecutionEvent::Clock(outcome) => outcome is Err,
    }
}

/// Whether `events` are the start of an execution and `done` successful instructions.
pub open spec fn all_succeeded<E>(events: Seq<ExecutionEvent<E>>, done: int) -> bool {
    &&& 0 <= done
    &&& events.len() == done + 1
    &&& events[0] is Begin
    &&& forall|k: int| 1 <= k < events.len() ==> succeeded(#[trigger] events[k])
}

/// What has happened when an execution stands at its present point.
proof fn lemma_run<E>(n: nat, events: Seq<ExecutionEvent<E>>)
    requires
        n <= usize::MAX,
    ensures
        run(n, events) is Started <==> events.len() == 0,
        run(n, events) is Invoking <==> events.len() <= n && all_succeeded(events, events.len() - 1),
        run(n, events) is Invoking ==> run(n, events)->Invoking_0 == events.len() - 1,
        run(n, events) is ReadingClock <==> all_succeeded(events, n as int),
        run(n, events) is Executed <==> {
            &&& events.len() > 0
            &&& clock_read(events.last())
            &&& all_succeeded(events.drop_last(), n as int)
        },
    decreases events.len(),
{
    if events.len() > 0 {
        let before = events.drop_last();
        lemma_run(n, before);
        assert(events.len() > 1 ==> before[0] == events[0]);
        assert forall|k: int| 1 <= k < before.len() implies before[k] == #[trigger] events[k] by {
        }
        assert(events.len() > 1 ==> (all_succeeded(events, events.len() - 1) <==> all_succeeded(
            before,
            before.len() - 1,
        ) && succeeded(events.last()))) by {
            if all_succeeded(before, before.len() - 1) && succeeded(events.last()) {
                assert forall|k: int| 1 <= k < events.len() implies succeeded(
                    #[trigger] events[k],
                ) by {
                    if k < before.len() {
                        assert(before[k] == events[k]);
                    }
                }
            }
        }
    }
}

/// An execution burns the transaction exactly if each of its instructions was invoked, once and in
/// order, and succeeded, and the clock was read. Where a call fails, nothing is burned.
pub proof fn law_burned_after_all_instructions<E>(n: nat, events: Seq<ExecutionEvent<E>>)
    requires
        n <= usize::MAX,
    ensures
        run(n, events) is Executed <==> {
            &&& events.len() == n + 2
            &&& events[0] is Begin
            &&& forall|k: int| 1 <= k <= n ==> succeeded(#[trigger] events[k])
            &&& clock_read(events[(n + 1) as int])
        },
        run(n, events) is Executed ==> forall|k: int|
            1 <= k <= n + 1 ==> #[trigger] run(n, events.take(k)) == progress_after(n, k - 1),
        (exists|k: int| 0 <= k < events.len() && failed(#[trigger] events[k])) ==> !(run(n, events)
            is Executed),
{
    lemma_run(n, events);
    if events.len() > 0 {
        let before = events.drop_last();
        if events.len() == n + 2 {
            assert(before[0] == events[0]);
            assert(events.last() == events[(n + 1) as int]);
            assert forall|k: int| 1 <= k < before.len() implies before[k] == #[trigger] events[k] by {
            }
        }
        if run(n, events) is Executed {
            assert forall|k: int| 1 <= k <= n + 1 implies #[trigger] run(n, events.take(k))
                == progress_after(n, k - 1) by {
                lemma_run(n, events.take(k));
                assert forall|j: int| 0 <= j < k implies #[trigger] events.take(k)[j]
                    == before[j] by {
                }
                assert(all_succeeded(events.take(k), k - 1));
            }
        }
    }
}

/// An execution whose instructions have succeeded so far, and then one of which fails, is over and
/// hands on the error of that instruction; and so it is with the clock.
pub proof fn law_first_error_is_handed_on<E>(
    n: nat,
    events: Seq<ExecutionEvent<E>>,
    done: int,
    error: E,
)
    requires
        n <= usize::MAX,
        all_succeeded(events, done),
        done <= n,
    ensures
        ({
            let event = if done < n {
                ExecutionEvent::Invoked(Err(error))
            } else {
                ExecutionEvent::Clock(Err(error))
            };
            &&& run(n, events.push(event)) is Aborted
            &&& failure(run(n, events), event) == Some(error)
        }),
{
    lemma_run(n, events);
    let event = if done < n {
        ExecutionEvent::Invoked(Err(error))
    } else {
        ExecutionEvent::Clock(Err(error))
    };
    assert(events.push(event).drop_last() =~= events);
}

/// Whether `actions` are what an execution of the transaction in `accounts`, signed with `seeds`, asks
/// for at each of `events`.
pub open spec fn asked_for<E>(
    accounts: ExecuteTransaction,
    seeds: Seq<Seq<u8>>,
    events: Seq<ExecutionEvent<E>>,
    actions: Seq<ExecutionAction<E>>,
) -> bool {
    let n = accounts.transaction.data.instructions@.len();
    &&& actions.len() == events.len()
    &&& forall|k: int|
        0 <= k < events.len() ==> action_fits(
            #[trigger] actions[k],
            accounts,
            seeds,
            run(n, events.take(k)),
            events[k],
        )
}

/// Whether `action` invokes the instruction that is stored at `i`: the same program, the same
/// accounts and the same data, signed with `seeds`.
pub open spec fn invokes_stored<E>(
    action: ExecutionAction<E>,
    accounts: ExecuteTransaction,
    seeds: Seq<Seq<u8>>,
    i: int,
) -> bool {
    let stored = accounts.transaction.data.instructions@[i];
    action matches ExecutionAction::Invoke(invocation) && {
        &&& invocation.instruction.program_id == stored.program_id
        &&& invocation.instruction.keys@ == stored.keys@
        &&& invocation.instruction.data@ == stored.data@
        &&& invocation.signer_seeds@.len() == seeds.len()
        &&& forall|j: int|
            0 <= j < seeds.len() ==> (#[trigger] invocation.signer_seeds@[j])@ == seeds[j]
    }
}

/// In every execution, successful or not, an action is an invocation exactly if all the instructions
/// before it have succeeded and there is one more; and then it is the next stored instruction that is
/// invoked, whole, with its program, its accounts and its data, signed with the seeds of the
/// execution.
pub proof fn law_stored_instructions_are_invoked_whole<E>(
    accounts: ExecuteTransaction,
    seeds: Seq<Seq<u8>>,
    events: Seq<ExecutionEvent<E>>,
    actions: Seq<ExecutionAction<E>>,
    k: int,
)
    requires
        asked_for(accounts, seeds, events, actions),
        0 <= k < actions.len(),
    ensures
        actions[k] is Invoke <==> k < accounts.transaction.data.instructions@.len()
            && all_succeeded(events.take(k + 1), k),
        actions[k] is Invoke ==> invokes_stored(actions[k], accounts, seeds, k),
{
    let n = accounts.transaction.data.instructions@.len();
    assert(n == accounts.transaction.data.instructions.len());
    let upto = events.take(k + 1);
    assert(upto.drop_last() =~= events.take(k));
    lemma_run(n, upto);
    assert(run(n, upto) == next_progress(n, run(n, events.take(k)), events[k]));
    assert(action_fits(actions[k], accounts, seeds, run(n, events.take(k)), events[k]));
    assert(accounts.transaction.data@.instructions.len() == n);
    if actions[k] is Invoke {
        let invocation = actions[k]->Invoke_0;
        assert(accounts.transaction.data@.instructions[k]
            == accounts.transaction.data.instructions@[k]@);
        law_seeds_are_taken_one_by_one(invocation.signer_seeds@, seeds);
    }
}

/// Where the instruction that an execution has just asked for fails, or the clock that it has asked
/// for cannot be read, its next action is to give up with the error of that call.
pub proof fn law_failed_call_ends_with_its_error<E>(
    accounts: ExecuteTransaction,
    seeds: Seq<Seq<u8>>,
    events: Seq<ExecutionEvent<E>>,
    actions: Seq<ExecutionAction<E>>,
    k: int,
)
    requires
        asked_for(accounts, seeds, events, actions),
        1 <= k < actions.len(),
    ensures
        actions[k - 1] is Invoke ==> (events[k] matches ExecutionEvent::Invoked(Err(error))
            ==> actions[k] == ExecutionAction::Fail(error)),
        actions[k - 1] is ReadClock ==> (events[k] matches ExecutionEvent::Clock(Err(error))
            ==> actions[k] == ExecutionAction::Fail(error)),
{
    let n = accounts.transaction.data.instructions@.len();
    assert(n == accounts.transaction.data.instructions.len());
    assert(accounts.transaction.data@.instructions.len() == n);
    assert(events.take(k).drop_last() =~= events.take(k - 1));
    assert(events.take(k).last() == events[k - 1]);
    assert(action_fits(
        actions[k - 1],
        accounts,
        seeds,
        run(n, events.take(k - 1)),
        events[k - 1],
    ));
    assert(action_fits(actions[k], accounts, seeds, run(n, events.take(k)), events[k]));
}

/// An execution that burns its transaction has invoked every stored instruction, once each, in their
/// order and whole; then it has read the clock, and last it has reported the wallet, the transaction,
/// the owner who executed it and the time that the clock gave.
pub proof fn law_execution_invokes_everything_stored<E>(
    accounts: ExecuteTransaction,
    seeds: Seq<Seq<u8>>,
    events: Seq<ExecutionEvent<E>>,
    actions: Seq<ExecutionAction<E>>,
)
    requires
        asked_for(accounts, seeds, events, actions),
        run(accounts.transaction.data.instructions@.len(), events) is Executed,
    ensures
        ({
            let n = accounts.transaction.data.instructions@.len();
            &&& actions.len() == n + 2
            &&& forall|i: int|
                0 <= i < n ==> invokes_stored(#[trigger] actions[i], accounts, seeds, i)
            &&& actions[n as int] is ReadClock
            &&& actions[(n + 1) as int] matches ExecutionAction::Report(event) && {
                &&& event.smart_wallet == accounts.smart_wallet.key
                &&& event.transaction == accounts.transaction.key
                &&& event.executor == accounts.owner.key
                &&& events[(n + 1) as int] matches ExecutionEvent::Clock(outcome)
                &&& outcome == Ok::<i64, E>(event.timestamp)
            }
        }),
{
    let n = accounts.transaction.data.instructions@.len();
    assert(n == accounts.transaction.data.instructions.len());
    law_burned_after_all_instructions(n, events);
    assert forall|i: int| 0 <= i < n implies invokes_stored(
        #[trigger] actions[i],
        accounts,
        seeds,
        i,
    ) by {
        law_stored_instructions_are_invoked_whole(accounts, seeds, events, actions, i);
        let upto = events.take(i + 1);
        assert(upto[0] == events[0]);
        assert forall|j: int| 1 <= j < upto.len() implies succeeded(#[trigger] upto[j]) by {
            assert(upto[j] == events[j]);
        }
        assert(all_succeeded(upto, i));
    }
    let last = n as int;
    assert(accounts.transaction.data@.instructions.len() == n);
    assert(events.take(last + 1).drop_last() =~= events.take(last));
    assert(run(n, events.take(last + 1)) == progress_after(n, last));
    assert(action_fits(actions[last], accounts, seeds, run(n, events.take(last)), events[last]));
    assert(events.take(last + 1) =~= events.drop_last());
    assert(action_fits(
        actions[last + 1],
        accounts,
        seeds,
        run(n, events.take(last + 1)),
        events[last + 1],
    ));
}

} // verus!
