//! The rules of scheduling: what is returned, parked or polled again for
//! each answer that a processing unit, a computation or the queue can give.

use vstd::prelude::*;
use crate::error::ErrorCode;
use crate::task::ExecutingAsyncTask;
use crate::task::PollOutcome;

verus! {

/// The code returned when a task unit completes or is parked. It is
/// reserved for later signalling and carries no meaning yet.
pub const COMPLETION_CODE: usize = 0;

/// Where executing a task unit stands once the worker can go no further on
/// its own.
pub enum ExecutionStep<C> {
    /// Execution is over for this call, with this result.
    Finished(Result<usize, ErrorCode>),
    /// The computation is suspended. The task has to be offered to the shared
    /// queue as a park request of worker `worker_num`, and the queue's answer
    /// handed back to the context.
    Park { worker_num: usize, task: ExecutingAsyncTask<C> },
}

/// A round of scheduling as the collaborators answer it: what the poll
/// yields, and whether the queue accepts the park request. The queue is only
/// asked where the poll was pending.
pub ghost struct Round {
    pub polled: PollOutcome,
    pub parked: bool,
}

/// What a call has come to after some rounds.
pub ghost struct Schedule {
    /// The result handed to the caller; none while the call is still going.
    pub result: Option<Result<usize, ErrorCode>>,
    /// How often the computation was polled.
    pub polls: nat,
    /// How often the queue was asked to park the task.
    pub park_requests: nat,
}

/// The result of a unit whose step ended in `step`: the completion code on
/// success, the unit's own failure otherwise.
pub open spec fn completion(step: Result<(), ErrorCode>) -> Result<usize, ErrorCode> {
    match step {
        Ok(_) => Ok(COMPLETION_CODE),
        Err(cause) => Err(cause),
    }
}

/// What a poll settles: the result to return where the computation is over,
/// nothing where it is suspended and has to be offered to the queue.
pub open spec fn settled_by_poll(outcome: PollOutcome) -> Option<Result<usize, ErrorCode>> {
    match outcome {
        PollOutcome::Ready(step) => Some(completion(step)),
        PollOutcome::Pending => None,
    }
}

/// What the queue's answer to a park request settles: the result to return
/// where the task was parked, nothing where the queue handed the task back
/// because a wake had raced with the request.
pub open spec fn settled_by_park(parked: bool) -> Option<Result<usize, ErrorCode>> {
    if parked {
        Some(Ok(COMPLETION_CODE))
    } else {
        None
    }
}

/// The step that follows a poll of `task` by worker `worker_num`.
pub open spec fn step_after_poll<C>(
    worker_num: usize,
    task: ExecutingAsyncTask<C>,
    outcome: PollOutcome,
) -> ExecutionStep<C> {
    match settled_by_poll(outcome) {
        Some(result) => ExecutionStep::Finished(result),
        None => ExecutionStep::Park { worker_num, task },
    }
}

/// Whether `result` is the completion of some outcome of a blocking step.
pub open spec fn is_completion(result: Result<usize, ErrorCode>) -> bool {
    exists|step: Result<(), ErrorCode>| result == #[trigger] completion(step)
}

/// Whether `step` is what follows some poll, by worker `worker_num`, of a
/// task whose readiness flag is the one of `task`.
pub open spec fn follows_poll_of<C>(
    step: ExecutionStep<C>,
    worker_num: usize,
    task: ExecutingAsyncTask<C>,
) -> bool {
    exists|polled: ExecutingAsyncTask<C>, outcome: PollOutcome|
        polled.finished == task.finished && step == #[trigger] step_after_poll(
            worker_num,
            polled,
            outcome,
        )
}

/// What a call that schedules one computation comes to when its rounds are
/// answered by `rounds`, in order. The call ends with the first round that
/// settles a result; rounds after it are never played.
pub open spec fn schedule(rounds: Seq<Round>) -> Schedule
    decreases rounds.len(),
{
    if rounds.len() == 0 {
        Schedule { result: None, polls: 0, park_requests: 0 }
    } else {
        match settled_by_poll(rounds[0].polled) {
            Some(result) => Schedule { result: Some(result), polls: 1, park_requests: 0 },
            None => match settled_by_park(rounds[0].parked) {
                Some(result) => Schedule { result: Some(result), polls: 1, park_requests: 1 },
                None => {
                    let rest = schedule(rounds.skip(1));
                    Schedule {
                        result: rest.result,
                        polls: rest.polls + 1,
                        park_requests: rest.park_requests + 1,
                    }
                },
            },
        }
    }
}

/// Whether the poll of round `round` is pending and the queue rejects the
/// park request, handing the task back.
pub open spec fn is_rejected(round: Round) -> bool {
    round.polled is Pending && !round.parked
}

/// A round of [`schedule`] is one poll decided as [`after_poll`] decides,
/// followed, where that asks for a park, by one answer of the queue decided
/// as [`settled_by_park`] says: a result ends the call, and a rejected park
/// leads to the next round.
pub proof fn lemma_schedule_follows_steps<C>(
    worker_num: usize,
    task: ExecutingAsyncTask<C>,
    rounds: Seq<Round>,
)
    requires
        rounds.len() > 0,
    ensures
        match step_after_poll(worker_num, task, rounds[0].polled) {
            ExecutionStep::Finished(result) => schedule(rounds) == (Schedule {
                result: Some(result),
                polls: 1,
                park_requests: 0,
            }),
            ExecutionStep::Park { worker_num: asking, task: offered } => {
                &&& asking == worker_num
                &&& offered == task
                &&& match settled_by_park(rounds[0].parked) {
                    Some(result) => schedule(rounds) == (Schedule {
                        result: Some(result),
                        polls: 1,
                        park_requests: 1,
                    }),
                    None => schedule(rounds) == (Schedule {
                        result: schedule(rounds.skip(1)).result,
                        polls: schedule(rounds.skip(1)).polls + 1,
                        park_requests: schedule(rounds.skip(1)).park_requests + 1,
                    }),
                }
            },
        },
{
}

/// Executing a synchronous unit hands the outcome of the unit's step on
/// unchanged: success becomes the completion code, and a failure is
/// returned as the unit gave it.
pub proof fn lemma_sync_outcome_unchanged(step: Result<(), ErrorCode>)
    ensures
        step is Ok <==> completion(step) is Ok,
        step is Ok ==> completion(step) == Ok::<usize, ErrorCode>(COMPLETION_CODE),
        step matches Err(cause) ==> completion(step) == Err::<usize, ErrorCode>(cause),
{
}

/// A computation that succeeds on its first poll ends the call with the
/// completion code after that one poll, and the queue is never asked to park
/// it, whatever later rounds would have answered.
pub proof fn lemma_success_on_first_poll_never_parks(rounds: Seq<Round>)
    requires
        rounds.len() > 0,
        rounds[0].polled == PollOutcome::Ready(Ok(())),
    ensures
        schedule(rounds).result == Some(Ok::<usize, ErrorCode>(COMPLETION_CODE)),
        schedule(rounds).polls == 1,
        schedule(rounds).park_requests == 0,
{
}

/// A computation that fails on its first poll ends the call with that very
/// failure after that one poll, and the queue is never asked to park it.
pub proof fn lemma_failure_on_first_poll_never_parks(rounds: Seq<Round>, cause: ErrorCode)
    requires
        rounds.len() > 0,
        rounds[0].polled == PollOutcome::Ready(Err(cause)),
    ensures
        schedule(rounds).result == Some(Err::<usize, ErrorCode>(cause)),
        schedule(rounds).polls == 1,
        schedule(rounds).park_requests == 0,
{
}

/// Where the first poll is pending and the queue accepts the park, the call
/// returns the completion code to the caller, having polled once and asked
/// the queue once: the task is not polled again within the call.
pub proof fn lemma_accepted_park_ends_call(rounds: Seq<Round>)
    requires
        rounds.len() > 0,
        rounds[0].polled is Pending,
        rounds[0].parked,
    ensures
        schedule(rounds).result == Some(Ok::<usize, ErrorCode>(COMPLETION_CODE)),
        schedule(rounds).polls == 1,
        schedule(rounds).park_requests == 1,
{
}

/// Where the queue rejects the park, the call does not end: it goes on with
/// the next round, that is, with another poll of the same computation, and
/// comes to whatever the remaining rounds come to.
pub proof fn lemma_rejected_park_polls_again(rounds: Seq<Round>)
    requires
        rounds.len() > 0,
        is_rejected(rounds[0]),
    ensures
        schedule(rounds).result == schedule(rounds.skip(1)).result,
        schedule(rounds).polls == schedule(rounds.skip(1)).polls + 1,
        schedule(rounds).park_requests == schedule(rounds.skip(1)).park_requests + 1,
{
}

/// Any number of rejected parks in a row only adds as many polls and park
/// requests: the result of the call is that of the rounds after them.
pub proof fn lemma_rejected_parks_repeat(rounds: Seq<Round>, count: nat)
    requires
        count <= rounds.len(),
        forall|i: int| 0 <= i < count ==> is_rejected(#[trigger] rounds[i]),
    ensures
        schedule(rounds).result == schedule(rounds.skip(count as int)).result,
        schedule(rounds).polls == schedule(rounds.skip(count as int)).polls + count,
        schedule(rounds).park_requests == schedule(rounds.skip(count as int)).park_requests
            + count,
    decreases count,
{
    if count == 0 {
        assert(rounds.skip(0) =~= rounds);
    } else {
        let rest = rounds.skip(1);
        assert forall|i: int| 0 <= i < count - 1 implies is_rejected(#[trigger] rest[i]) by {
            assert(rest[i] == rounds[i + 1]);
        }
        lemma_rejected_parks_repeat(rest, (count - 1) as nat);
        assert(rest.skip(count - 1) =~= rounds.skip(count as int));
    }
}

/// While every park is rejected, nothing is reported to the caller: neither
/// a result nor that the task was parked.
pub proof fn lemma_rejected_parks_report_nothing(rounds: Seq<Round>)
    requires
        forall|i: int| 0 <= i < rounds.len() ==> is_rejected(#[trigger] rounds[i]),
    ensures
        schedule(rounds).result is None,
        schedule(rounds).polls == rounds.len(),
        schedule(rounds).park_requests == rounds.len(),
{
    lemma_rejected_parks_repeat(rounds, rounds.len());
    assert(rounds.skip(rounds.len() as int).len() == 0);
}

/// A call returns as soon as a round settles a result: it ends if and only
/// if some round is not a rejected park, and rounds after the first such
/// round do not matter.
pub proof fn lemma_call_ends_with_first_settled_round(rounds: Seq<Round>)
    ensures
        schedule(rounds).result is Some <==> exists|i: int|
            0 <= i < rounds.len() && !is_rejected(#[trigger] rounds[i]),
        schedule(rounds).polls <= rounds.len(),
        schedule(rounds).park_requests <= schedule(rounds).polls,
    decreases rounds.len(),
{
    if rounds.len() > 0 {
        let rest = rounds.skip(1);
        lemma_call_ends_with_first_settled_round(rest);
        if is_rejected(rounds[0]) {
            if schedule(rounds).result is Some {
                let i = choose|i: int| 0 <= i < rest.len() && !is_rejected(#[trigger] rest[i]);
                assert(!is_rejected(rounds[i + 1]));
            }
            if exists|i: int| 0 <= i < rounds.len() && !is_rejected(#[trigger] rounds[i]) {
                let i = choose|i: int| 0 <= i < rounds.len() && !is_rejected(#[trigger] rounds[i]);
                assert(!is_rejected(rest[i - 1]));
            }
        } else {
            assert(!is_rejected(rounds[0]));
        }
    }
}

/// Turns the outcome of a unit's blocking step into the result of executing
/// the unit.
pub fn complete_step(step: Result<(), ErrorCode>) -> (result: Result<usize, ErrorCode>)
    ensures
        result == completion(step),
{
    match step {
        Ok(_) => Ok(COMPLETION_CODE),
        Err(cause) => Err(cause),
    }
}

/// Decides what follows a poll: a computation that is over ends the call
/// with its completion and the task is released, a suspended one has to be
/// offered to the queue on behalf of worker `worker_num`.
pub fn after_poll<C>(worker_num: usize, task: ExecutingAsyncTask<C>, outcome: PollOutcome) -> (step:
    ExecutionStep<C>)
    ensures
        step == step_after_poll(worker_num, task, outcome),
{
    match outcome {
        PollOutcome::Ready(step) => ExecutionStep::Finished(complete_step(step)),
        PollOutcome::Pending => ExecutionStep::Park { worker_num, task },
    }
}

} // verus!
