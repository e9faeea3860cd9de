//! The per-task state machine the supervisor follows. Each host's task is
//! created, connects by launching the external client, streams that child's
//! output, and terminates — either because both streams were drained and the
//! child exited, or directly because the launch failed. The supervisor joins
//! every task and is done only when all of them are terminal.

use vstd::prelude::*;

verus! {

/// Where one host's task stands.
#[derive(Clone, Copy, Debug, PartialEq, Eq, Structural)]
pub enum TaskPhase {
    Created,
    Connecting,
    Streaming,
    Terminated,
}

/// What can happen to one host's task.
#[derive(Clone, Copy, Debug, PartialEq, Eq, Structural)]
pub enum TaskEvent {
    /// The supervisor hands the task its target and command.
    Start,
    /// The external client was launched and its pipes are readable.
    SpawnOk,
    /// The external client could not be launched; the failure was reported.
    SpawnFailed,
    /// Both output streams hit end-of-stream and the child exited.
    StreamsClosed,
}

/// The transition table: an event that does not belong to the current phase
/// changes nothing.
pub open spec fn step_spec(p: TaskPhase, e: TaskEvent) -> TaskPhase {
    match (p, e) {
        (TaskPhase::Created, TaskEvent::Start) => TaskPhase::Connecting,
        (TaskPhase::Connecting, TaskEvent::SpawnOk) => TaskPhase::Streaming,
        (TaskPhase::Connecting, TaskEvent::SpawnFailed) => TaskPhase::Terminated,
        (TaskPhase::Streaming, TaskEvent::StreamsClosed) => TaskPhase::Terminated,
        _ => p,
    }
}

/// Advances one task by one event.
pub fn step(p: TaskPhase, e: TaskEvent) -> (q: TaskPhase)
    ensures
        q == step_spec(p, e),
{
    match (p, e) {
        (TaskPhase::Created, TaskEvent::Start) => TaskPhase::Connecting,
        (TaskPhase::Connecting, TaskEvent::SpawnOk) => TaskPhase::Streaming,
        (TaskPhase::Connecting, TaskEvent::SpawnFailed) => TaskPhase::Terminated,
        (TaskPhase::Streaming, TaskEvent::StreamsClosed) => TaskPhase::Terminated,
        _ => p,
    }
}

/// A task in this phase is finished for good.
pub open spec fn is_terminal(p: TaskPhase) -> bool {
    p is Terminated
}

/// The phase a task reaches after a sequence of events.
pub open spec fn run_phases(p: TaskPhase, events: Seq<TaskEvent>) -> TaskPhase
    decreases events.len(),
{
    if events.len() == 0 {
        p
    } else {
        run_phases(step_spec(p, events[0]), events.drop_first())
    }
}

/// The two ways a task's life can play out in full: the launch succeeds and
/// both streams are later drained to the end, or the launch fails.
pub open spec fn complete_history(events: Seq<TaskEvent>) -> bool {
    events == seq![TaskEvent::Start, TaskEvent::SpawnOk, TaskEvent::StreamsClosed] || events
        == seq![TaskEvent::Start, TaskEvent::SpawnFailed]
}

/// Law: a terminated task stays terminated, whatever else arrives.
pub proof fn lemma_terminated_absorbing(events: Seq<TaskEvent>)
    ensures
        run_phases(TaskPhase::Terminated, events) == TaskPhase::Terminated,
    decreases events.len(),
{
    if events.len() > 0 {
        lemma_terminated_absorbing(events.drop_first());
    }
}

/// Law: either complete history leaves the task terminal — a failed launch
/// ends the task just as a fully drained child does.
pub proof fn lemma_complete_history_terminates(events: Seq<TaskEvent>)
    requires
        complete_history(events),
    ensures
        is_terminal(run_phases(TaskPhase::Created, events)),
{
    let rest = events.drop_first();
    if events == seq![TaskEvent::Start, TaskEvent::SpawnOk, TaskEvent::StreamsClosed] {
        assert(events[0] == TaskEvent::Start);
        assert(run_phases(TaskPhase::Created, events) == run_phases(TaskPhase::Connecting, rest));
        assert(rest[0] == TaskEvent::SpawnOk);
        assert(run_phases(TaskPhase::Connecting, rest) == run_phases(
            TaskPhase::Streaming,
            rest.drop_first(),
        ));
        assert(rest.drop_first()[0] == TaskEvent::StreamsClosed);
        assert(run_phases(TaskPhase::Streaming, rest.drop_first()) == run_phases(
            TaskPhase::Terminated,
            rest.drop_first().drop_first(),
        ));
        assert(rest.drop_first().drop_first().len() == 0);
        assert(run_phases(TaskPhase::Terminated, rest.drop_first().drop_first())
            == TaskPhase::Terminated);
    } else {
        assert(events[0] == TaskEvent::Start);
        assert(run_phases(TaskPhase::Created, events) == run_phases(TaskPhase::Connecting, rest));
        assert(rest[0] == TaskEvent::SpawnFailed);
        assert(run_phases(TaskPhase::Connecting, rest) == run_phases(
            TaskPhase::Terminated,
            rest.drop_first(),
        ));
        assert(rest.drop_first().len() == 0);
        assert(run_phases(TaskPhase::Terminated, rest.drop_first()) == TaskPhase::Terminated);
    }
}

/// Law: when every one of the N spawned tasks has run a complete history,
/// every one of them is terminal — so a join over all tasks returns only once
/// all N are finished, for any N, zero included.
pub proof fn lemma_fanout_all_terminate(histories: Seq<Seq<TaskEvent>>)
    requires
        forall|i: int| 0 <= i < histories.len() ==> complete_history(#[trigger] histories[i]),
    ensures
        forall|i: int|
            0 <= i < histories.len() ==> is_terminal(
                run_phases(TaskPhase::Created, #[trigger] histories[i]),
            ),
{
    assert forall|i: int| 0 <= i < histories.len() implies is_terminal(
        run_phases(TaskPhase::Created, #[trigger] histories[i]),
    ) by {
        lemma_complete_history_terminates(histories[i]);
    }
}

/// True exactly when every spawned task is finished; the supervisor may only
/// return once this holds of the whole fan-out.
pub fn all_terminal(phases: &Vec<TaskPhase>) -> (r: bool)
    ensures
        r == forall|i: int| 0 <= i < phases@.len() ==> is_terminal(#[trigger] phases@[i]),
{
    let n = phases.len();
    let mut i: usize = 0;
    while i < n
        invariant
            n == phases@.len(),
            0 <= i <= n,
            forall|j: int| 0 <= j < i ==> is_terminal(#[trigger] phases@[j]),
        decreases n - i,
    {
        if !matches!(phases[i], TaskPhase::Terminated) {
            return false;
        }
        i += 1;
    }
    true
}

} // verus!
