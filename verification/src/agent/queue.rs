//! The per-session task queue: which task runs next, and how the session's
//! status and pending tasks change as tasks succeed, fail, are cancelled or
//! retried.
use vstd::prelude::*;
use crate::text::{chars_of, push_str, same_text, string_of};

verus! {

/// The stored queue state of a session: its status and its pending tasks.
pub struct SessionQueue {
    pub status: String,
    pub pending: Vec<String>,
}

/// The texts of a list of strings.
pub open spec fn texts(v: Seq<String>) -> Seq<Seq<char>> {
    v.map_values(|s: String| s@)
}

impl View for SessionQueue {
    type V = (Seq<char>, Seq<Seq<char>>);

    open spec fn view(&self) -> (Seq<char>, Seq<Seq<char>>) {
        (self.status@, texts(self.pending@))
    }
}

/// What the queue runner does next.
pub enum QueueStep {
    /// Every task has run: stop.
    Done,
    /// The session is no longer processing (cancelled, failed): stop.
    Halt,
    /// Execute the given task next.
    Run { task: String },
}

/// The model of a `QueueStep`.
pub enum QueueStepView {
    Done,
    Halt,
    Run(Seq<char>),
}

impl View for QueueStep {
    type V = QueueStepView;

    open spec fn view(&self) -> QueueStepView {
        match self {
            QueueStep::Done => QueueStepView::Done,
            QueueStep::Halt => QueueStepView::Halt,
            QueueStep::Run { task } => QueueStepView::Run(task@),
        }
    }
}

/// Why a retry was refused.
#[derive(PartialEq, Eq, Structural)]
pub enum QueueError {
    /// There are no pending tasks to run again.
    NothingToRetry,
}

/// The next step for the remaining `tasks` when the stored status is
/// `status`: done when no task is left, halt unless the session is still
/// `processing`, else run the first task.
pub open spec fn next_step_spec(tasks: Seq<Seq<char>>, status: Seq<char>) -> QueueStepView {
    if tasks.len() == 0 {
        QueueStepView::Done
    } else if status != "processing"@ {
        QueueStepView::Halt
    } else {
        QueueStepView::Run(tasks[0])
    }
}

/// The remaining tasks and the stored status after the first task succeeded.
pub open spec fn after_success(tasks: Seq<Seq<char>>) -> (Seq<Seq<char>>, Seq<char>) {
    let rest = tasks.drop_first();
    (
        rest,
        if rest.len() == 0 {
            "completed"@
        } else {
            "processing"@
        },
    )
}

/// The queue after `k` successful tasks.
pub open spec fn drained(tasks: Seq<Seq<char>>, k: nat) -> Seq<Seq<char>>
    decreases k,
{
    if k == 0 {
        tasks
    } else {
        after_success(drained(tasks, (k - 1) as nat)).0
    }
}

/// The state after tasks were queued: processing them.
pub open spec fn queued_spec(tasks: Seq<Seq<char>>) -> (Seq<char>, Seq<Seq<char>>) {
    ("processing"@, tasks)
}

/// The state after a cancellation: cancelled, with nothing pending.
pub open spec fn cancelled_spec() -> (Seq<char>, Seq<Seq<char>>) {
    ("cancelled"@, Seq::empty())
}

/// The outcome of a retry on state `s`.
pub open spec fn retried_spec(s: (Seq<char>, Seq<Seq<char>>)) -> Result<(Seq<char>, Seq<Seq<char>>), QueueError> {
    if s.1.len() == 0 {
        Err(QueueError::NothingToRetry)
    } else {
        Ok(("processing"@, s.1))
    }
}

/// The status stored when a queue run starts with `tasks`: an empty queue is
/// marked completed at once.
pub fn start_status(tasks: &Vec<String>) -> (r: Option<String>)
    ensures
        tasks.len() == 0 ==> (r matches Some(s) && s@ == "completed"@),
        tasks.len() != 0 ==> r is None,
{
    if tasks.len() == 0 {
        Some(string_of(&chars_of("completed")))
    } else {
        None
    }
}

/// The next step of the queue runner (see `next_step_spec`); `status` is the
/// session status as stored now.
pub fn next_queue_step(tasks: &Vec<String>, status: &str) -> (r: QueueStep)
    ensures
        r@ == next_step_spec(texts(tasks@), status@),
{
    if tasks.len() == 0 {
        QueueStep::Done
    } else if !same_text(status, "processing") {
        QueueStep::Halt
    } else {
        QueueStep::Run { task: string_of(&chars_of(tasks[0].as_str())) }
    }
}

/// Drops the task that just succeeded and returns the status to store.
pub fn complete_first_task(tasks: &mut Vec<String>) -> (status: String)
    requires
        old(tasks).len() > 0,
    ensures
        (texts(final(tasks)@), status@) == after_success(texts(old(tasks)@)),
{
    tasks.remove(0);
    assert(texts(tasks@) =~= texts(old(tasks)@).drop_first());
    if tasks.len() == 0 {
        string_of(&chars_of("completed"))
    } else {
        string_of(&chars_of("processing"))
    }
}

/// The assistant message and the status stored when a task failed with
/// `error`: `Error executing task: {error}`, and `error`.
pub fn fail_task(error: &str) -> (r: (String, String))
    ensures
        r.0@ == "Error executing task: "@ + error@,
        r.1@ == "error"@,
{
    let mut m = chars_of("Error executing task: ");
    push_str(&mut m, error);
    (string_of(&m), string_of(&chars_of("error")))
}

/// Queues `tasks` on the session and marks it processing.
pub fn queue_tasks(session: &mut SessionQueue, tasks: Vec<String>)
    ensures
        final(session)@ == queued_spec(texts(tasks@)),
{
    session.status = string_of(&chars_of("processing"));
    session.pending = tasks;
}

/// Cancels the session: it is marked cancelled and its pending tasks cleared.
pub fn cancel_session(session: &mut SessionQueue)
    ensures
        final(session)@ == cancelled_spec(),
{
    session.status = string_of(&chars_of("cancelled"));
    session.pending = Vec::new();
    assert(texts(session.pending@) =~= Seq::<Seq<char>>::empty());
}

/// Starts the pending tasks again: refused when nothing is pending; else the
/// session is marked processing and its tasks are kept.
pub fn retry_session(session: &mut SessionQueue) -> (r: Result<(), QueueError>)
    ensures
        match retried_spec(old(session)@) {
            Err(e) => r == Err::<(), QueueError>(e) && final(session)@ == old(session)@,
            Ok(s) => r is Ok && final(session)@ == s,
        },
{
    if session.pending.len() == 0 {
        return Err(QueueError::NothingToRetry);
    }
    session.status = string_of(&chars_of("processing"));
    Ok(())
}

/// After `k` successful tasks the queue holds the tasks after the first `k`,
/// and the status stored with the `k`-th success is `completed` exactly
/// when no task is left.
pub proof fn law_successes_drain_queue(tasks: Seq<Seq<char>>, k: nat)
    requires
        k <= tasks.len(),
    ensures
        drained(tasks, k) == tasks.skip(k as int),
        k > 0 ==> (after_success(drained(tasks, (k - 1) as nat)).1 == "completed"@ <==> k
            == tasks.len()),
    decreases k,
{
    reveal_strlit("completed");
    reveal_strlit("processing");
    assert("completed"@.len() != "processing"@.len());
    if k == 0 {
        assert(tasks.skip(0) =~= tasks);
    } else {
        law_successes_drain_queue(tasks, (k - 1) as nat);
        assert(tasks.skip(k - 1).drop_first() =~= tasks.skip(k as int));
    }
}

/// Queued tasks run in order: right after queueing, the runner runs the
/// first queued task, and after each success the next one.
pub proof fn law_queued_tasks_run_in_order(tasks: Seq<Seq<char>>, k: nat)
    requires
        k < tasks.len(),
    ensures
        next_step_spec(drained(queued_spec(tasks).1, k), queued_spec(tasks).0)
            == QueueStepView::Run(tasks[k as int]),
{
    law_successes_drain_queue(tasks, k);
}

/// A cancelled session halts the runner, whatever tasks it still holds, and
/// a retry after a cancellation is refused.
pub proof fn law_cancel_halts(local: Seq<Seq<char>>)
    requires
        local.len() > 0,
    ensures
        next_step_spec(local, cancelled_spec().0) == QueueStepView::Halt,
        retried_spec(cancelled_spec()) == Err::<(Seq<char>, Seq<Seq<char>>), QueueError>(
            QueueError::NothingToRetry,
        ),
{
    reveal_strlit("cancelled");
    reveal_strlit("processing");
    assert("cancelled"@.len() != "processing"@.len());
}

/// A failure leaves the pending tasks in place, so a retry runs the failed
/// task again first.
pub proof fn law_retry_reruns_failed_task(pending: Seq<Seq<char>>)
    requires
        pending.len() > 0,
    ensures
        (retried_spec(("error"@, pending)) matches Ok(s) && next_step_spec(s.1, s.0)
            == QueueStepView::Run(pending[0])),
{
}

} // verus!
