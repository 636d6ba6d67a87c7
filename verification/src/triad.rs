//! The asynchronous triad's runtime discipline, as an executable model: a
//! strictly single-threaded cooperative scheduler, abortable units of work
//! polled at explicit suspension points, an opaque completion-result
//! container produced once and consumed exactly once, and the
//! start / finish / blocking-sync call forms built on them.

use vstd::pervasive::VecAdditionalExecFns;
use vstd::prelude::*;

use crate::marshal::{spec_sentinel, CValue, MarshalType};

verus! {

/// The operation body's own outcome: a success payload or a failure code.
#[derive(Clone, Copy, Debug, PartialEq, Eq, Structural)]
pub enum OpOutcome {
    Done(i64),
    Failed(u32),
}

/// The terminal state of one start invocation: the body's outcome, or the
/// distinguished cancelled state when an abort took effect.
#[derive(Clone, Copy, Debug, PartialEq, Eq, Structural)]
pub enum TaskOutcome {
    Done(i64),
    Failed(u32),
    Cancelled,
}

/// The error an operation reports through the out-parameter: its own
/// failure code, or the distinguished cancellation kind.
#[derive(Clone, Copy, Debug, PartialEq, Eq, Structural)]
pub enum OperationError {
    Cancelled,
    Code(u32),
}

/// One asynchronous body as the scheduler sees it: how many suspension
/// points it passes before its outcome is ready, and that outcome. The
/// body itself is opaque to the triad; only its suspension structure and
/// final outcome matter.
#[derive(Clone, Copy, Debug, PartialEq, Eq, Structural)]
pub struct AsyncBody {
    pub suspensions: usize,
    pub outcome: OpOutcome,
}

/// A cancellation token: the poll slot before which cancellation is
/// signaled, if it ever is. Slot zero means the token is signaled before
/// the body is first polled.
#[derive(Clone, Copy, Debug, PartialEq, Eq)]
pub struct CancelToken {
    pub signal_at: Option<usize>,
}

/// The body's outcome as a terminal state.
pub open spec fn spec_normal(o: OpOutcome) -> TaskOutcome {
    match o {
        OpOutcome::Done(v) => TaskOutcome::Done(v),
        OpOutcome::Failed(c) => TaskOutcome::Failed(c),
    }
}

/// The one terminal state a start invocation reaches: cancellation is
/// cooperative, so it takes effect only if signaled at or before the
/// body's last suspension point; work already past its last suspension
/// point runs to completion.
pub open spec fn spec_resolved(body: AsyncBody, cancel: CancelToken) -> TaskOutcome {
    match cancel.signal_at {
        Some(s) => if s <= body.suspensions {
            TaskOutcome::Cancelled
        } else {
            spec_normal(body.outcome)
        },
        None => spec_normal(body.outcome),
    }
}

/// The opaque completion-result container: produced once when a task
/// reaches its terminal state, consumed exactly once by `finish` — the
/// consumption is by move, so a second unwrap cannot be written.
#[derive(Debug)]
pub struct CompletionResult {
    outcome: TaskOutcome,
}

impl View for CompletionResult {
    type V = TaskOutcome;

    closed spec fn view(&self) -> TaskOutcome {
        self.outcome
    }
}

impl CompletionResult {
    /// Package a terminal state.
    pub fn package(outcome: TaskOutcome) -> (r: CompletionResult)
        ensures
            r@ == outcome,
    {
        CompletionResult { outcome }
    }

    /// Consume the container, yielding the packaged terminal state.
    pub fn unwrap(self) -> (r: TaskOutcome)
        ensures
            r == self@,
    {
        self.outcome
    }
}

/// One scheduled unit of work.
#[derive(Debug)]
pub struct Task {
    pub body: AsyncBody,
    pub cancel: CancelToken,
    /// How many polls the task has been through.
    pub polls_done: usize,
    /// The packaged terminal state, present from completion until the
    /// caller takes it.
    pub result: Option<CompletionResult>,
    /// Whether the completion callback has fired; it fires exactly once,
    /// when the terminal state is fixed.
    pub callback_fired: bool,
}

/// A task's internal consistency: a packaged result carries exactly the
/// resolved terminal state; a task whose callback has not fired is still
/// pending, has not yet passed its completing poll, and has not yet
/// observed a cancellation signal.
pub open spec fn spec_task_wf(t: Task) -> bool {
    &&& t.polls_done <= t.body.suspensions + 1
    &&& (t.result matches Some(cr) ==> t.callback_fired && cr@ == spec_resolved(t.body, t.cancel))
    &&& (!t.callback_fired ==> t.result is None && t.polls_done <= t.body.suspensions && (match t
        .cancel
        .signal_at {
        Some(s) => s >= t.polls_done,
        None => true,
    }))
}

/// How many polls a task still needs before completing.
pub open spec fn spec_task_remaining(t: Task) -> nat {
    if t.callback_fired {
        0
    } else {
        (t.body.suspensions - t.polls_done + 1) as nat
    }
}

/// How often a task id occurs in the completion log.
pub open spec fn spec_count(log: Seq<usize>, id: int) -> nat
    decreases log.len(),
{
    if log.len() == 0 {
        0
    } else {
        spec_count(log.drop_last(), id) + (if log.last() as int == id {
            1nat
        } else {
            0nat
        })
    }
}

/// One occurrence more after logging `x`, for `x` only.
proof fn lemma_count_push(log: Seq<usize>, x: usize, id: int)
    ensures
        spec_count(log.push(x), id) == spec_count(log, id) + (if x as int == id {
            1int
        } else {
            0int
        }),
{
    assert(log.push(x).drop_last() =~= log);
    assert(log.push(x).last() == x);
}

/// An id that occurs nowhere in the log has count zero.
proof fn lemma_count_absent(log: Seq<usize>, id: int)
    requires
        forall|j: int| 0 <= j < log.len() ==> (#[trigger] log[j]) as int != id,
    ensures
        spec_count(log, id) == 0,
    decreases log.len(),
{
    if log.len() > 0 {
        assert(log.last() == log[log.len() - 1]);
        assert forall|j: int| 0 <= j < log.drop_last().len() implies (#[trigger] log.drop_last()[j])
            as int != id by {
            assert(log.drop_last()[j] == log[j]);
        }
        lemma_count_absent(log.drop_last(), id);
    }
}

/// The strictly single-threaded cooperative scheduler: a queue of tasks
/// polled at suspension-point granularity, and the log of completion
/// callbacks in firing order.
pub struct Scheduler {
    pub tasks: Vec<Task>,
    pub log: Vec<usize>,
}

/// The scheduler's invariant: every task is internally consistent, the
/// log names only scheduled tasks, and each task's callback appears in
/// the log exactly once once it has fired — and never before.
pub open spec fn spec_sched_wf(s: Scheduler) -> bool {
    &&& (forall|i: int| 0 <= i < s.tasks@.len() ==> spec_task_wf(#[trigger] s.tasks@[i]))
    &&& (forall|j: int| 0 <= j < s.log@.len() ==> ((#[trigger] s.log@[j]) as int) < s.tasks@.len())
    &&& (forall|i: int|
        0 <= i < s.tasks@.len() ==> spec_count(s.log@, i) == (if s.tasks@[i].callback_fired {
            1nat
        } else {
            0nat
        }))
}

impl Scheduler {
    /// A fresh scheduler with nothing scheduled.
    pub fn new() -> (r: Scheduler)
        ensures
            spec_sched_wf(r),
            r.tasks@.len() == 0,
            r.log@.len() == 0,
    {
        Scheduler { tasks: Vec::new(), log: Vec::new() }
    }

    /// Start one operation: schedule its body as a cooperatively polled
    /// unit of work. The completion callback never fires inside `start`
    /// itself — the task is only scheduled, with no poll done — so the
    /// callback is never invoked before `start` returns to its caller.
    pub fn start(&mut self, body: AsyncBody, cancel: CancelToken) -> (id: usize)
        requires
            spec_sched_wf(*old(self)),
        ensures
            spec_sched_wf(*final(self)),
            id == old(self).tasks@.len(),
            final(self).tasks@ == old(self).tasks@.push(
                Task { body, cancel, polls_done: 0, result: None, callback_fired: false },
            ),
            final(self).log@ == old(self).log@,
    {
        let id = self.tasks.len();
        self.tasks.push(Task { body, cancel, polls_done: 0, result: None, callback_fired: false });
        proof {
            assert forall|i: int| 0 <= i < self.tasks@.len() implies spec_task_wf(
                #[trigger] self.tasks@[i],
            ) by {
                if i < old(self).tasks@.len() {
                    assert(self.tasks@[i] == old(self).tasks@[i]);
                }
            }
            assert forall|i: int|
                0 <= i < self.tasks@.len() implies spec_count(self.log@, i) == (
            if self.tasks@[i].callback_fired {
                1nat
            } else {
                0nat
            }) by {
                if i < old(self).tasks@.len() {
                    assert(self.tasks@[i] == old(self).tasks@[i]);
                } else {
                    assert forall|j: int|
                        0 <= j < self.log@.len() implies (#[trigger] self.log@[j]) as int != i by {
                        assert((self.log@[j] as int) < old(self).tasks@.len());
                    }
                    lemma_count_absent(self.log@, i);
                }
            }
        }
        id
    }

    /// Poll one pending task: the cooperative step. An abort is observed
    /// first — cancellation only takes effect at a suspension point — then
    /// the body completes if it is past its last suspension point, and
    /// otherwise suspends once more. On completion the terminal state is
    /// packaged and the completion callback fires, exactly then.
    pub fn poll(&mut self, id: usize)
        requires
            spec_sched_wf(*old(self)),
            id < old(self).tasks@.len(),
            !old(self).tasks@[id as int].callback_fired,
        ensures
            spec_sched_wf(*final(self)),
            final(self).tasks@.len() == old(self).tasks@.len(),
            forall|j: int|
                0 <= j < old(self).tasks@.len() && j != id ==> final(self).tasks@[j] == old(self).tasks@[j],
            final(self).tasks@[id as int].body == old(self).tasks@[id as int].body,
            final(self).tasks@[id as int].cancel == old(self).tasks@[id as int].cancel,
            spec_task_remaining(final(self).tasks@[id as int]) < spec_task_remaining(
                old(self).tasks@[id as int],
            ),
            final(self).tasks@[id as int].callback_fired ==> final(self).log@ == old(self).log@.push(id),
            final(self).tasks@[id as int].callback_fired ==> final(self).tasks@[id as int].result is Some,
            !final(self).tasks@[id as int].callback_fired ==> final(self).log@ == old(self).log@,
    {
        let body = self.tasks[id].body;
        let cancel = self.tasks[id].cancel;
        let polls_done = self.tasks[id].polls_done;
        let cancelled_now: bool = match cancel.signal_at {
            Some(s) => s <= polls_done,
            None => false,
        };
        if cancelled_now || polls_done == body.suspensions {
            let outcome = if cancelled_now {
                TaskOutcome::Cancelled
            } else {
                match body.outcome {
                    OpOutcome::Done(v) => TaskOutcome::Done(v),
                    OpOutcome::Failed(c) => TaskOutcome::Failed(c),
                }
            };
            proof {
                assert(outcome == spec_resolved(body, cancel));
            }
            let done = Task {
                body,
                cancel,
                polls_done,
                result: Some(CompletionResult::package(outcome)),
                callback_fired: true,
            };
            self.tasks.set(id, done);
            let ghost pre_log = self.log@;
            self.log.push(id);
            proof {
                assert forall|i: int|
                    0 <= i < self.tasks@.len() implies spec_count(self.log@, i) == (
                if self.tasks@[i].callback_fired {
                    1nat
                } else {
                    0nat
                }) by {
                    lemma_count_push(pre_log, id, i);
                    if i != id {
                        assert(self.tasks@[i] == old(self).tasks@[i]);
                    }
                }
            }
        } else {
            let stepped = Task {
                body,
                cancel,
                polls_done: polls_done + 1,
                result: None,
                callback_fired: false,
            };
            self.tasks.set(id, stepped);
            proof {
                assert forall|i: int|
                    0 <= i < self.tasks@.len() implies spec_count(self.log@, i) == (
                if self.tasks@[i].callback_fired {
                    1nat
                } else {
                    0nat
                }) by {
                    if i != id {
                        assert(self.tasks@[i] == old(self).tasks@[i]);
                    }
                }
            }
        }
    }

    /// Drive every pending task to completion. Afterwards every task has
    /// reached exactly one terminal state — the one its own body and
    /// token resolve to — and every completion callback has fired exactly
    /// once, as the log counts witness.
    pub fn run(&mut self)
        requires
            spec_sched_wf(*old(self)),
        ensures
            spec_sched_wf(*final(self)),
            final(self).tasks@.len() == old(self).tasks@.len(),
            forall|i: int|
                0 <= i < old(self).tasks@.len() ==> (#[trigger] final(self).tasks@[i]).body == old(self).tasks@[i].body && final(self).tasks@[i].cancel == old(self).tasks@[i].cancel,
            forall|i: int|
                0 <= i < old(self).tasks@.len() ==> (#[trigger] final(self).tasks@[i]).callback_fired,
            forall|i: int|
                0 <= i < old(self).tasks@.len() && !old(self).tasks@[i].callback_fired ==> ((
                #[trigger] final(self).tasks@[i]).result matches Some(cr) && cr@ == spec_resolved(
                    old(self).tasks@[i].body,
                    old(self).tasks@[i].cancel,
                )),
            forall|i: int|
                0 <= i < old(self).tasks@.len() && old(self).tasks@[i].callback_fired ==> final(self).tasks@[i] == old(self).tasks@[i],
            forall|i: int| 0 <= i < old(self).tasks@.len() ==> spec_count(final(self).log@, i) == 1,
    {
        let n = self.tasks.len();
        let mut id: usize = 0;
        while id < n
            invariant
                spec_sched_wf(*self),
                n == old(self).tasks@.len(),
                self.tasks@.len() == n,
                id <= n,
                forall|j: int| id <= j < n ==> #[trigger] self.tasks@[j] == old(self).tasks@[j],
                forall|j: int|
                    0 <= j < id ==> (#[trigger] self.tasks@[j]).body == old(self).tasks@[j].body
                        && self.tasks@[j].cancel == old(self).tasks@[j].cancel,
                forall|j: int| 0 <= j < id ==> (#[trigger] self.tasks@[j]).callback_fired,
                forall|j: int|
                    0 <= j < id && !old(self).tasks@[j].callback_fired ==> ((
                    #[trigger] self.tasks@[j]).result matches Some(cr) && cr@ == spec_resolved(
                        old(self).tasks@[j].body,
                        old(self).tasks@[j].cancel,
                    )),
                forall|j: int|
                    0 <= j < id && old(self).tasks@[j].callback_fired ==> #[trigger] self.tasks@[j]
                        == old(self).tasks@[j],
            decreases n - id,
        {
            while !self.tasks[id].callback_fired
                invariant
                    spec_sched_wf(*self),
                    self.tasks@.len() == n,
                    id < n,
                    forall|j: int| id < j < n ==> #[trigger] self.tasks@[j] == old(self).tasks@[j],
                    forall|j: int|
                        0 <= j < id ==> (#[trigger] self.tasks@[j]).body == old(self).tasks@[j].body && self.tasks@[j].cancel == old(self).tasks@[j].cancel,
                    forall|j: int| 0 <= j < id ==> (#[trigger] self.tasks@[j]).callback_fired,
                    forall|j: int|
                        0 <= j < id && !old(self).tasks@[j].callback_fired ==> ((
                        #[trigger] self.tasks@[j]).result matches Some(cr) && cr@ == spec_resolved(
                            old(self).tasks@[j].body,
                            old(self).tasks@[j].cancel,
                        )),
                    forall|j: int|
                        0 <= j < id && old(self).tasks@[j].callback_fired ==> #[trigger] self
                            .tasks@[j] == old(self).tasks@[j],
                    self.tasks@[id as int].body == old(self).tasks@[id as int].body,
                    self.tasks@[id as int].cancel == old(self).tasks@[id as int].cancel,
                    !self.tasks@[id as int].callback_fired ==> !old(self).tasks@[id as int].callback_fired,
                    old(self).tasks@[id as int].callback_fired ==> self.tasks@[id as int] == old(self).tasks@[id as int],
                    !old(self).tasks@[id as int].callback_fired ==> (self.tasks@[id as int].callback_fired
                        ==> self.tasks@[id as int].result is Some),
                decreases spec_task_remaining(self.tasks@[id as int]),
            {
                self.poll(id);
            }
            id = id + 1;
        }
    }

    /// Take a completed task's completion-result out of the scheduler:
    /// from here on the container's ownership enforces single
    /// consumption.
    pub fn take_result(&mut self, id: usize) -> (cr: CompletionResult)
        requires
            spec_sched_wf(*old(self)),
            id < old(self).tasks@.len(),
            old(self).tasks@[id as int].result is Some,
        ensures
            spec_sched_wf(*final(self)),
            cr@ == spec_resolved(
                old(self).tasks@[id as int].body,
                old(self).tasks@[id as int].cancel,
            ),
            final(self).tasks@.len() == old(self).tasks@.len(),
            forall|j: int|
                0 <= j < old(self).tasks@.len() && j != id ==> final(self).tasks@[j] == old(self).tasks@[j],
            final(self).tasks@[id as int].result is None,
            final(self).log@ == old(self).log@,
    {
        let body = self.tasks[id].body;
        let cancel = self.tasks[id].cancel;
        let polls_done = self.tasks[id].polls_done;
        let callback_fired = self.tasks[id].callback_fired;
        let mut slot = Task { body, cancel, polls_done, result: None, callback_fired };
        self.tasks.set_and_swap(id, &mut slot);
        proof {
            assert forall|i: int|
                0 <= i < self.tasks@.len() implies spec_count(self.log@, i) == (
            if self.tasks@[i].callback_fired {
                1nat
            } else {
                0nat
            }) by {
                if i != id {
                    assert(self.tasks@[i] == old(self).tasks@[i]);
                }
            }
        }
        match slot.result {
            Some(cr) => cr,
            None => {
                proof {
                    assert(false);
                }
                CompletionResult::package(TaskOutcome::Cancelled)
            },
        }
    }
}

/// What `finish` returns for a terminal state: the converted payload on
/// success; on failure or cancellation, the return type's sentinel and —
/// where an error slot was passed — the error object, carrying the
/// distinguished cancellation kind when the operation was aborted.
pub open spec fn spec_finish(o: TaskOutcome, slot_present: bool) -> (CValue, Option<
    OperationError,
>) {
    match o {
        TaskOutcome::Done(v) => (CValue::Int(v), None),
        TaskOutcome::Failed(c) => (
            spec_sentinel(MarshalType::I64),
            if slot_present {
                Some(OperationError::Code(c))
            } else {
                None
            },
        ),
        TaskOutcome::Cancelled => (
            spec_sentinel(MarshalType::I64),
            if slot_present {
                Some(OperationError::Cancelled)
            } else {
                None
            },
        ),
    }
}

/// Unwrap one completion-result — it must be the one its matching start
/// produced, and it is consumed here — then convert the payload or relay
/// the error, exactly as the synchronous relay does.
pub fn finish(cr: CompletionResult, slot_present: bool) -> (r: (CValue, Option<OperationError>))
    ensures
        r == spec_finish(cr@, slot_present),
{
    match cr.unwrap() {
        TaskOutcome::Done(v) => (CValue::Int(v), None),
        TaskOutcome::Failed(c) => (
            crate::marshal::c_error_value(&MarshalType::I64),
            if slot_present {
                Some(OperationError::Code(c))
            } else {
                None
            },
        ),
        TaskOutcome::Cancelled => (
            crate::marshal::c_error_value(&MarshalType::I64),
            if slot_present {
                Some(OperationError::Cancelled)
            } else {
                None
            },
        ),
    }
}

/// What the blocking wrapper returns.
pub open spec fn spec_sync_result(body: AsyncBody, cancel: CancelToken, slot_present: bool) -> (
    CValue,
    Option<OperationError>,
) {
    spec_finish(spec_resolved(body, cancel), slot_present)
}

/// The blocking call form: a private, single-use scheduler — never the
/// ambient one — is built for this one call, the operation is started on
/// it, the private scheduler is driven until the completion callback has
/// recorded the result, and the recorded result is handed to `finish`.
pub fn sync_call(body: AsyncBody, cancel: CancelToken, slot_present: bool) -> (r: (
    CValue,
    Option<OperationError>,
))
    ensures
        r == spec_sync_result(body, cancel, slot_present),
{
    let mut private_loop = Scheduler::new();
    let id = private_loop.start(body, cancel);
    private_loop.run();
    let cr = private_loop.take_result(id);
    finish(cr, slot_present)
}

/// Sync ≡ start+finish: for any body, token and error-slot choice, the
/// blocking wrapper's result is exactly what a start invocation followed
/// by `finish` on its own completion-result yields — both are the
/// conversion of the one resolved terminal state.
pub proof fn lemma_sync_equals_start_finish(
    body: AsyncBody,
    cancel: CancelToken,
    slot_present: bool,
)
    ensures
        spec_sync_result(body, cancel, slot_present) == spec_finish(
            spec_resolved(body, cancel),
            slot_present,
        ),
{
}

/// Cancellation semantics: a token signaled before the first suspension
/// point yields the cancelled outcome; one signaled after the last
/// suspension point — or never signaled — yields the operation's own
/// outcome, successful or failed alike: cancellation is never applied
/// retroactively.
pub proof fn lemma_cancellation_semantics(body: AsyncBody, cancel: CancelToken)
    ensures
        cancel.signal_at == Some(0usize) ==> spec_resolved(body, cancel) == TaskOutcome::Cancelled,
        (match cancel.signal_at {
            Some(s) => s > body.suspensions,
            None => true,
        }) ==> spec_resolved(body, cancel) == spec_normal(body.outcome),
{
}

} // verus!
