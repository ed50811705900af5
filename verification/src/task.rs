//! A task: a named, ordered sequence of operations, run front to back with
//! fail-fast sequencing. The first operation whose outcome is `Failure`
//! stops the task with overall `Failure`; a hard error (a command that could
//! not be spawned, a path that is not a directory) aborts the run with a
//! descriptive error. A frame is pushed on the context for the run and
//! popped at its end whatever happened, so no working-directory change
//! leaks into a later run.

use vstd::prelude::*;
use vstd::string::*;
use crate::Outcome;
use crate::context::Context;
use crate::op::{
    ConfigError, OpError, OpEvent, Operation, event_matches, op_error_matches, step_errs,
    step_newdir, step_outcome,
};

verus! {

/// A hard error from a task run: which task it was and what went wrong.
#[derive(Debug, Clone)]
pub struct TaskError {
    pub task: String,
    pub source: OpError,
}

impl TaskError {
    /// The human-readable description of the error.
    pub fn message(&self) -> (m: String)
        ensures
            m@ == "failed to run operation for task '"@ + self.task@ + "': "@
                + self.source.spec_message(),
    {
        let mut m = String::from_str("failed to run operation for task '");
        m.append(self.task.as_str());
        m.append("': ");
        let s = self.source.message();
        m.append(s.as_str());
        proof {
            assert(m@ =~= "failed to run operation for task '"@ + self.task@ + "': "@
                + self.source.spec_message());
        }
        m
    }
}

/// How a run of a sequence of operations ends, given the events the
/// environment answers with: it completes with an outcome, or it stops on a
/// hard error at some position.
pub enum RunModel {
    Done(Outcome),
    Stopped { at: int },
}

/// Fail-fast sequencing from position `i`: stop on the first hard error,
/// complete with `Failure` on the first failed outcome, complete with
/// `Success` past the end.
pub open spec fn run_from(ops: Seq<Operation>, events: Seq<OpEvent>, i: int) -> RunModel
    decreases ops.len() - i,
{
    if i < 0 || i >= ops.len() {
        RunModel::Done(Outcome::Success)
    } else if step_errs(ops[i], events[i]) {
        RunModel::Stopped { at: i }
    } else if step_outcome(ops[i], events[i]) is Failure {
        RunModel::Done(Outcome::Failure)
    } else {
        run_from(ops, events, i + 1)
    }
}

/// How the whole sequence ends.
pub open spec fn run_model(ops: Seq<Operation>, events: Seq<OpEvent>) -> RunModel {
    run_from(ops, events, 0)
}

/// The working directory in force when operation `i` runs, starting from
/// `start` at the head of the sequence.
pub open spec fn dir_before(ops: Seq<Operation>, events: Seq<OpEvent>, i: int, start: Seq<char>) -> Seq<char>
    decreases i,
{
    if i <= 0 {
        start
    } else {
        step_newdir(ops[i - 1], events[i - 1], dir_before(ops, events, i - 1, start))
    }
}

/// A named, ordered sequence of operations; immutable after load,
/// runnable repeatedly.
#[derive(Debug, Clone)]
pub struct Task {
    pub name: String,
    pub operations: Vec<Operation>,
}

impl Task {
    /// Check every operation's configuration once, before any run.
    pub fn validate(&self) -> (r: Result<(), ConfigError>)
        ensures
            r is Ok <==> forall|i: int|
                0 <= i < self.operations@.len() ==> (#[trigger] self.operations@[i]).wf(),
            r matches Err(e) ==> e == ConfigError::EmptyFragment,
    {
        let mut i: usize = 0;
        while i < self.operations.len()
            invariant
                i <= self.operations@.len(),
                forall|k: int| 0 <= k < i ==> (#[trigger] self.operations@[k]).wf(),
            decreases self.operations@.len() - i,
        {
            if let Err(e) = self.operations[i].validate() {
                return Err(e);
            }
            i = i + 1;
        }
        Ok(())
    }

    /// Run the operations in declaration order against the events the
    /// environment answered, fail-fast: the first `Failure` outcome ends
    /// the task with `Failure` and nothing after it is considered; a hard
    /// error aborts the run. A fresh frame scopes every working-directory
    /// change to this run; the context comes back exactly as it was.
    pub fn run(&self, ctx: &mut Context, events: &Vec<OpEvent>) -> (r: Result<Outcome, TaskError>)
        requires
            events@.len() == self.operations@.len(),
            forall|i: int|
                0 <= i < self.operations@.len() ==> event_matches(
                    #[trigger] self.operations@[i],
                    events@[i],
                ),
        ensures
            final(ctx).base == old(ctx).base,
            final(ctx).frames@ == old(ctx).frames@,
            r matches Ok(o) ==> run_model(self.operations@, events@) == RunModel::Done(o),
            r is Err <==> run_model(self.operations@, events@) is Stopped,
            r matches Err(e) ==> {
                &&& e.task@ == self.name@
                &&& run_model(self.operations@, events@) matches RunModel::Stopped { at }
                    && 0 <= at < self.operations@.len() && op_error_matches(
                    e.source,
                    self.operations@[at],
                    events@[at],
                    dir_before(self.operations@, events@, at, old(ctx).spec_workdir()),
                )
            },
    {
        let ghost ops = self.operations@;
        let ghost evs = events@;
        let ghost start = old(ctx).spec_workdir();
        ctx.push_frame();
        let mut i: usize = 0;
        while i < self.operations.len()
            invariant
                ops == self.operations@,
                evs == events@,
                evs.len() == ops.len(),
                forall|k: int| 0 <= k < ops.len() ==> event_matches(#[trigger] ops[k], evs[k]),
                i <= ops.len(),
                ctx.base == old(ctx).base,
                ctx.frames@.len() == old(ctx).frames@.len() + 1,
                ctx.frames@.drop_last() == old(ctx).frames@,
                ctx.spec_workdir() == dir_before(ops, evs, i as int, start),
                start == old(ctx).spec_workdir(),
                run_from(ops, evs, 0) == run_from(ops, evs, i as int),
            decreases ops.len() - i,
        {
            let op = &self.operations[i];
            match op.finish(ctx, &events[i]) {
                Err(e) => {
                    proof {
                        assert(run_from(ops, evs, i as int) == (RunModel::Stopped { at: i as int }));
                    }
                    ctx.pop_frame();
                    return Err(TaskError { task: self.name.clone(), source: e });
                },
                Ok(o) => {
                    if o.is_failure() {
                        proof {
                            assert(run_from(ops, evs, i as int) == RunModel::Done(Outcome::Failure));
                        }
                        ctx.pop_frame();
                        return Ok(Outcome::Failure);
                    }
                },
            }
            i = i + 1;
        }
        ctx.pop_frame();
        Ok(Outcome::Success)
    }
}

/// The fail-fast law: when every operation before position `k` succeeds and
/// the one at `k` runs and fails, the whole task reports `Failure`.
pub proof fn lemma_fail_fast(ops: Seq<Operation>, events: Seq<OpEvent>, k: int)
    requires
        events.len() == ops.len(),
        0 <= k < ops.len(),
        forall|i: int|
            0 <= i < k ==> !step_errs(ops[i], #[trigger] events[i]) && step_outcome(
                ops[i],
                events[i],
            ) == Outcome::Success,
        !step_errs(ops[k], events[k]),
        step_outcome(ops[k], events[k]) == Outcome::Failure,
    ensures
        run_model(ops, events) == RunModel::Done(Outcome::Failure),
{
    lemma_run_upto(ops, events, k, 0);
}

proof fn lemma_run_upto(ops: Seq<Operation>, events: Seq<OpEvent>, k: int, i: int)
    requires
        events.len() == ops.len(),
        0 <= i <= k < ops.len(),
        forall|j: int|
            i <= j < k ==> !step_errs(ops[j], #[trigger] events[j]) && step_outcome(
                ops[j],
                events[j],
            ) == Outcome::Success,
        !step_errs(ops[k], events[k]),
        step_outcome(ops[k], events[k]) == Outcome::Failure,
    ensures
        run_from(ops, events, i) == RunModel::Done(Outcome::Failure),
    decreases k - i,
{
    if i < k {
        lemma_run_upto(ops, events, k, i + 1);
    }
}

/// The other half of fail-fast: once every operation before `k` has
/// succeeded and the one at `k` has failed, what the environment would have
/// answered for the remaining operations cannot matter — the run ends the
/// same way for any events that agree up to and including position `k`.
pub proof fn lemma_fail_fast_ignores_rest(
    ops: Seq<Operation>,
    events: Seq<OpEvent>,
    other: Seq<OpEvent>,
    k: int,
)
    requires
        events.len() == ops.len(),
        other.len() == ops.len(),
        0 <= k < ops.len(),
        forall|j: int| 0 <= j <= k ==> other[j] == #[trigger] events[j],
        forall|i: int|
            0 <= i < k ==> !step_errs(ops[i], #[trigger] events[i]) && step_outcome(
                ops[i],
                events[i],
            ) == Outcome::Success,
        !step_errs(ops[k], events[k]),
        step_outcome(ops[k], events[k]) == Outcome::Failure,
    ensures
        run_model(ops, other) == RunModel::Done(Outcome::Failure),
        run_model(ops, events) == RunModel::Done(Outcome::Failure),
{
    assert forall|i: int| 0 <= i < k implies !step_errs(ops[i], #[trigger] other[i])
        && step_outcome(ops[i], other[i]) == Outcome::Success by {
        assert(other[i] == events[i]);
    }
    assert(other[k] == events[k]);
    lemma_fail_fast(ops, other, k);
    lemma_fail_fast(ops, events, k);
}

/// When every operation runs and succeeds, the task reports `Success`.
pub proof fn lemma_all_success(ops: Seq<Operation>, events: Seq<OpEvent>)
    requires
        events.len() == ops.len(),
        forall|i: int|
            0 <= i < ops.len() ==> !step_errs(ops[i], #[trigger] events[i]) && step_outcome(
                ops[i],
                events[i],
            ) == Outcome::Success,
    ensures
        run_model(ops, events) == RunModel::Done(Outcome::Success),
{
    lemma_success_from(ops, events, 0);
}

proof fn lemma_success_from(ops: Seq<Operation>, events: Seq<OpEvent>, i: int)
    requires
        events.len() == ops.len(),
        0 <= i <= ops.len(),
        forall|j: int|
            i <= j < ops.len() ==> !step_errs(ops[j], #[trigger] events[j]) && step_outcome(
                ops[j],
                events[j],
            ) == Outcome::Success,
    ensures
        run_from(ops, events, i) == RunModel::Done(Outcome::Success),
    decreases ops.len() - i,
{
    if i < ops.len() {
        lemma_success_from(ops, events, i + 1);
    }
}

} // verus!
