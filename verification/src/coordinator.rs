//! The shutdown protocol of the two tasks.
//!
//! The telemetry producer and the control loop run side by side. Whichever
//! ends first sets the cancellation signal; the other is then awaited.
//! The outcome of the first decides how the process ends; the outcome of the
//! second is noted, and changes nothing.

use vstd::prelude::*;

verus! {

/// One of the two tasks.
#[derive(Debug, Clone, Copy, PartialEq, Eq, Structural)]
pub enum Task {
    /// The telemetry producer.
    Producer,
    /// The control loop.
    Consumer,
}

/// The kind of a failure, as the final diagnostic names it.
#[derive(Debug, Clone, Copy, PartialEq, Eq, Structural)]
pub enum Failure {
    /// The telemetry link: timeout, disconnect, radio error.
    Telemetry,
    /// The power supply: a command or its transport failed.
    Psu,
    /// The control loop's own domain: wrong mode, no reading, over-current.
    ControlLoop,
}

/// How a task ended.
#[derive(Debug, Clone, Copy, PartialEq, Eq, Structural)]
pub enum Outcome {
    /// It returned without error (done, or cancelled).
    Success,
    /// It returned an error of this kind.
    Failed(Failure),
    /// It ended without returning (it panicked or was aborted).
    Terminated,
}

/// Where the shutdown stands.
#[derive(Debug, Clone, Copy, PartialEq, Eq, Structural)]
pub enum Coordinator {
    /// Both tasks run.
    Running,
    /// `first` has ended with `outcome`; the other task is being awaited.
    Draining { first: Task, outcome: Outcome },
    /// Both tasks have ended; `first` ended first, with `outcome`.
    Done { first: Task, outcome: Outcome },
}

/// What the driver does after a task has ended.
#[derive(Debug, Clone, Copy, PartialEq, Eq, Structural)]
pub enum Directive {
    /// Set the cancellation signal, then await the task named here.
    CancelAndAwait(Task),
    /// Both tasks are down: end the process with this outcome.
    Exit(Outcome),
    /// Nothing to do: the news is out of turn.
    Ignore,
}

impl Task {
    /// The other task.
    pub open spec fn spec_other(self) -> Task {
        match self {
            Task::Producer => Task::Consumer,
            Task::Consumer => Task::Producer,
        }
    }

    /// The other task.
    #[verifier::when_used_as_spec(spec_other)]
    pub fn other(self) -> (task: Task)
        ensures
            task == self.spec_other(),
    {
        match self {
            Task::Producer => Task::Consumer,
            Task::Consumer => Task::Producer,
        }
    }
}

impl Outcome {
    /// The exit status of a process that ends with this outcome: zero for
    /// success, one for anything else.
    pub open spec fn spec_exit_code(self) -> u8 {
        if self == Outcome::Success {
            0
        } else {
            1
        }
    }

    /// The exit status of a process that ends with this outcome.
    #[verifier::when_used_as_spec(spec_exit_code)]
    pub fn exit_code(self) -> (code: u8)
        ensures
            code == self.spec_exit_code(),
    {
        match self {
            Outcome::Success => 0,
            _ => 1,
        }
    }
}

/// The state and the directive after `task` has ended with `outcome`.
///
/// The first end starts the shutdown: cancel, and await the other task. The
/// end of that other task completes it, with the outcome of the first. News
/// out of turn (the same task again, or anything after the end) is ignored.
pub open spec fn spec_task_finished(c: Coordinator, task: Task, outcome: Outcome) -> (
    Coordinator,
    Directive,
) {
    match c {
        Coordinator::Running => (
            Coordinator::Draining { first: task, outcome },
            Directive::CancelAndAwait(task.spec_other()),
        ),
        Coordinator::Draining { first, outcome: first_outcome } => if task == first.spec_other() {
            (Coordinator::Done { first, outcome: first_outcome }, Directive::Exit(first_outcome))
        } else {
            (c, Directive::Ignore)
        },
        Coordinator::Done { .. } => (c, Directive::Ignore),
    }
}

impl Coordinator {
    /// The state with both tasks running.
    pub fn new() -> (c: Coordinator)
        ensures
            c == Coordinator::Running,
    {
        Coordinator::Running
    }

    /// Takes note that `task` has ended with `outcome`, and says what to do.
    pub fn task_finished(&mut self, task: Task, outcome: Outcome) -> (directive: Directive)
        ensures
            (*final(self), directive) == spec_task_finished(*old(self), task, outcome),
    {
        match *self {
            Coordinator::Running => {
                *self = Coordinator::Draining { first: task, outcome };
                Directive::CancelAndAwait(task.other())
            },
            Coordinator::Draining { first, outcome: first_outcome } => {
                if task == first.other() {
                    *self = Coordinator::Done { first, outcome: first_outcome };
                    Directive::Exit(first_outcome)
                } else {
                    Directive::Ignore
                }
            },
            Coordinator::Done { .. } => Directive::Ignore,
        }
    }
}

/// The first outcome wins: when one task ends and then the other, the process
/// ends with the outcome of the first, whatever the outcome of the second.
/// The cancellation signal is set on the first end, and the exit comes only
/// with the second: both tasks are down before the process reports.
pub proof fn lemma_first_outcome_wins(first: Task, outcome: Outcome, second_outcome: Outcome)
    ensures
        ({
            let (draining, on_first) = spec_task_finished(Coordinator::Running, first, outcome);
            let (done, on_second) = spec_task_finished(
                draining,
                first.spec_other(),
                second_outcome,
            );
            &&& on_first == Directive::CancelAndAwait(first.spec_other())
            &&& on_second == Directive::Exit(outcome)
            &&& done == (Coordinator::Done { first, outcome })
        }),
{
}

/// An exit is directed only once, and only after both tasks have ended: a
/// step answers `Exit` exactly when it moves the state from draining to done.
pub proof fn lemma_exit_only_when_drained(c: Coordinator, task: Task, outcome: Outcome)
    ensures
        spec_task_finished(c, task, outcome).1 is Exit <==> (c is Draining && spec_task_finished(
            c,
            task,
            outcome,
        ).0 is Done),
        spec_task_finished(c, task, outcome).1 is CancelAndAwait <==> c is Running,
        c is Done ==> spec_task_finished(c, task, outcome).0 == c,
{
}

} // verus!
