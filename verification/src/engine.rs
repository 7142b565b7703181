//! The scaffolding engine. An operation is a `Job`: a fixed list of actions
//! (directory checks, directory and file creation, version-control init,
//! opening a URL) together with a cursor. A driver performs the current
//! action, reports its outcome, and `apply` decides whether the run proceeds,
//! stops early as a tolerated repeat, fails because a required ancestor is
//! missing, or aborts fatally.
//!
//! The ghost function `run` gives the meaning of a whole run: for a list of
//! steps and the outcomes the driver would observe, it says how the run ends,
//! how many actions are issued, and which steps actually changed the
//! filesystem.

use vstd::prelude::*;

verus! {

/// One call the driver is asked to make.
#[derive(Debug)]
pub enum Action {
    /// Require that a directory exists; `what` names the ancestor ("project",
    /// "task") for the error message when it is missing.
    CheckDir { path: String, what: String },
    /// Create a directory. When `stop_if_exists` is set, an already existing
    /// directory ends the whole operation successfully (the idempotent
    /// short-circuit for the operation's top-level target); otherwise an
    /// existing directory is tolerated and the run continues.
    MakeDir { path: String, stop_if_exists: bool },
    /// Create the file, truncating any previous one, and write `content`.
    WriteFile { path: String, content: String },
    /// Initialize version control in the directory at `path`.
    InitRepo { path: String },
    /// Open the browser on `url`.
    OpenUrl { url: String },
}

/// The mathematical form of an action: the same shape over sequences of
/// characters.
pub enum SpecAction {
    CheckDir { path: Seq<char>, what: Seq<char> },
    MakeDir { path: Seq<char>, stop_if_exists: bool },
    WriteFile { path: Seq<char>, content: Seq<char> },
    InitRepo { path: Seq<char> },
    OpenUrl { url: Seq<char> },
}

impl View for Action {
    type V = SpecAction;

    open spec fn view(&self) -> SpecAction {
        match self {
            Action::CheckDir { path, what } => SpecAction::CheckDir {
                path: path@,
                what: what@,
            },
            Action::MakeDir { path, stop_if_exists } => SpecAction::MakeDir {
                path: path@,
                stop_if_exists: *stop_if_exists,
            },
            Action::WriteFile { path, content } => SpecAction::WriteFile {
                path: path@,
                content: content@,
            },
            Action::InitRepo { path } => SpecAction::InitRepo { path: path@ },
            Action::OpenUrl { url } => SpecAction::OpenUrl { url: url@ },
        }
    }
}

/// What the driver observed when it performed an action.
#[derive(Clone, Copy, Debug, PartialEq, Eq, Structural)]
pub enum Outcome {
    /// The call succeeded.
    Success,
    /// Directory creation found the directory already there.
    AlreadyExists,
    /// An existence check found nothing.
    Missing,
    /// Any other failure.
    Failed,
}

/// The engine's decision after one outcome.
#[derive(Clone, Copy, Debug, PartialEq, Eq, Structural)]
pub enum StepVerdict {
    /// Go on to the next action.
    Proceed,
    /// The operation's target already exists: stop, successfully, with no
    /// further work.
    EarlyStop,
    /// A required ancestor is missing: fail without creating anything.
    NotFound,
    /// An unexpected failure: abort the whole operation.
    Fatal,
}

/// The decision for one step: success always proceeds; an existing directory
/// either ends the operation successfully or is tolerated, as the step says;
/// a missing ancestor at an existence check fails as not-found; everything
/// else is fatal.
pub open spec fn step_verdict(a: SpecAction, o: Outcome) -> StepVerdict {
    match o {
        Outcome::Success => StepVerdict::Proceed,
        Outcome::AlreadyExists => match a {
            SpecAction::MakeDir { path, stop_if_exists } => if stop_if_exists {
                StepVerdict::EarlyStop
            } else {
                StepVerdict::Proceed
            },
            _ => StepVerdict::Fatal,
        },
        Outcome::Missing => match a {
            SpecAction::CheckDir { path, what } => StepVerdict::NotFound,
            _ => StepVerdict::Fatal,
        },
        Outcome::Failed => StepVerdict::Fatal,
    }
}

/// An operation in flight: the remaining work is `steps[index..]`.
pub struct Job {
    steps: Vec<Action>,
    index: usize,
}

/// The mathematical form of a job.
pub struct JobView {
    pub steps: Seq<SpecAction>,
    pub index: int,
}

impl View for Job {
    type V = JobView;

    closed spec fn view(&self) -> JobView {
        JobView {
            steps: self.steps@.map_values(|a: Action| a@),
            index: self.index as int,
        }
    }
}

impl Job {
    /// A job that starts at the first of the given steps.
    pub fn new(steps: Vec<Action>) -> (r: Job)
        ensures
            r@.steps == steps@.map_values(|a: Action| a@),
            r@.index == 0,
    {
        Job { steps, index: 0 }
    }

    /// The action the driver should perform next, or `None` when the
    /// operation has run to completion.
    pub fn next_action(&self) -> (r: Option<&Action>)
        ensures
            match r {
                Some(a) => self@.index < self@.steps.len() && a@ == self@.steps[self@.index],
                None => self@.index >= self@.steps.len(),
            },
    {
        if self.index < self.steps.len() {
            Some(&self.steps[self.index])
        } else {
            None
        }
    }

    /// Decides from the outcome of the current action how the run goes on.
    /// The steps never change; the cursor advances exactly when the verdict
    /// is to proceed.
    pub fn apply(&mut self, outcome: Outcome) -> (v: StepVerdict)
        requires
            old(self)@.index < old(self)@.steps.len(),
        ensures
            final(self)@.steps == old(self)@.steps,
            v == step_verdict(old(self)@.steps[old(self)@.index], outcome),
            v == StepVerdict::Proceed ==> final(self)@.index == old(self)@.index + 1,
            v != StepVerdict::Proceed ==> final(self)@.index == old(self)@.index,
    {
        proof {
            assert(self.steps@.map_values(|a: Action| a@).len() == self.steps@.len());
        }
        let v = match outcome {
            Outcome::Success => StepVerdict::Proceed,
            Outcome::AlreadyExists => match &self.steps[self.index] {
                Action::MakeDir { path, stop_if_exists } => if *stop_if_exists {
                    StepVerdict::EarlyStop
                } else {
                    StepVerdict::Proceed
                },
                _ => StepVerdict::Fatal,
            },
            Outcome::Missing => match &self.steps[self.index] {
                Action::CheckDir { path, what } => StepVerdict::NotFound,
                _ => StepVerdict::Fatal,
            },
            Outcome::Failed => StepVerdict::Fatal,
        };
        if v == StepVerdict::Proceed && self.index < self.steps.len() {
            self.index = self.index + 1;
        }
        v
    }
}

/// Whether a successful action of this shape changes the filesystem.
/// Existence checks and opening a browser change nothing.
pub open spec fn spec_mutates(a: SpecAction) -> bool {
    a is MakeDir || a is WriteFile || a is InitRepo
}

/// How a run ends.
pub enum RunStatus {
    /// Every step was performed.
    Completed,
    /// The operation's target already existed: stopped early, successfully.
    EarlyExists,
    /// A required ancestor was missing.
    MissingAncestor,
    /// An unexpected failure aborted the run.
    Aborted,
}

/// The meaning of a whole run: its end, the number of actions issued (the
/// one that ended the run included), and the steps that actually changed the
/// filesystem, in order.
pub struct RunResult {
    pub status: RunStatus,
    pub issued: nat,
    pub changed: Seq<SpecAction>,
}

/// The run from step `i` on, when performing step `j` observes
/// `outcomes[j]`. Only a successful action of a mutating shape is recorded
/// as a change: a tolerated already-existing directory, a failed call, a
/// check, and a browser open leave the filesystem as it was.
pub open spec fn run_from(steps: Seq<SpecAction>, outcomes: Seq<Outcome>, i: nat) -> RunResult
    decreases steps.len() - i,
{
    if i >= steps.len() || i >= outcomes.len() {
        RunResult { status: RunStatus::Completed, issued: 0, changed: Seq::empty() }
    } else {
        let v = step_verdict(steps[i as int], outcomes[i as int]);
        if v == StepVerdict::Proceed {
            let rest = run_from(steps, outcomes, i + 1);
            let changed_here = spec_mutates(steps[i as int]) && outcomes[i as int]
                == Outcome::Success;
            RunResult {
                status: rest.status,
                issued: rest.issued + 1,
                changed: if changed_here {
                    seq![steps[i as int]] + rest.changed
                } else {
                    rest.changed
                },
            }
        } else {
            RunResult {
                status: match v {
                    StepVerdict::EarlyStop => RunStatus::EarlyExists,
                    StepVerdict::NotFound => RunStatus::MissingAncestor,
                    _ => RunStatus::Aborted,
                },
                issued: 1,
                changed: Seq::empty(),
            }
        }
    }
}

/// The meaning of a whole run, from its first step.
pub open spec fn run(steps: Seq<SpecAction>, outcomes: Seq<Outcome>) -> RunResult {
    run_from(steps, outcomes, 0)
}

} // verus!
