//! Task creation. A task lives under an existing project: a directory with a
//! `data` subdirectory (version-control initialized), an empty `README.md`,
//! and an empty `.task` marker file. The project directory must already
//! exist; a missing project fails the run before anything is created.

use vstd::prelude::*;
use crate::engine::{Action, Job, Outcome, SpecAction, run, run_from};
use crate::paths::{join, spec_join};

verus! {

/// The steps of task creation, in order: require the project directory, then
/// the task directory itself (already existing ends the run successfully),
/// the `data` subdirectory (already existing is tolerated), version control
/// in `data`, an empty `README.md`, and the empty `.task` marker.
pub open spec fn task_steps(base: Seq<char>, project: Seq<char>, name: Seq<char>) -> Seq<
    SpecAction,
> {
    let proj = spec_join(base, project);
    let task = spec_join(proj, name);
    seq![
        SpecAction::CheckDir { path: proj, what: "project"@ },
        SpecAction::MakeDir { path: task, stop_if_exists: true },
        SpecAction::MakeDir { path: spec_join(task, "data"@), stop_if_exists: false },
        SpecAction::InitRepo { path: spec_join(task, "data"@) },
        SpecAction::WriteFile { path: spec_join(task, "README.md"@), content: ""@ },
        SpecAction::WriteFile { path: spec_join(task, ".task"@), content: ""@ },
    ]
}

/// Plans the creation of the task `name` in the project `project` under
/// `base_dir`.
pub fn create_task(base_dir: &str, project: &str, name: &str) -> (job: Job)
    ensures
        job@.steps == task_steps(base_dir@, project@, name@),
        job@.index == 0,
{
    let proj = join(base_dir, project);
    let task = join(proj.as_str(), name);
    let data = join(task.as_str(), "data");
    let repo = data.clone();
    let readme = join(task.as_str(), "README.md");
    let marker = join(task.as_str(), ".task");
    let mut steps: Vec<Action> = Vec::new();
    steps.push(Action::CheckDir { path: proj, what: "project".to_owned() });
    steps.push(Action::MakeDir { path: task, stop_if_exists: true });
    steps.push(Action::MakeDir { path: data, stop_if_exists: false });
    steps.push(Action::InitRepo { path: repo });
    steps.push(Action::WriteFile { path: readme, content: "".to_owned() });
    steps.push(Action::WriteFile { path: marker, content: "".to_owned() });
    let job = Job::new(steps);
    proof {
        assert(job@.steps =~= task_steps(base_dir@, project@, name@));
    }
    job
}

/// Creating a task in a project whose directory does not exist always fails
/// as not-found at the very first step, the existence check on the project
/// directory, and creates nothing.
pub proof fn lemma_task_missing_project(
    base: Seq<char>,
    project: Seq<char>,
    name: Seq<char>,
    outcomes: Seq<Outcome>,
)
    requires
        outcomes.len() >= 1,
        outcomes[0] == Outcome::Missing,
    ensures
        run(task_steps(base, project, name), outcomes).status is MissingAncestor,
        run(task_steps(base, project, name), outcomes).issued == 1,
        run(task_steps(base, project, name), outcomes).changed.len() == 0,
{
}

/// Creating a task whose directory already exists (under an existing
/// project) is idempotent at the directory level: beyond the existence check
/// and the attempt on the task directory itself, nothing is issued, nothing
/// changes, and the run ends successfully.
pub proof fn lemma_task_already_exists(
    base: Seq<char>,
    project: Seq<char>,
    name: Seq<char>,
    outcomes: Seq<Outcome>,
)
    requires
        outcomes.len() >= 2,
        outcomes[0] == Outcome::Success,
        outcomes[1] == Outcome::AlreadyExists,
    ensures
        run(task_steps(base, project, name), outcomes).status is EarlyExists,
        run(task_steps(base, project, name), outcomes).issued == 2,
        run(task_steps(base, project, name), outcomes).changed.len() == 0,
{
    reveal_with_fuel(run_from, 3);
}

/// A task creation in which every call succeeds performs all six steps and
/// changes exactly what the steps after the existence check name: the task
/// directory, its `data` subdirectory, a version-control repository in
/// `data`, an empty `README.md`, and an empty `.task` marker.
pub proof fn lemma_task_success(
    base: Seq<char>,
    project: Seq<char>,
    name: Seq<char>,
    outcomes: Seq<Outcome>,
)
    requires
        outcomes.len() >= 6,
        forall|i: int| 0 <= i < 6 ==> outcomes[i] == Outcome::Success,
    ensures
        run(task_steps(base, project, name), outcomes).status is Completed,
        run(task_steps(base, project, name), outcomes).issued == 6,
        run(task_steps(base, project, name), outcomes).changed =~= task_steps(
            base,
            project,
            name,
        ).subrange(1, 6),
        task_steps(base, project, name)[4]->WriteFile_content.len() == 0,
        task_steps(base, project, name)[5]->WriteFile_content.len() == 0,
{
    reveal_with_fuel(run_from, 8);
    reveal_strlit("");
}

} // verus!
