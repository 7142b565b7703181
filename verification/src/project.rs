//! Project creation. A project is a directory under the base directory with
//! three fixed subdirectories (`shared_data`, `bin`, `src`), version control
//! initialized in `shared_data`, and an empty `.project` marker file.

use vstd::prelude::*;
use crate::engine::{Action, Job, Outcome, SpecAction, run, run_from};
use crate::paths::{join, spec_join};

verus! {

/// The steps of project creation, in order: the project directory itself
/// (already existing ends the run successfully, with nothing more done), the
/// fixed subdirectories (already existing is tolerated), version control in
/// `shared_data`, and the empty `.project` marker.
pub open spec fn project_steps(base: Seq<char>, name: Seq<char>) -> Seq<SpecAction> {
    let proj = spec_join(base, name);
    seq![
        SpecAction::MakeDir { path: proj, stop_if_exists: true },
        SpecAction::MakeDir { path: spec_join(proj, "shared_data"@), stop_if_exists: false },
        SpecAction::MakeDir { path: spec_join(proj, "bin"@), stop_if_exists: false },
        SpecAction::MakeDir { path: spec_join(proj, "src"@), stop_if_exists: false },
        SpecAction::InitRepo { path: spec_join(proj, "shared_data"@) },
        SpecAction::WriteFile { path: spec_join(proj, ".project"@), content: ""@ },
    ]
}

/// Plans the creation of the project `name` under `base_dir`.
pub fn create_project(base_dir: &str, name: &str) -> (job: Job)
    ensures
        job@.steps == project_steps(base_dir@, name@),
        job@.index == 0,
{
    let proj = join(base_dir, name);
    let shared = join(proj.as_str(), "shared_data");
    let bin = join(proj.as_str(), "bin");
    let src = join(proj.as_str(), "src");
    let repo = shared.clone();
    let marker = join(proj.as_str(), ".project");
    let mut steps: Vec<Action> = Vec::new();
    steps.push(Action::MakeDir { path: proj, stop_if_exists: true });
    steps.push(Action::MakeDir { path: shared, stop_if_exists: false });
    steps.push(Action::MakeDir { path: bin, stop_if_exists: false });
    steps.push(Action::MakeDir { path: src, stop_if_exists: false });
    steps.push(Action::InitRepo { path: repo });
    steps.push(Action::WriteFile { path: marker, content: "".to_owned() });
    let job = Job::new(steps);
    proof {
        assert(job@.steps =~= project_steps(base_dir@, name@));
    }
    job
}

/// Creating a project whose directory already exists is idempotent at the
/// directory level: the run issues only the attempt on the project directory
/// itself, changes nothing on disk, and ends successfully. In particular,
/// creating the same project twice leaves the second run without effect.
pub proof fn lemma_project_already_exists(
    base: Seq<char>,
    name: Seq<char>,
    outcomes: Seq<Outcome>,
)
    requires
        outcomes.len() >= 1,
        outcomes[0] == Outcome::AlreadyExists,
    ensures
        run(project_steps(base, name), outcomes).status is EarlyExists,
        run(project_steps(base, name), outcomes).issued == 1,
        run(project_steps(base, name), outcomes).changed.len() == 0,
{
}

/// A project creation in which every call succeeds performs all six steps
/// and changes exactly what they name: the project directory, the
/// `shared_data`, `bin` and `src` subdirectories, a version-control
/// repository in `shared_data`, and a `.project` marker that is empty.
pub proof fn lemma_project_success(base: Seq<char>, name: Seq<char>, outcomes: Seq<Outcome>)
    requires
        outcomes.len() >= 6,
        forall|i: int| 0 <= i < 6 ==> outcomes[i] == Outcome::Success,
    ensures
        run(project_steps(base, name), outcomes).status is Completed,
        run(project_steps(base, name), outcomes).issued == 6,
        run(project_steps(base, name), outcomes).changed =~= project_steps(base, name),
        project_steps(base, name)[5]->WriteFile_content.len() == 0,
{
    reveal_with_fuel(run_from, 8);
    reveal_strlit("");
}

} // verus!
