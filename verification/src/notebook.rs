//! Notebook creation. A notebook is a single file `name.ipynb` in an
//! existing task's directory, filled with the fixed document from
//! [`crate::template`]; after the write, the browser is opened on a URL
//! built from the base URL, the project, the task, and the filename. Both
//! the project and the task directory must already exist.

use vstd::prelude::*;
use vstd::string::StringExecFns;
use crate::engine::{Action, Job, Outcome, SpecAction, run, run_from};
use crate::paths::{join, spec_join};
use crate::template::{NOTEBOOK_TEMPLATE, notebook_template};

verus! {

/// The display URL: the base URL and the project, task and file names,
/// joined with `/`.
pub open spec fn spec_url(
    base_url: Seq<char>,
    project: Seq<char>,
    task: Seq<char>,
    filename: Seq<char>,
) -> Seq<char> {
    base_url + "/"@ + project + "/"@ + task + "/"@ + filename
}

/// Builds the display URL for a notebook file.
pub fn build_url(base_url: &str, project: &str, task: &str, filename: &str) -> (r: String)
    ensures
        r@ == spec_url(base_url@, project@, task@, filename@),
{
    let mut s = base_url.to_owned();
    s.append("/");
    s.append(project);
    s.append("/");
    s.append(task);
    s.append("/");
    s.append(filename);
    s
}

/// The base URL used when none is given on the command line.
pub fn default_base_url() -> (r: String)
    ensures
        r@ == "http://localhost:8888/tree"@,
{
    "http://localhost:8888/tree".to_owned()
}

/// The steps of notebook creation, in order: require the project directory,
/// require the task directory, write the fixed document to `name.ipynb` in
/// the task directory, and open the browser on the display URL.
pub open spec fn notebook_steps(
    base: Seq<char>,
    project: Seq<char>,
    task: Seq<char>,
    base_url: Seq<char>,
    name: Seq<char>,
) -> Seq<SpecAction> {
    let proj = spec_join(base, project);
    let taskdir = spec_join(proj, task);
    let filename = name + ".ipynb"@;
    seq![
        SpecAction::CheckDir { path: proj, what: "project"@ },
        SpecAction::CheckDir { path: taskdir, what: "task"@ },
        SpecAction::WriteFile {
            path: spec_join(taskdir, filename),
            content: NOTEBOOK_TEMPLATE@,
        },
        SpecAction::OpenUrl { url: spec_url(base_url, project, task, filename) },
    ]
}

/// Plans the creation of the notebook `name` in the task `task` of the
/// project `project` under `base_dir`, with `base_url` as the root of the
/// display URL.
pub fn create_notebook(
    base_dir: &str,
    project: &str,
    task: &str,
    base_url: &str,
    name: &str,
) -> (job: Job)
    ensures
        job@.steps == notebook_steps(base_dir@, project@, task@, base_url@, name@),
        job@.index == 0,
{
    let proj = join(base_dir, project);
    let taskdir = join(proj.as_str(), task);
    let mut filename = name.to_owned();
    filename.append(".ipynb");
    let file = join(taskdir.as_str(), filename.as_str());
    let url = build_url(base_url, project, task, filename.as_str());
    let mut steps: Vec<Action> = Vec::new();
    steps.push(Action::CheckDir { path: proj, what: "project".to_owned() });
    steps.push(Action::CheckDir { path: taskdir, what: "task".to_owned() });
    steps.push(Action::WriteFile { path: file, content: notebook_template() });
    steps.push(Action::OpenUrl { url });
    let job = Job::new(steps);
    proof {
        assert(job@.steps =~= notebook_steps(base_dir@, project@, task@, base_url@, name@));
    }
    job
}

/// Creating a notebook in a task whose directory does not exist, under an
/// existing project, always fails as not-found at the task's existence
/// check and writes no file.
pub proof fn lemma_notebook_missing_task(
    base: Seq<char>,
    project: Seq<char>,
    task: Seq<char>,
    base_url: Seq<char>,
    name: Seq<char>,
    outcomes: Seq<Outcome>,
)
    requires
        outcomes.len() >= 2,
        outcomes[0] == Outcome::Success,
        outcomes[1] == Outcome::Missing,
    ensures
        run(notebook_steps(base, project, task, base_url, name), outcomes).status
            is MissingAncestor,
        run(notebook_steps(base, project, task, base_url, name), outcomes).issued == 2,
        run(notebook_steps(base, project, task, base_url, name), outcomes).changed.len() == 0,
{
    reveal_with_fuel(run_from, 3);
}

/// Creating a notebook in a project whose directory does not exist likewise
/// fails as not-found, at the first check, and writes no file.
pub proof fn lemma_notebook_missing_project(
    base: Seq<char>,
    project: Seq<char>,
    task: Seq<char>,
    base_url: Seq<char>,
    name: Seq<char>,
    outcomes: Seq<Outcome>,
)
    requires
        outcomes.len() >= 1,
        outcomes[0] == Outcome::Missing,
    ensures
        run(notebook_steps(base, project, task, base_url, name), outcomes).status
            is MissingAncestor,
        run(notebook_steps(base, project, task, base_url, name), outcomes).issued == 1,
        run(notebook_steps(base, project, task, base_url, name), outcomes).changed.len() == 0,
{
}

/// The document a notebook is filled with does not depend on the notebook's
/// name, nor on the project, the task, the base URL, or the base directory:
/// every notebook file is byte-identical to the fixed template.
pub proof fn lemma_notebook_content_fixed(
    base: Seq<char>,
    project: Seq<char>,
    task: Seq<char>,
    base_url: Seq<char>,
    name: Seq<char>,
)
    ensures
        notebook_steps(base, project, task, base_url, name)[2] matches SpecAction::WriteFile {
            content,
            ..
        } && content == NOTEBOOK_TEMPLATE@,
{
}

/// A notebook creation in which every call succeeds performs all four steps;
/// the only change is the one written file, `name.ipynb` in the task
/// directory, filled with the fixed template; and the browser is asked to
/// open exactly the base URL, project, task and filename joined with `/`.
pub proof fn lemma_notebook_success(
    base: Seq<char>,
    project: Seq<char>,
    task: Seq<char>,
    base_url: Seq<char>,
    name: Seq<char>,
    outcomes: Seq<Outcome>,
)
    requires
        outcomes.len() >= 4,
        forall|i: int| 0 <= i < 4 ==> outcomes[i] == Outcome::Success,
    ensures
        run(notebook_steps(base, project, task, base_url, name), outcomes).status is Completed,
        run(notebook_steps(base, project, task, base_url, name), outcomes).issued == 4,
        run(notebook_steps(base, project, task, base_url, name), outcomes).changed =~= seq![
            SpecAction::WriteFile {
                path: spec_join(spec_join(spec_join(base, project), task), name + ".ipynb"@),
                content: NOTEBOOK_TEMPLATE@,
            },
        ],
        notebook_steps(base, project, task, base_url, name)[3]->OpenUrl_url == spec_url(
            base_url,
            project,
            task,
            name + ".ipynb"@,
        ),
{
    reveal_with_fuel(run_from, 6);
}

} // verus!
