//! The command dispatcher. Exactly four verbs exist; three of them are
//! planned as jobs for the engine, and the configuration verb is a
//! placeholder that only echoes its input.

use vstd::prelude::*;
use vstd::string::StringExecFns;
use crate::engine::Job;
use crate::notebook::{create_notebook, notebook_steps};
use crate::project::{create_project, project_steps};
use crate::task::{create_task, task_steps};

verus! {

/// One parsed invocation of the tool.
#[derive(Debug)]
pub enum Command {
    /// Create a project scaffold.
    Project { name: String },
    /// Create a task scaffold under an existing project.
    Task { project: String, name: String },
    /// Create a notebook file in an existing task and open the browser.
    Notebook { project: String, task: String, base: String, name: String },
    /// Configure the tool. A placeholder: nothing is persisted, the input is
    /// only echoed back.
    Config { proj_base_dir: String },
}

/// What the driver is handed: a job whose actions it should run, or a line
/// it should print, with nothing else to do.
pub enum Dispatch {
    /// Run the job's actions, feeding each outcome back to the engine.
    Run(Job),
    /// Print the line; the command has no other effect.
    Echo(String),
}

/// Maps a command to the job that carries it out, against `base_dir` as the
/// base directory: each of the three creating verbs gets its plan, at its
/// first step, and the configuration verb gets an echo of its input.
pub fn dispatch(base_dir: &str, cmd: &Command) -> (r: Dispatch)
    ensures
        match cmd {
            Command::Project { name } => r matches Dispatch::Run(job) && job@.steps
                == project_steps(base_dir@, name@) && job@.index == 0,
            Command::Task { project, name } => r matches Dispatch::Run(job) && job@.steps
                == task_steps(base_dir@, project@, name@) && job@.index == 0,
            Command::Notebook { project, task, base, name } => r matches Dispatch::Run(job)
                && job@.steps == notebook_steps(base_dir@, project@, task@, base@, name@)
                && job@.index == 0,
            Command::Config { proj_base_dir } => r matches Dispatch::Echo(line) && line@
                == "proj_base_dir: "@ + proj_base_dir@,
        },
{
    match cmd {
        Command::Project { name } => Dispatch::Run(create_project(base_dir, name.as_str())),
        Command::Task { project, name } => Dispatch::Run(
            create_task(base_dir, project.as_str(), name.as_str()),
        ),
        Command::Notebook { project, task, base, name } => Dispatch::Run(
            create_notebook(
                base_dir,
                project.as_str(),
                task.as_str(),
                base.as_str(),
                name.as_str(),
            ),
        ),
        Command::Config { proj_base_dir } => {
            let mut line = "proj_base_dir: ".to_owned();
            line.append(proj_base_dir.as_str());
            Dispatch::Echo(line)
        },
    }
}

} // verus!
