use tsukuru::dispatch::{dispatch, Command, Dispatch};
use tsukuru::engine::Action;
use tsukuru::paths::join;

#[test]
fn dispatch_project_plans_project() {
    let cmd = Command::Project { name: "Alpha".to_string() };
    match dispatch("/tmp/base", &cmd) {
        Dispatch::Run(job) => match job.next_action() {
            Some(Action::MakeDir { path, stop_if_exists }) => {
                assert_eq!(path.as_str(), "/tmp/base/Alpha");
                assert!(*stop_if_exists);
            }
            other => panic!("unexpected action: {:?}", other),
        },
        Dispatch::Echo(line) => panic!("unexpected echo: {}", line),
    }
}

#[test]
fn dispatch_task_plans_task() {
    let cmd = Command::Task { project: "Alpha".to_string(), name: "T1".to_string() };
    match dispatch("/tmp/base", &cmd) {
        Dispatch::Run(job) => match job.next_action() {
            Some(Action::CheckDir { path, what }) => {
                assert_eq!(path.as_str(), "/tmp/base/Alpha");
                assert_eq!(what.as_str(), "project");
            }
            other => panic!("unexpected action: {:?}", other),
        },
        Dispatch::Echo(line) => panic!("unexpected echo: {}", line),
    }
}

#[test]
fn dispatch_notebook_plans_notebook() {
    let cmd = Command::Notebook {
        project: "Alpha".to_string(),
        task: "T1".to_string(),
        base: "http://localhost:8888/tree".to_string(),
        name: "nb1".to_string(),
    };
    match dispatch("/tmp/base", &cmd) {
        Dispatch::Run(job) => match job.next_action() {
            Some(Action::CheckDir { path, what }) => {
                assert_eq!(path.as_str(), "/tmp/base/Alpha");
                assert_eq!(what.as_str(), "project");
            }
            other => panic!("unexpected action: {:?}", other),
        },
        Dispatch::Echo(line) => panic!("unexpected echo: {}", line),
    }
}

#[test]
fn dispatch_config_echoes_input() {
    let cmd = Command::Config { proj_base_dir: "/tmp/base".to_string() };
    match dispatch("/ignored", &cmd) {
        Dispatch::Echo(line) => assert_eq!(line.as_str(), "proj_base_dir: /tmp/base"),
        Dispatch::Run(_) => panic!("unexpected job"),
    }
}

#[test]
fn join_appends_one_separator() {
    let joined = join("/tmp/base", "Alpha");
    assert_eq!(joined.as_str(), "/tmp/base/Alpha");
}
