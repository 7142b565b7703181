use tsukuru::engine::{Action, Outcome, StepVerdict};
use tsukuru::task::create_task;

#[test]
fn create_task_lays_out_scaffold() {
    let mut job = create_task("/tmp/base", "Alpha", "T1");
    match job.next_action() {
        Some(Action::CheckDir { path, what }) => {
            assert_eq!(path.as_str(), "/tmp/base/Alpha");
            assert_eq!(what.as_str(), "project");
        }
        other => panic!("unexpected action: {:?}", other),
    }
    assert_eq!(job.apply(Outcome::Success), StepVerdict::Proceed);
    match job.next_action() {
        Some(Action::MakeDir { path, stop_if_exists }) => {
            assert_eq!(path.as_str(), "/tmp/base/Alpha/T1");
            assert!(*stop_if_exists);
        }
        other => panic!("unexpected action: {:?}", other),
    }
    assert_eq!(job.apply(Outcome::Success), StepVerdict::Proceed);
    match job.next_action() {
        Some(Action::MakeDir { path, stop_if_exists }) => {
            assert_eq!(path.as_str(), "/tmp/base/Alpha/T1/data");
            assert!(!*stop_if_exists);
        }
        other => panic!("unexpected action: {:?}", other),
    }
    assert_eq!(job.apply(Outcome::Success), StepVerdict::Proceed);
    match job.next_action() {
        Some(Action::InitRepo { path }) => {
            assert_eq!(path.as_str(), "/tmp/base/Alpha/T1/data");
        }
        other => panic!("unexpected action: {:?}", other),
    }
    assert_eq!(job.apply(Outcome::Success), StepVerdict::Proceed);
    match job.next_action() {
        Some(Action::WriteFile { path, content }) => {
            assert_eq!(path.as_str(), "/tmp/base/Alpha/T1/README.md");
            assert!(content.is_empty());
        }
        other => panic!("unexpected action: {:?}", other),
    }
    assert_eq!(job.apply(Outcome::Success), StepVerdict::Proceed);
    match job.next_action() {
        Some(Action::WriteFile { path, content }) => {
            assert_eq!(path.as_str(), "/tmp/base/Alpha/T1/.task");
            assert!(content.is_empty());
        }
        other => panic!("unexpected action: {:?}", other),
    }
    assert_eq!(job.apply(Outcome::Success), StepVerdict::Proceed);
    assert!(job.next_action().is_none());
}

#[test]
fn create_task_missing_project_not_found() {
    let mut job = create_task("/tmp/base", "Ghost", "T1");
    match job.next_action() {
        Some(Action::CheckDir { path, what }) => {
            assert_eq!(path.as_str(), "/tmp/base/Ghost");
            assert_eq!(what.as_str(), "project");
        }
        other => panic!("unexpected action: {:?}", other),
    }
    assert_eq!(job.apply(Outcome::Missing), StepVerdict::NotFound);
}

#[test]
fn create_task_twice_stops_early() {
    let mut job = create_task("/tmp/base", "Alpha", "T1");
    assert_eq!(job.apply(Outcome::Success), StepVerdict::Proceed);
    assert_eq!(job.apply(Outcome::AlreadyExists), StepVerdict::EarlyStop);
}

#[test]
fn create_task_aborts_on_repo_failure() {
    let mut job = create_task("/tmp/base", "Alpha", "T1");
    assert_eq!(job.apply(Outcome::Success), StepVerdict::Proceed);
    assert_eq!(job.apply(Outcome::Success), StepVerdict::Proceed);
    assert_eq!(job.apply(Outcome::Success), StepVerdict::Proceed);
    assert_eq!(job.apply(Outcome::Failed), StepVerdict::Fatal);
}
