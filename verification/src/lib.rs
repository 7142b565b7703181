//! Scaffolding for data-science projects: each command is planned as a fixed
//! sequence of filesystem and collaborator actions, and a small state machine
//! decides, from the outcome of each action, whether to go on, stop early, or
//! abort. The planning and the decisions are verified; performing the actions
//! (directory creation, version-control init, opening a browser) is left to a
//! thin unverified driver.

pub mod dispatch;
pub mod engine;
pub mod notebook;
pub mod paths;
pub mod project;
pub mod task;
pub mod template;
