//! Task tracking in a directory tree: workspace discovery and creation,
//! task file naming and the interactive authoring session, with their
//! contracts proved by Verus.
//!
//! - `slug`: title normalisation and file-system safe slugs.
//! - `path`: paths as plain values.
//! - `workspace`: finding the root of a task tree; verdicts on creating one.
//! - `creation`: creating a workspace, step by step.
//! - `task`: the task record.
//! - `naming`: the file name and path of a task.
//! - `session`: the interactive authoring of a task.
//! - `cli`: reading the command line.

pub mod cli;
pub mod creation;
pub mod naming;
pub mod path;
pub mod session;
pub mod slug;
pub mod task;
pub mod workspace;
