//! The task board: projects that can be shown, the tasks and work runs on
//! them, and the checks on edits.
pub mod errors;
pub mod model;
pub mod service;
