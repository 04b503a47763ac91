//! Errors of task board operations.
use vstd::prelude::*;

use crate::kaneo::errors::IntegrationError;
use crate::project_configs::errors::ProjectConfigsError;

verus! {

/// Why a task board operation failed.
#[derive(Clone, Debug)]
pub enum TaskBoardError {
    EmptyTitle,
    EmptyStatus,
    EmptyLabel,
    /// The task has no position, so a full update would move it.
    MissingTaskPosition,
    TaskUpdate(IntegrationError),
    Integration(IntegrationError),
    ProjectConfigs(ProjectConfigsError),
    Providers(String),
}

} // verus!
