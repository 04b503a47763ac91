//! Errors of project configuration operations.
use vstd::prelude::*;

use crate::kaneo::errors::IntegrationError;

verus! {

/// Why a project configuration operation failed.
#[derive(Clone, Debug)]
pub enum ProjectConfigsError {
    NotFound,
    DuplicateExternalProjectId,
    Database(String),
    Integration(IntegrationError),
    ColumnNotFound(String),
    NoProvider,
    RepositoriesRequired,
    ModelProvider(String),
    Teams(String),
    /// The team's stored agent backend names no backend.
    InvalidAgentBackend(String),
}

} // verus!
