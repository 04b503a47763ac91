//! What the task board shows and accepts.
use vstd::prelude::*;

use crate::providers::model::{IntegrationTask, IntegrationType};

verus! {

/// A configured tracker project whose board can be shown.
#[derive(Clone, Debug)]
pub struct TaskProviderProject {
    pub provider_id: u128,
    pub provider_type: IntegrationType,
    pub workspace_id: String,
    pub external_project_id: String,
    pub name: String,
    pub slug: String,
}

/// A stored work run that concerns a task.
#[derive(Clone, Debug)]
pub struct TaskBoardRelatedWorkRunRow {
    pub id: u128,
    pub external_task_ref: String,
    pub status: String,
    pub work_type: String,
    pub tokens_used: Option<i64>,
    pub input_tokens: Option<i64>,
    pub output_tokens: Option<i64>,
    pub cache_read_tokens: Option<i64>,
    pub cache_write_tokens: Option<i64>,
    pub model_used: Option<String>,
    /// When the run was created, in microseconds since the Unix epoch.
    pub created_at: i64,
}

/// A work run shown beside a task.
#[derive(Clone, Debug)]
pub struct TaskBoardRelatedWorkRun {
    pub id: u128,
    pub status: String,
    pub work_type: String,
    pub tokens_used: Option<i64>,
    pub input_tokens: Option<i64>,
    pub output_tokens: Option<i64>,
    pub cache_read_tokens: Option<i64>,
    pub cache_write_tokens: Option<i64>,
    pub model_used: Option<String>,
    pub created_at: i64,
}

/// The work runs of one task.
#[derive(Clone, Debug)]
pub struct TaskBoardTaskRelatedRuns {
    pub external_task_ref: String,
    pub runs: Vec<TaskBoardRelatedWorkRun>,
}

/// A request to create a task.
#[derive(Clone, Debug)]
pub struct CreateTaskRequest {
    pub title: String,
    pub body: String,
    pub status: Option<String>,
    pub priority: Option<String>,
}

/// A request to edit the title and body of a task.
#[derive(Clone, Debug)]
pub struct UpdateTaskRequest {
    pub title: String,
    pub body: String,
}

/// The task created.
#[derive(Clone, Debug)]
pub struct CreateTaskResponse {
    pub task: IntegrationTask,
}

/// The task as updated.
#[derive(Clone, Debug)]
pub struct UpdateTaskResponse {
    pub task: IntegrationTask,
}

/// A task moved to a status.
#[derive(Clone, Debug)]
pub struct MoveTaskResponse {
    pub task_id: String,
    pub status: String,
}

/// A label attached to or detached from a task.
#[derive(Clone, Debug)]
pub struct TaskLabelResponse {
    pub task_id: String,
    pub label_id: String,
}

/// A label deleted.
#[derive(Clone, Debug)]
pub struct TaskLabelDeleteResponse {
    pub label_id: String,
}

} // verus!
