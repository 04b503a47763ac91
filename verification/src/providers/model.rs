//! The provider-neutral view of a task tracker.
use vstd::prelude::*;

use crate::kaneo::types::TaskPosition;

verus! {

/// The kinds of task tracker that can be connected.
#[derive(Clone, Copy, Debug, PartialEq, Eq, Structural)]
pub enum IntegrationType {
    Kaneo,
}

/// A column of a project, with the slug that tasks in it carry as status.
#[derive(Clone, Debug)]
pub struct IntegrationColumn {
    pub id: String,
    pub name: String,
    pub slug: String,
    pub is_final: Option<bool>,
}

/// A label; `task_id` is set on a copy attached to one task.
#[derive(Clone, Debug)]
pub struct IntegrationLabel {
    pub id: String,
    pub name: String,
    pub color: String,
    pub task_id: Option<String>,
}

/// A task.
#[derive(Clone, Debug)]
pub struct IntegrationTask {
    pub id: String,
    pub title: String,
    pub project_id: String,
    pub description: Option<String>,
    pub status: String,
    pub priority: String,
    pub position: Option<TaskPosition>,
    pub due_date: Option<String>,
    pub start_date: Option<String>,
    pub assignee_id: Option<String>,
    pub number: Option<i64>,
    pub project_slug: Option<String>,
    pub assignee_name: Option<String>,
    pub created_at: String,
    pub updated_at: Option<String>,
    pub labels: Vec<IntegrationLabel>,
}

/// A board column with its tasks.
#[derive(Clone, Debug)]
pub struct IntegrationBoardColumn {
    pub id: String,
    pub name: String,
    pub slug: String,
    pub is_final: Option<bool>,
    pub tasks: Vec<IntegrationTask>,
}

/// A project.
#[derive(Clone, Debug)]
pub struct IntegrationProject {
    pub id: String,
    pub name: String,
    pub slug: String,
    pub workspace_id: Option<String>,
}

/// A whole task board.
#[derive(Clone, Debug)]
pub struct IntegrationBoard {
    pub project: IntegrationProject,
    pub columns: Vec<IntegrationBoardColumn>,
    pub labels: Vec<IntegrationLabel>,
}

/// A workspace.
#[derive(Clone, Debug)]
pub struct IntegrationWorkspace {
    pub id: String,
    pub name: String,
}

/// What creating a task sends to the tracker.
#[derive(Clone, Debug)]
pub struct CreateIntegrationTaskInput {
    pub project_id: String,
    pub title: String,
    pub body: String,
    pub status: String,
    pub priority: String,
}

/// What a full task update sends to the tracker: the edited title and body,
/// and every other field as the task holds it.
#[derive(Clone, Debug)]
pub struct UpdateIntegrationTaskInput {
    pub task_id: String,
    pub title: String,
    pub body: String,
    pub status: String,
    pub priority: String,
    pub project_id: String,
    pub position: TaskPosition,
    pub due_date: String,
    pub start_date: String,
    pub user_id: String,
}

} // verus!
