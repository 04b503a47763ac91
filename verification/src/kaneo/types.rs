//! Values exchanged with the Kaneo API, as plain data.
use vstd::prelude::*;

verus! {

/// The position of a task within its column, carried as the bit pattern of
/// the IEEE-754 double that Kaneo sends (`f64::to_bits`).
#[derive(Clone, Copy, Debug, PartialEq, Eq, Structural)]
pub struct TaskPosition {
    pub bits: u64,
}

/// A label attached to a task, as embedded in a task.
#[derive(Clone, Debug)]
pub struct KaneoTaskLabel {
    pub id: String,
    pub name: String,
    pub color: String,
}

/// A Kaneo task.
#[derive(Clone, Debug)]
pub struct KaneoTask {
    pub id: String,
    pub project_id: String,
    pub number: Option<i64>,
    pub position: Option<TaskPosition>,
    pub title: String,
    pub description: Option<String>,
    pub status: String,
    pub priority: String,
    pub created_at: String,
    pub due_date: Option<String>,
    pub start_date: Option<String>,
    pub user_id: Option<String>,
    pub updated_at: Option<String>,
    pub assignee_name: Option<String>,
    pub assignee_id: Option<String>,
    pub labels: Vec<KaneoTaskLabel>,
}

/// A column of a task board page, with its tasks.
#[derive(Clone, Debug)]
pub struct KaneoBoardColumn {
    pub id: String,
    pub name: String,
    pub status: Option<String>,
    pub is_final: Option<bool>,
    pub tasks: Vec<KaneoTask>,
}

/// The body of a task board page.
#[derive(Clone, Debug)]
pub struct KaneoBoardData {
    pub id: String,
    pub name: String,
    pub slug: String,
    pub columns: Vec<KaneoBoardColumn>,
    pub planned_tasks: Vec<KaneoTask>,
    pub archived_tasks: Vec<KaneoTask>,
}

/// A task board page as the API answers it.
#[derive(Clone, Debug)]
pub struct KaneoBoardResponse {
    pub data: KaneoBoardData,
}

/// A column of a project.
#[derive(Clone, Debug)]
pub struct KaneoColumn {
    pub id: String,
    pub project_id: String,
    pub name: String,
    pub position: i64,
    pub status: Option<String>,
    pub icon: Option<String>,
    pub color: Option<String>,
    pub is_final: Option<bool>,
}

/// A workspace label, or a copy of one attached to a task.
#[derive(Clone, Debug)]
pub struct KaneoLabel {
    pub id: String,
    pub name: String,
    pub color: String,
    pub workspace_id: Option<String>,
    pub task_id: Option<String>,
}

/// A project.
#[derive(Clone, Debug)]
pub struct KaneoProject {
    pub id: String,
    pub name: String,
    pub slug: String,
    pub workspace_id: String,
}

/// A workspace (an organization of the Kaneo instance).
#[derive(Clone, Debug)]
pub struct KaneoWorkspace {
    pub id: String,
    pub name: String,
}

/// A relation between two tasks.
#[derive(Clone, Debug)]
pub struct KaneoTaskRelation {
    pub source_task_id: String,
    pub target_task_id: String,
    pub relation_type: String,
}

} // verus!
