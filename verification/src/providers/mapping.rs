//! Slugs for column names, and the mapping of Kaneo values into the
//! provider-neutral model.
use vstd::prelude::*;

use crate::kaneo::types::{
    KaneoBoardColumn, KaneoBoardResponse, KaneoColumn, KaneoLabel, KaneoProject, KaneoTask, KaneoTaskLabel,
    KaneoWorkspace,
};
use crate::providers::model::{
    IntegrationBoard, IntegrationBoardColumn, IntegrationColumn, IntegrationLabel,
    IntegrationProject, IntegrationTask, IntegrationWorkspace,
};
use crate::text::{
    chars_of, clone_opt, join_with, join_words, owned, string_of, to_lowercase, trim_chars,
    trim_ws, unicode_lowercase, ws_words,
};

verus! {

/// The slug of a column name: the words of its trimmed, lowercased text
/// joined with `-`.
pub open spec fn slug_of(name: Seq<char>) -> Seq<char> {
    join_with(ws_words(unicode_lowercase(trim_ws(name))), seq!['-'])
}

/// The characters of an optional string.
pub open spec fn opt_view(o: Option<String>) -> Option<Seq<char>> {
    match o {
        Some(s) => Some(s@),
        None => None,
    }
}

/// The slug of a column: its status when that is set and not empty, else
/// the slug of its name.
pub open spec fn column_slug_of(name: Seq<char>, status: Option<Seq<char>>) -> Seq<char> {
    match status {
        Some(s) => if s.len() > 0 {
            s
        } else {
            slug_of(name)
        },
        None => slug_of(name),
    }
}

/// Turns a column name into a slug: `"  In   Progress  "` becomes
/// `"in-progress"`.
pub fn column_name_to_slug(name: &str) -> (r: String)
    ensures
        r@ == slug_of(name@),
{
    let trimmed = string_of(&trim_chars(&chars_of(name)));
    let lower = to_lowercase(trimmed.as_str());
    let lower_chars = chars_of(lower.as_str());
    string_of(&join_words(&lower_chars, '-'))
}

/// The slug of a Kaneo column: its status slug when set, else the slug of its
/// name.
pub fn kaneo_column_slug(name: &str, status: Option<&str>) -> (r: String)
    ensures
        r@ == column_slug_of(
            name@,
            match status {
                Some(s) => Some(s@),
                None => None,
            },
        ),
{
    match status {
        Some(s) => {
            if s.is_empty() {
                column_name_to_slug(name)
            } else {
                owned(s)
            }
        },
        None => column_name_to_slug(name),
    }
}

/// `r` is `l` in the neutral model.
pub open spec fn label_image(r: IntegrationLabel, l: KaneoLabel) -> bool {
    &&& r.id == l.id
    &&& r.name == l.name
    &&& r.color == l.color
    &&& r.task_id == l.task_id
}

/// `r` is the task-embedded label `l` in the neutral model.
pub open spec fn task_label_image(r: IntegrationLabel, l: KaneoTaskLabel) -> bool {
    &&& r.id == l.id
    &&& r.name == l.name
    &&& r.color == l.color
    &&& r.task_id is None
}

/// `r` is the task `t` in the neutral model, tagged with the project slug
/// `slug`.
pub open spec fn task_image(r: IntegrationTask, t: KaneoTask, slug: Option<Seq<char>>) -> bool {
    &&& r.id == t.id
    &&& r.title == t.title
    &&& r.project_id == t.project_id
    &&& r.description == t.description
    &&& r.status == t.status
    &&& r.priority == t.priority
    &&& r.position == t.position
    &&& r.due_date == t.due_date
    &&& r.start_date == t.start_date
    &&& r.assignee_id == t.assignee_id
    &&& r.number == t.number
    &&& opt_view(r.project_slug) == slug
    &&& r.assignee_name == t.assignee_name
    &&& r.created_at == t.created_at
    &&& r.updated_at == t.updated_at
    &&& r.labels@.len() == t.labels@.len()
    &&& forall|i: int|
        0 <= i < t.labels@.len() ==> task_label_image(#[trigger] r.labels@[i], t.labels@[i])
}

/// `r` is `t`, task by task, each tagged with `slug`.
pub open spec fn tasks_image(r: Seq<IntegrationTask>, t: Seq<KaneoTask>, slug: Option<Seq<char>>) -> bool {
    &&& r.len() == t.len()
    &&& forall|i: int| 0 <= i < t.len() ==> task_image(#[trigger] r[i], t[i], slug)
}

/// `r` is the project column `c` in the neutral model.
pub open spec fn column_image(r: IntegrationColumn, c: KaneoColumn) -> bool {
    &&& r.id == c.id
    &&& r.name == c.name
    &&& r.slug@ == column_slug_of(c.name@, opt_view(c.status))
    &&& r.is_final == c.is_final
}

/// `r` is the board column `c` in the neutral model, its tasks tagged with
/// the project slug `slug`.
pub open spec fn board_column_image(r: IntegrationBoardColumn, c: KaneoBoardColumn, slug: Seq<char>) -> bool {
    &&& r.id == c.id
    &&& r.name == c.name
    &&& r.slug@ == column_slug_of(c.name@, opt_view(c.status))
    &&& r.is_final == c.is_final
    &&& tasks_image(r.tasks@, c.tasks@, Some(slug))
}

/// `r` is the synthetic column with the given id, name, slug and finality
/// that holds `tasks`.
pub open spec fn extra_column_image(
    r: IntegrationBoardColumn,
    id: Seq<char>,
    name: Seq<char>,
    is_final: bool,
    tasks: Seq<KaneoTask>,
    slug: Seq<char>,
) -> bool {
    &&& r.id@ == id
    &&& r.name@ == name
    &&& r.slug@ == id
    &&& r.is_final == Some(is_final)
    &&& tasks_image(r.tasks@, tasks, Some(slug))
}

/// `r` is the board `b` in the neutral model: the board's columns in order,
/// then a "planned" column when there are planned tasks, then an "archived"
/// column when there are archived tasks.
pub open spec fn board_image(r: IntegrationBoard, b: KaneoBoardResponse) -> bool {
    let d = b.data;
    let n = d.columns@.len();
    let has_planned = d.planned_tasks@.len() > 0;
    let has_archived = d.archived_tasks@.len() > 0;
    let archived_at: int = if has_planned { n + 1int } else { n as int };
    &&& r.project.id == d.id
    &&& r.project.name == d.name
    &&& r.project.slug == d.slug
    &&& r.project.workspace_id is None
    &&& r.labels@.len() == 0
    &&& r.columns@.len() == archived_at + if has_archived { 1int } else { 0 }
    &&& forall|i: int|
        0 <= i < n ==> board_column_image(#[trigger] r.columns@[i], d.columns@[i], d.slug@)
    &&& has_planned ==> extra_column_image(
        r.columns@[n as int],
        "planned"@,
        "Planned"@,
        false,
        d.planned_tasks@,
        d.slug@,
    )
    &&& has_archived ==> extra_column_image(
        r.columns@[archived_at],
        "archived"@,
        "Archived"@,
        true,
        d.archived_tasks@,
        d.slug@,
    )
}

/// Maps a workspace label.
pub fn kaneo_label_to_integration(label: &KaneoLabel) -> (r: IntegrationLabel)
    ensures
        label_image(r, *label),
{
    IntegrationLabel {
        id: label.id.clone(),
        name: label.name.clone(),
        color: label.color.clone(),
        task_id: clone_opt(&label.task_id),
    }
}

/// Maps a label embedded in a task.
pub fn kaneo_task_label_to_integration(label: &KaneoTaskLabel) -> (r: IntegrationLabel)
    ensures
        task_label_image(r, *label),
{
    IntegrationLabel {
        id: label.id.clone(),
        name: label.name.clone(),
        color: label.color.clone(),
        task_id: None,
    }
}

/// Maps a task, tagging it with the project slug when one is given.
pub fn kaneo_task_to_integration(task: &KaneoTask, project_slug: Option<&str>) -> (r: IntegrationTask)
    ensures
        task_image(
            r,
            *task,
            match project_slug {
                Some(s) => Some(s@),
                None => None,
            },
        ),
{
    let mut labels: Vec<IntegrationLabel> = Vec::new();
    let mut i: usize = 0;
    while i < task.labels.len()
        invariant
            i <= task.labels@.len(),
            labels@.len() == i,
            forall|j: int| 0 <= j < i ==> task_label_image(#[trigger] labels@[j], task.labels@[j]),
        decreases task.labels.len() - i,
    {
        labels.push(kaneo_task_label_to_integration(&task.labels[i]));
        i += 1;
    }
    IntegrationTask {
        id: task.id.clone(),
        title: task.title.clone(),
        project_id: task.project_id.clone(),
        description: clone_opt(&task.description),
        status: task.status.clone(),
        priority: task.priority.clone(),
        position: task.position,
        due_date: clone_opt(&task.due_date),
        start_date: clone_opt(&task.start_date),
        assignee_id: clone_opt(&task.assignee_id),
        number: task.number,
        project_slug: match project_slug {
            Some(s) => Some(owned(s)),
            None => None,
        },
        assignee_name: clone_opt(&task.assignee_name),
        created_at: task.created_at.clone(),
        updated_at: clone_opt(&task.updated_at),
        labels,
    }
}

/// Maps a list of tasks, each tagged with `project_slug`.
pub fn kaneo_tasks_to_integration(tasks: &Vec<KaneoTask>, project_slug: Option<&str>) -> (r: Vec<IntegrationTask>)
    ensures
        tasks_image(
            r@,
            tasks@,
            match project_slug {
                Some(s) => Some(s@),
                None => None,
            },
        ),
{
    let mut out: Vec<IntegrationTask> = Vec::new();
    let mut i: usize = 0;
    while i < tasks.len()
        invariant
            i <= tasks@.len(),
            out@.len() == i,
            forall|j: int|
                0 <= j < i ==> task_image(
                    #[trigger] out@[j],
                    tasks@[j],
                    match project_slug {
                        Some(s) => Some(s@),
                        None => None,
                    },
                ),
        decreases tasks.len() - i,
    {
        out.push(kaneo_task_to_integration(&tasks[i], project_slug));
        i += 1;
    }
    out
}

/// Maps a project column; its slug is the status slug when set.
pub fn kaneo_column_to_integration(column: &KaneoColumn) -> (r: IntegrationColumn)
    ensures
        column_image(r, *column),
{
    let status = match &column.status {
        Some(s) => Some(s.as_str()),
        None => None,
    };
    IntegrationColumn {
        id: column.id.clone(),
        name: column.name.clone(),
        slug: kaneo_column_slug(column.name.as_str(), status),
        is_final: column.is_final,
    }
}

/// Maps the columns of a project, in order.
pub fn kaneo_columns_to_integration(columns: &Vec<KaneoColumn>) -> (r: Vec<IntegrationColumn>)
    ensures
        r@.len() == columns@.len(),
        forall|i: int| 0 <= i < columns@.len() ==> column_image(#[trigger] r@[i], columns@[i]),
{
    let mut out: Vec<IntegrationColumn> = Vec::new();
    let mut i: usize = 0;
    while i < columns.len()
        invariant
            i <= columns@.len(),
            out@.len() == i,
            forall|j: int| 0 <= j < i ==> column_image(#[trigger] out@[j], columns@[j]),
        decreases columns.len() - i,
    {
        out.push(kaneo_column_to_integration(&columns[i]));
        i += 1;
    }
    out
}

/// Maps a project of a workspace; it keeps its workspace.
pub fn kaneo_project_to_integration(project: KaneoProject) -> (r: IntegrationProject)
    ensures
        r.id == project.id,
        r.name == project.name,
        r.slug == project.slug,
        r.workspace_id == Some(project.workspace_id),
{
    IntegrationProject {
        id: project.id,
        name: project.name,
        slug: project.slug,
        workspace_id: Some(project.workspace_id),
    }
}

/// Maps a workspace.
pub fn kaneo_workspace_to_integration(workspace: KaneoWorkspace) -> (r: IntegrationWorkspace)
    ensures
        r.id == workspace.id,
        r.name == workspace.name,
{
    IntegrationWorkspace { id: workspace.id, name: workspace.name }
}

/// Maps the labels of a workspace, in order.
pub fn kaneo_labels_to_integration(labels: &Vec<KaneoLabel>) -> (r: Vec<IntegrationLabel>)
    ensures
        r@.len() == labels@.len(),
        forall|i: int| 0 <= i < labels@.len() ==> label_image(#[trigger] r@[i], labels@[i]),
{
    let mut out: Vec<IntegrationLabel> = Vec::new();
    let mut i: usize = 0;
    while i < labels.len()
        invariant
            i <= labels@.len(),
            out@.len() == i,
            forall|j: int| 0 <= j < i ==> label_image(#[trigger] out@[j], labels@[j]),
        decreases labels.len() - i,
    {
        out.push(kaneo_label_to_integration(&labels[i]));
        i += 1;
    }
    out
}

/// Maps a board column, tagging its tasks with the project slug.
pub fn kaneo_board_column_to_integration(column: &KaneoBoardColumn, project_slug: &str) -> (r: IntegrationBoardColumn)
    ensures
        board_column_image(r, *column, project_slug@),
{
    let status = match &column.status {
        Some(s) => Some(s.as_str()),
        None => None,
    };
    IntegrationBoardColumn {
        id: column.id.clone(),
        name: column.name.clone(),
        slug: kaneo_column_slug(column.name.as_str(), status),
        is_final: column.is_final,
        tasks: kaneo_tasks_to_integration(&column.tasks, Some(project_slug)),
    }
}

/// Maps a whole board: its columns, then a "Planned" column for planned
/// tasks and an "Archived" column for archived tasks when there are any.
pub fn kaneo_board_to_integration(board: KaneoBoardResponse) -> (r: IntegrationBoard)
    ensures
        board_image(r, board),
{
    let data = board.data;
    let project = IntegrationProject {
        id: data.id.clone(),
        name: data.name.clone(),
        slug: data.slug.clone(),
        workspace_id: None,
    };
    let mut columns: Vec<IntegrationBoardColumn> = Vec::new();
    let mut i: usize = 0;
    while i < data.columns.len()
        invariant
            i <= data.columns@.len(),
            columns@.len() == i,
            project.slug == data.slug,
            forall|j: int|
                0 <= j < i ==> board_column_image(#[trigger] columns@[j], data.columns@[j], data.slug@),
        decreases data.columns.len() - i,
    {
        columns.push(kaneo_board_column_to_integration(&data.columns[i], project.slug.as_str()));
        i += 1;
    }
    let ghost n = columns@.len();
    if data.planned_tasks.len() > 0 {
        columns.push(
            IntegrationBoardColumn {
                id: owned("planned"),
                name: owned("Planned"),
                slug: owned("planned"),
                is_final: Some(false),
                tasks: kaneo_tasks_to_integration(&data.planned_tasks, Some(project.slug.as_str())),
            },
        );
    }
    if data.archived_tasks.len() > 0 {
        columns.push(
            IntegrationBoardColumn {
                id: owned("archived"),
                name: owned("Archived"),
                slug: owned("archived"),
                is_final: Some(true),
                tasks: kaneo_tasks_to_integration(&data.archived_tasks, Some(project.slug.as_str())),
            },
        );
    }
    IntegrationBoard { project, columns, labels: Vec::new() }
}

} // verus!
