//! The settings of a Kaneo client and the requests it sends, as values.
use vstd::prelude::*;

use crate::kaneo::types::TaskPosition;
use crate::providers::model::{IntegrationType, UpdateIntegrationTaskInput};
use crate::text::{clone_opt, owned, push_str, string_of};

verus! {

/// Where a Kaneo instance is and the key to use it.
#[derive(Clone, Debug)]
pub struct KaneoClient {
    pub instance: String,
    pub api_key: String,
}

/// The body of a full task update.
#[derive(Clone, Debug)]
pub struct UpdateTaskBody {
    pub title: String,
    pub description: String,
    pub priority: String,
    pub status: String,
    pub project_id: String,
    pub position: TaskPosition,
    pub due_date: Option<String>,
    pub start_date: Option<String>,
    pub user_id: Option<String>,
}

/// An optional field of a request: absent when empty.
pub open spec fn present(s: String) -> Option<String> {
    if s@.len() == 0 {
        None
    } else {
        Some(s)
    }
}

fn present_exec(s: &String) -> (r: Option<String>)
    ensures
        r == present(*s),
{
    if s.as_str().is_empty() {
        None
    } else {
        Some(s.clone())
    }
}

/// `prefix` followed by `id`.
pub fn path_with(prefix: &str, id: &str) -> (r: String)
    ensures
        r@ == prefix@ + id@,
{
    let mut out: Vec<char> = Vec::new();
    push_str(&mut out, prefix);
    push_str(&mut out, id);
    string_of(&out)
}

impl KaneoClient {
    /// A client for the instance at `instance` using `api_key`.
    pub fn new(instance: String, api_key: String) -> (r: Self)
        ensures
            r.instance == instance,
            r.api_key == api_key,
    {
        KaneoClient { instance, api_key }
    }

    /// The kind of provider this client talks to.
    pub fn provider_type(&self) -> (r: IntegrationType)
        ensures
            r == IntegrationType::Kaneo,
    {
        IntegrationType::Kaneo
    }

    /// The path that updates the description of a task.
    pub fn task_description_path(task_id: &str) -> (r: String)
        ensures
            r@ == "/task/description/"@ + task_id@,
    {
        path_with("/task/description/", task_id)
    }
}

/// The path and body of a full task update: the task's own path, and every
/// field of the input, the optional ones only when not empty.
pub fn update_task_request(input: &UpdateIntegrationTaskInput) -> (r: (String, UpdateTaskBody))
    ensures
        r.0@ == "/task/"@ + input.task_id@,
        r.1.title == input.title,
        r.1.description == input.body,
        r.1.priority == input.priority,
        r.1.status == input.status,
        r.1.project_id == input.project_id,
        r.1.position == input.position,
        r.1.due_date == present(input.due_date),
        r.1.start_date == present(input.start_date),
        r.1.user_id == present(input.user_id),
{
    (
        path_with("/task/", input.task_id.as_str()),
        UpdateTaskBody {
            title: input.title.clone(),
            description: input.body.clone(),
            priority: input.priority.clone(),
            status: input.status.clone(),
            project_id: input.project_id.clone(),
            position: input.position,
            due_date: present_exec(&input.due_date),
            start_date: present_exec(&input.start_date),
            user_id: present_exec(&input.user_id),
        },
    )
}

} // verus!
