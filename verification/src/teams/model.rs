//! Teams, their members and settings, and who is asking.
use vstd::prelude::*;

verus! {

/// The prompt used to review a pull request when neither the project nor
/// the team sets one.
pub const DEFAULT_REVIEW_PROMPT_TEMPLATE: &'static str = "Review this pull request for the linked task.

Task title:
{{task_title}}

Task body:
{{task_body}}

Focus pull request:
{{review_target_pr_url}}

Repository:
{{repo_names}}

Read every AGENTS.md that applies to the changed directories and follow its instructions. Check that the changes are formatted and validated as those instructions require, and note any formatter, validation, or test commands that were not run. Review code quality, correctness, maintainability, and project conventions. Do not edit files, commit, push, or create pull requests. Post exactly one GitHub pull request review comment using gh. Use comment-only review, not approve or request changes. Include this marker in the review body: {{review_marker}}. If the marker already exists on the pull request, do not post another review.

The review body must use exactly these Markdown sections in this order:
## CRITICAL
- List defects that make the implementation unsafe, incorrect, or unusable. Use \"- None\" if empty.

## WARNINGS
- List defects that should be fixed before merging. Use \"- None\" if empty.

## SUGGESTIONS
- List optional improvements. Use \"- None\" if empty.

When done, call finish_run with status completed, review_url if available, review_body, and review_already_exists.";

/// The prompt used to work on a task when neither the project nor the team
/// sets one.
pub const DEFAULT_PROMPT_TEMPLATE: &'static str = "Work on the linked task.

Task title:
{{task_title}}

Task body:
{{task_body}}

Repository:
{{repo_names}}

Follow the repository AGENTS.md instructions. Implement the task, keep the change focused, run the formatter, validation and test commands the repository documents, and open a pull request that describes the change.";

/// A team and its settings.
#[derive(Clone, Debug)]
pub struct Team {
    pub id: u128,
    pub name: String,
    pub personal_user_id: Option<String>,
    pub prompt_template: String,
    pub agents_md: String,
    pub primary_model_provider_key: Option<String>,
    pub primary_model_id: Option<String>,
    pub small_model_provider_key: Option<String>,
    pub small_model_id: Option<String>,
    pub review_primary_model_provider_key: Option<String>,
    pub review_primary_model_id: Option<String>,
    pub review_small_model_provider_key: Option<String>,
    pub review_small_model_id: Option<String>,
    pub review_enabled: bool,
    pub review_pickup_column: String,
    pub review_max_turns: i32,
    pub review_prompt_template: String,
    pub max_in_progress_tasks: i32,
    /// The agent backend as stored; it may hold text that names no backend.
    pub agent_backend: String,
}

/// The agent runtime a team's work runs on.
#[derive(Clone, Copy, Debug, PartialEq, Eq, Structural)]
pub enum AgentBackend {
    OpenCode,
    OmpRpc,
}

/// A member of a team, with the member's role.
#[derive(Clone, Debug)]
pub struct TeamMemberInfo {
    pub team_id: u128,
    pub user_id: String,
    pub email: Option<String>,
    pub role: String,
    /// When the user joined, in microseconds since the Unix epoch.
    pub created_at: i64,
}

/// An identity of a user at a login provider, as listed to the user.
#[derive(Clone, Debug)]
pub struct ProviderIdentity {
    pub provider: String,
    pub provider_user_id: String,
    pub provider_login: String,
    /// When the provider last vouched for the identity, in microseconds
    /// since the Unix epoch.
    pub provider_verified_at: Option<i64>,
}

/// A request to create a team.
#[derive(Clone, Debug)]
pub struct CreateTeamRequest {
    pub name: String,
}

/// A request to change a team; absent fields stay as they are, and for the
/// doubly optional ones `Some(None)` clears the value.
#[derive(Clone, Debug)]
pub struct UpdateTeamRequest {
    pub name: Option<String>,
    pub prompt_template: Option<String>,
    pub agents_md: Option<String>,
    pub primary_model_provider_key: Option<Option<String>>,
    pub primary_model_provider_config_id: Option<Option<u128>>,
    pub primary_model_id: Option<Option<String>>,
    pub small_model_provider_key: Option<Option<String>>,
    pub small_model_provider_config_id: Option<Option<u128>>,
    pub small_model_id: Option<Option<String>>,
    pub review_primary_model_provider_key: Option<Option<String>>,
    pub review_primary_model_id: Option<Option<String>>,
    pub review_small_model_provider_key: Option<Option<String>>,
    pub review_small_model_id: Option<Option<String>>,
    pub review_enabled: Option<bool>,
    pub review_pickup_column: Option<String>,
    pub review_max_turns: Option<i32>,
    pub review_prompt_template: Option<String>,
    pub max_in_progress_tasks: Option<i32>,
    pub agent_backend: Option<AgentBackend>,
}

/// An identity of a user at a login provider.
#[derive(Clone, Debug)]
pub struct UserIdentity {
    pub user_id: String,
    pub provider_user_id: String,
    pub provider_login: String,
}

/// Who makes a request: the instance itself (with its password), or a
/// signed-in user; either may name the team it acts on.
#[derive(Clone, Debug)]
pub enum TeamPrincipal {
    Instance { team_id: Option<u128> },
    User { user_id: String, team_id: Option<u128> },
}

} // verus!
