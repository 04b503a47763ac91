//! Project configurations: what a team automates in one tracker project.
use vstd::prelude::*;

use crate::providers::model::{IntegrationColumn, IntegrationProject, IntegrationType, IntegrationWorkspace};
use crate::teams::model::AgentBackend;

verus! {

/// The configuration of one tracker project of a team.
#[derive(Clone, Debug)]
pub struct ProjectConfig {
    pub id: u128,
    pub team_id: u128,
    pub external_project_id: String,
    pub name: String,
    pub external_workspace_id: String,
    pub integration_type: IntegrationType,
    pub enabled: bool,
    pub pickup_column: String,
    pub target_column: String,
    pub progress_column: String,
    pub blocked_column: String,
    pub max_turns: i32,
    pub prompt_template: Option<String>,
    pub repo_url: String,
    pub repo_full_names: Vec<String>,
    pub repo_urls: Vec<String>,
    pub agents_md: Option<String>,
    pub opencode_config: String,
    pub primary_model_provider_key: Option<String>,
    pub primary_model_id: Option<String>,
    pub small_model_provider_key: Option<String>,
    pub small_model_id: Option<String>,
    pub review_enabled: Option<bool>,
    pub review_pickup_column: Option<String>,
    pub review_max_turns: Option<i32>,
    pub review_prompt_template: Option<String>,
    pub max_in_progress_tasks: Option<i32>,
    /// When the configuration was created, in microseconds since the Unix
    /// epoch.
    pub created_at: i64,
    pub provider_id: Option<u128>,
}

/// A request to add a project configuration.
#[derive(Clone, Debug)]
pub struct CreateProjectConfigRequest {
    pub external_project_id: String,
    pub name: String,
    pub external_workspace_id: String,
    pub enabled: bool,
    pub pickup_column: String,
    pub progress_column: String,
    pub target_column: String,
    pub blocked_column: String,
    pub max_turns: i32,
    pub prompt_template: Option<String>,
    pub repo_full_names: Vec<String>,
    pub agents_md: Option<String>,
    pub opencode_config: String,
    pub primary_model_provider_key: Option<String>,
    pub primary_model_provider_config_id: Option<u128>,
    pub primary_model_id: Option<String>,
    pub small_model_provider_key: Option<String>,
    pub small_model_provider_config_id: Option<u128>,
    pub small_model_id: Option<String>,
    pub review_enabled: Option<bool>,
    pub review_pickup_column: Option<String>,
    pub review_max_turns: Option<i32>,
    pub review_prompt_template: Option<String>,
    pub max_in_progress_tasks: Option<i32>,
    pub integration_type: IntegrationType,
    pub provider_id: u128,
}

/// A request to change a project configuration; absent fields stay as they
/// are, and for the doubly optional ones `Some(None)` clears the value.
#[derive(Clone, Debug)]
pub struct UpdateProjectConfigRequest {
    pub name: Option<String>,
    pub pickup_column: Option<String>,
    pub progress_column: Option<String>,
    pub target_column: Option<String>,
    pub blocked_column: Option<String>,
    pub max_turns: Option<i32>,
    pub prompt_template: Option<Option<String>>,
    pub repo_full_names: Option<Vec<String>>,
    pub agents_md: Option<Option<String>>,
    pub opencode_config: Option<String>,
    pub primary_model_provider_key: Option<Option<String>>,
    pub primary_model_id: Option<Option<String>>,
    pub small_model_provider_key: Option<Option<String>>,
    pub small_model_id: Option<Option<String>>,
    pub review_enabled: Option<Option<bool>>,
    pub review_pickup_column: Option<Option<String>>,
    pub review_max_turns: Option<Option<i32>>,
    pub review_prompt_template: Option<Option<String>>,
    pub max_in_progress_tasks: Option<Option<i32>>,
    pub external_workspace_id: Option<String>,
    pub enabled: Option<bool>,
    pub integration_type: Option<IntegrationType>,
    pub provider_id: Option<u128>,
}

/// A column of a project, as offered for choosing.
#[derive(Clone, Debug)]
pub struct ColumnInfo {
    pub id: String,
    pub name: String,
    pub slug: String,
}

/// A project found in a tracker, with its columns.
#[derive(Clone, Debug)]
pub struct LookupProjectResult {
    pub id: String,
    pub name: String,
    pub slug: String,
    pub columns: Vec<ColumnInfo>,
}

/// A workspace of a tracker.
#[derive(Clone, Debug)]
pub struct WorkspaceInfo {
    pub id: String,
    pub name: String,
}

/// A project of a tracker workspace.
#[derive(Clone, Debug)]
pub struct ProjectInfo {
    pub id: String,
    pub name: String,
    pub slug: String,
}

/// The fields of a configuration a job needs.
#[derive(Clone, Debug)]
pub struct JobConfigFields {
    pub team_id: u128,
    pub external_project_id: String,
    pub external_workspace_id: String,
    pub opencode_config: String,
    pub max_turns: i32,
    pub provider_id: Option<u128>,
    pub repo_url: String,
}

/// The settings a project works with: its own, or else its team's.
#[derive(Clone, Debug)]
pub struct EffectiveProjectSettings {
    pub prompt_template: String,
    pub agents_md: String,
    pub primary_model_provider_key: Option<String>,
    pub primary_model_id: Option<String>,
    pub small_model_provider_key: Option<String>,
    pub small_model_id: Option<String>,
    pub review_enabled: bool,
    pub review_pickup_column: String,
    pub review_max_turns: i32,
    pub review_prompt_template: String,
    pub max_in_progress_tasks: i32,
    pub agent_backend: AgentBackend,
}

impl Default for UpdateProjectConfigRequest {
    /// An update that changes nothing.
    fn default() -> (r: Self)
        ensures
            r.name is None,
            r.pickup_column is None,
            r.progress_column is None,
            r.target_column is None,
            r.blocked_column is None,
            r.max_turns is None,
            r.prompt_template is None,
            r.repo_full_names is None,
            r.agents_md is None,
            r.opencode_config is None,
            r.primary_model_provider_key is None,
            r.primary_model_id is None,
            r.small_model_provider_key is None,
            r.small_model_id is None,
            r.review_enabled is None,
            r.review_pickup_column is None,
            r.review_max_turns is None,
            r.review_prompt_template is None,
            r.max_in_progress_tasks is None,
            r.external_workspace_id is None,
            r.enabled is None,
            r.integration_type is None,
            r.provider_id is None,
    {
        UpdateProjectConfigRequest {
            name: None,
            pickup_column: None,
            progress_column: None,
            target_column: None,
            blocked_column: None,
            max_turns: None,
            prompt_template: None,
            repo_full_names: None,
            agents_md: None,
            opencode_config: None,
            primary_model_provider_key: None,
            primary_model_id: None,
            small_model_provider_key: None,
            small_model_id: None,
            review_enabled: None,
            review_pickup_column: None,
            review_max_turns: None,
            review_prompt_template: None,
            max_in_progress_tasks: None,
            external_workspace_id: None,
            enabled: None,
            integration_type: None,
            provider_id: None,
        }
    }
}

impl From<IntegrationWorkspace> for WorkspaceInfo {
    /// The workspace as offered.
    fn from(w: IntegrationWorkspace) -> (r: Self) {
        WorkspaceInfo { id: w.id, name: w.name }
    }
}

impl vstd::std_specs::convert::FromSpecImpl<IntegrationWorkspace> for WorkspaceInfo {
    open spec fn obeys_from_spec() -> bool {
        true
    }

    open spec fn from_spec(w: IntegrationWorkspace) -> Self {
        WorkspaceInfo { id: w.id, name: w.name }
    }
}

impl From<IntegrationProject> for ProjectInfo {
    /// The project as offered.
    fn from(p: IntegrationProject) -> (r: Self) {
        ProjectInfo { id: p.id, name: p.name, slug: p.slug }
    }
}

impl vstd::std_specs::convert::FromSpecImpl<IntegrationProject> for ProjectInfo {
    open spec fn obeys_from_spec() -> bool {
        true
    }

    open spec fn from_spec(p: IntegrationProject) -> Self {
        ProjectInfo { id: p.id, name: p.name, slug: p.slug }
    }
}

impl<'a> From<&'a IntegrationColumn> for ColumnInfo {
    /// The column as offered.
    fn from(col: &'a IntegrationColumn) -> (r: Self) {
        ColumnInfo { id: col.id.clone(), name: col.name.clone(), slug: col.slug.clone() }
    }
}

impl<'a> vstd::std_specs::convert::FromSpecImpl<&'a IntegrationColumn> for ColumnInfo {
    open spec fn obeys_from_spec() -> bool {
        true
    }

    open spec fn from_spec(col: &'a IntegrationColumn) -> Self {
        ColumnInfo { id: col.id, name: col.name, slug: col.slug }
    }
}

impl ProjectConfig {
    /// The fields of the configuration a job needs.
    pub fn job_fields(&self) -> (r: JobConfigFields)
        ensures
            r.team_id == self.team_id,
            r.external_project_id == self.external_project_id,
            r.external_workspace_id == self.external_workspace_id,
            r.opencode_config == self.opencode_config,
            r.max_turns == self.max_turns,
            r.provider_id == self.provider_id,
            r.repo_url == self.repo_url,
    {
        JobConfigFields {
            team_id: self.team_id,
            external_project_id: self.external_project_id.clone(),
            external_workspace_id: self.external_workspace_id.clone(),
            opencode_config: self.opencode_config.clone(),
            max_turns: self.max_turns,
            provider_id: self.provider_id,
            repo_url: self.repo_url.clone(),
        }
    }
}

impl Default for JobConfigFields {
    fn default() -> (r: Self)
        ensures
            r.team_id == 0,
            r.external_project_id@.len() == 0,
            r.external_workspace_id@.len() == 0,
            r.opencode_config@.len() == 0,
            r.max_turns == 0,
            r.provider_id is None,
            r.repo_url@.len() == 0,
    {
        JobConfigFields {
            team_id: 0,
            external_project_id: String::new(),
            external_workspace_id: String::new(),
            opencode_config: String::new(),
            max_turns: 0,
            provider_id: None,
            repo_url: String::new(),
        }
    }
}

/// New configurations are enabled unless the request says otherwise.
pub fn default_enabled() -> (r: bool)
    ensures
        r,
{
    true
}

/// The default pickup column slug.
pub fn default_pickup_column() -> (r: String)
    ensures
        r@ == "to-do"@,
{
    "to-do".to_owned()
}

/// The default progress column slug.
pub fn default_progress_column() -> (r: String)
    ensures
        r@ == "in-progress"@,
{
    "in-progress".to_owned()
}

/// The default target column slug.
pub fn default_target_column() -> (r: String)
    ensures
        r@ == "in-review"@,
{
    "in-review".to_owned()
}

/// The default blocked column.
pub fn default_blocked_column() -> (r: String)
    ensures
        r@ == "Blocked"@,
{
    "Blocked".to_owned()
}

/// The default number of agent turns.
pub fn default_max_turns() -> (r: i32)
    ensures
        r == 3,
{
    3
}

} // verus!
