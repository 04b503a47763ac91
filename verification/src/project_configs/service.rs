//! The rules of project configuration: column slugs must exist in the
//! tracker project, repositories name GitHub repositories, automation needs
//! a repository, and settings fall back to the team's.
use vstd::prelude::*;

use crate::project_configs::errors::ProjectConfigsError;
use crate::project_configs::model::{
    ColumnInfo, CreateProjectConfigRequest, EffectiveProjectSettings, LookupProjectResult, ProjectConfig,
    UpdateProjectConfigRequest,
};
use crate::providers::model::{IntegrationColumn, IntegrationProject};
use crate::teams::model::{AgentBackend, Team, DEFAULT_PROMPT_TEMPLATE, DEFAULT_REVIEW_PROMPT_TEMPLATE};
use crate::teams::settings::{agent_backend_name, parse_agent_backend};
use crate::text::{clone_opt, is_blank, owned, push_str, str_eq, string_of, trim_ws};

verus! {

/// The address every GitHub repository URL starts with.
pub const GITHUB_REPO_URL_PREFIX: &'static str = "https://github.com/";

/// Some column of the project has the slug `slug`.
pub open spec fn has_slug(columns: Seq<IntegrationColumn>, slug: Seq<char>) -> bool {
    exists|i: int| 0 <= i < columns.len() && (#[trigger] columns[i]).slug@ == slug
}

/// `r` accepts `input` as a column slug of the project, or refuses it as
/// an unknown column.
pub open spec fn resolved_slug(r: Result<String, ProjectConfigsError>, columns: Seq<IntegrationColumn>, input: Seq<char>) -> bool {
    if has_slug(columns, input) {
        r matches Ok(s) && s@ == input
    } else {
        r matches Err(ProjectConfigsError::ColumnNotFound(m)) && m@ == input
    }
}

/// Accepts a column slug that some column of the project has, and refuses
/// any other as an unknown column.
pub fn resolve_column_slug(columns: &Vec<IntegrationColumn>, input: &str) -> (r: Result<String, ProjectConfigsError>)
    ensures
        resolved_slug(r, columns@, input@),
{
    let mut i: usize = 0;
    while i < columns.len()
        invariant
            i <= columns@.len(),
            forall|j: int| 0 <= j < i ==> (#[trigger] columns@[j]).slug@ != input@,
        decreases columns.len() - i,
    {
        if str_eq(columns[i].slug.as_str(), input) {
            assert(columns@[i as int].slug@ == input@);
            return Ok(columns[i].slug.clone());
        }
        i += 1;
    }
    Err(ProjectConfigsError::ColumnNotFound(owned(input)))
}

/// Checks a column that is set against the project's columns; an unset
/// column is left as it is.
pub fn resolve_column_if_set(columns: &Vec<IntegrationColumn>, column: &mut Option<String>) -> (r: Result<(), ProjectConfigsError>)
    ensures
        match *old(column) {
            None => r is Ok && *final(column) == *old(column),
            Some(input) => if has_slug(columns@, input@) {
                r is Ok && (*final(column) matches Some(s) && s@ == input@)
            } else {
                r matches Err(ProjectConfigsError::ColumnNotFound(m)) && m@ == input@
            },
        },
{
    match column {
        Some(input) => {
            let resolved = resolve_column_slug(columns, input.as_str());
            match resolved {
                Ok(s) => {
                    *column = Some(s);
                    Ok(())
                },
                Err(e) => Err(e),
            }
        },
        None => Ok(()),
    }
}

/// Checks a column that an update sets to a value; leaving it unchanged or
/// clearing it needs no check.
pub fn resolve_nullable_column_if_set(columns: &Vec<IntegrationColumn>, column: &mut Option<Option<String>>) -> (r: Result<(), ProjectConfigsError>)
    ensures
        match *old(column) {
            Some(Some(input)) => if has_slug(columns@, input@) {
                r is Ok && (*final(column) matches Some(Some(s)) && s@ == input@)
            } else {
                r matches Err(ProjectConfigsError::ColumnNotFound(m)) && m@ == input@
            },
            _ => r is Ok && *final(column) == *old(column),
        },
{
    match column {
        Some(Some(input)) => {
            let resolved = resolve_column_slug(columns, input.as_str());
            match resolved {
                Ok(s) => {
                    *column = Some(Some(s));
                    Ok(())
                },
                Err(e) => Err(e),
            }
        },
        _ => Ok(()),
    }
}

/// Whether an update changes any column, so that the project's columns
/// must be fetched to check it.
pub fn has_column_changes(params: &UpdateProjectConfigRequest) -> (r: bool)
    ensures
        r == (params.pickup_column is Some || params.progress_column is Some || params.target_column is Some
            || params.review_pickup_column is Some),
{
    params.pickup_column.is_some() || params.progress_column.is_some() || params.target_column.is_some()
        || params.review_pickup_column.is_some()
}

/// An optional column is unset or names a column of the project.
pub open spec fn set_column_known(columns: Seq<IntegrationColumn>, column: Option<String>) -> bool {
    column matches Some(c) ==> has_slug(columns, c@)
}

/// The columns an update sets, checked against the project's columns in
/// order: pickup, progress, target, then the review pickup column when it is
/// set to a value. Answers the first unknown one; unset columns need no
/// check.
pub fn check_update_columns(columns: &Vec<IntegrationColumn>, params: &UpdateProjectConfigRequest) -> (r: Result<(), ProjectConfigsError>)
    ensures
        ({
            let p = *params;
            let review = match p.review_pickup_column {
                Some(inner) => inner,
                None => None,
            };
            let pick = set_column_known(columns@, p.pickup_column);
            let prog = set_column_known(columns@, p.progress_column);
            let targ = set_column_known(columns@, p.target_column);
            let rev = set_column_known(columns@, review);
            &&& (pick && prog && targ && rev) <==> r is Ok
            &&& !pick ==> (p.pickup_column matches Some(c) && not_found(r, c@))
            &&& pick && !prog ==> (p.progress_column matches Some(c) && not_found(r, c@))
            &&& pick && prog && !targ ==> (p.target_column matches Some(c) && not_found(r, c@))
            &&& pick && prog && targ && !rev ==> (review matches Some(c) && not_found(r, c@))
        }),
{
    if let Some(c) = &params.pickup_column {
        resolve_column_slug(columns, c.as_str())?;
    }
    if let Some(c) = &params.progress_column {
        resolve_column_slug(columns, c.as_str())?;
    }
    if let Some(c) = &params.target_column {
        resolve_column_slug(columns, c.as_str())?;
    }
    if let Some(Some(c)) = &params.review_pickup_column {
        resolve_column_slug(columns, c.as_str())?;
    }
    Ok(())
}

/// `r` refuses `column` as unknown.
pub open spec fn not_found<T>(r: Result<T, ProjectConfigsError>, column: Seq<char>) -> bool {
    r matches Err(ProjectConfigsError::ColumnNotFound(m)) && m@ == column
}

/// The columns a new configuration names, checked against the project's
/// columns in order: pickup, progress, target, then the review pickup column
/// when set. Answers the first unknown one.
pub fn check_create_columns(columns: &Vec<IntegrationColumn>, params: &CreateProjectConfigRequest) -> (r: Result<(), ProjectConfigsError>)
    ensures
        ({
            let p = *params;
            let review_ok = p.review_pickup_column matches Some(c) ==> has_slug(columns@, c@);
            let ok = has_slug(columns@, p.pickup_column@) && has_slug(columns@, p.progress_column@)
                && has_slug(columns@, p.target_column@) && review_ok;
            &&& ok ==> r is Ok
            &&& !has_slug(columns@, p.pickup_column@) ==> not_found(r, p.pickup_column@)
            &&& has_slug(columns@, p.pickup_column@) && !has_slug(columns@, p.progress_column@) ==> not_found(r, p.progress_column@)
            &&& has_slug(columns@, p.pickup_column@) && has_slug(columns@, p.progress_column@)
                && !has_slug(columns@, p.target_column@) ==> not_found(r, p.target_column@)
            &&& has_slug(columns@, p.pickup_column@) && has_slug(columns@, p.progress_column@)
                && has_slug(columns@, p.target_column@) && !review_ok ==> (p.review_pickup_column matches Some(c)
                && not_found(r, c@))
        }),
{
    resolve_column_slug(columns, params.pickup_column.as_str())?;
    resolve_column_slug(columns, params.progress_column.as_str())?;
    resolve_column_slug(columns, params.target_column.as_str())?;
    match &params.review_pickup_column {
        Some(c) => {
            resolve_column_slug(columns, c.as_str())?;
            Ok(())
        },
        None => Ok(()),
    }
}

/// A name list holds a repository when some name is not empty.
pub open spec fn names_a_repository(names: Seq<String>) -> bool {
    exists|i: int| 0 <= i < names.len() && (#[trigger] names[i])@.len() > 0
}

fn has_repository(names: &Vec<String>) -> (r: bool)
    ensures
        r == names_a_repository(names@),
{
    let mut i: usize = 0;
    while i < names.len()
        invariant
            i <= names@.len(),
            forall|j: int| 0 <= j < i ==> (#[trigger] names@[j])@.len() == 0,
        decreases names.len() - i,
    {
        if !names[i].as_str().is_empty() {
            return true;
        }
        i += 1;
    }
    false
}

/// A new configuration with automation enabled must name a repository.
pub fn check_create_repositories(params: &CreateProjectConfigRequest) -> (r: Result<(), ProjectConfigsError>)
    ensures
        params.enabled && !names_a_repository(params.repo_full_names@) ==> r matches Err(
            ProjectConfigsError::RepositoriesRequired,
        ),
        !(params.enabled && !names_a_repository(params.repo_full_names@)) ==> r is Ok,
{
    if params.enabled && !has_repository(&params.repo_full_names) {
        Err(ProjectConfigsError::RepositoriesRequired)
    } else {
        Ok(())
    }
}

/// An update that enables automation must leave the configuration with a
/// repository: the update's repository list when it has one, else the
/// current one.
pub fn check_update_repositories(existing: &ProjectConfig, params: &UpdateProjectConfigRequest) -> (r: Result<(), ProjectConfigsError>)
    ensures
        ({
            let repos = match params.repo_full_names {
                Some(names) => names@,
                None => existing.repo_full_names@,
            };
            &&& params.enabled == Some(true) && !names_a_repository(repos) ==> (r matches Err(
                ProjectConfigsError::RepositoriesRequired,
            ))
            &&& !(params.enabled == Some(true) && !names_a_repository(repos)) ==> r is Ok
        }),
{
    let enabling = match params.enabled {
        Some(e) => e,
        None => false,
    };
    if !enabling {
        return Ok(());
    }
    let has = match &params.repo_full_names {
        Some(names) => has_repository(names),
        None => has_repository(&existing.repo_full_names),
    };
    if has {
        Ok(())
    } else {
        Err(ProjectConfigsError::RepositoriesRequired)
    }
}

/// The URL of a GitHub repository given as `owner/name`.
pub fn github_repo_url(full_name: &str) -> (r: String)
    ensures
        r@ == GITHUB_REPO_URL_PREFIX@ + full_name@,
{
    let mut out: Vec<char> = Vec::new();
    push_str(&mut out, GITHUB_REPO_URL_PREFIX);
    push_str(&mut out, full_name);
    string_of(&out)
}

/// The URL of the first repository, or an empty text when there is none.
pub fn first_repo_url(repo_full_names: &Vec<String>) -> (r: String)
    ensures
        repo_full_names@.len() > 0 ==> r@ == GITHUB_REPO_URL_PREFIX@ + repo_full_names@[0]@,
        repo_full_names@.len() == 0 ==> r@.len() == 0,
{
    if repo_full_names.len() > 0 {
        github_repo_url(repo_full_names[0].as_str())
    } else {
        String::new()
    }
}

/// The repository URL an update sets: that of the first repository of the
/// update's list; nothing when the list is absent or empty.
pub fn update_repo_url(repo_full_names: &Option<Vec<String>>) -> (r: Option<String>)
    ensures
        match *repo_full_names {
            Some(names) => if names@.len() > 0 {
                r matches Some(u) && u@ == GITHUB_REPO_URL_PREFIX@ + names@[0]@
            } else {
                r is None
            },
            None => r is None,
        },
{
    match repo_full_names {
        Some(names) => if names.len() > 0 {
            Some(github_repo_url(names[0].as_str()))
        } else {
            None
        },
        None => None,
    }
}

/// A configuration belongs to the team acting on it; to any other team it
/// does not exist.
pub fn ensure_team_config(config: &ProjectConfig, team_id: u128) -> (r: Result<(), ProjectConfigsError>)
    ensures
        config.team_id == team_id ==> r is Ok,
        config.team_id != team_id ==> r matches Err(ProjectConfigsError::NotFound),
{
    if config.team_id != team_id {
        Err(ProjectConfigsError::NotFound)
    } else {
        Ok(())
    }
}

/// The provider an update works with: the one it names, else the one the
/// configuration has; without either there is no provider.
pub fn resolve_update_provider(requested: Option<u128>, existing: Option<u128>) -> (r: Result<u128, ProjectConfigsError>)
    ensures
        match requested {
            Some(p) => r == Ok::<u128, ProjectConfigsError>(p),
            None => match existing {
                Some(p) => r == Ok::<u128, ProjectConfigsError>(p),
                None => r matches Err(ProjectConfigsError::NoProvider),
            },
        },
{
    match requested {
        Some(pid) => Ok(pid),
        None => match existing {
            Some(pid) => Ok(pid),
            None => Err(ProjectConfigsError::NoProvider),
        },
    }
}

/// What an update of a configuration does once it is allowed: the provider
/// it works with, whether the columns it sets must be checked against the
/// project, and the repository URL it stores, if any.
#[derive(Clone, Debug)]
pub struct UpdatePlan {
    pub provider_id: u128,
    pub check_columns: bool,
    pub repo_url: Option<String>,
}

/// The repositories a configuration has after an update: the update's list
/// when it gives one, else the current one.
pub open spec fn repos_after(existing: ProjectConfig, params: UpdateProjectConfigRequest) -> Seq<String> {
    match params.repo_full_names {
        Some(names) => names@,
        None => existing.repo_full_names@,
    }
}

/// The checks an update passes before anything is fetched or written, in
/// order: the configuration belongs to the team, enabling automation leaves
/// a repository, and some provider is named or already set. Then the plan:
/// the provider, whether columns are set, and the first repository's URL.
pub fn plan_update(existing: &ProjectConfig, team_id: u128, params: &UpdateProjectConfigRequest) -> (r: Result<
    UpdatePlan,
    ProjectConfigsError,
>)
    ensures
        existing.team_id != team_id ==> r matches Err(ProjectConfigsError::NotFound),
        existing.team_id == team_id && params.enabled == Some(true) && !names_a_repository(
            repos_after(*existing, *params),
        ) ==> r matches Err(ProjectConfigsError::RepositoriesRequired),
        existing.team_id == team_id && !(params.enabled == Some(true) && !names_a_repository(
            repos_after(*existing, *params),
        )) ==> match params.provider_id {
            Some(p) => r matches Ok(plan) && plan.provider_id == p,
            None => match existing.provider_id {
                Some(p) => r matches Ok(plan) && plan.provider_id == p,
                None => r matches Err(ProjectConfigsError::NoProvider),
            },
        },
        r matches Ok(plan) ==> {
            &&& plan.check_columns == (params.pickup_column is Some || params.progress_column is Some
                || params.target_column is Some || params.review_pickup_column is Some)
            &&& match params.repo_full_names {
                Some(names) => if names@.len() > 0 {
                    plan.repo_url matches Some(u) && u@ == GITHUB_REPO_URL_PREFIX@ + names@[0]@
                } else {
                    plan.repo_url is None
                },
                None => plan.repo_url is None,
            }
        },
{
    ensure_team_config(existing, team_id)?;
    check_update_repositories(existing, params)?;
    let provider_id = resolve_update_provider(params.provider_id, existing.provider_id)?;
    Ok(UpdatePlan {
        provider_id,
        check_columns: has_column_changes(params),
        repo_url: update_repo_url(&params.repo_full_names),
    })
}

/// A legacy model provider key counts only when it is not empty.
pub fn legacy_provider_key(provider_key: Option<&str>) -> (r: Option<&str>)
    ensures
        match provider_key {
            Some(k) => if k@.len() > 0 {
                r == Some(k)
            } else {
                r is None
            },
            None => r is None,
        },
{
    match provider_key {
        Some(k) => if k.is_empty() {
            None
        } else {
            Some(k)
        },
        None => None,
    }
}

/// The prompt a project uses: its own unless blank, else the team's unless
/// blank, else `default`.
pub open spec fn effective_template(config: Option<Seq<char>>, team: Seq<char>, default: Seq<char>) -> Seq<char> {
    match config {
        Some(t) if trim_ws(t).len() > 0 => t,
        _ => if trim_ws(team).len() > 0 {
            team
        } else {
            default
        },
    }
}

fn template_with_default(config_template: Option<&str>, team_template: &str, default: &str) -> (r: String)
    ensures
        r@ == effective_template(
            match config_template {
                Some(t) => Some(t@),
                None => None,
            },
            team_template@,
            default@,
        ),
{
    match config_template {
        Some(template) => {
            if !is_blank(template) {
                return owned(template);
            }
        },
        None => {},
    }
    if is_blank(team_template) {
        owned(default)
    } else {
        owned(team_template)
    }
}

/// The review prompt a project uses: its own unless blank, else the team's
/// unless blank, else the default review prompt.
pub fn effective_review_prompt_template(config_template: Option<&str>, team_template: &str) -> (r: String)
    ensures
        r@ == effective_template(
            match config_template {
                Some(t) => Some(t@),
                None => None,
            },
            team_template@,
            DEFAULT_REVIEW_PROMPT_TEMPLATE@,
        ),
{
    template_with_default(config_template, team_template, DEFAULT_REVIEW_PROMPT_TEMPLATE)
}

/// The work prompt a project uses: its own unless blank, else the team's
/// unless blank, else the default prompt.
pub fn effective_prompt_template(config_template: Option<&str>, team_template: &str) -> (r: String)
    ensures
        r@ == effective_template(
            match config_template {
                Some(t) => Some(t@),
                None => None,
            },
            team_template@,
            DEFAULT_PROMPT_TEMPLATE@,
        ),
{
    template_with_default(config_template, team_template, DEFAULT_PROMPT_TEMPLATE)
}

/// The optional text of an optional string.
pub open spec fn opt_chars(o: Option<String>) -> Option<Seq<char>> {
    match o {
        Some(s) => Some(s@),
        None => None,
    }
}

fn as_deref(o: &Option<String>) -> (r: Option<&str>)
    ensures
        match *o {
            Some(s) => r matches Some(t) && t@ == s@,
            None => r is None,
        },
{
    match o {
        Some(s) => Some(s.as_str()),
        None => None,
    }
}

fn or_else(a: &Option<String>, b: &Option<String>) -> (r: Option<String>)
    ensures
        r == match *a {
            Some(_) => *a,
            None => *b,
        },
{
    match a {
        Some(_) => clone_opt(a),
        None => clone_opt(b),
    }
}

/// The settings a project works with: each setting the project leaves
/// unset comes from its team, and blank prompts fall back to the team's
/// and then to the defaults. The team's stored agent backend must name a
/// backend; otherwise the settings are refused, never defaulted.
pub fn effective_settings(config: &ProjectConfig, team: &Team) -> (res: Result<EffectiveProjectSettings, ProjectConfigsError>)
    ensures
        (forall|b: AgentBackend| agent_backend_name(b) != team.agent_backend@) ==> (res matches Err(
            ProjectConfigsError::InvalidAgentBackend(m),
        ) && m@ == team.agent_backend@),
        (exists|b: AgentBackend| agent_backend_name(b) == team.agent_backend@) ==> (res is Ok),
        res matches Ok(r) ==> agent_backend_name(r.agent_backend) == team.agent_backend@,
        res matches Ok(r) ==> {
            &&& r.prompt_template@ == effective_template(opt_chars(config.prompt_template), team.prompt_template@, DEFAULT_PROMPT_TEMPLATE@)
            &&& r.agents_md == match config.agents_md {
                Some(a) => a,
                None => team.agents_md,
            }
            &&& r.primary_model_provider_key == match config.primary_model_provider_key {
                Some(_) => config.primary_model_provider_key,
                None => team.primary_model_provider_key,
            }
            &&& r.primary_model_id == match config.primary_model_id {
                Some(_) => config.primary_model_id,
                None => team.primary_model_id,
            }
            &&& r.small_model_provider_key == match config.small_model_provider_key {
                Some(_) => config.small_model_provider_key,
                None => team.small_model_provider_key,
            }
            &&& r.small_model_id == match config.small_model_id {
                Some(_) => config.small_model_id,
                None => team.small_model_id,
            }
            &&& r.review_enabled == match config.review_enabled {
                Some(b) => b,
                None => team.review_enabled,
            }
            &&& r.review_pickup_column == match config.review_pickup_column {
                Some(c) => c,
                None => team.review_pickup_column,
            }
            &&& r.review_max_turns == match config.review_max_turns {
                Some(n) => n,
                None => team.review_max_turns,
            }
            &&& r.review_prompt_template@ == effective_template(
                opt_chars(config.review_prompt_template),
                team.review_prompt_template@,
                DEFAULT_REVIEW_PROMPT_TEMPLATE@,
            )
            &&& r.max_in_progress_tasks == match config.max_in_progress_tasks {
                Some(n) => n,
                None => team.max_in_progress_tasks,
            }
        },
{
    let backend = match parse_agent_backend(team.agent_backend.as_str()) {
        Some(b) => b,
        None => return Err(ProjectConfigsError::InvalidAgentBackend(team.agent_backend.clone())),
    };
    Ok(EffectiveProjectSettings {
        prompt_template: effective_prompt_template(as_deref(&config.prompt_template), team.prompt_template.as_str()),
        agents_md: match &config.agents_md {
            Some(a) => a.clone(),
            None => team.agents_md.clone(),
        },
        primary_model_provider_key: or_else(&config.primary_model_provider_key, &team.primary_model_provider_key),
        primary_model_id: or_else(&config.primary_model_id, &team.primary_model_id),
        small_model_provider_key: or_else(&config.small_model_provider_key, &team.small_model_provider_key),
        small_model_id: or_else(&config.small_model_id, &team.small_model_id),
        review_enabled: match config.review_enabled {
            Some(b) => b,
            None => team.review_enabled,
        },
        review_pickup_column: match &config.review_pickup_column {
            Some(c) => c.clone(),
            None => team.review_pickup_column.clone(),
        },
        review_max_turns: match config.review_max_turns {
            Some(n) => n,
            None => team.review_max_turns,
        },
        review_prompt_template: effective_review_prompt_template(
            as_deref(&config.review_prompt_template),
            team.review_prompt_template.as_str(),
        ),
        max_in_progress_tasks: match config.max_in_progress_tasks {
            Some(n) => n,
            None => team.max_in_progress_tasks,
        },
        agent_backend: backend,
    })
}

/// A project found in a tracker, with its columns as offered.
pub fn lookup_project_result(project: IntegrationProject, columns: &Vec<IntegrationColumn>) -> (r: LookupProjectResult)
    ensures
        r.id == project.id,
        r.name == project.name,
        r.slug == project.slug,
        r.columns@.len() == columns@.len(),
        forall|i: int|
            0 <= i < columns@.len() ==> (#[trigger] r.columns@[i]).id == columns@[i].id && r.columns@[i].name
                == columns@[i].name && r.columns@[i].slug == columns@[i].slug,
{
    let mut out: Vec<ColumnInfo> = Vec::new();
    let mut i: usize = 0;
    while i < columns.len()
        invariant
            i <= columns@.len(),
            out@.len() == i,
            forall|j: int|
                0 <= j < i ==> (#[trigger] out@[j]).id == columns@[j].id && out@[j].name == columns@[j].name
                    && out@[j].slug == columns@[j].slug,
        decreases columns.len() - i,
    {
        out.push(ColumnInfo::from(&columns[i]));
        i += 1;
    }
    LookupProjectResult { id: project.id, name: project.name, slug: project.slug, columns: out }
}

} // verus!
