use vulcanum_server::project_configs::errors::ProjectConfigsError;
use vulcanum_server::project_configs::model::{
    default_blocked_column, default_enabled, default_max_turns, default_pickup_column, default_progress_column,
    default_target_column, ColumnInfo, CreateProjectConfigRequest, JobConfigFields, ProjectConfig, ProjectInfo,
    UpdateProjectConfigRequest, WorkspaceInfo,
};
use vulcanum_server::project_configs::repository::ProjectConfigsRepository;
use vulcanum_server::project_configs::service::{
    check_create_columns, check_create_repositories, check_update_columns, check_update_repositories,
    effective_prompt_template, effective_review_prompt_template, effective_settings, ensure_team_config,
    first_repo_url, github_repo_url, has_column_changes, legacy_provider_key, lookup_project_result, plan_update,
    resolve_column_if_set, resolve_column_slug, resolve_nullable_column_if_set, resolve_update_provider,
    update_repo_url, GITHUB_REPO_URL_PREFIX,
};
use vulcanum_server::providers::model::{IntegrationColumn, IntegrationProject, IntegrationType, IntegrationWorkspace};
use vulcanum_server::teams::model::{AgentBackend, Team, DEFAULT_PROMPT_TEMPLATE, DEFAULT_REVIEW_PROMPT_TEMPLATE};

fn column(slug: &str) -> IntegrationColumn {
    IntegrationColumn { id: format!("id-{slug}"), name: slug.to_uppercase(), slug: slug.to_owned(), is_final: None }
}

fn columns() -> Vec<IntegrationColumn> {
    vec![column("to-do"), column("in-progress"), column("in-review"), column("review")]
}

fn not_found<T: std::fmt::Debug>(r: Result<T, ProjectConfigsError>) -> String {
    match r {
        Err(ProjectConfigsError::ColumnNotFound(c)) => c,
        other => panic!("expected an unknown column, got {other:?}"),
    }
}

fn config(team_id: u128) -> ProjectConfig {
    ProjectConfig {
        id: 1,
        team_id,
        external_project_id: "external-1".to_owned(),
        name: "Project".to_owned(),
        external_workspace_id: "workspace-1".to_owned(),
        integration_type: IntegrationType::Kaneo,
        enabled: false,
        pickup_column: "to-do".to_owned(),
        target_column: "in-review".to_owned(),
        progress_column: "in-progress".to_owned(),
        blocked_column: "Blocked".to_owned(),
        max_turns: 3,
        prompt_template: None,
        repo_url: "https://github.com/acme/app".to_owned(),
        repo_full_names: Vec::new(),
        repo_urls: Vec::new(),
        agents_md: None,
        opencode_config: "{}".to_owned(),
        primary_model_provider_key: None,
        primary_model_id: None,
        small_model_provider_key: None,
        small_model_id: None,
        review_enabled: None,
        review_pickup_column: None,
        review_max_turns: None,
        review_prompt_template: None,
        max_in_progress_tasks: None,
        created_at: 0,
        provider_id: Some(5),
    }
}

fn create_request() -> CreateProjectConfigRequest {
    CreateProjectConfigRequest {
        external_project_id: "external-1".to_owned(),
        name: "Project".to_owned(),
        external_workspace_id: "workspace-1".to_owned(),
        enabled: true,
        pickup_column: "to-do".to_owned(),
        progress_column: "in-progress".to_owned(),
        target_column: "in-review".to_owned(),
        blocked_column: "Blocked".to_owned(),
        max_turns: 3,
        prompt_template: None,
        repo_full_names: vec!["acme/app".to_owned()],
        agents_md: None,
        opencode_config: String::new(),
        primary_model_provider_key: None,
        primary_model_provider_config_id: None,
        primary_model_id: None,
        small_model_provider_key: None,
        small_model_provider_config_id: None,
        small_model_id: None,
        review_enabled: None,
        review_pickup_column: None,
        review_max_turns: None,
        review_prompt_template: None,
        max_in_progress_tasks: None,
        integration_type: IntegrationType::Kaneo,
        provider_id: 5,
    }
}

fn update_request() -> UpdateProjectConfigRequest {
    UpdateProjectConfigRequest::default()
}

fn team() -> Team {
    Team {
        id: 2,
        name: "Team".to_owned(),
        personal_user_id: None,
        prompt_template: String::new(),
        agents_md: "team agents".to_owned(),
        primary_model_provider_key: Some("team-provider".to_owned()),
        primary_model_id: Some("team-model".to_owned()),
        small_model_provider_key: None,
        small_model_id: None,
        review_primary_model_provider_key: None,
        review_primary_model_id: None,
        review_small_model_provider_key: None,
        review_small_model_id: None,
        review_enabled: true,
        review_pickup_column: "review".to_owned(),
        review_max_turns: 4,
        review_prompt_template: "  ".to_owned(),
        max_in_progress_tasks: 2,
        agent_backend: "omp_rpc".to_owned(),
    }
}

#[test]
fn repository_handle_is_stateless() {
    let _ = ProjectConfigsRepository::new();
    let _ = ProjectConfigsRepository::default();
}

#[test]
fn column_slug_must_exist_in_project() {
    assert_eq!(resolve_column_slug(&columns(), "in-review").expect("known"), "in-review");
    assert_eq!(not_found(resolve_column_slug(&columns(), "IN-REVIEW")), "IN-REVIEW");
    assert_eq!(not_found(resolve_column_slug(&Vec::new(), "to-do")), "to-do");
}

#[test]
fn optional_columns_are_checked_only_when_set() {
    let mut unset: Option<String> = None;
    assert!(resolve_column_if_set(&columns(), &mut unset).is_ok());
    assert_eq!(unset, None);
    let mut set = Some("review".to_owned());
    assert!(resolve_column_if_set(&columns(), &mut set).is_ok());
    assert_eq!(set.as_deref(), Some("review"));
    let mut bad = Some("nope".to_owned());
    assert_eq!(not_found(resolve_column_if_set(&columns(), &mut bad)), "nope");

    let mut cleared: Option<Option<String>> = Some(None);
    assert!(resolve_nullable_column_if_set(&columns(), &mut cleared).is_ok());
    assert_eq!(cleared, Some(None));
    let mut bad = Some(Some("nope".to_owned()));
    assert_eq!(not_found(resolve_nullable_column_if_set(&columns(), &mut bad)), "nope");
}

#[test]
fn create_checks_columns_in_order() {
    assert!(check_create_columns(&columns(), &create_request()).is_ok());
    let mut params = create_request();
    params.progress_column = "bad-progress".to_owned();
    params.target_column = "bad-target".to_owned();
    assert_eq!(not_found(check_create_columns(&columns(), &params)), "bad-progress");
    let mut params = create_request();
    params.review_pickup_column = Some("bad-review".to_owned());
    assert_eq!(not_found(check_create_columns(&columns(), &params)), "bad-review");
}

#[test]
fn update_checks_only_the_columns_it_sets() {
    let mut params = update_request();
    assert!(!has_column_changes(&params));
    assert!(check_update_columns(&Vec::new(), &params).is_ok());
    params.target_column = Some("bad-target".to_owned());
    params.review_pickup_column = Some(Some("bad-review".to_owned()));
    assert!(has_column_changes(&params));
    assert_eq!(not_found(check_update_columns(&columns(), &params)), "bad-target");
    params.target_column = Some("review".to_owned());
    assert_eq!(not_found(check_update_columns(&columns(), &params)), "bad-review");
    params.review_pickup_column = Some(None);
    assert!(check_update_columns(&columns(), &params).is_ok());
}

#[test]
fn create_rejects_enabled_automation_without_repos() {
    let mut params = create_request();
    params.repo_full_names = Vec::new();
    assert!(matches!(check_create_repositories(&params), Err(ProjectConfigsError::RepositoriesRequired)));
    params.repo_full_names = vec![String::new()];
    assert!(matches!(check_create_repositories(&params), Err(ProjectConfigsError::RepositoriesRequired)));
    params.enabled = false;
    assert!(check_create_repositories(&params).is_ok());
    assert!(check_create_repositories(&create_request()).is_ok());
}

#[test]
fn update_rejects_enabling_automation_without_repos() {
    let existing = config(2);
    let mut params = update_request();
    params.enabled = Some(true);
    assert!(matches!(check_update_repositories(&existing, &params), Err(ProjectConfigsError::RepositoriesRequired)));
    params.repo_full_names = Some(vec!["acme/app".to_owned()]);
    assert!(check_update_repositories(&existing, &params).is_ok());
}

#[test]
fn update_allows_empty_repo_list_without_enabling_automation() {
    let mut params = update_request();
    params.repo_full_names = Some(Vec::new());
    assert!(check_update_repositories(&config(2), &params).is_ok());
    params.enabled = Some(false);
    assert!(check_update_repositories(&config(2), &params).is_ok());
}

#[test]
fn update_uses_current_repos_when_none_are_given() {
    let mut existing = config(2);
    existing.repo_full_names = vec!["acme/app".to_owned()];
    let mut params = update_request();
    params.enabled = Some(true);
    assert!(check_update_repositories(&existing, &params).is_ok());
}

#[test]
fn repository_urls_point_at_github() {
    assert_eq!(GITHUB_REPO_URL_PREFIX, "https://github.com/");
    assert_eq!(github_repo_url("acme/app"), "https://github.com/acme/app");
    assert_eq!(first_repo_url(&vec!["acme/app".to_owned(), "acme/lib".to_owned()]), "https://github.com/acme/app");
    assert_eq!(first_repo_url(&Vec::new()), "");
    assert_eq!(update_repo_url(&Some(vec!["acme/lib".to_owned()])).as_deref(), Some("https://github.com/acme/lib"));
    assert_eq!(update_repo_url(&Some(Vec::new())), None);
    assert_eq!(update_repo_url(&None), None);
}

#[test]
fn get_by_id_rejects_cross_team_config() {
    assert!(ensure_team_config(&config(2), 2).is_ok());
    assert!(matches!(ensure_team_config(&config(2), 3), Err(ProjectConfigsError::NotFound)));
}

#[test]
fn update_provider_falls_back_to_existing() {
    assert_eq!(resolve_update_provider(Some(1), Some(2)).expect("requested"), 1);
    assert_eq!(resolve_update_provider(None, Some(2)).expect("existing"), 2);
    assert!(matches!(resolve_update_provider(None, None), Err(ProjectConfigsError::NoProvider)));
}

#[test]
fn legacy_provider_key_ignores_empty_keys() {
    assert_eq!(legacy_provider_key(Some("openai")), Some("openai"));
    assert_eq!(legacy_provider_key(Some("")), None);
    assert_eq!(legacy_provider_key(None), None);
}

#[test]
fn prompt_templates_fall_back_to_team_then_default() {
    assert_eq!(effective_prompt_template(Some("mine"), "team"), "mine");
    assert_eq!(effective_prompt_template(Some("  "), "team"), "team");
    assert_eq!(effective_prompt_template(None, ""), DEFAULT_PROMPT_TEMPLATE);
    assert_eq!(effective_review_prompt_template(None, " \n "), DEFAULT_REVIEW_PROMPT_TEMPLATE);
    assert_eq!(effective_review_prompt_template(Some("review"), "team"), "review");
}

#[test]
fn effective_settings_uses_default_prompts_for_empty_team_prompts() {
    let settings = effective_settings(&config(2), &team()).expect("settings resolve");
    assert_eq!(settings.prompt_template, DEFAULT_PROMPT_TEMPLATE);
    assert_eq!(settings.review_prompt_template, DEFAULT_REVIEW_PROMPT_TEMPLATE);
}

#[test]
fn effective_settings_prefers_project_values() {
    let mut cfg = config(2);
    cfg.agents_md = Some("project agents".to_owned());
    cfg.primary_model_id = Some("project-model".to_owned());
    cfg.review_enabled = Some(false);
    cfg.review_max_turns = Some(9);
    cfg.max_in_progress_tasks = Some(5);
    let settings = effective_settings(&cfg, &team()).expect("settings resolve");
    assert_eq!(settings.agents_md, "project agents");
    assert_eq!(settings.primary_model_id.as_deref(), Some("project-model"));
    assert_eq!(settings.primary_model_provider_key.as_deref(), Some("team-provider"));
    assert!(!settings.review_enabled);
    assert_eq!(settings.review_pickup_column, "review");
    assert_eq!(settings.review_max_turns, 9);
    assert_eq!(settings.max_in_progress_tasks, 5);

    let inherited = effective_settings(&config(2), &team()).expect("settings resolve");
    assert_eq!(inherited.agents_md, "team agents");
    assert!(inherited.review_enabled);
    assert_eq!(inherited.max_in_progress_tasks, 2);
}

#[test]
fn lookup_result_lists_project_columns() {
    let project = IntegrationProject {
        id: "p1".to_owned(),
        name: "Project".to_owned(),
        slug: "PROJ".to_owned(),
        workspace_id: None,
    };
    let result = lookup_project_result(project, &columns());
    assert_eq!(result.id, "p1");
    assert_eq!(result.slug, "PROJ");
    assert_eq!(result.columns.len(), 4);
    assert_eq!(result.columns[1].id, "id-in-progress");
    assert_eq!(result.columns[1].name, "IN-PROGRESS");
    assert_eq!(result.columns[1].slug, "in-progress");
}

#[test]
fn info_conversions_keep_fields() {
    let w = WorkspaceInfo::from(IntegrationWorkspace { id: "w".to_owned(), name: "W".to_owned() });
    assert_eq!((w.id.as_str(), w.name.as_str()), ("w", "W"));
    let p = ProjectInfo::from(IntegrationProject {
        id: "p".to_owned(),
        name: "P".to_owned(),
        slug: "s".to_owned(),
        workspace_id: None,
    });
    assert_eq!((p.id.as_str(), p.name.as_str(), p.slug.as_str()), ("p", "P", "s"));
    let c = ColumnInfo::from(&column("done"));
    assert_eq!(c.slug, "done");
}

#[test]
fn job_fields_and_defaults() {
    let fields = config(2).job_fields();
    assert_eq!(fields.team_id, 2);
    assert_eq!(fields.external_project_id, "external-1");
    assert_eq!(fields.opencode_config, "{}");
    assert_eq!(fields.max_turns, 3);
    assert_eq!(fields.provider_id, Some(5));
    assert_eq!(fields.repo_url, "https://github.com/acme/app");
    let empty = JobConfigFields::default();
    assert_eq!(empty.team_id, 0);
    assert_eq!(empty.provider_id, None);
    assert!(default_enabled());
    assert_eq!(default_pickup_column(), "to-do");
    assert_eq!(default_progress_column(), "in-progress");
    assert_eq!(default_target_column(), "in-review");
    assert_eq!(default_blocked_column(), "Blocked");
    assert_eq!(default_max_turns(), 3);
}

#[test]
fn update_checks_come_in_order() {
    let mut existing = config(2);
    existing.provider_id = None;
    let mut params = update_request();
    params.enabled = Some(true);
    assert!(matches!(plan_update(&existing, 3, &params), Err(ProjectConfigsError::NotFound)));
    assert!(matches!(plan_update(&existing, 2, &params), Err(ProjectConfigsError::RepositoriesRequired)));
    params.repo_full_names = Some(vec!["acme/app".to_owned()]);
    assert!(matches!(plan_update(&existing, 2, &params), Err(ProjectConfigsError::NoProvider)));
    params.provider_id = Some(8);
    let plan = plan_update(&existing, 2, &params).expect("allowed");
    assert_eq!(plan.provider_id, 8);
    assert!(!plan.check_columns);
    assert_eq!(plan.repo_url.as_deref(), Some("https://github.com/acme/app"));
}

#[test]
fn update_plan_uses_current_provider_and_flags_columns() {
    let mut params = update_request();
    params.progress_column = Some("in-progress".to_owned());
    let plan = plan_update(&config(2), 2, &params).expect("allowed");
    assert_eq!(plan.provider_id, 5);
    assert!(plan.check_columns);
    assert_eq!(plan.repo_url, None);
}

#[test]
fn effective_settings_rejects_invalid_stored_agent_backend() {
    let mut t = team();
    t.agent_backend = "not_a_backend".to_owned();
    match effective_settings(&config(2), &t) {
        Err(ProjectConfigsError::InvalidAgentBackend(name)) => assert_eq!(name, "not_a_backend"),
        other => panic!("expected an invalid backend, got {other:?}"),
    }
}

#[test]
fn effective_settings_carry_the_team_backend() {
    let settings = effective_settings(&config(2), &team()).expect("settings resolve");
    assert_eq!(settings.agent_backend, AgentBackend::OmpRpc);
}
