use vulcanum_server::kaneo::types::TaskPosition;
use vulcanum_server::project_configs::model::ProjectConfig;
use vulcanum_server::providers::model::{
    IntegrationBoard, IntegrationBoardColumn, IntegrationColumn, IntegrationLabel, IntegrationProject,
    IntegrationTask, IntegrationType,
};
use vulcanum_server::task_board::errors::TaskBoardError;
use vulcanum_server::task_board::model::TaskBoardRelatedWorkRunRow;
use vulcanum_server::task_board::service::{
    collect_board_task_refs, default_column_status, group_related_runs, normalized_required,
    project_config_to_provider_project, provider_configured, requested_status, task_priority, task_update_input,
    workspace_labels, DEFAULT_PRIORITY, FALLBACK_STATUS,
};

fn column(slug: &str, is_final: Option<bool>) -> IntegrationColumn {
    IntegrationColumn { id: slug.to_owned(), name: slug.to_owned(), slug: slug.to_owned(), is_final }
}

fn board_column(slug: &str, tasks: Vec<IntegrationTask>) -> IntegrationBoardColumn {
    IntegrationBoardColumn { id: slug.to_owned(), name: slug.to_owned(), slug: slug.to_owned(), is_final: None, tasks }
}

fn board(columns: Vec<IntegrationBoardColumn>) -> IntegrationBoard {
    IntegrationBoard {
        project: IntegrationProject {
            id: "project-1".to_owned(),
            name: "Project 1".to_owned(),
            slug: "project-1".to_owned(),
            workspace_id: Some("workspace-1".to_owned()),
        },
        columns,
        labels: Vec::new(),
    }
}

fn integration_task(id: &str) -> IntegrationTask {
    IntegrationTask {
        id: id.to_owned(),
        title: id.to_owned(),
        project_id: "project-1".to_owned(),
        description: None,
        status: "todo".to_owned(),
        priority: "medium".to_owned(),
        position: None,
        due_date: None,
        start_date: None,
        assignee_id: None,
        number: None,
        project_slug: Some("project-1".to_owned()),
        assignee_name: None,
        created_at: "2026-01-01T00:00:00Z".to_owned(),
        updated_at: None,
        labels: Vec::new(),
    }
}

fn project_config(name: &str, provider_id: Option<u128>) -> ProjectConfig {
    ProjectConfig {
        id: 1,
        team_id: 2,
        external_project_id: "external-1".to_owned(),
        name: name.to_owned(),
        external_workspace_id: "workspace-1".to_owned(),
        integration_type: IntegrationType::Kaneo,
        enabled: true,
        pickup_column: "to-do".to_owned(),
        target_column: "review".to_owned(),
        progress_column: "in-progress".to_owned(),
        blocked_column: "Blocked".to_owned(),
        max_turns: 3,
        prompt_template: None,
        repo_url: String::new(),
        repo_full_names: Vec::new(),
        repo_urls: Vec::new(),
        agents_md: None,
        opencode_config: String::new(),
        primary_model_provider_key: None,
        primary_model_id: None,
        small_model_provider_key: None,
        small_model_id: None,
        review_enabled: None,
        review_pickup_column: None,
        review_max_turns: None,
        review_prompt_template: None,
        max_in_progress_tasks: None,
        created_at: 0,
        provider_id,
    }
}

fn row(id: u128, task_ref: &str) -> TaskBoardRelatedWorkRunRow {
    TaskBoardRelatedWorkRunRow {
        id,
        external_task_ref: task_ref.to_owned(),
        status: "completed".to_owned(),
        work_type: "implement".to_owned(),
        tokens_used: Some(10),
        input_tokens: None,
        output_tokens: None,
        cache_read_tokens: None,
        cache_write_tokens: None,
        model_used: Some("model".to_owned()),
        created_at: id as i64,
    }
}

#[test]
fn default_column_status_prefers_first_non_final_column() {
    let columns = vec![column("done", Some(true)), column("in-progress", Some(false))];

    assert_eq!(default_column_status(&columns), "in-progress");
}

#[test]
fn default_column_status_uses_first_column_when_all_are_final() {
    let columns = vec![column("done", Some(true)), column("archived", Some(true))];
    assert_eq!(default_column_status(&columns), "done");
    assert_eq!(default_column_status(&vec![column("a", None)]), "a");
}

#[test]
fn default_column_status_falls_back_when_provider_has_no_columns() {
    assert_eq!(default_column_status(&Vec::new()), "planned");
    assert_eq!(FALLBACK_STATUS, "planned");
}

#[test]
fn body_edit_rejects_task_without_position() {
    let err = task_update_input(integration_task("task-1"), "Current title".to_owned(), "Updated body".to_owned())
        .expect_err("missing position rejects update");

    assert!(matches!(err, TaskBoardError::MissingTaskPosition));
}

#[test]
fn body_edit_keeps_the_task_state() {
    let mut current = integration_task("task-1");
    current.title = "Current title".to_owned();
    current.description = Some("Current body".to_owned());
    current.status = "in-progress".to_owned();
    current.priority = "urgent".to_owned();
    current.position = Some(TaskPosition { bits: 7.5f64.to_bits() });
    current.due_date = Some("2026-01-10T00:00:00Z".to_owned());
    current.start_date = Some("2026-01-03T00:00:00Z".to_owned());
    current.assignee_id = Some("user-1".to_owned());

    let input = task_update_input(current, "Current title".to_owned(), "Updated body".to_owned())
        .expect("complete task update state");

    assert_eq!(input.task_id, "task-1");
    assert_eq!(input.title, "Current title");
    assert_eq!(input.body, "Updated body");
    assert_eq!(input.status, "in-progress");
    assert_eq!(input.priority, "urgent");
    assert_eq!(input.project_id, "project-1");
    assert_eq!(f64::from_bits(input.position.bits), 7.5);
    assert_eq!(input.due_date, "2026-01-10T00:00:00Z");
    assert_eq!(input.start_date, "2026-01-03T00:00:00Z");
    assert_eq!(input.user_id, "user-1");
}

#[test]
fn project_config_mapping_uses_added_project_config() {
    let provider_id = 0x1234_5678_9abc_def0_u128;
    let project = project_config("Added project", Some(provider_id));

    let result = project_config_to_provider_project(project).expect("project maps");

    assert_eq!(result.provider_id, provider_id);
    assert_eq!(result.external_project_id, "external-1");
    assert_eq!(result.workspace_id, "workspace-1");
    assert_eq!(result.name, "Added project");
}

#[test]
fn project_config_mapping_skips_legacy_configs_without_provider() {
    assert!(project_config_to_provider_project(project_config("", None)).is_none());
}

#[test]
fn project_config_mapping_names_unnamed_project_by_external_id() {
    let result = project_config_to_provider_project(project_config("", Some(9))).expect("maps");
    assert_eq!(result.name, "external-1");
    assert_eq!(result.slug, "external-1");
}

#[test]
fn collect_board_task_refs_deduplicates_in_board_order() {
    let board = board(vec![
        board_column("todo", vec![integration_task("task-a"), integration_task("task-b")]),
        board_column("doing", vec![integration_task("task-b"), integration_task("task-c"), integration_task("task-a")]),
    ]);

    assert_eq!(
        collect_board_task_refs(&board),
        vec!["task-a".to_owned(), "task-b".to_owned(), "task-c".to_owned()]
    );
}

#[test]
fn collect_board_task_refs_of_empty_board() {
    assert!(collect_board_task_refs(&board(Vec::new())).is_empty());
}

#[test]
fn related_runs_are_grouped_by_task_in_reference_order() {
    let refs = vec!["b".to_owned(), "a".to_owned(), "c".to_owned(), "b".to_owned()];
    let rows = vec![row(1, "a"), row(2, "b"), row(3, "a"), row(4, "x")];

    let groups = group_related_runs(refs, rows);

    assert_eq!(groups.len(), 2);
    assert_eq!(groups[0].external_task_ref, "b");
    assert_eq!(groups[0].runs.iter().map(|r| r.id).collect::<Vec<_>>(), vec![2]);
    assert_eq!(groups[1].external_task_ref, "a");
    assert_eq!(groups[1].runs.iter().map(|r| r.id).collect::<Vec<_>>(), vec![1, 3]);
    assert_eq!(groups[1].runs[0].model_used.as_deref(), Some("model"));
    assert_eq!(groups[1].runs[1].created_at, 3);
}

#[test]
fn required_text_is_trimmed() {
    assert_eq!(normalized_required("  Fix bug ", TaskBoardError::EmptyTitle).expect("kept"), "Fix bug");
    assert!(matches!(normalized_required(" \t ", TaskBoardError::EmptyTitle), Err(TaskBoardError::EmptyTitle)));
    assert!(matches!(normalized_required("", TaskBoardError::EmptyStatus), Err(TaskBoardError::EmptyStatus)));
}

#[test]
fn requested_status_and_priority() {
    assert_eq!(requested_status(&Some(" done ".to_owned())), Some("done".to_owned()));
    assert_eq!(requested_status(&Some("   ".to_owned())), None);
    assert_eq!(requested_status(&None), None);
    assert_eq!(task_priority(&Some(" high ".to_owned())), "high");
    assert_eq!(task_priority(&Some(" ".to_owned())), "low");
    assert_eq!(task_priority(&None), DEFAULT_PRIORITY);
}

#[test]
fn workspace_labels_drop_task_copies() {
    let label = |id: &str, task: Option<&str>| IntegrationLabel {
        id: id.to_owned(),
        name: id.to_owned(),
        color: "#000".to_owned(),
        task_id: task.map(str::to_owned),
    };
    let kept = workspace_labels(vec![label("a", None), label("b", Some("t")), label("c", None)]);
    assert_eq!(kept.iter().map(|l| l.id.as_str()).collect::<Vec<_>>(), vec!["a", "c"]);
}

#[test]
fn provider_in_use_by_a_configuration() {
    let configs = vec![project_config("a", Some(1)), project_config("b", None)];
    assert!(provider_configured(&configs, 1));
    assert!(!provider_configured(&configs, 2));
    assert!(!provider_configured(&Vec::new(), 1));
}
