use vulcanum_server::kaneo::types::{
    KaneoBoardColumn, KaneoBoardData, KaneoBoardResponse, KaneoColumn, KaneoLabel, KaneoProject, KaneoTask,
    KaneoTaskLabel, KaneoWorkspace, TaskPosition,
};
use vulcanum_server::providers::client::{IntegrationClient, IntegrationProvider};
use vulcanum_server::providers::mapping::{
    column_name_to_slug, kaneo_board_column_to_integration, kaneo_board_to_integration, kaneo_column_slug,
    kaneo_column_to_integration, kaneo_columns_to_integration, kaneo_label_to_integration,
    kaneo_labels_to_integration, kaneo_project_to_integration, kaneo_task_label_to_integration,
    kaneo_task_to_integration, kaneo_tasks_to_integration, kaneo_workspace_to_integration,
};
use vulcanum_server::providers::model::IntegrationType;

fn task(id: &str, status: &str) -> KaneoTask {
    KaneoTask {
        id: id.to_owned(),
        project_id: "project-1".to_owned(),
        number: Some(7),
        position: None,
        title: format!("Task {id}"),
        description: Some("body".to_owned()),
        status: status.to_owned(),
        priority: "low".to_owned(),
        created_at: "2026-01-01T00:00:00Z".to_owned(),
        due_date: None,
        start_date: None,
        user_id: None,
        updated_at: Some("2026-01-02T00:00:00Z".to_owned()),
        assignee_name: Some("Agent".to_owned()),
        assignee_id: None,
        labels: Vec::new(),
    }
}

#[test]
fn client_tests_column_name_to_slug_uses_lowercase_hyphenated_name() {
    assert_eq!(column_name_to_slug("To Do"), "to-do");
    assert_eq!(column_name_to_slug("  In   Progress  "), "in-progress");
}

#[test]
fn mapping_tests_column_name_to_slug_uses_lowercase_hyphenated_name() {
    assert_eq!(column_name_to_slug("To Do"), "to-do");
    assert_eq!(column_name_to_slug("  In   Progress  "), "in-progress");
}

#[test]
fn column_name_to_slug_edge_cases() {
    assert_eq!(column_name_to_slug(""), "");
    assert_eq!(column_name_to_slug("   "), "");
    assert_eq!(column_name_to_slug("DONE"), "done");
    assert_eq!(column_name_to_slug("a\tb\nc"), "a-b-c");
    assert_eq!(column_name_to_slug("Ärger Über"), "ärger-über");
}

#[test]
fn kaneo_column_slug_prefers_status_slug() {
    assert_eq!(kaneo_column_slug("Pickup", Some("to-do")), "to-do");
    assert_eq!(kaneo_column_slug("In Progress", None), "in-progress");
}

#[test]
fn kaneo_column_slug_ignores_empty_status() {
    assert_eq!(kaneo_column_slug("In Progress", Some("")), "in-progress");
}

#[test]
fn kaneo_column_mapping_prefers_status_slug() {
    let column = KaneoColumn {
        id: "column-1".to_owned(),
        project_id: "project-1".to_owned(),
        name: "In Review".to_owned(),
        position: 2,
        status: Some("in-review".to_owned()),
        icon: Some("eye".to_owned()),
        color: Some("purple".to_owned()),
        is_final: Some(false),
    };

    let result = kaneo_column_to_integration(&column);

    assert_eq!(result.id, "column-1");
    assert_eq!(result.name, "In Review");
    assert_eq!(result.slug, "in-review");
    assert_eq!(result.is_final, Some(false));
}

#[test]
fn kaneo_columns_mapping_keeps_order() {
    let mk = |id: &str, name: &str| KaneoColumn {
        id: id.to_owned(),
        project_id: "p".to_owned(),
        name: name.to_owned(),
        position: 0,
        status: None,
        icon: None,
        color: None,
        is_final: None,
    };
    let result = kaneo_columns_to_integration(&vec![mk("a", "To Do"), mk("b", "Done")]);
    assert_eq!(result.len(), 2);
    assert_eq!(result[0].slug, "to-do");
    assert_eq!(result[1].slug, "done");
    assert_eq!(result[1].id, "b");
}

#[test]
fn kaneo_board_mapping_keeps_provider_columns_and_overflow_tasks() {
    let board = KaneoBoardResponse {
        data: KaneoBoardData {
            id: "project-1".to_owned(),
            name: "Project".to_owned(),
            slug: "project".to_owned(),
            columns: vec![KaneoBoardColumn {
                id: "column-1".to_owned(),
                name: "In Progress".to_owned(),
                status: Some("in-progress".to_owned()),
                is_final: Some(false),
                tasks: vec![task("task-1", "in-progress")],
            }],
            planned_tasks: vec![task("task-2", "planned")],
            archived_tasks: vec![task("task-3", "archived")],
        },
    };

    let result = kaneo_board_to_integration(board);

    assert_eq!(result.project.id, "project-1");
    assert_eq!(result.columns.len(), 3);
    assert_eq!(result.columns[0].slug, "in-progress");
    assert_eq!(result.columns[0].tasks[0].assignee_name.as_deref(), Some("Agent"));
    assert_eq!(result.columns[1].slug, "planned");
    assert_eq!(result.columns[2].slug, "archived");
    assert_eq!(result.columns[2].is_final, Some(true));
}

#[test]
fn kaneo_board_mapping_omits_empty_overflow_columns() {
    let board = KaneoBoardResponse {
        data: KaneoBoardData {
            id: "p".to_owned(),
            name: "P".to_owned(),
            slug: "PROJ".to_owned(),
            columns: vec![KaneoBoardColumn {
                id: "c".to_owned(),
                name: "To Do".to_owned(),
                status: None,
                is_final: None,
                tasks: vec![task("t", "to-do")],
            }],
            planned_tasks: Vec::new(),
            archived_tasks: Vec::new(),
        },
    };
    let result = kaneo_board_to_integration(board);
    assert_eq!(result.columns.len(), 1);
    assert_eq!(result.columns[0].slug, "to-do");
    assert_eq!(result.columns[0].tasks[0].project_slug.as_deref(), Some("PROJ"));
    assert_eq!(result.project.slug, "PROJ");
    assert!(result.labels.is_empty());
}

#[test]
fn task_mapping_copies_fields_and_labels() {
    let mut t = task("t1", "to-do");
    t.position = Some(TaskPosition { bits: 2.5f64.to_bits() });
    t.labels = vec![KaneoTaskLabel { id: "l".to_owned(), name: "Bug".to_owned(), color: "#f00".to_owned() }];
    let r = kaneo_task_to_integration(&t, Some("proj"));
    assert_eq!(r.id, "t1");
    assert_eq!(r.title, "Task t1");
    assert_eq!(r.status, "to-do");
    assert_eq!(r.description.as_deref(), Some("body"));
    assert_eq!(r.number, Some(7));
    assert_eq!(r.position.map(|p| f64::from_bits(p.bits)), Some(2.5));
    assert_eq!(r.project_slug.as_deref(), Some("proj"));
    assert_eq!(r.labels.len(), 1);
    assert_eq!(r.labels[0].name, "Bug");
    assert_eq!(r.labels[0].task_id, None);
    assert_eq!(kaneo_task_to_integration(&t, None).project_slug, None);

    let all = kaneo_tasks_to_integration(&vec![task("a", "x"), task("b", "y")], None);
    assert_eq!(all.iter().map(|t| t.id.as_str()).collect::<Vec<_>>(), vec!["a", "b"]);
}

#[test]
fn board_column_mapping_tags_tasks_with_project_slug() {
    let col = KaneoBoardColumn {
        id: "c".to_owned(),
        name: "Review".to_owned(),
        status: Some("in-review".to_owned()),
        is_final: Some(false),
        tasks: vec![task("t", "in-review")],
    };
    let r = kaneo_board_column_to_integration(&col, "proj");
    assert_eq!(r.slug, "in-review");
    assert_eq!(r.tasks[0].project_slug.as_deref(), Some("proj"));
}

#[test]
fn label_mapping_keeps_attachment() {
    let label = KaneoLabel {
        id: "l1".to_owned(),
        name: "Review".to_owned(),
        color: "#000".to_owned(),
        workspace_id: Some("w".to_owned()),
        task_id: Some("t".to_owned()),
    };
    let r = kaneo_label_to_integration(&label);
    assert_eq!(r.id, "l1");
    assert_eq!(r.task_id.as_deref(), Some("t"));
    let embedded = KaneoTaskLabel { id: "l2".to_owned(), name: "Bug".to_owned(), color: "#f00".to_owned() };
    let r = kaneo_task_label_to_integration(&embedded);
    assert_eq!(r.color, "#f00");
    assert_eq!(r.task_id, None);
}

#[test]
fn integration_client_is_built_from_provider() {
    let provider = IntegrationProvider {
        id: 1,
        team_id: 2,
        name: "Kaneo".to_owned(),
        provider_type: IntegrationType::Kaneo,
        instance_url: "https://kaneo.example".to_owned(),
        api_key: "key".to_owned(),
    };
    let client = IntegrationClient::from_provider(&provider);
    assert_eq!(client.instance_and_key(), ("https://kaneo.example", "key"));
    let client = IntegrationClient::new_kaneo("i".to_owned(), "k".to_owned());
    assert_eq!(client.instance_and_key(), ("i", "k"));
}

#[test]
fn project_and_workspace_mapping() {
    let p = kaneo_project_to_integration(KaneoProject {
        id: "p1".to_owned(),
        name: "Project".to_owned(),
        slug: "PROJ".to_owned(),
        workspace_id: "w1".to_owned(),
    });
    assert_eq!(p.id, "p1");
    assert_eq!(p.name, "Project");
    assert_eq!(p.slug, "PROJ");
    assert_eq!(p.workspace_id.as_deref(), Some("w1"));
    let w = kaneo_workspace_to_integration(KaneoWorkspace { id: "w1".to_owned(), name: "Acme".to_owned() });
    assert_eq!((w.id.as_str(), w.name.as_str()), ("w1", "Acme"));
}

#[test]
fn labels_mapping_keeps_order() {
    let mk = |id: &str| KaneoLabel {
        id: id.to_owned(),
        name: id.to_uppercase(),
        color: "#111".to_owned(),
        workspace_id: Some("w".to_owned()),
        task_id: None,
    };
    let r = kaneo_labels_to_integration(&vec![mk("a"), mk("b")]);
    assert_eq!(r.iter().map(|l| l.name.as_str()).collect::<Vec<_>>(), vec!["A", "B"]);
}
