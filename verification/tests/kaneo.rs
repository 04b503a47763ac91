use vulcanum_server::kaneo::board::{
    board_task_count, board_task_count_checked, filter_tasks_in_column, find_column, merge_board_page,
};
use vulcanum_server::kaneo::client::{path_with, update_task_request, KaneoClient};
use vulcanum_server::kaneo::errors::{parse_http_status_code, strip_http_status_prefix, IntegrationError, KaneoError};
use vulcanum_server::kaneo::labels::{
    blocking_relation_to_create, create_label_body, has_blocking_relation, label_attached_to, label_copy_for_task,
    task_label_ids_by_name,
};
use vulcanum_server::kaneo::pages::{BoardPager, FETCH_TASKS_LIMIT};
use vulcanum_server::kaneo::types::{
    KaneoBoardColumn, KaneoBoardData, KaneoBoardResponse, KaneoLabel, KaneoTask, KaneoTaskLabel, KaneoTaskRelation,
    TaskPosition,
};
use vulcanum_server::providers::model::{IntegrationType, UpdateIntegrationTaskInput};

fn task(id: &str, status: &str) -> KaneoTask {
    KaneoTask {
        id: id.to_owned(),
        project_id: "p1".to_owned(),
        number: None,
        position: None,
        title: format!("Task {id}"),
        description: None,
        status: status.to_owned(),
        priority: "low".to_owned(),
        created_at: "2024-01-01".to_owned(),
        due_date: None,
        start_date: None,
        user_id: None,
        updated_at: None,
        assignee_name: None,
        assignee_id: None,
        labels: Vec::new(),
    }
}

fn board(columns: Vec<KaneoBoardColumn>) -> KaneoBoardResponse {
    KaneoBoardResponse {
        data: KaneoBoardData {
            id: "p1".to_owned(),
            name: "Project".to_owned(),
            slug: "proj".to_owned(),
            columns,
            planned_tasks: Vec::new(),
            archived_tasks: Vec::new(),
        },
    }
}

fn column(id: &str, name: &str, status: Option<&str>, tasks: Vec<KaneoTask>) -> KaneoBoardColumn {
    KaneoBoardColumn {
        id: id.to_owned(),
        name: name.to_owned(),
        status: status.map(str::to_owned),
        is_final: None,
        tasks,
    }
}

fn ids(tasks: &[KaneoTask]) -> Vec<&str> {
    tasks.iter().map(|t| t.id.as_str()).collect()
}

#[test]
fn filter_tasks_in_column_exact_match() {
    let board = board(vec![column("c1", "To Do", Some("to-do"), vec![task("t1", "to-do")])]);

    let result = filter_tasks_in_column(board, "to-do");

    assert_eq!(result.len(), 1);
    assert_eq!(result[0].id, "t1");
}

#[test]
fn filter_tasks_in_column_uses_task_status_when_column_status_missing() {
    let board = board(vec![column("c1", "To Do", None, vec![task("t-missing-column-status", "to-do")])]);

    let result = filter_tasks_in_column(board, "to-do");

    assert_eq!(result.len(), 1);
    assert_eq!(result[0].id, "t-missing-column-status");
}

#[test]
fn filter_tasks_in_column_not_found_returns_empty() {
    let board = board(vec![column("c1", "To Do", Some("to-do"), Vec::new())]);

    let result = filter_tasks_in_column(board, "done");

    assert!(result.is_empty());
}

#[test]
fn filter_tasks_in_column_multiple_columns_selects_correct_one() {
    let mut done = column("c2", "Done", Some("done"), vec![task("t4", "done")]);
    done.is_final = Some(true);
    let board = board(vec![column("c1", "To Do", Some("to-do"), vec![task("t3", "todo")]), done]);

    let result = filter_tasks_in_column(board, "done");

    assert_eq!(result.len(), 1);
    assert_eq!(result[0].id, "t4");
}

#[test]
fn filter_tasks_in_column_uses_status_slug() {
    let board = board(vec![column("c3", "In Review", Some("in-review"), vec![task("t5", "in-review")])]);

    let result = filter_tasks_in_column(board, "in-review");

    assert_eq!(result.len(), 1);
    assert_eq!(result[0].id, "t5");
}

#[test]
fn filter_tasks_in_column_includes_planned_and_archived_in_board_order() {
    let mut b = board(vec![
        column("c1", "A", Some("a"), vec![task("t1", "x"), task("t2", "y")]),
        column("c2", "B", Some("b"), vec![task("t3", "x")]),
    ]);
    b.data.planned_tasks = vec![task("t4", "x"), task("t5", "z")];
    b.data.archived_tasks = vec![task("t6", "x")];

    let result = filter_tasks_in_column(b, "x");

    assert_eq!(ids(&result), vec!["t1", "t3", "t4", "t6"]);
}

#[test]
fn kaneo_error_display() {
    let api_err = KaneoError::Api("something went wrong".to_owned());
    assert_eq!(api_err.message(), "kaneo API error: something went wrong");

    let col_err = KaneoError::ColumnNotFound("backlog".to_owned());
    assert_eq!(col_err.message(), "column not found in project: backlog");
}

#[test]
fn kaneo_client_construction() {
    let client = KaneoClient::new("cloud.kaneo.app".to_owned(), "sk-test-key".to_owned());
    let _ = client;
}

#[test]
fn kaneo_client_keeps_instance_and_key() {
    let client = KaneoClient::new("cloud.kaneo.app".to_owned(), "sk-test-key".to_owned());
    assert_eq!(client.instance, "cloud.kaneo.app");
    assert_eq!(client.api_key, "sk-test-key");
    assert_eq!(client.provider_type(), IntegrationType::Kaneo);
}

#[test]
fn http_status_code_is_read_from_message_prefix() {
    assert_eq!(parse_http_status_code("404 Not Found: task missing"), Some(404));
    assert_eq!(parse_http_status_code("500"), Some(500));
    assert_eq!(parse_http_status_code("302 Found: elsewhere"), None);
    assert_eq!(parse_http_status_code("40"), None);
    assert_eq!(parse_http_status_code("network down"), None);
    assert_eq!(KaneoError::Api("409 Conflict: exists".to_owned()).http_status_code(), Some(409));
    assert_eq!(KaneoError::ColumnNotFound("404 x".to_owned()).http_status_code(), None);
}

#[test]
fn public_message_strips_status_prefix() {
    assert_eq!(strip_http_status_prefix("404 Not Found: task not found"), Some("task not found"));
    assert_eq!(strip_http_status_prefix("404   Not Found: a: b"), Some("a: b"));
    assert_eq!(strip_http_status_prefix("404 Not Found"), None);
    assert_eq!(strip_http_status_prefix("network down: x"), None);
    assert_eq!(KaneoError::Api("400 Bad Request: bad input".to_owned()).public_message(), Some("bad input"));
    assert_eq!(KaneoError::Api("plain".to_owned()).public_message(), None);
    assert_eq!(KaneoError::ColumnNotFound("backlog".to_owned()).public_message(), Some("backlog"));
}

#[test]
fn integration_error_wraps_kaneo_error() {
    let err = IntegrationError::Kaneo(KaneoError::Api("boom".to_owned()));
    match err {
        IntegrationError::Kaneo(KaneoError::Api(m)) => assert_eq!(m, "boom"),
        _ => panic!("unexpected variant"),
    }
}

#[test]
fn task_label_removal_resolves_attached_copy_by_name() {
    let mut task = task("task-1", "in-progress");
    task.project_id = "project-1".to_owned();
    task.title = "Task".to_owned();
    task.created_at = "2026-01-01T00:00:00Z".to_owned();
    task.labels = vec![
        KaneoTaskLabel { id: "attached-copy".to_owned(), name: "Review needed".to_owned(), color: "#D97706".to_owned() },
        KaneoTaskLabel { id: "unrelated".to_owned(), name: "Bug".to_owned(), color: "#DC2626".to_owned() },
    ];

    assert_eq!(task_label_ids_by_name(&task, "Review needed"), vec!["attached-copy"]);
}

#[test]
fn task_label_creation_keeps_attachment_owner() {
    let body = create_label_body("workspace-1", "Review needed", "#D97706", Some("task-1"));
    assert_eq!(body.name, "Review needed");
    assert_eq!(body.color, "#D97706");
    assert_eq!(body.workspace_id, "workspace-1");
    assert_eq!(body.task_id.as_deref(), Some("task-1"));
    assert_eq!(create_label_body("w", "n", "c", None).task_id, None);
}

fn label(workspace: Option<&str>, task_id: Option<&str>) -> KaneoLabel {
    KaneoLabel {
        id: "label-1".to_owned(),
        name: "Review needed".to_owned(),
        color: "#D97706".to_owned(),
        workspace_id: workspace.map(str::to_owned),
        task_id: task_id.map(str::to_owned),
    }
}

#[test]
fn label_attachment_is_read_from_task_id() {
    assert!(label_attached_to(&label(Some("w"), Some("task-1")), "task-1"));
    assert!(!label_attached_to(&label(Some("w"), Some("task-2")), "task-1"));
    assert!(!label_attached_to(&label(Some("w"), None), "task-1"));
}

#[test]
fn label_copy_is_created_once_per_task() {
    let mut t = task("task-1", "x");
    let copy = label_copy_for_task(&label(Some("workspace-1"), None), "label-1", &t, "task-1")
        .expect("copy planned")
        .expect("copy needed");
    assert_eq!(copy.name, "Review needed");
    assert_eq!(copy.workspace_id, "workspace-1");
    assert_eq!(copy.task_id.as_deref(), Some("task-1"));

    t.labels.push(KaneoTaskLabel { id: "c".to_owned(), name: "Review needed".to_owned(), color: "#D97706".to_owned() });
    assert!(label_copy_for_task(&label(Some("workspace-1"), None), "label-1", &t, "task-1")
        .expect("nothing to do")
        .is_none());
}

#[test]
fn label_copy_without_workspace_is_an_error() {
    let t = task("task-1", "x");
    match label_copy_for_task(&label(None, None), "label-1", &t, "task-1") {
        Err(KaneoError::Api(m)) => assert_eq!(m, "label label-1 has no workspace"),
        _ => panic!("expected an API error"),
    }
}

fn relation(source: &str, target: &str, kind: &str) -> KaneoTaskRelation {
    KaneoTaskRelation {
        source_task_id: source.to_owned(),
        target_task_id: target.to_owned(),
        relation_type: kind.to_owned(),
    }
}

#[test]
fn blocking_relation_is_found_in_either_direction() {
    let relations = vec![relation("a", "b", "related"), relation("c", "a", "blocks")];
    assert!(has_blocking_relation(&relations, "a", "c"));
    assert!(has_blocking_relation(&relations, "c", "a"));
    assert!(!has_blocking_relation(&relations, "a", "b"));
    assert!(!has_blocking_relation(&Vec::new(), "a", "b"));
}

#[test]
fn paths_are_built_from_ids() {
    assert_eq!(path_with("/task/", "t-1"), "/task/t-1");
    assert_eq!(KaneoClient::task_description_path("t-1"), "/task/description/t-1");
}

#[test]
fn update_request_drops_empty_optional_fields() {
    let input = UpdateIntegrationTaskInput {
        task_id: "task-1".to_owned(),
        title: "Title".to_owned(),
        body: "Body".to_owned(),
        status: "in-progress".to_owned(),
        priority: "urgent".to_owned(),
        project_id: "project-1".to_owned(),
        position: TaskPosition { bits: 7.5f64.to_bits() },
        due_date: "2026-01-10T00:00:00Z".to_owned(),
        start_date: String::new(),
        user_id: "user-1".to_owned(),
    };
    let (path, body) = update_task_request(&input);
    assert_eq!(path, "/task/task-1");
    assert_eq!(body.title, "Title");
    assert_eq!(body.description, "Body");
    assert_eq!(body.priority, "urgent");
    assert_eq!(body.status, "in-progress");
    assert_eq!(body.project_id, "project-1");
    assert_eq!(f64::from_bits(body.position.bits), 7.5);
    assert_eq!(body.due_date.as_deref(), Some("2026-01-10T00:00:00Z"));
    assert_eq!(body.start_date, None);
    assert_eq!(body.user_id.as_deref(), Some("user-1"));
}

#[test]
fn board_task_count_counts_every_task() {
    let mut b = board(vec![
        column("c1", "A", None, vec![task("t1", "a"), task("t2", "a")]),
        column("c2", "B", None, vec![task("t3", "b")]),
    ]);
    b.data.planned_tasks = vec![task("t4", "p")];
    b.data.archived_tasks = vec![task("t5", "x"), task("t6", "x")];
    assert_eq!(board_task_count(&b), 6);
    assert_eq!(board_task_count_checked(&b), Some(6));
}

#[test]
fn find_column_answers_the_index_of_the_id() {
    let cols = vec![column("c1", "A", None, Vec::new()), column("c2", "B", None, Vec::new())];
    assert_eq!(find_column(&cols, &"c2".to_owned()), Some(1));
    assert_eq!(find_column(&cols, &"c9".to_owned()), None);
}

#[test]
fn merge_board_page_adds_only_unseen_tasks() {
    let mut pager = BoardPager::new();
    assert!(!pager.accept_page(board(vec![column("c1", "A", Some("a"), vec![task("t1", "a")])])));
    assert!(pager.seen.contains("t1"));
    let mut merged = pager.merged.take().expect("first page kept");

    let mut page = board(vec![
        column("c1", "A", Some("a"), vec![task("t1", "a"), task("t2", "a")]),
        column("c9", "Gone", None, vec![task("t3", "z")]),
    ]);
    page.data.planned_tasks = vec![task("t4", "p"), task("t2", "a")];
    page.data.archived_tasks = vec![task("t5", "x")];

    let added = merge_board_page(&mut merged, &mut page, &mut pager.seen);

    assert_eq!(added, 4);
    assert_eq!(ids(&merged.data.columns[0].tasks), vec!["t1", "t2"]);
    assert_eq!(ids(&merged.data.planned_tasks), vec!["t3", "t4"]);
    assert_eq!(ids(&merged.data.archived_tasks), vec!["t5"]);
    assert_eq!(board_task_count(&page), 0);
    for id in ["t1", "t2", "t3", "t4", "t5"] {
        assert!(pager.seen.contains(id));
    }
}

#[test]
fn merging_the_same_page_twice_adds_nothing() {
    let page = board(vec![column("c1", "A", None, vec![task("t1", "a"), task("t2", "a")])]);
    let mut pager = BoardPager::new();
    pager.accept_page(page.clone());
    let mut merged = pager.merged.take().expect("first page kept");
    let mut again = page.clone();
    assert_eq!(merge_board_page(&mut merged, &mut again, &mut pager.seen), 0);
    assert_eq!(board_task_count(&merged), 2);
}

fn full_page(prefix: &str, n: usize) -> KaneoBoardResponse {
    let tasks = (0..n).map(|i| task(&format!("{prefix}{i}"), "a")).collect();
    board(vec![column("c1", "A", Some("a"), tasks)])
}

#[test]
fn pager_asks_for_pages_until_a_short_one() {
    let mut pager = BoardPager::new();
    assert_eq!(pager.page_path("p1", Some("to-do")), "/task/tasks/p1?limit=200&offset=0&status=to-do");
    let limit = FETCH_TASKS_LIMIT as usize;

    let first = full_page("a", limit);
    assert!(pager.can_accept(&first));
    assert!(pager.accept_page(first));
    assert_eq!(pager.offset, FETCH_TASKS_LIMIT);
    assert_eq!(pager.page_path("p1", None), "/task/tasks/p1?limit=200&offset=200");

    let second = full_page("b", 3);
    assert!(!pager.accept_page(second));
    assert_eq!(pager.offset, FETCH_TASKS_LIMIT);

    let merged = pager.finish().expect("pages merged");
    assert_eq!(board_task_count(&merged), limit + 3);
}

#[test]
fn pager_stops_when_a_full_page_adds_nothing() {
    let mut pager = BoardPager::new();
    let limit = FETCH_TASKS_LIMIT as usize;
    assert!(pager.accept_page(full_page("a", limit)));
    assert!(!pager.accept_page(full_page("a", limit)));
    assert_eq!(board_task_count(&pager.finish().expect("merged")), limit);
}

#[test]
fn pager_without_pages_is_an_error() {
    match BoardPager::new().finish() {
        Err(KaneoError::Api(m)) => assert_eq!(m, "empty paginated task response"),
        _ => panic!("expected an error"),
    }
}

#[test]
fn integration_error_text_wraps_kaneo_text() {
    let err = IntegrationError::from(KaneoError::Api("boom".to_owned()));
    assert_eq!(err.message(), "kaneo error: kaneo API error: boom");
    assert_eq!(IntegrationError::Other("down".to_owned()).message(), "integration error: down");
}

#[test]
fn task_label_creation_serializes_attachment_owner() {
    let body = create_label_body("workspace-1", "Review needed", "#D97706", Some("task-1"));
    assert_eq!(body.name, "Review needed");
    assert_eq!(body.color, "#D97706");
    assert_eq!(body.workspace_id, "workspace-1");
    assert_eq!(body.task_id.as_deref(), Some("task-1"));
}

#[test]
fn blocking_relation_is_created_once() {
    let mut relations = vec![relation("a", "b", "related")];
    let created = blocking_relation_to_create(&relations, "a", "c").expect("missing relation is created");
    assert_eq!(created.source_task_id, "a");
    assert_eq!(created.target_task_id, "c");
    assert_eq!(created.relation_type, "blocks");
    relations.push(created);
    assert!(blocking_relation_to_create(&relations, "a", "c").is_none());
    assert!(blocking_relation_to_create(&relations, "c", "a").is_none());
}

#[test]
fn merge_counts_match_growth_of_board_and_seen_ids() {
    let mut pager = BoardPager::new();
    pager.accept_page(board(vec![column("c1", "A", None, vec![task("t1", "a"), task("t2", "a")])]));
    let mut merged = pager.merged.take().expect("first page kept");
    let before_tasks = board_task_count(&merged);
    let before_seen = pager.seen.len();
    let mut page = board(vec![column("c1", "A", None, vec![task("t2", "a"), task("t3", "a"), task("t4", "a")])]);
    let added = merge_board_page(&mut merged, &mut page, &mut pager.seen);
    assert_eq!(added, 2);
    assert_eq!(board_task_count(&merged), before_tasks + added);
    assert_eq!(pager.seen.len(), before_seen + added);
}
