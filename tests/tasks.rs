use crud_api::entities::tasks::Model;
use crud_api::error::Problem;
use crud_api::gateway::tasks::TaskTable;
use crud_api::handlers::tasks::{
    create_task, delete_task, get_task_by_id, get_tasks, update_task, NewTask,
};
use crud_api::response::{Body, Response};

fn body(title: &str, description: Option<&str>) -> NewTask {
    NewTask { title: title.to_string(), description: description.map(|d| d.to_string()) }
}

fn record(r: &Response<Model>) -> Model {
    match &r.body {
        Body::Record(m) => m.clone(),
        other => panic!("expected a record, got {:?}", other),
    }
}

fn records(r: &Response<Model>) -> Vec<Model> {
    match &r.body {
        Body::Records(v) => v.clone(),
        other => panic!("expected a listing, got {:?}", other),
    }
}

#[test]
fn test_create_task() {
    let mut db = TaskTable::new();
    let resp = create_task(&mut db, body("New Task", Some("Test task description")));
    assert!((200..300).contains(&resp.status));
}

#[test]
fn test_get_tasks() {
    let db = TaskTable::new();
    let resp = get_tasks(&db);
    assert_eq!(resp.status, 200);
    assert!(matches!(resp.body, Body::Records(_)));
}

#[test]
fn test_get_task_by_id() {
    let mut db = TaskTable::new();
    let resp = create_task(&mut db, body("Test Task", Some("Test Description")));
    assert_eq!(resp.status, 201);
    let task_id = record(&resp).id;

    let resp = get_task_by_id(&db, task_id);
    assert_eq!(resp.status, 200);
    assert_eq!(record(&resp).id, task_id);
}

#[test]
fn test_update_task() {
    let mut db = TaskTable::new();
    let resp = create_task(&mut db, body("Original Task", Some("Original Description")));
    assert_eq!(resp.status, 201);
    let task_id = record(&resp).id;

    let resp = update_task(&mut db, task_id, body("Updated Task", Some("Updated Description")));
    assert_eq!(resp.status, 200);
    let m = record(&resp);
    assert_eq!(m.title, "Updated Task");
    assert_eq!(m.description.as_deref(), Some("Updated Description"));
}

#[test]
fn test_delete_task() {
    let mut db = TaskTable::new();
    let resp = create_task(&mut db, body("Test Task", Some("Test Description")));
    assert_eq!(resp.status, 201);
    let task_id = record(&resp).id;

    let resp = delete_task(&mut db, task_id);
    assert_eq!(resp.status, 204);
}

#[test]
fn create_answers_submitted_fields() {
    let mut db = TaskTable::new();
    let resp = create_task(&mut db, body("T", Some("D")));
    assert_eq!(resp.status, 201);
    let m = record(&resp);
    assert!(m.id > 0);
    assert_eq!(m.title, "T");
    assert_eq!(m.description.as_deref(), Some("D"));
    assert!(!m.is_completed);
}

#[test]
fn create_without_description() {
    let mut db = TaskTable::new();
    let m = record(&create_task(&mut db, body("T", None)));
    assert_eq!(m.description, None);
    assert_eq!(record(&get_task_by_id(&db, m.id)).description, None);
}

#[test]
fn list_of_empty_store_is_empty() {
    let db = TaskTable::new();
    let resp = get_tasks(&db);
    assert_eq!(resp.status, 200);
    assert!(records(&resp).is_empty());
}

#[test]
fn list_holds_every_created_task() {
    let mut db = TaskTable::new();
    let a = record(&create_task(&mut db, body("a", None)));
    let b = record(&create_task(&mut db, body("b", Some("x"))));
    let c = record(&create_task(&mut db, body("c", None)));
    delete_task(&mut db, b.id);
    let v = records(&get_tasks(&db));
    assert_eq!(v.len(), 2);
    assert_eq!(v[0].id, a.id);
    assert_eq!(v[0].title, "a");
    assert_eq!(v[1].id, c.id);
    assert_eq!(v[1].title, "c");
}

#[test]
fn get_of_missing_id_is_not_found() {
    let db = TaskTable::new();
    let resp = get_task_by_id(&db, 999999);
    assert_eq!(resp.status, 404);
    assert!(matches!(resp.body, Body::NotFound));
    assert_eq!(get_task_by_id(&db, 0).status, 404);
    assert_eq!(get_task_by_id(&db, -1).status, 404);
}

#[test]
fn create_then_get_returns_same_record() {
    let mut db = TaskTable::new();
    let created = record(&create_task(&mut db, body("Round", Some("Trip"))));
    let fetched = get_task_by_id(&db, created.id);
    assert_eq!(fetched.status, 200);
    let m = record(&fetched);
    assert_eq!(m.id, created.id);
    assert_eq!(m.title, created.title);
    assert_eq!(m.description, created.description);
    assert_eq!(m.is_completed, created.is_completed);
}

#[test]
fn replace_reflects_new_values_and_is_idempotent() {
    let mut db = TaskTable::new();
    let id = record(&create_task(&mut db, body("old", Some("old d")))).id;
    let first = update_task(&mut db, id, body("new", None));
    assert_eq!(first.status, 200);
    let m1 = record(&first);
    assert_eq!(m1.id, id);
    assert_eq!(m1.title, "new");
    assert_eq!(m1.description, None);
    assert!(!m1.is_completed);
    let second = update_task(&mut db, id, body("new", None));
    assert_eq!(second.status, 200);
    let m2 = record(&second);
    assert_eq!(m2.title, m1.title);
    assert_eq!(m2.description, m1.description);
    let v = records(&get_tasks(&db));
    assert_eq!(v.len(), 1);
    assert_eq!(v[0].title, "new");
}

#[test]
fn replace_or_delete_of_missing_id_creates_nothing() {
    let mut db = TaskTable::new();
    assert_eq!(update_task(&mut db, 7, body("x", None)).status, 404);
    assert_eq!(delete_task(&mut db, 7).status, 404);
    assert!(records(&get_tasks(&db)).is_empty());
    assert_eq!(get_task_by_id(&db, 7).status, 404);
    let m = record(&create_task(&mut db, body("first", None)));
    assert_eq!(m.id, 1);
}

#[test]
fn delete_happens_at_most_once() {
    let mut db = TaskTable::new();
    let id = record(&create_task(&mut db, body("gone", None))).id;
    let resp = delete_task(&mut db, id);
    assert_eq!(resp.status, 204);
    assert!(matches!(resp.body, Body::Empty));
    assert_eq!(get_task_by_id(&db, id).status, 404);
    assert_eq!(delete_task(&mut db, id).status, 404);
}

#[test]
fn creates_get_distinct_ids() {
    let mut db = TaskTable::new();
    let a = record(&create_task(&mut db, body("one", None))).id;
    let b = record(&create_task(&mut db, body("two", None))).id;
    delete_task(&mut db, b);
    let c = record(&create_task(&mut db, body("three", None))).id;
    assert_ne!(a, b);
    assert_ne!(b, c);
    assert_ne!(a, c);
}

#[test]
fn empty_title_is_rejected() {
    let mut db = TaskTable::new();
    let resp = create_task(&mut db, body("", Some("D")));
    assert_eq!(resp.status, 400);
    assert!(matches!(resp.body, Body::Invalid(Problem::EmptyTitle)));
    assert!(records(&get_tasks(&db)).is_empty());

    let id = record(&create_task(&mut db, body("keep", None))).id;
    let resp = update_task(&mut db, id, body("", None));
    assert_eq!(resp.status, 400);
    assert_eq!(record(&get_task_by_id(&db, id)).title, "keep");
}

#[test]
fn validate_checks_title() {
    assert_eq!(body("x", None).validate(), Ok(()));
    assert_eq!(body("", None).validate(), Err(Problem::EmptyTitle));
}
