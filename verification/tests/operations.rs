//! The three operations run against the in-memory store.

use task_store::codec::{Field, FieldPair};
use task_store::reply::StoreReply;
use task_store::service::{create_task, read_task, update_task};
use task_store::store::TaskStore;
use task_store::task::{Response, Task};

fn task(id: &str, title: &str, author: &str, description: &str) -> Task {
    Task {
        id: id.to_string(),
        title: title.to_string(),
        author: author.to_string(),
        description: description.to_string(),
    }
}

#[test]
fn create_then_read_returns_submission() {
    let mut store = TaskStore::new();
    let r = create_task(&mut store, &task("alpha", "Title", "Author", "Description"));
    assert_eq!(r, Response::Created);
    let r = read_task(&store, "alpha");
    assert_eq!(r, Response::OkTask(task("alpha", "Title", "Author", "Description")));
}

#[test]
fn create_twice_conflicts() {
    let mut store = TaskStore::new();
    let r = create_task(&mut store, &task("t1", "A", "B", "C"));
    assert_eq!(r.status_code(), 201);
    let r = create_task(&mut store, &task("t1", "X", "Y", "Z"));
    assert_eq!(r.status_code(), 409);
    assert_eq!(r, Response::Conflict("Task with id 't1' already exists".to_string()));
    // the first record is untouched
    let r = read_task(&store, "t1");
    assert_eq!(r, Response::OkTask(task("t1", "A", "B", "C")));
}

#[test]
fn read_missing_is_not_found() {
    let store = TaskStore::new();
    let r = read_task(&store, "ghost");
    assert_eq!(r.status_code(), 404);
    match r {
        Response::NotFound(m) => {
            assert_eq!(m, "Task with id 'ghost' doesn't exist");
            assert!(m.contains("ghost"));
        },
        other => panic!("expected not found, got {:?}", other),
    }
}

#[test]
fn update_missing_is_not_found_and_writes_nothing() {
    let mut store = TaskStore::new();
    let r = update_task(&mut store, "u1", &task("u1", "T", "A", "D"));
    assert_eq!(r.status_code(), 404);
    assert_eq!(r, Response::NotFound("Task with id 'u1' doesn't exist".to_string()));
    // the store is untouched: the id can still be created afresh
    let r = create_task(&mut store, &task("u1", "T", "A", "D"));
    assert_eq!(r, Response::Created);
}

#[test]
fn update_with_empty_fields_changes_only_the_rest() {
    let mut store = TaskStore::new();
    create_task(&mut store, &task("t", "old title", "old author", "old description"));
    let r = update_task(&mut store, "t", &task("t", "new title", "", ""));
    assert_eq!(r, Response::Okay);
    let r = read_task(&store, "t");
    assert_eq!(r, Response::OkTask(task("t", "new title", "old author", "old description")));
}

#[test]
fn update_twice_is_idempotent() {
    let mut store = TaskStore::new();
    create_task(&mut store, &task("t", "a", "b", "c"));
    let submission = task("t", "", "newer", "");
    let r = update_task(&mut store, "t", &submission);
    assert_eq!(r, Response::Okay);
    let after_once = read_task(&store, "t");
    let r = update_task(&mut store, "t", &submission);
    assert_eq!(r, Response::Okay);
    let after_twice = read_task(&store, "t");
    assert_eq!(after_once, after_twice);
    assert_eq!(after_twice, Response::OkTask(task("t", "a", "newer", "c")));
}

#[test]
fn update_with_nothing_to_write_still_succeeds() {
    let mut store = TaskStore::new();
    create_task(&mut store, &task("t", "a", "b", "c"));
    let r = update_task(&mut store, "t", &task("t", "", "", ""));
    assert_eq!(r.status_code(), 200);
    let r = read_task(&store, "t");
    assert_eq!(r, Response::OkTask(task("t", "a", "b", "c")));
}

#[test]
fn update_goes_by_the_path_id_not_the_body_id() {
    let mut store = TaskStore::new();
    create_task(&mut store, &task("kept", "a", "b", "c"));
    let r = update_task(&mut store, "kept", &task("other", "x", "", ""));
    assert_eq!(r, Response::Okay);
    let r = read_task(&store, "kept");
    assert_eq!(r, Response::OkTask(task("kept", "x", "b", "c")));
    let r = read_task(&store, "other");
    assert_eq!(r.status_code(), 404);
}

#[test]
fn full_scenario() {
    let mut store = TaskStore::new();
    let r = create_task(&mut store, &task("t1", "A", "B", "C"));
    assert_eq!(r.status_code(), 201);
    let r = read_task(&store, "t1");
    assert_eq!(r.status_code(), 200);
    assert_eq!(r, Response::OkTask(task("t1", "A", "B", "C")));
    let r = update_task(&mut store, "t1", &task("t1", "", "Z", ""));
    assert_eq!(r.status_code(), 200);
    let r = read_task(&store, "t1");
    assert_eq!(r.status_code(), 200);
    assert_eq!(r, Response::OkTask(task("t1", "A", "Z", "C")));
}

#[test]
fn incomplete_record_reads_as_internal_error() {
    let mut store = TaskStore::new();
    // write a record that holds only a title, as a corrupted store would
    let pairs = vec![FieldPair { field: Field::Title, value: "only".to_string() }];
    let ack = store.hmset_reply("broken", &pairs);
    assert_eq!(ack, StoreReply::Simple("OK".to_string()));
    let r = read_task(&store, "broken");
    assert_eq!(r, Response::InternalError);
    assert_eq!(r.status_code(), 500);
}
