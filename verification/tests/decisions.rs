//! The per-step decision functions, the codec, and the store's answers.

use task_store::codec::{create_pairs, decode_values, update_pairs, Field, FieldPair};
use task_store::protocol::{create_check, create_finish, existence_check, read_finish,
    update_finish, Step1};
use task_store::reply::{ReplyItem, StoreReply};
use task_store::store::TaskStore;
use task_store::task::{conflict_body, missing_body, Response, Task};
use task_store::text::str_eq;

fn task(id: &str, title: &str, author: &str, description: &str) -> Task {
    Task {
        id: id.to_string(),
        title: title.to_string(),
        author: author.to_string(),
        description: description.to_string(),
    }
}

#[test]
fn create_check_branches() {
    assert_eq!(create_check("a", &StoreReply::Integer(0)), Step1::Proceed);
    assert_eq!(
        create_check("a", &StoreReply::Integer(1)),
        Step1::Done(Response::Conflict("Task with id 'a' already exists".to_string()))
    );
    assert_eq!(
        create_check("a", &StoreReply::Simple("OK".to_string())),
        Step1::Done(Response::InternalError)
    );
    assert_eq!(create_check("a", &StoreReply::Other), Step1::Done(Response::InternalError));
}

#[test]
fn existence_check_branches() {
    assert_eq!(
        existence_check("a", &StoreReply::Integer(0)),
        Step1::Done(Response::NotFound("Task with id 'a' doesn't exist".to_string()))
    );
    assert_eq!(existence_check("a", &StoreReply::Integer(1)), Step1::Proceed);
    assert_eq!(existence_check("a", &StoreReply::Integer(2)), Step1::Proceed);
    assert_eq!(existence_check("a", &StoreReply::Other), Step1::Done(Response::InternalError));
}

#[test]
fn write_acknowledgments() {
    assert_eq!(create_finish(&StoreReply::Simple("OK".to_string())), Response::Created);
    assert_eq!(create_finish(&StoreReply::Simple("ERR".to_string())), Response::InternalError);
    assert_eq!(create_finish(&StoreReply::Integer(1)), Response::InternalError);
    assert_eq!(update_finish(&StoreReply::Simple("OK".to_string())), Response::Okay);
    assert_eq!(update_finish(&StoreReply::Simple("ok".to_string())), Response::InternalError);
    assert_eq!(update_finish(&StoreReply::Other), Response::InternalError);
}

#[test]
fn read_finish_reconstructs_the_task() {
    let reply = StoreReply::Array(vec![
        ReplyItem::Bulk("A".to_string()),
        ReplyItem::Simple("B".to_string()),
        ReplyItem::Bulk("C".to_string()),
    ]);
    assert_eq!(read_finish("t1", &reply), Response::OkTask(task("t1", "A", "B", "C")));
}

#[test]
fn read_finish_rejects_incomplete_answers() {
    let with_nil = StoreReply::Array(vec![
        ReplyItem::Bulk("A".to_string()),
        ReplyItem::Nil,
        ReplyItem::Bulk("C".to_string()),
    ]);
    assert_eq!(read_finish("t1", &with_nil), Response::InternalError);
    let with_unexpected = StoreReply::Array(vec![
        ReplyItem::Bulk("A".to_string()),
        ReplyItem::Other,
        ReplyItem::Bulk("C".to_string()),
    ]);
    assert_eq!(read_finish("t1", &with_unexpected), Response::InternalError);
    let too_many = StoreReply::Array(vec![
        ReplyItem::Bulk("A".to_string()),
        ReplyItem::Bulk("B".to_string()),
        ReplyItem::Bulk("C".to_string()),
        ReplyItem::Bulk("D".to_string()),
    ]);
    assert_eq!(read_finish("t1", &too_many), Response::InternalError);
    assert_eq!(read_finish("t1", &StoreReply::Integer(3)), Response::InternalError);
}

#[test]
fn decode_drops_absent_slots_and_keeps_order() {
    let items = vec![
        ReplyItem::Nil,
        ReplyItem::Simple("one".to_string()),
        ReplyItem::Other,
        ReplyItem::Bulk("two".to_string()),
    ];
    let vals = decode_values(&items);
    assert_eq!(vals, vec!["one".to_string(), "two".to_string()]);
}

#[test]
fn create_pairs_sends_all_fields() {
    let pairs = create_pairs(&task("t", "A", "", "C"));
    assert_eq!(
        pairs,
        vec![
            FieldPair { field: Field::Title, value: "A".to_string() },
            FieldPair { field: Field::Author, value: "".to_string() },
            FieldPair { field: Field::Description, value: "C".to_string() },
        ]
    );
}

#[test]
fn update_pairs_sends_only_non_empty_fields() {
    let pairs = update_pairs(&task("t", "A", "", "C"));
    assert_eq!(
        pairs,
        vec![
            FieldPair { field: Field::Title, value: "A".to_string() },
            FieldPair { field: Field::Description, value: "C".to_string() },
        ]
    );
    assert_eq!(update_pairs(&task("t", "", "", "")), vec![]);
}

#[test]
fn wire_names() {
    assert_eq!(Field::Title.wire_name(), "title");
    assert_eq!(Field::Author.wire_name(), "author");
    assert_eq!(Field::Description.wire_name(), "description");
}

#[test]
fn message_bodies() {
    assert_eq!(conflict_body("x1"), "Task with id 'x1' already exists");
    assert_eq!(missing_body("x1"), "Task with id 'x1' doesn't exist");
}

#[test]
fn status_codes() {
    assert_eq!(Response::Created.status_code(), 201);
    assert_eq!(Response::Okay.status_code(), 200);
    assert_eq!(Response::OkTask(task("t", "a", "b", "c")).status_code(), 200);
    assert_eq!(Response::Conflict("m".to_string()).status_code(), 409);
    assert_eq!(Response::NotFound("m".to_string()).status_code(), 404);
    assert_eq!(Response::InternalError.status_code(), 500);
}

#[test]
fn string_equality() {
    assert!(str_eq("", ""));
    assert!(str_eq("same", "same"));
    assert!(!str_eq("same", "sam"));
    assert!(!str_eq("same", "samx"));
}

#[test]
fn store_answers() {
    let mut store = TaskStore::new();
    assert_eq!(store.exists_reply("k"), StoreReply::Integer(0));
    let pairs = vec![
        FieldPair { field: Field::Title, value: "T".to_string() },
        FieldPair { field: Field::Author, value: "A".to_string() },
        FieldPair { field: Field::Description, value: "D".to_string() },
    ];
    let ack = store.hmset_reply("k", &pairs);
    assert_eq!(ack, StoreReply::Simple("OK".to_string()));
    assert_eq!(store.exists_reply("k"), StoreReply::Integer(1));
    assert_eq!(
        store.hmget_reply("k"),
        StoreReply::Array(vec![
            ReplyItem::Bulk("T".to_string()),
            ReplyItem::Bulk("A".to_string()),
            ReplyItem::Bulk("D".to_string()),
        ])
    );
    assert_eq!(
        store.hmget_reply("absent"),
        StoreReply::Array(vec![ReplyItem::Nil, ReplyItem::Nil, ReplyItem::Nil])
    );
}
