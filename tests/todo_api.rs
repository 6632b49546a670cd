use todo_api::models::{Todo, TodoPayload};
use todo_api::router::{
    complete_reply, create_reply, delete_reply, get_reply, health, list_reply, update_reply, Body,
    Message, Reply, CREATED, INTERNAL_SERVER_ERROR, NOT_FOUND, OK,
};
use todo_api::store::{
    complete_by_id, create, delete_by_id, delete_outcome, get_by_id, list_all, row_outcome,
    update_by_id, update_outcome, DeleteOutcome, Statement, StoreError, UpdateOutcome,
};
use todo_api::time::Timestamp;

const SAMPLE_ID: u128 = 0xa1a2a3a4b1b2c1c2d1d2d3d4d5d6d7d8;

fn at(secs: i64, nanos: u32) -> Timestamp {
    Timestamp { secs, nanos }
}

fn sample(completed: bool) -> Todo {
    Todo::from_parts(SAMPLE_ID, "buy milk".to_string(), completed, at(1_700_000_000, 5))
}

fn payload(name: &str, completed: bool) -> TodoPayload {
    TodoPayload { name: name.to_string(), completed }
}

fn message(status: u16, text: &str) -> Reply {
    Reply { status, body: Body::Message(Message::new(text.to_string())) }
}

fn is_random_uuid(id: u128) -> bool {
    (id >> 76) & 0xf == 4 && (id >> 62) & 0x3 == 2
}

#[test]
fn health_reports_running() {
    assert_eq!(health(), message(OK, "Server running"));
}

#[test]
fn message_holds_its_text() {
    assert_eq!(Message::new("hi".to_string()).message, "hi");
}

#[test]
fn new_item_is_fresh() {
    let item = Todo::new("write tests".to_string(), true);
    assert_eq!(item.name, "write tests");
    assert!(item.completed);
    assert_eq!(item.inserted_at, item.updated_at);
    assert!(item.inserted_at.secs > 0);
    assert!(item.inserted_at.nanos < 1_000_000_000);
    assert!(is_random_uuid(item.id));
}

#[test]
fn new_items_get_distinct_ids() {
    let a = Todo::new("a".to_string(), false);
    let b = Todo::new("a".to_string(), false);
    assert_ne!(a.id, b.id);
}

#[test]
fn from_parts_sets_both_times() {
    let item = sample(false);
    assert_eq!(item.id, SAMPLE_ID);
    assert_eq!(item.name, "buy milk");
    assert!(!item.completed);
    assert_eq!(item.inserted_at, at(1_700_000_000, 5));
    assert_eq!(item.updated_at, at(1_700_000_000, 5));
}

#[test]
fn create_inserts_the_item_it_returns() {
    let (item, stmt) = create(payload("buy milk", false));
    assert_eq!(item.name, "buy milk");
    assert!(!item.completed);
    assert_eq!(item.inserted_at, item.updated_at);
    assert_eq!(stmt, Statement::Insert(item.clone()));
    assert_eq!(get_by_id(item.id), Statement::SelectOne(item.id));
}

#[test]
fn simple_statements() {
    assert_eq!(list_all(), Statement::SelectAll);
    assert_eq!(get_by_id(7), Statement::SelectOne(7));
    assert_eq!(delete_by_id(7), Statement::Delete(7));
}

#[test]
fn update_statement_carries_payload_and_a_later_time() {
    let (item, _) = create(payload("old", false));
    match update_by_id(item.id, payload("new", true)) {
        Statement::Update { id, name, completed, at } => {
            assert_eq!(id, item.id);
            assert_eq!(name, "new");
            assert!(completed);
            assert!((at.secs, at.nanos) >= (item.updated_at.secs, item.updated_at.nanos));
        }
        other => panic!("unexpected statement {:?}", other),
    }
}

#[test]
fn complete_statement_targets_the_id() {
    match complete_by_id(9) {
        Statement::Complete { id, at } => {
            assert_eq!(id, 9);
            assert!(at.nanos < 1_000_000_000);
        }
        other => panic!("unexpected statement {:?}", other),
    }
}

#[test]
fn statement_sql() {
    assert_eq!(Statement::SelectAll.sql(), "SELECT * FROM todos");
    assert_eq!(Statement::SelectOne(1).sql(), "SELECT * FROM todos WHERE id = $1");
    assert_eq!(Statement::Delete(1).sql(), "DELETE FROM todos WHERE id = $1");
    assert_eq!(
        Statement::Insert(sample(false)).sql(),
        "INSERT INTO todos (id, name, completed, inserted_at, updated_at) VALUES ($1, $2, $3, $4, $5)"
    );
    assert_eq!(
        Statement::Update { id: 1, name: "x".to_string(), completed: true, at: at(1, 0) }.sql(),
        "UPDATE todos SET name = $2, completed = $3, updated_at = $4 WHERE id = $1"
    );
    assert_eq!(
        Statement::Complete { id: 1, at: at(1, 0) }.sql(),
        "UPDATE todos SET completed = 1, updated_at = $2 WHERE id = $1 RETURNING *"
    );
}

#[test]
fn update_outcomes() {
    assert_eq!(update_outcome(0), UpdateOutcome::NotFound);
    assert_eq!(update_outcome(1), UpdateOutcome::Updated);
    assert_eq!(update_outcome(u64::MAX), UpdateOutcome::Updated);
}

#[test]
fn delete_outcomes() {
    assert_eq!(delete_outcome(3, 0), DeleteOutcome::NotFound);
    assert_eq!(delete_outcome(3, 1), DeleteOutcome::Deleted(3));
}

#[test]
fn row_outcomes() {
    assert_eq!(row_outcome(Some(sample(true))), Ok(sample(true)));
    assert_eq!(row_outcome(None), Err(StoreError::NotFound));
}

#[test]
fn create_replies() {
    assert_eq!(
        create_reply(sample(false), Ok(1)),
        Reply { status: CREATED, body: Body::Item(sample(false)) }
    );
    assert_eq!(
        create_reply(sample(false), Err(StoreError::Storage)),
        Reply { status: INTERNAL_SERVER_ERROR, body: Body::Empty }
    );
}

#[test]
fn list_of_empty_table_is_empty_array() {
    assert_eq!(list_reply(Ok(Vec::new())), Reply { status: OK, body: Body::Items(Vec::new()) });
}

#[test]
fn list_replies() {
    let rows = vec![sample(false), sample(true)];
    assert_eq!(list_reply(Ok(rows.clone())), Reply { status: OK, body: Body::Items(rows) });
    assert_eq!(
        list_reply(Err(StoreError::Storage)),
        Reply { status: INTERNAL_SERVER_ERROR, body: Body::Empty }
    );
}

#[test]
fn get_replies() {
    assert_eq!(
        get_reply(Ok(Some(sample(false)))),
        Reply { status: OK, body: Body::Item(sample(false)) }
    );
    let failed = Reply { status: INTERNAL_SERVER_ERROR, body: Body::Empty };
    assert_eq!(get_reply(Ok(None)), failed);
    assert_eq!(get_reply(Err(StoreError::Storage)), failed);
}

#[test]
fn update_replies() {
    assert_eq!(update_reply(Ok(1)), Reply { status: OK, body: Body::Empty });
    assert_eq!(update_reply(Ok(0)), Reply { status: NOT_FOUND, body: Body::Empty });
    assert_eq!(
        update_reply(Err(StoreError::Storage)),
        Reply { status: INTERNAL_SERVER_ERROR, body: Body::Empty }
    );
}

#[test]
fn delete_replies() {
    assert_eq!(
        delete_reply(SAMPLE_ID, Ok(1)),
        message(OK, "Record a1a2a3a4-b1b2-c1c2-d1d2-d3d4d5d6d7d8 deleted successfully")
    );
    assert_eq!(
        delete_reply(0x0f, Ok(1)),
        message(OK, "Record 00000000-0000-0000-0000-00000000000f deleted successfully")
    );
    assert_eq!(delete_reply(SAMPLE_ID, Ok(0)), message(NOT_FOUND, "Record not found"));
    assert_eq!(
        delete_reply(SAMPLE_ID, Err(StoreError::Storage)),
        Reply { status: INTERNAL_SERVER_ERROR, body: Body::Empty }
    );
}

#[test]
fn complete_replies() {
    assert_eq!(
        complete_reply(Ok(Some(sample(true)))),
        Reply { status: OK, body: Body::Item(sample(true)) }
    );
    assert_eq!(complete_reply(Ok(None)), Reply { status: NOT_FOUND, body: Body::Empty });
    assert_eq!(
        complete_reply(Err(StoreError::Storage)),
        Reply { status: INTERNAL_SERVER_ERROR, body: Body::Empty }
    );
}

#[test]
fn complete_twice_gives_the_same_reply() {
    let first = complete_reply(Ok(Some(sample(true))));
    let second = complete_reply(Ok(Some(sample(true))));
    assert_eq!(first, second);
}

#[test]
fn create_get_complete_delete_round() {
    let (item, stmt) = create(payload("buy milk", false));
    assert_eq!(stmt, Statement::Insert(item.clone()));
    let created = create_reply(item.clone(), Ok(1));
    assert_eq!(created.status, CREATED);
    assert_eq!(created.body, Body::Item(item.clone()));

    assert_eq!(get_by_id(item.id), Statement::SelectOne(item.id));
    assert_eq!(get_reply(Ok(Some(item.clone()))), Reply { status: OK, body: Body::Item(item.clone()) });

    let done = Todo { completed: true, ..item.clone() };
    let completed = complete_reply(Ok(Some(done.clone())));
    assert_eq!(completed.status, OK);
    match completed.body {
        Body::Item(t) => assert!(t.completed),
        other => panic!("unexpected body {:?}", other),
    }

    let text = format!("Record {} deleted successfully", uuid::Uuid::from_u128(item.id));
    assert_eq!(delete_reply(item.id, Ok(1)), message(OK, &text));
    assert_eq!(get_reply(Ok(None)).status, INTERNAL_SERVER_ERROR);
}
