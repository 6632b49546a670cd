//! The replies of the HTTP routes: each route runs one repository statement,
//! and its reply follows from the statement's result alone.
use vstd::prelude::*;
use crate::models::{hyphenated, id_text, Todo};
use crate::store::{
    delete_outcome, delete_outcome_of, row_outcome, update_outcome, update_outcome_of,
    DeleteOutcome, StoreError, UpdateOutcome,
};

verus! {

/// 200 OK.
pub const OK: u16 = 200;

/// 201 Created.
pub const CREATED: u16 = 201;

/// 404 Not Found.
pub const NOT_FOUND: u16 = 404;

/// 500 Internal Server Error.
pub const INTERNAL_SERVER_ERROR: u16 = 500;

/// A JSON body `{"message": ...}`.
#[derive(Clone, Debug, PartialEq, Eq)]
pub struct Message {
    pub message: String,
}

impl Message {
    /// The message with text `msg`.
    pub fn new(msg: String) -> (r: Message)
        ensures
            r.message == msg,
    {
        Message { message: msg }
    }
}

/// The body of a reply.
#[derive(Clone, Debug, PartialEq, Eq)]
pub enum Body {
    /// No body.
    Empty,
    /// A message object.
    Message(Message),
    /// One item.
    Item(Todo),
    /// An array of items.
    Items(Vec<Todo>),
}

/// A status code and a body.
#[derive(Clone, Debug, PartialEq, Eq)]
pub struct Reply {
    pub status: u16,
    pub body: Body,
}

/// The failure reply: a server error with no body.
pub open spec fn server_error() -> Reply {
    Reply { status: INTERNAL_SERVER_ERROR, body: Body::Empty }
}

/// `r` has status `status` and a message body with text `text`.
pub open spec fn is_message(r: Reply, status: u16, text: Seq<char>) -> bool {
    &&& r.status == status
    &&& r.body matches Body::Message(m) && m.message@ == text
}

/// The text of the message that a delete of `id` answers with.
pub open spec fn deleted_text(id: u128) -> Seq<char> {
    "Record "@ + hyphenated(id) + " deleted successfully"@
}

/// The liveness reply of `GET /`.
pub fn health() -> (r: Reply)
    ensures
        is_message(r, OK, "Server running"@),
{
    Reply { status: OK, body: Body::Message(Message::new(String::from_str("Server running"))) }
}

/// The reply of `POST /todos` once the insert of `item` has run: the item,
/// created, or a server error.
pub fn create_reply(item: Todo, inserted: Result<u64, StoreError>) -> (r: Reply)
    ensures
        inserted is Ok ==> r == (Reply { status: CREATED, body: Body::Item(item) }),
        inserted is Err ==> r == server_error(),
{
    match inserted {
        Ok(_) => Reply { status: CREATED, body: Body::Item(item) },
        Err(_) => Reply { status: INTERNAL_SERVER_ERROR, body: Body::Empty },
    }
}

/// The reply of `GET /todos`: every row read, an empty array for an empty
/// table, or a server error.
pub fn list_reply(rows: Result<Vec<Todo>, StoreError>) -> (r: Reply)
    ensures
        match rows {
            Ok(items) => r == (Reply { status: OK, body: Body::Items(items) }),
            Err(_) => r == server_error(),
        },
{
    match rows {
        Ok(items) => Reply { status: OK, body: Body::Items(items) },
        Err(_) => Reply { status: INTERNAL_SERVER_ERROR, body: Body::Empty },
    }
}

/// The reply of `GET /todos/{id}`: the item, or a server error on any
/// failure, a missing item included.
pub fn get_reply(row: Result<Option<Todo>, StoreError>) -> (r: Reply)
    ensures
        match row {
            Ok(Some(item)) => r == (Reply { status: OK, body: Body::Item(item) }),
            _ => r == server_error(),
        },
{
    match row {
        Ok(found) => match row_outcome(found) {
            Ok(item) => Reply { status: OK, body: Body::Item(item) },
            Err(_) => Reply { status: INTERNAL_SERVER_ERROR, body: Body::Empty },
        },
        Err(_) => Reply { status: INTERNAL_SERVER_ERROR, body: Body::Empty },
    }
}

/// The reply of `PUT /todos/{id}` once the update has written `rows` rows:
/// OK, not found when it wrote none, or a server error; no body.
pub fn update_reply(rows: Result<u64, StoreError>) -> (r: Reply)
    ensures
        r.body is Empty,
        match rows {
            Ok(n) => r.status == if n == 0 { NOT_FOUND } else { OK },
            Err(_) => r.status == INTERNAL_SERVER_ERROR,
        },
{
    match rows {
        Ok(n) => match update_outcome(n) {
            UpdateOutcome::Updated => Reply { status: OK, body: Body::Empty },
            UpdateOutcome::NotFound => Reply { status: NOT_FOUND, body: Body::Empty },
        },
        Err(_) => Reply { status: INTERNAL_SERVER_ERROR, body: Body::Empty },
    }
}

/// The reply of `DELETE /todos/{id}` once the delete has written `rows`
/// rows: a message that the record was deleted, a not-found message when
/// it wrote none, or a server error.
pub fn delete_reply(id: u128, rows: Result<u64, StoreError>) -> (r: Reply)
    ensures
        match rows {
            Ok(n) => if n == 0 {
                is_message(r, NOT_FOUND, "Record not found"@)
            } else {
                is_message(r, OK, deleted_text(id))
            },
            Err(_) => r == server_error(),
        },
{
    match rows {
        Ok(n) => match delete_outcome(id, n) {
            DeleteOutcome::Deleted(gone) => {
                let mut text = String::from_str("Record ");
                let digits = id_text(gone);
                text.append(digits.as_str());
                text.append(" deleted successfully");
                Reply { status: OK, body: Body::Message(Message::new(text)) }
            },
            DeleteOutcome::NotFound => Reply {
                status: NOT_FOUND,
                body: Body::Message(Message::new(String::from_str("Record not found"))),
            },
        },
        Err(_) => Reply { status: INTERNAL_SERVER_ERROR, body: Body::Empty },
    }
}

/// The reply of `PUT /todos/complete/{id}`: the completed item read back,
/// not found when no row had the id, or a server error.
pub fn complete_reply(row: Result<Option<Todo>, StoreError>) -> (r: Reply)
    ensures
        match row {
            Ok(Some(item)) => r == (Reply { status: OK, body: Body::Item(item) }),
            Ok(None) => r.status == NOT_FOUND && r.body is Empty,
            Err(_) => r == server_error(),
        },
{
    match row {
        Ok(found) => match row_outcome(found) {
            Ok(item) => Reply { status: OK, body: Body::Item(item) },
            Err(_) => Reply { status: NOT_FOUND, body: Body::Empty },
        },
        Err(_) => Reply { status: INTERNAL_SERVER_ERROR, body: Body::Empty },
    }
}

} // verus!
