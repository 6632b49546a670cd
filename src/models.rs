//! The persisted todo item and the payload that creates or updates one.
use vstd::prelude::*;
use crate::time::{now, Timestamp};

verus! {

/// A todo item as the table holds it. The id is a UUID, held as its 128-bit
/// value.
#[derive(Clone, Debug, PartialEq, Eq)]
pub struct Todo {
    pub id: u128,
    pub name: String,
    pub completed: bool,
    pub inserted_at: Timestamp,
    pub updated_at: Timestamp,
}

/// The mathematical value of a [`Todo`].
pub struct TodoView {
    pub id: u128,
    pub name: Seq<char>,
    pub completed: bool,
    pub inserted_at: Timestamp,
    pub updated_at: Timestamp,
}

impl View for Todo {
    type V = TodoView;

    open spec fn view(&self) -> TodoView {
        TodoView {
            id: self.id,
            name: self.name@,
            completed: self.completed,
            inserted_at: self.inserted_at,
            updated_at: self.updated_at,
        }
    }
}

impl TodoView {
    /// An item is never updated before it was inserted.
    pub open spec fn wf(self) -> bool {
        self.inserted_at.not_after(self.updated_at)
    }
}

/// The body of a create or update request.
#[derive(Clone, Debug, PartialEq, Eq)]
pub struct TodoPayload {
    pub name: String,
    pub completed: bool,
}

/// The version bits (4, random) and the variant bits (RFC 4122) of a UUID.
pub open spec fn is_random_uuid(id: u128) -> bool {
    id & 0x0000_0000_0000_F000_C000_0000_0000_0000u128
        == 0x0000_0000_0000_4000_8000_0000_0000_0000u128
}

/// Relies on uuid::Uuid::new_v4 and `Uuid::as_u128`: a random UUID, whose
/// version and variant bits are fixed.
#[verifier::external_body]
pub(crate) fn new_id() -> (r: u128)
    ensures
        is_random_uuid(r),
{
    uuid::Uuid::new_v4().as_u128()
}

/// The lowercase hexadecimal digit for `n < 16`.
pub open spec fn hex_digit(n: u128) -> char {
    if n < 10 {
        ((n + 48) as u8) as char
    } else {
        ((n + 87) as u8) as char
    }
}

/// Which of the 32 hexadecimal digits stands at place `i` of the hyphenated
/// form, once the hyphens before it are counted out.
pub open spec fn digit_index(i: int) -> int {
    if i > 23 {
        i - 4
    } else if i > 18 {
        i - 3
    } else if i > 13 {
        i - 2
    } else if i > 8 {
        i - 1
    } else {
        i
    }
}

/// The hyphenated text of a UUID: 32 lowercase hexadecimal digits, most
/// significant first, in groups of 8, 4, 4, 4 and 12 joined by hyphens.
pub open spec fn hyphenated(id: u128) -> Seq<char> {
    Seq::new(
        36,
        |i: int|
            if i == 8 || i == 13 || i == 18 || i == 23 {
                '-'
            } else {
                hex_digit((id >> ((124 - 4 * digit_index(i)) as u128)) & 0xf)
            },
    )
}

/// Relies on uuid's `Uuid::from_u128` and its `Display`, which writes the
/// hyphenated lowercase form.
#[verifier::external_body]
pub(crate) fn id_text(id: u128) -> (r: String)
    ensures
        r@ == hyphenated(id),
{
    uuid::Uuid::from_u128(id).hyphenated().to_string()
}

impl Todo {
    /// A new item with a fresh random id, inserted and updated now.
    pub fn new(name: String, completed: bool) -> (r: Todo)
        ensures
            r@.name == name@,
            r@.completed == completed,
            r@.inserted_at == r@.updated_at,
            is_random_uuid(r@.id),
            r@.wf(),
    {
        let id = new_id();
        let at = now();
        Todo::from_parts(id, name, completed, at)
    }

    /// The item with the given id and fields, inserted and updated at `at`.
    pub fn from_parts(id: u128, name: String, completed: bool, at: Timestamp) -> (r: Todo)
        ensures
            r@ == (TodoView {
                id,
                name: name@,
                completed,
                inserted_at: at,
                updated_at: at,
            }),
            r@.wf(),
    {
        Todo { id, name, completed, inserted_at: at, updated_at: at }
    }
}

} // verus!
