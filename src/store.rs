//! The repository: the statements it runs against the `todos` table, what
//! each does to the table, and how their results become outcomes.
use vstd::prelude::*;
use crate::models::{Todo, TodoPayload, TodoView};
use crate::time::{now, Timestamp};

verus! {

/// The table as a map from id to item.
pub type Table = Map<u128, TodoView>;

/// One statement against the `todos` table, with its bound values.
#[derive(Clone, Debug, PartialEq, Eq)]
pub enum Statement {
    /// Insert this item.
    Insert(Todo),
    /// Read every row, in no particular order.
    SelectAll,
    /// Read the row with this id.
    SelectOne(u128),
    /// Set the name and the completed flag of the row with this id, and
    /// refresh its update time.
    Update { id: u128, name: String, completed: bool, at: Timestamp },
    /// Remove the row with this id.
    Delete(u128),
    /// Mark the row with this id completed, refresh its update time, and
    /// read it back.
    Complete { id: u128, at: Timestamp },
}

/// What went wrong with a repository operation.
#[derive(Clone, Copy, Debug, PartialEq, Eq, Structural)]
pub enum StoreError {
    /// No row has the id asked for.
    NotFound,
    /// The datastore failed: no connection, a broken constraint, a failed query.
    Storage,
}

/// The outcome of an update.
#[derive(Clone, Copy, Debug, PartialEq, Eq, Structural)]
pub enum UpdateOutcome {
    Updated,
    NotFound,
}

/// The outcome of a delete.
#[derive(Clone, Copy, Debug, PartialEq, Eq, Structural)]
pub enum DeleteOutcome {
    Deleted(u128),
    NotFound,
}

/// The row after an update that sets `name` and `completed` at `at`.
pub open spec fn updated_row(row: TodoView, name: Seq<char>, completed: bool, at: Timestamp) -> TodoView {
    TodoView { name, completed, updated_at: at, ..row }
}

/// The row after it is marked completed at `at`.
pub open spec fn completed_row(row: TodoView, at: Timestamp) -> TodoView {
    TodoView { completed: true, updated_at: at, ..row }
}

impl Statement {
    /// The table after the statement has run on `t`.
    pub open spec fn effect(self, t: Table) -> Table {
        match self {
            Statement::Insert(item) => t.insert(item.id, item@),
            Statement::SelectAll => t,
            Statement::SelectOne(_) => t,
            Statement::Update { id, name, completed, at } => if t.contains_key(id) {
                t.insert(id, updated_row(t[id], name@, completed, at))
            } else {
                t
            },
            Statement::Delete(id) => t.remove(id),
            Statement::Complete { id, at } => if t.contains_key(id) {
                t.insert(id, completed_row(t[id], at))
            } else {
                t
            },
        }
    }

    /// Whether the statement succeeds on `t` when the datastore itself does
    /// not fail: an insert needs an id that no row has yet.
    pub open spec fn admits(self, t: Table) -> bool {
        match self {
            Statement::Insert(item) => !t.contains_key(item.id),
            _ => true,
        }
    }

    /// How many rows the statement writes on `t`.
    pub open spec fn rows_affected(self, t: Table) -> nat {
        match self {
            Statement::Insert(_) => 1,
            Statement::SelectAll => 0,
            Statement::SelectOne(_) => 0,
            Statement::Update { id, .. } => if t.contains_key(id) { 1 } else { 0 },
            Statement::Delete(id) => if t.contains_key(id) { 1 } else { 0 },
            Statement::Complete { id, .. } => if t.contains_key(id) { 1 } else { 0 },
        }
    }

    /// The row that a statement reading one row gets back from `t`.
    pub open spec fn row_returned(self, t: Table) -> Option<TodoView> {
        match self {
            Statement::SelectOne(id) => if t.contains_key(id) { Some(t[id]) } else { None },
            Statement::Complete { id, .. } => if self.effect(t).contains_key(id) {
                Some(self.effect(t)[id])
            } else {
                None
            },
            _ => None,
        }
    }

    /// The statement's time, for a write that carries one, is not before the
    /// last update of the row it writes; an inserted item is well formed.
    pub open spec fn in_clock_order(self, t: Table) -> bool {
        match self {
            Statement::Insert(item) => item@.wf(),
            Statement::Update { id, at, .. } => t.contains_key(id) ==> t[id].updated_at.not_after(at),
            Statement::Complete { id, at } => t.contains_key(id) ==> t[id].updated_at.not_after(at),
            _ => true,
        }
    }

    /// The SQL text of the statement; its values are bound in the order in
    /// which the variant lists them, `$1` first.
    pub fn sql(&self) -> (r: &'static str)
        ensures
            r@ == sql_text(*self),
    {
        match self {
            Statement::Insert(_) => "INSERT INTO todos (id, name, completed, inserted_at, updated_at) VALUES ($1, $2, $3, $4, $5)",
            Statement::SelectAll => "SELECT * FROM todos",
            Statement::SelectOne(_) => "SELECT * FROM todos WHERE id = $1",
            Statement::Update { .. } => "UPDATE todos SET name = $2, completed = $3, updated_at = $4 WHERE id = $1",
            Statement::Delete(_) => "DELETE FROM todos WHERE id = $1",
            Statement::Complete { .. } => "UPDATE todos SET completed = 1, updated_at = $2 WHERE id = $1 RETURNING *",
        }
    }
}

/// The SQL text of each kind of statement.
pub open spec fn sql_text(s: Statement) -> Seq<char> {
    match s {
        Statement::Insert(_) => "INSERT INTO todos (id, name, completed, inserted_at, updated_at) VALUES ($1, $2, $3, $4, $5)"@,
        Statement::SelectAll => "SELECT * FROM todos"@,
        Statement::SelectOne(_) => "SELECT * FROM todos WHERE id = $1"@,
        Statement::Update { .. } => "UPDATE todos SET name = $2, completed = $3, updated_at = $4 WHERE id = $1"@,
        Statement::Delete(_) => "DELETE FROM todos WHERE id = $1"@,
        Statement::Complete { .. } => "UPDATE todos SET completed = 1, updated_at = $2 WHERE id = $1 RETURNING *"@,
    }
}

/// Every row is keyed by its own id and was not updated before it was
/// inserted.
pub open spec fn table_wf(t: Table) -> bool {
    forall|id: u128| #[trigger] t.contains_key(id) ==> t[id].id == id && t[id].wf()
}

/// `item` is what a create of `name` and `completed` makes: those fields,
/// inserted and updated at the same instant.
pub open spec fn is_created(item: TodoView, name: Seq<char>, completed: bool) -> bool {
    &&& item.name == name
    &&& item.completed == completed
    &&& item.inserted_at == item.updated_at
}

/// A new item made from `payload`, and the statement that inserts it.
pub fn create(payload: TodoPayload) -> (r: (Todo, Statement))
    ensures
        is_created(r.0@, payload.name@, payload.completed),
        r.1 == Statement::Insert(r.0),
{
    let item = Todo::new(payload.name, payload.completed);
    let row = Todo {
        id: item.id,
        name: item.name.clone(),
        completed: item.completed,
        inserted_at: item.inserted_at,
        updated_at: item.updated_at,
    };
    (item, Statement::Insert(row))
}

/// The statement that reads every item.
pub fn list_all() -> (r: Statement)
    ensures
        r == Statement::SelectAll,
{
    Statement::SelectAll
}

/// The statement that reads the item with id `id`.
pub fn get_by_id(id: u128) -> (r: Statement)
    ensures
        r == Statement::SelectOne(id),
{
    Statement::SelectOne(id)
}

/// The statement that sets the name and the completed flag of the item with
/// id `id` from `payload`, and its update time to now.
pub fn update_by_id(id: u128, payload: TodoPayload) -> (r: Statement)
    ensures
        r matches Statement::Update { id: i, name, completed, .. }
            && i == id && name@ == payload.name@ && completed == payload.completed,
{
    let at = now();
    Statement::Update { id, name: payload.name, completed: payload.completed, at }
}

/// The statement that removes the item with id `id`.
pub fn delete_by_id(id: u128) -> (r: Statement)
    ensures
        r == Statement::Delete(id),
{
    Statement::Delete(id)
}

/// The statement that marks the item with id `id` completed, with its
/// update time set to now, and reads it back.
pub fn complete_by_id(id: u128) -> (r: Statement)
    ensures
        r matches Statement::Complete { id: i, .. } && i == id,
{
    let at = now();
    Statement::Complete { id, at }
}

/// The outcome of an update that wrote `rows` rows.
pub open spec fn update_outcome_of(rows: nat) -> UpdateOutcome {
    if rows == 0 {
        UpdateOutcome::NotFound
    } else {
        UpdateOutcome::Updated
    }
}

/// The outcome of an update that wrote `rows` rows: not found when it wrote
/// none.
pub fn update_outcome(rows: u64) -> (r: UpdateOutcome)
    ensures
        r == update_outcome_of(rows as nat),
{
    if rows == 0 {
        UpdateOutcome::NotFound
    } else {
        UpdateOutcome::Updated
    }
}

/// The outcome of a delete of `id` that wrote `rows` rows.
pub open spec fn delete_outcome_of(id: u128, rows: nat) -> DeleteOutcome {
    if rows == 0 {
        DeleteOutcome::NotFound
    } else {
        DeleteOutcome::Deleted(id)
    }
}

/// The outcome of a delete of `id` that wrote `rows` rows: not found when it
/// wrote none.
pub fn delete_outcome(id: u128, rows: u64) -> (r: DeleteOutcome)
    ensures
        r == delete_outcome_of(id, rows as nat),
{
    if rows == 0 {
        DeleteOutcome::NotFound
    } else {
        DeleteOutcome::Deleted(id)
    }
}

/// The outcome of a statement that reads one row back: the row, or not
/// found when there was none.
pub fn row_outcome(row: Option<Todo>) -> (r: Result<Todo, StoreError>)
    ensures
        match row {
            Some(item) => r == Ok::<Todo, StoreError>(item),
            None => r == Err::<Todo, StoreError>(StoreError::NotFound),
        },
{
    match row {
        Some(item) => Ok(item),
        None => Err(StoreError::NotFound),
    }
}

/// Reading an item back by its id right after it was created gives the item
/// as created: the payload's name and completed flag, inserted and updated
/// at the same instant.
pub proof fn lemma_create_then_get(t: Table, payload: TodoPayload, item: Todo)
    requires
        is_created(item@, payload.name@, payload.completed),
        Statement::Insert(item).admits(t),
    ensures
        ({
            let after = Statement::Insert(item).effect(t);
            let got = Statement::SelectOne(item.id).row_returned(after);
            &&& got == Some(item@)
            &&& got.unwrap().name == payload.name@
            &&& got.unwrap().completed == payload.completed
            &&& got.unwrap().inserted_at == got.unwrap().updated_at
        }),
{
}

/// An update of an existing item that runs after the item's last update
/// moves its update time forward, reports it updated, and keeps its id and
/// its insertion time.
pub proof fn lemma_update_refreshes(t: Table, id: u128, name: String, completed: bool, at: Timestamp)
    requires
        t.contains_key(id),
        t[id].updated_at.before(at),
    ensures
        ({
            let s = Statement::Update { id, name, completed, at };
            let after = s.effect(t);
            &&& after.contains_key(id)
            &&& t[id].updated_at.before(after[id].updated_at)
            &&& after[id].id == t[id].id
            &&& after[id].inserted_at == t[id].inserted_at
            &&& after[id].name == name@
            &&& after[id].completed == completed
            &&& update_outcome_of(s.rows_affected(t)) == UpdateOutcome::Updated
        }),
{
}

/// A delete of an id that no item has reports not found; a delete of an
/// existing item removes it, so that reading it back finds nothing.
pub proof fn lemma_delete(t: Table, id: u128)
    ensures
        !t.contains_key(id) ==> delete_outcome_of(id, Statement::Delete(id).rows_affected(t))
            == DeleteOutcome::NotFound,
        t.contains_key(id) ==> delete_outcome_of(id, Statement::Delete(id).rows_affected(t))
            == DeleteOutcome::Deleted(id),
        Statement::SelectOne(id).row_returned(Statement::Delete(id).effect(t)) is None,
{
}

/// Completing an item twice in a row leaves the table as completing it once
/// at the later time does; the item is then completed. At one and the same
/// time the second completion changes nothing.
pub proof fn lemma_complete_twice(t: Table, id: u128, first: Timestamp, second: Timestamp)
    ensures
        ({
            let once = Statement::Complete { id, at: first }.effect(t);
            let twice = Statement::Complete { id, at: second }.effect(once);
            &&& twice == Statement::Complete { id, at: second }.effect(t)
            &&& t.contains_key(id) ==> twice[id].completed
            &&& Statement::Complete { id, at: first }.effect(once) == once
        }),
{
    let once = Statement::Complete { id, at: first }.effect(t);
    let twice = Statement::Complete { id, at: second }.effect(once);
    if t.contains_key(id) {
        assert(twice =~= Statement::Complete { id, at: second }.effect(t));
        assert(Statement::Complete { id, at: first }.effect(once) =~= once);
    }
}

/// Each statement keeps every row keyed by its id and never updated before
/// it was inserted, as long as the clock it read has not gone back.
pub proof fn lemma_effect_keeps_wf(t: Table, s: Statement)
    requires
        table_wf(t),
        s.in_clock_order(t),
    ensures
        table_wf(s.effect(t)),
{
}

} // verus!
