//! A small todo-item service: the data model, the statements that the
//! repository runs against its table, and the replies of the HTTP routes.
pub mod time;
pub mod models;
pub mod store;
pub mod router;
