//! A small task service core: an in-memory store of short text tasks, the
//! request handlers that sit on top of it, and the decisions taken by the
//! request pipeline around them (metric labels, error responses).
//!
//! Everything here works on plain values. Sockets, routing, serialisation and
//! the metrics recorder live with the embedding application.

pub mod handlers;
pub mod identifier;
pub mod metrics;
pub mod pipeline;
pub mod store;
pub mod todo;

pub use handlers::{get_todo_by_id, get_todos, save_todo};
pub use store::{Store, StoreError};
pub use todo::{CreateTodo, CreateTodoView, Todo, TodoView};
