//! The request handlers: each performs one store operation and says with
//! which status, and with which payload, the request is answered.

use vstd::prelude::*;

use crate::identifier::{holds_random_identifier, is_random_identifier};
use crate::store::{lists, views, Store, StoreError};
use crate::todo::{CreateTodo, Todo};

verus! {

/// Status of a request that was answered with a payload.
pub const STATUS_OK: u16 = 200;

/// Status of a request that created a task.
pub const STATUS_CREATED: u16 = 201;

/// Lists all tasks. The answer is always `200`, with a snapshot of the store
/// in no particular order; for an empty store the snapshot is empty.
pub fn get_todos(todos: &Store) -> (response: (u16, Vec<Todo>))
    ensures
        response.0 == STATUS_OK,
        lists(views(response.1@), todos@),
{
    (STATUS_OK, todos.list())
}

/// Looks one task up. The answer is `200` whether or not the task exists: the
/// payload is the task, or `None` where `id` names none.
pub fn get_todo_by_id(id: u128, todos: &Store) -> (response: (u16, Option<Todo>))
    ensures
        response.0 == STATUS_OK,
        match response.1 {
            Some(todo) => todos@.contains_key(id) && todo@ == todos@[id],
            None => !todos@.contains_key(id),
        },
{
    (STATUS_OK, todos.get(id))
}

/// Creates a task from the payload of a request. On success the answer is
/// `201` with the new task, which is then in the store under an identifier
/// that named nothing before. Where no unique identifier could be drawn the
/// store is unchanged and the error is handed on, to be answered as an
/// internal error.
pub fn save_todo(input: CreateTodo, todos: &mut Store) -> (response: Result<
    (u16, Todo),
    StoreError,
>)
    ensures
        !holds_random_identifier(old(todos)@.dom()) ==> response is Ok,
        match response {
            Ok((status, todo)) => {
                &&& status == STATUS_CREATED
                &&& is_random_identifier(todo.id)
                &&& !old(todos)@.contains_key(todo.id)
                &&& todo@ == Todo::created(todo.id, input@)
                &&& final(todos)@ == old(todos)@.insert(todo.id, todo@)
            },
            Err(e) => e == StoreError::IdentifierInUse && final(todos)@ == old(todos)@,
        },
{
    match todos.create(input) {
        Ok(todo) => Ok((STATUS_CREATED, todo)),
        Err(e) => Err(e),
    }
}

} // verus!
