//! The task record and the payload from which one is created.

use vstd::prelude::*;

verus! {

/// Mathematical value of a [`Todo`].
pub struct TodoView {
    pub id: u128,
    pub user: Option<Seq<char>>,
    pub text: Seq<char>,
    pub completed: bool,
}

/// Mathematical value of a [`CreateTodo`].
pub struct CreateTodoView {
    pub text: Seq<char>,
    pub user: Option<Seq<char>>,
}

/// Value of an optional text, such as the owner label of a task.
pub open spec fn optional_text(text: Option<String>) -> Option<Seq<char>> {
    match text {
        Some(present) => Some(present@),
        None => None,
    }
}

/// A task: its identifier, an optional owner label, its text and whether it
/// has been completed.
///
/// The identifier is the 128-bit value of a UUID. It is assigned when the task
/// is created and identifies at most one task of a store.
#[derive(Debug, PartialEq, Eq)]
pub struct Todo {
    pub id: u128,
    pub user: Option<String>,
    pub text: String,
    pub completed: bool,
}

/// What a client supplies to create a task: the text, and optionally an owner.
/// The identifier is never part of it.
#[derive(Debug, PartialEq, Eq)]
pub struct CreateTodo {
    pub text: String,
    pub user: Option<String>,
}

impl View for Todo {
    type V = TodoView;

    open spec fn view(&self) -> TodoView {
        TodoView {
            id: self.id,
            user: optional_text(self.user),
            text: self.text@,
            completed: self.completed,
        }
    }
}

impl View for CreateTodo {
    type V = CreateTodoView;

    open spec fn view(&self) -> CreateTodoView {
        CreateTodoView { text: self.text@, user: optional_text(self.user) }
    }
}

/// Copies an optional owner label.
pub fn clone_user(user: &Option<String>) -> (copy: Option<String>)
    ensures
        copy == *user,
{
    match user {
        Some(name) => Some(name.clone()),
        None => None,
    }
}

impl Clone for Todo {
    fn clone(&self) -> (copy: Self)
        ensures
            copy == *self,
    {
        Todo {
            id: self.id,
            user: clone_user(&self.user),
            text: self.text.clone(),
            completed: self.completed,
        }
    }
}

impl Clone for CreateTodo {
    fn clone(&self) -> (copy: Self)
        ensures
            copy == *self,
    {
        CreateTodo { text: self.text.clone(), user: clone_user(&self.user) }
    }
}

impl Todo {
    /// The task that creating from `input` under the identifier `id` yields:
    /// not yet completed, with the text and owner of the payload.
    pub open spec fn created(id: u128, input: CreateTodoView) -> TodoView {
        TodoView { id, user: input.user, text: input.text, completed: false }
    }

    /// Builds the task that a creation request yields under the identifier `id`.
    pub fn from_request(id: u128, input: CreateTodo) -> (todo: Todo)
        ensures
            todo@ == Todo::created(id, input@),
    {
        Todo { id, user: input.user, text: input.text, completed: false }
    }
}

} // verus!
