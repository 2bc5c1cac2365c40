//! The in-memory store of tasks.
//!
//! A [`Store`] maps identifiers to tasks. Readers take it by shared reference
//! and writers by exclusive reference, so any number of `list` and `get` calls
//! may run side by side while a `create` excludes every other access: the
//! discipline of a read/write lock, which is what an embedding application
//! puts around the one store it shares.

use std::collections::HashMap;
use vstd::prelude::*;
use vstd::std_specs::iter::IteratorSpec;

use crate::identifier::{fresh_identifier, holds_random_identifier, is_random_identifier};
use crate::todo::{clone_user, optional_text, CreateTodo, Todo, TodoView};

verus! {

broadcast use vstd::std_specs::hash::group_hash_axioms;

/// Why a write to the store was turned down.
#[derive(Debug, Clone, Copy, PartialEq, Eq, Structural)]
pub enum StoreError {
    /// The identifier offered for a new task already names a task of the
    /// store. For an identifier drawn at random this means that the generator
    /// has failed to produce a unique one.
    IdentifierInUse,
}

/// Values of the tasks of a sequence, in order.
pub open spec fn views(todos: Seq<Todo>) -> Seq<TodoView> {
    todos.map_values(|todo: Todo| todo@)
}

/// Whether `entries` lists exactly the tasks of `contents`: as many entries
/// as the store has tasks, each of them a task of the store under its own
/// identifier, and no identifier twice. The order is left open.
pub open spec fn lists(entries: Seq<TodoView>, contents: Map<u128, TodoView>) -> bool {
    &&& entries.len() == contents.len()
    &&& forall|i: int|
        0 <= i < entries.len() ==> contents.contains_key(#[trigger] entries[i].id)
            && contents[entries[i].id] == entries[i]
    &&& forall|i: int, j: int|
        0 <= i < j < entries.len() ==> (#[trigger] entries[i]).id != (#[trigger] entries[j]).id
}

/// What the store keeps of a task. The identifier is the key under which the
/// record is filed, and is kept nowhere else.
struct Record {
    user: Option<String>,
    text: String,
    completed: bool,
}

impl Record {
    /// The task that this record stands for when it is filed under `id`.
    spec fn todo(self, id: u128) -> TodoView {
        TodoView {
            id,
            user: optional_text(self.user),
            text: self.text@,
            completed: self.completed,
        }
    }

    /// A copy of the task that this record stands for under `id`.
    fn to_todo(&self, id: u128) -> (todo: Todo)
        ensures
            todo@ == self.todo(id),
    {
        Todo {
            id,
            user: clone_user(&self.user),
            text: self.text.clone(),
            completed: self.completed,
        }
    }
}

/// An in-memory collection of tasks, keyed by identifier.
pub struct Store {
    records: HashMap<u128, Record>,
}

impl View for Store {
    type V = Map<u128, TodoView>;

    closed spec fn view(&self) -> Map<u128, TodoView> {
        Map::new(
            |id: u128| self.records@.contains_key(id),
            |id: u128| self.records@[id].todo(id),
        )
    }
}

impl Default for Store {
    /// An empty store.
    fn default() -> (store: Store)
        ensures
            store@ == Map::<u128, TodoView>::empty(),
    {
        Store::new()
    }
}

impl Store {
    /// An empty store.
    pub fn new() -> (store: Store)
        ensures
            store@ == Map::<u128, TodoView>::empty(),
    {
        let store = Store { records: HashMap::new() };
        assert(store@ =~= Map::<u128, TodoView>::empty());
        store
    }

    /// Every task of a store is filed under its own identifier, and a store
    /// holds finitely many tasks.
    pub proof fn lemma_keyed_by_identifier(&self)
        ensures
            self@.dom().finite(),
            forall|id: u128| #[trigger] self@.contains_key(id) ==> self@[id].id == id,
    {
        assert(self@.dom() =~= self.records@.dom());
    }

    /// Looks a task up by its identifier and hands out a copy of it, or
    /// `None` if the store holds no task under `id`. Absence is an answer, not
    /// an error.
    pub fn get(&self, id: u128) -> (found: Option<Todo>)
        ensures
            match found {
                Some(todo) => self@.contains_key(id) && todo@ == self@[id],
                None => !self@.contains_key(id),
            },
    {
        match self.records.get(&id) {
            Some(record) => Some(record.to_todo(id)),
            None => None,
        }
    }

    /// Files `todo` under its own identifier, unless that identifier already
    /// names a task: then nothing changes and the task is turned down.
    ///
    /// This is how a store is seeded with tasks that already exist; `create`
    /// goes through it too.
    pub fn insert(&mut self, todo: Todo) -> (outcome: Result<(), StoreError>)
        ensures
            outcome is Ok <==> !old(self)@.contains_key(todo.id),
            outcome is Ok ==> final(self)@ == old(self)@.insert(todo.id, todo@),
            outcome is Err ==> final(self)@ == old(self)@,
            outcome matches Err(e) ==> e == StoreError::IdentifierInUse,
    {
        if self.records.contains_key(&todo.id) {
            return Err(StoreError::IdentifierInUse);
        }
        let ghost id = todo.id;
        let ghost filed = todo@;
        let record = Record { user: todo.user, text: todo.text, completed: todo.completed };
        self.records.insert(todo.id, record);
        proof {
            assert(self@ =~= old(self)@.insert(id, filed));
        }
        Ok(())
    }

    /// Creates the task of `input` under the identifier `id`, files it and
    /// hands out a copy. The task starts out not completed. Where `id`
    /// already names a task the store stays as it is.
    pub fn create_with_id(&mut self, id: u128, input: CreateTodo) -> (outcome: Result<
        Todo,
        StoreError,
    >)
        ensures
            outcome is Ok <==> !old(self)@.contains_key(id),
            outcome matches Ok(todo) ==> todo@ == Todo::created(id, input@) && final(self)@ == old(
                self,
            )@.insert(id, todo@),
            outcome is Err ==> final(self)@ == old(self)@,
            outcome matches Err(e) ==> e == StoreError::IdentifierInUse,
    {
        let todo = Todo::from_request(id, input);
        let copy = todo.clone();
        match self.insert(todo) {
            Ok(()) => Ok(copy),
            Err(e) => Err(e),
        }
    }

    /// Creates a task from `input` under a freshly drawn random identifier.
    /// On success the new task is not completed, carries the text and owner of
    /// `input`, and its identifier named no task before. Should the draw
    /// return an identifier that is in use, the store stays as it is and the
    /// error says so. That can only happen where the store holds a task under
    /// a random identifier; on any other store creation succeeds.
    pub fn create(&mut self, input: CreateTodo) -> (outcome: Result<Todo, StoreError>)
        ensures
            !holds_random_identifier(old(self)@.dom()) ==> outcome is Ok,
            match outcome {
                Ok(todo) => {
                    &&& is_random_identifier(todo.id)
                    &&& !old(self)@.contains_key(todo.id)
                    &&& todo@ == Todo::created(todo.id, input@)
                    &&& final(self)@ == old(self)@.insert(todo.id, todo@)
                },
                Err(e) => e == StoreError::IdentifierInUse && final(self)@ == old(self)@,
            },
    {
        let id = fresh_identifier();
        self.create_with_id(id, input)
    }

    /// A snapshot of all tasks: independent copies, in no particular order.
    pub fn list(&self) -> (snapshot: Vec<Todo>)
        ensures
            lists(views(snapshot@), self@),
    {
        let mut snapshot: Vec<Todo> = Vec::new();
        proof {
            assert(self@.dom() =~= self.records@.dom());
        }
        for entry in it: self.records.iter()
            invariant
                self@.dom() == self.records@.dom(),
                it.seq() == self.records.iter().remaining(),
                it.seq().no_duplicates(),
                snapshot@.len() == it.index(),
                forall|i: int|
                    0 <= i < snapshot@.len() ==> (#[trigger] snapshot@[i])@ == it.seq()[i].1.todo(
                        *it.seq()[i].0,
                    ),
        {
            snapshot.push(entry.1.to_todo(*entry.0));
        }
        proof {
            let pairs = self.records.iter().remaining();
            let entries = views(snapshot@);
            assert(entries.len() == self@.len());
            assert forall|i: int| 0 <= i < entries.len() implies self@.contains_key(
                #[trigger] entries[i].id,
            ) && self@[entries[i].id] == entries[i] by {
                assert(self.records@.contains_key(*pairs[i].0));
            }
            assert forall|i: int, j: int| 0 <= i < j < entries.len() implies (
            #[trigger] entries[i]).id != (#[trigger] entries[j]).id by {
                assert(self.records@.contains_key(*pairs[i].0));
                assert(self.records@.contains_key(*pairs[j].0));
                if entries[i].id == entries[j].id {
                    assert(pairs[i] == pairs[j]);
                }
            }
        }
        snapshot
    }

    /// The number of tasks in the store.
    pub fn len(&self) -> (n: usize)
        ensures
            n == self@.len(),
    {
        proof {
            assert(self@.dom() =~= self.records@.dom());
        }
        self.records.len()
    }
}

/// The contents of a store after the tasks of `created` have been filed into
/// `start` one after another.
pub open spec fn after_creating(start: Map<u128, TodoView>, created: Seq<TodoView>) -> Map<
    u128,
    TodoView,
>
    decreases created.len(),
{
    if created.len() == 0 {
        start
    } else {
        after_creating(start, created.drop_last()).insert(created.last().id, created.last())
    }
}

/// Whether each task of `created` was filed under an identifier that named no
/// task at that moment, as every successful `create` guarantees.
pub open spec fn each_was_fresh(start: Map<u128, TodoView>, created: Seq<TodoView>) -> bool
    decreases created.len(),
{
    created.len() == 0 || (each_was_fresh(start, created.drop_last()) && !after_creating(
        start,
        created.drop_last(),
    ).contains_key(created.last().id))
}

/// One more successful creation extends a run: after a run that left the
/// store as `after_creating(start, created)`, a task filed under an identifier
/// that names nothing there, which is what `create` promises of the task it
/// returns, makes the run `created.push(todo)`.
pub proof fn lemma_creation_extends_run(
    start: Map<u128, TodoView>,
    created: Seq<TodoView>,
    todo: TodoView,
)
    ensures
        after_creating(start, created.push(todo)) == after_creating(start, created).insert(
            todo.id,
            todo,
        ),
        each_was_fresh(start, created.push(todo)) <==> each_was_fresh(start, created)
            && !after_creating(start, created).contains_key(todo.id),
{
    assert(created.push(todo).drop_last() =~= created);
}

/// What a run of successful creations leaves behind. The created tasks have
/// pairwise distinct identifiers, none of which was in use before; the store
/// then holds exactly the tasks it held before, unchanged, and the created
/// ones, each under its identifier; and it has grown by their number.
pub proof fn lemma_creations_accumulate(start: Map<u128, TodoView>, created: Seq<TodoView>)
    requires
        start.dom().finite(),
        each_was_fresh(start, created),
    ensures
        forall|i: int, j: int|
            0 <= i < j < created.len() ==> (#[trigger] created[i]).id != (#[trigger] created[j]).id,
        forall|i: int| 0 <= i < created.len() ==> !start.contains_key((#[trigger] created[i]).id),
        forall|id: u128| #[trigger]
            after_creating(start, created).contains_key(id) <==> start.contains_key(id) || exists|
                i: int,
            |
                0 <= i < created.len() && (#[trigger] created[i]).id == id,
        forall|i: int|
            0 <= i < created.len() ==> after_creating(start, created)[(#[trigger] created[i]).id]
                == created[i],
        forall|id: u128| #[trigger]
            start.contains_key(id) ==> after_creating(start, created)[id] == start[id],
        after_creating(start, created).dom().finite(),
        after_creating(start, created).len() == start.len() + created.len(),
    decreases created.len(),
{
    if created.len() > 0 {
        let earlier = created.drop_last();
        let newest = created.last();
        let before = after_creating(start, earlier);
        lemma_creations_accumulate(start, earlier);
        assert forall|i: int| 0 <= i < earlier.len() implies (#[trigger] earlier[i]).id
            != newest.id by {
            assert(before.contains_key(earlier[i].id));
        }
        assert forall|i: int, j: int| 0 <= i < j < created.len() implies (#[trigger] created[i]).id
            != (#[trigger] created[j]).id by {
            assert(created[i] == earlier[i]);
            if j < earlier.len() {
                assert(created[j] == earlier[j]);
            }
        }
        assert forall|i: int| 0 <= i < created.len() implies !start.contains_key(
            (#[trigger] created[i]).id,
        ) by {
            if i < earlier.len() {
                assert(created[i] == earlier[i]);
            }
        }
        assert forall|id: u128| #[trigger]
            after_creating(start, created).contains_key(id) <==> start.contains_key(id) || exists|
                i: int,
            |
                0 <= i < created.len() && (#[trigger] created[i]).id == id by {
            if id == newest.id {
                assert(created[created.len() - 1].id == id);
            } else if before.contains_key(id) && !start.contains_key(id) {
                let i = choose|i: int| 0 <= i < earlier.len() && (#[trigger] earlier[i]).id == id;
                assert(created[i] == earlier[i]);
            }
            if !before.contains_key(id) && id != newest.id {
                assert forall|i: int| 0 <= i < created.len() implies (#[trigger] created[i]).id
                    != id by {
                    if i < earlier.len() {
                        assert(created[i] == earlier[i]);
                    }
                }
            }
        }
        assert forall|i: int| 0 <= i < created.len() implies after_creating(start, created)[(
        #[trigger] created[i]).id] == created[i] by {
            if i < earlier.len() {
                assert(created[i] == earlier[i]);
            }
        }
    }
}

/// After a run of successful creations on an empty store, a listing of the
/// store holds exactly the created tasks: as many entries as there were
/// creations, every created task among them, and nothing else. The order of
/// the listing is left open.
pub proof fn lemma_listing_holds_the_created(created: Seq<TodoView>, listing: Seq<TodoView>)
    requires
        each_was_fresh(Map::<u128, TodoView>::empty(), created),
        lists(listing, after_creating(Map::<u128, TodoView>::empty(), created)),
    ensures
        listing.len() == created.len(),
        forall|i: int| 0 <= i < created.len() ==> listing.contains(#[trigger] created[i]),
        forall|j: int| 0 <= j < listing.len() ==> created.contains(#[trigger] listing[j]),
{
    let start = Map::<u128, TodoView>::empty();
    let contents = after_creating(start, created);
    lemma_creations_accumulate(start, created);
    assert forall|j: int| 0 <= j < listing.len() implies created.contains(
        #[trigger] listing[j],
    ) by {
        assert(contents.contains_key(listing[j].id));
        let i = choose|i: int| 0 <= i < created.len() && (#[trigger] created[i]).id == listing[j].id;
        assert(created[i] == listing[j]);
    }
    assert forall|i: int| 0 <= i < created.len() implies listing.contains(
        #[trigger] created[i],
    ) by {
        lemma_listing_is_complete(listing, contents, created[i].id);
    }
}

/// A listing leaves no task out: whatever the store holds under `id` occurs
/// in every listing of it.
pub proof fn lemma_listing_is_complete(
    listing: Seq<TodoView>,
    contents: Map<u128, TodoView>,
    id: u128,
)
    requires
        contents.dom().finite(),
        lists(listing, contents),
        contents.contains_key(id),
    ensures
        listing.contains(contents[id]),
{
    let ids = listing.map_values(|entry: TodoView| entry.id);
    assert(ids.no_duplicates());
    ids.unique_seq_to_set();
    assert(ids.to_set().len() == contents.dom().len());
    assert(ids.to_set().subset_of(contents.dom())) by {
        assert forall|k: u128| ids.to_set().contains(k) implies contents.dom().contains(k) by {
            let i = choose|i: int| 0 <= i < ids.len() && ids[i] == k;
            assert(contents.contains_key(listing[i].id));
        }
    }
    vstd::set_lib::lemma_subset_equality(ids.to_set(), contents.dom());
    assert(ids.to_set().contains(id));
    let i = choose|i: int| 0 <= i < ids.len() && ids[i] == id;
    assert(listing[i] == contents[id]);
}

/// An identifier that no creation has produced names no task: on a store
/// that started out empty, `get` answers `None` for it.
pub proof fn lemma_unknown_identifier_is_absent(created: Seq<TodoView>, id: u128)
    requires
        each_was_fresh(Map::<u128, TodoView>::empty(), created),
        forall|i: int| 0 <= i < created.len() ==> (#[trigger] created[i]).id != id,
    ensures
        !after_creating(Map::<u128, TodoView>::empty(), created).contains_key(id),
{
    lemma_creations_accumulate(Map::<u128, TodoView>::empty(), created);
}

} // verus!
