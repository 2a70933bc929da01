//! The to-do item, the mathematical model of a list of items, and what each
//! operation on a list means in that model. What follows from these
//! definitions is proved in `laws`.

use vstd::prelude::*;
use crate::clock::now_millis;
use crate::ident::{fresh_id, is_random_id};

verus! {

/// One item of the list.
pub struct Todo {
    /// Assigned at creation and never changed.
    pub id: u128,
    /// Free text; a stored item never has an empty title.
    pub title: String,
    /// Completion flag, `false` at creation.
    pub done: bool,
    /// When the item was created, in milliseconds since the Unix epoch.
    pub created_at: i64,
    /// When the item was last marked done; `None` while it is not done.
    pub done_at: Option<i64>,
}

/// What an item is, mathematically.
pub struct TodoView {
    pub id: u128,
    pub title: Seq<char>,
    pub done: bool,
    pub created_at: i64,
    pub done_at: Option<i64>,
}

impl View for Todo {
    type V = TodoView;

    open spec fn view(&self) -> TodoView {
        TodoView {
            id: self.id,
            title: self.title@,
            done: self.done,
            created_at: self.created_at,
            done_at: self.done_at,
        }
    }
}

/// Why a request on the list was turned down.
#[derive(Clone, Copy, Debug, PartialEq, Eq, Structural)]
pub enum TodoError {
    /// The title was empty.
    EmptyTitle,
    /// No item has the identifier.
    NotFound,
    /// An item with the identifier is already stored.
    DuplicateId,
    /// The store behind the list could not carry out the request.
    Unavailable,
}

/// Checks a title as it arrives from a form: an empty one is turned down.
pub fn validate_title(title: &str) -> (res: Result<(), TodoError>)
    ensures
        title@.len() == 0 ==> res == Err::<(), TodoError>(TodoError::EmptyTitle),
        title@.len() > 0 ==> res == Ok::<(), TodoError>(()),
{
    if title.is_empty() {
        Err(TodoError::EmptyTitle)
    } else {
        Ok(())
    }
}

impl Todo {
    /// A new item under identifier `id`, created at `now` and not done. An
    /// empty title is turned down.
    pub fn new(id: u128, title: String, now: i64) -> (res: Result<Todo, TodoError>)
        ensures
            title@.len() == 0 ==> res == Err::<Todo, TodoError>(TodoError::EmptyTitle),
            title@.len() > 0 ==> res is Ok,
            res matches Ok(todo) ==> todo@ == new_item(id, title@, now),
    {
        if title.as_str().is_empty() {
            Err(TodoError::EmptyTitle)
        } else {
            Ok(Todo { id, title, done: false, created_at: now, done_at: None })
        }
    }

    /// A new item under a freshly drawn identifier, created now and not
    /// done. An empty title is turned down, and nothing is drawn for it.
    pub fn create(title: String) -> (res: Result<Todo, TodoError>)
        ensures
            title@.len() == 0 ==> res == Err::<Todo, TodoError>(TodoError::EmptyTitle),
            title@.len() > 0 ==> res is Ok,
            res matches Ok(todo) ==> todo@ == new_item(todo.id, title@, todo.created_at)
                && is_random_id(todo.id),
    {
        if title.as_str().is_empty() {
            Err(TodoError::EmptyTitle)
        } else {
            let id = fresh_id();
            let now = now_millis();
            Todo::new(id, title, now)
        }
    }
}

/// The items of a vector, each by its view, in order.
pub open spec fn views(items: Seq<Todo>) -> Seq<TodoView> {
    items.map_values(|t: Todo| t@)
}

/// Whether some item of `s` has identifier `id`.
pub open spec fn has_id(s: Seq<TodoView>, id: u128) -> bool {
    exists|i: int| 0 <= i < s.len() && (#[trigger] s[i]).id == id
}

/// A position at which `s` holds identifier `id`; in a well-formed list the
/// only one.
pub open spec fn position(s: Seq<TodoView>, id: u128) -> int {
    choose|i: int| 0 <= i < s.len() && (#[trigger] s[i]).id == id
}

/// The item with identifier `id`, if the list holds one.
pub open spec fn lookup(s: Seq<TodoView>, id: u128) -> Option<TodoView> {
    if has_id(s, id) {
        Some(s[position(s, id)])
    } else {
        None
    }
}

/// The invariant of one stored item: its title is not empty, and it has a
/// time of completion exactly while it is done.
pub open spec fn valid_item(item: TodoView) -> bool {
    &&& item.title.len() > 0
    &&& item.done == item.done_at is Some
}

/// The invariant of a stored list: no identifier occurs twice and every item
/// is valid.
pub open spec fn well_formed(s: Seq<TodoView>) -> bool {
    &&& forall|i: int, j: int|
        0 <= i < j < s.len() ==> (#[trigger] s[i]).id != (#[trigger] s[j]).id
    &&& forall|i: int| 0 <= i < s.len() ==> valid_item(#[trigger] s[i])
}

/// A new item as it is stored: created at `now`, not done.
pub open spec fn new_item(id: u128, title: Seq<char>, now: i64) -> TodoView {
    TodoView { id, title, done: false, created_at: now, done_at: None }
}

/// The list after an item was added at its end.
pub open spec fn appended(s: Seq<TodoView>, id: u128, title: Seq<char>, now: i64) -> Seq<
    TodoView,
> {
    s.push(new_item(id, title, now))
}

/// An item after its completion flag was flipped at `now`: marked done at
/// `now`, or open again with no time of completion.
pub open spec fn flipped(item: TodoView, now: i64) -> TodoView {
    TodoView {
        id: item.id,
        title: item.title,
        done: !item.done,
        created_at: item.created_at,
        done_at: if item.done {
            None
        } else {
            Some(now)
        },
    }
}

/// An item under a new title.
pub open spec fn renamed(item: TodoView, title: Seq<char>) -> TodoView {
    TodoView {
        id: item.id,
        title,
        done: item.done,
        created_at: item.created_at,
        done_at: item.done_at,
    }
}

/// The list after the completion flag of item `id` was flipped at `now`.
pub open spec fn toggled(s: Seq<TodoView>, id: u128, now: i64) -> Seq<TodoView> {
    Seq::new(
        s.len(),
        |i: int|
            if s[i].id == id {
                flipped(s[i], now)
            } else {
                s[i]
            },
    )
}

/// The list after item `id` was given a new title.
pub open spec fn retitled(s: Seq<TodoView>, id: u128, title: Seq<char>) -> Seq<TodoView> {
    Seq::new(
        s.len(),
        |i: int|
            if s[i].id == id {
                renamed(s[i], title)
            } else {
                s[i]
            },
    )
}

/// The list without the item whose identifier is `id`.
pub open spec fn without_id(s: Seq<TodoView>, id: u128) -> Seq<TodoView> {
    s.filter(|t: TodoView| t.id != id)
}

/// The list without the items whose title is `title`.
pub open spec fn without_title(s: Seq<TodoView>, title: Seq<char>) -> Seq<TodoView> {
    s.filter(|t: TodoView| t.title != title)
}

} // verus!
