//! The requests of the service on a list that it owns: what each one does
//! to the list and which response it gives.

use vstd::prelude::*;
use crate::clock::now_millis;
use crate::ident::{fresh_id, is_random_id};
use crate::laws::{lemma_retitle_changes_one, lemma_toggle_flips_one};
use crate::response::{
    added_reply, added_response, deleted_reply, deleted_response, edit_response, error_reply,
    error_response, found_edit_reply, found_reply, item_reply, list_reply, todo_response,
    todos_response, validation_reply, AddTodoData, Response, ResponseView, UpdateTodoData,
    STATUS_OK,
};
use crate::store::TodoList;
use crate::templates::ValidateTodoModal;
use crate::todo::{
    appended, flipped, has_id, lookup, new_item, position, renamed, retitled, toggled,
    well_formed, without_id, without_title, Todo, TodoError, TodoView,
};

verus! {

/// What to show for a title as it is typed: a message and an empty field
/// for an empty title, no message and the title itself for any other.
pub fn validation<'a>(title: &'a str) -> (modal: ValidateTodoModal<'a>)
    ensures
        title@.len() == 0 ==> modal.error_message@ == "Todo cannot be empty"@ && modal.value@
            == Seq::<char>::empty(),
        title@.len() > 0 ==> modal.error_message@ == Seq::<char>::empty() && modal.value@
            == title@,
        (modal.error_message@.len() > 0) == (title@.len() == 0),
{
    proof {
        reveal_strlit("Todo cannot be empty");
        reveal_strlit("");
    }
    if title.is_empty() {
        ValidateTodoModal { error_message: "Todo cannot be empty", value: "" }
    } else {
        ValidateTodoModal { error_message: "", value: title }
    }
}

/// Answers a title as it is typed. Nothing is stored.
pub fn validate_todo(form: &AddTodoData) -> (r: Response)
    ensures
        r@ == validation_reply(form.todo@),
{
    let modal = validation(form.todo.as_str());
    Response { status: STATUS_OK, body: modal.render() }
}

/// What adding a title under identifier `id` at time `now` does to a list,
/// and the response: an empty title and an identifier in use leave the list
/// alone.
pub open spec fn add_outcome(s: Seq<TodoView>, id: u128, title: Seq<char>, now: i64) -> (
    Seq<TodoView>,
    ResponseView,
) {
    if title.len() == 0 {
        (s, error_reply(TodoError::EmptyTitle))
    } else if has_id(s, id) {
        (s, error_reply(TodoError::DuplicateId))
    } else {
        (appended(s, id, title, now), added_reply(new_item(id, title, now)))
    }
}

/// What toggling item `id` at time `now` does to a list, and the response:
/// the item as it is afterwards, or the report that there is none.
pub open spec fn toggle_outcome(s: Seq<TodoView>, id: u128, now: i64) -> (
    Seq<TodoView>,
    ResponseView,
) {
    if has_id(s, id) {
        (toggled(s, id, now), item_reply(flipped(s[position(s, id)], now)))
    } else {
        (s, error_reply(TodoError::NotFound))
    }
}

/// What giving item `id` the title `title` does to a list, and the
/// response: the item as it is stored afterwards, under its new title and
/// with its own completion flag. An empty title and an identifier that no
/// item has leave the list alone.
pub open spec fn update_outcome(s: Seq<TodoView>, id: u128, title: Seq<char>) -> (
    Seq<TodoView>,
    ResponseView,
) {
    if title.len() == 0 {
        (s, error_reply(TodoError::EmptyTitle))
    } else if has_id(s, id) {
        (retitled(s, id, title), item_reply(renamed(s[position(s, id)], title)))
    } else {
        (s, error_reply(TodoError::NotFound))
    }
}

/// Shows the whole list, oldest item first.
pub fn get_todos(list: &TodoList) -> (r: Response)
    ensures
        r@ == list_reply(list@),
{
    todos_response(list.items())
}

/// Shows item `id`.
pub fn get_todo(list: &TodoList, id: u128) -> (r: Response)
    ensures
        r@ == found_reply(lookup(list@, id)),
{
    todo_response(list.get(id))
}

/// Shows item `id` as a form.
pub fn get_edit_todo(list: &TodoList, id: u128) -> (r: Response)
    ensures
        r@ == found_edit_reply(lookup(list@, id)),
{
    edit_response(list.get(id))
}

/// Adds an item under the identifier `id`, created at `now`, and shows it
/// with a notice.
pub fn add_todo_with(list: &mut TodoList, form: AddTodoData, id: u128, now: i64) -> (r: Response)
    ensures
        well_formed(final(list)@),
        final(list)@ == add_outcome(old(list)@, id, form.todo@, now).0,
        r@ == add_outcome(old(list)@, id, form.todo@, now).1,
{
    let shown = form.todo.clone();
    match list.insert(id, form.todo, now) {
        Ok(()) => added_response(
            &Todo { id, title: shown, done: false, created_at: now, done_at: None },
        ),
        Err(error) => error_response(error),
    }
}

/// Adds an item under a freshly drawn identifier, created now, and shows it
/// with a notice. An empty title changes nothing and is answered with an
/// error notice.
pub fn add_todo(list: &mut TodoList, form: AddTodoData) -> (r: Response)
    ensures
        well_formed(final(list)@),
        form.todo@.len() == 0 ==> final(list)@ == old(list)@ && r@ == error_reply(
            TodoError::EmptyTitle,
        ),
        exists|id: u128, now: i64|
            is_random_id(id) && final(list)@ == (#[trigger] add_outcome(
                old(list)@,
                id,
                form.todo@,
                now,
            )).0 && r@ == add_outcome(old(list)@, id, form.todo@, now).1,
{
    let id = fresh_id();
    let now = now_millis();
    add_todo_with(list, form, id, now)
}

/// Deletes item `id`. The response is empty whether or not there was one.
pub fn delete_todo(list: &mut TodoList, id: u128) -> (r: Response)
    ensures
        well_formed(final(list)@),
        final(list)@ == without_id(old(list)@, id),
        r@ == deleted_reply(),
{
    let _ = list.delete(id);
    deleted_response()
}

/// Deletes every item whose title is `title`, for a page that knows its
/// items by their titles only. The response is empty however many there
/// were.
pub fn delete_todo_by_title(list: &mut TodoList, title: &str) -> (r: Response)
    ensures
        well_formed(final(list)@),
        final(list)@ == without_title(old(list)@, title@),
        r@ == deleted_reply(),
{
    let _ = list.delete_by_title(title);
    deleted_response()
}

/// Changes the title of the item that the form names and shows the item as
/// it is stored then. The completion flag that the form carries changes
/// nothing and is not shown.
pub fn update_todo(list: &mut TodoList, form: UpdateTodoData) -> (r: Response)
    ensures
        well_formed(final(list)@),
        final(list)@ == update_outcome(old(list)@, form.id, form.title@).0,
        r@ == update_outcome(old(list)@, form.id, form.title@).1,
        form.title@.len() > 0 ==> r@ == found_reply(lookup(final(list)@, form.id)),
{
    let ghost before = list@;
    match list.update_title(form.id, form.title) {
        Err(TodoError::EmptyTitle) => error_response(TodoError::EmptyTitle),
        _ => {
            proof {
                if has_id(before, form.id) {
                    lemma_retitle_changes_one(before, form.id, form.title@);
                }
            }
            todo_response(list.get(form.id))
        },
    }
}

/// Flips the completion flag of item `id` at time `now` and shows the item
/// as it is then.
pub fn done_todo_at(list: &mut TodoList, id: u128, now: i64) -> (r: Response)
    ensures
        well_formed(final(list)@),
        final(list)@ == toggle_outcome(old(list)@, id, now).0,
        r@ == toggle_outcome(old(list)@, id, now).1,
        r@ == found_reply(lookup(final(list)@, id)),
{
    let ghost before = list@;
    let _ = list.toggle_done(id, now);
    proof {
        if has_id(before, id) {
            lemma_toggle_flips_one(before, id, now);
        }
    }
    todo_response(list.get(id))
}

/// Flips the completion flag of item `id` now and shows the item as it is
/// then. Without such an item nothing changes, and that is reported.
pub fn done_todo(list: &mut TodoList, id: u128) -> (r: Response)
    ensures
        well_formed(final(list)@),
        !has_id(old(list)@, id) ==> final(list)@ == old(list)@ && r@ == error_reply(
            TodoError::NotFound,
        ),
        exists|now: i64|
            final(list)@ == (#[trigger] toggle_outcome(old(list)@, id, now)).0 && r@
                == toggle_outcome(old(list)@, id, now).1,
{
    let now = now_millis();
    done_todo_at(list, id, now)
}

} // verus!
