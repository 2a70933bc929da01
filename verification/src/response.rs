//! Responses: a status code and an HTML body. Each function here takes what
//! a store found or did and gives the response for it, so that it serves
//! whatever store holds the items.

use vstd::prelude::*;
use vstd::string::StringExecFns;
use crate::templates::{
    edit_todo_markup, error_modal_markup, success_modal_markup, todo_item_markup,
    validate_todo_markup, EditTodoItem, ErrorModal, SuccessModal, TodoItem,
};
use crate::todo::{views, Todo, TodoError, TodoView};

verus! {


/// Status of a response that carries a fragment to show.
pub const STATUS_OK: u16 = 200;

/// Status of a response to a request for an item that does not exist.
pub const STATUS_NOT_FOUND: u16 = 404;

/// Status of a response when the store failed.
pub const STATUS_SERVER_ERROR: u16 = 500;

/// What the service sends back.
pub struct Response {
    pub status: u16,
    pub body: String,
}

/// What a response is, mathematically.
pub struct ResponseView {
    pub status: u16,
    pub body: Seq<char>,
}

impl View for Response {
    type V = ResponseView;

    open spec fn view(&self) -> ResponseView {
        ResponseView { status: self.status, body: self.body@ }
    }
}

/// The form that adds an item, and that asks whether a title would do.
pub struct AddTodoData {
    pub todo: String,
}

/// The form that changes an item's title. It carries the completion flag
/// that the page showed; the flag of the stored item is what counts.
pub struct UpdateTodoData {
    pub title: String,
    pub id: u128,
    pub done: bool,
}

/// The message shown for an error.
pub open spec fn error_message(error: TodoError) -> Seq<char> {
    match error {
        TodoError::EmptyTitle => "Todo cannot be empty"@,
        TodoError::NotFound => "Todo not found"@,
        TodoError::DuplicateId => "Todo could not be saved"@,
        TodoError::Unavailable => "Todo list is unavailable"@,
    }
}

/// The status sent with an error. An empty title is answered with a notice
/// in an ordinary response, so that the page shows it.
pub open spec fn error_status(error: TodoError) -> u16 {
    match error {
        TodoError::EmptyTitle => STATUS_OK,
        TodoError::NotFound => STATUS_NOT_FOUND,
        TodoError::DuplicateId => STATUS_SERVER_ERROR,
        TodoError::Unavailable => STATUS_SERVER_ERROR,
    }
}

/// The response to a request that was turned down or failed.
pub open spec fn error_reply(error: TodoError) -> ResponseView {
    ResponseView { status: error_status(error), body: error_modal_markup(error_message(error)) }
}

/// Markup of one stored item.
pub open spec fn item_markup(item: TodoView) -> Seq<char> {
    todo_item_markup(item.title, item.id, item.done)
}

/// The response that shows an item.
pub open spec fn item_reply(item: TodoView) -> ResponseView {
    ResponseView { status: STATUS_OK, body: item_markup(item) }
}

/// The response that shows an item as a form.
pub open spec fn edit_reply(item: TodoView) -> ResponseView {
    ResponseView { status: STATUS_OK, body: edit_todo_markup(item.title, item.id, item.done) }
}

/// The response to a request for an item that a store looked up.
pub open spec fn found_reply(found: Option<TodoView>) -> ResponseView {
    match found {
        Some(item) => item_reply(item),
        None => error_reply(TodoError::NotFound),
    }
}

/// The response to a request for an item's form.
pub open spec fn found_edit_reply(found: Option<TodoView>) -> ResponseView {
    match found {
        Some(item) => edit_reply(item),
        None => error_reply(TodoError::NotFound),
    }
}

/// Markup of a whole list: the items' fragments in order, one per line.
pub open spec fn list_markup(items: Seq<TodoView>) -> Seq<char>
    decreases items.len(),
{
    if items.len() == 0 {
        Seq::empty()
    } else if items.len() == 1 {
        item_markup(items[0])
    } else {
        list_markup(items.drop_last()) + "\n"@ + item_markup(items.last())
    }
}

/// The response that shows the whole list.
pub open spec fn list_reply(items: Seq<TodoView>) -> ResponseView {
    ResponseView { status: STATUS_OK, body: list_markup(items) }
}

/// The response after an item was added: the item, and a notice for the
/// page's notice area.
pub open spec fn added_reply(item: TodoView) -> ResponseView {
    ResponseView {
        status: STATUS_OK,
        body: item_markup(item) + success_modal_markup("Todo added"@),
    }
}

/// The response after an item was deleted: nothing to show.
pub open spec fn deleted_reply() -> ResponseView {
    ResponseView { status: STATUS_OK, body: Seq::empty() }
}

/// The response to a title as it is typed: the field with the title in it,
/// or, for an empty title, the empty field with a message.
pub open spec fn validation_reply(title: Seq<char>) -> ResponseView {
    ResponseView {
        status: STATUS_OK,
        body: if title.len() == 0 {
            validate_todo_markup("Todo cannot be empty"@, Seq::empty())
        } else {
            validate_todo_markup(Seq::empty(), title)
        },
    }
}

/// The message for an error, as a string.
pub fn message_of(error: TodoError) -> (message: &'static str)
    ensures
        message@ == error_message(error),
{
    match error {
        TodoError::EmptyTitle => "Todo cannot be empty",
        TodoError::NotFound => "Todo not found",
        TodoError::DuplicateId => "Todo could not be saved",
        TodoError::Unavailable => "Todo list is unavailable",
    }
}

/// The status for an error.
pub fn status_of(error: TodoError) -> (status: u16)
    ensures
        status == error_status(error),
{
    match error {
        TodoError::EmptyTitle => STATUS_OK,
        TodoError::NotFound => STATUS_NOT_FOUND,
        TodoError::DuplicateId => STATUS_SERVER_ERROR,
        TodoError::Unavailable => STATUS_SERVER_ERROR,
    }
}

/// The response to a request that was turned down or failed.
pub fn error_response(error: TodoError) -> (r: Response)
    ensures
        r@ == error_reply(error),
{
    let modal = ErrorModal { error_message: message_of(error) };
    Response { status: status_of(error), body: modal.render() }
}

/// The response that shows an item, or says that there is none.
pub fn todo_response(found: Option<&Todo>) -> (r: Response)
    ensures
        r@ == found_reply(
            match found {
                Some(item) => Some(item@),
                None => None,
            },
        ),
{
    match found {
        Some(item) => {
            let fragment = TodoItem { title: item.title.as_str(), id: item.id, done: item.done };
            Response { status: STATUS_OK, body: fragment.render() }
        },
        None => error_response(TodoError::NotFound),
    }
}

/// The response that shows an item as a form, or says that there is none.
pub fn edit_response(found: Option<&Todo>) -> (r: Response)
    ensures
        r@ == found_edit_reply(
            match found {
                Some(item) => Some(item@),
                None => None,
            },
        ),
{
    match found {
        Some(item) => {
            let fragment = EditTodoItem {
                title: item.title.as_str(),
                id: item.id,
                done: item.done,
            };
            Response { status: STATUS_OK, body: fragment.render() }
        },
        None => error_response(TodoError::NotFound),
    }
}

/// The response that shows a list of items in the order given.
pub fn todos_response(items: &Vec<Todo>) -> (r: Response)
    ensures
        r@ == list_reply(views(items@)),
{
    let ghost shown = views(items@);
    let mut body = String::new();
    let mut i: usize = 0;
    while i < items.len()
        invariant
            i <= items.len(),
            shown == views(items@),
            body@ == list_markup(shown.take(i as int)),
        decreases items.len() - i,
    {
        let item = &items[i];
        let fragment = TodoItem { title: item.title.as_str(), id: item.id, done: item.done };
        let markup = fragment.render();
        if i > 0 {
            body.append("\n");
        }
        body.append(markup.as_str());
        proof {
            let next = shown.take(i + 1);
            assert(next.drop_last() =~= shown.take(i as int));
            assert(next.last() == item@);
            if i == 0 {
                assert(body@ =~= item_markup(item@));
            }
        }
        i += 1;
    }
    assert(shown.take(i as int) =~= shown);
    Response { status: STATUS_OK, body }
}

/// The response after `todo` was added to a store.
pub fn added_response(todo: &Todo) -> (r: Response)
    ensures
        r@ == added_reply(todo@),
{
    let fragment = TodoItem { title: todo.title.as_str(), id: todo.id, done: todo.done };
    let notice = SuccessModal { message: "Todo added" };
    let mut body = fragment.render();
    let tail = notice.render();
    body.append(tail.as_str());
    Response { status: STATUS_OK, body }
}

/// The response after an item was deleted from a store.
pub fn deleted_response() -> (r: Response)
    ensures
        r@ == deleted_reply(),
{
    Response { status: STATUS_OK, body: String::new() }
}

} // verus!
