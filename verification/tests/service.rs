use todo_service::response::{
    added_response, deleted_response, edit_response, error_response, message_of, status_of,
    todo_response, todos_response, AddTodoData, Response, UpdateTodoData,
    STATUS_NOT_FOUND, STATUS_OK, STATUS_SERVER_ERROR,
};
use todo_service::service::{
    add_todo, add_todo_with, delete_todo, delete_todo_by_title, done_todo, done_todo_at,
    get_edit_todo, get_todo, get_todos, update_todo, validate_todo, validation,
};
use todo_service::store::TodoList;
use todo_service::templates::{EditTodoItem, ErrorModal, SuccessModal, TodoItem, ValidateTodoModal};
use todo_service::todo::{Todo, TodoError};

fn item(title: &str, id: u128, done: bool) -> String {
    TodoItem { title, id, done }.render()
}

fn error(message: &str) -> String {
    ErrorModal { error_message: message }.render()
}

fn add(list: &mut TodoList, title: &str) -> Response {
    add_todo(list, AddTodoData { todo: title.to_string() })
}

fn sample() -> TodoList {
    let mut list = TodoList::new();
    for (id, title) in [(1u128, "one"), (2, "two"), (3, "three")] {
        let r = add_todo_with(&mut list, AddTodoData { todo: title.to_string() }, id, 1000);
        assert_eq!(r.status, 200);
    }
    list
}

#[test]
fn status_codes() {
    assert_eq!(STATUS_OK, 200);
    assert_eq!(STATUS_NOT_FOUND, 404);
    assert_eq!(STATUS_SERVER_ERROR, 500);
}

#[test]
fn each_error_has_its_status_and_message() {
    assert_eq!(status_of(TodoError::EmptyTitle), 200);
    assert_eq!(status_of(TodoError::NotFound), 404);
    assert_eq!(status_of(TodoError::DuplicateId), 500);
    assert_eq!(status_of(TodoError::Unavailable), 500);
    assert_eq!(message_of(TodoError::EmptyTitle), "Todo cannot be empty");
    assert_eq!(message_of(TodoError::NotFound), "Todo not found");
    assert_eq!(message_of(TodoError::DuplicateId), "Todo could not be saved");
    assert_eq!(message_of(TodoError::Unavailable), "Todo list is unavailable");
}

#[test]
fn error_response_is_the_error_notice() {
    for e in [TodoError::EmptyTitle, TodoError::NotFound, TodoError::DuplicateId, TodoError::Unavailable] {
        let r = error_response(e);
        assert_eq!(r.status, status_of(e));
        assert_eq!(r.body, error(message_of(e)));
    }
}

#[test]
fn adding_grows_the_list_by_one_open_item() {
    let mut list = sample();
    let r = add(&mut list, "Buy milk");
    assert_eq!(r.status, 200);
    assert_eq!(list.len(), 4);
    let new = &list.items()[3];
    assert_eq!(new.title, "Buy milk");
    assert!(!new.done);
    assert_eq!(new.done_at, None);
    assert!(new.created_at > 1_600_000_000_000);
    assert_eq!(
        r.body,
        format!("{}{}", item("Buy milk", new.id, false), SuccessModal { message: "Todo added" }.render())
    );
    let before: Vec<u128> = list.items()[..3].iter().map(|t| t.id).collect();
    assert_eq!(before, vec![1, 2, 3]);
}

#[test]
fn adding_an_empty_title_changes_nothing() {
    let mut list = sample();
    let r = add(&mut list, "");
    assert_eq!(r.status, 200);
    assert_eq!(r.body, error("Todo cannot be empty"));
    assert_eq!(list.len(), 3);
    let r = add_todo_with(&mut list, AddTodoData { todo: String::new() }, 2, 1000);
    assert_eq!(r.body, error("Todo cannot be empty"));
    assert_eq!(list.len(), 3);
}

#[test]
fn adding_under_an_identifier_in_use_fails() {
    let mut list = sample();
    let r = add_todo_with(&mut list, AddTodoData { todo: "again".to_string() }, 2, 1000);
    assert_eq!(r.status, 500);
    assert_eq!(r.body, error("Todo could not be saved"));
    assert_eq!(list.len(), 3);
    assert_eq!(list.get(2).map(|t| t.title.as_str()), Some("two"));
}

#[test]
fn the_list_is_shown_one_item_per_line() {
    let mut list = TodoList::new();
    assert_eq!(get_todos(&list).body, "");
    assert_eq!(get_todos(&list).status, 200);
    add_todo_with(&mut list, AddTodoData { todo: "one".to_string() }, 1, 1000);
    assert_eq!(get_todos(&list).body, item("one", 1, false));
    add_todo_with(&mut list, AddTodoData { todo: "t<w>o".to_string() }, 2, 1000);
    add_todo_with(&mut list, AddTodoData { todo: "three".to_string() }, 3, 1000);
    done_todo(&mut list, 2);
    assert_eq!(
        get_todos(&list).body,
        format!("{}\n{}\n{}", item("one", 1, false), item("t<w>o", 2, true), item("three", 3, false))
    );
}

#[test]
fn todos_response_follows_the_order_given() {
    let items = vec![
        Todo { id: 5, title: "five".to_string(), done: true, created_at: 2, done_at: Some(3) },
        Todo { id: 4, title: "four".to_string(), done: false, created_at: 1, done_at: None },
    ];
    let r = todos_response(&items);
    assert_eq!(r.status, 200);
    assert_eq!(r.body, format!("{}\n{}", item("five", 5, true), item("four", 4, false)));
    assert_eq!(todos_response(&Vec::new()).body, "");
}

#[test]
fn an_item_is_shown_or_reported_missing() {
    let list = sample();
    let r = get_todo(&list, 2);
    assert_eq!((r.status, r.body), (200, item("two", 2, false)));
    let r = get_todo(&list, 9);
    assert_eq!((r.status, r.body), (404, error("Todo not found")));
    let r = todo_response(None);
    assert_eq!((r.status, r.body), (404, error("Todo not found")));
    let todo = Todo { id: 7, title: "seven".to_string(), done: true, created_at: 2, done_at: Some(3) };
    let r = todo_response(Some(&todo));
    assert_eq!((r.status, r.body), (200, item("seven", 7, true)));
}

#[test]
fn an_item_is_shown_as_a_form_or_reported_missing() {
    let list = sample();
    let r = get_edit_todo(&list, 3);
    assert_eq!((r.status, r.body), (200, EditTodoItem { title: "three", id: 3, done: false }.render()));
    let r = get_edit_todo(&list, 9);
    assert_eq!((r.status, r.body), (404, error("Todo not found")));
    let r = edit_response(None);
    assert_eq!((r.status, r.body), (404, error("Todo not found")));
    let todo = Todo { id: 7, title: "seven".to_string(), done: true, created_at: 2, done_at: Some(3) };
    assert_eq!(edit_response(Some(&todo)).body, EditTodoItem { title: "seven", id: 7, done: true }.render());
}

#[test]
fn added_response_shows_the_item_and_a_notice() {
    let todo = Todo { id: 7, title: "seven".to_string(), done: false, created_at: 1, done_at: None };
    let r = added_response(&todo);
    assert_eq!(r.status, 200);
    assert_eq!(
        r.body,
        format!("{}{}", item("seven", 7, false), SuccessModal { message: "Todo added" }.render())
    );
}

#[test]
fn toggling_flips_that_item_and_shows_it() {
    let mut list = sample();
    let r = done_todo(&mut list, 2);
    assert_eq!((r.status, r.body), (200, item("two", 2, true)));
    let flags: Vec<bool> = list.items().iter().map(|t| t.done).collect();
    assert_eq!(flags, vec![false, true, false]);
    let r = done_todo(&mut list, 2);
    assert_eq!((r.status, r.body), (200, item("two", 2, false)));
    let flags: Vec<bool> = list.items().iter().map(|t| t.done).collect();
    assert_eq!(flags, vec![false, false, false]);
}

#[test]
fn toggling_at_a_given_time_dates_the_completion() {
    let mut list = sample();
    let r = done_todo_at(&mut list, 3, 4242);
    assert_eq!((r.status, r.body), (200, item("three", 3, true)));
    assert_eq!(list.get(3).map(|t| (t.done, t.done_at)), Some((true, Some(4242))));
    let r = done_todo_at(&mut list, 3, 5000);
    assert_eq!((r.status, r.body), (200, item("three", 3, false)));
    assert_eq!(list.get(3).map(|t| (t.done, t.done_at)), Some((false, None)));
    let r = done_todo_at(&mut list, 9, 5000);
    assert_eq!((r.status, r.body), (404, error("Todo not found")));
}

#[test]
fn toggling_now_dates_the_completion_by_the_clock() {
    let mut list = sample();
    done_todo(&mut list, 1);
    let stamp = list.get(1).and_then(|t| t.done_at);
    assert!(matches!(stamp, Some(t) if t > 1_600_000_000_000));
    assert_eq!(list.get(2).and_then(|t| t.done_at), None);
}

#[test]
fn deleting_by_title_removes_every_match() {
    let mut list = sample();
    add_todo_with(&mut list, AddTodoData { todo: "two".to_string() }, 4, 1000);
    let r = delete_todo_by_title(&mut list, "two");
    assert_eq!((r.status, r.body.as_str()), (200, ""));
    let ids: Vec<u128> = list.items().iter().map(|t| t.id).collect();
    assert_eq!(ids, vec![1, 3]);
    let r = delete_todo_by_title(&mut list, "two");
    assert_eq!((r.status, r.body.as_str()), (200, ""));
    assert_eq!(list.len(), 2);
}

#[test]
fn toggling_a_missing_item_is_reported() {
    let mut list = sample();
    let r = done_todo(&mut list, 9);
    assert_eq!((r.status, r.body), (404, error("Todo not found")));
    assert_eq!(list.len(), 3);
    assert!(list.items().iter().all(|t| !t.done));
}

#[test]
fn deleting_removes_that_item_and_answers_with_nothing() {
    let mut list = sample();
    let r = delete_todo(&mut list, 2);
    assert_eq!((r.status, r.body.as_str()), (200, ""));
    let ids: Vec<u128> = list.items().iter().map(|t| t.id).collect();
    assert_eq!(ids, vec![1, 3]);
    let r = delete_todo(&mut list, 2);
    assert_eq!((r.status, r.body.as_str()), (200, ""));
    let ids: Vec<u128> = list.items().iter().map(|t| t.id).collect();
    assert_eq!(ids, vec![1, 3]);
    let r = deleted_response();
    assert_eq!((r.status, r.body.as_str()), (200, ""));
}

#[test]
fn updating_stores_the_new_title() {
    let mut list = sample();
    let r = update_todo(&mut list, UpdateTodoData { title: "zwei".to_string(), id: 2, done: false });
    assert_eq!((r.status, r.body), (200, item("zwei", 2, false)));
    assert_eq!(list.get(2).map(|t| t.title.as_str()), Some("zwei"));
    let titles: Vec<&str> = list.items().iter().map(|t| t.title.as_str()).collect();
    assert_eq!(titles, vec!["one", "zwei", "three"]);
}

#[test]
fn updating_shows_the_stored_flag_whatever_the_form_says() {
    let mut list = sample();
    let r = update_todo(&mut list, UpdateTodoData { title: "zwei".to_string(), id: 2, done: true });
    assert_eq!((r.status, r.body), (200, item("zwei", 2, false)));
    assert_eq!(list.get(2).map(|t| (t.done, t.done_at)), Some((false, None)));
    done_todo_at(&mut list, 3, 4242);
    let r = update_todo(&mut list, UpdateTodoData { title: "drei".to_string(), id: 3, done: false });
    assert_eq!((r.status, r.body), (200, item("drei", 3, true)));
    assert_eq!(list.get(3).map(|t| (t.done, t.done_at)), Some((true, Some(4242))));
    assert_eq!(get_todo(&list, 3).body, item("drei", 3, true));
}

#[test]
fn updating_with_an_empty_title_changes_nothing() {
    let mut list = sample();
    let r = update_todo(&mut list, UpdateTodoData { title: String::new(), id: 2, done: false });
    assert_eq!((r.status, r.body), (200, error("Todo cannot be empty")));
    assert_eq!(list.get(2).map(|t| t.title.as_str()), Some("two"));
    let r = update_todo(&mut list, UpdateTodoData { title: String::new(), id: 9, done: false });
    assert_eq!((r.status, r.body), (200, error("Todo cannot be empty")));
}

#[test]
fn updating_a_missing_item_is_reported() {
    let mut list = sample();
    let r = update_todo(&mut list, UpdateTodoData { title: "nine".to_string(), id: 9, done: false });
    assert_eq!((r.status, r.body), (404, error("Todo not found")));
    assert_eq!(list.len(), 3);
    let titles: Vec<&str> = list.items().iter().map(|t| t.title.as_str()).collect();
    assert_eq!(titles, vec!["one", "two", "three"]);
}

#[test]
fn validating_an_empty_title_gives_the_message() {
    let modal = validation("");
    assert_eq!(modal.error_message, "Todo cannot be empty");
    assert_eq!(modal.value, "");
    let r = validate_todo(&AddTodoData { todo: String::new() });
    assert_eq!(r.status, 200);
    assert_eq!(r.body, ValidateTodoModal { error_message: "Todo cannot be empty", value: "" }.render());
}

#[test]
fn validating_a_title_echoes_it() {
    for title in ["x", " ", "Buy milk", "<b>", "a&b"] {
        let modal = validation(title);
        assert_eq!(modal.error_message, "");
        assert_eq!(modal.value, title);
        let r = validate_todo(&AddTodoData { todo: title.to_string() });
        assert_eq!(r.status, 200);
        assert_eq!(r.body, ValidateTodoModal { error_message: "", value: title }.render());
    }
    let r = validate_todo(&AddTodoData { todo: "a\"b".to_string() });
    assert!(r.body.contains("value=\"a&quot;b\""));
    assert!(r.body.contains("<span class=\"error\"></span>"));
}

#[test]
fn add_then_toggle_then_delete() {
    let mut list = TodoList::new();
    let r = add(&mut list, "Buy milk");
    assert_eq!(r.status, 200);
    assert_eq!(list.len(), 1);
    let id = list.items()[0].id;
    assert_eq!(list.items()[0].title, "Buy milk");
    assert!(!list.items()[0].done);
    assert_eq!(uuid::Uuid::from_u128(id).get_version_num(), 4);
    assert!(r.body.contains(&format!("id=\"todo-{}\"", uuid::Uuid::from_u128(id))));
    assert_eq!(get_todos(&list).body, item("Buy milk", id, false));

    let r = done_todo(&mut list, id);
    assert_eq!((r.status, r.body), (200, item("Buy milk", id, true)));
    assert_eq!(list.get(id).map(|t| t.done), Some(true));
    assert_eq!(get_todo(&list, id).body, item("Buy milk", id, true));

    let r = delete_todo(&mut list, id);
    assert_eq!((r.status, r.body.as_str()), (200, ""));
    assert!(!list.contains(id));
    assert_eq!(get_todos(&list).body, "");
    assert_eq!(get_todo(&list, id).status, 404);
}
