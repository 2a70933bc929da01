use todo_service::store::TodoList;
use todo_service::todo::{validate_title, Todo, TodoError};

fn titles(list: &TodoList) -> Vec<String> {
    list.items().iter().map(|t| t.title.clone()).collect()
}

fn sample() -> TodoList {
    let mut list = TodoList::new();
    assert_eq!(list.insert(1, "one".to_string(), 1001), Ok(()));
    assert_eq!(list.insert(2, "two".to_string(), 1002), Ok(()));
    assert_eq!(list.insert(3, "three".to_string(), 1003), Ok(()));
    list
}

#[test]
fn new_list_is_empty() {
    let list = TodoList::new();
    assert_eq!(list.len(), 0);
    assert!(list.items().is_empty());
    assert!(!list.contains(1));
    assert!(list.get(1).is_none());
}

#[test]
fn insert_appends_an_open_item() {
    let mut list = sample();
    assert_eq!(list.insert(9, "nine".to_string(), 1009), Ok(()));
    assert_eq!(list.len(), 4);
    assert_eq!(titles(&list), vec!["one", "two", "three", "nine"]);
    let last = &list.items()[3];
    assert_eq!(last.id, 9);
    assert_eq!(last.title, "nine");
    assert!(!last.done);
    assert_eq!(last.created_at, 1009);
    assert_eq!(last.done_at, None);
    assert!(list.contains(9));
}

#[test]
fn insert_turns_down_an_empty_title() {
    let mut list = sample();
    assert_eq!(list.insert(9, String::new(), 1009), Err(TodoError::EmptyTitle));
    assert_eq!(list.len(), 3);
    assert_eq!(titles(&list), vec!["one", "two", "three"]);
    assert!(!list.contains(9));
}

#[test]
fn insert_turns_down_an_identifier_in_use() {
    let mut list = sample();
    assert_eq!(list.insert(2, "again".to_string(), 1002), Err(TodoError::DuplicateId));
    assert_eq!(titles(&list), vec!["one", "two", "three"]);
    assert_eq!(list.get(2).map(|t| t.title.as_str()), Some("two"));
}

#[test]
fn empty_title_is_reported_before_an_identifier_in_use() {
    let mut list = sample();
    assert_eq!(list.insert(2, String::new(), 1002), Err(TodoError::EmptyTitle));
}

#[test]
fn get_finds_by_identifier() {
    let list = sample();
    let two = list.get(2);
    assert!(two.is_some());
    let two = two.map(|t| (t.id, t.title.clone(), t.done, t.created_at, t.done_at));
    assert_eq!(two, Some((2, "two".to_string(), false, 1002, None)));
    assert!(list.get(4).is_none());
}

#[test]
fn toggle_flips_only_that_item() {
    let mut list = sample();
    assert_eq!(list.toggle_done(2, 5000), Ok(true));
    let flags: Vec<bool> = list.items().iter().map(|t| t.done).collect();
    assert_eq!(flags, vec![false, true, false]);
    assert_eq!(titles(&list), vec!["one", "two", "three"]);
    assert_eq!(list.toggle_done(2, 5000), Ok(false));
    let flags: Vec<bool> = list.items().iter().map(|t| t.done).collect();
    assert_eq!(flags, vec![false, false, false]);
}

#[test]
fn toggle_records_and_clears_the_time_of_completion() {
    let mut list = sample();
    assert_eq!(list.toggle_done(2, 5000), Ok(true));
    assert_eq!(list.get(2).map(|t| (t.done, t.done_at, t.created_at)), Some((true, Some(5000), 1002)));
    assert_eq!(list.get(1).map(|t| (t.done, t.done_at, t.created_at)), Some((false, None, 1001)));
    assert_eq!(list.toggle_done(2, 6000), Ok(false));
    assert_eq!(list.get(2).map(|t| (t.done, t.done_at, t.created_at)), Some((false, None, 1002)));
    assert_eq!(list.toggle_done(2, -7), Ok(true));
    assert_eq!(list.get(2).map(|t| t.done_at), Some(Some(-7)));
}

#[test]
fn toggle_of_a_missing_item_changes_nothing() {
    let mut list = sample();
    assert_eq!(list.toggle_done(7, 5000), Err(TodoError::NotFound));
    let flags: Vec<bool> = list.items().iter().map(|t| t.done).collect();
    assert_eq!(flags, vec![false, false, false]);
    assert_eq!(list.len(), 3);
}

#[test]
fn update_title_changes_only_that_title() {
    let mut list = sample();
    assert_eq!(list.toggle_done(3, 5000), Ok(true));
    assert_eq!(list.update_title(3, "drei".to_string()), Ok(()));
    assert_eq!(titles(&list), vec!["one", "two", "drei"]);
    let ids: Vec<u128> = list.items().iter().map(|t| t.id).collect();
    assert_eq!(ids, vec![1, 2, 3]);
    assert_eq!(list.get(3).map(|t| (t.done, t.done_at, t.created_at)), Some((true, Some(5000), 1003)));
}

#[test]
fn update_title_errors() {
    let mut list = sample();
    assert_eq!(list.update_title(2, String::new()), Err(TodoError::EmptyTitle));
    assert_eq!(list.update_title(7, "seven".to_string()), Err(TodoError::NotFound));
    assert_eq!(list.update_title(7, String::new()), Err(TodoError::EmptyTitle));
    assert_eq!(titles(&list), vec!["one", "two", "three"]);
}

#[test]
fn delete_removes_exactly_that_item() {
    let mut list = sample();
    assert!(list.delete(2));
    assert_eq!(titles(&list), vec!["one", "three"]);
    assert!(!list.contains(2));
    assert!(list.contains(1) && list.contains(3));
    assert!(list.delete(1));
    assert!(list.delete(3));
    assert_eq!(list.len(), 0);
}

#[test]
fn delete_of_a_missing_item_is_a_no_op() {
    let mut list = sample();
    assert!(!list.delete(7));
    assert_eq!(titles(&list), vec!["one", "two", "three"]);
    let mut empty = TodoList::new();
    assert!(!empty.delete(1));
    assert_eq!(empty.len(), 0);
}

#[test]
fn delete_by_title_removes_every_match() {
    let mut list = sample();
    assert_eq!(list.insert(4, "two".to_string(), 1004), Ok(()));
    assert_eq!(list.insert(5, "five".to_string(), 1005), Ok(()));
    assert_eq!(list.insert(6, "two".to_string(), 1006), Ok(()));
    assert_eq!(list.delete_by_title("two"), 3);
    assert_eq!(titles(&list), vec!["one", "three", "five"]);
    assert_eq!(list.delete_by_title("two"), 0);
    assert_eq!(list.delete_by_title(""), 0);
    assert_eq!(titles(&list), vec!["one", "three", "five"]);
    assert_eq!(list.delete_by_title("one"), 1);
    assert_eq!(list.delete_by_title("five"), 1);
    assert_eq!(list.delete_by_title("three"), 1);
    assert_eq!(list.len(), 0);
}

#[test]
fn an_identifier_can_be_used_again_after_deletion() {
    let mut list = sample();
    assert!(list.delete(2));
    assert_eq!(list.insert(2, "zwei".to_string(), 1002), Ok(()));
    assert_eq!(titles(&list), vec!["one", "three", "zwei"]);
}

#[test]
fn validate_title_accepts_what_is_not_empty() {
    assert_eq!(validate_title(""), Err(TodoError::EmptyTitle));
    assert_eq!(validate_title(" "), Ok(()));
    assert_eq!(validate_title("Buy milk"), Ok(()));
}

#[test]
fn create_draws_a_random_identifier() {
    let a = Todo::create("a".to_string());
    let b = Todo::create("b".to_string());
    let (a, b) = match (a, b) {
        (Ok(a), Ok(b)) => (a, b),
        _ => panic!("a title that is not empty was turned down"),
    };
    assert_eq!(a.title, "a");
    assert!(!a.done && !b.done);
    assert!(a.done_at.is_none() && b.done_at.is_none());
    assert!(a.created_at > 1_600_000_000_000 && a.created_at <= b.created_at);
    assert_ne!(a.id, b.id);
    for id in [a.id, b.id] {
        assert_eq!((id >> 76) & 0xf, 4);
        assert_eq!((id >> 62) & 0x3, 2);
        assert_eq!(uuid::Uuid::from_u128(id).get_version_num(), 4);
    }
}

#[test]
fn create_turns_down_an_empty_title() {
    assert!(matches!(Todo::create(String::new()), Err(TodoError::EmptyTitle)));
}
