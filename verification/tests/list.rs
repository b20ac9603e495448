use chrono::NaiveDate;
use todo_list::todo::{TodoEntry, TodoList};

fn date(year: i32, month: u32, day: u32) -> NaiveDate {
    NaiveDate::from_ymd_opt(year, month, day).unwrap()
}

fn task(id: usize, title: &str) -> TodoEntry {
    TodoEntry::new(id, title.to_string(), "text".to_string(), date(2024, 1, 2), None)
}

fn three() -> TodoList {
    TodoList::from_vec(vec![task(1, "one"), task(2, "two"), task(3, "three")])
}

#[test]
fn new_entry_is_pending() {
    let entry = TodoEntry::new(
        5,
        "Title".to_string(),
        "Text".to_string(),
        date(2024, 1, 2),
        Some(date(2025, 6, 7)),
    );
    assert_eq!(entry.id, 5);
    assert_eq!(entry.title, "Title");
    assert_eq!(entry.description, "Text");
    assert_eq!(entry.creation_date, date(2024, 1, 2));
    assert_eq!(entry.due_date, Some(date(2025, 6, 7)));
    assert!(!entry.is_done);
}

#[test]
fn from_columns_keeps_every_column() {
    let entry = TodoEntry::from_columns(
        8,
        "T".to_string(),
        "D".to_string(),
        date(2023, 3, 3),
        None,
        true,
    );
    assert_eq!(entry.id, 8);
    assert_eq!(entry.title, "T");
    assert_eq!(entry.description, "D");
    assert_eq!(entry.creation_date, date(2023, 3, 3));
    assert_eq!(entry.due_date, None);
    assert!(entry.is_done);
}

#[test]
fn change_title_changes_only_the_title() {
    let mut entry = task(1, "old");
    entry.change_title("new".to_string());
    assert_eq!(entry.title, "new");
    assert_eq!(entry.description, "text");
    assert_eq!(entry.id, 1);
    assert!(!entry.is_done);
}

#[test]
fn change_description_changes_only_the_description() {
    let mut entry = task(1, "old");
    entry.change_description("other".to_string());
    assert_eq!(entry.title, "old");
    assert_eq!(entry.description, "other");
}

#[test]
fn toggle_done_twice_returns_to_the_start() {
    let mut entry = task(1, "t");
    assert!(!entry.is_done);
    entry.toggle_done();
    assert!(entry.is_done);
    entry.toggle_done();
    assert!(!entry.is_done);
}

#[test]
fn label_of_a_pending_entry() {
    let entry = TodoEntry::new(
        12,
        "Buy milk".to_string(),
        "2%".to_string(),
        date(2024, 1, 2),
        None,
    );
    assert_eq!(entry.label(), "ID: 12, Title: Buy milk, Status: Pending\nDescription: 2%");
}

#[test]
fn label_of_a_done_entry() {
    let mut entry = task(0, "t");
    entry.toggle_done();
    assert_eq!(entry.label(), "ID: 0, Title: t, Status: Done\nDescription: text");
}

#[test]
fn info_text_with_a_due_date() {
    let entry = TodoEntry::new(
        1048576,
        "Buy milk".to_string(),
        "2%".to_string(),
        date(2024, 1, 2),
        Some(date(2030, 1, 1)),
    );
    assert_eq!(
        entry.info_text(),
        "ID: 1048576\nTitle: Buy milk\nDescription: 2%\nDue Date: 2030-01-01\nStatus: Pending\n"
    );
}

#[test]
fn info_text_without_a_due_date() {
    let mut entry = task(7, "t");
    entry.toggle_done();
    assert_eq!(
        entry.info_text(),
        "ID: 7\nTitle: t\nDescription: text\nDue Date: No Due Date\nStatus: Done\n"
    );
}

#[test]
fn new_list_is_empty() {
    assert_eq!(TodoList::new().list.len(), 0);
}

#[test]
fn from_vec_keeps_the_order() {
    let list = three();
    let ids: Vec<usize> = list.list.iter().map(|entry| entry.id).collect();
    assert_eq!(ids, vec![1, 2, 3]);
}

#[test]
fn position_finds_the_first_match() {
    let list = TodoList::from_vec(vec![task(4, "a"), task(9, "b"), task(4, "c")]);
    assert_eq!(list.position(4), Some(0));
    assert_eq!(list.position(9), Some(1));
    assert_eq!(list.position(5), None);
    assert_eq!(TodoList::new().position(0), None);
}

#[test]
fn get_mut_by_id_finds_and_changes_in_place() {
    let mut list = three();
    {
        let found = list.get_mut_by_id(2).unwrap();
        assert_eq!(found.title, "two");
        found.change_title("second".to_string());
    }
    assert_eq!(list.list[0].title, "one");
    assert_eq!(list.list[1].title, "second");
    assert_eq!(list.list[2].title, "three");
    assert!(list.get_mut_by_id(4).is_none());
}

#[test]
fn list_change_title_touches_one_entry() {
    let mut list = three();
    list.change_title(3, "third".to_string());
    assert_eq!(list.list.len(), 3);
    assert_eq!(list.list[0].title, "one");
    assert_eq!(list.list[1].title, "two");
    assert_eq!(list.list[2].title, "third");
    assert_eq!(list.list[2].description, "text");
    assert!(!list.list[2].is_done);
}

#[test]
fn list_change_description_touches_one_entry() {
    let mut list = three();
    list.change_description(1, "first".to_string());
    assert_eq!(list.list[0].description, "first");
    assert_eq!(list.list[0].title, "one");
    assert_eq!(list.list[1].description, "text");
}

#[test]
fn list_toggle_done_twice_returns_to_the_start() {
    let mut list = three();
    list.toggle_done(2);
    assert!(list.list[1].is_done);
    assert!(!list.list[0].is_done);
    assert!(!list.list[2].is_done);
    list.toggle_done(2);
    assert!(!list.list[1].is_done);
}

#[test]
fn append_adds_at_the_end() {
    let mut list = three();
    list.append(task(10, "ten"));
    assert_eq!(list.list.len(), 4);
    assert_eq!(list.list[3].id, 10);
    assert_eq!(list.list[0].id, 1);
}

#[test]
fn remove_takes_out_the_entry_and_keeps_the_order() {
    let mut list = three();
    let removed = list.remove(2);
    assert_eq!(removed.id, 2);
    assert_eq!(removed.title, "two");
    let ids: Vec<usize> = list.list.iter().map(|entry| entry.id).collect();
    assert_eq!(ids, vec![1, 3]);
    assert_eq!(list.position(2), None);
}

#[test]
fn ids_are_written_in_decimal() {
    for (id, text) in [
        (0usize, "0"),
        (9, "9"),
        (10, "10"),
        (99, "99"),
        (100, "100"),
        (1203, "1203"),
        (usize::MAX, "18446744073709551615"),
    ] {
        let entry = task(id, "t");
        assert_eq!(entry.label(), format!("ID: {}, Title: t, Status: Pending\nDescription: text", text));
        assert_eq!(id.to_string(), text);
    }
}
