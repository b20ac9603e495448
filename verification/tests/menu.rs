use chrono::NaiveDate;
use todo_list::database::Database;
use todo_list::menu::{
    Answer, EntryEditOptions, InfoPageOptions, MainMenuOptions, Operations, Prompts, Question,
    Stored,
};
use todo_list::todo::{TodoEntry, TodoList};

fn date(year: i32, month: u32, day: u32) -> NaiveDate {
    NaiveDate::from_ymd_opt(year, month, day).unwrap()
}

fn task(id: usize, title: &str) -> TodoEntry {
    TodoEntry::new(id, title.to_string(), "text".to_string(), date(2024, 1, 2), None)
}

fn copy(entry: &TodoEntry) -> TodoEntry {
    TodoEntry::from_columns(
        entry.id,
        entry.title.clone(),
        entry.description.clone(),
        entry.creation_date,
        entry.due_date,
        entry.is_done,
    )
}

fn session() -> (Database, TodoList) {
    (Database::new(":memory:").unwrap(), TodoList::new())
}

fn add(database: &mut Database, list: &mut TodoList, title: &str) {
    let operation = Operations::AddEntry {
        title: title.to_string(),
        description: "text".to_string(),
        due_date: None,
    };
    let next = operation.operate(database, list).unwrap();
    assert!(matches!(next, Prompts::MainMenu));
}

#[test]
fn labels_of_the_main_menu() {
    let labels: Vec<&str> = MainMenuOptions::all().iter().map(|option| option.label()).collect();
    assert_eq!(labels, vec!["Add Entry", "Show and Edit Entries", "Exit"]);
}

#[test]
fn labels_of_the_info_page() {
    let labels: Vec<&str> = InfoPageOptions::all().iter().map(|option| option.label()).collect();
    assert_eq!(labels, vec!["Edit Entry", "Delete Entry", "Return To MainMenu"]);
}

#[test]
fn labels_of_the_edit_menu() {
    let labels: Vec<&str> = EntryEditOptions::all().iter().map(|option| option.label()).collect();
    assert_eq!(
        labels,
        vec!["Change Title", "Change Description", "Toggle Done", "Return To Main Menu"]
    );
}

#[test]
fn only_exit_is_exit() {
    assert!(Prompts::Exit.is_exit());
    assert!(!Prompts::MainMenu.is_exit());
    assert!(!Prompts::AddEntry.is_exit());
    assert!(!Prompts::SelectEntry(vec![]).is_exit());
    assert!(!Prompts::InfoPage(task(1, "t")).is_exit());
}

#[test]
fn each_state_asks_its_question() {
    assert_eq!(Prompts::MainMenu.question(), Question::MainMenu);
    assert_eq!(Prompts::AddEntry.question(), Question::NewEntry);
    assert_eq!(Prompts::SelectEntry(vec![task(1, "t")]).question(), Question::PickEntry);
    assert_eq!(Prompts::EntryEditMenu(task(1, "t")).question(), Question::EditMenu);
    assert_eq!(Prompts::InfoPage(task(1, "t")).question(), Question::InfoPage);
    assert_eq!(Prompts::ChangeTitle(task(1, "t")).question(), Question::NewTitle);
    assert_eq!(Prompts::ChangeDescription(task(1, "t")).question(), Question::NewDescription);
    assert_eq!(Prompts::Exit.question(), Question::Nothing);
}

#[test]
fn select_entry_without_candidates_goes_to_the_main_menu() {
    let state = Prompts::SelectEntry(vec![]);
    assert_eq!(state.question(), Question::NoEntries);
    let operation = state.prompt(Answer::Nothing).unwrap();
    assert!(matches!(operation, Operations::SkipToPrompt(Prompts::MainMenu)));
    let (mut database, mut list) = session();
    let next = operation.operate(&mut database, &mut list).unwrap();
    assert!(matches!(next, Prompts::MainMenu));
    let again = Prompts::SelectEntry(vec![]).prompt(Answer::Picked(Some(0))).unwrap();
    assert!(matches!(again, Operations::SkipToPrompt(Prompts::MainMenu)));
}

#[test]
fn main_menu_choices() {
    let operation = Prompts::MainMenu.prompt(Answer::Main(MainMenuOptions::AddEntry)).unwrap();
    assert!(matches!(operation, Operations::SkipToPrompt(Prompts::AddEntry)));
    let operation = Prompts::MainMenu.prompt(Answer::Main(MainMenuOptions::ShowEntries)).unwrap();
    assert!(matches!(operation, Operations::ListEntries));
    let operation = Prompts::MainMenu.prompt(Answer::Main(MainMenuOptions::Exit)).unwrap();
    assert!(matches!(operation, Operations::Exit));
    assert!(Prompts::MainMenu.prompt(Answer::Nothing).is_none());
    assert!(Prompts::MainMenu.prompt(Answer::Text("x".to_string())).is_none());
}

#[test]
fn add_entry_takes_the_three_values() {
    let answer = Answer::NewEntry {
        title: "Buy milk".to_string(),
        description: "2%".to_string(),
        due_date: Some(date(2030, 1, 1)),
    };
    match Prompts::AddEntry.prompt(answer) {
        Some(Operations::AddEntry { title, description, due_date }) => {
            assert_eq!(title, "Buy milk");
            assert_eq!(description, "2%");
            assert_eq!(due_date, Some(date(2030, 1, 1)));
        }
        other => panic!("unexpected {:?}", other),
    }
}

#[test]
fn add_entry_refuses_empty_text() {
    let answer = Answer::NewEntry {
        title: String::new(),
        description: "2%".to_string(),
        due_date: None,
    };
    assert!(Prompts::AddEntry.prompt(answer).is_none());
    let answer = Answer::NewEntry {
        title: "t".to_string(),
        description: String::new(),
        due_date: None,
    };
    assert!(Prompts::AddEntry.prompt(answer).is_none());
    assert!(Prompts::AddEntry.prompt(Answer::Main(MainMenuOptions::Exit)).is_none());
}

#[test]
fn select_entry_choices() {
    let candidates = || vec![task(1, "one"), task(2, "two"), task(3, "three")];
    match Prompts::SelectEntry(candidates()).prompt(Answer::Picked(Some(1))) {
        Some(Operations::SkipToPrompt(Prompts::InfoPage(entry))) => {
            assert_eq!(entry.id, 2);
            assert_eq!(entry.title, "two");
        }
        other => panic!("unexpected {:?}", other),
    }
    let cancelled = Prompts::SelectEntry(candidates()).prompt(Answer::Picked(None)).unwrap();
    assert!(matches!(cancelled, Operations::SkipToPrompt(Prompts::MainMenu)));
    assert!(Prompts::SelectEntry(candidates()).prompt(Answer::Picked(Some(3))).is_none());
    assert!(Prompts::SelectEntry(candidates()).prompt(Answer::Nothing).is_none());
}

#[test]
fn info_page_choices() {
    let page = || Prompts::InfoPage(task(4, "t"));
    match page().prompt(Answer::Info(InfoPageOptions::EditEntry)) {
        Some(Operations::SkipToPrompt(Prompts::EntryEditMenu(entry))) => assert_eq!(entry.id, 4),
        other => panic!("unexpected {:?}", other),
    }
    match page().prompt(Answer::Info(InfoPageOptions::DeleteEntry)) {
        Some(Operations::DeleteEntry(entry)) => assert_eq!(entry.id, 4),
        other => panic!("unexpected {:?}", other),
    }
    let back = page().prompt(Answer::Info(InfoPageOptions::ReturnToMainMenu)).unwrap();
    assert!(matches!(back, Operations::SkipToPrompt(Prompts::MainMenu)));
    assert!(page().prompt(Answer::Edit(EntryEditOptions::ToggleDone)).is_none());
}

#[test]
fn edit_menu_choices() {
    let menu = || Prompts::EntryEditMenu(task(4, "t"));
    match menu().prompt(Answer::Edit(EntryEditOptions::ChangeTitle)) {
        Some(Operations::SkipToPrompt(Prompts::ChangeTitle(entry))) => assert_eq!(entry.id, 4),
        other => panic!("unexpected {:?}", other),
    }
    match menu().prompt(Answer::Edit(EntryEditOptions::ChangeDescription)) {
        Some(Operations::SkipToPrompt(Prompts::ChangeDescription(entry))) => {
            assert_eq!(entry.id, 4)
        }
        other => panic!("unexpected {:?}", other),
    }
    match menu().prompt(Answer::Edit(EntryEditOptions::ToggleDone)) {
        Some(Operations::ToggleDone(entry)) => assert_eq!(entry.id, 4),
        other => panic!("unexpected {:?}", other),
    }
    let back = menu().prompt(Answer::Edit(EntryEditOptions::ReturnToMainMenu)).unwrap();
    assert!(matches!(back, Operations::SkipToPrompt(Prompts::MainMenu)));
    assert!(menu().prompt(Answer::Info(InfoPageOptions::EditEntry)).is_none());
}

#[test]
fn text_states_take_a_text_that_is_not_empty() {
    match Prompts::ChangeTitle(task(4, "t")).prompt(Answer::Text("new".to_string())) {
        Some(Operations::ChangeTitle(entry, text)) => {
            assert_eq!(entry.id, 4);
            assert_eq!(text, "new");
        }
        other => panic!("unexpected {:?}", other),
    }
    match Prompts::ChangeDescription(task(4, "t")).prompt(Answer::Text("new".to_string())) {
        Some(Operations::ChangeDescription(entry, text)) => {
            assert_eq!(entry.id, 4);
            assert_eq!(text, "new");
        }
        other => panic!("unexpected {:?}", other),
    }
    assert!(Prompts::ChangeTitle(task(4, "t")).prompt(Answer::Text(String::new())).is_none());
    assert!(Prompts::ChangeDescription(task(4, "t")).prompt(Answer::Text(String::new())).is_none());
    assert!(Prompts::ChangeTitle(task(4, "t")).prompt(Answer::Nothing).is_none());
}

#[test]
fn exit_stays_exit() {
    let operation = Prompts::Exit.prompt(Answer::Nothing).unwrap();
    assert!(matches!(operation, Operations::Exit));
    let (mut database, mut list) = session();
    let next = operation.operate(&mut database, &mut list).unwrap();
    assert!(next.is_exit());
}

#[test]
fn skip_goes_where_it_says() {
    let (mut database, mut list) = session();
    let next = Operations::SkipToPrompt(Prompts::AddEntry).operate(&mut database, &mut list);
    assert!(matches!(next, Ok(Prompts::AddEntry)));
    assert_eq!(list.list.len(), 0);
}

#[test]
fn adding_writes_the_table_and_the_list() {
    let (mut database, mut list) = session();
    add(&mut database, &mut list, "one");
    add(&mut database, &mut list, "two");
    assert_eq!(list.list.len(), 2);
    assert_eq!((list.list[0].id, list.list[0].title.as_str()), (1, "one"));
    assert_eq!((list.list[1].id, list.list[1].title.as_str()), (2, "two"));
    assert!(!list.list[1].is_done);
    let stored = database.get_all_entries().unwrap();
    assert_eq!(stored.len(), 2);
    assert_eq!(stored[1].title, "two");
}

#[test]
fn listing_offers_what_the_table_holds() {
    let (mut database, mut list) = session();
    add(&mut database, &mut list, "one");
    add(&mut database, &mut list, "two");
    match Operations::ListEntries.operate(&mut database, &mut list) {
        Ok(Prompts::SelectEntry(candidates)) => {
            assert_eq!(candidates.len(), 2);
            assert_eq!(candidates[0].title, "one");
            assert_eq!(candidates[1].title, "two");
        }
        other => panic!("unexpected {:?}", other.is_ok()),
    }
    assert_eq!(list.list.len(), 2);
}

#[test]
fn changing_a_title_writes_the_table_and_the_list() {
    let (mut database, mut list) = session();
    add(&mut database, &mut list, "one");
    add(&mut database, &mut list, "two");
    let entry = copy(&list.list[1]);
    let next = Operations::ChangeTitle(entry, "second".to_string())
        .operate(&mut database, &mut list)
        .unwrap();
    assert!(matches!(next, Prompts::MainMenu));
    assert_eq!(list.list[0].title, "one");
    assert_eq!(list.list[1].title, "second");
    assert_eq!(list.list[1].description, "text");
    let stored = database.get_all_entries().unwrap();
    assert_eq!(stored[0].title, "one");
    assert_eq!(stored[1].title, "second");
    assert_eq!(stored[1].description, "text");
}

#[test]
fn changing_a_description_writes_the_table_and_the_list() {
    let (mut database, mut list) = session();
    add(&mut database, &mut list, "one");
    let entry = copy(&list.list[0]);
    let next = Operations::ChangeDescription(entry, "more".to_string())
        .operate(&mut database, &mut list)
        .unwrap();
    assert!(matches!(next, Prompts::MainMenu));
    assert_eq!(list.list[0].description, "more");
    assert_eq!(list.list[0].title, "one");
    let stored = database.get_all_entries().unwrap();
    assert_eq!(stored[0].description, "more");
    assert_eq!(stored[0].title, "one");
}

#[test]
fn toggling_changes_the_list_and_not_the_table() {
    let (mut database, mut list) = session();
    add(&mut database, &mut list, "one");
    let entry = copy(&list.list[0]);
    let next = Operations::ToggleDone(entry).operate(&mut database, &mut list).unwrap();
    assert!(matches!(next, Prompts::MainMenu));
    assert!(list.list[0].is_done);
    let stored = database.get_all_entries().unwrap();
    assert!(!stored[0].is_done);
    let entry = copy(&list.list[0]);
    Operations::ToggleDone(entry).operate(&mut database, &mut list).unwrap();
    assert!(!list.list[0].is_done);
}

#[test]
fn deleting_removes_from_the_table_and_the_list() {
    let (mut database, mut list) = session();
    add(&mut database, &mut list, "one");
    add(&mut database, &mut list, "two");
    let entry = copy(&list.list[0]);
    let next = Operations::DeleteEntry(entry).operate(&mut database, &mut list).unwrap();
    assert!(matches!(next, Prompts::MainMenu));
    assert_eq!(list.list.len(), 1);
    assert_eq!(list.list[0].id, 2);
    let stored = database.get_all_entries().unwrap();
    assert_eq!(stored.len(), 1);
    assert_eq!(stored[0].id, 2);
}

#[test]
fn a_failing_table_leaves_the_list_as_it_was() {
    let (mut database, mut list) = session();
    add(&mut database, &mut list, "one");
    database.get_connection().execute("DROP TABLE ENTRIES", ()).unwrap();
    let entry = copy(&list.list[0]);
    assert!(Operations::ChangeTitle(entry, "x".to_string())
        .operate(&mut database, &mut list)
        .is_err());
    assert_eq!(list.list[0].title, "one");
    let entry = copy(&list.list[0]);
    assert!(Operations::DeleteEntry(entry).operate(&mut database, &mut list).is_err());
    assert_eq!(list.list.len(), 1);
    let entry = copy(&list.list[0]);
    assert!(Operations::ToggleDone(entry).operate(&mut database, &mut list).is_err());
    assert!(!list.list[0].is_done);
    let operation = Operations::AddEntry {
        title: "t".to_string(),
        description: "d".to_string(),
        due_date: None,
    };
    assert!(operation.operate(&mut database, &mut list).is_err());
    assert_eq!(list.list.len(), 1);
    assert!(Operations::ListEntries.operate(&mut database, &mut list).is_err());
}

#[test]
fn settling_a_listing_offers_exactly_what_was_listed() {
    let mut list = TodoList::from_vec(vec![task(1, "one")]);
    let listed = Stored::Listed(vec![task(5, "five"), task(6, "six")]);
    match Operations::ListEntries.settle(listed, &mut list) {
        Some(Prompts::SelectEntry(candidates)) => {
            assert_eq!(candidates.len(), 2);
            assert_eq!(candidates[0].id, 5);
            assert_eq!(candidates[1].id, 6);
        }
        other => panic!("unexpected {:?}", other),
    }
    assert_eq!(list.list.len(), 1);
}

#[test]
fn settling_an_addition_appends_the_created_task() {
    let mut list = TodoList::from_vec(vec![task(1, "one")]);
    let operation = Operations::AddEntry {
        title: "two".to_string(),
        description: "text".to_string(),
        due_date: None,
    };
    let next = operation.settle(Stored::Created(task(2, "two")), &mut list);
    assert!(matches!(next, Some(Prompts::MainMenu)));
    assert_eq!(list.list.len(), 2);
    assert_eq!(list.list[0].id, 1);
    assert_eq!(list.list[1].id, 2);
    assert_eq!(list.list[1].title, "two");
}

#[test]
fn settling_changes_and_deletions() {
    let mut list = TodoList::from_vec(vec![task(1, "one"), task(2, "two")]);
    let next = Operations::ChangeTitle(task(2, "two"), "second".to_string())
        .settle(Stored::Written, &mut list);
    assert!(matches!(next, Some(Prompts::MainMenu)));
    assert_eq!(list.list[1].title, "second");
    let next = Operations::ChangeDescription(task(1, "one"), "first".to_string())
        .settle(Stored::Written, &mut list);
    assert!(matches!(next, Some(Prompts::MainMenu)));
    assert_eq!(list.list[0].description, "first");
    let next = Operations::ToggleDone(task(1, "one")).settle(Stored::Written, &mut list);
    assert!(matches!(next, Some(Prompts::MainMenu)));
    assert!(list.list[0].is_done);
    assert!(!list.list[1].is_done);
    let next = Operations::DeleteEntry(task(1, "one")).settle(Stored::Written, &mut list);
    assert!(matches!(next, Some(Prompts::MainMenu)));
    assert_eq!(list.list.len(), 1);
    assert_eq!(list.list[0].id, 2);
}

#[test]
fn settling_what_the_operation_did_not_ask_for_changes_nothing() {
    let mut list = TodoList::from_vec(vec![task(1, "one")]);
    assert!(Operations::ListEntries.settle(Stored::Written, &mut list).is_none());
    assert!(Operations::Exit.settle(Stored::Written, &mut list).is_none());
    assert!(Operations::DeleteEntry(task(1, "one")).settle(Stored::Untouched, &mut list).is_none());
    assert!(Operations::ToggleDone(task(1, "one"))
        .settle(Stored::Created(task(2, "two")), &mut list)
        .is_none());
    let operation = Operations::AddEntry {
        title: "t".to_string(),
        description: "d".to_string(),
        due_date: None,
    };
    assert!(operation.settle(Stored::Listed(vec![]), &mut list).is_none());
    assert_eq!(list.list.len(), 1);
    assert_eq!(list.list[0].title, "one");
    assert!(!list.list[0].is_done);
}

#[test]
fn settling_without_the_table() {
    let mut list = TodoList::new();
    let next = Operations::SkipToPrompt(Prompts::AddEntry).settle(Stored::Untouched, &mut list);
    assert!(matches!(next, Some(Prompts::AddEntry)));
    let next = Operations::Exit.settle(Stored::Untouched, &mut list);
    assert!(matches!(next, Some(Prompts::Exit)));
}

#[test]
fn storing_says_what_the_table_gave() {
    let (mut database, _) = session();
    assert!(matches!(Operations::Exit.store(&mut database), Ok(Stored::Untouched)));
    assert!(matches!(
        Operations::SkipToPrompt(Prompts::MainMenu).store(&mut database),
        Ok(Stored::Untouched)
    ));
    let operation = Operations::AddEntry {
        title: "one".to_string(),
        description: "text".to_string(),
        due_date: Some(date(2030, 1, 1)),
    };
    let created = match operation.store(&mut database) {
        Ok(Stored::Created(entry)) => entry,
        other => panic!("unexpected {:?}", other.is_ok()),
    };
    assert_eq!(created.id, 1);
    assert_eq!(created.title, "one");
    assert_eq!(created.due_date, Some(date(2030, 1, 1)));
    assert!(!created.is_done);
    let written = Operations::ChangeTitle(copy(&created), "first".to_string()).store(&mut database);
    assert!(matches!(written, Ok(Stored::Written)));
    match Operations::ListEntries.store(&mut database) {
        Ok(Stored::Listed(entries)) => {
            assert_eq!(entries.len(), 1);
            assert_eq!(entries[0].title, "first");
            assert_eq!(entries[0].description, "text");
        }
        other => panic!("unexpected {:?}", other.is_ok()),
    }
    let written = Operations::ChangeDescription(copy(&created), "more".to_string())
        .store(&mut database);
    assert!(matches!(written, Ok(Stored::Written)));
    let stored = database.get_all_entries().unwrap();
    assert_eq!(stored[0].description, "more");
    assert!(matches!(
        Operations::DeleteEntry(copy(&created)).store(&mut database),
        Ok(Stored::Written)
    ));
    assert_eq!(database.get_all_entries().unwrap().len(), 0);
}

#[test]
fn only_changes_and_deletions_need_an_id() {
    assert_eq!(Operations::ChangeTitle(task(4, "t"), "x".to_string()).edited_id(), Some(4));
    assert_eq!(Operations::ChangeDescription(task(5, "t"), "x".to_string()).edited_id(), Some(5));
    assert_eq!(Operations::ToggleDone(task(6, "t")).edited_id(), Some(6));
    assert_eq!(Operations::DeleteEntry(task(7, "t")).edited_id(), Some(7));
    assert_eq!(Operations::ListEntries.edited_id(), None);
    assert_eq!(Operations::Exit.edited_id(), None);
    assert_eq!(Operations::SkipToPrompt(Prompts::InfoPage(task(8, "t"))).edited_id(), None);
    let operation = Operations::AddEntry {
        title: "t".to_string(),
        description: "d".to_string(),
        due_date: None,
    };
    assert_eq!(operation.edited_id(), None);
}

#[test]
fn the_row_to_write_carries_the_change() {
    let mut entry = task(4, "old");
    entry.due_date = Some(date(2030, 1, 1));
    let row = Operations::ChangeTitle(copy(&entry), "new".to_string()).row_to_write().unwrap();
    assert_eq!((row.id, row.title.as_str(), row.description.as_str()), (4, "new", "text"));
    assert_eq!(row.due_date, Some(date(2030, 1, 1)));
    let row =
        Operations::ChangeDescription(copy(&entry), "more".to_string()).row_to_write().unwrap();
    assert_eq!((row.id, row.title.as_str(), row.description.as_str()), (4, "old", "more"));
    let row = Operations::ToggleDone(copy(&entry)).row_to_write().unwrap();
    assert_eq!((row.id, row.title.as_str(), row.description.as_str()), (4, "old", "text"));
    assert!(!row.is_done);
    let row = Operations::DeleteEntry(copy(&entry)).row_to_write().unwrap();
    assert_eq!((row.id, row.title.as_str()), (4, "old"));
    assert_eq!(row.creation_date, entry.creation_date);
    assert!(Operations::ListEntries.row_to_write().is_none());
    assert!(Operations::Exit.row_to_write().is_none());
    assert!(Operations::SkipToPrompt(Prompts::MainMenu).row_to_write().is_none());
    let operation = Operations::AddEntry {
        title: "t".to_string(),
        description: "d".to_string(),
        due_date: None,
    };
    assert!(operation.row_to_write().is_none());
}
