//! The menu: which question each state asks, which operation an answer
//! leads to, and what an operation does to the table and to the list.

use vstd::prelude::*;
use vstd::pervasive::unreached;
use chrono::NaiveDate;
use crate::database::{Database, StoreError};
use crate::todo::{
    distinct_ids, edits_keep_the_ids, entry_views, has_id, redescribed, removed_id_is_gone, retitled, toggled_at, without, EntryView, TodoEntry,
    TodoList,
};

verus! {

/// The choices of the main menu.
#[derive(Debug, Clone, Copy, PartialEq, Eq, Structural)]
pub enum MainMenuOptions {
    AddEntry,
    ShowEntries,
    Exit,
}

/// The choices on a task's page.
#[derive(Debug, Clone, Copy, PartialEq, Eq, Structural)]
pub enum InfoPageOptions {
    EditEntry,
    DeleteEntry,
    ReturnToMainMenu,
}

/// The choices of a task's edit menu.
#[derive(Debug, Clone, Copy, PartialEq, Eq, Structural)]
pub enum EntryEditOptions {
    ChangeTitle,
    ChangeDescription,
    ToggleDone,
    ReturnToMainMenu,
}

impl MainMenuOptions {
    pub open spec fn label_text(self) -> Seq<char> {
        match self {
            MainMenuOptions::AddEntry => "Add Entry"@,
            MainMenuOptions::ShowEntries => "Show and Edit Entries"@,
            MainMenuOptions::Exit => "Exit"@,
        }
    }

    /// The words under which the choice is offered.
    pub fn label(&self) -> (r: &'static str)
        ensures
            r@ == self.label_text(),
    {
        match self {
            MainMenuOptions::AddEntry => "Add Entry",
            MainMenuOptions::ShowEntries => "Show and Edit Entries",
            MainMenuOptions::Exit => "Exit",
        }
    }

    /// The choices in the order in which the menu shows them.
    pub fn all() -> (r: Vec<MainMenuOptions>)
        ensures
            r@ == seq![
                MainMenuOptions::AddEntry,
                MainMenuOptions::ShowEntries,
                MainMenuOptions::Exit,
            ],
    {
        vec![MainMenuOptions::AddEntry, MainMenuOptions::ShowEntries, MainMenuOptions::Exit]
    }
}

impl InfoPageOptions {
    pub open spec fn label_text(self) -> Seq<char> {
        match self {
            InfoPageOptions::EditEntry => "Edit Entry"@,
            InfoPageOptions::DeleteEntry => "Delete Entry"@,
            InfoPageOptions::ReturnToMainMenu => "Return To MainMenu"@,
        }
    }

    /// The words under which the choice is offered.
    pub fn label(&self) -> (r: &'static str)
        ensures
            r@ == self.label_text(),
    {
        match self {
            InfoPageOptions::EditEntry => "Edit Entry",
            InfoPageOptions::DeleteEntry => "Delete Entry",
            InfoPageOptions::ReturnToMainMenu => "Return To MainMenu",
        }
    }

    /// The choices in the order in which the page shows them.
    pub fn all() -> (r: Vec<InfoPageOptions>)
        ensures
            r@ == seq![
                InfoPageOptions::EditEntry,
                InfoPageOptions::DeleteEntry,
                InfoPageOptions::ReturnToMainMenu,
            ],
    {
        vec![
            InfoPageOptions::EditEntry,
            InfoPageOptions::DeleteEntry,
            InfoPageOptions::ReturnToMainMenu,
        ]
    }
}

impl EntryEditOptions {
    pub open spec fn label_text(self) -> Seq<char> {
        match self {
            EntryEditOptions::ChangeTitle => "Change Title"@,
            EntryEditOptions::ChangeDescription => "Change Description"@,
            EntryEditOptions::ToggleDone => "Toggle Done"@,
            EntryEditOptions::ReturnToMainMenu => "Return To Main Menu"@,
        }
    }

    /// The words under which the choice is offered.
    pub fn label(&self) -> (r: &'static str)
        ensures
            r@ == self.label_text(),
    {
        match self {
            EntryEditOptions::ChangeTitle => "Change Title",
            EntryEditOptions::ChangeDescription => "Change Description",
            EntryEditOptions::ToggleDone => "Toggle Done",
            EntryEditOptions::ReturnToMainMenu => "Return To Main Menu",
        }
    }

    /// The choices in the order in which the menu shows them.
    pub fn all() -> (r: Vec<EntryEditOptions>)
        ensures
            r@ == seq![
                EntryEditOptions::ChangeTitle,
                EntryEditOptions::ChangeDescription,
                EntryEditOptions::ToggleDone,
                EntryEditOptions::ReturnToMainMenu,
            ],
    {
        vec![
            EntryEditOptions::ChangeTitle,
            EntryEditOptions::ChangeDescription,
            EntryEditOptions::ToggleDone,
            EntryEditOptions::ReturnToMainMenu,
        ]
    }
}

/// Where the session stands.
#[derive(Debug)]
pub enum Prompts {
    MainMenu,
    AddEntry,
    SelectEntry(Vec<TodoEntry>),
    EntryEditMenu(TodoEntry),
    ChangeTitle(TodoEntry),
    ChangeDescription(TodoEntry),
    InfoPage(TodoEntry),
    Exit,
}

/// What the user asked for, to be carried out on the table and the list.
#[derive(Debug)]
pub enum Operations {
    SkipToPrompt(Prompts),
    ListEntries,
    AddEntry { title: String, description: String, due_date: Option<NaiveDate> },
    ChangeDescription(TodoEntry, String),
    ChangeTitle(TodoEntry, String),
    DeleteEntry(TodoEntry),
    ToggleDone(TodoEntry),
    Exit,
}

/// What a state wants from the user.
#[derive(Debug, Clone, Copy, PartialEq, Eq, Structural)]
pub enum Question {
    /// One of the main menu's choices.
    MainMenu,
    /// A title, a description and, if the user wishes, a due date.
    NewEntry,
    /// Nothing: there is no task to choose from, which the user is told.
    NoEntries,
    /// One of the candidates, or none of them.
    PickEntry,
    /// One of the edit menu's choices.
    EditMenu,
    /// One of the choices on the task's page, which is shown.
    InfoPage,
    /// A new title.
    NewTitle,
    /// A new description.
    NewDescription,
    /// Nothing: the session is over.
    Nothing,
}

/// What the user gave.
#[derive(Debug)]
pub enum Answer {
    Main(MainMenuOptions),
    NewEntry { title: String, description: String, due_date: Option<NaiveDate> },
    /// The index of the chosen candidate, or `None` where the user chose none.
    Picked(Option<usize>),
    Edit(EntryEditOptions),
    Info(InfoPageOptions),
    Text(String),
    Nothing,
}

/// What the table gave back when an operation was written to it.
#[derive(Debug)]
pub enum Stored {
    /// The operation does not go to the table.
    Untouched,
    /// The tasks that the table holds.
    Listed(Vec<TodoEntry>),
    /// The task that the table made.
    Created(TodoEntry),
    /// The change or the deletion was written.
    Written,
}

pub ghost enum StoredView {
    Untouched,
    Listed(Seq<EntryView>),
    Created(EntryView),
    Written,
}

impl View for Stored {
    type V = StoredView;

    open spec fn view(&self) -> StoredView {
        match *self {
            Stored::Untouched => StoredView::Untouched,
            Stored::Listed(entries) => StoredView::Listed(entry_views(entries@)),
            Stored::Created(entry) => StoredView::Created(entry@),
            Stored::Written => StoredView::Written,
        }
    }
}

pub ghost enum PromptView {
    MainMenu,
    AddEntry,
    SelectEntry(Seq<EntryView>),
    EntryEditMenu(EntryView),
    ChangeTitle(EntryView),
    ChangeDescription(EntryView),
    InfoPage(EntryView),
    Exit,
}

pub ghost enum OperationView {
    SkipToPrompt(PromptView),
    ListEntries,
    AddEntry { title: Seq<char>, description: Seq<char>, due_date: Option<NaiveDate> },
    ChangeDescription(EntryView, Seq<char>),
    ChangeTitle(EntryView, Seq<char>),
    DeleteEntry(EntryView),
    ToggleDone(EntryView),
    Exit,
}

pub ghost enum AnswerView {
    Main(MainMenuOptions),
    NewEntry { title: Seq<char>, description: Seq<char>, due_date: Option<NaiveDate> },
    Picked(Option<usize>),
    Edit(EntryEditOptions),
    Info(InfoPageOptions),
    Text(Seq<char>),
    Nothing,
}

impl View for Prompts {
    type V = PromptView;

    open spec fn view(&self) -> PromptView {
        match *self {
            Prompts::MainMenu => PromptView::MainMenu,
            Prompts::AddEntry => PromptView::AddEntry,
            Prompts::SelectEntry(entries) => PromptView::SelectEntry(entry_views(entries@)),
            Prompts::EntryEditMenu(entry) => PromptView::EntryEditMenu(entry@),
            Prompts::ChangeTitle(entry) => PromptView::ChangeTitle(entry@),
            Prompts::ChangeDescription(entry) => PromptView::ChangeDescription(entry@),
            Prompts::InfoPage(entry) => PromptView::InfoPage(entry@),
            Prompts::Exit => PromptView::Exit,
        }
    }
}

impl View for Operations {
    type V = OperationView;

    open spec fn view(&self) -> OperationView {
        match *self {
            Operations::SkipToPrompt(prompt) => OperationView::SkipToPrompt(prompt@),
            Operations::ListEntries => OperationView::ListEntries,
            Operations::AddEntry { title, description, due_date } => OperationView::AddEntry {
                title: title@,
                description: description@,
                due_date,
            },
            Operations::ChangeDescription(entry, text) => OperationView::ChangeDescription(
                entry@,
                text@,
            ),
            Operations::ChangeTitle(entry, text) => OperationView::ChangeTitle(entry@, text@),
            Operations::DeleteEntry(entry) => OperationView::DeleteEntry(entry@),
            Operations::ToggleDone(entry) => OperationView::ToggleDone(entry@),
            Operations::Exit => OperationView::Exit,
        }
    }
}

impl View for Answer {
    type V = AnswerView;

    open spec fn view(&self) -> AnswerView {
        match *self {
            Answer::Main(choice) => AnswerView::Main(choice),
            Answer::NewEntry { title, description, due_date } => AnswerView::NewEntry {
                title: title@,
                description: description@,
                due_date,
            },
            Answer::Picked(choice) => AnswerView::Picked(choice),
            Answer::Edit(choice) => AnswerView::Edit(choice),
            Answer::Info(choice) => AnswerView::Info(choice),
            Answer::Text(text) => AnswerView::Text(text@),
            Answer::Nothing => AnswerView::Nothing,
        }
    }
}

/// The question that a state asks. With no candidate to choose from, no
/// choice is offered.
pub open spec fn question_for(state: PromptView) -> Question {
    match state {
        PromptView::MainMenu => Question::MainMenu,
        PromptView::AddEntry => Question::NewEntry,
        PromptView::SelectEntry(candidates) => if candidates.len() == 0 {
            Question::NoEntries
        } else {
            Question::PickEntry
        },
        PromptView::EntryEditMenu(_) => Question::EditMenu,
        PromptView::ChangeTitle(_) => Question::NewTitle,
        PromptView::ChangeDescription(_) => Question::NewDescription,
        PromptView::InfoPage(_) => Question::InfoPage,
        PromptView::Exit => Question::Nothing,
    }
}

/// The operation that an answer leads to in a state, or `None` where the
/// answer is none that the state's question admits: another kind of answer, an
/// empty text, a candidate that is not there.
pub open spec fn operation_for(state: PromptView, answer: AnswerView) -> Option<OperationView> {
    match state {
        PromptView::MainMenu => match answer {
            AnswerView::Main(MainMenuOptions::AddEntry) => Some(
                OperationView::SkipToPrompt(PromptView::AddEntry),
            ),
            AnswerView::Main(MainMenuOptions::ShowEntries) => Some(OperationView::ListEntries),
            AnswerView::Main(MainMenuOptions::Exit) => Some(OperationView::Exit),
            _ => None,
        },
        PromptView::AddEntry => match answer {
            AnswerView::NewEntry { title, description, due_date } => if title.len() > 0
                && description.len() > 0 {
                Some(OperationView::AddEntry { title, description, due_date })
            } else {
                None
            },
            _ => None,
        },
        PromptView::SelectEntry(candidates) => if candidates.len() == 0 {
            Some(OperationView::SkipToPrompt(PromptView::MainMenu))
        } else {
            match answer {
                AnswerView::Picked(Some(index)) => if index < candidates.len() {
                    Some(
                        OperationView::SkipToPrompt(PromptView::InfoPage(candidates[index as int])),
                    )
                } else {
                    None
                },
                AnswerView::Picked(None) => Some(
                    OperationView::SkipToPrompt(PromptView::MainMenu),
                ),
                _ => None,
            }
        },
        PromptView::EntryEditMenu(entry) => match answer {
            AnswerView::Edit(EntryEditOptions::ChangeTitle) => Some(
                OperationView::SkipToPrompt(PromptView::ChangeTitle(entry)),
            ),
            AnswerView::Edit(EntryEditOptions::ChangeDescription) => Some(
                OperationView::SkipToPrompt(PromptView::ChangeDescription(entry)),
            ),
            AnswerView::Edit(EntryEditOptions::ToggleDone) => Some(
                OperationView::ToggleDone(entry),
            ),
            AnswerView::Edit(EntryEditOptions::ReturnToMainMenu) => Some(
                OperationView::SkipToPrompt(PromptView::MainMenu),
            ),
            _ => None,
        },
        PromptView::InfoPage(entry) => match answer {
            AnswerView::Info(InfoPageOptions::EditEntry) => Some(
                OperationView::SkipToPrompt(PromptView::EntryEditMenu(entry)),
            ),
            AnswerView::Info(InfoPageOptions::DeleteEntry) => Some(
                OperationView::DeleteEntry(entry),
            ),
            AnswerView::Info(InfoPageOptions::ReturnToMainMenu) => Some(
                OperationView::SkipToPrompt(PromptView::MainMenu),
            ),
            _ => None,
        },
        PromptView::ChangeTitle(entry) => match answer {
            AnswerView::Text(text) => if text.len() > 0 {
                Some(OperationView::ChangeTitle(entry, text))
            } else {
                None
            },
            _ => None,
        },
        PromptView::ChangeDescription(entry) => match answer {
            AnswerView::Text(text) => if text.len() > 0 {
                Some(OperationView::ChangeDescription(entry, text))
            } else {
                None
            },
            _ => None,
        },
        PromptView::Exit => Some(OperationView::Exit),
    }
}

/// The state that follows an operation and the list after it, given what the
/// table gave back; `None` where that is not what the operation's own call to
/// the table gives.
pub open spec fn settled(operation: OperationView, stored: StoredView, before: Seq<EntryView>) -> Option<
    (PromptView, Seq<EntryView>),
> {
    match (operation, stored) {
        (OperationView::SkipToPrompt(prompt), StoredView::Untouched) => Some((prompt, before)),
        (OperationView::Exit, StoredView::Untouched) => Some((PromptView::Exit, before)),
        (OperationView::ListEntries, StoredView::Listed(entries)) => Some(
            (PromptView::SelectEntry(entries), before),
        ),
        (OperationView::AddEntry { .. }, StoredView::Created(entry)) => Some(
            (PromptView::MainMenu, before.push(entry)),
        ),
        (OperationView::ChangeDescription(entry, text), StoredView::Written) => Some(
            (PromptView::MainMenu, redescribed(before, entry.id, text)),
        ),
        (OperationView::ChangeTitle(entry, text), StoredView::Written) => Some(
            (PromptView::MainMenu, retitled(before, entry.id, text)),
        ),
        (OperationView::DeleteEntry(entry), StoredView::Written) => Some(
            (PromptView::MainMenu, without(before, entry.id)),
        ),
        (OperationView::ToggleDone(entry), StoredView::Written) => Some(
            (PromptView::MainMenu, toggled_at(before, entry.id)),
        ),
        _ => None,
    }
}

/// What an operation that succeeded has done: the state that follows, and the
/// list after it. A listing leads to the choice among what the table held and
/// leaves the list alone; an addition puts one task at the end, with the values
/// asked for, not done, its id and day of creation the table's.
pub open spec fn carried_out(
    operation: OperationView,
    before: Seq<EntryView>,
    next: PromptView,
    after: Seq<EntryView>,
) -> bool {
    match operation {
        OperationView::SkipToPrompt(prompt) => next == prompt && after == before,
        OperationView::ListEntries => next is SelectEntry && after == before,
        OperationView::AddEntry { title, description, due_date } => {
            &&& next == PromptView::MainMenu
            &&& after.len() == before.len() + 1
            &&& after.drop_last() == before
            &&& after.last().title == title
            &&& after.last().description == description
            &&& after.last().due_date == due_date
            &&& !after.last().is_done
        },
        OperationView::ChangeDescription(entry, text) => {
            &&& next == PromptView::MainMenu
            &&& after == redescribed(before, entry.id, text)
        },
        OperationView::ChangeTitle(entry, text) => {
            &&& next == PromptView::MainMenu
            &&& after == retitled(before, entry.id, text)
        },
        OperationView::DeleteEntry(entry) => {
            &&& next == PromptView::MainMenu
            &&& after == without(before, entry.id)
        },
        OperationView::ToggleDone(entry) => {
            &&& next == PromptView::MainMenu
            &&& after == toggled_at(before, entry.id)
        },
        OperationView::Exit => next == PromptView::Exit && after == before,
    }
}

/// The id that the list must hold for the operation to be carried out.
pub open spec fn edited_id(operation: OperationView) -> Option<usize> {
    match operation {
        OperationView::ChangeDescription(entry, _) => Some(entry.id),
        OperationView::ChangeTitle(entry, _) => Some(entry.id),
        OperationView::DeleteEntry(entry) => Some(entry.id),
        OperationView::ToggleDone(entry) => Some(entry.id),
        _ => None,
    }
}

/// Whether the operation goes to the table at all.
pub open spec fn uses_store(operation: OperationView) -> bool {
    !(operation is SkipToPrompt) && !(operation is Exit)
}

/// With no candidate to choose from, no choice is asked for, and whatever
/// comes back leads straight to the main menu.
pub proof fn empty_selection_returns_to_main_menu(answer: AnswerView)
    ensures
        question_for(PromptView::SelectEntry(Seq::empty())) == Question::NoEntries,
        operation_for(PromptView::SelectEntry(Seq::empty()), answer) == Some(
            OperationView::SkipToPrompt(PromptView::MainMenu),
        ),
{
}

/// An answer leads to the end of the session only from the main menu, by its
/// last choice, or where the session is over already.
pub proof fn only_the_main_menu_exits(state: PromptView, answer: AnswerView)
    requires
        operation_for(state, answer) == Some(OperationView::Exit),
    ensures
        state is Exit || (state is MainMenu && answer == AnswerView::Main(MainMenuOptions::Exit)),
{
}

/// An operation that changes a task comes only from a state that holds that
/// task, and a text that it carries is never empty.
pub proof fn operations_carry_the_entry_of_their_state(state: PromptView, answer: AnswerView)
    ensures
        match operation_for(state, answer) {
            Some(OperationView::ChangeTitle(entry, text)) => state == PromptView::ChangeTitle(
                entry,
            ) && text.len() > 0,
            Some(OperationView::ChangeDescription(entry, text)) => state
                == PromptView::ChangeDescription(entry) && text.len() > 0,
            Some(OperationView::ToggleDone(entry)) => state == PromptView::EntryEditMenu(entry),
            Some(OperationView::DeleteEntry(entry)) => state == PromptView::InfoPage(entry),
            Some(OperationView::AddEntry { title, description, .. }) => state is AddEntry
                && title.len() > 0 && description.len() > 0,
            _ => true,
        },
{
}

impl Prompts {
    /// Whether the session is over.
    pub fn is_exit(&self) -> (r: bool)
        ensures
            r == (self@ is Exit),
    {
        match self {
            Prompts::Exit => true,
            _ => false,
        }
    }

    /// What to ask the user in this state.
    pub fn question(&self) -> (r: Question)
        ensures
            r == question_for(self@),
    {
        match self {
            Prompts::MainMenu => Question::MainMenu,
            Prompts::AddEntry => Question::NewEntry,
            Prompts::SelectEntry(entries) => if entries.len() == 0 {
                Question::NoEntries
            } else {
                Question::PickEntry
            },
            Prompts::EntryEditMenu(_) => Question::EditMenu,
            Prompts::ChangeTitle(_) => Question::NewTitle,
            Prompts::ChangeDescription(_) => Question::NewDescription,
            Prompts::InfoPage(_) => Question::InfoPage,
            Prompts::Exit => Question::Nothing,
        }
    }

    /// The operation that the user's answer leads to in this state; `None`
    /// exactly where the answer is none that the state's question admits.
    pub fn prompt(self, answer: Answer) -> (r: Option<Operations>)
        ensures
            match r {
                Some(operation) => operation_for(self@, answer@) == Some(operation@),
                None => operation_for(self@, answer@) is None,
            },
    {
        match self {
            Prompts::MainMenu => match answer {
                Answer::Main(MainMenuOptions::AddEntry) => Some(
                    Operations::SkipToPrompt(Prompts::AddEntry),
                ),
                Answer::Main(MainMenuOptions::ShowEntries) => Some(Operations::ListEntries),
                Answer::Main(MainMenuOptions::Exit) => Some(Operations::Exit),
                _ => None,
            },
            Prompts::AddEntry => match answer {
                Answer::NewEntry { title, description, due_date } => {
                    if title.as_str().is_empty() || description.as_str().is_empty() {
                        None
                    } else {
                        Some(Operations::AddEntry { title, description, due_date })
                    }
                },
                _ => None,
            },
            Prompts::SelectEntry(entries) => {
                let mut entries = entries;
                if entries.len() == 0 {
                    Some(Operations::SkipToPrompt(Prompts::MainMenu))
                } else {
                    match answer {
                        Answer::Picked(Some(index)) => {
                            if index < entries.len() {
                                let entry = entries.remove(index);
                                Some(Operations::SkipToPrompt(Prompts::InfoPage(entry)))
                            } else {
                                None
                            }
                        },
                        Answer::Picked(None) => Some(Operations::SkipToPrompt(Prompts::MainMenu)),
                        _ => None,
                    }
                }
            },
            Prompts::EntryEditMenu(entry) => match answer {
                Answer::Edit(EntryEditOptions::ChangeTitle) => Some(
                    Operations::SkipToPrompt(Prompts::ChangeTitle(entry)),
                ),
                Answer::Edit(EntryEditOptions::ChangeDescription) => Some(
                    Operations::SkipToPrompt(Prompts::ChangeDescription(entry)),
                ),
                Answer::Edit(EntryEditOptions::ToggleDone) => Some(Operations::ToggleDone(entry)),
                Answer::Edit(EntryEditOptions::ReturnToMainMenu) => Some(
                    Operations::SkipToPrompt(Prompts::MainMenu),
                ),
                _ => None,
            },
            Prompts::InfoPage(entry) => match answer {
                Answer::Info(InfoPageOptions::EditEntry) => Some(
                    Operations::SkipToPrompt(Prompts::EntryEditMenu(entry)),
                ),
                Answer::Info(InfoPageOptions::DeleteEntry) => Some(Operations::DeleteEntry(entry)),
                Answer::Info(InfoPageOptions::ReturnToMainMenu) => Some(
                    Operations::SkipToPrompt(Prompts::MainMenu),
                ),
                _ => None,
            },
            Prompts::ChangeTitle(entry) => match answer {
                Answer::Text(text) => {
                    if text.as_str().is_empty() {
                        None
                    } else {
                        Some(Operations::ChangeTitle(entry, text))
                    }
                },
                _ => None,
            },
            Prompts::ChangeDescription(entry) => match answer {
                Answer::Text(text) => {
                    if text.as_str().is_empty() {
                        None
                    } else {
                        Some(Operations::ChangeDescription(entry, text))
                    }
                },
                _ => None,
            },
            Prompts::Exit => Some(Operations::Exit),
        }
    }
}

impl Operations {
    /// The id that the list must hold for the operation to be carried out:
    /// that of the task to change or to delete, `None` for any other operation.
    pub fn edited_id(&self) -> (r: Option<usize>)
        ensures
            r == edited_id(self@),
    {
        match self {
            Operations::ChangeDescription(entry, _) => Some(entry.id),
            Operations::ChangeTitle(entry, _) => Some(entry.id),
            Operations::DeleteEntry(entry) => Some(entry.id),
            Operations::ToggleDone(entry) => Some(entry.id),
            _ => None,
        }
    }

    /// Brings the list up to date with what the table gave back for the
    /// operation, and gives the state that follows. `None`, and the list as it
    /// was, exactly where that is not what the operation's own call to the
    /// table gives.
    pub fn settle(self, stored: Stored, todo_list: &mut TodoList) -> (r: Option<Prompts>)
        requires
            edited_id(self@) matches Some(id) ==> has_id(old(todo_list)@, id),
        ensures
            match r {
                Some(next) => settled(self@, stored@, old(todo_list)@) == Some(
                    (next@, final(todo_list)@),
                ),
                None => settled(self@, stored@, old(todo_list)@) is None && final(todo_list)@
                    == old(todo_list)@,
            },
    {
        match (self, stored) {
            (Operations::SkipToPrompt(new_prompt), Stored::Untouched) => Some(new_prompt),
            (Operations::Exit, Stored::Untouched) => Some(Prompts::Exit),
            (Operations::ListEntries, Stored::Listed(entries)) => Some(
                Prompts::SelectEntry(entries),
            ),
            (Operations::AddEntry { .. }, Stored::Created(new_entry)) => {
                todo_list.append(new_entry);
                Some(Prompts::MainMenu)
            },
            (Operations::ChangeDescription(entry, new_description), Stored::Written) => {
                todo_list.change_description(entry.id, new_description);
                Some(Prompts::MainMenu)
            },
            (Operations::ChangeTitle(entry, new_title), Stored::Written) => {
                todo_list.change_title(entry.id, new_title);
                Some(Prompts::MainMenu)
            },
            (Operations::DeleteEntry(entry), Stored::Written) => {
                let _ = todo_list.remove(entry.id);
                Some(Prompts::MainMenu)
            },
            (Operations::ToggleDone(entry), Stored::Written) => {
                todo_list.toggle_done(entry.id);
                Some(Prompts::MainMenu)
            },
            _ => None,
        }
    }

    /// The task as the table is to know it: with the new title or the new
    /// description for a change of one, as it is for a flipped completion flag
    /// or a deletion; `None` for an operation that names no stored task.
    pub fn row_to_write(&self) -> (r: Option<TodoEntry>)
        ensures
            match self@ {
                OperationView::ChangeTitle(entry, text) => r matches Some(row) && row@
                    == entry.with_title(text),
                OperationView::ChangeDescription(entry, text) => r matches Some(row) && row@
                    == entry.with_description(text),
                OperationView::ToggleDone(entry) => r matches Some(row) && row@ == entry,
                OperationView::DeleteEntry(entry) => r matches Some(row) && row@ == entry,
                _ => r is None,
            },
    {
        match self {
            Operations::ChangeTitle(entry, new_title) => Some(
                TodoEntry::from_columns(
                    entry.id,
                    new_title.clone(),
                    entry.description.clone(),
                    entry.creation_date,
                    entry.due_date,
                    entry.is_done,
                ),
            ),
            Operations::ChangeDescription(entry, new_description) => Some(
                TodoEntry::from_columns(
                    entry.id,
                    entry.title.clone(),
                    new_description.clone(),
                    entry.creation_date,
                    entry.due_date,
                    entry.is_done,
                ),
            ),
            Operations::ToggleDone(entry) => Some(
                TodoEntry::from_columns(
                    entry.id,
                    entry.title.clone(),
                    entry.description.clone(),
                    entry.creation_date,
                    entry.due_date,
                    entry.is_done,
                ),
            ),
            Operations::DeleteEntry(entry) => Some(
                TodoEntry::from_columns(
                    entry.id,
                    entry.title.clone(),
                    entry.description.clone(),
                    entry.creation_date,
                    entry.due_date,
                    entry.is_done,
                ),
            ),
            _ => None,
        }
    }

    /// Writes the operation to the table and says what the table gave back. A
    /// change of title or description is written with the new text; a flipped
    /// completion flag goes through the same update, which writes title and
    /// description only.
    pub fn store(&self, database: &mut Database) -> (r: Result<Stored, StoreError>)
        ensures
            match r {
                Ok(stored) => match self@ {
                    OperationView::SkipToPrompt(_) => stored@ == StoredView::Untouched,
                    OperationView::Exit => stored@ == StoredView::Untouched,
                    OperationView::ListEntries => stored@ is Listed,
                    OperationView::AddEntry { title, description, due_date } => {
                        &&& stored@ matches StoredView::Created(entry)
                        &&& entry.title == title
                        &&& entry.description == description
                        &&& entry.due_date == due_date
                        &&& !entry.is_done
                    },
                    _ => stored@ == StoredView::Written,
                },
                Err(error) => error is Query && uses_store(self@),
            },
    {
        match self {
            Operations::SkipToPrompt(_) => Ok(Stored::Untouched),
            Operations::Exit => Ok(Stored::Untouched),
            Operations::ListEntries => match database.get_all_entries() {
                Ok(entries) => Ok(Stored::Listed(entries)),
                Err(error) => Err(error),
            },
            Operations::AddEntry { title, description, due_date } => {
                match database.insert_entry(title.clone(), description.clone(), *due_date) {
                    Ok(entry) => Ok(Stored::Created(entry)),
                    Err(error) => Err(error),
                }
            },
            Operations::DeleteEntry(_) => match self.row_to_write() {
                Some(row) => match database.remove_from_database(&row) {
                    Ok(_) => Ok(Stored::Written),
                    Err(error) => Err(error),
                },
                None => unreached(),
            },
            _ => match self.row_to_write() {
                Some(row) => match database.update_database(&row) {
                    Ok(_) => Ok(Stored::Written),
                    Err(error) => Err(error),
                },
                None => unreached(),
            },
        }
    }

    /// Carries the operation out, on the table first and on the list second,
    /// and gives the state that follows. Where the table fails, the list is
    /// as it was. An operation that does not go to the table cannot fail.
    ///
    /// A change of title or description is written to the table and to the
    /// list. A flipped completion flag reaches the list; the table's update
    /// writes title and description only. A change or a deletion needs the
    /// task's id in the list.
    pub fn operate(self, database: &mut Database, todo_list: &mut TodoList) -> (r: Result<
        Prompts,
        StoreError,
    >)
        requires
            edited_id(self@) matches Some(id) ==> has_id(old(todo_list)@, id),
        ensures
            match r {
                Ok(next) => {
                    &&& carried_out(self@, old(todo_list)@, next@, final(todo_list)@)
                    &&& !(self@ is AddEntry) && distinct_ids(old(todo_list)@) ==> distinct_ids(
                        final(todo_list)@,
                    )
                },
                Err(error) => {
                    &&& error is Query
                    &&& uses_store(self@)
                    &&& final(todo_list)@ == old(todo_list)@
                },
            },
    {
        let ghost before = todo_list@;
        let stored = match self.store(database) {
            Ok(stored) => stored,
            Err(error) => { return Err(error); },
        };
        proof {
            if let Some(id) = edited_id(self@) {
                edits_keep_the_ids(before, id, Seq::empty());
                if distinct_ids(before) {
                    removed_id_is_gone(before, id);
                }
            }
            match self@ {
                OperationView::ChangeTitle(entry, text) => {
                    edits_keep_the_ids(before, entry.id, text);
                },
                OperationView::ChangeDescription(entry, text) => {
                    edits_keep_the_ids(before, entry.id, text);
                },
                _ => {},
            }
        }
        match self.settle(stored, todo_list) {
            Some(next) => {
                assert(self@ is AddEntry ==> todo_list@.drop_last() =~= before);
                Ok(next)
            },
            None => unreached(),
        }
    }
}

} // verus!
