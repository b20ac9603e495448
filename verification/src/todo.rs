//! The task record and the in-memory list of tasks.

use vstd::prelude::*;
use vstd::pervasive::unreached;
use chrono::NaiveDate;
use crate::text::{date_text, date_to_string, decimal_text, number_to_string};

verus! {

/// One task.
#[derive(Debug)]
pub struct TodoEntry {
    pub id: usize,
    pub title: String,
    pub description: String,
    pub creation_date: NaiveDate,
    pub due_date: Option<NaiveDate>,
    pub is_done: bool,
}

/// What a task is, as a mathematical value.
pub ghost struct EntryView {
    pub id: usize,
    pub title: Seq<char>,
    pub description: Seq<char>,
    pub creation_date: NaiveDate,
    pub due_date: Option<NaiveDate>,
    pub is_done: bool,
}

impl View for TodoEntry {
    type V = EntryView;

    open spec fn view(&self) -> EntryView {
        EntryView {
            id: self.id,
            title: self.title@,
            description: self.description@,
            creation_date: self.creation_date,
            due_date: self.due_date,
            is_done: self.is_done,
        }
    }
}

/// "Done" or "Pending".
pub open spec fn status_text(is_done: bool) -> Seq<char> {
    if is_done { "Done"@ } else { "Pending"@ }
}

/// The due date as text, or the words that stand for its absence.
pub open spec fn due_text(due_date: Option<NaiveDate>) -> Seq<char> {
    match due_date {
        Some(date) => date_text(date),
        None => "No Due Date"@,
    }
}

impl EntryView {
    /// The task with another title.
    pub open spec fn with_title(self, title: Seq<char>) -> EntryView {
        EntryView { title, ..self }
    }

    /// The task with another description.
    pub open spec fn with_description(self, description: Seq<char>) -> EntryView {
        EntryView { description, ..self }
    }

    /// The task with its completion flag flipped.
    pub open spec fn toggled(self) -> EntryView {
        EntryView { is_done: !self.is_done, ..self }
    }

    /// The one-line summary under which a task is offered for selection.
    pub open spec fn label(self) -> Seq<char> {
        "ID: "@ + decimal_text(self.id as nat) + ", Title: "@ + self.title + ", Status: "@
            + status_text(self.is_done) + "\nDescription: "@ + self.description
    }

    /// The full page shown for a task.
    pub open spec fn info(self) -> Seq<char> {
        "ID: "@ + decimal_text(self.id as nat) + "\nTitle: "@ + self.title + "\nDescription: "@
            + self.description + "\nDue Date: "@ + due_text(self.due_date) + "\nStatus: "@
            + status_text(self.is_done) + "\n"@
    }
}

impl TodoEntry {
    /// A pending task with the given fields.
    pub fn new(
        id: usize,
        title: String,
        description: String,
        creation_date: NaiveDate,
        due_date: Option<NaiveDate>,
    ) -> (r: TodoEntry)
        ensures
            r@ == (EntryView {
                id,
                title: title@,
                description: description@,
                creation_date,
                due_date,
                is_done: false,
            }),
    {
        TodoEntry { id, title, description, creation_date, due_date, is_done: false }
    }

    /// A task with every field given, as read back from a stored row.
    pub fn from_columns(
        id: usize,
        title: String,
        description: String,
        creation_date: NaiveDate,
        due_date: Option<NaiveDate>,
        is_done: bool,
    ) -> (r: TodoEntry)
        ensures
            r@ == (EntryView {
                id,
                title: title@,
                description: description@,
                creation_date,
                due_date,
                is_done,
            }),
    {
        TodoEntry { id, title, description, creation_date, due_date, is_done }
    }

    pub fn change_title(&mut self, new_title: String)
        ensures
            final(self)@ == old(self)@.with_title(new_title@),
    {
        self.title = new_title;
    }

    pub fn change_description(&mut self, new_description: String)
        ensures
            final(self)@ == old(self)@.with_description(new_description@),
    {
        self.description = new_description;
    }

    pub fn toggle_done(&mut self)
        ensures
            final(self)@ == old(self)@.toggled(),
    {
        self.is_done = !self.is_done;
    }

    /// The one-line summary under which the task is offered for selection.
    pub fn label(&self) -> (r: String)
        ensures
            r@ == self@.label(),
    {
        let mut out = String::new();
        out.push_str("ID: ");
        out.push_str(number_to_string(self.id).as_str());
        out.push_str(", Title: ");
        out.push_str(self.title.as_str());
        out.push_str(", Status: ");
        out.push_str(if self.is_done { "Done" } else { "Pending" });
        out.push_str("\nDescription: ");
        out.push_str(self.description.as_str());
        assert(out@ == self@.label()) by {
            assert(Seq::<char>::empty() + "ID: "@ =~= "ID: "@);
        }
        out
    }

    /// The full page shown for the task.
    pub fn info_text(&self) -> (r: String)
        ensures
            r@ == self@.info(),
    {
        let mut out = String::new();
        out.push_str("ID: ");
        out.push_str(number_to_string(self.id).as_str());
        out.push_str("\nTitle: ");
        out.push_str(self.title.as_str());
        out.push_str("\nDescription: ");
        out.push_str(self.description.as_str());
        out.push_str("\nDue Date: ");
        match self.due_date {
            Some(date) => out.push_str(date_to_string(date).as_str()),
            None => out.push_str("No Due Date"),
        }
        out.push_str("\nStatus: ");
        out.push_str(if self.is_done { "Done" } else { "Pending" });
        out.push_str("\n");
        assert(out@ == self@.info()) by {
            assert(Seq::<char>::empty() + "ID: "@ =~= "ID: "@);
        }
        out
    }
}

/// The tasks in memory, in the order in which the table hands them out.
pub struct TodoList {
    pub list: Vec<TodoEntry>,
}

/// The tasks behind a vector, one mathematical value each.
pub open spec fn entry_views(entries: Seq<TodoEntry>) -> Seq<EntryView> {
    Seq::new(entries.len(), |i: int| entries[i]@)
}

impl View for TodoList {
    type V = Seq<EntryView>;

    open spec fn view(&self) -> Seq<EntryView> {
        entry_views(self.list@)
    }
}

/// The least index at or after `start` whose task has the id, or the length
/// where there is none.
pub open spec fn position_from(entries: Seq<EntryView>, id: usize, start: int) -> int
    decreases entries.len() - start,
{
    if start < 0 || start >= entries.len() {
        entries.len() as int
    } else if entries[start].id == id {
        start
    } else {
        position_from(entries, id, start + 1)
    }
}

/// The index of the first task with the id, or the length where there is none.
pub open spec fn position_of(entries: Seq<EntryView>, id: usize) -> int {
    position_from(entries, id, 0)
}

/// Whether some task has the id.
pub open spec fn has_id(entries: Seq<EntryView>, id: usize) -> bool {
    position_of(entries, id) < entries.len()
}

/// No two tasks share an id.
pub open spec fn distinct_ids(entries: Seq<EntryView>) -> bool {
    forall|i: int, j: int|
        0 <= i < entries.len() && 0 <= j < entries.len() && i != j
            ==> #[trigger] entries[i].id != #[trigger] entries[j].id
}

/// The list after the first task with the id got another title.
pub open spec fn retitled(entries: Seq<EntryView>, id: usize, title: Seq<char>) -> Seq<EntryView>
    recommends
        has_id(entries, id),
{
    let at = position_of(entries, id);
    entries.update(at, entries[at].with_title(title))
}

/// The list after the first task with the id got another description.
pub open spec fn redescribed(entries: Seq<EntryView>, id: usize, description: Seq<char>) -> Seq<
    EntryView,
>
    recommends
        has_id(entries, id),
{
    let at = position_of(entries, id);
    entries.update(at, entries[at].with_description(description))
}

/// The list after the completion flag of the first task with the id was flipped.
pub open spec fn toggled_at(entries: Seq<EntryView>, id: usize) -> Seq<EntryView>
    recommends
        has_id(entries, id),
{
    let at = position_of(entries, id);
    entries.update(at, entries[at].toggled())
}

/// The list without the first task with the id.
pub open spec fn without(entries: Seq<EntryView>, id: usize) -> Seq<EntryView>
    recommends
        has_id(entries, id),
{
    entries.remove(position_of(entries, id))
}

/// What `position_from` finds: the first match at or after `start`.
pub proof fn position_from_is_first(entries: Seq<EntryView>, id: usize, start: int)
    requires
        0 <= start <= entries.len(),
    ensures
        start <= position_from(entries, id, start) <= entries.len(),
        position_from(entries, id, start) < entries.len() ==> entries[position_from(
            entries,
            id,
            start,
        )].id == id,
        forall|k: int| start <= k < position_from(entries, id, start) ==> entries[k].id != id,
    decreases entries.len() - start,
{
    if start < entries.len() && entries[start].id != id {
        position_from_is_first(entries, id, start + 1);
    }
}

/// An id is present exactly when some task carries it, and `position_of` is
/// then the index of the first such task.
pub proof fn position_of_is_first(entries: Seq<EntryView>, id: usize)
    ensures
        0 <= position_of(entries, id) <= entries.len(),
        has_id(entries, id) <==> exists|k: int| 0 <= k < entries.len() && entries[k].id == id,
        has_id(entries, id) ==> entries[position_of(entries, id)].id == id,
        forall|k: int| 0 <= k < position_of(entries, id) ==> entries[k].id != id,
{
    position_from_is_first(entries, id, 0);
}

impl TodoList {
    /// The empty list.
    pub fn new() -> (r: TodoList)
        ensures
            r@ == Seq::<EntryView>::empty(),
    {
        let r = TodoList { list: Vec::<TodoEntry>::new() };
        assert(r@ =~= Seq::<EntryView>::empty());
        r
    }

    /// The list that holds exactly the given tasks, in their order.
    pub fn from_vec(list: Vec<TodoEntry>) -> (r: TodoList)
        ensures
            r@ == entry_views(list@),
            r.list == list,
    {
        TodoList { list }
    }

    /// The index of the first task with the id, if there is one.
    pub fn position(&self, id: usize) -> (r: Option<usize>)
        ensures
            match r {
                Some(at) => has_id(self@, id) && at == position_of(self@, id),
                None => !has_id(self@, id),
            },
    {
        let mut i: usize = 0;
        while i < self.list.len()
            invariant
                0 <= i <= self.list.len(),
                self@.len() == self.list.len(),
                position_of(self@, id) == position_from(self@, id, i as int),
            decreases self.list.len() - i,
        {
            if self.list[i].id == id {
                return Some(i);
            }
            i += 1;
        }
        None
    }

    /// The first task with the id, to be changed in place; `None` where no
    /// task has it. Whatever the caller writes lands at that task's place and
    /// nowhere else.
    pub fn get_mut_by_id(&mut self, id: usize) -> (r: Option<&mut TodoEntry>)
        ensures
            match r {
                Some(entry) => {
                    &&& has_id(old(self)@, id)
                    &&& *entry == old(self).list@[position_of(old(self)@, id)]
                    &&& final(self).list@ == old(self).list@.update(
                        position_of(old(self)@, id),
                        *final(entry),
                    )
                },
                None => !has_id(old(self)@, id) && *final(self) == *old(self),
            },
    {
        match self.position(id) {
            Some(at) => Some(&mut self.list[at]),
            None => None,
        }
    }

    /// Gives the first task with the id another title.
    pub fn change_title(&mut self, id: usize, new_title: String)
        requires
            has_id(old(self)@, id),
        ensures
            final(self)@ == retitled(old(self)@, id, new_title@),
            distinct_ids(old(self)@) ==> distinct_ids(final(self)@),
    {
        proof {
            position_of_is_first(self@, id);
            edits_keep_the_ids(self@, id, new_title@);
        }
        let ghost at = position_of(self@, id);
        match self.get_mut_by_id(id) {
            Some(found) => {
                found.change_title(new_title);
            },
            None => {},
        }
        assert(self.list@[at]@ == old(self)@[at].with_title(new_title@));
        assert(self@ =~= retitled(old(self)@, id, new_title@));
    }

    /// Gives the first task with the id another description.
    pub fn change_description(&mut self, id: usize, new_description: String)
        requires
            has_id(old(self)@, id),
        ensures
            final(self)@ == redescribed(old(self)@, id, new_description@),
            distinct_ids(old(self)@) ==> distinct_ids(final(self)@),
    {
        proof {
            position_of_is_first(self@, id);
            edits_keep_the_ids(self@, id, new_description@);
        }
        let ghost at = position_of(self@, id);
        match self.get_mut_by_id(id) {
            Some(found) => {
                found.change_description(new_description);
            },
            None => {},
        }
        assert(self.list@[at]@ == old(self)@[at].with_description(new_description@));
        assert(self@ =~= redescribed(old(self)@, id, new_description@));
    }

    /// Flips the completion flag of the first task with the id.
    pub fn toggle_done(&mut self, id: usize)
        requires
            has_id(old(self)@, id),
        ensures
            final(self)@ == toggled_at(old(self)@, id),
            distinct_ids(old(self)@) ==> distinct_ids(final(self)@),
    {
        proof {
            position_of_is_first(self@, id);
            edits_keep_the_ids(self@, id, Seq::empty());
        }
        let ghost at = position_of(self@, id);
        match self.get_mut_by_id(id) {
            Some(found) => {
                found.toggle_done();
            },
            None => {},
        }
        assert(self.list@[at]@ == old(self)@[at].toggled());
        assert(self@ =~= toggled_at(old(self)@, id));
    }

    /// Adds a task at the end.
    pub fn append(&mut self, entry: TodoEntry)
        ensures
            final(self)@ == old(self)@.push(entry@),
    {
        self.list.push(entry);
        assert(self@ =~= old(self)@.push(entry@));
    }

    /// Takes out the first task with the id and hands it back.
    pub fn remove(&mut self, id: usize) -> (r: TodoEntry)
        requires
            has_id(old(self)@, id),
        ensures
            final(self)@ == without(old(self)@, id),
            r@ == old(self)@[position_of(old(self)@, id)],
            distinct_ids(old(self)@) ==> !has_id(final(self)@, id) && distinct_ids(final(self)@),
    {
        proof {
            if distinct_ids(self@) {
                removed_id_is_gone(self@, id);
            }
        }
        match self.position(id) {
            Some(at) => {
                let r = self.list.remove(at);
                assert(self@ =~= without(old(self)@, id));
                r
            },
            None => unreached(),
        }
    }
}

/// Changing the title of the task with an id changes that title and nothing
/// else: the length, every other task and every other field stay.
pub proof fn retitle_changes_only_the_title(entries: Seq<EntryView>, id: usize, title: Seq<char>)
    requires
        has_id(entries, id),
    ensures
        retitled(entries, id, title).len() == entries.len(),
        retitled(entries, id, title)[position_of(entries, id)] == (EntryView {
            title,
            ..entries[position_of(entries, id)]
        }),
        forall|k: int|
            0 <= k < entries.len() && k != position_of(entries, id) ==> retitled(
                entries,
                id,
                title,
            )[k] == entries[k],
        position_of(retitled(entries, id, title), id) == position_of(entries, id),
{
    position_of_is_first(entries, id);
    let after = retitled(entries, id, title);
    position_of_is_first(after, id);
    let at = position_of(entries, id);
    assert(after[at].id == id);
    if position_of(after, id) < at {
        assert(entries[position_of(after, id)].id != id);
    }
}

/// Changing the description of the task with an id changes that description
/// and nothing else.
pub proof fn redescribe_changes_only_the_description(
    entries: Seq<EntryView>,
    id: usize,
    description: Seq<char>,
)
    requires
        has_id(entries, id),
    ensures
        redescribed(entries, id, description).len() == entries.len(),
        redescribed(entries, id, description)[position_of(entries, id)] == (EntryView {
            description,
            ..entries[position_of(entries, id)]
        }),
        forall|k: int|
            0 <= k < entries.len() && k != position_of(entries, id) ==> redescribed(
                entries,
                id,
                description,
            )[k] == entries[k],
{
    position_of_is_first(entries, id);
}

/// No change of a title, of a description or of a completion flag touches an
/// id: each task keeps its own, so ids that were distinct stay distinct.
pub proof fn edits_keep_the_ids(entries: Seq<EntryView>, id: usize, text: Seq<char>)
    requires
        has_id(entries, id),
    ensures
        forall|k: int|
            0 <= k < entries.len() ==> {
                &&& (#[trigger] retitled(entries, id, text)[k]).id == entries[k].id
                &&& (#[trigger] redescribed(entries, id, text)[k]).id == entries[k].id
                &&& (#[trigger] toggled_at(entries, id)[k]).id == entries[k].id
                &&& retitled(entries, id, text)[k].creation_date == entries[k].creation_date
                &&& redescribed(entries, id, text)[k].creation_date == entries[k].creation_date
                &&& toggled_at(entries, id)[k].creation_date == entries[k].creation_date
            },
        distinct_ids(entries) ==> distinct_ids(retitled(entries, id, text)) && distinct_ids(
            redescribed(entries, id, text),
        ) && distinct_ids(toggled_at(entries, id)),
{
    position_of_is_first(entries, id);
}

/// Flipping the completion flag of the task with an id twice gives the list back.
pub proof fn toggle_twice_restores_the_list(entries: Seq<EntryView>, id: usize)
    requires
        has_id(entries, id),
    ensures
        has_id(toggled_at(entries, id), id),
        toggled_at(toggled_at(entries, id), id) == entries,
{
    position_of_is_first(entries, id);
    let once = toggled_at(entries, id);
    position_of_is_first(once, id);
    let at = position_of(entries, id);
    assert(once[at].id == id);
    if position_of(once, id) < at {
        assert(entries[position_of(once, id)].id != id);
    }
    assert(position_of(once, id) == at);
    assert(toggled_at(once, id) =~= entries);
}

/// Where no two tasks share an id, a removed id is gone, and every other task
/// stays, in its order.
pub proof fn removed_id_is_gone(entries: Seq<EntryView>, id: usize)
    requires
        has_id(entries, id),
        distinct_ids(entries),
    ensures
        !has_id(without(entries, id), id),
        without(entries, id).len() == entries.len() - 1,
        forall|k: int|
            0 <= k < position_of(entries, id) ==> without(entries, id)[k] == entries[k],
        forall|k: int|
            position_of(entries, id) <= k < entries.len() - 1 ==> without(entries, id)[k]
                == entries[k + 1],
        distinct_ids(without(entries, id)),
{
    position_of_is_first(entries, id);
    let rest = without(entries, id);
    let at = position_of(entries, id);
    position_of_is_first(rest, id);
    if has_id(rest, id) {
        let k = position_of(rest, id);
        if k < at {
            assert(entries[k].id == id);
        } else {
            assert(entries[k + 1].id == id);
        }
    }
    assert forall|i: int, j: int|
        0 <= i < rest.len() && 0 <= j < rest.len() && i != j implies #[trigger] rest[i].id
        != #[trigger] rest[j].id by {
        let a = if i < at { i } else { i + 1 };
        let b = if j < at { j } else { j + 1 };
        assert(rest[i] == entries[a]);
        assert(rest[j] == entries[b]);
    }
}

/// Removing one id leaves every other id as present, or as absent, as it was.
pub proof fn removal_keeps_other_ids(entries: Seq<EntryView>, id: usize, other: usize)
    requires
        has_id(entries, id),
        other != id,
    ensures
        has_id(without(entries, id), other) == has_id(entries, other),
{
    position_of_is_first(entries, id);
    position_of_is_first(entries, other);
    let rest = without(entries, id);
    let at = position_of(entries, id);
    position_of_is_first(rest, other);
    if has_id(entries, other) {
        let k = position_of(entries, other);
        let m = if k < at { k } else { k - 1 };
        assert(rest[m].id == other);
    }
    if has_id(rest, other) {
        let k = position_of(rest, other);
        let m = if k < at { k } else { k + 1 };
        assert(entries[m].id == other);
    }
}

/// Flipping the completion flag twice gives the task back.
pub proof fn toggle_twice_restores(entry: EntryView)
    ensures
        entry.toggled().toggled() == entry,
        entry.toggled().is_done != entry.is_done,
{
}

} // verus!
