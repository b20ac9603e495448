//! The durable table of tasks, kept in an SQLite database.

use vstd::prelude::*;
use chrono::NaiveDate;
use rusqlite::{Connection, Row};
use crate::todo::{EntryView, TodoEntry};

verus! {

/// `rusqlite::Connection`, an open database. What the database holds is not
/// visible to proofs.
#[verifier::external_type_specification]
#[verifier::external_body]
pub struct ExConnection(rusqlite::Connection);

/// `rusqlite::Error`, carried to the caller as it came.
#[verifier::external_type_specification]
#[verifier::external_body]
pub struct ExSqlError(rusqlite::Error);

/// `rusqlite::Row`, one row of a running query.
#[verifier::external_type_specification]
#[verifier::external_body]
pub struct ExRow<'stmt>(rusqlite::Row<'stmt>);

/// Why the table could not be used.
#[derive(Debug)]
pub enum StoreError {
    /// The database could not be opened or created.
    Open(rusqlite::Error),
    /// A statement against the table failed.
    Query(rusqlite::Error),
}

/// The table's schema; a database that already has the table is left as it is.
/// Ids are handed out in increasing order and never a second time.
pub const CREATE_TABLE_SQL: &'static str = "CREATE TABLE IF NOT EXISTS ENTRIES(
                                ID INTEGER PRIMARY KEY AUTOINCREMENT,
                                TITLE TEXT NOT NULL,
                                DESCRIPTION TEXT NOT NULL,
                                CREATION_DATE TEXT NOT NULL,
                                DUE_DATE TEXT,
                                ISDONE INTEGER NOT NULL)";

pub const SELECT_ALL_SQL: &'static str =
    "SELECT ID, TITLE, DESCRIPTION, CREATION_DATE, DUE_DATE, ISDONE
                                     FROM ENTRIES";

pub const SELECT_RANGE_SQL: &'static str =
    "SELECT ID, TITLE, DESCRIPTION, CREATION_DATE, DUE_DATE, ISDONE
                                     FROM ENTRIES
                                     LIMIT ?1
                                     OFFSET ?2";

pub const UPDATE_SQL: &'static str = "UPDATE ENTRIES
                                     SET TITLE = ?1,
                                     DESCRIPTION = ?2
                                     WHERE ID = ?3";

pub const INSERT_SQL: &'static str =
    "INSERT INTO ENTRIES(TITLE, DESCRIPTION, CREATION_DATE, DUE_DATE, ISDONE)
                                     VALUES(?1, ?2, ?3, ?4, ?5)";

pub const LAST_ID_SQL: &'static str = "SELECT last_insert_rowid()";

pub const DELETE_SQL: &'static str = "DELETE FROM ENTRIES
                                     WHERE ID = ?1";

/// What the insert statement is given: the five columns of a new row. The
/// id is the table's to give.
#[derive(Debug)]
pub struct NewRow {
    pub title: String,
    pub description: String,
    pub creation_date: NaiveDate,
    pub due_date: Option<NaiveDate>,
    pub is_done: bool,
}

/// What the update statement is given: the two columns that it writes, and
/// the id of the row.
#[derive(Debug)]
pub struct UpdateParameters {
    pub title: String,
    pub description: String,
    pub id: usize,
}

/// What the delete statement is given: the id of the row.
#[derive(Debug, Clone, Copy, PartialEq, Eq, Structural)]
pub struct DeleteParameters {
    pub id: usize,
}

/// What the page query is given: how many rows at most, and how many to pass
/// over first.
#[derive(Debug, Clone, Copy, PartialEq, Eq, Structural)]
pub struct PageParameters {
    pub limit: usize,
    pub offset: usize,
}

/// The row to write for a new task: the values as given, and not done.
pub fn new_row(
    title: String,
    description: String,
    creation_date: NaiveDate,
    due_date: Option<NaiveDate>,
) -> (r: NewRow)
    ensures
        r.title@ == title@,
        r.description@ == description@,
        r.creation_date == creation_date,
        r.due_date == due_date,
        !r.is_done,
{
    NewRow { title, description, creation_date, due_date, is_done: false }
}

/// What an update is given for a task: its title, its description, its id.
pub fn update_parameters(entry: &TodoEntry) -> (r: UpdateParameters)
    ensures
        r.title@ == entry.title@,
        r.description@ == entry.description@,
        r.id == entry.id,
{
    UpdateParameters {
        title: entry.title.clone(),
        description: entry.description.clone(),
        id: entry.id,
    }
}

/// What a deletion is given for a task: its id.
pub fn delete_parameters(entry: &TodoEntry) -> (r: DeleteParameters)
    ensures
        r.id == entry.id,
{
    DeleteParameters { id: entry.id }
}

/// What a page query is given: the number of tasks as the limit, the index of
/// the first as the offset.
pub fn page_parameters(start_index: usize, number_of_entries: usize) -> (r: PageParameters)
    ensures
        r.limit == number_of_entries,
        r.offset == start_index,
{
    PageParameters { limit: number_of_entries, offset: start_index }
}

/// Calls `Connection::open`. Whether it succeeds depends on the file system.
#[verifier::external_body]
fn open_connection(db_file: &str) -> (r: Result<Connection, rusqlite::Error>) {
    Connection::open(db_file)
}

/// Calls `Connection::execute` with no parameters. The outcome depends on
/// the database.
#[verifier::external_body]
fn execute_plain(connection: &Connection, sql: &str) -> (r: Result<usize, rusqlite::Error>) {
    connection.execute(sql, ())
}

/// Calls `Connection::execute` with the five values of a new row bound to the
/// statement's parameters: title, description, day of creation, due date and
/// completion flag, in this order.
#[verifier::external_body]
fn execute_insert(connection: &Connection, sql: &str, row: &NewRow) -> (r: Result<
    usize,
    rusqlite::Error,
>) {
    connection.execute(
        sql,
        (&row.title, &row.description, row.creation_date, row.due_date, row.is_done),
    )
}

/// Calls `Connection::execute` with the title, the description and the id
/// bound to the statement's parameters, in this order.
#[verifier::external_body]
fn execute_update(connection: &Connection, sql: &str, parameters: &UpdateParameters) -> (r: Result<
    usize,
    rusqlite::Error,
>) {
    connection.execute(sql, (&parameters.title, &parameters.description, parameters.id))
}

/// Calls `Connection::execute` with the id bound to the statement's only
/// parameter.
#[verifier::external_body]
fn execute_delete(connection: &Connection, sql: &str, parameters: &DeleteParameters) -> (r: Result<
    usize,
    rusqlite::Error,
>) {
    connection.execute(sql, (parameters.id,))
}

/// Calls `Connection::query_row` and reads the first column of the one row as
/// an id.
#[verifier::external_body]
fn query_id(connection: &Connection, sql: &str) -> (r: Result<usize, rusqlite::Error>) {
    connection.query_row(sql, (), |row| row.get(0))
}

/// Calls `Connection::prepare` and `Statement::query_map` without parameters,
/// and hands back what each row gave when it was read as a task, in the order
/// of the rows. A query that cannot be prepared or bound is the outer error.
#[verifier::external_body]
fn query_rows(connection: &Connection, sql: &str) -> (r: Result<
    Vec<Result<TodoEntry, rusqlite::Error>>,
    rusqlite::Error,
>) {
    let mut statement = connection.prepare(sql)?;
    let rows = statement.query_map((), |row| TodoEntry::from_row(row))?;
    Ok(rows.collect())
}

/// As `query_rows`, with the limit and the offset bound to the statement's
/// parameters, in this order.
#[verifier::external_body]
fn query_rows_bound(connection: &Connection, sql: &str, parameters: &PageParameters) -> (r: Result<
    Vec<Result<TodoEntry, rusqlite::Error>>,
    rusqlite::Error,
>) {
    let mut statement = connection.prepare(sql)?;
    let rows = statement
        .query_map((parameters.limit, parameters.offset), |row| TodoEntry::from_row(row))?;
    Ok(rows.collect())
}

/// What `Row::get` gives when the column at an index is read as a number.
pub uninterp spec fn number_cell(row: Row, index: usize) -> Result<usize, rusqlite::Error>;

/// What `Row::get` gives when the column at an index is read as a text.
pub uninterp spec fn text_cell(row: Row, index: usize) -> Result<Seq<char>, rusqlite::Error>;

/// What `Row::get` gives when the column at an index is read as a date.
pub uninterp spec fn date_cell(row: Row, index: usize) -> Result<NaiveDate, rusqlite::Error>;

/// What `Row::get` gives when the column at an index is read as a date that
/// may be absent.
pub uninterp spec fn optional_date_cell(row: Row, index: usize) -> Result<
    Option<NaiveDate>,
    rusqlite::Error,
>;

/// What `Row::get` gives when the column at an index is read as a flag.
pub uninterp spec fn flag_cell(row: Row, index: usize) -> Result<bool, rusqlite::Error>;

/// A text that was read, or the error, with the text as a sequence of
/// characters.
pub open spec fn text_view(outcome: Result<String, rusqlite::Error>) -> Result<
    Seq<char>,
    rusqlite::Error,
> {
    match outcome {
        Ok(text) => Ok(text@),
        Err(error) => Err(error),
    }
}

/// Calls `Row::get` for a number. A row is not changed by reading it, so the
/// outcome is a function of the row and the index; an index that the row does
/// not have, or a column of another type, is an error.
#[verifier::external_body]
fn column_number(row: &Row, index: usize) -> (r: Result<usize, rusqlite::Error>)
    ensures
        r == number_cell(*row, index),
{
    row.get(index)
}

/// Calls `Row::get` for a text; the outcome is a function of the row and the
/// index.
#[verifier::external_body]
fn column_text(row: &Row, index: usize) -> (r: Result<String, rusqlite::Error>)
    ensures
        text_view(r) == text_cell(*row, index),
{
    row.get(index)
}

/// Calls `Row::get` for a date; the outcome is a function of the row and the
/// index.
#[verifier::external_body]
fn column_date(row: &Row, index: usize) -> (r: Result<NaiveDate, rusqlite::Error>)
    ensures
        r == date_cell(*row, index),
{
    row.get(index)
}

/// Calls `Row::get` for a date that may be absent; the outcome is a function
/// of the row and the index.
#[verifier::external_body]
fn column_optional_date(row: &Row, index: usize) -> (r: Result<Option<NaiveDate>, rusqlite::Error>)
    ensures
        r == optional_date_cell(*row, index),
{
    row.get(index)
}

/// Calls `Row::get` for a flag; the outcome is a function of the row and the
/// index.
#[verifier::external_body]
fn column_flag(row: &Row, index: usize) -> (r: Result<bool, rusqlite::Error>)
    ensures
        r == flag_cell(*row, index),
{
    row.get(index)
}

/// Calls `chrono::Local::now` and takes its date: the local date of the
/// moment of the call.
#[verifier::external_body]
fn today() -> (r: NaiveDate) {
    chrono::Local::now().date_naive()
}

impl StoreError {
    /// A failure to open, as this library's error.
    pub fn on_open<T>(outcome: Result<T, rusqlite::Error>) -> (r: Result<T, StoreError>)
        ensures
            match outcome {
                Ok(value) => r == Ok::<T, StoreError>(value),
                Err(error) => r == Err::<T, StoreError>(StoreError::Open(error)),
            },
    {
        match outcome {
            Ok(value) => Ok(value),
            Err(error) => Err(StoreError::Open(error)),
        }
    }

    /// A failed statement, as this library's error.
    pub fn on_query<T>(outcome: Result<T, rusqlite::Error>) -> (r: Result<T, StoreError>)
        ensures
            match outcome {
                Ok(value) => r == Ok::<T, StoreError>(value),
                Err(error) => r == Err::<T, StoreError>(StoreError::Query(error)),
            },
    {
        match outcome {
            Ok(value) => Ok(value),
            Err(error) => Err(StoreError::Query(error)),
        }
    }

    /// The outcome of a statement that writes: done, however many rows it
    /// touched, or the failed statement as this library's error.
    pub fn on_write(outcome: Result<usize, rusqlite::Error>) -> (r: Result<(), StoreError>)
        ensures
            match outcome {
                Ok(_) => r == Ok::<(), StoreError>(()),
                Err(error) => r == Err::<(), StoreError>(StoreError::Query(error)),
            },
    {
        match outcome {
            Ok(_) => Ok(()),
            Err(error) => Err(StoreError::Query(error)),
        }
    }
}

/// The task that six columns read from a row make, or the error of the first
/// column, in the table's order, that could not be read.
pub open spec fn cells_view(
    id: Result<usize, rusqlite::Error>,
    title: Result<Seq<char>, rusqlite::Error>,
    description: Result<Seq<char>, rusqlite::Error>,
    creation_date: Result<NaiveDate, rusqlite::Error>,
    due_date: Result<Option<NaiveDate>, rusqlite::Error>,
    is_done: Result<bool, rusqlite::Error>,
) -> Result<EntryView, rusqlite::Error> {
    match (id, title, description, creation_date, due_date, is_done) {
        (Err(error), _, _, _, _, _) => Err(error),
        (_, Err(error), _, _, _, _) => Err(error),
        (_, _, Err(error), _, _, _) => Err(error),
        (_, _, _, Err(error), _, _) => Err(error),
        (_, _, _, _, Err(error), _) => Err(error),
        (_, _, _, _, _, Err(error)) => Err(error),
        (Ok(id), Ok(title), Ok(description), Ok(creation_date), Ok(due_date), Ok(is_done)) => Ok(
            EntryView { id, title, description, creation_date, due_date, is_done },
        ),
    }
}

/// `cells_view` of six columns as they were read.
pub open spec fn cells_entry(
    id: Result<usize, rusqlite::Error>,
    title: Result<String, rusqlite::Error>,
    description: Result<String, rusqlite::Error>,
    creation_date: Result<NaiveDate, rusqlite::Error>,
    due_date: Result<Option<NaiveDate>, rusqlite::Error>,
    is_done: Result<bool, rusqlite::Error>,
) -> Result<EntryView, rusqlite::Error> {
    cells_view(id, text_view(title), text_view(description), creation_date, due_date, is_done)
}

/// The task that a row of the table holds: its columns read in the table's
/// order, the id as a number, title and description as texts, the day of
/// creation as a date, the due date as a date that may be absent, the
/// completion flag as a flag; or the error of the first that cannot be read so.
pub open spec fn row_entry(row: Row) -> Result<EntryView, rusqlite::Error> {
    cells_view(
        number_cell(row, 0),
        text_cell(row, 1),
        text_cell(row, 2),
        date_cell(row, 3),
        optional_date_cell(row, 4),
        flag_cell(row, 5),
    )
}

impl TodoEntry {
    /// The task that six columns read from a row make: all six where each
    /// could be read, else the error of the first that could not.
    pub fn from_cells(
        id: Result<usize, rusqlite::Error>,
        title: Result<String, rusqlite::Error>,
        description: Result<String, rusqlite::Error>,
        creation_date: Result<NaiveDate, rusqlite::Error>,
        due_date: Result<Option<NaiveDate>, rusqlite::Error>,
        is_done: Result<bool, rusqlite::Error>,
    ) -> (r: Result<TodoEntry, rusqlite::Error>)
        ensures
            match r {
                Ok(entry) => cells_entry(id, title, description, creation_date, due_date, is_done)
                    == Ok::<EntryView, rusqlite::Error>(entry@),
                Err(error) => cells_entry(id, title, description, creation_date, due_date, is_done)
                    == Err::<EntryView, rusqlite::Error>(error),
            },
    {
        let id = match id {
            Ok(value) => value,
            Err(error) => { return Err(error); },
        };
        let title = match title {
            Ok(value) => value,
            Err(error) => { return Err(error); },
        };
        let description = match description {
            Ok(value) => value,
            Err(error) => { return Err(error); },
        };
        let creation_date = match creation_date {
            Ok(value) => value,
            Err(error) => { return Err(error); },
        };
        let due_date = match due_date {
            Ok(value) => value,
            Err(error) => { return Err(error); },
        };
        let is_done = match is_done {
            Ok(value) => value,
            Err(error) => { return Err(error); },
        };
        Ok(TodoEntry::from_columns(id, title, description, creation_date, due_date, is_done))
    }

    /// The task that a row of the table holds, its six columns read in the
    /// table's order: id, title, description, day of creation, due date,
    /// completion flag.
    pub fn from_row(row: &Row) -> (r: Result<TodoEntry, rusqlite::Error>)
        ensures
            match r {
                Ok(entry) => row_entry(*row) == Ok::<EntryView, rusqlite::Error>(entry@),
                Err(error) => row_entry(*row) == Err::<EntryView, rusqlite::Error>(error),
            },
    {
        TodoEntry::from_cells(
            column_number(row, 0),
            column_text(row, 1),
            column_text(row, 2),
            column_date(row, 3),
            column_optional_date(row, 4),
            column_flag(row, 5),
        )
    }
}

/// The least index at or after `start` of a row that could not be read, or
/// the length where each could.
pub open spec fn first_failure_from(
    outcomes: Seq<Result<TodoEntry, rusqlite::Error>>,
    start: int,
) -> int
    decreases outcomes.len() - start,
{
    if start < 0 || start >= outcomes.len() {
        outcomes.len() as int
    } else if outcomes[start] is Err {
        start
    } else {
        first_failure_from(outcomes, start + 1)
    }
}

/// The index of the first row that could not be read, or the length where
/// each could.
pub open spec fn first_failure(outcomes: Seq<Result<TodoEntry, rusqlite::Error>>) -> int {
    first_failure_from(outcomes, 0)
}

/// What `first_failure_from` finds: every row from `start` up to it was read,
/// and the row at it, if there is one, was not.
pub proof fn first_failure_from_is_first(
    outcomes: Seq<Result<TodoEntry, rusqlite::Error>>,
    start: int,
)
    requires
        0 <= start <= outcomes.len(),
    ensures
        start <= first_failure_from(outcomes, start) <= outcomes.len(),
        first_failure_from(outcomes, start) < outcomes.len() ==> outcomes[first_failure_from(
            outcomes,
            start,
        )] is Err,
        forall|k: int| start <= k < first_failure_from(outcomes, start) ==> outcomes[k] is Ok,
    decreases outcomes.len() - start,
{
    if start < outcomes.len() && outcomes[start] is Ok {
        first_failure_from_is_first(outcomes, start + 1);
    }
}

/// The table of tasks.
pub struct Database {
    pub connection: Connection,
}

impl Database {
    /// Opens the database at the path, creating it and the table where they
    /// do not exist yet. A database that cannot be opened is an `Open` error,
    /// a schema that cannot be set up a `Query` error.
    pub fn new(db_file: &str) -> (r: Result<Database, StoreError>)
        ensures
            r matches Err(error) ==> error is Open || error is Query,
    {
        let connection = match StoreError::on_open(open_connection(db_file)) {
            Ok(connection) => connection,
            Err(error) => { return Err(error); },
        };
        let schema = execute_plain(&connection, CREATE_TABLE_SQL);
        Database::opened(connection, schema)
    }

    /// The table behind a connection on which the schema was set up, or the
    /// failure to set it up.
    pub fn opened(connection: Connection, schema: Result<usize, rusqlite::Error>) -> (r: Result<
        Database,
        StoreError,
    >)
        ensures
            match schema {
                Ok(_) => r matches Ok(database) && database.connection == connection,
                Err(error) => r matches Err(StoreError::Query(cause)) && cause == error,
            },
    {
        match schema {
            Ok(_) => Ok(Database { connection }),
            Err(error) => Err(StoreError::Query(error)),
        }
    }

    pub fn get_connection(&self) -> (r: &Connection)
        ensures
            *r == self.connection,
    {
        &self.connection
    }

    /// Every task of the table, in the table's own order.
    pub fn get_all_entries(&mut self) -> (r: Result<Vec<TodoEntry>, StoreError>)
        ensures
            r matches Err(error) ==> error is Query,
    {
        StoreError::on_query(Database::gathered(query_rows(&self.connection, SELECT_ALL_SQL)))
    }

    /// Up to `number_of_entries` tasks, starting after the first
    /// `start_index` ones, in the table's own order.
    pub fn get_entries_by_range(&mut self, start_index: usize, number_of_entries: usize) -> (r:
        Result<Vec<TodoEntry>, StoreError>)
        ensures
            match r {
                Ok(entries) => entries.len() <= number_of_entries,
                Err(error) => error is Query,
            },
    {
        let parameters = page_parameters(start_index, number_of_entries);
        Database::paged(
            Database::gathered(query_rows_bound(&self.connection, SELECT_RANGE_SQL, &parameters)),
            number_of_entries,
        )
    }

    /// The tasks of a query whose rows were each read: all of them, in the
    /// order of the rows. The first row that could not be read gives its
    /// error, as does a query that could not be run.
    pub fn gathered(
        outcome: Result<Vec<Result<TodoEntry, rusqlite::Error>>, rusqlite::Error>,
    ) -> (r: Result<Vec<TodoEntry>, rusqlite::Error>)
        ensures
            match outcome {
                Err(error) => r == Err::<Vec<TodoEntry>, rusqlite::Error>(error),
                Ok(outcomes) => match r {
                    Ok(entries) => {
                        &&& first_failure(outcomes@) == outcomes.len()
                        &&& entries.len() == outcomes.len()
                        &&& forall|i: int|
                            0 <= i < entries.len() ==> outcomes@[i] == Ok::<
                                TodoEntry,
                                rusqlite::Error,
                            >(#[trigger] entries@[i])
                    },
                    Err(error) => {
                        &&& first_failure(outcomes@) < outcomes.len()
                        &&& outcomes@[first_failure(outcomes@)] == Err::<
                            TodoEntry,
                            rusqlite::Error,
                        >(error)
                    },
                },
            },
    {
        let mut outcomes = match outcome {
            Ok(outcomes) => outcomes,
            Err(error) => { return Err(error); },
        };
        let ghost rows = outcomes@;
        let mut reversed: Vec<Result<TodoEntry, rusqlite::Error>> = Vec::new();
        while outcomes.len() > 0
            invariant
                outcome matches Ok(given) && given@ == rows,
                outcomes.len() <= rows.len(),
                outcomes@ == rows.subrange(0, outcomes.len() as int),
                reversed.len() == rows.len() - outcomes.len(),
                forall|k: int|
                    0 <= k < reversed.len() ==> #[trigger] reversed@[k] == rows[rows.len() - 1 - k],
            decreases outcomes.len(),
        {
            match outcomes.pop() {
                Some(one) => {
                    reversed.push(one);
                },
                None => {},
            }
        }
        let ghost backwards = reversed@;
        let mut entries: Vec<TodoEntry> = Vec::new();
        while reversed.len() > 0
            invariant
                outcome matches Ok(given) && given@ == rows,
                backwards.len() == rows.len(),
                forall|k: int|
                    0 <= k < backwards.len() ==> #[trigger] backwards[k] == rows[rows.len() - 1 - k],
                reversed.len() <= backwards.len(),
                reversed@ == backwards.subrange(0, reversed.len() as int),
                entries.len() == rows.len() - reversed.len(),
                forall|i: int|
                    0 <= i < entries.len() ==> rows[i] == Ok::<TodoEntry, rusqlite::Error>(
                        #[trigger] entries@[i],
                    ),
                first_failure(rows) == first_failure_from(rows, entries.len() as int),
            decreases reversed.len(),
        {
            let ghost at = entries.len() as int;
            match reversed.pop() {
                Some(Ok(entry)) => {
                    assert(rows[at] == Ok::<TodoEntry, rusqlite::Error>(entry));
                    assert(first_failure_from(rows, at) == first_failure_from(rows, at + 1));
                    entries.push(entry);
                },
                Some(Err(error)) => {
                    assert(rows[at] == Err::<TodoEntry, rusqlite::Error>(error));
                    assert(first_failure_from(rows, at) == at);
                    return Err(error);
                },
                None => {},
            }
        }
        Ok(entries)
    }

    /// A page of what a query gave: its tasks in their order, and never more
    /// of them than were asked for; or the failed query.
    pub fn paged(outcome: Result<Vec<TodoEntry>, rusqlite::Error>, number_of_entries: usize) -> (r:
        Result<Vec<TodoEntry>, StoreError>)
        ensures
            match outcome {
                Ok(entries) => r matches Ok(page) && page@ == (if entries.len()
                    <= number_of_entries {
                    entries@
                } else {
                    entries@.subrange(0, number_of_entries as int)
                }),
                Err(error) => r matches Err(StoreError::Query(cause)) && cause == error,
            },
    {
        match outcome {
            Ok(entries) => {
                let mut page = entries;
                page.truncate(number_of_entries);
                Ok(page)
            },
            Err(error) => Err(StoreError::Query(error)),
        }
    }

    /// Writes the task's title and description to the row with its id; no
    /// other column is written, and a missing row is no error.
    pub fn update_database(&mut self, entry: &TodoEntry) -> (r: Result<(), StoreError>)
        ensures
            r matches Err(error) ==> error is Query,
    {
        let parameters = update_parameters(entry);
        StoreError::on_write(execute_update(&self.connection, UPDATE_SQL, &parameters))
    }

    /// The task that stands for a row just written: the id that the table
    /// gave it and the values of the row, or the failure to learn the id.
    pub fn inserted(id: Result<usize, rusqlite::Error>, row: NewRow) -> (r: Result<
        TodoEntry,
        StoreError,
    >)
        ensures
            match id {
                Ok(id) => r matches Ok(entry) && entry@ == (EntryView {
                    id,
                    title: row.title@,
                    description: row.description@,
                    creation_date: row.creation_date,
                    due_date: row.due_date,
                    is_done: row.is_done,
                }),
                Err(error) => r matches Err(StoreError::Query(cause)) && cause == error,
            },
    {
        match id {
            Ok(id) => Ok(
                TodoEntry::from_columns(
                    id,
                    row.title,
                    row.description,
                    row.creation_date,
                    row.due_date,
                    row.is_done,
                ),
            ),
            Err(error) => Err(StoreError::Query(error)),
        }
    }

    /// Adds a row with the given values, created on the given day and not
    /// done, and hands back the task with the id that the table gave it.
    pub fn insert_entry_dated(
        &mut self,
        title: String,
        description: String,
        creation_date: NaiveDate,
        due_date: Option<NaiveDate>,
    ) -> (r: Result<TodoEntry, StoreError>)
        ensures
            match r {
                Ok(entry) => {
                    &&& entry.title@ == title@
                    &&& entry.description@ == description@
                    &&& entry.creation_date == creation_date
                    &&& entry.due_date == due_date
                    &&& !entry.is_done
                },
                Err(error) => error is Query,
            },
    {
        let row = new_row(title, description, creation_date, due_date);
        match execute_insert(&self.connection, INSERT_SQL, &row) {
            Ok(_) => {},
            Err(error) => { return Err(StoreError::Query(error)); },
        }
        let id = query_id(&self.connection, LAST_ID_SQL);
        Database::inserted(id, row)
    }

    /// Adds a row with the given values, created today and not done, and
    /// hands back the task with the id that the table gave it.
    pub fn insert_entry(&mut self, title: String, description: String, due_date: Option<NaiveDate>) -> (r:
        Result<TodoEntry, StoreError>)
        ensures
            match r {
                Ok(entry) => {
                    &&& entry.title@ == title@
                    &&& entry.description@ == description@
                    &&& entry.due_date == due_date
                    &&& !entry.is_done
                },
                Err(error) => error is Query,
            },
    {
        let creation_date = today();
        self.insert_entry_dated(title, description, creation_date, due_date)
    }

    /// Deletes the row with the task's id; a missing row is no error.
    pub fn remove_from_database(&mut self, entry: &TodoEntry) -> (r: Result<(), StoreError>)
        ensures
            r matches Err(error) ==> error is Query,
    {
        let parameters = delete_parameters(entry);
        StoreError::on_write(execute_delete(&self.connection, DELETE_SQL, &parameters))
    }
}

} // verus!
