//! The store itself: a SQLite database behind the `rusqlite` driver. This is
//! the only module that talks to the driver. What a statement does to the
//! database, and what comes back, is the database's own affair; nothing here
//! claims anything of it. Of the driver these things are taken on trust:
//! that a value which it reports as bound to a placeholder is bound to it,
//! that a row gives the value in each of its columns and an error beyond
//! them, and that the rows of a query are read one by one as they come.
//!
//! What the library does state is what it asks of the store: a [`Store`]
//! keeps, for proofs only, the list of the statements handed to it.

use vstd::prelude::*;
use crate::error::Failure;
use crate::schema::{
    enable_foreign_keys, plain, setup_statements, setup_step, Setup, ENABLE_FOREIGN_KEYS,
    SETUP_LENGTH,
};
use crate::store::{values_view, Command, CommandData, Outcome, SqlData, SqlValue};
use rusqlite::types::ValueRef;
use rusqlite::Connection;

verus! {

/// `rusqlite::Connection`, an open database. Nothing inside it is visible
/// here.
#[verifier::external_type_specification]
#[verifier::external_body]
pub struct ExConnection(rusqlite::Connection);

/// `rusqlite::Statement`, a statement that the database has compiled.
#[verifier::external_type_specification]
#[verifier::external_body]
pub struct ExPrepared<'conn>(rusqlite::Statement<'conn>);

/// `rusqlite::Row`, the row that a running query stands on.
#[verifier::external_type_specification]
#[verifier::external_body]
pub struct ExRow<'stmt>(rusqlite::Row<'stmt>);

/// `rusqlite::Error`, the error type of the driver.
#[verifier::external_type_specification]
#[verifier::external_body]
pub struct ExSqliteError(rusqlite::Error);

/// The file that holds the database of the service.
pub const DATABASE: &'static str = "resturant.db";

/// The highest number that a placeholder can have: the driver counts
/// placeholders in 32 bits.
pub const MAX_PLACEHOLDER: usize = 0x7fff_ffff;

/// The extended result code of SQLite that a driver error carries, if it is
/// one that SQLite reported.
pub uninterp spec fn error_code(error: rusqlite::Error) -> Option<i32>;

/// The values that a compiled statement has bound to its placeholders, by the
/// number of the placeholder, counted from one.
pub uninterp spec fn bindings(prepared: rusqlite::Statement<'_>) -> Map<int, SqlData>;

/// The values in the columns of a row, in column order; a text that is not
/// valid UTF-8 stands with its bad bytes replaced, a real number or a blob as
/// [`SqlData::Other`].
pub uninterp spec fn row_values(row: rusqlite::Row<'_>) -> Seq<SqlData>;

/// `rusqlite::Error::sqlite_error`, which hands out the SQLite error inside a
/// `SqliteFailure` and nothing for every other kind of error; of that error
/// this takes the field `extended_code`. The result is the code that the
/// error carries.
#[verifier::external_body]
fn sqlite_extended_code(error: &rusqlite::Error) -> (code: Option<i32>)
    ensures
        code == error_code(*error),
{
    error.sqlite_error().map(|e| e.extended_code)
}

/// The `Display` of `rusqlite::Error`: the error in the driver's own words.
/// Nothing is claimed of the text.
#[verifier::external_body]
fn error_words(error: &rusqlite::Error) -> (words: String) {
    error.to_string()
}

/// `rusqlite::Connection::open`, which opens the database in the file at
/// `path`, creating it if need be, or reports why it could not.
#[verifier::external_body]
fn open(path: &str) -> (r: Result<Connection, rusqlite::Error>) {
    Connection::open(path)
}

/// `rusqlite::Connection::prepare`, which has the database compile `sql`.
#[verifier::external_body]
fn prepare<'conn>(conn: &'conn Connection, sql: &str) -> (r: Result<
    rusqlite::Statement<'conn>,
    rusqlite::Error,
>) {
    conn.prepare(sql)
}

/// `rusqlite::Connection::last_insert_rowid`, the id of the row that the
/// connection inserted last.
#[verifier::external_body]
fn last_insert_rowid(conn: &Connection) -> (id: i64) {
    conn.last_insert_rowid()
}

/// `rusqlite::Statement::parameter_count`, the number of placeholders.
#[verifier::external_body]
fn parameter_count(prepared: &rusqlite::Statement<'_>) -> (count: usize) {
    prepared.parameter_count()
}

/// `rusqlite::Statement::column_count`, the number of columns in each row
/// that the statement gives back; zero if it gives none.
#[verifier::external_body]
fn column_count(prepared: &rusqlite::Statement<'_>) -> (count: usize) {
    prepared.column_count()
}

/// `rusqlite::Statement::raw_bind_parameter` with `NULL` for the placeholder
/// `index`, counted from one. Where it reports success, the placeholder is
/// bound to `NULL` and every other placeholder is as it was; nothing is
/// claimed where it fails. The driver passes the index on in 32 bits, so a
/// higher one is left out.
#[verifier::external_body]
fn bind_null(prepared: &mut rusqlite::Statement<'_>, index: usize) -> (r: Result<
    (),
    rusqlite::Error,
>)
    requires
        index <= MAX_PLACEHOLDER,
    ensures
        r is Ok ==> bindings(*final(prepared))
            == bindings(*old(prepared)).insert(index as int, SqlData::Null),
{
    prepared.raw_bind_parameter(index, rusqlite::types::Null)
}

/// `rusqlite::Statement::raw_bind_parameter` with an integer for the
/// placeholder `index`, counted from one. Where it reports success, the
/// placeholder is bound to that integer and every other placeholder is as it
/// was; nothing is claimed where it fails. An index beyond 32 bits is left
/// out, as for `NULL`.
#[verifier::external_body]
fn bind_integer(prepared: &mut rusqlite::Statement<'_>, index: usize, value: i64) -> (r: Result<
    (),
    rusqlite::Error,
>)
    requires
        index <= MAX_PLACEHOLDER,
    ensures
        r is Ok ==> bindings(*final(prepared))
            == bindings(*old(prepared)).insert(index as int, SqlData::Integer(value)),
{
    prepared.raw_bind_parameter(index, value)
}

/// `rusqlite::Statement::raw_bind_parameter` with a text for the placeholder
/// `index`, counted from one. Where it reports success, the placeholder is
/// bound to that text and every other placeholder is as it was; nothing is
/// claimed where it fails. An index beyond 32 bits is left out, as for `NULL`.
#[verifier::external_body]
fn bind_text(prepared: &mut rusqlite::Statement<'_>, index: usize, value: &str) -> (r: Result<
    (),
    rusqlite::Error,
>)
    requires
        index <= MAX_PLACEHOLDER,
    ensures
        r is Ok ==> bindings(*final(prepared))
            == bindings(*old(prepared)).insert(index as int, SqlData::Text(value@)),
{
    prepared.raw_bind_parameter(index, value)
}

/// `rusqlite::Statement::raw_execute`, which runs a statement that gives no
/// rows back and tells how many rows it changed.
#[verifier::external_body]
fn raw_execute(prepared: &mut rusqlite::Statement<'_>) -> (changed: Result<
    usize,
    rusqlite::Error,
>) {
    prepared.raw_execute()
}

/// `rusqlite::Statement::raw_query` and `rusqlite::Rows::mapped`, which run a
/// query and hand each of its rows to [`read_row`]; the rows are collected in
/// the order in which the database gives them. Every row collected is one
/// that [`read_row`] read, so each has `columns` values.
#[verifier::external_body]
fn collect_rows(prepared: &mut rusqlite::Statement<'_>, columns: usize) -> (rows: Result<
    Vec<Vec<SqlValue>>,
    rusqlite::Error,
>)
    ensures
        rows is Ok ==> forall|i: int|
            0 <= i < rows->Ok_0.len() ==> (#[trigger] rows->Ok_0[i]).len() == columns,
{
    prepared.raw_query().mapped(|row| read_row(row, columns)).collect()
}

/// `rusqlite::Row::get_ref`, which reads the column `index`, counted from
/// zero, of the row. It gives the value in that column if the row has such a
/// column, and an error if it has not.
#[verifier::external_body]
fn value_at(row: &rusqlite::Row<'_>, index: usize) -> (value: Result<SqlValue, rusqlite::Error>)
    ensures
        index < row_values(*row).len() ==> value is Ok
            && value->Ok_0@ == row_values(*row)[index as int],
        index >= row_values(*row).len() ==> value is Err,
{
    row.get_ref(index).map(|value| match value {
        ValueRef::Null => SqlValue::Null,
        ValueRef::Integer(n) => SqlValue::Integer(n),
        ValueRef::Text(text) => SqlValue::Text(String::from_utf8_lossy(text).into_owned()),
        ValueRef::Real(_) => SqlValue::Other,
        ValueRef::Blob(_) => SqlValue::Other,
    })
}

/// The failure that stands for an extended result code of SQLite, or for
/// the lack of one.
pub open spec fn failure_of_code(code: Option<i32>) -> Failure {
    match code {
        Some(extended_code) => Failure::Sqlite { extended_code },
        None => Failure::Other,
    }
}

/// The failure that stands for an extended result code of SQLite, or for
/// the lack of one.
pub fn failure_from_code(code: Option<i32>) -> (failure: Failure)
    ensures
        failure == failure_of_code(code),
{
    match code {
        Some(extended_code) => Failure::Sqlite { extended_code },
        None => Failure::Other,
    }
}

/// Tells what kind of failure a driver error is: one that SQLite reported,
/// with its extended result code, or any other.
pub fn failure_of(error: &rusqlite::Error) -> (failure: Failure)
    ensures
        failure == failure_of_code(error_code(*error)),
{
    failure_from_code(sqlite_extended_code(error))
}

/// The value that a parameter is bound as: itself, but for a value of a kind
/// that no record holds, which is bound as `NULL`.
pub open spec fn bound_value(value: SqlData) -> SqlData {
    match value {
        SqlData::Other => SqlData::Null,
        other => other,
    }
}

/// The bindings of a statement after the first `count` of `params` were bound
/// to the placeholders one to `count`, in order: those placeholders hold the
/// parameters, and every other placeholder is as it was before.
pub open spec fn bound_through(before: Map<int, SqlData>, params: Seq<SqlValue>, count: int)
    -> Map<int, SqlData> {
    Map::new(
        |k: int| 1 <= k <= count || before.dom().contains(k),
        |k: int|
            if 1 <= k <= count {
                bound_value(params[k - 1]@)
            } else {
                before[k]
            },
    )
}

/// The bindings of a statement after all of `params` were bound to it.
pub open spec fn bound_to(before: Map<int, SqlData>, params: Seq<SqlValue>) -> Map<
    int,
    SqlData,
> {
    bound_through(before, params, params.len() as int)
}

/// Reads the first `columns` values of a row, in column order. This succeeds
/// exactly when the row has that many columns.
pub fn read_row(row: &rusqlite::Row<'_>, columns: usize) -> (r: Result<
    Vec<SqlValue>,
    rusqlite::Error,
>)
    ensures
        columns <= row_values(*row).len() ==> r is Ok,
        r is Ok ==> r->Ok_0.len() == columns,
        r is Ok ==> values_view(r->Ok_0@) == row_values(*row).take(columns as int),
        columns > row_values(*row).len() ==> r is Err,
{
    let mut values: Vec<SqlValue> = Vec::new();
    let mut index: usize = 0;
    while index < columns
        invariant
            index <= columns,
            index <= row_values(*row).len(),
            values.len() == index,
            values_view(values@) == row_values(*row).take(index as int),
        decreases columns - index,
    {
        match value_at(row, index) {
            Ok(value) => {
                let ghost before = values_view(values@);
                let ghost read = value@;
                values.push(value);
                assert(values_view(values@) =~= before.push(read));
                assert(row_values(*row).take(index + 1) =~= before.push(read));
            },
            Err(error) => {
                return Err(error);
            },
        }
        index = index + 1;
    }
    Ok(values)
}

/// Binds every parameter of the statement to its placeholder, the first to
/// `?1`, the second to `?2`, and so on, and stops at the first that the driver
/// refuses. More parameters than placeholders can be numbered are refused
/// before any is bound; no parameters at all are always bound.
pub fn bind_all(prepared: &mut rusqlite::Statement<'_>, params: &Vec<SqlValue>) -> (r: Result<
    (),
    Failure,
>)
    ensures
        r is Ok ==> bindings(*final(prepared)) == bound_to(bindings(*old(prepared)), params@),
        params.len() == 0 ==> r is Ok,
        params.len() > MAX_PLACEHOLDER ==> r == Err::<(), Failure>(Failure::Other),
        params.len() > MAX_PLACEHOLDER ==> *final(prepared) == *old(prepared),
{
    if params.len() > MAX_PLACEHOLDER {
        return Err(Failure::Other);
    }
    let ghost before = bindings(*prepared);
    let mut index: usize = 0;
    assert(bindings(*prepared) =~= bound_through(before, params@, 0));
    while index < params.len()
        invariant
            params.len() <= MAX_PLACEHOLDER,
            index <= params.len(),
            bindings(*prepared) == bound_through(before, params@, index as int),
        decreases params.len() - index,
    {
        let bound = match &params[index] {
            SqlValue::Integer(n) => bind_integer(prepared, index + 1, *n),
            SqlValue::Text(text) => bind_text(prepared, index + 1, text.as_str()),
            SqlValue::Null => bind_null(prepared, index + 1),
            SqlValue::Other => bind_null(prepared, index + 1),
        };
        if let Err(error) = bound {
            return Err(failure_of(&error));
        }
        assert(bindings(*prepared) =~= bound_through(before, params@, index + 1));
        index = index + 1;
    }
    Ok(())
}

/// What to do with a compiled statement.
#[derive(Debug, Clone, Copy, PartialEq, Eq, Structural)]
pub enum Course {
    /// Do not run it: its parameters are not as many as its placeholders.
    Refuse,
    /// Run it for its effect: it gives no rows back.
    Execute,
    /// Run it for its rows.
    Query,
}

/// What to do with a compiled statement that has `placeholders`
/// placeholders and gives rows of `columns` columns, when the command brings
/// `params` parameters.
pub open spec fn course_of(placeholders: usize, params: usize, columns: usize) -> Course {
    if placeholders != params {
        Course::Refuse
    } else if columns == 0 {
        Course::Execute
    } else {
        Course::Query
    }
}

/// Decides what to do with a compiled statement, from what the driver tells
/// of it.
pub fn course(placeholders: usize, params: usize, columns: usize) -> (course: Course)
    ensures
        course == course_of(placeholders, params, columns),
{
    if placeholders != params {
        Course::Refuse
    } else if columns == 0 {
        Course::Execute
    } else {
        Course::Query
    }
}

/// Whether the rows of an outcome, if it has rows, all have the same number
/// of values, and at least one.
pub open spec fn rectangular(outcome: Outcome) -> bool {
    outcome matches Outcome::Rows(rows) ==> forall|i: int, j: int|
        0 <= i < rows.len() && 0 <= j < rows.len() ==> (#[trigger] rows[i]).len() == (
        #[trigger] rows[j]).len() && rows[i].len() > 0
}

/// Why the store could not be opened or set up: the kind of failure, and the
/// store's own words for it.
#[derive(Debug, Clone)]
pub struct Report {
    pub failure: Failure,
    pub words: String,
}

/// A handle on the store: a connection, and for proofs the list of the
/// statements that were handed to the store through this handle.
pub struct Store {
    conn: Connection,
    words: String,
    asked: Ghost<Seq<CommandData>>,
}

/// A setup that did not reach its end.
pub struct Stopped {
    /// Why it stopped.
    pub report: Report,
    /// The store as the setup left it, if it could be opened at all.
    pub store: Option<Store>,
}

impl Store {
    /// The statements that were handed to the store through this handle, in
    /// the order in which they were handed over. Only [`run`] adds to them.
    pub closed spec fn asked(&self) -> Seq<CommandData> {
        self.asked@
    }

    /// The connection behind the handle.
    pub closed spec fn link(&self) -> Connection {
        self.conn
    }

    /// The words kept of the statement that was handed over last.
    pub closed spec fn words(&self) -> Seq<char> {
        self.words@
    }

    /// A handle on an open connection, through which nothing was asked yet.
    /// The connection is taken as it is: whether it enforces foreign keys is
    /// the caller's affair. [`open_store`] gives a handle that does.
    pub fn from_connection(conn: Connection) -> (store: Store)
        ensures
            store.link() == conn,
            store.asked() == Seq::<CommandData>::empty(),
            store.words() == Seq::<char>::empty(),
    {
        Store { conn, words: String::new(), asked: Ghost(Seq::empty()) }
    }

    /// The connection behind the handle. What is asked of it directly is not
    /// in [`Store::asked`].
    pub fn connection(&self) -> (conn: &Connection)
        ensures
            *conn == self.link(),
    {
        &self.conn
    }

    /// The store's own words for the failure of the statement that was
    /// handed over last, or no words if it did not fail.
    pub fn last_words(&self) -> (words: String)
        ensures
            words@ == self.words(),
    {
        self.words.clone()
    }
}

/// Hands one statement to the connection and reports what came of it, with
/// the store's words where it failed.
fn attempt(conn: &Connection, command: &Command) -> (tried: (Outcome, String))
    ensures
        command.params.len() > MAX_PLACEHOLDER ==> tried.0 is Failed,
        rectangular(tried.0),
{
    let mut prepared = match prepare(conn, command.sql) {
        Ok(prepared) => prepared,
        Err(error) => {
            return (Outcome::Failed(failure_of(&error)), error_words(&error));
        },
    };
    let columns = column_count(&prepared);
    match course(parameter_count(&prepared), command.params.len(), columns) {
        Course::Refuse => (
            Outcome::Failed(Failure::Other),
            "the parameters are not as many as the placeholders".to_string(),
        ),
        Course::Execute => {
            if let Err(failure) = bind_all(&mut prepared, &command.params) {
                return (Outcome::Failed(failure), "a parameter could not be bound".to_string());
            }
            match raw_execute(&mut prepared) {
                Ok(rows) => (
                    Outcome::Changed { rows: rows as u64, last_id: last_insert_rowid(conn) },
                    String::new(),
                ),
                Err(error) => (Outcome::Failed(failure_of(&error)), error_words(&error)),
            }
        },
        Course::Query => {
            if let Err(failure) = bind_all(&mut prepared, &command.params) {
                return (Outcome::Failed(failure), "a parameter could not be bound".to_string());
            }
            match collect_rows(&mut prepared, columns) {
                Ok(rows) => (Outcome::Rows(rows), String::new()),
                Err(error) => (Outcome::Failed(failure_of(&error)), error_words(&error)),
            }
        },
    }
}

/// Hands one statement to the store and reports what came of it. Whatever
/// comes of it, the statement counts as asked. A statement whose parameters
/// are not as many as its placeholders, or more than placeholders can be
/// numbered, is refused and not run.
pub fn run(store: &mut Store, command: &Command) -> (outcome: Outcome)
    ensures
        final(store).asked() == old(store).asked().push(command@),
        final(store).link() == old(store).link(),
        command.params.len() > MAX_PLACEHOLDER ==> outcome is Failed,
        rectangular(outcome),
{
    let (outcome, words) = attempt(&store.conn, command);
    store.words = words;
    store.asked = Ghost(store.asked@.push(command@));
    outcome
}

/// Opens the database in the file at `path` and makes the connection enforce
/// foreign keys, which every connection has to be told anew. The handle that
/// comes back has been asked that and nothing else.
pub fn open_store(path: &str) -> (r: Result<Store, Report>)
    ensures
        r matches Ok(store) ==> store.asked() == seq![plain(ENABLE_FOREIGN_KEYS)],
{
    let conn = match open(path) {
        Ok(conn) => conn,
        Err(error) => {
            return Err(Report { failure: failure_of(&error), words: error_words(&error) });
        },
    };
    let mut store = Store::from_connection(conn);
    match run(&mut store, &enable_foreign_keys()) {
        Outcome::Failed(failure) => Err(Report { failure, words: store.last_words() }),
        _ => {
            assert(store.asked() =~= seq![plain(ENABLE_FOREIGN_KEYS)]);
            Ok(store)
        },
    }
}

/// Opens a connection to the database of the service. Like every handle of
/// [`open_store`], it has been told to enforce foreign keys.
pub fn get_db_conn() -> (r: Result<Store, Report>)
    ensures
        r matches Ok(store) ==> store.asked() == seq![plain(ENABLE_FOREIGN_KEYS)],
{
    open_store(DATABASE)
}

/// What a store has been asked after a setup that handed it its first
/// `count` statements.
pub open spec fn asked_in_setup(before: Seq<CommandData>, count: int) -> Seq<CommandData> {
    before + setup_statements().take(count)
}

/// A setup hands its statements over in their order and nothing else: after
/// `count` of them the store has been asked what it had been asked before,
/// then the switch for foreign keys, then the tables, each after those that
/// it refers to, as far as `count` reaches.
pub proof fn lemma_setup_order(before: Seq<CommandData>, count: int)
    requires
        0 <= count <= SETUP_LENGTH,
    ensures
        asked_in_setup(before, count).len() == before.len() + count,
        forall|i: int|
            0 <= i < before.len() ==> (#[trigger] asked_in_setup(before, count)[i]) == before[i],
        forall|i: int|
            0 <= i < count ==> (#[trigger] asked_in_setup(before, count)[before.len() + i])
                == setup_statements()[i],
        count >= 1 ==> asked_in_setup(before, count)[before.len() as int] == plain(
            ENABLE_FOREIGN_KEYS,
        ),
{
}

/// Sets the store up: hands it the setup statements in order and stops at
/// the first that fails, with that failure. On success the store has been
/// asked all of them and nothing else; on failure those up to the one that
/// failed, and none after it. Tables that exist already are left as they
/// are, so this can be done again at any time.
pub fn set_up(store: &mut Store) -> (r: Result<(), Report>)
    ensures
        r is Ok ==> final(store).asked() == old(store).asked() + setup_statements(),
        r matches Err(report) ==> report.words@ == final(store).words(),
        final(store).link() == old(store).link(),
        r is Err ==> exists|count: int|
            1 <= count <= SETUP_LENGTH && final(store).asked() == #[trigger] asked_in_setup(
                old(store).asked(),
                count,
            ),
{
    let ghost before = store.asked();
    let mut completed: usize = 0;
    assert(store.asked() =~= asked_in_setup(before, 0));
    while completed < SETUP_LENGTH
        invariant
            completed <= SETUP_LENGTH,
            before == old(store).asked(),
            store.link() == old(store).link(),
            store.asked() == asked_in_setup(before, completed as int),
        decreases SETUP_LENGTH - completed,
    {
        let failure = match setup_step(completed, None) {
            Setup::Execute(command) => match run(store, &command) {
                Outcome::Failed(failure) => Some(failure),
                _ => None,
            },
            _ => None,
        };
        assert(store.asked() =~= asked_in_setup(before, completed + 1));
        if let Setup::Abort(failure) = setup_step(completed, failure) {
            return Err(Report { failure, words: store.last_words() });
        }
        completed = completed + 1;
    }
    assert(setup_statements().take(SETUP_LENGTH as int) =~= setup_statements());
    Ok(())
}

/// Sets the database of the service up: opens it, which switches foreign
/// keys on, and hands it the setup statements. The service must not start
/// unless this succeeds.
pub fn initialize_db() -> (r: Result<Store, Stopped>)
    ensures
        r matches Ok(store) ==> store.asked() == seq![plain(ENABLE_FOREIGN_KEYS)]
            + setup_statements(),
        r matches Err(stopped) ==> (stopped.store matches Some(store) ==> exists|count: int|
            1 <= count <= SETUP_LENGTH && store.asked() == #[trigger] asked_in_setup(
                seq![plain(ENABLE_FOREIGN_KEYS)],
                count,
            )),
{
    let mut store = match get_db_conn() {
        Ok(store) => store,
        Err(report) => {
            return Err(Stopped { report, store: None });
        },
    };
    match set_up(&mut store) {
        Ok(_) => Ok(store),
        Err(report) => Err(Stopped { report, store: Some(store) }),
    }
}

} // verus!
