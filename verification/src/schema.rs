//! The schema of the store and the order in which it is set up.
//!
//! Foreign keys are enforced per connection, so the statement that switches
//! them on runs first, and every connection opened later has to run it too.
//! Each table is created only if it does not exist yet, so setting up twice
//! does no harm.

use vstd::prelude::*;
use crate::error::Failure;
use crate::store::{values_view, Command, CommandData, SqlData, SqlValue};

verus! {

/// Makes the connection enforce foreign keys.
pub const ENABLE_FOREIGN_KEYS: &'static str = "PRAGMA foreign_keys = ON;";

/// Tables: a generated id and a code that is required and unique.
pub const CREATE_TABLE_TABLE: &'static str =
    "CREATE TABLE IF NOT EXISTS tables (id INTEGER PRIMARY KEY, code TEXT NOT NULL UNIQUE)";

/// Menus: a generated id and a required name.
pub const CREATE_MENU_TABLE: &'static str =
    "CREATE TABLE IF NOT EXISTS menus (id INTEGER PRIMARY KEY, name TEXT NOT NULL)";

/// Orders: a generated id and the table that the order is for, which must
/// exist and can have one order only.
pub const CREATE_ORDER_TABLE: &'static str =
    "CREATE TABLE IF NOT EXISTS orders (id INTEGER PRIMARY KEY, table_id INTEGER NOT NULL, FOREIGN KEY (table_id) REFERENCES tables(id), UNIQUE(table_id))";

/// Order items: a generated id, the order, which must exist, the menu, which
/// must exist if there is one, a cooking time and a quantity, which is one
/// unless given.
pub const CREATE_ORDER_ITEM_TABLE: &'static str =
    "CREATE TABLE IF NOT EXISTS order_items (id INTEGER PRIMARY KEY, order_id INTEGER NOT NULL, menu_id INTEGER NULL, cooking_time NOT NULL, quantity INTEGER NOT NULL default 1, FOREIGN KEY (order_id) REFERENCES orders(id), FOREIGN KEY (menu_id) REFERENCES menus(id))";

/// The number of statements that set the store up.
pub const SETUP_LENGTH: usize = 5;

/// The statement `sql`, which takes no parameters.
pub open spec fn plain(sql: &'static str) -> CommandData {
    CommandData { sql: sql@, params: Seq::empty() }
}

/// The statements that set the store up, in the order in which they run:
/// foreign keys on, then each table after the tables that it refers to.
pub open spec fn setup_statements() -> Seq<CommandData> {
    seq![
        plain(ENABLE_FOREIGN_KEYS),
        plain(CREATE_TABLE_TABLE),
        plain(CREATE_MENU_TABLE),
        plain(CREATE_ORDER_TABLE),
        plain(CREATE_ORDER_ITEM_TABLE),
    ]
}

/// What is to happen next while the store is set up.
#[derive(Debug)]
pub enum Setup {
    /// Run this statement, then ask again.
    Execute(Command),
    /// Every statement has run; the service may start.
    Ready,
    /// A statement failed; the service must not start.
    Abort(Failure),
}

/// What a [`Setup`] holds.
pub enum SetupData {
    Execute(CommandData),
    Ready,
    Abort(Failure),
}

impl View for Setup {
    type V = SetupData;

    open spec fn view(&self) -> SetupData {
        match *self {
            Setup::Execute(statement) => SetupData::Execute(statement@),
            Setup::Ready => SetupData::Ready,
            Setup::Abort(failure) => SetupData::Abort(failure),
        }
    }
}

/// The next step of the setup after `completed` statements have run and the
/// one tried last has ended as `failure` says: a failure aborts, otherwise the
/// next statement in order runs until none is left.
pub open spec fn setup_step_spec(completed: usize, failure: Option<Failure>) -> SetupData {
    match failure {
        Some(failure) => SetupData::Abort(failure),
        None => if completed < setup_statements().len() {
            SetupData::Execute(setup_statements()[completed as int])
        } else {
            SetupData::Ready
        },
    }
}

/// A statement without parameters.
fn plain_statement(sql: &'static str) -> (statement: Command)
    ensures
        statement@ == plain(sql),
{
    let params: Vec<SqlValue> = Vec::new();
    assert(values_view(params@) =~= Seq::<SqlData>::empty());
    Command { sql, params }
}

/// The statement that makes a connection enforce foreign keys. Every
/// connection has to run it before any other statement.
pub fn enable_foreign_keys() -> (statement: Command)
    ensures
        statement@ == plain(ENABLE_FOREIGN_KEYS),
{
    plain_statement(ENABLE_FOREIGN_KEYS)
}

/// The statement that creates the table of tables unless it exists.
pub fn create_table_table_if_not_exists() -> (statement: Command)
    ensures
        statement@ == plain(CREATE_TABLE_TABLE),
{
    plain_statement(CREATE_TABLE_TABLE)
}

/// The statement that creates the table of menus unless it exists.
pub fn create_menu_table_if_not_exists() -> (statement: Command)
    ensures
        statement@ == plain(CREATE_MENU_TABLE),
{
    plain_statement(CREATE_MENU_TABLE)
}

/// The statement that creates the table of orders unless it exists.
pub fn create_order_table_if_not_exists() -> (statement: Command)
    ensures
        statement@ == plain(CREATE_ORDER_TABLE),
{
    plain_statement(CREATE_ORDER_TABLE)
}

/// The statement that creates the table of order items unless it exists.
pub fn create_order_item_table_if_not_exists() -> (statement: Command)
    ensures
        statement@ == plain(CREATE_ORDER_ITEM_TABLE),
{
    plain_statement(CREATE_ORDER_ITEM_TABLE)
}

/// One step of the setup. `completed` counts the statements that have run so
/// far; `failure` is how the statement tried last failed, if it did. Any
/// failure aborts the setup for good.
pub fn setup_step(completed: usize, failure: Option<Failure>) -> (step: Setup)
    ensures
        step@ == setup_step_spec(completed, failure),
{
    if let Some(failure) = failure {
        return Setup::Abort(failure);
    }
    if completed == 0 {
        Setup::Execute(enable_foreign_keys())
    } else if completed == 1 {
        Setup::Execute(create_table_table_if_not_exists())
    } else if completed == 2 {
        Setup::Execute(create_menu_table_if_not_exists())
    } else if completed == 3 {
        Setup::Execute(create_order_table_if_not_exists())
    } else if completed == 4 {
        Setup::Execute(create_order_item_table_if_not_exists())
    } else {
        Setup::Ready
    }
}

/// The setup runs exactly its statements, in order, when none fails: step
/// `k` runs statement `k`, and after the last one the store is ready.
pub proof fn lemma_setup_runs_in_order(completed: usize)
    ensures
        completed < SETUP_LENGTH ==> setup_step_spec(completed, None) == SetupData::Execute(
            setup_statements()[completed as int],
        ),
        completed >= SETUP_LENGTH ==> setup_step_spec(completed, None) == SetupData::Ready,
        setup_statements().len() == SETUP_LENGTH,
        setup_statements()[0] == plain(ENABLE_FOREIGN_KEYS),
{
}

/// A failure stops the setup wherever it stands; no further statement runs.
pub proof fn lemma_setup_failure_is_fatal(completed: usize, failure: Failure)
    ensures
        setup_step_spec(completed, Some(failure)) == SetupData::Abort(failure),
{
}

} // verus!
