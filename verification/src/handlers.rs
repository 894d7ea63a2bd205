//! The data access handlers: one per operation.
//!
//! Each handler is a pair. Its step — `create_table_step` and the like —
//! decides without touching the store: first which statement to run, then,
//! with the store's outcome in hand, what to answer. The handler proper —
//! `create_table_handler` and the like — takes a handle on the store, hands
//! it the statement that the step asks for, once, and answers as the step
//! says. Its contract says which statement the store was asked, and that it
//! was asked nothing where the request is refused outright.

use vstd::prelude::*;
use crate::db::{run, Store};
use crate::error::{
    classify, classify_spec, ApiError, STATUS_CREATED, STATUS_NO_CONTENT, STATUS_OK,
};
use crate::model::{
    item_of_row, items_of_rows, menus_of_rows, orders_of_rows, tables_of_rows, Menu, MenuData,
    Order, OrderItem, Table, TableData,
};
use crate::reply::{error_reply, sound_reply, Payload, PayloadData, Reply, ReplyData};
use crate::store::{
    rows_view, values_view, Command, CommandData, Outcome, OutcomeData, SqlData, SqlValue,
};

verus! {

/// Inserts a table with the code `?1`.
pub const INSERT_TABLE: &'static str = "INSERT INTO tables (code) VALUES (?1)";

/// Inserts a menu with the name `?1`.
pub const INSERT_MENU: &'static str = "INSERT INTO menus (name) VALUES (?1)";

/// Inserts an order for the table `?1`.
pub const INSERT_ORDER: &'static str = "INSERT INTO orders (table_id) VALUES (?1)";

/// Inserts an item into the order `?1`, for the menu `?2`, with the cooking
/// time `?3` and the quantity `?4`.
pub const INSERT_ORDER_ITEM: &'static str =
    "INSERT INTO order_items (order_id, menu_id, cooking_time, quantity) VALUES (?1, ?2, ?3, ?4)";

/// Reads every table as `(id, code)`, lowest id first.
pub const SELECT_TABLES: &'static str = "SELECT id, code FROM tables ORDER BY id ASC";

/// Reads every menu as `(id, name)`, lowest id first.
pub const SELECT_MENUS: &'static str = "SELECT id, name FROM menus ORDER BY id ASC";

/// Reads every order as `(id, table_id)`.
pub const SELECT_ORDERS: &'static str = "SELECT id, table_id FROM orders";

/// Reads the items of the order of the table `?1`.
pub const SELECT_ITEMS_FOR_TABLE: &'static str =
    "SELECT i.id, i.order_id, i.menu_id, i.cooking_time, i.quantity FROM order_items i JOIN orders o ON i.order_id = o.id WHERE o.table_id = ?1";

/// Reads the oldest item for the menu `?2` in the order of the table `?1`.
pub const SELECT_ITEM_FOR_TABLE: &'static str =
    "SELECT i.id, i.order_id, i.menu_id, i.cooking_time, i.quantity FROM order_items i JOIN orders o ON i.order_id = o.id WHERE o.table_id = ?1 AND i.menu_id = ?2 ORDER BY i.id ASC LIMIT 1";

/// Deletes the items for the menu `?2` from the order of the table `?1`.
pub const DELETE_ORDER_ITEM: &'static str =
    "DELETE FROM order_items WHERE menu_id = ?2 AND order_id IN (SELECT id FROM orders WHERE table_id = ?1)";

/// The quantity of an order item whose request names none.
pub const DEFAULT_QUANTITY: i64 = 1;

/// How far the handling of one request has come.
#[derive(Debug)]
pub enum Progress {
    /// Nothing has been run yet.
    Start,
    /// The statement that the handler asked for was handed to the store, and
    /// this came back.
    Stored(Outcome),
}

/// What a [`Progress`] holds.
pub enum ProgressData {
    Start,
    Stored(OutcomeData),
}

impl View for Progress {
    type V = ProgressData;

    open spec fn view(&self) -> ProgressData {
        match *self {
            Progress::Start => ProgressData::Start,
            Progress::Stored(outcome) => ProgressData::Stored(outcome@),
        }
    }
}

/// What is to happen next for one request.
#[derive(Debug)]
pub enum Step {
    /// Hand this statement to the store, then ask again with its outcome.
    Execute(Command),
    /// Send this answer; the request is done.
    Respond(Reply),
}

/// What a [`Step`] holds.
pub enum StepData {
    Execute(CommandData),
    Respond(ReplyData),
}

impl View for Step {
    type V = StepData;

    open spec fn view(&self) -> StepData {
        match *self {
            Step::Execute(statement) => StepData::Execute(statement@),
            Step::Respond(reply) => StepData::Respond(reply@),
        }
    }
}

/// The body of a request to create a table.
#[derive(Debug, Clone)]
pub struct TableInput {
    pub code: Option<String>,
}

/// The body of a request to create a menu.
#[derive(Debug, Clone)]
pub struct MenuInput {
    pub name: Option<String>,
}

/// The body of a request to create an order.
#[derive(Debug, Clone, Copy)]
pub struct OrderInput {
    pub table_id: Option<i64>,
}

/// The body of a request to create an order item.
#[derive(Debug, Clone, Copy)]
pub struct OrderItemInput {
    pub order_id: Option<i64>,
    pub menu_id: Option<i64>,
    pub cooking_time: Option<i64>,
    pub quantity: Option<i64>,
}

/// The characters of a text that may be absent.
pub open spec fn text_view(text: Option<String>) -> Option<Seq<char>> {
    match text {
        Some(s) => Some(s@),
        None => None,
    }
}

/// The statement `sql` with the parameters `params`.
pub open spec fn statement(sql: &'static str, params: Seq<SqlData>) -> StepData {
    StepData::Execute(CommandData { sql: sql@, params })
}

/// The step that ends a request with the report of `error`.
pub open spec fn refuse(error: ApiError) -> StepData {
    StepData::Respond(error_reply(error))
}

/// The step that ends a request with `status` and `payload`.
pub open spec fn answer(status: u16, payload: PayloadData) -> StepData {
    StepData::Respond(ReplyData { status, payload })
}

/// The step after an outcome that the handler has no use for: a failure is
/// reported as what it is, anything else as the store's own error.
pub open spec fn unexpected(outcome: OutcomeData) -> StepData {
    match outcome {
        OutcomeData::Failed(failure) => refuse(classify_spec(failure)),
        _ => refuse(ApiError::Store),
    }
}

/// The parameter that carries an optional menu reference.
pub open spec fn menu_param(menu_id: Option<i64>) -> SqlData {
    match menu_id {
        Some(id) => SqlData::Integer(id),
        None => SqlData::Null,
    }
}

/// The quantity that a request asks for: the one it names, or one.
pub open spec fn quantity_or_default(quantity: Option<i64>) -> i64 {
    match quantity {
        Some(q) => q,
        None => DEFAULT_QUANTITY,
    }
}

/// Whether a request to create an order item is complete and well-typed:
/// it names its order, and a cooking time that is no negative duration.
pub open spec fn valid_item_input(input: OrderItemInput) -> bool {
    input.order_id is Some && input.cooking_time is Some && input.cooking_time->0 >= 0
}

/// Create Table, as a function of the request and of how far it has come.
pub open spec fn create_table_step_spec(code: Option<Seq<char>>, progress: ProgressData)
    -> StepData {
    match code {
        None => refuse(ApiError::Validation),
        Some(code) => match progress {
            ProgressData::Start => statement(INSERT_TABLE, seq![SqlData::Text(code)]),
            ProgressData::Stored(OutcomeData::Changed { rows, last_id }) => if rows == 1 {
                answer(STATUS_CREATED, PayloadData::Table(TableData { id: last_id, code }))
            } else {
                refuse(ApiError::Store)
            },
            ProgressData::Stored(outcome) => unexpected(outcome),
        },
    }
}

/// Create Menu, as a function of the request and of how far it has come.
pub open spec fn create_menu_step_spec(name: Option<Seq<char>>, progress: ProgressData)
    -> StepData {
    match name {
        None => refuse(ApiError::Validation),
        Some(name) => match progress {
            ProgressData::Start => statement(INSERT_MENU, seq![SqlData::Text(name)]),
            ProgressData::Stored(OutcomeData::Changed { rows, last_id }) => if rows == 1 {
                answer(STATUS_CREATED, PayloadData::Menu(MenuData { id: last_id, name }))
            } else {
                refuse(ApiError::Store)
            },
            ProgressData::Stored(outcome) => unexpected(outcome),
        },
    }
}

/// Create Order, as a function of the request and of how far it has come.
pub open spec fn create_order_step_spec(input: OrderInput, progress: ProgressData) -> StepData {
    match input.table_id {
        None => refuse(ApiError::Validation),
        Some(table_id) => match progress {
            ProgressData::Start => statement(INSERT_ORDER, seq![SqlData::Integer(table_id)]),
            ProgressData::Stored(OutcomeData::Changed { rows, last_id }) => if rows == 1 {
                answer(STATUS_CREATED, PayloadData::Order(Order { id: last_id, table_id }))
            } else {
                refuse(ApiError::Store)
            },
            ProgressData::Stored(outcome) => unexpected(outcome),
        },
    }
}

/// Create Order Item, as a function of the request and of how far it has come.
pub open spec fn create_order_item_step_spec(input: OrderItemInput, progress: ProgressData)
    -> StepData {
    if !valid_item_input(input) {
        refuse(ApiError::Validation)
    } else {
        let order_id = input.order_id->0;
        let cooking_time = input.cooking_time->0;
        let quantity = quantity_or_default(input.quantity);
        match progress {
            ProgressData::Start => statement(
                INSERT_ORDER_ITEM,
                seq![
                    SqlData::Integer(order_id),
                    menu_param(input.menu_id),
                    SqlData::Integer(cooking_time),
                    SqlData::Integer(quantity),
                ],
            ),
            ProgressData::Stored(OutcomeData::Changed { rows, last_id }) => if rows == 1 {
                answer(
                    STATUS_CREATED,
                    PayloadData::Item(
                        OrderItem {
                            id: last_id,
                            order_id,
                            menu_id: input.menu_id,
                            cooking_time,
                            quantity,
                        },
                    ),
                )
            } else {
                refuse(ApiError::Store)
            },
            ProgressData::Stored(outcome) => unexpected(outcome),
        }
    }
}

/// List Tables, as a function of how far the request has come.
pub open spec fn list_table_step_spec(progress: ProgressData) -> StepData {
    match progress {
        ProgressData::Start => statement(SELECT_TABLES, Seq::empty()),
        ProgressData::Stored(OutcomeData::Rows(rows)) => match tables_of_rows(rows) {
            Some(tables) => answer(STATUS_OK, PayloadData::Tables(tables)),
            None => refuse(ApiError::Store),
        },
        ProgressData::Stored(outcome) => unexpected(outcome),
    }
}

/// List Menus, as a function of how far the request has come.
pub open spec fn list_menu_step_spec(progress: ProgressData) -> StepData {
    match progress {
        ProgressData::Start => statement(SELECT_MENUS, Seq::empty()),
        ProgressData::Stored(OutcomeData::Rows(rows)) => match menus_of_rows(rows) {
            Some(menus) => answer(STATUS_OK, PayloadData::Menus(menus)),
            None => refuse(ApiError::Store),
        },
        ProgressData::Stored(outcome) => unexpected(outcome),
    }
}

/// List Orders, as a function of how far the request has come.
pub open spec fn list_order_step_spec(progress: ProgressData) -> StepData {
    match progress {
        ProgressData::Start => statement(SELECT_ORDERS, Seq::empty()),
        ProgressData::Stored(OutcomeData::Rows(rows)) => match orders_of_rows(rows) {
            Some(orders) => answer(STATUS_OK, PayloadData::Orders(orders)),
            None => refuse(ApiError::Store),
        },
        ProgressData::Stored(outcome) => unexpected(outcome),
    }
}

/// List Order Items For Table, as a function of the table and of how far the
/// request has come. No rows is an empty list, not an error.
pub open spec fn list_order_items_for_table_step_spec(table_id: i64, progress: ProgressData)
    -> StepData {
    match progress {
        ProgressData::Start => statement(SELECT_ITEMS_FOR_TABLE, seq![SqlData::Integer(table_id)]),
        ProgressData::Stored(OutcomeData::Rows(rows)) => match items_of_rows(rows) {
            Some(items) => answer(STATUS_OK, PayloadData::Items(items)),
            None => refuse(ApiError::Store),
        },
        ProgressData::Stored(outcome) => unexpected(outcome),
    }
}

/// Get Order Item For Table, as a function of the table, the menu and of how
/// far the request has come. No rows means that there is no such item.
pub open spec fn get_order_item_for_table_step_spec(
    table_id: i64,
    menu_id: i64,
    progress: ProgressData,
) -> StepData {
    match progress {
        ProgressData::Start => statement(
            SELECT_ITEM_FOR_TABLE,
            seq![SqlData::Integer(table_id), SqlData::Integer(menu_id)],
        ),
        ProgressData::Stored(OutcomeData::Rows(rows)) => if rows.len() == 0 {
            refuse(ApiError::NotFound)
        } else {
            match item_of_row(rows[0]) {
                Some(item) => answer(STATUS_OK, PayloadData::Item(item)),
                None => refuse(ApiError::Store),
            }
        },
        ProgressData::Stored(outcome) => unexpected(outcome),
    }
}

/// Delete Order Item, as a function of the table, the menu and of how far the
/// request has come. Deleting nothing means that there was no such item.
pub open spec fn delete_order_item_step_spec(table_id: i64, menu_id: i64, progress: ProgressData)
    -> StepData {
    match progress {
        ProgressData::Start => statement(
            DELETE_ORDER_ITEM,
            seq![SqlData::Integer(table_id), SqlData::Integer(menu_id)],
        ),
        ProgressData::Stored(OutcomeData::Changed { rows, last_id }) => if rows == 0 {
            refuse(ApiError::NotFound)
        } else {
            answer(STATUS_NO_CONTENT, PayloadData::Empty)
        },
        ProgressData::Stored(outcome) => unexpected(outcome),
    }
}

/// Ends a request with the report of `error`.
pub fn refuse_with(error: ApiError) -> (step: Step)
    ensures
        step@ == refuse(error),
{
    Step::Respond(Reply::from_error(error))
}

/// Ends a request after an outcome that its handler has no use for.
pub fn refuse_unexpected(outcome: &Outcome) -> (step: Step)
    ensures
        step@ == unexpected(outcome@),
{
    match outcome {
        Outcome::Failed(failure) => refuse_with(classify(*failure)),
        _ => refuse_with(ApiError::Store),
    }
}

/// Asks the store to run `sql` without parameters.
fn ask(sql: &'static str) -> (step: Step)
    ensures
        step@ == statement(sql, Seq::empty()),
{
    let params: Vec<SqlValue> = Vec::new();
    assert(values_view(params@) =~= Seq::<SqlData>::empty());
    Step::Execute(Command { sql, params })
}

/// Asks the store to run `sql` with one parameter.
fn ask_with(sql: &'static str, first: SqlValue) -> (step: Step)
    ensures
        step@ == statement(sql, seq![first@]),
{
    let mut params: Vec<SqlValue> = Vec::new();
    params.push(first);
    assert(values_view(params@) =~= seq![first@]);
    Step::Execute(Command { sql, params })
}

/// Asks the store to run `sql` with two integer parameters.
fn ask_with_pair(sql: &'static str, first: i64, second: i64) -> (step: Step)
    ensures
        step@ == statement(sql, seq![SqlData::Integer(first), SqlData::Integer(second)]),
{
    let mut params: Vec<SqlValue> = Vec::new();
    params.push(SqlValue::Integer(first));
    params.push(SqlValue::Integer(second));
    assert(values_view(params@) =~= seq![SqlData::Integer(first), SqlData::Integer(second)]);
    Step::Execute(Command { sql, params })
}

/// One step of Create Table: the statement to run at the start, and the answer to
/// what the store reports of it.
pub fn create_table_step(input: &TableInput, progress: &Progress) -> (step: Step)
    ensures
        step@ == create_table_step_spec(text_view(input.code), progress@),
{
    let code = match &input.code {
        None => {
            return refuse_with(ApiError::Validation);
        },
        Some(code) => code,
    };
    match progress {
        Progress::Start => ask_with(INSERT_TABLE, SqlValue::Text(code.clone())),
        Progress::Stored(Outcome::Changed { rows, last_id }) => {
            if *rows == 1 {
                Step::Respond(
                    Reply {
                        status: STATUS_CREATED,
                        payload: Payload::Table(Table { id: *last_id, code: code.clone() }),
                    },
                )
            } else {
                refuse_with(ApiError::Store)
            }
        },
        Progress::Stored(outcome) => refuse_unexpected(outcome),
    }
}

/// One step of Create Menu: the statement to run at the start, and the answer to
/// what the store reports of it.
pub fn create_menu_step(input: &MenuInput, progress: &Progress) -> (step: Step)
    ensures
        step@ == create_menu_step_spec(text_view(input.name), progress@),
{
    let name = match &input.name {
        None => {
            return refuse_with(ApiError::Validation);
        },
        Some(name) => name,
    };
    match progress {
        Progress::Start => ask_with(INSERT_MENU, SqlValue::Text(name.clone())),
        Progress::Stored(Outcome::Changed { rows, last_id }) => {
            if *rows == 1 {
                Step::Respond(
                    Reply {
                        status: STATUS_CREATED,
                        payload: Payload::Menu(Menu { id: *last_id, name: name.clone() }),
                    },
                )
            } else {
                refuse_with(ApiError::Store)
            }
        },
        Progress::Stored(outcome) => refuse_unexpected(outcome),
    }
}

/// One step of Create Order: the statement to run at the start, and the answer to
/// what the store reports of it.
pub fn create_order_step(input: &OrderInput, progress: &Progress) -> (step: Step)
    ensures
        step@ == create_order_step_spec(*input, progress@),
{
    let table_id = match input.table_id {
        None => {
            return refuse_with(ApiError::Validation);
        },
        Some(table_id) => table_id,
    };
    match progress {
        Progress::Start => ask_with(INSERT_ORDER, SqlValue::Integer(table_id)),
        Progress::Stored(Outcome::Changed { rows, last_id }) => {
            if *rows == 1 {
                Step::Respond(
                    Reply {
                        status: STATUS_CREATED,
                        payload: Payload::Order(Order { id: *last_id, table_id }),
                    },
                )
            } else {
                refuse_with(ApiError::Store)
            }
        },
        Progress::Stored(outcome) => refuse_unexpected(outcome),
    }
}

/// One step of Create Order Item: the statement to run at the start, and the answer to
/// what the store reports of it.
pub fn create_order_item_step(input: &OrderItemInput, progress: &Progress) -> (step: Step)
    ensures
        step@ == create_order_item_step_spec(*input, progress@),
{
    let (order_id, cooking_time) = match (input.order_id, input.cooking_time) {
        (Some(order_id), Some(cooking_time)) => (order_id, cooking_time),
        _ => {
            return refuse_with(ApiError::Validation);
        },
    };
    if cooking_time < 0 {
        return refuse_with(ApiError::Validation);
    }
    let quantity = match input.quantity {
        Some(q) => q,
        None => DEFAULT_QUANTITY,
    };
    match progress {
        Progress::Start => {
            let mut params: Vec<SqlValue> = Vec::new();
            params.push(SqlValue::Integer(order_id));
            params.push(
                match input.menu_id {
                    Some(id) => SqlValue::Integer(id),
                    None => SqlValue::Null,
                },
            );
            params.push(SqlValue::Integer(cooking_time));
            params.push(SqlValue::Integer(quantity));
            assert(values_view(params@) =~= seq![
                SqlData::Integer(order_id),
                menu_param(input.menu_id),
                SqlData::Integer(cooking_time),
                SqlData::Integer(quantity),
            ]);
            Step::Execute(Command { sql: INSERT_ORDER_ITEM, params })
        },
        Progress::Stored(Outcome::Changed { rows, last_id }) => {
            if *rows == 1 {
                Step::Respond(
                    Reply {
                        status: STATUS_CREATED,
                        payload: Payload::Item(
                            OrderItem {
                                id: *last_id,
                                order_id,
                                menu_id: input.menu_id,
                                cooking_time,
                                quantity,
                            },
                        ),
                    },
                )
            } else {
                refuse_with(ApiError::Store)
            }
        },
        Progress::Stored(outcome) => refuse_unexpected(outcome),
    }
}

/// One step of List Tables: the statement to run at the start, and the answer to
/// what the store reports of it.
pub fn list_table_step(progress: &Progress) -> (step: Step)
    ensures
        step@ == list_table_step_spec(progress@),
{
    match progress {
        Progress::Start => ask(SELECT_TABLES),
        Progress::Stored(Outcome::Rows(rows)) => match Table::list_from_rows(rows) {
            Some(tables) => Step::Respond(
                Reply { status: STATUS_OK, payload: Payload::Tables(tables) },
            ),
            None => refuse_with(ApiError::Store),
        },
        Progress::Stored(outcome) => refuse_unexpected(outcome),
    }
}

/// One step of List Menus: the statement to run at the start, and the answer to
/// what the store reports of it.
pub fn list_menu_step(progress: &Progress) -> (step: Step)
    ensures
        step@ == list_menu_step_spec(progress@),
{
    match progress {
        Progress::Start => ask(SELECT_MENUS),
        Progress::Stored(Outcome::Rows(rows)) => match Menu::list_from_rows(rows) {
            Some(menus) => Step::Respond(
                Reply { status: STATUS_OK, payload: Payload::Menus(menus) },
            ),
            None => refuse_with(ApiError::Store),
        },
        Progress::Stored(outcome) => refuse_unexpected(outcome),
    }
}

/// One step of List Orders: the statement to run at the start, and the answer to
/// what the store reports of it.
pub fn list_order_step(progress: &Progress) -> (step: Step)
    ensures
        step@ == list_order_step_spec(progress@),
{
    match progress {
        Progress::Start => ask(SELECT_ORDERS),
        Progress::Stored(Outcome::Rows(rows)) => match Order::list_from_rows(rows) {
            Some(orders) => Step::Respond(
                Reply { status: STATUS_OK, payload: Payload::Orders(orders) },
            ),
            None => refuse_with(ApiError::Store),
        },
        Progress::Stored(outcome) => refuse_unexpected(outcome),
    }
}

/// One step of List Order Items For Table: the statement to run at the start, and the answer to
/// what the store reports of it.
pub fn list_order_items_for_table_step(table_id: i64, progress: &Progress) -> (step: Step)
    ensures
        step@ == list_order_items_for_table_step_spec(table_id, progress@),
{
    match progress {
        Progress::Start => ask_with(SELECT_ITEMS_FOR_TABLE, SqlValue::Integer(table_id)),
        Progress::Stored(Outcome::Rows(rows)) => match OrderItem::list_from_rows(rows) {
            Some(items) => Step::Respond(
                Reply { status: STATUS_OK, payload: Payload::Items(items) },
            ),
            None => refuse_with(ApiError::Store),
        },
        Progress::Stored(outcome) => refuse_unexpected(outcome),
    }
}

/// One step of Get Order Item For Table: the statement to run at the start, and the answer to
/// what the store reports of it.
pub fn get_order_item_for_table_step(
    table_id: i64,
    menu_id: i64,
    progress: &Progress,
) -> (step: Step)
    ensures
        step@ == get_order_item_for_table_step_spec(table_id, menu_id, progress@),
{
    match progress {
        Progress::Start => ask_with_pair(SELECT_ITEM_FOR_TABLE, table_id, menu_id),
        Progress::Stored(Outcome::Rows(rows)) => {
            if rows.len() == 0 {
                return refuse_with(ApiError::NotFound);
            }
            match OrderItem::from_row(&rows[0]) {
                Some(item) => Step::Respond(
                    Reply { status: STATUS_OK, payload: Payload::Item(item) },
                ),
                None => refuse_with(ApiError::Store),
            }
        },
        Progress::Stored(outcome) => refuse_unexpected(outcome),
    }
}

/// One step of Delete Order Item: the statement to run at the start, and the answer to
/// what the store reports of it.
pub fn delete_order_item_step(table_id: i64, menu_id: i64, progress: &Progress) -> (step: Step)
    ensures
        step@ == delete_order_item_step_spec(table_id, menu_id, progress@),
{
    match progress {
        Progress::Start => ask_with_pair(DELETE_ORDER_ITEM, table_id, menu_id),
        Progress::Stored(Outcome::Changed { rows, last_id }) => {
            if *rows == 0 {
                refuse_with(ApiError::NotFound)
            } else {
                Step::Respond(Reply { status: STATUS_NO_CONTENT, payload: Payload::Empty })
            }
        },
        Progress::Stored(outcome) => refuse_unexpected(outcome),
    }
}

/// What the store has been asked once a handler has carried out its first
/// step: the statement of that step on top of what it had been asked before,
/// or no more than before where the step is an answer.
pub open spec fn asked_after(before: Seq<CommandData>, first: StepData) -> Seq<CommandData> {
    match first {
        StepData::Respond(_) => before,
        StepData::Execute(command) => before.push(command),
    }
}

/// Carries a first step out: an answer is passed on, a statement is handed
/// to the store and its outcome handed back.
pub(crate) fn carry_out(store: &mut Store, step: Step) -> (r: Result<Reply, Outcome>)
    ensures
        match step@ {
            StepData::Respond(reply) => r matches Ok(passed) && passed@ == reply,
            StepData::Execute(_) => r is Err,
        },
        final(store).asked() == asked_after(old(store).asked(), step@),
{
    match step {
        Step::Respond(reply) => Ok(reply),
        Step::Execute(command) => Err(run(store, &command)),
    }
}

/// The answer of a step that is one.
pub(crate) fn conclude(step: Step) -> (reply: Reply)
    requires
        step@ is Respond,
    ensures
        step@ == StepData::Respond(reply@),
{
    match step {
        Step::Respond(reply) => reply,
        Step::Execute(_) => Reply::from_error(ApiError::Store),
    }
}

/// Create Table: inserts a row with the given code and answers with the
/// created record. A missing code is a validation error; a code that is
/// already taken is a conflict.
/// Hands one statement to the store, or none where the request is refused
/// outright.
pub fn create_table_handler(store: &mut Store, input: &TableInput) -> (reply: Reply)
    ensures
        final(store).asked() == asked_after(
            old(store).asked(),
            create_table_step_spec(text_view(input.code), ProgressData::Start),
        ),
        match create_table_step_spec(text_view(input.code), ProgressData::Start) {
            StepData::Respond(early) => reply@ == early,
            StepData::Execute(_) => exists|outcome: OutcomeData|
                #[trigger] create_table_step_spec(
                    text_view(input.code),
                    ProgressData::Stored(outcome),
                ) == StepData::Respond(reply@),
        },
        sound_reply(reply@),
{
    match carry_out(store, create_table_step(input, &Progress::Start)) {
        Ok(reply) => reply,
        Err(outcome) => conclude(create_table_step(input, &Progress::Stored(outcome))),
    }
}

/// Create Menu: inserts a row with the given name and answers with the
/// created record. A missing name is a validation error.
/// Hands one statement to the store, or none where the request is refused
/// outright.
pub fn create_menu_handler(store: &mut Store, input: &MenuInput) -> (reply: Reply)
    ensures
        final(store).asked() == asked_after(
            old(store).asked(),
            create_menu_step_spec(text_view(input.name), ProgressData::Start),
        ),
        match create_menu_step_spec(text_view(input.name), ProgressData::Start) {
            StepData::Respond(early) => reply@ == early,
            StepData::Execute(_) => exists|outcome: OutcomeData|
                #[trigger] create_menu_step_spec(
                    text_view(input.name),
                    ProgressData::Stored(outcome),
                ) == StepData::Respond(reply@),
        },
        sound_reply(reply@),
{
    match carry_out(store, create_menu_step(input, &Progress::Start)) {
        Ok(reply) => reply,
        Err(outcome) => conclude(create_menu_step(input, &Progress::Stored(outcome))),
    }
}

/// Create Order: inserts an order for the given table and answers with the
/// created record. A missing table id is a validation error; a table that
/// does not exist is not found; a table that already has an order is a
/// conflict.
/// Hands one statement to the store, or none where the request is refused
/// outright.
pub fn create_order_handler(store: &mut Store, input: &OrderInput) -> (reply: Reply)
    ensures
        final(store).asked() == asked_after(
            old(store).asked(),
            create_order_step_spec(*input, ProgressData::Start),
        ),
        match create_order_step_spec(*input, ProgressData::Start) {
            StepData::Respond(early) => reply@ == early,
            StepData::Execute(_) => exists|outcome: OutcomeData|
                #[trigger] create_order_step_spec(
                    *input,
                    ProgressData::Stored(outcome),
                ) == StepData::Respond(reply@),
        },
        sound_reply(reply@),
{
    match carry_out(store, create_order_step(input, &Progress::Start)) {
        Ok(reply) => reply,
        Err(outcome) => conclude(create_order_step(input, &Progress::Stored(outcome))),
    }
}

/// Create Order Item: inserts a line item and answers with the created
/// record. The order and a cooking time of zero or more are required; the
/// quantity is one unless given; without a menu id the item is off-menu. An
/// order or menu that does not exist is not found.
/// Hands one statement to the store, or none where the request is refused
/// outright.
pub fn create_order_item_handler(store: &mut Store, input: &OrderItemInput) -> (reply: Reply)
    ensures
        final(store).asked() == asked_after(
            old(store).asked(),
            create_order_item_step_spec(*input, ProgressData::Start),
        ),
        match create_order_item_step_spec(*input, ProgressData::Start) {
            StepData::Respond(early) => reply@ == early,
            StepData::Execute(_) => exists|outcome: OutcomeData|
                #[trigger] create_order_item_step_spec(
                    *input,
                    ProgressData::Stored(outcome),
                ) == StepData::Respond(reply@),
        },
        sound_reply(reply@),
{
    match carry_out(store, create_order_item_step(input, &Progress::Start)) {
        Ok(reply) => reply,
        Err(outcome) => conclude(create_order_item_step(input, &Progress::Stored(outcome))),
    }
}

/// List Tables: answers with every table, lowest id first.
/// Hands one statement to the store, or none where the request is refused
/// outright.
pub fn list_table_handler(store: &mut Store) -> (reply: Reply)
    ensures
        final(store).asked() == asked_after(
            old(store).asked(),
            list_table_step_spec(ProgressData::Start),
        ),
        match list_table_step_spec(ProgressData::Start) {
            StepData::Respond(early) => reply@ == early,
            StepData::Execute(_) => exists|outcome: OutcomeData|
                #[trigger] list_table_step_spec(
                    ProgressData::Stored(outcome),
                ) == StepData::Respond(reply@),
        },
        sound_reply(reply@),
{
    match carry_out(store, list_table_step(&Progress::Start)) {
        Ok(reply) => reply,
        Err(outcome) => conclude(list_table_step(&Progress::Stored(outcome))),
    }
}

/// List Menus: answers with every menu, lowest id first.
/// Hands one statement to the store, or none where the request is refused
/// outright.
pub fn list_menu_handler(store: &mut Store) -> (reply: Reply)
    ensures
        final(store).asked() == asked_after(
            old(store).asked(),
            list_menu_step_spec(ProgressData::Start),
        ),
        match list_menu_step_spec(ProgressData::Start) {
            StepData::Respond(early) => reply@ == early,
            StepData::Execute(_) => exists|outcome: OutcomeData|
                #[trigger] list_menu_step_spec(
                    ProgressData::Stored(outcome),
                ) == StepData::Respond(reply@),
        },
        sound_reply(reply@),
{
    match carry_out(store, list_menu_step(&Progress::Start)) {
        Ok(reply) => reply,
        Err(outcome) => conclude(list_menu_step(&Progress::Stored(outcome))),
    }
}

/// List Orders: answers with every order.
/// Hands one statement to the store, or none where the request is refused
/// outright.
pub fn list_order_handler(store: &mut Store) -> (reply: Reply)
    ensures
        final(store).asked() == asked_after(
            old(store).asked(),
            list_order_step_spec(ProgressData::Start),
        ),
        match list_order_step_spec(ProgressData::Start) {
            StepData::Respond(early) => reply@ == early,
            StepData::Execute(_) => exists|outcome: OutcomeData|
                #[trigger] list_order_step_spec(
                    ProgressData::Stored(outcome),
                ) == StepData::Respond(reply@),
        },
        sound_reply(reply@),
{
    match carry_out(store, list_order_step(&Progress::Start)) {
        Ok(reply) => reply,
        Err(outcome) => conclude(list_order_step(&Progress::Stored(outcome))),
    }
}

/// List Order Items For Table: answers with the items of the table's order,
/// and with an empty list where the table has no order or does not exist.
/// Hands one statement to the store, or none where the request is refused
/// outright.
pub fn list_order_items_for_table_handler(store: &mut Store, table_id: i64) -> (reply: Reply)
    ensures
        final(store).asked() == asked_after(
            old(store).asked(),
            list_order_items_for_table_step_spec(table_id, ProgressData::Start),
        ),
        match list_order_items_for_table_step_spec(table_id, ProgressData::Start) {
            StepData::Respond(early) => reply@ == early,
            StepData::Execute(_) => exists|outcome: OutcomeData|
                #[trigger] list_order_items_for_table_step_spec(
                    table_id,
                    ProgressData::Stored(outcome),
                ) == StepData::Respond(reply@),
        },
        sound_reply(reply@),
{
    match carry_out(store, list_order_items_for_table_step(table_id, &Progress::Start)) {
        Ok(reply) => reply,
        Err(outcome) => conclude(
            list_order_items_for_table_step(table_id, &Progress::Stored(outcome)),
        ),
    }
}

/// Get Order Item For Table: answers with the item of the table's order that
/// is for the given menu, or with not found. Off-menu items have no menu and
/// are never found this way.
/// Hands one statement to the store, or none where the request is refused
/// outright.
pub fn get_order_item_for_table_handler(
    store: &mut Store,
    table_id: i64,
    menu_id: i64,
) -> (reply: Reply)
    ensures
        final(store).asked() == asked_after(
            old(store).asked(),
            get_order_item_for_table_step_spec(table_id, menu_id, ProgressData::Start),
        ),
        match get_order_item_for_table_step_spec(table_id, menu_id, ProgressData::Start) {
            StepData::Respond(early) => reply@ == early,
            StepData::Execute(_) => exists|outcome: OutcomeData|
                #[trigger] get_order_item_for_table_step_spec(
                    table_id,
                    menu_id,
                    ProgressData::Stored(outcome),
                ) == StepData::Respond(reply@),
        },
        sound_reply(reply@),
{
    match carry_out(store, get_order_item_for_table_step(table_id, menu_id, &Progress::Start)) {
        Ok(reply) => reply,
        Err(outcome) => conclude(
            get_order_item_for_table_step(table_id, menu_id, &Progress::Stored(outcome)),
        ),
    }
}

/// Delete Order Item: deletes the items of the table's order that are for the
/// given menu and answers with no content, or with not found if there was
/// none to delete.
/// Hands one statement to the store, or none where the request is refused
/// outright.
pub fn delete_order_item_handler(store: &mut Store, table_id: i64, menu_id: i64) -> (reply: Reply)
    ensures
        final(store).asked() == asked_after(
            old(store).asked(),
            delete_order_item_step_spec(table_id, menu_id, ProgressData::Start),
        ),
        match delete_order_item_step_spec(table_id, menu_id, ProgressData::Start) {
            StepData::Respond(early) => reply@ == early,
            StepData::Execute(_) => exists|outcome: OutcomeData|
                #[trigger] delete_order_item_step_spec(
                    table_id,
                    menu_id,
                    ProgressData::Stored(outcome),
                ) == StepData::Respond(reply@),
        },
        sound_reply(reply@),
{
    match carry_out(store, delete_order_item_step(table_id, menu_id, &Progress::Start)) {
        Ok(reply) => reply,
        Err(outcome) => conclude(
            delete_order_item_step(table_id, menu_id, &Progress::Stored(outcome)),
        ),
    }
}

} // verus!
