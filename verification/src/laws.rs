//! What holds of the handlers whatever the store holds: how each failure and
//! each empty result is answered, and what a request puts into its statement.

use vstd::prelude::*;
use crate::error::{
    classify_spec, ApiError, Failure, SQLITE_CONSTRAINT_FOREIGNKEY, SQLITE_CONSTRAINT_PRIMARYKEY,
    SQLITE_CONSTRAINT_UNIQUE, STATUS_CONFLICT, STATUS_CREATED, STATUS_NOT_FOUND,
    STATUS_NO_CONTENT, STATUS_OK,
};
use crate::handlers::{
    answer, create_menu_step_spec, create_order_item_step_spec, create_order_step_spec,
    create_table_step_spec, delete_order_item_step_spec, get_order_item_for_table_step_spec,
    list_menu_step_spec, list_order_items_for_table_step_spec, list_order_step_spec,
    list_table_step_spec, refuse, statement, valid_item_input, OrderInput, OrderItemInput,
    ProgressData, StepData, DELETE_ORDER_ITEM, INSERT_ORDER_ITEM, SELECT_ITEM_FOR_TABLE,
};
use crate::model::{items_of_rows, menus_of_rows, orders_of_rows, tables_of_rows};
use crate::reply::{sound_reply, PayloadData};
use crate::routes::Target;
use crate::service::{serve_step_spec, BodyData};
use crate::store::{OutcomeData, SqlData};

verus! {

/// Whether a step ends the request with this status.
pub open spec fn responds_with(step: StepData, status: u16) -> bool {
    step matches StepData::Respond(reply) && reply.status == status
}

/// Whether a failure is a broken uniqueness or primary-key rule.
pub open spec fn is_uniqueness_failure(failure: Failure) -> bool {
    failure == (Failure::Sqlite { extended_code: SQLITE_CONSTRAINT_UNIQUE }) || failure == (
    Failure::Sqlite { extended_code: SQLITE_CONSTRAINT_PRIMARYKEY })
}

/// Whether a failure is a broken foreign key.
pub open spec fn is_foreign_key_failure(failure: Failure) -> bool {
    failure == (Failure::Sqlite { extended_code: SQLITE_CONSTRAINT_FOREIGNKEY })
}

/// Creating a table whose code the store refuses as a duplicate is a
/// conflict, for every code; the handler runs nothing more.
pub proof fn lemma_duplicate_code_is_conflict(code: Seq<char>, failure: Failure)
    requires
        is_uniqueness_failure(failure),
    ensures
        create_table_step_spec(Some(code), ProgressData::Stored(OutcomeData::Failed(failure)))
            == refuse(ApiError::Conflict),
        responds_with(
            create_table_step_spec(Some(code), ProgressData::Stored(OutcomeData::Failed(failure))),
            STATUS_CONFLICT,
        ),
{
}

/// Creating an order for a table that the store does not know is not found,
/// and creating a second order for a table is a conflict, for every table id;
/// either way the handler runs nothing more.
pub proof fn lemma_order_failures(table_id: i64, failure: Failure)
    ensures
        is_foreign_key_failure(failure) ==> create_order_step_spec(
            OrderInput { table_id: Some(table_id) },
            ProgressData::Stored(OutcomeData::Failed(failure)),
        ) == refuse(ApiError::NotFound),
        is_uniqueness_failure(failure) ==> create_order_step_spec(
            OrderInput { table_id: Some(table_id) },
            ProgressData::Stored(OutcomeData::Failed(failure)),
        ) == refuse(ApiError::Conflict),
{
}

/// A create answers created only after the store has inserted exactly one
/// row, and then with the id that the store gave it.
pub proof fn lemma_created_only_after_insert(
    code: Seq<char>,
    name: Seq<char>,
    order: OrderInput,
    progress: ProgressData,
)
    ensures
        responds_with(create_table_step_spec(Some(code), progress), STATUS_CREATED) <==> (
        progress matches ProgressData::Stored(OutcomeData::Changed { rows, .. }) && rows == 1),
        responds_with(create_menu_step_spec(Some(name), progress), STATUS_CREATED) <==> (
        progress matches ProgressData::Stored(OutcomeData::Changed { rows, .. }) && rows == 1),
        order.table_id is Some ==> (responds_with(
            create_order_step_spec(order, progress),
            STATUS_CREATED,
        ) <==> (progress matches ProgressData::Stored(OutcomeData::Changed { rows, .. }) && rows
            == 1)),
{
}

/// A list answers with one record for each row that the store gave, in the
/// same order, so the same rows always give the same answer.
pub proof fn lemma_list_keeps_rows(rows: Seq<Seq<SqlData>>, table_id: i64)
    ensures
        tables_of_rows(rows) matches Some(tables) ==> tables.len() == rows.len()
            && list_table_step_spec(ProgressData::Stored(OutcomeData::Rows(rows))) == answer(
            STATUS_OK,
            PayloadData::Tables(tables),
        ),
        menus_of_rows(rows) matches Some(menus) ==> menus.len() == rows.len()
            && list_menu_step_spec(ProgressData::Stored(OutcomeData::Rows(rows))) == answer(
            STATUS_OK,
            PayloadData::Menus(menus),
        ),
        orders_of_rows(rows) matches Some(orders) ==> orders.len() == rows.len()
            && list_order_step_spec(ProgressData::Stored(OutcomeData::Rows(rows))) == answer(
            STATUS_OK,
            PayloadData::Orders(orders),
        ),
        items_of_rows(rows) matches Some(items) ==> items.len() == rows.len()
            && list_order_items_for_table_step_spec(
            table_id,
            ProgressData::Stored(OutcomeData::Rows(rows)),
        ) == answer(STATUS_OK, PayloadData::Items(items)),
{
}

/// Listing the items of a table for which the store has no rows answers with
/// an empty list and not with an error.
pub proof fn lemma_no_items_is_empty_list(table_id: i64)
    ensures
        list_order_items_for_table_step_spec(
            table_id,
            ProgressData::Stored(OutcomeData::Rows(Seq::empty())),
        ) == answer(STATUS_OK, PayloadData::Items(Seq::empty())),
{
    let rows = Seq::<Seq<SqlData>>::empty();
    assert(items_of_rows(rows)->0 =~= Seq::empty());
}

/// Deleting an order item that does not exist is not found: when the store
/// ran the delete, the answer is not found if nothing was deleted and no
/// content otherwise, and never anything else.
pub proof fn lemma_delete_missing_is_not_found(table_id: i64, menu_id: i64, rows: u64, last_id: i64)
    ensures
        rows == 0 ==> delete_order_item_step_spec(
            table_id,
            menu_id,
            ProgressData::Stored(OutcomeData::Changed { rows, last_id }),
        ) == refuse(ApiError::NotFound),
        rows > 0 ==> delete_order_item_step_spec(
            table_id,
            menu_id,
            ProgressData::Stored(OutcomeData::Changed { rows, last_id }),
        ) == answer(STATUS_NO_CONTENT, PayloadData::Empty),
        responds_with(
            delete_order_item_step_spec(
                table_id,
                menu_id,
                ProgressData::Stored(OutcomeData::Changed { rows, last_id }),
            ),
            if rows == 0 {
                STATUS_NOT_FOUND
            } else {
                STATUS_NO_CONTENT
            },
        ),
{
}

/// An order item is stored with the quantity one unless the request names
/// another, and without a menu reference unless the request names one; the
/// created record says the same.
pub proof fn lemma_item_defaults(input: OrderItemInput, last_id: i64)
    requires
        valid_item_input(input),
    ensures
        create_order_item_step_spec(input, ProgressData::Start) matches StepData::Execute(run) && {
            &&& run.sql == INSERT_ORDER_ITEM@
            &&& run.params.len() == 4
            &&& input.menu_id is None ==> run.params[1] == SqlData::Null
            &&& input.menu_id matches Some(menu_id) ==> run.params[1] == SqlData::Integer(menu_id)
            &&& input.quantity is None ==> run.params[3] == SqlData::Integer(1)
            &&& input.quantity matches Some(quantity) ==> run.params[3] == SqlData::Integer(
                quantity,
            )
        },
        create_order_item_step_spec(
            input,
            ProgressData::Stored(OutcomeData::Changed { rows: 1, last_id }),
        ) matches StepData::Respond(reply) && reply.status == STATUS_CREATED && (
        reply.payload matches PayloadData::Item(item) && {
            &&& item.id == last_id
            &&& item.menu_id == input.menu_id
            &&& input.quantity is None ==> item.quantity == 1
            &&& input.quantity matches Some(quantity) ==> item.quantity == quantity
        }),
{
}

/// Looking an item up by table and menu always names a menu: the statement
/// compares the menu column with an integer, never with `NULL`, so an item
/// without a menu reference is not found this way. Deleting does the same.
pub proof fn lemma_lookup_is_menu_keyed(table_id: i64, menu_id: i64)
    ensures
        get_order_item_for_table_step_spec(table_id, menu_id, ProgressData::Start) == statement(
            SELECT_ITEM_FOR_TABLE,
            seq![SqlData::Integer(table_id), SqlData::Integer(menu_id)],
        ),
        delete_order_item_step_spec(table_id, menu_id, ProgressData::Start) == statement(
            DELETE_ORDER_ITEM,
            seq![SqlData::Integer(table_id), SqlData::Integer(menu_id)],
        ),
        get_order_item_for_table_step_spec(
            table_id,
            menu_id,
            ProgressData::Stored(OutcomeData::Rows(Seq::empty())),
        ) == refuse(ApiError::NotFound),
{
}

/// No handler blames the request for what the store did: once a statement has
/// been handed to the store, a failure is answered as not found, conflict or
/// the store's own error, by the kind of the failure alone.
pub proof fn lemma_failures_answered_alike(
    code: Seq<char>,
    name: Seq<char>,
    table_id: i64,
    menu_id: i64,
    failure: Failure,
)
    ensures
        classify_spec(failure) != ApiError::Validation,
        create_table_step_spec(Some(code), ProgressData::Stored(OutcomeData::Failed(failure)))
            == refuse(classify_spec(failure)),
        create_menu_step_spec(Some(name), ProgressData::Stored(OutcomeData::Failed(failure)))
            == refuse(classify_spec(failure)),
        create_order_step_spec(
            OrderInput { table_id: Some(table_id) },
            ProgressData::Stored(OutcomeData::Failed(failure)),
        ) == refuse(classify_spec(failure)),
        list_table_step_spec(ProgressData::Stored(OutcomeData::Failed(failure))) == refuse(
            classify_spec(failure),
        ),
        list_menu_step_spec(ProgressData::Stored(OutcomeData::Failed(failure))) == refuse(
            classify_spec(failure),
        ),
        list_order_step_spec(ProgressData::Stored(OutcomeData::Failed(failure))) == refuse(
            classify_spec(failure),
        ),
        list_order_items_for_table_step_spec(
            table_id,
            ProgressData::Stored(OutcomeData::Failed(failure)),
        ) == refuse(classify_spec(failure)),
        get_order_item_for_table_step_spec(
            table_id,
            menu_id,
            ProgressData::Stored(OutcomeData::Failed(failure)),
        ) == refuse(classify_spec(failure)),
        delete_order_item_step_spec(
            table_id,
            menu_id,
            ProgressData::Stored(OutcomeData::Failed(failure)),
        ) == refuse(classify_spec(failure)),
{
}

/// The text of a statement does not depend on the request: whatever the
/// request holds, a handler that runs a statement runs its one fixed text, and
/// the request's data is in the parameters alone.
pub proof fn lemma_statement_text_is_fixed(
    code_a: Seq<char>,
    code_b: Seq<char>,
    input_a: OrderItemInput,
    input_b: OrderItemInput,
)
    requires
        valid_item_input(input_a),
        valid_item_input(input_b),
    ensures
        create_table_step_spec(Some(code_a), ProgressData::Start)->Execute_0.sql
            == create_table_step_spec(Some(code_b), ProgressData::Start)->Execute_0.sql,
        create_table_step_spec(Some(code_a), ProgressData::Start)->Execute_0.params == seq![
            SqlData::Text(code_a),
        ],
        create_order_item_step_spec(input_a, ProgressData::Start)->Execute_0.sql
            == create_order_item_step_spec(input_b, ProgressData::Start)->Execute_0.sql,
{
}

/// Every operation is a single attempt: once the store has reported on the
/// statement of a request, the request is answered, whatever was reported. No
/// second statement runs and nothing is tried again.
pub proof fn lemma_single_attempt(
    target: Target,
    body: BodyData,
    outcome: OutcomeData,
    item: OrderItemInput,
)
    ensures
        serve_step_spec(target, body, ProgressData::Stored(outcome)) is Respond,
        create_order_item_step_spec(item, ProgressData::Stored(outcome)) is Respond,
{
}

/// Every answer of the service is sound, whatever the request and whatever
/// the store reported.
pub proof fn lemma_answers_are_sound(
    target: Target,
    body: BodyData,
    progress: ProgressData,
    item: OrderItemInput,
)
    ensures
        serve_step_spec(target, body, progress) matches StepData::Respond(reply) ==> sound_reply(
            reply,
        ),
        create_order_item_step_spec(item, progress) matches StepData::Respond(reply)
            ==> sound_reply(reply),
{
}

} // verus!
