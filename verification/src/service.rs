//! Where routes meet handlers: a request goes to the handler of its target,
//! with the path's integers, the parsed body and a handle on the store.

use vstd::prelude::*;
use crate::handlers::{
    asked_after, carry_out, conclude, create_menu_step, create_menu_step_spec, create_order_step,
    create_order_step_spec, create_table_step, create_table_step_spec, delete_order_item_step,
    delete_order_item_step_spec, get_order_item_for_table_step,
    get_order_item_for_table_step_spec, list_menu_step, list_menu_step_spec,
    list_order_items_for_table_step, list_order_items_for_table_step_spec, list_order_step,
    list_order_step_spec, list_table_step, list_table_step_spec, text_view, MenuInput,
    OrderInput, Progress, ProgressData, Step, StepData, TableInput,
};
use crate::reply::{sound_reply, Reply, ReplyData};
use crate::routes::{
    dispatch, dispatch_spec, handle_rejection, rejection_reply, Method, Rejection, Target,
};
use crate::db::Store;
use crate::store::OutcomeData;

verus! {

/// The kind of JSON body that a target takes.
#[derive(Debug, Clone, Copy, PartialEq, Eq, Structural)]
pub enum BodyKind {
    /// The target reads no body.
    Nothing,
    /// An object with the key `code`.
    Table,
    /// An object with the key `name`.
    Menu,
    /// An object with the key `table_id`.
    Order,
}

/// The body of a request, as far as it could be read.
#[derive(Debug, Clone)]
pub enum Body {
    /// No body was read, because the target takes none.
    Nothing,
    /// The bytes are not JSON, or not an object of the expected types.
    Malformed,
    Table(TableInput),
    Menu(MenuInput),
    Order(OrderInput),
}

/// What a [`Body`] holds.
pub enum BodyData {
    Nothing,
    Malformed,
    Table(Option<Seq<char>>),
    Menu(Option<Seq<char>>),
    Order(OrderInput),
}

impl View for Body {
    type V = BodyData;

    open spec fn view(&self) -> BodyData {
        match *self {
            Body::Nothing => BodyData::Nothing,
            Body::Malformed => BodyData::Malformed,
            Body::Table(input) => BodyData::Table(text_view(input.code)),
            Body::Menu(input) => BodyData::Menu(text_view(input.name)),
            Body::Order(input) => BodyData::Order(input),
        }
    }
}

/// The kind of body that each target takes: the three creates take one, the
/// rest take none.
pub open spec fn body_kind_of(target: Target) -> BodyKind {
    match target {
        Target::CreateTable => BodyKind::Table,
        Target::CreateMenu => BodyKind::Menu,
        Target::CreateOrder => BodyKind::Order,
        _ => BodyKind::Nothing,
    }
}

/// The step that ends a request whose body is not what its target takes.
pub open spec fn bad_body() -> StepData {
    StepData::Respond(rejection_reply(Rejection::BodyDeserialize))
}

/// What serving a target comes to: the step of its handler. A create whose
/// body is missing, malformed or of another kind is a bad request; the other
/// targets do not look at the body.
pub open spec fn serve_step_spec(target: Target, body: BodyData, progress: ProgressData)
    -> StepData {
    match target {
        Target::ListTables => list_table_step_spec(progress),
        Target::ListMenus => list_menu_step_spec(progress),
        Target::ListOrders => list_order_step_spec(progress),
        Target::CreateTable => match body {
            BodyData::Table(code) => create_table_step_spec(code, progress),
            _ => bad_body(),
        },
        Target::CreateMenu => match body {
            BodyData::Menu(name) => create_menu_step_spec(name, progress),
            _ => bad_body(),
        },
        Target::CreateOrder => match body {
            BodyData::Order(input) => create_order_step_spec(input, progress),
            _ => bad_body(),
        },
        Target::ListOrderItemsForTable { table_id } => list_order_items_for_table_step_spec(
            table_id,
            progress,
        ),
        Target::GetOrderItemForTable { table_id, menu_id } => get_order_item_for_table_step_spec(
            table_id,
            menu_id,
            progress,
        ),
        Target::DeleteOrderItem { table_id, menu_id } => delete_order_item_step_spec(
            table_id,
            menu_id,
            progress,
        ),
    }
}

/// Whether `reply` is an answer to serving a target: the answer of the first
/// step if that is one, and else the answer of the step after some outcome
/// of the store.
pub open spec fn served(target: Target, body: BodyData, reply: ReplyData) -> bool {
    match serve_step_spec(target, body, ProgressData::Start) {
        StepData::Respond(early) => reply == early,
        StepData::Execute(_) => exists|outcome: OutcomeData|
            #[trigger] serve_step_spec(target, body, ProgressData::Stored(outcome))
                == StepData::Respond(reply),
    }
}

/// The kind of body to read for a target.
pub fn body_kind(target: Target) -> (kind: BodyKind)
    ensures
        kind == body_kind_of(target),
{
    match target {
        Target::CreateTable => BodyKind::Table,
        Target::CreateMenu => BodyKind::Menu,
        Target::CreateOrder => BodyKind::Order,
        _ => BodyKind::Nothing,
    }
}

/// Ends a request whose body is not what its target takes.
fn reject_body() -> (step: Step)
    ensures
        step@ == bad_body(),
{
    Step::Respond(handle_rejection(Rejection::BodyDeserialize))
}

/// Serves a target: hands the request to its handler and gives back the
/// handler's step.
pub fn serve_step(target: Target, body: &Body, progress: &Progress) -> (step: Step)
    ensures
        step@ == serve_step_spec(target, body@, progress@),
{
    match target {
        Target::ListTables => list_table_step(progress),
        Target::ListMenus => list_menu_step(progress),
        Target::ListOrders => list_order_step(progress),
        Target::CreateTable => match body {
            Body::Table(input) => create_table_step(input, progress),
            _ => reject_body(),
        },
        Target::CreateMenu => match body {
            Body::Menu(input) => create_menu_step(input, progress),
            _ => reject_body(),
        },
        Target::CreateOrder => match body {
            Body::Order(input) => create_order_step(input, progress),
            _ => reject_body(),
        },
        Target::ListOrderItemsForTable { table_id } => list_order_items_for_table_step(
            table_id,
            progress,
        ),
        Target::GetOrderItemForTable { table_id, menu_id } => get_order_item_for_table_step(
            table_id,
            menu_id,
            progress,
        ),
        Target::DeleteOrderItem { table_id, menu_id } => delete_order_item_step(
            table_id,
            menu_id,
            progress,
        ),
    }
}

/// Serves a target on the store: hands it the statement that the target's
/// handler asks for, once, and answers as the handler says. A request that
/// is answered at once asks nothing of the store.
pub fn serve(store: &mut Store, target: Target, body: &Body) -> (reply: Reply)
    ensures
        served(target, body@, reply@),
        sound_reply(reply@),
        final(store).asked() == asked_after(
            old(store).asked(),
            serve_step_spec(target, body@, ProgressData::Start),
        ),
{
    match carry_out(store, serve_step(target, body, &Progress::Start)) {
        Ok(reply) => reply,
        Err(outcome) => conclude(serve_step(target, body, &Progress::Stored(outcome))),
    }
}

/// Handles a request from its method and path on: answers not found where
/// the route table gives no target, asking nothing of the store, and serves
/// the target otherwise.
pub fn handle_request(store: &mut Store, method: Method, path: &str, body: &Body) -> (reply:
    Reply)
    ensures
        match dispatch_spec(method, path@) {
            Some(target) => served(target, body@, reply@),
            None => reply@ == rejection_reply(Rejection::NotFound),
        },
        sound_reply(reply@),
        final(store).asked() == match dispatch_spec(method, path@) {
            Some(target) => asked_after(
                old(store).asked(),
                serve_step_spec(target, body@, ProgressData::Start),
            ),
            None => old(store).asked(),
        },
{
    match dispatch(method, path) {
        Some(target) => serve(store, target, body),
        None => handle_rejection(Rejection::NotFound),
    }
}

} // verus!
