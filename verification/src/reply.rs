//! What the service answers: a status and a payload.

use vstd::prelude::*;
use crate::error::{
    ApiError, STATUS_BAD_REQUEST, STATUS_CONFLICT, STATUS_CREATED, STATUS_INTERNAL_SERVER_ERROR,
    STATUS_NOT_FOUND, STATUS_NO_CONTENT, STATUS_OK,
};
use crate::routes::BODY_DESERIALIZE_MESSAGE;
use crate::model::{menus_view, tables_view, Menu, MenuData, Order, OrderItem, Table, TableData};

verus! {

/// The body of an answer, before it is written as JSON.
#[derive(Debug)]
pub enum Payload {
    /// No body at all.
    Empty,
    /// An error message, sent as the value of the key `error`.
    Error(&'static str),
    Table(Table),
    Menu(Menu),
    Order(Order),
    Item(OrderItem),
    Tables(Vec<Table>),
    Menus(Vec<Menu>),
    Orders(Vec<Order>),
    Items(Vec<OrderItem>),
}

/// What a [`Payload`] holds.
pub enum PayloadData {
    Empty,
    Error(Seq<char>),
    Table(TableData),
    Menu(MenuData),
    Order(Order),
    Item(OrderItem),
    Tables(Seq<TableData>),
    Menus(Seq<MenuData>),
    Orders(Seq<Order>),
    Items(Seq<OrderItem>),
}

impl View for Payload {
    type V = PayloadData;

    open spec fn view(&self) -> PayloadData {
        match *self {
            Payload::Empty => PayloadData::Empty,
            Payload::Error(message) => PayloadData::Error(message@),
            Payload::Table(table) => PayloadData::Table(table@),
            Payload::Menu(menu) => PayloadData::Menu(menu@),
            Payload::Order(order) => PayloadData::Order(order),
            Payload::Item(item) => PayloadData::Item(item),
            Payload::Tables(tables) => PayloadData::Tables(tables_view(tables@)),
            Payload::Menus(menus) => PayloadData::Menus(menus_view(menus@)),
            Payload::Orders(orders) => PayloadData::Orders(orders@),
            Payload::Items(items) => PayloadData::Items(items@),
        }
    }
}

/// One answer of the service.
#[derive(Debug)]
pub struct Reply {
    pub status: u16,
    pub payload: Payload,
}

/// What a [`Reply`] holds.
pub struct ReplyData {
    pub status: u16,
    pub payload: PayloadData,
}

impl View for Reply {
    type V = ReplyData;

    open spec fn view(&self) -> ReplyData {
        ReplyData { status: self.status, payload: self.payload@ }
    }
}

/// The answer that reports `error`: its status, and its message as payload.
pub open spec fn error_reply(error: ApiError) -> ReplyData {
    ReplyData { status: error.status_of(), payload: PayloadData::Error(error.message_of()) }
}

/// Whether a status is one that the service sends.
pub open spec fn known_status(status: u16) -> bool {
    status == STATUS_OK || status == STATUS_CREATED || status == STATUS_NO_CONTENT || status
        == STATUS_BAD_REQUEST || status == STATUS_NOT_FOUND || status == STATUS_CONFLICT || status
        == STATUS_INTERNAL_SERVER_ERROR
}

/// Whether a message is one of the fixed texts that report an error.
pub open spec fn known_message(message: Seq<char>) -> bool {
    message == ApiError::Validation.message_of() || message == ApiError::NotFound.message_of()
        || message == ApiError::Conflict.message_of() || message == ApiError::Store.message_of()
        || message == BODY_DESERIALIZE_MESSAGE@
}

/// Whether an answer is sound: its status is one that the service sends, it
/// reports an error exactly when the status says so, and then with one of the
/// fixed messages, so that nothing of the store's own words gets out.
pub open spec fn sound_reply(reply: ReplyData) -> bool {
    &&& known_status(reply.status)
    &&& reply.status >= STATUS_BAD_REQUEST <==> reply.payload is Error
    &&& reply.payload matches PayloadData::Error(message) ==> known_message(message)
    &&& reply.status == STATUS_NO_CONTENT <==> reply.payload is Empty
}

impl Reply {
    /// The answer that reports `error`.
    pub fn from_error(error: ApiError) -> (reply: Reply)
        ensures
            reply@ == error_reply(error),
    {
        Reply { status: error.status(), payload: Payload::Error(error.message()) }
    }
}

} // verus!
