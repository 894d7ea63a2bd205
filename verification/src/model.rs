//! The four kinds of record that the service keeps, and how each is read
//! from a row of the store.

use vstd::prelude::*;
use crate::store::{rows_view, values_view, SqlData, SqlValue};

verus! {

/// A physical seating unit.
#[derive(Debug, Clone)]
pub struct Table {
    pub id: i64,
    pub code: String,
}

/// What a [`Table`] holds.
pub struct TableData {
    pub id: i64,
    pub code: Seq<char>,
}

impl View for Table {
    type V = TableData;

    open spec fn view(&self) -> TableData {
        TableData { id: self.id, code: self.code@ }
    }
}

/// Something that can be ordered.
#[derive(Debug, Clone)]
pub struct Menu {
    pub id: i64,
    pub name: String,
}

/// What a [`Menu`] holds.
pub struct MenuData {
    pub id: i64,
    pub name: Seq<char>,
}

impl View for Menu {
    type V = MenuData;

    open spec fn view(&self) -> MenuData {
        MenuData { id: self.id, name: self.name@ }
    }
}

/// The open tab of one table.
#[derive(Debug, Clone, Copy, PartialEq, Eq)]
pub struct Order {
    pub id: i64,
    pub table_id: i64,
}

/// One line of an order. `menu_id` is `None` for an off-menu item.
#[derive(Debug, Clone, Copy, PartialEq, Eq)]
pub struct OrderItem {
    pub id: i64,
    pub order_id: i64,
    pub menu_id: Option<i64>,
    pub cooking_time: i64,
    pub quantity: i64,
}

/// The contents of a list of tables.
pub open spec fn tables_view(tables: Seq<Table>) -> Seq<TableData> {
    Seq::new(tables.len(), |i: int| tables[i]@)
}

/// The contents of a list of menus.
pub open spec fn menus_view(menus: Seq<Menu>) -> Seq<MenuData> {
    Seq::new(menus.len(), |i: int| menus[i]@)
}

/// The table that the row `(id, code)` describes.
pub open spec fn table_of_row(row: Seq<SqlData>) -> Option<TableData> {
    if row.len() == 2 {
        match (row[0], row[1]) {
            (SqlData::Integer(id), SqlData::Text(code)) => Some(TableData { id, code }),
            _ => None,
        }
    } else {
        None
    }
}

/// The menu that the row `(id, name)` describes.
pub open spec fn menu_of_row(row: Seq<SqlData>) -> Option<MenuData> {
    if row.len() == 2 {
        match (row[0], row[1]) {
            (SqlData::Integer(id), SqlData::Text(name)) => Some(MenuData { id, name }),
            _ => None,
        }
    } else {
        None
    }
}

/// The order that the row `(id, table_id)` describes.
pub open spec fn order_of_row(row: Seq<SqlData>) -> Option<Order> {
    if row.len() == 2 {
        match (row[0], row[1]) {
            (SqlData::Integer(id), SqlData::Integer(table_id)) => Some(Order { id, table_id }),
            _ => None,
        }
    } else {
        None
    }
}

/// The menu reference that a column holds: a number, or nothing for `NULL`.
pub open spec fn menu_ref_of(value: SqlData) -> Option<Option<i64>> {
    match value {
        SqlData::Null => Some(None),
        SqlData::Integer(menu_id) => Some(Some(menu_id)),
        _ => None,
    }
}

/// The order item that the row `(id, order_id, menu_id, cooking_time,
/// quantity)` describes.
pub open spec fn item_of_row(row: Seq<SqlData>) -> Option<OrderItem> {
    if row.len() == 5 {
        match (row[0], row[1], menu_ref_of(row[2]), row[3], row[4]) {
            (
                SqlData::Integer(id),
                SqlData::Integer(order_id),
                Some(menu_id),
                SqlData::Integer(cooking_time),
                SqlData::Integer(quantity),
            ) => Some(OrderItem { id, order_id, menu_id, cooking_time, quantity }),
            _ => None,
        }
    } else {
        None
    }
}

/// The tables that `rows` describe, if every row describes one.
pub open spec fn tables_of_rows(rows: Seq<Seq<SqlData>>) -> Option<Seq<TableData>> {
    if forall|i: int| 0 <= i < rows.len() ==> (#[trigger] table_of_row(rows[i])) is Some {
        Some(Seq::new(rows.len(), |i: int| table_of_row(rows[i])->0))
    } else {
        None
    }
}

/// The menus that `rows` describe, if every row describes one.
pub open spec fn menus_of_rows(rows: Seq<Seq<SqlData>>) -> Option<Seq<MenuData>> {
    if forall|i: int| 0 <= i < rows.len() ==> (#[trigger] menu_of_row(rows[i])) is Some {
        Some(Seq::new(rows.len(), |i: int| menu_of_row(rows[i])->0))
    } else {
        None
    }
}

/// The orders that `rows` describe, if every row describes one.
pub open spec fn orders_of_rows(rows: Seq<Seq<SqlData>>) -> Option<Seq<Order>> {
    if forall|i: int| 0 <= i < rows.len() ==> (#[trigger] order_of_row(rows[i])) is Some {
        Some(Seq::new(rows.len(), |i: int| order_of_row(rows[i])->0))
    } else {
        None
    }
}

/// The order items that `rows` describe, if every row describes one.
pub open spec fn items_of_rows(rows: Seq<Seq<SqlData>>) -> Option<Seq<OrderItem>> {
    if forall|i: int| 0 <= i < rows.len() ==> (#[trigger] item_of_row(rows[i])) is Some {
        Some(Seq::new(rows.len(), |i: int| item_of_row(rows[i])->0))
    } else {
        None
    }
}

/// The integer in `value`, if it holds one.
pub fn integer_in(value: &SqlValue) -> (n: Option<i64>)
    ensures
        n == match value@ {
            SqlData::Integer(v) => Some(v),
            _ => None,
        },
{
    match value {
        SqlValue::Integer(v) => Some(*v),
        _ => None,
    }
}

impl Table {
    /// Reads a table from a row of `(id, code)`.
    pub fn from_row(row: &Vec<SqlValue>) -> (r: Option<Table>)
        ensures
            r is Some <==> table_of_row(values_view(row@)) is Some,
            r is Some ==> r->0@ == table_of_row(values_view(row@))->0,
    {
        if row.len() != 2 {
            return None;
        }
        match (&row[0], &row[1]) {
            (SqlValue::Integer(id), SqlValue::Text(code)) => Some(
                Table { id: *id, code: code.clone() },
            ),
            _ => None,
        }
    }

    /// Reads one table from each row, in order; `None` if any row is not one.
    pub fn list_from_rows(rows: &Vec<Vec<SqlValue>>) -> (r: Option<Vec<Table>>)
        ensures
            r is Some <==> tables_of_rows(rows_view(rows@)) is Some,
            r is Some ==> tables_view(r->0@) == tables_of_rows(rows_view(rows@))->0,
    {
        let mut out: Vec<Table> = Vec::new();
        let mut i: usize = 0;
        while i < rows.len()
            invariant
                i <= rows.len(),
                forall|k: int|
                    0 <= k < i ==> (#[trigger] table_of_row(rows_view(rows@)[k])) is Some,
                tables_view(out@) == Seq::new(
                    i as nat,
                    |k: int| table_of_row(rows_view(rows@)[k])->0,
                ),
            decreases rows.len() - i,
        {
            assert(rows_view(rows@)[i as int] == values_view(rows@[i as int]@));
            match Table::from_row(&rows[i]) {
                Some(record) => {
                    let ghost before = tables_view(out@);
                    let ghost added = record@;
                    out.push(record);
                    assert(tables_view(out@) =~= before.push(added));
                },
                None => {
                    return None;
                },
            }
            i = i + 1;
        }
        Some(out)
    }
}

impl Menu {
    /// Reads a menu from a row of `(id, name)`.
    pub fn from_row(row: &Vec<SqlValue>) -> (r: Option<Menu>)
        ensures
            r is Some <==> menu_of_row(values_view(row@)) is Some,
            r is Some ==> r->0@ == menu_of_row(values_view(row@))->0,
    {
        if row.len() != 2 {
            return None;
        }
        match (&row[0], &row[1]) {
            (SqlValue::Integer(id), SqlValue::Text(name)) => Some(
                Menu { id: *id, name: name.clone() },
            ),
            _ => None,
        }
    }

    /// Reads one menu from each row, in order; `None` if any row is not one.
    pub fn list_from_rows(rows: &Vec<Vec<SqlValue>>) -> (r: Option<Vec<Menu>>)
        ensures
            r is Some <==> menus_of_rows(rows_view(rows@)) is Some,
            r is Some ==> menus_view(r->0@) == menus_of_rows(rows_view(rows@))->0,
    {
        let mut out: Vec<Menu> = Vec::new();
        let mut i: usize = 0;
        while i < rows.len()
            invariant
                i <= rows.len(),
                forall|k: int|
                    0 <= k < i ==> (#[trigger] menu_of_row(rows_view(rows@)[k])) is Some,
                menus_view(out@) == Seq::new(
                    i as nat,
                    |k: int| menu_of_row(rows_view(rows@)[k])->0,
                ),
            decreases rows.len() - i,
        {
            assert(rows_view(rows@)[i as int] == values_view(rows@[i as int]@));
            match Menu::from_row(&rows[i]) {
                Some(record) => {
                    let ghost before = menus_view(out@);
                    let ghost added = record@;
                    out.push(record);
                    assert(menus_view(out@) =~= before.push(added));
                },
                None => {
                    return None;
                },
            }
            i = i + 1;
        }
        Some(out)
    }
}

impl Order {
    /// Reads an order from a row of `(id, table_id)`.
    pub fn from_row(row: &Vec<SqlValue>) -> (r: Option<Order>)
        ensures
            r == order_of_row(values_view(row@)),
    {
        if row.len() != 2 {
            return None;
        }
        match (integer_in(&row[0]), integer_in(&row[1])) {
            (Some(id), Some(table_id)) => Some(Order { id, table_id }),
            _ => None,
        }
    }

    /// Reads one order from each row, in order; `None` if any row is not one.
    pub fn list_from_rows(rows: &Vec<Vec<SqlValue>>) -> (r: Option<Vec<Order>>)
        ensures
            r is Some <==> orders_of_rows(rows_view(rows@)) is Some,
            r is Some ==> r->0@ == orders_of_rows(rows_view(rows@))->0,
    {
        let mut out: Vec<Order> = Vec::new();
        let mut i: usize = 0;
        while i < rows.len()
            invariant
                i <= rows.len(),
                forall|k: int|
                    0 <= k < i ==> (#[trigger] order_of_row(rows_view(rows@)[k])) is Some,
                out@ == Seq::new(i as nat, |k: int| order_of_row(rows_view(rows@)[k])->0),
            decreases rows.len() - i,
        {
            assert(rows_view(rows@)[i as int] == values_view(rows@[i as int]@));
            match Order::from_row(&rows[i]) {
                Some(record) => {
                    out.push(record);
                },
                None => {
                    return None;
                },
            }
            i = i + 1;
        }
        Some(out)
    }
}

impl OrderItem {
    /// Reads an order item from a row of `(id, order_id, menu_id,
    /// cooking_time, quantity)`.
    pub fn from_row(row: &Vec<SqlValue>) -> (r: Option<OrderItem>)
        ensures
            r == item_of_row(values_view(row@)),
    {
        if row.len() != 5 {
            return None;
        }
        let menu_id = match &row[2] {
            SqlValue::Null => None,
            SqlValue::Integer(m) => Some(*m),
            _ => {
                return None;
            },
        };
        match (integer_in(&row[0]), integer_in(&row[1]), integer_in(&row[3]), integer_in(&row[4])) {
            (Some(id), Some(order_id), Some(cooking_time), Some(quantity)) => Some(
                OrderItem { id, order_id, menu_id, cooking_time, quantity },
            ),
            _ => None,
        }
    }

    /// Reads one order item from each row, in order; `None` if any row is not one.
    pub fn list_from_rows(rows: &Vec<Vec<SqlValue>>) -> (r: Option<Vec<OrderItem>>)
        ensures
            r is Some <==> items_of_rows(rows_view(rows@)) is Some,
            r is Some ==> r->0@ == items_of_rows(rows_view(rows@))->0,
    {
        let mut out: Vec<OrderItem> = Vec::new();
        let mut i: usize = 0;
        while i < rows.len()
            invariant
                i <= rows.len(),
                forall|k: int|
                    0 <= k < i ==> (#[trigger] item_of_row(rows_view(rows@)[k])) is Some,
                out@ == Seq::new(i as nat, |k: int| item_of_row(rows_view(rows@)[k])->0),
            decreases rows.len() - i,
        {
            assert(rows_view(rows@)[i as int] == values_view(rows@[i as int]@));
            match OrderItem::from_row(&rows[i]) {
                Some(record) => {
                    out.push(record);
                },
                None => {
                    return None;
                },
            }
            i = i + 1;
        }
        Some(out)
    }
}

} // verus!
