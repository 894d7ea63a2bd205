//! What passes between the service and its relational store: parameterized
//! statements going in, outcomes coming back.

use vstd::prelude::*;
use crate::error::Failure;

verus! {

/// A value bound to a statement parameter or read from a result column.
#[derive(Debug, Clone)]
pub enum SqlValue {
    Null,
    Integer(i64),
    Text(String),
    /// A value of a kind that no record of the service holds, such as a
    /// blob. It can be read from a column but is never bound to a parameter.
    Other,
}

/// What a [`SqlValue`] holds.
pub enum SqlData {
    Null,
    Integer(i64),
    Text(Seq<char>),
    Other,
}

impl View for SqlValue {
    type V = SqlData;

    open spec fn view(&self) -> SqlData {
        match *self {
            SqlValue::Null => SqlData::Null,
            SqlValue::Integer(n) => SqlData::Integer(n),
            SqlValue::Text(s) => SqlData::Text(s@),
            SqlValue::Other => SqlData::Other,
        }
    }
}

/// The contents of a list of values.
pub open spec fn values_view(values: Seq<SqlValue>) -> Seq<SqlData> {
    Seq::new(values.len(), |i: int| values[i]@)
}

/// The contents of a list of rows.
pub open spec fn rows_view(rows: Seq<Vec<SqlValue>>) -> Seq<Seq<SqlData>> {
    Seq::new(rows.len(), |i: int| values_view(rows[i]@))
}

/// One SQL statement with the values for its numbered placeholders. The text
/// is fixed when the program is written; request data travels in `params` only.
#[derive(Debug)]
pub struct Command {
    pub sql: &'static str,
    pub params: Vec<SqlValue>,
}

/// What a [`Command`] holds.
pub struct CommandData {
    pub sql: Seq<char>,
    pub params: Seq<SqlData>,
}

impl View for Command {
    type V = CommandData;

    open spec fn view(&self) -> CommandData {
        CommandData { sql: self.sql@, params: values_view(self.params@) }
    }
}

/// What the store reports after it was handed one [`Command`].
#[derive(Debug)]
pub enum Outcome {
    /// The statement ran and gave no rows back. `rows` counts the rows that
    /// the connection's latest insert, update or delete changed: those of
    /// this statement if it is one, and else those of an earlier one.
    /// `last_id` is the id of the row that the connection inserted last.
    Changed { rows: u64, last_id: i64 },
    /// The statement ran and gave these rows back, in this order.
    Rows(Vec<Vec<SqlValue>>),
    /// The statement did not run to its end.
    Failed(Failure),
}

/// What an [`Outcome`] holds.
pub enum OutcomeData {
    Changed { rows: u64, last_id: i64 },
    Rows(Seq<Seq<SqlData>>),
    Failed(Failure),
}

impl View for Outcome {
    type V = OutcomeData;

    open spec fn view(&self) -> OutcomeData {
        match *self {
            Outcome::Changed { rows, last_id } => OutcomeData::Changed { rows, last_id },
            Outcome::Rows(rows) => OutcomeData::Rows(rows_view(rows@)),
            Outcome::Failed(failure) => OutcomeData::Failed(failure),
        }
    }
}

} // verus!
