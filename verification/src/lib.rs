//! The core of a small restaurant service: tables, menus, orders and the
//! items of an order, kept in a relational store and reached over HTTP.
//!
//! [`routes`] says which method and path reach which operation, and
//! [`overlap`] proves that no request reaches two. [`handlers`] says, for each
//! operation, which statement to hand to the store and how to answer what the
//! store reports; [`service`] joins routes and handlers. [`schema`] holds the
//! tables and the order of their setup, [`error`] the taxonomy of errors, and
//! [`laws`] what holds of the handlers whatever the store holds. The store is
//! a SQLite database; [`db`] is the one module that talks to its driver, and
//! its handle on the store keeps account of every statement handed over.

pub mod db;
pub mod error;
pub mod handlers;
pub mod laws;
pub mod model;
pub mod overlap;
pub mod reply;
pub mod routes;
pub mod schema;
pub mod service;
pub mod store;
pub mod text;
