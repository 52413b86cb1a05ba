//! An in-memory relational store of clients, invoices and invoice items.
//!
//! Three append-only collections are held in a [`db::DataContext`]. The
//! read side ([`query::Query`]) reconstructs nested client/invoice/item
//! graphs by key-based joins and never mutates the store; the write side
//! ([`mutation::Mutation`]) validates parent keys, allocates strictly
//! increasing surrogate keys and appends. Calendar arithmetic for invoice
//! dates lives in [`date`].

pub mod date;
pub mod db;
pub mod laws;
pub mod models;
pub mod mutation;
pub mod query;
