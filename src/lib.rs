//! Turns rows of a CSV ledger into double-entry transactions, driven by
//! templates that map the row's named columns onto the transaction's fields.
pub mod config;
pub mod convert;
pub mod laws;
pub mod model;
pub mod outside;
pub mod parse;
pub mod text;
