//! A small document store: schemaless JSON documents kept in one SQLite
//! table per collection, with `_id` and `createdAt` filled in on insert.
//!
//! The modules, leaves first: `error` (what can go wrong), `json` (what the
//! logic reads of a JSON value), `codec` (documents to and from stored rows),
//! `query` (filters to parameterised predicates), `store` (the connection)
//! and `commands` (the operations themselves).

pub mod error;
pub mod json;
pub mod codec;
pub mod query;
pub mod store;
pub mod commands;
