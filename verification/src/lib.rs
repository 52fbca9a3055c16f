//! Zero-downtime schema migration engine.
//!
//! A migration is an ordered list of actions. Each action describes one
//! schema change and knows how to `run` (install the change or its
//! backward-compatibility machinery), `complete` (make it permanent),
//! `abort` (undo the `run` step), and `update_schema` (replay the change
//! against the in-memory logical schema so later actions can see it).

pub mod action;
pub mod conn;
pub mod create_table;
pub mod errors;
pub mod remove_column;
pub mod schema;
pub mod store;
pub mod text;
