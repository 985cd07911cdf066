//! Schema-driven generation of typed database access operations.
//!
//! A declarative table description is validated into a [`table::Table`];
//! together with a [`backend::Dialect`] the table yields the SQL text and
//! binding order of every operation on its rows.

pub mod text;
pub mod attrs;
pub mod backend;
pub mod table;
pub mod operations;
pub mod schema;
pub mod outcome;
pub mod entity;
