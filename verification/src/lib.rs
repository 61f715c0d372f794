//! A schema-aware query layer for browsing relational tables: it validates
//! caller-supplied table and column identifiers against a live schema listing,
//! builds parameterized SQL statements from validated input, clamps row
//! limits, and coerces raw database cells into JSON-safe values.

pub mod coerce;
pub mod config;
pub mod decimal;
pub mod errors;
pub mod ident;
pub mod plans;
pub mod schema;
pub mod split;
pub mod sql;
