//! Postgres result cursors, rows and raw values, together with the two
//! query-builder pieces that serialize to SQL on their own.
pub mod cursor;
pub mod error;
pub mod nullable;
pub mod query_builder;
pub mod result;
pub mod row;
pub mod value;
