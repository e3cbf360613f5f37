//! Core engine of a desktop database browser: value coercion from native
//! column types to a uniform JSON-compatible representation, query result
//! assembly, catalog introspection, pagination, execution-plan analysis,
//! connection lifecycle, and password sealing for saved connections.
pub mod json;
pub mod text;
pub mod coerce;
pub mod sql;
pub mod results;
pub mod schema;
pub mod manager;
pub mod explain;
pub mod crypto;
pub mod metadata;
pub mod connections;
pub mod queries;
