//! Code generation for typed Deno Postgres clients from pre-parsed SQL
//! query descriptions.
pub mod laws;
pub mod model;
pub mod options;
pub mod querier;
pub mod response;
pub mod text;
pub mod type_mapper;
