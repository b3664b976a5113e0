//! A verified SQL query builder for data frames.
//!
//! A data frame is a chain of queries; each query reads from the one before it
//! through a common table expression named after its position in the chain.

pub mod text;
pub mod schema;
pub mod naming;
pub mod dialect;
pub mod parse;
pub mod query;
pub mod frame;
pub mod exprs;
pub mod render;
pub mod ops;
pub mod joinagg;
pub mod sources;
pub mod fold;
pub mod stack;
pub mod impute;
pub mod fingerprint;
pub mod functions;
pub mod project;
pub mod time;
pub mod task;
pub mod laws;
