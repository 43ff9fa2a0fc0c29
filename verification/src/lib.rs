//! A resolver for graph-query field requests.
//!
//! One request names a field under `info.fieldName`. The resolver answers the
//! field `addDemo` with a single record and every other request with a list
//! that holds that one record.

pub mod handler;
pub mod json;
pub mod response;
pub mod text;

pub use handler::function_handler;
pub use response::{Reply, Response};
