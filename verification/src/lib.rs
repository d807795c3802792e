//! Request-handling and data-access core of a small HTTP service over one
//! record type ("Sample"): the data model, the repository semantics, the
//! JSON wire encoding, route dispatch, and the mapping from data-access
//! failures to HTTP responses.

pub mod handlers;
pub mod json;
pub mod model;
pub mod responses;
pub mod routing;
pub mod table;
pub mod text;
