//! Transaction-scoped execution and a typed HTTP response layer.
//!
//! `tx` holds the commit/rollback decision logic for running a unit of work
//! inside one database transaction; `http` holds the closed error taxonomy
//! and the response-descriptor builder that turns outcomes into wire-ready
//! status/header/body triples.

pub mod http;
pub mod tx;
