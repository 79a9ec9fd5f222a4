//! A minimal user-resource CRUD library.
//!
//! The data model, the error taxonomy, the SQL statements the service issues,
//! and a verified model of the backing table live here; HTTP and database
//! plumbing live outside, handing this crate plain values and taking plain
//! values back.

pub mod errors;
pub mod laws;
pub mod models;
pub mod query;
pub mod store;
