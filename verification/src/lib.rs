//! A verified record store for a small school-administration backend.
//!
//! Three entity kinds (parents, students, teachers) are kept in per-kind
//! collections addressed by store-generated identifiers.  The store, its
//! identifier scheme, and the per-endpoint handler logic are specified and
//! verified here; the HTTP and database plumbing around them lives outside
//! the library.

pub mod api;
pub mod errors;
pub mod laws;
pub mod models;
pub mod oid;
pub mod repository;
pub mod table;
