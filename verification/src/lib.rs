//! The core of a small HTTP service that creates, reads, updates and deletes
//! users kept in one SQLite table.
//!
//! The crate decides; it does no I/O. For each request it builds a
//! parameterised statement ([`query`]), binds the values of the statement to a
//! driver-level argument list ([`binder`]), and, once the caller has run the
//! statement, maps the outcome to a response ([`handlers`]). The id in a path
//! is read by [`segment`], the route table is in [`routes`], and [`store`]
//! holds a model of the table over which the steps of the handlers are shown
//! to fit together.

pub mod binder;
pub mod handlers;
pub mod models;
pub mod query;
pub mod routes;
pub mod segment;
pub mod store;
pub mod value;
