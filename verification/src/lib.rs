//! An event store on PostgreSQL.
//!
//! The library decides what is asked of the database, in which order, and what is made of the
//! answers. Talking to the database is left to the caller: an operation is a session that takes
//! what came of the last action and says what the next one is.

pub mod aggregate;
pub mod append;
pub mod append_laws;
pub mod error;
pub mod migrate;
pub mod reactor;
pub mod read;
pub mod read_laws;
pub mod snapshot;
pub mod statement;
pub mod store;
pub mod tables;
pub mod todo;
pub mod version;
