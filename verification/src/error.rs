//! The errors of storing and loading.

use vstd::prelude::*;

verus! {

/// Declares `postgres::error::Error`, what a database connection reports. It is carried, never
/// looked into, and nothing is claimed of it.
#[verifier::external_type_specification]
#[verifier::external_body]
pub struct ExPostgresError(postgres::error::Error);

/// Why events or a snapshot could not be stored. `R` is what a precondition reports, `E` what a
/// serializer reports.
#[derive(Debug)]
pub enum PersistError<R, E> {
    /// The database reported an error.
    Postgres(postgres::error::Error),
    /// The precondition did not hold.
    PreconditionFailed(R),
    /// An event could not be written down.
    SerializationError(E),
}

/// Why events could not be loaded. `E` is what a deserializer reports.
#[derive(Debug)]
pub enum LoadError<E> {
    /// The database reported an error.
    Postgres(postgres::error::Error),
    /// An event could not be read back.
    DeserializationError(E),
    /// The kind of the event is not known.
    UnknownEventType(String),
}

} // verus!
