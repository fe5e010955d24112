//! Database errors.

use crate::container::TypeIdDeterminationError;
use std::any::TypeId;
use vstd::prelude::*;

verus! {

/// Error that arose on accessing a database.
#[derive(Debug, PartialEq, Eq)]
pub enum DatabaseError {
    /// The database has not been initialized.
    NotInitialized,
    /// No entry for the requested target trait is in the database.
    RequestedTypeNotInDatabase {
        /// The identity of the target trait that was requested.
        requested_type: TypeId,
    },
}

/// Error that arose on accessing a database entry.
#[derive(Debug, PartialEq, Eq)]
pub enum DatabaseEntryError {
    /// The database itself failed.
    DatabaseError {
        /// The database error.
        error: DatabaseError,
    },
    /// The concrete type underneath the provided instance could not be
    /// determined.
    ConcreteTypeDeterminationFailure {
        /// Why it could not be determined.
        reason: TypeIdDeterminationError,
    },
    /// The concrete type underneath the provided instance is not registered
    /// for the target trait.
    ConcreteTypeNotRegisteredForTarget {
        /// The identity of that concrete type.
        type_id: TypeId,
        /// The identity of the target trait.
        requested_type: TypeId,
    },
}

impl From<DatabaseError> for DatabaseEntryError {
    fn from(error: DatabaseError) -> (r: Self) {
        DatabaseEntryError::DatabaseError { error }
    }
}

impl vstd::std_specs::convert::FromSpecImpl<DatabaseError> for DatabaseEntryError {
    open spec fn obeys_from_spec() -> bool {
        true
    }

    open spec fn from_spec(error: DatabaseError) -> Self {
        DatabaseEntryError::DatabaseError { error }
    }
}

impl From<TypeIdDeterminationError> for DatabaseEntryError {
    fn from(reason: TypeIdDeterminationError) -> (r: Self) {
        DatabaseEntryError::ConcreteTypeDeterminationFailure { reason }
    }
}

impl vstd::std_specs::convert::FromSpecImpl<TypeIdDeterminationError> for DatabaseEntryError {
    open spec fn obeys_from_spec() -> bool {
        true
    }

    open spec fn from_spec(reason: TypeIdDeterminationError) -> Self {
        DatabaseEntryError::ConcreteTypeDeterminationFailure { reason }
    }
}

/// Error that arose on attempting to cast `pointer`: the pointer comes back
/// unchanged, so that its owner keeps it.
#[derive(Debug)]
pub struct CastError<P> {
    /// The error that arose.
    pub source: DatabaseEntryError,
    /// The pointer on which the cast was attempted.
    pub pointer: P,
}

} // verus!
