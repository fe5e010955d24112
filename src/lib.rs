//! Dynamic casting between trait objects, through a registry of the
//! metadata that views each concrete type as each target trait.
//!
//! A pointer typed over a "from" trait object is cast by finding the
//! identity of the concrete value underneath all its layers, looking that
//! identity up in the target trait's entry of a database, and pairing the
//! pointer, unchanged in shape and ownership, with the metadata found.
//!
//! The metadata is whatever the embedding program uses to call a target
//! trait's methods on a concrete value: a table of functions, say. It is
//! registered once per concrete type and target trait, and a cast can only
//! ever pair a pointer with metadata registered for the very concrete type
//! that the pointer leads to.
//!
//! A trait that pointers are cast *from* is made castable by implementing
//! `container::Coercible` and `container::InnermostTypeId` for its trait
//! object, the latter by asking the value for its `core::any::TypeId`; the
//! shapes of std around such a trait object are handled here.

use container::{Coerced, InnermostTypeId, Pointer, TypeIdDeterminationError};
use db::error::{CastError, DatabaseEntryError, DatabaseError};
use db::{cast_outcome, determination_failure, unregistered, TypeDatabaseEntry, TypeDatabaseEntryExt, TypeDatabaseExt};
use std::any::TypeId;
use vstd::prelude::*;

pub mod container;
pub mod db;

verus! {

/// Whether `source` says that `target` has no entry in a database whose
/// entries are `entries`.
pub open spec fn missing_target<E>(entries: Map<TypeId, E>, source: DatabaseEntryError) -> bool {
    source matches DatabaseEntryError::DatabaseError {
        error: DatabaseError::RequestedTypeNotInDatabase { requested_type },
    } && !entries.contains_key(requested_type)
}

/// A shape whose registered implementations can be looked up in a database.
pub trait DynImplements<M, DB: TypeDatabaseExt<M>>: InnermostTypeId {
    /// Whether the concrete type underneath `self` is registered for target
    /// trait `target` in `db`.
    fn dyn_implements_target(&self, db: &DB, target: TypeId) -> (r: Result<
        bool,
        DatabaseEntryError,
    >)
        requires
            db.wf(),
        ensures
            !db.spec_entries().contains_key(target) ==> r == Err::<bool, DatabaseEntryError>(
                DatabaseEntryError::DatabaseError {
                    error: DatabaseError::RequestedTypeNotInDatabase { requested_type: target },
                },
            ),
            db.spec_entries().contains_key(target) ==> (r matches Err(e)
                ==> determination_failure::<Self>(e)),
            db.spec_entries().contains_key(target) ==> (self.spec_innermost_type_id() matches Some(
                id,
            ) ==> r == Ok::<bool, DatabaseEntryError>(
                db.spec_entries()[target].spec_metadata().contains_key(id),
            )),
    {
        match db.db_entry(target) {
            Ok(entry) => entry.implements(self),
            Err(error) => Err(DatabaseEntryError::DatabaseError { error }),
        }
    }

    /// Whether the concrete type underneath `self` is registered for target
    /// trait `U` in `db`.
    fn dyn_implements<U: ?Sized + 'static>(&self, db: &DB) -> (r: Result<bool, DatabaseEntryError>)
        requires
            db.wf(),
        ensures
            r matches Err(e) ==> missing_target(db.spec_entries(), e) || determination_failure::<
                Self,
            >(e),
            r matches Ok(b) ==> exists|target: TypeId|
                #![trigger db.spec_entries().contains_key(target)]
                db.spec_entries().contains_key(target) && (self.spec_innermost_type_id() is Some ==> b
                    == db.spec_entries()[target].spec_metadata().contains_key(
                    self.spec_innermost_type_id()->Some_0,
                )),
    {
        let target = container::type_id_of::<U>();
        self.dyn_implements_target(db, target)
    }
}

impl<M, DB: TypeDatabaseExt<M>, P: ?Sized + InnermostTypeId> DynImplements<M, DB> for P {

}

/// A pointer that can be cast through a database.
pub trait DynCast<M: Copy, DB: TypeDatabaseExt<M>>: Pointer + InnermostTypeId {
    /// Casts `self` to target trait `target`, if the concrete type underneath
    /// it is registered for `target` in `db`; on failure `self` comes back
    /// unchanged inside the error.
    fn dyn_cast_target(self, db: &DB, target: TypeId) -> (r: Result<
        Coerced<Self, M>,
        CastError<Self>,
    >)
        requires
            db.wf(),
        ensures
            r matches Err(e) ==> e.pointer == self,
            !db.spec_entries().contains_key(target) ==> (r matches Err(e) && e.source == (
            DatabaseEntryError::DatabaseError {
                error: DatabaseError::RequestedTypeNotInDatabase { requested_type: target },
            })),
            db.spec_entries().contains_key(target) ==> (r matches Ok(c) ==> c.pointer == self
                && exists|id: TypeId|
                #![trigger db.spec_entries()[target].spec_metadata().contains_key(id)]
                db.spec_entries()[target].spec_metadata().contains_key(id) && c.metadata
                    == db.spec_entries()[target].spec_metadata()[id]),
            db.spec_entries().contains_key(target) ==> (r matches Err(e) ==> determination_failure::<
                Self,
            >(e.source) || unregistered(
                db.spec_entries()[target].spec_target(),
                db.spec_entries()[target].spec_metadata(),
                e.source,
            )),
            db.spec_entries().contains_key(target) ==> (self.spec_innermost_type_id() matches Some(
                id,
            ) ==> r == cast_outcome(
                db.spec_entries()[target].spec_target(),
                db.spec_entries()[target].spec_metadata(),
                self,
                Ok::<TypeId, TypeIdDeterminationError>(id),
            )),
    {
        match db.db_entry(target) {
            Ok(entry) => entry.cast(self),
            Err(error) => Err(
                CastError { source: DatabaseEntryError::DatabaseError { error }, pointer: self },
            ),
        }
    }

    /// Casts `self` to target trait `U`, if the concrete type underneath it
    /// is registered for `U` in `db`; on failure `self` comes back unchanged
    /// inside the error.
    fn dyn_cast<U: ?Sized + 'static>(self, db: &DB) -> (r: Result<
        Coerced<Self, M>,
        CastError<Self>,
    >)
        requires
            db.wf(),
        ensures
            r matches Err(e) ==> e.pointer == self && (missing_target(db.spec_entries(), e.source)
                || determination_failure::<Self>(e.source) || exists|target: TypeId|
                #![trigger db.spec_entries().contains_key(target)]
                db.spec_entries().contains_key(target) && unregistered(
                    db.spec_entries()[target].spec_target(),
                    db.spec_entries()[target].spec_metadata(),
                    e.source,
                )),
            r matches Ok(c) ==> c.pointer == self && exists|target: TypeId, id: TypeId|
                #![trigger db.spec_entries().contains_key(target), db.spec_entries()[target].spec_metadata().contains_key(id)]
                db.spec_entries().contains_key(target)
                    && db.spec_entries()[target].spec_metadata().contains_key(id) && c.metadata
                    == db.spec_entries()[target].spec_metadata()[id],
            self.spec_innermost_type_id() matches Some(id) ==> ((r matches Err(e)
                && missing_target(db.spec_entries(), e.source)) || exists|target: TypeId|
                #![trigger db.spec_entries().contains_key(target)]
                db.spec_entries().contains_key(target) && r == cast_outcome(
                    db.spec_entries()[target].spec_target(),
                    db.spec_entries()[target].spec_metadata(),
                    self,
                    Ok::<TypeId, TypeIdDeterminationError>(id),
                )),
    {
        let target = container::type_id_of::<U>();
        self.dyn_cast_target(db, target)
    }
}

impl<M: Copy, DB: TypeDatabaseExt<M>, P: Pointer + InnermostTypeId> DynCast<M, DB> for P {

}

} // verus!
