//! A registry of the metadata that views each concrete type as a target
//! trait, and the cast that ties it to the shapes of the container module.

use crate::container::{
    never_fails, type_id_of, Coerced, InnermostTypeId, Pointer, TypeIdDeterminationError,
};
use error::{CastError, DatabaseEntryError, DatabaseError};
use std::any::TypeId;
use vstd::prelude::*;

pub mod error;
pub mod hash_map;
mod table;

verus! {

/// The metadata of one target trait for each concrete type registered for
/// it, keyed by the concrete type's identity.
pub trait TypeDatabaseEntry<M> {
    /// The identity of the target trait.
    spec fn spec_target(&self) -> TypeId;

    /// The metadata stored for each concrete type.
    spec fn spec_metadata(&self) -> Map<TypeId, M>;

    /// The entry's internal invariant.
    spec fn wf(&self) -> bool;

    /// The identity of the target trait.
    fn target(&self) -> (r: TypeId)
        ensures
            r == self.spec_target(),
    ;

    /// Stores `metadata` for the concrete type `type_id`, replacing what was
    /// stored for it before.
    fn add(&mut self, type_id: TypeId, metadata: M)
        requires
            old(self).wf(),
        ensures
            final(self).wf(),
            final(self).spec_target() == old(self).spec_target(),
            final(self).spec_metadata() == old(self).spec_metadata().insert(type_id, metadata),
    ;

    /// Whether metadata is stored for `type_id`.
    fn contains(&self, type_id: TypeId) -> (r: bool)
        requires
            self.wf(),
        ensures
            r == self.spec_metadata().contains_key(type_id),
    ;

    /// The metadata stored for `type_id`, if any.
    fn metadata(&self, type_id: TypeId) -> (r: Option<&M>)
        requires
            self.wf(),
        ensures
            r matches Some(m) ==> self.spec_metadata().contains_key(type_id) && *m
                == self.spec_metadata()[type_id],
            r is None ==> !self.spec_metadata().contains_key(type_id),
    ;
}

/// Whether `source` says that the concrete type underneath a shape `P` could
/// not be determined, for a reason that `P` admits.
pub open spec fn determination_failure<P: ?Sized + InnermostTypeId>(
    source: DatabaseEntryError,
) -> bool {
    source matches DatabaseEntryError::ConcreteTypeDeterminationFailure { reason }
        && P::spec_may_fail_with(reason)
}

/// Whether `source` says that a concrete type with no metadata in
/// `metadata` is not registered for the target trait `target`.
pub open spec fn unregistered<M>(
    target: TypeId,
    metadata: Map<TypeId, M>,
    source: DatabaseEntryError,
) -> bool {
    source matches DatabaseEntryError::ConcreteTypeNotRegisteredForTarget {
        type_id,
        requested_type,
    } && requested_type == target && !metadata.contains_key(type_id)
}

/// The result of `implements` once the concrete type's identity has been
/// looked for and `type_id` came back.
pub open spec fn implements_outcome<M>(
    metadata: Map<TypeId, M>,
    type_id: Result<TypeId, TypeIdDeterminationError>,
) -> Result<bool, DatabaseEntryError> {
    match type_id {
        Ok(id) => Ok(metadata.contains_key(id)),
        Err(reason) => Err(DatabaseEntryError::ConcreteTypeDeterminationFailure { reason }),
    }
}

/// The result of `cast` once the concrete type's identity has been looked for
/// and `type_id` came back: the pointer paired with the metadata registered
/// for that type, or the pointer handed back with the reason.
pub open spec fn cast_outcome<P, M>(
    target: TypeId,
    metadata: Map<TypeId, M>,
    pointer: P,
    type_id: Result<TypeId, TypeIdDeterminationError>,
) -> Result<Coerced<P, M>, CastError<P>> {
    match type_id {
        Ok(id) => if metadata.contains_key(id) {
            Ok(Coerced { pointer, metadata: metadata[id] })
        } else {
            Err(
                CastError {
                    source: DatabaseEntryError::ConcreteTypeNotRegisteredForTarget {
                        type_id: id,
                        requested_type: target,
                    },
                    pointer,
                },
            )
        },
        Err(reason) => Err(
            CastError {
                source: DatabaseEntryError::ConcreteTypeDeterminationFailure { reason },
                pointer,
            },
        ),
    }
}

/// The consumer interface of a `TypeDatabaseEntry`.
pub trait TypeDatabaseEntryExt<M>: TypeDatabaseEntry<M> {
    /// Registers concrete type `I` as an implementor of the target trait,
    /// with `metadata` as its view as that trait; registering `I` again
    /// replaces what was registered before.
    fn register<I: 'static>(&mut self, metadata: M)
        requires
            old(self).wf(),
        ensures
            final(self).wf(),
            final(self).spec_target() == old(self).spec_target(),
            exists|k: TypeId|
                final(self).spec_metadata() == #[trigger] old(self).spec_metadata().insert(
                    k,
                    metadata,
                ),
    {
        let type_id = type_id_of::<I>();
        self.add(type_id, metadata);
    }

    /// The identity of the concrete type underneath `data`.
    fn concrete_type_id<P: ?Sized + InnermostTypeId>(&self, data: &P) -> (r: Result<
        TypeId,
        DatabaseEntryError,
    >)
        ensures
            r matches Err(e) ==> determination_failure::<P>(e),
            data.spec_innermost_type_id() matches Some(id) ==> r == Ok::<
                TypeId,
                DatabaseEntryError,
            >(id),
            never_fails::<P>() ==> r is Ok,
    {
        match data.innermost_type_id() {
            Ok(id) => Ok(id),
            Err(reason) => Err(DatabaseEntryError::ConcreteTypeDeterminationFailure { reason }),
        }
    }

    /// Whether the concrete type whose identity extraction gave `type_id` is
    /// registered for the target trait.
    fn implements_type_id(&self, type_id: Result<TypeId, TypeIdDeterminationError>) -> (r: Result<
        bool,
        DatabaseEntryError,
    >)
        requires
            self.wf(),
        ensures
            r == implements_outcome(self.spec_metadata(), type_id),
    {
        match type_id {
            Ok(id) => Ok(self.contains(id)),
            Err(reason) => Err(DatabaseEntryError::ConcreteTypeDeterminationFailure { reason }),
        }
    }

    /// Whether the concrete type underneath `data` is registered for the
    /// target trait.
    fn implements<P: ?Sized + InnermostTypeId>(&self, data: &P) -> (r: Result<
        bool,
        DatabaseEntryError,
    >)
        requires
            self.wf(),
        ensures
            r matches Err(e) ==> determination_failure::<P>(e),
            data.spec_innermost_type_id() matches Some(id) ==> r == Ok::<
                bool,
                DatabaseEntryError,
            >(self.spec_metadata().contains_key(id)),
            never_fails::<P>() ==> r is Ok,
    {
        let type_id = data.innermost_type_id();
        self.implements_type_id(type_id)
    }

    /// Casts `pointer`, whose identity extraction gave `type_id`, to the
    /// target trait; on failure the pointer is handed back unchanged.
    fn cast_with_type_id<P: Pointer>(
        &self,
        pointer: P,
        type_id: Result<TypeId, TypeIdDeterminationError>,
    ) -> (r: Result<Coerced<P, M>, CastError<P>>) where M: Copy
        requires
            self.wf(),
        ensures
            r == cast_outcome(self.spec_target(), self.spec_metadata(), pointer, type_id),
    {
        match type_id {
            Ok(id) => match self.metadata(id) {
                Some(metadata) => Ok(pointer.coerce(*metadata)),
                None => Err(
                    CastError {
                        source: DatabaseEntryError::ConcreteTypeNotRegisteredForTarget {
                            type_id: id,
                            requested_type: self.target(),
                        },
                        pointer,
                    },
                ),
            },
            Err(reason) => Err(
                CastError {
                    source: DatabaseEntryError::ConcreteTypeDeterminationFailure { reason },
                    pointer,
                },
            ),
        }
    }

    /// Casts `pointer` to the target trait, if the concrete type underneath
    /// it is registered; on failure the pointer is handed back unchanged.
    fn cast<P: Pointer + InnermostTypeId>(&self, pointer: P) -> (r: Result<
        Coerced<P, M>,
        CastError<P>,
    >) where M: Copy
        requires
            self.wf(),
        ensures
            r matches Ok(c) ==> c.pointer == pointer && exists|id: TypeId|
                #![trigger self.spec_metadata().contains_key(id)]
                self.spec_metadata().contains_key(id) && c.metadata == self.spec_metadata()[id],
            r matches Err(e) ==> e.pointer == pointer && (determination_failure::<P>(e.source)
                || unregistered(self.spec_target(), self.spec_metadata(), e.source)),
            pointer.spec_innermost_type_id() matches Some(id) ==> r == cast_outcome(
                self.spec_target(),
                self.spec_metadata(),
                pointer,
                Ok::<TypeId, TypeIdDeterminationError>(id),
            ),
            never_fails::<P>() ==> (r matches Err(e) ==> unregistered(
                self.spec_target(),
                self.spec_metadata(),
                e.source,
            )),
    {
        let type_id = pointer.innermost_type_id();
        self.cast_with_type_id(pointer, type_id)
    }
}

impl<M, E: TypeDatabaseEntry<M>> TypeDatabaseEntryExt<M> for E {

}

/// Registering metadata for a concrete type and then asking an entry about
/// it: the type is contained, with that metadata, and a type that was not
/// registered before and is not the one registered stays absent.
pub proof fn lemma_registration_round_trip<M, E: TypeDatabaseEntry<M>>(
    before: E,
    after: E,
    type_id: TypeId,
    metadata: M,
    other: TypeId,
)
    requires
        after.spec_metadata() == before.spec_metadata().insert(type_id, metadata),
    ensures
        after.spec_metadata().contains_key(type_id),
        after.spec_metadata()[type_id] == metadata,
        other != type_id && !before.spec_metadata().contains_key(other)
            ==> !after.spec_metadata().contains_key(other),
{
}

/// A store of entries, one for each target trait, keyed by the target trait's
/// identity.
pub trait TypeDatabase<M> {
    /// The entry kept for each target trait.
    type Entry: TypeDatabaseEntry<M>;

    /// The database's internal invariant.
    spec fn wf(&self) -> bool;

    /// The entry of each target trait.
    spec fn spec_entries(&self) -> Map<TypeId, Self::Entry>;

    /// The entry of target trait `target`, created empty if there was none.
    /// Whatever the caller does through the entry's own methods is kept.
    fn entry_mut(&mut self, target: TypeId) -> (r: &mut Self::Entry)
        requires
            old(self).wf(),
        ensures
            r.wf(),
            old(self).spec_entries().contains_key(target) ==> *r == old(self).spec_entries()[target],
            !old(self).spec_entries().contains_key(target) ==> r.spec_metadata() == Map::<
                TypeId,
                M,
            >::empty() && r.spec_target() == target,
            final(r).wf() ==> final(self).wf() && final(self).spec_entries() == old(self).spec_entries().insert(target, *final(r)),
    ;

    /// The entry of target trait `target`, if there is one.
    fn entry(&self, target: TypeId) -> (r: Option<&Self::Entry>)
        requires
            self.wf(),
        ensures
            r matches Some(e) ==> self.spec_entries().contains_key(target) && *e
                == self.spec_entries()[target] && e.wf(),
            r is None ==> !self.spec_entries().contains_key(target),
    ;

    /// The entry of target trait `U`, created empty if there was none.
    fn get_entry_mut<U: ?Sized + 'static>(&mut self) -> (r: &mut Self::Entry)
        requires
            old(self).wf(),
        ensures
            r.wf(),
            exists|target: TypeId|
                #![trigger old(self).spec_entries().contains_key(target)]
                (old(self).spec_entries().contains_key(target) ==> *r == old(self).spec_entries()[target]) && (!old(self).spec_entries().contains_key(target) ==> r.spec_metadata()
                    == Map::<TypeId, M>::empty() && r.spec_target() == target) && (final(r).wf()
                    ==> final(self).wf() && final(self).spec_entries() == old(self).spec_entries().insert(target, *final(r))),
    {
        let target = type_id_of::<U>();
        self.entry_mut(target)
    }

    /// The entry of target trait `U`, if there is one.
    fn get_entry<U: ?Sized + 'static>(&self) -> (r: Option<&Self::Entry>)
        requires
            self.wf(),
        ensures
            r matches Some(e) ==> e.wf() && exists|target: TypeId|
                #![trigger self.spec_entries().contains_key(target)]
                self.spec_entries().contains_key(target) && *e == self.spec_entries()[target],
    {
        let target = type_id_of::<U>();
        self.entry(target)
    }
}

/// The consumer interface of a `TypeDatabase`.
pub trait TypeDatabaseExt<M>: TypeDatabase<M> {
    /// The entry of target trait `target`, or an error naming it.
    fn db_entry(&self, target: TypeId) -> (r: Result<&Self::Entry, DatabaseError>)
        requires
            self.wf(),
        ensures
            r matches Ok(e) ==> self.spec_entries().contains_key(target) && *e
                == self.spec_entries()[target] && e.wf(),
            r matches Err(err) ==> !self.spec_entries().contains_key(target) && err
                == (DatabaseError::RequestedTypeNotInDatabase { requested_type: target }),
    {
        match self.entry(target) {
            Some(e) => Ok(e),
            None => Err(DatabaseError::RequestedTypeNotInDatabase { requested_type: target }),
        }
    }

    /// The entry of target trait `U`, or an error naming it.
    fn get_db_entry<U: ?Sized + 'static>(&self) -> (r: Result<&Self::Entry, DatabaseError>)
        requires
            self.wf(),
        ensures
            r matches Ok(e) ==> e.wf() && exists|target: TypeId|
                #![trigger self.spec_entries().contains_key(target)]
                self.spec_entries().contains_key(target) && *e == self.spec_entries()[target],
            r matches Err(err) ==> err matches DatabaseError::RequestedTypeNotInDatabase {
                requested_type,
            } && !self.spec_entries().contains_key(requested_type),
    {
        let target = type_id_of::<U>();
        self.db_entry(target)
    }
}

impl<M, DB: TypeDatabase<M>> TypeDatabaseExt<M> for DB {

}

} // verus!
