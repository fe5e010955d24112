//! A `TypeDatabase` kept in association tables.

use super::table::{
    keys_unique, lemma_table_contains, lemma_table_push, lemma_table_update, lemma_table_value,
    position, table_map,
};
use super::{TypeDatabase, TypeDatabaseEntry};
use std::any::TypeId;
use vstd::prelude::*;

verus! {

/// A `TypeDatabase` whose entries are kept in a table keyed by the target
/// trait's identity, each key once. A table rather than a `HashMap`: std's
/// hashing of a `TypeId` carries no contract that the proofs here could use,
/// and lookups compare identities for equality only.
pub struct HashMapTypeDatabase<M> {
    entries: Vec<(TypeId, HashMapTypeDatabaseEntry<M>)>,
}

/// A `TypeDatabaseEntry` whose metadata is kept in a table keyed by the
/// concrete type's identity, each key once.
pub struct HashMapTypeDatabaseEntry<M> {
    target: TypeId,
    entries: Vec<(TypeId, M)>,
}

impl<M> HashMapTypeDatabaseEntry<M> {
    /// An entry for the target trait `target` with nothing registered.
    pub fn new(target: TypeId) -> (r: Self)
        ensures
            r.wf(),
            r.spec_target() == target,
            r.spec_metadata() == Map::<TypeId, M>::empty(),
    {
        let r = HashMapTypeDatabaseEntry { target, entries: Vec::new() };
        assert(table_map(r.entries@) =~= Map::<TypeId, M>::empty());
        r
    }

    /// Stores `metadata` for the concrete type `type_id`, replacing what was
    /// stored for it before.
    pub fn add(&mut self, type_id: TypeId, metadata: M)
        requires
            old(self).wf(),
        ensures
            final(self).wf(),
            final(self).spec_target() == old(self).spec_target(),
            final(self).spec_metadata() == old(self).spec_metadata().insert(type_id, metadata),
    {
        match position(&self.entries, &type_id) {
            Some(i) => {
                proof {
                    lemma_table_update(self.entries@, i as int, metadata);
                }
                self.entries.set(i, (type_id, metadata));
            },
            None => {
                proof {
                    lemma_table_contains(self.entries@, type_id);
                    lemma_table_push(self.entries@, type_id, metadata);
                }
                self.entries.push((type_id, metadata));
            },
        }
    }

    /// Whether metadata is stored for `type_id`.
    pub fn contains(&self, type_id: TypeId) -> (r: bool)
        requires
            self.wf(),
        ensures
            r == self.spec_metadata().contains_key(type_id),
    {
        proof {
            lemma_table_contains(self.entries@, type_id);
        }
        position(&self.entries, &type_id).is_some()
    }

    /// The metadata stored for `type_id`, if any.
    pub fn metadata(&self, type_id: TypeId) -> (r: Option<&M>)
        requires
            self.wf(),
        ensures
            r matches Some(m) ==> self.spec_metadata().contains_key(type_id) && *m
                == self.spec_metadata()[type_id],
            r is None ==> !self.spec_metadata().contains_key(type_id),
    {
        proof {
            lemma_table_contains(self.entries@, type_id);
        }
        match position(&self.entries, &type_id) {
            Some(i) => {
                proof {
                    lemma_table_value(self.entries@, i as int);
                }
                Some(&self.entries[i].1)
            },
            None => None,
        }
    }
}

impl<M> TypeDatabaseEntry<M> for HashMapTypeDatabaseEntry<M> {
    closed spec fn spec_target(&self) -> TypeId {
        self.target
    }

    closed spec fn spec_metadata(&self) -> Map<TypeId, M> {
        table_map(self.entries@)
    }

    closed spec fn wf(&self) -> bool {
        keys_unique(self.entries@)
    }

    fn target(&self) -> (r: TypeId) {
        self.target
    }

    fn add(&mut self, type_id: TypeId, metadata: M) {
        HashMapTypeDatabaseEntry::add(self, type_id, metadata)
    }

    fn contains(&self, type_id: TypeId) -> (r: bool) {
        HashMapTypeDatabaseEntry::contains(self, type_id)
    }

    fn metadata(&self, type_id: TypeId) -> (r: Option<&M>) {
        HashMapTypeDatabaseEntry::metadata(self, type_id)
    }
}

impl<M> HashMapTypeDatabase<M> {
    /// A database with no entries.
    pub fn new() -> (r: Self)
        ensures
            r.wf(),
            r.spec_entries() == Map::<TypeId, HashMapTypeDatabaseEntry<M>>::empty(),
    {
        let r = HashMapTypeDatabase { entries: Vec::new() };
        assert(table_map(r.entries@) =~= Map::<TypeId, HashMapTypeDatabaseEntry<M>>::empty());
        r
    }
}

impl<M> Default for HashMapTypeDatabase<M> {
    /// A database with no entries.
    fn default() -> (r: Self)
        ensures
            r.wf(),
            r.spec_entries() == Map::<TypeId, HashMapTypeDatabaseEntry<M>>::empty(),
    {
        HashMapTypeDatabase::new()
    }
}

impl<M> TypeDatabase<M> for HashMapTypeDatabase<M> {
    type Entry = HashMapTypeDatabaseEntry<M>;

    closed spec fn wf(&self) -> bool {
        &&& keys_unique(self.entries@)
        &&& forall|i: int|
            0 <= i < self.entries@.len() ==> (#[trigger] self.entries@[i]).1.wf()
    }

    closed spec fn spec_entries(&self) -> Map<TypeId, HashMapTypeDatabaseEntry<M>> {
        table_map(self.entries@)
    }

    fn entry_mut(&mut self, target: TypeId) -> (r: &mut HashMapTypeDatabaseEntry<M>) {
        proof {
            lemma_table_contains(self.entries@, target);
        }
        let i = match position(&self.entries, &target) {
            Some(i) => {
                proof {
                    lemma_table_value(self.entries@, i as int);
                }
                i
            },
            None => {
                let fresh = HashMapTypeDatabaseEntry::new(target);
                proof {
                    lemma_table_push(self.entries@, target, fresh);
                }
                self.entries.push((target, fresh));
                self.entries.len() - 1
            },
        };
        proof {
            assert(self.entries@[i as int].0 == target);
            lemma_table_value(self.entries@, i as int);
            assert forall|v: HashMapTypeDatabaseEntry<M>|
                #![trigger self.entries@.update(i as int, (target, v))]
                keys_unique(self.entries@.update(i as int, (target, v))) && table_map(
                    self.entries@.update(i as int, (target, v)),
                ) == table_map(self.entries@).insert(target, v) by {
                lemma_table_update(self.entries@, i as int, v);
            }
        }
        &mut self.entries[i].1
    }

    fn entry(&self, target: TypeId) -> (r: Option<&HashMapTypeDatabaseEntry<M>>) {
        proof {
            lemma_table_contains(self.entries@, target);
        }
        match position(&self.entries, &target) {
            Some(i) => {
                proof {
                    lemma_table_value(self.entries@, i as int);
                }
                Some(&self.entries[i].1)
            },
            None => None,
        }
    }
}

} // verus!
