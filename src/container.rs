//! The shapes that a pointer to a trait object can take, how the identity of
//! the concrete value underneath is found through them, and how a pointer is
//! paired with the metadata of a target trait.

use std::any::TypeId;
use vstd::prelude::*;

mod impls;
pub use impls::{identity_after_borrow, lemma_identity_transitive};
pub mod rc;
pub mod sync;

verus! {

#[verifier::external_type_specification]
#[verifier::external_body]
pub struct ExTypeId(TypeId);

/// Relies on `core::any::TypeId::of`: the identity of the type `T`, the same
/// for every call with the same `T`.
#[verifier::external_body]
pub(crate) fn type_id_of<T: ?Sized + 'static>() -> TypeId {
    TypeId::of::<T>()
}

/// Relies on `<TypeId as PartialEq>::eq`: two identities compare equal
/// exactly when they are the same value.
#[verifier::external_body]
pub(crate) fn same_type_id(a: &TypeId, b: &TypeId) -> (r: bool)
    ensures
        r == (*a == *b),
{
    *a == *b
}

/// The name of a shape that wraps a shape named `inner`, where that name is
/// known.
pub open spec fn spec_wrapped_name(
    prefix: Seq<char>,
    inner: Option<Seq<char>>,
    suffix: Seq<char>,
) -> Option<Seq<char>> {
    match inner {
        Some(n) => Some(prefix + n + suffix),
        None => None,
    }
}

/// Whether `name` is the name `known`, where that name is known.
pub open spec fn named(name: Seq<char>, known: Option<Seq<char>>) -> bool {
    known matches Some(n) ==> name == n
}

/// Builds the name of a shape from the name of the shape that it wraps.
pub(crate) fn wrapped_name(prefix: &str, inner: String, suffix: &str) -> (r: String)
    ensures
        r@ == prefix@ + inner@ + suffix@,
{
    let mut name = String::from_str(prefix);
    name.append(inner.as_str());
    name.append(suffix);
    name
}

/// Error that arose whilst determining a pointee's concrete type.
#[derive(Debug, PartialEq, Eq)]
pub enum TypeIdDeterminationError {
    /// The pointer traverses a weak reference whose referent is gone.
    UnableToUpgradeWeakReference {
        /// The name of the weak reference's shape.
        weak_type: String,
    },
    /// The pointer traverses a `RefCell` that is mutably borrowed, so its
    /// contents cannot be read without waiting on the borrow.
    UnableToBorrowCell {
        /// The name of the cell's shape.
        cell_type: String,
    },
}

/// A shape (a pointer, a smart pointer, a cell, a guard, or a leaf trait
/// object) whose contained type can be viewed as another trait.
pub trait Coercible {
    /// The directly contained type; a leaf trait object is its own inner type.
    type Inner: ?Sized;

    /// The leaf trait object reached by following `Inner` down.
    type Innermost: ?Sized;

    /// The name of this shape, built from the names of the shapes it holds;
    /// `None` where it is not known to the proofs, as for a leaf trait object
    /// that embedding code declares.
    open spec fn spec_shape_name() -> Option<Seq<char>> {
        None
    }

    /// The name of this shape, for diagnostics.
    fn shape_name() -> (r: String)
        ensures
            named(r@, Self::spec_shape_name()),
    ;
}

/// A shape through which the identity of the concrete value underneath can be
/// found at run time.
pub trait InnermostTypeId: Coercible {
    /// Whether identity extraction on this shape may fail with `e`: a weak
    /// reference that cannot be upgraded or a cell that cannot be borrowed,
    /// at this layer or a deeper one. A shape that does not say may fail in
    /// any way.
    open spec fn spec_may_fail_with(e: TypeIdDeterminationError) -> bool {
        true
    }

    /// The identity that extraction yields, where it is fixed by this value
    /// alone (through references and owning pointers down to the leaf);
    /// `None` where a cell, guard or weak reference hides the contents, or
    /// where the shape does not say.
    open spec fn spec_innermost_type_id(&self) -> Option<TypeId> {
        None
    }

    /// The identity of the concrete value underneath all layers of `self`.
    fn innermost_type_id(&self) -> (r: Result<TypeId, TypeIdDeterminationError>)
        ensures
            r matches Err(e) ==> Self::spec_may_fail_with(e),
            self.spec_innermost_type_id() matches Some(id) ==> r == Ok::<
                TypeId,
                TypeIdDeterminationError,
            >(id),
    ;
}

/// Holds exactly when identity extraction on shape `P` can never fail.
pub open spec fn never_fails<P: ?Sized + InnermostTypeId>() -> bool {
    forall|e: TypeIdDeterminationError| !P::spec_may_fail_with(e)
}

/// A pointer viewed as a target trait: the pointer itself, unchanged in shape
/// and ownership, and the target trait's metadata for the concrete type that
/// it points to.
pub struct Coerced<P, M> {
    /// The pointer, as it was handed in.
    pub pointer: P,
    /// The target trait's metadata for the concrete type underneath.
    pub metadata: M,
}

impl<P, M> Coerced<P, M> {
    /// Gives the pointer and the metadata back.
    pub fn into_parts(self) -> (r: (P, M))
        ensures
            r == (self.pointer, self.metadata),
    {
        (self.pointer, self.metadata)
    }
}

/// A sized shape, which can be paired with a target trait's metadata.
pub trait Pointer: Coercible + Sized {
    /// Views `self` through `metadata`, which must be the target trait's
    /// metadata for the concrete type underneath `self`. The shape is kept:
    /// the result is exactly the pointer paired with that metadata, as if it
    /// had been built from the same pointer directly.
    fn coerce<M>(self, metadata: M) -> (r: Coerced<Self, M>)
        ensures
            r == (Coerced { pointer: self, metadata }),
    {
        Coerced { pointer: self, metadata }
    }
}

} // verus!
