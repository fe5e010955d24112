//! Weak references to values held by `std::sync::Arc`.

use super::{
    named, spec_wrapped_name, wrapped_name, Coercible, InnermostTypeId, Pointer,
    TypeIdDeterminationError,
};
use std::any::TypeId;
pub use std::sync::Arc;
use vstd::prelude::*;

verus! {

/// A non-owning reference to a value held by an `Arc`, which may outlive it.
#[verifier::external_body]
#[verifier::reject_recursive_types(T)]
pub struct Weak<T: ?Sized> {
    inner: std::sync::Weak<T>,
}

impl<T: ?Sized> Weak<T> {
    /// Relies on `Arc::downgrade`: a weak reference to the value held by `arc`.
    #[verifier::external_body]
    pub fn downgrade(arc: &Arc<T>) -> Weak<T> {
        Weak { inner: Arc::downgrade(arc) }
    }

    /// Relies on `std::sync::Weak::upgrade`: an `Arc` to the value, or `None`
    /// once every `Arc` to it has been dropped.
    #[verifier::external_body]
    pub fn upgrade(&self) -> Option<Arc<T>> {
        self.inner.upgrade()
    }
}

impl<T: ?Sized + Coercible> Coercible for Weak<T> {
    type Inner = T;

    type Innermost = T::Innermost;

    open spec fn spec_shape_name() -> Option<Seq<char>> {
        spec_wrapped_name("alloc::sync::Weak<"@, T::spec_shape_name(), ">"@)
    }

    fn shape_name() -> (r: String) {
        wrapped_name("alloc::sync::Weak<", T::shape_name(), ">")
    }
}

impl<T: ?Sized + InnermostTypeId> InnermostTypeId for Weak<T> {
    open spec fn spec_may_fail_with(e: TypeIdDeterminationError) -> bool {
        (e matches TypeIdDeterminationError::UnableToUpgradeWeakReference { weak_type }
            && named(weak_type@, Self::spec_shape_name())) || T::spec_may_fail_with(e)
    }

    open spec fn spec_innermost_type_id(&self) -> Option<TypeId> {
        None
    }

    fn innermost_type_id(&self) -> (r: Result<TypeId, TypeIdDeterminationError>) {
        identity_after_upgrade(self.upgrade())
    }
}

/// The identity found through a weak reference, once `upgraded`, the result
/// of upgrading it, is known: with no value left, the error that names the
/// weak reference's shape; otherwise what the value yields.
pub fn identity_after_upgrade<T: ?Sized + InnermostTypeId>(upgraded: Option<Arc<T>>) -> (r: Result<
    TypeId,
    TypeIdDeterminationError,
>)
    ensures
        upgraded is None ==> (r matches Err(
            TypeIdDeterminationError::UnableToUpgradeWeakReference { weak_type },
        ) && named(weak_type@, Weak::<T>::spec_shape_name())),
        upgraded matches Some(strong) ==> ((*strong).spec_innermost_type_id() matches Some(id)
            ==> r == Ok::<TypeId, TypeIdDeterminationError>(id)),
        upgraded is Some ==> (r matches Err(e) ==> T::spec_may_fail_with(e)),
{
    match upgraded {
        Some(strong) => strong.innermost_type_id(),
        None => Err(
            TypeIdDeterminationError::UnableToUpgradeWeakReference {
                weak_type: Weak::<T>::shape_name(),
            },
        ),
    }
}

impl<T: ?Sized + Coercible> Pointer for Weak<T> {
}

} // verus!
