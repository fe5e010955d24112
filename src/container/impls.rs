//! The shapes of std: references, owning pointers, cells, locks and guards.

use super::{
    named, spec_wrapped_name, wrapped_name, Coercible, InnermostTypeId, Pointer,
    TypeIdDeterminationError,
};
use std::any::TypeId;
use std::cell::{BorrowError, Cell, Ref, RefCell, RefMut, UnsafeCell};
use std::rc::Rc;
use std::sync::{Arc, Mutex, MutexGuard, RwLock, RwLockReadGuard, RwLockWriteGuard};
use vstd::prelude::*;

verus! {

#[verifier::external_type_specification]
#[verifier::external_body]
#[verifier::reject_recursive_types(T)]
pub struct ExCell<T: ?Sized>(Cell<T>);

#[verifier::external_type_specification]
#[verifier::external_body]
#[verifier::reject_recursive_types(T)]
pub struct ExUnsafeCell<T: ?Sized>(UnsafeCell<T>);

#[verifier::external_type_specification]
#[verifier::external_body]
#[verifier::reject_recursive_types(T)]
pub struct ExRefCell<T: ?Sized>(RefCell<T>);

#[verifier::external_type_specification]
#[verifier::external_body]
#[verifier::reject_recursive_types(T)]
pub struct ExRef<'b, T: ?Sized>(Ref<'b, T>);

#[verifier::external_type_specification]
#[verifier::external_body]
#[verifier::reject_recursive_types(T)]
pub struct ExRefMut<'b, T: ?Sized + 'b>(RefMut<'b, T>);

#[verifier::external_type_specification]
#[verifier::external_body]
pub struct ExBorrowError(BorrowError);

#[verifier::external_type_specification]
#[verifier::external_body]
#[verifier::reject_recursive_types(T)]
pub struct ExMutex<T: ?Sized>(Mutex<T>);

#[verifier::external_type_specification]
#[verifier::external_body]
#[verifier::reject_recursive_types(T)]
pub struct ExMutexGuard<'a, T: ?Sized + 'a>(MutexGuard<'a, T>);

#[verifier::external_type_specification]
#[verifier::external_body]
#[verifier::reject_recursive_types(T)]
pub struct ExRwLock<T: ?Sized>(RwLock<T>);

#[verifier::external_type_specification]
#[verifier::external_body]
#[verifier::reject_recursive_types(T)]
pub struct ExRwLockReadGuard<'a, T: ?Sized>(RwLockReadGuard<'a, T>);

#[verifier::external_type_specification]
#[verifier::external_body]
#[verifier::reject_recursive_types(T)]
pub struct ExRwLockWriteGuard<'a, T: ?Sized + 'a>(RwLockWriteGuard<'a, T>);

/// Relies on `RefCell::try_borrow`: a shared borrow of the contents, or an
/// error while the cell is mutably borrowed; it never panics.
pub assume_specification<T: ?Sized>[ RefCell::<T>::try_borrow ](cell: &RefCell<T>) -> Result<
    Ref<'_, T>,
    BorrowError,
>;

/// Relies on `<Ref as Deref>::deref`: the borrowed contents.
#[verifier::external_body]
fn ref_target<'a, 'b, T: ?Sized>(guard: &'a Ref<'b, T>) -> &'a T {
    &**guard
}

/// Relies on `<RefMut as Deref>::deref`: the borrowed contents.
#[verifier::external_body]
fn ref_mut_target<'a, 'b, T: ?Sized>(guard: &'a RefMut<'b, T>) -> &'a T {
    &**guard
}

/// Relies on `<MutexGuard as Deref>::deref`: the locked contents.
#[verifier::external_body]
fn mutex_guard_target<'a, 'b, T: ?Sized>(guard: &'a MutexGuard<'b, T>) -> &'a T {
    &**guard
}

/// Relies on `<RwLockReadGuard as Deref>::deref`: the locked contents.
#[verifier::external_body]
fn read_guard_target<'a, 'b, T: ?Sized>(guard: &'a RwLockReadGuard<'b, T>) -> &'a T {
    &**guard
}

/// Relies on `<RwLockWriteGuard as Deref>::deref`: the locked contents.
#[verifier::external_body]
fn write_guard_target<'a, 'b, T: ?Sized>(guard: &'a RwLockWriteGuard<'b, T>) -> &'a T {
    &**guard
}

/// The identity found through a `RefCell`, once `borrowed`, the outcome of
/// borrowing its contents, is known: while the cell is mutably borrowed, the
/// error that names the cell's shape; otherwise what the contents yield.
pub fn identity_after_borrow<T: ?Sized + InnermostTypeId>(borrowed: Option<&T>) -> (r: Result<
    TypeId,
    TypeIdDeterminationError,
>)
    ensures
        borrowed is None ==> (r matches Err(
            TypeIdDeterminationError::UnableToBorrowCell { cell_type },
        ) && named(cell_type@, RefCell::<T>::spec_shape_name())),
        borrowed matches Some(contents) ==> (contents.spec_innermost_type_id() matches Some(id)
            ==> r == Ok::<TypeId, TypeIdDeterminationError>(id)),
        borrowed is Some ==> (r matches Err(e) ==> T::spec_may_fail_with(e)),
{
    match borrowed {
        Some(contents) => contents.innermost_type_id(),
        None => Err(TypeIdDeterminationError::UnableToBorrowCell { cell_type: RefCell::<T>::shape_name() }),
    }
}

impl<'a, T: ?Sized + Coercible> Coercible for &'a T {
    type Inner = T;

    type Innermost = T::Innermost;

    open spec fn spec_shape_name() -> Option<Seq<char>> {
        spec_wrapped_name("&"@, T::spec_shape_name(), ""@)
    }

    fn shape_name() -> (r: String) {
        wrapped_name("&", T::shape_name(), "")
    }
}

impl<'a, T: ?Sized + InnermostTypeId> InnermostTypeId for &'a T {
    open spec fn spec_may_fail_with(e: TypeIdDeterminationError) -> bool {
        T::spec_may_fail_with(e)
    }

    open spec fn spec_innermost_type_id(&self) -> Option<TypeId> {
        (**self).spec_innermost_type_id()
    }

    fn innermost_type_id(&self) -> (r: Result<TypeId, TypeIdDeterminationError>) {
        (**self).innermost_type_id()
    }
}

impl<'a, T: ?Sized + Coercible> Pointer for &'a T {
}

impl<'a, T: ?Sized + Coercible> Coercible for &'a mut T {
    type Inner = T;

    type Innermost = T::Innermost;

    open spec fn spec_shape_name() -> Option<Seq<char>> {
        spec_wrapped_name("&mut "@, T::spec_shape_name(), ""@)
    }

    fn shape_name() -> (r: String) {
        wrapped_name("&mut ", T::shape_name(), "")
    }
}

impl<'a, T: ?Sized + InnermostTypeId> InnermostTypeId for &'a mut T {
    open spec fn spec_may_fail_with(e: TypeIdDeterminationError) -> bool {
        T::spec_may_fail_with(e)
    }

    open spec fn spec_innermost_type_id(&self) -> Option<TypeId> {
        (**self).spec_innermost_type_id()
    }

    fn innermost_type_id(&self) -> (r: Result<TypeId, TypeIdDeterminationError>) {
        (**self).innermost_type_id()
    }
}

impl<'a, T: ?Sized + Coercible> Pointer for &'a mut T {
}

impl<T: ?Sized + Coercible> Coercible for Box<T> {
    type Inner = T;

    type Innermost = T::Innermost;

    open spec fn spec_shape_name() -> Option<Seq<char>> {
        spec_wrapped_name("alloc::boxed::Box<"@, T::spec_shape_name(), ">"@)
    }

    fn shape_name() -> (r: String) {
        wrapped_name("alloc::boxed::Box<", T::shape_name(), ">")
    }
}

impl<T: ?Sized + InnermostTypeId> InnermostTypeId for Box<T> {
    open spec fn spec_may_fail_with(e: TypeIdDeterminationError) -> bool {
        T::spec_may_fail_with(e)
    }

    open spec fn spec_innermost_type_id(&self) -> Option<TypeId> {
        (**self).spec_innermost_type_id()
    }

    fn innermost_type_id(&self) -> (r: Result<TypeId, TypeIdDeterminationError>) {
        (**self).innermost_type_id()
    }
}

impl<T: ?Sized + Coercible> Pointer for Box<T> {
}

impl<T: ?Sized + Coercible> Coercible for Rc<T> {
    type Inner = T;

    type Innermost = T::Innermost;

    open spec fn spec_shape_name() -> Option<Seq<char>> {
        spec_wrapped_name("alloc::rc::Rc<"@, T::spec_shape_name(), ">"@)
    }

    fn shape_name() -> (r: String) {
        wrapped_name("alloc::rc::Rc<", T::shape_name(), ">")
    }
}

impl<T: ?Sized + InnermostTypeId> InnermostTypeId for Rc<T> {
    open spec fn spec_may_fail_with(e: TypeIdDeterminationError) -> bool {
        T::spec_may_fail_with(e)
    }

    open spec fn spec_innermost_type_id(&self) -> Option<TypeId> {
        (**self).spec_innermost_type_id()
    }

    fn innermost_type_id(&self) -> (r: Result<TypeId, TypeIdDeterminationError>) {
        (**self).innermost_type_id()
    }
}

impl<T: ?Sized + Coercible> Pointer for Rc<T> {
}

impl<T: ?Sized + Coercible> Coercible for Arc<T> {
    type Inner = T;

    type Innermost = T::Innermost;

    open spec fn spec_shape_name() -> Option<Seq<char>> {
        spec_wrapped_name("alloc::sync::Arc<"@, T::spec_shape_name(), ">"@)
    }

    fn shape_name() -> (r: String) {
        wrapped_name("alloc::sync::Arc<", T::shape_name(), ">")
    }
}

impl<T: ?Sized + InnermostTypeId> InnermostTypeId for Arc<T> {
    open spec fn spec_may_fail_with(e: TypeIdDeterminationError) -> bool {
        T::spec_may_fail_with(e)
    }

    open spec fn spec_innermost_type_id(&self) -> Option<TypeId> {
        (**self).spec_innermost_type_id()
    }

    fn innermost_type_id(&self) -> (r: Result<TypeId, TypeIdDeterminationError>) {
        (**self).innermost_type_id()
    }
}

impl<T: ?Sized + Coercible> Pointer for Arc<T> {
}

impl<T: ?Sized + Coercible> Coercible for Cell<T> {
    type Inner = T;

    type Innermost = T::Innermost;

    open spec fn spec_shape_name() -> Option<Seq<char>> {
        spec_wrapped_name("core::cell::Cell<"@, T::spec_shape_name(), ">"@)
    }

    fn shape_name() -> (r: String) {
        wrapped_name("core::cell::Cell<", T::shape_name(), ">")
    }
}

impl<T: ?Sized + Coercible> Coercible for UnsafeCell<T> {
    type Inner = T;

    type Innermost = T::Innermost;

    open spec fn spec_shape_name() -> Option<Seq<char>> {
        spec_wrapped_name("core::cell::UnsafeCell<"@, T::spec_shape_name(), ">"@)
    }

    fn shape_name() -> (r: String) {
        wrapped_name("core::cell::UnsafeCell<", T::shape_name(), ">")
    }
}

impl<T: ?Sized + Coercible> Coercible for RefCell<T> {
    type Inner = T;

    type Innermost = T::Innermost;

    open spec fn spec_shape_name() -> Option<Seq<char>> {
        spec_wrapped_name("core::cell::RefCell<"@, T::spec_shape_name(), ">"@)
    }

    fn shape_name() -> (r: String) {
        wrapped_name("core::cell::RefCell<", T::shape_name(), ">")
    }
}

impl<T: ?Sized + InnermostTypeId> InnermostTypeId for RefCell<T> {
    open spec fn spec_may_fail_with(e: TypeIdDeterminationError) -> bool {
        (e matches TypeIdDeterminationError::UnableToBorrowCell { cell_type } && named(
            cell_type@,
            Self::spec_shape_name(),
        )) || T::spec_may_fail_with(e)
    }

    open spec fn spec_innermost_type_id(&self) -> Option<TypeId> {
        None
    }

    fn innermost_type_id(&self) -> (r: Result<TypeId, TypeIdDeterminationError>) {
        match self.try_borrow() {
            Ok(contents) => identity_after_borrow(Some(ref_target(&contents))),
            Err(_) => identity_after_borrow::<T>(None),
        }
    }
}

impl<'b, T: ?Sized + Coercible> Coercible for Ref<'b, T> {
    type Inner = T;

    type Innermost = T::Innermost;

    open spec fn spec_shape_name() -> Option<Seq<char>> {
        spec_wrapped_name("core::cell::Ref<"@, T::spec_shape_name(), ">"@)
    }

    fn shape_name() -> (r: String) {
        wrapped_name("core::cell::Ref<", T::shape_name(), ">")
    }
}

impl<'b, T: ?Sized + InnermostTypeId> InnermostTypeId for Ref<'b, T> {
    open spec fn spec_may_fail_with(e: TypeIdDeterminationError) -> bool {
        T::spec_may_fail_with(e)
    }

    open spec fn spec_innermost_type_id(&self) -> Option<TypeId> {
        None
    }

    fn innermost_type_id(&self) -> (r: Result<TypeId, TypeIdDeterminationError>) {
        ref_target(self).innermost_type_id()
    }
}

impl<'b, T: ?Sized + Coercible> Pointer for Ref<'b, T> {
}

impl<'b, T: ?Sized + Coercible> Coercible for RefMut<'b, T> {
    type Inner = T;

    type Innermost = T::Innermost;

    open spec fn spec_shape_name() -> Option<Seq<char>> {
        spec_wrapped_name("core::cell::RefMut<"@, T::spec_shape_name(), ">"@)
    }

    fn shape_name() -> (r: String) {
        wrapped_name("core::cell::RefMut<", T::shape_name(), ">")
    }
}

impl<'b, T: ?Sized + InnermostTypeId> InnermostTypeId for RefMut<'b, T> {
    open spec fn spec_may_fail_with(e: TypeIdDeterminationError) -> bool {
        T::spec_may_fail_with(e)
    }

    open spec fn spec_innermost_type_id(&self) -> Option<TypeId> {
        None
    }

    fn innermost_type_id(&self) -> (r: Result<TypeId, TypeIdDeterminationError>) {
        ref_mut_target(self).innermost_type_id()
    }
}

impl<'b, T: ?Sized + Coercible> Pointer for RefMut<'b, T> {
}

impl<T: ?Sized + Coercible> Coercible for Mutex<T> {
    type Inner = T;

    type Innermost = T::Innermost;

    open spec fn spec_shape_name() -> Option<Seq<char>> {
        spec_wrapped_name("std::sync::Mutex<"@, T::spec_shape_name(), ">"@)
    }

    fn shape_name() -> (r: String) {
        wrapped_name("std::sync::Mutex<", T::shape_name(), ">")
    }
}

impl<'a, T: ?Sized + Coercible> Coercible for MutexGuard<'a, T> {
    type Inner = T;

    type Innermost = T::Innermost;

    open spec fn spec_shape_name() -> Option<Seq<char>> {
        spec_wrapped_name("std::sync::MutexGuard<"@, T::spec_shape_name(), ">"@)
    }

    fn shape_name() -> (r: String) {
        wrapped_name("std::sync::MutexGuard<", T::shape_name(), ">")
    }
}

impl<'a, T: ?Sized + InnermostTypeId> InnermostTypeId for MutexGuard<'a, T> {
    open spec fn spec_may_fail_with(e: TypeIdDeterminationError) -> bool {
        T::spec_may_fail_with(e)
    }

    open spec fn spec_innermost_type_id(&self) -> Option<TypeId> {
        None
    }

    fn innermost_type_id(&self) -> (r: Result<TypeId, TypeIdDeterminationError>) {
        mutex_guard_target(self).innermost_type_id()
    }
}

impl<'a, T: ?Sized + Coercible> Pointer for MutexGuard<'a, T> {
}

impl<T: ?Sized + Coercible> Coercible for RwLock<T> {
    type Inner = T;

    type Innermost = T::Innermost;

    open spec fn spec_shape_name() -> Option<Seq<char>> {
        spec_wrapped_name("std::sync::RwLock<"@, T::spec_shape_name(), ">"@)
    }

    fn shape_name() -> (r: String) {
        wrapped_name("std::sync::RwLock<", T::shape_name(), ">")
    }
}

impl<'a, T: ?Sized + Coercible> Coercible for RwLockReadGuard<'a, T> {
    type Inner = T;

    type Innermost = T::Innermost;

    open spec fn spec_shape_name() -> Option<Seq<char>> {
        spec_wrapped_name("std::sync::RwLockReadGuard<"@, T::spec_shape_name(), ">"@)
    }

    fn shape_name() -> (r: String) {
        wrapped_name("std::sync::RwLockReadGuard<", T::shape_name(), ">")
    }
}

impl<'a, T: ?Sized + InnermostTypeId> InnermostTypeId for RwLockReadGuard<'a, T> {
    open spec fn spec_may_fail_with(e: TypeIdDeterminationError) -> bool {
        T::spec_may_fail_with(e)
    }

    open spec fn spec_innermost_type_id(&self) -> Option<TypeId> {
        None
    }

    fn innermost_type_id(&self) -> (r: Result<TypeId, TypeIdDeterminationError>) {
        read_guard_target(self).innermost_type_id()
    }
}

impl<'a, T: ?Sized + Coercible> Pointer for RwLockReadGuard<'a, T> {
}

impl<'a, T: ?Sized + Coercible> Coercible for RwLockWriteGuard<'a, T> {
    type Inner = T;

    type Innermost = T::Innermost;

    open spec fn spec_shape_name() -> Option<Seq<char>> {
        spec_wrapped_name("std::sync::RwLockWriteGuard<"@, T::spec_shape_name(), ">"@)
    }

    fn shape_name() -> (r: String) {
        wrapped_name("std::sync::RwLockWriteGuard<", T::shape_name(), ">")
    }
}

impl<'a, T: ?Sized + InnermostTypeId> InnermostTypeId for RwLockWriteGuard<'a, T> {
    open spec fn spec_may_fail_with(e: TypeIdDeterminationError) -> bool {
        T::spec_may_fail_with(e)
    }

    open spec fn spec_innermost_type_id(&self) -> Option<TypeId> {
        None
    }

    fn innermost_type_id(&self) -> (r: Result<TypeId, TypeIdDeterminationError>) {
        write_guard_target(self).innermost_type_id()
    }
}

impl<'a, T: ?Sized + Coercible> Pointer for RwLockWriteGuard<'a, T> {
}

/// Identity extraction sees through references and owning pointers: a value
/// nested in them, at one layer or at several, yields what the value itself
/// yields, and may fail in exactly the ways that the value may.
pub proof fn lemma_identity_transitive<T: ?Sized + InnermostTypeId>(
    boxed: Box<T>,
    rc: Rc<T>,
    arc: Arc<T>,
    e: TypeIdDeterminationError,
)
    ensures
        boxed.spec_innermost_type_id() == (*boxed).spec_innermost_type_id(),
        rc.spec_innermost_type_id() == (*rc).spec_innermost_type_id(),
        arc.spec_innermost_type_id() == (*arc).spec_innermost_type_id(),
        (&boxed).spec_innermost_type_id() == (*boxed).spec_innermost_type_id(),
        (&rc).spec_innermost_type_id() == (*rc).spec_innermost_type_id(),
        (&arc).spec_innermost_type_id() == (*arc).spec_innermost_type_id(),
        <&T>::spec_may_fail_with(e) == T::spec_may_fail_with(e),
        <&mut T>::spec_may_fail_with(e) == T::spec_may_fail_with(e),
        Box::<T>::spec_may_fail_with(e) == T::spec_may_fail_with(e),
        Rc::<T>::spec_may_fail_with(e) == T::spec_may_fail_with(e),
        Arc::<T>::spec_may_fail_with(e) == T::spec_may_fail_with(e),
        <&Rc<Box<T>>>::spec_may_fail_with(e) == T::spec_may_fail_with(e),
{
}

} // verus!
