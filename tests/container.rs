use rattish::container::{
    rc, sync, Coerced, Coercible, InnermostTypeId, Pointer, TypeIdDeterminationError,
};
use std::any::TypeId;
use std::cell::{Ref, RefCell, RefMut};
use std::ops::{Deref, DerefMut};

use TypeIdDeterminationError::UnableToUpgradeWeakReference;

// The trait that is cast from: any `'static` type, seen through `core::any::Any`.
trait Any: core::any::Any {}
impl<T: core::any::Any> Any for T {}

impl Coercible for dyn Any {
    type Inner = Self;
    type Innermost = Self;

    fn shape_name() -> String {
        String::from("dyn core::any::Any")
    }
}

impl InnermostTypeId for dyn Any {
    fn innermost_type_id(&self) -> Result<TypeId, TypeIdDeterminationError> {
        let any: &dyn core::any::Any = self;
        Ok(core::any::Any::type_id(any))
    }
}


// The metadata of `PartialEq<i32>` for `i32`.
#[derive(Clone, Copy)]
struct EqMetadata {
    eq: fn(&dyn Any, &i32) -> bool,
}

fn i32_eq(this: &dyn Any, other: &i32) -> bool {
    let any: &dyn core::any::Any = this;
    any.downcast_ref::<i32>() == Some(other)
}

const METADATA: EqMetadata = EqMetadata { eq: i32_eq };

trait Foo {
    fn double(&mut self);
    fn get(&self) -> i32;
}

impl Foo for i32 {
    fn double(&mut self) {
        *self *= 2;
    }

    fn get(&self) -> i32 {
        *self
    }
}

// The metadata of `Foo` for `i32`.
#[derive(Clone, Copy)]
struct FooMetadata {
    double: fn(&mut dyn Any),
    get: fn(&dyn Any) -> i32,
}

fn i32_double(this: &mut dyn Any) {
    let any: &mut dyn core::any::Any = this;
    any.downcast_mut::<i32>().unwrap().double()
}

fn i32_get(this: &dyn Any) -> i32 {
    let any: &dyn core::any::Any = this;
    any.downcast_ref::<i32>().unwrap().get()
}

fn metadata() -> FooMetadata {
    FooMetadata { double: i32_double, get: i32_get }
}

trait DynEq {
    fn eq(&self, other: &i32) -> bool;
}

impl<P: Deref<Target = dyn Any>> DynEq for Coerced<P, EqMetadata> {
    fn eq(&self, other: &i32) -> bool {
        (self.metadata.eq)(&*self.pointer, other)
    }
}

trait DynFoo {
    fn double(&mut self);
    fn get(&self) -> i32;
}

impl<P: DerefMut<Target = dyn Any>> DynFoo for Coerced<P, FooMetadata> {
    fn double(&mut self) {
        (self.metadata.double)(&mut *self.pointer)
    }

    fn get(&self) -> i32 {
        (self.metadata.get)(&*self.pointer)
    }
}

trait UpgradeRc {
    fn upgrade(&self) -> Option<Coerced<rc::Rc<dyn Any>, EqMetadata>>;
}

impl UpgradeRc for Coerced<rc::Weak<dyn Any>, EqMetadata> {
    fn upgrade(&self) -> Option<Coerced<rc::Rc<dyn Any>, EqMetadata>> {
        self.pointer.upgrade().map(|pointer| Coerced { pointer, metadata: self.metadata })
    }
}

trait UpgradeArc {
    fn upgrade(&self) -> Option<Coerced<sync::Arc<dyn Any>, EqMetadata>>;
}

impl UpgradeArc for Coerced<sync::Weak<dyn Any>, EqMetadata> {
    fn upgrade(&self) -> Option<Coerced<sync::Arc<dyn Any>, EqMetadata>> {
        self.pointer.upgrade().map(|pointer| Coerced { pointer, metadata: self.metadata })
    }
}

trait BorrowCell {
    fn borrow(&self) -> Coerced<Ref<'_, dyn Any>, EqMetadata>;
}

impl BorrowCell for Coerced<&RefCell<dyn Any>, EqMetadata> {
    fn borrow(&self) -> Coerced<Ref<'_, dyn Any>, EqMetadata> {
        Coerced { pointer: self.pointer.borrow(), metadata: self.metadata }
    }
}

#[test]
fn ref_coerces() {
    let ptr: &dyn Any = &12345;
    let coerced = ptr.coerce(METADATA);

    assert!(coerced.eq(&12345));
}

#[test]
fn mut_ref_coerces() {
    let mut value = 12345;
    let ptr: &mut dyn Any = &mut value;
    let mut coerced = ptr.coerce(metadata());

    coerced.double();
    assert_eq!(coerced.get(), 12345 * 2);
}

#[test]
fn cell_ref_coerces() {
    let cell = RefCell::new(12345);
    let borrow: Ref<dyn Any> = cell.borrow();
    let coerced = borrow.coerce(METADATA);

    assert!(coerced.eq(&12345));
}

#[test]
fn cell_refmut_coerces() {
    let cell = RefCell::new(12345);
    let borrow: RefMut<dyn Any> = cell.borrow_mut();
    let mut coerced = borrow.coerce(metadata());
    coerced.double();

    assert_eq!(coerced.get(), 12345 * 2);
}

#[test]
fn box_coerces() {
    let boxed: Box<dyn Any> = Box::new(12345);
    let coerced = boxed.coerce(METADATA);

    assert!(coerced.eq(&12345));
}

#[test]
fn strong_rc_coerces() {
    let rc: rc::Rc<dyn Any> = rc::Rc::new(12345);
    let coerced = rc.coerce(METADATA);

    assert!(coerced.eq(&12345));
}

#[test]
fn weak_rc_coerces() {
    let rc: rc::Rc<dyn Any> = rc::Rc::new(12345);
    let weak: rc::Weak<dyn Any> = rc::Weak::downgrade(&rc);
    let coerced = weak.coerce(METADATA);

    assert!(coerced.upgrade().unwrap().eq(&12345));
}

#[test]
fn weak_rc_coerces_even_if_dangling() {
    let weak: rc::Weak<dyn Any> = rc::Weak::downgrade(&(rc::Rc::new(12345) as rc::Rc<dyn Any>));
    let coerced = weak.coerce(METADATA);

    assert!(coerced.upgrade().is_none());
}

#[test]
fn strong_arc_coerces() {
    let arc: sync::Arc<dyn Any> = sync::Arc::new(12345);
    let coerced = arc.coerce(METADATA);

    assert!(coerced.eq(&12345));
}

#[test]
fn weak_arc_coerces() {
    let arc: sync::Arc<dyn Any> = sync::Arc::new(12345);
    let weak: sync::Weak<dyn Any> = sync::Weak::downgrade(&arc);
    let coerced = weak.coerce(METADATA);

    assert!(coerced.upgrade().unwrap().eq(&12345));
}

#[test]
fn weak_arc_coerces_even_if_dangling() {
    let weak: sync::Weak<dyn Any> =
        sync::Weak::downgrade(&(sync::Arc::new(12345) as sync::Arc<dyn Any>));
    let coerced = weak.coerce(METADATA);

    assert!(coerced.upgrade().is_none());
}

#[test]
fn compound_types_transitively_coerce() {
    let cell = RefCell::new(12345);
    let compound: &RefCell<dyn Any> = &cell;
    let coerced = compound.coerce(METADATA);

    assert!(coerced.borrow().eq(&12345));
}

#[test]
fn innermost_type_id_of_ref() {
    let ptr: &dyn Any = &12345;
    let type_id = ptr.innermost_type_id().unwrap();

    assert_eq!(type_id, TypeId::of::<i32>());
}

#[test]
fn innermost_type_id_of_mut_ref() {
    let mut value = 12345;
    let ptr: &mut dyn Any = &mut value;
    let type_id = ptr.innermost_type_id().unwrap();

    assert_eq!(type_id, TypeId::of::<i32>());
}

#[test]
fn innermost_type_id_of_cell_ref() {
    let cell = RefCell::new(12345);
    let borrow: Ref<dyn Any> = cell.borrow();
    let type_id = borrow.innermost_type_id().unwrap();

    assert_eq!(type_id, TypeId::of::<i32>());
}

#[test]
fn innermost_type_id_of_cell_refmut() {
    let cell = RefCell::new(12345);
    let borrow: RefMut<dyn Any> = cell.borrow_mut();
    let type_id = borrow.innermost_type_id().unwrap();

    assert_eq!(type_id, TypeId::of::<i32>());
}

#[test]
fn innermost_type_id_of_box() {
    let boxed: Box<dyn Any> = Box::new(12345);
    let type_id = boxed.innermost_type_id().unwrap();

    assert_eq!(type_id, TypeId::of::<i32>());
}

#[test]
fn innermost_type_id_of_strong_rc() {
    let rc: rc::Rc<dyn Any> = rc::Rc::new(12345);
    let type_id = rc.innermost_type_id().unwrap();

    assert_eq!(type_id, TypeId::of::<i32>());
}

#[test]
fn innermost_type_id_of_weak_rc() {
    let rc: rc::Rc<dyn Any> = rc::Rc::new(12345);
    let weak: rc::Weak<dyn Any> = rc::Weak::downgrade(&rc);
    let type_id = weak.innermost_type_id().unwrap();

    assert_eq!(type_id, TypeId::of::<i32>());
}

#[test]
fn innermost_type_id_of_weak_rc_fails_if_dangling() {
    let weak: rc::Weak<dyn Any> = rc::Weak::downgrade(&(rc::Rc::new(12345) as rc::Rc<dyn Any>));
    let type_id = weak.innermost_type_id();

    assert_eq!(
        type_id,
        Err(UnableToUpgradeWeakReference {
            weak_type: String::from("alloc::rc::Weak<dyn core::any::Any>"),
        })
    );
}

#[test]
fn innermost_type_id_of_strong_arc() {
    let arc: sync::Arc<dyn Any> = sync::Arc::new(12345);
    let type_id = arc.innermost_type_id().unwrap();

    assert_eq!(type_id, TypeId::of::<i32>());
}

#[test]
fn innermost_type_id_of_weak_arc() {
    let arc: sync::Arc<dyn Any> = sync::Arc::new(12345);
    let weak: sync::Weak<dyn Any> = sync::Weak::downgrade(&arc);
    let type_id = weak.innermost_type_id().unwrap();

    assert_eq!(type_id, TypeId::of::<i32>());
}

#[test]
fn innermost_type_id_of_weak_arc_fails_if_dangling() {
    let weak: sync::Weak<dyn Any> =
        sync::Weak::downgrade(&(sync::Arc::new(12345) as sync::Arc<dyn Any>));
    let type_id = weak.innermost_type_id();

    assert_eq!(
        type_id,
        Err(UnableToUpgradeWeakReference {
            weak_type: String::from("alloc::sync::Weak<dyn core::any::Any>"),
        })
    );
}

#[test]
fn innermost_type_id_of_compound_types_are_transitive() {
    let cell = RefCell::new(12345);
    let compound: &RefCell<dyn Any> = &cell;
    let type_id = compound.innermost_type_id().unwrap();

    assert_eq!(type_id, TypeId::of::<i32>());
}
