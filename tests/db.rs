use rattish::container::{rc, Coerced, Coercible, InnermostTypeId, TypeIdDeterminationError};
use rattish::db::error::{
    CastError,
    DatabaseEntryError::{ConcreteTypeDeterminationFailure, ConcreteTypeNotRegisteredForTarget},
    DatabaseError::RequestedTypeNotInDatabase,
};
use rattish::db::hash_map::HashMapTypeDatabase;
use rattish::db::{TypeDatabase, TypeDatabaseEntryExt, TypeDatabaseExt};
use std::any::TypeId;
use std::cmp;
use std::ops::Deref;

// The trait that is cast from: any `'static` type, seen through `core::any::Any`.
trait Any: core::any::Any {}
impl<T: core::any::Any> Any for T {}

impl Coercible for dyn Any {
    type Inner = Self;
    type Innermost = Self;

    fn shape_name() -> String {
        String::from("dyn core::any::Any")
    }
}

impl InnermostTypeId for dyn Any {
    fn innermost_type_id(&self) -> Result<TypeId, TypeIdDeterminationError> {
        let any: &dyn core::any::Any = self;
        Ok(core::any::Any::type_id(any))
    }
}

// The metadata of the target traits below, one variant for each.
#[derive(Clone, Copy)]
enum Metadata {
    EqI32(fn(&dyn Any, &i32) -> bool),
    EqF32(fn(&dyn Any, &f32) -> bool),
}

fn i32_eq(this: &dyn Any, other: &i32) -> bool {
    let any: &dyn core::any::Any = this;
    any.downcast_ref::<i32>() == Some(other)
}

fn f32_eq(this: &dyn Any, other: &f32) -> bool {
    let any: &dyn core::any::Any = this;
    any.downcast_ref::<f32>() == Some(other)
}

fn db() -> HashMapTypeDatabase<Metadata> {
    let mut db = HashMapTypeDatabase::new();
    db.get_entry_mut::<dyn cmp::PartialEq<i32>>().register::<i32>(Metadata::EqI32(i32_eq));
    db.get_entry_mut::<dyn cmp::PartialEq<f32>>().register::<f32>(Metadata::EqF32(f32_eq));
    db
}

trait DynEq {
    fn eq(&self, other: &i32) -> bool;
}

impl<P: Deref<Target = dyn Any>> DynEq for Coerced<P, Metadata> {
    fn eq(&self, other: &i32) -> bool {
        match self.metadata {
            Metadata::EqI32(eq) => eq(&*self.pointer, other),
            Metadata::EqF32(_) => false,
        }
    }
}

#[test]
fn db_has_registered_targets() {
    let db = db();
    let target = db.get_db_entry::<dyn cmp::PartialEq<i32>>();
    assert!(target.is_ok());
}

#[test]
fn db_does_not_have_unregistered_targets() {
    let db = db();
    let target = db.get_db_entry::<dyn cmp::PartialEq<u32>>();
    assert!(matches!(target, Err(RequestedTypeNotInDatabase { .. })));
}

#[test]
fn targets_implement_registered_types() {
    let db = db();
    let target = db.get_db_entry::<dyn cmp::PartialEq<i32>>().unwrap();
    assert!(target.implements(&0i32 as &dyn Any).unwrap());
}

#[test]
fn targets_do_not_implement_unregistered_types() {
    let db = db();
    let target = db.get_db_entry::<dyn cmp::PartialEq<i32>>().unwrap();
    assert!(!target.implements(&0f32 as &dyn Any).unwrap());
}

#[test]
fn targets_cannot_determine_implementation_of_dangling_weak_rc() {
    let db = db();
    let target = db.get_db_entry::<dyn cmp::PartialEq<i32>>().unwrap();
    let weak: rc::Weak<dyn Any> = rc::Weak::downgrade(&(rc::Rc::new(12345) as rc::Rc<dyn Any>));

    assert!(matches!(
        target.implements(&weak),
        Err(ConcreteTypeDeterminationFailure { .. }),
    ));
}

#[test]
fn registered_type_is_casted() {
    let db = db();
    let target = db.get_db_entry::<dyn cmp::PartialEq<i32>>().unwrap();
    let casted = target.cast(&12345i32 as &dyn Any).ok().unwrap();

    assert!(casted.eq(&12345));
}

#[test]
fn unregistered_type_is_not_casted() {
    let db = db();
    let target = db.get_db_entry::<dyn cmp::PartialEq<i32>>().unwrap();
    let casted = target.cast(&12345f32 as &dyn Any);

    assert!(matches!(
        casted,
        Err(CastError {
            source: ConcreteTypeNotRegisteredForTarget { .. },
            ..
        })
    ));
}

#[test]
fn cannot_cast_dangling_weak_rc() {
    let db = db();
    let target = db.get_db_entry::<dyn cmp::PartialEq<i32>>().unwrap();
    let weak: rc::Weak<dyn Any> = rc::Weak::downgrade(&(rc::Rc::new(12345) as rc::Rc<dyn Any>));
    let casted = target.cast(weak);

    assert!(matches!(
        casted,
        Err(CastError {
            source: ConcreteTypeDeterminationFailure { .. },
            ..
        })
    ));
}
