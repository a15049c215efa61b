//! Wrapped handles, owned references, and checked casts.
//!
//! A handle is a typed view over one slot of the foreign heap, carrying
//! nothing but the slot's id.  Wrapping an id is unchecked, as the foreign
//! convention demands; every operation that reads through a handle instead
//! requires the handle to be valid: the slot is alive and its dynamic class
//! descends from the handle's static class.
//!
//! An owned reference ([`Ref`]) owns exactly one increment of a slot's
//! reference count.  It can only be created by operations that take that
//! increment, duplicated only by [`Ref::clone_ref`] (which takes another),
//! and given up only by [`Ref::unref`] (which releases exactly one).

use core::marker::PhantomData;

use vstd::prelude::*;

use crate::gtype::{GType, TypeKey, check_descendant, is_descendant, lemma_descendant_trans};
use crate::runtime::Runtime;

verus! {

/// Associates a wrapper type with its static class key, and converts between
/// handles and raw object ids.
pub trait ObjectType: Sized {
    /// The static class key of this wrapper type.
    spec fn class_key() -> TypeKey;

    /// The object id this handle views.
    spec fn id_spec(&self) -> int;

    /// The class key, as a runtime value.
    fn class() -> (k: TypeKey)
        ensures
            k == Self::class_key(),
    ;

    /// The raw object id under the handle.
    fn obj_id(&self) -> (id: usize)
        ensures
            id as int == self.id_spec(),
    ;

    /// Reinterprets a raw object id as a typed view.  Unchecked by design:
    /// a handle wrapped at the wrong class or at a dead slot cannot meet
    /// the validity precondition of any operation that reads through it.
    fn wrap(id: usize) -> (h: Self)
        ensures
            h.id_spec() == id as int,
    ;

    /// The runtime type identifier of this class, obtained from the type
    /// registry: assigned on first use, stable ever after.
    fn get_type(rt: &mut Runtime) -> (t: GType)
        requires
            old(rt).wf(),
            old(rt).types@.len() < usize::MAX,
        ensures
            final(rt).wf(),
            final(rt).type_registered(Self::class_key(), t),
            old(rt).type_registered(Self::class_key(), t) || final(rt).types@ == old(
                rt,
            ).types@.push(Self::class_key()),
            forall|j: TypeKey, u: GType|
                old(rt).type_registered(j, u) ==> final(rt).type_registered(j, u),
            final(rt).objects@ == old(rt).objects@,
            final(rt).files@ == old(rt).files@,
            final(rt).ops@ == old(rt).ops@,
            final(rt).ctx_stack@ == old(rt).ctx_stack@,
    ;
}

/// The handle views a live slot whose dynamic class descends from the
/// handle's static class.
pub open spec fn valid_handle<T: ObjectType>(rt: Runtime, h: T) -> bool {
    &&& rt.live(h.id_spec())
    &&& is_descendant(rt.key_of(h.id_spec()), T::class_key())
}

/// Capability relation of the single-inheritance chain: `Self` statically
/// upcasts to its declared ancestor `A`, and only along that chain.
pub trait Upcast<A: ObjectType>: ObjectType {
    /// Witness that `A` is an ancestor of `Self` in the declared chain.
    proof fn upcast_capability()
        ensures
            is_descendant(Self::class_key(), A::class_key()),
    ;

    /// Reinterprets the handle as a view of the ancestor class; infallible
    /// and identity on the underlying object.
    fn upcast(&self) -> (a: A)
        ensures
            a.id_spec() == self.id_spec(),
    ;
}

/// Upcasting a valid handle yields a valid handle of the ancestor class:
/// the view is over the same object, and validity carries along the chain.
pub proof fn lemma_upcast_preserves_validity<T: Upcast<A>, A: ObjectType>(rt: Runtime, h: T, a: A)
    requires
        valid_handle(rt, h),
        a.id_spec() == h.id_spec(),
    ensures
        valid_handle(rt, a),
{
    T::upcast_capability();
    lemma_descendant_trans(rt.key_of(h.id_spec()), T::class_key(), A::class_key());
}

/// Two handles over the same slot observe exactly the same object: the
/// dynamic class, liveness, and every accessor of this library are
/// functions of the underlying id alone, so a wrapped view behaves
/// identically to direct use of the raw id.
pub proof fn lemma_view_identity<T: ObjectType>(rt: Runtime, h1: T, h2: T)
    requires
        h1.id_spec() == h2.id_spec(),
    ensures
        rt.key_of(h1.id_spec()) == rt.key_of(h2.id_spec()),
        rt.refcount(h1.id_spec()) == rt.refcount(h2.id_spec()),
        valid_handle(rt, h1) == valid_handle(rt, h2),
{
}

/// The root instance type of the foreign type system.
#[derive(Clone, Copy)]
pub struct TypeInstance {
    pub id: usize,
}

/// The root reference-counted object class.
#[derive(Clone, Copy)]
pub struct Object {
    pub id: usize,
}

impl ObjectType for TypeInstance {
    open spec fn class_key() -> TypeKey {
        TypeKey::TypeInstance
    }

    open spec fn id_spec(&self) -> int {
        self.id as int
    }

    fn class() -> TypeKey {
        TypeKey::TypeInstance
    }

    fn obj_id(&self) -> usize {
        self.id
    }

    fn wrap(id: usize) -> Self {
        TypeInstance { id }
    }

    fn get_type(rt: &mut Runtime) -> GType {
        rt.register_type(TypeKey::TypeInstance)
    }
}

impl ObjectType for Object {
    open spec fn class_key() -> TypeKey {
        TypeKey::Object
    }

    open spec fn id_spec(&self) -> int {
        self.id as int
    }

    fn class() -> TypeKey {
        TypeKey::Object
    }

    fn obj_id(&self) -> usize {
        self.id
    }

    fn wrap(id: usize) -> Self {
        Object { id }
    }

    fn get_type(rt: &mut Runtime) -> GType {
        rt.register_type(TypeKey::Object)
    }
}

impl Upcast<TypeInstance> for Object {
    proof fn upcast_capability() {
        assert(is_descendant(TypeKey::TypeInstance, TypeKey::TypeInstance));
    }

    fn upcast(&self) -> TypeInstance {
        TypeInstance { id: self.id }
    }
}

impl Upcast<Object> for Object {
    proof fn upcast_capability() {
    }

    fn upcast(&self) -> Object {
        Object { id: self.id }
    }
}

/// Capability view of the root object class, derived mechanically for every
/// type that statically upcasts to it.
pub trait AsObject: ObjectType {
    /// The handle seen as the root object class.
    fn as_object(&self) -> (o: Object)
        ensures
            o.id_spec() == self.id_spec(),
    ;
}

impl<T: Upcast<Object>> AsObject for T {
    fn as_object(&self) -> Object {
        self.upcast()
    }
}

/// An owned reference: owns exactly one increment of the reference count of
/// the slot it names.
#[verifier::reject_recursive_types(T)]
pub struct Ref<T: ObjectType> {
    id: usize,
    _marker: PhantomData<T>,
}

impl<T: ObjectType> Ref<T> {
    /// The object id the reference owns an increment on.
    pub closed spec fn id_spec(self) -> int {
        self.id as int
    }

    /// Internal: adopts an increment that the foreign side already granted
    /// (ownership transfer from a constructor); never increments.
    pub(crate) fn from_granted(id: usize) -> (r: Ref<T>)
        ensures
            r.id_spec() == id as int,
    {
        Ref { id, _marker: PhantomData }
    }

    /// Takes a fresh reference on the object behind a borrowed view.
    pub fn new(rt: &mut Runtime, h: &T) -> (r: Ref<T>)
        requires
            old(rt).wf(),
            valid_handle(*old(rt), *h),
            old(rt).refcount(h.id_spec()) < u64::MAX,
        ensures
            final(rt).wf(),
            final(rt).objects@ == Runtime::heap_ref_added(old(rt).objects@, h.id_spec()),
            final(rt).refcount(h.id_spec()) == old(rt).refcount(h.id_spec()) + 1,
            r.id_spec() == h.id_spec(),
            valid_handle(*final(rt), *h),
            final(rt).types@ == old(rt).types@,
            final(rt).files@ == old(rt).files@,
            final(rt).ops@ == old(rt).ops@,
            final(rt).ctx_stack@ == old(rt).ctx_stack@,
    {
        let id = h.obj_id();
        rt.inc_ref(id);
        Ref { id, _marker: PhantomData }
    }

    /// A borrowed, non-owning view of the referenced object.
    pub fn borrow(&self) -> (h: T)
        ensures
            h.id_spec() == self.id_spec(),
    {
        T::wrap(self.id)
    }

    /// Duplicates the owned reference, taking one more increment; the two
    /// references are independent afterwards.
    pub fn clone_ref(&self, rt: &mut Runtime) -> (r: Ref<T>)
        requires
            old(rt).wf(),
            old(rt).live(self.id_spec()),
            old(rt).refcount(self.id_spec()) < u64::MAX,
        ensures
            final(rt).wf(),
            final(rt).objects@ == Runtime::heap_ref_added(old(rt).objects@, self.id_spec()),
            final(rt).refcount(self.id_spec()) == old(rt).refcount(self.id_spec()) + 1,
            r.id_spec() == self.id_spec(),
            final(rt).types@ == old(rt).types@,
            final(rt).files@ == old(rt).files@,
            final(rt).ops@ == old(rt).ops@,
            final(rt).ctx_stack@ == old(rt).ctx_stack@,
    {
        rt.inc_ref(self.id);
        Ref { id: self.id, _marker: PhantomData }
    }

    /// Gives the owned increment back, consuming the reference: exactly one
    /// decrement per reference, and only here.
    pub fn unref(self, rt: &mut Runtime)
        requires
            old(rt).wf(),
            old(rt).live(self.id_spec()),
        ensures
            final(rt).wf(),
            final(rt).objects@ == Runtime::heap_ref_removed(old(rt).objects@, self.id_spec()),
            final(rt).refcount(self.id_spec()) == old(rt).refcount(self.id_spec()) - 1,
            final(rt).types@ == old(rt).types@,
            final(rt).files@ == old(rt).files@,
            final(rt).ops@ == old(rt).ops@,
            final(rt).ctx_stack@ == old(rt).ctx_stack@,
    {
        rt.dec_ref(self.id);
    }
}

/// Runtime-checked downcast: succeeds exactly when the instance's dynamic
/// class equals or descends from the target class; a mismatch is a typed
/// failure, never undefined behavior.
pub fn cast<T: ObjectType, S: ObjectType>(rt: &Runtime, from: &S) -> (r: Option<T>)
    requires
        rt.wf(),
        valid_handle(*rt, *from),
    ensures
        r is Some <==> is_descendant(rt.key_of(from.id_spec()), T::class_key()),
        match r {
            Some(t) => t.id_spec() == from.id_spec() && valid_handle(*rt, t),
            None => true,
        },
{
    let id = from.obj_id();
    let k = rt.objects[id].key;
    if check_descendant(k, T::class()) {
        Some(T::wrap(id))
    } else {
        None
    }
}

/// Queries whether the instance behind `h` is an instance of class `U`:
/// its dynamic class equals or descends from `U`'s.
pub fn is_instance_of<T: ObjectType, U: ObjectType>(rt: &Runtime, h: &T) -> (r: bool)
    requires
        rt.wf(),
        valid_handle(*rt, *h),
    ensures
        r == is_descendant(rt.key_of(h.id_spec()), U::class_key()),
{
    let id = h.obj_id();
    let k = rt.objects[id].key;
    check_descendant(k, U::class())
}

} // verus!
