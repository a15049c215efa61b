//! The model of the foreign process state.
//!
//! Everything the binding core observes of the foreign side lives in one
//! explicit [`Runtime`] value: the table of reference-counted objects, the
//! lazily filled type registry, the set of file paths the host can open,
//! the table of asynchronous operations, and the stack of thread-default
//! dispatch contexts.  Every operation of the library states its effect on
//! this value, so the ownership and completion disciplines of the binding
//! can be proved rather than trusted.

use vstd::prelude::*;

use crate::error::Error;
use crate::gtype::{GType, TypeKey};

verus! {

/// The per-class payload of an object slot.
pub enum ObjData {
    /// Classes that carry no payload the bindings read.
    Plain,
    /// A file handle object remembering the path it was created for.
    File { path: String },
    /// A cancellation token with its advisory flag.
    Cancellable { cancelled: bool },
    /// An event loop: the context it dispatches on, and whether a run is in
    /// progress.
    MainLoop { context: usize, running: bool },
}

/// One object in the foreign heap: its dynamic type, its reference count,
/// and its payload.  A slot with reference count zero is dead; slots are
/// never reused.
pub struct Slot {
    pub key: TypeKey,
    pub refcount: u64,
    pub data: ObjData,
}

/// The lifecycle of one two-phase asynchronous operation.
pub enum OpState {
    /// Registered, not yet dispatched by the loop.
    Started,
    /// The completion callback has fired with this outcome; the matching
    /// finish call has not yet consumed it.
    Completed { result: Result<(), Error> },
    /// The finish call has consumed the outcome.
    Finished,
}

/// One asynchronous read operation.
pub struct AsyncOp {
    /// Object id of the file the operation was started on.
    pub source: usize,
    /// Requested dispatch priority.
    pub io_priority: i32,
    /// Object id of the attached cancellation token, if any.
    pub cancellable: Option<usize>,
    pub state: OpState,
}

/// The foreign process state.
pub struct Runtime {
    /// The object heap; indices are object ids.
    pub objects: Vec<Slot>,
    /// The type registry; indices are the ids inside [`GType`] values.
    pub types: Vec<TypeKey>,
    /// Paths that exist and can be opened for reading.
    pub files: Vec<String>,
    /// Every asynchronous operation ever started; indices are the tokens
    /// carried by async results.
    pub ops: Vec<AsyncOp>,
    /// The stack of thread-default dispatch contexts (object ids).
    pub ctx_stack: Vec<usize>,
}

impl Runtime {
    /// A payload is the one its class calls for.
    pub open spec fn data_matches(key: TypeKey, data: ObjData) -> bool {
        match key {
            TypeKey::File => data is File,
            TypeKey::Cancellable => data is Cancellable,
            TypeKey::MainLoop => data is MainLoop,
            _ => data is Plain,
        }
    }

    /// Number of slots in the heap.
    pub open spec fn n_objects(self) -> int {
        self.objects@.len() as int
    }

    /// `id` names a slot whose dynamic class is exactly `k`.
    pub open spec fn obj_has_key(self, id: int, k: TypeKey) -> bool {
        0 <= id < self.n_objects() && self.objects@[id].key == k
    }

    /// The dynamic class of a slot.
    pub open spec fn key_of(self, id: int) -> TypeKey {
        self.objects@[id].key
    }

    /// The reference count of a slot.
    pub open spec fn refcount(self, id: int) -> int {
        self.objects@[id].refcount as int
    }

    /// `id` names a slot that is still alive.
    pub open spec fn live(self, id: int) -> bool {
        0 <= id < self.n_objects() && self.refcount(id) > 0
    }

    /// An operation record points at a file source and, if present, at a
    /// cancellation token of the right class.
    pub open spec fn op_ok(self, op: AsyncOp) -> bool {
        &&& self.obj_has_key(op.source as int, TypeKey::File)
        &&& match op.cancellable {
            Some(c) => self.obj_has_key(c as int, TypeKey::Cancellable),
            None => true,
        }
    }

    /// Well-formedness of the whole state: payloads match classes, the type
    /// registry holds no duplicates, operation records and context-stack
    /// entries point at slots of the right class, and every event loop's
    /// context is a dispatch context.
    pub open spec fn wf(self) -> bool {
        &&& forall|i: int|
            0 <= i < self.n_objects() ==> Self::data_matches(
                (#[trigger] self.objects@[i]).key,
                self.objects@[i].data,
            )
        &&& forall|i: int, j: int|
            0 <= i < j < self.types@.len() ==> self.types@[i] != self.types@[j]
        &&& forall|i: int| 0 <= i < self.ops@.len() ==> self.op_ok(#[trigger] self.ops@[i])
        &&& forall|i: int|
            0 <= i < self.ctx_stack@.len() ==> self.obj_has_key(
                (#[trigger] self.ctx_stack@[i]) as int,
                TypeKey::MainContext,
            )
        &&& forall|i: int|
            0 <= i < self.n_objects() && (#[trigger] self.objects@[i].data) is MainLoop
                ==> self.obj_has_key(self.objects@[i].data->MainLoop_context as int, TypeKey::MainContext)
    }

    /// A fresh foreign process state: no objects, no registered types, no
    /// reachable files, no operations.
    pub fn new() -> (rt: Runtime)
        ensures
            rt.wf(),
            rt.objects@.len() == 0,
            rt.types@.len() == 0,
            rt.files@.len() == 0,
            rt.ops@.len() == 0,
            rt.ctx_stack@.len() == 0,
    {
        Runtime {
            objects: Vec::new(),
            types: Vec::new(),
            files: Vec::new(),
            ops: Vec::new(),
            ctx_stack: Vec::new(),
        }
    }

    /// Makes `path` exist on the modeled host, so that opening it for
    /// reading succeeds.
    pub fn provide_file(&mut self, path: &str)
        requires
            old(self).wf(),
        ensures
            final(self).wf(),
            final(self).files@.len() == old(self).files@.len() + 1,
            final(self).files@[old(self).files@.len() as int]@ == path@,
            forall|j: int| 0 <= j < old(self).files@.len() ==> final(self).files@[j] == old(self).files@[j],
            final(self).objects@ == old(self).objects@,
            final(self).types@ == old(self).types@,
            final(self).ops@ == old(self).ops@,
            final(self).ctx_stack@ == old(self).ctx_stack@,
    {
        self.files.push(path.to_owned());
    }

    /// A path exists on the modeled host.
    pub open spec fn file_exists(self, path: Seq<char>) -> bool {
        exists|i: int| 0 <= i < self.files@.len() && self.files@[i]@ == path
    }

    /// Looks a path up in the modeled host's file set.
    pub fn lookup_file(&self, path: &String) -> (r: bool)
        ensures
            r == self.file_exists(path@),
    {
        let mut i: usize = 0;
        while i < self.files.len()
            invariant
                i <= self.files@.len(),
                forall|j: int| 0 <= j < i ==> self.files@[j]@ != path@,
            decreases self.files@.len() - i,
        {
            if self.files[i].eq(path) {
                return true;
            }
            i = i + 1;
        }
        false
    }

    /// Appends a fresh object with one granted reference; returns its id.
    pub fn alloc_object(&mut self, key: TypeKey, data: ObjData) -> (id: usize)
        requires
            old(self).wf(),
            Self::data_matches(key, data),
            key == TypeKey::MainLoop ==> old(self).obj_has_key(
                data->MainLoop_context as int,
                TypeKey::MainContext,
            ),
        ensures
            final(self).wf(),
            id as int == old(self).n_objects(),
            final(self).objects@ == old(self).objects@.push(Slot { key, refcount: 1, data }),
            final(self).types@ == old(self).types@,
            final(self).files@ == old(self).files@,
            final(self).ops@ == old(self).ops@,
            final(self).ctx_stack@ == old(self).ctx_stack@,
    {
        let id = self.objects.len();
        self.objects.push(Slot { key, refcount: 1, data });
        id
    }

    /// The heap after one increment of slot `id`'s reference count.
    pub open spec fn heap_ref_added(heap: Seq<Slot>, id: int) -> Seq<Slot> {
        heap.update(id, Slot { refcount: (heap[id].refcount + 1) as u64, ..heap[id] })
    }

    /// The heap after one decrement of slot `id`'s reference count.
    pub open spec fn heap_ref_removed(heap: Seq<Slot>, id: int) -> Seq<Slot> {
        heap.update(id, Slot { refcount: (heap[id].refcount - 1) as u64, ..heap[id] })
    }

    /// Takes one more reference on a live object.
    pub fn inc_ref(&mut self, id: usize)
        requires
            old(self).wf(),
            old(self).live(id as int),
            old(self).refcount(id as int) < u64::MAX,
        ensures
            final(self).wf(),
            final(self).objects@ == Self::heap_ref_added(old(self).objects@, id as int),
            final(self).refcount(id as int) == old(self).refcount(id as int) + 1,
            final(self).types@ == old(self).types@,
            final(self).files@ == old(self).files@,
            final(self).ops@ == old(self).ops@,
            final(self).ctx_stack@ == old(self).ctx_stack@,
    {
        let slot = &mut self.objects[id];
        slot.refcount = slot.refcount + 1;
        proof {
            assert(self.objects@ =~= Self::heap_ref_added(old(self).objects@, id as int));
        }
    }

    /// Gives one reference on a live object back.  The count drops by
    /// exactly one; the slot's class and payload are untouched, so a
    /// remaining reference still sees the same object.
    pub fn dec_ref(&mut self, id: usize)
        requires
            old(self).wf(),
            old(self).live(id as int),
        ensures
            final(self).wf(),
            final(self).objects@ == Self::heap_ref_removed(old(self).objects@, id as int),
            final(self).refcount(id as int) == old(self).refcount(id as int) - 1,
            final(self).types@ == old(self).types@,
            final(self).files@ == old(self).files@,
            final(self).ops@ == old(self).ops@,
            final(self).ctx_stack@ == old(self).ctx_stack@,
    {
        let slot = &mut self.objects[id];
        slot.refcount = slot.refcount - 1;
        proof {
            assert(self.objects@ =~= Self::heap_ref_removed(old(self).objects@, id as int));
        }
    }

    /// The position of `k` in the type registry, if registered.
    pub open spec fn type_index_of(self, k: TypeKey) -> Option<int> {
        if exists|i: int| 0 <= i < self.types@.len() && self.types@[i] == k {
            Some(choose|i: int| 0 <= i < self.types@.len() && self.types@[i] == k)
        } else {
            None
        }
    }

    /// `k` is registered under id `t`.
    pub open spec fn type_registered(self, k: TypeKey, t: GType) -> bool {
        0 <= t.id < self.types@.len() && self.types@[t.id as int] == k
    }

    /// Queries the registry for `k`, registering it on first use.  The
    /// returned identifier is stable: a second call returns the same value,
    /// and distinct keys never share an identifier (the registry holds no
    /// duplicates).
    pub fn register_type(&mut self, k: TypeKey) -> (t: GType)
        requires
            old(self).wf(),
            old(self).types@.len() < usize::MAX,
        ensures
            final(self).wf(),
            final(self).type_registered(k, t),
            old(self).type_registered(k, t) || (t.id as int == old(self).types@.len()
                && final(self).types@ == old(self).types@.push(k)),
            forall|j: TypeKey, u: GType|
                old(self).type_registered(j, u) ==> final(self).type_registered(j, u),
            final(self).objects@ == old(self).objects@,
            final(self).files@ == old(self).files@,
            final(self).ops@ == old(self).ops@,
            final(self).ctx_stack@ == old(self).ctx_stack@,
    {
        let mut i: usize = 0;
        while i < self.types.len()
            invariant
                old(self).wf(),
                *self == *old(self),
                i <= self.types@.len(),
                forall|j: int| 0 <= j < i ==> self.types@[j] != k,
            decreases self.types@.len() - i,
        {
            if self.types[i] == k {
                return GType { id: i };
            }
            i = i + 1;
        }
        let id = self.types.len();
        self.types.push(k);
        GType { id }
    }
}

/// Registered type identifiers are stable and injective: registration never
/// moves an id once assigned, and two keys that hold ids in a well-formed
/// registry hold the same id exactly when they are the same key.
pub proof fn lemma_type_identity_stable(rt: Runtime, j: TypeKey, k: TypeKey, u: GType, t: GType)
    requires
        rt.wf(),
        rt.type_registered(j, u),
        rt.type_registered(k, t),
    ensures
        (u == t) <==> (j == k),
{
}

/// One added reference raises the count by exactly one and leaves every
/// other slot, and the slot's own class and payload, untouched; giving that
/// reference back restores the heap exactly.  This is the reference-count
/// discipline behind cloning an owned reference and then dropping either
/// copy: the other copy still sees a live, unchanged object.
pub proof fn lemma_ref_added_then_removed(heap: Seq<Slot>, id: int)
    requires
        0 <= id < heap.len(),
        heap[id].refcount < u64::MAX,
    ensures
        Runtime::heap_ref_added(heap, id)[id].refcount == heap[id].refcount + 1,
        Runtime::heap_ref_added(heap, id)[id].key == heap[id].key,
        Runtime::heap_ref_added(heap, id)[id].data == heap[id].data,
        forall|j: int|
            0 <= j < heap.len() && j != id ==> Runtime::heap_ref_added(heap, id)[j] == heap[j],
        Runtime::heap_ref_removed(Runtime::heap_ref_added(heap, id), id) == heap,
{
    assert(Runtime::heap_ref_removed(Runtime::heap_ref_added(heap, id), id) =~= heap);
}

} // verus!
