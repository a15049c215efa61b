//! The bound I/O classes: files, streams, cancellation
//! tokens, async-result tokens, and the I/O error enumeration.

use vstd::prelude::*;

use crate::enumeration::UnknownValue;
use crate::error::{Error, Match, Quark};
use crate::gtype::{GType, TypeKey, is_descendant, lemma_leaf_descendant};
use crate::object::{ObjectType, Ref, Upcast, valid_handle};
use crate::runtime::{AsyncOp, ObjData, OpState, Runtime, Slot};

verus! {

/// A handle to a file object.
#[derive(Clone, Copy)]
pub struct File {
    pub id: usize,
}

/// A handle to a cancellation token object.  The one class of these bindings
/// whose foreign operations are safe to call from any thread.
#[derive(Clone, Copy)]
pub struct Cancellable {
    pub id: usize,
}

/// A handle to a readable stream object.
#[derive(Clone, Copy)]
pub struct InputStream {
    pub id: usize,
}

/// A handle to a stream object produced by opening a file for reading.
#[derive(Clone, Copy)]
pub struct FileInputStream {
    pub id: usize,
}

/// The borrowed token a completion callback passes to the matching finish
/// call: the index of the completed operation.  Valid only until that
/// finish call consumes it.
#[derive(Clone, Copy)]
pub struct AsyncResult {
    pub op: usize,
}

impl ObjectType for File {
    open spec fn class_key() -> TypeKey {
        TypeKey::File
    }

    open spec fn id_spec(&self) -> int {
        self.id as int
    }

    fn class() -> TypeKey {
        TypeKey::File
    }

    fn obj_id(&self) -> usize {
        self.id
    }

    fn wrap(id: usize) -> Self {
        File { id }
    }

    fn get_type(rt: &mut Runtime) -> GType {
        rt.register_type(TypeKey::File)
    }
}

impl ObjectType for Cancellable {
    open spec fn class_key() -> TypeKey {
        TypeKey::Cancellable
    }

    open spec fn id_spec(&self) -> int {
        self.id as int
    }

    fn class() -> TypeKey {
        TypeKey::Cancellable
    }

    fn obj_id(&self) -> usize {
        self.id
    }

    fn wrap(id: usize) -> Self {
        Cancellable { id }
    }

    fn get_type(rt: &mut Runtime) -> GType {
        rt.register_type(TypeKey::Cancellable)
    }
}

impl ObjectType for InputStream {
    open spec fn class_key() -> TypeKey {
        TypeKey::InputStream
    }

    open spec fn id_spec(&self) -> int {
        self.id as int
    }

    fn class() -> TypeKey {
        TypeKey::InputStream
    }

    fn obj_id(&self) -> usize {
        self.id
    }

    fn wrap(id: usize) -> Self {
        InputStream { id }
    }

    fn get_type(rt: &mut Runtime) -> GType {
        rt.register_type(TypeKey::InputStream)
    }
}

impl ObjectType for FileInputStream {
    open spec fn class_key() -> TypeKey {
        TypeKey::FileInputStream
    }

    open spec fn id_spec(&self) -> int {
        self.id as int
    }

    fn class() -> TypeKey {
        TypeKey::FileInputStream
    }

    fn obj_id(&self) -> usize {
        self.id
    }

    fn wrap(id: usize) -> Self {
        FileInputStream { id }
    }

    fn get_type(rt: &mut Runtime) -> GType {
        rt.register_type(TypeKey::FileInputStream)
    }
}

impl Upcast<crate::object::Object> for Cancellable {
    proof fn upcast_capability() {
        assert(is_descendant(TypeKey::Object, TypeKey::Object));
    }

    fn upcast(&self) -> crate::object::Object {
        crate::object::Object { id: self.id }
    }
}

impl Upcast<crate::object::Object> for InputStream {
    proof fn upcast_capability() {
        assert(is_descendant(TypeKey::Object, TypeKey::Object));
    }

    fn upcast(&self) -> crate::object::Object {
        crate::object::Object { id: self.id }
    }
}

impl Upcast<InputStream> for FileInputStream {
    proof fn upcast_capability() {
        assert(is_descendant(TypeKey::InputStream, TypeKey::InputStream));
    }

    fn upcast(&self) -> InputStream {
        InputStream { id: self.id }
    }
}

impl Upcast<crate::object::Object> for FileInputStream {
    proof fn upcast_capability() {
        assert(is_descendant(TypeKey::Object, TypeKey::Object));
        assert(is_descendant(TypeKey::InputStream, TypeKey::Object));
    }

    fn upcast(&self) -> crate::object::Object {
        crate::object::Object { id: self.id }
    }
}

impl Upcast<File> for File {
    proof fn upcast_capability() {
    }

    fn upcast(&self) -> File {
        File { id: self.id }
    }
}

impl Upcast<Cancellable> for Cancellable {
    proof fn upcast_capability() {
    }

    fn upcast(&self) -> Cancellable {
        Cancellable { id: self.id }
    }
}

impl Upcast<InputStream> for InputStream {
    proof fn upcast_capability() {
    }

    fn upcast(&self) -> InputStream {
        InputStream { id: self.id }
    }
}

impl Upcast<FileInputStream> for FileInputStream {
    proof fn upcast_capability() {
    }

    fn upcast(&self) -> FileInputStream {
        FileInputStream { id: self.id }
    }
}

/// The path stored in the file object at slot `id`.
pub open spec fn file_path(rt: Runtime, id: int) -> Seq<char> {
    rt.objects@[id].data->File_path@
}

/// The advisory cancellation flag of the token object at slot `id`.
pub open spec fn cancelled_flag(rt: Runtime, id: int) -> bool {
    rt.objects@[id].data->Cancellable_cancelled
}

impl File {
    /// Creates a file object for `path`, transferring the constructor's
    /// granted reference to the returned owned reference.
    pub fn new_for_path(rt: &mut Runtime, path: &str) -> (r: Ref<File>)
        requires
            old(rt).wf(),
        ensures
            final(rt).wf(),
            final(rt).objects@.len() == old(rt).objects@.len() + 1,
            r.id_spec() == old(rt).n_objects(),
            final(rt).key_of(r.id_spec()) == TypeKey::File,
            final(rt).refcount(r.id_spec()) == 1,
            file_path(*final(rt), r.id_spec()) == path@,
            forall|j: int|
                0 <= j < old(rt).objects@.len() ==> final(rt).objects@[j] == old(rt).objects@[j],
            final(rt).types@ == old(rt).types@,
            final(rt).files@ == old(rt).files@,
            final(rt).ops@ == old(rt).ops@,
            final(rt).ctx_stack@ == old(rt).ctx_stack@,
    {
        let id = rt.alloc_object(TypeKey::File, ObjData::File { path: path.to_owned() });
        Ref::from_granted(id)
    }

    /// Reads back the path the file object was created for: a fresh owned
    /// string equal to the stored one.
    pub fn get_path(&self, rt: &Runtime) -> (p: String)
        requires
            rt.wf(),
            valid_handle(*rt, *self),
        ensures
            p@ == file_path(*rt, self.id_spec()),
    {
        proof {
            lemma_leaf_descendant(rt.key_of(self.id_spec()), TypeKey::File);
        }
        let id = self.obj_id();
        match &rt.objects[id].data {
            ObjData::File { path } => path.clone(),
            _ => vstd::pervasive::unreached(),
        }
    }

    /// Registers one two-phase asynchronous read of this file: exactly one
    /// operation record enters the table in the started state, to be
    /// dispatched by the event loop.  Returns immediately; nothing else in
    /// the foreign state moves.
    pub fn read_async(
        &self,
        rt: &mut Runtime,
        io_priority: i32,
        cancellable: Option<&Cancellable>,
    )
        requires
            old(rt).wf(),
            valid_handle(*old(rt), *self),
            match cancellable {
                Some(c) => valid_handle(*old(rt), *c),
                None => true,
            },
            old(rt).ops@.len() < usize::MAX,
        ensures
            final(rt).wf(),
            final(rt).ops@.len() == old(rt).ops@.len() + 1,
            forall|j: int| 0 <= j < old(rt).ops@.len() ==> final(rt).ops@[j] == old(rt).ops@[j],
            final(rt).ops@.last().source as int == self.id_spec(),
            final(rt).ops@.last().io_priority == io_priority,
            final(rt).ops@.last().state is Started,
            match cancellable {
                Some(c) => final(rt).ops@.last().cancellable matches Some(cc) && cc as int
                    == c.id_spec(),
                None => final(rt).ops@.last().cancellable is None,
            },
            final(rt).objects@ == old(rt).objects@,
            final(rt).types@ == old(rt).types@,
            final(rt).files@ == old(rt).files@,
            final(rt).ctx_stack@ == old(rt).ctx_stack@,
    {
        proof {
            lemma_leaf_descendant(rt.key_of(self.id_spec()), TypeKey::File);
            if let Some(c) = cancellable {
                lemma_leaf_descendant(rt.key_of(c.id_spec()), TypeKey::Cancellable);
            }
        }
        let cancellable_id = match cancellable {
            Some(c) => Some(c.obj_id()),
            None => None,
        };
        rt.ops.push(
            AsyncOp {
                source: self.obj_id(),
                io_priority,
                cancellable: cancellable_id,
                state: OpState::Started,
            },
        );
    }

    /// Consumes the async-result token of a completed read on this file:
    /// the operation moves to the finished state, and the stored outcome is
    /// surfaced exactly once.  Success yields an owned reference to a fresh
    /// stream object; failure yields the stored error unchanged.
    pub fn read_finish(&self, rt: &mut Runtime, res: &AsyncResult) -> (r: Result<
        Ref<FileInputStream>,
        Error,
    >)
        requires
            old(rt).wf(),
            valid_handle(*old(rt), *self),
            res.op < old(rt).ops@.len(),
            old(rt).ops@[res.op as int].state is Completed,
            old(rt).ops@[res.op as int].source as int == self.id_spec(),
        ensures
            final(rt).wf(),
            final(rt).ops@.len() == old(rt).ops@.len(),
            forall|j: int|
                0 <= j < old(rt).ops@.len() && j != res.op as int ==> final(rt).ops@[j] == old(
                    rt,
                ).ops@[j],
            final(rt).ops@[res.op as int].state is Finished,
            final(rt).ops@[res.op as int].source == old(rt).ops@[res.op as int].source,
            r is Ok <==> old(rt).ops@[res.op as int].state->Completed_result is Ok,
            match r {
                Ok(stream) => {
                    &&& final(rt).objects@ == old(rt).objects@.push(
                        Slot { key: TypeKey::FileInputStream, refcount: 1, data: ObjData::Plain },
                    )
                    &&& stream.id_spec() == old(rt).n_objects()
                    &&& final(rt).refcount(stream.id_spec()) == 1
                    &&& final(rt).key_of(stream.id_spec()) == TypeKey::FileInputStream
                },
                Err(e) => {
                    &&& final(rt).objects@ == old(rt).objects@
                    &&& e.domain.name@ == old(
                        rt,
                    ).ops@[res.op as int].state->Completed_result->Err_0.domain.name@
                    &&& e.code == old(rt).ops@[res.op as int].state->Completed_result->Err_0.code
                    &&& e.message@ == old(
                        rt,
                    ).ops@[res.op as int].state->Completed_result->Err_0.message@
                },
            },
            final(rt).types@ == old(rt).types@,
            final(rt).files@ == old(rt).files@,
            final(rt).ctx_stack@ == old(rt).ctx_stack@,
    {
        let i = res.op;
        let source = rt.ops[i].source;
        let io_priority = rt.ops[i].io_priority;
        let cancellable = match &rt.ops[i].cancellable {
            Some(c) => Some(*c),
            None => None,
        };
        let outcome: Result<(), Error> = match &rt.ops[i].state {
            OpState::Completed { result } => match result {
                Ok(_) => Ok(()),
                Err(e) => Err(e.dup()),
            },
            _ => vstd::pervasive::unreached(),
        };
        rt.ops.set(i, AsyncOp { source, io_priority, cancellable, state: OpState::Finished });
        match outcome {
            Ok(_) => {
                let id = rt.alloc_object(TypeKey::FileInputStream, ObjData::Plain);
                Ok(Ref::from_granted(id))
            },
            Err(e) => Err(e),
        }
    }
}

impl Cancellable {
    /// Creates a fresh, un-cancelled cancellation token.
    pub fn new(rt: &mut Runtime) -> (r: Ref<Cancellable>)
        requires
            old(rt).wf(),
        ensures
            final(rt).wf(),
            final(rt).objects@ == old(rt).objects@.push(
                Slot {
                    key: TypeKey::Cancellable,
                    refcount: 1,
                    data: ObjData::Cancellable { cancelled: false },
                },
            ),
            r.id_spec() == old(rt).n_objects(),
            final(rt).types@ == old(rt).types@,
            final(rt).files@ == old(rt).files@,
            final(rt).ops@ == old(rt).ops@,
            final(rt).ctx_stack@ == old(rt).ctx_stack@,
    {
        let id = rt.alloc_object(TypeKey::Cancellable, ObjData::Cancellable { cancelled: false });
        Ref::from_granted(id)
    }

    /// Requests cancellation: sets the advisory flag.  Operations already
    /// started still complete and must still be finished; they surface a
    /// cancellation-flavored error instead of a value.
    pub fn cancel(&self, rt: &mut Runtime)
        requires
            old(rt).wf(),
            valid_handle(*old(rt), *self),
        ensures
            final(rt).wf(),
            final(rt).objects@ == old(rt).objects@.update(
                self.id_spec(),
                Slot {
                    key: TypeKey::Cancellable,
                    refcount: old(rt).objects@[self.id_spec()].refcount,
                    data: ObjData::Cancellable { cancelled: true },
                },
            ),
            cancelled_flag(*final(rt), self.id_spec()),
            final(rt).types@ == old(rt).types@,
            final(rt).files@ == old(rt).files@,
            final(rt).ops@ == old(rt).ops@,
            final(rt).ctx_stack@ == old(rt).ctx_stack@,
    {
        proof {
            lemma_leaf_descendant(rt.key_of(self.id_spec()), TypeKey::Cancellable);
        }
        let id = self.obj_id();
        let slot = &mut rt.objects[id];
        slot.data = ObjData::Cancellable { cancelled: true };
    }

    /// Whether cancellation has been requested on this token.
    pub fn is_cancelled(&self, rt: &Runtime) -> (r: bool)
        requires
            rt.wf(),
            valid_handle(*rt, *self),
        ensures
            r == cancelled_flag(*rt, self.id_spec()),
    {
        proof {
            lemma_leaf_descendant(rt.key_of(self.id_spec()), TypeKey::Cancellable);
        }
        let id = self.obj_id();
        match &rt.objects[id].data {
            ObjData::Cancellable { cancelled } => *cancelled,
            _ => vstd::pervasive::unreached(),
        }
    }
}

impl AsyncResult {
    /// The runtime type identifier of the async-result interface.
    pub fn get_type(rt: &mut Runtime) -> (t: GType)
        requires
            old(rt).wf(),
            old(rt).types@.len() < usize::MAX,
        ensures
            final(rt).wf(),
            final(rt).type_registered(TypeKey::AsyncResult, t),
            final(rt).objects@ == old(rt).objects@,
            final(rt).files@ == old(rt).files@,
            final(rt).ops@ == old(rt).ops@,
            final(rt).ctx_stack@ == old(rt).ctx_stack@,
    {
        rt.register_type(TypeKey::AsyncResult)
    }
}

/// The name of the I/O error domain.
pub open spec fn io_error_domain_name() -> Seq<char> {
    "g-io-error-quark"@
}

/// The code the foreign layer reports for cancelled operations; it lies
/// outside the variants these bindings declare, so matching it against the
/// enumeration reports an unknown code within the known domain.
pub const CANCELLED_CODE: i32 = 19;

/// The message of a failed completion on a missing path.
pub open spec fn not_found_message() -> Seq<char> {
    "No such file or directory"@
}

/// The message of a completion that was cancelled.
pub open spec fn cancelled_message() -> Seq<char> {
    "Operation was cancelled"@
}

/// The error codes of the I/O domain that these bindings declare.
#[derive(Clone, Copy, PartialEq, Eq, Structural, Debug)]
pub enum IOErrorEnum {
    Failed,
    NotFound,
    Exists,
}

impl IOErrorEnum {
    /// The foreign integer code of a variant: total and lossless.
    pub open spec fn to_int_spec(self) -> int {
        match self {
            IOErrorEnum::Failed => 0,
            IOErrorEnum::NotFound => 1,
            IOErrorEnum::Exists => 2,
        }
    }

    /// The variant a foreign integer code names, if any.
    pub open spec fn from_int_spec(v: int) -> Option<IOErrorEnum> {
        if v == 0 {
            Some(IOErrorEnum::Failed)
        } else if v == 1 {
            Some(IOErrorEnum::NotFound)
        } else if v == 2 {
            Some(IOErrorEnum::Exists)
        } else {
            None
        }
    }

    /// Converts a variant to its foreign integer code.
    pub fn to_int(&self) -> (r: i32)
        ensures
            r as int == self.to_int_spec(),
    {
        match *self {
            IOErrorEnum::Failed => 0,
            IOErrorEnum::NotFound => 1,
            IOErrorEnum::Exists => 2,
        }
    }

    /// Converts a foreign integer code to a variant; succeeds exactly when
    /// a declared variant carries the code, and otherwise fails carrying
    /// the raw code.
    pub fn from_int(v: i32) -> (r: Result<IOErrorEnum, UnknownValue>)
        ensures
            r is Ok <==> Self::from_int_spec(v as int) is Some,
            match r {
                Ok(e) => Self::from_int_spec(v as int) == Some(e),
                Err(u) => u == UnknownValue(v),
            },
    {
        if v == 0 {
            Ok(IOErrorEnum::Failed)
        } else if v == 1 {
            Ok(IOErrorEnum::NotFound)
        } else if v == 2 {
            Ok(IOErrorEnum::Exists)
        } else {
            Err(UnknownValue(v))
        }
    }

    /// The stable lowercase-hyphenated name of a variant.
    pub fn name(&self) -> (s: &'static str)
        ensures
            s@ == self.name_spec(),
    {
        match *self {
            IOErrorEnum::Failed => "failed",
            IOErrorEnum::NotFound => "not-found",
            IOErrorEnum::Exists => "exists",
        }
    }

    /// The name string of a variant.
    pub open spec fn name_spec(self) -> Seq<char> {
        match self {
            IOErrorEnum::Failed => "failed"@,
            IOErrorEnum::NotFound => "not-found"@,
            IOErrorEnum::Exists => "exists"@,
        }
    }

    /// The runtime type identifier of the enumeration.
    pub fn get_type(rt: &mut Runtime) -> (t: GType)
        requires
            old(rt).wf(),
            old(rt).types@.len() < usize::MAX,
        ensures
            final(rt).wf(),
            final(rt).type_registered(TypeKey::IoErrorEnum, t),
            final(rt).objects@ == old(rt).objects@,
            final(rt).files@ == old(rt).files@,
            final(rt).ops@ == old(rt).ops@,
            final(rt).ctx_stack@ == old(rt).ctx_stack@,
    {
        rt.register_type(TypeKey::IoErrorEnum)
    }

    /// The symbolic token of the I/O error domain.
    pub fn error_domain() -> (q: Quark)
        ensures
            q.name@ == io_error_domain_name(),
    {
        Quark::from_name("g-io-error-quark")
    }

    /// Classifies a foreign error against the I/O domain: a different
    /// domain is reported as such without looking at the code; a matching
    /// domain converts the code, and an unrecognized code is reported with
    /// the raw value.  The two failures stay distinguishable.
    pub fn from_error(err: &Error) -> (r: Match<IOErrorEnum>)
        ensures
            r is NotInDomain <==> err.domain.name@ != io_error_domain_name(),
            err.domain.name@ == io_error_domain_name() ==> match Self::from_int_spec(
                err.code as int,
            ) {
                Some(v) => r == Match::<IOErrorEnum>::Known(v),
                None => r == Match::<IOErrorEnum>::Unknown(err.code),
            },
    {
        let domain = Self::error_domain();
        if !err.domain.matches(&domain) {
            return Match::NotInDomain;
        }
        match Self::from_int(err.code) {
            Ok(v) => Match::Known(v),
            Err(u) => Match::Unknown(u.0),
        }
    }
}

/// Round trip of the enumeration: converting any declared variant to its
/// foreign code and back yields that variant.
pub proof fn lemma_enum_round_trip(v: IOErrorEnum)
    ensures
        IOErrorEnum::from_int_spec(v.to_int_spec()) == Some(v),
{
}

/// A foreign code converts to a variant exactly when some declared variant
/// carries it; every other code is rejected as unknown.
pub proof fn lemma_enum_unknown(code: int)
    ensures
        IOErrorEnum::from_int_spec(code) is None <==> forall|v: IOErrorEnum|
            v.to_int_spec() != code,
{
    if IOErrorEnum::from_int_spec(code) is Some {
        let v = IOErrorEnum::from_int_spec(code).unwrap();
        assert(v.to_int_spec() == code);
    }
}

} // verus!
