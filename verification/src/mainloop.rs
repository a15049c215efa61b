//! The cooperative event loop and the dispatch of asynchronous completions.
//!
//! A loop run is the only place foreign completion callbacks fire.  The
//! model makes the run a transcript: running the loop dispatches every
//! operation that was started, exactly once each and in start order, and
//! hands back one completion event per operation — the source object and
//! the borrowed async-result token that the registered one-shot closure
//! would have received.  The caller reacts to the events and then asks the
//! loop to quit, as the callbacks themselves would have.

use vstd::prelude::*;

use crate::error::Error;
use crate::gio::{
    AsyncResult, CANCELLED_CODE, IOErrorEnum, cancelled_flag, cancelled_message, file_path,
    io_error_domain_name, not_found_message,
};
use crate::gtype::{GType, TypeKey};
use crate::object::{Object, ObjectType};
use crate::runtime::{AsyncOp, ObjData, OpState, Runtime, Slot};

verus! {

/// A handle to an event-loop object.
#[derive(Clone, Copy)]
pub struct MainLoop {
    pub id: usize,
}

/// A handle to a dispatch-context object.
#[derive(Clone, Copy)]
pub struct MainContext {
    pub id: usize,
}

impl ObjectType for MainLoop {
    open spec fn class_key() -> TypeKey {
        TypeKey::MainLoop
    }

    open spec fn id_spec(&self) -> int {
        self.id as int
    }

    fn class() -> TypeKey {
        TypeKey::MainLoop
    }

    fn obj_id(&self) -> usize {
        self.id
    }

    fn wrap(id: usize) -> Self {
        MainLoop { id }
    }

    fn get_type(rt: &mut Runtime) -> GType {
        rt.register_type(TypeKey::MainLoop)
    }
}

impl ObjectType for MainContext {
    open spec fn class_key() -> TypeKey {
        TypeKey::MainContext
    }

    open spec fn id_spec(&self) -> int {
        self.id as int
    }

    fn class() -> TypeKey {
        TypeKey::MainContext
    }

    fn obj_id(&self) -> usize {
        self.id
    }

    fn wrap(id: usize) -> Self {
        MainContext { id }
    }

    fn get_type(rt: &mut Runtime) -> GType {
        rt.register_type(TypeKey::MainContext)
    }
}

/// One dispatched completion: the source object of the operation and the
/// borrowed async-result token to hand to the matching finish call.
#[derive(Clone, Copy)]
pub struct Completion {
    pub source: Object,
    pub res: AsyncResult,
}

/// Cancellation was requested on the operation's token.
pub open spec fn op_cancelled(rt: Runtime, op: AsyncOp) -> bool {
    match op.cancellable {
        Some(c) => cancelled_flag(rt, c as int),
        None => false,
    }
}

/// The foreign side completes the operation successfully: no cancellation
/// was requested and the source file's path exists on the host.
pub open spec fn op_outcome_ok(rt: Runtime, op: AsyncOp) -> bool {
    !op_cancelled(rt, op) && rt.file_exists(file_path(rt, op.source as int))
}

/// The error code a failed completion carries.
pub open spec fn op_error_code(rt: Runtime, op: AsyncOp) -> int {
    if op_cancelled(rt, op) {
        CANCELLED_CODE as int
    } else {
        IOErrorEnum::NotFound.to_int_spec()
    }
}

/// The message a failed completion carries.
pub open spec fn op_error_message(rt: Runtime, op: AsyncOp) -> Seq<char> {
    if op_cancelled(rt, op) {
        cancelled_message()
    } else {
        not_found_message()
    }
}

/// Record `op1` is record `op0` after its completion callback fired, with
/// the outcome the world `rt` (as it stood at dispatch) dictates.
pub open spec fn op_completed_from(rt: Runtime, op0: AsyncOp, op1: AsyncOp) -> bool {
    &&& op1.source == op0.source
    &&& op1.io_priority == op0.io_priority
    &&& op1.cancellable == op0.cancellable
    &&& op1.state is Completed
    &&& (op1.state->Completed_result is Ok <==> op_outcome_ok(rt, op0))
    &&& (op1.state->Completed_result matches Err(e) ==> {
        &&& e.domain.name@ == io_error_domain_name()
        &&& e.code as int == op_error_code(rt, op0)
        &&& e.message@ == op_error_message(rt, op0)
    })
}

/// The indices of the operations in the started state among the first `n`
/// records, in increasing order: the dispatch order of one loop run.
pub open spec fn started_indices(ops: Seq<AsyncOp>, n: int) -> Seq<int>
    decreases n,
{
    if n <= 0 {
        Seq::empty()
    } else if ops[n - 1].state is Started {
        started_indices(ops, n - 1).push(n - 1)
    } else {
        started_indices(ops, n - 1)
    }
}

/// One loop run dispatches each started operation exactly once: the
/// dispatch order lists only started records, lists them in start order
/// without repetition, and omits none of them.
pub proof fn lemma_dispatch_exactly_once(ops: Seq<AsyncOp>, n: int)
    requires
        0 <= n <= ops.len(),
    ensures
        forall|m: int|
            0 <= m < started_indices(ops, n).len() ==> 0 <= #[trigger] started_indices(ops, n)[m]
                < n && ops[started_indices(ops, n)[m]].state is Started,
        forall|m1: int, m2: int|
            0 <= m1 < m2 < started_indices(ops, n).len() ==> #[trigger] started_indices(ops, n)[m1]
                < #[trigger] started_indices(ops, n)[m2],
        forall|j: int|
            0 <= j < n && ops[j].state is Started ==> started_indices(ops, n).contains(j),
    decreases n,
{
    if n > 0 {
        lemma_dispatch_exactly_once(ops, n - 1);
        assert forall|j: int|
            0 <= j < n && ops[j].state is Started implies started_indices(ops, n).contains(
            j,
        ) by {
            if j < n - 1 {
                assert(started_indices(ops, n - 1).contains(j));
                let m = choose|m: int|
                    0 <= m < started_indices(ops, n - 1).len() && #[trigger] started_indices(
                        ops,
                        n - 1,
                    )[m] == j;
                assert(started_indices(ops, n)[m] == j);
            } else {
                assert(ops[n - 1].state is Started);
                assert(started_indices(ops, n).last() == n - 1);
            }
        }
    }
}

/// The heap with the running flag of the loop object at `l` set to
/// `running` and everything else untouched.
pub open spec fn heap_with_running(heap: Seq<Slot>, l: int, running: bool) -> Seq<Slot> {
    heap.update(
        l,
        Slot {
            key: heap[l].key,
            refcount: heap[l].refcount,
            data: ObjData::MainLoop { context: heap[l].data->MainLoop_context, running },
        },
    )
}

impl MainLoop {
    /// Whether a run of this loop is in progress.
    pub open spec fn running_spec(self, rt: Runtime) -> bool {
        rt.objects@[self.id as int].data->MainLoop_running
    }

    /// The dispatch context this loop was created with.
    pub fn get_context(&self, rt: &Runtime) -> (c: MainContext)
        requires
            rt.wf(),
            rt.obj_has_key(self.id as int, TypeKey::MainLoop),
        ensures
            c.id == rt.objects@[self.id as int].data->MainLoop_context,
    {
        match &rt.objects[self.id].data {
            ObjData::MainLoop { context, .. } => MainContext { id: *context },
            _ => vstd::pervasive::unreached(),
        }
    }

    /// Asks the loop to stop: clears the running flag.  The request takes
    /// effect at the end of the run that dispatched it; no callback fires
    /// after it.
    pub fn quit(&self, rt: &mut Runtime)
        requires
            old(rt).wf(),
            old(rt).obj_has_key(self.id as int, TypeKey::MainLoop),
        ensures
            final(rt).wf(),
            final(rt).objects@ == heap_with_running(old(rt).objects@, self.id as int, false),
            !self.running_spec(*final(rt)),
            final(rt).types@ == old(rt).types@,
            final(rt).files@ == old(rt).files@,
            final(rt).ops@ == old(rt).ops@,
            final(rt).ctx_stack@ == old(rt).ctx_stack@,
    {
        let ctx = match &rt.objects[self.id].data {
            ObjData::MainLoop { context, .. } => *context,
            _ => vstd::pervasive::unreached(),
        };
        let slot = &mut rt.objects[self.id];
        slot.data = ObjData::MainLoop { context: ctx, running: false };
    }
}

/// Owns an event loop for the scope of a run: creates the loop with a
/// fresh dispatch context, installs the context as the thread default for
/// exactly the span of the run, and releases the loop when destroyed.
pub struct LoopRunner {
    loop_id: usize,
}

impl LoopRunner {
    /// The object id of the owned loop.
    pub closed spec fn loop_id_spec(self) -> int {
        self.loop_id as int
    }

    /// Creates a fresh dispatch context and an event loop bound to it; the
    /// runner owns the one reference on the loop.
    pub fn new(rt: &mut Runtime) -> (r: LoopRunner)
        requires
            old(rt).wf(),
        ensures
            final(rt).wf(),
            final(rt).objects@ == old(rt).objects@.push(
                Slot { key: TypeKey::MainContext, refcount: 1, data: ObjData::Plain },
            ).push(
                Slot {
                    key: TypeKey::MainLoop,
                    refcount: 1,
                    data: ObjData::MainLoop {
                        context: old(rt).objects@.len() as usize,
                        running: false,
                    },
                },
            ),
            r.loop_id_spec() == old(rt).n_objects() + 1,
            final(rt).types@ == old(rt).types@,
            final(rt).files@ == old(rt).files@,
            final(rt).ops@ == old(rt).ops@,
            final(rt).ctx_stack@ == old(rt).ctx_stack@,
    {
        let ctx = rt.alloc_object(TypeKey::MainContext, ObjData::Plain);
        let l = rt.alloc_object(TypeKey::MainLoop, ObjData::MainLoop { context: ctx, running: false });
        LoopRunner { loop_id: l }
    }

    /// A borrowed handle to the owned loop.
    pub fn main_loop(&self) -> (l: MainLoop)
        ensures
            l.id as int == self.loop_id_spec(),
    {
        MainLoop { id: self.loop_id }
    }

    /// Runs the loop after the caller's setup: installs the loop's context
    /// as the thread default, dispatches every started operation exactly
    /// once, in start order — each completion callback fires once with the
    /// source object and a borrowed result token, recorded here as one
    /// event — then uninstalls the context.  The thread-default stack and
    /// the heap come back exactly as they were.
    pub fn run_after(&self, rt: &mut Runtime) -> (events: Vec<Completion>)
        requires
            old(rt).wf(),
            old(rt).obj_has_key(self.loop_id_spec(), TypeKey::MainLoop),
            !old(rt).objects@[self.loop_id_spec()].data->MainLoop_running,
            old(rt).ctx_stack@.len() < usize::MAX,
        ensures
            final(rt).wf(),
            final(rt).objects@ == old(rt).objects@,
            final(rt).ctx_stack@ == old(rt).ctx_stack@,
            final(rt).types@ == old(rt).types@,
            final(rt).files@ == old(rt).files@,
            final(rt).ops@.len() == old(rt).ops@.len(),
            forall|j: int|
                0 <= j < old(rt).ops@.len() && old(rt).ops@[j].state is Started
                    ==> op_completed_from(*old(rt), old(rt).ops@[j], #[trigger] final(rt).ops@[j]),
            forall|j: int|
                0 <= j < old(rt).ops@.len() && !(old(rt).ops@[j].state is Started)
                    ==> final(rt).ops@[j] == old(rt).ops@[j],
            events@.len() == started_indices(old(rt).ops@, old(rt).ops@.len() as int).len(),
            forall|m: int|
                0 <= m < events@.len() ==> {
                    let si = started_indices(old(rt).ops@, old(rt).ops@.len() as int);
                    (#[trigger] events@[m]).res.op as int == si[m] && events@[m].source.id as int
                        == old(rt).ops@[si[m]].source as int
                },
    {
        let l = self.loop_id;
        let ctx = match &rt.objects[l].data {
            ObjData::MainLoop { context, .. } => *context,
            _ => vstd::pervasive::unreached(),
        };
        rt.ctx_stack.push(ctx);
        let slot = &mut rt.objects[l];
        slot.data = ObjData::MainLoop { context: ctx, running: true };
        proof {
            assert(rt.objects@ =~= heap_with_running(old(rt).objects@, l as int, true));
        }

        let mut events: Vec<Completion> = Vec::new();
        let n = rt.ops.len();
        let mut i: usize = 0;
        while i < n
            invariant
                old(rt).wf(),
                old(rt).obj_has_key(self.loop_id_spec(), TypeKey::MainLoop),
                l == self.loop_id_spec(),
                ctx == old(rt).objects@[l as int].data->MainLoop_context,
                rt.wf(),
                rt.objects@ == heap_with_running(old(rt).objects@, l as int, true),
                rt.ctx_stack@ == old(rt).ctx_stack@.push(ctx),
                rt.types@ == old(rt).types@,
                rt.files@ == old(rt).files@,
                n == old(rt).ops@.len(),
                i <= n,
                rt.ops@.len() == n,
                forall|j: int| i <= j < n ==> rt.ops@[j] == old(rt).ops@[j],
                forall|j: int|
                    0 <= j < i && old(rt).ops@[j].state is Started ==> op_completed_from(
                        *old(rt),
                        old(rt).ops@[j],
                        #[trigger] rt.ops@[j],
                    ),
                forall|j: int|
                    0 <= j < i && !(old(rt).ops@[j].state is Started) ==> rt.ops@[j] == old(
                        rt,
                    ).ops@[j],
                events@.len() == started_indices(old(rt).ops@, i as int).len(),
                forall|m: int|
                    0 <= m < events@.len() ==> {
                        let si = started_indices(old(rt).ops@, i as int);
                        (#[trigger] events@[m]).res.op as int == si[m] && events@[m].source.id
                            as int == old(rt).ops@[si[m]].source as int
                    },
            decreases n - i,
        {
            let started = match &rt.ops[i].state {
                OpState::Started => true,
                _ => false,
            };
            if started {
                let source = rt.ops[i].source;
                let io_priority = rt.ops[i].io_priority;
                let cancellable = match &rt.ops[i].cancellable {
                    Some(c) => Some(*c),
                    None => None,
                };
                proof {
                    assert(old(rt).ops@[i as int].source == source);
                    assert(rt.objects@[source as int].key == TypeKey::File);
                    assert(source as int != l as int);
                }
                let cancelled = match cancellable {
                    Some(c) => {
                        proof {
                            assert(c as int != l as int);
                        }
                        match &rt.objects[c].data {
                            ObjData::Cancellable { cancelled } => *cancelled,
                            _ => vstd::pervasive::unreached(),
                        }
                    },
                    None => false,
                };
                let result: Result<(), Error> = if cancelled {
                    Err(
                        Error::new(
                            IOErrorEnum::error_domain(),
                            CANCELLED_CODE,
                            String::from_str("Operation was cancelled"),
                        ),
                    )
                } else {
                    let exists_here = match &rt.objects[source].data {
                        ObjData::File { path } => rt.lookup_file(path),
                        _ => vstd::pervasive::unreached(),
                    };
                    if exists_here {
                        Ok(())
                    } else {
                        Err(
                            Error::new(
                                IOErrorEnum::error_domain(),
                                IOErrorEnum::NotFound.to_int(),
                                String::from_str("No such file or directory"),
                            ),
                        )
                    }
                };
                rt.ops.set(
                    i,
                    AsyncOp { source, io_priority, cancellable, state: OpState::Completed { result } },
                );
                events.push(Completion { source: Object { id: source }, res: AsyncResult { op: i } });
                proof {
                    assert(op_completed_from(*old(rt), old(rt).ops@[i as int], rt.ops@[i as int]));
                    assert(started_indices(old(rt).ops@, i + 1) =~= started_indices(
                        old(rt).ops@,
                        i as int,
                    ).push(i as int));
                }
            } else {
                proof {
                    assert(started_indices(old(rt).ops@, i + 1) =~= started_indices(
                        old(rt).ops@,
                        i as int,
                    ));
                }
            }
            i = i + 1;
        }

        let slot = &mut rt.objects[l];
        let ctx2 = match &slot.data {
            ObjData::MainLoop { context, .. } => *context,
            _ => vstd::pervasive::unreached(),
        };
        slot.data = ObjData::MainLoop { context: ctx2, running: false };
        let _ = rt.ctx_stack.pop();
        proof {
            assert(rt.objects@ =~= old(rt).objects@);
            assert(rt.ctx_stack@ =~= old(rt).ctx_stack@);
        }
        events
    }

    /// Releases the runner's reference on the loop; the foreign side tears
    /// the loop's internals down when the count reaches zero.
    pub fn destroy(self, rt: &mut Runtime)
        requires
            old(rt).wf(),
            old(rt).live(self.loop_id_spec()),
        ensures
            final(rt).wf(),
            final(rt).objects@ == Runtime::heap_ref_removed(old(rt).objects@, self.loop_id_spec()),
            final(rt).types@ == old(rt).types@,
            final(rt).files@ == old(rt).files@,
            final(rt).ops@ == old(rt).ops@,
            final(rt).ctx_stack@ == old(rt).ctx_stack@,
    {
        rt.dec_ref(self.loop_id);
    }
}

} // verus!
