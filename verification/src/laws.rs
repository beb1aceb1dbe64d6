//! The laws the machine obeys, stated over its mathematical model and
//! proved once and for all.

use vstd::prelude::*;
use crate::module::InstrModel;
use crate::registry::{arity, NativeFn, spec_lookup};
use crate::value::ValueModel;
use crate::vm::{
    advance_model, apply_native, bump_top, pull, redirect_model, run_upto, step_model, tick_model,
    ExtractError, Status, SuspensionToken, Tag, VmModel,
};

verus! {

/// The machine is suspended on a timer.
pub open spec fn waiting(m: VmModel) -> bool {
    m.status matches Status::Suspended(SuspensionToken::Wait(_))
}

/// The remaining duration of a timer suspension.
pub open spec fn wait_rem(m: VmModel) -> i64 {
    match m.status {
        Status::Suspended(SuspensionToken::Wait(rem)) => rem,
        _ => 0,
    }
}

/// Invoking a zero-arity native handler never mutates the value store, the
/// frame stack, the status, or anything else: its effect is documented as
/// none, and none it is.
pub proof fn lemma_zero_arity_handlers_inert(m: VmModel, h: NativeFn, args: Seq<usize>)
    requires
        arity(h) == 0,
    ensures
        apply_native(m, h, args) == m,
{
}

/// A call instruction whose name resolves to a zero-arity handler — or to
/// no handler at all — only advances the program counter: value store,
/// status, lower frames, modules, and registry are untouched.
pub proof fn lemma_zero_arity_call_step(m: VmModel)
    requires
        m.status is Ready,
        m.frames.len() >= 1,
        m.frames.last().module < m.modules.len(),
        m.frames.last().pc < m.modules[m.frames.last().module as int].code.len(),
        (m.modules[m.frames.last().module as int].code[m.frames.last().pc as int] matches
            InstrModel::CallNative { name, args } && (forall|h: NativeFn|
            spec_lookup(m.registry, name) == Some(h) ==> arity(h) == 0)),
    ensures
        step_model(m).heap == m.heap,
        step_model(m).status == m.status,
        step_model(m).modules == m.modules,
        step_model(m).registry == m.registry,
        step_model(m).frames == bump_top(m.frames),
{
    let f = m.frames.last();
    let instr = m.modules[f.module as int].code[f.pc as int];
    match instr {
        InstrModel::CallNative { name, args } => {
            let m1 = VmModel { frames: bump_top(m.frames), ..m };
            match spec_lookup(m.registry, name) {
                None => {},
                Some(h) => {
                    lemma_zero_arity_handlers_inert(m1, h, args);
                },
            }
        },
        _ => {},
    }
}

/// An `advance` that does not satisfy an outstanding timer only decrements
/// it: no instruction runs and no other part of the machine moves.
pub proof fn lemma_partial_wait(m: VmModel, dt: i64)
    requires
        waiting(m),
        0 <= dt < wait_rem(m),
    ensures
        advance_model(m, dt) == (VmModel {
            status: Status::Suspended(SuspensionToken::Wait((wait_rem(m) - dt) as i64)),
            ..m
        }),
{
    let t = tick_model(m, dt);
    assert(t =~= (VmModel {
        status: Status::Suspended(SuspensionToken::Wait((wait_rem(m) - dt) as i64)),
        ..m
    }));
    assert(run_upto(t, crate::vm::STEP_BUDGET as nat) == t);
}

/// Chunking invariance: however a wait is sliced across host frames, the
/// machine leaves the suspension exactly once and ends in the same state —
/// advancing by `dt1` and then `dt2` is advancing by `dt1 + dt2`.
pub proof fn lemma_advance_chunking(m: VmModel, dt1: i64, dt2: i64)
    requires
        waiting(m),
        0 <= dt1 < wait_rem(m),
        0 <= dt2,
        dt1 + dt2 <= i64::MAX,
    ensures
        advance_model(advance_model(m, dt1), dt2) == advance_model(m, (dt1 + dt2) as i64),
{
    let rem = wait_rem(m);
    let t1 = tick_model(m, dt1);
    assert(run_upto(t1, crate::vm::STEP_BUDGET as nat) == t1);
    assert(advance_model(m, dt1) == t1);
    if rem - dt1 <= dt2 {
        assert(tick_model(t1, dt2) =~= (VmModel { status: Status::Ready, ..m }));
        assert(tick_model(m, (dt1 + dt2) as i64) =~= (VmModel { status: Status::Ready, ..m }));
    } else {
        assert(tick_model(t1, dt2) =~= (VmModel {
            status: Status::Suspended(SuspensionToken::Wait((rem - dt1 - dt2) as i64)),
            ..m
        }));
        assert(tick_model(m, (dt1 + dt2) as i64) =~= (VmModel {
            status: Status::Suspended(SuspensionToken::Wait((rem - (dt1 + dt2)) as i64)),
            ..m
        }));
    }
}

/// A machine that has finished or failed is inert: ticks do not resurrect
/// it, so the host may discard it at any time.
pub proof fn lemma_stopped_machine_is_inert(m: VmModel, dt: i64)
    requires
        m.status is Finished || m.status is Failed,
    ensures
        advance_model(m, dt) == m,
{
    assert(tick_model(m, dt) == m);
    assert(run_upto(m, crate::vm::STEP_BUDGET as nat) == m);
}

/// A machine blocked on a host event ignores time: only the host's report
/// releases it.
pub proof fn lemma_blocked_awaits_the_host(m: VmModel, dt: i64)
    requires
        m.status == Status::Suspended(SuspensionToken::Blocked),
    ensures
        advance_model(m, dt) == m,
{
    assert(tick_model(m, dt) == m);
    assert(run_upto(m, crate::vm::STEP_BUDGET as nat) == m);
}

/// Parameter extraction is positional and left-to-right: what a pull
/// decodes depends only on its position and declared type, never on how the
/// handler interleaves its pulls, so a call site declaring
/// (integer, real, text) yields exactly those three stored values to any
/// handler that respects the declared order.
pub proof fn lemma_extraction_positional(
    heap: Seq<ValueModel>,
    args: Seq<usize>,
    a: i32,
    b: i64,
    s: Seq<char>,
)
    requires
        args.len() >= 3,
        args[0] < heap.len(),
        heap[args[0] as int] == ValueModel::Int(a),
        args[1] < heap.len(),
        heap[args[1] as int] == ValueModel::Real(b),
        args[2] < heap.len(),
        heap[args[2] as int] == ValueModel::Str(s),
    ensures
        pull(heap, args, 0, Tag::IntT) == Ok::<ValueModel, ExtractError>(ValueModel::Int(a)),
        pull(heap, args, 1, Tag::RealT) == Ok::<ValueModel, ExtractError>(ValueModel::Real(b)),
        pull(heap, args, 2, Tag::StrT) == Ok::<ValueModel, ExtractError>(ValueModel::Str(s)),
{
}

/// A cross-module redirect preserves the value store: every index that was
/// readable before reads the same value after, whether the redirect
/// resolves or faults.
pub proof fn lemma_redirect_preserves_store(m: VmModel, scn: Seq<char>, block: Seq<char>)
    ensures
        redirect_model(m, scn, block).heap == m.heap,
        forall|i: int|
            0 <= i < m.heap.len() ==> #[trigger] redirect_model(m, scn, block).heap[i]
                == m.heap[i],
        redirect_model(m, scn, block).modules == m.modules,
        redirect_model(m, scn, block).registry == m.registry,
{
}

/// A cross-module redirect is a substitution, not a call: the frame stack
/// keeps its depth and every frame below the active one is untouched.
pub proof fn lemma_redirect_preserves_lower_frames(m: VmModel, scn: Seq<char>, block: Seq<char>)
    requires
        m.frames.len() >= 1,
    ensures
        redirect_model(m, scn, block).frames.len() == m.frames.len(),
        forall|j: int|
            0 <= j < m.frames.len() - 1 ==> #[trigger] redirect_model(m, scn, block).frames[j]
                == m.frames[j],
{
}

/// No native handler writes the value store, the module library, or the
/// registry: a handler's effect is confined to the status and the active
/// frame.
pub proof fn lemma_native_preserves_store(m: VmModel, h: NativeFn, args: Seq<usize>)
    ensures
        apply_native(m, h, args).heap == m.heap,
        apply_native(m, h, args).modules == m.modules,
        apply_native(m, h, args).registry == m.registry,
{
}

} // verus!
