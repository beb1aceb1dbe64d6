//! The script virtual machine: frame-by-frame execution, the typed-parameter
//! extraction protocol, cooperative suspension, and cross-module redirects.
//!
//! One `advance(delta_time)` call per host frame drives a machine. Execution
//! is single-threaded and cooperative: instructions run until a native call
//! suspends the machine, the frame stack empties, or a fault stops it.
//!
//! The whole machine has a mathematical model, [`VmModel`], and every
//! executed instruction is pinned to the one-step interpreter
//! [`step_model`]; longer runs are chains of that function, so execution is
//! deterministic by construction.

use vstd::prelude::*;
use vstd::string::StringExecFns;
use crate::module::{CompiledModule, Instr, InstrModel, ModuleModel, spec_func_offset};
use crate::registry::{arity, NativeFn, NativeRegistry, RegEntryModel, spec_lookup};
use crate::value::{Value, ValueModel, ValueStore, VmError};

verus! {

/// The condition blocking a suspended machine.
#[derive(Clone, Copy, PartialEq, Eq, Structural, Debug)]
pub enum SuspensionToken {
    /// A remaining duration, in thousandths.
    Wait(i64),
    /// An event the host has not yet reported, such as a movie still
    /// playing; cleared through [`ScriptVm::release_blocked`].
    Blocked,
}

/// The execution state the host observes after each tick.
#[derive(Clone, Copy, PartialEq, Eq, Structural, Debug)]
pub enum Status {
    /// No outstanding suspension; instructions can execute.
    Ready,
    /// A wait condition is outstanding; `advance` does not execute
    /// instructions until it clears.
    Suspended(SuspensionToken),
    /// The frame stack is exhausted; the script has ended.
    Finished,
    /// A fault stopped this machine; sibling machines are unaffected.
    Failed(VmError),
}

/// One in-progress function activation: the module it executes and the
/// program counter within that module.
#[derive(Clone, Copy, PartialEq, Eq, Structural, Debug)]
pub struct Frame {
    pub module: usize,
    pub pc: usize,
}

/// The declared type of one parameter pull.
#[derive(Clone, Copy, PartialEq, Eq, Structural, Debug)]
pub enum Tag {
    IntT,
    RealT,
    StrT,
}

/// Why a parameter pull did not produce a value.
#[derive(Clone, Copy, PartialEq, Eq, Structural, Debug)]
pub enum ExtractError {
    /// The stored value's tag disagrees with the declared type, or the call
    /// site supplied fewer argument slots than the handler pulls. Aborts
    /// only the current native call.
    TypeError,
    /// The argument slot lies beyond the value store; fatal to the owning
    /// machine.
    OutOfRange,
}

/// The mathematical state of a machine: value store, frame stack, status,
/// loaded modules, and registry. The host's application context carries no
/// constraints and stays outside the model.
#[verifier::ext_equal]
pub struct VmModel {
    pub heap: Seq<ValueModel>,
    pub frames: Seq<Frame>,
    pub status: Status,
    pub modules: Seq<ModuleModel>,
    pub registry: Seq<RegEntryModel>,
}

/// A machine whose frames point at loaded modules and whose suspension, if
/// any, is sound. Every public operation preserves this.
pub open spec fn wf(m: VmModel) -> bool {
    &&& forall|i: int| 0 <= i < m.frames.len() ==> (#[trigger] m.frames[i]).module < m.modules.len()
    &&& (m.status is Ready || m.status is Suspended) ==> m.frames.len() >= 1
    &&& (m.status matches Status::Suspended(SuspensionToken::Wait(rem)) ==> rem >= 0)
}

/// The machine `m` stopped with the fault `e`.
pub open spec fn fail_model(m: VmModel, e: VmError) -> VmModel {
    VmModel { status: Status::Failed(e), ..m }
}

/// The top frame's program counter advanced by one.
pub open spec fn bump_top(frames: Seq<Frame>) -> Seq<Frame> {
    let f = frames.last();
    frames.update(frames.len() - 1, Frame { module: f.module, pc: (f.pc + 1) as usize })
}

/// The top frame replaced; every lower frame is untouched.
pub open spec fn set_top(frames: Seq<Frame>, f: Frame) -> Seq<Frame> {
    frames.update(frames.len() - 1, f)
}

/// One parameter pull, as the extraction protocol defines it: the value at
/// store slot `args[k]`, demanded to carry the tag `tag`.
///
/// A pull past the supplied argument list counts as a type error and aborts
/// only the call; a slot beyond the store is fatal to the machine.
pub open spec fn pull(heap: Seq<ValueModel>, args: Seq<usize>, k: int, tag: Tag) -> Result<
    ValueModel,
    ExtractError,
> {
    if k < 0 || k >= args.len() {
        Err(ExtractError::TypeError)
    } else if args[k] >= heap.len() {
        Err(ExtractError::OutOfRange)
    } else {
        match (tag, heap[args[k] as int]) {
            (Tag::IntT, ValueModel::Int(v)) => Ok(ValueModel::Int(v)),
            (Tag::RealT, ValueModel::Real(v)) => Ok(ValueModel::Real(v)),
            (Tag::StrT, ValueModel::Str(s)) => Ok(ValueModel::Str(s)),
            _ => Err(ExtractError::TypeError),
        }
    }
}

/// The index of the first loaded module named `name`.
pub open spec fn mod_index(mods: Seq<ModuleModel>, name: Seq<char>) -> Option<usize>
    decreases mods.len(),
{
    if mods.len() == 0 {
        None
    } else if mods[0].name == name {
        Some(0usize)
    } else {
        match mod_index(mods.drop_first(), name) {
            None => None,
            Some(i) => Some(((i + 1) as usize)),
        }
    }
}

/// The composed redirect entry-point name: `{scene}_{block}_init`.
pub open spec fn entry_name(scn: Seq<char>, block: Seq<char>) -> Seq<char> {
    scn + "_"@ + block + "_init"@
}

/// The redirect a successful arena-load performs: the active frame is
/// repointed at the named module's entry; the value store and every lower
/// frame are preserved. An unresolved module or entry is fatal.
pub open spec fn redirect_model(m: VmModel, scn: Seq<char>, block: Seq<char>) -> VmModel {
    match mod_index(m.modules, scn) {
        None => fail_model(m, VmError::UnresolvedModule),
        Some(mi) => match spec_func_offset(m.modules[mi as int].funcs, entry_name(scn, block)) {
            None => fail_model(m, VmError::UnresolvedModule),
            Some(off) => VmModel { frames: set_top(m.frames, Frame { module: mi, pc: off }), ..m },
        },
    }
}

/// A wait duration clamped to be non-negative.
pub open spec fn clamp_wait(w: i64) -> i64 {
    if w < 0 {
        0
    } else {
        w
    }
}

/// What one native handler does to the machine, given the call site's
/// argument slots. Pulls happen in declared order; the first type error
/// aborts the call with no effect, and an out-of-range slot is fatal.
pub open spec fn apply_native(m: VmModel, h: NativeFn, args: Seq<usize>) -> VmModel {
    match h {
        NativeFn::NotImplemented => m,
        NativeFn::Noop => m,
        NativeFn::PlayMovie | NativeFn::OpenMovieFlag | NativeFn::AddQuestCompletePercentage => {
            match pull(m.heap, args, 0, Tag::IntT) {
                Err(ExtractError::OutOfRange) => fail_model(m, VmError::IndexOutOfRange),
                Err(ExtractError::TypeError) => m,
                Ok(_) => m,
            }
        },
        NativeFn::FlashOutBlack => {
            match pull(m.heap, args, 0, Tag::RealT) {
                Err(ExtractError::OutOfRange) => fail_model(m, VmError::IndexOutOfRange),
                Err(ExtractError::TypeError) => m,
                Ok(_) => match pull(m.heap, args, 1, Tag::IntT) {
                    Err(ExtractError::OutOfRange) => fail_model(m, VmError::IndexOutOfRange),
                    Err(ExtractError::TypeError) => m,
                    Ok(_) => match pull(m.heap, args, 2, Tag::IntT) {
                        Err(ExtractError::OutOfRange) => fail_model(m, VmError::IndexOutOfRange),
                        Err(ExtractError::TypeError) => m,
                        Ok(_) => m,
                    },
                },
            }
        },
        NativeFn::Wait => {
            match pull(m.heap, args, 0, Tag::RealT) {
                Err(ExtractError::OutOfRange) => fail_model(m, VmError::IndexOutOfRange),
                Err(ExtractError::TypeError) => m,
                Ok(v) => match v {
                    ValueModel::Real(w) => VmModel {
                        status: Status::Suspended(SuspensionToken::Wait(clamp_wait(w))),
                        ..m
                    },
                    _ => m,
                },
            }
        },
        NativeFn::ArenaLoad => {
            match pull(m.heap, args, 0, Tag::StrT) {
                Err(ExtractError::OutOfRange) => fail_model(m, VmError::IndexOutOfRange),
                Err(ExtractError::TypeError) => m,
                Ok(v0) => match pull(m.heap, args, 1, Tag::StrT) {
                    Err(ExtractError::OutOfRange) => fail_model(m, VmError::IndexOutOfRange),
                    Err(ExtractError::TypeError) => m,
                    Ok(v1) => match pull(m.heap, args, 2, Tag::StrT) {
                        Err(ExtractError::OutOfRange) => fail_model(m, VmError::IndexOutOfRange),
                        Err(ExtractError::TypeError) => m,
                        Ok(_) => match pull(m.heap, args, 3, Tag::IntT) {
                            Err(ExtractError::OutOfRange) => fail_model(
                                m,
                                VmError::IndexOutOfRange,
                            ),
                            Err(ExtractError::TypeError) => m,
                            Ok(_) => match (v0, v1) {
                                (ValueModel::Str(scn), ValueModel::Str(block)) => redirect_model(
                                    m,
                                    scn,
                                    block,
                                ),
                                _ => m,
                            },
                        },
                    },
                },
            }
        },
    }
}

/// The one-step interpreter. A machine that is not ready, or whose frame
/// stack is empty, does not step; a program counter past the module's code
/// is fatal. Otherwise the current instruction's meaning is applied.
pub open spec fn step_model(m: VmModel) -> VmModel {
    if !(m.status is Ready) {
        m
    } else if m.frames.len() == 0 {
        VmModel { status: Status::Finished, ..m }
    } else {
        let f = m.frames.last();
        if f.module >= m.modules.len() {
            fail_model(m, VmError::IndexOutOfRange)
        } else {
            let md = m.modules[f.module as int];
            if f.pc >= md.code.len() {
                fail_model(m, VmError::IndexOutOfRange)
            } else {
                match md.code[f.pc as int] {
                    InstrModel::StoreInt { dst, val } => {
                        if dst < m.heap.len() {
                            VmModel {
                                heap: m.heap.update(dst as int, ValueModel::Int(val)),
                                frames: bump_top(m.frames),
                                ..m
                            }
                        } else {
                            fail_model(m, VmError::IndexOutOfRange)
                        }
                    },
                    InstrModel::StoreReal { dst, val } => {
                        if dst < m.heap.len() {
                            VmModel {
                                heap: m.heap.update(dst as int, ValueModel::Real(val)),
                                frames: bump_top(m.frames),
                                ..m
                            }
                        } else {
                            fail_model(m, VmError::IndexOutOfRange)
                        }
                    },
                    InstrModel::Copy { src, dst } => {
                        if src < m.heap.len() && dst < m.heap.len() {
                            VmModel {
                                heap: m.heap.update(dst as int, m.heap[src as int]),
                                frames: bump_top(m.frames),
                                ..m
                            }
                        } else {
                            fail_model(m, VmError::IndexOutOfRange)
                        }
                    },
                    InstrModel::Jump { target } => {
                        VmModel {
                            frames: set_top(m.frames, Frame { module: f.module, pc: target }),
                            ..m
                        }
                    },
                    InstrModel::BranchIfZero { cond, target } => {
                        if cond < m.heap.len() {
                            if m.heap[cond as int] == ValueModel::Int(0) {
                                VmModel {
                                    frames: set_top(
                                        m.frames,
                                        Frame { module: f.module, pc: target },
                                    ),
                                    ..m
                                }
                            } else {
                                VmModel { frames: bump_top(m.frames), ..m }
                            }
                        } else {
                            fail_model(m, VmError::IndexOutOfRange)
                        }
                    },
                    InstrModel::CallLocal { func } => {
                        if func < md.funcs.len() {
                            VmModel {
                                frames: bump_top(m.frames).push(
                                    Frame { module: f.module, pc: md.funcs[func as int].offset },
                                ),
                                ..m
                            }
                        } else {
                            fail_model(m, VmError::IndexOutOfRange)
                        }
                    },
                    InstrModel::CallNative { name, args } => {
                        let m1 = VmModel { frames: bump_top(m.frames), ..m };
                        match spec_lookup(m.registry, name) {
                            None => m1,
                            Some(h) => apply_native(m1, h, args),
                        }
                    },
                    InstrModel::Ret => {
                        if m.frames.len() == 1 {
                            VmModel { status: Status::Finished, ..m }
                        } else {
                            VmModel {
                                frames: m.frames.take(m.frames.len() - 1),
                                ..m
                            }
                        }
                    },
                }
            }
        }
    }
}

/// A machine that executes no further instruction this tick.
pub open spec fn stopped(m: VmModel) -> bool {
    !(m.status is Ready)
}

/// Chained interpreter steps: up to `fuel` of them, stopping early when the
/// machine suspends, finishes, or fails.
pub open spec fn run_upto(m: VmModel, fuel: nat) -> VmModel
    decreases fuel,
{
    if fuel == 0 || stopped(m) {
        m
    } else {
        run_upto(step_model(m), (fuel - 1) as nat)
    }
}

/// How many instructions one `advance` call may execute. The budget keeps
/// every tick bounded; a machine that is still ready when it is spent simply
/// resumes on the next tick.
pub const STEP_BUDGET: usize = 100000;

/// The suspension phase of one tick: a timer wait is decremented by
/// `delta_time` and clears when it is spent; everything else is untouched.
pub open spec fn tick_model(m: VmModel, dt: i64) -> VmModel {
    match m.status {
        Status::Suspended(SuspensionToken::Wait(rem)) => {
            if rem <= dt {
                VmModel { status: Status::Ready, ..m }
            } else {
                VmModel { status: Status::Suspended(SuspensionToken::Wait((rem - dt) as i64)), ..m }
            }
        },
        _ => m,
    }
}

/// What one whole `advance(delta_time)` call does: the suspension phase,
/// then — only when the machine is then ready — up to [`STEP_BUDGET`]
/// interpreter steps, stopping early when it suspends, finishes, or fails.
pub open spec fn advance_model(pre: VmModel, dt: i64) -> VmModel {
    run_upto(tick_model(pre, dt), STEP_BUDGET as nat)
}

/// A script virtual machine bound to one host application context.
///
/// The context is an opaque payload: the core never reads it, and it is
/// handed back to the host through [`ScriptVm::app_context`].
pub struct ScriptVm<C> {
    context: C,
    heap: ValueStore,
    frames: Vec<Frame>,
    status: Status,
    modules: Vec<CompiledModule>,
    registry: NativeRegistry,
}

impl<C> View for ScriptVm<C> {
    type V = VmModel;

    closed spec fn view(&self) -> VmModel {
        VmModel {
            heap: self.heap@,
            frames: self.frames@,
            status: self.status,
            modules: self.modules@.map_values(|md: CompiledModule| md@),
            registry: self.registry@,
        }
    }
}

impl<C> ScriptVm<C> {
    /// A machine executing `module` from instruction `entry`, with the
    /// module's constant pool copied into a fresh value store.
    pub fn new(registry: NativeRegistry, module: CompiledModule, entry: usize, context: C) -> (vm:
        ScriptVm<C>)
        ensures
            vm@.heap == module@.consts,
            vm@.frames == seq![Frame { module: 0usize, pc: entry }],
            vm@.status == Status::Ready,
            vm@.modules == seq![module@],
            vm@.registry == registry@,
            wf(vm@),
    {
        let ghost consts_model = module@.consts;
        let mut heap = ValueStore::new();
        let mut i: usize = 0;
        proof {
            assert(heap@ =~= consts_model.take(0));
        }
        while i < module.consts.len()
            invariant
                i <= module.consts@.len(),
                consts_model == module@.consts,
                consts_model.len() == module.consts@.len(),
                heap@ == consts_model.take(i as int),
            decreases module.consts@.len() - i,
        {
            let v = module.consts[i].clone();
            proof {
                assert(consts_model[i as int] == module.consts@[i as int]@);
            }
            heap.append(v);
            proof {
                assert(heap@ =~= consts_model.take(i + 1));
            }
            i += 1;
        }
        proof {
            assert(consts_model.take(i as int) =~= consts_model);
        }
        let mut frames: Vec<Frame> = Vec::new();
        frames.push(Frame { module: 0, pc: entry });
        let mut modules: Vec<CompiledModule> = Vec::new();
        modules.push(module);
        let vm = ScriptVm { context, heap, frames, status: Status::Ready, modules, registry };
        proof {
            assert(vm@.frames =~= seq![Frame { module: 0usize, pc: entry }]);
            assert(vm@.modules =~= seq![vm.modules@[0]@]);
        }
        vm
    }

    /// The host's payload, as handed to every native invocation.
    pub fn app_context(&self) -> &C {
        &self.context
    }

    /// Mutable access to the host's payload.
    pub fn app_context_mut(&mut self) -> (r: &mut C)
        ensures
            final(self)@ == old(self)@,
    {
        &mut self.context
    }

    /// Loads one more compiled module into this machine's library, so a
    /// redirect can find it; returns its index.
    pub fn add_module(&mut self, module: CompiledModule) -> (i: usize)
        ensures
            final(self)@ == (VmModel { modules: old(self)@.modules.push(module@), ..old(self)@ }),
            i == old(self)@.modules.len(),
            wf(old(self)@) ==> wf(final(self)@),
    {
        let i = self.modules.len();
        self.modules.push(module);
        proof {
            assert(self@.modules =~= old(self)@.modules.push(self.modules@[i as int]@));
            assert(self@ =~= VmModel { modules: old(self)@.modules.push(self@.modules[i as int]), ..old(self)@ });
        }
        i
    }

    /// The machine's current status.
    pub fn get_state(&self) -> (s: Status)
        ensures
            s == self@.status,
    {
        self.status
    }

    /// Reads the value-store slot `index`.
    pub fn heap_get(&self, index: usize) -> (r: Result<&Value, VmError>)
        ensures
            match r {
                Ok(v) => index < self@.heap.len() && v@ == self@.heap[index as int],
                Err(e) => index >= self@.heap.len() && e == VmError::IndexOutOfRange,
            },
    {
        self.heap.get(index)
    }

    /// Overwrites the value-store slot `index`; every other slot and all
    /// frames keep their values.
    pub fn heap_set(&mut self, index: usize, value: Value) -> (r: Result<(), VmError>)
        ensures
            match r {
                Ok(()) => index < old(self)@.heap.len() && final(self)@ == (VmModel {
                    heap: old(self)@.heap.update(index as int, value@),
                    ..old(self)@
                }),
                Err(e) => index >= old(self)@.heap.len() && e == VmError::IndexOutOfRange
                    && final(self)@ == old(self)@,
            },
            wf(old(self)@) ==> wf(final(self)@),
    {
        let r = self.heap.set(index, value);
        proof {
            if r is Ok {
                assert(self@ =~= VmModel {
                    heap: old(self)@.heap.update(index as int, self@.heap[index as int]),
                    ..old(self)@
                });
            } else {
                assert(self@ =~= old(self)@);
            }
        }
        r
    }

    /// Appends a value to the store and returns its index; existing indices
    /// are stable.
    pub fn heap_append(&mut self, value: Value) -> (index: usize)
        ensures
            final(self)@ == (VmModel { heap: old(self)@.heap.push(value@), ..old(self)@ }),
            index == old(self)@.heap.len(),
            wf(old(self)@) ==> wf(final(self)@),
    {
        let index = self.heap.append(value);
        proof {
            assert(self@ =~= VmModel { heap: old(self)@.heap.push(value@), ..old(self)@ });
        }
        index
    }

    /// Whether the machine is ready to execute instructions.
    pub fn is_ready(&self) -> (b: bool)
        ensures
            b == (self@.status is Ready),
    {
        match self.status {
            Status::Ready => true,
            _ => false,
        }
    }

    /// The text at the value-store slot `index`, when that slot holds text.
    pub fn get_str(&self, index: usize) -> (r: Option<String>)
        ensures
            match r {
                Some(s) => index < self@.heap.len() && self@.heap[index as int]
                    == ValueModel::Str(s@),
                None => index >= self@.heap.len() || !(self@.heap[index as int] is Str),
            },
    {
        match self.heap.get(index) {
            Ok(Value::Str(s)) => Some(s.clone()),
            _ => None,
        }
    }

    /// The next parameter, pulled as an integer.
    pub fn next_int(&self, cur: &mut ParamCursor) -> (r: Result<i32, ExtractError>)
        ensures
            final(cur).args == old(cur).args,
            match pull(self@.heap, old(cur).args@, old(cur).pos as int, Tag::IntT) {
                Ok(v) => r is Ok && v == ValueModel::Int(r->Ok_0) && final(cur).pos == old(
                    cur,
                ).pos + 1,
                Err(e) => r == Err::<i32, ExtractError>(e) && final(cur).pos == old(cur).pos,
            },
    {
        if cur.pos >= cur.args.len() {
            return Err(ExtractError::TypeError);
        }
        let slot = cur.args[cur.pos];
        match self.heap.get(slot) {
            Err(_) => Err(ExtractError::OutOfRange),
            Ok(Value::Int(v)) => {
                let v = *v;
                cur.pos = cur.pos + 1;
                Ok(v)
            },
            Ok(_) => Err(ExtractError::TypeError),
        }
    }

    /// The next parameter, pulled as a real number (fixed point,
    /// thousandths).
    pub fn next_float(&self, cur: &mut ParamCursor) -> (r: Result<i64, ExtractError>)
        ensures
            final(cur).args == old(cur).args,
            match pull(self@.heap, old(cur).args@, old(cur).pos as int, Tag::RealT) {
                Ok(v) => r is Ok && v == ValueModel::Real(r->Ok_0) && final(cur).pos == old(
                    cur,
                ).pos + 1,
                Err(e) => r == Err::<i64, ExtractError>(e) && final(cur).pos == old(cur).pos,
            },
    {
        if cur.pos >= cur.args.len() {
            return Err(ExtractError::TypeError);
        }
        let slot = cur.args[cur.pos];
        match self.heap.get(slot) {
            Err(_) => Err(ExtractError::OutOfRange),
            Ok(Value::Real(v)) => {
                let v = *v;
                cur.pos = cur.pos + 1;
                Ok(v)
            },
            Ok(_) => Err(ExtractError::TypeError),
        }
    }

    /// The next parameter, pulled as text.
    pub fn next_string(&self, cur: &mut ParamCursor) -> (r: Result<String, ExtractError>)
        ensures
            final(cur).args == old(cur).args,
            match pull(self@.heap, old(cur).args@, old(cur).pos as int, Tag::StrT) {
                Ok(v) => r is Ok && v == ValueModel::Str(r->Ok_0@) && final(cur).pos == old(
                    cur,
                ).pos + 1,
                Err(e) => r matches Err(e2) && e == e2 && final(cur).pos == old(cur).pos,
            },
    {
        if cur.pos >= cur.args.len() {
            return Err(ExtractError::TypeError);
        }
        let slot = cur.args[cur.pos];
        match self.heap.get(slot) {
            Err(_) => Err(ExtractError::OutOfRange),
            Ok(Value::Str(s)) => {
                let s = s.clone();
                cur.pos = cur.pos + 1;
                Ok(s)
            },
            Ok(_) => Err(ExtractError::TypeError),
        }
    }

    /// The index of the first loaded module named `name`.
    pub fn find_module(&self, name: &str) -> (r: Option<usize>)
        ensures
            r == mod_index(self@.modules, name@),
            match r {
                Some(i) => i < self@.modules.len() && self@.modules[i as int].name == name@,
                None => true,
            },
    {
        let key: String = name.to_owned();
        proof {
            assert(self@.modules.skip(0) =~= self@.modules);
        }
        let mut i: usize = 0;
        while i < self.modules.len()
            invariant
                i <= self.modules@.len(),
                key@ == name@,
                self@.modules.len() == self.modules@.len(),
                mod_index(self@.modules, name@) == (match mod_index(
                    self@.modules.skip(i as int),
                    name@,
                ) {
                    None => None::<usize>,
                    Some(k) => Some((i + k) as usize),
                }),
            decreases self.modules@.len() - i,
        {
            proof {
                assert(self@.modules.skip(i as int)[0] == self@.modules[i as int]);
                assert(self@.modules.skip(i as int).drop_first() =~= self@.modules.skip(i + 1));
                lemma_mod_index_bound(self@.modules.skip(i + 1), name@);
            }
            if self.modules[i].name == key {
                proof {
                    assert(self@.modules[i as int].name == name@);
                }
                return Some(i);
            }
            proof {
                assert(self@.modules[i as int].name != name@);
            }
            i += 1;
        }
        proof {
            assert(self@.modules.skip(i as int).len() == 0);
        }
        None
    }

    /// Repoints the active call frame at the entry named `entry` of the
    /// loaded module `module_idx`: a substitution, not a call. The value
    /// store and every lower frame are preserved.
    pub fn set_active_module(&mut self, module_idx: usize, entry: &str) -> (r: Result<
        (),
        VmError,
    >)
        requires
            module_idx < old(self)@.modules.len(),
            old(self)@.frames.len() >= 1,
        ensures
            match r {
                Ok(()) => (match spec_func_offset(
                    old(self)@.modules[module_idx as int].funcs,
                    entry@,
                ) {
                    Some(off) => final(self)@ == (VmModel {
                        frames: set_top(old(self)@.frames, Frame { module: module_idx, pc: off }),
                        ..old(self)@
                    }),
                    None => false,
                }),
                Err(e) => e == VmError::UnresolvedModule && final(self)@ == old(self)@
                    && spec_func_offset(old(self)@.modules[module_idx as int].funcs, entry@)
                    is None,
            },
            wf(old(self)@) ==> wf(final(self)@),
    {
        proof {
            assert(self@.modules[module_idx as int] == self.modules@[module_idx as int]@);
        }
        match self.modules[module_idx].func_offset(entry) {
            Some(off) => {
                let i = self.frames.len() - 1;
                self.frames.set(i, Frame { module: module_idx, pc: off });
                proof {
                    assert(self@ =~= (VmModel {
                        frames: set_top(old(self)@.frames, Frame { module: module_idx, pc: off }),
                        ..old(self)@
                    }));
                }
                Ok(())
            },
            None => Err(VmError::UnresolvedModule),
        }
    }

    /// Suspends the machine on the host-cleared blocked flag, as a native
    /// handler for an outstanding event does.
    pub fn install_blocked(&mut self)
        requires
            old(self)@.frames.len() >= 1,
        ensures
            final(self)@ == (VmModel {
                status: Status::Suspended(SuspensionToken::Blocked),
                ..old(self)@
            }),
            wf(old(self)@) ==> wf(final(self)@),
    {
        self.status = Status::Suspended(SuspensionToken::Blocked);
        proof {
            assert(self@ =~= (VmModel {
                status: Status::Suspended(SuspensionToken::Blocked),
                ..old(self)@
            }));
        }
    }

    /// Reports the awaited event: a machine blocked on it becomes ready;
    /// any other machine is untouched.
    pub fn release_blocked(&mut self)
        ensures
            old(self)@.status == Status::Suspended(SuspensionToken::Blocked) ==> final(self)@ == (
            VmModel { status: Status::Ready, ..old(self)@ }),
            old(self)@.status != Status::Suspended(SuspensionToken::Blocked) ==> final(self)@
                == old(self)@,
            wf(old(self)@) ==> wf(final(self)@),
    {
        match self.status {
            Status::Suspended(SuspensionToken::Blocked) => {
                self.status = Status::Ready;
                proof {
                    assert(self@ =~= (VmModel { status: Status::Ready, ..old(self)@ }));
                }
            },
            _ => {
                proof {
                    assert(self@ =~= old(self)@);
                }
            },
        }
    }

    /// Advances the top frame's program counter by one.
    fn bump_pc(&mut self)
        requires
            old(self)@.frames.len() >= 1,
            old(self)@.frames.last().pc < usize::MAX,
        ensures
            final(self)@ == (VmModel { frames: bump_top(old(self)@.frames), ..old(self)@ }),
    {
        let i = self.frames.len() - 1;
        let f = self.frames[i];
        self.frames.set(i, Frame { module: f.module, pc: f.pc + 1 });
        proof {
            assert(self@.frames =~= bump_top(old(self)@.frames));
            assert(self@ =~= (VmModel { frames: bump_top(old(self)@.frames), ..old(self)@ }));
        }
    }

    /// Interprets one native handler against the call site's argument
    /// slots, exactly as [`apply_native`] says.
    fn do_native(&mut self, h: NativeFn, args: Vec<usize>)
        requires
            wf(old(self)@),
            old(self)@.status is Ready,
        ensures
            final(self)@ == apply_native(old(self)@, h, args@),
            wf(final(self)@),
    {
        match h {
            NativeFn::NotImplemented | NativeFn::Noop => {
                proof {
                    assert(self@ =~= apply_native(old(self)@, h, args@));
                }
            },
            NativeFn::PlayMovie | NativeFn::OpenMovieFlag
            | NativeFn::AddQuestCompletePercentage => {
                let mut cur = ParamCursor::new(args);
                match self.next_int(&mut cur) {
                    Err(ExtractError::OutOfRange) => {
                        self.status = Status::Failed(VmError::IndexOutOfRange);
                    },
                    _ => {},
                }
                proof {
                    assert(self@ =~= apply_native(old(self)@, h, args@));
                }
            },
            NativeFn::FlashOutBlack => {
                let mut cur = ParamCursor::new(args);
                let mut fatal = false;
                match self.next_float(&mut cur) {
                    Err(ExtractError::OutOfRange) => {
                        fatal = true;
                    },
                    Err(ExtractError::TypeError) => {},
                    Ok(_) => {
                        match self.next_int(&mut cur) {
                            Err(ExtractError::OutOfRange) => {
                                fatal = true;
                            },
                            Err(ExtractError::TypeError) => {},
                            Ok(_) => {
                                match self.next_int(&mut cur) {
                                    Err(ExtractError::OutOfRange) => {
                                        fatal = true;
                                    },
                                    _ => {},
                                }
                            },
                        }
                    },
                }
                if fatal {
                    self.status = Status::Failed(VmError::IndexOutOfRange);
                }
                proof {
                    assert(self@ =~= apply_native(old(self)@, h, args@));
                }
            },
            NativeFn::Wait => {
                let mut cur = ParamCursor::new(args);
                match self.next_float(&mut cur) {
                    Err(ExtractError::OutOfRange) => {
                        self.status = Status::Failed(VmError::IndexOutOfRange);
                    },
                    Err(ExtractError::TypeError) => {},
                    Ok(w) => {
                        let d: i64 = if w < 0 {
                            0
                        } else {
                            w
                        };
                        self.status = Status::Suspended(SuspensionToken::Wait(d));
                    },
                }
                proof {
                    assert(self@ =~= apply_native(old(self)@, h, args@));
                }
            },
            NativeFn::ArenaLoad => {
                self.do_arena_load(args);
            },
        }
    }

    /// The cross-module redirect native: pulls the scene, block, data, and
    /// loading-screen arguments, then substitutes the named module's
    /// composed entry point into the active frame.
    fn do_arena_load(&mut self, args: Vec<usize>)
        requires
            wf(old(self)@),
            old(self)@.status is Ready,
        ensures
            final(self)@ == apply_native(old(self)@, NativeFn::ArenaLoad, args@),
            wf(final(self)@),
    {
        let mut cur = ParamCursor::new(args);
        let scn = match self.next_string(&mut cur) {
            Err(ExtractError::OutOfRange) => {
                self.status = Status::Failed(VmError::IndexOutOfRange);
                proof {
                    assert(self@ =~= apply_native(old(self)@, NativeFn::ArenaLoad, args@));
                }
                return ;
            },
            Err(ExtractError::TypeError) => {
                proof {
                    assert(self@ =~= apply_native(old(self)@, NativeFn::ArenaLoad, args@));
                }
                return ;
            },
            Ok(s) => s,
        };
        let block = match self.next_string(&mut cur) {
            Err(ExtractError::OutOfRange) => {
                self.status = Status::Failed(VmError::IndexOutOfRange);
                proof {
                    assert(self@ =~= apply_native(old(self)@, NativeFn::ArenaLoad, args@));
                }
                return ;
            },
            Err(ExtractError::TypeError) => {
                proof {
                    assert(self@ =~= apply_native(old(self)@, NativeFn::ArenaLoad, args@));
                }
                return ;
            },
            Ok(s) => s,
        };
        match self.next_string(&mut cur) {
            Err(ExtractError::OutOfRange) => {
                self.status = Status::Failed(VmError::IndexOutOfRange);
                proof {
                    assert(self@ =~= apply_native(old(self)@, NativeFn::ArenaLoad, args@));
                }
                return ;
            },
            Err(ExtractError::TypeError) => {
                proof {
                    assert(self@ =~= apply_native(old(self)@, NativeFn::ArenaLoad, args@));
                }
                return ;
            },
            Ok(_) => {},
        }
        match self.next_int(&mut cur) {
            Err(ExtractError::OutOfRange) => {
                self.status = Status::Failed(VmError::IndexOutOfRange);
                proof {
                    assert(self@ =~= apply_native(old(self)@, NativeFn::ArenaLoad, args@));
                }
                return ;
            },
            Err(ExtractError::TypeError) => {
                proof {
                    assert(self@ =~= apply_native(old(self)@, NativeFn::ArenaLoad, args@));
                }
                return ;
            },
            Ok(_) => {},
        }
        let mi = match self.find_module(scn.as_str()) {
            None => {
                self.status = Status::Failed(VmError::UnresolvedModule);
                proof {
                    assert(self@ =~= fail_model(old(self)@, VmError::UnresolvedModule));
                    assert(self@ =~= apply_native(old(self)@, NativeFn::ArenaLoad, args@));
                }
                return ;
            },
            Some(i) => i,
        };
        let mut ename = scn.clone();
        ename.append("_");
        ename.append(block.as_str());
        ename.append("_init");
        proof {
            assert(ename@ == entry_name(scn@, block@));
        }
        match self.set_active_module(mi, ename.as_str()) {
            Ok(()) => {
                proof {
                    assert(self@ =~= apply_native(old(self)@, NativeFn::ArenaLoad, args@));
                }
            },
            Err(_) => {
                self.status = Status::Failed(VmError::UnresolvedModule);
                proof {
                    assert(self@ =~= fail_model(old(self)@, VmError::UnresolvedModule));
                    assert(self@ =~= apply_native(old(self)@, NativeFn::ArenaLoad, args@));
                }
            },
        }
    }

    /// Executes exactly one interpreter step, as [`step_model`] says.
    fn step(&mut self)
        requires
            wf(old(self)@),
        ensures
            final(self)@ == step_model(old(self)@),
            wf(final(self)@),
    {
        match self.status {
            Status::Ready => {},
            _ => {
                proof {
                    assert(self@ =~= step_model(old(self)@));
                }
                return ;
            },
        }
        if self.frames.len() == 0 {
            self.status = Status::Finished;
            proof {
                assert(self@ =~= step_model(old(self)@));
            }
            return ;
        }
        let fidx = self.frames.len() - 1;
        let f = self.frames[fidx];
        proof {
            assert(self@.frames.last() == f);
            assert(f.module < self@.modules.len());
            assert(self@.modules[f.module as int] == self.modules@[f.module as int]@);
        }
        if f.pc >= self.modules[f.module].code.len() {
            self.status = Status::Failed(VmError::IndexOutOfRange);
            proof {
                assert(self@ =~= step_model(old(self)@));
            }
            return ;
        }
        let instr = self.modules[f.module].code[f.pc].clone();
        proof {
            assert(instr@ == self@.modules[f.module as int].code[f.pc as int]);
        }
        match instr {
            Instr::StoreInt { dst, val } => {
                if dst < self.heap.len() {
                    let _ = self.heap.set(dst, Value::Int(val));
                    self.bump_pc();
                } else {
                    self.status = Status::Failed(VmError::IndexOutOfRange);
                }
                proof {
                    assert(self@ =~= step_model(old(self)@));
                }
            },
            Instr::StoreReal { dst, val } => {
                if dst < self.heap.len() {
                    let _ = self.heap.set(dst, Value::Real(val));
                    self.bump_pc();
                } else {
                    self.status = Status::Failed(VmError::IndexOutOfRange);
                }
                proof {
                    assert(self@ =~= step_model(old(self)@));
                }
            },
            Instr::Copy { src, dst } => {
                if src < self.heap.len() && dst < self.heap.len() {
                    let v = match self.heap.get(src) {
                        Ok(v) => v.clone(),
                        Err(_) => unreached(),
                    };
                    let _ = self.heap.set(dst, v);
                    self.bump_pc();
                } else {
                    self.status = Status::Failed(VmError::IndexOutOfRange);
                }
                proof {
                    assert(self@ =~= step_model(old(self)@));
                }
            },
            Instr::Jump { target } => {
                let i = self.frames.len() - 1;
                self.frames.set(i, Frame { module: f.module, pc: target });
                proof {
                    assert(self@.frames =~= set_top(
                        old(self)@.frames,
                        Frame { module: f.module, pc: target },
                    ));
                    assert(self@ =~= step_model(old(self)@));
                }
            },
            Instr::BranchIfZero { cond, target } => {
                if cond < self.heap.len() {
                    let z = match self.heap.get(cond) {
                        Ok(Value::Int(x)) => *x == 0,
                        _ => false,
                    };
                    if z {
                        let i = self.frames.len() - 1;
                        self.frames.set(i, Frame { module: f.module, pc: target });
                        proof {
                            assert(self@.frames =~= set_top(
                                old(self)@.frames,
                                Frame { module: f.module, pc: target },
                            ));
                        }
                    } else {
                        self.bump_pc();
                    }
                } else {
                    self.status = Status::Failed(VmError::IndexOutOfRange);
                }
                proof {
                    assert(self@ =~= step_model(old(self)@));
                }
            },
            Instr::CallLocal { func } => {
                if func < self.modules[f.module].funcs.len() {
                    proof {
                        assert(self@.modules[f.module as int].funcs[func as int]
                            == self.modules@[f.module as int].funcs@[func as int]@);
                    }
                    let off = self.modules[f.module].funcs[func].offset;
                    self.bump_pc();
                    self.frames.push(Frame { module: f.module, pc: off });
                    proof {
                        assert(self@.frames =~= bump_top(old(self)@.frames).push(
                            Frame { module: f.module, pc: off },
                        ));
                    }
                } else {
                    self.status = Status::Failed(VmError::IndexOutOfRange);
                }
                proof {
                    assert(self@ =~= step_model(old(self)@));
                }
            },
            Instr::CallNative { name, args } => {
                self.bump_pc();
                match self.registry.lookup(name.as_str()) {
                    None => {
                        proof {
                            assert(self@ =~= step_model(old(self)@));
                        }
                    },
                    Some(h) => {
                        self.do_native(h, args);
                        proof {
                            assert(self@ =~= step_model(old(self)@));
                        }
                    },
                }
            },
            Instr::Ret => {
                if self.frames.len() == 1 {
                    self.status = Status::Finished;
                } else {
                    let _ = self.frames.pop();
                    proof {
                        assert(self@.frames =~= old(self)@.frames.take(
                            old(self)@.frames.len() - 1,
                        ));
                    }
                }
                proof {
                    assert(self@ =~= step_model(old(self)@));
                }
            },
        }
    }

    /// Executes up to `budget` interpreter steps, stopping early when the
    /// machine suspends, finishes, or fails.
    fn run(&mut self, budget: usize)
        requires
            wf(old(self)@),
        ensures
            wf(final(self)@),
            final(self)@ == run_upto(old(self)@, budget as nat),
    {
        let ghost m0 = self@;
        let mut left: usize = budget;
        let mut go: bool = self.is_ready();
        while left > 0 && go
            invariant
                wf(self@),
                go == (self@.status is Ready),
                run_upto(m0, budget as nat) == run_upto(self@, left as nat),
            decreases left,
        {
            proof {
                assert(run_upto(self@, left as nat) == run_upto(
                    step_model(self@),
                    (left - 1) as nat,
                ));
            }
            self.step();
            left = left - 1;
            go = self.is_ready();
        }
        proof {
            assert(run_upto(self@, left as nat) == self@);
        }
    }

    /// One host-frame tick: satisfies or decrements an outstanding wait by
    /// `delta_time` (thousandths), then — only when the machine is then
    /// ready — executes instructions, as [`advance_model`] says. A call
    /// with `delta_time` zero does nothing beyond clearing an
    /// already-satisfied timer and resuming.
    pub fn advance(&mut self, delta_time: i64) -> (s: Status)
        requires
            wf(old(self)@),
            delta_time >= 0,
        ensures
            wf(final(self)@),
            final(self)@ == advance_model(old(self)@, delta_time),
            s == final(self)@.status,
    {
        match self.status {
            Status::Suspended(SuspensionToken::Wait(rem)) => {
                if rem <= delta_time {
                    self.status = Status::Ready;
                } else {
                    self.status = Status::Suspended(SuspensionToken::Wait(rem - delta_time));
                }
            },
            _ => {},
        }
        proof {
            assert(self@ =~= tick_model(old(self)@, delta_time));
        }
        self.run(STEP_BUDGET);
        self.status
    }
}

/// A found module index lies within the module list and names the module.
pub proof fn lemma_mod_index_bound(mods: Seq<ModuleModel>, name: Seq<char>)
    requires
        mods.len() <= usize::MAX,
    ensures
        match mod_index(mods, name) {
            Some(i) => i < mods.len() && mods[i as int].name == name,
            None => true,
        },
    decreases mods.len(),
{
    if mods.len() == 0 {
    } else if mods[0].name == name {
    } else {
        lemma_mod_index_bound(mods.drop_first(), name);
    }
}

/// A per-call parameter cursor: the call site's argument slots and the
/// position of the next pull.
pub struct ParamCursor {
    pub args: Vec<usize>,
    pub pos: usize,
}

impl ParamCursor {
    /// A fresh cursor over the call site's argument slots.
    pub fn new(args: Vec<usize>) -> (c: ParamCursor)
        ensures
            c.args@ == args@,
            c.pos == 0,
    {
        ParamCursor { args, pos: 0 }
    }
}

} // verus!
