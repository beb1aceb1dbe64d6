//! Compiled script modules: an instruction stream, a name-to-offset function
//! table, and a constant pool.
//!
//! A module is an immutable artifact; a virtual machine only reads it.

use vstd::prelude::*;
use crate::value::{Value, ValueModel};

verus! {

/// One virtual-machine instruction.
///
/// The set is the smallest one that can express the native-call protocol:
/// heap stores and copies, branches, calls, and returns. A call site names
/// its native function by text and lists the value-store slots that hold its
/// arguments, in declared order.
pub enum Instr {
    /// Writes an integer into the slot `dst`.
    StoreInt { dst: usize, val: i32 },
    /// Writes a fixed-point real (thousandths) into the slot `dst`.
    StoreReal { dst: usize, val: i64 },
    /// Copies the value of slot `src` into slot `dst`.
    Copy { src: usize, dst: usize },
    /// Continues at instruction `target`.
    Jump { target: usize },
    /// Continues at `target` when slot `cond` holds the integer zero;
    /// any other value, whatever its tag, falls through.
    BranchIfZero { cond: usize, target: usize },
    /// Calls the function at index `func` of the module's function table,
    /// pushing a new call frame.
    CallLocal { func: usize },
    /// Calls the named native function with the listed argument slots.
    CallNative { name: String, args: Vec<usize> },
    /// Pops the active call frame; on the root frame the machine finishes.
    Ret,
}

impl Clone for Instr {
    /// A clone denotes the same instruction.
    fn clone(&self) -> (r: Self)
        ensures
            r@ == self@,
    {
        match self {
            Instr::StoreInt { dst, val } => Instr::StoreInt { dst: *dst, val: *val },
            Instr::StoreReal { dst, val } => Instr::StoreReal { dst: *dst, val: *val },
            Instr::Copy { src, dst } => Instr::Copy { src: *src, dst: *dst },
            Instr::Jump { target } => Instr::Jump { target: *target },
            Instr::BranchIfZero { cond, target } => Instr::BranchIfZero {
                cond: *cond,
                target: *target,
            },
            Instr::CallLocal { func } => Instr::CallLocal { func: *func },
            Instr::CallNative { name, args } => {
                let a = args.clone();
                proof {
                    assert(a@ =~= args@);
                }
                Instr::CallNative { name: name.clone(), args: a }
            },
            Instr::Ret => Instr::Ret,
        }
    }
}

/// The mathematical shape of an [`Instr`].
pub enum InstrModel {
    StoreInt { dst: usize, val: i32 },
    StoreReal { dst: usize, val: i64 },
    Copy { src: usize, dst: usize },
    Jump { target: usize },
    BranchIfZero { cond: usize, target: usize },
    CallLocal { func: usize },
    CallNative { name: Seq<char>, args: Seq<usize> },
    Ret,
}

impl View for Instr {
    type V = InstrModel;

    open spec fn view(&self) -> InstrModel {
        match self {
            Instr::StoreInt { dst, val } => InstrModel::StoreInt { dst: *dst, val: *val },
            Instr::StoreReal { dst, val } => InstrModel::StoreReal { dst: *dst, val: *val },
            Instr::Copy { src, dst } => InstrModel::Copy { src: *src, dst: *dst },
            Instr::Jump { target } => InstrModel::Jump { target: *target },
            Instr::BranchIfZero { cond, target } => InstrModel::BranchIfZero {
                cond: *cond,
                target: *target,
            },
            Instr::CallLocal { func } => InstrModel::CallLocal { func: *func },
            Instr::CallNative { name, args } => InstrModel::CallNative {
                name: name@,
                args: args@,
            },
            Instr::Ret => InstrModel::Ret,
        }
    }
}

/// One entry of a module's function table: a name and the offset of the
/// function's first instruction.
pub struct FuncEntry {
    pub name: String,
    pub offset: usize,
}

/// The mathematical shape of a [`FuncEntry`].
pub struct FuncEntryModel {
    pub name: Seq<char>,
    pub offset: usize,
}

impl View for FuncEntry {
    type V = FuncEntryModel;

    open spec fn view(&self) -> FuncEntryModel {
        FuncEntryModel { name: self.name@, offset: self.offset }
    }
}

/// An immutable compiled script module.
///
/// Its constant pool seeds the owning machine's value store at construction;
/// its function table resolves local calls and redirect entry points.
pub struct CompiledModule {
    pub name: String,
    pub consts: Vec<Value>,
    pub funcs: Vec<FuncEntry>,
    pub code: Vec<Instr>,
}

/// The mathematical shape of a [`CompiledModule`].
pub struct ModuleModel {
    pub name: Seq<char>,
    pub consts: Seq<ValueModel>,
    pub funcs: Seq<FuncEntryModel>,
    pub code: Seq<InstrModel>,
}

impl View for CompiledModule {
    type V = ModuleModel;

    open spec fn view(&self) -> ModuleModel {
        ModuleModel {
            name: self.name@,
            consts: self.consts@.map_values(|v: Value| v@),
            funcs: self.funcs@.map_values(|f: FuncEntry| f@),
            code: self.code@.map_values(|i: Instr| i@),
        }
    }
}

/// The offset of the first function named `name` in the table `funcs`, if
/// one is there.
pub open spec fn spec_func_offset(funcs: Seq<FuncEntryModel>, name: Seq<char>) -> Option<usize>
    decreases funcs.len(),
{
    if funcs.len() == 0 {
        None
    } else if funcs[0].name == name {
        Some(funcs[0].offset)
    } else {
        spec_func_offset(funcs.drop_first(), name)
    }
}

impl CompiledModule {
    /// Looks the name up in the function table; resolution is by exact,
    /// case-sensitive match.
    pub fn func_offset(&self, name: &str) -> (r: Option<usize>)
        ensures
            r == spec_func_offset(self@.funcs, name@),
    {
        let key: String = name.to_owned();
        proof {
            assert(self@.funcs.skip(0) =~= self@.funcs);
        }
        let mut i: usize = 0;
        while i < self.funcs.len()
            invariant
                i <= self.funcs@.len(),
                key@ == name@,
                spec_func_offset(self@.funcs, name@) == spec_func_offset(
                    self@.funcs.skip(i as int),
                    name@,
                ),
            decreases self.funcs@.len() - i,
        {
            proof {
                assert(self@.funcs.skip(i as int)[0] == self@.funcs[i as int]);
                assert(self@.funcs.skip(i as int).drop_first() =~= self@.funcs.skip(i + 1));
            }
            if self.funcs[i].name == key {
                proof {
                    assert(self@.funcs[i as int].name == name@);
                }
                return Some(self.funcs[i].offset);
            }
            proof {
                assert(self@.funcs[i as int].name != name@);
            }
            i += 1;
        }
        proof {
            assert(self@.funcs.skip(i as int).len() == 0);
        }
        None
    }
}

} // verus!
