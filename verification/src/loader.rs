//! Loading a compiled module from bytes.
//!
//! The wire layout is simple and strict: little-endian integers, texts as a
//! length followed by that many bytes of plain (seven-bit) characters, and
//! no trailing bytes. [`spec_parse_module`] is the layout's meaning; the
//! loader returns exactly what it says, and `Err` exactly when it says
//! nothing.
//!
//! Layout, in order:
//! - module name: text
//! - constant count, then each constant: a tag byte — 0 integer (4 bytes),
//!   1 real (8 bytes), 2 text
//! - function count, then each entry: text name, 4-byte offset
//! - instruction count, then each instruction: an opcode byte —
//!   0 store-integer (4-byte slot, 4-byte value),
//!   1 store-real (4-byte slot, 8-byte value),
//!   2 copy (two 4-byte slots), 3 jump (4-byte target),
//!   4 branch-if-zero (4-byte slot, 4-byte target),
//!   5 call-local (4-byte index),
//!   6 call-native (text name, argument count byte, 4-byte slots),
//!   7 return

use vstd::prelude::*;
use crate::module::{CompiledModule, FuncEntry, FuncEntryModel, Instr, InstrModel, ModuleModel};
use crate::value::{Value, ValueModel};

verus! {

/// A malformed compiled module; fatal to this load only.
#[derive(Clone, Copy, PartialEq, Eq, Structural, Debug)]
pub enum ParseError {
    Malformed,
}

/// The little-endian 32-bit value at `i`.
pub open spec fn spec_le32(b: Seq<u8>, i: int) -> u32 {
    (b[i] as u32) | ((b[i + 1] as u32) << 8) | ((b[i + 2] as u32) << 16) | ((b[i + 3] as u32)
        << 24)
}

/// The little-endian 64-bit value at `i`.
pub open spec fn spec_le64(b: Seq<u8>, i: int) -> u64 {
    (b[i] as u64) | ((b[i + 1] as u64) << 8) | ((b[i + 2] as u64) << 16) | ((b[i + 3] as u64)
        << 24) | ((b[i + 4] as u64) << 32) | ((b[i + 5] as u64) << 40) | ((b[i + 6] as u64) << 48)
        | ((b[i + 7] as u64) << 56)
}

pub open spec fn spec_read_u32(b: Seq<u8>, i: int) -> Option<(u32, int)> {
    if 0 <= i && i + 4 <= b.len() {
        Some((spec_le32(b, i), i + 4))
    } else {
        None
    }
}

pub open spec fn spec_read_i64(b: Seq<u8>, i: int) -> Option<(i64, int)> {
    if 0 <= i && i + 8 <= b.len() {
        Some((spec_le64(b, i) as i64, i + 8))
    } else {
        None
    }
}

/// A text: a 32-bit length, then that many bytes, each below 128, read as
/// characters.
pub open spec fn spec_read_text(b: Seq<u8>, i: int) -> Option<(Seq<char>, int)> {
    match spec_read_u32(b, i) {
        None => None,
        Some((n, j)) => {
            if j + n <= b.len() && (forall|k: int| j <= k < j + n ==> b[k] < 128) {
                Some((b.subrange(j, j + n).map_values(|x: u8| x as char), j + n))
            } else {
                None
            }
        },
    }
}

pub open spec fn spec_read_value(b: Seq<u8>, i: int) -> Option<(ValueModel, int)> {
    if !(0 <= i && i + 1 <= b.len()) {
        None
    } else if b[i] == 0 {
        match spec_read_u32(b, i + 1) {
            None => None,
            Some((v, j)) => Some((ValueModel::Int(v as i32), j)),
        }
    } else if b[i] == 1 {
        match spec_read_i64(b, i + 1) {
            None => None,
            Some((v, j)) => Some((ValueModel::Real(v), j)),
        }
    } else if b[i] == 2 {
        match spec_read_text(b, i + 1) {
            None => None,
            Some((s, j)) => Some((ValueModel::Str(s), j)),
        }
    } else {
        None
    }
}

pub open spec fn spec_read_values(b: Seq<u8>, i: int, n: nat, acc: Seq<ValueModel>) -> Option<
    (Seq<ValueModel>, int),
>
    decreases n,
{
    if n == 0 {
        Some((acc, i))
    } else {
        match spec_read_value(b, i) {
            None => None,
            Some((v, j)) => spec_read_values(b, j, (n - 1) as nat, acc.push(v)),
        }
    }
}

pub open spec fn spec_read_func(b: Seq<u8>, i: int) -> Option<(FuncEntryModel, int)> {
    match spec_read_text(b, i) {
        None => None,
        Some((name, j)) => match spec_read_u32(b, j) {
            None => None,
            Some((off, k)) => Some((FuncEntryModel { name, offset: off as usize }, k)),
        },
    }
}

pub open spec fn spec_read_funcs(b: Seq<u8>, i: int, n: nat, acc: Seq<FuncEntryModel>) -> Option<
    (Seq<FuncEntryModel>, int),
>
    decreases n,
{
    if n == 0 {
        Some((acc, i))
    } else {
        match spec_read_func(b, i) {
            None => None,
            Some((f, j)) => spec_read_funcs(b, j, (n - 1) as nat, acc.push(f)),
        }
    }
}

pub open spec fn spec_read_args(b: Seq<u8>, i: int, n: nat, acc: Seq<usize>) -> Option<
    (Seq<usize>, int),
>
    decreases n,
{
    if n == 0 {
        Some((acc, i))
    } else {
        match spec_read_u32(b, i) {
            None => None,
            Some((v, j)) => spec_read_args(b, j, (n - 1) as nat, acc.push(v as usize)),
        }
    }
}

pub open spec fn spec_read_instr(b: Seq<u8>, i: int) -> Option<(InstrModel, int)> {
    if !(0 <= i && i + 1 <= b.len()) {
        None
    } else if b[i] == 0 {
        match spec_read_u32(b, i + 1) {
            None => None,
            Some((dst, j)) => match spec_read_u32(b, j) {
                None => None,
                Some((v, k)) => Some(
                    (InstrModel::StoreInt { dst: dst as usize, val: v as i32 }, k),
                ),
            },
        }
    } else if b[i] == 1 {
        match spec_read_u32(b, i + 1) {
            None => None,
            Some((dst, j)) => match spec_read_i64(b, j) {
                None => None,
                Some((v, k)) => Some((InstrModel::StoreReal { dst: dst as usize, val: v }, k)),
            },
        }
    } else if b[i] == 2 {
        match spec_read_u32(b, i + 1) {
            None => None,
            Some((src, j)) => match spec_read_u32(b, j) {
                None => None,
                Some((dst, k)) => Some(
                    (InstrModel::Copy { src: src as usize, dst: dst as usize }, k),
                ),
            },
        }
    } else if b[i] == 3 {
        match spec_read_u32(b, i + 1) {
            None => None,
            Some((t, j)) => Some((InstrModel::Jump { target: t as usize }, j)),
        }
    } else if b[i] == 4 {
        match spec_read_u32(b, i + 1) {
            None => None,
            Some((c, j)) => match spec_read_u32(b, j) {
                None => None,
                Some((t, k)) => Some(
                    (InstrModel::BranchIfZero { cond: c as usize, target: t as usize }, k),
                ),
            },
        }
    } else if b[i] == 5 {
        match spec_read_u32(b, i + 1) {
            None => None,
            Some((f, j)) => Some((InstrModel::CallLocal { func: f as usize }, j)),
        }
    } else if b[i] == 6 {
        match spec_read_text(b, i + 1) {
            None => None,
            Some((name, j)) => {
                if j + 1 <= b.len() {
                    match spec_read_args(b, j + 1, b[j] as nat, Seq::empty()) {
                        None => None,
                        Some((args, k)) => Some((InstrModel::CallNative { name, args }, k)),
                    }
                } else {
                    None
                }
            },
        }
    } else if b[i] == 7 {
        Some((InstrModel::Ret, i + 1))
    } else {
        None
    }
}

pub open spec fn spec_read_instrs(b: Seq<u8>, i: int, n: nat, acc: Seq<InstrModel>) -> Option<
    (Seq<InstrModel>, int),
>
    decreases n,
{
    if n == 0 {
        Some((acc, i))
    } else {
        match spec_read_instr(b, i) {
            None => None,
            Some((ins, j)) => spec_read_instrs(b, j, (n - 1) as nat, acc.push(ins)),
        }
    }
}

/// The meaning of a byte image: the one module it encodes, or nothing when
/// it is malformed or has trailing bytes.
pub open spec fn spec_parse_module(b: Seq<u8>) -> Option<ModuleModel> {
    match spec_read_text(b, 0) {
        None => None,
        Some((name, i1)) => match spec_read_u32(b, i1) {
            None => None,
            Some((nc, i2)) => match spec_read_values(b, i2, nc as nat, Seq::empty()) {
                None => None,
                Some((consts, i3)) => match spec_read_u32(b, i3) {
                    None => None,
                    Some((nf, i4)) => match spec_read_funcs(b, i4, nf as nat, Seq::empty()) {
                        None => None,
                        Some((funcs, i5)) => match spec_read_u32(b, i5) {
                            None => None,
                            Some((ni, i6)) => match spec_read_instrs(
                                b,
                                i6,
                                ni as nat,
                                Seq::empty(),
                            ) {
                                None => None,
                                Some((code, i7)) => {
                                    if i7 == b.len() {
                                        Some(ModuleModel { name, consts, funcs, code })
                                    } else {
                                        None
                                    }
                                },
                            },
                        },
                    },
                },
            },
        },
    }
}

/// Relies on String::from_utf8: bytes below 128 decode to exactly those
/// characters.
#[verifier::external_body]
fn string_from_ascii(bytes: Vec<u8>) -> (r: Option<String>)
    ensures
        match r {
            Some(s) => (forall|i: int| 0 <= i < bytes@.len() ==> bytes@[i] < 128) ==> s@
                == bytes@.map_values(|x: u8| x as char),
            None => !(forall|i: int| 0 <= i < bytes@.len() ==> bytes@[i] < 128),
        },
{
    String::from_utf8(bytes).ok()
}

fn read_u32(b: &Vec<u8>, pos: usize) -> (r: Option<(u32, usize)>)
    requires
        pos <= b@.len(),
    ensures
        match r {
            Some(vp) => spec_read_u32(b@, pos as int) == Some((vp.0, vp.1 as int)) && vp.1
                <= b@.len(),
            None => spec_read_u32(b@, pos as int) is None,
        },
{
    if b.len() - pos >= 4 {
        let v = (b[pos] as u32) | ((b[pos + 1] as u32) << 8u32) | ((b[pos + 2] as u32) << 16u32)
            | ((b[pos + 3] as u32) << 24u32);
        Some((v, pos + 4))
    } else {
        None
    }
}

fn read_i64(b: &Vec<u8>, pos: usize) -> (r: Option<(i64, usize)>)
    requires
        pos <= b@.len(),
    ensures
        match r {
            Some(vp) => spec_read_i64(b@, pos as int) == Some((vp.0, vp.1 as int)) && vp.1
                <= b@.len(),
            None => spec_read_i64(b@, pos as int) is None,
        },
{
    if b.len() - pos >= 8 {
        let v = (b[pos] as u64) | ((b[pos + 1] as u64) << 8u64) | ((b[pos + 2] as u64) << 16u64)
            | ((b[pos + 3] as u64) << 24u64) | ((b[pos + 4] as u64) << 32u64) | ((b[pos + 5]
            as u64) << 40u64) | ((b[pos + 6] as u64) << 48u64) | ((b[pos + 7] as u64) << 56u64);
        Some((v as i64, pos + 8))
    } else {
        None
    }
}

#[verifier::loop_isolation(false)]
fn read_text(b: &Vec<u8>, pos: usize) -> (r: Option<(String, usize)>)
    requires
        pos <= b@.len(),
    ensures
        match r {
            Some(sp) => (spec_read_text(b@, pos as int) matches Some(tq) && sp.0@ == tq.0 && sp.1
                as int == tq.1 && sp.1 <= b@.len()),
            None => spec_read_text(b@, pos as int) is None,
        },
{
    let (n32, j) = match read_u32(b, pos) {
        None => {
            return None;
        },
        Some(x) => x,
    };
    let n = n32 as usize;
    if b.len() - j < n {
        return None;
    }
    let mut buf: Vec<u8> = Vec::new();
    let mut k: usize = 0;
    while k < n
        invariant
            j + n <= b@.len(),
            b@.len() <= usize::MAX,
            k <= n,
            buf@ == b@.subrange(j as int, j + k as int),
            forall|t: int| j <= t < j + k ==> b@[t] < 128,
        decreases n - k,
    {
        let byte = b[j + k];
        if byte >= 128 {
            proof {
                let t0 = j + k as int;
                assert(b@[t0] >= 128);
                assert(!(forall|t: int| j <= t < j + n32 ==> b@[t] < 128)) by {
                    assert(!(j <= t0 < j + n32 ==> b@[t0] < 128));
                }
                lemma_text_not_ascii(b@, pos as int, n32, j as int);
            }
            return None;
        }
        buf.push(byte);
        k += 1;
        proof {
            assert(buf@ =~= b@.subrange(j as int, j + k as int));
        }
    }
    proof {
        assert(buf@ =~= b@.subrange(j as int, j + n as int));
    }
    match string_from_ascii(buf) {
        Some(s) => Some((s, j + n)),
        None => unreached(),
    }
}

fn read_value(b: &Vec<u8>, pos: usize) -> (r: Option<(Value, usize)>)
    requires
        pos <= b@.len(),
    ensures
        match r {
            Some(vp) => (spec_read_value(b@, pos as int) matches Some(mq) && vp.0@ == mq.0 && vp.1
                as int == mq.1 && vp.1 <= b@.len()),
            None => spec_read_value(b@, pos as int) is None,
        },
{
    if b.len() - pos < 1 {
        return None;
    }
    let tag = b[pos];
    if tag == 0 {
        match read_u32(b, pos + 1) {
            None => None,
            Some((v, j)) => Some((Value::Int(v as i32), j)),
        }
    } else if tag == 1 {
        match read_i64(b, pos + 1) {
            None => None,
            Some((v, j)) => Some((Value::Real(v), j)),
        }
    } else if tag == 2 {
        match read_text(b, pos + 1) {
            None => None,
            Some((s, j)) => Some((Value::Str(s), j)),
        }
    } else {
        None
    }
}

fn read_func(b: &Vec<u8>, pos: usize) -> (r: Option<(FuncEntry, usize)>)
    requires
        pos <= b@.len(),
    ensures
        match r {
            Some(fp) => (spec_read_func(b@, pos as int) matches Some(mq) && fp.0@ == mq.0 && fp.1
                as int == mq.1 && fp.1 <= b@.len()),
            None => spec_read_func(b@, pos as int) is None,
        },
{
    match read_text(b, pos) {
        None => None,
        Some((name, j)) => match read_u32(b, j) {
            None => None,
            Some((off, k)) => Some((FuncEntry { name, offset: off as usize }, k)),
        },
    }
}

#[verifier::loop_isolation(false)]
fn read_instr(b: &Vec<u8>, pos: usize) -> (r: Option<(Instr, usize)>)
    requires
        pos <= b@.len(),
    ensures
        match r {
            Some(ip) => (spec_read_instr(b@, pos as int) matches Some(mq) && ip.0@ == mq.0 && ip.1
                as int == mq.1 && ip.1 <= b@.len()),
            None => spec_read_instr(b@, pos as int) is None,
        },
{
    if b.len() - pos < 1 {
        return None;
    }
    let op = b[pos];
    if op == 0 {
        match read_u32(b, pos + 1) {
            None => None,
            Some((dst, j)) => match read_u32(b, j) {
                None => None,
                Some((v, k)) => Some((Instr::StoreInt { dst: dst as usize, val: v as i32 }, k)),
            },
        }
    } else if op == 1 {
        match read_u32(b, pos + 1) {
            None => None,
            Some((dst, j)) => match read_i64(b, j) {
                None => None,
                Some((v, k)) => Some((Instr::StoreReal { dst: dst as usize, val: v }, k)),
            },
        }
    } else if op == 2 {
        match read_u32(b, pos + 1) {
            None => None,
            Some((src, j)) => match read_u32(b, j) {
                None => None,
                Some((dst, k)) => Some((Instr::Copy { src: src as usize, dst: dst as usize }, k)),
            },
        }
    } else if op == 3 {
        match read_u32(b, pos + 1) {
            None => None,
            Some((t, j)) => Some((Instr::Jump { target: t as usize }, j)),
        }
    } else if op == 4 {
        match read_u32(b, pos + 1) {
            None => None,
            Some((c, j)) => match read_u32(b, j) {
                None => None,
                Some((t, k)) => Some(
                    (Instr::BranchIfZero { cond: c as usize, target: t as usize }, k),
                ),
            },
        }
    } else if op == 5 {
        match read_u32(b, pos + 1) {
            None => None,
            Some((f, j)) => Some((Instr::CallLocal { func: f as usize }, j)),
        }
    } else if op == 6 {
        let (name, j) = match read_text(b, pos + 1) {
            None => {
                return None;
            },
            Some(x) => x,
        };
        if b.len() - j < 1 {
            return None;
        }
        let argc = b[j];
        let mut args: Vec<usize> = Vec::new();
        let mut cur: usize = j + 1;
        let mut left: usize = argc as usize;
        proof {
            assert(args@ =~= Seq::<usize>::empty());
        }
        while left > 0
            invariant
                cur <= b@.len(),
                spec_read_args(b@, j + 1 as int, argc as nat, Seq::empty()) == spec_read_args(
                    b@,
                    cur as int,
                    left as nat,
                    args@,
                ),
            decreases left,
        {
            match read_u32(b, cur) {
                None => {
                    return None;
                },
                Some((v, p)) => {
                    args.push(v as usize);
                    cur = p;
                    left = left - 1;
                },
            }
        }
        Some((Instr::CallNative { name, args }, cur))
    } else if op == 7 {
        Some((Instr::Ret, pos + 1))
    } else {
        None
    }
}

/// Parses one compiled module from its byte image: the loader accepts
/// exactly the images [`spec_parse_module`] gives a meaning, and returns
/// exactly that meaning.
#[verifier::loop_isolation(false)]
pub fn load_module(bytes: &Vec<u8>) -> (r: Result<CompiledModule, ParseError>)
    ensures
        match r {
            Ok(m) => spec_parse_module(bytes@) == Some(m@),
            Err(e) => spec_parse_module(bytes@) is None && e == ParseError::Malformed,
        },
{
    let (name, i1) = match read_text(bytes, 0) {
        None => {
            return Err(ParseError::Malformed);
        },
        Some(x) => x,
    };
    let (nc, i2) = match read_u32(bytes, i1) {
        None => {
            return Err(ParseError::Malformed);
        },
        Some(x) => x,
    };
    let mut consts: Vec<Value> = Vec::new();
    let mut pos: usize = i2;
    let mut left: usize = nc as usize;
    proof {
        assert(consts@.map_values(|v: Value| v@) =~= Seq::<ValueModel>::empty());
    }
    while left > 0
        invariant
            pos <= bytes@.len(),
            spec_read_values(bytes@, i2 as int, nc as nat, Seq::empty()) == spec_read_values(
                bytes@,
                pos as int,
                left as nat,
                consts@.map_values(|v: Value| v@),
            ),
        decreases left,
    {
        match read_value(bytes, pos) {
            None => {
                return Err(ParseError::Malformed);
            },
            Some((v, p)) => {
                let ghost acc0 = consts@.map_values(|v: Value| v@);
                let ghost vm = v@;
                consts.push(v);
                proof {
                    assert(consts@.map_values(|v: Value| v@) =~= acc0.push(vm));
                }
                pos = p;
                left = left - 1;
            },
        }
    }
    let (nf, i4) = match read_u32(bytes, pos) {
        None => {
            return Err(ParseError::Malformed);
        },
        Some(x) => x,
    };
    let mut funcs: Vec<FuncEntry> = Vec::new();
    let ghost i4g = i4 as int;
    pos = i4;
    left = nf as usize;
    proof {
        assert(funcs@.map_values(|f: FuncEntry| f@) =~= Seq::<FuncEntryModel>::empty());
    }
    while left > 0
        invariant
            pos <= bytes@.len(),
            spec_read_funcs(bytes@, i4g, nf as nat, Seq::empty()) == spec_read_funcs(
                bytes@,
                pos as int,
                left as nat,
                funcs@.map_values(|f: FuncEntry| f@),
            ),
        decreases left,
    {
        match read_func(bytes, pos) {
            None => {
                return Err(ParseError::Malformed);
            },
            Some((f, p)) => {
                let ghost acc0 = funcs@.map_values(|f: FuncEntry| f@);
                let ghost fm = f@;
                funcs.push(f);
                proof {
                    assert(funcs@.map_values(|f: FuncEntry| f@) =~= acc0.push(fm));
                }
                pos = p;
                left = left - 1;
            },
        }
    }
    let (ni, i6) = match read_u32(bytes, pos) {
        None => {
            return Err(ParseError::Malformed);
        },
        Some(x) => x,
    };
    let mut code: Vec<Instr> = Vec::new();
    let ghost i6g = i6 as int;
    pos = i6;
    left = ni as usize;
    proof {
        assert(code@.map_values(|ins: Instr| ins@) =~= Seq::<InstrModel>::empty());
    }
    while left > 0
        invariant
            pos <= bytes@.len(),
            spec_read_instrs(bytes@, i6g, ni as nat, Seq::empty()) == spec_read_instrs(
                bytes@,
                pos as int,
                left as nat,
                code@.map_values(|ins: Instr| ins@),
            ),
        decreases left,
    {
        match read_instr(bytes, pos) {
            None => {
                return Err(ParseError::Malformed);
            },
            Some((ins, p)) => {
                let ghost acc0 = code@.map_values(|ins: Instr| ins@);
                let ghost im = ins@;
                code.push(ins);
                proof {
                    assert(code@.map_values(|ins: Instr| ins@) =~= acc0.push(im));
                }
                pos = p;
                left = left - 1;
            },
        }
    }
    if pos != bytes.len() {
        return Err(ParseError::Malformed);
    }
    let m = CompiledModule { name, consts, funcs, code };
    proof {
        assert(spec_parse_module(bytes@) == Some(m@));
    }
    Ok(m)
}


/// A text whose bytes are not all plain characters has no reading.
proof fn lemma_text_not_ascii(b: Seq<u8>, i: int, n32: u32, j: int)
    requires
        spec_read_u32(b, i) == Some((n32, j)),
        j + n32 <= b.len(),
        !(forall|t: int| j <= t < j + n32 ==> b[t] < 128),
    ensures
        spec_read_text(b, i) is None,
{
}

} // verus!
