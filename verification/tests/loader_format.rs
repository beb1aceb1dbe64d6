//! Tests of the compiled-module byte format.

use script_vm::context::create_script_vm;
use script_vm::loader::{load_module, ParseError};
use script_vm::module::Instr;
use script_vm::value::Value;
use script_vm::vm::{Status, SuspensionToken};

fn push_u32(out: &mut Vec<u8>, v: u32) {
    out.extend_from_slice(&v.to_le_bytes());
}

fn push_i64(out: &mut Vec<u8>, v: i64) {
    out.extend_from_slice(&v.to_le_bytes());
}

fn push_text(out: &mut Vec<u8>, s: &str) {
    push_u32(out, s.len() as u32);
    out.extend_from_slice(s.as_bytes());
}

/// The image of a module that waits 2.5 seconds and returns.
fn wait_module_image() -> Vec<u8> {
    let mut b = Vec::new();
    push_text(&mut b, "opening");
    push_u32(&mut b, 2); // constants
    b.push(1); // real
    push_i64(&mut b, 2500);
    b.push(0); // integer
    push_u32(&mut b, 7u32);
    push_u32(&mut b, 1); // functions
    push_text(&mut b, "start");
    push_u32(&mut b, 0);
    push_u32(&mut b, 2); // instructions
    b.push(6); // call-native
    push_text(&mut b, "giWait");
    b.push(1); // one argument
    push_u32(&mut b, 0);
    b.push(7); // return
    b
}

#[test]
fn well_formed_image_loads() {
    let m = load_module(&wait_module_image()).expect("image should load");
    assert_eq!(m.name, "opening");
    assert_eq!(m.consts.len(), 2);
    assert!(matches!(m.consts[0], Value::Real(2500)));
    assert!(matches!(m.consts[1], Value::Int(7)));
    assert_eq!(m.funcs.len(), 1);
    assert_eq!(m.funcs[0].name, "start");
    assert_eq!(m.funcs[0].offset, 0);
    assert_eq!(m.code.len(), 2);
    match &m.code[0] {
        Instr::CallNative { name, args } => {
            assert_eq!(name, "giWait");
            assert_eq!(args, &vec![0]);
        }
        _ => panic!("unexpected first instruction"),
    }
    assert!(matches!(m.code[1], Instr::Ret));
}

#[test]
fn loaded_module_runs() {
    let m = load_module(&wait_module_image()).expect("image should load");
    let mut vm = create_script_vm(m, ());
    assert_eq!(vm.advance(0), Status::Suspended(SuspensionToken::Wait(2500)));
    assert_eq!(vm.advance(2500), Status::Finished);
}

#[test]
fn truncated_image_is_rejected() {
    let full = wait_module_image();
    for cut in [0, 1, 5, 11, 12, 20, full.len() - 1] {
        let short: Vec<u8> = full[..cut].to_vec();
        assert!(matches!(load_module(&short), Err(ParseError::Malformed)), "cut at {}", cut);
    }
}

#[test]
fn trailing_bytes_are_rejected() {
    let mut b = wait_module_image();
    b.push(0);
    assert!(matches!(load_module(&b), Err(ParseError::Malformed)));
}

#[test]
fn unknown_tags_are_rejected() {
    // A constant tag beyond the defined ones.
    let mut b = Vec::new();
    push_text(&mut b, "m");
    push_u32(&mut b, 1);
    b.push(9);
    push_u32(&mut b, 0);
    push_u32(&mut b, 0);
    assert!(matches!(load_module(&b), Err(ParseError::Malformed)));

    // An opcode beyond the defined ones.
    let mut c = Vec::new();
    push_text(&mut c, "m");
    push_u32(&mut c, 0);
    push_u32(&mut c, 0);
    push_u32(&mut c, 1);
    c.push(200);
    assert!(matches!(load_module(&c), Err(ParseError::Malformed)));
}

#[test]
fn non_ascii_text_is_rejected() {
    let mut b = Vec::new();
    push_u32(&mut b, 2);
    b.push(0x80);
    b.push(0x81);
    push_u32(&mut b, 0);
    push_u32(&mut b, 0);
    push_u32(&mut b, 0);
    assert!(matches!(load_module(&b), Err(ParseError::Malformed)));
}

#[test]
fn empty_module_image_loads() {
    let mut b = Vec::new();
    push_text(&mut b, "empty");
    push_u32(&mut b, 0);
    push_u32(&mut b, 0);
    push_u32(&mut b, 0);
    let m = load_module(&b).expect("empty module should load");
    assert_eq!(m.name, "empty");
    assert!(m.consts.is_empty());
    assert!(m.funcs.is_empty());
    assert!(m.code.is_empty());
}
