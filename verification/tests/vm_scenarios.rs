//! Scenario tests driving whole machines through `advance`.

use script_vm::context::create_script_vm;
use script_vm::module::{CompiledModule, FuncEntry, Instr};
use script_vm::value::{Value, VmError};
use script_vm::vm::{Status, SuspensionToken};

fn wait_module(thousandths: i64) -> CompiledModule {
    CompiledModule {
        name: String::from("A"),
        consts: vec![Value::Real(thousandths)],
        funcs: vec![],
        code: vec![
            Instr::CallNative { name: String::from("giWait"), args: vec![0] },
            Instr::Ret,
        ],
    }
}

#[test]
fn wait_suspends_and_resumes_across_ticks() {
    // A module calls the wait native with 2.5 (stored as 2500 thousandths);
    // the host advances 1.0, 1.0, then 0.6.
    let mut vm = create_script_vm(wait_module(2500), ());
    let s = vm.advance(0);
    assert_eq!(s, Status::Suspended(SuspensionToken::Wait(2500)));
    let s1 = vm.advance(1000);
    assert!(matches!(s1, Status::Suspended(_)));
    let s2 = vm.advance(1000);
    assert!(matches!(s2, Status::Suspended(_)));
    let s3 = vm.advance(600);
    assert!(!matches!(s3, Status::Suspended(_)));
    assert_eq!(s3, Status::Finished);
}

#[test]
fn wait_chunking_is_invariant() {
    // advance(w) once ends in the same state as advance(w/2) twice.
    let mut once = create_script_vm(wait_module(1000), ());
    let mut twice = create_script_vm(wait_module(1000), ());
    assert!(matches!(once.advance(0), Status::Suspended(_)));
    assert!(matches!(twice.advance(0), Status::Suspended(_)));
    let a = once.advance(1000);
    let b1 = twice.advance(500);
    assert!(matches!(b1, Status::Suspended(_)));
    let b2 = twice.advance(500);
    assert_eq!(a, b2);
    assert_eq!(a, Status::Finished);
}

#[test]
fn advance_zero_clears_satisfied_timer_only() {
    let mut vm = create_script_vm(wait_module(0), ());
    // The wait installs a zero-duration token; a zero tick satisfies it.
    assert_eq!(vm.advance(0), Status::Suspended(SuspensionToken::Wait(0)));
    assert_eq!(vm.advance(0), Status::Finished);
}

#[test]
fn unknown_native_never_aborts_the_vm() {
    // A module calls "giTotallyUnknownFn" with 2 arguments; execution
    // continues at the next instruction and the run ends without an error
    // state.
    let module = CompiledModule {
        name: String::from("A"),
        consts: vec![Value::Int(0), Value::Int(0)],
        funcs: vec![],
        code: vec![
            Instr::CallNative { name: String::from("giTotallyUnknownFn"), args: vec![0, 1] },
            Instr::StoreInt { dst: 0, val: 42 },
            Instr::Ret,
        ],
    };
    let mut vm = create_script_vm(module, ());
    let s = vm.advance(0);
    assert!(matches!(s, Status::Ready | Status::Finished));
    match vm.heap_get(0) {
        Ok(Value::Int(v)) => assert_eq!(*v, 42),
        _ => panic!("slot 0 should hold the marker"),
    }
}

#[test]
fn redirect_resumes_in_the_caller_two_frames_down() {
    // A native redirect to module "B" entry "B_block1_init" happens while
    // two return frames sit below the active one; the redirected frame's
    // return resumes the caller below it, not module "A"'s abandoned code.
    let module_a = CompiledModule {
        name: String::from("A"),
        consts: vec![
            Value::Str(String::from("B")),
            Value::Str(String::from("block1")),
            Value::Str(String::from("")),
            Value::Int(0),
            Value::Int(0),
            Value::Int(0),
        ],
        funcs: vec![
            FuncEntry { name: String::from("f1"), offset: 2 },
            FuncEntry { name: String::from("f2"), offset: 5 },
        ],
        code: vec![
            Instr::CallLocal { func: 0 },
            Instr::Ret,
            Instr::CallLocal { func: 1 },
            Instr::StoreInt { dst: 5, val: 7 },
            Instr::Ret,
            Instr::CallNative { name: String::from("giArenaLoad"), args: vec![0, 1, 2, 3] },
            Instr::StoreInt { dst: 5, val: -1 },
            Instr::Ret,
        ],
    };
    let module_b = CompiledModule {
        name: String::from("B"),
        consts: vec![],
        funcs: vec![FuncEntry { name: String::from("B_block1_init"), offset: 0 }],
        code: vec![Instr::StoreInt { dst: 4, val: 99 }, Instr::Ret],
    };
    let mut vm = create_script_vm(module_a, ());
    vm.add_module(module_b);
    let s = vm.advance(0);
    assert_eq!(s, Status::Finished);
    // Module "B"'s entry ran.
    match vm.heap_get(4) {
        Ok(Value::Int(v)) => assert_eq!(*v, 99),
        _ => panic!("slot 4 should hold module B's marker"),
    }
    // The caller below the redirected frame resumed (its marker overwrote
    // nothing else); module "A"'s abandoned continuation did not run.
    match vm.heap_get(5) {
        Ok(Value::Int(v)) => assert_eq!(*v, 7),
        _ => panic!("slot 5 should hold the caller's marker"),
    }
}

#[test]
fn redirect_to_unknown_module_is_fatal_to_this_vm_only() {
    let module = CompiledModule {
        name: String::from("A"),
        consts: vec![
            Value::Str(String::from("nowhere")),
            Value::Str(String::from("block1")),
            Value::Str(String::from("")),
            Value::Int(0),
        ],
        funcs: vec![],
        code: vec![
            Instr::CallNative { name: String::from("giArenaLoad"), args: vec![0, 1, 2, 3] },
            Instr::Ret,
        ],
    };
    let mut vm = create_script_vm(module, ());
    let mut sibling = create_script_vm(wait_module(500), ());
    assert_eq!(vm.advance(0), Status::Failed(VmError::UnresolvedModule));
    // A sibling machine is unaffected.
    assert!(matches!(sibling.advance(0), Status::Suspended(_)));
}

#[test]
fn type_error_aborts_only_the_native_call() {
    // giWait pulls a real; handing it an integer slot aborts the call,
    // and the machine continues to the next instruction unsuspended.
    let module = CompiledModule {
        name: String::from("A"),
        consts: vec![Value::Int(123)],
        funcs: vec![],
        code: vec![
            Instr::CallNative { name: String::from("giWait"), args: vec![0] },
            Instr::StoreInt { dst: 0, val: 5 },
            Instr::Ret,
        ],
    };
    let mut vm = create_script_vm(module, ());
    assert_eq!(vm.advance(0), Status::Finished);
    match vm.heap_get(0) {
        Ok(Value::Int(v)) => assert_eq!(*v, 5),
        _ => panic!("execution should have continued past the failed call"),
    }
}

#[test]
fn out_of_range_store_access_is_fatal() {
    let module = CompiledModule {
        name: String::from("A"),
        consts: vec![],
        funcs: vec![],
        code: vec![Instr::StoreInt { dst: 3, val: 1 }, Instr::Ret],
    };
    let mut vm = create_script_vm(module, ());
    assert_eq!(vm.advance(0), Status::Failed(VmError::IndexOutOfRange));
}

#[test]
fn blocked_machine_waits_for_the_host_event() {
    let module = CompiledModule {
        name: String::from("A"),
        consts: vec![],
        funcs: vec![],
        code: vec![Instr::Ret],
    };
    let mut vm = create_script_vm(module, ());
    vm.install_blocked();
    assert_eq!(vm.advance(5000), Status::Suspended(SuspensionToken::Blocked));
    assert_eq!(vm.advance(5000), Status::Suspended(SuspensionToken::Blocked));
    vm.release_blocked();
    assert_eq!(vm.advance(0), Status::Finished);
}

#[test]
fn zero_arity_natives_leave_the_store_alone() {
    // Registered zero-arity handlers consume nothing and write nothing.
    let module = CompiledModule {
        name: String::from("A"),
        consts: vec![Value::Int(11), Value::Str(String::from("keep"))],
        funcs: vec![],
        code: vec![
            Instr::CallNative { name: String::from("giIMMBegin"), args: vec![] },
            Instr::CallNative { name: String::from("giNewGame"), args: vec![0, 1] },
            Instr::CallNative { name: String::from("giScriptMusicPause"), args: vec![] },
            Instr::Ret,
        ],
    };
    let mut vm = create_script_vm(module, ());
    assert_eq!(vm.advance(0), Status::Finished);
    match vm.heap_get(0) {
        Ok(Value::Int(v)) => assert_eq!(*v, 11),
        _ => panic!("slot 0 changed"),
    }
    assert_eq!(vm.get_str(1), Some(String::from("keep")));
}

#[test]
fn a_long_running_script_stays_ready_across_ticks() {
    // A tick executes a bounded number of instructions; a script that never
    // yields is still ready afterwards and resumes on the next tick.
    let module = CompiledModule {
        name: String::from("A"),
        consts: vec![],
        funcs: vec![],
        code: vec![Instr::Jump { target: 0 }],
    };
    let mut vm = create_script_vm(module, ());
    assert_eq!(vm.advance(0), Status::Ready);
    assert_eq!(vm.advance(400), Status::Ready);
}

#[test]
fn branches_and_local_calls_execute() {
    // Branch on zero jumps; branch on non-zero falls through.
    let module = CompiledModule {
        name: String::from("A"),
        consts: vec![Value::Int(0), Value::Int(1), Value::Int(0), Value::Int(0)],
        funcs: vec![],
        code: vec![
            Instr::BranchIfZero { cond: 0, target: 2 },
            Instr::Ret,
            Instr::BranchIfZero { cond: 1, target: 5 },
            Instr::StoreInt { dst: 2, val: 8 },
            Instr::Jump { target: 6 },
            Instr::StoreInt { dst: 2, val: -8 },
            Instr::Copy { src: 2, dst: 3 },
            Instr::Ret,
        ],
    };
    let mut vm = create_script_vm(module, ());
    assert_eq!(vm.advance(0), Status::Finished);
    match vm.heap_get(3) {
        Ok(Value::Int(v)) => assert_eq!(*v, 8),
        _ => panic!("copy target should hold 8"),
    }
}
