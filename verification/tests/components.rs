//! Unit tests of the machine's components: value store, registry, cursor,
//! redirect surface, and the video player.

use script_vm::context::create_context;
use script_vm::module::{CompiledModule, FuncEntry, Instr};
use script_vm::registry::{NativeFn, NativeRegistry};
use script_vm::value::{Value, ValueStore, VmError};
use script_vm::video::{VideoPlayer, VideoStreamState};
use script_vm::vm::{ExtractError, ParamCursor, ScriptVm, Status};

#[test]
fn value_store_get_set_append() {
    let mut store = ValueStore::new();
    assert_eq!(store.len(), 0);
    assert!(matches!(store.get(0), Err(VmError::IndexOutOfRange)));
    let i = store.append(Value::Int(5));
    assert_eq!(i, 0);
    let j = store.append(Value::Str(String::from("hi")));
    assert_eq!(j, 1);
    match store.get(0) {
        Ok(Value::Int(v)) => assert_eq!(*v, 5),
        _ => panic!("slot 0 should be 5"),
    }
    assert!(store.set(1, Value::Real(2500)).is_ok());
    match store.get(1) {
        Ok(Value::Real(v)) => assert_eq!(*v, 2500),
        _ => panic!("slot 1 should be 2.5"),
    }
    // Overwriting one slot leaves the other untouched.
    match store.get(0) {
        Ok(Value::Int(v)) => assert_eq!(*v, 5),
        _ => panic!("slot 0 should still be 5"),
    }
    assert!(matches!(store.set(9, Value::Int(1)), Err(VmError::IndexOutOfRange)));
}

#[test]
fn registry_first_registration_wins() {
    let mut reg = NativeRegistry::new();
    assert!(reg.register(String::from("giWait"), NativeFn::Wait));
    assert!(!reg.register(String::from("giWait"), NativeFn::Noop));
    assert_eq!(reg.lookup("giWait"), Some(NativeFn::Wait));
    assert_eq!(reg.lookup("giwait"), None);
    assert_eq!(reg.len(), 1);
}

#[test]
fn standard_context_bindings() {
    let reg = create_context();
    assert_eq!(reg.lookup("giWait"), Some(NativeFn::Wait));
    assert_eq!(reg.lookup("giArenaLoad"), Some(NativeFn::ArenaLoad));
    assert_eq!(reg.lookup("giPlayMovie"), Some(NativeFn::PlayMovie));
    assert_eq!(reg.lookup("giFlashOutBlack"), Some(NativeFn::FlashOutBlack));
    assert_eq!(reg.lookup("giIMMBegin"), Some(NativeFn::Noop));
    assert_eq!(
        reg.lookup("giAddQuestComplatePercentage"),
        Some(NativeFn::AddQuestCompletePercentage)
    );
    assert_eq!(reg.lookup("giCameraCtrlYPR"), Some(NativeFn::NotImplemented));
    assert_eq!(reg.lookup("giShowPoetry"), Some(NativeFn::NotImplemented));
    assert_eq!(reg.lookup("giPlayMovieFinal"), Some(NativeFn::NotImplemented));
    assert_eq!(reg.lookup("giTotallyUnknownFn"), None);
}

fn three_slot_vm() -> ScriptVm<()> {
    let module = CompiledModule {
        name: String::from("A"),
        consts: vec![Value::Int(7), Value::Real(2500), Value::Str(String::from("x"))],
        funcs: vec![],
        code: vec![Instr::Ret],
    };
    ScriptVm::new(create_context(), module, 0, ())
}

#[test]
fn extraction_is_positional_and_typed() {
    // A call site declaring (int, float, string) yields those three stored
    // values when pulled in declared order.
    let vm = three_slot_vm();
    let mut cur = ParamCursor::new(vec![0, 1, 2]);
    assert_eq!(vm.next_int(&mut cur), Ok(7));
    assert_eq!(vm.next_float(&mut cur), Ok(2500));
    assert_eq!(vm.next_string(&mut cur), Ok(String::from("x")));
    // The list is spent: one more pull is a type error.
    assert_eq!(vm.next_int(&mut cur), Err(ExtractError::TypeError));
}

#[test]
fn extraction_rejects_wrong_tags_without_advancing() {
    let vm = three_slot_vm();
    let mut cur = ParamCursor::new(vec![0, 1]);
    // Slot 0 holds an integer; pulling a float is a type error...
    assert_eq!(vm.next_float(&mut cur), Err(ExtractError::TypeError));
    // ...and the cursor did not move, so the integer is still there.
    assert_eq!(vm.next_int(&mut cur), Ok(7));
    assert_eq!(vm.next_string(&mut cur), Err(ExtractError::TypeError));
}

#[test]
fn extraction_flags_out_of_range_slots() {
    let vm = three_slot_vm();
    let mut cur = ParamCursor::new(vec![99]);
    assert_eq!(vm.next_int(&mut cur), Err(ExtractError::OutOfRange));
}

#[test]
fn redirect_preserves_value_store_contents() {
    // After set_active_module, every index previously written reads the
    // same value.
    let module_a = CompiledModule {
        name: String::from("A"),
        consts: vec![Value::Int(1), Value::Str(String::from("two")), Value::Real(3000)],
        funcs: vec![],
        code: vec![Instr::Ret],
    };
    let module_b = CompiledModule {
        name: String::from("B"),
        consts: vec![],
        funcs: vec![FuncEntry { name: String::from("entry"), offset: 0 }],
        code: vec![Instr::Ret],
    };
    let mut vm = ScriptVm::new(create_context(), module_a, 0, ());
    let bi = vm.add_module(module_b);
    assert_eq!(bi, 1);
    let _ = vm.heap_append(Value::Int(4));
    assert!(vm.set_active_module(1, "entry").is_ok());
    match vm.heap_get(0) {
        Ok(Value::Int(v)) => assert_eq!(*v, 1),
        _ => panic!("slot 0 changed"),
    }
    assert_eq!(vm.get_str(1), Some(String::from("two")));
    match vm.heap_get(2) {
        Ok(Value::Real(v)) => assert_eq!(*v, 3000),
        _ => panic!("slot 2 changed"),
    }
    match vm.heap_get(3) {
        Ok(Value::Int(v)) => assert_eq!(*v, 4),
        _ => panic!("slot 3 changed"),
    }
    assert!(matches!(vm.set_active_module(1, "missing"), Err(VmError::UnresolvedModule)));
}

#[test]
fn find_module_resolves_by_exact_name() {
    let module_a = CompiledModule {
        name: String::from("A"),
        consts: vec![],
        funcs: vec![],
        code: vec![Instr::Ret],
    };
    let module_b = CompiledModule {
        name: String::from("B"),
        consts: vec![],
        funcs: vec![],
        code: vec![Instr::Ret],
    };
    let mut vm = ScriptVm::new(create_context(), module_a, 0, ());
    vm.add_module(module_b);
    assert_eq!(vm.find_module("A"), Some(0));
    assert_eq!(vm.find_module("B"), Some(1));
    assert_eq!(vm.find_module("b"), None);
}

#[test]
fn get_str_reads_only_text() {
    let vm = three_slot_vm();
    assert_eq!(vm.get_str(0), None);
    assert_eq!(vm.get_str(2), Some(String::from("x")));
    assert_eq!(vm.get_str(42), None);
}

#[test]
fn app_context_is_handed_back() {
    let module = CompiledModule {
        name: String::from("A"),
        consts: vec![],
        funcs: vec![],
        code: vec![Instr::Ret],
    };
    let mut vm = ScriptVm::new(create_context(), module, 0, 17u64);
    assert_eq!(*vm.app_context(), 17);
    *vm.app_context_mut() = 18;
    assert_eq!(*vm.app_context(), 18);
    assert_eq!(vm.get_state(), Status::Ready);
}

#[test]
fn video_player_state_machine() {
    let mut player = VideoPlayer::new();
    player.play();
    assert_eq!(player.get_state(), VideoStreamState::Playing);
    player.pause();
    assert_eq!(player.get_state(), VideoStreamState::Paused);
    player.resume();
    assert_eq!(player.get_state(), VideoStreamState::Playing);
    player.stop();
    assert_eq!(player.get_state(), VideoStreamState::Stopped);
}
