use jvm::class::InitState;
use jvm::interp::{
    RunOutcome, Vm, ARITHMETIC_EXCEPTION, EXCEPTION, EXCEPTION_IN_INITIALIZER_ERROR,
    NEGATIVE_ARRAY_SIZE_EXCEPTION, NO_CLASS_DEF_FOUND_ERROR, NULL_POINTER_EXCEPTION, OBJECT,
    RUNTIME_EXCEPTION, STACK_OVERFLOW_ERROR,
};
use jvm::main_thread::{JavaMainThread, MainAction, MainEvent};
use jvm::method::{ExEntry, Method};
use jvm::native::NativeHandler;
use jvm::value::{OopRef, Slot};

fn method(class: usize, desc: &str, code: Vec<u8>, max_locals: usize, max_stack: usize) -> Method {
    Method {
        class,
        name: b"m".to_vec(),
        descriptor: desc.as_bytes().to_vec(),
        code,
        max_locals,
        max_stack,
        ex_table: vec![],
        is_static: true,
        is_synchronized: false,
        native: None,
    }
}

fn class_of(vm: &Vm, o: OopRef) -> usize {
    vm.heap[o.handle as usize].class
}

#[test]
fn static_call_returns_42_and_main_exits_0() {
    let mut vm = Vm::new(1, 100);
    let a = vm.add_class("T".to_string(), Some(OBJECT), None).unwrap();
    let f = vm.add_method(method(a, "()I", vec![0x10, 41, 0x04, 0x60, 0xac], 0, 2)).unwrap();
    let main = vm
        .add_method(method(a, "()I", vec![0xb8, 0, f as u8, 0xac], 0, 1))
        .unwrap();
    assert_eq!(vm.call_static(main, &vec![], 1000), RunOutcome::Returned(Some(Slot::Int(42))));
    let mut mt = JavaMainThread::new("A".to_string(), None);
    assert_eq!(
        mt.run(&mut vm.thread, MainEvent::MainReturned { dispatch_found: false }),
        MainAction::Exit(0)
    );
}

#[test]
fn null_array_length_is_uncaught_npe_exit_1() {
    let mut vm = Vm::new(1, 100);
    let a = vm.add_class("T".to_string(), Some(OBJECT), None).unwrap();
    let main = vm
        .add_method(method(
            a,
            "([Ljava/lang/String;)V",
            vec![0x01, 0x4c, 0x2b, 0xbe, 0x57, 0xb1],
            2,
            1,
        ))
        .unwrap();
    let out = vm.call_static(main, &vec![Slot::Null], 1000);
    let ex = match out {
        RunOutcome::Uncaught(o) => o,
        other => panic!("unexpected {:?}", other),
    };
    assert_eq!(class_of(&vm, ex), NULL_POINTER_EXCEPTION);
    let mut mt = JavaMainThread::new("A".to_string(), None);
    assert_eq!(
        mt.run(&mut vm.thread, MainEvent::MainReturned { dispatch_found: false }),
        MainAction::Report { ex }
    );
    assert_eq!(mt.run(&mut vm.thread, MainEvent::Reported), MainAction::Exit(1));
}

#[test]
fn caught_exception_returns_7_and_clears() {
    let mut vm = Vm::new(1, 100);
    let a = vm.add_class("T".to_string(), Some(OBJECT), None).unwrap();
    let mut g = method(
        a,
        "()I",
        vec![0xbb, 0, RUNTIME_EXCEPTION as u8, 0xbf, 0x57, 0x10, 7, 0xac],
        1,
        1,
    );
    g.ex_table = vec![ExEntry { start_pc: 0, end_pc: 4, handler_pc: 4, catch_type: Some(EXCEPTION) }];
    let g = vm.add_method(g).unwrap();
    let caller = vm.add_method(method(a, "()I", vec![0xb8, 0, g as u8, 0xac], 0, 1)).unwrap();
    assert_eq!(vm.call_static(caller, &vec![], 1000), RunOutcome::Returned(Some(Slot::Int(7))));
    assert!(!vm.thread.is_meet_ex());
}

#[test]
fn failing_clinit_then_no_class_def() {
    let mut vm = Vm::new(1, 100);
    let m_class = vm.add_class("T".to_string(), Some(OBJECT), None).unwrap();
    let clinit = vm
        .add_method(method(1, "()V", vec![0xbb, 0, RUNTIME_EXCEPTION as u8, 0xbf], 0, 1))
        .unwrap();
    let c = vm.add_class("T".to_string(), Some(OBJECT), Some(clinit)).unwrap();
    vm.methods[clinit].class = c;
    let m = vm.add_method(method(c, "()V", vec![0xb1], 0, 1)).unwrap();
    let main = vm
        .add_method(method(m_class, "()V", vec![0xb8, 0, m as u8, 0xb1], 0, 1))
        .unwrap();
    let first = match vm.call_static(main, &vec![], 1000) {
        RunOutcome::Uncaught(o) => o,
        other => panic!("unexpected {:?}", other),
    };
    assert_eq!(class_of(&vm, first), EXCEPTION_IN_INITIALIZER_ERROR);
    assert_eq!(vm.classes.classes[c].state, InitState::Error);
    vm.thread.take_ex();
    let second = match vm.call_static(main, &vec![], 1000) {
        RunOutcome::Uncaught(o) => o,
        other => panic!("unexpected {:?}", other),
    };
    assert_eq!(class_of(&vm, second), NO_CLASS_DEF_FOUND_ERROR);
}

#[test]
fn clinit_runs_once_before_first_use() {
    let mut vm = Vm::new(1, 100);
    let m_class = vm.add_class("T".to_string(), Some(OBJECT), None).unwrap();
    let clinit = vm.add_method(method(m_class, "()V", vec![0xb1], 0, 1)).unwrap();
    let d = vm.add_class("T".to_string(), Some(OBJECT), Some(clinit)).unwrap();
    vm.methods[clinit].class = d;
    let x = vm.add_method(method(d, "()I", vec![0x04, 0xac], 0, 1)).unwrap();
    let main = vm
        .add_method(method(
            m_class,
            "()I",
            vec![0xb8, 0, x as u8, 0xb8, 0, x as u8, 0x60, 0xac],
            0,
            2,
        ))
        .unwrap();
    assert_eq!(vm.call_static(main, &vec![], 1000), RunOutcome::Returned(Some(Slot::Int(2))));
    assert_eq!(vm.classes.classes[d].state, InitState::Initialized);
    assert!(vm.inits.is_empty());
}

fn fib_vm(max_depth: usize) -> (Vm, usize) {
    let mut vm = Vm::new(1, max_depth);
    let f = vm.add_class("T".to_string(), Some(OBJECT), None).unwrap();
    let me = 0u8;
    let code = vec![
        0x1a, 0x05, 0xa2, 0x00, 0x05, 0x1a, 0xac, 0x1a, 0x04, 0x64, 0xb8, 0x00, me, 0x1a, 0x05,
        0x64, 0xb8, 0x00, me, 0x60, 0xac,
    ];
    let fib = vm.add_method(method(f, "(I)I", code, 1, 3)).unwrap();
    assert_eq!(fib, 0);
    (vm, fib)
}

#[test]
fn recursive_fib_of_10_is_55() {
    let (mut vm, fib) = fib_vm(1000);
    assert_eq!(
        vm.call_static(fib, &vec![Slot::Int(10)], 1_000_000),
        RunOutcome::Returned(Some(Slot::Int(55)))
    );
}

#[test]
fn deep_recursion_raises_stack_overflow_error() {
    let (mut vm, fib) = fib_vm(1000);
    let ex = match vm.call_static(fib, &vec![Slot::Int(100_000)], 1_000_000) {
        RunOutcome::Uncaught(o) => o,
        other => panic!("unexpected {:?}", other),
    };
    assert_eq!(class_of(&vm, ex), STACK_OVERFLOW_ERROR);
    assert!(vm.thread.frames.is_empty());
}

#[test]
fn division_by_zero_and_negative_array() {
    let mut vm = Vm::new(1, 100);
    let a = vm.add_class("T".to_string(), Some(OBJECT), None).unwrap();
    let div = vm.add_method(method(a, "()I", vec![0x04, 0x03, 0x6c, 0xac], 0, 2)).unwrap();
    match vm.call_static(div, &vec![], 100) {
        RunOutcome::Uncaught(o) => assert_eq!(class_of(&vm, o), ARITHMETIC_EXCEPTION),
        other => panic!("unexpected {:?}", other),
    }
    vm.thread.take_ex();
    let neg = vm.add_method(method(a, "()I", vec![0x02, 0xbc, 10, 0xbe, 0xac], 0, 1)).unwrap();
    match vm.call_static(neg, &vec![], 100) {
        RunOutcome::Uncaught(o) => assert_eq!(class_of(&vm, o), NEGATIVE_ARRAY_SIZE_EXCEPTION),
        other => panic!("unexpected {:?}", other),
    }
    vm.thread.take_ex();
    let len = vm.add_method(method(a, "()I", vec![0x08, 0xbc, 10, 0xbe, 0xac], 0, 1)).unwrap();
    assert_eq!(vm.call_static(len, &vec![], 100), RunOutcome::Returned(Some(Slot::Int(5))));
}

#[test]
fn out_of_fuel_keeps_frames() {
    let mut vm = Vm::new(1, 100);
    let a = vm.add_class("T".to_string(), Some(OBJECT), None).unwrap();
    let spin = vm.add_method(method(a, "()V", vec![0xa7, 0x00, 0x00], 0, 1)).unwrap();
    assert_eq!(vm.call_static(spin, &vec![], 50), RunOutcome::OutOfFuel);
    assert_eq!(vm.thread.frames.len(), 1);
}

#[test]
fn native_initialize_is_called_through_the_bridge() {
    let mut vm = Vm::new(1, 100);
    let a = vm.add_class("T".to_string(), Some(OBJECT), None).unwrap();
    let mut init = method(a, "()V", vec![], 0, 1);
    init.native = Some(NativeHandler::VmInitialize);
    let init = vm.add_method(init).unwrap();
    let main = vm
        .add_method(method(a, "()I", vec![0xb8, 0, init as u8, 0x08, 0xac], 0, 1))
        .unwrap();
    assert_eq!(vm.call_static(main, &vec![], 100), RunOutcome::Returned(Some(Slot::Int(5))));
}

#[test]
fn synchronized_method_releases_monitor_on_throw() {
    let mut vm = Vm::new(1, 100);
    let a = vm.add_class("T".to_string(), Some(OBJECT), None).unwrap();
    let mut thrower = method(a, "()V", vec![0xbb, 0, RUNTIME_EXCEPTION as u8, 0xbf], 0, 1);
    thrower.is_synchronized = true;
    let thrower = vm.add_method(thrower).unwrap();
    let mut caller = method(a, "()I", vec![0xb8, 0, thrower as u8, 0x57, 0x06, 0xac], 0, 1);
    caller.ex_table = vec![ExEntry { start_pc: 0, end_pc: 3, handler_pc: 3, catch_type: None }];
    let caller = vm.add_method(caller).unwrap();
    assert_eq!(vm.call_static(caller, &vec![], 100), RunOutcome::Returned(Some(Slot::Int(3))));
    assert!(vm.thread.held.is_empty());
}

#[test]
fn synchronized_method_takes_class_mirror() {
    let mut vm = Vm::new(1, 100);
    let a = vm.add_class("T".to_string(), Some(OBJECT), None).unwrap();
    let mut s = method(a, "()I", vec![0x05, 0xac], 0, 1);
    s.is_synchronized = true;
    let s = vm.add_method(s).unwrap();
    let caller = vm.add_method(method(a, "()I", vec![0xb8, 0, s as u8, 0xac], 0, 1)).unwrap();
    let outer = vm.add_method(method(a, "()I", vec![0xb8, 0, caller as u8, 0xac], 0, 1)).unwrap();
    vm.thread.push_frame(jvm::frame::Frame::new(outer, 0, 1), 100).unwrap();
    vm.step().unwrap();
    vm.step().unwrap();
    assert_eq!(vm.thread.frames.len(), 3);
    assert_eq!(vm.thread.held, vec![vm.mirrors[a]]);
    vm.step().unwrap();
    vm.step().unwrap();
    assert_eq!(vm.thread.frames.len(), 2);
    assert!(vm.thread.held.is_empty());
    assert_eq!(vm.thread.frames[1].stack, vec![Slot::Int(2)]);
    assert_eq!(vm.thread.frames[1].pc, 3);
}

#[test]
fn engine_runs_shifts_and_long_arithmetic() {
    let mut vm = Vm::new(1, 100);
    let a = vm.add_class("A".to_string(), Some(OBJECT), None).unwrap();
    let mixed = vm
        .add_method(method(a, "()I", vec![0x04, 0x10, 33, 0x78, 0x85, 0x06, 0x85, 0x61, 0x88, 0xac], 0, 4))
        .unwrap();
    assert_eq!(vm.call_static(mixed, &vec![], 100), RunOutcome::Returned(Some(Slot::Int(5))));
    let shr = vm
        .add_method(method(a, "()I", vec![0x02, 0x85, 0x10, 60, 0x7d, 0x88, 0xac], 0, 3))
        .unwrap();
    assert_eq!(vm.call_static(shr, &vec![], 100), RunOutcome::Returned(Some(Slot::Int(15))));
    let long = vm.add_method(method(a, "()J", vec![0x04, 0x85, 0xad], 0, 2)).unwrap();
    assert_eq!(vm.call_static(long, &vec![], 100), RunOutcome::Returned(Some(Slot::Long(1))));
    let ldiv0 = vm
        .add_method(method(a, "()J", vec![0x04, 0x85, 0x03, 0x85, 0x6d, 0xad], 0, 4))
        .unwrap();
    match vm.call_static(ldiv0, &vec![], 100) {
        RunOutcome::Uncaught(o) => assert_eq!(class_of(&vm, o), ARITHMETIC_EXCEPTION),
        other => panic!("unexpected {:?}", other),
    }
}

#[test]
fn long_return_takes_two_cells_in_caller() {
    let mut vm = Vm::new(1, 100);
    let a = vm.add_class("A".to_string(), Some(OBJECT), None).unwrap();
    let long = vm.add_method(method(a, "()J", vec![0x04, 0x85, 0xad], 0, 2)).unwrap();
    let caller = vm
        .add_method(method(a, "()I", vec![0xb8, 0, long as u8, 0x88, 0xac], 0, 2))
        .unwrap();
    assert_eq!(vm.call_static(caller, &vec![], 100), RunOutcome::Returned(Some(Slot::Int(1))));
}

#[test]
fn empty_static_method_with_no_stack_runs() {
    let mut vm = Vm::new(1, 100);
    let c = vm.add_class("C".to_string(), Some(OBJECT), None).unwrap();
    let m = vm.add_method(method(c, "()V", vec![0xb1], 0, 0)).unwrap();
    assert_eq!(vm.call_static(m, &vec![], 10), RunOutcome::Returned(None));
    let mut bad = method(c, "()V", vec![0xb1], 0, 0);
    bad.ex_table = vec![ExEntry { start_pc: 0, end_pc: 1, handler_pc: 0, catch_type: None }];
    assert_eq!(vm.add_method(bad), None);
}

#[test]
fn methods_and_classes_are_found_by_name() {
    let mut vm = Vm::new(1, 100);
    let c = vm.add_class("Main".to_string(), Some(OBJECT), None).unwrap();
    let mut main = method(c, "([Ljava/lang/String;)V", vec![0xb1], 1, 0);
    main.name = b"main".to_vec();
    let other = vm.add_method(method(c, "()V", vec![0xb1], 0, 0)).unwrap();
    let main = vm.add_method(main).unwrap();
    assert_eq!(vm.find_class(&"Main".to_string()), Some(c));
    assert_eq!(vm.find_class(&"Nope".to_string()), None);
    assert_eq!(
        vm.find_method(c, &b"main".to_vec(), &b"([Ljava/lang/String;)V".to_vec()),
        Some(main)
    );
    assert_eq!(vm.find_method(c, &b"m".to_vec(), &b"()V".to_vec()), Some(other));
    assert_eq!(vm.find_method(c, &b"main".to_vec(), &b"()V".to_vec()), None);
}
