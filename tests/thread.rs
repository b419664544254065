use jvm::class::ClassTable;
use jvm::descriptor::MethodSignature;
use jvm::frame::Frame;
use jvm::main_thread::{JavaMainThread, MainAction, MainEvent};
use jvm::method::{find_handler, ExEntry, Method, ReturnKind};
use jvm::thread::{InvokeError, JavaThread};
use jvm::value::{JavaException, OopRef, Slot};

fn method(ex_table: Vec<ExEntry>, is_synchronized: bool) -> Method {
    Method {
        class: 0,
        name: b"m".to_vec(),
        descriptor: b"()V".to_vec(),
        code: vec![],
        max_locals: 2,
        max_stack: 2,
        ex_table,
        is_static: true,
        is_synchronized,
        native: None,
    }
}

fn hierarchy() -> (ClassTable, usize, usize, usize, usize) {
    let mut t = ClassTable::new();
    let object = t.add_class(None);
    let throwable = t.add_class(Some(object));
    let exception = t.add_class(Some(throwable));
    let runtime = t.add_class(Some(exception));
    let io = t.add_class(Some(exception));
    (t, object, exception, runtime, io)
}

#[test]
fn exception_register() {
    let mut jt = JavaThread::new();
    assert!(!jt.is_meet_ex());
    jt.set_ex(OopRef { handle: 4 });
    assert!(jt.is_meet_ex());
    assert_eq!(jt.take_ex(), Some(OopRef { handle: 4 }));
    assert!(!jt.is_meet_ex());
    assert_eq!(jt.take_ex(), None);
    jt.set_java_thread_obj(OopRef { handle: 1 });
    assert_eq!(jt.java_thread_obj, Some(OopRef { handle: 1 }));
}

#[test]
fn first_matching_entry_wins() {
    let (classes, _, exception, runtime, io) = hierarchy();
    let table = vec![
        ExEntry { start_pc: 0, end_pc: 4, handler_pc: 10, catch_type: Some(io) },
        ExEntry { start_pc: 0, end_pc: 4, handler_pc: 20, catch_type: Some(exception) },
        ExEntry { start_pc: 0, end_pc: 4, handler_pc: 30, catch_type: None },
    ];
    assert_eq!(find_handler(&table, 2, runtime, &classes), Some(1));
    assert_eq!(find_handler(&table, 2, io, &classes), Some(0));
    assert_eq!(find_handler(&table, 4, runtime, &classes), None);
}

#[test]
fn catch_in_caller_after_unwinding_callee() {
    let (classes, _, exception, runtime, _) = hierarchy();
    let methods = vec![
        method(vec![ExEntry { start_pc: 0, end_pc: 5, handler_pc: 9, catch_type: Some(exception) }], false),
        method(vec![], true),
    ];
    let mut jt = JavaThread::new();
    let mut caller = Frame::new(0, 2, 2);
    caller.pc = 3;
    caller.push(Slot::Int(1)).unwrap();
    jt.push_frame(caller, 10).unwrap();
    let mut callee = Frame::new(1, 2, 2);
    callee.monitor = Some(OopRef { handle: 7 });
    jt.push_frame(callee, 10).unwrap();
    assert_eq!(jt.held, vec![OopRef { handle: 7 }]);
    let x = OopRef { handle: 42 };
    jt.set_ex(x);
    assert!(jt.unwind(runtime, &methods, &classes));
    assert_eq!(jt.frames.len(), 1);
    assert_eq!(jt.frames[0].pc, 9);
    assert_eq!(jt.frames[0].stack, vec![Slot::Ref(x)]);
    assert!(!jt.is_meet_ex());
    assert!(jt.held.is_empty());
}

#[test]
fn uncaught_exception_empties_the_stack() {
    let (classes, _, _, runtime, io) = hierarchy();
    let methods = vec![method(
        vec![ExEntry { start_pc: 0, end_pc: 5, handler_pc: 9, catch_type: Some(io) }],
        false,
    )];
    let mut jt = JavaThread::new();
    jt.push_frame(Frame::new(0, 2, 2), 10).unwrap();
    jt.set_ex(OopRef { handle: 3 });
    assert!(!jt.unwind(runtime, &methods, &classes));
    assert!(jt.frames.is_empty());
    assert_eq!(jt.take_ex(), Some(OopRef { handle: 3 }));
}

#[test]
fn return_pushes_value_and_advances_caller() {
    let mut jt = JavaThread::new();
    let mut caller = Frame::new(0, 1, 3);
    caller.pc = 5;
    caller.push(Slot::Int(9)).unwrap();
    jt.push_frame(caller, 10).unwrap();
    jt.push_frame(Frame::new(1, 0, 1), 10).unwrap();
    jt.return_from_method(Some(Slot::Long(42)), 3).unwrap();
    assert_eq!(jt.frames.len(), 1);
    assert_eq!(jt.frames[0].stack, vec![Slot::Int(9), Slot::Long(42), Slot::Second]);
    assert_eq!(jt.frames[0].pc, 8);
}

#[test]
fn invoke_moves_arguments_into_locals() {
    let mut jt = JavaThread::new();
    let mut caller = Frame::new(0, 0, 4);
    caller.push(Slot::Int(1)).unwrap();
    caller.push(Slot::Ref(OopRef { handle: 5 })).unwrap();
    caller.push(Slot::Int(2)).unwrap();
    jt.push_frame(caller, 10).unwrap();
    let mut m = method(vec![], true);
    m.is_static = false;
    m.max_locals = 3;
    let sig = MethodSignature { arg_slots: 1, ret: ReturnKind::Void };
    jt.invoke(1, &m, sig, OopRef { handle: 0 }, 10).unwrap();
    assert_eq!(jt.frames.len(), 2);
    assert_eq!(jt.frames[0].stack, vec![Slot::Int(1)]);
    assert_eq!(
        jt.frames[1].locals,
        vec![Slot::Ref(OopRef { handle: 5 }), Slot::Int(2), Slot::Null]
    );
    assert_eq!(jt.frames[1].monitor, Some(OopRef { handle: 5 }));
    assert_eq!(jt.held, vec![OopRef { handle: 5 }]);
    jt.return_from_method(None, 3).unwrap();
    assert!(jt.held.is_empty());
}

#[test]
fn invoke_errors() {
    let mut jt = JavaThread::new();
    let mut caller = Frame::new(0, 0, 2);
    caller.push(Slot::Null).unwrap();
    jt.push_frame(caller, 1).unwrap();
    let mut m = method(vec![], false);
    m.is_static = false;
    let sig = MethodSignature { arg_slots: 0, ret: ReturnKind::Void };
    assert_eq!(
        jt.invoke(1, &m, sig, OopRef { handle: 0 }, 10),
        Err(InvokeError::Throw(JavaException::NullPointer))
    );
    m.is_static = true;
    assert_eq!(
        jt.invoke(1, &m, sig, OopRef { handle: 0 }, 1),
        Err(InvokeError::Throw(JavaException::StackOverflowError))
    );
    let two = MethodSignature { arg_slots: 2, ret: ReturnKind::Void };
    assert_eq!(
        jt.invoke(1, &m, two, OopRef { handle: 0 }, 10),
        Err(InvokeError::Vm(jvm::frame::FrameError::StackUnderflow))
    );
    assert_eq!(jt.push_frame(Frame::new(0, 0, 0), 1), Err(JavaException::StackOverflowError));
}

#[test]
fn main_thread_normal_exit() {
    let mut mt = JavaMainThread::new("A".to_string(), None);
    let mut jt = JavaThread::new();
    assert_eq!(mt.run(&mut jt, MainEvent::Started), MainAction::InitializeVm);
    assert_eq!(mt.run(&mut jt, MainEvent::VmInitialized), MainAction::InvokeMain);
    assert_eq!(
        mt.run(&mut jt, MainEvent::MainReturned { dispatch_found: true }),
        MainAction::Exit(0)
    );
    let mut vm = jvm::interp::Vm::new(1, 10);
    let stack = mt.build_stack(&mut vm).unwrap();
    assert_eq!(stack.len(), 1);
    let arr = match stack[0] {
        Slot::Ref(o) => o,
        other => panic!("unexpected {:?}", other),
    };
    let obj = &vm.heap[arr.handle as usize];
    assert_eq!(obj.class, jvm::interp::STRING_ARRAY);
    assert_eq!(obj.elems, vec![Slot::Null]);
}

#[test]
fn main_thread_dispatches_uncaught_once() {
    let mut mt = JavaMainThread::new("A".to_string(), Some(vec!["x".to_string()]));
    let mut jt = JavaThread::new();
    let obj = OopRef { handle: 1 };
    let ex = OopRef { handle: 2 };
    jt.set_java_thread_obj(obj);
    jt.set_ex(ex);
    assert_eq!(
        mt.run(&mut jt, MainEvent::MainReturned { dispatch_found: true }),
        MainAction::CallDispatch { thread_obj: obj, ex }
    );
    assert!(!jt.is_meet_ex());
    jt.set_ex(ex);
    assert_eq!(mt.run(&mut jt, MainEvent::DispatchReturned), MainAction::Report { ex });
    assert_eq!(mt.run(&mut jt, MainEvent::Reported), MainAction::Exit(1));
    jt.set_ex(ex);
    assert_eq!(mt.uncaught_ex(&mut jt, true), MainAction::Report { ex });
}

#[test]
fn build_stack_holds_the_arguments_as_strings() {
    let mt = JavaMainThread::new("A".to_string(), Some(vec!["a".to_string(), "bc".to_string()]));
    let mut vm = jvm::interp::Vm::new(1, 10);
    let stack = mt.build_stack(&mut vm).unwrap();
    let arr = match stack[..] {
        [Slot::Ref(o)] => o,
        _ => panic!("unexpected {:?}", stack),
    };
    let elems = vm.heap[arr.handle as usize].elems.clone();
    assert_eq!(elems.len(), 2);
    let texts: Vec<Option<String>> = elems
        .iter()
        .map(|e| match e {
            Slot::Ref(o) => vm.heap[o.handle as usize].text.clone(),
            _ => None,
        })
        .collect();
    assert_eq!(texts, vec![Some("a".to_string()), Some("bc".to_string())]);
}

#[test]
fn describe_gives_class_name_and_detail_message() {
    let mut vm = jvm::interp::Vm::new(1, 10);
    let msg = vm.new_string("x".to_string()).unwrap();
    let ex = vm.new_instance(jvm::interp::RUNTIME_EXCEPTION, vec![Slot::Ref(msg)]).unwrap();
    assert_eq!(
        vm.describe(ex),
        Some(("java/lang/RuntimeException".to_string(), Some("x".to_string())))
    );
    let bare = vm.new_instance(jvm::interp::NULL_POINTER_EXCEPTION, vec![]).unwrap();
    assert_eq!(vm.describe(bare), Some(("java/lang/NullPointerException".to_string(), None)));
    assert_eq!(vm.describe(OopRef { handle: 9999 }), None);
}

#[test]
fn main_thread_reports_without_thread_object() {
    let mut mt = JavaMainThread::new("A".to_string(), None);
    let mut jt = JavaThread::new();
    jt.set_ex(OopRef { handle: 2 });
    assert_eq!(
        mt.run(&mut jt, MainEvent::MainReturned { dispatch_found: true }),
        MainAction::Report { ex: OopRef { handle: 2 } }
    );
    assert_eq!(mt.run(&mut jt, MainEvent::DispatchReturned), MainAction::Exit(1));
}
