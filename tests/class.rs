use jvm::class::{ClassTable, InitAction, InitOutcome, InitState};

#[test]
fn subclass_walks_superclasses() {
    let mut t = ClassTable::new();
    let object = t.add_class(None);
    let throwable = t.add_class(Some(object));
    let exception = t.add_class(Some(throwable));
    let runtime = t.add_class(Some(exception));
    let error = t.add_class(Some(throwable));
    assert!(t.subclass_of(runtime, exception));
    assert!(t.subclass_of(runtime, object));
    assert!(t.subclass_of(runtime, runtime));
    assert!(!t.subclass_of(runtime, error));
    assert!(!t.subclass_of(exception, runtime));
}

#[test]
fn clinit_runs_once_across_two_threads() {
    let mut t = ClassTable::new();
    let object = t.add_class(None);
    t.finish_init(object, true, false);
    let d = t.add_class(Some(object));
    let mut runs = 0;
    let a1 = t.begin_init(d, 1);
    if let InitAction::Run { .. } = a1 {
        runs += 1;
    }
    assert_eq!(a1, InitAction::Run { superclass: None });
    assert_eq!(t.begin_init(d, 2), InitAction::Wait);
    assert_eq!(t.begin_init(d, 1), InitAction::Ready);
    assert_eq!(t.finish_init(d, true, false), InitOutcome::Initialized);
    let a2 = t.begin_init(d, 2);
    if let InitAction::Run { .. } = a2 {
        runs += 1;
    }
    assert_eq!(a2, InitAction::Ready);
    assert_eq!(runs, 1);
    assert_eq!(t.classes[d].state, InitState::Initialized);
}

#[test]
fn failed_clinit_wraps_then_no_class_def() {
    let mut t = ClassTable::new();
    let object = t.add_class(None);
    let c = t.add_class(Some(object));
    assert_eq!(t.begin_init(c, 1), InitAction::Run { superclass: Some(object) });
    assert_eq!(t.finish_init(c, false, false), InitOutcome::WrapInInitializerError);
    assert_eq!(t.begin_init(c, 1), InitAction::NoClassDef);
    let e = t.add_class(Some(object));
    t.begin_init(e, 1);
    assert_eq!(t.finish_init(e, false, true), InitOutcome::Rethrow);
}
