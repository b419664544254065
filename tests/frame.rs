use jvm::frame::{Frame, FrameError};
use jvm::value::{OopRef, Slot};

#[test]
fn new_frame_has_null_locals_and_empty_stack() {
    let f = Frame::new(3, 2, 4);
    assert_eq!(f.locals, vec![Slot::Null, Slot::Null]);
    assert_eq!(f.depth(), 0);
    assert_eq!(f.pc, 0);
    assert_eq!(f.method, 3);
}

#[test]
fn push_beyond_max_stack_overflows() {
    let mut f = Frame::new(0, 0, 1);
    assert_eq!(f.push(Slot::Int(1)), Ok(()));
    assert_eq!(f.push(Slot::Int(2)), Err(FrameError::StackOverflow));
    assert_eq!(f.stack, vec![Slot::Int(1)]);
    assert_eq!(f.pop(), Ok(Slot::Int(1)));
    assert_eq!(f.pop(), Err(FrameError::StackUnderflow));
}

#[test]
fn load_and_store_check_bounds() {
    let mut f = Frame::new(0, 2, 0);
    assert_eq!(f.store(1, Slot::Long(9)), Ok(()));
    assert_eq!(f.load(1), Ok(Slot::Long(9)));
    assert_eq!(f.load(2), Err(FrameError::LocalOutOfRange));
    assert_eq!(f.store(2, Slot::Int(0)), Err(FrameError::LocalOutOfRange));
}

#[test]
fn dup_then_pop_leaves_stack_unchanged() {
    let mut f = Frame::new(0, 0, 3);
    f.push(Slot::Int(7)).unwrap();
    f.push(Slot::Ref(OopRef { handle: 2 })).unwrap();
    let before = f.stack.clone();
    assert_eq!(f.dup(), Ok(()));
    assert_eq!(f.depth(), 3);
    assert_eq!(f.pop(), Ok(Slot::Ref(OopRef { handle: 2 })));
    assert_eq!(f.stack, before);
    assert_eq!(Frame::new(0, 0, 1).dup(), Err(FrameError::StackUnderflow));
}

#[test]
fn swap_twice_is_identity() {
    let mut f = Frame::new(0, 0, 2);
    f.push(Slot::Int(1)).unwrap();
    f.push(Slot::Int(2)).unwrap();
    f.swap().unwrap();
    assert_eq!(f.stack, vec![Slot::Int(2), Slot::Int(1)]);
    f.swap().unwrap();
    assert_eq!(f.stack, vec![Slot::Int(1), Slot::Int(2)]);
}

#[test]
fn dup_on_full_stack_overflows() {
    let mut f = Frame::new(0, 0, 1);
    f.push(Slot::Int(1)).unwrap();
    assert_eq!(f.dup(), Err(FrameError::StackOverflow));
    assert_eq!(f.stack, vec![Slot::Int(1)]);
}
