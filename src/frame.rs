use vstd::prelude::*;
use crate::value::{OopRef, Slot};

verus! {

/// Failures of the frame's bounds: bugs of the code being run, not
/// exceptions that Java code can see.
#[derive(Clone, Copy, Debug, PartialEq, Eq, Structural)]
pub enum FrameError {
    StackOverflow,
    StackUnderflow,
    LocalOutOfRange,
}

/// One activation of one method.
pub struct Frame {
    /// Index of the method being run in the method area.
    pub method: usize,
    pub locals: Vec<Slot>,
    pub stack: Vec<Slot>,
    pub max_locals: usize,
    pub max_stack: usize,
    pub pc: usize,
    /// The monitor taken on entry, for a `synchronized` method.
    pub monitor: Option<OopRef>,
}

/// The operand stack after `dup`.
pub open spec fn dup_spec(s: Seq<Slot>) -> Seq<Slot> {
    s.push(s.last())
}

/// The operand stack after `pop`.
pub open spec fn pop_spec(s: Seq<Slot>) -> Seq<Slot> {
    s.drop_last()
}

/// The operand stack after `swap`.
pub open spec fn swap_spec(s: Seq<Slot>) -> Seq<Slot> {
    s.drop_last().drop_last().push(s.last()).push(s[s.len() - 2])
}

impl Frame {
    /// The stack stays within `max_stack` and the locals have `max_locals`
    /// cells.
    pub open spec fn wf(&self) -> bool {
        &&& self.locals@.len() == self.max_locals
        &&& self.stack@.len() <= self.max_stack
    }

    /// A fresh frame: empty stack, `max_locals` null locals, `pc` at 0.
    pub fn new(method: usize, max_locals: usize, max_stack: usize) -> (f: Frame)
        ensures
            f.wf(),
            f.method == method,
            f.max_locals == max_locals,
            f.max_stack == max_stack,
            f.stack@ == Seq::<Slot>::empty(),
            f.locals@ == Seq::new(max_locals as nat, |i: int| Slot::Null),
            f.pc == 0,
            f.monitor is None,
    {
        let mut locals: Vec<Slot> = Vec::new();
        let mut i: usize = 0;
        while i < max_locals
            invariant
                i <= max_locals,
                locals@ == Seq::new(i as nat, |k: int| Slot::Null),
            decreases max_locals - i,
        {
            locals.push(Slot::Null);
            i = i + 1;
            assert(locals@ =~= Seq::new(i as nat, |k: int| Slot::Null));
        }
        Frame { method, locals, stack: Vec::new(), max_locals, max_stack, pc: 0, monitor: None }
    }

    pub fn depth(&self) -> (r: usize)
        ensures
            r == self.stack@.len(),
    {
        self.stack.len()
    }

    /// Pushes one cell; `StackOverflow` when the stack is full.
    pub fn push(&mut self, v: Slot) -> (r: Result<(), FrameError>)
        requires
            old(self).wf(),
        ensures
            final(self).wf(),
            final(self).locals == old(self).locals,
            final(self).max_locals == old(self).max_locals,
            final(self).max_stack == old(self).max_stack,
            final(self).pc == old(self).pc,
            final(self).method == old(self).method,
            final(self).monitor == old(self).monitor,
            old(self).stack@.len() < old(self).max_stack ==> r is Ok && final(self).stack@
                == old(self).stack@.push(v),
            old(self).stack@.len() >= old(self).max_stack ==> r == Err::<(), FrameError>(
                FrameError::StackOverflow,
            ) && final(self).stack@ == old(self).stack@,
    {
        if self.stack.len() < self.max_stack {
            self.stack.push(v);
            Ok(())
        } else {
            Err(FrameError::StackOverflow)
        }
    }

    /// Pops the top cell; `StackUnderflow` on an empty stack.
    pub fn pop(&mut self) -> (r: Result<Slot, FrameError>)
        requires
            old(self).wf(),
        ensures
            final(self).wf(),
            final(self).locals == old(self).locals,
            final(self).max_locals == old(self).max_locals,
            final(self).max_stack == old(self).max_stack,
            final(self).pc == old(self).pc,
            final(self).method == old(self).method,
            final(self).monitor == old(self).monitor,
            old(self).stack@.len() > 0 ==> r == Ok::<Slot, FrameError>(old(self).stack@.last())
                && final(self).stack@ == pop_spec(old(self).stack@),
            old(self).stack@.len() == 0 ==> r == Err::<Slot, FrameError>(
                FrameError::StackUnderflow,
            ) && final(self).stack@ == old(self).stack@,
    {
        match self.stack.pop() {
            Some(v) => Ok(v),
            None => Err(FrameError::StackUnderflow),
        }
    }

    /// Reads local `i`.
    pub fn load(&self, i: usize) -> (r: Result<Slot, FrameError>)
        requires
            self.wf(),
        ensures
            i < self.max_locals ==> r == Ok::<Slot, FrameError>(self.locals@[i as int]),
            i >= self.max_locals ==> r == Err::<Slot, FrameError>(FrameError::LocalOutOfRange),
    {
        if i < self.locals.len() {
            Ok(self.locals[i])
        } else {
            Err(FrameError::LocalOutOfRange)
        }
    }

    /// Writes local `i`.
    pub fn store(&mut self, i: usize, v: Slot) -> (r: Result<(), FrameError>)
        requires
            old(self).wf(),
        ensures
            final(self).wf(),
            final(self).stack == old(self).stack,
            final(self).max_locals == old(self).max_locals,
            final(self).max_stack == old(self).max_stack,
            final(self).pc == old(self).pc,
            final(self).method == old(self).method,
            final(self).monitor == old(self).monitor,
            i < old(self).max_locals ==> r is Ok && final(self).locals@ == old(
                self,
            ).locals@.update(i as int, v),
            i >= old(self).max_locals ==> r == Err::<(), FrameError>(FrameError::LocalOutOfRange)
                && final(self).locals@ == old(self).locals@,
    {
        if i < self.locals.len() {
            self.locals.set(i, v);
            Ok(())
        } else {
            Err(FrameError::LocalOutOfRange)
        }
    }

    /// `dup`: copies the top cell.
    pub fn dup(&mut self) -> (r: Result<(), FrameError>)
        requires
            old(self).wf(),
        ensures
            final(self).wf(),
            final(self).locals == old(self).locals,
            final(self).max_locals == old(self).max_locals,
            final(self).max_stack == old(self).max_stack,
            final(self).pc == old(self).pc,
            final(self).method == old(self).method,
            final(self).monitor == old(self).monitor,
            old(self).stack@.len() == 0 ==> r == Err::<(), FrameError>(FrameError::StackUnderflow),
            old(self).stack@.len() > 0 && old(self).stack@.len() >= old(self).max_stack ==> r
                == Err::<(), FrameError>(FrameError::StackOverflow),
            r is Err ==> final(self).stack@ == old(self).stack@,
            0 < old(self).stack@.len() < old(self).max_stack ==> r is Ok && final(self).stack@
                == dup_spec(old(self).stack@),
    {
        let n = self.stack.len();
        if n == 0 {
            Err(FrameError::StackUnderflow)
        } else if n >= self.max_stack {
            Err(FrameError::StackOverflow)
        } else {
            let top = self.stack[n - 1];
            self.stack.push(top);
            Ok(())
        }
    }

    /// `swap`: exchanges the two top cells.
    pub fn swap(&mut self) -> (r: Result<(), FrameError>)
        requires
            old(self).wf(),
        ensures
            final(self).wf(),
            final(self).locals == old(self).locals,
            final(self).max_locals == old(self).max_locals,
            final(self).max_stack == old(self).max_stack,
            final(self).pc == old(self).pc,
            final(self).method == old(self).method,
            final(self).monitor == old(self).monitor,
            old(self).stack@.len() < 2 ==> r == Err::<(), FrameError>(FrameError::StackUnderflow)
                && final(self).stack@ == old(self).stack@,
            old(self).stack@.len() >= 2 ==> r is Ok && final(self).stack@ == swap_spec(
                old(self).stack@,
            ),
    {
        let n = self.stack.len();
        if n < 2 {
            Err(FrameError::StackUnderflow)
        } else {
            let a = self.stack[n - 1];
            let b = self.stack[n - 2];
            self.stack.set(n - 2, a);
            self.stack.set(n - 1, b);
            assert(self.stack@ =~= swap_spec(old(self).stack@));
            Ok(())
        }
    }
}

/// `dup` followed by `pop` leaves the operand stack as it was.
pub proof fn law_dup_then_pop(s: Seq<Slot>)
    requires
        s.len() > 0,
    ensures
        pop_spec(dup_spec(s)) == s,
{
    assert(pop_spec(dup_spec(s)) =~= s);
}

/// `swap` twice leaves the operand stack as it was.
pub proof fn law_swap_twice(s: Seq<Slot>)
    requires
        s.len() >= 2,
    ensures
        swap_spec(swap_spec(s)) == s,
{
    assert(swap_spec(swap_spec(s)) =~= s);
}

} // verus!
