use vstd::prelude::*;
use crate::class::ClassTable;
use crate::frame::{Frame, FrameError};
use crate::descriptor::MethodSignature;
use crate::method::{find_handler, is_first_match, no_match, Method};
use crate::value::{JavaException, OopRef, Slot};

verus! {

/// The monitors held by the `synchronized` activations of `fs`, oldest
/// first.
pub open spec fn monitors_of(fs: Seq<Frame>) -> Seq<OopRef>
    decreases fs.len(),
{
    if fs.len() == 0 {
        Seq::empty()
    } else {
        let rest = monitors_of(fs.drop_last());
        match fs.last().monitor {
            Some(m) => rest.push(m),
            None => rest,
        }
    }
}

/// The cells a return value takes on the caller's operand stack.
pub open spec fn return_cells(v: Option<Slot>) -> Seq<Slot> {
    match v {
        None => Seq::empty(),
        Some(s) => if s.is_category2() {
            seq![s, Slot::Second]
        } else {
            seq![s]
        },
    }
}

/// Why a call could not be made.
#[derive(Clone, Copy, Debug, PartialEq, Eq, Structural)]
pub enum InvokeError {
    /// A Java exception to raise in the caller.
    Throw(JavaException),
    /// Code that breaks the frame's bounds.
    Vm(FrameError),
}

/// The cells a call takes from the caller's stack: the parameters, and the
/// receiver unless the method is static.
pub open spec fn call_cells(sig: MethodSignature, is_static: bool) -> int {
    sig.arg_slots + if is_static { 0int } else { 1int }
}

/// Frame `f` has no handler for an exception of class `ex_class`.
pub open spec fn unhandled_in(f: Frame, methods: Seq<Method>, ex_class: int, classes: ClassTable) -> bool {
    no_match(methods[f.method as int].ex_table@, f.pc as int, ex_class, classes)
}

/// A Java thread: its frame stack (deepest call last), the exception being
/// raised, and the `java.lang.Thread` object that stands for it.
pub struct JavaThread {
    pub frames: Vec<Frame>,
    pub in_safe_point: bool,
    pub java_thread_obj: Option<OopRef>,
    pub ex: Option<OopRef>,
    /// Methods entered, for stack traces.
    pub callers: Vec<usize>,
    /// The monitors held by `synchronized` activations, oldest first.
    pub held: Vec<OopRef>,
}

impl JavaThread {
    /// The exception being raised, if any.
    pub open spec fn current_ex(&self) -> Option<OopRef> {
        self.ex
    }

    /// Every frame is well formed and the monitors held are those of the
    /// `synchronized` frames.
    pub open spec fn wf(&self) -> bool {
        &&& forall|i: int| 0 <= i < self.frames@.len() ==> (#[trigger] self.frames@[i]).wf()
        &&& self.held@ == monitors_of(self.frames@)
    }

    /// Every frame runs a method of `methods`.
    pub open spec fn runs_in(&self, methods: Seq<Method>) -> bool {
        forall|i: int| 0 <= i < self.frames@.len() ==> (#[trigger] self.frames@[i]).method < methods.len()
    }

    pub fn new() -> (r: JavaThread)
        ensures
            r.wf(),
            r.frames@.len() == 0,
            r.current_ex() is None,
            r.java_thread_obj is None,
            r.callers@.len() == 0,
            r.held@.len() == 0,
            !r.in_safe_point,
    {
        JavaThread {
            frames: Vec::new(),
            in_safe_point: false,
            java_thread_obj: None,
            ex: None,
            callers: Vec::new(),
            held: Vec::new(),
        }
    }

    pub fn set_java_thread_obj(&mut self, obj: OopRef)
        ensures
            final(self).java_thread_obj == Some(obj),
            final(self).frames == old(self).frames,
            final(self).held == old(self).held,
            final(self).callers == old(self).callers,
            final(self).current_ex() == old(self).current_ex(),
    {
        self.java_thread_obj = Some(obj);
    }

    /// Raises `ex` in this thread.
    pub fn set_ex(&mut self, ex: OopRef)
        ensures
            final(self).current_ex() == Some(ex),
            final(self).frames == old(self).frames,
            final(self).held == old(self).held,
            final(self).callers == old(self).callers,
            final(self).java_thread_obj == old(self).java_thread_obj,
    {
        self.ex = Some(ex);
    }

    /// Whether an exception is being raised.
    pub fn is_meet_ex(&self) -> (r: bool)
        ensures
            r == self.current_ex() is Some,
    {
        self.ex.is_some()
    }

    /// Takes the exception being raised, leaving none.
    pub fn take_ex(&mut self) -> (r: Option<OopRef>)
        ensures
            r == old(self).current_ex(),
            final(self).current_ex() is None,
            final(self).frames == old(self).frames,
            final(self).held == old(self).held,
            final(self).callers == old(self).callers,
            final(self).java_thread_obj == old(self).java_thread_obj,
            final(self).in_safe_point == old(self).in_safe_point,
    {
        self.ex.take()
    }

    /// Enters an activation: `StackOverflowError` when `max_depth` frames
    /// are live already. The monitor of a `synchronized` frame is taken.
    pub fn push_frame(&mut self, f: Frame, max_depth: usize) -> (r: Result<(), JavaException>)
        requires
            old(self).wf(),
            f.wf(),
        ensures
            final(self).wf(),
            final(self).current_ex() == old(self).current_ex(),
            final(self).java_thread_obj == old(self).java_thread_obj,
            old(self).frames@.len() < max_depth ==> r is Ok && final(self).frames@ == old(
                self,
            ).frames@.push(f) && final(self).callers@ == old(self).callers@.push(f.method),
            old(self).frames@.len() >= max_depth ==> r == Err::<(), JavaException>(
                JavaException::StackOverflowError,
            ) && final(self).frames@ == old(self).frames@ && final(self).callers == old(
                self,
            ).callers,
    {
        if self.frames.len() >= max_depth {
            return Err(JavaException::StackOverflowError);
        }
        let ghost fs = self.frames@;
        if let Some(m) = f.monitor {
            self.held.push(m);
        }
        self.callers.push(f.method);
        self.frames.push(f);
        assert(self.frames@.drop_last() =~= fs);
        Ok(())
    }

    /// Leaves the top activation, releasing its monitor.
    pub fn pop_frame(&mut self) -> (r: Option<Frame>)
        requires
            old(self).wf(),
        ensures
            final(self).wf(),
            final(self).current_ex() == old(self).current_ex(),
            final(self).java_thread_obj == old(self).java_thread_obj,
            final(self).callers == old(self).callers,
            old(self).frames@.len() == 0 ==> r is None && final(self).frames@ == old(self).frames@,
            old(self).frames@.len() > 0 ==> r == Some(old(self).frames@.last())
                && final(self).frames@ == old(self).frames@.drop_last(),
    {
        match self.frames.pop() {
            None => None,
            Some(f) => {
                proof {
                    assert(self.frames@ =~= old(self).frames@.drop_last());
                }
                proof {
                    assert(old(self).frames@.last() == f);
                    assert(monitors_of(old(self).frames@) == match f.monitor {
                        Some(m) => monitors_of(self.frames@).push(m),
                        None => monitors_of(self.frames@),
                    });
                }
                if f.monitor.is_some() {
                    self.held.pop();
                    proof {
                        assert(self.held@ =~= monitors_of(self.frames@));
                    }
                }
                Some(f)
            },
        }
    }

    /// Normal completion of the top activation with value `v`: the frame is
    /// left, `v` is pushed on the caller's stack (two cells for a long or a
    /// double) and the caller's `pc` moves past its invoke instruction of
    /// `invoke_len` bytes. With no caller the value is dropped.
    pub fn return_from_method(&mut self, v: Option<Slot>, invoke_len: usize) -> (r: Result<(), FrameError>)
        requires
            old(self).wf(),
            old(self).frames@.len() > 0,
        ensures
            final(self).wf(),
            final(self).current_ex() == old(self).current_ex(),
            old(self).frames@.len() == 1 ==> r is Ok && final(self).frames@.len() == 0,
            old(self).frames@.len() > 1 ==> {
                let caller = old(self).frames@[old(self).frames@.len() - 2];
                let n = old(self).frames@.len();
                if caller.stack@.len() + return_cells(v).len() <= caller.max_stack
                    && caller.pc + invoke_len <= usize::MAX {
                    &&& r is Ok
                    &&& final(self).frames@.len() == n - 1
                    &&& final(self).frames@.subrange(0, n - 2) == old(self).frames@.subrange(0, n - 2)
                    &&& final(self).frames@[n - 2].stack@ == caller.stack@ + return_cells(v)
                    &&& final(self).frames@[n - 2].pc == caller.pc + invoke_len
                    &&& final(self).frames@[n - 2].locals == caller.locals
                    &&& final(self).frames@[n - 2].method == caller.method
                    &&& final(self).frames@[n - 2].monitor == caller.monitor
                    &&& final(self).frames@[n - 2].max_stack == caller.max_stack
                    &&& final(self).frames@[n - 2].max_locals == caller.max_locals
                } else {
                    &&& r == Err::<(), FrameError>(FrameError::StackOverflow)
                    &&& final(self).frames@ == old(self).frames@.drop_last()
                }
            },
    {
        let _ = self.pop_frame();
        let ghost fs = self.frames@;
        match self.frames.pop() {
            None => Ok(()),
            Some(mut caller) => {
                assert(caller.wf());
                let need: usize = match v {
                    None => 0,
                    Some(s) => if s.category2() {
                        2
                    } else {
                        1
                    },
                };
                if need > caller.max_stack - caller.stack.len() || invoke_len > usize::MAX - caller.pc {
                    self.frames.push(caller);
                    assert(self.frames@ =~= fs);
                    return Err(FrameError::StackOverflow);
                }
                match v {
                    None => {},
                    Some(s) => {
                        caller.stack.push(s);
                        if s.category2() {
                            caller.stack.push(Slot::Second);
                        }
                    },
                }
                assert(caller.stack@ =~= fs.last().stack@ + return_cells(v));
                caller.pc = caller.pc + invoke_len;
                self.frames.push(caller);
                assert(self.frames@.drop_last() =~= fs.drop_last());
                assert(self.frames@.subrange(0, fs.len() - 1) =~= fs.subrange(0, fs.len() - 1));
                Ok(())
            },
        }
    }

    /// Pushes `f` back on top, holding its monitor again, without a depth
    /// check or a new entry in `callers`: for a frame just taken off.
    pub fn restore_frame(&mut self, f: Frame)
        requires
            old(self).wf(),
            f.wf(),
        ensures
            final(self).wf(),
            final(self).frames@ == old(self).frames@.push(f),
            final(self).current_ex() == old(self).current_ex(),
            final(self).java_thread_obj == old(self).java_thread_obj,
            final(self).callers == old(self).callers,
    {
        let ghost fs = self.frames@;
        if let Some(m) = f.monitor {
            self.held.push(m);
        }
        self.frames.push(f);
        assert(self.frames@.drop_last() =~= fs);
    }

    /// One step of unwinding the exception being raised, of class
    /// `ex_class`: when the first matching entry of the top frame's table
    /// exists, that frame's stack becomes the exception alone, its `pc` the
    /// entry's handler, and the exception is cleared (true); otherwise the
    /// top frame is left, its monitor released, and the exception stays
    /// (false).
    pub fn unwind_top(&mut self, ex_class: usize, methods: &Vec<Method>, classes: &ClassTable) -> (r: bool)
        requires
            old(self).wf(),
            old(self).runs_in(methods@),
            old(self).current_ex() is Some,
            old(self).frames@.len() > 0,
            methods@[old(self).frames@.last().method as int].ex_table@.len() > 0
                ==> old(self).frames@.last().max_stack >= 1,
            classes.wf(),
        ensures
            final(self).wf(),
            final(self).java_thread_obj == old(self).java_thread_obj,
            final(self).callers == old(self).callers,
            ({
                let n = old(self).frames@.len();
                let before = old(self).frames@[n - 1];
                let after = final(self).frames@[n - 1];
                let table = methods@[before.method as int].ex_table@;
                if r {
                    &&& final(self).frames@.len() == n
                    &&& final(self).frames@.subrange(0, n - 1) == old(self).frames@.subrange(0, n - 1)
                    &&& final(self).current_ex() is None
                    &&& after.stack@ == seq![Slot::Ref(old(self).current_ex()->Some_0)]
                    &&& exists|i: int|
                        is_first_match(table, i, before.pc as int, ex_class as int, *classes)
                            && after.pc == (#[trigger] table[i]).handler_pc
                    &&& after.method == before.method
                    &&& after.locals == before.locals
                    &&& after.max_stack == before.max_stack
                    &&& after.max_locals == before.max_locals
                    &&& after.monitor == before.monitor
                } else {
                    &&& unhandled_in(before, methods@, ex_class as int, *classes)
                    &&& final(self).frames@ == old(self).frames@.drop_last()
                    &&& final(self).current_ex() == old(self).current_ex()
                }
            }),
    {
        let ghost fs = self.frames@;
        let ex = match self.ex {
            Some(e) => e,
            None => {
                return false;
            },
        };
        let top = match self.pop_frame() {
            Some(f) => f,
            None => {
                return false;
            },
        };
        let table = &methods[top.method].ex_table;
        match find_handler(table, top.pc, ex_class, classes) {
            Some(i) => {
                let mut f = top;
                let mut st: Vec<Slot> = Vec::new();
                st.push(Slot::Ref(ex));
                f.stack = st;
                f.pc = table[i].handler_pc;
                self.restore_frame(f);
                self.ex = None;
                assert(self.frames@.subrange(0, fs.len() - 1) =~= fs.subrange(0, fs.len() - 1));
                assert(is_first_match(table@, i as int, fs.last().pc as int, ex_class as int, *classes)
                    && self.frames@[fs.len() - 1].pc == table@[i as int].handler_pc);
                true
            },
            None => false,
        }
    }

    /// Looks for a handler of the exception being raised, of class
    /// `ex_class`, from the top frame down. Frames without one are left and
    /// their monitors released. In the frame that has one, the first
    /// matching entry of its method's table wins: the operand stack becomes
    /// the exception alone, `pc` the entry's handler, and the exception is
    /// cleared. Returns false when every frame was left; the exception then
    /// stays raised. A frame whose method has handlers must have room for
    /// the exception on its operand stack.
    pub fn unwind(&mut self, ex_class: usize, methods: &Vec<Method>, classes: &ClassTable) -> (r: bool)
        requires
            old(self).wf(),
            old(self).runs_in(methods@),
            old(self).current_ex() is Some,
            classes.wf(),
            forall|i: int|
                0 <= i < old(self).frames@.len() && methods@[(#[trigger] old(self).frames@[i]).method as int].ex_table@.len()
                    > 0 ==> old(self).frames@[i].max_stack >= 1,
        ensures
            final(self).wf(),
            final(self).java_thread_obj == old(self).java_thread_obj,
            final(self).callers == old(self).callers,
            final(self).frames@.len() <= old(self).frames@.len(),
            forall|j: int|
                final(self).frames@.len() <= j < old(self).frames@.len() ==> unhandled_in(
                    #[trigger] old(self).frames@[j],
                    methods@,
                    ex_class as int,
                    *classes,
                ),
            !r ==> final(self).frames@.len() == 0 && final(self).current_ex() == old(self).current_ex(),
            r ==> {
                let k = final(self).frames@.len() - 1;
                let before = old(self).frames@[k];
                let after = final(self).frames@[k];
                let table = methods@[before.method as int].ex_table@;
                &&& k >= 0
                &&& final(self).frames@.subrange(0, k) == old(self).frames@.subrange(0, k)
                &&& final(self).current_ex() is None
                &&& after.stack@ == seq![Slot::Ref(old(self).current_ex()->Some_0)]
                &&& exists|i: int|
                    is_first_match(table, i, before.pc as int, ex_class as int, *classes)
                        && after.pc == (#[trigger] table[i]).handler_pc
                &&& after.method == before.method
                &&& after.locals == before.locals
                &&& after.max_stack == before.max_stack
                &&& after.max_locals == before.max_locals
                &&& after.monitor == before.monitor
            },
    {
        let ex = match self.ex {
            Some(e) => e,
            None => {
                return false;
            },
        };
        let ghost fs = self.frames@;
        loop
            invariant
                self.wf(),
                self.frames@ == fs.subrange(0, self.frames@.len() as int),
                self.frames@.len() <= fs.len(),
                fs == old(self).frames@,
                old(self).runs_in(methods@),
                forall|i: int|
                    0 <= i < fs.len() && methods@[(#[trigger] fs[i]).method as int].ex_table@.len() > 0
                        ==> fs[i].max_stack >= 1,
                classes.wf(),
                self.ex == Some(ex),
                old(self).current_ex() == Some(ex),
                self.java_thread_obj == old(self).java_thread_obj,
                self.callers == old(self).callers,
                forall|j: int|
                    self.frames@.len() <= j < fs.len() ==> unhandled_in(
                        #[trigger] fs[j],
                        methods@,
                        ex_class as int,
                        *classes,
                    ),
            decreases self.frames@.len(),
        {
            let ghost n = self.frames@.len();
            let top = match self.pop_frame() {
                Some(f) => f,
                None => {
                    return false;
                },
            };
            assert(top == fs[n - 1]);
            assert(self.frames@ =~= fs.subrange(0, n - 1));
            let m = top.method;
            let table = &methods[m].ex_table;
            match find_handler(table, top.pc, ex_class, classes) {
                Some(i) => {
                    let mut f = top;
                    let mut st: Vec<Slot> = Vec::new();
                    st.push(Slot::Ref(ex));
                    f.stack = st;
                    f.pc = table[i].handler_pc;
                    self.restore_frame(f);
                    self.ex = None;
                    assert(self.frames@.subrange(0, n - 1) =~= fs.subrange(0, n - 1));
                    assert(is_first_match(table@, i as int, fs[n - 1].pc as int, ex_class as int, *classes)
                        && self.frames@[n - 1].pc == table@[i as int].handler_pc);
                    return true;
                },
                None => {},
            }
        }
    }
}


impl JavaThread {
    /// Calls method `m` (number `mi` of the method area) from the top
    /// frame: the receiver, if any, and the parameters leave the caller's
    /// stack and become the first locals of a new frame, the other locals
    /// null. A `synchronized` method takes the monitor of its receiver, or
    /// of `mirror`, its class's mirror, when static. A null receiver raises
    /// `NullPointerException`; `max_depth` live frames, `StackOverflowError`.
    pub fn invoke(
        &mut self,
        mi: usize,
        m: &Method,
        sig: MethodSignature,
        mirror: OopRef,
        max_depth: usize,
    ) -> (r: Result<(), InvokeError>)
        requires
            old(self).wf(),
            old(self).frames@.len() > 0,
        ensures
            final(self).wf(),
            final(self).current_ex() == old(self).current_ex(),
            final(self).java_thread_obj == old(self).java_thread_obj,
            ({
                let n = call_cells(sig, m.is_static);
                let len = old(self).frames@.len();
                let caller = old(self).frames@[len - 1];
                let depth = caller.stack@.len();
                let args = caller.stack@.subrange(depth - n, depth as int);
                if n > depth {
                    r == Err::<(), InvokeError>(InvokeError::Vm(FrameError::StackUnderflow))
                        && final(self).frames@ == old(self).frames@
                } else if n > m.max_locals {
                    r == Err::<(), InvokeError>(InvokeError::Vm(FrameError::LocalOutOfRange))
                        && final(self).frames@ == old(self).frames@
                } else if !m.is_static && args[0] == Slot::Null {
                    r == Err::<(), InvokeError>(InvokeError::Throw(JavaException::NullPointer))
                        && final(self).frames@ == old(self).frames@
                } else if len >= max_depth {
                    r == Err::<(), InvokeError>(InvokeError::Throw(JavaException::StackOverflowError))
                        && final(self).frames@ == old(self).frames@
                } else {
                    let callee = final(self).frames@[len as int];
                    let caller_after = final(self).frames@[len - 1];
                    &&& r is Ok
                    &&& final(self).frames@.len() == len + 1
                    &&& final(self).frames@.subrange(0, len - 1) == old(self).frames@.subrange(0, len - 1)
                    &&& caller_after.stack@ == caller.stack@.subrange(0, depth - n)
                    &&& caller_after.pc == caller.pc
                    &&& caller_after.locals == caller.locals
                    &&& caller_after.method == caller.method
                    &&& caller_after.monitor == caller.monitor
                    &&& caller_after.max_stack == caller.max_stack
                    &&& callee.method == mi
                    &&& callee.pc == 0
                    &&& callee.stack@.len() == 0
                    &&& callee.max_locals == m.max_locals
                    &&& callee.max_stack == m.max_stack
                    &&& callee.locals@.subrange(0, n) == args
                    &&& forall|k: int| n <= k < m.max_locals ==> callee.locals@[k] == Slot::Null
                    &&& callee.monitor == if !m.is_synchronized {
                        None
                    } else if m.is_static {
                        Some(mirror)
                    } else {
                        match args[0] {
                            Slot::Ref(o) => Some(o),
                            _ => None,
                        }
                    }
                }
            }),
    {
        let ghost fs = self.frames@;
        let mut caller = match self.pop_frame() {
            Some(f) => f,
            None => {
                return Err(InvokeError::Vm(FrameError::StackUnderflow));
            },
        };
        let depth = caller.stack.len();
        let receiver: usize = if m.is_static { 0 } else { 1 };
        if sig.arg_slots > depth || receiver > depth - sig.arg_slots {
            self.restore_frame(caller);
            assert(self.frames@ =~= fs);
            return Err(InvokeError::Vm(FrameError::StackUnderflow));
        }
        let n = sig.arg_slots + receiver;
        if n > m.max_locals {
            self.restore_frame(caller);
            assert(self.frames@ =~= fs);
            return Err(InvokeError::Vm(FrameError::LocalOutOfRange));
        }
        let base = depth - n;
        let mut lock: Option<OopRef> = None;
        if !m.is_static {
            match caller.stack[base] {
                Slot::Null => {
                    self.restore_frame(caller);
                    assert(self.frames@ =~= fs);
                    return Err(InvokeError::Throw(JavaException::NullPointer));
                },
                Slot::Ref(o) => {
                    if m.is_synchronized {
                        lock = Some(o);
                    }
                },
                _ => {},
            }
        } else if m.is_synchronized {
            lock = Some(mirror);
        }
        if max_depth == 0 || self.frames.len() >= max_depth - 1 {
            self.restore_frame(caller);
            assert(self.frames@ =~= fs);
            return Err(InvokeError::Throw(JavaException::StackOverflowError));
        }
        let mut callee = Frame::new(mi, m.max_locals, m.max_stack);
        let mut k: usize = 0;
        while k < n
            invariant
                k <= n,
                base + n == depth,
                depth == caller.stack@.len(),
                n <= m.max_locals,
                callee.locals@.len() == m.max_locals,
                forall|j: int| 0 <= j < k ==> callee.locals@[j] == caller.stack@[base + j],
                forall|j: int| k <= j < m.max_locals ==> callee.locals@[j] == Slot::Null,
                callee.method == mi,
                callee.pc == 0,
                callee.stack@.len() == 0,
                callee.max_locals == m.max_locals,
                callee.max_stack == m.max_stack,
                callee.monitor is None,
            decreases n - k,
        {
            let v = caller.stack[base + k];
            callee.locals.set(k, v);
            k = k + 1;
        }
        let ghost before = caller.stack@;
        caller.stack.truncate(base);
        assert(caller.stack@ =~= before.subrange(0, base as int));
        assert(callee.locals@.subrange(0, n as int) =~= before.subrange(base as int, depth as int));
        callee.monitor = lock;
        self.restore_frame(caller);
        self.restore_frame(callee);
        assert(self.frames@.subrange(0, fs.len() - 1) =~= fs.subrange(0, fs.len() - 1));
        Ok(())
    }
}

/// What a return leaves on the caller's stack: nothing more after a void
/// return, one cell after an `int`, `float` or reference, and the value with
/// its `Second` cell after a `long` or `double`.
pub proof fn law_return_cells(s: Seq<Slot>, v: Option<Slot>)
    ensures
        v is None ==> s + return_cells(v) == s,
        v is Some && !v->Some_0.is_category2() ==> s + return_cells(v) == s.push(v->Some_0),
        v is Some && v->Some_0.is_category2() ==> s + return_cells(v) == s.push(v->Some_0).push(
            Slot::Second,
        ) && return_cells(v).len() == 2,
{
    assert(s + Seq::<Slot>::empty() =~= s);
    if let Some(x) = v {
        assert(s + seq![x] =~= s.push(x));
        assert(s + seq![x, Slot::Second] =~= s.push(x).push(Slot::Second));
    }
}

/// The monitors held after an activation is entered and then left, by a
/// return or by unwinding, are those held before it was entered: a
/// `synchronized` method releases on every exit what it took on entry.
pub proof fn law_monitors_balanced(fs: Seq<Frame>, f: Frame)
    ensures
        monitors_of(fs.push(f).drop_last()) == monitors_of(fs),
        f.monitor matches Some(m) ==> monitors_of(fs.push(f)) == monitors_of(fs).push(m),
        f.monitor is None ==> monitors_of(fs.push(f)) == monitors_of(fs),
{
    assert(fs.push(f).drop_last() =~= fs);
}

} // verus!
