use vstd::prelude::*;
use crate::class::{ClassInfo, ClassTable, InitAction, InitOutcome, InitState};
use crate::descriptor::parse_descriptor;
use crate::exec::{advance, exec_in_frame, exec_spec, push_value, Effect, VmFault};
use crate::frame::{Frame, FrameError};
use crate::method::{bytes_eq, is_first_match, Method};
use crate::native::{call_native, NativeHandler};
use crate::thread::{return_cells, unhandled_in, InvokeError, JavaThread};
use crate::value::{JavaException, OopRef, Slot};

verus! {

/// A heap object: its class, and its elements when it is an array.
pub struct Object {
    pub class: usize,
    pub is_array: bool,
    /// The elements of an array, or the fields of an instance.
    pub elems: Vec<Slot>,
    /// The characters of a `java.lang.String`.
    pub text: Option<String>,
}

/// How a run of the engine ended.
#[derive(Clone, Copy, Debug, PartialEq, Eq, Structural)]
pub enum RunOutcome {
    /// The entry method returned this value.
    Returned(Option<Slot>),
    /// This exception unwound past the entry method.
    Uncaught(OopRef),
    Fault(VmFault),
    /// The step budget ran out first.
    OutOfFuel,
}

/// The classes every engine starts with, in this order.
pub const OBJECT: usize = 0;
pub const THROWABLE: usize = 1;
pub const ERROR: usize = 2;
pub const EXCEPTION: usize = 3;
pub const RUNTIME_EXCEPTION: usize = 4;
pub const NULL_POINTER_EXCEPTION: usize = 5;
pub const ARITHMETIC_EXCEPTION: usize = 6;
pub const ARRAY_INDEX_OUT_OF_BOUNDS_EXCEPTION: usize = 7;
pub const NEGATIVE_ARRAY_SIZE_EXCEPTION: usize = 8;
pub const CLASS_CAST_EXCEPTION: usize = 9;
pub const STACK_OVERFLOW_ERROR: usize = 10;
pub const ABSTRACT_METHOD_ERROR: usize = 11;
pub const EXCEPTION_IN_INITIALIZER_ERROR: usize = 12;
pub const NO_CLASS_DEF_FOUND_ERROR: usize = 13;
pub const ILLEGAL_MONITOR_STATE_EXCEPTION: usize = 14;
pub const INT_ARRAY: usize = 15;
pub const STRING: usize = 16;
pub const STRING_ARRAY: usize = 17;

/// The superclass of bootstrap class `i`.
pub open spec fn bootstrap_super_spec(i: int) -> usize {
    if i == INT_ARRAY || i >= STRING {
        OBJECT
    } else if i >= STACK_OVERFLOW_ERROR && i != ILLEGAL_MONITOR_STATE_EXCEPTION {
        ERROR
    } else if i >= NULL_POINTER_EXCEPTION {
        RUNTIME_EXCEPTION
    } else if i == RUNTIME_EXCEPTION {
        EXCEPTION
    } else if i >= ERROR {
        THROWABLE
    } else {
        OBJECT
    }
}

/// The binary name of bootstrap class `i`.
fn bootstrap_name(i: usize) -> &'static str {
    match i {
        0 => "java/lang/Object",
        1 => "java/lang/Throwable",
        2 => "java/lang/Error",
        3 => "java/lang/Exception",
        4 => "java/lang/RuntimeException",
        5 => "java/lang/NullPointerException",
        6 => "java/lang/ArithmeticException",
        7 => "java/lang/ArrayIndexOutOfBoundsException",
        8 => "java/lang/NegativeArraySizeException",
        9 => "java/lang/ClassCastException",
        10 => "java/lang/StackOverflowError",
        11 => "java/lang/AbstractMethodError",
        12 => "java/lang/ExceptionInInitializerError",
        13 => "java/lang/NoClassDefFoundError",
        14 => "java/lang/IllegalMonitorStateException",
        15 => "[I",
        16 => "java/lang/String",
        _ => "[Ljava/lang/String;",
    }
}

fn bootstrap_super(i: usize) -> (r: usize)
    requires
        0 < i < 18,
    ensures
        r < i,
        r == bootstrap_super_spec(i as int),
{
    if i == INT_ARRAY || i >= STRING {
        OBJECT
    } else if i >= STACK_OVERFLOW_ERROR && i != ILLEGAL_MONITOR_STATE_EXCEPTION {
        ERROR
    } else if i >= NULL_POINTER_EXCEPTION {
        RUNTIME_EXCEPTION
    } else if i == RUNTIME_EXCEPTION {
        EXCEPTION
    } else if i >= ERROR {
        THROWABLE
    } else {
        OBJECT
    }
}

/// Frame `f` runs a method of `methods` with that method's bounds.
pub open spec fn fits_method(f: Frame, methods: Seq<Method>) -> bool {
    &&& f.method < methods.len()
    &&& f.max_stack == methods[f.method as int].max_stack
    &&& f.max_locals == methods[f.method as int].max_locals
}

/// `mid` is the engine right after entering static method `mi` with
/// `args`: its bottom frame runs `mi` from `pc` 0 with `args` as its first
/// locals and the other locals null.
pub open spec fn entered_static(mid: Vm, mi: usize, args: Seq<Slot>) -> bool {
    let f = mid.thread.frames@[0];
    &&& mid.wf()
    &&& mid.thread.frames@.len() >= 1
    &&& f.method == mi
    &&& f.pc == 0
    &&& f.stack@.len() == 0
    &&& f.locals@.subrange(0, args.len() as int) == args
    &&& forall|k: int| args.len() <= k < f.locals@.len() ==> f.locals@[k] == Slot::Null
    &&& mid.result is None
}

/// `trace` is a run of the engine from `a` to `b` that took the steps whose
/// results are `results`, at most `fuel` of them, each from a state with a
/// frame, and ended with `r`: a fault only from a step that returned it,
/// out of fuel only after `fuel` steps, and a return or an uncaught
/// exception only on an empty frame stack.
pub open spec fn run_trace(
    a: Vm,
    b: Vm,
    trace: Seq<Vm>,
    results: Seq<Result<Option<Effect>, VmFault>>,
    fuel: u64,
    r: RunOutcome,
) -> bool {
    &&& trace.len() == results.len() + 1
    &&& results.len() <= fuel
    &&& trace[0] == a
    &&& trace.last() == b
    &&& forall|i: int| 0 <= i < results.len() ==> (#[trigger] trace[i]).thread.frames@.len() > 0
    &&& forall|i: int| 0 <= i < results.len() ==> #[trigger] trace[i].step_spec(trace[i + 1], results[i])
    &&& forall|i: int| 0 <= i < results.len() - 1 ==> (#[trigger] results[i]) is Ok
    &&& match r {
        RunOutcome::Fault(e) => results.len() > 0 && results.last() == Err::<Option<Effect>, VmFault>(e),
        RunOutcome::OutOfFuel => results.len() == fuel && b.thread.frames@.len() > 0 && (results.len() > 0
            ==> results.last() is Ok),
        RunOutcome::Returned(v) => b.thread.frames@.len() == 0 && b.thread.current_ex() is None && v
            == b.result && (results.len() > 0 ==> results.last() is Ok),
        RunOutcome::Uncaught(o) => b.thread.frames@.len() == 0 && b.thread.current_ex() == Some(o) && (
        results.len() > 0 ==> results.last() is Ok),
    }
}

/// The position of each exception that the engine raises itself in
/// `Vm::builtins`.
pub open spec fn exception_index(e: JavaException) -> int {
    match e {
        JavaException::NullPointer => 0,
        JavaException::Arithmetic => 1,
        JavaException::ArrayIndexOutOfBounds => 2,
        JavaException::NegativeArraySize => 3,
        JavaException::ClassCast => 4,
        JavaException::StackOverflowError => 5,
        JavaException::AbstractMethodError => 6,
        JavaException::ExceptionInInitializerError => 7,
        JavaException::NoClassDefFoundError => 8,
        JavaException::IllegalMonitorState => 9,
    }
}

fn exception_slot(e: JavaException) -> (r: usize)
    ensures
        r == exception_index(e),
{
    match e {
        JavaException::NullPointer => 0,
        JavaException::Arithmetic => 1,
        JavaException::ArrayIndexOutOfBounds => 2,
        JavaException::NegativeArraySize => 3,
        JavaException::ClassCast => 4,
        JavaException::StackOverflowError => 5,
        JavaException::AbstractMethodError => 6,
        JavaException::ExceptionInInitializerError => 7,
        JavaException::NoClassDefFoundError => 8,
        JavaException::IllegalMonitorState => 9,
    }
}

/// The engine of one Java thread over a method area, a class table and a
/// heap. Operands that name a method (`invokestatic`) or a class (`new`)
/// are already resolved: they are indices of `methods` and `classes`.
pub struct Vm {
    pub classes: ClassTable,
    /// The `<clinit>` of each class, if it has one.
    pub clinit: Vec<Option<usize>>,
    /// The mirror object of each class, locked by its static
    /// `synchronized` methods.
    pub mirrors: Vec<OopRef>,
    pub methods: Vec<Method>,
    pub heap: Vec<Object>,
    pub thread: JavaThread,
    pub thread_id: u64,
    /// Frames beyond this many raise `StackOverflowError`.
    pub max_depth: usize,
    /// The class of each exception the engine raises, by
    /// `exception_index`.
    pub builtins: Vec<usize>,
    /// `java.lang.Error`: what `<clinit>` may throw without wrapping.
    pub error_class: usize,
    /// Initializations under way: the frame count with the `<clinit>`
    /// frame on top, and the class.
    pub inits: Vec<(usize, usize)>,
    /// The class of `int[]`.
    pub array_class: usize,
    /// The binary name of each class.
    pub names: Vec<String>,
    /// What the entry method returned.
    pub result: Option<Slot>,
}

impl Vm {
    /// The engine's invariant: well-formed tables and thread, frames that
    /// run methods of the method area, and methods that can hold at least
    /// the exception a handler receives.
    pub open spec fn wf(&self) -> bool {
        &&& self.classes.wf()
        &&& self.thread.wf()
        &&& self.thread.runs_in(self.methods@)
        &&& forall|i: int|
            0 <= i < self.thread.frames@.len() ==> fits_method(#[trigger] self.thread.frames@[i], self.methods@)
        &&& forall|i: int|
            0 <= i < self.methods@.len() ==> (#[trigger] self.methods@[i]).ex_table@.len() > 0 ==> self.methods@[i].max_stack
                >= 1
        &&& self.clinit@.len() == self.classes.classes@.len()
        &&& self.mirrors@.len() == self.classes.classes@.len()
        &&& self.names@.len() == self.classes.classes@.len()
        &&& forall|i: int| 0 <= i < self.methods@.len() ==> (#[trigger] self.methods@[i]).class < self.classes.classes@.len()
        &&& forall|c: int|
            0 <= c < self.clinit@.len() ==> ((#[trigger] self.clinit@[c]) matches Some(mi) ==> mi
                < self.methods@.len())
        &&& self.builtins@.len() == 10
        &&& forall|i: int| 0 <= i < 10 ==> (#[trigger] self.builtins@[i]) == i + 5
        &&& self.classes.classes@.len() >= 18
        &&& self.error_class < self.classes.classes@.len()
        &&& self.array_class < self.classes.classes@.len()
        &&& forall|h: int| 0 <= h < self.heap@.len() ==> (#[trigger] self.heap@[h]).class < self.classes.classes@.len()
    }

    /// The top frame is a `<clinit>` frame: the class it initializes.
    pub open spec fn clinit_frame_class(&self) -> Option<usize> {
        let n = self.thread.frames@.len();
        if self.inits@.len() > 0 && self.inits@.last().0 == n && self.inits@.last().1
            < self.classes.classes@.len() {
            Some(self.inits@.last().1)
        } else {
            None
        }
    }

    /// One step of unwinding the exception being raised, from `self` to
    /// `next`.
    pub open spec fn unwind_spec(&self, next: Vm, r: Result<(), VmFault>) -> bool {
        let ex = self.thread.current_ex()->Some_0;
        let n = self.thread.frames@.len();
        if ex.handle >= self.heap@.len() {
            r == Err::<(), VmFault>(VmFault::BadOperand)
        } else if n == 0 {
            r is Ok && next.thread.frames@.len() == 0 && next.thread.current_ex() == Some(ex)
        } else {
            let cls = self.heap@[ex.handle as int].class as int;
            let before = self.thread.frames@[n - 1];
            let after = next.thread.frames@[n - 1];
            let table = self.methods@[before.method as int].ex_table@;
            if !unhandled_in(before, self.methods@, cls, self.classes) {
                &&& r is Ok
                &&& next.thread.frames@.len() == n
                &&& next.thread.frames@.subrange(0, n - 1) == self.thread.frames@.subrange(0, n - 1)
                &&& next.thread.current_ex() is None
                &&& after.stack@ == seq![Slot::Ref(ex)]
                &&& exists|i: int|
                    is_first_match(table, i, before.pc as int, cls, self.classes) && after.pc
                        == (#[trigger] table[i]).handler_pc
                &&& after.method == before.method
                &&& after.locals == before.locals
            } else {
                &&& next.thread.frames@ == self.thread.frames@.drop_last()
                &&& match self.clinit_frame_class() {
                    None => r is Ok && next.thread.current_ex() == Some(ex),
                    Some(c) => {
                        &&& next.classes.classes@[c as int].state == InitState::Error
                        &&& r is Ok && self.classes.is_subclass(cls, self.error_class as int)
                            ==> next.thread.current_ex() == Some(ex)
                        &&& r is Ok && !self.classes.is_subclass(cls, self.error_class as int)
                            ==> (next.thread.current_ex() matches Some(o) && o.handle < next.heap@.len()
                            && next.heap@[o.handle as int].class == EXCEPTION_IN_INITIALIZER_ERROR)
                    },
                }
            }
        }
    }

    /// Allocates `obj`; its reference is its index in the heap.
    fn allocate(&mut self, obj: Object) -> (r: Result<OopRef, VmFault>)
        requires
            old(self).wf(),
            obj.class < old(self).classes.classes@.len(),
        ensures
            final(self).wf(),
            final(self).thread == old(self).thread,
            final(self).classes == old(self).classes,
            final(self).inits == old(self).inits,
            final(self).methods == old(self).methods,
            final(self).mirrors == old(self).mirrors,
            final(self).clinit == old(self).clinit,
            final(self).names == old(self).names,
            final(self).max_depth == old(self).max_depth,
            final(self).classes.classes@.len() == old(self).classes.classes@.len(),
            final(self).builtins == old(self).builtins,
            final(self).error_class == old(self).error_class,
            final(self).thread_id == old(self).thread_id,
            final(self).result == old(self).result,
            r matches Ok(o) ==> o.handle == old(self).heap@.len() && final(self).heap@ == old(self).heap@.push(obj),
            old(self).heap@.len() < 0xffff_ffff ==> r is Ok,
            r is Err ==> *final(self) == *old(self),
    {
        if self.heap.len() >= 0xffff_ffff {
            return Err(VmFault::HeapExhausted);
        }
        let h = self.heap.len() as u32;
        self.heap.push(obj);
        proof {
            assert forall|i: int| 0 <= i < self.heap@.len() implies (#[trigger] self.heap@[i]).class
                < self.classes.classes@.len() by {
                if i < old(self).heap@.len() {
                    assert(self.heap@[i] == old(self).heap@[i]);
                }
            }
        }
        Ok(OopRef { handle: h })
    }

    /// Raises a fresh exception of the engine's own kind `e`.
    fn raise(&mut self, e: JavaException) -> (r: Result<(), VmFault>)
        requires
            old(self).wf(),
        ensures
            final(self).wf(),
            final(self).thread.frames == old(self).thread.frames,
            final(self).classes == old(self).classes,
            final(self).inits == old(self).inits,
            final(self).methods == old(self).methods,
            final(self).mirrors == old(self).mirrors,
            final(self).clinit == old(self).clinit,
            final(self).names == old(self).names,
            final(self).max_depth == old(self).max_depth,
            final(self).classes.classes@.len() == old(self).classes.classes@.len(),
            final(self).builtins == old(self).builtins,
            final(self).error_class == old(self).error_class,
            final(self).thread_id == old(self).thread_id,
            final(self).result == old(self).result,
            old(self).heap@.len() < 0xffff_ffff ==> r is Ok,
            r is Ok ==> (final(self).thread.current_ex() matches Some(o) && o.handle < final(self).heap@.len()
                && final(self).heap@[o.handle as int].class == old(self).builtins@[exception_index(e)]),
    {
        let c = self.builtins[exception_slot(e)];
        let o = self.allocate(Object { class: c, is_array: false, elems: Vec::new(), text: None })?;
        self.thread.set_ex(o);
        Ok(())
    }

    /// First touch of class `c` by this thread. Returns true when the class
    /// is usable now. Otherwise the `<clinit>` frames still to run have
    /// been pushed, a superclass's above its subclass's, or an exception
    /// was raised; the instruction is run again once they are done.
    fn touch(&mut self, c: usize) -> (r: Result<bool, VmFault>)
        requires
            old(self).wf(),
        ensures
            final(self).wf(),
            final(self).methods == old(self).methods,
            final(self).mirrors == old(self).mirrors,
            final(self).clinit == old(self).clinit,
            final(self).names == old(self).names,
            final(self).max_depth == old(self).max_depth,
            final(self).classes.classes@.len() == old(self).classes.classes@.len(),
            r == Ok::<bool, VmFault>(true) ==> c < old(self).classes.classes@.len(),
            final(self).thread.frames@.len() >= old(self).thread.frames@.len(),
            final(self).thread.frames@.subrange(0, old(self).thread.frames@.len() as int)
                == old(self).thread.frames@,
            final(self).result == old(self).result,
            c < old(self).classes.classes@.len() && old(self).heap@.len() < 0xffff_ffff ==> r is Ok,
    {
        if c >= self.classes.classes.len() {
            return Err(VmFault::BadOperand);
        }
        let mut cur: usize = c;
        let mut pushed = false;
        loop
            invariant
                self.wf(),
                cur < self.classes.classes@.len(),
                c < self.classes.classes@.len(),
                self.methods == old(self).methods,
                self.mirrors == old(self).mirrors,
                self.clinit == old(self).clinit,
                self.names == old(self).names,
                self.max_depth == old(self).max_depth,
                self.classes.classes@.len() == old(self).classes.classes@.len(),
                self.thread.frames@.len() >= old(self).thread.frames@.len(),
                self.thread.frames@.subrange(0, old(self).thread.frames@.len() as int)
                    == old(self).thread.frames@,
                self.result == old(self).result,
                self.heap@.len() == old(self).heap@.len(),
            decreases cur,
        {
            match self.classes.begin_init(cur, self.thread_id) {
                InitAction::Ready => {
                    return Ok(!pushed);
                },
                InitAction::Wait => {
                    return Ok(false);
                },
                InitAction::NoClassDef => {
                    self.raise(JavaException::NoClassDefFoundError)?;
                    return Ok(false);
                },
                InitAction::Run { superclass } => {
                    match self.clinit[cur] {
                        Some(mi) => {
                            let m = &self.methods[mi];
                            let f = Frame::new(mi, m.max_locals, m.max_stack);
                            match self.thread.push_frame(f, self.max_depth) {
                                Ok(()) => {
                                    assert(self.thread.frames@.subrange(0, old(self).thread.frames@.len() as int)
                                        =~= old(self).thread.frames@);
                                    pushed = true;
                                    self.inits.push((self.thread.frames.len(), cur));
                                },
                                Err(e) => {
                                    self.classes.finish_init(cur, false, true);
                                    self.raise(e)?;
                                    return Ok(false);
                                },
                            }
                        },
                        None => {
                            self.classes.finish_init(cur, true, false);
                        },
                    }
                    match superclass {
                        Some(sc) => {
                            assert(self.classes.classes@[cur as int].super_class == Some(sc));
                            cur = sc;
                        },
                        None => {
                            return Ok(!pushed);
                        },
                    }
                },
            }
        }
    }

    /// One step of unwinding the exception being raised: the top frame
    /// either takes it in its first matching handler or is left. Leaving a
    /// `<clinit>` frame marks its class erroneous and wraps an exception
    /// that is not an `Error` in an `ExceptionInInitializerError`.
    fn unwind_step(&mut self) -> (r: Result<(), VmFault>)
        requires
            old(self).wf(),
            old(self).thread.current_ex() is Some,
        ensures
            final(self).wf(),
            old(self).unwind_spec(*final(self), r),
    {
        let ex = match self.thread.ex {
            Some(e) => e,
            None => {
                return Ok(());
            },
        };
        let h = ex.handle as usize;
        if h >= self.heap.len() {
            return Err(VmFault::BadOperand);
        }
        let ex_class = self.heap[h].class;
        let depth = self.thread.frames.len();
        if depth == 0 {
            return Ok(());
        }
        let ghost fs = self.thread.frames@;
        let caught = self.thread.unwind_top(ex_class, &self.methods, &self.classes);
        proof {
            assert forall|i: int| 0 <= i < self.thread.frames@.len() implies (#[trigger] self.thread.frames@[i]).method
                < self.methods@.len() && fits_method(self.thread.frames@[i], self.methods@) by {
                if i < depth - 1 {
                    assert(self.thread.frames@.subrange(0, depth - 1)[i] == fs.subrange(0, depth - 1)[i]);
                }
            }
        }
        if caught {
            return Ok(());
        }
        let n = self.inits.len();
        if n > 0 && self.inits[n - 1].0 == depth && self.inits[n - 1].1 < self.classes.classes.len() {
            let c = self.inits[n - 1].1;
            self.inits.pop();
            let is_error = self.classes.subclass_of(ex_class, self.error_class);
            match self.classes.finish_init(c, false, is_error) {
                InitOutcome::WrapInInitializerError => {
                    self.raise(JavaException::ExceptionInInitializerError)?;
                },
                _ => {},
            }
        }
        Ok(())
    }

    /// What one step takes the engine from `self` to `next` with result
    /// `r`.
    pub open spec fn step_spec(&self, next: Vm, r: Result<Option<Effect>, VmFault>) -> bool {
        &&& self.thread.current_ex() is Some ==> (r is Err || r == Ok::<Option<Effect>, VmFault>(None))
            && self.unwind_spec(
            next,
            match r {
                Ok(_) => Ok::<(), VmFault>(()),
                Err(e) => Err::<(), VmFault>(e),
            },
        )
        &&& self.thread.current_ex() is None && self.thread.frames@.len() == 0 ==> r == Ok::<
            Option<Effect>,
            VmFault,
        >(None) && next.thread.frames@ == self.thread.frames@ && next.thread.current_ex() is None
        &&& self.thread.current_ex() is None && self.thread.frames@.len() > 0 ==> {
                let n = self.thread.frames@.len();
                let top = self.thread.frames@[n - 1];
                let code = self.methods@[top.method as int].code@;
                let same_shape = next.thread.frames@.len() == n && next.thread.frames@.drop_last()
                    =~= self.thread.frames@.drop_last();
                &&& (r is Err || r matches Ok(Some(_)))
                &&& r is Err ==> exists|g: Frame, e: Result<Effect, VmFault>|
                    #[trigger] exec_spec(top, code, g, e) && e != Ok::<Effect, VmFault>(Effect::Next) && !(e is Ok
                        && e->Ok_0 is Throw)
                &&& r matches Ok(Some(e)) ==> exists|g: Frame| #[trigger] exec_spec(top, code, g, Ok::<Effect, VmFault>(e))
                &&& r == Ok::<Option<Effect>, VmFault>(Some(Effect::Next)) ==> same_shape && exec_spec(
                    top,
                    code,
                    next.thread.frames@[n - 1],
                    Ok::<Effect, VmFault>(Effect::Next),
                ) && next.thread.current_ex() is None
                &&& r matches Ok(Some(Effect::Throw(o))) ==> same_shape && exec_spec(
                    top,
                    code,
                    next.thread.frames@[n - 1],
                    Ok::<Effect, VmFault>(Effect::Throw(o)),
                ) && next.thread.current_ex() == Some(o)
                &&& r matches Ok(Some(Effect::Raise(x))) ==> same_shape && exec_spec(
                    top,
                    code,
                    next.thread.frames@[n - 1],
                    Ok::<Effect, VmFault>(Effect::Raise(x)),
                ) && (next.thread.current_ex() matches Some(o) && o.handle < next.heap@.len()
                    && next.heap@[o.handle as int].class == exception_index(x) + 5)
                &&& r matches Ok(Some(Effect::NewIntArray(k))) ==> same_shape && (k >= 0 ==> {
                    let st = next.thread.frames@[n - 1].stack@;
                    &&& st.len() > 0
                    &&& st.last() is Ref
                    &&& st.last()->Ref_0.handle < next.heap@.len()
                    &&& next.heap@[st.last()->Ref_0.handle as int].class == self.array_class
                    &&& next.heap@[st.last()->Ref_0.handle as int].is_array
                    &&& next.heap@[st.last()->Ref_0.handle as int].elems@.len() == k
                })
                &&& r matches Ok(Some(Effect::InvokeStatic(_))) ==> next.thread.frames@.len() >= n - 1
                    && next.thread.frames@.subrange(0, n - 1) =~= self.thread.frames@.subrange(0, n - 1)
                &&& r matches Ok(Some(Effect::ArrayLength(o))) ==> same_shape && o.handle < self.heap@.len()
                    && next.thread.frames@[n - 1].stack@.last() == Slot::Int(self.heap@[o.handle as int].elems@.len() as i32)
                &&& r matches Ok(Some(Effect::Return(v))) ==> match self.clinit_frame_class() {
                    Some(c) => next.thread.frames@ == self.thread.frames@.drop_last()
                        && next.classes.classes@[c as int].state == InitState::Initialized,
                    None => if n == 1 {
                        next.thread.frames@.len() == 0 && next.result == v
                    } else {
                        let caller = self.thread.frames@[n - 2];
                        &&& next.thread.frames@.len() == n - 1
                        &&& next.thread.frames@.subrange(0, n - 2) =~= self.thread.frames@.subrange(0, n - 2)
                        &&& next.thread.frames@[n - 2].stack@ == caller.stack@ + return_cells(v)
                        &&& next.thread.frames@[n - 2].pc == caller.pc + 3
                    },
                }
            }
    }

    /// Runs one step of the thread: one step of unwinding when an exception
    /// is being raised (`Ok(None)`), else the instruction at the top
    /// frame's `pc`, whose effect is returned. The engine's invariant holds
    /// after every step.
    #[verifier::spinoff_prover]
    #[verifier::rlimit(60)]
    pub fn step(&mut self) -> (r: Result<Option<Effect>, VmFault>)
        requires
            old(self).wf(),
        ensures
            final(self).wf(),
            old(self).step_spec(*final(self), r),
    {
        if self.thread.is_meet_ex() {
            return match self.unwind_step() {
                Ok(()) => Ok(None),
                Err(e) => Err(e),
            };
        }
        let ghost fs = self.thread.frames@;
        let mut top = match self.thread.pop_frame() {
            Some(f) => f,
            None => {
                return Ok(None);
            },
        };
        let ghost top0 = top;
        let mi = top.method;
        let effect = exec_in_frame(&mut top, &self.methods[mi].code);
        let ghost g0 = top;
        assert(exec_spec(top0, self.methods@[mi as int].code@, g0, effect));
        proof {
            assert(self.thread.frames@ =~= fs.drop_last());
        }
        match effect {
            Err(e) => {
                self.thread.restore_frame(top);
                Err(e)
            },
            Ok(Effect::Next) => {
                self.thread.restore_frame(top);
                proof {
                    assert(self.thread.frames@.drop_last() =~= fs.drop_last());
                }
                Ok(Some(Effect::Next))
            },
            Ok(Effect::Raise(e)) => {
                self.thread.restore_frame(top);
                proof {
                    assert(self.thread.frames@.drop_last() =~= fs.drop_last());
                }
                self.raise(e)?;
                Ok(Some(Effect::Raise(e)))
            },
            Ok(Effect::Throw(o)) => {
                self.thread.restore_frame(top);
                proof {
                    assert(self.thread.frames@.drop_last() =~= fs.drop_last());
                }
                self.thread.set_ex(o);
                Ok(Some(Effect::Throw(o)))
            },
            Ok(Effect::NewIntArray(n)) => {
                if n < 0 {
                    self.thread.restore_frame(top);
                    proof {
                        assert(self.thread.frames@.drop_last() =~= fs.drop_last());
                    }
                    self.raise(JavaException::NegativeArraySize)?;
                    return Ok(Some(Effect::NewIntArray(n)));
                }
                let mut elems: Vec<Slot> = Vec::new();
                let mut k: i32 = 0;
                while k < n
                    invariant
                        0 <= k <= n,
                        elems@.len() == k,
                    decreases n - k,
                {
                    elems.push(Slot::Int(0));
                    k = k + 1;
                }
                let c = self.array_class;
                let res = self.allocate(Object { class: c, is_array: true, elems, text: None });
                let pushed = match res {
                    Ok(o) => push_value(&mut top, Slot::Ref(o)),
                    Err(e) => Err(e),
                };
                self.thread.restore_frame(top);
                proof {
                    assert(self.thread.frames@.drop_last() =~= fs.drop_last());
                }
                pushed?;
                Ok(Some(Effect::NewIntArray(n)))
            },
            Ok(Effect::ArrayLength(o)) => {
                let h = o.handle as usize;
                let len = if h < self.heap.len() && self.heap[h].is_array {
                    self.heap[h].elems.len()
                } else {
                    self.thread.restore_frame(top);
                    return Err(VmFault::WrongSlotType);
                };
                if len > 0x7fff_ffff {
                    self.thread.restore_frame(top);
                    return Err(VmFault::HeapExhausted);
                }
                let pushed = push_value(&mut top, Slot::Int(len as i32));
                self.thread.restore_frame(top);
                proof {
                    assert(self.thread.frames@.drop_last() =~= fs.drop_last());
                }
                pushed?;
                Ok(Some(Effect::ArrayLength(o)))
            },
            Ok(Effect::New(c)) => {
                self.thread.restore_frame(top);
                if self.touch(c)? {
                    let mut again = match self.thread.pop_frame() {
                        Some(f) => f,
                        None => {
                            return Ok(Some(Effect::New(c)));
                        },
                    };
                    let res = self.allocate(Object { class: c, is_array: false, elems: Vec::new(), text: None });
                    let done = match res {
                        Ok(o) => match push_value(&mut again, Slot::Ref(o)) {
                            Ok(()) => advance(&mut again, 3),
                            Err(e) => Err(e),
                        },
                        Err(e) => Err(e),
                    };
                    self.thread.restore_frame(again);
                    done?;
                }
                Ok(Some(Effect::New(c)))
            },
            Ok(Effect::InvokeStatic(callee)) => {
                self.thread.restore_frame(top);
                proof {
                    assert(self.thread.frames@.subrange(0, fs.len() - 1) =~= fs.subrange(0, fs.len() - 1));
                }
                self.invoke_static(callee)?;
                Ok(Some(Effect::InvokeStatic(callee)))
            },
            Ok(Effect::Return(v)) => {
                self.thread.restore_frame(top);
                proof {
                    assert(self.thread.frames@.drop_last() =~= fs.drop_last());
                    if fs.len() >= 2 {
                        assert(self.thread.frames@.subrange(0, fs.len() - 2) =~= fs.subrange(0, fs.len() - 2));
                        assert(self.thread.frames@[fs.len() - 2] == fs[fs.len() - 2]);
                    }
                }
                self.complete(v)?;
                Ok(Some(Effect::Return(v)))
            },
        }
    }

    /// `invokestatic` of method `mi`, once its class is initialized.
    fn invoke_static(&mut self, mi: usize) -> (r: Result<(), VmFault>)
        requires
            old(self).wf(),
            old(self).thread.frames@.len() > 0,
        ensures
            final(self).wf(),
            r is Ok ==> final(self).thread.frames@.len() >= old(self).thread.frames@.len() - 1
                && final(self).thread.frames@.subrange(0, old(self).thread.frames@.len() - 1)
                =~= old(self).thread.frames@.subrange(0, old(self).thread.frames@.len() - 1),
    {
        if mi >= self.methods.len() {
            return Err(VmFault::BadOperand);
        }
        let c = self.methods[mi].class;
        if c >= self.mirrors.len() {
            return Err(VmFault::BadOperand);
        }
        if !self.touch(c)? {
            return Ok(());
        }
        if self.thread.frames.len() == 0 || self.methods[mi].descriptor.len() > usize::MAX / 2 {
            return Err(VmFault::BadOperand);
        }
        let sig = match parse_descriptor(&self.methods[mi].descriptor) {
            Some(sig) => sig,
            None => {
                return Err(VmFault::BadOperand);
            },
        };
        if let Some(h) = self.methods[mi].native {
            return self.invoke_native(h, sig.arg_slots);
        }
        let mirror = self.mirrors[c];
        let ghost fs = self.thread.frames@;
        match self.thread.invoke(mi, &self.methods[mi], sig, mirror, self.max_depth) {
            Ok(()) => {
                proof {
                    let n = fs.len();
                    assert(self.thread.frames@.subrange(0, old(self).thread.frames@.len() - 1)
                        =~= old(self).thread.frames@.subrange(0, old(self).thread.frames@.len() - 1)) by {
                        assert forall|i: int| 0 <= i < old(self).thread.frames@.len() - 1 implies
                            self.thread.frames@[i] == old(self).thread.frames@[i] by {
                            assert(self.thread.frames@.subrange(0, n - 1)[i] == fs.subrange(0, n - 1)[i]);
                            assert(fs.subrange(0, old(self).thread.frames@.len() as int)[i] == old(self).thread.frames@[i]);
                        }
                    }
                    assert forall|i: int| 0 <= i < self.thread.frames@.len() implies (#[trigger] self.thread.frames@[i]).method
                        < self.methods@.len() && fits_method(self.thread.frames@[i], self.methods@) by {
                        if i < n - 1 {
                            assert(self.thread.frames@.subrange(0, n - 1)[i] == fs.subrange(0, n - 1)[i]);
                        }
                    }
                }
                Ok(())
            },
            Err(InvokeError::Throw(e)) => self.raise(e),
            Err(InvokeError::Vm(fe)) => Err(VmFault::Frame(fe)),
        }
    }

    /// `invokestatic` of a native method: its `n` argument cells leave the
    /// caller's stack, the handler runs in this thread, and its value, if
    /// any, is pushed as the method's return value; or its exception is
    /// raised.
    fn invoke_native(&mut self, h: NativeHandler, n: usize) -> (r: Result<(), VmFault>)
        requires
            old(self).wf(),
        ensures
            final(self).wf(),
            r is Ok ==> final(self).thread.frames@.len() >= old(self).thread.frames@.len() - 1
                && final(self).thread.frames@.subrange(0, old(self).thread.frames@.len() - 1)
                =~= old(self).thread.frames@.subrange(0, old(self).thread.frames@.len() - 1),
    {
        let mut top = match self.thread.pop_frame() {
            Some(f) => f,
            None => {
                return Ok(());
            },
        };
        let depth = top.stack.len();
        if n > depth {
            self.thread.restore_frame(top);
            return Err(VmFault::Frame(FrameError::StackUnderflow));
        }
        let base = depth - n;
        let mut args: Vec<Slot> = Vec::new();
        let mut k: usize = base;
        while k < depth
            invariant
                base <= k <= depth,
                depth == top.stack@.len(),
            decreases depth - k,
        {
            args.push(top.stack[k]);
            k = k + 1;
        }
        top.stack.truncate(base);
        match call_native(h, &args) {
            Ok(v) => {
                let pushed = match v {
                    None => Ok(()),
                    Some(s) => match push_value(&mut top, s) {
                        Ok(()) => if s.category2() {
                            push_value(&mut top, Slot::Second)
                        } else {
                            Ok(())
                        },
                        Err(e) => Err(e),
                    },
                };
                let done = match pushed {
                    Ok(()) => advance(&mut top, 3),
                    Err(e) => Err(e),
                };
                self.thread.restore_frame(top);
                done
            },
            Err(e) => {
                self.thread.restore_frame(top);
                self.raise(e)
            },
        }
    }

    /// Normal completion of the top frame with `v`: a `<clinit>` frame
    /// finishes its class's initialization, the entry frame records the
    /// result, any other hands `v` to its caller past the `invokestatic`.
    fn complete(&mut self, v: Option<Slot>) -> (r: Result<(), VmFault>)
        requires
            old(self).wf(),
            old(self).thread.frames@.len() > 0,
        ensures
            final(self).wf(),
            final(self).thread.current_ex() == old(self).thread.current_ex(),
            r is Ok ==> match old(self).clinit_frame_class() {
                Some(c) => final(self).thread.frames@ == old(self).thread.frames@.drop_last()
                    && final(self).classes.classes@[c as int].state == InitState::Initialized,
                None => {
                    let n = old(self).thread.frames@.len();
                    if n == 1 {
                        final(self).thread.frames@.len() == 0 && final(self).result == v
                    } else {
                        let caller = old(self).thread.frames@[n - 2];
                        &&& final(self).thread.frames@.len() == n - 1
                        &&& final(self).thread.frames@.subrange(0, n - 2) == old(self).thread.frames@.subrange(0, n - 2)
                        &&& final(self).thread.frames@[n - 2].stack@ == caller.stack@ + return_cells(v)
                        &&& final(self).thread.frames@[n - 2].pc == caller.pc + 3
                    }
                },
            },
    {
        let depth = self.thread.frames.len();
        let n = self.inits.len();
        if n > 0 && self.inits[n - 1].0 == depth && self.inits[n - 1].1 < self.classes.classes.len() {
            let c = self.inits[n - 1].1;
            self.inits.pop();
            let _ = self.thread.pop_frame();
            self.classes.finish_init(c, true, false);
            Ok(())
        } else if depth == 1 {
            let _ = self.thread.pop_frame();
            self.result = v;
            Ok(())
        } else {
            let ghost fs = self.thread.frames@;
            match self.thread.return_from_method(v, 3) {
                Ok(()) => {
                    proof {
                        let n = fs.len();
                        assert forall|i: int| 0 <= i < self.thread.frames@.len() implies (#[trigger] self.thread.frames@[i]).method
                            < self.methods@.len() && fits_method(self.thread.frames@[i], self.methods@) by {
                            if i < n - 2 {
                                assert(self.thread.frames@.subrange(0, n - 2)[i] == fs.subrange(0, n - 2)[i]);
                            }
                        }
                    }
                    Ok(())
                },
                Err(e) => Err(VmFault::Frame(e)),
            }
        }
    }

    /// An engine for thread `thread_id` with the bootstrap classes alone,
    /// all initialized: `Object`, `Throwable`, `Error`, `Exception`,
    /// `RuntimeException`, the exceptions it raises itself, and `int[]`.
    pub fn new(thread_id: u64, max_depth: usize) -> (r: Vm)
        ensures
            r.wf(),
            r.classes.classes@.len() == 18,
            forall|c: int| 0 <= c < 18 ==> (#[trigger] r.classes.classes@[c]).state == InitState::Initialized
                && r.classes.classes@[c].super_class == if c == 0 { None } else { Some(bootstrap_super_spec(c)) },
            r.methods@.len() == 0,
            r.thread.frames@.len() == 0,
            r.thread.current_ex() is None,
            r.thread_id == thread_id,
            r.max_depth == max_depth,
            r.error_class == ERROR,
            r.array_class == INT_ARRAY,
            forall|e: JavaException| #[trigger] r.builtins@[exception_index(e)] == exception_index(e) + 5,
    {
        let mut classes = ClassTable::new();
        let mut clinit: Vec<Option<usize>> = Vec::new();
        let mut mirrors: Vec<OopRef> = Vec::new();
        let mut heap: Vec<Object> = Vec::new();
        let mut names: Vec<String> = Vec::new();
        let mut i: usize = 0;
        while i < 18
            invariant
                i <= 18,
                names@.len() == i,
                forall|c: int| 0 <= c < i ==> (#[trigger] classes.classes@[c]).state == InitState::Initialized
                    && classes.classes@[c].super_class == if c == 0 { None } else { Some(bootstrap_super_spec(c)) },
                classes.wf(),
                classes.classes@.len() == i,
                clinit@.len() == i,
                mirrors@.len() == i,
                heap@.len() == i,
                forall|c: int| 0 <= c < i ==> (#[trigger] clinit@[c]) is None,
                forall|h: int| 0 <= h < i ==> (#[trigger] heap@[h]).class == 0,
            decreases 18 - i,
        {
            let sup = if i == 0 { None } else { Some(bootstrap_super(i)) };
            let c = classes.add_class(sup);
            classes.finish_init(c, true, false);
            clinit.push(None);
            names.push(bootstrap_name(i).to_string());
            mirrors.push(OopRef { handle: i as u32 });
            heap.push(Object { class: 0, is_array: false, elems: Vec::new(), text: None });
            i = i + 1;
        }
        let mut builtins: Vec<usize> = Vec::new();
        let mut k: usize = 0;
        while k < 10
            invariant
                k <= 10,
                builtins@.len() == k,
                forall|j: int| 0 <= j < k ==> (#[trigger] builtins@[j]) == j + 5,
            decreases 10 - k,
        {
            builtins.push(k + 5);
            k = k + 1;
        }
        let vm = Vm {
            classes,
            clinit,
            mirrors,
            methods: Vec::new(),
            heap,
            thread: JavaThread::new(),
            thread_id,
            max_depth,
            builtins,
            error_class: ERROR,
            inits: Vec::new(),
            array_class: INT_ARRAY,
            names,
            result: None,
        };
        proof {
            assert forall|e: JavaException| #[trigger] vm.builtins@[exception_index(e)] == exception_index(e) + 5 by {
                assert(0 <= exception_index(e) < 10);
            }
        }
        vm
    }

    /// Adds a method; `None` when it has handlers but no room on its stack
    /// for the exception a handler receives, or names no loaded class.
    pub fn add_method(&mut self, m: Method) -> (r: Option<usize>)
        requires
            old(self).wf(),
        ensures
            final(self).wf(),
            final(self).classes == old(self).classes,
            final(self).thread == old(self).thread,
            (m.ex_table@.len() == 0 || m.max_stack >= 1) && m.class < old(self).classes.classes@.len() && old(self).methods@.len()
                < usize::MAX ==> r == Some(old(self).methods@.len() as usize) && final(self).methods@.len()
                == old(self).methods@.len() + 1,
            !((m.ex_table@.len() == 0 || m.max_stack >= 1) && m.class < old(self).classes.classes@.len() && old(self).methods@.len()
                < usize::MAX) ==> r is None && final(self).methods@.len() == old(self).methods@.len(),
    {
        if (m.ex_table.len() > 0 && m.max_stack == 0) || m.class >= self.classes.classes.len() || self.methods.len() == usize::MAX {
            return None;
        }
        let r = self.methods.len();
        self.methods.push(m);
        proof {
            assert forall|i: int| 0 <= i < self.methods@.len() && (#[trigger] self.methods@[i]).ex_table@.len() > 0
                implies self.methods@[i].max_stack >= 1 by {
                if i < r {
                    assert(self.methods@[i] == old(self).methods@[i]);
                }
            }
        }
        Some(r)
    }

    /// Loads a linked class named `name` with superclass `super_class` and
    /// initializer `clinit`, a method of the method area; `None` when
    /// either is not there yet, or the class table or the heap is full.
    pub fn add_class(&mut self, name: String, super_class: Option<usize>, clinit: Option<usize>) -> (r:
        Option<usize>)
        requires
            old(self).wf(),
        ensures
            final(self).wf(),
            final(self).methods == old(self).methods,
            final(self).thread == old(self).thread,
            (super_class matches Some(s) ==> s < old(self).classes.classes@.len()) && (clinit matches Some(
                mi,
            ) ==> mi < old(self).methods@.len()) && old(self).classes.classes@.len() < usize::MAX - 1
                && old(self).heap@.len() < 0xffff_ffff ==> r is Some,
            r matches Some(c) ==> {
                &&& c == old(self).classes.classes@.len()
                &&& final(self).classes.classes@ == old(self).classes.classes@.push(
                    ClassInfo { super_class, state: InitState::Linked },
                )
                &&& final(self).clinit@ == old(self).clinit@.push(clinit)
                &&& final(self).names@ == old(self).names@.push(name)
            },
            r is None ==> final(self).classes.classes@.len() == old(self).classes.classes@.len(),
    {
        let n = self.classes.classes.len();
        match super_class {
            Some(s) => if s >= n {
                return None;
            },
            None => {},
        }
        match clinit {
            Some(mi) => if mi >= self.methods.len() {
                return None;
            },
            None => {},
        }
        if n >= usize::MAX - 1 {
            return None;
        }
        let mirror = match self.allocate(Object { class: OBJECT, is_array: false, elems: Vec::new(), text: None }) {
            Ok(o) => o,
            Err(_) => {
                return None;
            },
        };
        let c = self.classes.add_class(super_class);
        self.clinit.push(clinit);
        self.mirrors.push(mirror);
        self.names.push(name);
        proof {
            assert forall|i: int| 0 <= i < self.methods@.len() implies (#[trigger] self.methods@[i]).class
                < self.classes.classes@.len() by {}
            assert forall|i: int| 0 <= i < self.heap@.len() implies (#[trigger] self.heap@[i]).class
                < self.classes.classes@.len() by {}
            assert forall|k: int| 0 <= k < self.clinit@.len() implies ((#[trigger] self.clinit@[k]) matches Some(mi) ==> mi
                < self.methods@.len()) by {
                if k < n {
                    assert(self.clinit@[k] == old(self).clinit@[k]);
                }
            }
        }
        Some(c)
    }

    /// The first method of class `class` named `name` with descriptor
    /// `descriptor`.
    pub fn find_method(&self, class: usize, name: &Vec<u8>, descriptor: &Vec<u8>) -> (r: Option<usize>)
        ensures
            r matches Some(i) ==> i < self.methods@.len() && self.methods@[i as int].class == class
                && self.methods@[i as int].name@ == name@ && self.methods@[i as int].descriptor@ == descriptor@
                && forall|j: int| 0 <= j < i ==> !(#[trigger] self.methods@[j]).matches_signature(class, name@, descriptor@),
            r is None ==> forall|j: int|
                0 <= j < self.methods@.len() ==> !(#[trigger] self.methods@[j]).matches_signature(class, name@, descriptor@),
    {
        let mut i: usize = 0;
        while i < self.methods.len()
            invariant
                i <= self.methods@.len(),
                forall|j: int| 0 <= j < i ==> !(#[trigger] self.methods@[j]).matches_signature(class, name@, descriptor@),
            decreases self.methods@.len() - i,
        {
            let m = &self.methods[i];
            if m.class == class && bytes_eq(&m.name, name) && bytes_eq(&m.descriptor, descriptor) {
                return Some(i);
            }
            i = i + 1;
        }
        None
    }

    /// The class named `name`, the first loaded under it.
    pub fn find_class(&self, name: &String) -> (r: Option<usize>)
        ensures
            r matches Some(c) ==> c < self.names@.len() && self.names@[c as int]@ == name@,
            r is None ==> forall|c: int| 0 <= c < self.names@.len() ==> (#[trigger] self.names@[c])@ != name@,
    {
        let mut c: usize = 0;
        while c < self.names.len()
            invariant
                c <= self.names@.len(),
                forall|k: int| 0 <= k < c ==> (#[trigger] self.names@[k])@ != name@,
            decreases self.names@.len() - c,
        {
            if self.names[c] == *name {
                return Some(c);
            }
            c = c + 1;
        }
        None
    }

    /// The class name of exception `ex` and its detail message: the text
    /// of the `String` in its first field, when it holds one.
    pub fn describe(&self, ex: OopRef) -> (r: Option<(String, Option<String>)>)
        requires
            self.wf(),
        ensures
            ex.handle >= self.heap@.len() ==> r is None,
            ex.handle < self.heap@.len() ==> {
                let obj = self.heap@[ex.handle as int];
                &&& r is Some
                &&& r->Some_0.0 == self.names@[obj.class as int]
                &&& r->Some_0.1 == if obj.elems@.len() > 0 && obj.elems@[0] is Ref && obj.elems@[0]->Ref_0.handle
                    < self.heap@.len() {
                    self.heap@[obj.elems@[0]->Ref_0.handle as int].text
                } else {
                    None
                }
            },
    {
        let h = ex.handle as usize;
        if h >= self.heap.len() {
            return None;
        }
        let obj = &self.heap[h];
        let name = self.names[obj.class].clone();
        let message = if obj.elems.len() > 0 {
            match obj.elems[0] {
                Slot::Ref(s) => if (s.handle as usize) < self.heap.len() {
                    match &self.heap[s.handle as usize].text {
                        Some(t) => Some(t.clone()),
                        None => None,
                    }
                } else {
                    None
                },
                _ => None,
            }
        } else {
            None
        };
        Some((name, message))
    }

    /// A new `java.lang.String` holding `text`.
    pub fn new_string(&mut self, text: String) -> (r: Result<OopRef, VmFault>)
        requires
            old(self).wf(),
        ensures
            final(self).wf(),
            final(self).thread == old(self).thread,
            final(self).methods == old(self).methods,
            final(self).classes == old(self).classes,
            old(self).heap@.len() < 0xffff_ffff ==> r is Ok,
            r matches Ok(o) ==> o.handle == old(self).heap@.len() && final(self).heap@.len() == o.handle + 1
                && final(self).heap@.subrange(0, o.handle as int) == old(self).heap@
                && final(self).heap@[o.handle as int].class == STRING
                && final(self).heap@[o.handle as int].text == Some(text),
    {
        let ghost t = text;
        let r = self.allocate(Object { class: STRING, is_array: false, elems: Vec::new(), text: Some(text) });
        proof {
            if r is Ok {
                assert(self.heap@.subrange(0, old(self).heap@.len() as int) =~= old(self).heap@);
            }
        }
        r
    }

    /// A new array of class `class` holding `elems`.
    pub fn new_array(&mut self, class: usize, elems: Vec<Slot>) -> (r: Result<OopRef, VmFault>)
        requires
            old(self).wf(),
            class < old(self).classes.classes@.len(),
        ensures
            final(self).wf(),
            final(self).thread == old(self).thread,
            final(self).methods == old(self).methods,
            final(self).classes == old(self).classes,
            old(self).heap@.len() < 0xffff_ffff ==> r is Ok,
            r matches Ok(o) ==> o.handle == old(self).heap@.len() && final(self).heap@.len() == o.handle + 1
                && final(self).heap@.subrange(0, o.handle as int) == old(self).heap@
                && final(self).heap@[o.handle as int].class == class && final(self).heap@[o.handle as int].is_array
                && final(self).heap@[o.handle as int].elems@ == elems@,
    {
        let r = self.allocate(Object { class, is_array: true, elems, text: None });
        proof {
            if r is Ok {
                assert(self.heap@.subrange(0, old(self).heap@.len() as int) =~= old(self).heap@);
            }
        }
        r
    }

    /// A new instance of class `class` whose fields are `fields`.
    pub fn new_instance(&mut self, class: usize, fields: Vec<Slot>) -> (r: Result<OopRef, VmFault>)
        requires
            old(self).wf(),
            class < old(self).classes.classes@.len(),
        ensures
            final(self).wf(),
            final(self).thread == old(self).thread,
            final(self).methods == old(self).methods,
            final(self).classes == old(self).classes,
            old(self).heap@.len() < 0xffff_ffff ==> r is Ok,
            r matches Ok(o) ==> o.handle == old(self).heap@.len() && final(self).heap@.len() == o.handle + 1
                && final(self).heap@.subrange(0, o.handle as int) == old(self).heap@
                && final(self).heap@[o.handle as int].class == class && !final(self).heap@[o.handle as int].is_array
                && final(self).heap@[o.handle as int].elems@ == fields@,
    {
        let r = self.allocate(Object { class, is_array: false, elems: fields, text: None });
        proof {
            if r is Ok {
                assert(self.heap@.subrange(0, old(self).heap@.len() as int) =~= old(self).heap@);
            }
        }
        r
    }

    /// Runs at most `fuel` steps, until the thread has no frame left.
    pub fn run(&mut self, fuel: u64) -> (r: RunOutcome)
        requires
            old(self).wf(),
        ensures
            final(self).wf(),
            exists|trace: Seq<Vm>, results: Seq<Result<Option<Effect>, VmFault>>|
                #[trigger] run_trace(*old(self), *final(self), trace, results, fuel, r),
            r matches RunOutcome::Returned(v) ==> final(self).thread.frames@.len() == 0
                && final(self).thread.current_ex() is None && v == final(self).result,
            r matches RunOutcome::Uncaught(o) ==> final(self).thread.frames@.len() == 0
                && final(self).thread.current_ex() == Some(o),
            r == RunOutcome::OutOfFuel ==> final(self).thread.frames@.len() > 0,
            old(self).thread.frames@.len() == 0 ==> r == match old(
                self,
            ).thread.current_ex() {
                Some(o) => RunOutcome::Uncaught(o),
                None => RunOutcome::Returned(old(self).result),
            },
            fuel == 0 && old(self).thread.frames@.len() > 0 ==> r == RunOutcome::OutOfFuel,
    {
        let mut left = fuel;
        let ghost mut trace: Seq<Vm> = seq![*self];
        let ghost mut results: Seq<Result<Option<Effect>, VmFault>> = Seq::empty();
        loop
            invariant
                self.wf(),
                left == fuel ==> *self == *old(self),
                left < fuel ==> old(self).thread.frames@.len() > 0,
                left <= fuel,
                trace.len() == results.len() + 1,
                results.len() + left == fuel,
                trace[0] == *old(self),
                trace.last() == *self,
                forall|i: int| 0 <= i < results.len() ==> (#[trigger] trace[i]).thread.frames@.len() > 0,
                forall|i: int| 0 <= i < results.len() ==> #[trigger] trace[i].step_spec(trace[i + 1], results[i]),
                forall|i: int| 0 <= i < results.len() ==> (#[trigger] results[i]) is Ok,
            decreases left,
        {
            if self.thread.frames.len() == 0 {
                let out = match self.thread.ex {
                    Some(o) => RunOutcome::Uncaught(o),
                    None => RunOutcome::Returned(self.result),
                };
                assert(results.len() > 0 ==> results[results.len() - 1] is Ok);
                assert(run_trace(*old(self), *self, trace, results, fuel, out));
                return out;
            }
            if left == 0 {
                assert(results.len() > 0 ==> results[results.len() - 1] is Ok);
                assert(run_trace(*old(self), *self, trace, results, fuel, RunOutcome::OutOfFuel));
                return RunOutcome::OutOfFuel;
            }
            let ghost before = *self;
            let ghost t0 = trace;
            let ghost r0 = results;
            let res = self.step();
            proof {
                trace = t0.push(*self);
                results = r0.push(res);
                assert forall|i: int| 0 <= i < results.len() implies (#[trigger] trace[i]).thread.frames@.len() > 0 by {
                    if i < results.len() - 1 {
                        assert(trace[i] == t0[i]);
                    }
                }
                assert forall|i: int| 0 <= i < results.len() implies #[trigger] trace[i].step_spec(trace[i + 1], results[i]) by {
                    if i == results.len() - 1 {
                        assert(trace[i] == before);
                        assert(trace[i + 1] == *self);
                        assert(results[i] == res);
                    } else {
                        assert(trace[i] == t0[i]);
                        assert(trace[i + 1] == t0[i + 1]);
                        assert(results[i] == r0[i]);
                        assert(t0[i].step_spec(t0[i + 1], r0[i]));
                    }
                }
                assert forall|i: int| 0 <= i < results.len() - 1 implies (#[trigger] results[i]) is Ok by {
                    assert(results[i] == r0[i]);
                }
            }
            match res {
                Ok(_) => {},
                Err(e) => {
                    assert(results[results.len() - 1] == res);
                    assert(run_trace(*old(self), *self, trace, results, fuel, RunOutcome::Fault(e)));
                    return RunOutcome::Fault(e);
                },
            }
            left = left - 1;
        }
    }

    /// Enters static method `mi` on a thread with no frame: a frame whose
    /// first locals are `args`, the others null, at `pc` 0; then its class
    /// is initialized, which may push `<clinit>` frames above it.
    pub fn enter_static(&mut self, mi: usize, args: &Vec<Slot>) -> (r: Result<(), VmFault>)
        requires
            old(self).wf(),
        ensures
            final(self).wf(),
            mi >= old(self).methods@.len() || old(self).thread.frames@.len() != 0 ==> r == Err::<
                (),
                VmFault,
            >(VmFault::BadOperand) && *final(self) == *old(self),
            mi < old(self).methods@.len() && old(self).thread.frames@.len() == 0 && args@.len()
                > old(self).methods@[mi as int].max_locals ==> r == Err::<(), VmFault>(
                VmFault::Frame(FrameError::LocalOutOfRange),
            ),
            mi < old(self).methods@.len() && old(self).thread.frames@.len() == 0 && args@.len()
                <= old(self).methods@[mi as int].max_locals && old(self).max_depth > 0 && r is Ok
                ==> {
                let f = final(self).thread.frames@[0];
                &&& final(self).thread.frames@.len() >= 1
                &&& f.method == mi
                &&& f.pc == 0
                &&& f.stack@.len() == 0
                &&& f.locals@.subrange(0, args@.len() as int) == args@
                &&& forall|k: int| args@.len() <= k < f.locals@.len() ==> f.locals@[k] == Slot::Null
                &&& final(self).result is None
            },
            mi < old(self).methods@.len() && old(self).thread.frames@.len() == 0 && args@.len()
                <= old(self).methods@[mi as int].max_locals && old(self).max_depth > 0
                && old(self).heap@.len() < 0xffff_ffff ==> r is Ok,
    {
        if mi >= self.methods.len() || self.thread.frames.len() != 0 {
            return Err(VmFault::BadOperand);
        }
        let m = &self.methods[mi];
        if args.len() > m.max_locals {
            return Err(VmFault::Frame(FrameError::LocalOutOfRange));
        }
        let mut f = Frame::new(mi, m.max_locals, m.max_stack);
        let mut k: usize = 0;
        while k < args.len()
            invariant
                self.wf(),
                mi < self.methods@.len(),
                k <= args@.len(),
                args@.len() <= f.max_locals,
                f.wf(),
                f.method == mi,
                f.pc == 0,
                f.stack@.len() == 0,
                f.max_stack == self.methods@[mi as int].max_stack,
                f.max_locals == self.methods@[mi as int].max_locals,
                f.monitor is None,
                forall|j: int| 0 <= j < k ==> f.locals@[j] == args@[j],
                forall|j: int| k <= j < f.locals@.len() ==> f.locals@[j] == Slot::Null,
            decreases args@.len() - k,
        {
            let _ = f.store(k, args[k]);
            k = k + 1;
        }
        assert(f.locals@.subrange(0, args@.len() as int) =~= args@);
        self.result = None;
        if let Err(e) = self.thread.push_frame(f, self.max_depth) {
            return match self.raise(e) {
                Ok(()) => Ok(()),
                Err(fault) => Err(fault),
            };
        }
        let c = self.methods[mi].class;
        let ghost f0 = self.thread.frames@[0];
        match self.touch(c) {
            Ok(_) => {
                assert(self.thread.frames@[0] == f0);
                Ok(())
            },
            Err(fault) => Err(fault),
        }
    }

    /// Calls static method `mi` with `args` (see `enter_static`) and runs
    /// at most `fuel` steps (see `run`).
    pub fn call_static(&mut self, mi: usize, args: &Vec<Slot>, fuel: u64) -> (r: RunOutcome)
        requires
            old(self).wf(),
        ensures
            final(self).wf(),
            mi >= old(self).methods@.len() || old(self).thread.frames@.len() != 0 ==> r
                == RunOutcome::Fault(VmFault::BadOperand) && *final(self) == *old(self),
            mi < old(self).methods@.len() && old(self).thread.frames@.len() == 0 && args@.len()
                > old(self).methods@[mi as int].max_locals ==> r == RunOutcome::Fault(
                VmFault::Frame(FrameError::LocalOutOfRange),
            ),
            r matches RunOutcome::Returned(v) ==> final(self).thread.frames@.len() == 0
                && final(self).thread.current_ex() is None && v == final(self).result,
            r matches RunOutcome::Uncaught(o) ==> final(self).thread.frames@.len() == 0
                && final(self).thread.current_ex() == Some(o),
            r == RunOutcome::OutOfFuel ==> final(self).thread.frames@.len() > 0,
            mi < old(self).methods@.len() && old(self).thread.frames@.len() == 0 && args@.len()
                <= old(self).methods@[mi as int].max_locals && old(self).max_depth > 0
                && old(self).heap@.len() < 0xffff_ffff ==> exists|
                mid: Vm,
                trace: Seq<Vm>,
                results: Seq<Result<Option<Effect>, VmFault>>,
            |
                #[trigger] run_trace(mid, *final(self), trace, results, fuel, r) && entered_static(
                    mid,
                    mi,
                    args@,
                ),
    {
        match self.enter_static(mi, args) {
            Ok(()) => {
                let ghost mid = *self;
                let out = self.run(fuel);
                proof {
                    let (t, rs) = choose|t: Seq<Vm>, rs: Seq<Result<Option<Effect>, VmFault>>|
                        #[trigger] run_trace(mid, *self, t, rs, fuel, out);
                    if old(self).max_depth > 0 && args@.len() <= old(self).methods@[mi as int].max_locals {
                        assert(run_trace(mid, *self, t, rs, fuel, out) && entered_static(mid, mi, args@));
                    }
                }
                out
            },
            Err(fault) => RunOutcome::Fault(fault),
        }
    }
}

} // verus!
