use vstd::prelude::*;
use crate::exec::VmFault;
use crate::interp::{Vm, STRING, STRING_ARRAY};
use crate::thread::JavaThread;
use crate::value::{OopRef, Slot};

verus! {

/// What the host reports back to the main thread's driver.
#[derive(Clone, Copy, Debug, PartialEq, Eq, Structural)]
pub enum MainEvent {
    Started,
    VmInitialized,
    /// `main` came back, normally or with the thread's exception set;
    /// `dispatch_found` tells whether the class of the `java.lang.Thread`
    /// object has `dispatchUncaughtException(Throwable)`.
    MainReturned { dispatch_found: bool },
    /// `dispatchUncaughtException` came back.
    DispatchReturned,
    /// The uncaught exception was written to the diagnostic channel.
    Reported,
}

/// What the host must do next for the main thread.
#[derive(Clone, Copy, Debug, PartialEq, Eq, Structural)]
pub enum MainAction {
    InitializeVm,
    /// Resolve the main class and `main([Ljava/lang/String;)V`, build the
    /// argument stack and call it.
    InvokeMain,
    /// Call `thread_obj.dispatchUncaughtException(ex)`.
    CallDispatch { thread_obj: OopRef, ex: OopRef },
    /// Write the class name and detail message of `ex` out.
    Report { ex: OopRef },
    Exit(i32),
}

/// The thread that runs `main` of `class` with `args`.
pub struct JavaMainThread {
    pub class: String,
    pub args: Option<Vec<String>>,
    pub dispatch_uncaught_exception_called: bool,
}

impl JavaMainThread {
    pub fn new(class: String, args: Option<Vec<String>>) -> (r: JavaMainThread)
        ensures
            r.class == class,
            r.args == args,
            !r.dispatch_uncaught_exception_called,
    {
        JavaMainThread { class, args, dispatch_uncaught_exception_called: false }
    }

    /// One step of the main thread: from the event that the host reports,
    /// the next action. An exception left in `jt` after `main` goes once to
    /// `dispatchUncaughtException`, when the thread object has it, and
    /// otherwise, or when that call throws again, to the report. The exit
    /// status is 0 after a normal return of `main` and 1 after an uncaught
    /// exception.
    pub fn run(&mut self, jt: &mut JavaThread, event: MainEvent) -> (r: MainAction)
        ensures
            event == MainEvent::Started ==> r == MainAction::InitializeVm,
            event == MainEvent::VmInitialized ==> r == MainAction::InvokeMain,
            event == MainEvent::Reported ==> r == MainAction::Exit(1),
            event is MainReturned && old(jt).current_ex() is None ==> r == MainAction::Exit(0),
            event is MainReturned && old(jt).current_ex() is Some ==> {
                &&& final(self).dispatch_uncaught_exception_called
                &&& final(jt).current_ex() is None
                &&& if !old(self).dispatch_uncaught_exception_called && event->dispatch_found
                    && old(jt).java_thread_obj is Some {
                    r == (MainAction::CallDispatch {
                        thread_obj: old(jt).java_thread_obj->Some_0,
                        ex: old(jt).current_ex()->Some_0,
                    })
                } else {
                    r == (MainAction::Report { ex: old(jt).current_ex()->Some_0 })
                }
            },
            event == MainEvent::DispatchReturned ==> match old(jt).current_ex() {
                Some(ex) => r == (MainAction::Report { ex }) && final(jt).current_ex() is None,
                None => r == MainAction::Exit(1),
            },
            final(jt).frames == old(jt).frames,
            final(jt).held == old(jt).held,
            final(jt).callers == old(jt).callers,
            final(jt).java_thread_obj == old(jt).java_thread_obj,
            final(self).class == old(self).class,
            final(self).args == old(self).args,
            !(event is MainReturned) ==> final(self).dispatch_uncaught_exception_called
                == old(self).dispatch_uncaught_exception_called,
            (event is Started || event is VmInitialized || event is Reported || (event is MainReturned
                && old(jt).current_ex() is None) || (event is DispatchReturned && old(jt).current_ex() is None))
                ==> final(jt).current_ex() == old(jt).current_ex(),
    {
        match event {
            MainEvent::Started => MainAction::InitializeVm,
            MainEvent::VmInitialized => MainAction::InvokeMain,
            MainEvent::MainReturned { dispatch_found } => {
                if jt.is_meet_ex() {
                    self.uncaught_ex(jt, dispatch_found)
                } else {
                    MainAction::Exit(0)
                }
            },
            MainEvent::DispatchReturned => {
                if jt.is_meet_ex() {
                    self.uncaught_ex_internal(jt)
                } else {
                    MainAction::Exit(1)
                }
            },
            MainEvent::Reported => MainAction::Exit(1),
        }
    }

    /// The operand stack that `main` is called with: a reference to a new
    /// `String[]` in `vm`'s heap holding a new `String` for each argument,
    /// in order, or a single null when there are no arguments.
    pub fn build_stack(&self, vm: &mut Vm) -> (r: Result<Vec<Slot>, VmFault>)
        requires
            old(vm).wf(),
        ensures
            final(vm).wf(),
            final(vm).thread == old(vm).thread,
            final(vm).methods == old(vm).methods,
            final(vm).classes == old(vm).classes,
            r is Err ==> r == Err::<Vec<Slot>, VmFault>(VmFault::HeapExhausted),
            old(vm).heap@.len() + (match self.args {
                Some(a) => a@.len() as int,
                None => 0,
            }) + 1 < 0xffff_ffff ==> r is Ok,
            r matches Ok(stack) ==> {
                &&& stack@.len() == 1
                &&& stack@[0] is Ref
                &&& {
                    let arr = stack@[0]->Ref_0;
                    let obj = final(vm).heap@[arr.handle as int];
                    &&& arr.handle < final(vm).heap@.len()
                    &&& obj.class == STRING_ARRAY
                    &&& obj.is_array
                    &&& match self.args {
                        None => obj.elems@ == seq![Slot::Null],
                        Some(args) => {
                            &&& obj.elems@.len() == args@.len()
                            &&& forall|k: int|
                                0 <= k < args@.len() ==> {
                                    let e = #[trigger] obj.elems@[k];
                                    &&& e is Ref
                                    &&& e->Ref_0.handle < final(vm).heap@.len()
                                    &&& final(vm).heap@[e->Ref_0.handle as int].class == STRING
                                    &&& final(vm).heap@[e->Ref_0.handle as int].text == Some(args@[k])
                                }
                        },
                    }
                }
            },
    {
        let mut elems: Vec<Slot> = Vec::new();
        match &self.args {
            Some(args) => {
                let mut k: usize = 0;
                while k < args.len()
                    invariant
                        vm.wf(),
                        vm.thread == old(vm).thread,
                        vm.methods == old(vm).methods,
                        vm.classes == old(vm).classes,
                        k <= args@.len(),
                        elems@.len() == k,
                        vm.heap@.len() == old(vm).heap@.len() + k,
                        self.args == Some(*args),
                        forall|j: int|
                            0 <= j < k ==> {
                                let e = #[trigger] elems@[j];
                                &&& e is Ref
                                &&& e->Ref_0.handle < vm.heap@.len()
                                &&& vm.heap@[e->Ref_0.handle as int].class == STRING
                                &&& vm.heap@[e->Ref_0.handle as int].text == Some(args@[j])
                            },
                    decreases args@.len() - k,
                {
                    let ghost h0 = vm.heap@;
                    let o = match vm.new_string(args[k].clone()) {
                        Ok(o) => o,
                        Err(_) => {
                            return Err(VmFault::HeapExhausted);
                        },
                    };
                    proof {
                        assert forall|j: int| 0 <= j < k implies vm.heap@[(#[trigger] elems@[j])->Ref_0.handle as int]
                            == h0[elems@[j]->Ref_0.handle as int] by {
                            assert(vm.heap@.subrange(0, h0.len() as int)[elems@[j]->Ref_0.handle as int]
                                == h0[elems@[j]->Ref_0.handle as int]);
                        }
                    }
                    elems.push(Slot::Ref(o));
                    k = k + 1;
                }
            },
            None => {
                elems.push(Slot::Null);
            },
        }
        let ghost h1 = vm.heap@;
        let ghost es = elems@;
        let arr = match vm.new_array(STRING_ARRAY, elems) {
            Ok(a) => a,
            Err(_) => {
                return Err(VmFault::HeapExhausted);
            },
        };
        proof {
            assert forall|j: int| 0 <= j < es.len() && es[j] is Ref && es[j]->Ref_0.handle < h1.len() implies vm.heap@[
                (#[trigger] es[j])->Ref_0.handle as int] == h1[es[j]->Ref_0.handle as int] by {
                assert(vm.heap@.subrange(0, h1.len() as int)[es[j]->Ref_0.handle as int]
                    == h1[es[j]->Ref_0.handle as int]);
            }
        }
        let mut stack: Vec<Slot> = Vec::new();
        stack.push(Slot::Ref(arr));
        Ok(stack)
    }

    /// An exception reached the bottom of the main thread: it goes to
    /// `dispatchUncaughtException` the first time only.
    pub fn uncaught_ex(&mut self, jt: &mut JavaThread, dispatch_found: bool) -> (r: MainAction)
        requires
            old(jt).current_ex() is Some,
        ensures
            final(self).dispatch_uncaught_exception_called,
            final(self).class == old(self).class,
            final(self).args == old(self).args,
            final(jt).current_ex() is None,
            final(jt).frames == old(jt).frames,
            final(jt).held == old(jt).held,
            final(jt).callers == old(jt).callers,
            final(jt).java_thread_obj == old(jt).java_thread_obj,
            if !old(self).dispatch_uncaught_exception_called && dispatch_found
                && old(jt).java_thread_obj is Some {
                r == (MainAction::CallDispatch {
                    thread_obj: old(jt).java_thread_obj->Some_0,
                    ex: old(jt).current_ex()->Some_0,
                })
            } else {
                r == (MainAction::Report { ex: old(jt).current_ex()->Some_0 })
            },
    {
        if self.dispatch_uncaught_exception_called {
            self.uncaught_ex_internal(jt)
        } else {
            self.dispatch_uncaught_exception_called = true;
            self.call_dispatch_uncaught_exception(jt, dispatch_found)
        }
    }

    /// Hands the exception to `dispatchUncaughtException` of the thread
    /// object when there is one that has it; otherwise to the report.
    pub fn call_dispatch_uncaught_exception(&mut self, jt: &mut JavaThread, dispatch_found: bool) -> (r:
        MainAction)
        requires
            old(jt).current_ex() is Some,
        ensures
            *final(self) == *old(self),
            final(jt).current_ex() is None,
            final(jt).frames == old(jt).frames,
            final(jt).held == old(jt).held,
            final(jt).callers == old(jt).callers,
            final(jt).java_thread_obj == old(jt).java_thread_obj,
            if dispatch_found && old(jt).java_thread_obj is Some {
                r == (MainAction::CallDispatch {
                    thread_obj: old(jt).java_thread_obj->Some_0,
                    ex: old(jt).current_ex()->Some_0,
                })
            } else {
                r == (MainAction::Report { ex: old(jt).current_ex()->Some_0 })
            },
    {
        match jt.java_thread_obj {
            Some(obj) => {
                if dispatch_found {
                    match jt.take_ex() {
                        Some(ex) => MainAction::CallDispatch { thread_obj: obj, ex },
                        None => MainAction::Exit(1),
                    }
                } else {
                    self.uncaught_ex_internal(jt)
                }
            },
            None => self.uncaught_ex_internal(jt),
        }
    }

    /// The fallback: the exception is taken and goes to the report.
    pub fn uncaught_ex_internal(&mut self, jt: &mut JavaThread) -> (r: MainAction)
        requires
            old(jt).current_ex() is Some,
        ensures
            *final(self) == *old(self),
            final(jt).current_ex() is None,
            final(jt).frames == old(jt).frames,
            final(jt).held == old(jt).held,
            final(jt).callers == old(jt).callers,
            final(jt).in_safe_point == old(jt).in_safe_point,
            final(jt).java_thread_obj == old(jt).java_thread_obj,
            r == (MainAction::Report { ex: old(jt).current_ex()->Some_0 }),
    {
        match jt.take_ex() {
            Some(ex) => MainAction::Report { ex },
            None => MainAction::Exit(1),
        }
    }
}

} // verus!
