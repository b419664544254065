use vstd::prelude::*;

verus! {

/// Where a class stands in its initialization.
#[derive(Clone, Copy, Debug, PartialEq, Eq, Structural)]
pub enum InitState {
    Loaded,
    Linked,
    /// `<clinit>` is being run by the thread with this id.
    InProgress(u64),
    Initialized,
    Error,
}

/// What a thread that touches a class must do next.
#[derive(Clone, Copy, Debug, PartialEq, Eq, Structural)]
pub enum InitAction {
    /// The class is usable now.
    Ready,
    /// An earlier initialization failed: raise `NoClassDefFoundError`.
    NoClassDef,
    /// Another thread is initializing it: wait, then ask again.
    Wait,
    /// This thread now owns the initialization: initialize `superclass`
    /// (when it is given) and then run `<clinit>`.
    Run { superclass: Option<usize> },
}

/// How a finished initialization ends for the thread that ran it.
#[derive(Clone, Copy, Debug, PartialEq, Eq, Structural)]
pub enum InitOutcome {
    Initialized,
    /// `<clinit>` threw an `Error`: it propagates as it is.
    Rethrow,
    /// `<clinit>` threw another exception: it is wrapped in an
    /// `ExceptionInInitializerError`.
    WrapInInitializerError,
}

/// One loaded class: its superclass (loaded before it) and its
/// initialization state.
#[derive(Clone, Copy, Debug, PartialEq, Eq, Structural)]
pub struct ClassInfo {
    pub super_class: Option<usize>,
    pub state: InitState,
}

/// The classes loaded so far, indexed in load order.
pub struct ClassTable {
    pub classes: Vec<ClassInfo>,
}

/// The state and action of a thread `t` that touches a class in state `s`.
pub open spec fn begin_spec(s: InitState, sup: Option<usize>, t: u64) -> (InitState, InitAction) {
    match s {
        InitState::Initialized => (s, InitAction::Ready),
        InitState::Error => (s, InitAction::NoClassDef),
        InitState::InProgress(owner) => if owner == t {
            (s, InitAction::Ready)
        } else {
            (s, InitAction::Wait)
        },
        _ => (InitState::InProgress(t), InitAction::Run { superclass: sup }),
    }
}

/// The state after the owner's `<clinit>` ended, normally when `ok`.
pub open spec fn finish_spec(ok: bool) -> InitState {
    if ok {
        InitState::Initialized
    } else {
        InitState::Error
    }
}

impl ClassTable {
    /// Each superclass was loaded before its subclass.
    pub open spec fn wf(&self) -> bool {
        forall|i: int|
            0 <= i < self.classes@.len() ==> ((#[trigger] self.classes@[i]).super_class matches Some(
                s,
            ) ==> s < i)
    }

    /// `c` is `t` or one of its subclasses.
    pub open spec fn is_subclass(&self, c: int, t: int) -> bool
        decreases c,
        when c >= 0
    {
        if c == t {
            true
        } else if 0 <= c < self.classes@.len() {
            match self.classes@[c].super_class {
                Some(s) => if s < c {
                    self.is_subclass(s as int, t)
                } else {
                    false
                },
                None => false,
            }
        } else {
            false
        }
    }

    pub fn new() -> (r: ClassTable)
        ensures
            r.wf(),
            r.classes@.len() == 0,
    {
        ClassTable { classes: Vec::new() }
    }

    /// Adds a linked class whose superclass is already loaded; returns its
    /// index.
    pub fn add_class(&mut self, super_class: Option<usize>) -> (r: usize)
        requires
            old(self).wf(),
            old(self).classes@.len() < usize::MAX,
            (super_class matches Some(s) ==> s < old(self).classes@.len()),
        ensures
            final(self).wf(),
            r == old(self).classes@.len(),
            final(self).classes@ == old(self).classes@.push(
                ClassInfo { super_class, state: InitState::Linked },
            ),
    {
        let r = self.classes.len();
        self.classes.push(ClassInfo { super_class, state: InitState::Linked });
        r
    }

    /// Whether class `c` is class `t` or a subclass of it.
    pub fn subclass_of(&self, c: usize, t: usize) -> (r: bool)
        requires
            self.wf(),
        ensures
            r == self.is_subclass(c as int, t as int),
    {
        let mut cur: usize = c;
        loop
            invariant
                self.wf(),
                self.is_subclass(c as int, t as int) == self.is_subclass(cur as int, t as int),
            decreases cur,
        {
            if cur == t {
                return true;
            }
            if cur >= self.classes.len() {
                return false;
            }
            match self.classes[cur].super_class {
                Some(s) => {
                    assert(s < cur);
                    cur = s;
                },
                None => {
                    return false;
                },
            }
        }
    }

    /// The first touch of class `c` by thread `t`: decides what `t` does and
    /// claims the initialization when nobody has.
    pub fn begin_init(&mut self, c: usize, t: u64) -> (r: InitAction)
        requires
            old(self).wf(),
            c < old(self).classes@.len(),
        ensures
            final(self).wf(),
            final(self).classes@.len() == old(self).classes@.len(),
            (final(self).classes@[c as int].state, r) == begin_spec(
                old(self).classes@[c as int].state,
                old(self).super_to_init(c as int),
                t,
            ),
            final(self).classes@ == old(self).classes@.update(
                c as int,
                ClassInfo {
                    super_class: old(self).classes@[c as int].super_class,
                    state: final(self).classes@[c as int].state,
                },
            ),
    {
        let info = self.classes[c];
        let sup = match info.super_class {
            Some(s) => if s < self.classes.len() && !matches!(self.classes[s].state, InitState::Initialized) {
                Some(s)
            } else {
                None
            },
            None => None,
        };
        match info.state {
            InitState::Initialized => InitAction::Ready,
            InitState::Error => InitAction::NoClassDef,
            InitState::InProgress(owner) => {
                if owner == t {
                    InitAction::Ready
                } else {
                    InitAction::Wait
                }
            },
            _ => {
                self.classes.set(
                    c,
                    ClassInfo { super_class: info.super_class, state: InitState::InProgress(t) },
                );
                InitAction::Run { superclass: sup }
            },
        }
    }

    /// The superclass of `c` that still has to be initialized, if any.
    pub open spec fn super_to_init(&self, c: int) -> Option<usize> {
        match self.classes@[c].super_class {
            Some(s) => if s < self.classes@.len() && self.classes@[s as int].state
                != InitState::Initialized {
                Some(s)
            } else {
                None
            },
            None => None,
        }
    }

    /// The owner's initialization of `c` ended: normally when `ok`, else by
    /// an exception that is an `Error` when `thrown_error`.
    pub fn finish_init(&mut self, c: usize, ok: bool, thrown_error: bool) -> (r: InitOutcome)
        requires
            old(self).wf(),
            c < old(self).classes@.len(),
        ensures
            final(self).wf(),
            final(self).classes@ == old(self).classes@.update(
                c as int,
                ClassInfo {
                    super_class: old(self).classes@[c as int].super_class,
                    state: finish_spec(ok),
                },
            ),
            ok ==> r == InitOutcome::Initialized,
            !ok && thrown_error ==> r == InitOutcome::Rethrow,
            !ok && !thrown_error ==> r == InitOutcome::WrapInInitializerError,
    {
        let sc = self.classes[c].super_class;
        if ok {
            self.classes.set(c, ClassInfo { super_class: sc, state: InitState::Initialized });
            InitOutcome::Initialized
        } else {
            self.classes.set(c, ClassInfo { super_class: sc, state: InitState::Error });
            if thrown_error {
                InitOutcome::Rethrow
            } else {
                InitOutcome::WrapInInitializerError
            }
        }
    }
}

/// `<clinit>` is claimed at most once: once a thread has been told to run it,
/// no later touch by any thread is told so again, whatever the outcome of
/// the run.
pub proof fn law_clinit_claimed_once(
    s: InitState,
    sup: Option<usize>,
    t1: u64,
    t2: u64,
    ok: bool,
)
    requires
        begin_spec(s, sup, t1).1 is Run,
    ensures
        begin_spec(s, sup, t1).0 == InitState::InProgress(t1),
        !(begin_spec(begin_spec(s, sup, t1).0, sup, t2).1 is Run),
        !(begin_spec(finish_spec(ok), sup, t2).1 is Run),
        ok ==> begin_spec(finish_spec(ok), sup, t2).1 == InitAction::Ready,
        !ok ==> begin_spec(finish_spec(ok), sup, t2).1 == InitAction::NoClassDef,
{
}

} // verus!
