use vstd::prelude::*;
use crate::class::ClassTable;
use crate::native::NativeHandler;

verus! {

/// One entry of a method's exception table: `[start_pc, end_pc)` is
/// guarded, `handler_pc` receives control, and `catch_type` is the resolved
/// class caught, or `None` for any.
#[derive(Clone, Copy, Debug, PartialEq, Eq, Structural)]
pub struct ExEntry {
    pub start_pc: usize,
    pub end_pc: usize,
    pub handler_pc: usize,
    pub catch_type: Option<usize>,
}

/// What a method returns: nothing, one cell, or a category-2 value.
#[derive(Clone, Copy, Debug, PartialEq, Eq, Structural)]
pub enum ReturnKind {
    Void,
    Single,
    Double,
}

/// A resolved method with its code.
pub struct Method {
    pub class: usize,
    /// The method's name.
    pub name: Vec<u8>,
    /// The method descriptor, `(params)ret`.
    pub descriptor: Vec<u8>,
    pub code: Vec<u8>,
    pub max_locals: usize,
    pub max_stack: usize,
    pub ex_table: Vec<ExEntry>,
    pub is_static: bool,
    pub is_synchronized: bool,
    /// The registered handler of a `native` method.
    pub native: Option<NativeHandler>,
}

impl Method {
    /// The method is `name` with `descriptor` in class `class`.
    pub open spec fn matches_signature(&self, class: usize, name: Seq<u8>, descriptor: Seq<u8>) -> bool {
        self.class == class && self.name@ == name && self.descriptor@ == descriptor
    }
}

/// Entry `e` guards `pc` and catches an exception of class `ex_class`.
pub open spec fn entry_matches(e: ExEntry, pc: int, ex_class: int, classes: ClassTable) -> bool {
    &&& e.start_pc <= pc < e.end_pc
    &&& match e.catch_type {
        None => true,
        Some(t) => classes.is_subclass(ex_class, t as int),
    }
}

/// Entry `i` is the first of `table` that catches the exception.
pub open spec fn is_first_match(
    table: Seq<ExEntry>,
    i: int,
    pc: int,
    ex_class: int,
    classes: ClassTable,
) -> bool {
    &&& 0 <= i < table.len()
    &&& entry_matches(table[i], pc, ex_class, classes)
    &&& forall|j: int| 0 <= j < i ==> !entry_matches(#[trigger] table[j], pc, ex_class, classes)
}

/// No entry of `table` catches the exception.
pub open spec fn no_match(table: Seq<ExEntry>, pc: int, ex_class: int, classes: ClassTable) -> bool {
    forall|j: int| 0 <= j < table.len() ==> !entry_matches(#[trigger] table[j], pc, ex_class, classes)
}

/// The entry that handles an exception of class `ex_class` thrown at `pc`:
/// the entries are tried in their order and the first that matches wins.
pub fn find_handler(table: &Vec<ExEntry>, pc: usize, ex_class: usize, classes: &ClassTable) -> (r:
    Option<usize>)
    requires
        classes.wf(),
    ensures
        r matches Some(i) ==> is_first_match(table@, i as int, pc as int, ex_class as int, *classes),
        r is None ==> no_match(table@, pc as int, ex_class as int, *classes),
{
    let mut i: usize = 0;
    while i < table.len()
        invariant
            classes.wf(),
            i <= table@.len(),
            forall|j: int|
                0 <= j < i ==> !entry_matches(#[trigger] table@[j], pc as int, ex_class as int, *classes),
        decreases table@.len() - i,
    {
        let e = table[i];
        if e.start_pc <= pc && pc < e.end_pc {
            let caught = match e.catch_type {
                None => true,
                Some(t) => classes.subclass_of(ex_class, t),
            };
            if caught {
                return Some(i);
            }
        }
        i = i + 1;
    }
    None
}

/// Whether two byte strings are equal.
pub fn bytes_eq(a: &Vec<u8>, b: &Vec<u8>) -> (r: bool)
    ensures
        r == (a@ == b@),
{
    if a.len() != b.len() {
        return false;
    }
    let mut i: usize = 0;
    while i < a.len()
        invariant
            a@.len() == b@.len(),
            i <= a@.len(),
            forall|j: int| 0 <= j < i ==> a@[j] == b@[j],
        decreases a@.len() - i,
    {
        if a[i] != b[i] {
            return false;
        }
        i = i + 1;
    }
    assert(a@ =~= b@);
    true
}

} // verus!
