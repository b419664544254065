use vstd::prelude::*;

verus! {

/// A reference to a heap object: an index into the object arena.
#[derive(Clone, Copy, Debug, PartialEq, Eq, Structural)]
pub struct OopRef {
    pub handle: u32,
}

/// One typed cell of the operand stack or of the locals. A `long` or a
/// `double` occupies two cells: the value, then a `Second` marker above it.
/// Floating-point values are held by their IEEE-754 bit patterns.
#[derive(Clone, Copy, Debug, PartialEq, Eq, Structural)]
pub enum Slot {
    Int(i32),
    Float(u32),
    Long(i64),
    Double(u64),
    Ref(OopRef),
    Null,
    Second,
}

/// The Java-visible exceptions that the core raises itself.
#[derive(Clone, Copy, Debug, PartialEq, Eq, Structural)]
pub enum JavaException {
    NullPointer,
    Arithmetic,
    ArrayIndexOutOfBounds,
    NegativeArraySize,
    ClassCast,
    StackOverflowError,
    AbstractMethodError,
    ExceptionInInitializerError,
    NoClassDefFoundError,
    IllegalMonitorState,
}

impl Slot {
    /// Category-2 values (long, double) take two cells.
    pub open spec fn is_category2(self) -> bool {
        self is Long || self is Double
    }

    pub fn category2(&self) -> (r: bool)
        ensures
            r == self.is_category2(),
    {
        match self {
            Slot::Long(_) | Slot::Double(_) => true,
            _ => false,
        }
    }
}

} // verus!
