//! The core of a Java virtual machine: value slots, arithmetic opcodes,
//! activation frames, method descriptors, exception unwinding, class
//! initialization, threads, the decisions of the main thread, and an engine
//! that runs bytecode over them.
use vstd::prelude::*;

pub mod value;
pub mod arith;
pub mod frame;
pub mod class;
pub mod method;
pub mod descriptor;
pub mod thread;
pub mod native;
pub mod instruction;
pub mod main_thread;
pub mod exec;
pub mod interp;

verus! {

} // verus!
