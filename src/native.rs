use vstd::prelude::*;
use crate::value::{JavaException, Slot};

verus! {

broadcast use vstd::string::to_string_from_display_ensures_for_str;

/// The native handlers that the core registers.
#[derive(Clone, Copy, Debug, PartialEq, Eq, Structural)]
pub enum NativeHandler {
    /// `sun.misc.VM.initialize()V`
    VmInitialize,
}

/// One registration: a method's name and descriptor, and its handler.
pub struct JNINativeMethod {
    pub name: String,
    pub signature: String,
    pub handler: NativeHandler,
}

/// The native methods of `sun.misc.VM`: `initialize()V` alone.
pub fn get_native_methods() -> (r: Vec<JNINativeMethod>)
    ensures
        r@.len() == 1,
        r@[0].name@ == "initialize"@,
        r@[0].signature@ == "()V"@,
        r@[0].handler == NativeHandler::VmInitialize,
{
    let mut v: Vec<JNINativeMethod> = Vec::new();
    v.push(
        JNINativeMethod {
            name: "initialize".to_string(),
            signature: "()V".to_string(),
            handler: NativeHandler::VmInitialize,
        },
    );
    v
}

/// `sun.misc.VM.initialize()`: nothing to do, returns void.
pub fn jvm_initialize(args: &Vec<Slot>) -> (r: Result<Option<Slot>, JavaException>)
    ensures
        r == Ok::<Option<Slot>, JavaException>(None),
{
    Ok(None)
}

/// Runs the handler `h` on `args`: its result, or the exception it raises.
pub fn call_native(h: NativeHandler, args: &Vec<Slot>) -> (r: Result<Option<Slot>, JavaException>)
    ensures
        h == NativeHandler::VmInitialize ==> r == Ok::<Option<Slot>, JavaException>(None),
{
    match h {
        NativeHandler::VmInitialize => jvm_initialize(args),
    }
}

} // verus!
