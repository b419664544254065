use jvm::instruction::{
    Astore_0, Dconst_0, Dreturn, Dstore_0, Instruction, InstructionInfo, Lushr, OpCode, F2D, I2F,
};
use jvm::native::{call_native, get_native_methods, jvm_initialize, NativeHandler};

#[test]
fn vm_natives_register_initialize() {
    let m = get_native_methods();
    assert_eq!(m.len(), 1);
    assert_eq!(m[0].name, "initialize");
    assert_eq!(m[0].signature, "()V");
    assert_eq!(m[0].handler, NativeHandler::VmInitialize);
    assert_eq!(jvm_initialize(&vec![]), Ok(None));
    assert_eq!(call_native(NativeHandler::VmInitialize, &vec![]), Ok(None));
}

fn info(pc: usize, op_code: OpCode) -> InstructionInfo {
    InstructionInfo { pc, op_code, icp: 0, wide: false }
}

#[test]
fn single_byte_decoders() {
    let codes = [0u8; 8];
    assert_eq!(Astore_0.run(&codes, 3), (info(3, OpCode::astore_0), 4));
    assert_eq!(Dconst_0.run(&codes, 0), (info(0, OpCode::dconst_0), 1));
    assert_eq!(Dreturn.run(&codes, 5), (info(5, OpCode::dreturn), 6));
    assert_eq!(Dstore_0.run(&codes, 1), (info(1, OpCode::dstore_0), 2));
    assert_eq!(F2D.run(&codes, 2), (info(2, OpCode::f2d), 3));
    assert_eq!(I2F.run(&codes, 7), (info(7, OpCode::i2f), 8));
    assert_eq!(Lushr.run(&codes, 4), (info(4, OpCode::lushr), 5));
}
