use vstd::prelude::*;

verus! {

/// The opcodes that the decoders of this module produce.
#[allow(non_camel_case_types)]
#[derive(Clone, Copy, Debug, PartialEq, Eq, Structural)]
pub enum OpCode {
    astore_0,
    dconst_0,
    dreturn,
    dstore_0,
    f2d,
    i2f,
    lushr,
}

/// One decoded instruction: where it stands, what it is, its constant-pool
/// operand (0 when it has none) and whether a `wide` prefix came before it.
#[derive(Clone, Copy, Debug, PartialEq, Eq, Structural)]
pub struct InstructionInfo {
    pub pc: usize,
    pub op_code: OpCode,
    pub icp: usize,
    pub wide: bool,
}

/// A decoder for one opcode.
pub trait Instruction {
    /// The opcode this decoder reads.
    spec fn opcode(&self) -> OpCode;

    /// Decodes the instruction at `pc` of `codes`; returns it and the `pc`
    /// of the next one.
    fn run(&self, codes: &[u8], pc: usize) -> (r: (InstructionInfo, usize))
        requires
            pc < usize::MAX,
        ensures
            r.0 == (InstructionInfo { pc, op_code: self.opcode(), icp: 0, wide: false }),
            r.1 == pc + 1,
    ;
}

/// Decoder of `astore_0`.
#[allow(non_camel_case_types)]
pub struct Astore_0;

/// Decoder of `dconst_0`.
#[allow(non_camel_case_types)]
pub struct Dconst_0;

/// Decoder of `dreturn`.
pub struct Dreturn;

/// Decoder of `dstore_0`.
#[allow(non_camel_case_types)]
pub struct Dstore_0;

/// Decoder of `f2d`.
pub struct F2D;

/// Decoder of `i2f`.
pub struct I2F;

/// Decoder of `lushr`.
pub struct Lushr;

/// A one-byte instruction with no operand.
fn single_byte(op_code: OpCode, pc: usize) -> (r: (InstructionInfo, usize))
    requires
        pc < usize::MAX,
    ensures
        r.0 == (InstructionInfo { pc, op_code, icp: 0, wide: false }),
        r.1 == pc + 1,
{
    (InstructionInfo { pc, op_code, icp: 0, wide: false }, pc + 1)
}

impl Instruction for Astore_0 {
    open spec fn opcode(&self) -> OpCode {
        OpCode::astore_0
    }

    fn run(&self, _codes: &[u8], pc: usize) -> (r: (InstructionInfo, usize)) {
        single_byte(OpCode::astore_0, pc)
    }
}

impl Instruction for Dconst_0 {
    open spec fn opcode(&self) -> OpCode {
        OpCode::dconst_0
    }

    fn run(&self, _codes: &[u8], pc: usize) -> (r: (InstructionInfo, usize)) {
        single_byte(OpCode::dconst_0, pc)
    }
}

impl Instruction for Dreturn {
    open spec fn opcode(&self) -> OpCode {
        OpCode::dreturn
    }

    fn run(&self, _codes: &[u8], pc: usize) -> (r: (InstructionInfo, usize)) {
        single_byte(OpCode::dreturn, pc)
    }
}

impl Instruction for Dstore_0 {
    open spec fn opcode(&self) -> OpCode {
        OpCode::dstore_0
    }

    fn run(&self, _codes: &[u8], pc: usize) -> (r: (InstructionInfo, usize)) {
        single_byte(OpCode::dstore_0, pc)
    }
}

impl Instruction for F2D {
    open spec fn opcode(&self) -> OpCode {
        OpCode::f2d
    }

    fn run(&self, _codes: &[u8], pc: usize) -> (r: (InstructionInfo, usize)) {
        single_byte(OpCode::f2d, pc)
    }
}

impl Instruction for I2F {
    open spec fn opcode(&self) -> OpCode {
        OpCode::i2f
    }

    fn run(&self, _codes: &[u8], pc: usize) -> (r: (InstructionInfo, usize)) {
        single_byte(OpCode::i2f, pc)
    }
}

impl Instruction for Lushr {
    open spec fn opcode(&self) -> OpCode {
        OpCode::lushr
    }

    fn run(&self, _codes: &[u8], pc: usize) -> (r: (InstructionInfo, usize)) {
        single_byte(OpCode::lushr, pc)
    }
}

} // verus!
