use vstd::prelude::*;
use crate::arith::{
    i2l, iadd, idiv, imul, irem, ishl, ishr, isub, iushr, l2i, ladd, ldiv, lmul, lshl, lushr, trunc_div,
    trunc_rem, wrap32, wrap64,
};
use crate::frame::{dup_spec, pop_spec, swap_spec, Frame, FrameError};
use crate::value::{JavaException, OopRef, Slot};

verus! {

/// Failures of the engine itself: code that no verifier would pass.
#[derive(Clone, Copy, Debug, PartialEq, Eq, Structural)]
pub enum VmFault {
    Frame(FrameError),
    PcOutOfRange,
    BadOpcode(u8),
    WrongSlotType,
    BadOperand,
    HeapExhausted,
}

/// What an opcode asks of the engine beyond its own frame.
#[derive(Clone, Copy, Debug, PartialEq, Eq, Structural)]
pub enum Effect {
    /// The frame moved on by itself.
    Next,
    Raise(JavaException),
    /// `invokestatic` of method `mi`; `pc` still at the instruction.
    InvokeStatic(usize),
    /// `new` of class `c`; `pc` still at the instruction.
    New(usize),
    /// `newarray` of `len` ints; `pc` already past the instruction.
    NewIntArray(i32),
    /// `arraylength` on a reference; `pc` already past the instruction.
    ArrayLength(OopRef),
    Throw(OopRef),
    Return(Option<Slot>),
}

/// Byte `i` of `code`, or a fault past its end.
fn byte_at(code: &Vec<u8>, i: usize) -> (r: Result<u8, VmFault>)
    ensures
        i < code@.len() ==> r == Ok::<u8, VmFault>(code@[i as int]),
        i >= code@.len() ==> r == Err::<u8, VmFault>(VmFault::PcOutOfRange),
{
    if i < code.len() {
        Ok(code[i])
    } else {
        Err(VmFault::PcOutOfRange)
    }
}

/// The big-endian 16-bit operand after the opcode at `pc`.
fn operand_u16(code: &Vec<u8>, pc: usize) -> (r: Result<usize, VmFault>)
    ensures
        pc + 2 < code@.len() ==> r is Ok && r->Ok_0 == code@[pc + 1] as int * 256
            + code@[pc + 2] as int,
        pc + 2 >= code@.len() ==> r is Err,
{
    if pc >= code.len() || code.len() - pc <= 2 {
        return Err(VmFault::PcOutOfRange);
    }
    let hi = code[pc + 1] as usize;
    let lo = code[pc + 2] as usize;
    Ok(hi * 256 + lo)
}

fn pop_value(f: &mut Frame) -> (r: Result<Slot, VmFault>)
    requires
        old(f).wf(),
    ensures
        final(f).wf(),
        final(f).locals == old(f).locals,
        final(f).max_locals == old(f).max_locals,
        final(f).max_stack == old(f).max_stack,
        final(f).pc == old(f).pc,
        final(f).method == old(f).method,
        final(f).monitor == old(f).monitor,
        old(f).stack@.len() > 0 ==> r == Ok::<Slot, VmFault>(old(f).stack@.last())
            && final(f).stack@ == old(f).stack@.drop_last(),
        old(f).stack@.len() == 0 ==> r is Err,
{
    match f.pop() {
        Ok(v) => Ok(v),
        Err(e) => Err(VmFault::Frame(e)),
    }
}

fn pop_int(f: &mut Frame) -> (r: Result<i32, VmFault>)
    requires
        old(f).wf(),
    ensures
        final(f).wf(),
        final(f).locals == old(f).locals,
        final(f).max_locals == old(f).max_locals,
        final(f).max_stack == old(f).max_stack,
        final(f).pc == old(f).pc,
        final(f).method == old(f).method,
        final(f).monitor == old(f).monitor,
        old(f).stack@.len() > 0 && old(f).stack@.last() is Int ==> r == Ok::<i32, VmFault>(
            old(f).stack@.last()->Int_0,
        ) && final(f).stack@ == old(f).stack@.drop_last(),
        r is Ok ==> final(f).stack@ == old(f).stack@.drop_last(),
{
    match pop_value(f)? {
        Slot::Int(v) => Ok(v),
        _ => Err(VmFault::WrongSlotType),
    }
}

pub(crate) fn push_value(f: &mut Frame, v: Slot) -> (r: Result<(), VmFault>)
    requires
        old(f).wf(),
    ensures
        final(f).wf(),
        final(f).locals == old(f).locals,
        final(f).max_locals == old(f).max_locals,
        final(f).max_stack == old(f).max_stack,
        final(f).pc == old(f).pc,
        final(f).method == old(f).method,
        final(f).monitor == old(f).monitor,
        old(f).stack@.len() < old(f).max_stack ==> r is Ok && final(f).stack@ == old(f).stack@.push(v),
        r is Ok ==> final(f).stack@ == old(f).stack@.push(v),
{
    match f.push(v) {
        Ok(()) => Ok(()),
        Err(e) => Err(VmFault::Frame(e)),
    }
}

fn load_local(f: &mut Frame, i: usize) -> (r: Result<(), VmFault>)
    requires
        old(f).wf(),
    ensures
        final(f).wf(),
        i < old(f).max_locals && old(f).stack@.len() < old(f).max_stack ==> r is Ok
            && final(f).stack@ == old(f).stack@.push(old(f).locals@[i as int]),
        final(f).locals == old(f).locals,
        final(f).max_locals == old(f).max_locals,
        final(f).max_stack == old(f).max_stack,
        final(f).pc == old(f).pc,
        final(f).method == old(f).method,
        final(f).monitor == old(f).monitor,
{
    let v = match f.load(i) {
        Ok(v) => v,
        Err(e) => {
            return Err(VmFault::Frame(e));
        },
    };
    push_value(f, v)
}

fn store_local(f: &mut Frame, i: usize) -> (r: Result<(), VmFault>)
    requires
        old(f).wf(),
    ensures
        final(f).wf(),
        i < old(f).max_locals && old(f).stack@.len() >= 1 ==> r is Ok && final(f).stack@ == pop_spec(old(f).stack@)
            && final(f).locals@ == old(f).locals@.update(i as int, old(f).stack@.last()),
        final(f).max_locals == old(f).max_locals,
        final(f).max_stack == old(f).max_stack,
        final(f).pc == old(f).pc,
        final(f).method == old(f).method,
        final(f).monitor == old(f).monitor,
{
    let v = pop_value(f)?;
    match f.store(i, v) {
        Ok(()) => Ok(()),
        Err(e) => Err(VmFault::Frame(e)),
    }
}

/// Pops a `long` or `double`: its `Second` cell, then the value.
fn pop_wide(f: &mut Frame) -> (r: Result<Slot, VmFault>)
    requires
        old(f).wf(),
    ensures
        final(f).wf(),
        old(f).stack@.len() >= 2 && old(f).stack@.last() == Slot::Second ==> r == Ok::<Slot, VmFault>(
            old(f).stack@[old(f).stack@.len() - 2],
        ) && final(f).stack@ == old(f).stack@.subrange(0, old(f).stack@.len() - 2),
        final(f).locals == old(f).locals,
        final(f).max_locals == old(f).max_locals,
        final(f).max_stack == old(f).max_stack,
        final(f).pc == old(f).pc,
        final(f).method == old(f).method,
        final(f).monitor == old(f).monitor,
{
    match pop_value(f)? {
        Slot::Second => pop_value(f),
        _ => Err(VmFault::WrongSlotType),
    }
}

fn pop_long(f: &mut Frame) -> (r: Result<i64, VmFault>)
    requires
        old(f).wf(),
    ensures
        final(f).wf(),
        old(f).stack@.len() >= 2 && old(f).stack@.last() == Slot::Second && old(f).stack@[old(f).stack@.len()
            - 2] is Long ==> r == Ok::<i64, VmFault>(old(f).stack@[old(f).stack@.len() - 2]->Long_0)
            && final(f).stack@ == old(f).stack@.subrange(0, old(f).stack@.len() - 2),
        final(f).locals == old(f).locals,
        final(f).max_locals == old(f).max_locals,
        final(f).max_stack == old(f).max_stack,
        final(f).pc == old(f).pc,
        final(f).method == old(f).method,
        final(f).monitor == old(f).monitor,
{
    match pop_wide(f)? {
        Slot::Long(v) => Ok(v),
        _ => Err(VmFault::WrongSlotType),
    }
}

/// Pushes a `long`: the value, then its `Second` cell.
fn push_long(f: &mut Frame, v: i64) -> (r: Result<(), VmFault>)
    requires
        old(f).wf(),
    ensures
        final(f).wf(),
        old(f).stack@.len() + 2 <= old(f).max_stack ==> r is Ok && final(f).stack@ == old(f).stack@.push(
            Slot::Long(v),
        ).push(Slot::Second),
        final(f).locals == old(f).locals,
        final(f).max_locals == old(f).max_locals,
        final(f).max_stack == old(f).max_stack,
        final(f).pc == old(f).pc,
        final(f).method == old(f).method,
        final(f).monitor == old(f).monitor,
{
    push_value(f, Slot::Long(v))?;
    push_value(f, Slot::Second)
}

/// Moves `pc` by `len` bytes.
pub(crate) fn advance(f: &mut Frame, len: usize) -> (r: Result<(), VmFault>)
    requires
        old(f).wf(),
    ensures
        final(f).wf(),
        final(f).stack == old(f).stack,
        final(f).locals == old(f).locals,
        final(f).max_locals == old(f).max_locals,
        final(f).max_stack == old(f).max_stack,
        final(f).method == old(f).method,
        final(f).monitor == old(f).monitor,
        r is Ok ==> final(f).pc == old(f).pc + len,
        old(f).pc + len <= usize::MAX ==> r is Ok,
{
    if f.pc > usize::MAX - len {
        return Err(VmFault::PcOutOfRange);
    }
    f.pc = f.pc + len;
    Ok(())
}

/// Jumps by the signed 16-bit offset at `pc + 1` when `taken`, else moves
/// past the 3-byte branch.
fn branch(f: &mut Frame, code: &Vec<u8>, taken: bool) -> (r: Result<(), VmFault>)
    requires
        old(f).wf(),
    ensures
        final(f).wf(),
        final(f).stack == old(f).stack,
        final(f).locals == old(f).locals,
        final(f).max_locals == old(f).max_locals,
        final(f).max_stack == old(f).max_stack,
        final(f).method == old(f).method,
        final(f).monitor == old(f).monitor,
{
    let u = operand_u16(code, f.pc)?;
    if !taken {
        return advance(f, 3);
    }
    if u >= 0x8000 {
        let back = 0x1_0000 - u;
        if back > f.pc {
            return Err(VmFault::PcOutOfRange);
        }
        f.pc = f.pc - back;
        Ok(())
    } else {
        advance(f, u)
    }
}

/// What running the opcode at `f.pc` of `code` may do: `g` is the frame
/// after it and `r` the effect handed back.
pub open spec fn exec_spec(f: Frame, code: Seq<u8>, g: Frame, r: Result<Effect, VmFault>) -> bool {
    &&& g.wf()
    &&& g.max_locals == f.max_locals
    &&& g.max_stack == f.max_stack
    &&& g.method == f.method
    &&& g.monitor == f.monitor
    &&& f.pc >= code.len() ==> r == Err::<Effect, VmFault>(VmFault::PcOutOfRange)
    &&& ({
            let pc = f.pc as int;
            let s = f.stack@;
            let n = s.len();
            let op = code[pc];
            pc < code.len() ==> {
                &&& 0x02 <= op <= 0x08 && n < f.max_stack ==> r == Ok::<Effect, VmFault>(Effect::Next)
                    && g.stack@ == s.push(Slot::Int((op - 3) as i32)) && g.pc == pc + 1
                &&& (op == 0x60 || op == 0x64 || op == 0x68) && n >= 2 && s[n - 1] is Int && s[n - 2] is Int
                    ==> {
                    let a = s[n - 2]->Int_0 as int;
                    let b = s[n - 1]->Int_0 as int;
                    let v = if op == 0x60 { wrap32(a + b) } else if op == 0x64 { wrap32(a - b) } else { wrap32(a * b) };
                    &&& r == Ok::<Effect, VmFault>(Effect::Next)
                    &&& g.stack@ =~= s.subrange(0, n - 2).push(Slot::Int(v as i32))
                    &&& g.pc == pc + 1
                }
                &&& (op == 0x6c || op == 0x70) && n >= 2 && s[n - 1] == Slot::Int(0) && s[n - 2] is Int
                    ==> r == Ok::<Effect, VmFault>(Effect::Raise(JavaException::Arithmetic))
                &&& op == 0x6c && n >= 2 && s[n - 2] is Int && s[n - 1] is Int && s[n - 1]->Int_0 != 0
                    && !(s[n - 2]->Int_0 == i32::MIN && s[n - 1]->Int_0 == -1) ==> {
                    &&& r == Ok::<Effect, VmFault>(Effect::Next)
                    &&& g.stack@ =~= s.subrange(0, n - 2).push(
                        Slot::Int(trunc_div(s[n - 2]->Int_0 as int, s[n - 1]->Int_0 as int) as i32),
                    )
                    &&& g.pc == pc + 1
                }
                &&& (0x1a <= op <= 0x1d || 0x2a <= op <= 0x2d) && n < f.max_stack && (if op <= 0x1d { op - 0x1a } else { op - 0x2a }) < f.max_locals
                    ==> r == Ok::<Effect, VmFault>(Effect::Next) && g.stack@ == s.push(
                    f.locals@[if op <= 0x1d { op - 0x1a } else { op - 0x2a }],
                ) && g.locals == f.locals && g.pc == pc + 1
                &&& op == 0x01 && n < f.max_stack ==> r == Ok::<Effect, VmFault>(Effect::Next) && g.stack@ == s.push(Slot::Null)
                    && g.pc == pc + 1
                &&& op == 0x57 && n >= 1 ==> r == Ok::<Effect, VmFault>(Effect::Next) && g.stack@ == pop_spec(s) && g.pc == pc + 1
                &&& op == 0x59 && 0 < n < f.max_stack ==> r == Ok::<Effect, VmFault>(Effect::Next) && g.stack@ == dup_spec(s)
                    && g.pc == pc + 1
                &&& op == 0x5f && n >= 2 ==> r == Ok::<Effect, VmFault>(Effect::Next) && g.stack@ == swap_spec(s) && g.pc == pc + 1
                &&& op == 0x10 && pc + 1 < code.len() && n < f.max_stack ==> r == Ok::<Effect, VmFault>(Effect::Next)
                    && g.stack@ == s.push(Slot::Int((if code[pc + 1] >= 128 { code[pc + 1] - 256 } else { code[pc + 1] as int }) as i32))
                    && g.pc == pc + 2
                &&& 0x3b <= op <= 0x3e && n >= 1 && op - 0x3b < f.max_locals ==> r == Ok::<Effect, VmFault>(Effect::Next)
                    && g.stack@ == pop_spec(s) && g.locals@ == f.locals@.update(op - 0x3b, s[n - 1]) && g.pc == pc + 1
                &&& op == 0x70 && n >= 2 && s[n - 2] is Int && s[n - 1] is Int && s[n - 1]->Int_0 != 0 ==> {
                    &&& r == Ok::<Effect, VmFault>(Effect::Next)
                    &&& g.stack@ =~= s.subrange(0, n - 2).push(
                        Slot::Int(trunc_rem(s[n - 2]->Int_0 as int, s[n - 1]->Int_0 as int) as i32),
                    )
                    &&& g.pc == pc + 1
                }
                &&& op == 0x6c && n >= 2 && s[n - 2] == Slot::Int(i32::MIN) && s[n - 1] == Slot::Int(-1i32) ==> r
                    == Ok::<Effect, VmFault>(Effect::Next) && g.stack@ =~= s.subrange(0, n - 2).push(Slot::Int(i32::MIN))
                    && g.pc == pc + 1
                &&& op == 0xbe && n >= 1 && s[n - 1] is Ref ==> r == Ok::<Effect, VmFault>(
                    Effect::ArrayLength(s[n - 1]->Ref_0),
                ) && g.stack@ == pop_spec(s) && g.pc == pc + 1
                &&& op == 0xbb && pc + 2 < code.len() ==> r is Ok && r->Ok_0 is New
                    && r->Ok_0->New_0 == code[pc + 1] as int * 256 + code[pc + 2] as int
                    && g.pc == pc && g.stack@ == s
                &&& op == 0x78 && n >= 2 && s[n - 2] is Int && s[n - 1] is Int ==> r == Ok::<Effect, VmFault>(Effect::Next)
                    && g.stack@ =~= s.subrange(0, n - 2).push(
                    Slot::Int(s[n - 2]->Int_0 << ((s[n - 1]->Int_0 & 0x1f) as u32)),
                ) && g.pc == pc + 1
                &&& op == 0x85 && n >= 1 && s[n - 1] is Int && n + 1 <= f.max_stack ==> r == Ok::<Effect, VmFault>(
                    Effect::Next,
                ) && g.stack@ =~= s.drop_last().push(Slot::Long(s[n - 1]->Int_0 as i64)).push(Slot::Second)
                    && g.pc == pc + 1
                &&& (op == 0x7a || op == 0x7c) && n >= 2 && s[n - 2] is Int && s[n - 1] is Int ==> {
                    let x = s[n - 2]->Int_0;
                    let c = (s[n - 1]->Int_0 & 0x1f) as u32;
                    &&& r == Ok::<Effect, VmFault>(Effect::Next)
                    &&& g.stack@ =~= s.subrange(0, n - 2).push(
                        Slot::Int(if op == 0x7a { x >> c } else { ((x as u32) >> c) as i32 }),
                    )
                    &&& g.pc == pc + 1
                }
                &&& op == 0x7d && n >= 3 && s[n - 1] is Int && s[n - 2] == Slot::Second && s[n - 3] is Long ==> {
                    let x = s[n - 3]->Long_0;
                    &&& r == Ok::<Effect, VmFault>(Effect::Next)
                    &&& g.stack@ =~= s.subrange(0, n - 3).push(
                        Slot::Long(((x as u64) >> ((s[n - 1]->Int_0 & 0x3f) as u64)) as i64),
                    ).push(Slot::Second)
                    &&& g.pc == pc + 1
                }
                &&& op == 0x61 && n >= 4 && s[n - 1] == Slot::Second && s[n - 2] is Long && s[n - 3] == Slot::Second
                    && s[n - 4] is Long ==> {
                    &&& r == Ok::<Effect, VmFault>(Effect::Next)
                    &&& g.stack@ =~= s.subrange(0, n - 4).push(
                        Slot::Long(wrap64(s[n - 4]->Long_0 + s[n - 2]->Long_0) as i64),
                    ).push(Slot::Second)
                    &&& g.pc == pc + 1
                }
                &&& op == 0x88 && n >= 2 && s[n - 1] == Slot::Second && s[n - 2] is Long ==> r == Ok::<Effect, VmFault>(
                    Effect::Next,
                ) && g.stack@ =~= s.subrange(0, n - 2).push(Slot::Int(wrap32(s[n - 2]->Long_0 as int) as i32))
                    && g.pc == pc + 1
                &&& (op == 0xad || op == 0xaf) && n >= 2 && s[n - 1] == Slot::Second && (s[n - 2] is Long
                    || s[n - 2] is Double) ==> r == Ok::<Effect, VmFault>(Effect::Return(Some(s[n - 2])))
                &&& op == 0xb0 && n >= 1 && (s[n - 1] is Ref || s[n - 1] == Slot::Null) ==> r == Ok::<Effect, VmFault>(
                    Effect::Return(Some(s[n - 1])),
                )
                &&& op == 0xbc && n >= 1 && s[n - 1] is Int && pc + 2 <= usize::MAX ==> r == Ok::<Effect, VmFault>(
                    Effect::NewIntArray(s[n - 1]->Int_0),
                ) && g.stack@ == pop_spec(s) && g.pc == pc + 2
                &&& op == 0x11 && pc + 2 < code.len() && n < f.max_stack ==> {
                    let u = code[pc + 1] as int * 256 + code[pc + 2] as int;
                    &&& r == Ok::<Effect, VmFault>(Effect::Next)
                    &&& g.stack@ == s.push(Slot::Int((if u >= 0x8000 { u - 0x1_0000 } else { u }) as i32))
                    &&& g.pc == pc + 3
                }
                &&& op == 0x79 && n >= 3 && s[n - 1] is Int && s[n - 2] == Slot::Second && s[n - 3] is Long ==> r
                    == Ok::<Effect, VmFault>(Effect::Next) && g.pc == pc + 1 && g.stack@ =~= s.subrange(0, n - 3).push(
                    Slot::Long(s[n - 3]->Long_0 << ((s[n - 1]->Int_0 & 0x3f) as u64)),
                ).push(Slot::Second)
                &&& op == 0xac && n >= 1 && s[n - 1] is Int ==> r == Ok::<Effect, VmFault>(
                    Effect::Return(Some(s[n - 1])),
                )
                &&& op == 0xb1 ==> r == Ok::<Effect, VmFault>(Effect::Return(None))
                &&& (op == 0xbe || op == 0xbf) && n >= 1 && s[n - 1] == Slot::Null ==> r == Ok::<
                    Effect,
                    VmFault,
                >(Effect::Raise(JavaException::NullPointer))
                &&& op == 0xbf && n >= 1 && s[n - 1] is Ref ==> r == Ok::<Effect, VmFault>(
                    Effect::Throw(s[n - 1]->Ref_0),
                )
                &&& op == 0xb8 && pc + 2 < code.len() ==> r is Ok && r->Ok_0 is InvokeStatic
                    && r->Ok_0->InvokeStatic_0 == code[pc + 1] as int * 256 + code[pc + 2] as int
                    && g.pc == pc && g.stack@ == s
            }
        })
}

/// Runs the opcode at `pc` as far as the frame alone can: loads, stores,
/// constants, stack shuffles, int arithmetic and branches are done here;
/// the rest is handed back as an `Effect`. The frame stays well formed.
pub fn exec_in_frame(f: &mut Frame, code: &Vec<u8>) -> (r: Result<Effect, VmFault>)
    requires
        old(f).wf(),
    ensures
        exec_spec(*old(f), code@, *final(f), r),
{
    let pc = f.pc;
    if pc >= code.len() {
        return Err(VmFault::PcOutOfRange);
    }
    let op = code[pc];
    if 0x02 <= op && op <= 0x08 {
        push_value(f, Slot::Int(op as i32 - 3))?;
        advance(f, 1)?;
        return Ok(Effect::Next);
    }
    if 0x1a <= op && op <= 0x1d {
        load_local(f, (op - 0x1a) as usize)?;
        advance(f, 1)?;
        return Ok(Effect::Next);
    }
    if 0x2a <= op && op <= 0x2d {
        load_local(f, (op - 0x2a) as usize)?;
        advance(f, 1)?;
        return Ok(Effect::Next);
    }
    if 0x3b <= op && op <= 0x3e {
        store_local(f, (op - 0x3b) as usize)?;
        advance(f, 1)?;
        return Ok(Effect::Next);
    }
    if 0x4b <= op && op <= 0x4e {
        store_local(f, (op - 0x4b) as usize)?;
        advance(f, 1)?;
        return Ok(Effect::Next);
    }
    if 0x99 <= op && op <= 0x9e {
        let v = pop_int(f)?;
        let taken = if op == 0x99 {
            v == 0
        } else if op == 0x9a {
            v != 0
        } else if op == 0x9b {
            v < 0
        } else if op == 0x9c {
            v >= 0
        } else if op == 0x9d {
            v > 0
        } else {
            v <= 0
        };
        branch(f, code, taken)?;
        return Ok(Effect::Next);
    }
    if 0x9f <= op && op <= 0xa4 {
        let b = pop_int(f)?;
        let a = pop_int(f)?;
        let taken = if op == 0x9f {
            a == b
        } else if op == 0xa0 {
            a != b
        } else if op == 0xa1 {
            a < b
        } else if op == 0xa2 {
            a >= b
        } else if op == 0xa3 {
            a > b
        } else {
            a <= b
        };
        branch(f, code, taken)?;
        return Ok(Effect::Next);
    }
    if op == 0x60 || op == 0x64 || op == 0x68 || op == 0x6c || op == 0x70 {
        let b = pop_int(f)?;
        let a = pop_int(f)?;
        let v = if op == 0x60 {
            Ok(iadd(a, b))
        } else if op == 0x64 {
            Ok(isub(a, b))
        } else if op == 0x68 {
            Ok(imul(a, b))
        } else if op == 0x6c {
            idiv(a, b)
        } else {
            irem(a, b)
        };
        match v {
            Ok(x) => {
                push_value(f, Slot::Int(x))?;
                advance(f, 1)?;
                return Ok(Effect::Next);
            },
            Err(e) => {
                return Ok(Effect::Raise(e));
            },
        }
    }
    if op == 0x78 || op == 0x7a || op == 0x7c {
        let n = pop_int(f)?;
        let x = pop_int(f)?;
        let v = if op == 0x78 {
            ishl(x, n)
        } else if op == 0x7a {
            ishr(x, n)
        } else {
            iushr(x, n)
        };
        push_value(f, Slot::Int(v))?;
        advance(f, 1)?;
        return Ok(Effect::Next);
    }
    if op == 0x79 || op == 0x7d {
        let n = pop_int(f)?;
        let x = pop_long(f)?;
        let v = if op == 0x79 { lshl(x, n) } else { lushr(x, n) };
        push_long(f, v)?;
        advance(f, 1)?;
        return Ok(Effect::Next);
    }
    if op == 0x61 || op == 0x69 || op == 0x6d {
        let b = pop_long(f)?;
        let a = pop_long(f)?;
        let v = if op == 0x61 {
            Ok(ladd(a, b))
        } else if op == 0x69 {
            Ok(lmul(a, b))
        } else {
            ldiv(a, b)
        };
        match v {
            Ok(x) => {
                push_long(f, x)?;
                advance(f, 1)?;
                return Ok(Effect::Next);
            },
            Err(e) => {
                return Ok(Effect::Raise(e));
            },
        }
    }
    if op == 0x85 {
        let x = pop_int(f)?;
        let v = i2l(x);
        push_long(f, v)?;
        advance(f, 1)?;
        return Ok(Effect::Next);
    }
    if op == 0x88 {
        let x = pop_long(f)?;
        push_value(f, Slot::Int(l2i(x)))?;
        advance(f, 1)?;
        return Ok(Effect::Next);
    }
    if op == 0xad || op == 0xaf {
        let v = pop_wide(f)?;
        return match v {
            Slot::Long(_) | Slot::Double(_) => Ok(Effect::Return(Some(v))),
            _ => Err(VmFault::WrongSlotType),
        };
    }
    match op {
        0x00 => {
            advance(f, 1)?;
            Ok(Effect::Next)
        },
        0x01 => {
            push_value(f, Slot::Null)?;
            advance(f, 1)?;
            Ok(Effect::Next)
        },
        0x10 => {
            let b = byte_at(code, pc + 1)?;
            let v: i32 = if b >= 128 { b as i32 - 256 } else { b as i32 };
            push_value(f, Slot::Int(v))?;
            advance(f, 2)?;
            Ok(Effect::Next)
        },
        0x11 => {
            let u = operand_u16(code, pc)?;
            let v: i32 = if u >= 0x8000 { u as i32 - 0x1_0000 } else { u as i32 };
            push_value(f, Slot::Int(v))?;
            advance(f, 3)?;
            Ok(Effect::Next)
        },
        0x15 | 0x19 => {
            let i = byte_at(code, pc + 1)?;
            load_local(f, i as usize)?;
            advance(f, 2)?;
            Ok(Effect::Next)
        },
        0x36 | 0x3a => {
            let i = byte_at(code, pc + 1)?;
            store_local(f, i as usize)?;
            advance(f, 2)?;
            Ok(Effect::Next)
        },
        0x57 => {
            pop_value(f)?;
            advance(f, 1)?;
            Ok(Effect::Next)
        },
        0x59 => {
            match f.dup() {
                Ok(()) => {},
                Err(e) => {
                    return Err(VmFault::Frame(e));
                },
            }
            advance(f, 1)?;
            Ok(Effect::Next)
        },
        0x5f => {
            match f.swap() {
                Ok(()) => {},
                Err(e) => {
                    return Err(VmFault::Frame(e));
                },
            }
            advance(f, 1)?;
            Ok(Effect::Next)
        },
        0xa7 => {
            branch(f, code, true)?;
            Ok(Effect::Next)
        },
        0xac => {
            let v = pop_int(f)?;
            Ok(Effect::Return(Some(Slot::Int(v))))
        },
        0xb0 => {
            let v = pop_value(f)?;
            match v {
                Slot::Ref(_) | Slot::Null => Ok(Effect::Return(Some(v))),
                _ => Err(VmFault::WrongSlotType),
            }
        },
        0xb1 => Ok(Effect::Return(None)),
        0xb8 => {
            let mi = operand_u16(code, pc)?;
            Ok(Effect::InvokeStatic(mi))
        },
        0xbb => {
            let c = operand_u16(code, pc)?;
            Ok(Effect::New(c))
        },
        0xbc => {
            let n = pop_int(f)?;
            advance(f, 2)?;
            Ok(Effect::NewIntArray(n))
        },
        0xbe => {
            match pop_value(f)? {
                Slot::Null => Ok(Effect::Raise(JavaException::NullPointer)),
                Slot::Ref(o) => {
                    advance(f, 1)?;
                    Ok(Effect::ArrayLength(o))
                },
                _ => Err(VmFault::WrongSlotType),
            }
        },
        0xbf => {
            match pop_value(f)? {
                Slot::Null => Ok(Effect::Raise(JavaException::NullPointer)),
                Slot::Ref(o) => Ok(Effect::Throw(o)),
                _ => Err(VmFault::WrongSlotType),
            }
        },
        _ => Err(VmFault::BadOpcode(op)),
    }
}

} // verus!
