//! The kernel instruction set, and what each instruction reads, writes and
//! mutates.

use vstd::prelude::*;
use crate::dtype::Axis;
use crate::id::{MetaId, ParamId, SharedId, ValueId};

verus! {

/// One instruction of a kernel. Floating-point constants are kept as their
/// IEEE bit patterns.
#[derive(Debug, Clone, Copy, PartialEq, Eq, Structural)]
pub enum Op {
    Nop,
    DefineVar { id: ValueId },
    OverwriteVar { id: ValueId, val: ValueId },
    AddAssign { id: ValueId, val: ValueId },
    MulAssign { id: ValueId, val: ValueId },
    DivAssign { id: ValueId, val: ValueId },
    SubAssign { id: ValueId, val: ValueId },
    ShlAssign { id: ValueId, val: ValueId },
    ShrAssign { id: ValueId, val: ValueId },
    CopyVar { id: ValueId },
    ConstF64 { value: u64 },
    ConstF32 { value: u32 },
    ConstF16 { value: u16 },
    ConstBf16 { value: u16 },
    ConstU32 { value: u32 },
    ConstI32 { value: i32 },
    ReadMeta { param: ParamId, field: MetaId },
    LocalId { axis: Axis },
    BlockId { axis: Axis },
    GlobalId { axis: Axis },
    Add { a: ValueId, b: ValueId },
    Sub { a: ValueId, b: ValueId },
    Mul { a: ValueId, b: ValueId },
    Div { a: ValueId, b: ValueId },
    Mod { a: ValueId, b: ValueId },
    Pow { a: ValueId, b: ValueId },
    Shl { a: ValueId, b: ValueId },
    Shr { a: ValueId, b: ValueId },
    /// (Fused) Operation `a * b + c`
    Fma { a: ValueId, b: ValueId, c: ValueId },
    Exp { x: ValueId },
    Abs { x: ValueId },
    Neg { x: ValueId },
    Log { x: ValueId },
    Tanh { x: ValueId },
    Sqrt { x: ValueId },
    ParamLoad { param: ParamId, index: ValueId },
    ParamStore { param: ParamId, index: ValueId, value: ValueId },
    ParamAccum { param: ParamId, index: ValueId, value: ValueId },
    ParamMul { param: ParamId, index: ValueId, value: ValueId },
    ParamDiv { param: ParamId, index: ValueId, value: ValueId },
    ParamSub { param: ParamId, index: ValueId, value: ValueId },
    ParamShl { param: ParamId, index: ValueId, value: ValueId },
    ParamShr { param: ParamId, index: ValueId, value: ValueId },
    SharedLoad { mem: SharedId, index: ValueId },
    SharedStore { mem: SharedId, index: ValueId, value: ValueId },
    SharedAccum { mem: SharedId, index: ValueId, value: ValueId },
    SharedMul { mem: SharedId, index: ValueId, value: ValueId },
    SharedDiv { mem: SharedId, index: ValueId, value: ValueId },
    SharedSub { mem: SharedId, index: ValueId, value: ValueId },
    SharedShl { mem: SharedId, index: ValueId, value: ValueId },
    SharedShr { mem: SharedId, index: ValueId, value: ValueId },
    Eq { a: ValueId, b: ValueId },
    Ne { a: ValueId, b: ValueId },
    Lt { a: ValueId, b: ValueId },
    Gt { a: ValueId, b: ValueId },
    Le { a: ValueId, b: ValueId },
    Ge { a: ValueId, b: ValueId },
    Not { cond: ValueId },
    Max { a: ValueId, b: ValueId },
    Min { a: ValueId, b: ValueId },
    CastF64 { id: ValueId },
    CastF32 { id: ValueId },
    CastF16 { id: ValueId },
    CastBF16 { id: ValueId },
    CastU32 { id: ValueId },
    CastI32 { id: ValueId },
    Select { cond: ValueId, a: ValueId, b: ValueId },
    ForLoopBegin { index: ValueId, end: ValueId, step: ValueId },
    ForeverLoopBegin,
    Continue,
    Break,
    IfBegin { cond: ValueId },
    ElseBegin,
    StartScope,
    EndScope,
    Barrier,
    Return,
}

/// The values an operation reads.
pub open spec fn reads(op: Op) -> Set<ValueId> {
    match op {
        Op::OverwriteVar { id, val } => set![val],
        Op::AddAssign { id, val } => set![val],
        Op::MulAssign { id, val } => set![val],
        Op::DivAssign { id, val } => set![val],
        Op::SubAssign { id, val } => set![val],
        Op::ShlAssign { id, val } => set![val],
        Op::ShrAssign { id, val } => set![val],
        Op::CopyVar { id } => set![id],
        Op::Add { a, b } => set![a, b],
        Op::Sub { a, b } => set![a, b],
        Op::Mul { a, b } => set![a, b],
        Op::Div { a, b } => set![a, b],
        Op::Mod { a, b } => set![a, b],
        Op::Pow { a, b } => set![a, b],
        Op::Shl { a, b } => set![a, b],
        Op::Shr { a, b } => set![a, b],
        Op::Fma { a, b, c } => set![a, b, c],
        Op::Exp { x } => set![x],
        Op::Abs { x } => set![x],
        Op::Neg { x } => set![x],
        Op::Log { x } => set![x],
        Op::Tanh { x } => set![x],
        Op::Sqrt { x } => set![x],
        Op::ParamLoad { param, index } => set![index],
        Op::ParamStore { param, index, value } => set![index, value],
        Op::ParamAccum { param, index, value } => set![index, value],
        Op::ParamMul { param, index, value } => set![index, value],
        Op::ParamDiv { param, index, value } => set![index, value],
        Op::ParamSub { param, index, value } => set![index, value],
        Op::ParamShl { param, index, value } => set![index, value],
        Op::ParamShr { param, index, value } => set![index, value],
        Op::SharedLoad { mem, index } => set![index],
        Op::SharedStore { mem, index, value } => set![index, value],
        Op::SharedAccum { mem, index, value } => set![index, value],
        Op::SharedMul { mem, index, value } => set![index, value],
        Op::SharedDiv { mem, index, value } => set![index, value],
        Op::SharedSub { mem, index, value } => set![index, value],
        Op::SharedShl { mem, index, value } => set![index, value],
        Op::SharedShr { mem, index, value } => set![index, value],
        Op::Eq { a, b } => set![a, b],
        Op::Ne { a, b } => set![a, b],
        Op::Lt { a, b } => set![a, b],
        Op::Gt { a, b } => set![a, b],
        Op::Le { a, b } => set![a, b],
        Op::Ge { a, b } => set![a, b],
        Op::Not { cond } => set![cond],
        Op::Max { a, b } => set![a, b],
        Op::Min { a, b } => set![a, b],
        Op::CastF64 { id } => set![id],
        Op::CastF32 { id } => set![id],
        Op::CastF16 { id } => set![id],
        Op::CastBF16 { id } => set![id],
        Op::CastU32 { id } => set![id],
        Op::CastI32 { id } => set![id],
        Op::Select { cond, a, b } => set![cond, a, b],
        Op::ForLoopBegin { index, end, step } => set![index, end, step],
        Op::IfBegin { cond } => set![cond],
        _ => Set::empty(),
    }
}

/// The operand slots that renaming rewrites: every value operand, except the
/// value a `DefineVar` introduces.
pub open spec fn slots(op: Op) -> Set<ValueId> {
    match op {
        Op::OverwriteVar { id, val } => set![id, val],
        Op::AddAssign { id, val } => set![id, val],
        Op::MulAssign { id, val } => set![id, val],
        Op::DivAssign { id, val } => set![id, val],
        Op::SubAssign { id, val } => set![id, val],
        Op::ShlAssign { id, val } => set![id, val],
        Op::ShrAssign { id, val } => set![id, val],
        Op::CopyVar { id } => set![id],
        Op::Add { a, b } => set![a, b],
        Op::Sub { a, b } => set![a, b],
        Op::Mul { a, b } => set![a, b],
        Op::Div { a, b } => set![a, b],
        Op::Mod { a, b } => set![a, b],
        Op::Pow { a, b } => set![a, b],
        Op::Shl { a, b } => set![a, b],
        Op::Shr { a, b } => set![a, b],
        Op::Fma { a, b, c } => set![a, b, c],
        Op::Exp { x } => set![x],
        Op::Abs { x } => set![x],
        Op::Neg { x } => set![x],
        Op::Log { x } => set![x],
        Op::Tanh { x } => set![x],
        Op::Sqrt { x } => set![x],
        Op::ParamLoad { param, index } => set![index],
        Op::ParamStore { param, index, value } => set![index, value],
        Op::ParamAccum { param, index, value } => set![index, value],
        Op::ParamMul { param, index, value } => set![index, value],
        Op::ParamDiv { param, index, value } => set![index, value],
        Op::ParamSub { param, index, value } => set![index, value],
        Op::ParamShl { param, index, value } => set![index, value],
        Op::ParamShr { param, index, value } => set![index, value],
        Op::SharedLoad { mem, index } => set![index],
        Op::SharedStore { mem, index, value } => set![index, value],
        Op::SharedAccum { mem, index, value } => set![index, value],
        Op::SharedMul { mem, index, value } => set![index, value],
        Op::SharedDiv { mem, index, value } => set![index, value],
        Op::SharedSub { mem, index, value } => set![index, value],
        Op::SharedShl { mem, index, value } => set![index, value],
        Op::SharedShr { mem, index, value } => set![index, value],
        Op::Eq { a, b } => set![a, b],
        Op::Ne { a, b } => set![a, b],
        Op::Lt { a, b } => set![a, b],
        Op::Gt { a, b } => set![a, b],
        Op::Le { a, b } => set![a, b],
        Op::Ge { a, b } => set![a, b],
        Op::Not { cond } => set![cond],
        Op::Max { a, b } => set![a, b],
        Op::Min { a, b } => set![a, b],
        Op::CastF64 { id } => set![id],
        Op::CastF32 { id } => set![id],
        Op::CastF16 { id } => set![id],
        Op::CastBF16 { id } => set![id],
        Op::CastU32 { id } => set![id],
        Op::CastI32 { id } => set![id],
        Op::Select { cond, a, b } => set![cond, a, b],
        Op::ForLoopBegin { index, end, step } => set![index, end, step],
        Op::IfBegin { cond } => set![cond],
        _ => Set::empty(),
    }
}

/// The value an operation writes, defining or changing it.
pub open spec fn written(op: Op) -> Option<ValueId> {
    match op {
        Op::DefineVar { id } => Some(id),
        Op::OverwriteVar { id, val } => Some(id),
        Op::AddAssign { id, val } => Some(id),
        Op::MulAssign { id, val } => Some(id),
        Op::DivAssign { id, val } => Some(id),
        Op::SubAssign { id, val } => Some(id),
        Op::ShlAssign { id, val } => Some(id),
        Op::ShrAssign { id, val } => Some(id),
        Op::ForLoopBegin { index, end, step } => Some(index),
        _ => None,
    }
}

/// The value an operation changes after its definition.
pub open spec fn mutated(op: Op) -> Option<ValueId> {
    match op {
        Op::DefineVar { .. } => None,
        _ => written(op),
    }
}

/// Applies `f` to every operand slot of `op`.
pub open spec fn map_slots(op: Op, f: spec_fn(ValueId) -> ValueId) -> Op {
    match op {
        Op::OverwriteVar { id, val } => Op::OverwriteVar { id: f(id), val: f(val) },
        Op::AddAssign { id, val } => Op::AddAssign { id: f(id), val: f(val) },
        Op::MulAssign { id, val } => Op::MulAssign { id: f(id), val: f(val) },
        Op::DivAssign { id, val } => Op::DivAssign { id: f(id), val: f(val) },
        Op::SubAssign { id, val } => Op::SubAssign { id: f(id), val: f(val) },
        Op::ShlAssign { id, val } => Op::ShlAssign { id: f(id), val: f(val) },
        Op::ShrAssign { id, val } => Op::ShrAssign { id: f(id), val: f(val) },
        Op::CopyVar { id } => Op::CopyVar { id: f(id) },
        Op::Add { a, b } => Op::Add { a: f(a), b: f(b) },
        Op::Sub { a, b } => Op::Sub { a: f(a), b: f(b) },
        Op::Mul { a, b } => Op::Mul { a: f(a), b: f(b) },
        Op::Div { a, b } => Op::Div { a: f(a), b: f(b) },
        Op::Mod { a, b } => Op::Mod { a: f(a), b: f(b) },
        Op::Pow { a, b } => Op::Pow { a: f(a), b: f(b) },
        Op::Shl { a, b } => Op::Shl { a: f(a), b: f(b) },
        Op::Shr { a, b } => Op::Shr { a: f(a), b: f(b) },
        Op::Fma { a, b, c } => Op::Fma { a: f(a), b: f(b), c: f(c) },
        Op::Exp { x } => Op::Exp { x: f(x) },
        Op::Abs { x } => Op::Abs { x: f(x) },
        Op::Neg { x } => Op::Neg { x: f(x) },
        Op::Log { x } => Op::Log { x: f(x) },
        Op::Tanh { x } => Op::Tanh { x: f(x) },
        Op::Sqrt { x } => Op::Sqrt { x: f(x) },
        Op::ParamLoad { param, index } => Op::ParamLoad { param, index: f(index) },
        Op::ParamStore { param, index, value } => Op::ParamStore { param, index: f(index), value: f(value) },
        Op::ParamAccum { param, index, value } => Op::ParamAccum { param, index: f(index), value: f(value) },
        Op::ParamMul { param, index, value } => Op::ParamMul { param, index: f(index), value: f(value) },
        Op::ParamDiv { param, index, value } => Op::ParamDiv { param, index: f(index), value: f(value) },
        Op::ParamSub { param, index, value } => Op::ParamSub { param, index: f(index), value: f(value) },
        Op::ParamShl { param, index, value } => Op::ParamShl { param, index: f(index), value: f(value) },
        Op::ParamShr { param, index, value } => Op::ParamShr { param, index: f(index), value: f(value) },
        Op::SharedLoad { mem, index } => Op::SharedLoad { mem, index: f(index) },
        Op::SharedStore { mem, index, value } => Op::SharedStore { mem, index: f(index), value: f(value) },
        Op::SharedAccum { mem, index, value } => Op::SharedAccum { mem, index: f(index), value: f(value) },
        Op::SharedMul { mem, index, value } => Op::SharedMul { mem, index: f(index), value: f(value) },
        Op::SharedDiv { mem, index, value } => Op::SharedDiv { mem, index: f(index), value: f(value) },
        Op::SharedSub { mem, index, value } => Op::SharedSub { mem, index: f(index), value: f(value) },
        Op::SharedShl { mem, index, value } => Op::SharedShl { mem, index: f(index), value: f(value) },
        Op::SharedShr { mem, index, value } => Op::SharedShr { mem, index: f(index), value: f(value) },
        Op::Eq { a, b } => Op::Eq { a: f(a), b: f(b) },
        Op::Ne { a, b } => Op::Ne { a: f(a), b: f(b) },
        Op::Lt { a, b } => Op::Lt { a: f(a), b: f(b) },
        Op::Gt { a, b } => Op::Gt { a: f(a), b: f(b) },
        Op::Le { a, b } => Op::Le { a: f(a), b: f(b) },
        Op::Ge { a, b } => Op::Ge { a: f(a), b: f(b) },
        Op::Not { cond } => Op::Not { cond: f(cond) },
        Op::Max { a, b } => Op::Max { a: f(a), b: f(b) },
        Op::Min { a, b } => Op::Min { a: f(a), b: f(b) },
        Op::CastF64 { id } => Op::CastF64 { id: f(id) },
        Op::CastF32 { id } => Op::CastF32 { id: f(id) },
        Op::CastF16 { id } => Op::CastF16 { id: f(id) },
        Op::CastBF16 { id } => Op::CastBF16 { id: f(id) },
        Op::CastU32 { id } => Op::CastU32 { id: f(id) },
        Op::CastI32 { id } => Op::CastI32 { id: f(id) },
        Op::Select { cond, a, b } => Op::Select { cond: f(cond), a: f(a), b: f(b) },
        Op::ForLoopBegin { index, end, step } => Op::ForLoopBegin { index: f(index), end: f(end), step: f(step) },
        Op::IfBegin { cond } => Op::IfBegin { cond: f(cond) },
        _ => op,
    }
}

/// `op` with every use of `old_id` in its operand slots replaced by `new_id`.
pub open spec fn rename(op: Op, old_id: ValueId, new_id: ValueId) -> Op {
    map_slots(op, |x: ValueId| if x == old_id { new_id } else { x })
}

/// A constant that is zero: `0`, or an `f32` zero of either sign.
pub open spec fn is_zero_const(op: Op) -> bool {
    match op {
        Op::ConstF32 { value } => value & 0x7fff_ffffu32 == 0,
        Op::ConstI32 { value } => value == 0,
        Op::ConstU32 { value } => value == 0,
        _ => false,
    }
}

/// A constant that is one; the only `f32` within `1e-9` of one is one itself.
pub open spec fn is_one_const(op: Op) -> bool {
    match op {
        Op::ConstF32 { value } => value == 0x3f80_0000u32,
        Op::ConstI32 { value } => value == 1,
        Op::ConstU32 { value } => value == 1,
        _ => false,
    }
}

fn replaced(v: ValueId, old_id: ValueId, new_id: ValueId) -> (r: ValueId)
    ensures
        r == (if v == old_id { new_id } else { v }),
{
    if v == old_id {
        new_id
    } else {
        v
    }
}

impl Op {
    pub fn does_read(&self, value_id: ValueId) -> (r: bool)
        ensures
            r == reads(*self).contains(value_id),
    {
        match *self {
            Op::OverwriteVar { id, val } => val == value_id,
            Op::AddAssign { id, val } => val == value_id,
            Op::MulAssign { id, val } => val == value_id,
            Op::DivAssign { id, val } => val == value_id,
            Op::SubAssign { id, val } => val == value_id,
            Op::ShlAssign { id, val } => val == value_id,
            Op::ShrAssign { id, val } => val == value_id,
            Op::CopyVar { id } => id == value_id,
            Op::Add { a, b } => a == value_id || b == value_id,
            Op::Sub { a, b } => a == value_id || b == value_id,
            Op::Mul { a, b } => a == value_id || b == value_id,
            Op::Div { a, b } => a == value_id || b == value_id,
            Op::Mod { a, b } => a == value_id || b == value_id,
            Op::Pow { a, b } => a == value_id || b == value_id,
            Op::Shl { a, b } => a == value_id || b == value_id,
            Op::Shr { a, b } => a == value_id || b == value_id,
            Op::Fma { a, b, c } => a == value_id || b == value_id || c == value_id,
            Op::Exp { x } => x == value_id,
            Op::Abs { x } => x == value_id,
            Op::Neg { x } => x == value_id,
            Op::Log { x } => x == value_id,
            Op::Tanh { x } => x == value_id,
            Op::Sqrt { x } => x == value_id,
            Op::ParamLoad { param, index } => index == value_id,
            Op::ParamStore { param, index, value } => index == value_id || value == value_id,
            Op::ParamAccum { param, index, value } => index == value_id || value == value_id,
            Op::ParamMul { param, index, value } => index == value_id || value == value_id,
            Op::ParamDiv { param, index, value } => index == value_id || value == value_id,
            Op::ParamSub { param, index, value } => index == value_id || value == value_id,
            Op::ParamShl { param, index, value } => index == value_id || value == value_id,
            Op::ParamShr { param, index, value } => index == value_id || value == value_id,
            Op::SharedLoad { mem, index } => index == value_id,
            Op::SharedStore { mem, index, value } => index == value_id || value == value_id,
            Op::SharedAccum { mem, index, value } => index == value_id || value == value_id,
            Op::SharedMul { mem, index, value } => index == value_id || value == value_id,
            Op::SharedDiv { mem, index, value } => index == value_id || value == value_id,
            Op::SharedSub { mem, index, value } => index == value_id || value == value_id,
            Op::SharedShl { mem, index, value } => index == value_id || value == value_id,
            Op::SharedShr { mem, index, value } => index == value_id || value == value_id,
            Op::Eq { a, b } => a == value_id || b == value_id,
            Op::Ne { a, b } => a == value_id || b == value_id,
            Op::Lt { a, b } => a == value_id || b == value_id,
            Op::Gt { a, b } => a == value_id || b == value_id,
            Op::Le { a, b } => a == value_id || b == value_id,
            Op::Ge { a, b } => a == value_id || b == value_id,
            Op::Not { cond } => cond == value_id,
            Op::Max { a, b } => a == value_id || b == value_id,
            Op::Min { a, b } => a == value_id || b == value_id,
            Op::CastF64 { id } => id == value_id,
            Op::CastF32 { id } => id == value_id,
            Op::CastF16 { id } => id == value_id,
            Op::CastBF16 { id } => id == value_id,
            Op::CastU32 { id } => id == value_id,
            Op::CastI32 { id } => id == value_id,
            Op::Select { cond, a, b } => cond == value_id || a == value_id || b == value_id,
            Op::ForLoopBegin { index, end, step } => index == value_id || end == value_id || step == value_id,
            Op::IfBegin { cond } => cond == value_id,
            _ => false,
        }
    }

    pub fn replace_usage(&mut self, old_id: ValueId, new_id: ValueId)
        ensures
            *final(self) == rename(*old(self), old_id, new_id),
    {
        let op = *self;
        *self = match op {
            Op::OverwriteVar { id, val } => Op::OverwriteVar { id: replaced(id, old_id, new_id), val: replaced(val, old_id, new_id) },
            Op::AddAssign { id, val } => Op::AddAssign { id: replaced(id, old_id, new_id), val: replaced(val, old_id, new_id) },
            Op::MulAssign { id, val } => Op::MulAssign { id: replaced(id, old_id, new_id), val: replaced(val, old_id, new_id) },
            Op::DivAssign { id, val } => Op::DivAssign { id: replaced(id, old_id, new_id), val: replaced(val, old_id, new_id) },
            Op::SubAssign { id, val } => Op::SubAssign { id: replaced(id, old_id, new_id), val: replaced(val, old_id, new_id) },
            Op::ShlAssign { id, val } => Op::ShlAssign { id: replaced(id, old_id, new_id), val: replaced(val, old_id, new_id) },
            Op::ShrAssign { id, val } => Op::ShrAssign { id: replaced(id, old_id, new_id), val: replaced(val, old_id, new_id) },
            Op::CopyVar { id } => Op::CopyVar { id: replaced(id, old_id, new_id) },
            Op::Add { a, b } => Op::Add { a: replaced(a, old_id, new_id), b: replaced(b, old_id, new_id) },
            Op::Sub { a, b } => Op::Sub { a: replaced(a, old_id, new_id), b: replaced(b, old_id, new_id) },
            Op::Mul { a, b } => Op::Mul { a: replaced(a, old_id, new_id), b: replaced(b, old_id, new_id) },
            Op::Div { a, b } => Op::Div { a: replaced(a, old_id, new_id), b: replaced(b, old_id, new_id) },
            Op::Mod { a, b } => Op::Mod { a: replaced(a, old_id, new_id), b: replaced(b, old_id, new_id) },
            Op::Pow { a, b } => Op::Pow { a: replaced(a, old_id, new_id), b: replaced(b, old_id, new_id) },
            Op::Shl { a, b } => Op::Shl { a: replaced(a, old_id, new_id), b: replaced(b, old_id, new_id) },
            Op::Shr { a, b } => Op::Shr { a: replaced(a, old_id, new_id), b: replaced(b, old_id, new_id) },
            Op::Fma { a, b, c } => Op::Fma { a: replaced(a, old_id, new_id), b: replaced(b, old_id, new_id), c: replaced(c, old_id, new_id) },
            Op::Exp { x } => Op::Exp { x: replaced(x, old_id, new_id) },
            Op::Abs { x } => Op::Abs { x: replaced(x, old_id, new_id) },
            Op::Neg { x } => Op::Neg { x: replaced(x, old_id, new_id) },
            Op::Log { x } => Op::Log { x: replaced(x, old_id, new_id) },
            Op::Tanh { x } => Op::Tanh { x: replaced(x, old_id, new_id) },
            Op::Sqrt { x } => Op::Sqrt { x: replaced(x, old_id, new_id) },
            Op::ParamLoad { param, index } => Op::ParamLoad { param, index: replaced(index, old_id, new_id) },
            Op::ParamStore { param, index, value } => Op::ParamStore { param, index: replaced(index, old_id, new_id), value: replaced(value, old_id, new_id) },
            Op::ParamAccum { param, index, value } => Op::ParamAccum { param, index: replaced(index, old_id, new_id), value: replaced(value, old_id, new_id) },
            Op::ParamMul { param, index, value } => Op::ParamMul { param, index: replaced(index, old_id, new_id), value: replaced(value, old_id, new_id) },
            Op::ParamDiv { param, index, value } => Op::ParamDiv { param, index: replaced(index, old_id, new_id), value: replaced(value, old_id, new_id) },
            Op::ParamSub { param, index, value } => Op::ParamSub { param, index: replaced(index, old_id, new_id), value: replaced(value, old_id, new_id) },
            Op::ParamShl { param, index, value } => Op::ParamShl { param, index: replaced(index, old_id, new_id), value: replaced(value, old_id, new_id) },
            Op::ParamShr { param, index, value } => Op::ParamShr { param, index: replaced(index, old_id, new_id), value: replaced(value, old_id, new_id) },
            Op::SharedLoad { mem, index } => Op::SharedLoad { mem, index: replaced(index, old_id, new_id) },
            Op::SharedStore { mem, index, value } => Op::SharedStore { mem, index: replaced(index, old_id, new_id), value: replaced(value, old_id, new_id) },
            Op::SharedAccum { mem, index, value } => Op::SharedAccum { mem, index: replaced(index, old_id, new_id), value: replaced(value, old_id, new_id) },
            Op::SharedMul { mem, index, value } => Op::SharedMul { mem, index: replaced(index, old_id, new_id), value: replaced(value, old_id, new_id) },
            Op::SharedDiv { mem, index, value } => Op::SharedDiv { mem, index: replaced(index, old_id, new_id), value: replaced(value, old_id, new_id) },
            Op::SharedSub { mem, index, value } => Op::SharedSub { mem, index: replaced(index, old_id, new_id), value: replaced(value, old_id, new_id) },
            Op::SharedShl { mem, index, value } => Op::SharedShl { mem, index: replaced(index, old_id, new_id), value: replaced(value, old_id, new_id) },
            Op::SharedShr { mem, index, value } => Op::SharedShr { mem, index: replaced(index, old_id, new_id), value: replaced(value, old_id, new_id) },
            Op::Eq { a, b } => Op::Eq { a: replaced(a, old_id, new_id), b: replaced(b, old_id, new_id) },
            Op::Ne { a, b } => Op::Ne { a: replaced(a, old_id, new_id), b: replaced(b, old_id, new_id) },
            Op::Lt { a, b } => Op::Lt { a: replaced(a, old_id, new_id), b: replaced(b, old_id, new_id) },
            Op::Gt { a, b } => Op::Gt { a: replaced(a, old_id, new_id), b: replaced(b, old_id, new_id) },
            Op::Le { a, b } => Op::Le { a: replaced(a, old_id, new_id), b: replaced(b, old_id, new_id) },
            Op::Ge { a, b } => Op::Ge { a: replaced(a, old_id, new_id), b: replaced(b, old_id, new_id) },
            Op::Not { cond } => Op::Not { cond: replaced(cond, old_id, new_id) },
            Op::Max { a, b } => Op::Max { a: replaced(a, old_id, new_id), b: replaced(b, old_id, new_id) },
            Op::Min { a, b } => Op::Min { a: replaced(a, old_id, new_id), b: replaced(b, old_id, new_id) },
            Op::CastF64 { id } => Op::CastF64 { id: replaced(id, old_id, new_id) },
            Op::CastF32 { id } => Op::CastF32 { id: replaced(id, old_id, new_id) },
            Op::CastF16 { id } => Op::CastF16 { id: replaced(id, old_id, new_id) },
            Op::CastBF16 { id } => Op::CastBF16 { id: replaced(id, old_id, new_id) },
            Op::CastU32 { id } => Op::CastU32 { id: replaced(id, old_id, new_id) },
            Op::CastI32 { id } => Op::CastI32 { id: replaced(id, old_id, new_id) },
            Op::Select { cond, a, b } => Op::Select { cond: replaced(cond, old_id, new_id), a: replaced(a, old_id, new_id), b: replaced(b, old_id, new_id) },
            Op::ForLoopBegin { index, end, step } => Op::ForLoopBegin { index: replaced(index, old_id, new_id), end: replaced(end, old_id, new_id), step: replaced(step, old_id, new_id) },
            Op::IfBegin { cond } => Op::IfBegin { cond: replaced(cond, old_id, new_id) },
            _ => op,
        };
    }

    pub fn does_write(&self, value_id: ValueId) -> (r: bool)
        ensures
            r == (written(*self) == Some(value_id)),
    {
        match *self {
            Op::DefineVar { id } => id == value_id,
            Op::OverwriteVar { id, val } => id == value_id,
            Op::AddAssign { id, val } => id == value_id,
            Op::MulAssign { id, val } => id == value_id,
            Op::DivAssign { id, val } => id == value_id,
            Op::SubAssign { id, val } => id == value_id,
            Op::ShlAssign { id, val } => id == value_id,
            Op::ShrAssign { id, val } => id == value_id,
            Op::ForLoopBegin { index, end, step } => index == value_id,
            _ => false,
        }
    }

    pub fn writes_to(&self) -> (r: Option<ValueId>)
        ensures
            r == written(*self),
    {
        match *self {
            Op::DefineVar { id } => Some(id),
            Op::OverwriteVar { id, val } => Some(id),
            Op::AddAssign { id, val } => Some(id),
            Op::MulAssign { id, val } => Some(id),
            Op::DivAssign { id, val } => Some(id),
            Op::SubAssign { id, val } => Some(id),
            Op::ShlAssign { id, val } => Some(id),
            Op::ShrAssign { id, val } => Some(id),
            Op::ForLoopBegin { index, end, step } => Some(index),
            _ => None,
        }
    }

    pub fn does_mutate(&self, value_id: ValueId) -> (r: bool)
        ensures
            r == (mutated(*self) == Some(value_id)),
    {
        match *self {
            Op::OverwriteVar { id, val } => id == value_id,
            Op::AddAssign { id, val } => id == value_id,
            Op::MulAssign { id, val } => id == value_id,
            Op::DivAssign { id, val } => id == value_id,
            Op::SubAssign { id, val } => id == value_id,
            Op::ShlAssign { id, val } => id == value_id,
            Op::ShrAssign { id, val } => id == value_id,
            Op::ForLoopBegin { index, end, step } => index == value_id,
            _ => false,
        }
    }

    pub fn is_zero(&self) -> (r: bool)
        ensures
            r == is_zero_const(*self),
    {
        match *self {
            Op::ConstF32 { value } => value & 0x7fff_ffff == 0,
            Op::ConstI32 { value } => value == 0,
            Op::ConstU32 { value } => value == 0,
            _ => false,
        }
    }

    pub fn is_one(&self) -> (r: bool)
        ensures
            r == is_one_const(*self),
    {
        match *self {
            Op::ConstF32 { value } => value == 0x3f80_0000,
            Op::ConstI32 { value } => value == 1,
            Op::ConstU32 { value } => value == 1,
            _ => false,
        }
    }
}

/// Every value an operation reads sits in an operand slot, so renaming
/// reaches every read.
pub proof fn law_reads_are_slots(op: Op)
    ensures
        reads(op).subset_of(slots(op)),
{
}

/// After renaming `old_id` to `new_id`, an operation reads `new_id` where it
/// read `old_id`, and reads every other value exactly as before; in
/// particular it no longer reads `old_id` unless the two are equal.
pub proof fn law_rename_reads(op: Op, old_id: ValueId, new_id: ValueId, v: ValueId)
    ensures
        reads(rename(op, old_id, new_id)).contains(v) <==> ((v == new_id && reads(op).contains(
            old_id,
        )) || (v != old_id && reads(op).contains(v))),
{
}

/// Renaming a value to itself changes nothing.
pub proof fn law_rename_same(op: Op, id: ValueId)
    ensures
        rename(op, id, id) == op,
{
}

/// Renaming twice with the same pair is renaming once.
pub proof fn law_rename_idempotent(op: Op, old_id: ValueId, new_id: ValueId)
    ensures
        rename(rename(op, old_id, new_id), old_id, new_id) == rename(op, old_id, new_id),
{
}

/// Renaming follows the mutated value, and leaves a definition untouched.
pub proof fn law_rename_written(op: Op, old_id: ValueId, new_id: ValueId)
    ensures
        mutated(rename(op, old_id, new_id)) == (match mutated(op) {
            Some(w) => Some(if w == old_id { new_id } else { w }),
            None => None,
        }),
        op is DefineVar ==> rename(op, old_id, new_id) == op,
{
}

/// A mutation is a write, and every write that is not a definition is a
/// mutation.
pub proof fn law_mutate_is_write(op: Op, v: ValueId)
    ensures
        mutated(op) == Some(v) ==> written(op) == Some(v),
        (written(op) == Some(v) && !(op is DefineVar)) ==> mutated(op) == Some(v),
{
}

/// No constant is both zero and one.
pub proof fn law_zero_not_one(op: Op)
    ensures
        !(is_zero_const(op) && is_one_const(op)),
{
    if let Op::ConstF32 { value } = op {
        assert(value == 0x3f80_0000u32 ==> value & 0x7fff_ffffu32 != 0) by (bit_vector);
    }
}

} // verus!
