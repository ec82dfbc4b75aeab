//! HIP (C++) code generation.

use vstd::prelude::*;
use crate::code::{chars, lit, num, Code, FloatLit, Tok};
use crate::codegen::{nl, newline, op_group};
use crate::dtype::{axis_index, axis_name, c_name, DType, SimpleDType};
use crate::id::{ParamId, ValueId};
use crate::kernel::{lookups, lookups_below, well_formed, Param, ParamTy, RawKernel, SharedAlloc, ValueState};
use crate::ops::{reads, Op};
use crate::options::CompilationOptions;
use crate::text::dec_int;

verus! {

/// Kernels HIP code can be generated for: every declared value is a scalar.
pub open spec fn hip_ready(k: RawKernel) -> bool {
    forall|i: int|
        0 <= i < k.values@.len() && (#[trigger] k.values@[i]).state != ValueState::Inline
            && k.values@[i].state != ValueState::Masked ==> k.values@[i].dtype is Simple
}

/// Writing the HIP text of value `x` where it is used declares only scalar
/// values: an inline value's expression declares only scalars.
pub open spec fn hip_val_ok(k: RawKernel, x: nat) -> bool
    decreases x, 3nat,
{
    if x < k.values@.len() {
        let v = k.values@[x as int];
        match v.state {
            ValueState::Inline => match v.init {
                Some(op) => hip_op_ok(k, op, x),
                None => true,
            },
            _ => true,
        }
    } else {
        true
    }
}

/// Writing the HIP declaration of value `x` declares only scalar values:
/// a declared value is a scalar and its initializer declares only scalars.
pub open spec fn hip_def_ok(k: RawKernel, x: nat) -> bool
    decreases x, 3nat,
{
    if x < k.values@.len() {
        let v = k.values@[x as int];
        match v.state {
            ValueState::Masked | ValueState::Inline => true,
            _ => v.dtype is Simple && match v.init {
                Some(op) => hip_op_ok(k, op, x),
                None => true,
            },
        }
    } else {
        true
    }
}

/// Writing the HIP text of an instruction that may only look up values
/// below `bound` declares only scalar values.
pub open spec fn hip_op_ok(k: RawKernel, op: Op, bound: nat) -> bool
    decreases bound, 2nat,
{
    match op {
        Op::DefineVar { id } => id.0 < bound ==> hip_def_ok(k, id.0 as nat),
        _ => forall|v: ValueId| #[trigger] reads(op).contains(v) && v.0 < bound ==> hip_val_ok(k, v.0 as nat),
    }
}

/// In a kernel whose declared values are all scalars, every value is
/// written and declared with scalars only.
proof fn lemma_ready_val(k: RawKernel, x: nat)
    requires
        hip_ready(k),
    ensures
        hip_val_ok(k, x),
        hip_def_ok(k, x),
    decreases x, 3nat,
{
    if x < k.values@.len() {
        let v = k.values@[x as int];
        if let Some(op) = v.init {
            lemma_ready_op(k, op, x);
        }
    }
}

/// In a kernel whose declared values are all scalars, every instruction is
/// written with scalars only.
proof fn lemma_ready_op(k: RawKernel, op: Op, bound: nat)
    requires
        hip_ready(k),
    ensures
        hip_op_ok(k, op, bound),
    decreases bound, 2nat,
{
    match op {
        Op::DefineVar { id } => {
            if id.0 < bound {
                lemma_ready_val(k, id.0 as nat);
            }
        },
        _ => {
            assert forall|v: ValueId| #[trigger] reads(op).contains(v) && v.0 < bound implies hip_val_ok(k, v.0 as nat) by {
                lemma_ready_val(k, v.0 as nat);
            }
        },
    }
}

/// Writing the HIP text of every instruction of a kernel declares only
/// scalar values.
pub open spec fn hip_ops_ok(k: RawKernel) -> bool {
    forall|j: int| 0 <= j < k.ops@.len() ==> hip_op_ok(k, #[trigger] k.ops@[j], k.values@.len() as nat)
}

/// A kernel whose declared values are all scalars can have its
/// instructions written.
pub proof fn lemma_ready_ops(k: RawKernel)
    requires
        hip_ready(k),
    ensures
        hip_ops_ok(k),
{
    assert forall|j: int| 0 <= j < k.ops@.len() implies hip_op_ok(k, #[trigger] k.ops@[j], k.values@.len() as nat) by {
        lemma_ready_op(k, k.ops@[j], k.values@.len() as nat);
    }
}

/// The HIP text of value `x` where it is used: an inline value is written
/// out, a masked one is not written, any other is named.
pub open spec fn hip_val(k: RawKernel, x: nat) -> Seq<Tok>
    decreases x, 3nat,
{
    if x < k.values@.len() {
        let v = k.values@[x as int];
        match v.state {
            ValueState::Inline => match v.init {
                Some(op) => hip_op(k, op, x),
                None => Seq::empty(),
            },
            ValueState::Masked => Seq::empty(),
            _ => lit("v") + num(x),
        }
    } else {
        Seq::empty()
    }
}

/// The HIP text of a value used by an instruction that may only look up
/// values below `bound`.
pub open spec fn hip_sub(k: RawKernel, v: ValueId, bound: nat) -> Seq<Tok>
    decreases bound, 0nat,
{
    if v.0 < bound {
        hip_val(k, v.0 as nat)
    } else {
        Seq::empty()
    }
}

/// The HIP declaration of a value defined by an instruction that may only
/// look up values below `bound`.
pub open spec fn hip_def_below(k: RawKernel, v: ValueId, bound: nat) -> Seq<Tok>
    decreases bound, 0nat,
{
    if v.0 < bound {
        hip_def(k, v.0 as nat)
    } else {
        Seq::empty()
    }
}

/// The HIP declaration of value `x`: nothing for an inline or masked value,
/// otherwise its C type, name and initializer, `const` for a constant.
pub open spec fn hip_def(k: RawKernel, x: nat) -> Seq<Tok>
    decreases x, 3nat,
{
    if x < k.values@.len() {
        let v = k.values@[x as int];
        let init = match v.init {
            Some(op) => lit(" = ") + hip_op(k, op, x),
            None => Seq::empty(),
        };
        let ty = match v.dtype {
            DType::Simple(t) => chars(c_name(t)),
            DType::Mma(t) => chars(c_name(t)),
        };
        match v.state {
            ValueState::Masked | ValueState::Inline => Seq::empty(),
            ValueState::Const => lit("const ") + ty + lit(" v") + num(x) + init + lit(";"),
            _ => ty + lit(" v") + num(x) + init + lit(";"),
        }
    } else {
        Seq::empty()
    }
}

/// The HIP fused multiply-add function for the type of value `a`.
pub open spec fn fma_symbol(k: RawKernel, a: ValueId) -> &'static str {
    if a.0 < k.values@.len() && k.values@[a.0 as int].dtype == DType::Simple(SimpleDType::F32) {
        "fmaf"
    } else {
        "fma"
    }
}

/// The HIP text of one instruction, which may only look up values below `bound`.
pub open spec fn hip_op(k: RawKernel, op: Op, bound: nat) -> Seq<Tok>
    decreases bound, 2nat,
{
    hip_op_text(k, op, |v: ValueId| hip_sub(k, v, bound), |v: ValueId| hip_def_below(k, v, bound))
}

/// The HIP text of one instruction, given the text `text_of` of each value
/// it uses and the declaration `decl_of` of each value it defines.
#[verifier::opaque]
pub open spec fn hip_op_text(k: RawKernel, op: Op, text_of: spec_fn(ValueId) -> Seq<Tok>, decl_of: spec_fn(ValueId) -> Seq<Tok>) -> Seq<Tok> {
    match op {
        Op::Nop => Seq::<Tok>::empty(),
        Op::DefineVar { id } => decl_of(id),
        Op::OverwriteVar { id, val } => wrap1(lit("v") + num(id.0 as nat) + lit(" = "), text_of(val), lit(";")),
        Op::AddAssign { id, val } => wrap1(lit("v") + num(id.0 as nat) + lit(" += "), text_of(val), lit(";")),
        Op::MulAssign { id, val } => wrap1(lit("v") + num(id.0 as nat) + lit(" *= "), text_of(val), lit(";")),
        Op::DivAssign { id, val } => wrap1(lit("v") + num(id.0 as nat) + lit(" /= "), text_of(val), lit(";")),
        Op::SubAssign { id, val } => wrap1(lit("v") + num(id.0 as nat) + lit(" -= "), text_of(val), lit(";")),
        Op::ShlAssign { id, val } => wrap1(lit("v") + num(id.0 as nat) + lit(" <<= "), text_of(val), lit(";")),
        Op::ShrAssign { id, val } => wrap1(lit("v") + num(id.0 as nat) + lit(" >>= "), text_of(val), lit(";")),
        Op::CopyVar { id } => wrap1(Seq::<Tok>::empty(), text_of(id), Seq::<Tok>::empty()),
        Op::ConstF64 { value } => seq![Tok::Float(FloatLit::F64Debug(value))],
        Op::ConstF32 { value } => seq![Tok::Float(FloatLit::F32Debug(value))] + lit("f"),
        Op::ConstF16 { value } => lit("__float2half(") + seq![Tok::Float(FloatLit::F16Debug(value))] + lit("f)"),
        Op::ConstBf16 { value } => lit("__float2bfloat16(") + seq![Tok::Float(FloatLit::Bf16Debug(value))] + lit("f)"),
        Op::ConstU32 { value } => num(value as nat) + lit("u"),
        Op::ConstI32 { value } => chars(dec_int(value as int)),
        Op::ReadMeta { param, field } => lit("param") + num(param.0 as nat) + lit("[") + num(field.0 as nat) + lit("]"),
        Op::LocalId { axis } => lit("threadIdx.") + chars(axis_name(axis)),
        Op::BlockId { axis } => lit("blockIdx.") + chars(axis_name(axis)),
        Op::GlobalId { axis } => lit("blockIdx.") + chars(axis_name(axis)) + lit(" * ") + num(k.block[axis_index(axis) as int] as nat) + lit(" + threadIdx.") + chars(axis_name(axis)),
        Op::Add { a, b } => wrap2(lit("("), text_of(a), lit(") + ("), text_of(b), lit(")")),
        Op::Sub { a, b } => wrap2(lit("("), text_of(a), lit(") - ("), text_of(b), lit(")")),
        Op::Mul { a, b } => wrap2(lit("("), text_of(a), lit(") * ("), text_of(b), lit(")")),
        Op::Div { a, b } => wrap2(lit("("), text_of(a), lit(") / ("), text_of(b), lit(")")),
        Op::Mod { a, b } => wrap2(lit("("), text_of(a), lit(") % ("), text_of(b), lit(")")),
        Op::Pow { a, b } => wrap2(lit("pow("), text_of(a), lit(", "), text_of(b), lit(")")),
        Op::Shl { a, b } => wrap2(lit("("), text_of(a), lit(") << ("), text_of(b), lit(")")),
        Op::Shr { a, b } => wrap2(lit("("), text_of(a), lit(") >> ("), text_of(b), lit(")")),
        Op::Fma { a, b, c } => wrap3(lit(fma_symbol(k, a)) + lit("("), text_of(a), lit(", "), text_of(b), lit(", "), text_of(c), lit(")")),
        Op::Exp { x } => wrap1(lit("exp("), text_of(x), lit(")")),
        Op::Abs { x } => wrap1(lit("abs("), text_of(x), lit(")")),
        Op::Neg { x } => wrap1(lit("-("), text_of(x), lit(")")),
        Op::Log { x } => wrap1(lit("log("), text_of(x), lit(")")),
        Op::Tanh { x } => wrap1(lit("tanh("), text_of(x), lit(")")),
        Op::Sqrt { x } => wrap1(lit("sqrt("), text_of(x), lit(")")),
        Op::ParamLoad { param, index } => wrap1(lit("param") + num(param.0 as nat) + lit("["), text_of(index), lit("]")),
        Op::ParamStore { param, index, value } => wrap2(lit("param") + num(param.0 as nat) + lit("["), text_of(index), lit("] = "), text_of(value), lit(";")),
        Op::ParamAccum { param, index, value } => wrap2(lit("param") + num(param.0 as nat) + lit("["), text_of(index), lit("] += "), text_of(value), lit(";")),
        Op::ParamMul { param, index, value } => wrap2(lit("param") + num(param.0 as nat) + lit("["), text_of(index), lit("] *= "), text_of(value), lit(";")),
        Op::ParamDiv { param, index, value } => wrap2(lit("param") + num(param.0 as nat) + lit("["), text_of(index), lit("] /= "), text_of(value), lit(";")),
        Op::ParamSub { param, index, value } => wrap2(lit("param") + num(param.0 as nat) + lit("["), text_of(index), lit("] -= "), text_of(value), lit(";")),
        Op::ParamShl { param, index, value } => wrap2(lit("param") + num(param.0 as nat) + lit("["), text_of(index), lit("] <<= "), text_of(value), lit(";")),
        Op::ParamShr { param, index, value } => wrap2(lit("param") + num(param.0 as nat) + lit("["), text_of(index), lit("] >>= "), text_of(value), lit(";")),
        Op::SharedLoad { mem, index } => wrap1(lit("shared") + num(mem.0 as nat) + lit("["), text_of(index), lit("]")),
        Op::SharedStore { mem, index, value } => wrap2(lit("shared") + num(mem.0 as nat) + lit("["), text_of(index), lit("] = "), text_of(value), lit(";")),
        Op::SharedAccum { mem, index, value } => wrap2(lit("shared") + num(mem.0 as nat) + lit("["), text_of(index), lit("] += "), text_of(value), lit(";")),
        Op::SharedMul { mem, index, value } => wrap2(lit("shared") + num(mem.0 as nat) + lit("["), text_of(index), lit("] *= "), text_of(value), lit(";")),
        Op::SharedDiv { mem, index, value } => wrap2(lit("shared") + num(mem.0 as nat) + lit("["), text_of(index), lit("] /= "), text_of(value), lit(";")),
        Op::SharedSub { mem, index, value } => wrap2(lit("shared") + num(mem.0 as nat) + lit("["), text_of(index), lit("] -= "), text_of(value), lit(";")),
        Op::SharedShl { mem, index, value } => wrap2(lit("shared") + num(mem.0 as nat) + lit("["), text_of(index), lit("] <<= "), text_of(value), lit(";")),
        Op::SharedShr { mem, index, value } => wrap2(lit("shared") + num(mem.0 as nat) + lit("["), text_of(index), lit("] >>= "), text_of(value), lit(";")),
        Op::Eq { a, b } => wrap2(lit("("), text_of(a), lit(") == ("), text_of(b), lit(")")),
        Op::Ne { a, b } => wrap2(lit("("), text_of(a), lit(") != ("), text_of(b), lit(")")),
        Op::Lt { a, b } => wrap2(lit("("), text_of(a), lit(") < ("), text_of(b), lit(")")),
        Op::Gt { a, b } => wrap2(lit("("), text_of(a), lit(") > ("), text_of(b), lit(")")),
        Op::Le { a, b } => wrap2(lit("("), text_of(a), lit(") <= ("), text_of(b), lit(")")),
        Op::Ge { a, b } => wrap2(lit("("), text_of(a), lit(") >= ("), text_of(b), lit(")")),
        Op::Not { cond } => wrap1(lit("!("), text_of(cond), lit(")")),
        Op::Max { a, b } => wrap2(lit("max("), text_of(a), lit(", "), text_of(b), lit(")")),
        Op::Min { a, b } => wrap2(lit("min("), text_of(a), lit(", "), text_of(b), lit(")")),
        Op::CastF64 { id } => wrap1(lit("static_cast<double>("), text_of(id), lit(")")),
        Op::CastF32 { id } => wrap1(lit("static_cast<float>("), text_of(id), lit(")")),
        Op::CastF16 { id } => wrap1(lit("static_cast<__half>("), text_of(id), lit(")")),
        Op::CastBF16 { id } => wrap1(lit("static_cast<hip_bfloat16>("), text_of(id), lit(")")),
        Op::CastU32 { id } => wrap1(lit("static_cast<uint32_t>("), text_of(id), lit(")")),
        Op::CastI32 { id } => wrap1(lit("static_cast<int32_t>("), text_of(id), lit(")")),
        Op::Select { cond, a, b } => wrap3(lit("("), text_of(cond), lit(" ? "), text_of(a), lit(" : "), text_of(b), lit(")")),
        Op::ForLoopBegin { index, end, step } => wrap2(lit("for (; v") + num(index.0 as nat) + lit(" < "), text_of(end), lit("; v") + num(index.0 as nat) + lit(" += "), text_of(step), lit(") {")),
        Op::ForeverLoopBegin => lit("for (;;) {"),
        Op::Continue => lit("continue;"),
        Op::Break => lit("break;"),
        Op::IfBegin { cond } => wrap1(lit("if ("), text_of(cond), lit(") {")),
        Op::ElseBegin => lit("else {"),
        Op::StartScope => lit("{"),
        Op::EndScope => lit("}"),
        Op::Barrier => lit("__syncthreads();"),
        Op::Return => lit("return;"),
    }
}

/// The nesting depth after one instruction, from the depth before it.
pub open spec fn hip_nest(op: Op, n: nat) -> nat {
    match op {
        Op::ForLoopBegin { .. } => (n + 1) as nat,
        Op::ForeverLoopBegin => (n + 1) as nat,
        Op::IfBegin { .. } => (n + 1) as nat,
        Op::ElseBegin => (n + 1) as nat,
        Op::EndScope => (n - 1) as nat,
        Op::StartScope => (n + 1) as nat,
        _ => n,
    }
}

/// Whether the nesting depth `n` can take one instruction: a closing needs an
/// open scope, an opening needs room to count it.
pub open spec fn hip_nest_ok(op: Op, n: nat) -> bool {
    match op {
        Op::ForLoopBegin { .. } => n < usize::MAX,
        Op::ForeverLoopBegin => n < usize::MAX,
        Op::IfBegin { .. } => n < usize::MAX,
        Op::ElseBegin => n < usize::MAX,
        Op::EndScope => n > 0,
        Op::StartScope => n < usize::MAX,
        _ => true,
    }
}

/// Text pieces with 1 piece of generated text between them.
pub open spec fn wrap1(p0: Seq<Tok>, t0: Seq<Tok>, p1: Seq<Tok>) -> Seq<Tok> {
    p0 + t0 + p1
}

/// Text pieces with 2 pieces of generated text between them.
pub open spec fn wrap2(p0: Seq<Tok>, t0: Seq<Tok>, p1: Seq<Tok>, t1: Seq<Tok>, p2: Seq<Tok>) -> Seq<Tok> {
    p0 + t0 + p1 + t1 + p2
}

/// Text pieces with 3 pieces of generated text between them.
pub open spec fn wrap3(p0: Seq<Tok>, t0: Seq<Tok>, p1: Seq<Tok>, t1: Seq<Tok>, p2: Seq<Tok>, t2: Seq<Tok>, p3: Seq<Tok>) -> Seq<Tok> {
    p0 + t0 + p1 + t1 + p2 + t2 + p3
}

/// The HIP fused multiply-add function for the type of value `a`.
fn fma_symbol_of(kernel: &RawKernel, a: ValueId) -> (s: &'static str)
    requires
        a.0 < kernel.values@.len(),
    ensures
        s == fma_symbol(*kernel, a),
{
    if kernel.values[a.0].dtype == DType::Simple(SimpleDType::F32) {
        "fmaf"
    } else {
        "fma"
    }
}

fn render_val(id: ValueId, kernel: &RawKernel) -> (c: Code)
    requires
        well_formed(*kernel),
        hip_val_ok(*kernel, id.0 as nat),
        id.0 < kernel.values@.len(),
    ensures
        c@ == hip_val(*kernel, id.0 as nat),
    decreases id.0, 3nat,
{
    let mut out = Code::new();
    let val = kernel.values[id.0];
    match val.state {
        ValueState::Inline => {
            if let Some(op) = val.init {
                let mut nesting: usize = 0;
                process_op(&mut out, &op, &mut nesting, kernel, Ghost(id.0 as nat));
                proof {
                    assert(out@ =~= Seq::<Tok>::empty() + out@);
                }
            }
        },
        ValueState::Masked => {},
        _ => {
            out.push_str("v");
            out.push_num(id.0 as u64);
            proof {
                assert(out@ =~= lit("v") + num(id.0 as nat));
            }
        },
    }
    out
}

/// Writes the HIP declaration of a value: nothing for an inline or masked
/// value, otherwise its C type, name and initializer, `const` for a
/// constant.
pub fn def_var_c(out: &mut Code, nesting: &mut usize, id: ValueId, kernel: &RawKernel)
    requires
        well_formed(*kernel),
        hip_def_ok(*kernel, id.0 as nat),
        id.0 < kernel.values@.len(),
    ensures
        final(out)@ == old(out)@ + hip_def(*kernel, id.0 as nat),
        *final(nesting) == *old(nesting),
    decreases id.0, 3nat,
{
    let val = kernel.values[id.0];
    match val.state {
        ValueState::Masked | ValueState::Inline => {
            proof {
                assert(out@ =~= old(out)@ + Seq::<Tok>::empty());
            }
        },
        _ => {
            proof {
                assert(kernel.values@[id.0 as int].dtype is Simple);
            }
            let ty = val.dtype.fmt_c();
            if val.state == ValueState::Const {
                out.push_str("const ");
            }
            let ghost pre = out@;
            out.push_str(ty);
            out.push_str(" v");
            out.push_num(id.0 as u64);
            let ghost head = out@;
            if let Some(op) = val.init {
                out.push_str(" = ");
                process_op(out, &op, nesting, kernel, Ghost(id.0 as nat));
            }
            out.push_str(";");
            proof {
                let t = chars(c_name(val.dtype->Simple_0)) + lit(" v") + num(id.0 as nat);
                assert(head =~= pre + t);
                let init = match val.init {
                    Some(op) => lit(" = ") + hip_op(*kernel, op, id.0 as nat),
                    None => Seq::<Tok>::empty(),
                };
                assert(out@ =~= pre + (t + init + lit(";")));
                if val.state == ValueState::Const {
                    assert(pre =~= old(out)@ + lit("const "));
                    assert(out@ =~= old(out)@ + (lit("const ") + t + init + lit(";")));
                } else {
                    assert(pre =~= old(out)@);
                }
            }
        },
    }
}

fn process_op(out: &mut Code, op: &Op, nesting: &mut usize, kernel: &RawKernel, Ghost(bound): Ghost<nat>)
    requires
        well_formed(*kernel),
        hip_op_ok(*kernel, *op, bound),
        lookups_below(*op, bound),
        bound <= kernel.values@.len(),
        hip_nest_ok(*op, *old(nesting) as nat),
    ensures
        final(out)@ == old(out)@ + hip_op(*kernel, *op, bound),
        *final(nesting) == hip_nest(*op, *old(nesting) as nat),
    decreases bound, 2nat,
{
    match *op {
        Op::Nop | Op::DefineVar { .. } | Op::OverwriteVar { .. } | Op::AddAssign { .. } | Op::MulAssign { .. } | Op::DivAssign { .. } | Op::SubAssign { .. } | Op::ShlAssign { .. } | Op::ShrAssign { .. } | Op::CopyVar { .. } | Op::ForLoopBegin { .. } | Op::ForeverLoopBegin | Op::Continue | Op::Break | Op::IfBegin { .. } | Op::ElseBegin | Op::StartScope | Op::EndScope | Op::Barrier | Op::Return => write_statement(out, op, nesting, kernel, Ghost(bound)),
        Op::ConstF64 { .. } | Op::ConstF32 { .. } | Op::ConstF16 { .. } | Op::ConstBf16 { .. } | Op::ConstU32 { .. } | Op::ConstI32 { .. } | Op::ReadMeta { .. } | Op::LocalId { .. } | Op::BlockId { .. } | Op::GlobalId { .. } | Op::CastF64 { .. } | Op::CastF32 { .. } | Op::CastF16 { .. } | Op::CastBF16 { .. } | Op::CastU32 { .. } | Op::CastI32 { .. } => write_value(out, op, kernel, Ghost(bound)),
        Op::Add { .. } | Op::Sub { .. } | Op::Mul { .. } | Op::Div { .. } | Op::Mod { .. } | Op::Pow { .. } | Op::Shl { .. } | Op::Shr { .. } | Op::Fma { .. } | Op::Exp { .. } | Op::Abs { .. } | Op::Neg { .. } | Op::Log { .. } | Op::Tanh { .. } | Op::Sqrt { .. } | Op::Eq { .. } | Op::Ne { .. } | Op::Lt { .. } | Op::Gt { .. } | Op::Le { .. } | Op::Ge { .. } | Op::Not { .. } | Op::Max { .. } | Op::Min { .. } | Op::Select { .. } => write_arith(out, op, kernel, Ghost(bound)),
        _ => write_memory(out, op, kernel, Ghost(bound)),
    }
}

#[verifier::spinoff_prover]
fn write_statement(out: &mut Code, op: &Op, nesting: &mut usize, kernel: &RawKernel, Ghost(bound): Ghost<nat>)
    requires
        op_group(*op) == 0,
        well_formed(*kernel),
        hip_op_ok(*kernel, *op, bound),
        lookups_below(*op, bound),
        bound <= kernel.values@.len(),
        hip_nest_ok(*op, *old(nesting) as nat),
    ensures
        final(out)@ == old(out)@ + hip_op(*kernel, *op, bound),
        *final(nesting) == hip_nest(*op, *old(nesting) as nat),
    decreases bound, 1nat,
{
    reveal(hip_op_text);
    match *op {
        Op::Nop => {
            proof {
                assert(out@ =~= old(out)@ + Seq::<Tok>::empty());
            }
        },
        Op::DefineVar { id } => {
            proof {
                assert(lookups(*op).contains(id));
            }
            def_var_c(out, nesting, id, kernel);
        },
        Op::OverwriteVar { id, val } => {
            proof {
                assert(lookups(*op).contains(val));
            }
            let mut s0 = Code::new();
            s0.push_str("v");
            s0.push_num(id.0 as u64);
            s0.push_str(" = ");
            proof {
                assert(s0@ =~= lit("v") + num(id.0 as nat) + lit(" = "));
            }
            let mut s1 = Code::new();
            s1.push_str(";");
            proof {
                assert(s1@ =~= lit(";"));
            }
            write_wrap1(out, s0, val, s1, kernel, Ghost(bound));
        },
        Op::AddAssign { id, val } => {
            proof {
                assert(lookups(*op).contains(val));
            }
            let mut s0 = Code::new();
            s0.push_str("v");
            s0.push_num(id.0 as u64);
            s0.push_str(" += ");
            proof {
                assert(s0@ =~= lit("v") + num(id.0 as nat) + lit(" += "));
            }
            let mut s1 = Code::new();
            s1.push_str(";");
            proof {
                assert(s1@ =~= lit(";"));
            }
            write_wrap1(out, s0, val, s1, kernel, Ghost(bound));
        },
        Op::MulAssign { id, val } => {
            proof {
                assert(lookups(*op).contains(val));
            }
            let mut s0 = Code::new();
            s0.push_str("v");
            s0.push_num(id.0 as u64);
            s0.push_str(" *= ");
            proof {
                assert(s0@ =~= lit("v") + num(id.0 as nat) + lit(" *= "));
            }
            let mut s1 = Code::new();
            s1.push_str(";");
            proof {
                assert(s1@ =~= lit(";"));
            }
            write_wrap1(out, s0, val, s1, kernel, Ghost(bound));
        },
        Op::DivAssign { id, val } => {
            proof {
                assert(lookups(*op).contains(val));
            }
            let mut s0 = Code::new();
            s0.push_str("v");
            s0.push_num(id.0 as u64);
            s0.push_str(" /= ");
            proof {
                assert(s0@ =~= lit("v") + num(id.0 as nat) + lit(" /= "));
            }
            let mut s1 = Code::new();
            s1.push_str(";");
            proof {
                assert(s1@ =~= lit(";"));
            }
            write_wrap1(out, s0, val, s1, kernel, Ghost(bound));
        },
        Op::SubAssign { id, val } => {
            proof {
                assert(lookups(*op).contains(val));
            }
            let mut s0 = Code::new();
            s0.push_str("v");
            s0.push_num(id.0 as u64);
            s0.push_str(" -= ");
            proof {
                assert(s0@ =~= lit("v") + num(id.0 as nat) + lit(" -= "));
            }
            let mut s1 = Code::new();
            s1.push_str(";");
            proof {
                assert(s1@ =~= lit(";"));
            }
            write_wrap1(out, s0, val, s1, kernel, Ghost(bound));
        },
        Op::ShlAssign { id, val } => {
            proof {
                assert(lookups(*op).contains(val));
            }
            let mut s0 = Code::new();
            s0.push_str("v");
            s0.push_num(id.0 as u64);
            s0.push_str(" <<= ");
            proof {
                assert(s0@ =~= lit("v") + num(id.0 as nat) + lit(" <<= "));
            }
            let mut s1 = Code::new();
            s1.push_str(";");
            proof {
                assert(s1@ =~= lit(";"));
            }
            write_wrap1(out, s0, val, s1, kernel, Ghost(bound));
        },
        Op::ShrAssign { id, val } => {
            proof {
                assert(lookups(*op).contains(val));
            }
            let mut s0 = Code::new();
            s0.push_str("v");
            s0.push_num(id.0 as u64);
            s0.push_str(" >>= ");
            proof {
                assert(s0@ =~= lit("v") + num(id.0 as nat) + lit(" >>= "));
            }
            let mut s1 = Code::new();
            s1.push_str(";");
            proof {
                assert(s1@ =~= lit(";"));
            }
            write_wrap1(out, s0, val, s1, kernel, Ghost(bound));
        },
        Op::CopyVar { id } => {
            proof {
                assert(lookups(*op).contains(id));
            }
            let mut s0 = Code::new();
            let mut s1 = Code::new();
            write_wrap1(out, s0, id, s1, kernel, Ghost(bound));
        },
        Op::ForLoopBegin { index, end, step } => {
            proof {
                assert(lookups(*op).contains(end));
            }
            proof {
                assert(lookups(*op).contains(step));
            }
            let mut s0 = Code::new();
            s0.push_str("for (; v");
            s0.push_num(index.0 as u64);
            s0.push_str(" < ");
            proof {
                assert(s0@ =~= lit("for (; v") + num(index.0 as nat) + lit(" < "));
            }
            let mut s1 = Code::new();
            s1.push_str("; v");
            s1.push_num(index.0 as u64);
            s1.push_str(" += ");
            proof {
                assert(s1@ =~= lit("; v") + num(index.0 as nat) + lit(" += "));
            }
            let mut s2 = Code::new();
            s2.push_str(") {");
            proof {
                assert(s2@ =~= lit(") {"));
            }
            write_wrap2(out, s0, end, s1, step, s2, kernel, Ghost(bound));
            *nesting = *nesting + 1;
        },
        Op::ForeverLoopBegin => {
            let mut text = Code::new();
            text.push_str("for (;;) {");
            proof {
                assert(text@ =~= lit("for (;;) {"));
            }
            out.append(text);
            *nesting = *nesting + 1;
        },
        Op::Continue => {
            let mut text = Code::new();
            text.push_str("continue;");
            proof {
                assert(text@ =~= lit("continue;"));
            }
            out.append(text);
        },
        Op::Break => {
            let mut text = Code::new();
            text.push_str("break;");
            proof {
                assert(text@ =~= lit("break;"));
            }
            out.append(text);
        },
        Op::IfBegin { cond } => {
            proof {
                assert(lookups(*op).contains(cond));
            }
            let mut s0 = Code::new();
            s0.push_str("if (");
            proof {
                assert(s0@ =~= lit("if ("));
            }
            let mut s1 = Code::new();
            s1.push_str(") {");
            proof {
                assert(s1@ =~= lit(") {"));
            }
            write_wrap1(out, s0, cond, s1, kernel, Ghost(bound));
            *nesting = *nesting + 1;
        },
        Op::ElseBegin => {
            let mut text = Code::new();
            text.push_str("else {");
            proof {
                assert(text@ =~= lit("else {"));
            }
            out.append(text);
            *nesting = *nesting + 1;
        },
        Op::StartScope => {
            let mut text = Code::new();
            text.push_str("{");
            proof {
                assert(text@ =~= lit("{"));
            }
            out.append(text);
            *nesting = *nesting + 1;
        },
        Op::EndScope => {
            let mut text = Code::new();
            text.push_str("}");
            proof {
                assert(text@ =~= lit("}"));
            }
            out.append(text);
            *nesting = *nesting - 1;
        },
        Op::Barrier => {
            let mut text = Code::new();
            text.push_str("__syncthreads();");
            proof {
                assert(text@ =~= lit("__syncthreads();"));
            }
            out.append(text);
        },
        Op::Return => {
            let mut text = Code::new();
            text.push_str("return;");
            proof {
                assert(text@ =~= lit("return;"));
            }
            out.append(text);
        },
        _ => {},
    }
}

#[verifier::spinoff_prover]
fn write_value(out: &mut Code, op: &Op, kernel: &RawKernel, Ghost(bound): Ghost<nat>)
    requires
        op_group(*op) == 1,
        well_formed(*kernel),
        hip_op_ok(*kernel, *op, bound),
        lookups_below(*op, bound),
        bound <= kernel.values@.len(),
    ensures
        final(out)@ == old(out)@ + hip_op(*kernel, *op, bound),
    decreases bound, 1nat,
{
    reveal(hip_op_text);
    match *op {
        Op::ConstF64 { value } => {
            let mut text = Code::new();
            text.push_float(FloatLit::F64Debug(value));
            proof {
                assert(text@ =~= seq![Tok::Float(FloatLit::F64Debug(value))]);
            }
            out.append(text);
        },
        Op::ConstF32 { value } => {
            let mut text = Code::new();
            text.push_float(FloatLit::F32Debug(value));
            text.push_str("f");
            proof {
                assert(text@ =~= seq![Tok::Float(FloatLit::F32Debug(value))] + lit("f"));
            }
            out.append(text);
        },
        Op::ConstF16 { value } => {
            let mut text = Code::new();
            text.push_str("__float2half(");
            text.push_float(FloatLit::F16Debug(value));
            text.push_str("f)");
            proof {
                assert(text@ =~= lit("__float2half(") + seq![Tok::Float(FloatLit::F16Debug(value))] + lit("f)"));
            }
            out.append(text);
        },
        Op::ConstBf16 { value } => {
            let mut text = Code::new();
            text.push_str("__float2bfloat16(");
            text.push_float(FloatLit::Bf16Debug(value));
            text.push_str("f)");
            proof {
                assert(text@ =~= lit("__float2bfloat16(") + seq![Tok::Float(FloatLit::Bf16Debug(value))] + lit("f)"));
            }
            out.append(text);
        },
        Op::ConstU32 { value } => {
            let mut text = Code::new();
            text.push_num(value as u64);
            text.push_str("u");
            proof {
                assert(text@ =~= num(value as nat) + lit("u"));
            }
            out.append(text);
        },
        Op::ConstI32 { value } => {
            let mut text = Code::new();
            text.push_i32(value);
            proof {
                assert(text@ =~= chars(dec_int(value as int)));
            }
            out.append(text);
        },
        Op::ReadMeta { param, field } => {
            let mut text = Code::new();
            text.push_str("param");
            text.push_num(param.0 as u64);
            text.push_str("[");
            text.push_num(field.0 as u64);
            text.push_str("]");
            proof {
                assert(text@ =~= lit("param") + num(param.0 as nat) + lit("[") + num(field.0 as nat) + lit("]"));
            }
            out.append(text);
        },
        Op::LocalId { axis } => {
            let mut text = Code::new();
            text.push_str("threadIdx.");
            text.push_str(axis.fmt_vec3());
            proof {
                assert(text@ =~= lit("threadIdx.") + chars(axis_name(axis)));
            }
            out.append(text);
        },
        Op::BlockId { axis } => {
            let mut text = Code::new();
            text.push_str("blockIdx.");
            text.push_str(axis.fmt_vec3());
            proof {
                assert(text@ =~= lit("blockIdx.") + chars(axis_name(axis)));
            }
            out.append(text);
        },
        Op::GlobalId { axis } => {
            let mut text = Code::new();
            text.push_str("blockIdx.");
            text.push_str(axis.fmt_vec3());
            text.push_str(" * ");
            text.push_num(kernel.block[axis.index()] as u64);
            text.push_str(" + threadIdx.");
            text.push_str(axis.fmt_vec3());
            proof {
                assert(text@ =~= lit("blockIdx.") + chars(axis_name(axis)) + lit(" * ") + num(kernel.block[axis_index(axis) as int] as nat) + lit(" + threadIdx.") + chars(axis_name(axis)));
            }
            out.append(text);
        },
        Op::CastF64 { id } => {
            proof {
                assert(lookups(*op).contains(id));
            }
            let mut s0 = Code::new();
            s0.push_str("static_cast<double>(");
            proof {
                assert(s0@ =~= lit("static_cast<double>("));
            }
            let mut s1 = Code::new();
            s1.push_str(")");
            proof {
                assert(s1@ =~= lit(")"));
            }
            write_wrap1(out, s0, id, s1, kernel, Ghost(bound));
        },
        Op::CastF32 { id } => {
            proof {
                assert(lookups(*op).contains(id));
            }
            let mut s0 = Code::new();
            s0.push_str("static_cast<float>(");
            proof {
                assert(s0@ =~= lit("static_cast<float>("));
            }
            let mut s1 = Code::new();
            s1.push_str(")");
            proof {
                assert(s1@ =~= lit(")"));
            }
            write_wrap1(out, s0, id, s1, kernel, Ghost(bound));
        },
        Op::CastF16 { id } => {
            proof {
                assert(lookups(*op).contains(id));
            }
            let mut s0 = Code::new();
            s0.push_str("static_cast<__half>(");
            proof {
                assert(s0@ =~= lit("static_cast<__half>("));
            }
            let mut s1 = Code::new();
            s1.push_str(")");
            proof {
                assert(s1@ =~= lit(")"));
            }
            write_wrap1(out, s0, id, s1, kernel, Ghost(bound));
        },
        Op::CastBF16 { id } => {
            proof {
                assert(lookups(*op).contains(id));
            }
            let mut s0 = Code::new();
            s0.push_str("static_cast<hip_bfloat16>(");
            proof {
                assert(s0@ =~= lit("static_cast<hip_bfloat16>("));
            }
            let mut s1 = Code::new();
            s1.push_str(")");
            proof {
                assert(s1@ =~= lit(")"));
            }
            write_wrap1(out, s0, id, s1, kernel, Ghost(bound));
        },
        Op::CastU32 { id } => {
            proof {
                assert(lookups(*op).contains(id));
            }
            let mut s0 = Code::new();
            s0.push_str("static_cast<uint32_t>(");
            proof {
                assert(s0@ =~= lit("static_cast<uint32_t>("));
            }
            let mut s1 = Code::new();
            s1.push_str(")");
            proof {
                assert(s1@ =~= lit(")"));
            }
            write_wrap1(out, s0, id, s1, kernel, Ghost(bound));
        },
        Op::CastI32 { id } => {
            proof {
                assert(lookups(*op).contains(id));
            }
            let mut s0 = Code::new();
            s0.push_str("static_cast<int32_t>(");
            proof {
                assert(s0@ =~= lit("static_cast<int32_t>("));
            }
            let mut s1 = Code::new();
            s1.push_str(")");
            proof {
                assert(s1@ =~= lit(")"));
            }
            write_wrap1(out, s0, id, s1, kernel, Ghost(bound));
        },
        _ => {},
    }
}

#[verifier::spinoff_prover]
fn write_arith(out: &mut Code, op: &Op, kernel: &RawKernel, Ghost(bound): Ghost<nat>)
    requires
        op_group(*op) == 2,
        well_formed(*kernel),
        hip_op_ok(*kernel, *op, bound),
        lookups_below(*op, bound),
        bound <= kernel.values@.len(),
    ensures
        final(out)@ == old(out)@ + hip_op(*kernel, *op, bound),
    decreases bound, 1nat,
{
    reveal(hip_op_text);
    match *op {
        Op::Add { a, b } => {
            proof {
                assert(lookups(*op).contains(a));
            }
            proof {
                assert(lookups(*op).contains(b));
            }
            let mut s0 = Code::new();
            s0.push_str("(");
            proof {
                assert(s0@ =~= lit("("));
            }
            let mut s1 = Code::new();
            s1.push_str(") + (");
            proof {
                assert(s1@ =~= lit(") + ("));
            }
            let mut s2 = Code::new();
            s2.push_str(")");
            proof {
                assert(s2@ =~= lit(")"));
            }
            write_wrap2(out, s0, a, s1, b, s2, kernel, Ghost(bound));
        },
        Op::Sub { a, b } => {
            proof {
                assert(lookups(*op).contains(a));
            }
            proof {
                assert(lookups(*op).contains(b));
            }
            let mut s0 = Code::new();
            s0.push_str("(");
            proof {
                assert(s0@ =~= lit("("));
            }
            let mut s1 = Code::new();
            s1.push_str(") - (");
            proof {
                assert(s1@ =~= lit(") - ("));
            }
            let mut s2 = Code::new();
            s2.push_str(")");
            proof {
                assert(s2@ =~= lit(")"));
            }
            write_wrap2(out, s0, a, s1, b, s2, kernel, Ghost(bound));
        },
        Op::Mul { a, b } => {
            proof {
                assert(lookups(*op).contains(a));
            }
            proof {
                assert(lookups(*op).contains(b));
            }
            let mut s0 = Code::new();
            s0.push_str("(");
            proof {
                assert(s0@ =~= lit("("));
            }
            let mut s1 = Code::new();
            s1.push_str(") * (");
            proof {
                assert(s1@ =~= lit(") * ("));
            }
            let mut s2 = Code::new();
            s2.push_str(")");
            proof {
                assert(s2@ =~= lit(")"));
            }
            write_wrap2(out, s0, a, s1, b, s2, kernel, Ghost(bound));
        },
        Op::Div { a, b } => {
            proof {
                assert(lookups(*op).contains(a));
            }
            proof {
                assert(lookups(*op).contains(b));
            }
            let mut s0 = Code::new();
            s0.push_str("(");
            proof {
                assert(s0@ =~= lit("("));
            }
            let mut s1 = Code::new();
            s1.push_str(") / (");
            proof {
                assert(s1@ =~= lit(") / ("));
            }
            let mut s2 = Code::new();
            s2.push_str(")");
            proof {
                assert(s2@ =~= lit(")"));
            }
            write_wrap2(out, s0, a, s1, b, s2, kernel, Ghost(bound));
        },
        Op::Mod { a, b } => {
            proof {
                assert(lookups(*op).contains(a));
            }
            proof {
                assert(lookups(*op).contains(b));
            }
            let mut s0 = Code::new();
            s0.push_str("(");
            proof {
                assert(s0@ =~= lit("("));
            }
            let mut s1 = Code::new();
            s1.push_str(") % (");
            proof {
                assert(s1@ =~= lit(") % ("));
            }
            let mut s2 = Code::new();
            s2.push_str(")");
            proof {
                assert(s2@ =~= lit(")"));
            }
            write_wrap2(out, s0, a, s1, b, s2, kernel, Ghost(bound));
        },
        Op::Pow { a, b } => {
            proof {
                assert(lookups(*op).contains(a));
            }
            proof {
                assert(lookups(*op).contains(b));
            }
            let mut s0 = Code::new();
            s0.push_str("pow(");
            proof {
                assert(s0@ =~= lit("pow("));
            }
            let mut s1 = Code::new();
            s1.push_str(", ");
            proof {
                assert(s1@ =~= lit(", "));
            }
            let mut s2 = Code::new();
            s2.push_str(")");
            proof {
                assert(s2@ =~= lit(")"));
            }
            write_wrap2(out, s0, a, s1, b, s2, kernel, Ghost(bound));
        },
        Op::Shl { a, b } => {
            proof {
                assert(lookups(*op).contains(a));
            }
            proof {
                assert(lookups(*op).contains(b));
            }
            let mut s0 = Code::new();
            s0.push_str("(");
            proof {
                assert(s0@ =~= lit("("));
            }
            let mut s1 = Code::new();
            s1.push_str(") << (");
            proof {
                assert(s1@ =~= lit(") << ("));
            }
            let mut s2 = Code::new();
            s2.push_str(")");
            proof {
                assert(s2@ =~= lit(")"));
            }
            write_wrap2(out, s0, a, s1, b, s2, kernel, Ghost(bound));
        },
        Op::Shr { a, b } => {
            proof {
                assert(lookups(*op).contains(a));
            }
            proof {
                assert(lookups(*op).contains(b));
            }
            let mut s0 = Code::new();
            s0.push_str("(");
            proof {
                assert(s0@ =~= lit("("));
            }
            let mut s1 = Code::new();
            s1.push_str(") >> (");
            proof {
                assert(s1@ =~= lit(") >> ("));
            }
            let mut s2 = Code::new();
            s2.push_str(")");
            proof {
                assert(s2@ =~= lit(")"));
            }
            write_wrap2(out, s0, a, s1, b, s2, kernel, Ghost(bound));
        },
        Op::Fma { a, b, c } => {
            proof {
                assert(lookups(*op).contains(a));
            }
            proof {
                assert(lookups(*op).contains(b));
            }
            proof {
                assert(lookups(*op).contains(c));
            }
            let mut s0 = Code::new();
            s0.push_str(fma_symbol_of(kernel, a));
            s0.push_str("(");
            proof {
                assert(s0@ =~= lit(fma_symbol(*kernel, a)) + lit("("));
            }
            let mut s1 = Code::new();
            s1.push_str(", ");
            proof {
                assert(s1@ =~= lit(", "));
            }
            let mut s2 = Code::new();
            s2.push_str(", ");
            proof {
                assert(s2@ =~= lit(", "));
            }
            let mut s3 = Code::new();
            s3.push_str(")");
            proof {
                assert(s3@ =~= lit(")"));
            }
            write_wrap3(out, s0, a, s1, b, s2, c, s3, kernel, Ghost(bound));
        },
        Op::Exp { x } => {
            proof {
                assert(lookups(*op).contains(x));
            }
            let mut s0 = Code::new();
            s0.push_str("exp(");
            proof {
                assert(s0@ =~= lit("exp("));
            }
            let mut s1 = Code::new();
            s1.push_str(")");
            proof {
                assert(s1@ =~= lit(")"));
            }
            write_wrap1(out, s0, x, s1, kernel, Ghost(bound));
        },
        Op::Abs { x } => {
            proof {
                assert(lookups(*op).contains(x));
            }
            let mut s0 = Code::new();
            s0.push_str("abs(");
            proof {
                assert(s0@ =~= lit("abs("));
            }
            let mut s1 = Code::new();
            s1.push_str(")");
            proof {
                assert(s1@ =~= lit(")"));
            }
            write_wrap1(out, s0, x, s1, kernel, Ghost(bound));
        },
        Op::Neg { x } => {
            proof {
                assert(lookups(*op).contains(x));
            }
            let mut s0 = Code::new();
            s0.push_str("-(");
            proof {
                assert(s0@ =~= lit("-("));
            }
            let mut s1 = Code::new();
            s1.push_str(")");
            proof {
                assert(s1@ =~= lit(")"));
            }
            write_wrap1(out, s0, x, s1, kernel, Ghost(bound));
        },
        Op::Log { x } => {
            proof {
                assert(lookups(*op).contains(x));
            }
            let mut s0 = Code::new();
            s0.push_str("log(");
            proof {
                assert(s0@ =~= lit("log("));
            }
            let mut s1 = Code::new();
            s1.push_str(")");
            proof {
                assert(s1@ =~= lit(")"));
            }
            write_wrap1(out, s0, x, s1, kernel, Ghost(bound));
        },
        Op::Tanh { x } => {
            proof {
                assert(lookups(*op).contains(x));
            }
            let mut s0 = Code::new();
            s0.push_str("tanh(");
            proof {
                assert(s0@ =~= lit("tanh("));
            }
            let mut s1 = Code::new();
            s1.push_str(")");
            proof {
                assert(s1@ =~= lit(")"));
            }
            write_wrap1(out, s0, x, s1, kernel, Ghost(bound));
        },
        Op::Sqrt { x } => {
            proof {
                assert(lookups(*op).contains(x));
            }
            let mut s0 = Code::new();
            s0.push_str("sqrt(");
            proof {
                assert(s0@ =~= lit("sqrt("));
            }
            let mut s1 = Code::new();
            s1.push_str(")");
            proof {
                assert(s1@ =~= lit(")"));
            }
            write_wrap1(out, s0, x, s1, kernel, Ghost(bound));
        },
        Op::Eq { a, b } => {
            proof {
                assert(lookups(*op).contains(a));
            }
            proof {
                assert(lookups(*op).contains(b));
            }
            let mut s0 = Code::new();
            s0.push_str("(");
            proof {
                assert(s0@ =~= lit("("));
            }
            let mut s1 = Code::new();
            s1.push_str(") == (");
            proof {
                assert(s1@ =~= lit(") == ("));
            }
            let mut s2 = Code::new();
            s2.push_str(")");
            proof {
                assert(s2@ =~= lit(")"));
            }
            write_wrap2(out, s0, a, s1, b, s2, kernel, Ghost(bound));
        },
        Op::Ne { a, b } => {
            proof {
                assert(lookups(*op).contains(a));
            }
            proof {
                assert(lookups(*op).contains(b));
            }
            let mut s0 = Code::new();
            s0.push_str("(");
            proof {
                assert(s0@ =~= lit("("));
            }
            let mut s1 = Code::new();
            s1.push_str(") != (");
            proof {
                assert(s1@ =~= lit(") != ("));
            }
            let mut s2 = Code::new();
            s2.push_str(")");
            proof {
                assert(s2@ =~= lit(")"));
            }
            write_wrap2(out, s0, a, s1, b, s2, kernel, Ghost(bound));
        },
        Op::Lt { a, b } => {
            proof {
                assert(lookups(*op).contains(a));
            }
            proof {
                assert(lookups(*op).contains(b));
            }
            let mut s0 = Code::new();
            s0.push_str("(");
            proof {
                assert(s0@ =~= lit("("));
            }
            let mut s1 = Code::new();
            s1.push_str(") < (");
            proof {
                assert(s1@ =~= lit(") < ("));
            }
            let mut s2 = Code::new();
            s2.push_str(")");
            proof {
                assert(s2@ =~= lit(")"));
            }
            write_wrap2(out, s0, a, s1, b, s2, kernel, Ghost(bound));
        },
        Op::Gt { a, b } => {
            proof {
                assert(lookups(*op).contains(a));
            }
            proof {
                assert(lookups(*op).contains(b));
            }
            let mut s0 = Code::new();
            s0.push_str("(");
            proof {
                assert(s0@ =~= lit("("));
            }
            let mut s1 = Code::new();
            s1.push_str(") > (");
            proof {
                assert(s1@ =~= lit(") > ("));
            }
            let mut s2 = Code::new();
            s2.push_str(")");
            proof {
                assert(s2@ =~= lit(")"));
            }
            write_wrap2(out, s0, a, s1, b, s2, kernel, Ghost(bound));
        },
        Op::Le { a, b } => {
            proof {
                assert(lookups(*op).contains(a));
            }
            proof {
                assert(lookups(*op).contains(b));
            }
            let mut s0 = Code::new();
            s0.push_str("(");
            proof {
                assert(s0@ =~= lit("("));
            }
            let mut s1 = Code::new();
            s1.push_str(") <= (");
            proof {
                assert(s1@ =~= lit(") <= ("));
            }
            let mut s2 = Code::new();
            s2.push_str(")");
            proof {
                assert(s2@ =~= lit(")"));
            }
            write_wrap2(out, s0, a, s1, b, s2, kernel, Ghost(bound));
        },
        Op::Ge { a, b } => {
            proof {
                assert(lookups(*op).contains(a));
            }
            proof {
                assert(lookups(*op).contains(b));
            }
            let mut s0 = Code::new();
            s0.push_str("(");
            proof {
                assert(s0@ =~= lit("("));
            }
            let mut s1 = Code::new();
            s1.push_str(") >= (");
            proof {
                assert(s1@ =~= lit(") >= ("));
            }
            let mut s2 = Code::new();
            s2.push_str(")");
            proof {
                assert(s2@ =~= lit(")"));
            }
            write_wrap2(out, s0, a, s1, b, s2, kernel, Ghost(bound));
        },
        Op::Not { cond } => {
            proof {
                assert(lookups(*op).contains(cond));
            }
            let mut s0 = Code::new();
            s0.push_str("!(");
            proof {
                assert(s0@ =~= lit("!("));
            }
            let mut s1 = Code::new();
            s1.push_str(")");
            proof {
                assert(s1@ =~= lit(")"));
            }
            write_wrap1(out, s0, cond, s1, kernel, Ghost(bound));
        },
        Op::Max { a, b } => {
            proof {
                assert(lookups(*op).contains(a));
            }
            proof {
                assert(lookups(*op).contains(b));
            }
            let mut s0 = Code::new();
            s0.push_str("max(");
            proof {
                assert(s0@ =~= lit("max("));
            }
            let mut s1 = Code::new();
            s1.push_str(", ");
            proof {
                assert(s1@ =~= lit(", "));
            }
            let mut s2 = Code::new();
            s2.push_str(")");
            proof {
                assert(s2@ =~= lit(")"));
            }
            write_wrap2(out, s0, a, s1, b, s2, kernel, Ghost(bound));
        },
        Op::Min { a, b } => {
            proof {
                assert(lookups(*op).contains(a));
            }
            proof {
                assert(lookups(*op).contains(b));
            }
            let mut s0 = Code::new();
            s0.push_str("min(");
            proof {
                assert(s0@ =~= lit("min("));
            }
            let mut s1 = Code::new();
            s1.push_str(", ");
            proof {
                assert(s1@ =~= lit(", "));
            }
            let mut s2 = Code::new();
            s2.push_str(")");
            proof {
                assert(s2@ =~= lit(")"));
            }
            write_wrap2(out, s0, a, s1, b, s2, kernel, Ghost(bound));
        },
        Op::Select { cond, a, b } => {
            proof {
                assert(lookups(*op).contains(cond));
            }
            proof {
                assert(lookups(*op).contains(a));
            }
            proof {
                assert(lookups(*op).contains(b));
            }
            let mut s0 = Code::new();
            s0.push_str("(");
            proof {
                assert(s0@ =~= lit("("));
            }
            let mut s1 = Code::new();
            s1.push_str(" ? ");
            proof {
                assert(s1@ =~= lit(" ? "));
            }
            let mut s2 = Code::new();
            s2.push_str(" : ");
            proof {
                assert(s2@ =~= lit(" : "));
            }
            let mut s3 = Code::new();
            s3.push_str(")");
            proof {
                assert(s3@ =~= lit(")"));
            }
            write_wrap3(out, s0, cond, s1, a, s2, b, s3, kernel, Ghost(bound));
        },
        _ => {},
    }
}

#[verifier::spinoff_prover]
fn write_memory(out: &mut Code, op: &Op, kernel: &RawKernel, Ghost(bound): Ghost<nat>)
    requires
        op_group(*op) == 3,
        well_formed(*kernel),
        hip_op_ok(*kernel, *op, bound),
        lookups_below(*op, bound),
        bound <= kernel.values@.len(),
    ensures
        final(out)@ == old(out)@ + hip_op(*kernel, *op, bound),
    decreases bound, 1nat,
{
    reveal(hip_op_text);
    match *op {
        Op::ParamLoad { param, index } => {
            proof {
                assert(lookups(*op).contains(index));
            }
            let mut s0 = Code::new();
            s0.push_str("param");
            s0.push_num(param.0 as u64);
            s0.push_str("[");
            proof {
                assert(s0@ =~= lit("param") + num(param.0 as nat) + lit("["));
            }
            let mut s1 = Code::new();
            s1.push_str("]");
            proof {
                assert(s1@ =~= lit("]"));
            }
            write_wrap1(out, s0, index, s1, kernel, Ghost(bound));
        },
        Op::ParamStore { param, index, value } => {
            proof {
                assert(lookups(*op).contains(index));
            }
            proof {
                assert(lookups(*op).contains(value));
            }
            let mut s0 = Code::new();
            s0.push_str("param");
            s0.push_num(param.0 as u64);
            s0.push_str("[");
            proof {
                assert(s0@ =~= lit("param") + num(param.0 as nat) + lit("["));
            }
            let mut s1 = Code::new();
            s1.push_str("] = ");
            proof {
                assert(s1@ =~= lit("] = "));
            }
            let mut s2 = Code::new();
            s2.push_str(";");
            proof {
                assert(s2@ =~= lit(";"));
            }
            write_wrap2(out, s0, index, s1, value, s2, kernel, Ghost(bound));
        },
        Op::ParamAccum { param, index, value } => {
            proof {
                assert(lookups(*op).contains(index));
            }
            proof {
                assert(lookups(*op).contains(value));
            }
            let mut s0 = Code::new();
            s0.push_str("param");
            s0.push_num(param.0 as u64);
            s0.push_str("[");
            proof {
                assert(s0@ =~= lit("param") + num(param.0 as nat) + lit("["));
            }
            let mut s1 = Code::new();
            s1.push_str("] += ");
            proof {
                assert(s1@ =~= lit("] += "));
            }
            let mut s2 = Code::new();
            s2.push_str(";");
            proof {
                assert(s2@ =~= lit(";"));
            }
            write_wrap2(out, s0, index, s1, value, s2, kernel, Ghost(bound));
        },
        Op::ParamMul { param, index, value } => {
            proof {
                assert(lookups(*op).contains(index));
            }
            proof {
                assert(lookups(*op).contains(value));
            }
            let mut s0 = Code::new();
            s0.push_str("param");
            s0.push_num(param.0 as u64);
            s0.push_str("[");
            proof {
                assert(s0@ =~= lit("param") + num(param.0 as nat) + lit("["));
            }
            let mut s1 = Code::new();
            s1.push_str("] *= ");
            proof {
                assert(s1@ =~= lit("] *= "));
            }
            let mut s2 = Code::new();
            s2.push_str(";");
            proof {
                assert(s2@ =~= lit(";"));
            }
            write_wrap2(out, s0, index, s1, value, s2, kernel, Ghost(bound));
        },
        Op::ParamDiv { param, index, value } => {
            proof {
                assert(lookups(*op).contains(index));
            }
            proof {
                assert(lookups(*op).contains(value));
            }
            let mut s0 = Code::new();
            s0.push_str("param");
            s0.push_num(param.0 as u64);
            s0.push_str("[");
            proof {
                assert(s0@ =~= lit("param") + num(param.0 as nat) + lit("["));
            }
            let mut s1 = Code::new();
            s1.push_str("] /= ");
            proof {
                assert(s1@ =~= lit("] /= "));
            }
            let mut s2 = Code::new();
            s2.push_str(";");
            proof {
                assert(s2@ =~= lit(";"));
            }
            write_wrap2(out, s0, index, s1, value, s2, kernel, Ghost(bound));
        },
        Op::ParamSub { param, index, value } => {
            proof {
                assert(lookups(*op).contains(index));
            }
            proof {
                assert(lookups(*op).contains(value));
            }
            let mut s0 = Code::new();
            s0.push_str("param");
            s0.push_num(param.0 as u64);
            s0.push_str("[");
            proof {
                assert(s0@ =~= lit("param") + num(param.0 as nat) + lit("["));
            }
            let mut s1 = Code::new();
            s1.push_str("] -= ");
            proof {
                assert(s1@ =~= lit("] -= "));
            }
            let mut s2 = Code::new();
            s2.push_str(";");
            proof {
                assert(s2@ =~= lit(";"));
            }
            write_wrap2(out, s0, index, s1, value, s2, kernel, Ghost(bound));
        },
        Op::ParamShl { param, index, value } => {
            proof {
                assert(lookups(*op).contains(index));
            }
            proof {
                assert(lookups(*op).contains(value));
            }
            let mut s0 = Code::new();
            s0.push_str("param");
            s0.push_num(param.0 as u64);
            s0.push_str("[");
            proof {
                assert(s0@ =~= lit("param") + num(param.0 as nat) + lit("["));
            }
            let mut s1 = Code::new();
            s1.push_str("] <<= ");
            proof {
                assert(s1@ =~= lit("] <<= "));
            }
            let mut s2 = Code::new();
            s2.push_str(";");
            proof {
                assert(s2@ =~= lit(";"));
            }
            write_wrap2(out, s0, index, s1, value, s2, kernel, Ghost(bound));
        },
        Op::ParamShr { param, index, value } => {
            proof {
                assert(lookups(*op).contains(index));
            }
            proof {
                assert(lookups(*op).contains(value));
            }
            let mut s0 = Code::new();
            s0.push_str("param");
            s0.push_num(param.0 as u64);
            s0.push_str("[");
            proof {
                assert(s0@ =~= lit("param") + num(param.0 as nat) + lit("["));
            }
            let mut s1 = Code::new();
            s1.push_str("] >>= ");
            proof {
                assert(s1@ =~= lit("] >>= "));
            }
            let mut s2 = Code::new();
            s2.push_str(";");
            proof {
                assert(s2@ =~= lit(";"));
            }
            write_wrap2(out, s0, index, s1, value, s2, kernel, Ghost(bound));
        },
        Op::SharedLoad { mem, index } => {
            proof {
                assert(lookups(*op).contains(index));
            }
            let mut s0 = Code::new();
            s0.push_str("shared");
            s0.push_num(mem.0 as u64);
            s0.push_str("[");
            proof {
                assert(s0@ =~= lit("shared") + num(mem.0 as nat) + lit("["));
            }
            let mut s1 = Code::new();
            s1.push_str("]");
            proof {
                assert(s1@ =~= lit("]"));
            }
            write_wrap1(out, s0, index, s1, kernel, Ghost(bound));
        },
        Op::SharedStore { mem, index, value } => {
            proof {
                assert(lookups(*op).contains(index));
            }
            proof {
                assert(lookups(*op).contains(value));
            }
            let mut s0 = Code::new();
            s0.push_str("shared");
            s0.push_num(mem.0 as u64);
            s0.push_str("[");
            proof {
                assert(s0@ =~= lit("shared") + num(mem.0 as nat) + lit("["));
            }
            let mut s1 = Code::new();
            s1.push_str("] = ");
            proof {
                assert(s1@ =~= lit("] = "));
            }
            let mut s2 = Code::new();
            s2.push_str(";");
            proof {
                assert(s2@ =~= lit(";"));
            }
            write_wrap2(out, s0, index, s1, value, s2, kernel, Ghost(bound));
        },
        Op::SharedAccum { mem, index, value } => {
            proof {
                assert(lookups(*op).contains(index));
            }
            proof {
                assert(lookups(*op).contains(value));
            }
            let mut s0 = Code::new();
            s0.push_str("shared");
            s0.push_num(mem.0 as u64);
            s0.push_str("[");
            proof {
                assert(s0@ =~= lit("shared") + num(mem.0 as nat) + lit("["));
            }
            let mut s1 = Code::new();
            s1.push_str("] += ");
            proof {
                assert(s1@ =~= lit("] += "));
            }
            let mut s2 = Code::new();
            s2.push_str(";");
            proof {
                assert(s2@ =~= lit(";"));
            }
            write_wrap2(out, s0, index, s1, value, s2, kernel, Ghost(bound));
        },
        Op::SharedMul { mem, index, value } => {
            proof {
                assert(lookups(*op).contains(index));
            }
            proof {
                assert(lookups(*op).contains(value));
            }
            let mut s0 = Code::new();
            s0.push_str("shared");
            s0.push_num(mem.0 as u64);
            s0.push_str("[");
            proof {
                assert(s0@ =~= lit("shared") + num(mem.0 as nat) + lit("["));
            }
            let mut s1 = Code::new();
            s1.push_str("] *= ");
            proof {
                assert(s1@ =~= lit("] *= "));
            }
            let mut s2 = Code::new();
            s2.push_str(";");
            proof {
                assert(s2@ =~= lit(";"));
            }
            write_wrap2(out, s0, index, s1, value, s2, kernel, Ghost(bound));
        },
        Op::SharedDiv { mem, index, value } => {
            proof {
                assert(lookups(*op).contains(index));
            }
            proof {
                assert(lookups(*op).contains(value));
            }
            let mut s0 = Code::new();
            s0.push_str("shared");
            s0.push_num(mem.0 as u64);
            s0.push_str("[");
            proof {
                assert(s0@ =~= lit("shared") + num(mem.0 as nat) + lit("["));
            }
            let mut s1 = Code::new();
            s1.push_str("] /= ");
            proof {
                assert(s1@ =~= lit("] /= "));
            }
            let mut s2 = Code::new();
            s2.push_str(";");
            proof {
                assert(s2@ =~= lit(";"));
            }
            write_wrap2(out, s0, index, s1, value, s2, kernel, Ghost(bound));
        },
        Op::SharedSub { mem, index, value } => {
            proof {
                assert(lookups(*op).contains(index));
            }
            proof {
                assert(lookups(*op).contains(value));
            }
            let mut s0 = Code::new();
            s0.push_str("shared");
            s0.push_num(mem.0 as u64);
            s0.push_str("[");
            proof {
                assert(s0@ =~= lit("shared") + num(mem.0 as nat) + lit("["));
            }
            let mut s1 = Code::new();
            s1.push_str("] -= ");
            proof {
                assert(s1@ =~= lit("] -= "));
            }
            let mut s2 = Code::new();
            s2.push_str(";");
            proof {
                assert(s2@ =~= lit(";"));
            }
            write_wrap2(out, s0, index, s1, value, s2, kernel, Ghost(bound));
        },
        Op::SharedShl { mem, index, value } => {
            proof {
                assert(lookups(*op).contains(index));
            }
            proof {
                assert(lookups(*op).contains(value));
            }
            let mut s0 = Code::new();
            s0.push_str("shared");
            s0.push_num(mem.0 as u64);
            s0.push_str("[");
            proof {
                assert(s0@ =~= lit("shared") + num(mem.0 as nat) + lit("["));
            }
            let mut s1 = Code::new();
            s1.push_str("] <<= ");
            proof {
                assert(s1@ =~= lit("] <<= "));
            }
            let mut s2 = Code::new();
            s2.push_str(";");
            proof {
                assert(s2@ =~= lit(";"));
            }
            write_wrap2(out, s0, index, s1, value, s2, kernel, Ghost(bound));
        },
        Op::SharedShr { mem, index, value } => {
            proof {
                assert(lookups(*op).contains(index));
            }
            proof {
                assert(lookups(*op).contains(value));
            }
            let mut s0 = Code::new();
            s0.push_str("shared");
            s0.push_num(mem.0 as u64);
            s0.push_str("[");
            proof {
                assert(s0@ =~= lit("shared") + num(mem.0 as nat) + lit("["));
            }
            let mut s1 = Code::new();
            s1.push_str("] >>= ");
            proof {
                assert(s1@ =~= lit("] >>= "));
            }
            let mut s2 = Code::new();
            s2.push_str(";");
            proof {
                assert(s2@ =~= lit(";"));
            }
            write_wrap2(out, s0, index, s1, value, s2, kernel, Ghost(bound));
        },
        _ => {},
    }
}

fn write_wrap1(out: &mut Code, p0: Code, x0: ValueId, p1: Code, kernel: &RawKernel, Ghost(bound): Ghost<nat>)
    requires
        well_formed(*kernel),
        x0.0 < bound,
        bound <= kernel.values@.len(),
        hip_val_ok(*kernel, x0.0 as nat),
    ensures
        final(out)@ == old(out)@ + wrap1(p0@, hip_sub(*kernel, x0, bound), p1@),
    decreases bound, 0nat,
{
    proof {
        assert(hip_sub(*kernel, x0, bound) == hip_val(*kernel, x0.0 as nat));
    }
    let t0 = render_val(x0, kernel);
    let ghost start = out@;
    let ghost text = p0@ + t0@ + p1@;
    out.append(p0);
    out.append(t0);
    out.append(p1);
    proof {
        assert(out@ =~= start + text);
    }
}

fn write_wrap2(out: &mut Code, p0: Code, x0: ValueId, p1: Code, x1: ValueId, p2: Code, kernel: &RawKernel, Ghost(bound): Ghost<nat>)
    requires
        well_formed(*kernel),
        x0.0 < bound,
        x1.0 < bound,
        bound <= kernel.values@.len(),
        hip_val_ok(*kernel, x0.0 as nat),
        hip_val_ok(*kernel, x1.0 as nat),
    ensures
        final(out)@ == old(out)@ + wrap2(p0@, hip_sub(*kernel, x0, bound), p1@, hip_sub(*kernel, x1, bound), p2@),
    decreases bound, 0nat,
{
    proof {
        assert(hip_sub(*kernel, x0, bound) == hip_val(*kernel, x0.0 as nat));
    }
    proof {
        assert(hip_sub(*kernel, x1, bound) == hip_val(*kernel, x1.0 as nat));
    }
    let t0 = render_val(x0, kernel);
    let t1 = render_val(x1, kernel);
    let ghost start = out@;
    let ghost text = p0@ + t0@ + p1@ + t1@ + p2@;
    out.append(p0);
    out.append(t0);
    out.append(p1);
    out.append(t1);
    out.append(p2);
    proof {
        assert(out@ =~= start + text);
    }
}

fn write_wrap3(out: &mut Code, p0: Code, x0: ValueId, p1: Code, x1: ValueId, p2: Code, x2: ValueId, p3: Code, kernel: &RawKernel, Ghost(bound): Ghost<nat>)
    requires
        well_formed(*kernel),
        x0.0 < bound,
        x1.0 < bound,
        x2.0 < bound,
        bound <= kernel.values@.len(),
        hip_val_ok(*kernel, x0.0 as nat),
        hip_val_ok(*kernel, x1.0 as nat),
        hip_val_ok(*kernel, x2.0 as nat),
    ensures
        final(out)@ == old(out)@ + wrap3(p0@, hip_sub(*kernel, x0, bound), p1@, hip_sub(*kernel, x1, bound), p2@, hip_sub(*kernel, x2, bound), p3@),
    decreases bound, 0nat,
{
    proof {
        assert(hip_sub(*kernel, x0, bound) == hip_val(*kernel, x0.0 as nat));
    }
    proof {
        assert(hip_sub(*kernel, x1, bound) == hip_val(*kernel, x1.0 as nat));
    }
    proof {
        assert(hip_sub(*kernel, x2, bound) == hip_val(*kernel, x2.0 as nat));
    }
    let t0 = render_val(x0, kernel);
    let t1 = render_val(x1, kernel);
    let t2 = render_val(x2, kernel);
    let ghost start = out@;
    let ghost text = p0@ + t0@ + p1@ + t1@ + p2@ + t2@ + p3@;
    out.append(p0);
    out.append(t0);
    out.append(p1);
    out.append(t1);
    out.append(p2);
    out.append(t2);
    out.append(p3);
    proof {
        assert(out@ =~= start + text);
    }
}


/// The nesting depth after a sequence of instructions, from depth `n`.
pub open spec fn hip_depth(ops: Seq<Op>, n: nat) -> nat
    decreases ops.len(),
{
    if ops.len() == 0 {
        n
    } else {
        hip_nest(ops.last(), hip_depth(ops.drop_last(), n))
    }
}

/// Whether no scope is closed that is not open, the body of the kernel
/// function being open at depth 1.
pub open spec fn hip_scopes_ok(ops: Seq<Op>) -> bool {
    forall|j: int| 0 <= j < ops.len() ==> hip_nest_ok(#[trigger] ops[j], hip_depth(ops.take(j), 1))
}

/// The lines of a sequence of instructions: each on a new line at its
/// nesting depth.
pub open spec fn hip_lines(k: RawKernel, ops: Seq<Op>, pretty_print: bool) -> Seq<Tok>
    decreases ops.len(),
{
    if ops.len() == 0 {
        Seq::empty()
    } else {
        hip_lines(k, ops.drop_last(), pretty_print) + nl(pretty_print, hip_depth(ops.drop_last(), 1))
            + hip_op(k, ops.last(), k.values@.len() as nat)
    }
}

/// The parameters of the kernel function: a pointer to each buffer, to
/// constant data unless the buffer is written.
pub open spec fn hip_args(ps: Seq<Param>) -> Seq<Tok>
    decreases ps.len(),
{
    if ps.len() == 0 {
        Seq::empty()
    } else {
        let p = ps.last();
        hip_args(ps.drop_last()) + (if ps.len() > 1 { lit(", ") } else { Seq::empty() })
            + (if p.ty == ParamTy::ReadWrite { Seq::empty() } else { lit("const ") })
            + chars(c_name(p.dtype)) + lit(" *param") + num(p.pid.0 as nat)
    }
}

/// The declarations of the shared arrays.
pub open spec fn hip_shared(ss: Seq<SharedAlloc>, pretty_print: bool) -> Seq<Tok>
    decreases ss.len(),
{
    if ss.len() == 0 {
        Seq::empty()
    } else {
        let sh = ss.last();
        hip_shared(ss.drop_last(), pretty_print) + nl(pretty_print, 0) + lit("__shared__ ") + chars(c_name(sh.dtype))
            + lit(" shared") + num((ss.len() - 1) as nat) + lit("[") + num(sh.size as nat) + lit("];")
    }
}

/// The includes at the top of every kernel.
pub open spec fn hip_header() -> Seq<Tok> {
    lit("\n#include <cstdint>\n#include <hip/hip_bfloat16.h>\n#include <hip/hip_fp16.h>\n#include <hip/hip_runtime.h>\n")
}

/// The HIP source of a kernel.
pub open spec fn hip_source(k: RawKernel, ps: Seq<Param>, pretty_print: bool) -> Seq<Tok> {
    hip_header() + lit("extern \"C\" __global__\nvoid kernel(") + hip_args(ps) + lit(") {") + hip_shared(k.shared@, pretty_print)
        + hip_lines(k, k.ops@, pretty_print) + nl(pretty_print, 0) + lit("}")
}

/// Writes the parameters of the kernel function.
#[verifier::rlimit(50)]
fn gen_args(out: &mut Code, params: &[Param])
    ensures
        final(out)@ == old(out)@ + hip_args(params@),
{
    let mut i: usize = 0;
    proof {
        assert(params@.take(0) =~= Seq::<Param>::empty());
        assert(out@ =~= old(out)@ + hip_args(params@.take(0)));
    }
    while i < params.len()
        invariant
            i <= params@.len(),
            out@ == old(out)@ + hip_args(params@.take(i as int)),
        decreases params@.len() - i,
    {
        let p = params[i];
        proof {
            assert(params@.take(i + 1).drop_last() =~= params@.take(i as int));
            assert(params@.take(i + 1).last() == p);
        }
        if i != 0 {
            out.push_str(", ");
        }
        if p.ty != ParamTy::ReadWrite {
            out.push_str("const ");
        }
        out.push_str(p.dtype.fmt_c());
        out.push_str(" *param");
        out.push_num(p.pid.0 as u64);
        i = i + 1;
        proof {
            assert(out@ =~= old(out)@ + hip_args(params@.take(i as int)));
        }
    }
    proof {
        assert(params@.take(params@.len() as int) =~= params@);
    }
}

/// Writes the declarations of the shared arrays.
fn gen_shared(out: &mut Code, shared: &[SharedAlloc], pretty_print: bool)
    ensures
        final(out)@ == old(out)@ + hip_shared(shared@, pretty_print),
{
    let mut i: usize = 0;
    proof {
        assert(shared@.take(0) =~= Seq::<SharedAlloc>::empty());
        assert(out@ =~= old(out)@ + hip_shared(shared@.take(0), pretty_print));
    }
    while i < shared.len()
        invariant
            i <= shared@.len(),
            out@ == old(out)@ + hip_shared(shared@.take(i as int), pretty_print),
        decreases shared@.len() - i,
    {
        let sh = shared[i];
        proof {
            assert(shared@.take(i + 1).drop_last() =~= shared@.take(i as int));
            assert(shared@.take(i + 1).last() == sh);
        }
        newline(pretty_print, out, 0);
        out.push_str("__shared__ ");
        out.push_str(sh.dtype.fmt_c());
        out.push_str(" shared");
        out.push_num(i as u64);
        out.push_str("[");
        out.push_num(sh.size as u64);
        out.push_str("];");
        i = i + 1;
        proof {
            assert(out@ =~= old(out)@ + hip_shared(shared@.take(i as int), pretty_print));
        }
    }
    proof {
        assert(shared@.take(shared@.len() as int) =~= shared@);
    }
}

/// Writes the lines of all the instructions, the kernel body being at
/// depth 1.
fn gen_ops(kernel: &RawKernel, out: &mut Code, pretty_print: bool)
    requires
        well_formed(*kernel),
        hip_ops_ok(*kernel),
        hip_scopes_ok(kernel.ops@),
    ensures
        final(out)@ == old(out)@ + hip_lines(*kernel, kernel.ops@, pretty_print),
{
    let mut nesting: usize = 1;
    let n = kernel.ops.len();
    let mut j: usize = 0;
    proof {
        assert(kernel.ops@.take(0) =~= Seq::<Op>::empty());
        assert(out@ =~= old(out)@ + hip_lines(*kernel, kernel.ops@.take(0), pretty_print));
    }
    while j < n
        invariant
            n == kernel.ops@.len(),
            j <= n,
            well_formed(*kernel),
            hip_ops_ok(*kernel),
            hip_scopes_ok(kernel.ops@),
            nesting == hip_depth(kernel.ops@.take(j as int), 1),
            out@ == old(out)@ + hip_lines(*kernel, kernel.ops@.take(j as int), pretty_print),
        decreases n - j,
    {
        let op = kernel.ops[j];
        proof {
            assert(kernel.ops@.take(j + 1).drop_last() =~= kernel.ops@.take(j as int));
            assert(kernel.ops@.take(j + 1).last() == op);
            assert(hip_nest_ok(kernel.ops@[j as int], hip_depth(kernel.ops@.take(j as int), 1)));
            assert(lookups_below(kernel.ops@[j as int], kernel.values@.len() as nat));
        }
        newline(pretty_print, out, nesting);
        process_op(out, &op, &mut nesting, kernel, Ghost(kernel.values@.len() as nat));
        j = j + 1;
        proof {
            assert(out@ =~= old(out)@ + hip_lines(*kernel, kernel.ops@.take(j as int), pretty_print));
        }
    }
    proof {
        assert(kernel.ops@.take(n as int) =~= kernel.ops@);
    }
}

/// Generates the HIP source of a kernel with the given parameters: the
/// includes, the kernel function with a pointer parameter per buffer, the
/// shared arrays and the instructions. Formatted for reading where the
/// options ask for it.
pub fn generate_hip(src: &RawKernel, params: &[Param], options: &CompilationOptions) -> (c: Code)
    requires
        well_formed(*src),
        hip_ops_ok(*src),
        hip_scopes_ok(src.ops@),
    ensures
        c@ == hip_source(*src, params@, options.debug.bits & 1 == 1),
{
    let pretty_print = options.pretty_print();
    let mut out = Code::new();
    out.push_str("\n#include <cstdint>\n#include <hip/hip_bfloat16.h>\n#include <hip/hip_fp16.h>\n#include <hip/hip_runtime.h>\n");
    out.push_str("extern \"C\" __global__\nvoid kernel(");
    gen_args(&mut out, params);
    out.push_str(") {");
    gen_shared(&mut out, src.shared.as_slice(), pretty_print);
    gen_ops(src, &mut out, pretty_print);
    newline(pretty_print, &mut out, 0);
    out.push_str("}");
    proof {
        assert(out@ =~= hip_source(*src, params@, pretty_print));
    }
    out
}
/// Every two-operand instruction keeps its operands in order: its HIP text
/// is the text of the first operand, the operator (or the function name and
/// a comma), then the text of the second operand. So `a / b` divides `a` by
/// `b`, `a - b` subtracts `b` from `a`, and likewise for every operator whose
/// operands do not commute. A store writes the value of its second operand
/// at the index its first operand gives, and setting a value writes the
/// text of the new value into the named one.
pub proof fn law_hip_operand_order(k: RawKernel, a: ValueId, b: ValueId, p: ParamId, bound: nat)
    requires
        a.0 < bound,
        b.0 < bound,
    ensures
        hip_op(k, Op::ParamStore { param: p, index: a, value: b }, bound)
            == wrap2(lit("param") + num(p.0 as nat) + lit("["), hip_val(k, a.0 as nat), lit("] = "), hip_val(k, b.0 as nat), lit(";")),
        hip_op(k, Op::OverwriteVar { id: a, val: b }, bound)
            == wrap1(lit("v") + num(a.0 as nat) + lit(" = "), hip_val(k, b.0 as nat), lit(";")),
        hip_op(k, Op::Add { a, b }, bound) == wrap2(lit("("), hip_val(k, a.0 as nat), lit(") + ("), hip_val(k, b.0 as nat), lit(")")),
        hip_op(k, Op::Sub { a, b }, bound) == wrap2(lit("("), hip_val(k, a.0 as nat), lit(") - ("), hip_val(k, b.0 as nat), lit(")")),
        hip_op(k, Op::Mul { a, b }, bound) == wrap2(lit("("), hip_val(k, a.0 as nat), lit(") * ("), hip_val(k, b.0 as nat), lit(")")),
        hip_op(k, Op::Div { a, b }, bound) == wrap2(lit("("), hip_val(k, a.0 as nat), lit(") / ("), hip_val(k, b.0 as nat), lit(")")),
        hip_op(k, Op::Mod { a, b }, bound) == wrap2(lit("("), hip_val(k, a.0 as nat), lit(") % ("), hip_val(k, b.0 as nat), lit(")")),
        hip_op(k, Op::Pow { a, b }, bound) == wrap2(lit("pow("), hip_val(k, a.0 as nat), lit(", "), hip_val(k, b.0 as nat), lit(")")),
        hip_op(k, Op::Shl { a, b }, bound) == wrap2(lit("("), hip_val(k, a.0 as nat), lit(") << ("), hip_val(k, b.0 as nat), lit(")")),
        hip_op(k, Op::Shr { a, b }, bound) == wrap2(lit("("), hip_val(k, a.0 as nat), lit(") >> ("), hip_val(k, b.0 as nat), lit(")")),
        hip_op(k, Op::Eq { a, b }, bound) == wrap2(lit("("), hip_val(k, a.0 as nat), lit(") == ("), hip_val(k, b.0 as nat), lit(")")),
        hip_op(k, Op::Ne { a, b }, bound) == wrap2(lit("("), hip_val(k, a.0 as nat), lit(") != ("), hip_val(k, b.0 as nat), lit(")")),
        hip_op(k, Op::Lt { a, b }, bound) == wrap2(lit("("), hip_val(k, a.0 as nat), lit(") < ("), hip_val(k, b.0 as nat), lit(")")),
        hip_op(k, Op::Gt { a, b }, bound) == wrap2(lit("("), hip_val(k, a.0 as nat), lit(") > ("), hip_val(k, b.0 as nat), lit(")")),
        hip_op(k, Op::Le { a, b }, bound) == wrap2(lit("("), hip_val(k, a.0 as nat), lit(") <= ("), hip_val(k, b.0 as nat), lit(")")),
        hip_op(k, Op::Ge { a, b }, bound) == wrap2(lit("("), hip_val(k, a.0 as nat), lit(") >= ("), hip_val(k, b.0 as nat), lit(")")),
        hip_op(k, Op::Max { a, b }, bound) == wrap2(lit("max("), hip_val(k, a.0 as nat), lit(", "), hip_val(k, b.0 as nat), lit(")")),
        hip_op(k, Op::Min { a, b }, bound) == wrap2(lit("min("), hip_val(k, a.0 as nat), lit(", "), hip_val(k, b.0 as nat), lit(")")),
{
    reveal(hip_op_text);
    assert(hip_sub(k, a, bound) == hip_val(k, a.0 as nat));
    assert(hip_sub(k, b, bound) == hip_val(k, b.0 as nat));
    assert(hip_op(k, Op::ParamStore { param: p, index: a, value: b }, bound) == hip_op_text(k, Op::ParamStore { param: p, index: a, value: b }, |v: ValueId| hip_sub(k, v, bound), |v: ValueId| hip_def_below(k, v, bound)));
    assert(hip_op(k, Op::OverwriteVar { id: a, val: b }, bound) == hip_op_text(k, Op::OverwriteVar { id: a, val: b }, |v: ValueId| hip_sub(k, v, bound), |v: ValueId| hip_def_below(k, v, bound)));
    assert(hip_op(k, Op::Add { a, b }, bound) == hip_op_text(k, Op::Add { a, b }, |v: ValueId| hip_sub(k, v, bound), |v: ValueId| hip_def_below(k, v, bound)));
    assert(hip_op(k, Op::Sub { a, b }, bound) == hip_op_text(k, Op::Sub { a, b }, |v: ValueId| hip_sub(k, v, bound), |v: ValueId| hip_def_below(k, v, bound)));
    assert(hip_op(k, Op::Mul { a, b }, bound) == hip_op_text(k, Op::Mul { a, b }, |v: ValueId| hip_sub(k, v, bound), |v: ValueId| hip_def_below(k, v, bound)));
    assert(hip_op(k, Op::Div { a, b }, bound) == hip_op_text(k, Op::Div { a, b }, |v: ValueId| hip_sub(k, v, bound), |v: ValueId| hip_def_below(k, v, bound)));
    assert(hip_op(k, Op::Mod { a, b }, bound) == hip_op_text(k, Op::Mod { a, b }, |v: ValueId| hip_sub(k, v, bound), |v: ValueId| hip_def_below(k, v, bound)));
    assert(hip_op(k, Op::Pow { a, b }, bound) == hip_op_text(k, Op::Pow { a, b }, |v: ValueId| hip_sub(k, v, bound), |v: ValueId| hip_def_below(k, v, bound)));
    assert(hip_op(k, Op::Shl { a, b }, bound) == hip_op_text(k, Op::Shl { a, b }, |v: ValueId| hip_sub(k, v, bound), |v: ValueId| hip_def_below(k, v, bound)));
    assert(hip_op(k, Op::Shr { a, b }, bound) == hip_op_text(k, Op::Shr { a, b }, |v: ValueId| hip_sub(k, v, bound), |v: ValueId| hip_def_below(k, v, bound)));
    assert(hip_op(k, Op::Eq { a, b }, bound) == hip_op_text(k, Op::Eq { a, b }, |v: ValueId| hip_sub(k, v, bound), |v: ValueId| hip_def_below(k, v, bound)));
    assert(hip_op(k, Op::Ne { a, b }, bound) == hip_op_text(k, Op::Ne { a, b }, |v: ValueId| hip_sub(k, v, bound), |v: ValueId| hip_def_below(k, v, bound)));
    assert(hip_op(k, Op::Lt { a, b }, bound) == hip_op_text(k, Op::Lt { a, b }, |v: ValueId| hip_sub(k, v, bound), |v: ValueId| hip_def_below(k, v, bound)));
    assert(hip_op(k, Op::Gt { a, b }, bound) == hip_op_text(k, Op::Gt { a, b }, |v: ValueId| hip_sub(k, v, bound), |v: ValueId| hip_def_below(k, v, bound)));
    assert(hip_op(k, Op::Le { a, b }, bound) == hip_op_text(k, Op::Le { a, b }, |v: ValueId| hip_sub(k, v, bound), |v: ValueId| hip_def_below(k, v, bound)));
    assert(hip_op(k, Op::Ge { a, b }, bound) == hip_op_text(k, Op::Ge { a, b }, |v: ValueId| hip_sub(k, v, bound), |v: ValueId| hip_def_below(k, v, bound)));
    assert(hip_op(k, Op::Max { a, b }, bound) == hip_op_text(k, Op::Max { a, b }, |v: ValueId| hip_sub(k, v, bound), |v: ValueId| hip_def_below(k, v, bound)));
    assert(hip_op(k, Op::Min { a, b }, bound) == hip_op_text(k, Op::Min { a, b }, |v: ValueId| hip_sub(k, v, bound), |v: ValueId| hip_def_below(k, v, bound)));
}

} // verus!
