//! WGSL code generation.

use vstd::prelude::*;
use crate::code::{cat, chars, lemma_chars, lit, num, Code, FloatLit, Tok};
use crate::codegen::op_group;
use crate::codegen::{lemma_layout_blank, lemma_squeeze_cat, nl, squeeze, tb, newline, tab};
use crate::dtype::{axis_name, wgsl_dtype_name, wgsl_name, Axis, DType, SimpleDType};
use crate::errors::{err, make_err, Error, ErrorKind};
use crate::id::{ParamId, ValueId};
use crate::kernel::{is_well_formed, lookups, lookups_below, well_formed, Param, ParamTy, RawKernel, SharedAlloc, ValueState};
use crate::ops::Op;
use crate::text::{dec, dec_int, digit_text};

verus! {

/// The WGSL text of value `x` where it is used: an inline value is written
/// out, a masked one is not written, any other is named.
pub open spec fn wgsl_val(k: RawKernel, x: nat) -> Result<Seq<Tok>, Error<()>>
    decreases x, 3nat,
{
    if x < k.values@.len() {
        let v = k.values@[x as int];
        match v.state {
            ValueState::Inline => match v.init {
                Some(op) => wgsl_op(k, op, x),
                None => Ok(Seq::empty()),
            },
            ValueState::Masked => Ok(Seq::empty()),
            _ => Ok(lit("v") + num(x)),
        }
    } else {
        Ok(Seq::empty())
    }
}

/// The WGSL text of a value used by an instruction that may only look up
/// values below `bound`.
pub open spec fn wgsl_sub(k: RawKernel, v: ValueId, bound: nat) -> Result<Seq<Tok>, Error<()>>
    decreases bound, 0nat,
{
    if v.0 < bound {
        wgsl_val(k, v.0 as nat)
    } else {
        Ok(Seq::empty())
    }
}

/// The WGSL declaration of a value defined by an instruction that may only
/// look up values below `bound`.
pub open spec fn wgsl_def_below(k: RawKernel, v: ValueId, bound: nat) -> Result<Seq<Tok>, Error<()>>
    decreases bound, 0nat,
{
    if v.0 < bound {
        wgsl_def(k, v.0 as nat)
    } else {
        Ok(Seq::empty())
    }
}

/// The WGSL declaration of value `x`: nothing for an inline or masked value,
/// otherwise a `const`, `let` or `var` with its type and initializer.
pub open spec fn wgsl_def(k: RawKernel, x: nat) -> Result<Seq<Tok>, Error<()>>
    decreases x, 3nat,
{
    if x < k.values@.len() {
        let v = k.values@[x as int];
        let init = match v.init {
            Some(op) => cat(Ok(lit(" = ")), wgsl_op(k, op, x)),
            None => Ok(Seq::empty()),
        };
        let keyword = match v.state {
            ValueState::Const => "const v",
            ValueState::Immut => "let v",
            _ => "var v",
        };
        match v.state {
            ValueState::Masked | ValueState::Inline => Ok(Seq::empty()),
            _ => match wgsl_dtype_name(v.dtype) {
                Err(e) => Err(e),
                Ok(n) => cat(cat(Ok(lit(keyword) + num(x) + lit(": ") + chars(n)), init), Ok(lit(";"))),
            },
        }
    } else {
        Ok(Seq::empty())
    }
}

/// What writing the WGSL declaration of value `x` leaves written when it
/// fails: nothing, but where the initializer fails, the head of the
/// declaration up to ` = ` and what the initializer left.
pub open spec fn wgsl_def_err_written(k: RawKernel, x: nat) -> Seq<Tok>
    decreases x, 1nat,
{
    if x < k.values@.len() {
        let v = k.values@[x as int];
        let keyword = match v.state {
            ValueState::Const => "const v",
            ValueState::Immut => "let v",
            _ => "var v",
        };
        match v.state {
            ValueState::Masked | ValueState::Inline => Seq::empty(),
            _ => match wgsl_dtype_name(v.dtype) {
                Err(_) => Seq::empty(),
                Ok(n) => match v.init {
                    Some(op) => lit(keyword) + num(x) + lit(": ") + chars(n) + lit(" = ") + wgsl_err_written(k, op, x),
                    None => Seq::empty(),
                },
            },
        }
    } else {
        Seq::empty()
    }
}

/// What writing one instruction leaves written when it fails: nothing, but
/// for a definition, what its declaration left.
pub open spec fn wgsl_err_written(k: RawKernel, op: Op, bound: nat) -> Seq<Tok>
    decreases bound, 0nat,
{
    match op {
        Op::DefineVar { id } => if id.0 < bound {
            wgsl_def_err_written(k, id.0 as nat)
        } else {
            Seq::empty()
        },
        _ => Seq::empty(),
    }
}

/// The WGSL text of one instruction, which may only look up values below `bound`.
pub open spec fn wgsl_op(k: RawKernel, op: Op, bound: nat) -> Result<Seq<Tok>, Error<()>>
    decreases bound, 2nat,
{
    wgsl_op_text(k, op, |v: ValueId| wgsl_sub(k, v, bound), |v: ValueId| wgsl_def_below(k, v, bound))
}

/// The WGSL text of one instruction, given the text `text_of` of each value
/// it uses and the declaration `decl_of` of each value it defines.
#[verifier::opaque]
pub open spec fn wgsl_op_text(k: RawKernel, op: Op, text_of: spec_fn(ValueId) -> Result<Seq<Tok>, Error<()>>, decl_of: spec_fn(ValueId) -> Result<Seq<Tok>, Error<()>>) -> Result<Seq<Tok>, Error<()>> {
    match op {
        Op::Nop => Ok(Seq::<Tok>::empty()),
        Op::DefineVar { id } => decl_of(id),
        Op::OverwriteVar { id, val } => wrap1(lit("v") + num(id.0 as nat) + lit(" = "), text_of(val), lit(";")),
        Op::AddAssign { id, val } => wrap1(lit("v") + num(id.0 as nat) + lit(" += "), text_of(val), lit(";")),
        Op::MulAssign { id, val } => wrap1(lit("v") + num(id.0 as nat) + lit(" *= "), text_of(val), lit(";")),
        Op::DivAssign { id, val } => wrap1(lit("v") + num(id.0 as nat) + lit(" /= "), text_of(val), lit(";")),
        Op::SubAssign { id, val } => wrap1(lit("v") + num(id.0 as nat) + lit(" -= "), text_of(val), lit(";")),
        Op::ShlAssign { id, val } => wrap1(lit("v") + num(id.0 as nat) + lit(" <<= "), text_of(val), lit(";")),
        Op::ShrAssign { id, val } => wrap1(lit("v") + num(id.0 as nat) + lit(" >>= "), text_of(val), lit(";")),
        Op::CopyVar { id } => wrap1(Seq::<Tok>::empty(), text_of(id), Seq::<Tok>::empty()),
        Op::ConstF64 { value } => Ok(seq![Tok::Float(FloatLit::F64Display(value))] + lit("d")),
        Op::ConstF32 { value } => Ok(seq![Tok::Float(FloatLit::F32Display(value))] + lit("f")),
        Op::ConstF16 { value } => Ok(seq![Tok::Float(FloatLit::F16Display(value))] + lit("h")),
        Op::ConstBf16 { .. } => Err(err("cannot evaluate constant `bf16`", ErrorKind::InvalidDType)),
        Op::ConstU32 { value } => Ok(num(value as nat) + lit("u")),
        Op::ConstI32 { value } => Ok(chars(dec_int(value as int))),
        Op::ReadMeta { param, field } => Ok(lit("param") + num(param.0 as nat) + lit(".f") + num(field.0 as nat)),
        Op::LocalId { axis } => Ok(lit("lid.") + chars(axis_name(axis))),
        Op::BlockId { axis } => Ok(lit("bid.") + chars(axis_name(axis))),
        Op::GlobalId { axis } => Ok(lit("gid.") + chars(axis_name(axis))),
        Op::Add { a, b } => wrap2(lit("("), text_of(a), lit(") + ("), text_of(b), lit(")")),
        Op::Sub { a, b } => wrap2(lit("("), text_of(a), lit(") - ("), text_of(b), lit(")")),
        Op::Mul { a, b } => wrap2(lit("("), text_of(a), lit(") * ("), text_of(b), lit(")")),
        Op::Div { a, b } => wrap2(lit("("), text_of(a), lit(") / ("), text_of(b), lit(")")),
        Op::Mod { a, b } => wrap2(lit("("), text_of(a), lit(") % ("), text_of(b), lit(")")),
        Op::Pow { a, b } => wrap2(lit("pow("), text_of(a), lit(", "), text_of(b), lit(")")),
        Op::Shl { a, b } => wrap2(lit("("), text_of(a), lit(") << ("), text_of(b), lit(")")),
        Op::Shr { a, b } => wrap2(lit("("), text_of(a), lit(") >> ("), text_of(b), lit(")")),
        Op::Fma { a, b, c } => wrap3(lit("fma("), text_of(a), lit(", "), text_of(b), lit(", "), text_of(c), lit(")")),
        Op::Exp { x } => wrap1(lit("exp("), text_of(x), lit(")")),
        Op::Abs { x } => wrap1(lit("abs("), text_of(x), lit(")")),
        Op::Neg { x } => wrap1(lit("-("), text_of(x), lit(")")),
        Op::Log { x } => wrap1(lit("log("), text_of(x), lit(")")),
        Op::Tanh { x } => wrap1(lit("tanh("), text_of(x), lit(")")),
        Op::Sqrt { x } => wrap1(lit("sqrt("), text_of(x), lit(")")),
        Op::ParamLoad { param, index } => wrap1(lit("param") + num(param.0 as nat) + lit("["), text_of(index), lit("]")),
        Op::ParamStore { param, index, value } => wrap2(lit("param") + num(param.0 as nat) + lit("["), text_of(index), lit("] = "), text_of(value), lit(";")),
        Op::ParamAccum { param, index, value } => wrap2(lit("param") + num(param.0 as nat) + lit("["), text_of(index), lit("] += "), text_of(value), lit(";")),
        Op::ParamMul { param, index, value } => wrap2(lit("param") + num(param.0 as nat) + lit("["), text_of(index), lit("] *= "), text_of(value), lit(";")),
        Op::ParamDiv { param, index, value } => wrap2(lit("param") + num(param.0 as nat) + lit("["), text_of(index), lit("] /= "), text_of(value), lit(";")),
        Op::ParamSub { param, index, value } => wrap2(lit("param") + num(param.0 as nat) + lit("["), text_of(index), lit("] -= "), text_of(value), lit(";")),
        Op::ParamShl { param, index, value } => wrap2(lit("param") + num(param.0 as nat) + lit("["), text_of(index), lit("] <<= "), text_of(value), lit(";")),
        Op::ParamShr { param, index, value } => wrap2(lit("param") + num(param.0 as nat) + lit("["), text_of(index), lit("] >>= "), text_of(value), lit(";")),
        Op::SharedLoad { mem, index } => wrap1(lit("shared") + num(mem.0 as nat) + lit("["), text_of(index), lit("]")),
        Op::SharedStore { mem, index, value } => wrap2(lit("shared") + num(mem.0 as nat) + lit("["), text_of(index), lit("] = "), text_of(value), lit(";")),
        Op::SharedAccum { mem, index, value } => wrap2(lit("shared") + num(mem.0 as nat) + lit("["), text_of(index), lit("] += "), text_of(value), lit(";")),
        Op::SharedMul { mem, index, value } => wrap2(lit("shared") + num(mem.0 as nat) + lit("["), text_of(index), lit("] *= "), text_of(value), lit(";")),
        Op::SharedDiv { mem, index, value } => wrap2(lit("shared") + num(mem.0 as nat) + lit("["), text_of(index), lit("] /= "), text_of(value), lit(";")),
        Op::SharedSub { mem, index, value } => wrap2(lit("shared") + num(mem.0 as nat) + lit("["), text_of(index), lit("] -= "), text_of(value), lit(";")),
        Op::SharedShl { mem, index, value } => wrap2(lit("shared") + num(mem.0 as nat) + lit("["), text_of(index), lit("] <<= "), text_of(value), lit(";")),
        Op::SharedShr { mem, index, value } => wrap2(lit("shared") + num(mem.0 as nat) + lit("["), text_of(index), lit("] >>= "), text_of(value), lit(";")),
        Op::Eq { a, b } => wrap2(lit("("), text_of(a), lit(") == ("), text_of(b), lit(")")),
        Op::Ne { a, b } => wrap2(lit("("), text_of(a), lit(") != ("), text_of(b), lit(")")),
        Op::Lt { a, b } => wrap2(lit("("), text_of(a), lit(") < ("), text_of(b), lit(")")),
        Op::Gt { a, b } => wrap2(lit("("), text_of(a), lit(") > ("), text_of(b), lit(")")),
        Op::Le { a, b } => wrap2(lit("("), text_of(a), lit(") <= ("), text_of(b), lit(")")),
        Op::Ge { a, b } => wrap2(lit("("), text_of(a), lit(") >= ("), text_of(b), lit(")")),
        Op::Not { cond } => wrap1(lit("!("), text_of(cond), lit(")")),
        Op::Max { a, b } => wrap2(lit("max("), text_of(a), lit(", "), text_of(b), lit(")")),
        Op::Min { a, b } => wrap2(lit("min("), text_of(a), lit(", "), text_of(b), lit(")")),
        Op::CastF64 { id } => wrap1(lit("f64("), text_of(id), lit(")")),
        Op::CastF32 { id } => wrap1(lit("f32("), text_of(id), lit(")")),
        Op::CastF16 { id } => wrap1(lit("f16("), text_of(id), lit(")")),
        Op::CastBF16 { .. } => Err(err("bf16 not supported", ErrorKind::InvalidDType)),
        Op::CastU32 { id } => wrap1(lit("u32("), text_of(id), lit(")")),
        Op::CastI32 { id } => wrap1(lit("i32("), text_of(id), lit(")")),
        Op::Select { cond, a, b } => wrap3(lit("select("), text_of(cond), lit(", "), text_of(a), lit(", "), text_of(b), lit(")")),
        Op::ForLoopBegin { index, end, step } => wrap2(lit("for (; v") + num(index.0 as nat) + lit(" < "), text_of(end), lit("; v") + num(index.0 as nat) + lit(" += "), text_of(step), lit(") {")),
        Op::ForeverLoopBegin => Ok(lit("loop {")),
        Op::Continue => Ok(lit("continue;")),
        Op::Break => Ok(lit("break;")),
        Op::IfBegin { cond } => wrap1(lit("if ("), text_of(cond), lit(") {")),
        Op::ElseBegin => Ok(lit("else {")),
        Op::StartScope => Ok(lit("{")),
        Op::EndScope => Ok(lit("}")),
        Op::Barrier => Ok(lit("workgroupBarrier();")),
        Op::Return => Ok(lit("return;")),
    }
}

/// The nesting depth after one instruction, from the depth before it:
/// loops and branches open a level and a scope end closes one; a bare scope
/// start opens none, so its end closes the level around it.
pub open spec fn wgsl_nest(op: Op, n: nat) -> nat {
    match op {
        Op::ForLoopBegin { .. } => (n + 1) as nat,
        Op::ForeverLoopBegin => (n + 1) as nat,
        Op::IfBegin { .. } => (n + 1) as nat,
        Op::ElseBegin => (n + 1) as nat,
        Op::EndScope => (n - 1) as nat,
        _ => n,
    }
}

/// Whether the nesting depth `n` can take one instruction: a closing needs an
/// open scope, an opening needs room to count it.
pub open spec fn wgsl_nest_ok(op: Op, n: nat) -> bool {
    match op {
        Op::ForLoopBegin { .. } => n < usize::MAX,
        Op::ForeverLoopBegin => n < usize::MAX,
        Op::IfBegin { .. } => n < usize::MAX,
        Op::ElseBegin => n < usize::MAX,
        Op::EndScope => n > 0,
        _ => true,
    }
}

/// Text pieces with 1 piece of generated text between them, or the first error.
pub open spec fn wrap1<E>(p0: Seq<Tok>, t0: Result<Seq<Tok>, E>, p1: Seq<Tok>) -> Result<Seq<Tok>, E> {
    cat(cat(Ok(p0), t0), Ok(p1))
}

/// Text pieces with 2 pieces of generated text between them, or the first error.
pub open spec fn wrap2<E>(p0: Seq<Tok>, t0: Result<Seq<Tok>, E>, p1: Seq<Tok>, t1: Result<Seq<Tok>, E>, p2: Seq<Tok>) -> Result<Seq<Tok>, E> {
    cat(cat(cat(cat(Ok(p0), t0), Ok(p1)), t1), Ok(p2))
}

/// Text pieces with 3 pieces of generated text between them, or the first error.
pub open spec fn wrap3<E>(p0: Seq<Tok>, t0: Result<Seq<Tok>, E>, p1: Seq<Tok>, t1: Result<Seq<Tok>, E>, p2: Seq<Tok>, t2: Result<Seq<Tok>, E>, p3: Seq<Tok>) -> Result<Seq<Tok>, E> {
    cat(cat(cat(cat(cat(cat(Ok(p0), t0), Ok(p1)), t1), Ok(p2)), t2), Ok(p3))
}

fn render_val(id: ValueId, kernel: &RawKernel) -> (r: Result<Code, Error<()>>)
    requires
        well_formed(*kernel),
        id.0 < kernel.values@.len(),
    ensures
        match wgsl_val(*kernel, id.0 as nat) {
            Ok(t) => r matches Ok(c) && c@ == t,
            Err(e) => r == Err::<Code, Error<()>>(e),
        },
    decreases id.0, 3nat,
{
    let mut out = Code::new();
    let val = kernel.values[id.0];
    match val.state {
        ValueState::Inline => {
            if let Some(op) = val.init {
                let mut nesting: usize = 0;
                if let Err(e) = process_op(&mut out, &op, &mut nesting, kernel, Ghost(id.0 as nat)) {
                    return Err(e);
                }
                proof {
                    assert(out@ =~= Seq::<Tok>::empty() + out@);
                }
            }
        },
        ValueState::Masked => {},
        _ => {
            out.push_str("v");
            out.push_num(id.0 as u64);
            proof {
                assert(out@ =~= lit("v") + num(id.0 as nat));
            }
        },
    }
    Ok(out)
}

/// Writes the WGSL declaration of a value: nothing for an inline or masked
/// value, otherwise a `const`, `let` or `var` with its type and initializer.
#[verifier::rlimit(40)]
pub fn def_var_wgsl(out: &mut Code, nesting: &mut usize, id: ValueId, kernel: &RawKernel) -> (r: Result<(), Error<()>>)
    requires
        well_formed(*kernel),
        id.0 < kernel.values@.len(),
    ensures
        match wgsl_def(*kernel, id.0 as nat) {
            Ok(t) => r is Ok && final(out)@ == old(out)@ + t,
            Err(e) => r == Err::<(), Error<()>>(e),
        },
        r is Ok ==> *final(nesting) == *old(nesting),
        r is Err ==> final(out)@ == old(out)@ + wgsl_def_err_written(*kernel, id.0 as nat)
            && *final(nesting) == *old(nesting),
    decreases id.0, 3nat,
{
    let val = kernel.values[id.0];
    match val.state {
        ValueState::Masked | ValueState::Inline => {
            proof {
                assert(out@ =~= old(out)@ + Seq::<Tok>::empty());
            }
        },
        _ => {
            let ty = match val.dtype.fmt_wgsl() {
                Ok(v) => v,
                Err(e) => {
                    proof {
                        assert(out@ =~= old(out)@ + wgsl_def_err_written(*kernel, id.0 as nat));
                    }
                    return Err(e);
                },
            };
            let keyword = match val.state {
                ValueState::Const => "const v",
                ValueState::Immut => "let v",
                _ => "var v",
            };
            out.push_str(keyword);
            out.push_num(id.0 as u64);
            out.push_str(": ");
            out.push_str(ty);
            let ghost head = out@;
            if let Some(op) = val.init {
                out.push_str(" = ");
                if let Err(e) = process_op(out, &op, nesting, kernel, Ghost(id.0 as nat)) {
                    proof {
                        let n = wgsl_dtype_name(val.dtype)->Ok_0;
                        assert(head == old(out)@ + lit(keyword) + num(id.0 as nat) + lit(": ") + chars(n));
                        assert(out@ =~= old(out)@ + wgsl_def_err_written(*kernel, id.0 as nat));
                    }
                    return Err(e);
                }
            }
            out.push_str(";");
            proof {
                let t = lit(keyword) + num(id.0 as nat) + lit(": ") + lit(ty);
                assert(head =~= old(out)@ + t);
                match val.init {
                    Some(op) => {
                        let tt = wgsl_op(*kernel, op, id.0 as nat)->Ok_0;
                        assert(out@ =~= old(out)@ + (t + (lit(" = ") + tt) + lit(";")));
                    },
                    None => {
                        assert(out@ =~= old(out)@ + (t + Seq::<Tok>::empty() + lit(";")));
                    },
                }
            }
        },
    }
    Ok(())
}

fn process_op(out: &mut Code, op: &Op, nesting: &mut usize, kernel: &RawKernel, Ghost(bound): Ghost<nat>) -> (r: Result<(), Error<()>>)
    requires
        well_formed(*kernel),
        lookups_below(*op, bound),
        bound <= kernel.values@.len(),
        wgsl_nest_ok(*op, *old(nesting) as nat),
    ensures
        match wgsl_op(*kernel, *op, bound) {
            Ok(t) => r is Ok && final(out)@ == old(out)@ + t,
            Err(e) => r == Err::<(), Error<()>>(e),
        },
        r is Ok ==> *final(nesting) == wgsl_nest(*op, *old(nesting) as nat),
        r is Err ==> final(out)@ == old(out)@ + wgsl_err_written(*kernel, *op, bound)
            && *final(nesting) == *old(nesting),
    decreases bound, 2nat,
{
    match *op {
        Op::Nop | Op::DefineVar { .. } | Op::OverwriteVar { .. } | Op::AddAssign { .. } | Op::MulAssign { .. } | Op::DivAssign { .. } | Op::SubAssign { .. } | Op::ShlAssign { .. } | Op::ShrAssign { .. } | Op::CopyVar { .. } | Op::ForLoopBegin { .. } | Op::ForeverLoopBegin | Op::Continue | Op::Break | Op::IfBegin { .. } | Op::ElseBegin | Op::StartScope | Op::EndScope | Op::Barrier | Op::Return => write_statement(out, op, nesting, kernel, Ghost(bound)),
        Op::ConstF64 { .. } | Op::ConstF32 { .. } | Op::ConstF16 { .. } | Op::ConstBf16 { .. } | Op::ConstU32 { .. } | Op::ConstI32 { .. } | Op::ReadMeta { .. } | Op::LocalId { .. } | Op::BlockId { .. } | Op::GlobalId { .. } | Op::CastF64 { .. } | Op::CastF32 { .. } | Op::CastF16 { .. } | Op::CastBF16 { .. } | Op::CastU32 { .. } | Op::CastI32 { .. } => write_value(out, op, kernel, Ghost(bound)),
        Op::Add { .. } | Op::Sub { .. } | Op::Mul { .. } | Op::Div { .. } | Op::Mod { .. } | Op::Pow { .. } | Op::Shl { .. } | Op::Shr { .. } | Op::Fma { .. } | Op::Exp { .. } | Op::Abs { .. } | Op::Neg { .. } | Op::Log { .. } | Op::Tanh { .. } | Op::Sqrt { .. } | Op::Eq { .. } | Op::Ne { .. } | Op::Lt { .. } | Op::Gt { .. } | Op::Le { .. } | Op::Ge { .. } | Op::Not { .. } | Op::Max { .. } | Op::Min { .. } | Op::Select { .. } => write_arith(out, op, kernel, Ghost(bound)),
        _ => write_memory(out, op, kernel, Ghost(bound)),
    }
}

#[verifier::spinoff_prover]
fn write_statement(out: &mut Code, op: &Op, nesting: &mut usize, kernel: &RawKernel, Ghost(bound): Ghost<nat>) -> (r: Result<(), Error<()>>)
    requires
        op_group(*op) == 0,
        well_formed(*kernel),
        lookups_below(*op, bound),
        bound <= kernel.values@.len(),
        wgsl_nest_ok(*op, *old(nesting) as nat),
    ensures
        match wgsl_op(*kernel, *op, bound) {
            Ok(t) => r is Ok && final(out)@ == old(out)@ + t,
            Err(e) => r == Err::<(), Error<()>>(e),
        },
        r is Ok ==> *final(nesting) == wgsl_nest(*op, *old(nesting) as nat),
        r is Err ==> final(out)@ == old(out)@ + wgsl_err_written(*kernel, *op, bound)
            && *final(nesting) == *old(nesting),
    decreases bound, 1nat,
{
    reveal(wgsl_op_text);
    match *op {
        Op::Nop => {
            let mut text = Code::new();
            out.append(text);
        },
        Op::DefineVar { id } => {
            proof {
                assert(lookups(*op).contains(id));
            }
            if let Err(e) = def_var_wgsl(out, nesting, id, kernel) {
                return Err(e);
            }
        },
        Op::OverwriteVar { id, val } => {
            proof {
                assert(lookups(*op).contains(val));
            }
            let mut s0 = Code::new();
            s0.push_str("v");
            s0.push_num(id.0 as u64);
            s0.push_str(" = ");
            proof {
                assert(s0@ =~= lit("v") + num(id.0 as nat) + lit(" = "));
            }
            let mut s1 = Code::new();
            s1.push_str(";");
            proof {
                assert(s1@ =~= lit(";"));
            }
            if let Err(e) = write_wrap1(out, s0, val, s1, kernel, Ghost(bound)) {
                return Err(e);
            }
        },
        Op::AddAssign { id, val } => {
            proof {
                assert(lookups(*op).contains(val));
            }
            let mut s0 = Code::new();
            s0.push_str("v");
            s0.push_num(id.0 as u64);
            s0.push_str(" += ");
            proof {
                assert(s0@ =~= lit("v") + num(id.0 as nat) + lit(" += "));
            }
            let mut s1 = Code::new();
            s1.push_str(";");
            proof {
                assert(s1@ =~= lit(";"));
            }
            if let Err(e) = write_wrap1(out, s0, val, s1, kernel, Ghost(bound)) {
                return Err(e);
            }
        },
        Op::MulAssign { id, val } => {
            proof {
                assert(lookups(*op).contains(val));
            }
            let mut s0 = Code::new();
            s0.push_str("v");
            s0.push_num(id.0 as u64);
            s0.push_str(" *= ");
            proof {
                assert(s0@ =~= lit("v") + num(id.0 as nat) + lit(" *= "));
            }
            let mut s1 = Code::new();
            s1.push_str(";");
            proof {
                assert(s1@ =~= lit(";"));
            }
            if let Err(e) = write_wrap1(out, s0, val, s1, kernel, Ghost(bound)) {
                return Err(e);
            }
        },
        Op::DivAssign { id, val } => {
            proof {
                assert(lookups(*op).contains(val));
            }
            let mut s0 = Code::new();
            s0.push_str("v");
            s0.push_num(id.0 as u64);
            s0.push_str(" /= ");
            proof {
                assert(s0@ =~= lit("v") + num(id.0 as nat) + lit(" /= "));
            }
            let mut s1 = Code::new();
            s1.push_str(";");
            proof {
                assert(s1@ =~= lit(";"));
            }
            if let Err(e) = write_wrap1(out, s0, val, s1, kernel, Ghost(bound)) {
                return Err(e);
            }
        },
        Op::SubAssign { id, val } => {
            proof {
                assert(lookups(*op).contains(val));
            }
            let mut s0 = Code::new();
            s0.push_str("v");
            s0.push_num(id.0 as u64);
            s0.push_str(" -= ");
            proof {
                assert(s0@ =~= lit("v") + num(id.0 as nat) + lit(" -= "));
            }
            let mut s1 = Code::new();
            s1.push_str(";");
            proof {
                assert(s1@ =~= lit(";"));
            }
            if let Err(e) = write_wrap1(out, s0, val, s1, kernel, Ghost(bound)) {
                return Err(e);
            }
        },
        Op::ShlAssign { id, val } => {
            proof {
                assert(lookups(*op).contains(val));
            }
            let mut s0 = Code::new();
            s0.push_str("v");
            s0.push_num(id.0 as u64);
            s0.push_str(" <<= ");
            proof {
                assert(s0@ =~= lit("v") + num(id.0 as nat) + lit(" <<= "));
            }
            let mut s1 = Code::new();
            s1.push_str(";");
            proof {
                assert(s1@ =~= lit(";"));
            }
            if let Err(e) = write_wrap1(out, s0, val, s1, kernel, Ghost(bound)) {
                return Err(e);
            }
        },
        Op::ShrAssign { id, val } => {
            proof {
                assert(lookups(*op).contains(val));
            }
            let mut s0 = Code::new();
            s0.push_str("v");
            s0.push_num(id.0 as u64);
            s0.push_str(" >>= ");
            proof {
                assert(s0@ =~= lit("v") + num(id.0 as nat) + lit(" >>= "));
            }
            let mut s1 = Code::new();
            s1.push_str(";");
            proof {
                assert(s1@ =~= lit(";"));
            }
            if let Err(e) = write_wrap1(out, s0, val, s1, kernel, Ghost(bound)) {
                return Err(e);
            }
        },
        Op::CopyVar { id } => {
            proof {
                assert(lookups(*op).contains(id));
            }
            let mut s0 = Code::new();
            let mut s1 = Code::new();
            if let Err(e) = write_wrap1(out, s0, id, s1, kernel, Ghost(bound)) {
                return Err(e);
            }
        },
        Op::ForLoopBegin { index, end, step } => {
            proof {
                assert(lookups(*op).contains(end));
            }
            proof {
                assert(lookups(*op).contains(step));
            }
            let mut s0 = Code::new();
            s0.push_str("for (; v");
            s0.push_num(index.0 as u64);
            s0.push_str(" < ");
            proof {
                assert(s0@ =~= lit("for (; v") + num(index.0 as nat) + lit(" < "));
            }
            let mut s1 = Code::new();
            s1.push_str("; v");
            s1.push_num(index.0 as u64);
            s1.push_str(" += ");
            proof {
                assert(s1@ =~= lit("; v") + num(index.0 as nat) + lit(" += "));
            }
            let mut s2 = Code::new();
            s2.push_str(") {");
            proof {
                assert(s2@ =~= lit(") {"));
            }
            if let Err(e) = write_wrap2(out, s0, end, s1, step, s2, kernel, Ghost(bound)) {
                return Err(e);
            }
            *nesting = *nesting + 1;
        },
        Op::ForeverLoopBegin => {
            let mut text = Code::new();
            text.push_str("loop {");
            proof {
                assert(text@ =~= lit("loop {"));
            }
            out.append(text);
            *nesting = *nesting + 1;
        },
        Op::Continue => {
            let mut text = Code::new();
            text.push_str("continue;");
            proof {
                assert(text@ =~= lit("continue;"));
            }
            out.append(text);
        },
        Op::Break => {
            let mut text = Code::new();
            text.push_str("break;");
            proof {
                assert(text@ =~= lit("break;"));
            }
            out.append(text);
        },
        Op::IfBegin { cond } => {
            proof {
                assert(lookups(*op).contains(cond));
            }
            let mut s0 = Code::new();
            s0.push_str("if (");
            proof {
                assert(s0@ =~= lit("if ("));
            }
            let mut s1 = Code::new();
            s1.push_str(") {");
            proof {
                assert(s1@ =~= lit(") {"));
            }
            if let Err(e) = write_wrap1(out, s0, cond, s1, kernel, Ghost(bound)) {
                return Err(e);
            }
            *nesting = *nesting + 1;
        },
        Op::ElseBegin => {
            let mut text = Code::new();
            text.push_str("else {");
            proof {
                assert(text@ =~= lit("else {"));
            }
            out.append(text);
            *nesting = *nesting + 1;
        },
        Op::StartScope => {
            let mut text = Code::new();
            text.push_str("{");
            proof {
                assert(text@ =~= lit("{"));
            }
            out.append(text);
        },
        Op::EndScope => {
            let mut text = Code::new();
            text.push_str("}");
            proof {
                assert(text@ =~= lit("}"));
            }
            out.append(text);
            *nesting = *nesting - 1;
        },
        Op::Barrier => {
            let mut text = Code::new();
            text.push_str("workgroupBarrier();");
            proof {
                assert(text@ =~= lit("workgroupBarrier();"));
            }
            out.append(text);
        },
        Op::Return => {
            let mut text = Code::new();
            text.push_str("return;");
            proof {
                assert(text@ =~= lit("return;"));
            }
            out.append(text);
        },
        _ => {},
    }
    Ok(())
}

#[verifier::spinoff_prover]
fn write_value(out: &mut Code, op: &Op, kernel: &RawKernel, Ghost(bound): Ghost<nat>) -> (r: Result<(), Error<()>>)
    requires
        op_group(*op) == 1,
        well_formed(*kernel),
        lookups_below(*op, bound),
        bound <= kernel.values@.len(),
    ensures
        match wgsl_op(*kernel, *op, bound) {
            Ok(t) => r is Ok && final(out)@ == old(out)@ + t,
            Err(e) => r == Err::<(), Error<()>>(e),
        },
        r is Err ==> final(out)@ == old(out)@,
    decreases bound, 1nat,
{
    reveal(wgsl_op_text);
    match *op {
        Op::ConstF64 { value } => {
            let mut text = Code::new();
            text.push_float(FloatLit::F64Display(value));
            text.push_str("d");
            proof {
                assert(text@ =~= seq![Tok::Float(FloatLit::F64Display(value))] + lit("d"));
            }
            out.append(text);
        },
        Op::ConstF32 { value } => {
            let mut text = Code::new();
            text.push_float(FloatLit::F32Display(value));
            text.push_str("f");
            proof {
                assert(text@ =~= seq![Tok::Float(FloatLit::F32Display(value))] + lit("f"));
            }
            out.append(text);
        },
        Op::ConstF16 { value } => {
            let mut text = Code::new();
            text.push_float(FloatLit::F16Display(value));
            text.push_str("h");
            proof {
                assert(text@ =~= seq![Tok::Float(FloatLit::F16Display(value))] + lit("h"));
            }
            out.append(text);
        },
        Op::ConstBf16 { .. } => {
            return Err(make_err("cannot evaluate constant `bf16`", ErrorKind::InvalidDType));
        },
        Op::ConstU32 { value } => {
            let mut text = Code::new();
            text.push_num(value as u64);
            text.push_str("u");
            proof {
                assert(text@ =~= num(value as nat) + lit("u"));
            }
            out.append(text);
        },
        Op::ConstI32 { value } => {
            let mut text = Code::new();
            text.push_i32(value);
            proof {
                assert(text@ =~= chars(dec_int(value as int)));
            }
            out.append(text);
        },
        Op::ReadMeta { param, field } => {
            let mut text = Code::new();
            text.push_str("param");
            text.push_num(param.0 as u64);
            text.push_str(".f");
            text.push_num(field.0 as u64);
            proof {
                assert(text@ =~= lit("param") + num(param.0 as nat) + lit(".f") + num(field.0 as nat));
            }
            out.append(text);
        },
        Op::LocalId { axis } => {
            let mut text = Code::new();
            text.push_str("lid.");
            text.push_str(axis.fmt_vec3());
            proof {
                assert(text@ =~= lit("lid.") + chars(axis_name(axis)));
            }
            out.append(text);
        },
        Op::BlockId { axis } => {
            let mut text = Code::new();
            text.push_str("bid.");
            text.push_str(axis.fmt_vec3());
            proof {
                assert(text@ =~= lit("bid.") + chars(axis_name(axis)));
            }
            out.append(text);
        },
        Op::GlobalId { axis } => {
            let mut text = Code::new();
            text.push_str("gid.");
            text.push_str(axis.fmt_vec3());
            proof {
                assert(text@ =~= lit("gid.") + chars(axis_name(axis)));
            }
            out.append(text);
        },
        Op::CastF64 { id } => {
            proof {
                assert(lookups(*op).contains(id));
            }
            let mut s0 = Code::new();
            s0.push_str("f64(");
            proof {
                assert(s0@ =~= lit("f64("));
            }
            let mut s1 = Code::new();
            s1.push_str(")");
            proof {
                assert(s1@ =~= lit(")"));
            }
            if let Err(e) = write_wrap1(out, s0, id, s1, kernel, Ghost(bound)) {
                return Err(e);
            }
        },
        Op::CastF32 { id } => {
            proof {
                assert(lookups(*op).contains(id));
            }
            let mut s0 = Code::new();
            s0.push_str("f32(");
            proof {
                assert(s0@ =~= lit("f32("));
            }
            let mut s1 = Code::new();
            s1.push_str(")");
            proof {
                assert(s1@ =~= lit(")"));
            }
            if let Err(e) = write_wrap1(out, s0, id, s1, kernel, Ghost(bound)) {
                return Err(e);
            }
        },
        Op::CastF16 { id } => {
            proof {
                assert(lookups(*op).contains(id));
            }
            let mut s0 = Code::new();
            s0.push_str("f16(");
            proof {
                assert(s0@ =~= lit("f16("));
            }
            let mut s1 = Code::new();
            s1.push_str(")");
            proof {
                assert(s1@ =~= lit(")"));
            }
            if let Err(e) = write_wrap1(out, s0, id, s1, kernel, Ghost(bound)) {
                return Err(e);
            }
        },
        Op::CastBF16 { .. } => {
            return Err(make_err("bf16 not supported", ErrorKind::InvalidDType));
        },
        Op::CastU32 { id } => {
            proof {
                assert(lookups(*op).contains(id));
            }
            let mut s0 = Code::new();
            s0.push_str("u32(");
            proof {
                assert(s0@ =~= lit("u32("));
            }
            let mut s1 = Code::new();
            s1.push_str(")");
            proof {
                assert(s1@ =~= lit(")"));
            }
            if let Err(e) = write_wrap1(out, s0, id, s1, kernel, Ghost(bound)) {
                return Err(e);
            }
        },
        Op::CastI32 { id } => {
            proof {
                assert(lookups(*op).contains(id));
            }
            let mut s0 = Code::new();
            s0.push_str("i32(");
            proof {
                assert(s0@ =~= lit("i32("));
            }
            let mut s1 = Code::new();
            s1.push_str(")");
            proof {
                assert(s1@ =~= lit(")"));
            }
            if let Err(e) = write_wrap1(out, s0, id, s1, kernel, Ghost(bound)) {
                return Err(e);
            }
        },
        _ => {},
    }
    Ok(())
}

#[verifier::spinoff_prover]
fn write_arith(out: &mut Code, op: &Op, kernel: &RawKernel, Ghost(bound): Ghost<nat>) -> (r: Result<(), Error<()>>)
    requires
        op_group(*op) == 2,
        well_formed(*kernel),
        lookups_below(*op, bound),
        bound <= kernel.values@.len(),
    ensures
        match wgsl_op(*kernel, *op, bound) {
            Ok(t) => r is Ok && final(out)@ == old(out)@ + t,
            Err(e) => r == Err::<(), Error<()>>(e),
        },
        r is Err ==> final(out)@ == old(out)@,
    decreases bound, 1nat,
{
    reveal(wgsl_op_text);
    match *op {
        Op::Add { a, b } => {
            proof {
                assert(lookups(*op).contains(a));
            }
            proof {
                assert(lookups(*op).contains(b));
            }
            let mut s0 = Code::new();
            s0.push_str("(");
            proof {
                assert(s0@ =~= lit("("));
            }
            let mut s1 = Code::new();
            s1.push_str(") + (");
            proof {
                assert(s1@ =~= lit(") + ("));
            }
            let mut s2 = Code::new();
            s2.push_str(")");
            proof {
                assert(s2@ =~= lit(")"));
            }
            if let Err(e) = write_wrap2(out, s0, a, s1, b, s2, kernel, Ghost(bound)) {
                return Err(e);
            }
        },
        Op::Sub { a, b } => {
            proof {
                assert(lookups(*op).contains(a));
            }
            proof {
                assert(lookups(*op).contains(b));
            }
            let mut s0 = Code::new();
            s0.push_str("(");
            proof {
                assert(s0@ =~= lit("("));
            }
            let mut s1 = Code::new();
            s1.push_str(") - (");
            proof {
                assert(s1@ =~= lit(") - ("));
            }
            let mut s2 = Code::new();
            s2.push_str(")");
            proof {
                assert(s2@ =~= lit(")"));
            }
            if let Err(e) = write_wrap2(out, s0, a, s1, b, s2, kernel, Ghost(bound)) {
                return Err(e);
            }
        },
        Op::Mul { a, b } => {
            proof {
                assert(lookups(*op).contains(a));
            }
            proof {
                assert(lookups(*op).contains(b));
            }
            let mut s0 = Code::new();
            s0.push_str("(");
            proof {
                assert(s0@ =~= lit("("));
            }
            let mut s1 = Code::new();
            s1.push_str(") * (");
            proof {
                assert(s1@ =~= lit(") * ("));
            }
            let mut s2 = Code::new();
            s2.push_str(")");
            proof {
                assert(s2@ =~= lit(")"));
            }
            if let Err(e) = write_wrap2(out, s0, a, s1, b, s2, kernel, Ghost(bound)) {
                return Err(e);
            }
        },
        Op::Div { a, b } => {
            proof {
                assert(lookups(*op).contains(a));
            }
            proof {
                assert(lookups(*op).contains(b));
            }
            let mut s0 = Code::new();
            s0.push_str("(");
            proof {
                assert(s0@ =~= lit("("));
            }
            let mut s1 = Code::new();
            s1.push_str(") / (");
            proof {
                assert(s1@ =~= lit(") / ("));
            }
            let mut s2 = Code::new();
            s2.push_str(")");
            proof {
                assert(s2@ =~= lit(")"));
            }
            if let Err(e) = write_wrap2(out, s0, a, s1, b, s2, kernel, Ghost(bound)) {
                return Err(e);
            }
        },
        Op::Mod { a, b } => {
            proof {
                assert(lookups(*op).contains(a));
            }
            proof {
                assert(lookups(*op).contains(b));
            }
            let mut s0 = Code::new();
            s0.push_str("(");
            proof {
                assert(s0@ =~= lit("("));
            }
            let mut s1 = Code::new();
            s1.push_str(") % (");
            proof {
                assert(s1@ =~= lit(") % ("));
            }
            let mut s2 = Code::new();
            s2.push_str(")");
            proof {
                assert(s2@ =~= lit(")"));
            }
            if let Err(e) = write_wrap2(out, s0, a, s1, b, s2, kernel, Ghost(bound)) {
                return Err(e);
            }
        },
        Op::Pow { a, b } => {
            proof {
                assert(lookups(*op).contains(a));
            }
            proof {
                assert(lookups(*op).contains(b));
            }
            let mut s0 = Code::new();
            s0.push_str("pow(");
            proof {
                assert(s0@ =~= lit("pow("));
            }
            let mut s1 = Code::new();
            s1.push_str(", ");
            proof {
                assert(s1@ =~= lit(", "));
            }
            let mut s2 = Code::new();
            s2.push_str(")");
            proof {
                assert(s2@ =~= lit(")"));
            }
            if let Err(e) = write_wrap2(out, s0, a, s1, b, s2, kernel, Ghost(bound)) {
                return Err(e);
            }
        },
        Op::Shl { a, b } => {
            proof {
                assert(lookups(*op).contains(a));
            }
            proof {
                assert(lookups(*op).contains(b));
            }
            let mut s0 = Code::new();
            s0.push_str("(");
            proof {
                assert(s0@ =~= lit("("));
            }
            let mut s1 = Code::new();
            s1.push_str(") << (");
            proof {
                assert(s1@ =~= lit(") << ("));
            }
            let mut s2 = Code::new();
            s2.push_str(")");
            proof {
                assert(s2@ =~= lit(")"));
            }
            if let Err(e) = write_wrap2(out, s0, a, s1, b, s2, kernel, Ghost(bound)) {
                return Err(e);
            }
        },
        Op::Shr { a, b } => {
            proof {
                assert(lookups(*op).contains(a));
            }
            proof {
                assert(lookups(*op).contains(b));
            }
            let mut s0 = Code::new();
            s0.push_str("(");
            proof {
                assert(s0@ =~= lit("("));
            }
            let mut s1 = Code::new();
            s1.push_str(") >> (");
            proof {
                assert(s1@ =~= lit(") >> ("));
            }
            let mut s2 = Code::new();
            s2.push_str(")");
            proof {
                assert(s2@ =~= lit(")"));
            }
            if let Err(e) = write_wrap2(out, s0, a, s1, b, s2, kernel, Ghost(bound)) {
                return Err(e);
            }
        },
        Op::Fma { a, b, c } => {
            proof {
                assert(lookups(*op).contains(a));
            }
            proof {
                assert(lookups(*op).contains(b));
            }
            proof {
                assert(lookups(*op).contains(c));
            }
            let mut s0 = Code::new();
            s0.push_str("fma(");
            proof {
                assert(s0@ =~= lit("fma("));
            }
            let mut s1 = Code::new();
            s1.push_str(", ");
            proof {
                assert(s1@ =~= lit(", "));
            }
            let mut s2 = Code::new();
            s2.push_str(", ");
            proof {
                assert(s2@ =~= lit(", "));
            }
            let mut s3 = Code::new();
            s3.push_str(")");
            proof {
                assert(s3@ =~= lit(")"));
            }
            if let Err(e) = write_wrap3(out, s0, a, s1, b, s2, c, s3, kernel, Ghost(bound)) {
                return Err(e);
            }
        },
        Op::Exp { x } => {
            proof {
                assert(lookups(*op).contains(x));
            }
            let mut s0 = Code::new();
            s0.push_str("exp(");
            proof {
                assert(s0@ =~= lit("exp("));
            }
            let mut s1 = Code::new();
            s1.push_str(")");
            proof {
                assert(s1@ =~= lit(")"));
            }
            if let Err(e) = write_wrap1(out, s0, x, s1, kernel, Ghost(bound)) {
                return Err(e);
            }
        },
        Op::Abs { x } => {
            proof {
                assert(lookups(*op).contains(x));
            }
            let mut s0 = Code::new();
            s0.push_str("abs(");
            proof {
                assert(s0@ =~= lit("abs("));
            }
            let mut s1 = Code::new();
            s1.push_str(")");
            proof {
                assert(s1@ =~= lit(")"));
            }
            if let Err(e) = write_wrap1(out, s0, x, s1, kernel, Ghost(bound)) {
                return Err(e);
            }
        },
        Op::Neg { x } => {
            proof {
                assert(lookups(*op).contains(x));
            }
            let mut s0 = Code::new();
            s0.push_str("-(");
            proof {
                assert(s0@ =~= lit("-("));
            }
            let mut s1 = Code::new();
            s1.push_str(")");
            proof {
                assert(s1@ =~= lit(")"));
            }
            if let Err(e) = write_wrap1(out, s0, x, s1, kernel, Ghost(bound)) {
                return Err(e);
            }
        },
        Op::Log { x } => {
            proof {
                assert(lookups(*op).contains(x));
            }
            let mut s0 = Code::new();
            s0.push_str("log(");
            proof {
                assert(s0@ =~= lit("log("));
            }
            let mut s1 = Code::new();
            s1.push_str(")");
            proof {
                assert(s1@ =~= lit(")"));
            }
            if let Err(e) = write_wrap1(out, s0, x, s1, kernel, Ghost(bound)) {
                return Err(e);
            }
        },
        Op::Tanh { x } => {
            proof {
                assert(lookups(*op).contains(x));
            }
            let mut s0 = Code::new();
            s0.push_str("tanh(");
            proof {
                assert(s0@ =~= lit("tanh("));
            }
            let mut s1 = Code::new();
            s1.push_str(")");
            proof {
                assert(s1@ =~= lit(")"));
            }
            if let Err(e) = write_wrap1(out, s0, x, s1, kernel, Ghost(bound)) {
                return Err(e);
            }
        },
        Op::Sqrt { x } => {
            proof {
                assert(lookups(*op).contains(x));
            }
            let mut s0 = Code::new();
            s0.push_str("sqrt(");
            proof {
                assert(s0@ =~= lit("sqrt("));
            }
            let mut s1 = Code::new();
            s1.push_str(")");
            proof {
                assert(s1@ =~= lit(")"));
            }
            if let Err(e) = write_wrap1(out, s0, x, s1, kernel, Ghost(bound)) {
                return Err(e);
            }
        },
        Op::Eq { a, b } => {
            proof {
                assert(lookups(*op).contains(a));
            }
            proof {
                assert(lookups(*op).contains(b));
            }
            let mut s0 = Code::new();
            s0.push_str("(");
            proof {
                assert(s0@ =~= lit("("));
            }
            let mut s1 = Code::new();
            s1.push_str(") == (");
            proof {
                assert(s1@ =~= lit(") == ("));
            }
            let mut s2 = Code::new();
            s2.push_str(")");
            proof {
                assert(s2@ =~= lit(")"));
            }
            if let Err(e) = write_wrap2(out, s0, a, s1, b, s2, kernel, Ghost(bound)) {
                return Err(e);
            }
        },
        Op::Ne { a, b } => {
            proof {
                assert(lookups(*op).contains(a));
            }
            proof {
                assert(lookups(*op).contains(b));
            }
            let mut s0 = Code::new();
            s0.push_str("(");
            proof {
                assert(s0@ =~= lit("("));
            }
            let mut s1 = Code::new();
            s1.push_str(") != (");
            proof {
                assert(s1@ =~= lit(") != ("));
            }
            let mut s2 = Code::new();
            s2.push_str(")");
            proof {
                assert(s2@ =~= lit(")"));
            }
            if let Err(e) = write_wrap2(out, s0, a, s1, b, s2, kernel, Ghost(bound)) {
                return Err(e);
            }
        },
        Op::Lt { a, b } => {
            proof {
                assert(lookups(*op).contains(a));
            }
            proof {
                assert(lookups(*op).contains(b));
            }
            let mut s0 = Code::new();
            s0.push_str("(");
            proof {
                assert(s0@ =~= lit("("));
            }
            let mut s1 = Code::new();
            s1.push_str(") < (");
            proof {
                assert(s1@ =~= lit(") < ("));
            }
            let mut s2 = Code::new();
            s2.push_str(")");
            proof {
                assert(s2@ =~= lit(")"));
            }
            if let Err(e) = write_wrap2(out, s0, a, s1, b, s2, kernel, Ghost(bound)) {
                return Err(e);
            }
        },
        Op::Gt { a, b } => {
            proof {
                assert(lookups(*op).contains(a));
            }
            proof {
                assert(lookups(*op).contains(b));
            }
            let mut s0 = Code::new();
            s0.push_str("(");
            proof {
                assert(s0@ =~= lit("("));
            }
            let mut s1 = Code::new();
            s1.push_str(") > (");
            proof {
                assert(s1@ =~= lit(") > ("));
            }
            let mut s2 = Code::new();
            s2.push_str(")");
            proof {
                assert(s2@ =~= lit(")"));
            }
            if let Err(e) = write_wrap2(out, s0, a, s1, b, s2, kernel, Ghost(bound)) {
                return Err(e);
            }
        },
        Op::Le { a, b } => {
            proof {
                assert(lookups(*op).contains(a));
            }
            proof {
                assert(lookups(*op).contains(b));
            }
            let mut s0 = Code::new();
            s0.push_str("(");
            proof {
                assert(s0@ =~= lit("("));
            }
            let mut s1 = Code::new();
            s1.push_str(") <= (");
            proof {
                assert(s1@ =~= lit(") <= ("));
            }
            let mut s2 = Code::new();
            s2.push_str(")");
            proof {
                assert(s2@ =~= lit(")"));
            }
            if let Err(e) = write_wrap2(out, s0, a, s1, b, s2, kernel, Ghost(bound)) {
                return Err(e);
            }
        },
        Op::Ge { a, b } => {
            proof {
                assert(lookups(*op).contains(a));
            }
            proof {
                assert(lookups(*op).contains(b));
            }
            let mut s0 = Code::new();
            s0.push_str("(");
            proof {
                assert(s0@ =~= lit("("));
            }
            let mut s1 = Code::new();
            s1.push_str(") >= (");
            proof {
                assert(s1@ =~= lit(") >= ("));
            }
            let mut s2 = Code::new();
            s2.push_str(")");
            proof {
                assert(s2@ =~= lit(")"));
            }
            if let Err(e) = write_wrap2(out, s0, a, s1, b, s2, kernel, Ghost(bound)) {
                return Err(e);
            }
        },
        Op::Not { cond } => {
            proof {
                assert(lookups(*op).contains(cond));
            }
            let mut s0 = Code::new();
            s0.push_str("!(");
            proof {
                assert(s0@ =~= lit("!("));
            }
            let mut s1 = Code::new();
            s1.push_str(")");
            proof {
                assert(s1@ =~= lit(")"));
            }
            if let Err(e) = write_wrap1(out, s0, cond, s1, kernel, Ghost(bound)) {
                return Err(e);
            }
        },
        Op::Max { a, b } => {
            proof {
                assert(lookups(*op).contains(a));
            }
            proof {
                assert(lookups(*op).contains(b));
            }
            let mut s0 = Code::new();
            s0.push_str("max(");
            proof {
                assert(s0@ =~= lit("max("));
            }
            let mut s1 = Code::new();
            s1.push_str(", ");
            proof {
                assert(s1@ =~= lit(", "));
            }
            let mut s2 = Code::new();
            s2.push_str(")");
            proof {
                assert(s2@ =~= lit(")"));
            }
            if let Err(e) = write_wrap2(out, s0, a, s1, b, s2, kernel, Ghost(bound)) {
                return Err(e);
            }
        },
        Op::Min { a, b } => {
            proof {
                assert(lookups(*op).contains(a));
            }
            proof {
                assert(lookups(*op).contains(b));
            }
            let mut s0 = Code::new();
            s0.push_str("min(");
            proof {
                assert(s0@ =~= lit("min("));
            }
            let mut s1 = Code::new();
            s1.push_str(", ");
            proof {
                assert(s1@ =~= lit(", "));
            }
            let mut s2 = Code::new();
            s2.push_str(")");
            proof {
                assert(s2@ =~= lit(")"));
            }
            if let Err(e) = write_wrap2(out, s0, a, s1, b, s2, kernel, Ghost(bound)) {
                return Err(e);
            }
        },
        Op::Select { cond, a, b } => {
            proof {
                assert(lookups(*op).contains(cond));
            }
            proof {
                assert(lookups(*op).contains(a));
            }
            proof {
                assert(lookups(*op).contains(b));
            }
            let mut s0 = Code::new();
            s0.push_str("select(");
            proof {
                assert(s0@ =~= lit("select("));
            }
            let mut s1 = Code::new();
            s1.push_str(", ");
            proof {
                assert(s1@ =~= lit(", "));
            }
            let mut s2 = Code::new();
            s2.push_str(", ");
            proof {
                assert(s2@ =~= lit(", "));
            }
            let mut s3 = Code::new();
            s3.push_str(")");
            proof {
                assert(s3@ =~= lit(")"));
            }
            if let Err(e) = write_wrap3(out, s0, cond, s1, a, s2, b, s3, kernel, Ghost(bound)) {
                return Err(e);
            }
        },
        _ => {},
    }
    Ok(())
}

#[verifier::spinoff_prover]
fn write_memory(out: &mut Code, op: &Op, kernel: &RawKernel, Ghost(bound): Ghost<nat>) -> (r: Result<(), Error<()>>)
    requires
        op_group(*op) == 3,
        well_formed(*kernel),
        lookups_below(*op, bound),
        bound <= kernel.values@.len(),
    ensures
        match wgsl_op(*kernel, *op, bound) {
            Ok(t) => r is Ok && final(out)@ == old(out)@ + t,
            Err(e) => r == Err::<(), Error<()>>(e),
        },
        r is Err ==> final(out)@ == old(out)@,
    decreases bound, 1nat,
{
    reveal(wgsl_op_text);
    match *op {
        Op::ParamLoad { param, index } => {
            proof {
                assert(lookups(*op).contains(index));
            }
            let mut s0 = Code::new();
            s0.push_str("param");
            s0.push_num(param.0 as u64);
            s0.push_str("[");
            proof {
                assert(s0@ =~= lit("param") + num(param.0 as nat) + lit("["));
            }
            let mut s1 = Code::new();
            s1.push_str("]");
            proof {
                assert(s1@ =~= lit("]"));
            }
            if let Err(e) = write_wrap1(out, s0, index, s1, kernel, Ghost(bound)) {
                return Err(e);
            }
        },
        Op::ParamStore { param, index, value } => {
            proof {
                assert(lookups(*op).contains(index));
            }
            proof {
                assert(lookups(*op).contains(value));
            }
            let mut s0 = Code::new();
            s0.push_str("param");
            s0.push_num(param.0 as u64);
            s0.push_str("[");
            proof {
                assert(s0@ =~= lit("param") + num(param.0 as nat) + lit("["));
            }
            let mut s1 = Code::new();
            s1.push_str("] = ");
            proof {
                assert(s1@ =~= lit("] = "));
            }
            let mut s2 = Code::new();
            s2.push_str(";");
            proof {
                assert(s2@ =~= lit(";"));
            }
            if let Err(e) = write_wrap2(out, s0, index, s1, value, s2, kernel, Ghost(bound)) {
                return Err(e);
            }
        },
        Op::ParamAccum { param, index, value } => {
            proof {
                assert(lookups(*op).contains(index));
            }
            proof {
                assert(lookups(*op).contains(value));
            }
            let mut s0 = Code::new();
            s0.push_str("param");
            s0.push_num(param.0 as u64);
            s0.push_str("[");
            proof {
                assert(s0@ =~= lit("param") + num(param.0 as nat) + lit("["));
            }
            let mut s1 = Code::new();
            s1.push_str("] += ");
            proof {
                assert(s1@ =~= lit("] += "));
            }
            let mut s2 = Code::new();
            s2.push_str(";");
            proof {
                assert(s2@ =~= lit(";"));
            }
            if let Err(e) = write_wrap2(out, s0, index, s1, value, s2, kernel, Ghost(bound)) {
                return Err(e);
            }
        },
        Op::ParamMul { param, index, value } => {
            proof {
                assert(lookups(*op).contains(index));
            }
            proof {
                assert(lookups(*op).contains(value));
            }
            let mut s0 = Code::new();
            s0.push_str("param");
            s0.push_num(param.0 as u64);
            s0.push_str("[");
            proof {
                assert(s0@ =~= lit("param") + num(param.0 as nat) + lit("["));
            }
            let mut s1 = Code::new();
            s1.push_str("] *= ");
            proof {
                assert(s1@ =~= lit("] *= "));
            }
            let mut s2 = Code::new();
            s2.push_str(";");
            proof {
                assert(s2@ =~= lit(";"));
            }
            if let Err(e) = write_wrap2(out, s0, index, s1, value, s2, kernel, Ghost(bound)) {
                return Err(e);
            }
        },
        Op::ParamDiv { param, index, value } => {
            proof {
                assert(lookups(*op).contains(index));
            }
            proof {
                assert(lookups(*op).contains(value));
            }
            let mut s0 = Code::new();
            s0.push_str("param");
            s0.push_num(param.0 as u64);
            s0.push_str("[");
            proof {
                assert(s0@ =~= lit("param") + num(param.0 as nat) + lit("["));
            }
            let mut s1 = Code::new();
            s1.push_str("] /= ");
            proof {
                assert(s1@ =~= lit("] /= "));
            }
            let mut s2 = Code::new();
            s2.push_str(";");
            proof {
                assert(s2@ =~= lit(";"));
            }
            if let Err(e) = write_wrap2(out, s0, index, s1, value, s2, kernel, Ghost(bound)) {
                return Err(e);
            }
        },
        Op::ParamSub { param, index, value } => {
            proof {
                assert(lookups(*op).contains(index));
            }
            proof {
                assert(lookups(*op).contains(value));
            }
            let mut s0 = Code::new();
            s0.push_str("param");
            s0.push_num(param.0 as u64);
            s0.push_str("[");
            proof {
                assert(s0@ =~= lit("param") + num(param.0 as nat) + lit("["));
            }
            let mut s1 = Code::new();
            s1.push_str("] -= ");
            proof {
                assert(s1@ =~= lit("] -= "));
            }
            let mut s2 = Code::new();
            s2.push_str(";");
            proof {
                assert(s2@ =~= lit(";"));
            }
            if let Err(e) = write_wrap2(out, s0, index, s1, value, s2, kernel, Ghost(bound)) {
                return Err(e);
            }
        },
        Op::ParamShl { param, index, value } => {
            proof {
                assert(lookups(*op).contains(index));
            }
            proof {
                assert(lookups(*op).contains(value));
            }
            let mut s0 = Code::new();
            s0.push_str("param");
            s0.push_num(param.0 as u64);
            s0.push_str("[");
            proof {
                assert(s0@ =~= lit("param") + num(param.0 as nat) + lit("["));
            }
            let mut s1 = Code::new();
            s1.push_str("] <<= ");
            proof {
                assert(s1@ =~= lit("] <<= "));
            }
            let mut s2 = Code::new();
            s2.push_str(";");
            proof {
                assert(s2@ =~= lit(";"));
            }
            if let Err(e) = write_wrap2(out, s0, index, s1, value, s2, kernel, Ghost(bound)) {
                return Err(e);
            }
        },
        Op::ParamShr { param, index, value } => {
            proof {
                assert(lookups(*op).contains(index));
            }
            proof {
                assert(lookups(*op).contains(value));
            }
            let mut s0 = Code::new();
            s0.push_str("param");
            s0.push_num(param.0 as u64);
            s0.push_str("[");
            proof {
                assert(s0@ =~= lit("param") + num(param.0 as nat) + lit("["));
            }
            let mut s1 = Code::new();
            s1.push_str("] >>= ");
            proof {
                assert(s1@ =~= lit("] >>= "));
            }
            let mut s2 = Code::new();
            s2.push_str(";");
            proof {
                assert(s2@ =~= lit(";"));
            }
            if let Err(e) = write_wrap2(out, s0, index, s1, value, s2, kernel, Ghost(bound)) {
                return Err(e);
            }
        },
        Op::SharedLoad { mem, index } => {
            proof {
                assert(lookups(*op).contains(index));
            }
            let mut s0 = Code::new();
            s0.push_str("shared");
            s0.push_num(mem.0 as u64);
            s0.push_str("[");
            proof {
                assert(s0@ =~= lit("shared") + num(mem.0 as nat) + lit("["));
            }
            let mut s1 = Code::new();
            s1.push_str("]");
            proof {
                assert(s1@ =~= lit("]"));
            }
            if let Err(e) = write_wrap1(out, s0, index, s1, kernel, Ghost(bound)) {
                return Err(e);
            }
        },
        Op::SharedStore { mem, index, value } => {
            proof {
                assert(lookups(*op).contains(index));
            }
            proof {
                assert(lookups(*op).contains(value));
            }
            let mut s0 = Code::new();
            s0.push_str("shared");
            s0.push_num(mem.0 as u64);
            s0.push_str("[");
            proof {
                assert(s0@ =~= lit("shared") + num(mem.0 as nat) + lit("["));
            }
            let mut s1 = Code::new();
            s1.push_str("] = ");
            proof {
                assert(s1@ =~= lit("] = "));
            }
            let mut s2 = Code::new();
            s2.push_str(";");
            proof {
                assert(s2@ =~= lit(";"));
            }
            if let Err(e) = write_wrap2(out, s0, index, s1, value, s2, kernel, Ghost(bound)) {
                return Err(e);
            }
        },
        Op::SharedAccum { mem, index, value } => {
            proof {
                assert(lookups(*op).contains(index));
            }
            proof {
                assert(lookups(*op).contains(value));
            }
            let mut s0 = Code::new();
            s0.push_str("shared");
            s0.push_num(mem.0 as u64);
            s0.push_str("[");
            proof {
                assert(s0@ =~= lit("shared") + num(mem.0 as nat) + lit("["));
            }
            let mut s1 = Code::new();
            s1.push_str("] += ");
            proof {
                assert(s1@ =~= lit("] += "));
            }
            let mut s2 = Code::new();
            s2.push_str(";");
            proof {
                assert(s2@ =~= lit(";"));
            }
            if let Err(e) = write_wrap2(out, s0, index, s1, value, s2, kernel, Ghost(bound)) {
                return Err(e);
            }
        },
        Op::SharedMul { mem, index, value } => {
            proof {
                assert(lookups(*op).contains(index));
            }
            proof {
                assert(lookups(*op).contains(value));
            }
            let mut s0 = Code::new();
            s0.push_str("shared");
            s0.push_num(mem.0 as u64);
            s0.push_str("[");
            proof {
                assert(s0@ =~= lit("shared") + num(mem.0 as nat) + lit("["));
            }
            let mut s1 = Code::new();
            s1.push_str("] *= ");
            proof {
                assert(s1@ =~= lit("] *= "));
            }
            let mut s2 = Code::new();
            s2.push_str(";");
            proof {
                assert(s2@ =~= lit(";"));
            }
            if let Err(e) = write_wrap2(out, s0, index, s1, value, s2, kernel, Ghost(bound)) {
                return Err(e);
            }
        },
        Op::SharedDiv { mem, index, value } => {
            proof {
                assert(lookups(*op).contains(index));
            }
            proof {
                assert(lookups(*op).contains(value));
            }
            let mut s0 = Code::new();
            s0.push_str("shared");
            s0.push_num(mem.0 as u64);
            s0.push_str("[");
            proof {
                assert(s0@ =~= lit("shared") + num(mem.0 as nat) + lit("["));
            }
            let mut s1 = Code::new();
            s1.push_str("] /= ");
            proof {
                assert(s1@ =~= lit("] /= "));
            }
            let mut s2 = Code::new();
            s2.push_str(";");
            proof {
                assert(s2@ =~= lit(";"));
            }
            if let Err(e) = write_wrap2(out, s0, index, s1, value, s2, kernel, Ghost(bound)) {
                return Err(e);
            }
        },
        Op::SharedSub { mem, index, value } => {
            proof {
                assert(lookups(*op).contains(index));
            }
            proof {
                assert(lookups(*op).contains(value));
            }
            let mut s0 = Code::new();
            s0.push_str("shared");
            s0.push_num(mem.0 as u64);
            s0.push_str("[");
            proof {
                assert(s0@ =~= lit("shared") + num(mem.0 as nat) + lit("["));
            }
            let mut s1 = Code::new();
            s1.push_str("] -= ");
            proof {
                assert(s1@ =~= lit("] -= "));
            }
            let mut s2 = Code::new();
            s2.push_str(";");
            proof {
                assert(s2@ =~= lit(";"));
            }
            if let Err(e) = write_wrap2(out, s0, index, s1, value, s2, kernel, Ghost(bound)) {
                return Err(e);
            }
        },
        Op::SharedShl { mem, index, value } => {
            proof {
                assert(lookups(*op).contains(index));
            }
            proof {
                assert(lookups(*op).contains(value));
            }
            let mut s0 = Code::new();
            s0.push_str("shared");
            s0.push_num(mem.0 as u64);
            s0.push_str("[");
            proof {
                assert(s0@ =~= lit("shared") + num(mem.0 as nat) + lit("["));
            }
            let mut s1 = Code::new();
            s1.push_str("] <<= ");
            proof {
                assert(s1@ =~= lit("] <<= "));
            }
            let mut s2 = Code::new();
            s2.push_str(";");
            proof {
                assert(s2@ =~= lit(";"));
            }
            if let Err(e) = write_wrap2(out, s0, index, s1, value, s2, kernel, Ghost(bound)) {
                return Err(e);
            }
        },
        Op::SharedShr { mem, index, value } => {
            proof {
                assert(lookups(*op).contains(index));
            }
            proof {
                assert(lookups(*op).contains(value));
            }
            let mut s0 = Code::new();
            s0.push_str("shared");
            s0.push_num(mem.0 as u64);
            s0.push_str("[");
            proof {
                assert(s0@ =~= lit("shared") + num(mem.0 as nat) + lit("["));
            }
            let mut s1 = Code::new();
            s1.push_str("] >>= ");
            proof {
                assert(s1@ =~= lit("] >>= "));
            }
            let mut s2 = Code::new();
            s2.push_str(";");
            proof {
                assert(s2@ =~= lit(";"));
            }
            if let Err(e) = write_wrap2(out, s0, index, s1, value, s2, kernel, Ghost(bound)) {
                return Err(e);
            }
        },
        _ => {},
    }
    Ok(())
}

fn write_wrap1(out: &mut Code, p0: Code, x0: ValueId, p1: Code, kernel: &RawKernel, Ghost(bound): Ghost<nat>) -> (r: Result<(), Error<()>>)
    requires
        well_formed(*kernel),
        x0.0 < bound,
        bound <= kernel.values@.len(),
    ensures
        match wrap1(p0@, wgsl_sub(*kernel, x0, bound), p1@) {
            Ok(t) => r is Ok && final(out)@ == old(out)@ + t,
            Err(e) => r == Err::<(), Error<()>>(e),
        },
        r is Err ==> final(out)@ == old(out)@,
    decreases bound, 0nat,
{
    proof {
        assert(wgsl_sub(*kernel, x0, bound) == wgsl_val(*kernel, x0.0 as nat));
    }
    let t0 = match render_val(x0, kernel) {
        Ok(v) => v,
        Err(e) => {
            return Err(e);
        },
    };
    let ghost start = out@;
    let ghost text = p0@ + t0@ + p1@;
    out.append(p0);
    out.append(t0);
    out.append(p1);
    proof {
        assert(out@ =~= start + text);
    }
    Ok(())
}

fn write_wrap2(out: &mut Code, p0: Code, x0: ValueId, p1: Code, x1: ValueId, p2: Code, kernel: &RawKernel, Ghost(bound): Ghost<nat>) -> (r: Result<(), Error<()>>)
    requires
        well_formed(*kernel),
        x0.0 < bound,
        x1.0 < bound,
        bound <= kernel.values@.len(),
    ensures
        match wrap2(p0@, wgsl_sub(*kernel, x0, bound), p1@, wgsl_sub(*kernel, x1, bound), p2@) {
            Ok(t) => r is Ok && final(out)@ == old(out)@ + t,
            Err(e) => r == Err::<(), Error<()>>(e),
        },
        r is Err ==> final(out)@ == old(out)@,
    decreases bound, 0nat,
{
    proof {
        assert(wgsl_sub(*kernel, x0, bound) == wgsl_val(*kernel, x0.0 as nat));
    }
    proof {
        assert(wgsl_sub(*kernel, x1, bound) == wgsl_val(*kernel, x1.0 as nat));
    }
    let t0 = match render_val(x0, kernel) {
        Ok(v) => v,
        Err(e) => {
            return Err(e);
        },
    };
    let t1 = match render_val(x1, kernel) {
        Ok(v) => v,
        Err(e) => {
            return Err(e);
        },
    };
    let ghost start = out@;
    let ghost text = p0@ + t0@ + p1@ + t1@ + p2@;
    out.append(p0);
    out.append(t0);
    out.append(p1);
    out.append(t1);
    out.append(p2);
    proof {
        assert(out@ =~= start + text);
    }
    Ok(())
}

fn write_wrap3(out: &mut Code, p0: Code, x0: ValueId, p1: Code, x1: ValueId, p2: Code, x2: ValueId, p3: Code, kernel: &RawKernel, Ghost(bound): Ghost<nat>) -> (r: Result<(), Error<()>>)
    requires
        well_formed(*kernel),
        x0.0 < bound,
        x1.0 < bound,
        x2.0 < bound,
        bound <= kernel.values@.len(),
    ensures
        match wrap3(p0@, wgsl_sub(*kernel, x0, bound), p1@, wgsl_sub(*kernel, x1, bound), p2@, wgsl_sub(*kernel, x2, bound), p3@) {
            Ok(t) => r is Ok && final(out)@ == old(out)@ + t,
            Err(e) => r == Err::<(), Error<()>>(e),
        },
        r is Err ==> final(out)@ == old(out)@,
    decreases bound, 0nat,
{
    proof {
        assert(wgsl_sub(*kernel, x0, bound) == wgsl_val(*kernel, x0.0 as nat));
    }
    proof {
        assert(wgsl_sub(*kernel, x1, bound) == wgsl_val(*kernel, x1.0 as nat));
    }
    proof {
        assert(wgsl_sub(*kernel, x2, bound) == wgsl_val(*kernel, x2.0 as nat));
    }
    let t0 = match render_val(x0, kernel) {
        Ok(v) => v,
        Err(e) => {
            return Err(e);
        },
    };
    let t1 = match render_val(x1, kernel) {
        Ok(v) => v,
        Err(e) => {
            return Err(e);
        },
    };
    let t2 = match render_val(x2, kernel) {
        Ok(v) => v,
        Err(e) => {
            return Err(e);
        },
    };
    let ghost start = out@;
    let ghost text = p0@ + t0@ + p1@ + t1@ + p2@ + t2@ + p3@;
    out.append(p0);
    out.append(t0);
    out.append(p1);
    out.append(t1);
    out.append(p2);
    out.append(t2);
    out.append(p3);
    proof {
        assert(out@ =~= start + text);
    }
    Ok(())
}


/// Whether code generation skips an instruction: the definition of an
/// inline or masked value writes nothing, not even a line break.
pub open spec fn skipped(k: RawKernel, op: Op) -> bool {
    match op {
        Op::DefineVar { id } => id.0 < k.values@.len() && (k.values@[id.0 as int].state
            == ValueState::Inline || k.values@[id.0 as int].state == ValueState::Masked),
        _ => false,
    }
}

/// The nesting depth after a sequence of instructions, from depth `n`.
pub open spec fn wgsl_depth(ops: Seq<Op>, n: nat) -> nat
    decreases ops.len(),
{
    if ops.len() == 0 {
        n
    } else {
        wgsl_nest(ops.last(), wgsl_depth(ops.drop_last(), n))
    }
}

/// Whether every instruction fits the nesting depth before it: no scope is
/// closed that is not open.
pub open spec fn wgsl_scopes_ok(ops: Seq<Op>) -> bool {
    forall|j: int| 0 <= j < ops.len() ==> wgsl_nest_ok(#[trigger] ops[j], wgsl_depth(ops.take(j), 0))
}

/// The line of one instruction at nesting depth `n`.
pub open spec fn wgsl_line(k: RawKernel, op: Op, n: nat, pretty_print: bool) -> Result<Seq<Tok>, Error<()>> {
    if skipped(k, op) {
        Ok(Seq::empty())
    } else {
        let lead = if op == Op::EndScope {
            nl(pretty_print, n)
        } else {
            nl(pretty_print, n) + tb(pretty_print)
        };
        cat(Ok(lead), wgsl_op(k, op, k.values@.len() as nat))
    }
}

/// The lines of a sequence of instructions.
pub open spec fn wgsl_lines(k: RawKernel, ops: Seq<Op>, pretty_print: bool) -> Result<Seq<Tok>, Error<()>>
    decreases ops.len(),
{
    if ops.len() == 0 {
        Ok(Seq::empty())
    } else {
        cat(
            wgsl_lines(k, ops.drop_last(), pretty_print),
            wgsl_line(k, ops.last(), wgsl_depth(ops.drop_last(), 0), pretty_print),
        )
    }
}

/// Kernels WGSL code can be generated for: well formed, with balanced scopes.
pub open spec fn wgsl_ready(k: RawKernel) -> bool {
    well_formed(k) && wgsl_scopes_ok(k.ops@)
}

fn get_axis(axis: Axis) -> (s: &'static str)
    ensures
        s@ == axis_name(axis),
{
    axis.fmt_vec3()
}

fn get_dtype(dtype: DType) -> (r: Result<&'static str, Error<()>>)
    ensures
        match (r, wgsl_dtype_name(dtype)) {
            (Ok(s), Ok(t)) => s@ == t,
            (Err(e), Err(f)) => e == f,
            _ => false,
        },
{
    dtype.fmt_wgsl()
}

fn get_simple_dtype(dtype: SimpleDType) -> (r: Result<&'static str, Error<()>>)
    ensures
        match (r, wgsl_name(dtype)) {
            (Ok(s), Ok(t)) => s@ == t,
            (Err(e), Err(f)) => e == f,
            _ => false,
        },
{
    dtype.fmt_wgsl()
}

/// Writes the line of one instruction at the current nesting depth.
#[verifier::spinoff_prover]
fn emit_line(kernel: &RawKernel, op: Op, out: &mut Code, nesting: &mut usize, pretty_print: bool) -> (r: Result<(), Error<()>>)
    requires
        well_formed(*kernel),
        lookups_below(op, kernel.values@.len() as nat),
        wgsl_nest_ok(op, *old(nesting) as nat),
    ensures
        match wgsl_line(*kernel, op, *old(nesting) as nat, pretty_print) {
            Ok(t) => r is Ok && final(out)@ == old(out)@ + t && *final(nesting) == wgsl_nest(op, *old(nesting) as nat),
            Err(e) => r == Err::<(), Error<()>>(e),
        },
{
    let skip = match op {
        Op::DefineVar { id } => {
            proof {
                assert(lookups(op).contains(id));
            }
            let state = kernel.values[id.0].state;
            state == ValueState::Inline || state == ValueState::Masked
        },
        _ => false,
    };
    if skip {
        proof {
            assert(out@ =~= old(out)@ + Seq::<Tok>::empty());
        }
        return Ok(());
    }
    let ghost before = out@;
    newline(pretty_print, out, *nesting);
    if op != Op::EndScope {
        tab(pretty_print, out);
    }
    let ghost lead = out@.subrange(before.len() as int, out@.len() as int);
    proof {
        assert(lead =~= (if op == Op::EndScope {
            nl(pretty_print, *old(nesting) as nat)
        } else {
            nl(pretty_print, *old(nesting) as nat) + tb(pretty_print)
        }));
        assert(out@ =~= before + lead);
    }
    let ghost mid = out@;
    match process_op(out, &op, nesting, kernel, Ghost(kernel.values@.len() as nat)) {
        Ok(()) => {},
        Err(e) => {
            return Err(e);
        },
    }
    proof {
        assert(out@ =~= before + (lead + out@.subrange(mid.len() as int, out@.len() as int)));
    }
    Ok(())
}

/// Writes the lines of all the instructions of a kernel.
fn emit_ops(kernel: &RawKernel, out: &mut Code, pretty_print: bool) -> (r: Result<(), Error<()>>)
    requires
        wgsl_ready(*kernel),
    ensures
        match wgsl_lines(*kernel, kernel.ops@, pretty_print) {
            Ok(t) => r is Ok && final(out)@ == old(out)@ + t,
            Err(e) => r == Err::<(), Error<()>>(e),
        },
{
    let mut nesting: usize = 0;
    let n = kernel.ops.len();
    let mut j: usize = 0;
    let ghost start = out@;
    proof {
        assert(kernel.ops@.take(0) =~= Seq::<Op>::empty());
        assert(out@ =~= start + Seq::<Tok>::empty());
    }
    while j < n
        invariant
            n == kernel.ops@.len(),
            j <= n,
            wgsl_ready(*kernel),
            start == old(out)@,
            nesting == wgsl_depth(kernel.ops@.take(j as int), 0),
            exists|t: Seq<Tok>| wgsl_lines(*kernel, kernel.ops@.take(j as int), pretty_print) == Ok::<Seq<Tok>, Error<()>>(t)
                && out@ == start + t,
        decreases n - j,
    {
        let op = kernel.ops[j];
        let ghost t = choose|t: Seq<Tok>| wgsl_lines(*kernel, kernel.ops@.take(j as int), pretty_print) == Ok::<Seq<Tok>, Error<()>>(t)
            && out@ == start + t;
        proof {
            assert(kernel.ops@.take(j + 1).drop_last() =~= kernel.ops@.take(j as int));
            assert(kernel.ops@.take(j + 1).last() == op);
            assert(wgsl_nest_ok(kernel.ops@[j as int], wgsl_depth(kernel.ops@.take(j as int), 0)));
            assert(lookups_below(kernel.ops@[j as int], kernel.values@.len() as nat));
        }
        let ghost before = out@;
        match emit_line(kernel, op, out, &mut nesting, pretty_print) {
            Ok(()) => {},
            Err(e) => {
                proof {
                    assert(wgsl_lines(*kernel, kernel.ops@.take(j + 1), pretty_print) == Err::<Seq<Tok>, Error<()>>(e));
                    lemma_lines_err_persists(*kernel, kernel.ops@, (j + 1) as nat, pretty_print);
                    assert(kernel.ops@.take(n as int) =~= kernel.ops@);
                }
                return Err(e);
            },
        }
        proof {
            let line = wgsl_line(*kernel, op, wgsl_depth(kernel.ops@.take(j as int), 0), pretty_print).unwrap();
            assert(wgsl_lines(*kernel, kernel.ops@.take(j + 1), pretty_print) == Ok::<Seq<Tok>, Error<()>>(t + line));
            assert(out@ =~= start + (t + line));
        }
        j = j + 1;
    }
    proof {
        assert(kernel.ops@.take(n as int) =~= kernel.ops@);
    }
    Ok(())
}


/// Once the lines of a prefix of the instructions fail, the lines of every
/// longer prefix fail the same way.
pub proof fn lemma_lines_err_persists(k: RawKernel, ops: Seq<Op>, j: nat, pretty_print: bool)
    requires
        j <= ops.len(),
        wgsl_lines(k, ops.take(j as int), pretty_print) is Err,
    ensures
        wgsl_lines(k, ops, pretty_print) == wgsl_lines(k, ops.take(j as int), pretty_print),
    decreases ops.len() - j,
{
    if j < ops.len() {
        assert(ops.take((j + 1) as int).drop_last() =~= ops.take(j as int));
        lemma_lines_err_persists(k, ops, j + 1, pretty_print);
    } else {
        assert(ops.take(j as int) =~= ops);
    }
}

/// The fields of the metadata structure after the learning rate: one
/// `u32` dimension each, fields `1..n`.
pub open spec fn wgsl_meta_fields(pretty_print: bool, n: nat) -> Seq<Tok>
    decreases n,
{
    if n <= 1 {
        Seq::empty()
    } else {
        wgsl_meta_fields(pretty_print, (n - 1) as nat) + nl(pretty_print, 1) + lit("f") + num((n - 1) as nat) + lit(": u32,")
    }
}

/// The WGSL spelling of a scalar type, as code.
pub open spec fn wgsl_name_toks(t: SimpleDType) -> Result<Seq<Tok>, Error<()>> {
    match wgsl_name(t) {
        Ok(n) => Ok(chars(n)),
        Err(e) => Err(e),
    }
}

/// The WGSL binding kind of a parameter.
pub open spec fn wgsl_var_type(ty: ParamTy) -> &'static str {
    match ty {
        ParamTy::ReadOnly => "var<storage, read>",
        ParamTy::ReadWrite => "var<storage, read_write>",
        ParamTy::Uniform => "var<uniform>",
    }
}

/// The declaration of a parameter: the metadata structure for a uniform of
/// `u32`, an array of its scalar type otherwise.
pub open spec fn wgsl_param(pretty_print: bool, p: Param) -> Result<Seq<Tok>, Error<()>> {
    let head = nl(pretty_print, 0) + lit("@group(0) @binding(") + num(p.pid.0 as nat) + lit(") ")
        + lit(wgsl_var_type(p.ty)) + lit(" param") + num(p.pid.0 as nat);
    if p.ty == ParamTy::Uniform && p.dtype == SimpleDType::U32 {
        Ok(head + lit(": Meta;"))
    } else {
        cat(cat(Ok(head + lit(": array<")), wgsl_name_toks(p.dtype)), Ok(lit(">;")))
    }
}

/// The declarations of parameters.
pub open spec fn wgsl_params(pretty_print: bool, ps: Seq<Param>) -> Result<Seq<Tok>, Error<()>>
    decreases ps.len(),
{
    if ps.len() == 0 {
        Ok(Seq::empty())
    } else {
        cat(wgsl_params(pretty_print, ps.drop_last()), wgsl_param(pretty_print, ps.last()))
    }
}

/// The declaration of shared array `i`.
pub open spec fn wgsl_shared(pretty_print: bool, i: nat, s: SharedAlloc) -> Result<Seq<Tok>, Error<()>> {
    cat(
        cat(Ok(nl(pretty_print, 0) + lit("var<workgroup> shared") + num(i) + lit(": array<")), wgsl_name_toks(s.dtype)),
        Ok(lit(", (") + num(s.size as nat) + lit(")>;")),
    )
}

/// The declarations of shared arrays.
pub open spec fn wgsl_shareds(pretty_print: bool, ss: Seq<SharedAlloc>) -> Result<Seq<Tok>, Error<()>>
    decreases ss.len(),
{
    if ss.len() == 0 {
        Ok(Seq::empty())
    } else {
        cat(wgsl_shareds(pretty_print, ss.drop_last()), wgsl_shared(pretty_print, (ss.len() - 1) as nat, ss.last()))
    }
}

/// The metadata structure, the parameters and the shared arrays.
pub open spec fn wgsl_bindings(k: RawKernel, ps: Seq<Param>, pretty_print: bool) -> Result<Seq<Tok>, Error<()>> {
    cat(cat(Ok(wgsl_meta_struct(k.meta.fields as nat, pretty_print)), wgsl_params(pretty_print, ps)), cat(Ok(nl(pretty_print, 0)), wgsl_shareds(pretty_print, k.shared@)))
}

/// The entry point: its workgroup size, its built-in inputs and its body.
pub open spec fn wgsl_entry(k: RawKernel, pretty_print: bool) -> Result<Seq<Tok>, Error<()>> {
    cat(cat(Ok(wgsl_entry_head(k, pretty_print)), wgsl_lines(k, k.ops@, pretty_print)), Ok(nl(pretty_print, 0) + lit("}")))
}

/// The WGSL source of a kernel.
pub open spec fn wgsl_source(k: RawKernel, ps: Seq<Param>, pretty_print: bool) -> Result<Seq<Tok>, Error<()>> {
    cat(cat(Ok(lit("enable f16;") + nl(pretty_print, 0)), wgsl_bindings(k, ps, pretty_print)),
        cat(Ok(nl(pretty_print, 0)), wgsl_entry(k, pretty_print)))
}

/// Appends the WGSL spelling of a scalar type.
fn push_simple_dtype(out: &mut Code, t: SimpleDType) -> (r: Result<(), Error<()>>)
    ensures
        match wgsl_name(t) {
            Ok(n) => r is Ok && final(out)@ == old(out)@ + chars(n),
            Err(e) => r == Err::<(), Error<()>>(e),
        },
{
    match get_simple_dtype(t) {
        Ok(s) => {
            out.push_str(s);
            Ok(())
        },
        Err(e) => Err(e),
    }
}

/// The metadata structure.
pub open spec fn wgsl_meta_struct(fields: nat, pretty_print: bool) -> Seq<Tok> {
    lit("struct Meta {") + nl(pretty_print, 0) + lit("f0: f32,") + wgsl_meta_fields(pretty_print, fields)
        + nl(pretty_print, 0) + lit("}") + nl(pretty_print, 0)
}

/// Writes the metadata structure.
fn emit_meta_struct(fields: usize, out: &mut Code, pretty_print: bool)
    ensures
        final(out)@ == old(out)@ + wgsl_meta_struct(fields as nat, pretty_print),
{
    out.push_str("struct Meta {");
    newline(pretty_print, out, 0);
    out.push_str("f0: f32,");
    let ghost head = out@;
    let mut f: usize = 1;
    proof {
        assert(wgsl_meta_fields(pretty_print, 1) =~= Seq::<Tok>::empty());
        assert(out@ =~= head + wgsl_meta_fields(pretty_print, 1));
    }
    while f < fields
        invariant
            1 <= f,
            f <= fields || fields <= 1,
            fields <= 1 ==> f == 1,
            out@ == head + wgsl_meta_fields(pretty_print, f as nat),
        decreases fields - f,
    {
        newline(pretty_print, out, 1);
        out.push_str("f");
        out.push_num(f as u64);
        out.push_str(": u32,");
        f = f + 1;
        proof {
            assert(out@ =~= head + wgsl_meta_fields(pretty_print, f as nat));
        }
    }
    proof {
        if fields <= 1 {
            assert(wgsl_meta_fields(pretty_print, fields as nat) =~= Seq::<Tok>::empty());
            assert(wgsl_meta_fields(pretty_print, f as nat) =~= Seq::<Tok>::empty());
        }
    }
    let ghost body = out@;
    newline(pretty_print, out, 0);
    out.push_str("}");
    newline(pretty_print, out, 0);
    proof {
        assert(out@ =~= old(out)@ + wgsl_meta_struct(fields as nat, pretty_print));
    }
}

/// Writes the declaration of a parameter.
#[verifier::rlimit(50)]
fn emit_param(p: Param, out: &mut Code, pretty_print: bool) -> (r: Result<(), Error<()>>)
    ensures
        match wgsl_param(pretty_print, p) {
            Ok(t) => r is Ok && final(out)@ == old(out)@ + t,
            Err(e) => r == Err::<(), Error<()>>(e),
        },
{
    let var_type = match p.ty {
        ParamTy::ReadOnly => "var<storage, read>",
        ParamTy::ReadWrite => "var<storage, read_write>",
        ParamTy::Uniform => "var<uniform>",
    };
    newline(pretty_print, out, 0);
    out.push_str("@group(0) @binding(");
    out.push_num(p.pid.0 as u64);
    out.push_str(") ");
    out.push_str(var_type);
    out.push_str(" param");
    out.push_num(p.pid.0 as u64);
    let ghost head = out@;
    proof {
        assert(head =~= old(out)@ + (nl(pretty_print, 0) + lit("@group(0) @binding(") + num(p.pid.0 as nat) + lit(") ")
            + lit(wgsl_var_type(p.ty)) + lit(" param") + num(p.pid.0 as nat)));
    }
    if p.ty == ParamTy::Uniform && p.dtype == SimpleDType::U32 {
        out.push_str(": Meta;");
        proof {
            assert(out@ =~= old(out)@ + wgsl_param(pretty_print, p).unwrap());
        }
    } else {
        out.push_str(": array<");
        match push_simple_dtype(out, p.dtype) {
            Ok(()) => {},
            Err(e) => {
                return Err(e);
            },
        }
        out.push_str(">;");
        proof {
            assert(out@ =~= old(out)@ + wgsl_param(pretty_print, p).unwrap());
        }
    }
    Ok(())
}

/// Writes the declarations of the parameters.
fn emit_params(params: &[Param], out: &mut Code, pretty_print: bool) -> (r: Result<(), Error<()>>)
    ensures
        match wgsl_params(pretty_print, params@) {
            Ok(t) => r is Ok && final(out)@ == old(out)@ + t,
            Err(e) => r == Err::<(), Error<()>>(e),
        },
{
    let ghost start = out@;
    let mut i: usize = 0;
    proof {
        assert(params@.take(0) =~= Seq::<Param>::empty());
        assert(out@ =~= start + Seq::<Tok>::empty());
    }
    while i < params.len()
        invariant
            i <= params@.len(),
            start == old(out)@,
            exists|t: Seq<Tok>| wgsl_params(pretty_print, params@.take(i as int)) == Ok::<Seq<Tok>, Error<()>>(t) && out@ == start + t,
        decreases params@.len() - i,
    {
        let p = params[i];
        let ghost t = choose|t: Seq<Tok>| wgsl_params(pretty_print, params@.take(i as int)) == Ok::<Seq<Tok>, Error<()>>(t) && out@ == start + t;
        proof {
            assert(params@.take(i + 1).drop_last() =~= params@.take(i as int));
            assert(params@.take(i + 1).last() == p);
        }
        match emit_param(p, out, pretty_print) {
            Ok(()) => {},
            Err(e) => {
                proof {
                    assert(wgsl_params(pretty_print, params@.take(i + 1)) == Err::<Seq<Tok>, Error<()>>(e));
                    lemma_params_err_persists(pretty_print, params@, (i + 1) as nat);
                    assert(params@.take(params@.len() as int) =~= params@);
                }
                return Err(e);
            },
        }
        proof {
            let line = wgsl_param(pretty_print, p).unwrap();
            assert(wgsl_params(pretty_print, params@.take(i + 1)) == Ok::<Seq<Tok>, Error<()>>(t + line));
            assert(out@ =~= start + (t + line));
        }
        i = i + 1;
    }
    proof {
        assert(params@.take(params@.len() as int) =~= params@);
    }
    Ok(())
}

/// Writes the declaration of shared array `i`.
fn emit_shared(i: usize, sh: SharedAlloc, out: &mut Code, pretty_print: bool) -> (r: Result<(), Error<()>>)
    ensures
        match wgsl_shared(pretty_print, i as nat, sh) {
            Ok(t) => r is Ok && final(out)@ == old(out)@ + t,
            Err(e) => r == Err::<(), Error<()>>(e),
        },
{
    newline(pretty_print, out, 0);
    out.push_str("var<workgroup> shared");
    out.push_num(i as u64);
    out.push_str(": array<");
    match push_simple_dtype(out, sh.dtype) {
        Ok(()) => {},
        Err(e) => {
            return Err(e);
        },
    }
    out.push_str(", (");
    out.push_num(sh.size as u64);
    out.push_str(")>;");
    proof {
        assert(out@ =~= old(out)@ + wgsl_shared(pretty_print, i as nat, sh).unwrap());
    }
    Ok(())
}

/// Writes the declarations of the shared arrays.
fn emit_shareds(shared: &[SharedAlloc], out: &mut Code, pretty_print: bool) -> (r: Result<(), Error<()>>)
    ensures
        match wgsl_shareds(pretty_print, shared@) {
            Ok(t) => r is Ok && final(out)@ == old(out)@ + t,
            Err(e) => r == Err::<(), Error<()>>(e),
        },
{
    let ghost start = out@;
    let mut j: usize = 0;
    proof {
        assert(shared@.take(0) =~= Seq::<SharedAlloc>::empty());
        assert(out@ =~= start + Seq::<Tok>::empty());
    }
    while j < shared.len()
        invariant
            j <= shared@.len(),
            start == old(out)@,
            exists|t: Seq<Tok>| wgsl_shareds(pretty_print, shared@.take(j as int)) == Ok::<Seq<Tok>, Error<()>>(t) && out@ == start + t,
        decreases shared@.len() - j,
    {
        let sh = shared[j];
        let ghost t = choose|t: Seq<Tok>| wgsl_shareds(pretty_print, shared@.take(j as int)) == Ok::<Seq<Tok>, Error<()>>(t) && out@ == start + t;
        proof {
            assert(shared@.take(j + 1).drop_last() =~= shared@.take(j as int));
            assert(shared@.take(j + 1).last() == sh);
        }
        match emit_shared(j, sh, out, pretty_print) {
            Ok(()) => {},
            Err(e) => {
                proof {
                    assert(wgsl_shareds(pretty_print, shared@.take(j + 1)) == Err::<Seq<Tok>, Error<()>>(e));
                    lemma_shareds_err_persists(pretty_print, shared@, (j + 1) as nat);
                    assert(shared@.take(shared@.len() as int) =~= shared@);
                }
                return Err(e);
            },
        }
        proof {
            let line = wgsl_shared(pretty_print, j as nat, sh).unwrap();
            assert(wgsl_shareds(pretty_print, shared@.take(j + 1)) == Ok::<Seq<Tok>, Error<()>>(t + line));
            assert(out@ =~= start + (t + line));
        }
        j = j + 1;
    }
    proof {
        assert(shared@.take(shared@.len() as int) =~= shared@);
    }
    Ok(())
}

/// Writes the metadata structure, the parameters and the shared arrays.
fn emit_bindings(kernel: &RawKernel, params: &[Param], out: &mut Code, pretty_print: bool) -> (r: Result<(), Error<()>>)
    ensures
        match wgsl_bindings(*kernel, params@, pretty_print) {
            Ok(t) => r is Ok && final(out)@ == old(out)@ + t,
            Err(e) => r == Err::<(), Error<()>>(e),
        },
{
    emit_meta_struct(kernel.meta.fields, out, pretty_print);
    let ghost a = out@;
    match emit_params(params, out, pretty_print) {
        Ok(()) => {},
        Err(e) => {
            return Err(e);
        },
    }
    let ghost b = out@;
    newline(pretty_print, out, 0);
    let ghost c = out@;
    match emit_shareds(kernel.shared.as_slice(), out, pretty_print) {
        Ok(()) => {},
        Err(e) => {
            return Err(e);
        },
    }
    proof {
        assert(out@ =~= old(out)@ + (wgsl_meta_struct(kernel.meta.fields as nat, pretty_print) + b.subrange(a.len() as int, b.len() as int))
            + (nl(pretty_print, 0) + out@.subrange(c.len() as int, out@.len() as int)));
    }
    Ok(())
}

/// Once the declarations of a prefix of the parameters fail, those of all
/// of them fail the same way.
pub proof fn lemma_params_err_persists(pretty_print: bool, ps: Seq<Param>, j: nat)
    requires
        j <= ps.len(),
        wgsl_params(pretty_print, ps.take(j as int)) is Err,
    ensures
        wgsl_params(pretty_print, ps) == wgsl_params(pretty_print, ps.take(j as int)),
    decreases ps.len() - j,
{
    if j < ps.len() {
        assert(ps.take((j + 1) as int).drop_last() =~= ps.take(j as int));
        lemma_params_err_persists(pretty_print, ps, j + 1);
    } else {
        assert(ps.take(j as int) =~= ps);
    }
}

/// Once the declarations of a prefix of the shared arrays fail, those of
/// all of them fail the same way.
pub proof fn lemma_shareds_err_persists(pretty_print: bool, ss: Seq<SharedAlloc>, j: nat)
    requires
        j <= ss.len(),
        wgsl_shareds(pretty_print, ss.take(j as int)) is Err,
    ensures
        wgsl_shareds(pretty_print, ss) == wgsl_shareds(pretty_print, ss.take(j as int)),
    decreases ss.len() - j,
{
    if j < ss.len() {
        assert(ss.take((j + 1) as int).drop_last() =~= ss.take(j as int));
        lemma_shareds_err_persists(pretty_print, ss, j + 1);
    } else {
        assert(ss.take(j as int) =~= ss);
    }
}

/// The workgroup size of the entry point.
pub open spec fn wgsl_workgroup(k: RawKernel, pretty_print: bool) -> Seq<Tok> {
    nl(pretty_print, 0) + lit("@compute @workgroup_size(") + num(k.block[0] as nat) + lit(", (")
        + num(k.block[1] as nat) + lit("), (") + num(k.block[2] as nat) + lit(")) ")
}

/// The signature of the entry point, with its built-in inputs.
pub open spec fn wgsl_main_sig(pretty_print: bool) -> Seq<Tok> {
    nl(pretty_print, 0) + lit("fn main(")
        + nl(pretty_print, 1) + lit("@builtin(local_invocation_id) lid: vec3<u32>,")
        + nl(pretty_print, 1) + lit("@builtin(workgroup_id) bid: vec3<u32>,")
        + nl(pretty_print, 1) + lit("@builtin(global_invocation_id) gid: vec3<u32>,")
        + nl(pretty_print, 0) + lit(") {")
}

/// The head of the entry point: its workgroup size and built-in inputs.
pub open spec fn wgsl_entry_head(k: RawKernel, pretty_print: bool) -> Seq<Tok> {
    wgsl_workgroup(k, pretty_print) + wgsl_main_sig(pretty_print)
}

/// Writes the workgroup size of the entry point.
fn emit_workgroup(kernel: &RawKernel, out: &mut Code, pretty_print: bool)
    ensures
        final(out)@ == old(out)@ + wgsl_workgroup(*kernel, pretty_print),
{
    newline(pretty_print, out, 0);
    out.push_str("@compute @workgroup_size(");
    out.push_num(kernel.block[0] as u64);
    out.push_str(", (");
    out.push_num(kernel.block[1] as u64);
    out.push_str("), (");
    out.push_num(kernel.block[2] as u64);
    out.push_str(")) ");
    proof {
        assert(out@ =~= old(out)@ + wgsl_workgroup(*kernel, pretty_print));
    }
}

/// Writes the signature of the entry point.
fn emit_main_sig(out: &mut Code, pretty_print: bool)
    ensures
        final(out)@ == old(out)@ + wgsl_main_sig(pretty_print),
{
    newline(pretty_print, out, 0);
    out.push_str("fn main(");
    newline(pretty_print, out, 1);
    out.push_str("@builtin(local_invocation_id) lid: vec3<u32>,");
    newline(pretty_print, out, 1);
    out.push_str("@builtin(workgroup_id) bid: vec3<u32>,");
    newline(pretty_print, out, 1);
    out.push_str("@builtin(global_invocation_id) gid: vec3<u32>,");
    newline(pretty_print, out, 0);
    out.push_str(") {");
    proof {
        assert(out@ =~= old(out)@ + wgsl_main_sig(pretty_print));
    }
}

/// Writes the head of the entry point.
fn emit_entry_head(kernel: &RawKernel, out: &mut Code, pretty_print: bool)
    ensures
        final(out)@ == old(out)@ + wgsl_entry_head(*kernel, pretty_print),
{
    emit_workgroup(kernel, out, pretty_print);
    emit_main_sig(out, pretty_print);
    proof {
        assert(out@ =~= old(out)@ + wgsl_entry_head(*kernel, pretty_print));
    }
}

/// Writes the entry point of a kernel.
#[verifier::rlimit(50)]
fn emit_entry(kernel: &RawKernel, out: &mut Code, pretty_print: bool) -> (r: Result<(), Error<()>>)
    requires
        wgsl_ready(*kernel),
    ensures
        match wgsl_entry(*kernel, pretty_print) {
            Ok(t) => r is Ok && final(out)@ == old(out)@ + t,
            Err(e) => r == Err::<(), Error<()>>(e),
        },
{
    emit_entry_head(kernel, out, pretty_print);
    let ghost head = out@;
    match emit_ops(kernel, out, pretty_print) {
        Ok(()) => {},
        Err(e) => {
            return Err(e);
        },
    }
    let ghost body = out@;
    newline(pretty_print, out, 0);
    out.push_str("}");
    proof {
        assert(out@ =~= old(out)@ + wgsl_entry_head(*kernel, pretty_print)
            + body.subrange(head.len() as int, body.len() as int) + (nl(pretty_print, 0) + lit("}")));
    }
    Ok(())
}

/// Generates the WGSL source of a kernel with the given parameters: the
/// metadata structure, the parameter and shared-memory declarations, and
/// the entry point with the kernel's instructions. Fails on a type WGSL
/// does not have.
#[verifier::rlimit(50)]
pub fn generate_wgsl(kernel: &RawKernel, params: &[Param], pretty_print: bool) -> (r: Result<Code, Error<()>>)
    requires
        wgsl_ready(*kernel),
    ensures
        match wgsl_source(*kernel, params@, pretty_print) {
            Ok(t) => r matches Ok(c) && c@ == t,
            Err(e) => r == Err::<Code, Error<()>>(e),
        },
{
    let mut out = Code::new();
    out.push_str("enable f16;");
    newline(pretty_print, &mut out, 0);
    let ghost head = out@;
    match emit_bindings(kernel, params, &mut out, pretty_print) {
        Ok(()) => {},
        Err(e) => {
            return Err(e);
        },
    }
    let ghost binds = out@;
    newline(pretty_print, &mut out, 0);
    let ghost mid = out@;
    match emit_entry(kernel, &mut out, pretty_print) {
        Ok(()) => {},
        Err(e) => {
            return Err(e);
        },
    }
    proof {
        assert(out@ =~= head + binds.subrange(head.len() as int, binds.len() as int)
            + (nl(pretty_print, 0) + out@.subrange(mid.len() as int, out@.len() as int)));
    }
    Ok(out)
}
/// Whether WGSL code can be generated for a kernel: it defines its values
/// before it uses them and closes no scope it has not opened.
pub fn is_wgsl_ready(k: &RawKernel) -> (b: bool)
    ensures
        b == wgsl_ready(*k),
{
    if !is_well_formed(k) {
        return false;
    }
    let mut depth: usize = 0;
    let mut j: usize = 0;
    proof {
        assert(k.ops@.take(0) =~= Seq::<Op>::empty());
    }
    while j < k.ops.len()
        invariant
            j <= k.ops@.len(),
            well_formed(*k),
            depth == wgsl_depth(k.ops@.take(j as int), 0),
            forall|y: int| 0 <= y < j ==> wgsl_nest_ok(#[trigger] k.ops@[y], wgsl_depth(k.ops@.take(y), 0)),
        decreases k.ops@.len() - j,
    {
        let op = k.ops[j];
        let ok = match op {
            Op::ForLoopBegin { .. } | Op::ForeverLoopBegin | Op::IfBegin { .. } | Op::ElseBegin => depth < usize::MAX,
            Op::EndScope => depth > 0,
            _ => true,
        };
        if !ok {
            proof {
                assert(!wgsl_nest_ok(k.ops@[j as int], wgsl_depth(k.ops@.take(j as int), 0)));
            }
            return false;
        }
        depth = match op {
            Op::ForLoopBegin { .. } | Op::ForeverLoopBegin | Op::IfBegin { .. } | Op::ElseBegin => depth + 1,
            Op::EndScope => depth - 1,
            _ => depth,
        };
        proof {
            assert(k.ops@.take(j + 1).drop_last() =~= k.ops@.take(j as int));
            assert(k.ops@.take(j + 1).last() == op);
        }
        j = j + 1;
    }
    proof {
        assert(k.ops@.take(k.ops@.len() as int) =~= k.ops@);
    }
    true
}

/// Every two-operand instruction keeps its operands in order: its WGSL text
/// is the text of the first operand, the operator (or the function name and
/// a comma), then the text of the second operand. So `a - b` subtracts `b`
/// from `a`, `a / b` divides `a` by `b`, and likewise for every operator
/// whose operands do not commute. A store writes the value of its second
/// operand at the index its first operand gives, and setting a value writes
/// the text of the new value into the named one.
pub proof fn law_wgsl_operand_order(k: RawKernel, a: ValueId, b: ValueId, p: ParamId, bound: nat)
    requires
        a.0 < bound,
        b.0 < bound,
    ensures
        wgsl_op(k, Op::ParamStore { param: p, index: a, value: b }, bound)
            == wrap2(lit("param") + num(p.0 as nat) + lit("["), wgsl_val(k, a.0 as nat), lit("] = "), wgsl_val(k, b.0 as nat), lit(";")),
        wgsl_op(k, Op::OverwriteVar { id: a, val: b }, bound)
            == wrap1(lit("v") + num(a.0 as nat) + lit(" = "), wgsl_val(k, b.0 as nat), lit(";")),
        wgsl_op(k, Op::Add { a, b }, bound) == wrap2(lit("("), wgsl_val(k, a.0 as nat), lit(") + ("), wgsl_val(k, b.0 as nat), lit(")")),
        wgsl_op(k, Op::Sub { a, b }, bound) == wrap2(lit("("), wgsl_val(k, a.0 as nat), lit(") - ("), wgsl_val(k, b.0 as nat), lit(")")),
        wgsl_op(k, Op::Mul { a, b }, bound) == wrap2(lit("("), wgsl_val(k, a.0 as nat), lit(") * ("), wgsl_val(k, b.0 as nat), lit(")")),
        wgsl_op(k, Op::Div { a, b }, bound) == wrap2(lit("("), wgsl_val(k, a.0 as nat), lit(") / ("), wgsl_val(k, b.0 as nat), lit(")")),
        wgsl_op(k, Op::Mod { a, b }, bound) == wrap2(lit("("), wgsl_val(k, a.0 as nat), lit(") % ("), wgsl_val(k, b.0 as nat), lit(")")),
        wgsl_op(k, Op::Pow { a, b }, bound) == wrap2(lit("pow("), wgsl_val(k, a.0 as nat), lit(", "), wgsl_val(k, b.0 as nat), lit(")")),
        wgsl_op(k, Op::Shl { a, b }, bound) == wrap2(lit("("), wgsl_val(k, a.0 as nat), lit(") << ("), wgsl_val(k, b.0 as nat), lit(")")),
        wgsl_op(k, Op::Shr { a, b }, bound) == wrap2(lit("("), wgsl_val(k, a.0 as nat), lit(") >> ("), wgsl_val(k, b.0 as nat), lit(")")),
        wgsl_op(k, Op::Eq { a, b }, bound) == wrap2(lit("("), wgsl_val(k, a.0 as nat), lit(") == ("), wgsl_val(k, b.0 as nat), lit(")")),
        wgsl_op(k, Op::Ne { a, b }, bound) == wrap2(lit("("), wgsl_val(k, a.0 as nat), lit(") != ("), wgsl_val(k, b.0 as nat), lit(")")),
        wgsl_op(k, Op::Lt { a, b }, bound) == wrap2(lit("("), wgsl_val(k, a.0 as nat), lit(") < ("), wgsl_val(k, b.0 as nat), lit(")")),
        wgsl_op(k, Op::Gt { a, b }, bound) == wrap2(lit("("), wgsl_val(k, a.0 as nat), lit(") > ("), wgsl_val(k, b.0 as nat), lit(")")),
        wgsl_op(k, Op::Le { a, b }, bound) == wrap2(lit("("), wgsl_val(k, a.0 as nat), lit(") <= ("), wgsl_val(k, b.0 as nat), lit(")")),
        wgsl_op(k, Op::Ge { a, b }, bound) == wrap2(lit("("), wgsl_val(k, a.0 as nat), lit(") >= ("), wgsl_val(k, b.0 as nat), lit(")")),
        wgsl_op(k, Op::Max { a, b }, bound) == wrap2(lit("max("), wgsl_val(k, a.0 as nat), lit(", "), wgsl_val(k, b.0 as nat), lit(")")),
        wgsl_op(k, Op::Min { a, b }, bound) == wrap2(lit("min("), wgsl_val(k, a.0 as nat), lit(", "), wgsl_val(k, b.0 as nat), lit(")")),
{
    reveal(wgsl_op_text);
    assert(wgsl_sub(k, a, bound) == wgsl_val(k, a.0 as nat));
    assert(wgsl_sub(k, b, bound) == wgsl_val(k, b.0 as nat));
    assert(wgsl_op(k, Op::ParamStore { param: p, index: a, value: b }, bound) == wgsl_op_text(k, Op::ParamStore { param: p, index: a, value: b }, |v: ValueId| wgsl_sub(k, v, bound), |v: ValueId| wgsl_def_below(k, v, bound)));
    assert(wgsl_op(k, Op::OverwriteVar { id: a, val: b }, bound) == wgsl_op_text(k, Op::OverwriteVar { id: a, val: b }, |v: ValueId| wgsl_sub(k, v, bound), |v: ValueId| wgsl_def_below(k, v, bound)));
    assert(wgsl_op(k, Op::Add { a, b }, bound) == wgsl_op_text(k, Op::Add { a, b }, |v: ValueId| wgsl_sub(k, v, bound), |v: ValueId| wgsl_def_below(k, v, bound)));
    assert(wgsl_op(k, Op::Sub { a, b }, bound) == wgsl_op_text(k, Op::Sub { a, b }, |v: ValueId| wgsl_sub(k, v, bound), |v: ValueId| wgsl_def_below(k, v, bound)));
    assert(wgsl_op(k, Op::Mul { a, b }, bound) == wgsl_op_text(k, Op::Mul { a, b }, |v: ValueId| wgsl_sub(k, v, bound), |v: ValueId| wgsl_def_below(k, v, bound)));
    assert(wgsl_op(k, Op::Div { a, b }, bound) == wgsl_op_text(k, Op::Div { a, b }, |v: ValueId| wgsl_sub(k, v, bound), |v: ValueId| wgsl_def_below(k, v, bound)));
    assert(wgsl_op(k, Op::Mod { a, b }, bound) == wgsl_op_text(k, Op::Mod { a, b }, |v: ValueId| wgsl_sub(k, v, bound), |v: ValueId| wgsl_def_below(k, v, bound)));
    assert(wgsl_op(k, Op::Pow { a, b }, bound) == wgsl_op_text(k, Op::Pow { a, b }, |v: ValueId| wgsl_sub(k, v, bound), |v: ValueId| wgsl_def_below(k, v, bound)));
    assert(wgsl_op(k, Op::Shl { a, b }, bound) == wgsl_op_text(k, Op::Shl { a, b }, |v: ValueId| wgsl_sub(k, v, bound), |v: ValueId| wgsl_def_below(k, v, bound)));
    assert(wgsl_op(k, Op::Shr { a, b }, bound) == wgsl_op_text(k, Op::Shr { a, b }, |v: ValueId| wgsl_sub(k, v, bound), |v: ValueId| wgsl_def_below(k, v, bound)));
    assert(wgsl_op(k, Op::Eq { a, b }, bound) == wgsl_op_text(k, Op::Eq { a, b }, |v: ValueId| wgsl_sub(k, v, bound), |v: ValueId| wgsl_def_below(k, v, bound)));
    assert(wgsl_op(k, Op::Ne { a, b }, bound) == wgsl_op_text(k, Op::Ne { a, b }, |v: ValueId| wgsl_sub(k, v, bound), |v: ValueId| wgsl_def_below(k, v, bound)));
    assert(wgsl_op(k, Op::Lt { a, b }, bound) == wgsl_op_text(k, Op::Lt { a, b }, |v: ValueId| wgsl_sub(k, v, bound), |v: ValueId| wgsl_def_below(k, v, bound)));
    assert(wgsl_op(k, Op::Gt { a, b }, bound) == wgsl_op_text(k, Op::Gt { a, b }, |v: ValueId| wgsl_sub(k, v, bound), |v: ValueId| wgsl_def_below(k, v, bound)));
    assert(wgsl_op(k, Op::Le { a, b }, bound) == wgsl_op_text(k, Op::Le { a, b }, |v: ValueId| wgsl_sub(k, v, bound), |v: ValueId| wgsl_def_below(k, v, bound)));
    assert(wgsl_op(k, Op::Ge { a, b }, bound) == wgsl_op_text(k, Op::Ge { a, b }, |v: ValueId| wgsl_sub(k, v, bound), |v: ValueId| wgsl_def_below(k, v, bound)));
    assert(wgsl_op(k, Op::Max { a, b }, bound) == wgsl_op_text(k, Op::Max { a, b }, |v: ValueId| wgsl_sub(k, v, bound), |v: ValueId| wgsl_def_below(k, v, bound)));
    assert(wgsl_op(k, Op::Min { a, b }, bound) == wgsl_op_text(k, Op::Min { a, b }, |v: ValueId| wgsl_sub(k, v, bound), |v: ValueId| wgsl_def_below(k, v, bound)));
}

/// Two results of generating code that differ in layout alone: both fail
/// with the same error, or both succeed with the same code once spaces and
/// line breaks are left out.
pub open spec fn same_code(a: Result<Seq<Tok>, Error<()>>, b: Result<Seq<Tok>, Error<()>>) -> bool {
    match a {
        Ok(x) => b is Ok && squeeze(x) == squeeze(b->Ok_0),
        Err(e) => b == Err::<Seq<Tok>, Error<()>>(e),
    }
}

proof fn lemma_same_cat(a1: Result<Seq<Tok>, Error<()>>, a2: Result<Seq<Tok>, Error<()>>, b1: Result<Seq<Tok>, Error<()>>, b2: Result<Seq<Tok>, Error<()>>)
    requires
        same_code(a1, b1),
        same_code(a2, b2),
    ensures
        same_code(cat(a1, a2), cat(b1, b2)),
{
    broadcast use lemma_squeeze_cat;
}

proof fn lemma_blanks(n: nat)
    ensures
        squeeze(nl(true, n)) == Seq::<Tok>::empty(),
        squeeze(nl(false, n)) == Seq::<Tok>::empty(),
        squeeze(tb(true)) == Seq::<Tok>::empty(),
        squeeze(tb(false)) == Seq::<Tok>::empty(),
{
    lemma_layout_blank(true, n);
    lemma_layout_blank(false, n);
}

proof fn lemma_meta_fields_layout(n: nat)
    ensures
        squeeze(wgsl_meta_fields(true, n)) == squeeze(wgsl_meta_fields(false, n)),
    decreases n,
{
    broadcast use lemma_squeeze_cat;
    if n > 1 {
        lemma_meta_fields_layout((n - 1) as nat);
        lemma_blanks(1);
    }
}

proof fn lemma_bindings_layout(k: RawKernel, ps: Seq<Param>)
    ensures
        same_code(wgsl_bindings(k, ps, true), wgsl_bindings(k, ps, false)),
{
    broadcast use lemma_squeeze_cat;
    lemma_blanks(0);
    lemma_meta_fields_layout(k.meta.fields as nat);
    lemma_params_layout(ps);
    lemma_shareds_layout(k.shared@);
    let m = Ok::<Seq<Tok>, Error<()>>(wgsl_meta_struct(k.meta.fields as nat, true));
    let m2 = Ok::<Seq<Tok>, Error<()>>(wgsl_meta_struct(k.meta.fields as nat, false));
    assert(same_code(m, m2));
    lemma_same_cat(m, wgsl_params(true, ps), m2, wgsl_params(false, ps));
    assert(same_code(Ok::<Seq<Tok>, Error<()>>(nl(true, 0)), Ok::<Seq<Tok>, Error<()>>(nl(false, 0))));
    lemma_same_cat(Ok(nl(true, 0)), wgsl_shareds(true, k.shared@), Ok(nl(false, 0)), wgsl_shareds(false, k.shared@));
    lemma_same_cat(cat(m, wgsl_params(true, ps)), cat(Ok(nl(true, 0)), wgsl_shareds(true, k.shared@)),
        cat(m2, wgsl_params(false, ps)), cat(Ok(nl(false, 0)), wgsl_shareds(false, k.shared@)));
}

proof fn lemma_params_layout(ps: Seq<Param>)
    ensures
        same_code(wgsl_params(true, ps), wgsl_params(false, ps)),
    decreases ps.len(),
{
    broadcast use lemma_squeeze_cat;
    if ps.len() > 0 {
        lemma_params_layout(ps.drop_last());
        lemma_blanks(0);
        let p = ps.last();
        let h1 = nl(true, 0) + lit("@group(0) @binding(") + num(p.pid.0 as nat) + lit(") ")
            + lit(wgsl_var_type(p.ty)) + lit(" param") + num(p.pid.0 as nat);
        let h2 = nl(false, 0) + lit("@group(0) @binding(") + num(p.pid.0 as nat) + lit(") ")
            + lit(wgsl_var_type(p.ty)) + lit(" param") + num(p.pid.0 as nat);
        assert(squeeze(h1) == squeeze(h2));
        if !(p.ty == ParamTy::Uniform && p.dtype == SimpleDType::U32) {
            let t = wgsl_name_toks(p.dtype);
            assert(same_code(Ok::<Seq<Tok>, Error<()>>(h1 + lit(": array<")), Ok::<Seq<Tok>, Error<()>>(h2 + lit(": array<"))));
            assert(same_code(t, t));
            lemma_same_cat(Ok(h1 + lit(": array<")), t, Ok(h2 + lit(": array<")), t);
            assert(same_code(Ok::<Seq<Tok>, Error<()>>(lit(">;")), Ok::<Seq<Tok>, Error<()>>(lit(">;"))));
            lemma_same_cat(cat(Ok(h1 + lit(": array<")), t), Ok(lit(">;")), cat(Ok(h2 + lit(": array<")), t), Ok(lit(">;")));
        }
        assert(same_code(wgsl_param(true, p), wgsl_param(false, p)));
        lemma_same_cat(wgsl_params(true, ps.drop_last()), wgsl_param(true, p), wgsl_params(false, ps.drop_last()), wgsl_param(false, p));
    }
}

proof fn lemma_shareds_layout(ss: Seq<SharedAlloc>)
    ensures
        same_code(wgsl_shareds(true, ss), wgsl_shareds(false, ss)),
    decreases ss.len(),
{
    broadcast use lemma_squeeze_cat;
    if ss.len() > 0 {
        lemma_shareds_layout(ss.drop_last());
        lemma_blanks(0);
        let i = (ss.len() - 1) as nat;
        let sh = ss.last();
        let h1 = nl(true, 0) + lit("var<workgroup> shared") + num(i) + lit(": array<");
        let h2 = nl(false, 0) + lit("var<workgroup> shared") + num(i) + lit(": array<");
        let t = wgsl_name_toks(sh.dtype);
        let tail = Ok::<Seq<Tok>, Error<()>>(lit(", (") + num(sh.size as nat) + lit(")>;"));
        assert(same_code(Ok::<Seq<Tok>, Error<()>>(h1), Ok::<Seq<Tok>, Error<()>>(h2)));
        assert(same_code(t, t));
        assert(same_code(tail, tail));
        lemma_same_cat(Ok(h1), t, Ok(h2), t);
        lemma_same_cat(cat(Ok(h1), t), tail, cat(Ok(h2), t), tail);
        lemma_same_cat(wgsl_shareds(true, ss.drop_last()), wgsl_shared(true, i, sh), wgsl_shareds(false, ss.drop_last()), wgsl_shared(false, i, sh));
    }
}

proof fn lemma_lines_layout(k: RawKernel, ops: Seq<Op>)
    ensures
        same_code(wgsl_lines(k, ops, true), wgsl_lines(k, ops, false)),
    decreases ops.len(),
{
    broadcast use lemma_squeeze_cat;
    if ops.len() > 0 {
        lemma_lines_layout(k, ops.drop_last());
        let n = wgsl_depth(ops.drop_last(), 0);
        let op = ops.last();
        lemma_blanks(n);
        if !skipped(k, op) {
            let l1 = if op == Op::EndScope { nl(true, n) } else { nl(true, n) + tb(true) };
            let l2 = if op == Op::EndScope { nl(false, n) } else { nl(false, n) + tb(false) };
            let t = wgsl_op(k, op, k.values@.len() as nat);
            assert(same_code(Ok::<Seq<Tok>, Error<()>>(l1), Ok::<Seq<Tok>, Error<()>>(l2)));
            assert(same_code(t, t));
            lemma_same_cat(Ok(l1), t, Ok(l2), t);
        }
        assert(same_code(wgsl_line(k, op, n, true), wgsl_line(k, op, n, false)));
        lemma_same_cat(wgsl_lines(k, ops.drop_last(), true), wgsl_line(k, op, n, true), wgsl_lines(k, ops.drop_last(), false), wgsl_line(k, op, n, false));
    }
}

proof fn lemma_source_head(k: RawKernel, ps: Seq<Param>, pretty_print: bool)
    ensures
        wgsl_source(k, ps, pretty_print) is Ok
            ==> wgsl_source(k, ps, pretty_print)->Ok_0.subrange(0, lit("enable f16;").len() as int) == lit("enable f16;"),
{
    if wgsl_source(k, ps, pretty_print) is Ok {
        let d = lit("enable f16;");
        let rest = nl(pretty_print, 0) + wgsl_bindings(k, ps, pretty_print)->Ok_0
            + (nl(pretty_print, 0) + wgsl_entry(k, pretty_print)->Ok_0);
        assert(wgsl_source(k, ps, pretty_print)->Ok_0 =~= d + rest);
        assert((d + rest).subrange(0, d.len() as int) =~= d);
    }
}

proof fn lemma_entry_layout(k: RawKernel)
    ensures
        same_code(cat(Ok(nl(true, 0)), wgsl_entry(k, true)), cat(Ok(nl(false, 0)), wgsl_entry(k, false))),
{
    broadcast use lemma_squeeze_cat;
    lemma_blanks(0);
    lemma_blanks(1);
    lemma_lines_layout(k, k.ops@);
    let h1 = Ok::<Seq<Tok>, Error<()>>(wgsl_entry_head(k, true));
    let h2 = Ok::<Seq<Tok>, Error<()>>(wgsl_entry_head(k, false));
    assert(same_code(h1, h2));
    let e1 = Ok::<Seq<Tok>, Error<()>>(nl(true, 0) + lit("}"));
    let e2 = Ok::<Seq<Tok>, Error<()>>(nl(false, 0) + lit("}"));
    assert(same_code(e1, e2));
    lemma_same_cat(h1, wgsl_lines(k, k.ops@, true), h2, wgsl_lines(k, k.ops@, false));
    lemma_same_cat(cat(h1, wgsl_lines(k, k.ops@, true)), e1, cat(h2, wgsl_lines(k, k.ops@, false)), e2);
    assert(same_code(Ok::<Seq<Tok>, Error<()>>(nl(true, 0)), Ok::<Seq<Tok>, Error<()>>(nl(false, 0))));
    lemma_same_cat(Ok(nl(true, 0)), wgsl_entry(k, true), Ok(nl(false, 0)), wgsl_entry(k, false));
}

/// Code on one line: no line break in it.
#[verifier::opaque]
pub open spec fn one_line(t: Seq<Tok>) -> bool {
    forall|i: int| 0 <= i < t.len() ==> t[i] != Tok::Ch('\n')
}

/// Generated code that is on one line where generation succeeds.
pub open spec fn one_line_res(r: Result<Seq<Tok>, Error<()>>) -> bool {
    r matches Ok(t) ==> one_line(t)
}

/// Two pieces of code are on one line together exactly when each is.
pub broadcast proof fn lemma_one_line_cat(a: Seq<Tok>, b: Seq<Tok>)
    ensures
        #[trigger] one_line(a + b) == (one_line(a) && one_line(b)),
{
    reveal(one_line);
    if one_line(a + b) {
        assert forall|i: int| 0 <= i < a.len() implies a[i] != Tok::Ch('\n') by {
            assert(a[i] == (a + b)[i]);
        }
        assert forall|i: int| 0 <= i < b.len() implies b[i] != Tok::Ch('\n') by {
            assert(b[i] == (a + b)[a.len() + i]);
        }
    }
}

/// Joining generated code that is on one line gives code on one line.
pub broadcast proof fn lemma_one_line_res_cat(a: Result<Seq<Tok>, Error<()>>, b: Result<Seq<Tok>, Error<()>>)
    requires
        one_line_res(a),
        one_line_res(b),
    ensures
        #[trigger] one_line_res(cat(a, b)),
{
    broadcast use lemma_one_line_cat;
}

/// Characters without a line break are code on one line.
proof fn lemma_one_line_chars(s: Seq<char>)
    requires
        forall|i: int| 0 <= i < s.len() ==> s[i] != '\n',
    ensures
        one_line(chars(s)),
{
    reveal(one_line);
    lemma_chars(s);
}

/// Nothing, and a float literal, are on one line.
proof fn lemma_one_line_basics()
    ensures
        one_line(Seq::<Tok>::empty()),
        forall|f: FloatLit| one_line(#[trigger] seq![Tok::Float(f)]),
{
    reveal(one_line);
    assert forall|f: FloatLit| one_line(#[trigger] seq![Tok::Float(f)]) by {
        reveal(one_line);
    }
}

/// Decimal digits hold no line break.
proof fn lemma_dec_no_break(n: nat)
    ensures
        forall|i: int| 0 <= i < dec(n).len() ==> dec(n)[i] != '\n',
    decreases n,
{
    reveal_strlit("0");
    reveal_strlit("1");
    reveal_strlit("2");
    reveal_strlit("3");
    reveal_strlit("4");
    reveal_strlit("5");
    reveal_strlit("6");
    reveal_strlit("7");
    reveal_strlit("8");
    reveal_strlit("9");
    let d = digit_text(n % 10);
    assert(forall|i: int| 0 <= i < d.len() ==> d[i] != '\n');
    if n >= 10 {
        lemma_dec_no_break(n / 10);
        let a = dec(n / 10);
        assert forall|i: int| 0 <= i < dec(n).len() implies dec(n)[i] != '\n' by {
            if i < a.len() {
                assert(dec(n)[i] == a[i]);
            } else {
                assert(dec(n)[i] == d[i - a.len()]);
            }
        }
    }
}

/// Numbers, signed numbers and axis names are written on one line.
proof fn lemma_numbers_one_line()
    ensures
        forall|n: nat| one_line(#[trigger] num(n)),
        forall|i: int| one_line(#[trigger] chars(dec_int(i))),
        forall|a: Axis| one_line(#[trigger] chars(axis_name(a))),
        forall|t: SimpleDType| #[trigger] wgsl_name(t) is Ok ==> one_line(chars(wgsl_name(t)->Ok_0)),
{
    assert forall|n: nat| one_line(#[trigger] num(n)) by {
        lemma_dec_no_break(n);
        lemma_one_line_chars(dec(n));
    }
    assert forall|i: int| one_line(#[trigger] chars(dec_int(i))) by {
        reveal_strlit("-");
        if i < 0 {
            let m = (-i) as nat;
            lemma_dec_no_break(m);
            let s = dec_int(i);
            assert forall|j: int| 0 <= j < s.len() implies s[j] != '\n' by {
                if j >= 1 {
                    assert(s[j] == dec(m)[j - 1]);
                }
            }
            lemma_one_line_chars(s);
        } else {
            lemma_dec_no_break(i as nat);
            lemma_one_line_chars(dec_int(i));
        }
    }
    assert forall|a: Axis| one_line(#[trigger] chars(axis_name(a))) by {
        reveal_strlit("x");
        reveal_strlit("y");
        reveal_strlit("z");
        lemma_one_line_chars(axis_name(a));
    }
    assert forall|t: SimpleDType| #[trigger] wgsl_name(t) is Ok implies one_line(chars(wgsl_name(t)->Ok_0)) by {
        reveal_strlit("f64");
        reveal_strlit("f32");
        reveal_strlit("f16");
        reveal_strlit("bool");
        reveal_strlit("i32");
        reveal_strlit("u32");
        lemma_one_line_chars(wgsl_name(t)->Ok_0);
    }
}

/// Some of the fixed pieces of WGSL text are on one line.
proof fn lemma_pieces_one_line_a()
    ensures
        one_line(lit(" *= ")),
        one_line(lit(" += ")),
        one_line(lit(" -= ")),
        one_line(lit(" /= ")),
        one_line(lit(" < ")),
        one_line(lit(" <<= ")),
        one_line(lit(" = ")),
        one_line(lit(" >>= ")),
        one_line(lit(" param")),
        one_line(lit("!(")),
        one_line(lit("(")),
        one_line(lit(")")),
        one_line(lit(") ")),
        one_line(lit(") != (")),
        one_line(lit(") % (")),
        one_line(lit(") * (")),
{
    reveal_strlit(" *= ");
    lemma_one_line_chars(" *= "@);
    reveal_strlit(" += ");
    lemma_one_line_chars(" += "@);
    reveal_strlit(" -= ");
    lemma_one_line_chars(" -= "@);
    reveal_strlit(" /= ");
    lemma_one_line_chars(" /= "@);
    reveal_strlit(" < ");
    lemma_one_line_chars(" < "@);
    reveal_strlit(" <<= ");
    lemma_one_line_chars(" <<= "@);
    reveal_strlit(" = ");
    lemma_one_line_chars(" = "@);
    reveal_strlit(" >>= ");
    lemma_one_line_chars(" >>= "@);
    reveal_strlit(" param");
    lemma_one_line_chars(" param"@);
    reveal_strlit("!(");
    lemma_one_line_chars("!("@);
    reveal_strlit("(");
    lemma_one_line_chars("("@);
    reveal_strlit(")");
    lemma_one_line_chars(")"@);
    reveal_strlit(") ");
    lemma_one_line_chars(") "@);
    reveal_strlit(") != (");
    lemma_one_line_chars(") != ("@);
    reveal_strlit(") % (");
    lemma_one_line_chars(") % ("@);
    reveal_strlit(") * (");
    lemma_one_line_chars(") * ("@);
}

/// Some of the fixed pieces of WGSL text are on one line.
proof fn lemma_pieces_one_line_b()
    ensures
        one_line(lit(") + (")),
        one_line(lit(") - (")),
        one_line(lit(") / (")),
        one_line(lit(") < (")),
        one_line(lit(") << (")),
        one_line(lit(") <= (")),
        one_line(lit(") == (")),
        one_line(lit(") > (")),
        one_line(lit(") >= (")),
        one_line(lit(") >> (")),
        one_line(lit(") {")),
        one_line(lit(")) ")),
        one_line(lit("), (")),
        one_line(lit(")>;")),
        one_line(lit(", ")),
        one_line(lit(", (")),
{
    reveal_strlit(") + (");
    lemma_one_line_chars(") + ("@);
    reveal_strlit(") - (");
    lemma_one_line_chars(") - ("@);
    reveal_strlit(") / (");
    lemma_one_line_chars(") / ("@);
    reveal_strlit(") < (");
    lemma_one_line_chars(") < ("@);
    reveal_strlit(") << (");
    lemma_one_line_chars(") << ("@);
    reveal_strlit(") <= (");
    lemma_one_line_chars(") <= ("@);
    reveal_strlit(") == (");
    lemma_one_line_chars(") == ("@);
    reveal_strlit(") > (");
    lemma_one_line_chars(") > ("@);
    reveal_strlit(") >= (");
    lemma_one_line_chars(") >= ("@);
    reveal_strlit(") >> (");
    lemma_one_line_chars(") >> ("@);
    reveal_strlit(") {");
    lemma_one_line_chars(") {"@);
    reveal_strlit(")) ");
    lemma_one_line_chars(")) "@);
    reveal_strlit("), (");
    lemma_one_line_chars("), ("@);
    reveal_strlit(")>;");
    lemma_one_line_chars(")>;"@);
    reveal_strlit(", ");
    lemma_one_line_chars(", "@);
    reveal_strlit(", (");
    lemma_one_line_chars(", ("@);
}

/// Some of the fixed pieces of WGSL text are on one line.
proof fn lemma_pieces_one_line_c()
    ensures
        one_line(lit("-(")),
        one_line(lit(".f")),
        one_line(lit(": ")),
        one_line(lit(": Meta;")),
        one_line(lit(": array<")),
        one_line(lit(": u32,")),
        one_line(lit(";")),
        one_line(lit("; v")),
        one_line(lit(">;")),
        one_line(lit("@builtin(global_invocation_id) gid: vec3<u32>,")),
        one_line(lit("@builtin(local_invocation_id) lid: vec3<u32>,")),
        one_line(lit("@builtin(workgroup_id) bid: vec3<u32>,")),
        one_line(lit("@compute @workgroup_size(")),
        one_line(lit("@group(0) @binding(")),
        one_line(lit("[")),
        one_line(lit("]")),
{
    reveal_strlit("-(");
    lemma_one_line_chars("-("@);
    reveal_strlit(".f");
    lemma_one_line_chars(".f"@);
    reveal_strlit(": ");
    lemma_one_line_chars(": "@);
    reveal_strlit(": Meta;");
    lemma_one_line_chars(": Meta;"@);
    reveal_strlit(": array<");
    lemma_one_line_chars(": array<"@);
    reveal_strlit(": u32,");
    lemma_one_line_chars(": u32,"@);
    reveal_strlit(";");
    lemma_one_line_chars(";"@);
    reveal_strlit("; v");
    lemma_one_line_chars("; v"@);
    reveal_strlit(">;");
    lemma_one_line_chars(">;"@);
    reveal_strlit("@builtin(global_invocation_id) gid: vec3<u32>,");
    lemma_one_line_chars("@builtin(global_invocation_id) gid: vec3<u32>,"@);
    reveal_strlit("@builtin(local_invocation_id) lid: vec3<u32>,");
    lemma_one_line_chars("@builtin(local_invocation_id) lid: vec3<u32>,"@);
    reveal_strlit("@builtin(workgroup_id) bid: vec3<u32>,");
    lemma_one_line_chars("@builtin(workgroup_id) bid: vec3<u32>,"@);
    reveal_strlit("@compute @workgroup_size(");
    lemma_one_line_chars("@compute @workgroup_size("@);
    reveal_strlit("@group(0) @binding(");
    lemma_one_line_chars("@group(0) @binding("@);
    reveal_strlit("[");
    lemma_one_line_chars("["@);
    reveal_strlit("]");
    lemma_one_line_chars("]"@);
}

/// Some of the fixed pieces of WGSL text are on one line.
proof fn lemma_pieces_one_line_d()
    ensures
        one_line(lit("] *= ")),
        one_line(lit("] += ")),
        one_line(lit("] -= ")),
        one_line(lit("] /= ")),
        one_line(lit("] <<= ")),
        one_line(lit("] = ")),
        one_line(lit("] >>= ")),
        one_line(lit("abs(")),
        one_line(lit("bid.")),
        one_line(lit("break;")),
        one_line(lit("continue;")),
        one_line(lit("d")),
        one_line(lit("else {")),
        one_line(lit("enable f16;")),
        one_line(lit("exp(")),
        one_line(lit("f")),
{
    reveal_strlit("] *= ");
    lemma_one_line_chars("] *= "@);
    reveal_strlit("] += ");
    lemma_one_line_chars("] += "@);
    reveal_strlit("] -= ");
    lemma_one_line_chars("] -= "@);
    reveal_strlit("] /= ");
    lemma_one_line_chars("] /= "@);
    reveal_strlit("] <<= ");
    lemma_one_line_chars("] <<= "@);
    reveal_strlit("] = ");
    lemma_one_line_chars("] = "@);
    reveal_strlit("] >>= ");
    lemma_one_line_chars("] >>= "@);
    reveal_strlit("abs(");
    lemma_one_line_chars("abs("@);
    reveal_strlit("bid.");
    lemma_one_line_chars("bid."@);
    reveal_strlit("break;");
    lemma_one_line_chars("break;"@);
    reveal_strlit("continue;");
    lemma_one_line_chars("continue;"@);
    reveal_strlit("d");
    lemma_one_line_chars("d"@);
    reveal_strlit("else {");
    lemma_one_line_chars("else {"@);
    reveal_strlit("enable f16;");
    lemma_one_line_chars("enable f16;"@);
    reveal_strlit("exp(");
    lemma_one_line_chars("exp("@);
    reveal_strlit("f");
    lemma_one_line_chars("f"@);
}

/// Some of the fixed pieces of WGSL text are on one line.
proof fn lemma_pieces_one_line_e()
    ensures
        one_line(lit("f0: f32,")),
        one_line(lit("f16(")),
        one_line(lit("f32(")),
        one_line(lit("f64(")),
        one_line(lit("fma(")),
        one_line(lit("fn main(")),
        one_line(lit("for (; v")),
        one_line(lit("gid.")),
        one_line(lit("h")),
        one_line(lit("i32(")),
        one_line(lit("if (")),
        one_line(lit("lid.")),
        one_line(lit("log(")),
        one_line(lit("loop {")),
        one_line(lit("max(")),
        one_line(lit("min(")),
{
    reveal_strlit("f0: f32,");
    lemma_one_line_chars("f0: f32,"@);
    reveal_strlit("f16(");
    lemma_one_line_chars("f16("@);
    reveal_strlit("f32(");
    lemma_one_line_chars("f32("@);
    reveal_strlit("f64(");
    lemma_one_line_chars("f64("@);
    reveal_strlit("fma(");
    lemma_one_line_chars("fma("@);
    reveal_strlit("fn main(");
    lemma_one_line_chars("fn main("@);
    reveal_strlit("for (; v");
    lemma_one_line_chars("for (; v"@);
    reveal_strlit("gid.");
    lemma_one_line_chars("gid."@);
    reveal_strlit("h");
    lemma_one_line_chars("h"@);
    reveal_strlit("i32(");
    lemma_one_line_chars("i32("@);
    reveal_strlit("if (");
    lemma_one_line_chars("if ("@);
    reveal_strlit("lid.");
    lemma_one_line_chars("lid."@);
    reveal_strlit("log(");
    lemma_one_line_chars("log("@);
    reveal_strlit("loop {");
    lemma_one_line_chars("loop {"@);
    reveal_strlit("max(");
    lemma_one_line_chars("max("@);
    reveal_strlit("min(");
    lemma_one_line_chars("min("@);
}

/// Some of the fixed pieces of WGSL text are on one line.
proof fn lemma_pieces_one_line_f()
    ensures
        one_line(lit("param")),
        one_line(lit("pow(")),
        one_line(lit("return;")),
        one_line(lit("select(")),
        one_line(lit("shared")),
        one_line(lit("sqrt(")),
        one_line(lit("struct Meta {")),
        one_line(lit("tanh(")),
        one_line(lit("u")),
        one_line(lit("u32(")),
        one_line(lit("v")),
        one_line(lit("var<workgroup> shared")),
        one_line(lit("workgroupBarrier();")),
        one_line(lit("{")),
        one_line(lit("}")),
        one_line(lit("var<storage, read>")),
{
    reveal_strlit("param");
    lemma_one_line_chars("param"@);
    reveal_strlit("pow(");
    lemma_one_line_chars("pow("@);
    reveal_strlit("return;");
    lemma_one_line_chars("return;"@);
    reveal_strlit("select(");
    lemma_one_line_chars("select("@);
    reveal_strlit("shared");
    lemma_one_line_chars("shared"@);
    reveal_strlit("sqrt(");
    lemma_one_line_chars("sqrt("@);
    reveal_strlit("struct Meta {");
    lemma_one_line_chars("struct Meta {"@);
    reveal_strlit("tanh(");
    lemma_one_line_chars("tanh("@);
    reveal_strlit("u");
    lemma_one_line_chars("u"@);
    reveal_strlit("u32(");
    lemma_one_line_chars("u32("@);
    reveal_strlit("v");
    lemma_one_line_chars("v"@);
    reveal_strlit("var<workgroup> shared");
    lemma_one_line_chars("var<workgroup> shared"@);
    reveal_strlit("workgroupBarrier();");
    lemma_one_line_chars("workgroupBarrier();"@);
    reveal_strlit("{");
    lemma_one_line_chars("{"@);
    reveal_strlit("}");
    lemma_one_line_chars("}"@);
    reveal_strlit("var<storage, read>");
    lemma_one_line_chars("var<storage, read>"@);
}

/// Some of the fixed pieces of WGSL text are on one line.
proof fn lemma_pieces_one_line_g()
    ensures
        one_line(lit("var<storage, read_write>")),
        one_line(lit("var<uniform>")),
        one_line(lit("const v")),
        one_line(lit("let v")),
        one_line(lit("var v")),
        one_line(lit(" ")),
{
    reveal_strlit("var<storage, read_write>");
    lemma_one_line_chars("var<storage, read_write>"@);
    reveal_strlit("var<uniform>");
    lemma_one_line_chars("var<uniform>"@);
    reveal_strlit("const v");
    lemma_one_line_chars("const v"@);
    reveal_strlit("let v");
    lemma_one_line_chars("let v"@);
    reveal_strlit("var v");
    lemma_one_line_chars("var v"@);
    reveal_strlit(" ");
    lemma_one_line_chars(" "@);
}

/// Every fixed piece of WGSL text is on one line.
proof fn lemma_pieces_one_line()
    ensures
        one_line(lit(" *= ")),
        one_line(lit(" += ")),
        one_line(lit(" -= ")),
        one_line(lit(" /= ")),
        one_line(lit(" < ")),
        one_line(lit(" <<= ")),
        one_line(lit(" = ")),
        one_line(lit(" >>= ")),
        one_line(lit(" param")),
        one_line(lit("!(")),
        one_line(lit("(")),
        one_line(lit(")")),
        one_line(lit(") ")),
        one_line(lit(") != (")),
        one_line(lit(") % (")),
        one_line(lit(") * (")),
        one_line(lit(") + (")),
        one_line(lit(") - (")),
        one_line(lit(") / (")),
        one_line(lit(") < (")),
        one_line(lit(") << (")),
        one_line(lit(") <= (")),
        one_line(lit(") == (")),
        one_line(lit(") > (")),
        one_line(lit(") >= (")),
        one_line(lit(") >> (")),
        one_line(lit(") {")),
        one_line(lit(")) ")),
        one_line(lit("), (")),
        one_line(lit(")>;")),
        one_line(lit(", ")),
        one_line(lit(", (")),
        one_line(lit("-(")),
        one_line(lit(".f")),
        one_line(lit(": ")),
        one_line(lit(": Meta;")),
        one_line(lit(": array<")),
        one_line(lit(": u32,")),
        one_line(lit(";")),
        one_line(lit("; v")),
        one_line(lit(">;")),
        one_line(lit("@builtin(global_invocation_id) gid: vec3<u32>,")),
        one_line(lit("@builtin(local_invocation_id) lid: vec3<u32>,")),
        one_line(lit("@builtin(workgroup_id) bid: vec3<u32>,")),
        one_line(lit("@compute @workgroup_size(")),
        one_line(lit("@group(0) @binding(")),
        one_line(lit("[")),
        one_line(lit("]")),
        one_line(lit("] *= ")),
        one_line(lit("] += ")),
        one_line(lit("] -= ")),
        one_line(lit("] /= ")),
        one_line(lit("] <<= ")),
        one_line(lit("] = ")),
        one_line(lit("] >>= ")),
        one_line(lit("abs(")),
        one_line(lit("bid.")),
        one_line(lit("break;")),
        one_line(lit("continue;")),
        one_line(lit("d")),
        one_line(lit("else {")),
        one_line(lit("enable f16;")),
        one_line(lit("exp(")),
        one_line(lit("f")),
        one_line(lit("f0: f32,")),
        one_line(lit("f16(")),
        one_line(lit("f32(")),
        one_line(lit("f64(")),
        one_line(lit("fma(")),
        one_line(lit("fn main(")),
        one_line(lit("for (; v")),
        one_line(lit("gid.")),
        one_line(lit("h")),
        one_line(lit("i32(")),
        one_line(lit("if (")),
        one_line(lit("lid.")),
        one_line(lit("log(")),
        one_line(lit("loop {")),
        one_line(lit("max(")),
        one_line(lit("min(")),
        one_line(lit("param")),
        one_line(lit("pow(")),
        one_line(lit("return;")),
        one_line(lit("select(")),
        one_line(lit("shared")),
        one_line(lit("sqrt(")),
        one_line(lit("struct Meta {")),
        one_line(lit("tanh(")),
        one_line(lit("u")),
        one_line(lit("u32(")),
        one_line(lit("v")),
        one_line(lit("var<workgroup> shared")),
        one_line(lit("workgroupBarrier();")),
        one_line(lit("{")),
        one_line(lit("}")),
        one_line(lit("var<storage, read>")),
        one_line(lit("var<storage, read_write>")),
        one_line(lit("var<uniform>")),
        one_line(lit("const v")),
        one_line(lit("let v")),
        one_line(lit("var v")),
        one_line(lit(" ")),
{
    lemma_pieces_one_line_a();
    lemma_pieces_one_line_b();
    lemma_pieces_one_line_c();
    lemma_pieces_one_line_d();
    lemma_pieces_one_line_e();
    lemma_pieces_one_line_f();
    lemma_pieces_one_line_g();
}

#[verifier::spinoff_prover]
#[verifier::rlimit(100)]
proof fn lemma_op_text_one_line_a(k: RawKernel, op: Op, bound: nat)
    requires
        op_group(op) == 0,
        forall|v: ValueId| one_line_res(#[trigger] wgsl_sub(k, v, bound)),
        forall|v: ValueId| one_line_res(#[trigger] wgsl_def_below(k, v, bound)),
    ensures
        one_line_res(wgsl_op(k, op, bound)),
{
    broadcast use lemma_one_line_cat, lemma_one_line_res_cat;
    reveal(wgsl_op_text);
    lemma_pieces_one_line();
    lemma_numbers_one_line();
    lemma_one_line_basics();
    assert(wgsl_op(k, op, bound) == wgsl_op_text(k, op, |v: ValueId| wgsl_sub(k, v, bound), |v: ValueId| wgsl_def_below(k, v, bound)));
    match op {
        Op::Nop { .. } => {},
        Op::DefineVar { .. } => {},
        Op::OverwriteVar { .. } => {},
        Op::AddAssign { .. } => {},
        Op::MulAssign { .. } => {},
        Op::DivAssign { .. } => {},
        Op::SubAssign { .. } => {},
        Op::ShlAssign { .. } => {},
        Op::ShrAssign { .. } => {},
        Op::CopyVar { .. } => {},
        Op::ForLoopBegin { .. } => {},
        Op::ForeverLoopBegin { .. } => {},
        Op::Continue { .. } => {},
        Op::Break { .. } => {},
        Op::IfBegin { .. } => {},
        Op::ElseBegin { .. } => {},
        Op::StartScope { .. } => {},
        Op::EndScope { .. } => {},
        Op::Barrier { .. } => {},
        Op::Return { .. } => {},
        _ => {},
    }
}

#[verifier::spinoff_prover]
#[verifier::rlimit(100)]
proof fn lemma_op_text_one_line_b(k: RawKernel, op: Op, bound: nat)
    requires
        op_group(op) == 1,
        forall|v: ValueId| one_line_res(#[trigger] wgsl_sub(k, v, bound)),
        forall|v: ValueId| one_line_res(#[trigger] wgsl_def_below(k, v, bound)),
    ensures
        one_line_res(wgsl_op(k, op, bound)),
{
    broadcast use lemma_one_line_cat, lemma_one_line_res_cat;
    reveal(wgsl_op_text);
    lemma_pieces_one_line();
    lemma_numbers_one_line();
    lemma_one_line_basics();
    assert(wgsl_op(k, op, bound) == wgsl_op_text(k, op, |v: ValueId| wgsl_sub(k, v, bound), |v: ValueId| wgsl_def_below(k, v, bound)));
    match op {
        Op::ConstF64 { .. } => {},
        Op::ConstF32 { .. } => {},
        Op::ConstF16 { .. } => {},
        Op::ConstBf16 { .. } => {},
        Op::ConstU32 { .. } => {},
        Op::ConstI32 { .. } => {},
        Op::ReadMeta { .. } => {},
        Op::LocalId { .. } => {},
        Op::BlockId { .. } => {},
        Op::GlobalId { .. } => {},
        Op::CastF64 { .. } => {},
        Op::CastF32 { .. } => {},
        Op::CastF16 { .. } => {},
        Op::CastBF16 { .. } => {},
        Op::CastU32 { .. } => {},
        Op::CastI32 { .. } => {},
        _ => {},
    }
}

#[verifier::spinoff_prover]
#[verifier::rlimit(100)]
proof fn lemma_op_text_one_line_c(k: RawKernel, op: Op, bound: nat)
    requires
        op_group(op) == 2,
        forall|v: ValueId| one_line_res(#[trigger] wgsl_sub(k, v, bound)),
        forall|v: ValueId| one_line_res(#[trigger] wgsl_def_below(k, v, bound)),
    ensures
        one_line_res(wgsl_op(k, op, bound)),
{
    broadcast use lemma_one_line_cat, lemma_one_line_res_cat;
    reveal(wgsl_op_text);
    lemma_pieces_one_line();
    lemma_numbers_one_line();
    lemma_one_line_basics();
    assert(wgsl_op(k, op, bound) == wgsl_op_text(k, op, |v: ValueId| wgsl_sub(k, v, bound), |v: ValueId| wgsl_def_below(k, v, bound)));
    match op {
        Op::Add { .. } => {},
        Op::Sub { .. } => {},
        Op::Mul { .. } => {},
        Op::Div { .. } => {},
        Op::Mod { .. } => {},
        Op::Pow { .. } => {},
        Op::Shl { .. } => {},
        Op::Shr { .. } => {},
        Op::Fma { .. } => {},
        Op::Exp { .. } => {},
        Op::Abs { .. } => {},
        Op::Neg { .. } => {},
        Op::Log { .. } => {},
        Op::Tanh { .. } => {},
        Op::Sqrt { .. } => {},
        Op::Eq { .. } => {},
        Op::Ne { .. } => {},
        Op::Lt { .. } => {},
        Op::Gt { .. } => {},
        Op::Le { .. } => {},
        Op::Ge { .. } => {},
        Op::Not { .. } => {},
        Op::Max { .. } => {},
        Op::Min { .. } => {},
        Op::Select { .. } => {},
        _ => {},
    }
}

#[verifier::spinoff_prover]
#[verifier::rlimit(100)]
proof fn lemma_op_text_one_line_d(k: RawKernel, op: Op, bound: nat)
    requires
        op_group(op) == 3,
        forall|v: ValueId| one_line_res(#[trigger] wgsl_sub(k, v, bound)),
        forall|v: ValueId| one_line_res(#[trigger] wgsl_def_below(k, v, bound)),
    ensures
        one_line_res(wgsl_op(k, op, bound)),
{
    broadcast use lemma_one_line_cat, lemma_one_line_res_cat;
    reveal(wgsl_op_text);
    lemma_pieces_one_line();
    lemma_numbers_one_line();
    lemma_one_line_basics();
    assert(wgsl_op(k, op, bound) == wgsl_op_text(k, op, |v: ValueId| wgsl_sub(k, v, bound), |v: ValueId| wgsl_def_below(k, v, bound)));
    match op {
        Op::ParamLoad { .. } => {},
        Op::ParamStore { .. } => {},
        Op::ParamAccum { .. } => {},
        Op::ParamMul { .. } => {},
        Op::ParamDiv { .. } => {},
        Op::ParamSub { .. } => {},
        Op::ParamShl { .. } => {},
        Op::ParamShr { .. } => {},
        Op::SharedLoad { .. } => {},
        Op::SharedStore { .. } => {},
        Op::SharedAccum { .. } => {},
        Op::SharedMul { .. } => {},
        Op::SharedDiv { .. } => {},
        Op::SharedSub { .. } => {},
        Op::SharedShl { .. } => {},
        Op::SharedShr { .. } => {},
        _ => {},
    }
}

/// An instruction's text is on one line where the texts of the values it
/// uses and the declarations it makes are.
proof fn lemma_op_text_one_line(k: RawKernel, op: Op, bound: nat)
    requires
        forall|v: ValueId| one_line_res(#[trigger] wgsl_sub(k, v, bound)),
        forall|v: ValueId| one_line_res(#[trigger] wgsl_def_below(k, v, bound)),
    ensures
        one_line_res(wgsl_op(k, op, bound)),
{
    if op_group(op) == 0 {
        lemma_op_text_one_line_a(k, op, bound);
    } else if op_group(op) == 1 {
        lemma_op_text_one_line_b(k, op, bound);
    } else if op_group(op) == 2 {
        lemma_op_text_one_line_c(k, op, bound);
    } else {
        lemma_op_text_one_line_d(k, op, bound);
    }
}

/// The WGSL text of a value where it is used is on one line.
proof fn lemma_val_one_line(k: RawKernel, x: nat)
    ensures
        one_line_res(wgsl_val(k, x)),
    decreases x, 3nat,
{
    broadcast use lemma_one_line_cat;
    lemma_pieces_one_line();
    lemma_numbers_one_line();
    lemma_one_line_basics();
    if x < k.values@.len() {
        if let Some(op) = k.values@[x as int].init {
            lemma_op_one_line(k, op, x);
        }
    }
}

/// The WGSL declaration of a value is on one line.
proof fn lemma_def_one_line(k: RawKernel, x: nat)
    ensures
        one_line_res(wgsl_def(k, x)),
    decreases x, 3nat,
{
    broadcast use lemma_one_line_cat, lemma_one_line_res_cat;
    lemma_pieces_one_line();
    lemma_numbers_one_line();
    lemma_one_line_basics();
    if x < k.values@.len() {
        let v = k.values@[x as int];
        if let Some(op) = v.init {
            lemma_op_one_line(k, op, x);
        }
    }
}

/// The WGSL text of an instruction is on one line.
proof fn lemma_op_one_line(k: RawKernel, op: Op, bound: nat)
    ensures
        one_line_res(wgsl_op(k, op, bound)),
    decreases bound, 2nat,
{
    assert forall|v: ValueId| one_line_res(#[trigger] wgsl_sub(k, v, bound)) by {
        if v.0 < bound {
            lemma_val_one_line(k, v.0 as nat);
        }
        lemma_one_line_basics();
    }
    assert forall|v: ValueId| one_line_res(#[trigger] wgsl_def_below(k, v, bound)) by {
        if v.0 < bound {
            lemma_def_one_line(k, v.0 as nat);
        }
        lemma_one_line_basics();
    }
    lemma_op_text_one_line(k, op, bound);
}

/// The compact lines of instructions are on one line.
proof fn lemma_compact_lines(k: RawKernel, ops: Seq<Op>)
    ensures
        one_line_res(wgsl_lines(k, ops, false)),
    decreases ops.len(),
{
    broadcast use lemma_one_line_cat, lemma_one_line_res_cat;
    lemma_pieces_one_line();
    lemma_one_line_basics();
    if ops.len() > 0 {
        lemma_compact_lines(k, ops.drop_last());
        lemma_op_one_line(k, ops.last(), k.values@.len() as nat);
    }
}

proof fn lemma_compact_meta_fields(n: nat)
    ensures
        one_line(wgsl_meta_fields(false, n)),
    decreases n,
{
    broadcast use lemma_one_line_cat;
    lemma_pieces_one_line();
    lemma_numbers_one_line();
    lemma_one_line_basics();
    if n > 1 {
        lemma_compact_meta_fields((n - 1) as nat);
    }
}

proof fn lemma_compact_params(ps: Seq<Param>)
    ensures
        one_line_res(wgsl_params(false, ps)),
    decreases ps.len(),
{
    broadcast use lemma_one_line_cat, lemma_one_line_res_cat;
    lemma_pieces_one_line();
    lemma_numbers_one_line();
    lemma_one_line_basics();
    if ps.len() > 0 {
        lemma_compact_params(ps.drop_last());
        let p = ps.last();
        assert(one_line(lit(wgsl_var_type(p.ty))));
        assert(one_line_res(wgsl_name_toks(p.dtype)));
        assert(one_line_res(wgsl_param(false, p)));
    }
}

proof fn lemma_compact_shareds(ss: Seq<SharedAlloc>)
    ensures
        one_line_res(wgsl_shareds(false, ss)),
    decreases ss.len(),
{
    broadcast use lemma_one_line_cat, lemma_one_line_res_cat;
    lemma_pieces_one_line();
    lemma_numbers_one_line();
    lemma_one_line_basics();
    if ss.len() > 0 {
        lemma_compact_shareds(ss.drop_last());
        assert(one_line_res(wgsl_name_toks(ss.last().dtype)));
    }
}

/// The compact WGSL source of a kernel is on one line.
proof fn lemma_compact_source(k: RawKernel, ps: Seq<Param>)
    ensures
        one_line_res(wgsl_source(k, ps, false)),
{
    broadcast use lemma_one_line_cat, lemma_one_line_res_cat;
    lemma_pieces_one_line();
    lemma_numbers_one_line();
    lemma_compact_meta_fields(k.meta.fields as nat);
    lemma_compact_params(ps);
    lemma_compact_shareds(k.shared@);
    lemma_compact_lines(k, k.ops@);
    assert(one_line(wgsl_meta_struct(k.meta.fields as nat, false)));
    assert(one_line_res(wgsl_bindings(k, ps, false)));
    assert(one_line(wgsl_entry_head(k, false)));
    assert(one_line_res(wgsl_entry(k, false)));
}

/// Laid out for reading or compactly, the WGSL source of a kernel is the
/// same code: both fail with the same error, or both succeed and differ in
/// spaces and line breaks alone; the compact source holds no line break.
/// Either way the source begins with the `enable f16;` directive.
pub proof fn law_layout_only(k: RawKernel, ps: Seq<Param>)
    ensures
        same_code(wgsl_source(k, ps, true), wgsl_source(k, ps, false)),
        one_line_res(wgsl_source(k, ps, false)),
        forall|pretty_print: bool| #[trigger] wgsl_source(k, ps, pretty_print) is Ok
            ==> wgsl_source(k, ps, pretty_print)->Ok_0.subrange(0, lit("enable f16;").len() as int) == lit("enable f16;"),
{
    lemma_bindings_layout(k, ps);
    lemma_entry_layout(k);
    lemma_compact_source(k, ps);
    lemma_blanks(0);
    let d1 = Ok::<Seq<Tok>, Error<()>>(lit("enable f16;") + nl(true, 0));
    let d2 = Ok::<Seq<Tok>, Error<()>>(lit("enable f16;") + nl(false, 0));
    assert(same_code(d1, d2)) by {
        broadcast use lemma_squeeze_cat;
    }
    lemma_same_cat(d1, wgsl_bindings(k, ps, true), d2, wgsl_bindings(k, ps, false));
    lemma_same_cat(cat(d1, wgsl_bindings(k, ps, true)), cat(Ok(nl(true, 0)), wgsl_entry(k, true)),
        cat(d2, wgsl_bindings(k, ps, false)), cat(Ok(nl(false, 0)), wgsl_entry(k, false)));
    lemma_source_head(k, ps, true);
    lemma_source_head(k, ps, false);
    assert forall|pretty_print: bool| #[trigger] wgsl_source(k, ps, pretty_print) is Ok
        implies wgsl_source(k, ps, pretty_print)->Ok_0.subrange(0, lit("enable f16;").len() as int) == lit("enable f16;") by {
        lemma_source_head(k, ps, pretty_print);
    }
}

} // verus!
