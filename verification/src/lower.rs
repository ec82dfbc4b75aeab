//! Lowering of graph operations into kernel instructions.

use vstd::prelude::*;
use crate::dtype::{Axis, DType, SimpleDType};
use crate::errors::{err, make_err, Error, ErrorKind};
use crate::graph::{well_linked, BinaryOp, Graph, GraphOp, OptimType};
use crate::id::{MetaId, NodeId, ParamId, ValueId};
use crate::kernel::{same_frame, zero_const, zero_constant, Kernel, LinkedKernel, Metadata, Param, ParamTy, RawKernel, Value, ValueState};
use crate::ops::Op;
use crate::hip::{hip_ops_ok, hip_ready, hip_scopes_ok, lemma_ready_ops};
use crate::kernel::{is_scope_op, lookups_below, well_formed};
use crate::wgsl::{wgsl_ready, wgsl_scopes_ok};

verus! {

/// The instructions of a stochastic-gradient-descent step on value
/// `gid` of the weights, from value `first` on: load the gradient, scale it
/// by the learning rate, subtract it from the weight, and clear the
/// gradient.
pub open spec fn sgd_ops(weight: ParamId, grad: ParamId, gid: ValueId, first: nat) -> Seq<Op> {
    seq![
        Op::DefineVar { id: ValueId(first as usize) },
        Op::DefineVar { id: ValueId((first + 1) as usize) },
        Op::DefineVar { id: ValueId((first + 2) as usize) },
        Op::ParamSub { param: weight, index: gid, value: ValueId((first + 1) as usize) },
        Op::ParamStore { param: grad, index: gid, value: ValueId((first + 2) as usize) },
    ]
}

/// The values a stochastic-gradient-descent step defines, from value
/// `first` on.
pub open spec fn sgd_values(dtype: DType, lr: ValueId, grad: ParamId, gid: ValueId, first: nat, zero: Op) -> Seq<Value> {
    seq![
        Value { dtype, state: ValueState::Immut, init: Some(Op::ParamLoad { param: grad, index: gid }) },
        Value { dtype, state: ValueState::Immut, init: Some(Op::Mul { a: ValueId(first as usize), b: lr }) },
        Value { dtype, state: ValueState::Inline, init: Some(zero) },
    ]
}

/// Appends a stochastic-gradient-descent step: the weight at `gid` loses
/// the gradient scaled by the learning rate `lr`, and the gradient is
/// cleared. Fails, after defining the gradient and its scaled copy, where
/// the type has no zero constant.
pub fn lower_sgd(
    kernel: &mut RawKernel,
    dtype: DType,
    lr: ValueId,
    weight: ParamId,
    grad: ParamId,
    gid: ValueId,
) -> (r: Result<(), Error<()>>)
    ensures
        same_frame(*old(kernel), *final(kernel)),
        match zero_const(dtype) {
            Ok(zero) => r is Ok
                && final(kernel).values@ == old(kernel).values@ + sgd_values(dtype, lr, grad, gid, old(kernel).values@.len(), zero)
                && final(kernel).ops@ == old(kernel).ops@ + sgd_ops(weight, grad, gid, old(kernel).values@.len()),
            Err(e) => r == Err::<(), Error<()>>(e)
                && final(kernel).values@ == old(kernel).values@ + sgd_values(dtype, lr, grad, gid, old(kernel).values@.len(), Op::Nop).take(2)
                && final(kernel).ops@ == old(kernel).ops@ + sgd_ops(weight, grad, gid, old(kernel).values@.len()).take(2),
        },
{
    let ghost first = old(kernel).values@.len();
    let g = kernel.def_var(dtype, ValueState::Immut, Some(Op::ParamLoad { param: grad, index: gid }));
    let scaled = kernel.def_var(dtype, ValueState::Immut, Some(Op::Mul { a: g, b: lr }));
    let zero = match zero_constant(dtype) {
        Ok(z) => z,
        Err(e) => {
            proof {
                assert(kernel.values@ =~= old(kernel).values@ + sgd_values(dtype, lr, grad, gid, first, Op::Nop).take(2));
                assert(kernel.ops@ =~= old(kernel).ops@ + sgd_ops(weight, grad, gid, first).take(2));
            }
            return Err(e);
        },
    };
    let z = kernel.def_var(dtype, ValueState::Inline, Some(zero));
    kernel.param_sub(weight, gid, scaled);
    kernel.param_store(grad, gid, z);
    proof {
        assert(kernel.values@ =~= old(kernel).values@ + sgd_values(dtype, lr, grad, gid, first, zero));
        assert(kernel.ops@ =~= old(kernel).ops@ + sgd_ops(weight, grad, gid, first));
    }
    Ok(())
}

/// What reading a node's saved forward value defines: a load of its
/// parameter where it was saved, else the zero of its type.
pub open spec fn saved_value(index: ValueId, param: Option<ParamId>, graph: Graph, node_id: NodeId, params: Seq<Param>) -> Result<Value, Error<()>> {
    match param {
        Some(pid) => Ok(Value {
            dtype: DType::Simple(params[pid.0 as int].dtype),
            state: ValueState::Immut,
            init: Some(Op::ParamLoad { param: pid, index }),
        }),
        None => match zero_const(graph.nodes@[node_id.0 as int].dtype) {
            Ok(zero) => Ok(Value { dtype: graph.nodes@[node_id.0 as int].dtype, state: ValueState::Inline, init: Some(zero) }),
            Err(e) => Err(e),
        },
    }
}

/// Defines a value holding a node's forward result at `index`: loaded from
/// the parameter it was saved to, which the kernel then uses, or zero where
/// it was not saved.
pub fn read_saved(
    kernel: &mut LinkedKernel,
    index: ValueId,
    param: Option<ParamId>,
    graph: &Graph,
    node_id: NodeId,
    params: &[Param],
) -> (r: Result<ValueId, Error<()>>)
    requires
        node_id.0 < graph.nodes@.len(),
        param matches Some(pid) ==> pid.0 < params@.len() && pid.0 < old(kernel).params@.len(),
    ensures
        same_frame(old(kernel).raw, final(kernel).raw),
        final(kernel).params@ == match param {
            Some(pid) => old(kernel).params@.update(pid.0 as int, true),
            None => old(kernel).params@,
        },
        match saved_value(index, param, *graph, node_id, params@) {
            Ok(v) => r == Ok::<ValueId, Error<()>>(ValueId(old(kernel).raw.values@.len() as usize))
                && final(kernel).raw.values@ == old(kernel).raw.values@.push(v)
                && final(kernel).raw.ops@ == old(kernel).raw.ops@.push(Op::DefineVar { id: ValueId(old(kernel).raw.values@.len() as usize) }),
            Err(e) => r == Err::<ValueId, Error<()>>(e) && final(kernel).raw == old(kernel).raw,
        },
{
    match param {
        Some(pid) => {
            kernel.register_param(pid);
            let dtype = DType::Simple(params[pid.0].dtype);
            Ok(kernel.raw.def_var(dtype, ValueState::Immut, Some(Op::ParamLoad { param: pid, index })))
        },
        None => {
            let dtype = graph.nodes[node_id.0].dtype;
            let zero = match zero_constant(dtype) {
                Ok(z) => z,
                Err(e) => {
                    return Err(e);
                },
            };
            Ok(kernel.raw.def_var(dtype, ValueState::Inline, Some(zero)))
        },
    }
}

/// Which node a lowering step evaluates or reads.
#[derive(Debug, Clone, Copy, PartialEq, Eq, Hash, Structural)]
pub enum Operand {
    /// The first input of the node.
    Lhs,
    /// The second input of the node.
    Rhs,
    /// The node itself: its gradient, in a backward pass.
    Own,
}

/// A named value of a binary operation's lowering.
#[derive(Debug, Clone, Copy, PartialEq, Eq, Hash, Structural)]
pub enum Slot {
    A,
    B,
    G,
    Saved,
    Saved2,
    Square,
    NegG,
    Ratio,
}

/// An expression over named values.
#[derive(Debug, Clone, Copy, PartialEq, Eq, Hash, Structural)]
pub enum Expr {
    Add(Slot, Slot),
    Sub(Slot, Slot),
    Mul(Slot, Slot),
    Div(Slot, Slot),
    Neg(Slot),
}

/// Where an evaluation writes.
#[derive(Debug, Clone, Copy, PartialEq, Eq, Hash, Structural)]
pub enum Target {
    Out,
    To(Slot),
}

/// One step of a binary operation's lowering.
#[derive(Debug, Clone, Copy, PartialEq, Eq, Hash, Structural)]
pub enum Step {
    /// Defines a mutable value, zero where `zero` is set.
    Define { slot: Slot, zero: bool },
    /// Lowers the evaluation of an operand into a value.
    Eval { input: Operand, into: Target },
    /// Reads an operand's saved forward value.
    ReadSaved { of: Operand, into: Slot },
    /// Defines a value written in place as an expression.
    Inline { slot: Slot, expr: Expr },
    /// Sets the output to an expression.
    Overwrite { expr: Expr },
    /// Adds an expression to the output.
    Accum { expr: Expr },
}

/// The expression of a binary operator on two values.
pub open spec fn apply(op: BinaryOp, a: Slot, b: Slot) -> Expr {
    match op {
        BinaryOp::Add => Expr::Add(a, b),
        BinaryOp::Sub => Expr::Sub(a, b),
        BinaryOp::Mul => Expr::Mul(a, b),
        BinaryOp::Div => Expr::Div(a, b),
    }
}

/// The error for a pass that does not name an input of the node.
pub open spec fn backwardness_err() -> Error<()> {
    err("backwardness must be restricted to input count", ErrorKind::UnresolvedInput)
}

/// How a binary operation is lowered: forward (`None`), its result from
/// its two operands; backward through input `i` (`Some(i)`), that input's
/// share of the gradient.
///
/// - `a + b`: both inputs receive the gradient unchanged.
/// - `a - b`: `a` receives the gradient, `b` its negation.
/// - `a * b`: each input receives the gradient times the other input.
/// - `a / b`: `a` receives the gradient divided by `b`; `b` receives
///   `-g * (a / (b * b))`.
pub open spec fn binary_plan_spec(op: BinaryOp, backwardness: Option<u8>) -> Result<Seq<Step>, Error<()>> {
    match backwardness {
        None => Ok(seq![
            Step::Define { slot: Slot::A, zero: false },
            Step::Eval { input: Operand::Lhs, into: Target::To(Slot::A) },
            Step::Define { slot: Slot::B, zero: false },
            Step::Eval { input: Operand::Rhs, into: Target::To(Slot::B) },
            Step::Overwrite { expr: apply(op, Slot::A, Slot::B) },
        ]),
        Some(i) => if i > 1 {
            Err(backwardness_err())
        } else {
            match op {
                BinaryOp::Add => Ok(seq![Step::Eval { input: Operand::Own, into: Target::Out }]),
                BinaryOp::Sub => if i == 0 {
                    Ok(seq![Step::Eval { input: Operand::Own, into: Target::Out }])
                } else {
                    Ok(seq![
                        Step::Define { slot: Slot::G, zero: true },
                        Step::Eval { input: Operand::Own, into: Target::To(Slot::G) },
                        Step::Accum { expr: Expr::Neg(Slot::G) },
                    ])
                },
                BinaryOp::Mul => Ok(seq![
                    Step::Define { slot: Slot::G, zero: true },
                    Step::Eval { input: Operand::Own, into: Target::To(Slot::G) },
                    Step::ReadSaved { of: if i == 0 { Operand::Rhs } else { Operand::Lhs }, into: Slot::Saved },
                    Step::Accum { expr: Expr::Mul(Slot::G, Slot::Saved) },
                ]),
                BinaryOp::Div => if i == 0 {
                    Ok(seq![
                        Step::Define { slot: Slot::G, zero: true },
                        Step::Eval { input: Operand::Own, into: Target::To(Slot::G) },
                        Step::ReadSaved { of: Operand::Rhs, into: Slot::Saved },
                        Step::Accum { expr: Expr::Div(Slot::G, Slot::Saved) },
                    ])
                } else {
                    Ok(seq![
                        Step::Define { slot: Slot::G, zero: true },
                        Step::Eval { input: Operand::Own, into: Target::To(Slot::G) },
                        Step::ReadSaved { of: Operand::Lhs, into: Slot::Saved },
                        Step::ReadSaved { of: Operand::Rhs, into: Slot::Saved2 },
                        Step::Inline { slot: Slot::Square, expr: Expr::Mul(Slot::Saved2, Slot::Saved2) },
                        Step::Inline { slot: Slot::NegG, expr: Expr::Neg(Slot::G) },
                        Step::Inline { slot: Slot::Ratio, expr: Expr::Div(Slot::Saved, Slot::Square) },
                        Step::Accum { expr: Expr::Mul(Slot::NegG, Slot::Ratio) },
                    ])
                },
            }
        },
    }
}

/// The lowering steps of a binary operation for a pass; fails for a
/// backward pass through an input the operation does not have.
pub fn binary_plan(op: BinaryOp, backwardness: Option<u8>) -> (r: Result<Vec<Step>, Error<()>>)
    ensures
        match (r, binary_plan_spec(op, backwardness)) {
            (Ok(v), Ok(s)) => v@ == s,
            (Err(e), Err(f)) => e == f,
            _ => false,
        },
{
    let expr = match op {
        BinaryOp::Add => Expr::Add(Slot::A, Slot::B),
        BinaryOp::Sub => Expr::Sub(Slot::A, Slot::B),
        BinaryOp::Mul => Expr::Mul(Slot::A, Slot::B),
        BinaryOp::Div => Expr::Div(Slot::A, Slot::B),
    };
    let v = match backwardness {
        None => vec![
            Step::Define { slot: Slot::A, zero: false },
            Step::Eval { input: Operand::Lhs, into: Target::To(Slot::A) },
            Step::Define { slot: Slot::B, zero: false },
            Step::Eval { input: Operand::Rhs, into: Target::To(Slot::B) },
            Step::Overwrite { expr },
        ],
        Some(i) => {
            if i > 1 {
                return Err(make_err("backwardness must be restricted to input count", ErrorKind::UnresolvedInput));
            }
            match op {
                BinaryOp::Add => vec![Step::Eval { input: Operand::Own, into: Target::Out }],
                BinaryOp::Sub => if i == 0 {
                    vec![Step::Eval { input: Operand::Own, into: Target::Out }]
                } else {
                    vec![
                        Step::Define { slot: Slot::G, zero: true },
                        Step::Eval { input: Operand::Own, into: Target::To(Slot::G) },
                        Step::Accum { expr: Expr::Neg(Slot::G) },
                    ]
                },
                BinaryOp::Mul => vec![
                    Step::Define { slot: Slot::G, zero: true },
                    Step::Eval { input: Operand::Own, into: Target::To(Slot::G) },
                    Step::ReadSaved { of: if i == 0 { Operand::Rhs } else { Operand::Lhs }, into: Slot::Saved },
                    Step::Accum { expr: Expr::Mul(Slot::G, Slot::Saved) },
                ],
                BinaryOp::Div => if i == 0 {
                    vec![
                        Step::Define { slot: Slot::G, zero: true },
                        Step::Eval { input: Operand::Own, into: Target::To(Slot::G) },
                        Step::ReadSaved { of: Operand::Rhs, into: Slot::Saved },
                        Step::Accum { expr: Expr::Div(Slot::G, Slot::Saved) },
                    ]
                } else {
                    vec![
                        Step::Define { slot: Slot::G, zero: true },
                        Step::Eval { input: Operand::Own, into: Target::To(Slot::G) },
                        Step::ReadSaved { of: Operand::Lhs, into: Slot::Saved },
                        Step::ReadSaved { of: Operand::Rhs, into: Slot::Saved2 },
                        Step::Inline { slot: Slot::Square, expr: Expr::Mul(Slot::Saved2, Slot::Saved2) },
                        Step::Inline { slot: Slot::NegG, expr: Expr::Neg(Slot::G) },
                        Step::Inline { slot: Slot::Ratio, expr: Expr::Div(Slot::Saved, Slot::Square) },
                        Step::Accum { expr: Expr::Mul(Slot::NegG, Slot::Ratio) },
                    ]
                },
            }
        },
    };
    proof {
        assert(v@ =~= binary_plan_spec(op, backwardness).unwrap());
    }
    Ok(v)
}

/// One call of a node evaluator: the node it lowered, the value it wrote
/// and what it returned.
pub struct EvalCall {
    pub node: NodeId,
    pub out: ValueId,
    pub result: Result<Vec<NodeId>, Error<()>>,
}

/// Lowers the evaluation of a node of a graph into a kernel value. The
/// graph compiler implements it: it resolves inputs, parameters and fusion
/// while it walks the graph.
///
/// An implementation keeps the log `calls` of the evaluations it made:
/// each call of `eval_node` appends one entry and changes nothing else of
/// the log. What an evaluation writes into the kernel is left to the
/// implementation.
pub trait EvalNode {
    /// The evaluations made so far, oldest first.
    spec fn calls(&self) -> Seq<EvalCall>;

    /// Lowers the evaluation of `node` into the value `out` of the kernel;
    /// returns the deepest nodes the evaluation reached.
    fn eval_node(&mut self, kernel: &mut LinkedKernel, node: NodeId, out: ValueId) -> (r: Result<Vec<NodeId>, Error<()>>)
        ensures
            final(self).calls() == old(self).calls().push((EvalCall { node, out, result: r })),
    ;
}

/// The deepest nodes reported by a run of evaluations, in order.
pub open spec fn gathered(cs: Seq<EvalCall>) -> Seq<NodeId>
    decreases cs.len(),
{
    if cs.len() == 0 {
        Seq::empty()
    } else {
        gathered(cs.drop_last()) + match cs.last().result {
            Ok(v) => v@,
            Err(_) => Seq::empty(),
        }
    }
}

/// The node an operand of a binary node names.
pub open spec fn operand_node(graph: Graph, node_id: NodeId, o: Operand) -> NodeId {
    match o {
        Operand::Lhs => graph.nodes@[node_id.0 as int].inputs@[0],
        Operand::Rhs => graph.nodes@[node_id.0 as int].inputs@[1],
        Operand::Own => node_id,
    }
}

/// `k1` is `k0` with one more value `v`, defined by one more instruction.
pub open spec fn defines(k0: LinkedKernel, k1: LinkedKernel, v: Value) -> bool {
    &&& k1.raw.values@ == k0.raw.values@.push(v)
    &&& k1.raw.ops@ == k0.raw.ops@.push(Op::DefineVar { id: ValueId(k0.raw.values@.len() as usize) })
    &&& same_frame(k0.raw, k1.raw)
    &&& k1.params@ == k0.params@
}

/// `k1` is `k0` where the output `out` is set (`accum` false) or added to
/// (`accum` true) by an expression written in place as a new value.
pub open spec fn writes_output(k0: LinkedKernel, k1: LinkedKernel, out: ValueId, op: Op, accum: bool) -> bool {
    let fresh = ValueId(k0.raw.values@.len() as usize);
    &&& k1.raw.values@ == k0.raw.values@.push(
        Value { dtype: k0.raw.values@[out.0 as int].dtype, state: ValueState::Inline, init: Some(op) },
    )
    &&& k1.raw.ops@ == k0.raw.ops@ + seq![
        Op::DefineVar { id: fresh },
        if accum { Op::AddAssign { id: out, val: fresh } } else { Op::OverwriteVar { id: out, val: fresh } },
    ]
    &&& same_frame(k0.raw, k1.raw)
    &&& k1.params@ == k0.params@
}

/// The effect of writing an expression to the output; fails where a name is
/// unbound or the output is not a value of the kernel.
pub open spec fn output_step(
    out: ValueId, expr: Expr, accum: bool,
    k0: LinkedKernel, s0: Seq<Option<ValueId>>, c0: Seq<EvalCall>,
    k1: LinkedKernel, s1: Seq<Option<ValueId>>, c1: Seq<EvalCall>, e: Option<Error<()>>,
) -> bool {
    match expr_op_spec(s0, expr) {
        Err(x) => e == Some(x) && k1 == k0 && c1 == c0,
        Ok(op) => if out.0 >= k0.raw.values@.len() {
            e == Some(lost_value_err()) && k1 == k0 && c1 == c0
        } else {
            e is None && c1 == c0 && s1 == s0 && writes_output(k0, k1, out, op, accum)
        },
    }
}

/// What one lowering step of binary node `node_id` does: from kernel `k0`,
/// names bound as `s0` and evaluator log `c0` to `k1`, `s1` and `c1`. `e`
/// is the error the step fails with, `None` where it succeeds; a failed
/// step leaves the kernel and log as they were, but for an evaluation,
/// which is logged and may have written into the kernel.
pub open spec fn step_rel(
    graph: Graph, node_id: NodeId, out: ValueId, idx: ValueId,
    saved: Seq<Option<ParamId>>, params: Seq<Param>, step: Step,
    k0: LinkedKernel, s0: Seq<Option<ValueId>>, c0: Seq<EvalCall>,
    k1: LinkedKernel, s1: Seq<Option<ValueId>>, c1: Seq<EvalCall>, e: Option<Error<()>>,
) -> bool {
    let dtype = graph.nodes@[node_id.0 as int].dtype;
    let fresh = ValueId(k0.raw.values@.len() as usize);
    match step {
        Step::Define { slot, zero } => {
            if zero && zero_const(dtype) is Err {
                e == Some(zero_const(dtype)->Err_0) && k1 == k0 && c1 == c0
            } else {
                let init = if zero { Some(zero_const(dtype)->Ok_0) } else { None };
                &&& e is None
                &&& c1 == c0
                &&& defines(k0, k1, Value { dtype, state: ValueState::Mut, init })
                &&& s1 == s0.update(slot_pos(slot), Some(fresh))
            }
        },
        Step::Eval { input, into } => {
            let target = match into {
                Target::Out => Ok(out),
                Target::To(sl) => bound_spec(s0, sl),
            };
            match target {
                Err(x) => e == Some(x) && k1 == k0 && c1 == c0,
                Ok(t) => {
                    &&& c1.len() == c0.len() + 1
                    &&& c1.drop_last() == c0
                    &&& c1.last().node == operand_node(graph, node_id, input)
                    &&& c1.last().out == t
                    &&& match c1.last().result {
                        Ok(_) => e is None && s1 == s0,
                        Err(x) => e == Some(x),
                    }
                },
            }
        },
        Step::ReadSaved { of, into } => {
            let n = operand_node(graph, node_id, of);
            let param = saved[n.0 as int];
            let unknown = match param {
                Some(pid) => pid.0 >= params.len() || pid.0 >= k0.params@.len(),
                None => false,
            };
            if unknown {
                e == Some(lost_value_err()) && k1 == k0 && c1 == c0
            } else {
                &&& c1 == c0
                &&& k1.params@ == match param {
                    Some(pid) => k0.params@.update(pid.0 as int, true),
                    None => k0.params@,
                }
                &&& match saved_value(idx, param, graph, n, params) {
                    Ok(v) => {
                        &&& e is None
                        &&& k1.raw.values@ == k0.raw.values@.push(v)
                        &&& k1.raw.ops@ == k0.raw.ops@.push(Op::DefineVar { id: fresh })
                        &&& same_frame(k0.raw, k1.raw)
                        &&& s1 == s0.update(slot_pos(into), Some(fresh))
                    },
                    Err(x) => e == Some(x) && k1.raw == k0.raw,
                }
            }
        },
        Step::Inline { slot, expr } => match expr_op_spec(s0, expr) {
            Err(x) => e == Some(x) && k1 == k0 && c1 == c0,
            Ok(op) => {
                &&& e is None
                &&& c1 == c0
                &&& defines(k0, k1, Value { dtype, state: ValueState::Inline, init: Some(op) })
                &&& s1 == s0.update(slot_pos(slot), Some(fresh))
            },
        },
        Step::Overwrite { expr } => output_step(out, expr, false, k0, s0, c0, k1, s1, c1, e),
        Step::Accum { expr } => output_step(out, expr, true, k0, s0, c0, k1, s1, c1, e),
    }
}

/// No name is bound before the first step.
pub open spec fn no_bindings() -> Seq<Option<ValueId>> {
    Seq::new(8, |i: int| None)
}

/// `ks`, `ss` and `cs` are the kernels, bindings and evaluator logs before
/// each of the first `ks.len() - 1` steps of `plan` and after the last of
/// them, each of which succeeded.
pub open spec fn lower_run(
    graph: Graph, node_id: NodeId, out: ValueId, idx: ValueId,
    saved: Seq<Option<ParamId>>, params: Seq<Param>, plan: Seq<Step>,
    ks: Seq<LinkedKernel>, ss: Seq<Seq<Option<ValueId>>>, cs: Seq<Seq<EvalCall>>,
) -> bool {
    &&& ks.len() >= 1
    &&& ss.len() == ks.len()
    &&& cs.len() == ks.len()
    &&& ks.len() <= plan.len() + 1
    &&& ss[0] == no_bindings()
    &&& forall|j: int| 0 <= j < ks.len() - 1 ==> #[trigger] step_rel(
        graph, node_id, out, idx, saved, params, plan[j],
        ks[j], ss[j], cs[j], ks[j + 1], ss[j + 1], cs[j + 1], None,
    )
}

/// The position of a named value among the bindings: the order in which
/// the names are declared.
pub open spec fn slot_pos(s: Slot) -> int {
    match s {
        Slot::A => 0,
        Slot::B => 1,
        Slot::G => 2,
        Slot::Saved => 3,
        Slot::Saved2 => 4,
        Slot::Square => 5,
        Slot::NegG => 6,
        Slot::Ratio => 7,
    }
}

/// The value bound to a name, or the error for a name nothing is bound to.
pub open spec fn bound_spec(slots: Seq<Option<ValueId>>, s: Slot) -> Result<ValueId, Error<()>> {
    match slots[slot_pos(s)] {
        Some(v) => Ok(v),
        None => Err(lost_value_err()),
    }
}

/// The instruction of an expression over bound values; the first operand
/// that is unbound gives the error.
pub open spec fn expr_op_spec(slots: Seq<Option<ValueId>>, e: Expr) -> Result<Op, Error<()>> {
    match e {
        Expr::Neg(x) => match bound_spec(slots, x) {
            Ok(x) => Ok(Op::Neg { x }),
            Err(err) => Err(err),
        },
        Expr::Add(a, b) | Expr::Sub(a, b) | Expr::Mul(a, b) | Expr::Div(a, b) => match bound_spec(slots, a) {
            Err(err) => Err(err),
            Ok(a) => match bound_spec(slots, b) {
                Err(err) => Err(err),
                Ok(b) => Ok(match e {
                    Expr::Add(..) => Op::Add { a, b },
                    Expr::Sub(..) => Op::Sub { a, b },
                    Expr::Mul(..) => Op::Mul { a, b },
                    _ => Op::Div { a, b },
                }),
            },
        },
    }
}

/// The position of a named value among the bindings.
fn slot_index(s: Slot) -> (i: usize)
    ensures
        i < 8,
        i == slot_pos(s),
{
    match s {
        Slot::A => 0,
        Slot::B => 1,
        Slot::G => 2,
        Slot::Saved => 3,
        Slot::Saved2 => 4,
        Slot::Square => 5,
        Slot::NegG => 6,
        Slot::Ratio => 7,
    }
}

/// The error for a value the lowering cannot find.
pub open spec fn lost_value_err() -> Error<()> {
    err("lowering lost track of a value", ErrorKind::InternalError)
}

/// The value bound to a name.
fn bound(slots: &Vec<Option<ValueId>>, s: Slot) -> (r: Result<ValueId, Error<()>>)
    requires
        slots@.len() == 8,
    ensures
        r == bound_spec(slots@, s),
{
    match slots[slot_index(s)] {
        Some(v) => Ok(v),
        None => Err(make_err("lowering lost track of a value", ErrorKind::InternalError)),
    }
}

/// The instruction of an expression over bound values.
fn expr_op(slots: &Vec<Option<ValueId>>, e: Expr) -> (r: Result<Op, Error<()>>)
    requires
        slots@.len() == 8,
    ensures
        r == expr_op_spec(slots@, e),
{
    match e {
        Expr::Add(a, b) => {
            let a = match bound(slots, a) { Ok(v) => v, Err(x) => { return Err(x); } };
            let b = match bound(slots, b) { Ok(v) => v, Err(x) => { return Err(x); } };
            Ok(Op::Add { a, b })
        },
        Expr::Sub(a, b) => {
            let a = match bound(slots, a) { Ok(v) => v, Err(x) => { return Err(x); } };
            let b = match bound(slots, b) { Ok(v) => v, Err(x) => { return Err(x); } };
            Ok(Op::Sub { a, b })
        },
        Expr::Mul(a, b) => {
            let a = match bound(slots, a) { Ok(v) => v, Err(x) => { return Err(x); } };
            let b = match bound(slots, b) { Ok(v) => v, Err(x) => { return Err(x); } };
            Ok(Op::Mul { a, b })
        },
        Expr::Div(a, b) => {
            let a = match bound(slots, a) { Ok(v) => v, Err(x) => { return Err(x); } };
            let b = match bound(slots, b) { Ok(v) => v, Err(x) => { return Err(x); } };
            Ok(Op::Div { a, b })
        },
        Expr::Neg(x) => {
            let x = match bound(slots, x) { Ok(v) => v, Err(e) => { return Err(e); } };
            Ok(Op::Neg { x })
        },
    }
}

/// Lowers a binary node of a graph for a pass into `out`: runs the steps
/// of [`binary_plan`], lowering each evaluated operand with `eval`; returns
/// the deepest nodes reached, those of the evaluations in order.
///
/// Each step does what [`step_rel`] says, in the order of the plan: the
/// forward pass evaluates the first input, then the second, into fresh
/// values and sets `out` to the operator applied to them; a backward pass
/// evaluates the node's gradient and adds its share, built from the saved
/// forward values, to `out`. The first step that fails ends the lowering
/// with its error.
pub fn lower_binary<E: EvalNode>(
    eval: &mut E,
    kernel: &mut LinkedKernel,
    graph: &Graph,
    node_id: NodeId,
    backwardness: Option<u8>,
    out: ValueId,
    idx: ValueId,
    saved_params: &[Option<ParamId>],
    params: &[Param],
) -> (r: Result<Vec<NodeId>, Error<()>>)
    requires
        well_linked(*graph),
        node_id.0 < graph.nodes@.len(),
        graph.nodes@[node_id.0 as int].op is Binary,
        saved_params@.len() == graph.nodes@.len(),
    ensures
        binary_plan_spec(graph.nodes@[node_id.0 as int].op->Binary_0, backwardness) matches Err(e)
            ==> r == Err::<Vec<NodeId>, Error<()>>(e) && *final(kernel) == *old(kernel)
                && final(eval).calls() == old(eval).calls(),
        binary_plan_spec(graph.nodes@[node_id.0 as int].op->Binary_0, backwardness) matches Ok(plan)
            ==> exists|ks: Seq<LinkedKernel>, ss: Seq<Seq<Option<ValueId>>>, cs: Seq<Seq<EvalCall>>| {
                &&& #[trigger] lower_run(*graph, node_id, out, idx, saved_params@, params@, plan, ks, ss, cs)
                &&& ks[0] == *old(kernel)
                &&& cs[0] == old(eval).calls()
                &&& match r {
                    Ok(d) => {
                        &&& ks.len() == plan.len() + 1
                        &&& ks.last() == *final(kernel)
                        &&& cs.last() == final(eval).calls()
                        &&& d@ == gathered(cs.last().skip(cs[0].len() as int))
                    },
                    Err(e) => {
                        &&& ks.len() <= plan.len()
                        &&& step_rel(*graph, node_id, out, idx, saved_params@, params@, plan[ks.len() - 1],
                            ks.last(), ss.last(), cs.last(), *final(kernel), ss.last(), final(eval).calls(), Some(e))
                    },
                }
            },
{
    let op = match graph.nodes[node_id.0].op {
        GraphOp::Binary(op) => op,
        _ => {
            return Err(make_err("lowering lost track of a value", ErrorKind::InternalError));
        },
    };
    proof {
        assert(graph.nodes@[node_id.0 as int].op->Binary_0 == op);
    }
    let plan = match binary_plan(op, backwardness) {
        Ok(p) => p,
        Err(e) => {
            return Err(e);
        },
    };
    let dtype = graph.nodes[node_id.0].dtype;
    let lhs = graph.nodes[node_id.0].inputs[0];
    let rhs = graph.nodes[node_id.0].inputs[1];
    proof {
        assert(graph.nodes@[node_id.0 as int].inputs@[0] == lhs);
        assert(graph.nodes@[node_id.0 as int].inputs@[1] == rhs);
    }
    let mut slots: Vec<Option<ValueId>> = vec![None, None, None, None, None, None, None, None];
    let mut deepest: Vec<NodeId> = Vec::new();
    let ghost c_start = eval.calls();
    let ghost mut ks: Seq<LinkedKernel> = seq![*kernel];
    let ghost mut ss: Seq<Seq<Option<ValueId>>> = seq![slots@];
    let ghost mut cs: Seq<Seq<EvalCall>> = seq![eval.calls()];
    proof {
        assert(slots@ =~= no_bindings());
        assert(cs.last().skip(c_start.len() as int) =~= Seq::<EvalCall>::empty());
    }
    let mut j: usize = 0;
    while j < plan.len()
        invariant
            slots@.len() == 8,
            lhs.0 < graph.nodes@.len(),
            rhs.0 < graph.nodes@.len(),
            lhs == graph.nodes@[node_id.0 as int].inputs@[0],
            rhs == graph.nodes@[node_id.0 as int].inputs@[1],
            dtype == graph.nodes@[node_id.0 as int].dtype,
            node_id.0 < graph.nodes@.len(),
            saved_params@.len() == graph.nodes@.len(),
            j <= plan@.len(),
            binary_plan_spec(graph.nodes@[node_id.0 as int].op->Binary_0, backwardness) == Ok::<Seq<Step>, Error<()>>(plan@),
            lower_run(*graph, node_id, out, idx, saved_params@, params@, plan@, ks, ss, cs),
            ks.len() == j + 1,
            ks[0] == *old(kernel),
            cs[0] == c_start,
            c_start == old(eval).calls(),
            ks.last() == *kernel,
            ss.last() == slots@,
            cs.last() == eval.calls(),
            eval.calls().len() >= c_start.len(),
            deepest@ == gathered(eval.calls().skip(c_start.len() as int)),
        decreases plan@.len() - j,
    {
        let step = plan[j];
        let ghost k0 = *kernel;
        let ghost s0 = slots@;
        let ghost c0 = eval.calls();
        proof {
            assert(binary_plan_spec(graph.nodes@[node_id.0 as int].op->Binary_0, backwardness)->Ok_0 == plan@);
        }
        let node_of = |o: Operand| -> (n: NodeId)
            ensures
                n == operand_node(*graph, node_id, o),
                n.0 < graph.nodes@.len(),
        {
            match o {
                Operand::Lhs => lhs,
                Operand::Rhs => rhs,
                Operand::Own => node_id,
            }
        };
        match step {
            Step::Define { slot, zero } => {
                let init = if zero {
                    match zero_constant(dtype) {
                        Ok(z) => Some(z),
                        Err(e) => {
                            proof {
                                assert(step_rel(*graph, node_id, out, idx, saved_params@, params@, plan@[j as int],
                                    k0, s0, c0, *kernel, s0, eval.calls(), Some(e)));
                                assert(lower_run(*graph, node_id, out, idx, saved_params@, params@, plan@, ks, ss, cs));
                            }
                            return Err(e);
                        },
                    }
                } else {
                    None
                };
                let v = kernel.raw.def_var(dtype, ValueState::Mut, init);
                slots.set(slot_index(slot), Some(v));
            },
            Step::Eval { input, into } => {
                let target = match into {
                    Target::Out => out,
                    Target::To(s) => match bound(&slots, s) {
                        Ok(v) => v,
                        Err(e) => {
                            proof {
                                assert(step_rel(*graph, node_id, out, idx, saved_params@, params@, plan@[j as int],
                                    k0, s0, c0, *kernel, s0, eval.calls(), Some(e)));
                                assert(lower_run(*graph, node_id, out, idx, saved_params@, params@, plan@, ks, ss, cs));
                            }
                            return Err(e);
                        },
                    },
                };
                let res = eval.eval_node(kernel, node_of(input), target);
                proof {
                    assert(eval.calls().drop_last() =~= c0);
                    assert(eval.calls().skip(c_start.len() as int) =~= c0.skip(c_start.len() as int).push(eval.calls().last()));
                    assert(eval.calls().skip(c_start.len() as int).drop_last() =~= c0.skip(c_start.len() as int));
                }
                let mut deep = match res {
                    Ok(d) => d,
                    Err(e) => {
                        proof {
                            assert(step_rel(*graph, node_id, out, idx, saved_params@, params@, plan@[j as int],
                                k0, s0, c0, *kernel, s0, eval.calls(), Some(e)));
                            assert(lower_run(*graph, node_id, out, idx, saved_params@, params@, plan@, ks, ss, cs));
                        }
                        return Err(e);
                    },
                };
                deepest.append(&mut deep);
            },
            Step::ReadSaved { of, into } => {
                let n = node_of(of);
                let param = saved_params[n.0];
                match param {
                    Some(pid) => {
                        if pid.0 >= params.len() || pid.0 >= kernel.params.len() {
                            let e = make_err("lowering lost track of a value", ErrorKind::InternalError);
                            proof {
                                assert(step_rel(*graph, node_id, out, idx, saved_params@, params@, plan@[j as int],
                                    k0, s0, c0, *kernel, s0, eval.calls(), Some(e)));
                                assert(lower_run(*graph, node_id, out, idx, saved_params@, params@, plan@, ks, ss, cs));
                            }
                            return Err(e);
                        }
                    },
                    None => {},
                }
                let v = match read_saved(kernel, idx, param, graph, n, params) {
                    Ok(v) => v,
                    Err(e) => {
                        proof {
                            assert(step_rel(*graph, node_id, out, idx, saved_params@, params@, plan@[j as int],
                                k0, s0, c0, *kernel, s0, eval.calls(), Some(e)));
                            assert(lower_run(*graph, node_id, out, idx, saved_params@, params@, plan@, ks, ss, cs));
                        }
                        return Err(e);
                    },
                };
                slots.set(slot_index(into), Some(v));
            },
            Step::Inline { slot, expr } => {
                let e = match expr_op(&slots, expr) {
                    Ok(e) => e,
                    Err(x) => {
                        proof {
                            assert(step_rel(*graph, node_id, out, idx, saved_params@, params@, plan@[j as int],
                                k0, s0, c0, *kernel, s0, eval.calls(), Some(x)));
                            assert(lower_run(*graph, node_id, out, idx, saved_params@, params@, plan@, ks, ss, cs));
                        }
                        return Err(x);
                    },
                };
                let v = kernel.raw.def_var(dtype, ValueState::Inline, Some(e));
                slots.set(slot_index(slot), Some(v));
            },
            Step::Overwrite { expr } => {
                let e = match expr_op(&slots, expr) {
                    Ok(e) => e,
                    Err(x) => {
                        proof {
                            assert(step_rel(*graph, node_id, out, idx, saved_params@, params@, plan@[j as int],
                                k0, s0, c0, *kernel, s0, eval.calls(), Some(x)));
                            assert(lower_run(*graph, node_id, out, idx, saved_params@, params@, plan@, ks, ss, cs));
                        }
                        return Err(x);
                    },
                };
                if out.0 >= kernel.raw.values.len() {
                    let x = make_err("lowering lost track of a value", ErrorKind::InternalError);
                    proof {
                        assert(step_rel(*graph, node_id, out, idx, saved_params@, params@, plan@[j as int],
                            k0, s0, c0, *kernel, s0, eval.calls(), Some(x)));
                        assert(lower_run(*graph, node_id, out, idx, saved_params@, params@, plan@, ks, ss, cs));
                    }
                    return Err(x);
                }
                kernel.raw.overwrite_var(out, e);
            },
            Step::Accum { expr } => {
                let e = match expr_op(&slots, expr) {
                    Ok(e) => e,
                    Err(x) => {
                        proof {
                            assert(step_rel(*graph, node_id, out, idx, saved_params@, params@, plan@[j as int],
                                k0, s0, c0, *kernel, s0, eval.calls(), Some(x)));
                            assert(lower_run(*graph, node_id, out, idx, saved_params@, params@, plan@, ks, ss, cs));
                        }
                        return Err(x);
                    },
                };
                if out.0 >= kernel.raw.values.len() {
                    let x = make_err("lowering lost track of a value", ErrorKind::InternalError);
                    proof {
                        assert(step_rel(*graph, node_id, out, idx, saved_params@, params@, plan@[j as int],
                            k0, s0, c0, *kernel, s0, eval.calls(), Some(x)));
                        assert(lower_run(*graph, node_id, out, idx, saved_params@, params@, plan@, ks, ss, cs));
                    }
                    return Err(x);
                }
                kernel.raw.accum_var(out, e);
            },
        }
        proof {
            assert(step_rel(*graph, node_id, out, idx, saved_params@, params@, plan@[j as int],
                k0, s0, c0, *kernel, slots@, eval.calls(), None));
            let ghost ks0 = ks;
            let ghost ss0 = ss;
            let ghost cs0 = cs;
            ks = ks.push(*kernel);
            ss = ss.push(slots@);
            cs = cs.push(eval.calls());
            assert forall|i: int| 0 <= i < ks.len() - 1 implies #[trigger] step_rel(
                *graph, node_id, out, idx, saved_params@, params@, plan@[i],
                ks[i], ss[i], cs[i], ks[i + 1], ss[i + 1], cs[i + 1], None,
            ) by {
                if i < ks.len() - 2 {
                    assert(step_rel(*graph, node_id, out, idx, saved_params@, params@, plan@[i],
                        ks0[i], ss0[i], cs0[i], ks0[i + 1], ss0[i + 1], cs0[i + 1], None));
                }
            }
        }
        j = j + 1;
    }
    Ok(deepest)
}

/// Each step of a run of a lowering plan does what `step_rel` says.
proof fn lemma_run_step(
    graph: Graph, node_id: NodeId, out: ValueId, idx: ValueId,
    saved: Seq<Option<ParamId>>, params: Seq<Param>, plan: Seq<Step>,
    ks: Seq<LinkedKernel>, ss: Seq<Seq<Option<ValueId>>>, cs: Seq<Seq<EvalCall>>, j: int,
)
    requires
        lower_run(graph, node_id, out, idx, saved, params, plan, ks, ss, cs),
        0 <= j < ks.len() - 1,
    ensures
        step_rel(graph, node_id, out, idx, saved, params, plan[j], ks[j], ss[j], cs[j], ks[j + 1], ss[j + 1], cs[j + 1], None),
{
}

/// The forward lowering of a binary operation applies it to its inputs in
/// order: the first input is evaluated into the value named `A`, the second
/// into the value named `B`, and the output is set to `A op B`, so a
/// quotient divides the first input by the second and a difference
/// subtracts the second from the first.
pub proof fn law_forward_operand_order(op: BinaryOp)
    ensures
        binary_plan_spec(op, None) is Ok,
        binary_plan_spec(op, None)->Ok_0.len() == 5,
        binary_plan_spec(op, None)->Ok_0[1] == (Step::Eval { input: Operand::Lhs, into: Target::To(Slot::A) }),
        binary_plan_spec(op, None)->Ok_0[3] == (Step::Eval { input: Operand::Rhs, into: Target::To(Slot::B) }),
        op == BinaryOp::Add ==> binary_plan_spec(op, None)->Ok_0[4] == (Step::Overwrite { expr: Expr::Add(Slot::A, Slot::B) }),
        op == BinaryOp::Sub ==> binary_plan_spec(op, None)->Ok_0[4] == (Step::Overwrite { expr: Expr::Sub(Slot::A, Slot::B) }),
        op == BinaryOp::Mul ==> binary_plan_spec(op, None)->Ok_0[4] == (Step::Overwrite { expr: Expr::Mul(Slot::A, Slot::B) }),
        op == BinaryOp::Div ==> binary_plan_spec(op, None)->Ok_0[4] == (Step::Overwrite { expr: Expr::Div(Slot::A, Slot::B) }),
{
}

/// In a forward lowering that succeeds, the output is set, as its last
/// instruction, to the operation applied to the values the evaluations of
/// the first and of the second input wrote, in that order.
pub proof fn law_forward_lowering_order(
    graph: Graph, node_id: NodeId, out: ValueId, idx: ValueId,
    saved: Seq<Option<ParamId>>, params: Seq<Param>,
    ks: Seq<LinkedKernel>, ss: Seq<Seq<Option<ValueId>>>, cs: Seq<Seq<EvalCall>>,
)
    requires
        node_id.0 < graph.nodes@.len(),
        graph.nodes@[node_id.0 as int].op is Binary,
        lower_run(graph, node_id, out, idx, saved, params,
            binary_plan_spec(graph.nodes@[node_id.0 as int].op->Binary_0, None)->Ok_0, ks, ss, cs),
        ks.len() == 6,
    ensures
        ({
            let op = graph.nodes@[node_id.0 as int].op->Binary_0;
            let lhs_val = cs[2].last().out;
            let rhs_val = cs[4].last().out;
            let fresh = ValueId(ks[4].raw.values@.len() as usize);
            &&& cs[2].last().node == graph.nodes@[node_id.0 as int].inputs@[0]
            &&& cs[4].last().node == graph.nodes@[node_id.0 as int].inputs@[1]
            &&& ks[5].raw.ops@.last() == (Op::OverwriteVar { id: out, val: fresh })
            &&& ks[5].raw.values@.last().init == Some(match op {
                BinaryOp::Add => Op::Add { a: lhs_val, b: rhs_val },
                BinaryOp::Sub => Op::Sub { a: lhs_val, b: rhs_val },
                BinaryOp::Mul => Op::Mul { a: lhs_val, b: rhs_val },
                BinaryOp::Div => Op::Div { a: lhs_val, b: rhs_val },
            })
        }),
{
    let op = graph.nodes@[node_id.0 as int].op->Binary_0;
    let plan = binary_plan_spec(op, None)->Ok_0;
    law_forward_operand_order(op);
    lemma_run_step(graph, node_id, out, idx, saved, params, plan, ks, ss, cs, 0);
    lemma_run_step(graph, node_id, out, idx, saved, params, plan, ks, ss, cs, 1);
    lemma_run_step(graph, node_id, out, idx, saved, params, plan, ks, ss, cs, 2);
    lemma_run_step(graph, node_id, out, idx, saved, params, plan, ks, ss, cs, 3);
    lemma_run_step(graph, node_id, out, idx, saved, params, plan, ks, ss, cs, 4);
    assert(ks[5].raw.ops@.last() == (Op::OverwriteVar { id: out, val: ValueId(ks[4].raw.values@.len() as usize) }));
}

/// The block of values and instructions that folds dimension `i` into the
/// flat index.
proof fn lemma_flatten_at(r: nat, n: nat, i: nat)
    requires
        1 <= i <= n,
    ensures
        flatten_vals(r, n)[4 * (i - 1)].init == Some(Op::GlobalId { axis: axis_at(i) }),
        flatten_vals(r, n)[4 * (i - 1) + 1].init == Some(Op::Mul { a: ValueId((r + 1) as usize), b: ValueId(i as usize) }),
        flatten_vals(r, n)[4 * (i - 1) + 2].init == Some(Op::Add { a: ValueId(r as usize), b: ValueId((r + 1) as usize) }),
        flatten_ops(r, n)[8 * (i - 1) + 1] == (Op::OverwriteVar { id: ValueId((r + 1) as usize), val: ValueId((r + 2 + 4 * (i - 1)) as usize) }),
        flatten_ops(r, n)[8 * (i - 1) + 3] == (Op::OverwriteVar { id: ValueId((r + 1) as usize), val: ValueId((r + 2 + 4 * (i - 1) + 1) as usize) }),
        flatten_ops(r, n)[8 * (i - 1) + 5] == (Op::OverwriteVar { id: ValueId(r as usize), val: ValueId((r + 2 + 4 * (i - 1) + 2) as usize) }),
    decreases n,
{
    lemma_flatten_len(r, (n - 1) as nat);
    if i < n {
        lemma_flatten_at(r, (n - 1) as nat, i);
    }
}

/// The optimizer kernel of a weight of rank two or more computes the flat
/// index of the element a thread updates as the grid index along the first
/// axis plus, for each later dimension `i`, the grid index along axis `i`
/// times dimension `i`: value `i` reads dimension `i` from the metadata,
/// value `r` starts as the grid index along the first axis, and for each `i`
/// the scratch value `r + 1` is set to the grid index along axis `i`, then
/// to itself times value `i`, and is then added into value `r`. For a shape
/// `[d0, d1]` the thread at grid position `(x, y)` updates element
/// `x + y * d1`.
pub proof fn law_optim_flat_index(k: Kernel, graph: Graph, meta: Metadata, zero: Op, i: nat)
    requires
        graph.nodes@.len() > 0,
        graph.nodes@.last().dtype is Simple,
        is_optim_kernel(k, graph, meta, zero),
        1 <= i < graph.nodes@.last().shape@.len(),
    ensures
        ({
            let shape = graph.nodes@.last().shape@;
            let r = shape.len();
            let b = r + 2 + 4 * (i - 1);
            let c = r + 2 + 8 * (i - 1);
            &&& k.raw.values@[i as int].init == Some(Op::ReadMeta { param: ParamId(0), field: shape[i as int] })
            &&& k.raw.values@[r as int].init == Some(Op::GlobalId { axis: Axis::X })
            &&& k.raw.values@[b as int].init == Some(Op::GlobalId { axis: axis_at(i) })
            &&& k.raw.values@[b + 1].init == Some(Op::Mul { a: ValueId((r + 1) as usize), b: ValueId(i as usize) })
            &&& k.raw.values@[b + 2].init == Some(Op::Add { a: ValueId(r as usize), b: ValueId((r + 1) as usize) })
            &&& k.raw.ops@[c + 1] == (Op::OverwriteVar { id: ValueId((r + 1) as usize), val: ValueId(b as usize) })
            &&& k.raw.ops@[c + 3] == (Op::OverwriteVar { id: ValueId((r + 1) as usize), val: ValueId((b + 1) as usize) })
            &&& k.raw.ops@[c + 5] == (Op::OverwriteVar { id: ValueId(r as usize), val: ValueId((b + 2) as usize) })
        }),
{
    let root = graph.nodes@.last();
    let s = root.shape@;
    let r = s.len();
    let dtype = root.dtype->Simple_0;
    let n = index_len(r);
    let rates = rate_vals(n, dtype);
    let sgd = sgd_values(root.dtype, rate_id(n, dtype), ParamId(2), ValueId(r as usize), n + rates.len(), zero);
    lemma_flatten_len(r, (r - 1) as nat);
    lemma_flatten_at(r, (r - 1) as nat, i);
    let head = dim_vals(s) + seq![Value { dtype: u32_type(), state: ValueState::Mut, init: Some(Op::GlobalId { axis: Axis::X }) }]
        + seq![Value { dtype: u32_type(), state: ValueState::Mut, init: None }];
    let fv = flatten_vals(r, (r - 1) as nat);
    assert(index_vals(s) == head + fv);
    assert(head.len() == r + 2);
    let vals = k.raw.values@;
    assert(vals == (head + fv) + rates + sgd);
    let b = r + 2 + 4 * (i - 1);
    assert(vals[i as int] == head[i as int]);
    assert(vals[r as int] == head[r as int]);
    assert(vals[b as int] == fv[4 * (i - 1)]);
    assert(vals[b + 1] == fv[4 * (i - 1) + 1]);
    assert(vals[b + 2] == fv[4 * (i - 1) + 2]);
    let hops = define_ops(r + 1) + seq![Op::DefineVar { id: ValueId((r + 1) as usize) }];
    let fo = flatten_ops(r, (r - 1) as nat);
    assert(index_ops(r) == hops + fo);
    assert(hops.len() == r + 2);
    let ops = k.raw.ops@;
    let c = r + 2 + 8 * (i - 1);
    assert(ops[c + 1] == fo[8 * (i - 1) + 1]);
    assert(ops[c + 3] == fo[8 * (i - 1) + 3]);
    assert(ops[c + 5] == fo[8 * (i - 1) + 5]);
}

/// The backward lowering through input `i` adds that input's share of the
/// node's gradient `g` to the output, by the chain rule: for `a + b` both
/// inputs get `g` unchanged; for `a - b`, `a` gets `g` and `b` gets `-g`;
/// for `a * b`, each input gets `g` times the other input's saved value;
/// for `a / b`, `a` gets `g / b` and `b` gets `-g * (a / (b * b))`. A pass
/// through an input past the second fails with an unresolved input.
pub proof fn law_backward_rules(op: BinaryOp, i: u8)
    ensures
        i > 1 ==> binary_plan_spec(op, Some(i)) is Err
            && binary_plan_spec(op, Some(i))->Err_0.kind == ErrorKind::UnresolvedInput,
        i <= 1 && (op == BinaryOp::Add || (op == BinaryOp::Sub && i == 0))
            ==> binary_plan_spec(op, Some(i)) == Ok::<Seq<Step>, Error<()>>(seq![Step::Eval { input: Operand::Own, into: Target::Out }]),
        op == BinaryOp::Sub && i == 1 ==> binary_plan_spec(op, Some(i)) == Ok::<Seq<Step>, Error<()>>(seq![
            Step::Define { slot: Slot::G, zero: true },
            Step::Eval { input: Operand::Own, into: Target::To(Slot::G) },
            Step::Accum { expr: Expr::Neg(Slot::G) },
        ]),
        op == BinaryOp::Mul && i <= 1 ==> binary_plan_spec(op, Some(i)) == Ok::<Seq<Step>, Error<()>>(seq![
            Step::Define { slot: Slot::G, zero: true },
            Step::Eval { input: Operand::Own, into: Target::To(Slot::G) },
            Step::ReadSaved { of: if i == 0 { Operand::Rhs } else { Operand::Lhs }, into: Slot::Saved },
            Step::Accum { expr: Expr::Mul(Slot::G, Slot::Saved) },
        ]),
        op == BinaryOp::Div && i == 0 ==> binary_plan_spec(op, Some(i)) == Ok::<Seq<Step>, Error<()>>(seq![
            Step::Define { slot: Slot::G, zero: true },
            Step::Eval { input: Operand::Own, into: Target::To(Slot::G) },
            Step::ReadSaved { of: Operand::Rhs, into: Slot::Saved },
            Step::Accum { expr: Expr::Div(Slot::G, Slot::Saved) },
        ]),
        op == BinaryOp::Div && i == 1 ==> binary_plan_spec(op, Some(i)) == Ok::<Seq<Step>, Error<()>>(seq![
            Step::Define { slot: Slot::G, zero: true },
            Step::Eval { input: Operand::Own, into: Target::To(Slot::G) },
            Step::ReadSaved { of: Operand::Lhs, into: Slot::Saved },
            Step::ReadSaved { of: Operand::Rhs, into: Slot::Saved2 },
            Step::Inline { slot: Slot::Square, expr: Expr::Mul(Slot::Saved2, Slot::Saved2) },
            Step::Inline { slot: Slot::NegG, expr: Expr::Neg(Slot::G) },
            Step::Inline { slot: Slot::Ratio, expr: Expr::Div(Slot::Saved, Slot::Square) },
            Step::Accum { expr: Expr::Mul(Slot::NegG, Slot::Ratio) },
        ]),
{
}

/// A stochastic-gradient-descent step loads the gradient at the thread's
/// index, scales it by the learning rate, subtracts the scaled gradient from
/// the weight at the same index, and then clears the gradient there with
/// the zero of the weights' type.
pub proof fn law_sgd_step(dtype: DType, lr: ValueId, weight: ParamId, grad: ParamId, gid: ValueId, first: nat, zero: Op)
    ensures
        sgd_values(dtype, lr, grad, gid, first, zero)[0].init == Some(Op::ParamLoad { param: grad, index: gid }),
        sgd_values(dtype, lr, grad, gid, first, zero)[1].init == Some(Op::Mul { a: ValueId(first as usize), b: lr }),
        sgd_values(dtype, lr, grad, gid, first, zero)[2].init == Some(zero),
        sgd_ops(weight, grad, gid, first)[3] == (Op::ParamSub { param: weight, index: gid, value: ValueId((first + 1) as usize) }),
        sgd_ops(weight, grad, gid, first)[4] == (Op::ParamStore { param: grad, index: gid, value: ValueId((first + 2) as usize) }),
{
}

/// The `u32` scalar type.
pub open spec fn u32_type() -> DType {
    DType::Simple(SimpleDType::U32)
}

/// The axis of a dimension of the dispatch grid; dimensions past the third
/// share the last axis.
pub open spec fn axis_at(i: nat) -> Axis {
    if i == 0 {
        Axis::X
    } else if i == 1 {
        Axis::Y
    } else {
        Axis::Z
    }
}

/// The axis of a dimension of the dispatch grid.
fn axis_of(i: usize) -> (a: Axis)
    ensures
        a == axis_at(i as nat),
{
    if i == 0 {
        Axis::X
    } else if i == 1 {
        Axis::Y
    } else {
        Axis::Z
    }
}

/// The values that fold dimensions `1..=n` of an `r`-dimensional tensor
/// into one flat index: for each, the grid index along its axis, scaled by
/// the dimension and added to the index, and the total size scaled too.
pub open spec fn flatten_vals(r: nat, n: nat) -> Seq<Value>
    decreases n,
{
    if n == 0 {
        Seq::empty()
    } else {
        flatten_vals(r, (n - 1) as nat) + seq![
            Value { dtype: u32_type(), state: ValueState::Inline, init: Some(Op::GlobalId { axis: axis_at(n) }) },
            Value { dtype: u32_type(), state: ValueState::Inline, init: Some(Op::Mul { a: ValueId((r + 1) as usize), b: ValueId(n as usize) }) },
            Value { dtype: u32_type(), state: ValueState::Inline, init: Some(Op::Add { a: ValueId(r as usize), b: ValueId((r + 1) as usize) }) },
            Value { dtype: u32_type(), state: ValueState::Inline, init: Some(Op::Mul { a: ValueId(0), b: ValueId(n as usize) }) },
        ]
    }
}

/// The instructions that fold dimensions `1..=n` into one flat index.
pub open spec fn flatten_ops(r: nat, n: nat) -> Seq<Op>
    decreases n,
{
    if n == 0 {
        Seq::empty()
    } else {
        let b = r + 2 + 4 * (n - 1);
        flatten_ops(r, (n - 1) as nat) + seq![
            Op::DefineVar { id: ValueId(b as usize) },
            Op::OverwriteVar { id: ValueId((r + 1) as usize), val: ValueId(b as usize) },
            Op::DefineVar { id: ValueId((b + 1) as usize) },
            Op::OverwriteVar { id: ValueId((r + 1) as usize), val: ValueId((b + 1) as usize) },
            Op::DefineVar { id: ValueId((b + 2) as usize) },
            Op::OverwriteVar { id: ValueId(r as usize), val: ValueId((b + 2) as usize) },
            Op::DefineVar { id: ValueId((b + 3) as usize) },
            Op::OverwriteVar { id: ValueId(0), val: ValueId((b + 3) as usize) },
        ]
    }
}

/// The definitions of values `0..n`.
pub open spec fn define_ops(n: nat) -> Seq<Op> {
    Seq::new(n, |i: int| Op::DefineVar { id: ValueId(i as usize) })
}

/// The values of the dimensions of a shape, read from the metadata; the
/// first is mutable, as it becomes the total size.
pub open spec fn dim_vals(shape: Seq<MetaId>) -> Seq<Value> {
    Seq::new(shape.len(), |i: int| Value {
        dtype: u32_type(),
        state: if i == 0 { ValueState::Mut } else { ValueState::Immut },
        init: Some(Op::ReadMeta { param: ParamId(0), field: shape[i] }),
    })
}

/// The number of values before the grid position of the weights.
pub open spec fn index_len(r: nat) -> nat {
    if r > 1 {
        (r + 2 + 4 * (r - 1)) as nat
    } else {
        r + 1
    }
}

/// How many values the optimizer kernel of a weight of rank `r` defines at
/// most: the flat index, the grid position and learning rate, and the
/// update. Value ids are `usize`, so they must all fit.
pub open spec fn optim_value_bound(r: nat) -> nat {
    index_len(r) + 7
}

/// The values that compute the flat index of the weight a thread updates.
pub open spec fn index_vals(shape: Seq<MetaId>) -> Seq<Value> {
    let r = shape.len();
    dim_vals(shape) + seq![Value { dtype: u32_type(), state: ValueState::Mut, init: Some(Op::GlobalId { axis: Axis::X }) }]
        + if r > 1 {
            seq![Value { dtype: u32_type(), state: ValueState::Mut, init: None }] + flatten_vals(r, (r - 1) as nat)
        } else {
            Seq::empty()
        }
}

/// The instructions that compute the flat index.
pub open spec fn index_ops(r: nat) -> Seq<Op> {
    define_ops(r + 1) + if r > 1 {
        seq![Op::DefineVar { id: ValueId((r + 1) as usize) }] + flatten_ops(r, (r - 1) as nat)
    } else {
        Seq::empty()
    }
}

/// The values of the grid row and column and of the learning rate, from
/// value `n` on, with the learning rate cast to a half-precision type.
pub open spec fn rate_vals(n: nat, dtype: SimpleDType) -> Seq<Value> {
    seq![
        Value { dtype: u32_type(), state: ValueState::Immut, init: Some(Op::GlobalId { axis: Axis::Y }) },
        Value { dtype: u32_type(), state: ValueState::Immut, init: Some(Op::GlobalId { axis: Axis::X }) },
        Value { dtype: DType::Simple(SimpleDType::F32), state: ValueState::Immut, init: Some(Op::ReadMeta { param: ParamId(0), field: MetaId(0) }) },
    ] + match dtype {
        SimpleDType::F16 => seq![Value { dtype: DType::Simple(dtype), state: ValueState::Immut, init: Some(Op::CastF16 { id: ValueId((n + 2) as usize) }) }],
        SimpleDType::BF16 => seq![Value { dtype: DType::Simple(dtype), state: ValueState::Immut, init: Some(Op::CastBF16 { id: ValueId((n + 2) as usize) }) }],
        _ => Seq::empty(),
    }
}

/// The learning rate in the weights' type: the cast where there is one.
pub open spec fn rate_id(n: nat, dtype: SimpleDType) -> ValueId {
    if dtype == SimpleDType::F16 || dtype == SimpleDType::BF16 {
        ValueId((n + 3) as usize)
    } else {
        ValueId((n + 2) as usize)
    }
}

/// The parameters of an optimizer kernel: the metadata, the weights and
/// their gradients.
pub open spec fn optim_params(dtype: SimpleDType) -> Seq<Param> {
    seq![
        Param { dtype: SimpleDType::U32, ty: ParamTy::Uniform, pid: ParamId(0) },
        Param { dtype, ty: ParamTy::ReadWrite, pid: ParamId(1) },
        Param { dtype, ty: ParamTy::ReadWrite, pid: ParamId(2) },
    ]
}

/// Every node computes elementwise or is a leaf.
pub open spec fn all_elementwise(g: Graph) -> bool {
    forall|i: int| 0 <= i < g.nodes@.len() ==> (#[trigger] g.nodes@[i]).op is Binary || g.nodes@[i].op is Input
        || g.nodes@[i].op is Const
}

/// The definitions of values `n..n + k`.
pub open spec fn define_from(n: nat, k: nat) -> Seq<Op> {
    Seq::new(k, |i: int| Op::DefineVar { id: ValueId((n + i) as usize) })
}

/// Whether a shape names a metadata field.
pub open spec fn reads_field(shape: Seq<MetaId>, m: int) -> bool {
    exists|i: int| 0 <= i < shape.len() && (#[trigger] shape[i]).0 == m
}

/// The optimizer kernel of a graph is what this says: its parameters, the
/// metadata fields it reads, its grid and its instructions.
pub open spec fn is_optim_kernel(k: Kernel, graph: Graph, meta: Metadata, zero: Op) -> bool {
    let root = graph.nodes@.last();
    let shape = root.shape@;
    let r = shape.len();
    let dtype = root.dtype->Simple_0;
    let n = index_len(r);
    let rates = rate_vals(n, dtype);
    &&& k.params@ == optim_params(dtype)
    &&& k.meta@.len() == meta.fields
    &&& forall|m: int| 0 <= m < meta.fields ==> k.meta@[m] == reads_field(shape, m)
    &&& k.raw.meta == meta
    &&& k.raw.shared@.len() == 0
    &&& k.raw.block == (if all_elementwise(graph) { [256u32, 1, 1] } else { [16u32, 16, 1] })
    &&& k.raw.root == NodeId((graph.nodes@.len() - 1) as usize)
    &&& k.raw.iter_space@ == shape
    &&& k.raw.values@ == index_vals(shape) + rates
        + sgd_values(root.dtype, rate_id(n, dtype), ParamId(2), ValueId(r as usize), n + rates.len(), zero)
    &&& k.raw.ops@ == index_ops(r) + define_from(n, rates.len())
        + sgd_ops(ParamId(1), ParamId(2), ValueId(r as usize), n + rates.len())
}

/// An optimizer kernel with its parameters and grid set and no
/// instructions yet.
fn optim_frame(graph: &Graph, meta: Metadata) -> (k: Kernel)
    requires
        graph.nodes@.len() > 0,
        graph.nodes@.last().dtype is Simple,
    ensures
        k.params@ == optim_params(graph.nodes@.last().dtype->Simple_0),
        k.meta@.len() == meta.fields,
        forall|m: int| 0 <= m < meta.fields ==> !#[trigger] k.meta@[m],
        k.raw.meta == meta,
        k.raw.shared@.len() == 0,
        k.raw.block == (if all_elementwise(*graph) { [256u32, 1, 1] } else { [16u32, 16, 1] }),
        k.raw.root == NodeId((graph.nodes@.len() - 1) as usize),
        k.raw.iter_space@ == graph.nodes@.last().shape@,
        k.raw.values@.len() == 0,
        k.raw.ops@.len() == 0,
{
    let root = graph.nodes.len() - 1;
    let root_node = &graph.nodes[root];
    let sd = match root_node.dtype {
        DType::Simple(sd) => sd,
        DType::Mma(sd) => sd,
    };
    let mut flags: Vec<bool> = Vec::new();
    let mut m: usize = 0;
    while m < meta.fields
        invariant
            m <= meta.fields,
            flags@.len() == m,
            forall|x: int| 0 <= x < m ==> !#[trigger] flags@[x],
        decreases meta.fields - m,
    {
        flags.push(false);
        m = m + 1;
    }
    let mut elementwise = true;
    let mut q: usize = 0;
    while q < graph.nodes.len()
        invariant
            q <= graph.nodes@.len(),
            elementwise == forall|i: int| 0 <= i < q ==> (#[trigger] graph.nodes@[i]).op is Binary
                || graph.nodes@[i].op is Input || graph.nodes@[i].op is Const,
        decreases graph.nodes@.len() - q,
    {
        match graph.nodes[q].op {
            GraphOp::Binary(_) | GraphOp::Input | GraphOp::Const(_) => {},
        }
        q = q + 1;
    }
    let block = if elementwise {
        [256, 1, 1]
    } else {
        [16, 16, 1]
    };
    let mut params: Vec<Param> = Vec::new();
    params.push(Param { dtype: SimpleDType::U32, ty: ParamTy::Uniform, pid: ParamId(0) });
    params.push(Param { dtype: sd, ty: ParamTy::ReadWrite, pid: ParamId(1) });
    params.push(Param { dtype: sd, ty: ParamTy::ReadWrite, pid: ParamId(2) });
    proof {
        assert(params@ =~= optim_params(sd));
    }
    Kernel {
        raw: RawKernel {
            meta,
            shared: Vec::new(),
            values: Vec::new(),
            ops: Vec::new(),
            block,
            root: NodeId(root),
            iter_space: copy_ids_of(root_node.shape.as_slice()),
        },
        params,
        meta: flags,
    }
}

/// Appends the values that read the dimensions of `shape` from the
/// metadata, marking the fields read, and the flat grid index.
fn lower_dims(kernel: &mut Kernel, shape: &[MetaId]) -> (dims: Vec<ValueId>)
    requires
        old(kernel).raw.values@.len() == 0,
        old(kernel).raw.ops@.len() == 0,
        forall|x: int| 0 <= x < shape@.len() ==> (#[trigger] shape@[x]).0 < old(kernel).meta@.len(),
        forall|m: int| 0 <= m < old(kernel).meta@.len() ==> !#[trigger] old(kernel).meta@[m],
        shape@.len() > 0,
    ensures
        final(kernel).meta@.len() == old(kernel).meta@.len(),
        forall|m: int| 0 <= m < old(kernel).meta@.len() ==> final(kernel).meta@[m] == reads_field(shape@, m),
        final(kernel).params@ == old(kernel).params@,
        same_frame(old(kernel).raw, final(kernel).raw),
        final(kernel).raw.values@ == dim_vals(shape@) + seq![Value { dtype: u32_type(), state: ValueState::Mut, init: Some(Op::GlobalId { axis: Axis::X }) }],
        final(kernel).raw.ops@ == define_ops((shape@.len() + 1) as nat),
        dims@ == Seq::new(shape@.len(), |y: int| ValueId(y as usize)),
{
    let u32_t = DType::Simple(SimpleDType::U32);
    let r = shape.len();
    let ghost s = shape@;
    let mut dims: Vec<ValueId> = Vec::new();
    let mut i: usize = 0;
    while i < r
        invariant
            r == s.len(),
            s == shape@,
            forall|x: int| 0 <= x < s.len() ==> (#[trigger] s[x]).0 < kernel.meta@.len(),
            kernel.meta@.len() == old(kernel).meta@.len(),
            i <= r,
            forall|x: int| 0 <= x < kernel.meta@.len() ==> kernel.meta@[x] == exists|y: int| 0 <= y < i && (#[trigger] s[y]).0 == x,
            kernel.raw.values@ == Seq::new(i as nat, |y: int| Value { dtype: u32_type(), state: ValueState::Immut, init: Some(Op::ReadMeta { param: ParamId(0), field: s[y] }) }),
            kernel.raw.ops@ == define_ops(i as nat),
            dims@ == Seq::new(i as nat, |y: int| ValueId(y as usize)),
            kernel.params@ == old(kernel).params@,
            same_frame(old(kernel).raw, kernel.raw),
            u32_t == u32_type(),
        decreases r - i,
    {
        let field = shape[i];
        let v = kernel.raw.def_var(u32_t, ValueState::Immut, Some(Op::ReadMeta { param: ParamId(0), field }));
        kernel.register_meta(field);
        dims.push(v);
        proof {
            assert forall|x: int| 0 <= x < kernel.meta@.len() implies kernel.meta@[x] == exists|y: int| 0 <= y < i + 1 && (#[trigger] s[y]).0 == x by {
                if x == field.0 {
                    assert(s[i as int].0 == x);
                } else {
                    if exists|y: int| 0 <= y < i + 1 && (#[trigger] s[y]).0 == x {
                        let y = choose|y: int| 0 <= y < i + 1 && (#[trigger] s[y]).0 == x;
                        assert(y != i);
                    }
                }
            }
        }
        i = i + 1;
        proof {
            assert(kernel.raw.values@ =~= Seq::new(i as nat, |y: int| Value { dtype: u32_type(), state: ValueState::Immut, init: Some(Op::ReadMeta { param: ParamId(0), field: s[y] }) }));
            assert(kernel.raw.ops@ =~= define_ops(i as nat));
            assert(dims@ =~= Seq::new(i as nat, |y: int| ValueId(y as usize)));
        }
    }
    let _gid = kernel.raw.def_var(u32_t, ValueState::Mut, Some(Op::GlobalId { axis: Axis::X }));
    let total = dims[0];
    kernel.raw.update_var_state(total, ValueState::Mut);
    proof {
        assert(kernel.raw.values@ =~= dim_vals(s) + seq![Value { dtype: u32_type(), state: ValueState::Mut, init: Some(Op::GlobalId { axis: Axis::X }) }]);
        assert(kernel.raw.ops@ =~= define_ops((r + 1) as nat));
    }
    dims
}

/// Appends the folding of dimensions `1..r` into the flat index (value
/// `r`) and the total size (value `0`).
fn lower_flatten(raw: &mut RawKernel, dims: &Vec<ValueId>, shape: Ghost<Seq<MetaId>>)
    requires
        dims@ == Seq::new(shape@.len(), |y: int| ValueId(y as usize)),
        1 < shape@.len(),
        index_len(shape@.len()) <= usize::MAX,
        old(raw).values@ == dim_vals(shape@) + seq![Value { dtype: u32_type(), state: ValueState::Mut, init: Some(Op::GlobalId { axis: Axis::X }) }],
        old(raw).ops@ == define_ops((shape@.len() + 1) as nat),
    ensures
        same_frame(*old(raw), *final(raw)),
        final(raw).values@ == index_vals(shape@),
        final(raw).ops@ == index_ops(shape@.len()),
{
    let ghost s = shape@;
    let u32_t = DType::Simple(SimpleDType::U32);
    let r = dims.len();
    let gid = ValueId(r);
    let total = ValueId(0);
    let gid2 = raw.def_var(u32_t, ValueState::Mut, None);
    let ghost pre_v = raw.values@;
    let ghost pre_o = raw.ops@;
    let mut j: usize = 1;
    proof {
        assert(pre_v + flatten_vals(r as nat, 0) =~= pre_v);
        assert(pre_o + flatten_ops(r as nat, 0) =~= pre_o);
    }
    while j < r
        invariant
            1 <= j <= r,
            r == s.len(),
            index_len(r as nat) <= usize::MAX,
            gid == ValueId(r),
            gid2 == ValueId((r + 1) as usize),
            total == ValueId(0),
            dims@ == Seq::new(r as nat, |y: int| ValueId(y as usize)),
            pre_v.len() == r + 2,
            raw.values@ == pre_v + flatten_vals(r as nat, (j - 1) as nat),
            raw.ops@ == pre_o + flatten_ops(r as nat, (j - 1) as nat),
            pre_v[0].dtype == u32_type(),
            pre_v[r as int].dtype == u32_type(),
            pre_v[r + 1].dtype == u32_type(),
            same_frame(*old(raw), *raw),
        decreases r - j,
    {
        proof {
            lemma_flatten_len(r as nat, (j - 1) as nat);
        }
        let d = dims[j];
        raw.overwrite_var(gid2, Op::GlobalId { axis: axis_of(j) });
        raw.overwrite_var(gid2, Op::Mul { a: gid2, b: d });
        raw.overwrite_var(gid, Op::Add { a: gid, b: gid2 });
        raw.overwrite_var(total, Op::Mul { a: total, b: d });
        j = j + 1;
        proof {
            assert(d == ValueId((j - 1) as usize));
            assert(raw.values@ =~= pre_v + flatten_vals(r as nat, (j - 1) as nat));
            assert(raw.ops@ =~= pre_o + flatten_ops(r as nat, (j - 1) as nat));
        }
    }
    proof {
        assert(raw.values@ =~= index_vals(s));
        assert(raw.ops@ =~= index_ops(r as nat));
    }
}

/// Appends the grid row and column and the learning rate, cast to the
/// weights' type where it is half precision; returns the learning rate.
fn lower_rate(raw: &mut RawKernel, sd: SimpleDType) -> (lr: ValueId)
    ensures
        same_frame(*old(raw), *final(raw)),
        final(raw).values@ == old(raw).values@ + rate_vals(old(raw).values@.len(), sd),
        final(raw).ops@ == old(raw).ops@ + define_from(old(raw).values@.len(), rate_vals(old(raw).values@.len(), sd).len()),
        lr == rate_id(old(raw).values@.len(), sd),
{
    let ghost n = old(raw).values@.len();
    let u32_t = DType::Simple(SimpleDType::U32);
    let _row = raw.def_var(u32_t, ValueState::Immut, Some(Op::GlobalId { axis: Axis::Y }));
    let _col = raw.def_var(u32_t, ValueState::Immut, Some(Op::GlobalId { axis: Axis::X }));
    let lr = raw.def_var(DType::Simple(SimpleDType::F32), ValueState::Immut, Some(Op::ReadMeta { param: ParamId(0), field: MetaId(0) }));
    let lr_normalized = match sd {
        SimpleDType::F16 => raw.def_var(DType::Simple(sd), ValueState::Immut, Some(Op::CastF16 { id: lr })),
        SimpleDType::BF16 => raw.def_var(DType::Simple(sd), ValueState::Immut, Some(Op::CastBF16 { id: lr })),
        _ => lr,
    };
    proof {
        assert(raw.values@ =~= old(raw).values@ + rate_vals(n, sd));
        assert(raw.ops@ =~= old(raw).ops@ + define_from(n, rate_vals(n, sd).len()));
    }
    lr_normalized
}

/// Builds the kernel that applies the graph's optimizer to one weight
/// tensor of the output's shape and type: each thread computes the flat
/// index of its element from the grid and the dimensions in the metadata,
/// reads the learning rate from metadata field 0, and runs the update.
/// Fails where the output's type has no zero constant.
pub fn lower_optim(graph: &Graph, meta: Metadata) -> (r: Result<Kernel, Error<()>>)
    requires
        graph.nodes@.len() > 0,
        graph.nodes@.last().shape@.len() > 0,
        optim_value_bound(graph.nodes@.last().shape@.len()) <= usize::MAX,
        graph.nodes@.last().dtype is Simple,
        forall|i: int| 0 <= i < graph.nodes@.last().shape@.len() ==> (#[trigger] graph.nodes@.last().shape@[i]).0 < meta.fields,
    ensures
        match zero_const(graph.nodes@.last().dtype) {
            Ok(zero) => r matches Ok(k) && is_optim_kernel(k, *graph, meta, zero),
            Err(e) => r == Err::<Kernel, Error<()>>(e),
        },
{
    let root = graph.nodes.len() - 1;
    let root_node = &graph.nodes[root];
    let dtype = root_node.dtype;
    let sd = match dtype {
        DType::Simple(sd) => sd,
        DType::Mma(sd) => sd,
    };
    let ghost s = root_node.shape@;
    let mut kernel = optim_frame(graph, meta);
    let dims = lower_dims(&mut kernel, root_node.shape.as_slice());
    if dims.len() > 1 {
        lower_flatten(&mut kernel.raw, &dims, Ghost(s));
    } else {
        proof {
            assert(kernel.raw.values@ =~= index_vals(s));
            assert(kernel.raw.ops@ =~= index_ops(s.len()));
        }
    }
    proof {
        lemma_flatten_len(s.len(), (s.len() - 1) as nat);
        assert(kernel.raw.values@.len() == index_len(s.len()));
    }
    let gid = ValueId(dims.len());
    let lr = lower_rate(&mut kernel.raw, sd);
    match graph.optim {
        OptimType::StochasticGradientDescent => {
            match lower_sgd(&mut kernel.raw, dtype, lr, ParamId(1), ParamId(2), gid) {
                Ok(()) => {},
                Err(e) => {
                    return Err(e);
                },
            }
        },
    }
    proof {
        let n = index_len(s.len());
        assert(kernel.raw.values@ =~= index_vals(s) + rate_vals(n, sd)
            + sgd_values(dtype, rate_id(n, sd), ParamId(2), ValueId(s.len() as usize), n + rate_vals(n, sd).len(), zero_const(dtype).unwrap()));
        assert(kernel.raw.ops@ =~= index_ops(s.len()) + define_from(n, rate_vals(n, sd).len())
            + sgd_ops(ParamId(1), ParamId(2), ValueId(s.len() as usize), n + rate_vals(n, sd).len()));
    }
    Ok(kernel)
}

/// The number of values the folding of `n` dimensions defines, and of its
/// instructions.
pub proof fn lemma_flatten_len(r: nat, n: nat)
    ensures
        flatten_vals(r, n).len() == 4 * n,
        flatten_ops(r, n).len() == 8 * n,
    decreases n,
{
    if n > 0 {
        lemma_flatten_len(r, (n - 1) as nat);
    }
}

/// Copies a list of indices.
fn copy_ids_of(ids: &[MetaId]) -> (v: Vec<MetaId>)
    ensures
        v@ == ids@,
{
    crate::graph::copy_ids(ids)
}

/// Each value's initializer, the value being number `off + i`, only looks
/// up earlier values and opens or closes no scope.
pub open spec fn vals_ok(vals: Seq<Value>, off: nat) -> bool {
    forall|i: int| 0 <= i < vals.len() ==> match (#[trigger] vals[i]).init {
        Some(op) => lookups_below(op, (off + i) as nat) && !is_scope_op(op),
        None => true,
    }
}

/// Each instruction only looks up values below `bound` and opens or closes
/// no scope.
pub open spec fn ops_ok(ops: Seq<Op>, bound: nat) -> bool {
    forall|j: int| 0 <= j < ops.len() ==> lookups_below(#[trigger] ops[j], bound) && !is_scope_op(ops[j])
}

/// Every value has a scalar type.
pub open spec fn vals_simple(vals: Seq<Value>) -> bool {
    forall|i: int| 0 <= i < vals.len() ==> (#[trigger] vals[i]).dtype is Simple
}

proof fn lemma_vals_concat(a: Seq<Value>, b: Seq<Value>, off: nat)
    requires
        vals_ok(a, off),
        vals_ok(b, off + a.len()),
    ensures
        vals_ok(a + b, off),
{
    assert forall|i: int| 0 <= i < (a + b).len() implies match (#[trigger] (a + b)[i]).init {
        Some(op) => lookups_below(op, (off + i) as nat) && !is_scope_op(op),
        None => true,
    } by {
        if i >= a.len() {
            assert((a + b)[i] == b[i - a.len()]);
        } else {
            assert((a + b)[i] == a[i]);
        }
    }
}

proof fn lemma_ops_concat(a: Seq<Op>, b: Seq<Op>, bound: nat)
    requires
        ops_ok(a, bound),
        ops_ok(b, bound),
    ensures
        ops_ok(a + b, bound),
{
    assert forall|j: int| 0 <= j < (a + b).len() implies lookups_below(#[trigger] (a + b)[j], bound) && !is_scope_op((a + b)[j]) by {
        if j >= a.len() {
            assert((a + b)[j] == b[j - a.len()]);
        } else {
            assert((a + b)[j] == a[j]);
        }
    }
}

proof fn lemma_simple_concat(a: Seq<Value>, b: Seq<Value>)
    requires
        vals_simple(a),
        vals_simple(b),
    ensures
        vals_simple(a + b),
{
    assert forall|i: int| 0 <= i < (a + b).len() implies (#[trigger] (a + b)[i]).dtype is Simple by {
        if i >= a.len() {
            assert((a + b)[i] == b[i - a.len()]);
        } else {
            assert((a + b)[i] == a[i]);
        }
    }
}

proof fn lemma_flatten_ok(r: nat, n: nat)
    requires
        2 <= r,
        n < r,
    ensures
        vals_ok(flatten_vals(r, n), r + 2),
        vals_simple(flatten_vals(r, n)),
        ops_ok(flatten_ops(r, n), r + 2 + 4 * n),
    decreases n,
{
    lemma_flatten_len(r, n);
    if n > 0 {
        lemma_flatten_ok(r, (n - 1) as nat);
        lemma_flatten_len(r, (n - 1) as nat);
        let head = flatten_vals(r, (n - 1) as nat);
        let tail = seq![
            Value { dtype: u32_type(), state: ValueState::Inline, init: Some(Op::GlobalId { axis: axis_at(n) }) },
            Value { dtype: u32_type(), state: ValueState::Inline, init: Some(Op::Mul { a: ValueId((r + 1) as usize), b: ValueId(n as usize) }) },
            Value { dtype: u32_type(), state: ValueState::Inline, init: Some(Op::Add { a: ValueId(r as usize), b: ValueId((r + 1) as usize) }) },
            Value { dtype: u32_type(), state: ValueState::Inline, init: Some(Op::Mul { a: ValueId(0), b: ValueId(n as usize) }) },
        ];
        assert(vals_ok(tail, r + 2 + head.len()));
        lemma_vals_concat(head, tail, r + 2);
        lemma_simple_concat(head, tail);
        let b = r + 2 + 4 * (n - 1);
        let otail = seq![
            Op::DefineVar { id: ValueId(b as usize) },
            Op::OverwriteVar { id: ValueId((r + 1) as usize), val: ValueId(b as usize) },
            Op::DefineVar { id: ValueId((b + 1) as usize) },
            Op::OverwriteVar { id: ValueId((r + 1) as usize), val: ValueId((b + 1) as usize) },
            Op::DefineVar { id: ValueId((b + 2) as usize) },
            Op::OverwriteVar { id: ValueId(r as usize), val: ValueId((b + 2) as usize) },
            Op::DefineVar { id: ValueId((b + 3) as usize) },
            Op::OverwriteVar { id: ValueId(0), val: ValueId((b + 3) as usize) },
        ];
        assert(ops_ok(otail, r + 2 + 4 * n));
        let ohead = flatten_ops(r, (n - 1) as nat);
        assert forall|j: int| 0 <= j < ohead.len() implies lookups_below(#[trigger] ohead[j], r + 2 + 4 * n) && !is_scope_op(ohead[j]) by {
            assert(lookups_below(ohead[j], (r + 2 + 4 * (n - 1)) as nat));
        }
        lemma_ops_concat(ohead, otail, r + 2 + 4 * n);
    }
}

/// The optimizer kernel of a graph can go to code generation: its values
/// are defined before they are used, it opens no scope, and every value it
/// declares has a scalar type; so WGSL and HIP generation accept it.
pub proof fn law_optim_kernel_compiles(k: Kernel, graph: Graph, meta: Metadata, zero: Op)
    requires
        graph.nodes@.len() > 0,
        graph.nodes@.last().shape@.len() > 0,
        graph.nodes@.last().dtype is Simple,
        zero_const(graph.nodes@.last().dtype) == Ok::<Op, Error<()>>(zero),
        is_optim_kernel(k, graph, meta, zero),
    ensures
        well_formed(k.raw),
        wgsl_ready(k.raw),
        hip_ready(k.raw),
        hip_ops_ok(k.raw),
        hip_scopes_ok(k.raw.ops@),
{
    let root = graph.nodes@.last();
    let s = root.shape@;
    let r = s.len();
    let sd = root.dtype->Simple_0;
    let n = index_len(r);
    let rates = rate_vals(n, sd);
    let first = n + rates.len();
    let lr = rate_id(n, sd);
    let sgd = sgd_values(root.dtype, lr, ParamId(2), ValueId(r as usize), first, zero);
    lemma_flatten_len(r, (r - 1) as nat);
    let dims = dim_vals(s);
    let gid = seq![Value { dtype: u32_type(), state: ValueState::Mut, init: Some(Op::GlobalId { axis: Axis::X }) }];
    assert(vals_ok(dims, 0));
    assert(vals_simple(dims));
    assert(vals_ok(gid, r));
    assert(vals_simple(gid));
    lemma_vals_concat(dims, gid, 0);
    lemma_simple_concat(dims, gid);
    if r > 1 {
        let g2 = seq![Value { dtype: u32_type(), state: ValueState::Mut, init: None }];
        lemma_flatten_ok(r, (r - 1) as nat);
        assert(vals_ok(g2, r + 1));
        lemma_vals_concat(g2, flatten_vals(r, (r - 1) as nat), r + 1);
        lemma_simple_concat(g2, flatten_vals(r, (r - 1) as nat));
        lemma_vals_concat(dims + gid, g2 + flatten_vals(r, (r - 1) as nat), 0);
        lemma_simple_concat(dims + gid, g2 + flatten_vals(r, (r - 1) as nat));
        assert(index_vals(s) == (dims + gid) + (g2 + flatten_vals(r, (r - 1) as nat)));
    } else {
        assert(index_vals(s) =~= dims + gid);
    }
    assert(index_vals(s).len() == n);
    assert(vals_ok(rates, n));
    assert(vals_simple(rates));
    lemma_vals_concat(index_vals(s), rates, 0);
    lemma_simple_concat(index_vals(s), rates);
    assert(vals_ok(sgd, first));
    assert(vals_simple(sgd));
    lemma_vals_concat(index_vals(s) + rates, sgd, 0);
    lemma_simple_concat(index_vals(s) + rates, sgd);
    assert(k.raw.values@ == index_vals(s) + rates + sgd);
    let total = first + 3;
    assert(k.raw.values@.len() == total);
    let ops1 = index_ops(r);
    let ops2 = define_from(n, rates.len());
    let ops3 = sgd_ops(ParamId(1), ParamId(2), ValueId(r as usize), first);
    assert(ops_ok(define_ops(r + 1), total));
    if r > 1 {
        lemma_flatten_ok(r, (r - 1) as nat);
        let fo = flatten_ops(r, (r - 1) as nat);
        assert forall|j: int| 0 <= j < fo.len() implies lookups_below(#[trigger] fo[j], total) && !is_scope_op(fo[j]) by {
            assert(lookups_below(fo[j], (r + 2 + 4 * (r - 1)) as nat));
        }
        let d2 = seq![Op::DefineVar { id: ValueId((r + 1) as usize) }];
        assert(ops_ok(d2, total));
        lemma_ops_concat(d2, fo, total);
        lemma_ops_concat(define_ops(r + 1), d2 + fo, total);
        assert(ops1 == define_ops(r + 1) + (d2 + fo));
    } else {
        assert(ops1 =~= define_ops(r + 1));
    }
    assert(ops_ok(ops2, total));
    assert(ops_ok(ops3, total));
    lemma_ops_concat(ops1, ops2, total);
    lemma_ops_concat(ops1 + ops2, ops3, total);
    assert(k.raw.ops@ == ops1 + ops2 + ops3);
    assert(well_formed(k.raw));
    assert(wgsl_scopes_ok(k.raw.ops@)) by {
        assert forall|j: int| 0 <= j < k.raw.ops@.len() implies !is_scope_op(#[trigger] k.raw.ops@[j]) by {}
    }
    assert(hip_scopes_ok(k.raw.ops@)) by {
        assert forall|j: int| 0 <= j < k.raw.ops@.len() implies !is_scope_op(#[trigger] k.raw.ops@[j]) by {}
    }
    assert(hip_ready(k.raw));
    lemma_ready_ops(k.raw);
}

} // verus!
