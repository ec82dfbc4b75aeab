use fused_gpu::dispatch::{
    aligned_meta, plan_alloc, OptimState, StateDim, backward_bindings, forward_bindings, generate_layout_desc, loss_bindings, optim_bindings, preferred_backend,
    select_params, BufferBinding, BufferRef, Dynamic, LayoutEntry, Optim,
};
use fused_gpu::dtype::{Axis, DType, SimpleDType};
use fused_gpu::errors::{Error, ErrorKind};
use fused_gpu::graph::{BinaryOp, Graph, LossType, OptimType};
use fused_gpu::id::{MetaId, NodeId, ParamId, ValueId};
use fused_gpu::kernel::{zero_constant, LinkedKernel, Metadata, Param, ParamTy, RawKernel, Value, ValueState};
use fused_gpu::lower::{
    binary_plan, lower_binary, lower_optim, lower_sgd, read_saved, EvalCall, EvalNode, Expr, Operand, Slot, Step, Target,
};
use fused_gpu::nn::{add, div, mul, sub};
use fused_gpu::ops::Op;
use fused_gpu::options::{OptCompilationOptions, OptFlags, PollStatus};
use fused_gpu::dispatch::{check_copy, check_download, check_upload, ready_from_poll, resolve_redirects, target_spec, Redirect};

fn f32_t() -> DType {
    DType::Simple(SimpleDType::F32)
}

fn u32_t() -> DType {
    DType::Simple(SimpleDType::U32)
}

fn empty_kernel() -> RawKernel {
    RawKernel {
        meta: Metadata { fields: 3 },
        shared: vec![],
        values: vec![],
        ops: vec![],
        block: [1, 1, 1],
        root: NodeId(0),
        iter_space: vec![],
    }
}

#[test]
fn sgd_step() {
    let mut k = empty_kernel();
    let lr = k.def_var(f32_t(), ValueState::Immut, Some(Op::ReadMeta { param: ParamId(0), field: MetaId(0) }));
    let gid = k.def_var(u32_t(), ValueState::Immut, Some(Op::GlobalId { axis: Axis::X }));
    lower_sgd(&mut k, f32_t(), lr, ParamId(1), ParamId(2), gid).unwrap();
    assert_eq!(k.values.len(), 5);
    assert_eq!(k.values[2], Value { dtype: f32_t(), state: ValueState::Immut, init: Some(Op::ParamLoad { param: ParamId(2), index: gid }) });
    assert_eq!(k.values[3], Value { dtype: f32_t(), state: ValueState::Immut, init: Some(Op::Mul { a: ValueId(2), b: lr }) });
    assert_eq!(k.values[4], Value { dtype: f32_t(), state: ValueState::Inline, init: Some(Op::ConstF32 { value: 0 }) });
    assert_eq!(
        &k.ops[2..],
        &[
            Op::DefineVar { id: ValueId(2) },
            Op::DefineVar { id: ValueId(3) },
            Op::DefineVar { id: ValueId(4) },
            Op::ParamSub { param: ParamId(1), index: gid, value: ValueId(3) },
            Op::ParamStore { param: ParamId(2), index: gid, value: ValueId(4) },
        ]
    );
}

#[test]
fn sgd_needs_a_zero() {
    let mut k = empty_kernel();
    let e = lower_sgd(&mut k, DType::Simple(SimpleDType::Bool), ValueId(0), ParamId(1), ParamId(2), ValueId(0)).unwrap_err();
    assert_eq!(e.kind, ErrorKind::InvalidDType);
    assert_eq!(k.values.len(), 2);
    assert_eq!(zero_constant(DType::Simple(SimpleDType::F16)).unwrap(), Op::ConstF16 { value: 0 });
}

#[test]
fn optim_kernel_two_dims() {
    let mut meta = Metadata::new();
    let m = meta.new_field();
    let n = meta.new_field();
    let mut g = Graph::new(LossType::MeanSquaredError, OptimType::StochasticGradientDescent);
    g.input(&[m, n], SimpleDType::F16);
    let k = lower_optim(&g, meta).unwrap();
    assert_eq!(k.params, vec![
        Param { dtype: SimpleDType::U32, ty: ParamTy::Uniform, pid: ParamId(0) },
        Param { dtype: SimpleDType::F16, ty: ParamTy::ReadWrite, pid: ParamId(1) },
        Param { dtype: SimpleDType::F16, ty: ParamTy::ReadWrite, pid: ParamId(2) },
    ]);
    assert_eq!(k.meta, vec![false, true, true]);
    assert_eq!(k.raw.block, [256, 1, 1]);
    assert_eq!(k.raw.iter_space, vec![m, n]);
    // dims (2), index, folding value, 4 folding temporaries, row, col, rate, cast rate, sgd (3)
    assert_eq!(k.raw.values.len(), 2 + 1 + 1 + 4 + 3 + 1 + 3);
    assert_eq!(k.raw.values[0].state, ValueState::Mut);
    assert_eq!(k.raw.values[4].init, Some(Op::GlobalId { axis: Axis::Y }));
    assert_eq!(k.raw.values[11].init, Some(Op::CastF16 { id: ValueId(10) }));
    assert_eq!(
        &k.raw.ops[k.raw.ops.len() - 2..],
        &[
            Op::ParamSub { param: ParamId(1), index: ValueId(2), value: ValueId(13) },
            Op::ParamStore { param: ParamId(2), index: ValueId(2), value: ValueId(14) },
        ]
    );
}

#[test]
fn binary_plans() {
    assert_eq!(binary_plan(BinaryOp::Add, None).unwrap(), vec![
        Step::Define { slot: Slot::A, zero: false },
        Step::Eval { input: Operand::Lhs, into: Target::To(Slot::A) },
        Step::Define { slot: Slot::B, zero: false },
        Step::Eval { input: Operand::Rhs, into: Target::To(Slot::B) },
        Step::Overwrite { expr: Expr::Add(Slot::A, Slot::B) },
    ]);
    assert_eq!(binary_plan(BinaryOp::Add, Some(1)).unwrap(), vec![Step::Eval { input: Operand::Own, into: Target::Out }]);
    assert_eq!(binary_plan(BinaryOp::Sub, Some(1)).unwrap().last(), Some(&Step::Accum { expr: Expr::Neg(Slot::G) }));
    assert_eq!(
        binary_plan(BinaryOp::Mul, Some(0)).unwrap()[2],
        Step::ReadSaved { of: Operand::Rhs, into: Slot::Saved }
    );
    assert_eq!(binary_plan(BinaryOp::Div, Some(1)).unwrap().len(), 8);
    let e = binary_plan(BinaryOp::Mul, Some(2)).unwrap_err();
    assert_eq!(e.msg, "backwardness must be restricted to input count");
    assert_eq!(e.kind, ErrorKind::UnresolvedInput);
}

/// Evaluates a node by defining a load of it from parameter 0 into the
/// target, recording the node.
struct Recorder {
    seen: Vec<NodeId>,
}

impl EvalNode for Recorder {
    /// The log exists only for the verifier; nothing runs it.
    fn calls(&self) -> vstd::seq::Seq<EvalCall> {
        unreachable!()
    }

    fn eval_node(&mut self, kernel: &mut LinkedKernel, node: NodeId, out: ValueId) -> Result<Vec<NodeId>, Error<()>> {
        self.seen.push(node);
        let t = kernel.raw.def_var(f32_t(), ValueState::Inline, Some(Op::ParamLoad { param: ParamId(0), index: ValueId(0) }));
        kernel.raw.ops.push(Op::OverwriteVar { id: out, val: t });
        Ok(vec![node])
    }
}

fn linked() -> LinkedKernel {
    LinkedKernel { raw: empty_kernel(), params: vec![false; 4] }
}

#[test]
fn lower_forward_mul() {
    let mut g = Graph::new(LossType::MeanSquaredError, OptimType::StochasticGradientDescent);
    let a = g.input(&[], SimpleDType::F32);
    let b = g.input(&[], SimpleDType::F32);
    let x = mul(&mut g, a, b);
    let mut k = linked();
    let out = k.raw.def_var(f32_t(), ValueState::Mut, None);
    let mut r = Recorder { seen: vec![] };
    let deep = lower_binary(&mut r, &mut k, &g, x, None, out, ValueId(0), &[None, None, None], &[]).unwrap();
    assert_eq!(deep, vec![a, b]);
    assert_eq!(r.seen, vec![a, b]);
    let last = *k.raw.ops.last().unwrap();
    match last {
        Op::OverwriteVar { id, val } => {
            assert_eq!(id, out);
            assert_eq!(k.raw.values[val.0].init, Some(Op::Mul { a: ValueId(1), b: ValueId(3) }));
        },
        _ => panic!("expected the output to be set"),
    }
}

#[test]
fn lower_backward_div_rhs() {
    let mut g = Graph::new(LossType::MeanSquaredError, OptimType::StochasticGradientDescent);
    let a = g.input(&[], SimpleDType::F32);
    let b = g.input(&[], SimpleDType::F32);
    let x = div(&mut g, a, b);
    let mut k = linked();
    let out = k.raw.def_var(f32_t(), ValueState::Mut, None);
    let mut r = Recorder { seen: vec![] };
    let params = [Param { dtype: SimpleDType::F32, ty: ParamTy::ReadOnly, pid: ParamId(3) }; 4];
    let saved = [Some(ParamId(1)), Some(ParamId(2)), None];
    let deep = lower_binary(&mut r, &mut k, &g, x, Some(1), out, ValueId(0), &saved, &params).unwrap();
    assert_eq!(deep, vec![x]);
    assert_eq!(k.params, vec![false, true, true, false]);
    assert!(matches!(k.raw.ops.last(), Some(Op::AddAssign { id, .. }) if *id == out));
}

#[test]
fn lower_rejects_third_input() {
    let mut g = Graph::new(LossType::MeanSquaredError, OptimType::StochasticGradientDescent);
    let a = g.input(&[], SimpleDType::F32);
    let x = mul(&mut g, a, a);
    let mut k = linked();
    let before = k.raw.values.len();
    let mut r = Recorder { seen: vec![] };
    let e = lower_binary(&mut r, &mut k, &g, x, Some(3), ValueId(0), ValueId(0), &[None, None], &[]).unwrap_err();
    assert_eq!(e.kind, ErrorKind::UnresolvedInput);
    assert_eq!(k.raw.values.len(), before);
    assert!(r.seen.is_empty());
}

#[test]
fn read_saved_loads_or_zeroes() {
    let mut g = Graph::new(LossType::MeanSquaredError, OptimType::StochasticGradientDescent);
    let a = g.input(&[], SimpleDType::F16);
    let mut k = linked();
    let params = [Param { dtype: SimpleDType::F32, ty: ParamTy::ReadOnly, pid: ParamId(2) }; 3];
    let v = read_saved(&mut k, ValueId(7), Some(ParamId(2)), &g, a, &params).unwrap();
    assert_eq!(k.raw.values[v.0], Value { dtype: f32_t(), state: ValueState::Immut, init: Some(Op::ParamLoad { param: ParamId(2), index: ValueId(7) }) });
    assert!(k.params[2]);
    let z = read_saved(&mut k, ValueId(7), None, &g, a, &params).unwrap();
    assert_eq!(k.raw.values[z.0].init, Some(Op::ConstF16 { value: 0 }));
}

#[test]
fn sgd_optimizer() {
    let o = Optim::sgd();
    assert!(o.state.shapes.is_empty());
    assert_eq!(o.lower, OptimType::StochasticGradientDescent);
}

#[test]
fn backend_preference() {
    assert_eq!(preferred_backend(true, true, true), Dynamic::Rocm);
    assert_eq!(preferred_backend(true, true, false), Dynamic::Wgsl);
    assert_eq!(preferred_backend(true, false, false), Dynamic::Rocm);
    assert_eq!(preferred_backend(false, true, true), Dynamic::Wgsl);
    assert_eq!(preferred_backend(false, false, true), Dynamic::Nop);
}

#[test]
fn params_of_a_kernel() {
    let ps = [
        Param { dtype: SimpleDType::U32, ty: ParamTy::Uniform, pid: ParamId(0) },
        Param { dtype: SimpleDType::F32, ty: ParamTy::ReadOnly, pid: ParamId(1) },
        Param { dtype: SimpleDType::F32, ty: ParamTy::ReadWrite, pid: ParamId(2) },
    ];
    assert_eq!(select_params(&ps, &[true, false, true]), vec![ps[0], ps[2]]);
    assert_eq!(
        generate_layout_desc(&ps),
        vec![
            LayoutEntry { binding: 0, ty: BufferBinding::Uniform },
            LayoutEntry { binding: 1, ty: BufferBinding::Storage { read_only: true } },
            LayoutEntry { binding: 2, ty: BufferBinding::Storage { read_only: false } },
        ]
    );
}

#[test]
fn pass_bindings() {
    assert_eq!(forward_bindings(1, 2), vec![BufferRef::ForwardSaved(0), BufferRef::Input(0), BufferRef::Input(1), BufferRef::ForwardOut]);
    assert_eq!(
        backward_bindings(1, 2, 1),
        vec![BufferRef::Seed, BufferRef::Grad(0), BufferRef::Grad(1), BufferRef::Input(0), BufferRef::ForwardSaved(0)]
    );
    assert_eq!(loss_bindings(), [BufferRef::Loss, BufferRef::Seed, BufferRef::ForwardOut, BufferRef::Target]);
    assert_eq!(optim_bindings(3, 2), vec![BufferRef::Weight, BufferRef::Grad(3), BufferRef::State(0), BufferRef::State(1)]);
}

#[test]
fn default_optimization() {
    let o = OptCompilationOptions::default();
    assert_eq!(o.tile_size, 16);
    assert_eq!(o.passes, 3);
    assert!(o.flags.contains(OptFlags::MUL_ADD | OptFlags::LATE_INIT));
    assert!(!OptFlags::empty().contains(OptFlags::DEAD_CODE));
}

#[test]
fn alloc_plan_mul_add() {
    let mut meta = Metadata::new();
    let m = meta.new_field();
    let n = meta.new_field();
    let mut g = Graph::new(LossType::MeanSquaredError, OptimType::StochasticGradientDescent);
    let a = g.input(&[m, n], SimpleDType::F32);
    let b = g.input(&[m, n], SimpleDType::F32);
    let c = g.input(&[m, n], SimpleDType::F32);
    let x = mul(&mut g, a, b);
    fused_gpu::nn::add(&mut g, c, x);
    let saved = g.compute_saved_nodes();
    let binding = [0u32, 32, 32];
    let plan = plan_alloc(&g, &saved.0, &binding, &OptimState { shapes: vec![] });
    assert!(plan.forward_saved.is_empty());
    assert_eq!(plan.grads, vec![4096, 4096, 4096]);
    assert!(plan.states.is_empty());
    assert_eq!(plan.out_shape, vec![32, 32]);
    assert_eq!(plan.out_len, 4096);
    let with_state = plan_alloc(&g, &saved.0, &binding, &OptimState { shapes: vec![StateDim::Const(8), StateDim::GradRelative(2)] });
    assert_eq!(with_state.states, vec![8, 8192, 8, 8192, 8, 8192]);
}

#[test]
fn redirects_resolve_in_one_step() {
    let slots = [Redirect::Unmasked, Redirect::Redirected(0), Redirect::Unmasked];
    assert_eq!(resolve_redirects(&slots).unwrap(), vec![0, 0, 2]);
    let bad = [Redirect::Redirected(1), Redirect::Redirected(0)];
    let e = resolve_redirects(&bad).unwrap_err();
    assert_eq!(e.kind, ErrorKind::UnresolvedRedirection);
    assert_eq!(target_spec(true).flags.bits, 1);
    assert_eq!(target_spec(false).flags.bits, 0);
}

#[test]
fn transfer_checks() {
    assert!(check_upload(16, 4, 12).is_ok());
    assert_eq!(check_upload(16, 4, 11).unwrap_err().kind, ErrorKind::FailedBufferCopy);
    assert!(check_upload(16, 20, 0).is_ok());
    assert!(check_copy(8, 8).is_ok());
    assert_eq!(check_copy(8, 4).unwrap_err().msg, "buffers of unequal sizes during pipe");
    assert!(check_download(16, 16).is_ok());
    assert!(check_download(16, 15).is_err());
    assert_eq!(ready_from_poll(PollStatus::Pending).unwrap(), false);
    assert_eq!(ready_from_poll(PollStatus::Ready).unwrap(), true);
    assert_eq!(ready_from_poll(PollStatus::QueueEmpty).unwrap_err().msg, "queue empty on poll");
    assert_eq!(ready_from_poll(PollStatus::Failed).unwrap_err().kind, ErrorKind::PollFailed);
}

#[test]
fn meta_binding_is_padded_to_rows() {
    assert_eq!(aligned_meta(&[1, 2, 3, 4]), vec![1, 2, 3, 4]);
    assert_eq!(aligned_meta(&[7, 8, 9, 10, 11]), vec![7, 8, 9, 10, 11, u32::MAX, u32::MAX, u32::MAX]);
    assert_eq!(aligned_meta(&[5, 6]), vec![5, 6, u32::MAX, u32::MAX]);
    assert_eq!(aligned_meta(&[]), Vec::<u32>::new());
}

/// Lowers node `x` of `g` for a pass into a fresh output value 0, with
/// every input saved to parameter 1 + its index.
fn lower_pass(g: &fused_gpu::graph::Graph, x: NodeId, pass: Option<u8>) -> (LinkedKernel, Recorder, Vec<NodeId>, ValueId) {
    let mut k = linked();
    let out = k.raw.def_var(f32_t(), ValueState::Mut, None);
    let mut r = Recorder { seen: vec![] };
    let params = [Param { dtype: SimpleDType::F32, ty: ParamTy::ReadOnly, pid: ParamId(3) }; 4];
    let saved = [Some(ParamId(1)), Some(ParamId(2)), None];
    let deep = lower_binary(&mut r, &mut k, g, x, pass, out, ValueId(9), &saved, &params).unwrap();
    (k, r, deep, out)
}

fn two_inputs() -> (Graph, NodeId, NodeId) {
    let mut g = Graph::new(LossType::MeanSquaredError, OptimType::StochasticGradientDescent);
    let a = g.input(&[], SimpleDType::F32);
    let b = g.input(&[], SimpleDType::F32);
    (g, a, b)
}

#[test]
fn lower_forward_sub_is_lhs_minus_rhs() {
    let (mut g, a, b) = two_inputs();
    let x = sub(&mut g, a, b);
    let (k, r, deep, out) = lower_pass(&g, x, None);
    assert_eq!(r.seen, vec![a, b]);
    assert_eq!(deep, vec![a, b]);
    assert_eq!(*k.raw.ops.last().unwrap(), Op::OverwriteVar { id: out, val: ValueId(5) });
    assert_eq!(k.raw.values[5].init, Some(Op::Sub { a: ValueId(1), b: ValueId(3) }));
}

#[test]
fn lower_forward_add_sums_operands() {
    let (mut g, a, b) = two_inputs();
    let x = add(&mut g, a, b);
    let (k, r, deep, out) = lower_pass(&g, x, None);
    assert_eq!(r.seen, vec![a, b]);
    assert_eq!(deep, vec![a, b]);
    assert_eq!(*k.raw.ops.last().unwrap(), Op::OverwriteVar { id: out, val: ValueId(5) });
    assert_eq!(k.raw.values[5].init, Some(Op::Add { a: ValueId(1), b: ValueId(3) }));
}

#[test]
fn lower_backward_add_passes_gradient() {
    let (mut g, a, b) = two_inputs();
    let x = add(&mut g, a, b);
    for pass in [0u8, 1u8] {
        let (k, r, deep, out) = lower_pass(&g, x, Some(pass));
        assert_eq!(r.seen, vec![x]);
        assert_eq!(deep, vec![x]);
        assert_eq!(k.raw.values.len(), 2);
        assert_eq!(*k.raw.ops.last().unwrap(), Op::OverwriteVar { id: out, val: ValueId(1) });
    }
}

#[test]
fn lower_backward_sub_negates_for_rhs() {
    let (mut g, a, b) = two_inputs();
    let x = sub(&mut g, a, b);
    let (k, r, _, out) = lower_pass(&g, x, Some(0));
    assert_eq!(r.seen, vec![x]);
    assert_eq!(*k.raw.ops.last().unwrap(), Op::OverwriteVar { id: out, val: ValueId(1) });
    let (k, r, _, out) = lower_pass(&g, x, Some(1));
    assert_eq!(r.seen, vec![x]);
    assert_eq!(k.raw.values[1].init, Some(Op::ConstF32 { value: 0 }));
    assert_eq!(*k.raw.ops.last().unwrap(), Op::AddAssign { id: out, val: ValueId(3) });
    assert_eq!(k.raw.values[3].init, Some(Op::Neg { x: ValueId(1) }));
}

#[test]
fn lower_backward_mul_scales_by_other_operand() {
    let (mut g, a, b) = two_inputs();
    let x = mul(&mut g, a, b);
    let (k, r, _, out) = lower_pass(&g, x, Some(0));
    assert_eq!(r.seen, vec![x]);
    assert_eq!(k.raw.values[3].init, Some(Op::ParamLoad { param: ParamId(2), index: ValueId(9) }));
    assert_eq!(*k.raw.ops.last().unwrap(), Op::AddAssign { id: out, val: ValueId(4) });
    assert_eq!(k.raw.values[4].init, Some(Op::Mul { a: ValueId(1), b: ValueId(3) }));
    let (k, _, _, _) = lower_pass(&g, x, Some(1));
    assert_eq!(k.raw.values[3].init, Some(Op::ParamLoad { param: ParamId(1), index: ValueId(9) }));
}

#[test]
fn lower_backward_div_quotient_rules() {
    let (mut g, a, b) = two_inputs();
    let x = div(&mut g, a, b);
    let (k, _, _, out) = lower_pass(&g, x, Some(0));
    assert_eq!(k.raw.values[3].init, Some(Op::ParamLoad { param: ParamId(2), index: ValueId(9) }));
    assert_eq!(*k.raw.ops.last().unwrap(), Op::AddAssign { id: out, val: ValueId(4) });
    assert_eq!(k.raw.values[4].init, Some(Op::Div { a: ValueId(1), b: ValueId(3) }));
    let (k, _, _, out) = lower_pass(&g, x, Some(1));
    assert_eq!(k.raw.values[3].init, Some(Op::ParamLoad { param: ParamId(1), index: ValueId(9) }));
    assert_eq!(k.raw.values[4].init, Some(Op::ParamLoad { param: ParamId(2), index: ValueId(9) }));
    assert_eq!(k.raw.values[5].init, Some(Op::Mul { a: ValueId(4), b: ValueId(4) }));
    assert_eq!(k.raw.values[6].init, Some(Op::Neg { x: ValueId(1) }));
    assert_eq!(k.raw.values[7].init, Some(Op::Div { a: ValueId(3), b: ValueId(5) }));
    assert_eq!(*k.raw.ops.last().unwrap(), Op::AddAssign { id: out, val: ValueId(8) });
    assert_eq!(k.raw.values[8].init, Some(Op::Mul { a: ValueId(6), b: ValueId(7) }));
}
