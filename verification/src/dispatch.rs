//! Dispatch planning: the optimizer of a graph, which backend a context
//! runs on, which parameters a compiled kernel binds, and the order of the
//! buffers each pass binds.

use vstd::prelude::*;
use crate::dtype::{DType, SimpleDType};
use crate::errors::{err, make_err, Error, ErrorKind};
use crate::graph::{Graph, Node, OptimType, SaveIndicator};
use crate::id::MetaId;
use crate::kernel::{Param, ParamTy};

verus! {

/// The size of one optimizer state tensor: a fixed number of bytes, or a
/// multiple of the gradient's size.
#[derive(Debug, Clone, Copy, PartialEq, Eq, Hash, Structural)]
pub enum StateDim {
    Const(u32),
    GradRelative(u32),
}

/// The state tensors an optimizer keeps for each gradient.
#[derive(Debug, Clone)]
pub struct OptimState {
    pub shapes: Vec<StateDim>,
}

/// An optimizer: its state and its update rule.
#[derive(Debug, Clone)]
pub struct Optim {
    pub state: OptimState,
    pub lower: OptimType,
}

impl Optim {
    /// Stochastic gradient descent, which keeps no state.
    pub fn sgd() -> (o: Optim)
        ensures
            o.state.shapes@.len() == 0,
            o.lower == OptimType::StochasticGradientDescent,
    {
        Optim { state: OptimState { shapes: Vec::new() }, lower: OptimType::StochasticGradientDescent }
    }
}

/// The metadata values bound to a graph's metadata fields: the learning
/// rate's bits, then the dimensions.
#[derive(Debug, Clone)]
pub struct MetaBinding(pub Vec<u32>);

/// The backend a dynamic context runs on.
#[derive(Debug, Clone, Copy, PartialEq, Eq, Hash, Structural)]
pub enum Dynamic {
    Nop,
    Wgsl,
    Rocm,
}

/// The backend a new dynamic context prefers: ROCm where it is built in and
/// the ROCm runtime and compiler libraries are present, else WGSL where it is
/// built in, else ROCm where it is the only backend built in, else none. The
/// choice is made once, before any context is opened; a failure to open the
/// chosen one is not retried on another.
pub open spec fn preferred(rocm_built: bool, wgsl_built: bool, rocm_present: bool) -> Dynamic {
    if rocm_built && (rocm_present || !wgsl_built) {
        Dynamic::Rocm
    } else if wgsl_built {
        Dynamic::Wgsl
    } else {
        Dynamic::Nop
    }
}

/// The backend a new dynamic context prefers.
pub fn preferred_backend(rocm_built: bool, wgsl_built: bool, rocm_present: bool) -> (d: Dynamic)
    ensures
        d == preferred(rocm_built, wgsl_built, rocm_present),
{
    if rocm_built {
        if wgsl_built {
            if rocm_present {
                Dynamic::Rocm
            } else {
                Dynamic::Wgsl
            }
        } else {
            Dynamic::Rocm
        }
    } else if wgsl_built {
        Dynamic::Wgsl
    } else {
        Dynamic::Nop
    }
}

/// A GPU buffer's sizes.
pub trait GpuBufferBackend {
    /// The length in 32-bit words.
    fn size(&self) -> u32;

    /// The length in bytes.
    fn size_bytes(&self) -> u32;
}

/// A compiled kernel's dispatch shape.
pub trait GpuKernelBackend {
    /// The metadata fields whose product is the number of threads.
    fn iteration_space(&self) -> &[MetaId];

    /// The workgroup size.
    fn block(&self) -> &[u32; 3];
}

/// The parameters a kernel uses, in order: those of `params` whose flag in
/// `used` is set.
pub open spec fn selected(params: Seq<Param>, used: Seq<bool>) -> Seq<Param>
    decreases params.len(),
{
    if params.len() == 0 {
        Seq::empty()
    } else {
        let rest = selected(params.drop_last(), used);
        if used[params.len() - 1] {
            rest.push(params.last())
        } else {
            rest
        }
    }
}

/// The parameters a kernel uses, in order.
pub fn select_params(params: &[Param], used: &[bool]) -> (v: Vec<Param>)
    requires
        used@.len() >= params@.len(),
    ensures
        v@ == selected(params@, used@),
{
    let mut v: Vec<Param> = Vec::new();
    let mut i: usize = 0;
    while i < params.len()
        invariant
            i <= params@.len(),
            used@.len() >= params@.len(),
            v@ == selected(params@.take(i as int), used@),
        decreases params@.len() - i,
    {
        proof {
            assert(params@.take(i + 1).drop_last() =~= params@.take(i as int));
            assert(params@.take(i + 1).last() == params@[i as int]);
        }
        if used[i] {
            v.push(params[i]);
        }
        i = i + 1;
    }
    proof {
        assert(params@.take(params@.len() as int) =~= params@);
    }
    v
}

/// A buffer a pass binds.
#[derive(Debug, Clone, Copy, PartialEq, Eq, Hash, Structural)]
pub enum BufferRef {
    /// A forward value saved for the backward pass.
    ForwardSaved(usize),
    /// An input tensor.
    Input(usize),
    /// The output of the forward pass.
    ForwardOut,
    /// The gradient seed of the backward pass.
    Seed,
    /// The gradient of a node.
    Grad(usize),
    /// The loss.
    Loss,
    /// The target of the loss.
    Target,
    /// The weights an optimizer step updates.
    Weight,
    /// An optimizer state tensor.
    State(usize),
}

/// `n` buffers of one kind, numbered from 0.
pub open spec fn numbered(n: nat, f: spec_fn(usize) -> BufferRef) -> Seq<BufferRef> {
    Seq::new(n, |i: int| f(i as usize))
}

/// The buffers the forward pass binds: the saved values, the inputs, then
/// the output.
pub open spec fn forward_layout(saved: nat, inputs: nat) -> Seq<BufferRef> {
    numbered(saved, |i: usize| BufferRef::ForwardSaved(i)) + numbered(inputs, |i: usize| BufferRef::Input(i))
        + seq![BufferRef::ForwardOut]
}

/// The buffers the backward pass binds: the seed, the gradients, the
/// inputs, then the saved values.
pub open spec fn backward_layout(saved: nat, grads: nat, inputs: nat) -> Seq<BufferRef> {
    seq![BufferRef::Seed] + numbered(grads, |i: usize| BufferRef::Grad(i)) + numbered(inputs, |i: usize| BufferRef::Input(i))
        + numbered(saved, |i: usize| BufferRef::ForwardSaved(i))
}

/// Buffer number `i` of kind `kind`: a saved value, an input or a
/// gradient.
pub open spec fn kind_ref(kind: u8, i: usize) -> BufferRef {
    if kind == 0 {
        BufferRef::ForwardSaved(i)
    } else if kind == 1 {
        BufferRef::Input(i)
    } else {
        BufferRef::Grad(i)
    }
}

/// Appends `n` buffers of one kind.
fn push_numbered(v: &mut Vec<BufferRef>, n: usize, kind: u8)
    requires
        kind < 3,
    ensures
        final(v)@ == old(v)@ + numbered(n as nat, |i: usize| kind_ref(kind, i)),
{
    let mut i: usize = 0;
    while i < n
        invariant
            i <= n,
            kind < 3,
            v@ == old(v)@ + numbered(i as nat, |k: usize| kind_ref(kind, k)),
        decreases n - i,
    {
        let b = if kind == 0 {
            BufferRef::ForwardSaved(i)
        } else if kind == 1 {
            BufferRef::Input(i)
        } else {
            BufferRef::Grad(i)
        };
        v.push(b);
        i = i + 1;
        proof {
            assert(v@ =~= old(v)@ + numbered(i as nat, |k: usize| kind_ref(kind, k)));
        }
    }
}

/// The buffers the forward pass binds.
pub fn forward_bindings(saved: usize, inputs: usize) -> (v: Vec<BufferRef>)
    ensures
        v@ == forward_layout(saved as nat, inputs as nat),
{
    let mut v: Vec<BufferRef> = Vec::new();
    push_numbered(&mut v, saved, 0);
    push_numbered(&mut v, inputs, 1);
    v.push(BufferRef::ForwardOut);
    proof {
        assert(v@ =~= forward_layout(saved as nat, inputs as nat));
    }
    v
}

/// The buffers the backward pass binds.
pub fn backward_bindings(saved: usize, grads: usize, inputs: usize) -> (v: Vec<BufferRef>)
    ensures
        v@ == backward_layout(saved as nat, grads as nat, inputs as nat),
{
    let mut v: Vec<BufferRef> = Vec::new();
    v.push(BufferRef::Seed);
    push_numbered(&mut v, grads, 2);
    push_numbered(&mut v, inputs, 1);
    push_numbered(&mut v, saved, 0);
    proof {
        assert(v@ =~= backward_layout(saved as nat, grads as nat, inputs as nat));
    }
    v
}

/// The buffers the loss kernel binds: the loss, the seed it writes, the
/// forward output and the target.
pub fn loss_bindings() -> (v: [BufferRef; 4])
    ensures
        v@ == seq![BufferRef::Loss, BufferRef::Seed, BufferRef::ForwardOut, BufferRef::Target],
{
    let v = [BufferRef::Loss, BufferRef::Seed, BufferRef::ForwardOut, BufferRef::Target];
    proof {
        assert(v@ =~= seq![BufferRef::Loss, BufferRef::Seed, BufferRef::ForwardOut, BufferRef::Target]);
    }
    v
}

/// The buffers an optimizer step binds: the weights, the gradient of
/// graph input `grad`, then each state tensor.
pub fn optim_bindings(grad: usize, states: usize) -> (v: Vec<BufferRef>)
    ensures
        v@ == seq![BufferRef::Weight, BufferRef::Grad(grad)] + numbered(states as nat, |i: usize| BufferRef::State(i)),
{
    let mut v: Vec<BufferRef> = Vec::new();
    v.push(BufferRef::Weight);
    v.push(BufferRef::Grad(grad));
    let ghost head = v@;
    let mut i: usize = 0;
    while i < states
        invariant
            i <= states,
            v@ == head + numbered(i as nat, |k: usize| BufferRef::State(k)),
        decreases states - i,
    {
        v.push(BufferRef::State(i));
        i = i + 1;
        proof {
            assert(v@ =~= head + numbered(i as nat, |k: usize| BufferRef::State(k)));
        }
    }
    v
}

/// How a buffer is bound in WGSL.
#[derive(Debug, Clone, Copy, PartialEq, Eq, Hash, Structural)]
pub enum BufferBinding {
    Uniform,
    Storage { read_only: bool },
}

/// The binding of one parameter in a WGSL bind group layout.
#[derive(Debug, Clone, Copy, PartialEq, Eq, Hash, Structural)]
pub struct LayoutEntry {
    pub binding: u32,
    pub ty: BufferBinding,
}

/// How a parameter is bound in WGSL.
pub open spec fn binding_of(ty: ParamTy) -> BufferBinding {
    match ty {
        ParamTy::Uniform => BufferBinding::Uniform,
        ParamTy::ReadOnly => BufferBinding::Storage { read_only: true },
        ParamTy::ReadWrite => BufferBinding::Storage { read_only: false },
    }
}

/// The WGSL bind group layout of a kernel's parameters: one entry per
/// parameter, at its index.
pub fn generate_layout_desc(params: &[Param]) -> (v: Vec<LayoutEntry>)
    requires
        forall|i: int| 0 <= i < params@.len() ==> (#[trigger] params@[i]).pid.0 <= u32::MAX,
    ensures
        v@.len() == params@.len(),
        forall|i: int| 0 <= i < params@.len() ==> (#[trigger] v@[i]) == (LayoutEntry {
            binding: params@[i].pid.0 as u32,
            ty: binding_of(params@[i].ty),
        }),
{
    let mut v: Vec<LayoutEntry> = Vec::new();
    let mut i: usize = 0;
    while i < params.len()
        invariant
            i <= params@.len(),
            forall|k: int| 0 <= k < params@.len() ==> (#[trigger] params@[k]).pid.0 <= u32::MAX,
            v@.len() == i,
            forall|k: int| 0 <= k < i ==> (#[trigger] v@[k]) == (LayoutEntry {
                binding: params@[k].pid.0 as u32,
                ty: binding_of(params@[k].ty),
            }),
        decreases params@.len() - i,
    {
        let p = params[i];
        let ty = match p.ty {
            ParamTy::Uniform => BufferBinding::Uniform,
            ParamTy::ReadOnly => BufferBinding::Storage { read_only: true },
            ParamTy::ReadWrite => BufferBinding::Storage { read_only: false },
        };
        v.push(LayoutEntry { binding: p.pid.0 as u32, ty });
        i = i + 1;
    }
    v
}

/// The size in bytes of one element of a type.
pub open spec fn dtype_size(t: SimpleDType) -> nat {
    match t {
        SimpleDType::F64 => 8,
        SimpleDType::F32 => 4,
        SimpleDType::F16 => 2,
        SimpleDType::BF16 => 2,
        SimpleDType::Bool => 1,
        SimpleDType::I32 => 4,
        SimpleDType::U32 => 4,
    }
}

/// The size in bytes of one element of a type.
pub fn size_of_dtype(t: SimpleDType) -> (n: u32)
    ensures
        n == dtype_size(t),
{
    match t {
        SimpleDType::F64 => 8,
        SimpleDType::F32 => 4,
        SimpleDType::F16 => 2,
        SimpleDType::BF16 => 2,
        SimpleDType::Bool => 1,
        SimpleDType::I32 => 4,
        SimpleDType::U32 => 4,
    }
}

/// The dimensions of a shape, read from the metadata binding.
pub open spec fn dims_of(shape: Seq<MetaId>, meta: Seq<u32>) -> Seq<u32> {
    shape.map_values(|m: MetaId| meta[m.0 as int])
}

/// The product of dimensions.
pub open spec fn dims_prod(dims: Seq<u32>) -> nat
    decreases dims.len(),
{
    if dims.len() == 0 {
        1
    } else {
        dims_prod(dims.drop_last()) * (dims.last() as nat)
    }
}

/// Every partial product of the dimensions, left to right, fits in a
/// `u32`.
pub open spec fn prod_fits(dims: Seq<u32>) -> bool
    decreases dims.len(),
{
    dims.len() == 0 || (prod_fits(dims.drop_last()) && dims_prod(dims) <= u32::MAX)
}

/// The byte length of a node's tensor under a metadata binding.
pub open spec fn node_len(n: Node, meta: Seq<u32>) -> nat {
    dims_prod(dims_of(n.shape@, meta)) * dtype_size(n.dtype->Simple_0)
}

/// A node's tensor can be sized: a scalar type, dimensions bound by the
/// metadata, and a byte length that fits in a `u32` at every step.
pub open spec fn sizable(n: Node, meta: Seq<u32>) -> bool {
    &&& n.dtype is Simple
    &&& forall|k: int| 0 <= k < n.shape@.len() ==> (#[trigger] n.shape@[k]).0 < meta.len()
    &&& prod_fits(dims_of(n.shape@, meta))
    &&& node_len(n, meta) <= u32::MAX
}

/// The byte length of an optimizer state tensor for a gradient of `len`
/// bytes.
pub open spec fn state_len(d: StateDim, len: nat) -> nat {
    match d {
        StateDim::Const(v) => v as nat,
        StateDim::GradRelative(v) => len * (v as nat),
    }
}

/// The buffers to allocate for training a graph, by byte length.
#[derive(Debug, Clone)]
pub struct AllocPlan {
    /// For each node the forward pass saves, in order.
    pub forward_saved: Vec<u32>,
    /// For each node that gets a gradient, in order.
    pub grads: Vec<u32>,
    /// For each gradient, its optimizer state tensors, in order.
    pub states: Vec<u32>,
    /// The dimensions of the output, of the loss and of the seed.
    pub out_shape: Vec<u32>,
    /// The byte length of the output, of the loss and of the seed.
    pub out_len: u32,
}

/// The byte lengths of the nodes `0..n` that have a mark.
pub open spec fn marked_lens(g: Graph, saved: Seq<SaveIndicator>, meta: Seq<u32>, n: nat, forward: bool) -> Seq<u32>
    decreases n,
{
    if n == 0 {
        Seq::empty()
    } else {
        let rest = marked_lens(g, saved, meta, (n - 1) as nat, forward);
        let s = saved[n - 1];
        if (forward && s.defined_in_forward) || (!forward && s.defined_in_backward) {
            rest.push(node_len(g.nodes@[n - 1], meta) as u32)
        } else {
            rest
        }
    }
}

/// The optimizer state lengths of the nodes `0..n` that get a gradient.
pub open spec fn state_lens(g: Graph, saved: Seq<SaveIndicator>, meta: Seq<u32>, shapes: Seq<StateDim>, n: nat) -> Seq<u32>
    decreases n,
{
    if n == 0 {
        Seq::empty()
    } else {
        let rest = state_lens(g, saved, meta, shapes, (n - 1) as nat);
        if saved[n - 1].defined_in_backward {
            let len = node_len(g.nodes@[n - 1], meta);
            rest + shapes.map_values(|d: StateDim| state_len(d, len) as u32)
        } else {
            rest
        }
    }
}

/// The dimensions of a shape, read from the metadata binding.
pub fn build_dims(shape: &[MetaId], meta: &[u32]) -> (dims: Vec<u32>)
    requires
        forall|k: int| 0 <= k < shape@.len() ==> (#[trigger] shape@[k]).0 < meta@.len(),
    ensures
        dims@ == dims_of(shape@, meta@),
{
    let mut dims: Vec<u32> = Vec::new();
    let mut i: usize = 0;
    while i < shape.len()
        invariant
            i <= shape@.len(),
            forall|k: int| 0 <= k < shape@.len() ==> (#[trigger] shape@[k]).0 < meta@.len(),
            dims@ == dims_of(shape@.take(i as int), meta@),
        decreases shape@.len() - i,
    {
        dims.push(meta[shape[i].0]);
        i = i + 1;
        proof {
            assert(dims@ =~= dims_of(shape@.take(i as int), meta@));
        }
    }
    proof {
        assert(shape@.take(shape@.len() as int) =~= shape@);
    }
    dims
}

/// The product of dimensions whose partial products fit.
fn product_of(dims: &[u32]) -> (p: u32)
    requires
        prod_fits(dims@),
    ensures
        p == dims_prod(dims@),
{
    let mut acc: u32 = 1;
    let mut i: usize = 0;
    while i < dims.len()
        invariant
            i <= dims@.len(),
            prod_fits(dims@),
            acc == dims_prod(dims@.take(i as int)),
        decreases dims@.len() - i,
    {
        proof {
            assert(dims@.take(i + 1).drop_last() =~= dims@.take(i as int));
            assert(dims@.take(i + 1).last() == dims@[i as int]);
            lemma_prefix_fits(dims@, i + 1);
        }
        acc = acc * dims[i];
        i = i + 1;
    }
    proof {
        assert(dims@.take(dims@.len() as int) =~= dims@);
    }
    acc
}

/// The partial products of dimensions that fit fit on every prefix.
pub proof fn lemma_prefix_fits(dims: Seq<u32>, k: int)
    requires
        prod_fits(dims),
        0 <= k <= dims.len(),
    ensures
        prod_fits(dims.take(k)),
        k > 0 ==> dims_prod(dims.take(k)) <= u32::MAX,
    decreases dims.len(),
{
    if k == dims.len() {
        assert(dims.take(k) =~= dims);
    } else {
        lemma_prefix_fits(dims.drop_last(), k);
        assert(dims.drop_last().take(k) =~= dims.take(k));
    }
}

/// The byte length of a node's tensor under a metadata binding.
fn node_length(n: &Node, meta: &[u32]) -> (len: u32)
    requires
        sizable(*n, meta@),
    ensures
        len == node_len(*n, meta@),
{
    let dims = build_dims(n.shape.as_slice(), meta);
    let p = product_of(dims.as_slice());
    let size = match n.dtype {
        DType::Simple(t) => size_of_dtype(t),
        DType::Mma(t) => size_of_dtype(t),
    };
    p * size
}

/// Plans the buffers for training a graph: a buffer for each node the
/// forward pass saves, a gradient for each node marked for one with its
/// optimizer state tensors, and the output, loss and seed, each as long as
/// the last node's tensor.
pub fn plan_alloc(graph: &Graph, saved: &[SaveIndicator], meta: &[u32], state: &OptimState) -> (p: AllocPlan)
    requires
        graph.nodes@.len() > 0,
        saved@.len() <= graph.nodes@.len(),
        forall|i: int| 0 <= i < saved@.len() ==> sizable(#[trigger] graph.nodes@[i], meta@),
        sizable(graph.nodes@.last(), meta@),
        forall|i: int, k: int| 0 <= i < saved@.len() && 0 <= k < state.shapes@.len() && saved@[i].defined_in_backward
            ==> state_len(#[trigger] state.shapes@[k], node_len(#[trigger] graph.nodes@[i], meta@)) <= u32::MAX,
    ensures
        p.forward_saved@ == marked_lens(*graph, saved@, meta@, saved@.len(), true),
        p.grads@ == marked_lens(*graph, saved@, meta@, saved@.len(), false),
        p.states@ == state_lens(*graph, saved@, meta@, state.shapes@, saved@.len()),
        p.out_shape@ == dims_of(graph.nodes@.last().shape@, meta@),
        p.out_len == node_len(graph.nodes@.last(), meta@),
{
    let mut forward_saved: Vec<u32> = Vec::new();
    let mut grads: Vec<u32> = Vec::new();
    let mut states: Vec<u32> = Vec::new();
    let mut idx: usize = 0;
    while idx < saved.len()
        invariant
            idx <= saved@.len(),
            saved@.len() <= graph.nodes@.len(),
            forall|i: int| 0 <= i < saved@.len() ==> sizable(#[trigger] graph.nodes@[i], meta@),
            forall|i: int, k: int| 0 <= i < saved@.len() && 0 <= k < state.shapes@.len() && saved@[i].defined_in_backward
                ==> state_len(#[trigger] state.shapes@[k], node_len(#[trigger] graph.nodes@[i], meta@)) <= u32::MAX,
            forward_saved@ == marked_lens(*graph, saved@, meta@, idx as nat, true),
            grads@ == marked_lens(*graph, saved@, meta@, idx as nat, false),
            states@ == state_lens(*graph, saved@, meta@, state.shapes@, idx as nat),
        decreases saved@.len() - idx,
    {
        let save = saved[idx];
        let node = &graph.nodes[idx];
        let len = node_length(node, meta);
        if save.defined_in_forward {
            forward_saved.push(len);
        }
        if save.defined_in_backward {
            grads.push(len);
            let ghost before = states@;
            let mut t: usize = 0;
            while t < state.shapes.len()
                invariant
                    t <= state.shapes@.len(),
                    idx < saved@.len(),
                    saved@[idx as int].defined_in_backward,
                    len == node_len(graph.nodes@[idx as int], meta@),
                    forall|i: int, k: int| 0 <= i < saved@.len() && 0 <= k < state.shapes@.len() && saved@[i].defined_in_backward
                        ==> state_len(#[trigger] state.shapes@[k], node_len(#[trigger] graph.nodes@[i], meta@)) <= u32::MAX,
                    states@ == before + state.shapes@.take(t as int).map_values(|d: StateDim| state_len(d, len as nat) as u32),
                decreases state.shapes@.len() - t,
            {
                let l = match state.shapes[t] {
                    StateDim::Const(v) => v,
                    StateDim::GradRelative(v) => {
                        proof {
                            assert(state_len(state.shapes@[t as int], node_len(graph.nodes@[idx as int], meta@)) <= u32::MAX);
                        }
                        len * v
                    },
                };
                states.push(l);
                t = t + 1;
                proof {
                    assert(states@ =~= before + state.shapes@.take(t as int).map_values(|d: StateDim| state_len(d, len as nat) as u32));
                }
            }
            proof {
                assert(state.shapes@.take(state.shapes@.len() as int) =~= state.shapes@);
            }
        }
        idx = idx + 1;
    }
    let last = &graph.nodes[graph.nodes.len() - 1];
    let out_shape = build_dims(last.shape.as_slice(), meta);
    let out_len = node_length(last, meta);
    AllocPlan { forward_saved, grads, states, out_shape, out_len }
}

/// A kernel slot of a pass: a kernel of its own, or the reuse of the
/// kernel of another slot.
#[derive(Debug, Clone, Copy, PartialEq, Eq, Hash, Structural)]
pub enum Redirect {
    Redirected(usize),
    Unmasked,
}

/// A slot that redirects to a slot that redirects again, or to no slot.
pub open spec fn redirection_err() -> Error<()> {
    err("double redirection or loop encountered in kernel resolution", ErrorKind::UnresolvedRedirection)
}

/// The slot whose kernel slot `i` runs, if it resolves in one step.
pub open spec fn resolved(slots: Seq<Redirect>, i: int) -> Option<usize> {
    match slots[i] {
        Redirect::Unmasked => Some(i as usize),
        Redirect::Redirected(j) => if j < slots.len() && slots[j as int] == Redirect::Unmasked {
            Some(j)
        } else {
            None
        },
    }
}

/// For each kernel slot of a pass, the slot whose kernel it runs: its own,
/// or the one it redirects to, which must have a kernel of its own. Fails
/// on the first slot that does not resolve in one step.
pub fn resolve_redirects(slots: &[Redirect]) -> (r: Result<Vec<usize>, Error<()>>)
    ensures
        match r {
            Ok(v) => v@.len() == slots@.len()
                && forall|i: int| 0 <= i < slots@.len() ==> resolved(slots@, i) == Some(#[trigger] v@[i]),
            Err(e) => e == redirection_err() && exists|i: int| 0 <= i < slots@.len() && #[trigger] resolved(slots@, i) is None,
        },
{
    let mut v: Vec<usize> = Vec::new();
    let mut i: usize = 0;
    while i < slots.len()
        invariant
            i <= slots@.len(),
            v@.len() == i,
            forall|k: int| 0 <= k < i ==> resolved(slots@, k) == Some(#[trigger] v@[k]),
        decreases slots@.len() - i,
    {
        match slots[i] {
            Redirect::Unmasked => {
                v.push(i);
            },
            Redirect::Redirected(j) => {
                if j < slots.len() && slots[j] == Redirect::Unmasked {
                    v.push(j);
                } else {
                    proof {
                        assert(resolved(slots@, i as int) is None);
                    }
                    return Err(make_err("double redirection or loop encountered in kernel resolution", ErrorKind::UnresolvedRedirection));
                }
            },
        }
        i = i + 1;
    }
    Ok(v)
}

/// What a target supports, from whether it has matrix hardware.
pub fn target_spec(has_matrix_units: bool) -> (t: crate::options::TargetCompilationOptions)
    ensures
        t.flags.bits == (if has_matrix_units { 1u8 } else { 0u8 }),
{
    let mut flags = crate::options::TargetFlags::empty();
    if has_matrix_units {
        flags.bits = flags.bits | crate::options::TargetFlags::LIN_ACC;
        proof {
            assert(0u8 | 1u8 == 1u8) by (bit_vector);
        }
    }
    crate::options::TargetCompilationOptions { flags }
}

/// An upload whose data cannot fill the buffer from the offset on.
pub open spec fn short_upload_err() -> Error<()> {
    err("CPU buffer of smaller size than GPU buffer during upload", ErrorKind::FailedBufferCopy)
}

/// Whether an upload of `data_len` bytes may go to a buffer of
/// `buffer_bytes` bytes at offset `dst_off`: the data must fill the buffer
/// from the offset on.
pub fn check_upload(buffer_bytes: u32, dst_off: u32, data_len: usize) -> (r: Result<(), Error<()>>)
    ensures
        r is Ok <==> (if dst_off <= buffer_bytes { buffer_bytes - dst_off } else { 0 }) <= data_len,
        r matches Err(e) ==> e == short_upload_err(),
{
    let rest = buffer_bytes.saturating_sub(dst_off);
    if rest as usize > data_len {
        return Err(make_err("CPU buffer of smaller size than GPU buffer during upload", ErrorKind::FailedBufferCopy));
    }
    Ok(())
}

/// A copy between buffers of different sizes.
pub open spec fn unequal_copy_err() -> Error<()> {
    err("buffers of unequal sizes during pipe", ErrorKind::FailedBufferCopy)
}

/// Whether one buffer may be copied into another: they have one size.
pub fn check_copy(src_size: u64, dst_size: u64) -> (r: Result<(), Error<()>>)
    ensures
        r is Ok <==> src_size == dst_size,
        r matches Err(e) ==> e == unequal_copy_err(),
{
    if src_size != dst_size {
        return Err(make_err("buffers of unequal sizes during pipe", ErrorKind::FailedBufferCopy));
    }
    Ok(())
}

/// A download into less memory than the buffer holds.
pub open spec fn short_download_err() -> Error<()> {
    err("insufficient CPU memory allocated for GPU download", ErrorKind::FailedBufferCopy)
}

/// Whether a buffer of `buffer_bytes` bytes may be downloaded into
/// `data_len` bytes: they must hold it.
pub fn check_download(buffer_bytes: u32, data_len: usize) -> (r: Result<(), Error<()>>)
    ensures
        r is Ok <==> buffer_bytes <= data_len,
        r matches Err(e) ==> e == short_download_err(),
{
    if buffer_bytes as usize > data_len {
        return Err(make_err("insufficient CPU memory allocated for GPU download", ErrorKind::FailedBufferCopy));
    }
    Ok(())
}

/// What a poll of the device says of submitted work: whether it is done,
/// or the error a failed poll or an empty queue is reported as.
pub open spec fn poll_ready(status: crate::options::PollStatus) -> Result<bool, Error<()>> {
    match status {
        crate::options::PollStatus::Failed => Err(err("failed to poll device for completion", ErrorKind::PollFailed)),
        crate::options::PollStatus::Pending => Ok(false),
        crate::options::PollStatus::Ready => Ok(true),
        crate::options::PollStatus::QueueEmpty => Err(err("queue empty on poll", ErrorKind::PollFailed)),
    }
}

/// The metadata binding as a uniform buffer holds it: the values, then
/// `u32::MAX` up to the next multiple of four words.
pub open spec fn aligned_meta_spec(data: Seq<u32>) -> Seq<u32> {
    let pad = (4 - data.len() % 4) % 4;
    data + Seq::new(pad as nat, |k: int| u32::MAX)
}

/// Pads the metadata binding to whole 16-byte rows, as a uniform buffer
/// needs.
pub fn aligned_meta(data: &[u32]) -> (v: Vec<u32>)
    requires
        data@.len() + 3 <= usize::MAX,
    ensures
        v@ == aligned_meta_spec(data@),
        v@.len() % 4 == 0,
{
    let offset: usize = (4 - (data.len() % 4)) % 4;
    let mut v: Vec<u32> = Vec::new();
    let mut i: usize = 0;
    while i < data.len()
        invariant
            i <= data@.len(),
            v@ == data@.take(i as int),
        decreases data@.len() - i,
    {
        v.push(data[i]);
        i = i + 1;
        proof {
            assert(v@ =~= data@.take(i as int));
        }
    }
    let mut k: usize = 0;
    while k < offset
        invariant
            k <= offset,
            offset == (4 - data@.len() % 4) % 4,
            v@ == data@ + Seq::new(k as nat, |j: int| u32::MAX),
        decreases offset - k,
    {
        v.push(u32::MAX);
        k = k + 1;
        proof {
            assert(v@ =~= data@ + Seq::new(k as nat, |j: int| u32::MAX));
        }
    }
    proof {
        assert(v@ =~= aligned_meta_spec(data@));
    }
    v
}

/// Whether submitted work is done, from a poll of the device.
pub fn ready_from_poll(status: crate::options::PollStatus) -> (r: Result<bool, Error<()>>)
    ensures
        r == poll_ready(status),
{
    match status {
        crate::options::PollStatus::Failed => Err(make_err("failed to poll device for completion", ErrorKind::PollFailed)),
        crate::options::PollStatus::Pending => Ok(false),
        crate::options::PollStatus::Ready => Ok(true),
        crate::options::PollStatus::QueueEmpty => Err(make_err("queue empty on poll", ErrorKind::PollFailed)),
    }
}

} // verus!
