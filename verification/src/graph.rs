//! Compute graphs: nodes in construction order, each naming its inputs by
//! index, with the shape and type of the tensor it produces.

use vstd::prelude::*;
use crate::dtype::{DType, SimpleDType};
use crate::errors::{Error, ErrorKind, GraphErrorContext, GraphErrorView, graph_err, graph_err_view, graph_errs_view};
use crate::id::{EdgeId, MetaId, NodeId};
use crate::kernel::Metadata;
use crate::nn::valid_binary;

verus! {

/// The elementwise binary operators.
#[derive(Debug, Clone, Copy, PartialEq, Eq, Hash, Structural)]
pub enum BinaryOp {
    Add,
    Mul,
    Sub,
    Div,
}

/// A scalar constant; floating-point values are kept as their bit patterns.
#[derive(Debug, Clone, Copy, PartialEq, Eq, Hash, Structural)]
pub enum Constant {
    F16(u16),
    Bf16(u16),
    F32(u32),
    U32(u32),
    I32(i32),
}

/// What a node computes.
#[derive(Debug, Clone, Copy, PartialEq, Eq, Hash, Structural)]
pub enum GraphOp {
    /// A tensor supplied at dispatch time.
    Input,
    /// A scalar constant, broadcast against the other operand.
    Const(Constant),
    /// An elementwise binary operation of the node's two inputs.
    Binary(BinaryOp),
}

impl GraphOp {
    /// Whether the operation is a constant.
    pub fn is_const(&self) -> (b: bool)
        ensures
            b == (*self is Const),
    {
        match self {
            GraphOp::Const(_) => true,
            _ => false,
        }
    }
}

/// A node of a compute graph.
#[derive(Debug, Clone)]
pub struct Node {
    pub op: GraphOp,
    pub inputs: Vec<NodeId>,
    pub outputs: Vec<NodeId>,
    pub shape: Vec<MetaId>,
    pub dtype: DType,
}

/// The loss a graph is trained against.
#[derive(Debug, Clone, Copy, PartialEq, Eq, Hash, Structural)]
pub enum LossType {
    MeanSquaredError,
}

/// The rule a graph's weights are updated by.
#[derive(Debug, Clone, Copy, PartialEq, Eq, Hash, Structural)]
pub enum OptimType {
    StochasticGradientDescent,
}

/// A compute graph.
#[derive(Debug, Clone)]
pub struct Graph {
    pub nodes: Vec<Node>,
    pub loss: LossType,
    pub optim: OptimType,
}

/// Every input of a node is an earlier node: the graph is acyclic and in
/// topological order, as the builders below keep it.
pub open spec fn inputs_before(g: Graph) -> bool {
    forall|i: int, k: int|
        0 <= i < g.nodes@.len() && 0 <= k < g.nodes@[i].inputs@.len()
            ==> (#[trigger] g.nodes@[i].inputs@[k]).0 < i
}

/// Every input of every node exists, and every binary node has two inputs
/// at least: the graph can be walked without an index out of range.
pub open spec fn well_linked(g: Graph) -> bool {
    &&& forall|i: int, k: int|
        0 <= i < g.nodes@.len() && 0 <= k < g.nodes@[i].inputs@.len()
            ==> (#[trigger] g.nodes@[i].inputs@[k]).0 < g.nodes@.len()
    &&& forall|i: int|
        0 <= i < g.nodes@.len() && (#[trigger] g.nodes@[i]).op is Binary
            ==> g.nodes@[i].inputs@.len() >= 2
}

/// The shape of a binary node: that of its first operand, unless that one is
/// a constant.
pub open spec fn binary_shape(g: Graph, a: NodeId, b: NodeId) -> Seq<MetaId> {
    if g.nodes@[a.0 as int].op is Const {
        g.nodes@[b.0 as int].shape@
    } else {
        g.nodes@[a.0 as int].shape@
    }
}

/// `after` is `before` with one more node, `id`, made of the given parts.
pub open spec fn extends_with(
    before: Graph,
    after: Graph,
    id: NodeId,
    op: GraphOp,
    inputs: Seq<NodeId>,
    shape: Seq<MetaId>,
    dtype: DType,
) -> bool {
    &&& id.0 == before.nodes@.len()
    &&& after.nodes@.len() == before.nodes@.len() + 1
    &&& after.nodes@.take(id.0 as int) == before.nodes@
    &&& after.nodes@[id.0 as int].op == op
    &&& after.nodes@[id.0 as int].inputs@ == inputs
    &&& after.nodes@[id.0 as int].outputs@.len() == 0
    &&& after.nodes@[id.0 as int].shape@ == shape
    &&& after.nodes@[id.0 as int].dtype == dtype
    &&& after.loss == before.loss
    &&& after.optim == before.optim
}

/// Copies a list of indices.
pub fn copy_ids(ids: &[MetaId]) -> (v: Vec<MetaId>)
    ensures
        v@ == ids@,
{
    let mut v: Vec<MetaId> = Vec::new();
    let mut i: usize = 0;
    while i < ids.len()
        invariant
            i <= ids@.len(),
            v@ == ids@.take(i as int),
        decreases ids@.len() - i,
    {
        v.push(ids[i]);
        i = i + 1;
        proof {
            assert(v@ =~= ids@.take(i as int));
        }
    }
    proof {
        assert(ids@.take(ids@.len() as int) =~= ids@);
    }
    v
}

/// Whether two lists of indices are equal.
pub fn same_ids(a: &[MetaId], b: &[MetaId]) -> (r: bool)
    ensures
        r == (a@ == b@),
{
    if a.len() != b.len() {
        return false;
    }
    let mut i: usize = 0;
    while i < a.len()
        invariant
            i <= a@.len(),
            a@.len() == b@.len(),
            forall|j: int| 0 <= j < i ==> a@[j] == b@[j],
        decreases a@.len() - i,
    {
        if a[i] != b[i] {
            return false;
        }
        i = i + 1;
    }
    proof {
        assert(a@ =~= b@);
    }
    true
}

impl Graph {
    /// An empty graph.
    pub fn new(loss: LossType, optim: OptimType) -> (g: Graph)
        ensures
            g.nodes@.len() == 0,
            g.loss == loss,
            g.optim == optim,
    {
        Graph { nodes: Vec::new(), loss, optim }
    }

    /// Appends a node and returns its index.
    pub fn push_node(&mut self, node: Node) -> (id: NodeId)
        ensures
            id.0 == old(self).nodes@.len(),
            final(self).nodes@ == old(self).nodes@.push(node),
            final(self).loss == old(self).loss,
            final(self).optim == old(self).optim,
    {
        let id = NodeId(self.nodes.len());
        self.nodes.push(node);
        id
    }

    /// An input tensor of the given shape and scalar type.
    pub fn input(&mut self, shape: &[MetaId], dtype: SimpleDType) -> (id: NodeId)
        ensures
            extends_with(*old(self), *final(self), id, GraphOp::Input, seq![], shape@, DType::Simple(dtype)),
    {
        let node = Node {
            op: GraphOp::Input,
            inputs: Vec::new(),
            outputs: Vec::new(),
            shape: copy_ids(shape),
            dtype: DType::Simple(dtype),
        };
        let id = self.push_node(node);
        proof {
            assert(self.nodes@.take(id.0 as int) =~= old(self).nodes@);
            assert(self.nodes@[id.0 as int].inputs@ =~= seq![]);
        }
        id
    }

    /// A scalar constant node.
    pub fn constant(&mut self, c: Constant) -> (id: NodeId)
        ensures
            extends_with(*old(self), *final(self), id, GraphOp::Const(c), seq![], seq![], DType::Simple(constant_dtype(c))),
    {
        let dtype = match c {
            Constant::F16(_) => SimpleDType::F16,
            Constant::Bf16(_) => SimpleDType::BF16,
            Constant::F32(_) => SimpleDType::F32,
            Constant::U32(_) => SimpleDType::U32,
            Constant::I32(_) => SimpleDType::I32,
        };
        let node = Node {
            op: GraphOp::Const(c),
            inputs: Vec::new(),
            outputs: Vec::new(),
            shape: Vec::new(),
            dtype: DType::Simple(dtype),
        };
        let id = self.push_node(node);
        proof {
            assert(self.nodes@.take(id.0 as int) =~= old(self).nodes@);
            assert(self.nodes@[id.0 as int].inputs@ =~= seq![]);
            assert(self.nodes@[id.0 as int].shape@ =~= seq![]);
        }
        id
    }

    /// A binary node of `a` and `b`, of the type of `a`.
    pub fn binary(&mut self, op: BinaryOp, a: NodeId, b: NodeId) -> (id: NodeId)
        requires
            a.0 < old(self).nodes@.len(),
            b.0 < old(self).nodes@.len(),
        ensures
            extends_with(*old(self), *final(self), id, GraphOp::Binary(op), seq![a, b],
                binary_shape(*old(self), a, b), old(self).nodes@[a.0 as int].dtype),
    {
        let shape = if self.nodes[a.0].op.is_const() {
            copy_ids(self.nodes[b.0].shape.as_slice())
        } else {
            copy_ids(self.nodes[a.0].shape.as_slice())
        };
        let dtype = self.nodes[a.0].dtype;
        let node = Node {
            op: GraphOp::Binary(op),
            inputs: vec![a, b],
            outputs: Vec::new(),
            shape,
            dtype,
        };
        let id = self.push_node(node);
        proof {
            assert(self.nodes@.take(id.0 as int) =~= old(self).nodes@);
        }
        id
    }
}

/// The scalar type of a constant.
pub open spec fn constant_dtype(c: Constant) -> SimpleDType {
    match c {
        Constant::F16(_) => SimpleDType::F16,
        Constant::Bf16(_) => SimpleDType::BF16,
        Constant::F32(_) => SimpleDType::F32,
        Constant::U32(_) => SimpleDType::U32,
        Constant::I32(_) => SimpleDType::I32,
    }
}

/// Which parts of a node's tensor must be kept for the backward pass.
#[derive(Debug, Clone, Copy, PartialEq, Eq, Hash, Structural)]
pub struct SaveIndicator {
    pub defined_in_forward: bool,
    pub used_by_backward: bool,
    /// The node gets a gradient tensor: it is an input.
    pub defined_in_backward: bool,
}

/// For each node of a graph, what is kept of it.
#[derive(Debug, Clone)]
pub struct SavedNodes(pub Vec<SaveIndicator>);

/// The operations whose gradient reads their operands: products and
/// quotients.
pub open spec fn saves_operands(op: GraphOp) -> bool {
    op == GraphOp::Binary(BinaryOp::Mul) || op == GraphOp::Binary(BinaryOp::Div)
}

/// Node `j` needs node `i` kept: `i` is an operand of a product or quotient
/// `j`, and is computed rather than given.
pub open spec fn keeps(g: Graph, j: int, i: int) -> bool {
    &&& saves_operands(g.nodes@[j].op)
    &&& g.nodes@[j].inputs@.contains(NodeId(i as usize))
    &&& g.nodes@[i].inputs@.len() > 0
}

/// Node `i` is kept for the backward pass.
pub open spec fn is_saved(g: Graph, i: int) -> bool {
    exists|j: int| 0 <= j < g.nodes@.len() && #[trigger] keeps(g, j, i)
}

/// The indicator of a node: both forward marks or none, and the backward
/// mark where it gets a gradient.
pub open spec fn indicator(saved: bool, grad: bool) -> SaveIndicator {
    SaveIndicator { defined_in_forward: saved, used_by_backward: saved, defined_in_backward: grad }
}

/// The indicator of node `x`: saved as given, with a gradient where it is
/// an input.
pub open spec fn indicator_at(g: Graph, x: int, saved: bool) -> SaveIndicator {
    indicator(saved, g.nodes@[x].op is Input)
}

/// Node `node` is input number `k` of `user`, and no earlier input is.
pub open spec fn first_edge(g: Graph, node: NodeId, user: NodeId, k: int) -> bool {
    &&& 0 <= k < g.nodes@[user.0 as int].inputs@.len()
    &&& g.nodes@[user.0 as int].inputs@[k] == node
    &&& forall|l: int| 0 <= l < k ==> g.nodes@[user.0 as int].inputs@[l] != node
}

/// Node `node` is input number `edge` of `user`.
pub open spec fn is_edge_at(g: Graph, node: NodeId, user: NodeId, edge: int) -> bool {
    0 <= edge < g.nodes@[user.0 as int].inputs@.len() && g.nodes@[user.0 as int].inputs@[edge] == node
}

impl Graph {
    /// The position of `node` among the inputs of `user`, if it is one.
    pub fn get_edge(&self, node: NodeId, user: NodeId) -> (r: Option<EdgeId>)
        requires
            user.0 < self.nodes@.len(),
        ensures
            match r {
                Some(e) => first_edge(*self, node, user, e.0 as int),
                None => !self.nodes@[user.0 as int].inputs@.contains(node),
            },
    {
        let inputs = &self.nodes[user.0].inputs;
        let mut k: usize = 0;
        while k < inputs.len()
            invariant
                inputs@ == self.nodes@[user.0 as int].inputs@,
                k <= inputs@.len(),
                forall|l: int| 0 <= l < k ==> inputs@[l] != node,
            decreases inputs@.len() - k,
        {
            if inputs[k] == node {
                return Some(EdgeId(k));
            }
            k = k + 1;
        }
        None
    }

    /// Whether `node` is input number `edge` of `user`.
    pub fn is_edge(&self, node: NodeId, user: NodeId, edge: EdgeId) -> (b: bool)
        requires
            user.0 < self.nodes@.len(),
        ensures
            b == is_edge_at(*self, node, user, edge.0 as int),
    {
        let inputs = &self.nodes[user.0].inputs;
        edge.0 < inputs.len() && inputs[edge.0] == node
    }

    /// Whether `node` is the first input of `user`.
    pub fn is_lhs_edge(&self, node: NodeId, user: NodeId) -> (b: bool)
        requires
            user.0 < self.nodes@.len(),
        ensures
            b == is_edge_at(*self, node, user, 0),
    {
        self.is_edge(node, user, EdgeId(0))
    }

    /// Whether `node` is the second input of `user`.
    pub fn is_rhs_edge(&self, node: NodeId, user: NodeId) -> (b: bool)
        requires
            user.0 < self.nodes@.len(),
        ensures
            b == is_edge_at(*self, node, user, 1),
    {
        self.is_edge(node, user, EdgeId(1))
    }

    /// Which nodes the backward pass reads, and so must be kept from the
    /// forward pass.
    pub fn compute_saved_nodes(&self) -> (s: SavedNodes)
        requires
            well_linked(*self),
        ensures
            s.0@.len() == self.nodes@.len(),
            forall|i: int| 0 <= i < self.nodes@.len() ==> #[trigger] s.0@[i] == indicator_at(*self, i, is_saved(*self, i)),
    {
        let n = self.nodes.len();
        let mut saved: Vec<SaveIndicator> = Vec::new();
        let mut i: usize = 0;
        while i < n
            invariant
                n == self.nodes@.len(),
                i <= n,
                saved@.len() == i,
                forall|x: int| 0 <= x < i ==> #[trigger] saved@[x] == indicator_at(*self, x, false),
            decreases n - i,
        {
            let input = match self.nodes[i].op {
                GraphOp::Input => true,
                _ => false,
            };
            saved.push(indicator_of(false, input));
            i = i + 1;
        }
        let mut j: usize = 0;
        while j < n
            invariant
                n == self.nodes@.len(),
                j <= n,
                saved@.len() == n,
                well_linked(*self),
                forall|x: int| 0 <= x < n ==> #[trigger] saved@[x] == indicator_at(*self, x,
                    exists|y: int| 0 <= y < j && #[trigger] keeps(*self, y, x)),
            decreases n - j,
        {
            let op = self.nodes[j].op;
            if op == GraphOp::Binary(BinaryOp::Mul) || op == GraphOp::Binary(BinaryOp::Div) {
                let inputs = &self.nodes[j].inputs;
                let mut k: usize = 0;
                while k < inputs.len()
                    invariant
                        n == self.nodes@.len(),
                        j < n,
                        inputs@ == self.nodes@[j as int].inputs@,
                        saves_operands(self.nodes@[j as int].op),
                        k <= inputs@.len(),
                        saved@.len() == n,
                        well_linked(*self),
                        forall|x: int| 0 <= x < n ==> #[trigger] saved@[x] == indicator_at(*self, x,
                            (exists|y: int| 0 <= y < j && #[trigger] keeps(*self, y, x))
                            || (inputs@.take(k as int).contains(NodeId(x as usize))
                                && self.nodes@[x].inputs@.len() > 0)),
                    decreases inputs@.len() - k,
                {
                    let inp = inputs[k];
                    proof {
                        assert(self.nodes@[j as int].inputs@[k as int] == inp);
                    }
                    if self.nodes[inp.0].inputs.len() > 0 {
                        let input = match self.nodes[inp.0].op {
                            GraphOp::Input => true,
                            _ => false,
                        };
                        saved.set(inp.0, indicator_of(true, input));
                    }
                    k = k + 1;
                    proof {
                        assert forall|x: int| 0 <= x < n implies #[trigger] saved@[x] == indicator_at(*self, x,
                            (exists|y: int| 0 <= y < j && #[trigger] keeps(*self, y, x))
                            || (inputs@.take(k as int).contains(NodeId(x as usize))
                                && self.nodes@[x].inputs@.len() > 0)) by {
                            assert(inputs@.take(k as int) =~= inputs@.take(k - 1).push(inp));
                            if x == inp.0 {
                                assert(inputs@.take(k as int)[k - 1] == inp);
                                assert(inputs@.take(k as int).contains(inp));
                                assert(NodeId(x as usize) == inp);
                            } else {
                                if inputs@.take(k as int).contains(NodeId(x as usize)) {
                                    let w = choose|w: int| 0 <= w < k && inputs@.take(k as int)[w] == NodeId(x as usize);
                                    assert(w != k - 1);
                                    assert(inputs@.take(k - 1)[w] == NodeId(x as usize));
                                }
                            }
                        }
                    }
                }
                proof {
                    assert(inputs@.take(inputs@.len() as int) =~= inputs@);
                    assert forall|x: int| 0 <= x < n implies #[trigger] saved@[x] == indicator_at(*self, x,
                        exists|y: int| 0 <= y < j + 1 && #[trigger] keeps(*self, y, x)) by {
                        if keeps(*self, j as int, x) {
                        }
                    }
                }
            } else {
                proof {
                    assert forall|x: int| 0 <= x < n implies #[trigger] saved@[x] == indicator_at(*self, x,
                        exists|y: int| 0 <= y < j + 1 && #[trigger] keeps(*self, y, x)) by {
                        assert(!keeps(*self, j as int, x));
                        if exists|y: int| 0 <= y < j + 1 && #[trigger] keeps(*self, y, x) {
                            let y = choose|y: int| 0 <= y < j + 1 && #[trigger] keeps(*self, y, x);
                            assert(y != j);
                        }
                    }
                }
            }
            j = j + 1;
        }
        SavedNodes(saved)
    }
}

/// The indicator of a node: both forward marks or none, and the backward
/// mark where it gets a gradient.
pub fn indicator_of(saved: bool, grad: bool) -> (s: SaveIndicator)
    ensures
        s == indicator(saved, grad),
{
    SaveIndicator { defined_in_forward: saved, used_by_backward: saved, defined_in_backward: grad }
}

/// The errors of the shape of node `node`: one for each field that the
/// metadata does not have, in order.
pub open spec fn meta_errors(node: NodeId, shape: Seq<MetaId>, fields: nat) -> Seq<Error<GraphErrorView>>
    decreases shape.len(),
{
    if shape.len() == 0 {
        Seq::empty()
    } else {
        let rest = meta_errors(node, shape.drop_last(), fields);
        if shape.last().0 >= fields {
            rest.push(graph_err(
                "shape refers to a missing metadata field",
                GraphErrorView::MissingMetadata { node, meta: shape.last() },
            ))
        } else {
            rest
        }
    }
}

/// The errors of a binary node: a wrong input count, operands that are both
/// constants, and non-constant operands of different shapes.
pub open spec fn binary_errors(g: Graph, i: int) -> Seq<Error<GraphErrorView>> {
    let n = g.nodes@[i];
    let node = NodeId(i as usize);
    let a = g.nodes@[n.inputs@[0].0 as int];
    let b = g.nodes@[n.inputs@[1].0 as int];
    let sides = seq![a.shape@, b.shape@];
    let count = if n.inputs@.len() != 2 {
        seq![graph_err(
            "binary operation has invalid input count",
            GraphErrorView::InvalidInputs { node, arity: 2, args: n.inputs@.len() as usize },
        )]
    } else {
        Seq::empty()
    };
    let consts = if a.op is Const && b.op is Const {
        seq![graph_err(
            "binary operation has only constant inputs",
            GraphErrorView::CannotInferShape { node, all_hand_sides: sides, op: n.op },
        )]
    } else {
        Seq::empty()
    };
    let shapes = if !(a.op is Const || b.op is Const) && a.shape@ != b.shape@ {
        seq![graph_err(
            "binary operation has different shaped inputs",
            GraphErrorView::ShapeMismatch { node, all_hand_sides: sides, op: n.op },
        )]
    } else {
        Seq::empty()
    };
    count + consts + shapes
}

/// The errors of node `i`.
pub open spec fn node_errors(g: Graph, fields: nat, i: int) -> Seq<Error<GraphErrorView>> {
    let shape = meta_errors(NodeId(i as usize), g.nodes@[i].shape@, fields);
    if g.nodes@[i].op is Binary {
        shape + binary_errors(g, i)
    } else {
        shape
    }
}

/// The errors of the first `n` nodes, node by node.
pub open spec fn graph_errors(g: Graph, fields: nat, n: nat) -> Seq<Error<GraphErrorView>>
    decreases n,
{
    if n == 0 {
        Seq::empty()
    } else {
        graph_errors(g, fields, (n - 1) as nat) + node_errors(g, fields, n - 1)
    }
}

/// Appends the errors of a node's shape.
fn check_meta(node: NodeId, shape: &[MetaId], meta: Metadata, errors: &mut Vec<Error<GraphErrorContext>>)
    ensures
        graph_errs_view(final(errors)@) == graph_errs_view(old(errors)@) + meta_errors(node, shape@, meta.fields as nat),
{
    let mut s: usize = 0;
    while s < shape.len()
        invariant
            s <= shape@.len(),
            graph_errs_view(errors@) == graph_errs_view(old(errors)@) + meta_errors(node, shape@.take(s as int), meta.fields as nat),
        decreases shape@.len() - s,
    {
        let ghost prev = errors@;
        proof {
            assert(shape@.take(s + 1).drop_last() =~= shape@.take(s as int));
            assert(shape@.take(s + 1).last() == shape@[s as int]);
        }
        if shape[s].0 >= meta.fields {
            errors.push(Error {
                msg: "shape refers to a missing metadata field",
                kind: ErrorKind::ComputeGraphError,
                ctx: GraphErrorContext::MissingMetadata { node, meta: shape[s] },
            });
            proof {
                assert(graph_errs_view(errors@) =~= graph_errs_view(prev).push(graph_err_view(errors@.last())));
            }
        }
        s = s + 1;
    }
    proof {
        assert(shape@.take(shape@.len() as int) =~= shape@);
    }
}

impl Graph {
    /// Checks every node against the metadata and its operation's rules on
    /// its inputs; returns every error found, node by node.
    pub fn validate(&self, meta: Metadata) -> (r: Result<(), Vec<Error<GraphErrorContext>>>)
        requires
            well_linked(*self),
        ensures
            match r {
                Ok(()) => graph_errors(*self, meta.fields as nat, self.nodes@.len()).len() == 0,
                Err(es) => graph_errs_view(es@) == graph_errors(*self, meta.fields as nat, self.nodes@.len())
                    && es@.len() > 0,
            },
    {
        let mut errors: Vec<Error<GraphErrorContext>> = Vec::new();
        let n = self.nodes.len();
        let mut i: usize = 0;
        proof {
            assert(graph_errs_view(errors@) =~= Seq::<Error<GraphErrorView>>::empty());
        }
        while i < n
            invariant
                n == self.nodes@.len(),
                i <= n,
                well_linked(*self),
                graph_errs_view(errors@) == graph_errors(*self, meta.fields as nat, i as nat),
            decreases n - i,
        {
            let node = &self.nodes[i];
            check_meta(NodeId(i), node.shape.as_slice(), meta, &mut errors);
            match node.op {
                GraphOp::Binary(_) => {
                    valid_binary(NodeId(i), node, self, &mut errors);
                },
                _ => {},
            }
            proof {
                assert(graph_errs_view(errors@) =~= graph_errors(*self, meta.fields as nat, (i + 1) as nat));
            }
            i = i + 1;
        }
        if errors.len() == 0 {
            Ok(())
        } else {
            proof {
                assert(graph_errs_view(errors@).len() == errors@.len());
            }
            Err(errors)
        }
    }
}

/// A handle that adds operations to a graph.
pub struct DefineOps<'a> {
    pub graph: &'a mut Graph,
}

impl Graph {
    /// A handle that adds operations to this graph.
    pub fn define_ops(&mut self) -> (d: DefineOps<'_>)
        ensures
            *d.graph == *old(self),
            *final(self) == *final(d.graph),
    {
        DefineOps { graph: self }
    }
}

impl<'a> DefineOps<'a> {
    /// An input tensor of the given shape and scalar type.
    pub fn input(&mut self, shape: &[MetaId], dtype: SimpleDType) -> (id: NodeId)
        ensures
            extends_with(*old(self).graph, *final(self).graph, id, GraphOp::Input, seq![], shape@, DType::Simple(dtype)),
            *final(final(self).graph) == *final(old(self).graph),
    {
        self.graph.input(shape, dtype)
    }

    /// A half-precision constant, given by its bits.
    pub fn constant_f16(&mut self, bits: u16) -> (id: NodeId)
        ensures
            extends_with(*old(self).graph, *final(self).graph, id, GraphOp::Const(Constant::F16(bits)), seq![], seq![], DType::Simple(SimpleDType::F16)),
            *final(final(self).graph) == *final(old(self).graph),
    {
        self.graph.constant(Constant::F16(bits))
    }

    /// A brain-float constant, given by its bits.
    pub fn constant_bf16(&mut self, bits: u16) -> (id: NodeId)
        ensures
            extends_with(*old(self).graph, *final(self).graph, id, GraphOp::Const(Constant::Bf16(bits)), seq![], seq![], DType::Simple(SimpleDType::BF16)),
            *final(final(self).graph) == *final(old(self).graph),
    {
        self.graph.constant(Constant::Bf16(bits))
    }

    /// A single-precision constant, given by its bits.
    pub fn constant_f32(&mut self, bits: u32) -> (id: NodeId)
        ensures
            extends_with(*old(self).graph, *final(self).graph, id, GraphOp::Const(Constant::F32(bits)), seq![], seq![], DType::Simple(SimpleDType::F32)),
            *final(final(self).graph) == *final(old(self).graph),
    {
        self.graph.constant(Constant::F32(bits))
    }

    /// An unsigned integer constant.
    pub fn constant_u32(&mut self, data: u32) -> (id: NodeId)
        ensures
            extends_with(*old(self).graph, *final(self).graph, id, GraphOp::Const(Constant::U32(data)), seq![], seq![], DType::Simple(SimpleDType::U32)),
            *final(final(self).graph) == *final(old(self).graph),
    {
        self.graph.constant(Constant::U32(data))
    }

    /// A signed integer constant.
    pub fn constant_i32(&mut self, data: i32) -> (id: NodeId)
        ensures
            extends_with(*old(self).graph, *final(self).graph, id, GraphOp::Const(Constant::I32(data)), seq![], seq![], DType::Simple(SimpleDType::I32)),
            *final(final(self).graph) == *final(old(self).graph),
    {
        self.graph.constant(Constant::I32(data))
    }

    /// The node `a * b`.
    pub fn mul(&mut self, a: NodeId, b: NodeId) -> (id: NodeId)
        requires
            a.0 < old(self).graph.nodes@.len(),
            b.0 < old(self).graph.nodes@.len(),
        ensures
            extends_with(*old(self).graph, *final(self).graph, id, GraphOp::Binary(BinaryOp::Mul), seq![a, b],
                binary_shape(*old(self).graph, a, b), old(self).graph.nodes@[a.0 as int].dtype),
            *final(final(self).graph) == *final(old(self).graph),
    {
        crate::nn::mul(self.graph, a, b)
    }

    /// The node `a + b`.
    pub fn add(&mut self, a: NodeId, b: NodeId) -> (id: NodeId)
        requires
            a.0 < old(self).graph.nodes@.len(),
            b.0 < old(self).graph.nodes@.len(),
        ensures
            extends_with(*old(self).graph, *final(self).graph, id, GraphOp::Binary(BinaryOp::Add), seq![a, b],
                binary_shape(*old(self).graph, a, b), old(self).graph.nodes@[a.0 as int].dtype),
            *final(final(self).graph) == *final(old(self).graph),
    {
        crate::nn::add(self.graph, a, b)
    }

    /// The node `a / b`.
    pub fn div(&mut self, a: NodeId, b: NodeId) -> (id: NodeId)
        requires
            a.0 < old(self).graph.nodes@.len(),
            b.0 < old(self).graph.nodes@.len(),
        ensures
            extends_with(*old(self).graph, *final(self).graph, id, GraphOp::Binary(BinaryOp::Div), seq![a, b],
                binary_shape(*old(self).graph, a, b), old(self).graph.nodes@[a.0 as int].dtype),
            *final(final(self).graph) == *final(old(self).graph),
    {
        crate::nn::div(self.graph, a, b)
    }

    /// The node `a - b`.
    pub fn sub(&mut self, a: NodeId, b: NodeId) -> (id: NodeId)
        requires
            a.0 < old(self).graph.nodes@.len(),
            b.0 < old(self).graph.nodes@.len(),
        ensures
            extends_with(*old(self).graph, *final(self).graph, id, GraphOp::Binary(BinaryOp::Sub), seq![a, b],
                binary_shape(*old(self).graph, a, b), old(self).graph.nodes@[a.0 as int].dtype),
            *final(final(self).graph) == *final(old(self).graph),
    {
        crate::nn::sub(self.graph, a, b)
    }
}

/// Adding a node whose inputs are existing nodes, two of them at least
/// when it is binary, keeps a graph well linked and in topological order;
/// every builder adds such nodes.
pub proof fn law_extend_keeps_links(
    before: Graph,
    after: Graph,
    id: NodeId,
    op: GraphOp,
    inputs: Seq<NodeId>,
    shape: Seq<MetaId>,
    dtype: DType,
)
    requires
        well_linked(before),
        inputs_before(before),
        extends_with(before, after, id, op, inputs, shape, dtype),
        forall|k: int| 0 <= k < inputs.len() ==> (#[trigger] inputs[k]).0 < before.nodes@.len(),
        op is Binary ==> inputs.len() >= 2,
    ensures
        well_linked(after),
        inputs_before(after),
{
    assert forall|i: int| 0 <= i < before.nodes@.len() implies #[trigger] after.nodes@[i] == before.nodes@[i] by {
        assert(after.nodes@.take(id.0 as int)[i] == after.nodes@[i]);
    }
}

/// A node is kept for the backward pass only where it is computed, not
/// given, and a product or quotient uses it.
pub proof fn law_saved_are_computed(g: Graph, i: int)
    requires
        0 <= i < g.nodes@.len(),
        is_saved(g, i),
    ensures
        g.nodes@[i].inputs@.len() > 0,
        exists|j: int| 0 <= j < g.nodes@.len() && saves_operands(#[trigger] g.nodes@[j].op)
            && g.nodes@[j].inputs@.contains(NodeId(i as usize)),
{
    let j = choose|j: int| 0 <= j < g.nodes@.len() && #[trigger] keeps(g, j, i);
    assert(saves_operands(g.nodes@[j].op));
}

/// The first position of a node among a user's inputs is one of its
/// positions, and a node is the first input exactly when its first
/// position is 0.
pub proof fn law_first_edge_is_edge(g: Graph, node: NodeId, user: NodeId, k: int)
    requires
        user.0 < g.nodes@.len(),
    ensures
        first_edge(g, node, user, k) ==> is_edge_at(g, node, user, k),
        is_edge_at(g, node, user, 0) <==> first_edge(g, node, user, 0),
{
}

/// A binary node whose operands are computed or given tensors of one shape
/// has no error of its own.
pub proof fn law_same_shapes_valid(g: Graph, i: int)
    requires
        well_linked(g),
        0 <= i < g.nodes@.len(),
        g.nodes@[i].op is Binary,
        g.nodes@[i].inputs@.len() == 2,
        !(g.nodes@[g.nodes@[i].inputs@[0].0 as int].op is Const),
        !(g.nodes@[g.nodes@[i].inputs@[1].0 as int].op is Const),
        g.nodes@[g.nodes@[i].inputs@[0].0 as int].shape@ == g.nodes@[g.nodes@[i].inputs@[1].0 as int].shape@,
    ensures
        binary_errors(g, i).len() == 0,
{
}

} // verus!
