//! Elementwise binary operations on compute graphs.

use vstd::prelude::*;
use crate::errors::{Error, ErrorKind, GraphErrorContext, graph_err_view, graph_errs_view, sides_view};
use crate::graph::{extends_with, binary_errors, binary_shape, well_linked, BinaryOp, Graph, GraphOp, Node, copy_ids, same_ids};
use crate::id::NodeId;

verus! {

/// Appends the errors of a binary node: a wrong input count, operands that
/// are both constants, and non-constant operands of different shapes.
pub fn valid_binary(node_id: NodeId, node: &Node, graph: &Graph, errors: &mut Vec<Error<GraphErrorContext>>)
    requires
        well_linked(*graph),
        node_id.0 < graph.nodes@.len(),
        *node == graph.nodes@[node_id.0 as int],
        node.op is Binary,
    ensures
        graph_errs_view(final(errors)@) == graph_errs_view(old(errors)@) + binary_errors(*graph, node_id.0 as int),
{
    let ghost start = errors@;
    proof {
        assert(graph.nodes@[node_id.0 as int].op is Binary);
    }
    if node.inputs.len() != 2 {
        errors.push(Error {
            msg: "binary operation has invalid input count",
            kind: ErrorKind::ComputeGraphError,
            ctx: GraphErrorContext::InvalidInputs { node: node_id, arity: 2, args: node.inputs.len() },
        });
        proof {
            assert(graph_errs_view(errors@) =~= graph_errs_view(start).push(graph_err_view(errors@.last())));
        }
    }
    let ghost after_count = errors@;
    let a = node.inputs[0];
    let b = node.inputs[1];
    proof {
        assert(graph.nodes@[node_id.0 as int].inputs@[0] == a);
        assert(graph.nodes@[node_id.0 as int].inputs@[1] == b);
    }
    let a_node = &graph.nodes[a.0];
    let b_node = &graph.nodes[b.0];
    let a_const = a_node.op.is_const();
    let b_const = b_node.op.is_const();
    if a_const && b_const {
        let sides = vec![copy_ids(a_node.shape.as_slice()), copy_ids(b_node.shape.as_slice())];
        proof {
            assert(sides_view(sides) =~= seq![a_node.shape@, b_node.shape@]);
        }
        errors.push(Error {
            msg: "binary operation has only constant inputs",
            kind: ErrorKind::ComputeGraphError,
            ctx: GraphErrorContext::CannotInferShape { node: node_id, all_hand_sides: sides, op: node.op },
        });
        proof {
            assert(graph_errs_view(errors@) =~= graph_errs_view(after_count).push(graph_err_view(errors@.last())));
        }
    }
    let ghost after_consts = errors@;
    if !(a_const || b_const) && !same_ids(a_node.shape.as_slice(), b_node.shape.as_slice()) {
        let sides = vec![copy_ids(a_node.shape.as_slice()), copy_ids(b_node.shape.as_slice())];
        proof {
            assert(sides_view(sides) =~= seq![a_node.shape@, b_node.shape@]);
        }
        errors.push(Error {
            msg: "binary operation has different shaped inputs",
            kind: ErrorKind::ComputeGraphError,
            ctx: GraphErrorContext::ShapeMismatch { node: node_id, all_hand_sides: sides, op: node.op },
        });
        proof {
            assert(graph_errs_view(errors@) =~= graph_errs_view(after_consts).push(graph_err_view(errors@.last())));
        }
    }
    proof {
        assert(graph_errs_view(errors@) =~= graph_errs_view(old(errors)@) + binary_errors(*graph, node_id.0 as int));
    }
}

/// The node `a + b`.
pub fn add(graph: &mut Graph, a: NodeId, b: NodeId) -> (id: NodeId)
    requires
        a.0 < old(graph).nodes@.len(),
        b.0 < old(graph).nodes@.len(),
    ensures
        extends_with(*old(graph), *final(graph), id, GraphOp::Binary(BinaryOp::Add), seq![a, b],
            binary_shape(*old(graph), a, b), old(graph).nodes@[a.0 as int].dtype),
{
    graph.binary(BinaryOp::Add, a, b)
}

/// The node `a * b`.
pub fn mul(graph: &mut Graph, a: NodeId, b: NodeId) -> (id: NodeId)
    requires
        a.0 < old(graph).nodes@.len(),
        b.0 < old(graph).nodes@.len(),
    ensures
        extends_with(*old(graph), *final(graph), id, GraphOp::Binary(BinaryOp::Mul), seq![a, b],
            binary_shape(*old(graph), a, b), old(graph).nodes@[a.0 as int].dtype),
{
    graph.binary(BinaryOp::Mul, a, b)
}

/// The node `a - b`.
pub fn sub(graph: &mut Graph, a: NodeId, b: NodeId) -> (id: NodeId)
    requires
        a.0 < old(graph).nodes@.len(),
        b.0 < old(graph).nodes@.len(),
    ensures
        extends_with(*old(graph), *final(graph), id, GraphOp::Binary(BinaryOp::Sub), seq![a, b],
            binary_shape(*old(graph), a, b), old(graph).nodes@[a.0 as int].dtype),
{
    graph.binary(BinaryOp::Sub, a, b)
}

/// The node `a / b`.
pub fn div(graph: &mut Graph, a: NodeId, b: NodeId) -> (id: NodeId)
    requires
        a.0 < old(graph).nodes@.len(),
        b.0 < old(graph).nodes@.len(),
    ensures
        extends_with(*old(graph), *final(graph), id, GraphOp::Binary(BinaryOp::Div), seq![a, b],
            binary_shape(*old(graph), a, b), old(graph).nodes@[a.0 as int].dtype),
{
    graph.binary(BinaryOp::Div, a, b)
}

} // verus!
