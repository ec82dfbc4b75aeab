use fused_gpu::dtype::{DType, SimpleDType};
use fused_gpu::errors::{ErrorKind, GraphErrorContext};
use fused_gpu::graph::{BinaryOp, Constant, Graph, GraphOp, LossType, OptimType, SaveIndicator};
use fused_gpu::id::{EdgeId, MetaId, NodeId};
use fused_gpu::kernel::Metadata;
use fused_gpu::nn::{add, div, mul, sub};

fn new_graph() -> Graph {
    Graph::new(LossType::MeanSquaredError, OptimType::StochasticGradientDescent)
}

fn ind(saved: bool, grad: bool) -> SaveIndicator {
    SaveIndicator { defined_in_forward: saved, used_by_backward: saved, defined_in_backward: grad }
}

#[test]
fn mul_add_graph_validates() {
    let mut meta = Metadata::new();
    let m = meta.new_field();
    let n = meta.new_field();
    let mut graph = new_graph();
    {
        let mut ops = graph.define_ops();
        let a = ops.input(&[m, n], SimpleDType::F32);
        let b = ops.input(&[m, n], SimpleDType::F32);
        let c = ops.input(&[m, n], SimpleDType::F32);
        let x = ops.mul(a, b);
        let y = ops.add(c, x);
        assert_eq!(y, NodeId(4));
    }
    assert_eq!(graph.nodes.len(), 5);
    assert_eq!(graph.nodes[3].op, GraphOp::Binary(BinaryOp::Mul));
    assert_eq!(graph.nodes[4].inputs, vec![NodeId(2), NodeId(3)]);
    assert_eq!(graph.nodes[4].shape, vec![MetaId(1), MetaId(2)]);
    assert_eq!(graph.nodes[4].dtype, DType::Simple(SimpleDType::F32));
    let saved = graph.compute_saved_nodes();
    assert_eq!(saved.0, vec![ind(false, true), ind(false, true), ind(false, true), ind(false, false), ind(false, false)]);
    assert!(graph.validate(meta).is_ok());
}

#[test]
fn products_keep_computed_operands() {
    let mut graph = new_graph();
    let a = graph.input(&[MetaId(1)], SimpleDType::F32);
    let b = graph.input(&[MetaId(1)], SimpleDType::F32);
    let s = add(&mut graph, a, b);
    let d = sub(&mut graph, s, b);
    let p = mul(&mut graph, d, a);
    let q = div(&mut graph, p, s);
    assert_eq!(q, NodeId(5));
    let saved = graph.compute_saved_nodes();
    assert_eq!(
        saved.0,
        vec![ind(false, true), ind(false, true), ind(true, false), ind(true, false), ind(true, false), ind(false, false)]
    );
}

#[test]
fn shape_mismatch_is_reported() {
    let mut meta = Metadata::new();
    let m = meta.new_field();
    let n = meta.new_field();
    let mut graph = new_graph();
    let a = graph.input(&[m, n], SimpleDType::F32);
    let b = graph.input(&[n, m], SimpleDType::F32);
    add(&mut graph, a, b);
    let errors = graph.validate(meta).unwrap_err();
    assert_eq!(errors.len(), 1);
    assert_eq!(errors[0].msg, "binary operation has different shaped inputs");
    assert_eq!(errors[0].kind, ErrorKind::ComputeGraphError);
    match &errors[0].ctx {
        GraphErrorContext::ShapeMismatch { node, all_hand_sides, op } => {
            assert_eq!(*node, NodeId(2));
            assert_eq!(all_hand_sides, &vec![vec![m, n], vec![n, m]]);
            assert_eq!(*op, GraphOp::Binary(BinaryOp::Add));
        },
        _ => panic!("wrong context"),
    }
    assert_eq!(
        errors[0].describe(),
        "compute graph error: binary operation has different shaped inputs, shape mismatch at node 2 [1, 2] + [2, 1]"
    );
}

#[test]
fn constants_broadcast() {
    let mut meta = Metadata::new();
    let m = meta.new_field();
    let mut graph = new_graph();
    let a = graph.input(&[m], SimpleDType::F32);
    let c = {
        let mut ops = graph.define_ops();
        ops.constant_f16(0x3c00)
    };
    let x = mul(&mut graph, c, a);
    assert_eq!(graph.nodes[x.0].shape, vec![m]);
    assert_eq!(graph.nodes[x.0].dtype, DType::Simple(SimpleDType::F16));
    assert_eq!(graph.nodes[c.0].op, GraphOp::Const(Constant::F16(0x3c00)));
    assert!(graph.validate(meta).is_ok());
}

#[test]
fn only_constants_cannot_infer_shape() {
    let mut graph = new_graph();
    let (a, b) = {
        let mut ops = graph.define_ops();
        (ops.constant_u32(3), ops.constant_i32(-4))
    };
    sub(&mut graph, a, b);
    let errors = graph.validate(Metadata::new()).unwrap_err();
    assert_eq!(errors.len(), 1);
    assert_eq!(errors[0].msg, "binary operation has only constant inputs");
    assert_eq!(errors[0].ctx.describe(), "cannot infer shape of node 2 with op [] - []");
}

#[test]
fn missing_metadata_is_reported() {
    let meta = Metadata::new();
    let mut graph = new_graph();
    graph.input(&[MetaId(3)], SimpleDType::F32);
    let errors = graph.validate(meta).unwrap_err();
    assert_eq!(errors.len(), 1);
    match &errors[0].ctx {
        GraphErrorContext::MissingMetadata { node, meta } => {
            assert_eq!(*node, NodeId(0));
            assert_eq!(*meta, MetaId(3));
        },
        _ => panic!("wrong context"),
    }
    assert_eq!(errors[0].ctx.describe(), "missing metadata at node 0 on field f3");
}

#[test]
fn edges() {
    let mut graph = new_graph();
    let a = graph.input(&[], SimpleDType::F32);
    let b = graph.input(&[], SimpleDType::F32);
    let x = add(&mut graph, a, b);
    let y = mul(&mut graph, x, x);
    assert_eq!(graph.get_edge(a, x), Some(EdgeId(0)));
    assert_eq!(graph.get_edge(b, x), Some(EdgeId(1)));
    assert_eq!(graph.get_edge(x, y), Some(EdgeId(0)));
    assert_eq!(graph.get_edge(a, y), None);
    assert!(graph.is_edge(x, y, EdgeId(1)));
    assert!(!graph.is_edge(a, x, EdgeId(2)));
    assert!(graph.is_lhs_edge(a, x));
    assert!(!graph.is_lhs_edge(b, x));
    assert!(graph.is_rhs_edge(b, x));
    assert!(graph.is_rhs_edge(x, y));
}

#[test]
fn metadata_fields() {
    let mut meta = Metadata::new();
    assert_eq!(meta.fields, 1);
    assert_eq!(meta.new_field(), MetaId(1));
    assert_eq!(meta.new_field(), MetaId(2));
    assert!(meta.validate_meta(&[0, 32, 32]));
    assert!(!meta.validate_meta(&[0, 32]));
}

#[test]
fn constant_types() {
    let mut graph = new_graph();
    let mut ops = graph.define_ops();
    let a = ops.constant_bf16(1);
    let b = ops.constant_f32(2);
    let c = ops.constant_u32(3);
    let d = ops.constant_i32(-4);
    drop(ops);
    assert_eq!(graph.nodes[a.0].dtype, DType::Simple(SimpleDType::BF16));
    assert_eq!(graph.nodes[b.0].dtype, DType::Simple(SimpleDType::F32));
    assert_eq!(graph.nodes[c.0].dtype, DType::Simple(SimpleDType::U32));
    assert_eq!(graph.nodes[d.0].dtype, DType::Simple(SimpleDType::I32));
    assert!(graph.nodes.iter().all(|n| n.shape.is_empty() && n.inputs.is_empty()));
}
