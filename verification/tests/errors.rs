use fused_gpu::errors::{make_err, ErrorKind, GraphErrorContext, HipErrorCode, HiprtcErrorCode};
use fused_gpu::id::{MetaId, NodeId};

#[test]
fn kind_texts() {
    assert_eq!(ErrorKind::EnvNotSet.describe(), "environment not set");
    assert_eq!(ErrorKind::FailedBufferCopy.describe(), "failed to copy GPU buffers");
    assert_eq!(ErrorKind::InternalError.describe(), "internal error (maybe report bug)");
    assert_eq!(ErrorKind::UnresolvedSymbol.describe(), "unresolved symbol");
}

#[test]
fn error_text() {
    let e = make_err("MMA not supported", ErrorKind::UnsupportedFeature);
    assert_eq!(e.describe(), "unsupported feature: MMA not supported");
}

#[test]
fn context_texts() {
    assert_eq!(GraphErrorContext::Unrelated.describe(), "unrelated");
    assert_eq!(
        GraphErrorContext::CycleDetected { node: NodeId(4), path: vec![NodeId(1), NodeId(2)] }.describe(),
        "cycle detected at node 4 following [1, 2]"
    );
    assert_eq!(
        GraphErrorContext::InvalidInputs { node: NodeId(3), arity: 2, args: 1 }.describe(),
        "invalid input count 1 for arity of 2 at node 3"
    );
    assert_eq!(
        GraphErrorContext::InvalidAxis { node: NodeId(0), axis: 5, rank: 2 }.describe(),
        "invalid axis 5 for rank of 2 at node 0"
    );
    assert_eq!(
        GraphErrorContext::MissingInput { node: NodeId(9), input: NodeId(12) }.describe(),
        "missing input at node 9 on input node 12"
    );
    assert_eq!(
        GraphErrorContext::MissingMetadata { node: NodeId(1), meta: MetaId(7) }.describe(),
        "missing metadata at node 1 on field f7"
    );
    assert_eq!(
        GraphErrorContext::RankMismatch { node: NodeId(2), all_hand_sides: vec![1, 2, 3] }.describe(),
        "rank mismatch at node 21== 2== 3"
    );
    assert_eq!(
        GraphErrorContext::LowRank { node: NodeId(2), rank: 1, required: 2 }.describe(),
        "rank too low at node 2 (1 >= 2)"
    );
}

#[test]
fn hip_error_kinds() {
    assert_eq!(ErrorKind::from_hip(HipErrorCode::NotReady), ErrorKind::SyncError);
    assert_eq!(ErrorKind::from_hip(HipErrorCode::IllegalAddress), ErrorKind::InvalidMemoryOp);
    assert_eq!(ErrorKind::from_hip(HipErrorCode::NoDevice), ErrorKind::InvalidDevice);
    assert_eq!(ErrorKind::from_hip(HipErrorCode::InvalidValue), ErrorKind::InvalidArgument);
    assert_eq!(ErrorKind::from_hip(HipErrorCode::Unknown), ErrorKind::InternalError);
    assert_eq!(ErrorKind::from_hip(HipErrorCode::CapturedEvent), ErrorKind::InconsistentCapture);
    assert_eq!(ErrorKind::from_hip(HipErrorCode::CooperativeLaunchTooLarge), ErrorKind::OutOfMemory);
    assert_eq!(ErrorKind::from_hip(HipErrorCode::FileNotFound), ErrorKind::FileNotFound);
    assert_eq!(ErrorKind::from_hip(HipErrorCode::NotFound), ErrorKind::UnresolvedSymbol);
}

#[test]
fn plain_error_into_graph() {
    let e = make_err("graph empty", ErrorKind::GraphEmpty).into_graph();
    assert_eq!(e.msg, "graph empty");
    assert_eq!(e.kind, ErrorKind::GraphEmpty);
    assert!(matches!(e.ctx, GraphErrorContext::Unrelated));
}

#[test]
fn hiprtc_errors_map_to_kinds() {
    assert_eq!(ErrorKind::from_hiprtc(HiprtcErrorCode::Linking), ErrorKind::LinkingError);
    assert_eq!(ErrorKind::from_hiprtc(HiprtcErrorCode::OutOfMemory), ErrorKind::OutOfMemory);
    assert_eq!(ErrorKind::from_hiprtc(HiprtcErrorCode::InvalidOption), ErrorKind::InvalidArgument);
    assert_eq!(ErrorKind::from_hiprtc(HiprtcErrorCode::Compilation), ErrorKind::InternalError);
    assert_eq!(ErrorKind::LinkingError.describe(), "linking error");
}
