//! Errors: a kind, a static message and a context.

use vstd::prelude::*;
use crate::graph::{BinaryOp, GraphOp};
use crate::text::{dec, push_dec};
use crate::id::{MetaId, NodeId};

verus! {

/// Generic error type with message, kind and context.
#[derive(Clone, Debug)]
pub struct Error<C> {
    pub msg: &'static str,
    pub kind: ErrorKind,
    pub ctx: C,
}

/// Every kind of failure the compiler and its backends report.
#[derive(Debug, Clone, Copy, PartialEq, Eq, Structural)]
pub enum ErrorKind {
    EnvNotSet,
    UnsupportedLimit,
    UnsupportedFeature,
    ParamNotMaterialized,
    GraphEmpty,
    InvalidDType,
    UnresolvedInput,
    UnresolvedOutput,
    InvalidArgument,
    ComputeGraphError,
    FailedBufferCopy,
    UnresolvedRedirection,
    SyncError,
    InvalidInterval,
    InvalidEventHandle,
    WaitFailed,
    FailedAdapterCreation,
    FailedEventCreation,
    FailedInfoQuery,
    InternalError,
    SerializationError,
    PollFailed,
    InvalidDevice,
    InvalidMemoryOp,
    InconsistentCapture,
    AlreadySet,
    OutOfMemory,
    NotInitialized,
    ProfilerError,
    FileNotFound,
    LaunchFailure,
    PeerAccessError,
    UnresolvedSymbol,
    LinkingError,
}

/// An error without context.
pub open spec fn err(msg: &'static str, kind: ErrorKind) -> Error<()> {
    Error { msg, kind, ctx: () }
}

/// Builds an error without context.
pub fn make_err(msg: &'static str, kind: ErrorKind) -> (e: Error<()>)
    ensures
        e == err(msg, kind),
{
    Error { msg, kind, ctx: () }
}

/// Where in a compute graph an error was found.
#[derive(Debug, Clone)]
pub enum GraphErrorContext {
    Unrelated,
    CycleDetected { node: NodeId, path: Vec<NodeId> },
    InvalidInputs { node: NodeId, arity: usize, args: usize },
    MissingInput { node: NodeId, input: NodeId },
    ShapeMismatch { node: NodeId, all_hand_sides: Vec<Vec<MetaId>>, op: GraphOp },
    RankMismatch { node: NodeId, all_hand_sides: Vec<usize> },
    InvalidAxis { node: NodeId, axis: usize, rank: usize },
    MissingMetadata { node: NodeId, meta: MetaId },
    LowRank { node: NodeId, rank: usize, required: usize },
    CannotInferShape { node: NodeId, all_hand_sides: Vec<Vec<MetaId>>, op: GraphOp },
}

/// A graph error context with its lists taken as sequences.
pub enum GraphErrorView {
    Unrelated,
    CycleDetected { node: NodeId, path: Seq<NodeId> },
    InvalidInputs { node: NodeId, arity: usize, args: usize },
    MissingInput { node: NodeId, input: NodeId },
    ShapeMismatch { node: NodeId, all_hand_sides: Seq<Seq<MetaId>>, op: GraphOp },
    RankMismatch { node: NodeId, all_hand_sides: Seq<usize> },
    InvalidAxis { node: NodeId, axis: usize, rank: usize },
    MissingMetadata { node: NodeId, meta: MetaId },
    LowRank { node: NodeId, rank: usize, required: usize },
    CannotInferShape { node: NodeId, all_hand_sides: Seq<Seq<MetaId>>, op: GraphOp },
}

/// The shapes of the operands of a node, as sequences.
pub open spec fn sides_view(sides: Vec<Vec<MetaId>>) -> Seq<Seq<MetaId>> {
    sides@.map_values(|v: Vec<MetaId>| v@)
}

impl View for GraphErrorContext {
    type V = GraphErrorView;

    open spec fn view(&self) -> GraphErrorView {
        match *self {
            GraphErrorContext::Unrelated => GraphErrorView::Unrelated,
            GraphErrorContext::CycleDetected { node, path } => GraphErrorView::CycleDetected { node, path: path@ },
            GraphErrorContext::InvalidInputs { node, arity, args } => GraphErrorView::InvalidInputs { node, arity, args },
            GraphErrorContext::MissingInput { node, input } => GraphErrorView::MissingInput { node, input },
            GraphErrorContext::ShapeMismatch { node, all_hand_sides, op } =>
                GraphErrorView::ShapeMismatch { node, all_hand_sides: sides_view(all_hand_sides), op },
            GraphErrorContext::RankMismatch { node, all_hand_sides } =>
                GraphErrorView::RankMismatch { node, all_hand_sides: all_hand_sides@ },
            GraphErrorContext::InvalidAxis { node, axis, rank } => GraphErrorView::InvalidAxis { node, axis, rank },
            GraphErrorContext::MissingMetadata { node, meta } => GraphErrorView::MissingMetadata { node, meta },
            GraphErrorContext::LowRank { node, rank, required } => GraphErrorView::LowRank { node, rank, required },
            GraphErrorContext::CannotInferShape { node, all_hand_sides, op } =>
                GraphErrorView::CannotInferShape { node, all_hand_sides: sides_view(all_hand_sides), op },
        }
    }
}

/// A graph error with its context taken by its view.
pub open spec fn graph_err_view(e: Error<GraphErrorContext>) -> Error<GraphErrorView> {
    Error { msg: e.msg, kind: e.kind, ctx: e.ctx@ }
}

/// The views of a list of graph errors.
pub open spec fn graph_errs_view(es: Seq<Error<GraphErrorContext>>) -> Seq<Error<GraphErrorView>> {
    es.map_values(|e: Error<GraphErrorContext>| graph_err_view(e))
}

/// An error with a graph context.
pub open spec fn graph_err(msg: &'static str, ctx: GraphErrorView) -> Error<GraphErrorView> {
    Error { msg, kind: ErrorKind::ComputeGraphError, ctx }
}

/// The text that names a kind of error.
pub open spec fn kind_text(k: ErrorKind) -> Seq<char> {
    match k {
        ErrorKind::EnvNotSet => "environment not set"@,
        ErrorKind::UnsupportedLimit => "unsupported limits"@,
        ErrorKind::UnsupportedFeature => "unsupported feature"@,
        ErrorKind::ParamNotMaterialized => "param not materialized"@,
        ErrorKind::GraphEmpty => "graph empty"@,
        ErrorKind::InvalidDType => "invalid data type"@,
        ErrorKind::UnresolvedInput => "unresolved input"@,
        ErrorKind::UnresolvedOutput => "unresolved output"@,
        ErrorKind::InvalidArgument => "invalid argument"@,
        ErrorKind::ComputeGraphError => "compute graph error"@,
        ErrorKind::FailedBufferCopy => "failed to copy GPU buffers"@,
        ErrorKind::FailedAdapterCreation => "failed adapter creation"@,
        ErrorKind::FailedEventCreation => "failed event creation"@,
        ErrorKind::FailedInfoQuery => "failed info query"@,
        ErrorKind::InvalidEventHandle => "invalid event handle"@,
        ErrorKind::InvalidInterval => "invalid interval"@,
        ErrorKind::SyncError => "synchronization error"@,
        ErrorKind::WaitFailed => "wait failed"@,
        ErrorKind::UnresolvedRedirection => "unresolved redirection"@,
        ErrorKind::SerializationError => "serialization or I/O error"@,
        ErrorKind::InternalError => "internal error (maybe report bug)"@,
        ErrorKind::PollFailed => "poll failed"@,
        ErrorKind::InvalidDevice => "invalid device"@,
        ErrorKind::InvalidMemoryOp => "invalid memory operation"@,
        ErrorKind::InconsistentCapture => "inconsistent capture"@,
        ErrorKind::AlreadySet => "already set"@,
        ErrorKind::OutOfMemory => "out of memory"@,
        ErrorKind::NotInitialized => "not initialized"@,
        ErrorKind::ProfilerError => "profiler error"@,
        ErrorKind::FileNotFound => "file not found"@,
        ErrorKind::LaunchFailure => "launch failure"@,
        ErrorKind::PeerAccessError => "peer access error"@,
        ErrorKind::UnresolvedSymbol => "unresolved symbol"@,
        ErrorKind::LinkingError => "linking error"@,
    }
}

impl ErrorKind {
    /// The text that names the kind of error.
    pub fn describe(&self) -> (s: &'static str)
        ensures
            s@ == kind_text(*self),
    {
        match self {
            ErrorKind::EnvNotSet => "environment not set",
            ErrorKind::UnsupportedLimit => "unsupported limits",
            ErrorKind::UnsupportedFeature => "unsupported feature",
            ErrorKind::ParamNotMaterialized => "param not materialized",
            ErrorKind::GraphEmpty => "graph empty",
            ErrorKind::InvalidDType => "invalid data type",
            ErrorKind::UnresolvedInput => "unresolved input",
            ErrorKind::UnresolvedOutput => "unresolved output",
            ErrorKind::InvalidArgument => "invalid argument",
            ErrorKind::ComputeGraphError => "compute graph error",
            ErrorKind::FailedBufferCopy => "failed to copy GPU buffers",
            ErrorKind::FailedAdapterCreation => "failed adapter creation",
            ErrorKind::FailedEventCreation => "failed event creation",
            ErrorKind::FailedInfoQuery => "failed info query",
            ErrorKind::InvalidEventHandle => "invalid event handle",
            ErrorKind::InvalidInterval => "invalid interval",
            ErrorKind::SyncError => "synchronization error",
            ErrorKind::WaitFailed => "wait failed",
            ErrorKind::UnresolvedRedirection => "unresolved redirection",
            ErrorKind::SerializationError => "serialization or I/O error",
            ErrorKind::InternalError => "internal error (maybe report bug)",
            ErrorKind::PollFailed => "poll failed",
            ErrorKind::InvalidDevice => "invalid device",
            ErrorKind::InvalidMemoryOp => "invalid memory operation",
            ErrorKind::InconsistentCapture => "inconsistent capture",
            ErrorKind::AlreadySet => "already set",
            ErrorKind::OutOfMemory => "out of memory",
            ErrorKind::NotInitialized => "not initialized",
            ErrorKind::ProfilerError => "profiler error",
            ErrorKind::FileNotFound => "file not found",
            ErrorKind::LaunchFailure => "launch failure",
            ErrorKind::PeerAccessError => "peer access error",
            ErrorKind::UnresolvedSymbol => "unresolved symbol",
            ErrorKind::LinkingError => "linking error",
        }
    }
}

impl Error<()> {
    /// The kind of the error and its message: `kind: message`.
    pub fn describe(&self) -> (s: String)
        ensures
            s@ == kind_text(self.kind) + ": "@ + self.msg@,
    {
        let mut s = String::from_str(self.kind.describe());
        s.append(": ");
        s.append(self.msg);
        proof {
            reveal_strlit(": ");
        }
        s
    }
}

/// The elements of a list, separated by commas.
pub open spec fn joined(xs: Seq<usize>) -> Seq<char>
    decreases xs.len(),
{
    if xs.len() == 0 {
        Seq::empty()
    } else if xs.len() == 1 {
        dec(xs[0] as nat)
    } else {
        joined(xs.drop_last()) + ", "@ + dec(xs.last() as nat)
    }
}

/// A list written as `[a, b, c]`.
pub open spec fn list_text(xs: Seq<usize>) -> Seq<char> {
    "["@ + joined(xs) + "]"@
}

/// The indices of a list of metadata fields.
pub open spec fn field_ids(xs: Seq<MetaId>) -> Seq<usize> {
    xs.map_values(|m: MetaId| m.0)
}

/// The indices of a list of nodes.
pub open spec fn node_ids(xs: Seq<NodeId>) -> Seq<usize> {
    xs.map_values(|n: NodeId| n.0)
}

/// The operator of a binary operation, with the spaces around it.
pub open spec fn binary_symbol(b: BinaryOp) -> Seq<char> {
    match b {
        BinaryOp::Add => " + "@,
        BinaryOp::Mul => " * "@,
        BinaryOp::Sub => " - "@,
        BinaryOp::Div => " / "@,
    }
}

/// A binary operation written with the shapes of its operands.
pub open spec fn op_text(b: BinaryOp, sides: Seq<Seq<MetaId>>) -> Seq<char> {
    list_text(field_ids(sides[0])) + binary_symbol(b) + list_text(field_ids(sides[1]))
}

/// The contexts that can be written: those naming an operation name a
/// binary one with both operand shapes, and a rank mismatch names a rank.
pub open spec fn describable(c: GraphErrorView) -> bool {
    match c {
        GraphErrorView::ShapeMismatch { all_hand_sides, op, .. } => op is Binary && all_hand_sides.len() >= 2,
        GraphErrorView::CannotInferShape { all_hand_sides, op, .. } => op is Binary && all_hand_sides.len() >= 2,
        GraphErrorView::RankMismatch { all_hand_sides, .. } => all_hand_sides.len() >= 1,
        _ => true,
    }
}

/// The ranks after the first, each written after `==`.
pub open spec fn rank_rest(xs: Seq<usize>) -> Seq<char>
    decreases xs.len(),
{
    if xs.len() <= 1 {
        Seq::empty()
    } else {
        rank_rest(xs.drop_last()) + "== "@ + dec(xs.last() as nat)
    }
}

/// The text of a graph error context.
pub open spec fn ctx_text(c: GraphErrorView) -> Seq<char> {
    match c {
        GraphErrorView::Unrelated => "unrelated"@,
        GraphErrorView::CycleDetected { node, path } =>
            "cycle detected at node "@ + dec(node.0 as nat) + " following "@ + list_text(node_ids(path)),
        GraphErrorView::InvalidAxis { node, axis, rank } =>
            "invalid axis "@ + dec(axis as nat) + " for rank of "@ + dec(rank as nat) + " at node "@ + dec(node.0 as nat),
        GraphErrorView::InvalidInputs { node, arity, args } =>
            "invalid input count "@ + dec(args as nat) + " for arity of "@ + dec(arity as nat) + " at node "@ + dec(node.0 as nat),
        GraphErrorView::MissingInput { node, input } =>
            "missing input at node "@ + dec(node.0 as nat) + " on input node "@ + dec(input.0 as nat),
        GraphErrorView::MissingMetadata { node, meta } =>
            "missing metadata at node "@ + dec(node.0 as nat) + " on field f"@ + dec(meta.0 as nat),
        GraphErrorView::ShapeMismatch { node, all_hand_sides, op } =>
            "shape mismatch at node "@ + dec(node.0 as nat) + " "@ + op_text(op->Binary_0, all_hand_sides),
        GraphErrorView::RankMismatch { node, all_hand_sides } =>
            "rank mismatch at node "@ + dec(node.0 as nat) + dec(all_hand_sides[0] as nat) + rank_rest(all_hand_sides),
        GraphErrorView::LowRank { node, rank, required } =>
            "rank too low at node "@ + dec(node.0 as nat) + " ("@ + dec(rank as nat) + " >= "@ + dec(required as nat) + ")"@,
        GraphErrorView::CannotInferShape { node, all_hand_sides, op } =>
            "cannot infer shape of node "@ + dec(node.0 as nat) + " with op "@ + op_text(op->Binary_0, all_hand_sides),
    }
}

/// Appends the text of a number.
fn push_usize(out: &mut String, n: usize)
    ensures
        final(out)@ == old(out)@ + dec(n as nat),
{
    push_dec(out, n as u64);
}

/// Appends a list written as `[a, b, c]`.
fn push_list(out: &mut String, xs: &[usize])
    ensures
        final(out)@ == old(out)@ + list_text(xs@),
{
    proof {
        reveal_strlit("[");
        reveal_strlit("]");
        reveal_strlit(", ");
    }
    out.append("[");
    let ghost head = out@;
    let mut i: usize = 0;
    proof {
        assert(xs@.take(0) =~= Seq::<usize>::empty());
        assert(out@ =~= head + joined(xs@.take(0)));
    }
    while i < xs.len()
        invariant
            i <= xs@.len(),
            out@ == head + joined(xs@.take(i as int)),
        decreases xs@.len() - i,
    {
        proof {
            assert(xs@.take(i + 1).drop_last() =~= xs@.take(i as int));
            assert(xs@.take(i + 1).last() == xs@[i as int]);
        }
        if i > 0 {
            out.append(", ");
        }
        push_usize(out, xs[i]);
        i = i + 1;
        proof {
            if i == 1 {
                assert(xs@.take(1)[0] == xs@[0]);
            }
            assert(out@ =~= head + joined(xs@.take(i as int)));
        }
    }
    out.append("]");
    proof {
        assert(xs@.take(xs@.len() as int) =~= xs@);
        assert(out@ =~= old(out)@ + list_text(xs@));
    }
}

/// The indices of a list of metadata fields.
fn field_indices(xs: &[MetaId]) -> (v: Vec<usize>)
    ensures
        v@ == field_ids(xs@),
{
    let mut v: Vec<usize> = Vec::new();
    let mut i: usize = 0;
    while i < xs.len()
        invariant
            i <= xs@.len(),
            v@ == field_ids(xs@.take(i as int)),
        decreases xs@.len() - i,
    {
        v.push(xs[i].0);
        i = i + 1;
        proof {
            assert(v@ =~= field_ids(xs@.take(i as int)));
        }
    }
    proof {
        assert(xs@.take(xs@.len() as int) =~= xs@);
    }
    v
}

/// The indices of a list of nodes.
fn node_indices(xs: &[NodeId]) -> (v: Vec<usize>)
    ensures
        v@ == node_ids(xs@),
{
    let mut v: Vec<usize> = Vec::new();
    let mut i: usize = 0;
    while i < xs.len()
        invariant
            i <= xs@.len(),
            v@ == node_ids(xs@.take(i as int)),
        decreases xs@.len() - i,
    {
        v.push(xs[i].0);
        i = i + 1;
        proof {
            assert(v@ =~= node_ids(xs@.take(i as int)));
        }
    }
    proof {
        assert(xs@.take(xs@.len() as int) =~= xs@);
    }
    v
}

/// Appends a binary operation written with the shapes of its operands.
fn push_op(out: &mut String, b: BinaryOp, sides: &Vec<Vec<MetaId>>)
    requires
        sides@.len() >= 2,
    ensures
        final(out)@ == old(out)@ + op_text(b, sides_view(*sides)),
{
    let lhs = field_indices(sides[0].as_slice());
    let rhs = field_indices(sides[1].as_slice());
    push_list(out, lhs.as_slice());
    let sym = match b {
        BinaryOp::Add => " + ",
        BinaryOp::Mul => " * ",
        BinaryOp::Sub => " - ",
        BinaryOp::Div => " / ",
    };
    proof {
        reveal_strlit(" + ");
        reveal_strlit(" * ");
        reveal_strlit(" - ");
        reveal_strlit(" / ");
    }
    out.append(sym);
    push_list(out, rhs.as_slice());
    proof {
        assert(sides_view(*sides)[0] == sides@[0]@);
        assert(sides_view(*sides)[1] == sides@[1]@);
        assert(out@ =~= old(out)@ + op_text(b, sides_view(*sides)));
    }
}

impl GraphErrorContext {
    /// The text of the context.
    pub fn describe(&self) -> (s: String)
        requires
            describable(self@),
        ensures
            s@ == ctx_text(self@),
    {
        let mut s = String::new();
        match self {
            GraphErrorContext::Unrelated => {
                s.append("unrelated");
            },
            GraphErrorContext::CycleDetected { node, path } => {
                s.append("cycle detected at node ");
                push_usize(&mut s, node.0);
                s.append(" following ");
                let ids = node_indices(path.as_slice());
                push_list(&mut s, ids.as_slice());
            },
            GraphErrorContext::InvalidAxis { node, axis, rank } => {
                s.append("invalid axis ");
                push_usize(&mut s, *axis);
                s.append(" for rank of ");
                push_usize(&mut s, *rank);
                s.append(" at node ");
                push_usize(&mut s, node.0);
            },
            GraphErrorContext::InvalidInputs { node, arity, args } => {
                s.append("invalid input count ");
                push_usize(&mut s, *args);
                s.append(" for arity of ");
                push_usize(&mut s, *arity);
                s.append(" at node ");
                push_usize(&mut s, node.0);
            },
            GraphErrorContext::MissingInput { node, input } => {
                s.append("missing input at node ");
                push_usize(&mut s, node.0);
                s.append(" on input node ");
                push_usize(&mut s, input.0);
            },
            GraphErrorContext::MissingMetadata { node, meta } => {
                s.append("missing metadata at node ");
                push_usize(&mut s, node.0);
                s.append(" on field f");
                push_usize(&mut s, meta.0);
            },
            GraphErrorContext::ShapeMismatch { node, all_hand_sides, op } => {
                s.append("shape mismatch at node ");
                push_usize(&mut s, node.0);
                s.append(" ");
                match op {
                    GraphOp::Binary(b) => push_op(&mut s, *b, all_hand_sides),
                    _ => {},
                }
            },
            GraphErrorContext::RankMismatch { node, all_hand_sides } => {
                s.append("rank mismatch at node ");
                push_usize(&mut s, node.0);
                push_usize(&mut s, all_hand_sides[0]);
                let ghost head = s@;
                let mut i: usize = 1;
                proof {
                    assert(rank_rest(all_hand_sides@.take(1)) =~= Seq::<char>::empty());
                    assert(s@ =~= head + rank_rest(all_hand_sides@.take(1)));
                }
                while i < all_hand_sides.len()
                    invariant
                        1 <= i <= all_hand_sides@.len(),
                        s@ == head + rank_rest(all_hand_sides@.take(i as int)),
                    decreases all_hand_sides@.len() - i,
                {
                    proof {
                        assert(all_hand_sides@.take(i + 1).drop_last() =~= all_hand_sides@.take(i as int));
                        assert(all_hand_sides@.take(i + 1).last() == all_hand_sides@[i as int]);
                        reveal_strlit("== ");
                    }
                    s.append("== ");
                    push_usize(&mut s, all_hand_sides[i]);
                    i = i + 1;
                    proof {
                        assert(s@ =~= head + rank_rest(all_hand_sides@.take(i as int)));
                    }
                }
                proof {
                    assert(all_hand_sides@.take(all_hand_sides@.len() as int) =~= all_hand_sides@);
                }
            },
            GraphErrorContext::LowRank { node, rank, required } => {
                s.append("rank too low at node ");
                push_usize(&mut s, node.0);
                s.append(" (");
                push_usize(&mut s, *rank);
                s.append(" >= ");
                push_usize(&mut s, *required);
                s.append(")");
            },
            GraphErrorContext::CannotInferShape { node, all_hand_sides, op } => {
                s.append("cannot infer shape of node ");
                push_usize(&mut s, node.0);
                s.append(" with op ");
                match op {
                    GraphOp::Binary(b) => push_op(&mut s, *b, all_hand_sides),
                    _ => {},
                }
            },
        }
        proof {
            assert(s@ =~= ctx_text(self@));
        }
        s
    }
}

impl Error<GraphErrorContext> {
    /// The kind of the error, its message and its context:
    /// `kind: message, context`.
    pub fn describe(&self) -> (s: String)
        requires
            describable(self.ctx@),
        ensures
            s@ == kind_text(self.kind) + ": "@ + self.msg@ + ", "@ + ctx_text(self.ctx@),
    {
        let mut s = String::from_str(self.kind.describe());
        s.append(": ");
        s.append(self.msg);
        s.append(", ");
        let c = self.ctx.describe();
        s.append(c.as_str());
        proof {
            reveal_strlit(": ");
            reveal_strlit(", ");
        }
        s
    }
}

/// The errors the HIP runtime reports.
#[derive(Debug, Clone, Copy, PartialEq, Eq, Hash, Structural)]
pub enum HipErrorCode {
    InvalidValue,
    OutOfMemory,
    NotInitialized,
    Deinitialized,
    ProfilerDisabled,
    ProfilerNotInitialized,
    ProfilerAlreadyStarted,
    ProfilerAlreadyStopped,
    InvalidConfiguration,
    InvalidPitchValue,
    InvalidSymbol,
    InvalidDevicePointer,
    InvalidMemcpyDirection,
    InsufficientDriver,
    MissingConfiguration,
    PriorLaunchFailure,
    InvalidDeviceFunction,
    NoDevice,
    InvalidDevice,
    InvalidImage,
    InvalidContext,
    ContextAlreadyCurrent,
    MapFailed,
    UnmapFailed,
    ArrayIsMapped,
    AlreadyMapped,
    NoBinaryForGpu,
    AlreadyAcquired,
    NotMapped,
    NotMappedAsArray,
    NotMappedAsPointer,
    ECCNotCorrectable,
    UnsupportedLimit,
    ContextAlreadyInUse,
    PeerAccessUnsupported,
    InvalidKernelFile,
    InvalidGraphicsContext,
    InvalidSource,
    FileNotFound,
    SharedObjectSymbolNotFound,
    SharedObjectInitFailed,
    OperatingSystem,
    InvalidHandle,
    IllegalState,
    NotFound,
    NotReady,
    IllegalAddress,
    LaunchOutOfResources,
    LaunchTimeOut,
    PeerAccessAlreadyEnabled,
    PeerAccessNotEnabled,
    SetOnActiveProcess,
    ContextIsDestroyed,
    Assert,
    HostMemoryAlreadyRegistered,
    HostMemoryNotRegistered,
    LaunchFailure,
    CooperativeLaunchTooLarge,
    NotSupported,
    StreamCaptureUnsupported,
    StreamCaptureInvalidated,
    StreamCaptureMerge,
    StreamCaptureUnmatched,
    StreamCaptureUnjoined,
    StreamCaptureIsolation,
    StreamCaptureImplicit,
    CapturedEvent,
    StreamCaptureWrongThread,
    GraphExecUpdateFailure,
    InvalidChannelDescriptor,
    InvalidTexture,
    Unknown,
    RuntimeMemory,
    RuntimeOther,
    Tbd,
}

/// The kind of error a HIP runtime error is reported as.
pub open spec fn hip_error_kind(e: HipErrorCode) -> ErrorKind {
    match e {
        HipErrorCode::InvalidValue | HipErrorCode::InvalidConfiguration | HipErrorCode::InvalidPitchValue | HipErrorCode::InvalidSymbol | HipErrorCode::InvalidDevicePointer | HipErrorCode::InvalidMemcpyDirection | HipErrorCode::MissingConfiguration | HipErrorCode::InvalidDeviceFunction | HipErrorCode::InvalidImage | HipErrorCode::InvalidKernelFile | HipErrorCode::InvalidGraphicsContext | HipErrorCode::InvalidSource | HipErrorCode::InvalidHandle | HipErrorCode::InvalidChannelDescriptor | HipErrorCode::InvalidTexture => ErrorKind::InvalidArgument,
        HipErrorCode::OutOfMemory | HipErrorCode::CooperativeLaunchTooLarge => ErrorKind::OutOfMemory,
        HipErrorCode::NotInitialized | HipErrorCode::Deinitialized | HipErrorCode::HostMemoryNotRegistered => ErrorKind::NotInitialized,
        HipErrorCode::ProfilerDisabled | HipErrorCode::ProfilerNotInitialized | HipErrorCode::ProfilerAlreadyStarted | HipErrorCode::ProfilerAlreadyStopped => ErrorKind::ProfilerError,
        HipErrorCode::InsufficientDriver | HipErrorCode::NotSupported => ErrorKind::UnsupportedFeature,
        HipErrorCode::PriorLaunchFailure | HipErrorCode::NoBinaryForGpu | HipErrorCode::LaunchOutOfResources | HipErrorCode::LaunchTimeOut | HipErrorCode::LaunchFailure => ErrorKind::LaunchFailure,
        HipErrorCode::NoDevice | HipErrorCode::InvalidDevice | HipErrorCode::InvalidContext | HipErrorCode::ContextIsDestroyed => ErrorKind::InvalidDevice,
        HipErrorCode::ContextAlreadyCurrent | HipErrorCode::ContextAlreadyInUse | HipErrorCode::HostMemoryAlreadyRegistered => ErrorKind::AlreadySet,
        HipErrorCode::MapFailed | HipErrorCode::ECCNotCorrectable | HipErrorCode::OperatingSystem | HipErrorCode::IllegalState | HipErrorCode::SetOnActiveProcess | HipErrorCode::Assert | HipErrorCode::GraphExecUpdateFailure | HipErrorCode::Unknown | HipErrorCode::RuntimeOther | HipErrorCode::Tbd => ErrorKind::InternalError,
        HipErrorCode::UnmapFailed | HipErrorCode::ArrayIsMapped | HipErrorCode::AlreadyMapped | HipErrorCode::NotMapped | HipErrorCode::NotMappedAsArray | HipErrorCode::NotMappedAsPointer | HipErrorCode::IllegalAddress | HipErrorCode::RuntimeMemory => ErrorKind::InvalidMemoryOp,
        HipErrorCode::AlreadyAcquired | HipErrorCode::NotReady => ErrorKind::SyncError,
        HipErrorCode::UnsupportedLimit => ErrorKind::UnsupportedLimit,
        HipErrorCode::PeerAccessUnsupported | HipErrorCode::PeerAccessAlreadyEnabled | HipErrorCode::PeerAccessNotEnabled => ErrorKind::PeerAccessError,
        HipErrorCode::FileNotFound => ErrorKind::FileNotFound,
        HipErrorCode::SharedObjectSymbolNotFound | HipErrorCode::SharedObjectInitFailed | HipErrorCode::NotFound => ErrorKind::UnresolvedSymbol,
        HipErrorCode::StreamCaptureUnsupported | HipErrorCode::StreamCaptureInvalidated | HipErrorCode::StreamCaptureMerge | HipErrorCode::StreamCaptureUnmatched | HipErrorCode::StreamCaptureUnjoined | HipErrorCode::StreamCaptureIsolation | HipErrorCode::StreamCaptureImplicit | HipErrorCode::CapturedEvent | HipErrorCode::StreamCaptureWrongThread => ErrorKind::InconsistentCapture,
    }
}

impl ErrorKind {
    /// The kind of error a HIP runtime error is reported as.
    pub fn from_hip(e: HipErrorCode) -> (k: ErrorKind)
        ensures
            k == hip_error_kind(e),
    {
        match e {
            HipErrorCode::InvalidValue | HipErrorCode::InvalidConfiguration | HipErrorCode::InvalidPitchValue | HipErrorCode::InvalidSymbol | HipErrorCode::InvalidDevicePointer | HipErrorCode::InvalidMemcpyDirection | HipErrorCode::MissingConfiguration | HipErrorCode::InvalidDeviceFunction | HipErrorCode::InvalidImage | HipErrorCode::InvalidKernelFile | HipErrorCode::InvalidGraphicsContext | HipErrorCode::InvalidSource | HipErrorCode::InvalidHandle | HipErrorCode::InvalidChannelDescriptor | HipErrorCode::InvalidTexture => ErrorKind::InvalidArgument,
            HipErrorCode::OutOfMemory | HipErrorCode::CooperativeLaunchTooLarge => ErrorKind::OutOfMemory,
            HipErrorCode::NotInitialized | HipErrorCode::Deinitialized | HipErrorCode::HostMemoryNotRegistered => ErrorKind::NotInitialized,
            HipErrorCode::ProfilerDisabled | HipErrorCode::ProfilerNotInitialized | HipErrorCode::ProfilerAlreadyStarted | HipErrorCode::ProfilerAlreadyStopped => ErrorKind::ProfilerError,
            HipErrorCode::InsufficientDriver | HipErrorCode::NotSupported => ErrorKind::UnsupportedFeature,
            HipErrorCode::PriorLaunchFailure | HipErrorCode::NoBinaryForGpu | HipErrorCode::LaunchOutOfResources | HipErrorCode::LaunchTimeOut | HipErrorCode::LaunchFailure => ErrorKind::LaunchFailure,
            HipErrorCode::NoDevice | HipErrorCode::InvalidDevice | HipErrorCode::InvalidContext | HipErrorCode::ContextIsDestroyed => ErrorKind::InvalidDevice,
            HipErrorCode::ContextAlreadyCurrent | HipErrorCode::ContextAlreadyInUse | HipErrorCode::HostMemoryAlreadyRegistered => ErrorKind::AlreadySet,
            HipErrorCode::MapFailed | HipErrorCode::ECCNotCorrectable | HipErrorCode::OperatingSystem | HipErrorCode::IllegalState | HipErrorCode::SetOnActiveProcess | HipErrorCode::Assert | HipErrorCode::GraphExecUpdateFailure | HipErrorCode::Unknown | HipErrorCode::RuntimeOther | HipErrorCode::Tbd => ErrorKind::InternalError,
            HipErrorCode::UnmapFailed | HipErrorCode::ArrayIsMapped | HipErrorCode::AlreadyMapped | HipErrorCode::NotMapped | HipErrorCode::NotMappedAsArray | HipErrorCode::NotMappedAsPointer | HipErrorCode::IllegalAddress | HipErrorCode::RuntimeMemory => ErrorKind::InvalidMemoryOp,
            HipErrorCode::AlreadyAcquired | HipErrorCode::NotReady => ErrorKind::SyncError,
            HipErrorCode::UnsupportedLimit => ErrorKind::UnsupportedLimit,
            HipErrorCode::PeerAccessUnsupported | HipErrorCode::PeerAccessAlreadyEnabled | HipErrorCode::PeerAccessNotEnabled => ErrorKind::PeerAccessError,
            HipErrorCode::FileNotFound => ErrorKind::FileNotFound,
            HipErrorCode::SharedObjectSymbolNotFound | HipErrorCode::SharedObjectInitFailed | HipErrorCode::NotFound => ErrorKind::UnresolvedSymbol,
            HipErrorCode::StreamCaptureUnsupported | HipErrorCode::StreamCaptureInvalidated | HipErrorCode::StreamCaptureMerge | HipErrorCode::StreamCaptureUnmatched | HipErrorCode::StreamCaptureUnjoined | HipErrorCode::StreamCaptureIsolation | HipErrorCode::StreamCaptureImplicit | HipErrorCode::CapturedEvent | HipErrorCode::StreamCaptureWrongThread => ErrorKind::InconsistentCapture,
        }
    }
}

/// The errors of the HIP runtime compiler, as the library tells them apart.
#[derive(Debug, Clone, Copy, PartialEq, Eq, Hash, Structural)]
pub enum HiprtcErrorCode {
    OutOfMemory,
    ProgramCreationFailure,
    InvalidInput,
    InvalidProgram,
    InvalidOption,
    Compilation,
    BuiltinOperationFailure,
    NoNameExpressionsAfterCompilation,
    NoLoweredNamesBeforeCompilation,
    NameExpressionNotValid,
    InternalError,
    Linking,
}

/// The kind of error a HIP runtime compiler error is reported as.
pub open spec fn hiprtc_error_kind(e: HiprtcErrorCode) -> ErrorKind {
    match e {
        HiprtcErrorCode::BuiltinOperationFailure | HiprtcErrorCode::Compilation | HiprtcErrorCode::InternalError | HiprtcErrorCode::NameExpressionNotValid | HiprtcErrorCode::NoLoweredNamesBeforeCompilation | HiprtcErrorCode::NoNameExpressionsAfterCompilation | HiprtcErrorCode::ProgramCreationFailure => ErrorKind::InternalError,
        HiprtcErrorCode::OutOfMemory => ErrorKind::OutOfMemory,
        HiprtcErrorCode::Linking => ErrorKind::LinkingError,
        HiprtcErrorCode::InvalidInput | HiprtcErrorCode::InvalidOption | HiprtcErrorCode::InvalidProgram => ErrorKind::InvalidArgument,
    }
}

impl ErrorKind {
    /// The kind of error a HIP runtime compiler error is reported as.
    pub fn from_hiprtc(e: HiprtcErrorCode) -> (k: ErrorKind)
        ensures
            k == hiprtc_error_kind(e),
    {
        match e {
            HiprtcErrorCode::BuiltinOperationFailure | HiprtcErrorCode::Compilation | HiprtcErrorCode::InternalError | HiprtcErrorCode::NameExpressionNotValid | HiprtcErrorCode::NoLoweredNamesBeforeCompilation | HiprtcErrorCode::NoNameExpressionsAfterCompilation | HiprtcErrorCode::ProgramCreationFailure => ErrorKind::InternalError,
            HiprtcErrorCode::OutOfMemory => ErrorKind::OutOfMemory,
            HiprtcErrorCode::Linking => ErrorKind::LinkingError,
            HiprtcErrorCode::InvalidInput | HiprtcErrorCode::InvalidOption | HiprtcErrorCode::InvalidProgram => ErrorKind::InvalidArgument,
        }
    }
}

impl Error<()> {
    /// The error with a graph context that relates it to no node.
    pub fn into_graph(self) -> (e: Error<GraphErrorContext>)
        ensures
            e.msg == self.msg,
            e.kind == self.kind,
            e.ctx@ == GraphErrorView::Unrelated,
    {
        Error { msg: self.msg, kind: self.kind, ctx: GraphErrorContext::Unrelated }
    }
}

} // verus!
