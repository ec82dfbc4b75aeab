//! Typed indices used throughout the compiler.

use vstd::prelude::*;

verus! {

/// Position of a node among the inputs of one of its users.
#[derive(Debug, Clone, Copy, PartialEq, Eq, Hash, Structural)]
pub struct EdgeId(pub usize);

/// Index of a node in a compute graph.
#[derive(Debug, Clone, Copy, PartialEq, Eq, Hash, Structural)]
pub struct NodeId(pub usize);

/// Index of a kernel parameter (a bound buffer).
#[derive(Debug, Clone, Copy, PartialEq, Eq, Hash, Structural)]
pub struct ParamId(pub usize);

/// Index of a workgroup-shared allocation of a kernel.
#[derive(Debug, Clone, Copy, PartialEq, Eq, Hash, Structural)]
pub struct SharedId(pub usize);

/// Index of a metadata field (a runtime dimension).
#[derive(Debug, Clone, Copy, PartialEq, Eq, Hash, Structural)]
pub struct MetaId(pub usize);

/// Index of a value (a variable) of a kernel.
#[derive(Debug, Clone, Copy, PartialEq, Eq, Hash, Structural)]
pub struct ValueId(pub usize);

} // verus!
