//! Compilation options.

use vstd::prelude::*;

verus! {

/// The state of a submitted batch of GPU work.
#[derive(Debug, Clone, Copy, PartialEq, Eq, Hash, Structural)]
pub enum PollStatus {
    QueueEmpty,
    Failed,
    Pending,
    Ready,
}

/// Features of a compilation target, as bits.
#[derive(Debug, Clone, Copy, PartialEq, Eq, Hash, Structural)]
pub struct TargetFlags {
    pub bits: u8,
}

impl TargetFlags {
    /// Support for a linear algebra accelerator, such as tensor cores.
    pub const LIN_ACC: u8 = 1;
    /// A linked BLAS library.
    pub const BLAS_LIB: u8 = 2;
    /// Support for asynchronous memory loads.
    pub const ASYNC_MEM_LOAD: u8 = 4;
    /// Support for asynchronous memory stores.
    pub const ASYNC_MEM_STORE: u8 = 8;

    /// No features.
    pub fn empty() -> (f: TargetFlags)
        ensures
            f.bits == 0,
    {
        TargetFlags { bits: 0 }
    }

    /// Whether every feature of `other` is present.
    pub fn contains(&self, other: u8) -> (b: bool)
        ensures
            b == (self.bits & other == other),
    {
        self.bits & other == other
    }
}

/// What a compilation target supports.
#[derive(Debug, Clone, Copy, PartialEq, Eq, Hash, Structural)]
pub struct TargetCompilationOptions {
    pub flags: TargetFlags,
}

/// Debugging options of compilation, as bits.
#[derive(Debug, Clone, Copy, PartialEq, Eq, Hash, Structural)]
pub struct DebugCompilationOptions {
    pub bits: u8,
}

impl DebugCompilationOptions {
    /// Formats the generated code for reading.
    pub const PRETTY_PRINT_IR: u8 = 1;

    /// No debugging options.
    pub fn empty() -> (d: DebugCompilationOptions)
        ensures
            d.bits == 0,
    {
        DebugCompilationOptions { bits: 0 }
    }

    /// Whether every option of `other` is set.
    pub fn contains(&self, other: u8) -> (b: bool)
        ensures
            b == (self.bits & other == other),
    {
        self.bits & other == other
    }
}

/// The optimizations the compiler runs each pass, as bits.
#[derive(Debug, Clone, Copy, PartialEq, Eq, Hash, Structural)]
pub struct OptFlags {
    pub bits: u16,
}

impl OptFlags {
    /// Dead code elimination.
    pub const DEAD_CODE: u16 = 0x1;
    /// Constant folding.
    pub const CONST_FOLD: u16 = 0x2;
    /// Assignments turned into operator assignments.
    pub const OP_ASSIGN: u16 = 0x4;
    /// Arithmetic identities removed.
    pub const IDENTITY: u16 = 0x8;
    /// Division by a constant turned into multiplication.
    pub const DIV_CONST: u16 = 0x10;
    /// Multiply-adds fused.
    pub const MUL_ADD: u16 = 0x20;
    /// Loop-invariant operations moved before their loop.
    pub const LOOP_STATELESS: u16 = 0x40;
    /// Empty scopes removed.
    pub const EMPTY_SCOPE: u16 = 0x80;
    /// Never-mutated variables made immutable.
    pub const UNUSED_MUT: u16 = 0x100;
    /// Copies of immutable variables replaced by the original.
    pub const COPY_IMMUT: u16 = 0x200;
    /// Late initialization of mutable variables merged into their
    /// declaration.
    pub const LATE_INIT: u16 = 0x400;

    /// Every optimization.
    pub fn all() -> (f: OptFlags)
        ensures
            f.bits == 0x7ff,
    {
        OptFlags { bits: 0x7ff }
    }

    /// No optimization.
    pub fn empty() -> (f: OptFlags)
        ensures
            f.bits == 0,
    {
        OptFlags { bits: 0 }
    }

    /// Whether every optimization of `other` is enabled.
    pub fn contains(&self, other: u16) -> (b: bool)
        ensures
            b == (self.bits & other == other),
    {
        self.bits & other == other
    }
}

/// Optimization options of compilation.
#[derive(Debug, Clone, Copy, PartialEq, Eq, Hash, Structural)]
pub struct OptCompilationOptions {
    /// The tile or block size.
    pub tile_size: u32,
    /// How many optimization passes run over each kernel.
    pub passes: u8,
    /// The optimizations each pass runs.
    pub flags: OptFlags,
}

impl Default for OptCompilationOptions {
    /// Tiles of 16, three passes, every optimization.
    fn default() -> (o: Self)
        ensures
            o.tile_size == 16,
            o.passes == 3,
            o.flags.bits == 0x7ff,
    {
        OptCompilationOptions { tile_size: 16, passes: 3, flags: OptFlags::all() }
    }
}

/// Everything that steers compilation.
#[derive(Debug, Clone, Copy, PartialEq, Eq, Hash, Structural)]
pub struct CompilationOptions {
    pub target: TargetCompilationOptions,
    pub debug: DebugCompilationOptions,
    pub opt: OptCompilationOptions,
}

impl CompilationOptions {
    /// Whether generated code is formatted for reading.
    pub fn pretty_print(&self) -> (b: bool)
        ensures
            b == (self.debug.bits & 1 == 1),
    {
        self.debug.contains(DebugCompilationOptions::PRETTY_PRINT_IR)
    }
}

} // verus!
