//! Kernels in their intermediate form: values, instructions, parameters and
//! workgroup-shared memory.

use vstd::prelude::*;
use crate::dtype::{DType, SimpleDType};
use crate::errors::{err, make_err, Error, ErrorKind};
use crate::id::{MetaId, NodeId, ParamId, ValueId};
use crate::ops::{reads, Op};

verus! {

/// How a value is materialized in generated code.
#[derive(Debug, Clone, Copy, PartialEq, Eq, Hash, Structural)]
pub enum ValueState {
    /// A compile-time constant.
    Const,
    /// An immutable binding.
    Immut,
    /// A mutable variable.
    Mut,
    /// Written out at each use, in place of a name.
    Inline,
    /// Not written at all.
    Masked,
}

/// A value of a kernel: its type, how it is materialized, and the
/// instruction that initializes it.
#[derive(Debug, Clone, Copy, PartialEq, Eq, Structural)]
pub struct Value {
    pub dtype: DType,
    pub state: ValueState,
    pub init: Option<Op>,
}

/// How a kernel parameter is bound.
#[derive(Debug, Clone, Copy, PartialEq, Eq, Hash, Structural)]
pub enum ParamTy {
    Uniform,
    ReadOnly,
    ReadWrite,
}

/// A kernel parameter: a buffer of scalars.
#[derive(Debug, Clone, Copy, PartialEq, Eq, Hash, Structural)]
pub struct Param {
    pub dtype: SimpleDType,
    pub ty: ParamTy,
    pub pid: ParamId,
}

/// An array in workgroup-shared memory.
#[derive(Debug, Clone, Copy, PartialEq, Eq, Hash, Structural)]
pub struct SharedAlloc {
    pub dtype: SimpleDType,
    pub size: u32,
}

/// The runtime metadata of a graph: field 0 is the learning rate, the
/// others are dimensions.
#[derive(Debug, Clone, Copy, PartialEq, Eq, Hash, Structural)]
pub struct Metadata {
    pub fields: usize,
}

impl Metadata {
    /// Metadata with only the learning-rate field.
    pub fn new() -> (m: Metadata)
        ensures
            m.fields == 1,
    {
        Metadata { fields: 1 }
    }

    /// Adds a dimension field and returns its index.
    pub fn new_field(&mut self) -> (id: MetaId)
        requires
            old(self).fields < usize::MAX,
        ensures
            id.0 == old(self).fields,
            final(self).fields == old(self).fields + 1,
    {
        let id = MetaId(self.fields);
        self.fields = self.fields + 1;
        id
    }

    /// Whether a binding gives a value to every field.
    pub fn validate_meta(&self, binding: &[u32]) -> (ok: bool)
        ensures
            ok == (binding@.len() == self.fields),
    {
        binding.len() == self.fields
    }
}

/// A kernel before code generation.
#[derive(Debug, Clone)]
pub struct RawKernel {
    pub meta: Metadata,
    pub shared: Vec<SharedAlloc>,
    pub values: Vec<Value>,
    pub ops: Vec<Op>,
    pub block: [u32; 3],
    pub root: NodeId,
    pub iter_space: Vec<MetaId>,
}

/// The values code generation looks up for an instruction: those it reads,
/// and the one a `DefineVar` introduces.
pub open spec fn lookups(op: Op) -> Set<ValueId> {
    match op {
        Op::DefineVar { id } => set![id],
        _ => reads(op),
    }
}

/// Every value `op` looks up is below `bound`.
pub open spec fn lookups_below(op: Op, bound: nat) -> bool {
    forall|v: ValueId| #[trigger] lookups(op).contains(v) ==> v.0 < bound
}

/// Instructions that open or close a scope of generated code.
pub open spec fn is_scope_op(op: Op) -> bool {
    match op {
        Op::ForLoopBegin { .. } | Op::ForeverLoopBegin | Op::IfBegin { .. } | Op::ElseBegin
        | Op::StartScope | Op::EndScope => true,
        _ => false,
    }
}

/// A kernel whose values are defined before they are used: the initializer
/// of each value is an expression that only looks up earlier values, and
/// every instruction only looks up existing values.
pub open spec fn well_formed(k: RawKernel) -> bool {
    &&& forall|i: int|
        0 <= i < k.values@.len() ==> match (#[trigger] k.values@[i]).init {
            Some(op) => lookups_below(op, i as nat) && !is_scope_op(op),
            None => true,
        }
    &&& forall|j: int| 0 <= j < k.ops@.len() ==> lookups_below(#[trigger] k.ops@[j], k.values@.len() as nat)
}

/// Whether an instruction only looks up values below `bound`.
pub fn looks_up_below(op: &Op, bound: usize) -> (b: bool)
    ensures
        b == lookups_below(*op, bound as nat),
{
    match *op {
        Op::DefineVar { id } => {
            proof {
                assert(lookups(*op).contains(id));
            }
            id.0 < bound
        },
        Op::OverwriteVar { id: _, val } => {
            proof {
                assert(lookups(*op).contains(val));
            }
            val.0 < bound
        },
        Op::AddAssign { id: _, val } => {
            proof {
                assert(lookups(*op).contains(val));
            }
            val.0 < bound
        },
        Op::MulAssign { id: _, val } => {
            proof {
                assert(lookups(*op).contains(val));
            }
            val.0 < bound
        },
        Op::DivAssign { id: _, val } => {
            proof {
                assert(lookups(*op).contains(val));
            }
            val.0 < bound
        },
        Op::SubAssign { id: _, val } => {
            proof {
                assert(lookups(*op).contains(val));
            }
            val.0 < bound
        },
        Op::ShlAssign { id: _, val } => {
            proof {
                assert(lookups(*op).contains(val));
            }
            val.0 < bound
        },
        Op::ShrAssign { id: _, val } => {
            proof {
                assert(lookups(*op).contains(val));
            }
            val.0 < bound
        },
        Op::CopyVar { id } => {
            proof {
                assert(lookups(*op).contains(id));
            }
            id.0 < bound
        },
        Op::Add { a, b } => {
            proof {
                assert(lookups(*op).contains(a)); assert(lookups(*op).contains(b));
            }
            a.0 < bound && b.0 < bound
        },
        Op::Sub { a, b } => {
            proof {
                assert(lookups(*op).contains(a)); assert(lookups(*op).contains(b));
            }
            a.0 < bound && b.0 < bound
        },
        Op::Mul { a, b } => {
            proof {
                assert(lookups(*op).contains(a)); assert(lookups(*op).contains(b));
            }
            a.0 < bound && b.0 < bound
        },
        Op::Div { a, b } => {
            proof {
                assert(lookups(*op).contains(a)); assert(lookups(*op).contains(b));
            }
            a.0 < bound && b.0 < bound
        },
        Op::Mod { a, b } => {
            proof {
                assert(lookups(*op).contains(a)); assert(lookups(*op).contains(b));
            }
            a.0 < bound && b.0 < bound
        },
        Op::Pow { a, b } => {
            proof {
                assert(lookups(*op).contains(a)); assert(lookups(*op).contains(b));
            }
            a.0 < bound && b.0 < bound
        },
        Op::Shl { a, b } => {
            proof {
                assert(lookups(*op).contains(a)); assert(lookups(*op).contains(b));
            }
            a.0 < bound && b.0 < bound
        },
        Op::Shr { a, b } => {
            proof {
                assert(lookups(*op).contains(a)); assert(lookups(*op).contains(b));
            }
            a.0 < bound && b.0 < bound
        },
        Op::Fma { a, b, c } => {
            proof {
                assert(lookups(*op).contains(a)); assert(lookups(*op).contains(b)); assert(lookups(*op).contains(c));
            }
            a.0 < bound && b.0 < bound && c.0 < bound
        },
        Op::Exp { x } => {
            proof {
                assert(lookups(*op).contains(x));
            }
            x.0 < bound
        },
        Op::Abs { x } => {
            proof {
                assert(lookups(*op).contains(x));
            }
            x.0 < bound
        },
        Op::Neg { x } => {
            proof {
                assert(lookups(*op).contains(x));
            }
            x.0 < bound
        },
        Op::Log { x } => {
            proof {
                assert(lookups(*op).contains(x));
            }
            x.0 < bound
        },
        Op::Tanh { x } => {
            proof {
                assert(lookups(*op).contains(x));
            }
            x.0 < bound
        },
        Op::Sqrt { x } => {
            proof {
                assert(lookups(*op).contains(x));
            }
            x.0 < bound
        },
        Op::ParamLoad { param: _, index } => {
            proof {
                assert(lookups(*op).contains(index));
            }
            index.0 < bound
        },
        Op::ParamStore { param: _, index, value } => {
            proof {
                assert(lookups(*op).contains(index)); assert(lookups(*op).contains(value));
            }
            index.0 < bound && value.0 < bound
        },
        Op::ParamAccum { param: _, index, value } => {
            proof {
                assert(lookups(*op).contains(index)); assert(lookups(*op).contains(value));
            }
            index.0 < bound && value.0 < bound
        },
        Op::ParamMul { param: _, index, value } => {
            proof {
                assert(lookups(*op).contains(index)); assert(lookups(*op).contains(value));
            }
            index.0 < bound && value.0 < bound
        },
        Op::ParamDiv { param: _, index, value } => {
            proof {
                assert(lookups(*op).contains(index)); assert(lookups(*op).contains(value));
            }
            index.0 < bound && value.0 < bound
        },
        Op::ParamSub { param: _, index, value } => {
            proof {
                assert(lookups(*op).contains(index)); assert(lookups(*op).contains(value));
            }
            index.0 < bound && value.0 < bound
        },
        Op::ParamShl { param: _, index, value } => {
            proof {
                assert(lookups(*op).contains(index)); assert(lookups(*op).contains(value));
            }
            index.0 < bound && value.0 < bound
        },
        Op::ParamShr { param: _, index, value } => {
            proof {
                assert(lookups(*op).contains(index)); assert(lookups(*op).contains(value));
            }
            index.0 < bound && value.0 < bound
        },
        Op::SharedLoad { mem: _, index } => {
            proof {
                assert(lookups(*op).contains(index));
            }
            index.0 < bound
        },
        Op::SharedStore { mem: _, index, value } => {
            proof {
                assert(lookups(*op).contains(index)); assert(lookups(*op).contains(value));
            }
            index.0 < bound && value.0 < bound
        },
        Op::SharedAccum { mem: _, index, value } => {
            proof {
                assert(lookups(*op).contains(index)); assert(lookups(*op).contains(value));
            }
            index.0 < bound && value.0 < bound
        },
        Op::SharedMul { mem: _, index, value } => {
            proof {
                assert(lookups(*op).contains(index)); assert(lookups(*op).contains(value));
            }
            index.0 < bound && value.0 < bound
        },
        Op::SharedDiv { mem: _, index, value } => {
            proof {
                assert(lookups(*op).contains(index)); assert(lookups(*op).contains(value));
            }
            index.0 < bound && value.0 < bound
        },
        Op::SharedSub { mem: _, index, value } => {
            proof {
                assert(lookups(*op).contains(index)); assert(lookups(*op).contains(value));
            }
            index.0 < bound && value.0 < bound
        },
        Op::SharedShl { mem: _, index, value } => {
            proof {
                assert(lookups(*op).contains(index)); assert(lookups(*op).contains(value));
            }
            index.0 < bound && value.0 < bound
        },
        Op::SharedShr { mem: _, index, value } => {
            proof {
                assert(lookups(*op).contains(index)); assert(lookups(*op).contains(value));
            }
            index.0 < bound && value.0 < bound
        },
        Op::Eq { a, b } => {
            proof {
                assert(lookups(*op).contains(a)); assert(lookups(*op).contains(b));
            }
            a.0 < bound && b.0 < bound
        },
        Op::Ne { a, b } => {
            proof {
                assert(lookups(*op).contains(a)); assert(lookups(*op).contains(b));
            }
            a.0 < bound && b.0 < bound
        },
        Op::Lt { a, b } => {
            proof {
                assert(lookups(*op).contains(a)); assert(lookups(*op).contains(b));
            }
            a.0 < bound && b.0 < bound
        },
        Op::Gt { a, b } => {
            proof {
                assert(lookups(*op).contains(a)); assert(lookups(*op).contains(b));
            }
            a.0 < bound && b.0 < bound
        },
        Op::Le { a, b } => {
            proof {
                assert(lookups(*op).contains(a)); assert(lookups(*op).contains(b));
            }
            a.0 < bound && b.0 < bound
        },
        Op::Ge { a, b } => {
            proof {
                assert(lookups(*op).contains(a)); assert(lookups(*op).contains(b));
            }
            a.0 < bound && b.0 < bound
        },
        Op::Not { cond } => {
            proof {
                assert(lookups(*op).contains(cond));
            }
            cond.0 < bound
        },
        Op::Max { a, b } => {
            proof {
                assert(lookups(*op).contains(a)); assert(lookups(*op).contains(b));
            }
            a.0 < bound && b.0 < bound
        },
        Op::Min { a, b } => {
            proof {
                assert(lookups(*op).contains(a)); assert(lookups(*op).contains(b));
            }
            a.0 < bound && b.0 < bound
        },
        Op::CastF64 { id } => {
            proof {
                assert(lookups(*op).contains(id));
            }
            id.0 < bound
        },
        Op::CastF32 { id } => {
            proof {
                assert(lookups(*op).contains(id));
            }
            id.0 < bound
        },
        Op::CastF16 { id } => {
            proof {
                assert(lookups(*op).contains(id));
            }
            id.0 < bound
        },
        Op::CastBF16 { id } => {
            proof {
                assert(lookups(*op).contains(id));
            }
            id.0 < bound
        },
        Op::CastU32 { id } => {
            proof {
                assert(lookups(*op).contains(id));
            }
            id.0 < bound
        },
        Op::CastI32 { id } => {
            proof {
                assert(lookups(*op).contains(id));
            }
            id.0 < bound
        },
        Op::Select { cond, a, b } => {
            proof {
                assert(lookups(*op).contains(cond)); assert(lookups(*op).contains(a)); assert(lookups(*op).contains(b));
            }
            cond.0 < bound && a.0 < bound && b.0 < bound
        },
        Op::ForLoopBegin { index, end, step } => {
            proof {
                assert(lookups(*op).contains(index)); assert(lookups(*op).contains(end)); assert(lookups(*op).contains(step));
            }
            index.0 < bound && end.0 < bound && step.0 < bound
        },
        Op::IfBegin { cond } => {
            proof {
                assert(lookups(*op).contains(cond));
            }
            cond.0 < bound
        },
        _ => {
            proof {
                assert(lookups(*op) =~= Set::<ValueId>::empty());
            }
            true
        },
    }
}

/// Whether an instruction opens or closes a scope of generated code.
pub fn opens_or_closes(op: &Op) -> (b: bool)
    ensures
        b == is_scope_op(*op),
{
    match *op {
        Op::ForLoopBegin { .. } | Op::ForeverLoopBegin | Op::IfBegin { .. } | Op::ElseBegin
        | Op::StartScope | Op::EndScope => true,
        _ => false,
    }
}

/// Whether a kernel defines its values before it uses them.
pub fn is_well_formed(k: &RawKernel) -> (b: bool)
    ensures
        b == well_formed(*k),
{
    let mut i: usize = 0;
    while i < k.values.len()
        invariant
            i <= k.values@.len(),
            forall|x: int| 0 <= x < i ==> match (#[trigger] k.values@[x]).init {
                Some(op) => lookups_below(op, x as nat) && !is_scope_op(op),
                None => true,
            },
        decreases k.values@.len() - i,
    {
        if let Some(op) = k.values[i].init {
            if !looks_up_below(&op, i) || opens_or_closes(&op) {
                proof {
                    assert(k.values@[i as int].init == Some(op));
                }
                return false;
            }
        }
        i = i + 1;
    }
    let n = k.values.len();
    let mut j: usize = 0;
    while j < k.ops.len()
        invariant
            j <= k.ops@.len(),
            n == k.values@.len(),
            forall|x: int| 0 <= x < k.values@.len() ==> match (#[trigger] k.values@[x]).init {
                Some(op) => lookups_below(op, x as nat) && !is_scope_op(op),
                None => true,
            },
            forall|y: int| 0 <= y < j ==> lookups_below(#[trigger] k.ops@[y], k.values@.len() as nat),
        decreases k.ops@.len() - j,
    {
        if !looks_up_below(&k.ops[j], n) {
            proof {
                assert(!lookups_below(k.ops@[j as int], k.values@.len() as nat));
            }
            return false;
        }
        j = j + 1;
    }
    true
}

/// `after` differs from `before` in its values and instructions alone.
pub open spec fn same_frame(before: RawKernel, after: RawKernel) -> bool {
    &&& after.meta == before.meta
    &&& after.shared@ == before.shared@
    &&& after.block == before.block
    &&& after.root == before.root
    &&& after.iter_space@ == before.iter_space@
}

/// The error for a type that has no floating-point constant.
pub open spec fn no_float_err() -> Error<()> {
    err("type has no floating-point constant", ErrorKind::InvalidDType)
}

/// The zero constant of a type.
pub open spec fn zero_const(dtype: DType) -> Result<Op, Error<()>> {
    match dtype {
        DType::Simple(SimpleDType::F64) => Ok(Op::ConstF64 { value: 0 }),
        DType::Simple(SimpleDType::F32) => Ok(Op::ConstF32 { value: 0 }),
        DType::Simple(SimpleDType::F16) => Ok(Op::ConstF16 { value: 0 }),
        DType::Simple(SimpleDType::BF16) => Ok(Op::ConstBf16 { value: 0 }),
        DType::Simple(SimpleDType::I32) => Ok(Op::ConstI32 { value: 0 }),
        DType::Simple(SimpleDType::U32) => Ok(Op::ConstU32 { value: 0 }),
        _ => Err(no_float_err()),
    }
}

/// The zero constant of a type; booleans and matrix fragments have none.
pub fn zero_constant(dtype: DType) -> (r: Result<Op, Error<()>>)
    ensures
        r == zero_const(dtype),
{
    match dtype {
        DType::Simple(SimpleDType::F64) => Ok(Op::ConstF64 { value: 0 }),
        DType::Simple(SimpleDType::F32) => Ok(Op::ConstF32 { value: 0 }),
        DType::Simple(SimpleDType::F16) => Ok(Op::ConstF16 { value: 0 }),
        DType::Simple(SimpleDType::BF16) => Ok(Op::ConstBf16 { value: 0 }),
        DType::Simple(SimpleDType::I32) => Ok(Op::ConstI32 { value: 0 }),
        DType::Simple(SimpleDType::U32) => Ok(Op::ConstU32 { value: 0 }),
        _ => Err(make_err("type has no floating-point constant", ErrorKind::InvalidDType)),
    }
}

impl RawKernel {
    /// Defines a new value and returns its index.
    pub fn def_var(&mut self, dtype: DType, state: ValueState, init: Option<Op>) -> (id: ValueId)
        ensures
            id.0 == old(self).values@.len(),
            final(self).values@ == old(self).values@.push(Value { dtype, state, init }),
            final(self).ops@ == old(self).ops@.push(Op::DefineVar { id }),
            same_frame(*old(self), *final(self)),
    {
        let id = ValueId(self.values.len());
        self.values.push(Value { dtype, state, init });
        self.ops.push(Op::DefineVar { id });
        id
    }

    /// Sets a value to the result of an expression, written in place.
    pub fn overwrite_var(&mut self, id: ValueId, expr: Op)
        requires
            id.0 < old(self).values@.len(),
        ensures
            final(self).values@ == old(self).values@.push(
                Value { dtype: old(self).values@[id.0 as int].dtype, state: ValueState::Inline, init: Some(expr) },
            ),
            final(self).ops@ == old(self).ops@ + seq![
                Op::DefineVar { id: ValueId(old(self).values@.len() as usize) },
                Op::OverwriteVar { id, val: ValueId(old(self).values@.len() as usize) },
            ],
            same_frame(*old(self), *final(self)),
    {
        let dtype = self.values[id.0].dtype;
        let val = self.def_var(dtype, ValueState::Inline, Some(expr));
        self.ops.push(Op::OverwriteVar { id, val });
        proof {
            assert(self.ops@ =~= old(self).ops@ + seq![Op::DefineVar { id: val }, Op::OverwriteVar { id, val }]);
        }
    }

    /// Adds the result of an expression, written in place, to a value.
    pub fn accum_var(&mut self, id: ValueId, expr: Op)
        requires
            id.0 < old(self).values@.len(),
        ensures
            final(self).values@ == old(self).values@.push(
                Value { dtype: old(self).values@[id.0 as int].dtype, state: ValueState::Inline, init: Some(expr) },
            ),
            final(self).ops@ == old(self).ops@ + seq![
                Op::DefineVar { id: ValueId(old(self).values@.len() as usize) },
                Op::AddAssign { id, val: ValueId(old(self).values@.len() as usize) },
            ],
            same_frame(*old(self), *final(self)),
    {
        let dtype = self.values[id.0].dtype;
        let val = self.def_var(dtype, ValueState::Inline, Some(expr));
        self.ops.push(Op::AddAssign { id, val });
        proof {
            assert(self.ops@ =~= old(self).ops@ + seq![Op::DefineVar { id: val }, Op::AddAssign { id, val }]);
        }
    }

    /// Changes how a value is materialized.
    pub fn update_var_state(&mut self, id: ValueId, state: ValueState)
        requires
            id.0 < old(self).values@.len(),
        ensures
            final(self).values@ == old(self).values@.update(
                id.0 as int,
                Value { state, ..old(self).values@[id.0 as int] },
            ),
            final(self).ops@ == old(self).ops@,
            same_frame(*old(self), *final(self)),
    {
        let v = self.values[id.0];
        self.values.set(id.0, Value { state, ..v });
    }

    /// Subtracts a value from an element of a parameter.
    pub fn param_sub(&mut self, param: ParamId, index: ValueId, value: ValueId)
        ensures
            final(self).values@ == old(self).values@,
            final(self).ops@ == old(self).ops@.push(Op::ParamSub { param, index, value }),
            same_frame(*old(self), *final(self)),
    {
        self.ops.push(Op::ParamSub { param, index, value });
    }

    /// Stores a value into an element of a parameter.
    pub fn param_store(&mut self, param: ParamId, index: ValueId, value: ValueId)
        ensures
            final(self).values@ == old(self).values@,
            final(self).ops@ == old(self).ops@.push(Op::ParamStore { param, index, value }),
            same_frame(*old(self), *final(self)),
    {
        self.ops.push(Op::ParamStore { param, index, value });
    }
}

/// A kernel being lowered from a graph, with the parameters it uses
/// marked.
#[derive(Debug, Clone)]
pub struct LinkedKernel {
    pub raw: RawKernel,
    pub params: Vec<bool>,
}

impl LinkedKernel {
    /// Marks a parameter as used by the kernel.
    pub fn register_param(&mut self, pid: ParamId)
        requires
            pid.0 < old(self).params@.len(),
        ensures
            final(self).params@ == old(self).params@.update(pid.0 as int, true),
            final(self).raw == old(self).raw,
    {
        self.params.set(pid.0, true);
    }
}

/// A kernel with its parameter layout and the metadata fields it reads.
#[derive(Debug, Clone)]
pub struct Kernel {
    pub raw: RawKernel,
    pub params: Vec<Param>,
    pub meta: Vec<bool>,
}

impl Kernel {
    /// Marks a metadata field as read by the kernel.
    pub fn register_meta(&mut self, field: MetaId)
        requires
            field.0 < old(self).meta@.len(),
        ensures
            final(self).meta@ == old(self).meta@.update(field.0 as int, true),
            final(self).raw == old(self).raw,
            final(self).params@ == old(self).params@,
    {
        self.meta.set(field.0, true);
    }
}

} // verus!
