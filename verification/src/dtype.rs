//! Element types of kernel values and buffers, and the three grid axes.

use vstd::prelude::*;
use crate::errors::{err, make_err, Error, ErrorKind};

verus! {

/// A scalar element type.
#[derive(Debug, Clone, Copy, PartialEq, Eq, Hash, Structural)]
pub enum SimpleDType {
    F64,
    F32,
    F16,
    BF16,
    Bool,
    I32,
    U32,
}

/// The type of a kernel value: a scalar, or a fragment for matrix
/// multiply-accumulate hardware.
#[derive(Debug, Clone, Copy, PartialEq, Eq, Hash, Structural)]
pub enum DType {
    Simple(SimpleDType),
    Mma(SimpleDType),
}

/// One of the three axes of a dispatch grid.
#[derive(Debug, Clone, Copy, PartialEq, Eq, Hash, Structural)]
pub enum Axis {
    X,
    Y,
    Z,
}

/// C/HIP spelling of a scalar type.
pub open spec fn c_name(t: SimpleDType) -> Seq<char> {
    match t {
        SimpleDType::F64 => "double"@,
        SimpleDType::F32 => "float"@,
        SimpleDType::F16 => "__half"@,
        SimpleDType::BF16 => "hip_bfloat16"@,
        SimpleDType::Bool => "bool"@,
        SimpleDType::I32 => "int32_t"@,
        SimpleDType::U32 => "uint32_t"@,
    }
}

/// Rust spelling of a scalar type.
pub open spec fn rust_name(t: SimpleDType) -> Seq<char> {
    match t {
        SimpleDType::F64 => "f64"@,
        SimpleDType::F32 => "f32"@,
        SimpleDType::F16 => "f16"@,
        SimpleDType::BF16 => "bf16"@,
        SimpleDType::Bool => "bool"@,
        SimpleDType::I32 => "i32"@,
        SimpleDType::U32 => "u32"@,
    }
}

/// WGSL spelling of a scalar type; WGSL has no `bf16`.
pub open spec fn wgsl_name(t: SimpleDType) -> Result<Seq<char>, Error<()>> {
    match t {
        SimpleDType::F64 => Ok("f64"@),
        SimpleDType::F32 => Ok("f32"@),
        SimpleDType::F16 => Ok("f16"@),
        SimpleDType::BF16 => Err(err("bf16 not supported", ErrorKind::UnsupportedFeature)),
        SimpleDType::Bool => Ok("bool"@),
        SimpleDType::I32 => Ok("i32"@),
        SimpleDType::U32 => Ok("u32"@),
    }
}

/// The error for a type that is not a scalar.
pub open spec fn mma_err() -> Error<()> {
    err("MMA not supported", ErrorKind::UnsupportedFeature)
}

/// WGSL spelling of a value type; only scalars have one.
pub open spec fn wgsl_dtype_name(t: DType) -> Result<Seq<char>, Error<()>> {
    match t {
        DType::Simple(s) => wgsl_name(s),
        DType::Mma(_) => Err(mma_err()),
    }
}

impl SimpleDType {
    pub fn fmt_c(self) -> (s: &'static str)
        ensures
            s@ == c_name(self),
    {
        match self {
            SimpleDType::F64 => "double",
            SimpleDType::F32 => "float",
            SimpleDType::F16 => "__half",
            SimpleDType::BF16 => "hip_bfloat16",
            SimpleDType::Bool => "bool",
            SimpleDType::I32 => "int32_t",
            SimpleDType::U32 => "uint32_t",
        }
    }

    pub fn fmt_rust(self) -> (s: &'static str)
        ensures
            s@ == rust_name(self),
    {
        match self {
            SimpleDType::F64 => "f64",
            SimpleDType::F32 => "f32",
            SimpleDType::F16 => "f16",
            SimpleDType::BF16 => "bf16",
            SimpleDType::Bool => "bool",
            SimpleDType::I32 => "i32",
            SimpleDType::U32 => "u32",
        }
    }

    pub fn fmt_wgsl(self) -> (r: Result<&'static str, Error<()>>)
        ensures
            match (r, wgsl_name(self)) {
                (Ok(s), Ok(t)) => s@ == t,
                (Err(e), Err(f)) => e == f,
                _ => false,
            },
    {
        match self {
            SimpleDType::F64 => Ok("f64"),
            SimpleDType::F32 => Ok("f32"),
            SimpleDType::F16 => Ok("f16"),
            SimpleDType::BF16 => Err(make_err("bf16 not supported", ErrorKind::UnsupportedFeature)),
            SimpleDType::Bool => Ok("bool"),
            SimpleDType::I32 => Ok("i32"),
            SimpleDType::U32 => Ok("u32"),
        }
    }
}

impl DType {
    /// C/HIP spelling; only scalar types are spelled.
    pub fn fmt_c(self) -> (s: &'static str)
        requires
            self is Simple,
        ensures
            s@ == c_name(self->Simple_0),
    {
        match self {
            DType::Simple(t) => t.fmt_c(),
            DType::Mma(t) => t.fmt_c(),
        }
    }

    pub fn fmt_rust(self) -> (r: Result<&'static str, Error<()>>)
        ensures
            match self {
                DType::Simple(t) => r matches Ok(s) && s@ == rust_name(t),
                DType::Mma(_) => r == Err::<&'static str, Error<()>>(mma_err()),
            },
    {
        match self {
            DType::Simple(t) => Ok(t.fmt_rust()),
            DType::Mma(_) => Err(make_err("MMA not supported", ErrorKind::UnsupportedFeature)),
        }
    }

    pub fn fmt_wgsl(self) -> (r: Result<&'static str, Error<()>>)
        ensures
            match (r, wgsl_dtype_name(self)) {
                (Ok(s), Ok(t)) => s@ == t,
                (Err(e), Err(f)) => e == f,
                _ => false,
            },
    {
        match self {
            DType::Simple(t) => t.fmt_wgsl(),
            DType::Mma(_) => Err(make_err("MMA not supported", ErrorKind::UnsupportedFeature)),
        }
    }
}

/// Vector-component name of an axis.
pub open spec fn axis_name(a: Axis) -> Seq<char> {
    match a {
        Axis::X => "x"@,
        Axis::Y => "y"@,
        Axis::Z => "z"@,
    }
}

/// Index of an axis in a three-element array.
pub open spec fn axis_index(a: Axis) -> nat {
    match a {
        Axis::X => 0,
        Axis::Y => 1,
        Axis::Z => 2,
    }
}

impl Axis {
    pub fn fmt_vec3(self) -> (s: &'static str)
        ensures
            s@ == axis_name(self),
    {
        match self {
            Axis::X => "x",
            Axis::Y => "y",
            Axis::Z => "z",
        }
    }

    pub fn fmt_idx(self) -> (s: &'static str)
        ensures
            s@ == crate::text::dec(axis_index(self)),
    {
        proof {
            reveal_strlit("0");
            reveal_strlit("1");
            reveal_strlit("2");
        }
        match self {
            Axis::X => "0",
            Axis::Y => "1",
            Axis::Z => "2",
        }
    }

    /// The index of this axis, as a number.
    pub fn index(self) -> (i: usize)
        ensures
            i == axis_index(self),
    {
        match self {
            Axis::X => 0,
            Axis::Y => 1,
            Axis::Z => 2,
        }
    }
}

} // verus!
