use fused_gpu::code::{Code, FloatLit, Piece};
use fused_gpu::codegen::{newline, tab};
use fused_gpu::dtype::{Axis, DType, SimpleDType};
use fused_gpu::hip::{def_var_c, generate_hip};
use fused_gpu::id::{MetaId, NodeId, ParamId, ValueId};
use fused_gpu::kernel::{Metadata, Param, ParamTy, RawKernel, SharedAlloc, Value, ValueState};
use fused_gpu::ops::Op;
use fused_gpu::options::{
    CompilationOptions, DebugCompilationOptions, OptCompilationOptions, TargetCompilationOptions, TargetFlags,
};
use fused_gpu::wgsl::{def_var_wgsl, generate_wgsl};

fn render(code: &Code) -> String {
    let mut s = String::new();
    for p in &code.pieces {
        match p {
            Piece::Text(t) => s.push_str(t),
            Piece::Float(f) => match *f {
                FloatLit::F64Display(b) => s.push_str(&format!("{}", f64::from_bits(b))),
                FloatLit::F64Debug(b) => s.push_str(&format!("{:?}", f64::from_bits(b))),
                FloatLit::F32Display(b) => s.push_str(&format!("{}", f32::from_bits(b))),
                FloatLit::F32Debug(b) => s.push_str(&format!("{:?}", f32::from_bits(b))),
                FloatLit::F16Display(b) => s.push_str(&format!("{}", half::f16::from_bits(b))),
                FloatLit::F16Debug(b) => s.push_str(&format!("{:?}", half::f16::from_bits(b))),
                FloatLit::Bf16Debug(b) => s.push_str(&format!("{:?}", half::bf16::from_bits(b))),
            },
        }
    }
    s
}

fn u32_t() -> DType {
    DType::Simple(SimpleDType::U32)
}

fn f32_t() -> DType {
    DType::Simple(SimpleDType::F32)
}

fn copy_kernel(shared: Vec<SharedAlloc>) -> RawKernel {
    RawKernel {
        meta: Metadata { fields: 2 },
        shared,
        values: vec![
            Value { dtype: u32_t(), state: ValueState::Immut, init: Some(Op::GlobalId { axis: Axis::X }) },
            Value { dtype: f32_t(), state: ValueState::Immut, init: Some(Op::ParamLoad { param: ParamId(1), index: ValueId(0) }) },
        ],
        ops: vec![
            Op::DefineVar { id: ValueId(0) },
            Op::DefineVar { id: ValueId(1) },
            Op::ParamStore { param: ParamId(2), index: ValueId(0), value: ValueId(1) },
        ],
        block: [256, 1, 1],
        root: NodeId(0),
        iter_space: vec![MetaId(1)],
    }
}

fn copy_params() -> Vec<Param> {
    vec![
        Param { dtype: SimpleDType::U32, ty: ParamTy::Uniform, pid: ParamId(0) },
        Param { dtype: SimpleDType::F32, ty: ParamTy::ReadOnly, pid: ParamId(1) },
        Param { dtype: SimpleDType::F32, ty: ParamTy::ReadWrite, pid: ParamId(2) },
    ]
}

fn options(pretty: bool) -> CompilationOptions {
    CompilationOptions {
        target: TargetCompilationOptions { flags: TargetFlags::empty() },
        debug: DebugCompilationOptions { bits: if pretty { 1 } else { 0 } },
        opt: OptCompilationOptions::default(),
    }
}

#[test]
fn wgsl_copy_kernel_compact() {
    let code = generate_wgsl(&copy_kernel(vec![]), &copy_params(), false).unwrap();
    let expected = String::from("enable f16;")
        + " "
        + "struct Meta {" + " " + "f0: f32," + " " + "f1: u32," + " " + "}" + " "
        + " " + "@group(0) @binding(0) var<uniform> param0: Meta;"
        + " " + "@group(0) @binding(1) var<storage, read> param1: array<f32>;"
        + " " + "@group(0) @binding(2) var<storage, read_write> param2: array<f32>;"
        + " "
        + " "
        + " " + "@compute @workgroup_size(256, (1), (1)) "
        + " " + "fn main("
        + " " + "@builtin(local_invocation_id) lid: vec3<u32>,"
        + " " + "@builtin(workgroup_id) bid: vec3<u32>,"
        + " " + "@builtin(global_invocation_id) gid: vec3<u32>,"
        + " " + ") {"
        + " " + "let v0: u32 = gid.x;"
        + " " + "let v1: f32 = param1[v0];"
        + " " + "param2[v0] = v1;"
        + " " + "}";
    assert_eq!(render(&code), expected);
}

#[test]
fn wgsl_copy_kernel_pretty() {
    let code = generate_wgsl(&copy_kernel(vec![]), &copy_params(), true).unwrap();
    let text = render(&code);
    assert!(text.starts_with("enable f16;\nstruct Meta {\nf0: f32,\n  f1: u32,\n}\n"));
    assert!(text.contains("\n  let v0: u32 = gid.x;"));
    assert!(text.ends_with("\n  param2[v0] = v1;\n}"));
}

#[test]
fn wgsl_shared_and_inline() {
    let mut k = copy_kernel(vec![SharedAlloc { dtype: SimpleDType::F32, size: 64 }]);
    k.values[1].state = ValueState::Inline;
    let text = render(&generate_wgsl(&k, &copy_params(), false).unwrap());
    assert!(text.contains(" var<workgroup> shared0: array<f32, (64)>;"));
    assert!(text.contains("let v0: u32 = gid.x; param2[v0] = param1[v0];"));
}

#[test]
fn wgsl_rejects_bf16() {
    let mut params = copy_params();
    params[1].dtype = SimpleDType::BF16;
    let e = generate_wgsl(&copy_kernel(vec![]), &params, false).unwrap_err();
    assert_eq!(e.msg, "bf16 not supported");
}

#[test]
fn wgsl_float_constant() {
    let k = RawKernel {
        meta: Metadata { fields: 1 },
        shared: vec![],
        values: vec![Value { dtype: f32_t(), state: ValueState::Mut, init: Some(Op::ConstF32 { value: 1.5f32.to_bits() }) }],
        ops: vec![Op::DefineVar { id: ValueId(0) }],
        block: [1, 1, 1],
        root: NodeId(0),
        iter_space: vec![],
    };
    let mut out = Code::new();
    let mut nesting = 0;
    def_var_wgsl(&mut out, &mut nesting, ValueId(0), &k).unwrap();
    assert_eq!(render(&out), "var v0: f32 = 1.5f;");
}

#[test]
fn wgsl_scopes_indent() {
    let k = RawKernel {
        meta: Metadata { fields: 1 },
        shared: vec![],
        values: vec![Value { dtype: DType::Simple(SimpleDType::Bool), state: ValueState::Immut, init: None }],
        ops: vec![Op::DefineVar { id: ValueId(0) }, Op::IfBegin { cond: ValueId(0) }, Op::Barrier, Op::EndScope],
        block: [1, 1, 1],
        root: NodeId(0),
        iter_space: vec![],
    };
    let text = render(&generate_wgsl(&k, &[], true).unwrap());
    assert!(text.ends_with(") {\n  let v0: bool;\n  if (v0) {\n    workgroupBarrier();\n  }\n}"));
}

#[test]
fn hip_copy_kernel_compact() {
    let code = generate_hip(&copy_kernel(vec![]), &copy_params(), &options(false));
    let expected = String::from(
        "\n#include <cstdint>\n#include <hip/hip_bfloat16.h>\n#include <hip/hip_fp16.h>\n#include <hip/hip_runtime.h>\n",
    ) + "extern \"C\" __global__\nvoid kernel("
        + "const uint32_t *param0, const float *param1, float *param2"
        + ") {"
        + " " + "uint32_t v0 = blockIdx.x * 256 + threadIdx.x;"
        + " " + "float v1 = param1[v0];"
        + " " + "param2[v0] = v1;"
        + " " + "}";
    assert_eq!(render(&code), expected);
}

#[test]
fn hip_pretty_and_shared() {
    let k = copy_kernel(vec![SharedAlloc { dtype: SimpleDType::F16, size: 32 }]);
    let text = render(&generate_hip(&k, &copy_params(), &options(true)));
    assert!(text.contains(") {\n__shared__ __half shared0[32];\n  uint32_t v0"));
    assert!(text.ends_with("\n  param2[v0] = v1;\n}"));
}

#[test]
fn newline_and_tab() {
    let mut c = Code::new();
    newline(true, &mut c, 2);
    tab(true, &mut c);
    newline(false, &mut c, 5);
    tab(false, &mut c);
    assert_eq!(render(&c), "\n       ");
}

#[test]
fn dtype_spellings() {
    assert_eq!(SimpleDType::F32.fmt_c(), "float");
    assert_eq!(SimpleDType::BF16.fmt_c(), "hip_bfloat16");
    assert_eq!(SimpleDType::F16.fmt_rust(), "f16");
    assert_eq!(SimpleDType::U32.fmt_wgsl().unwrap(), "u32");
    assert!(SimpleDType::BF16.fmt_wgsl().is_err());
    assert_eq!(DType::Simple(SimpleDType::I32).fmt_c(), "int32_t");
    assert_eq!(DType::Simple(SimpleDType::F64).fmt_wgsl().unwrap(), "f64");
    assert_eq!(DType::Mma(SimpleDType::F16).fmt_wgsl().unwrap_err().msg, "MMA not supported");
    assert_eq!(DType::Mma(SimpleDType::F16).fmt_rust().unwrap_err().msg, "MMA not supported");
    assert_eq!(Axis::Y.fmt_vec3(), "y");
    assert_eq!(Axis::Z.fmt_idx(), "2");
}

fn squeezed(s: &str) -> String {
    s.chars().filter(|c| *c != ' ' && *c != '\n').collect()
}

#[test]
fn wgsl_layouts_differ_in_whitespace_only() {
    let k = copy_kernel(vec![SharedAlloc { dtype: SimpleDType::F32, size: 8 }]);
    let pretty = render(&generate_wgsl(&k, &copy_params(), true).unwrap());
    let compact = render(&generate_wgsl(&k, &copy_params(), false).unwrap());
    assert_ne!(pretty, compact);
    assert_eq!(squeezed(&pretty), squeezed(&compact));
    assert!(compact.starts_with("enable f16;"));
    assert!(pretty.starts_with("enable f16;"));
    assert!(!compact.contains('\n'));
}

#[test]
fn wgsl_bf16_declaration_writes_nothing() {
    let mut k = copy_kernel(vec![]);
    k.values[1].dtype = DType::Simple(SimpleDType::BF16);
    let mut out = Code::new();
    out.push_str("x");
    let mut nesting: usize = 3;
    let e = def_var_wgsl(&mut out, &mut nesting, ValueId(1), &k).unwrap_err();
    assert_eq!(e.msg, "bf16 not supported");
    assert_eq!(render(&out), "x");
    assert_eq!(nesting, 3);
}

#[test]
fn wgsl_bf16_constant_fails_after_head() {
    let mut k = copy_kernel(vec![]);
    k.values[1].init = Some(Op::ConstBf16 { value: 0 });
    let mut out = Code::new();
    let mut nesting: usize = 2;
    let e = def_var_wgsl(&mut out, &mut nesting, ValueId(1), &k).unwrap_err();
    assert_eq!(e.msg, "cannot evaluate constant `bf16`");
    assert_eq!(render(&out), "let v1: f32 = ");
    assert_eq!(nesting, 2);
}

#[test]
fn hip_declares_scalar_beside_fragment() {
    let mut k = copy_kernel(vec![]);
    k.values[0].dtype = DType::Mma(SimpleDType::F16);
    k.values[1].init = Some(Op::ConstF32 { value: 0 });
    let mut out = Code::new();
    let mut nesting: usize = 1;
    def_var_c(&mut out, &mut nesting, ValueId(1), &k);
    assert_eq!(render(&out), "float v1 = 0.0f;");
}

#[test]
fn wgsl_block_scope_opens_no_level() {
    let k = RawKernel {
        meta: Metadata { fields: 1 },
        shared: vec![],
        values: vec![Value { dtype: DType::Simple(SimpleDType::Bool), state: ValueState::Immut, init: None }],
        ops: vec![Op::DefineVar { id: ValueId(0) }, Op::IfBegin { cond: ValueId(0) }, Op::StartScope, Op::Barrier, Op::EndScope, Op::Barrier],
        block: [1, 1, 1],
        root: NodeId(0),
        iter_space: vec![],
    };
    let text = render(&generate_wgsl(&k, &[], true).unwrap());
    assert!(text.ends_with("  if (v0) {\n    {\n    workgroupBarrier();\n  }\n  workgroupBarrier();\n}"));
}

#[test]
fn hip_ignores_undeclared_fragment() {
    let mut k = copy_kernel(vec![]);
    k.values.push(Value { dtype: DType::Mma(SimpleDType::F16), state: ValueState::Mut, init: None });
    let with_fragment = render(&generate_hip(&k, &copy_params(), &options(false)));
    let plain = render(&generate_hip(&copy_kernel(vec![]), &copy_params(), &options(false)));
    assert_eq!(with_fragment, plain);
}

#[test]
fn wgsl_readiness_is_checked() {
    assert!(fused_gpu::wgsl::is_wgsl_ready(&copy_kernel(vec![])));
    let mut early = copy_kernel(vec![]);
    early.values[0].init = Some(Op::Add { a: ValueId(1), b: ValueId(1) });
    assert!(!fused_gpu::wgsl::is_wgsl_ready(&early));
    let mut unopened = copy_kernel(vec![]);
    unopened.ops.push(Op::EndScope);
    assert!(!fused_gpu::wgsl::is_wgsl_ready(&unopened));
    let mut dangling = copy_kernel(vec![]);
    dangling.ops.push(Op::DefineVar { id: ValueId(5) });
    assert!(!fused_gpu::kernel::is_well_formed(&dangling));
}
