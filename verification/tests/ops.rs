use fused_gpu::id::{ParamId, ValueId};
use fused_gpu::ops::Op;

#[test]
fn reads_and_writes() {
    let op = Op::ParamStore { param: ParamId(1), index: ValueId(2), value: ValueId(3) };
    assert!(op.does_read(ValueId(2)));
    assert!(op.does_read(ValueId(3)));
    assert!(!op.does_read(ValueId(1)));
    let add = Op::AddAssign { id: ValueId(4), val: ValueId(5) };
    assert!(add.does_read(ValueId(5)));
    assert!(!add.does_read(ValueId(4)));
}

#[test]
fn replace_usage_renames_reads() {
    let mut op = Op::Fma { a: ValueId(1), b: ValueId(2), c: ValueId(1) };
    op.replace_usage(ValueId(1), ValueId(9));
    assert_eq!(op, Op::Fma { a: ValueId(9), b: ValueId(2), c: ValueId(9) });
    let mut store = Op::OverwriteVar { id: ValueId(1), val: ValueId(1) };
    store.replace_usage(ValueId(1), ValueId(3));
    assert_eq!(store, Op::OverwriteVar { id: ValueId(3), val: ValueId(3) });
}

#[test]
fn constants() {
    assert!(Op::ConstF32 { value: 0 }.is_zero());
    assert!(Op::ConstU32 { value: 1 }.is_one());
    assert!(Op::ConstF32 { value: 1.0f32.to_bits() }.is_one());
    assert!(!Op::ConstF32 { value: 1.0f32.to_bits() }.is_zero());
    assert!(!Op::ConstF64 { value: 0 }.is_zero());
    assert!(Op::ConstF32 { value: (-0.0f32).to_bits() }.is_zero());
}
