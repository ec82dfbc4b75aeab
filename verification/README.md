# fused_gpu

A graph-based GPU kernel compiler, verified with Verus.

- `src/` is the verified library: compute graphs and their validation
  (`graph`, `nn`), the kernel instruction set (`ops`, `kernel`), lowering of
  graph operations and of the optimizer into kernels (`lower`), WGSL and HIP
  code generation (`wgsl`, `hip`, `codegen`, `code`), dispatch planning
  (`dispatch`, `options`), errors (`errors`) and the BPAT tensor file format
  (`bpat`), whose reader is proved to give back what the writer wrote.
- `app/` holds what touches the outside world: file I/O for BPAT files,
  rendering of float literals, a wgpu device context (buffers, transfers,
  pipelines, dispatch), and translations to and from the wgpu, ROCm and
  telemetry crates.
- A node evaluator handed to the lowering (`lower::EvalNode`) keeps a log of
  its evaluations for the verifier; an implementation outside Verus gives
  the log function a body that is never run.
- `tests/` runs the library on concrete inputs.
