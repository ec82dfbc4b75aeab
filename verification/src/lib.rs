//! A graph-based GPU kernel compiler: compute graphs, kernel IR, WGSL and HIP
//! code generation, and the BPAT tensor storage format.

pub mod code;
pub mod dtype;
pub mod errors;
pub mod id;
pub mod text;
pub mod ops;
pub mod kernel;
pub mod codegen;
pub mod wgsl;
pub mod graph;
pub mod nn;
pub mod bpat;
pub mod lower;
pub mod hip;
pub mod options;
pub mod dispatch;
