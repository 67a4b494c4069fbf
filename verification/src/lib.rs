//! Launch planning for GPU kernels on compute capability 12.1.
//!
//! Every entry point takes the lengths of the device buffers that a caller holds, together with
//! the dimensions of the request, and answers with what the device is to do: a [`plan::Launch`],
//! a [`program::Program`] of several steps, or the error that refuses the request. Nothing here
//! touches a device.
pub mod activation;
pub mod attention;
pub mod device;
pub mod dialogue;
pub mod distributed;
pub mod embedding;
pub mod error;
pub mod ffi;
pub mod foundations;
pub mod gemm;
pub mod kv_cache;
pub mod launches;
pub mod linear_attention;
pub mod meaning;
pub mod meminfo;
pub mod memory;
pub mod plan;
pub mod program;
pub mod refusals;
pub mod shape;
pub mod sizes;
pub mod tensor_map;
pub mod text;

pub use error::{Result, SparkError};
