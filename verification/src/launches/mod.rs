//! What kernels take, and that launches hand it to them: the arguments of a launch by their roles,
//! the blocks that cover a result, and the sizes that a request must have.
pub mod activation;
pub mod attention_backward;
pub mod attention_decode;
pub mod attention_dense;
pub mod attention_dsa;
pub mod attention_gqa;
pub mod attention_masked;
pub mod attention_mla;
pub mod attention_paged;
pub mod attention_reorder;
pub mod attention_sparse;
pub mod attention_streamed;
pub mod attention_streamed_fp8;
pub mod choices;
pub mod embedding;
pub mod ffi;
pub mod gemm_dense;
pub mod gemm_gemv;
pub mod gemm_gradient;
pub mod gemm_quantized;
pub mod kv_cache;
pub mod linear_conv;
pub mod linear_gdn;
pub mod linear_scan;
pub mod role;
