//! GEMM and GEMV kernel dispatch.
pub mod auto;
pub mod backward;
pub mod dense;
pub mod dims;
pub mod gemv;
pub mod gradient;
pub mod gradient_meaning;
pub mod managed;
pub mod managed_meaning;
pub mod program_memory;
pub mod quantized;

pub use auto::{gemm_bf16_mma_auto, gemm_fp8_mma_auto};
pub use backward::{
    gemm_bf16_backward_dA_mma, gemm_bf16_backward_dB_mma, gemm_fp8_w8a16_backward_dA,
    gemm_fp8_w8a16_backward_dB,
};
pub use dense::{
    gemm_bf16, gemm_bf16_mma, gemm_bf16_mma_v2, gemm_bf16_mma_v3, gemm_bf16_mma_v4,
    gemm_bf16_mma_v4_k64, gemm_bf16_mma_v5, gemm_bf16_view, gemm_fp8_mma, gemm_fp8_mma_v3,
    gemm_fp8_mma_v3_5, transpose_bf16,
};
pub use gemv::{
    SPLIT_K_DET_MAX_M, f32_shard_reduce_to_bf16, gemm_bf16_split_k_det, gemv_bf16,
    gemv_bf16_split_k, gemv_bf16_split_k_det, gemv_bf16_split_k_v4, gemv_bf16_split_k_view,
    gemv_bf16_split_k_w16, gemv_bf16_v2, gemv_w4a16_nvfp4_split_k, gemv_w4a16_nvfp4_split_k_det,
    gemv_w8a16_fused_bf16, gemv_w8a16_split_k, gemv_w8a16_split_k_det, gemv_w8a16_split_k_w16,
    gemv_w8a16_split_k_w16_det,
};
pub use gradient::{
    gemm_bf16_backward_dA, gemm_bf16_backward_dA_view, gemm_bf16_backward_dB,
    gemm_bf16_backward_dB_view,
};
pub use managed::{
    gemm_bf16_split_k_det_managed, gemv_bf16_split_k_managed, gemv_bf16_split_k_managed_view,
    gemv_bf16_split_k_v4_managed, gemv_bf16_split_k_w16_managed, gemv_w8a16_split_k_managed,
    gemv_w8a16_split_k_w16_managed, is_deterministic,
};
pub use quantized::{
    gemm_fp8_block128, gemm_fp8_block128_mma, gemm_nvfp4_mma, gemm_w4a16_mma, gemm_w8a16_mma_v3,
};
