//! Data of the C API. Device memory is given by its address, and address zero stands for none.
use crate::plan::F32;
use vstd::prelude::*;

verus! {

/// Status codes returned by C API functions.
#[derive(Debug, Clone, Copy, PartialEq, Eq, Structural)]
pub enum SparkStatus {
    Success,
    ErrorInvalidArgument,
    ErrorCudaLaunch,
    ErrorKernelNotFound,
    ErrorInternal,
}

impl SparkStatus {
    /// The number that stands for this value in C.
    pub open spec fn number(self) -> int {
        match self {
            SparkStatus::Success => 0,
            SparkStatus::ErrorInvalidArgument => 1,
            SparkStatus::ErrorCudaLaunch => 2,
            SparkStatus::ErrorKernelNotFound => 3,
            SparkStatus::ErrorInternal => 4,
        }
    }

    /// The number that stands for this value in C.
    pub fn code(self) -> (r: u32)
        ensures
            r == self.number(),
    {
        match self {
            SparkStatus::Success => 0,
            SparkStatus::ErrorInvalidArgument => 1,
            SparkStatus::ErrorCudaLaunch => 2,
            SparkStatus::ErrorKernelNotFound => 3,
            SparkStatus::ErrorInternal => 4,
        }
    }
}

/// Data type enumeration.
#[derive(Debug, Clone, Copy, PartialEq, Eq, Structural)]
pub enum SparkDtype {
    BF16,
    FP8E4M3,
    FP32,
    U32,
    NVFP4,
    W4A16,
}

impl SparkDtype {
    /// The number that stands for this value in C.
    pub open spec fn number(self) -> int {
        match self {
            SparkDtype::BF16 => 0,
            SparkDtype::FP8E4M3 => 1,
            SparkDtype::FP32 => 2,
            SparkDtype::U32 => 3,
            SparkDtype::NVFP4 => 4,
            SparkDtype::W4A16 => 5,
        }
    }

    /// The number that stands for this value in C.
    pub fn code(self) -> (r: u32)
        ensures
            r == self.number(),
    {
        match self {
            SparkDtype::BF16 => 0,
            SparkDtype::FP8E4M3 => 1,
            SparkDtype::FP32 => 2,
            SparkDtype::U32 => 3,
            SparkDtype::NVFP4 => 4,
            SparkDtype::W4A16 => 5,
        }
    }
}

/// Activation type for dispatch.
#[derive(Debug, Clone, Copy, PartialEq, Eq, Structural)]
pub enum SparkActivationType {
    SiluMul,
    GeluMul,
    GeluTanhMul,
}

impl SparkActivationType {
    /// The number that stands for this value in C.
    pub open spec fn number(self) -> int {
        match self {
            SparkActivationType::SiluMul => 0,
            SparkActivationType::GeluMul => 1,
            SparkActivationType::GeluTanhMul => 2,
        }
    }

    /// The number that stands for this value in C.
    pub fn code(self) -> (r: u32)
        ensures
            r == self.number(),
    {
        match self {
            SparkActivationType::SiluMul => 0,
            SparkActivationType::GeluMul => 1,
            SparkActivationType::GeluTanhMul => 2,
        }
    }
}

/// Parameters for Flash Attention dispatch. The buffers hold `batch * num_heads * seq * head_dim`
/// elements, and only a head dimension of 128 is supported.
pub struct SparkFlashAttnParams {
    pub q: u64,
    pub k: u64,
    pub v: u64,
    pub o: u64,
    pub batch: u32,
    pub num_heads: u32,
    pub seq_q: u32,
    pub seq_kv: u32,
    pub head_dim: u32,
    pub scale: F32,
    pub dtype: SparkDtype,
    pub causal: i32,
}

/// Parameters for GEMM dispatch.
pub struct SparkGemmParams {
    pub a: u64,
    pub b: u64,
    pub c: u64,
    pub m: u32,
    pub n: u32,
    pub k: u32,
    pub dtype: SparkDtype,
}

/// Parameters for top-k sampling dispatch.
pub struct SparkTopkParams {
    pub logits: u64,
    pub indices: u64,
    pub values: u64,
    pub batch_size: u32,
    pub vocab_size: u32,
    pub k: u32,
    pub temperature: F32,
}

/// Parameters for MoE routing dispatch.
pub struct SparkMoeRoutingParams {
    pub logits: u64,
    pub expert_ids: u64,
    pub weights: u64,
    pub num_tokens: u32,
    pub num_experts: u32,
    pub top_k: u32,
}

/// Parameters for RMSNorm dispatch.
pub struct SparkRmsNormParams {
    pub x: u64,
    pub out: u64,
    pub weight: u64,
    pub hidden_dim: u32,
    pub eps: F32,
    pub num_rows: u32,
}

/// Parameters for RoPE dispatch.
pub struct SparkRopeParams {
    pub x: u64,
    pub cos_cache: u64,
    pub sin_cache: u64,
    pub batch: u32,
    pub seq_len: u32,
    pub heads: u32,
    pub dim: u32,
}

/// Parameters for fused activation dispatch.
pub struct SparkActivationParams {
    pub input: u64,
    pub out: u64,
    pub total_out_elems: u32,
    pub d: u32,
    pub activation: SparkActivationType,
}

/// Parameters for NVFP4 block-scaled GEMM dispatch.
pub struct SparkNvfp4GemmParams {
    pub a: u64,
    pub b: u64,
    pub c: u64,
    pub scale_a: u64,
    pub scale_b: u64,
    pub m: u32,
    pub n: u32,
    pub k: u32,
}

/// Parameters for W4A16 dequant GEMM dispatch.
pub struct SparkW4a16GemmParams {
    pub a: u64,
    pub w: u64,
    pub c: u64,
    pub scales: u64,
    pub zeros: u64,
    pub m: u32,
    pub n: u32,
    pub k: u32,
}

/// Parameters for variable-length Flash Attention dispatch.
pub struct SparkVarlenFlashAttnParams {
    pub q: u64,
    pub k: u64,
    pub v: u64,
    pub o: u64,
    pub cu_seqlens_q: u64,
    pub cu_seqlens_k: u64,
    pub batch: u32,
    pub num_heads: u32,
    pub max_seqlen_q: u32,
    pub scale: F32,
}

} // verus!
