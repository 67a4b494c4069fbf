//! Checks and launches behind the C API.
use crate::attention::dense as attention;
use crate::error::{Fault, Result};
use crate::ffi::types::{
    SparkActivationParams, SparkActivationType, SparkFlashAttnParams, SparkGemmParams,
    SparkMoeRoutingParams, SparkNvfp4GemmParams, SparkRmsNormParams, SparkRopeParams,
    SparkTopkParams, SparkVarlenFlashAttnParams, SparkW4a16GemmParams,
};
use crate::gemm::dense;
use crate::gemm::quantized;
use crate::plan;
use crate::plan::{Arg, Launch, Plan};
use crate::shape;
use crate::text;
use crate::text::Text;
use vstd::prelude::*;

verus! {

/// What is wrong with an attention call.
pub open spec fn fa_dims_fault(p: SparkFlashAttnParams) -> Option<Fault> {
    if p.batch == 0 || p.num_heads == 0 || p.seq_q == 0 || p.seq_kv == 0 {
        Some(
            Fault::InvalidArgument(
                "FA dims must be > 0: batch="@ + text::decimal(p.batch as int) + ", heads="@
                    + text::decimal(p.num_heads as int) + ", seq_q="@ + text::decimal(
                    p.seq_q as int,
                ) + ", seq_kv="@ + text::decimal(p.seq_kv as int),
            ),
        )
    } else if p.q == 0 || p.k == 0 || p.v == 0 || p.o == 0 {
        Some(Fault::InvalidArgument("FA buffer pointers must not be null"@))
    } else {
        None
    }
}

/// Checks an attention call.
pub fn validate_fa_dims(p: &SparkFlashAttnParams) -> (r: Result<()>)
    ensures
        plan::verdict(r) == fa_dims_fault(*p),
{
    if p.batch == 0 || p.num_heads == 0 || p.seq_q == 0 || p.seq_kv == 0 {
        return Text::new("FA dims must be > 0: batch=").n(p.batch as u64).s(", heads=").n(
            p.num_heads as u64,
        ).s(", seq_q=").n(p.seq_q as u64).s(", seq_kv=").n(p.seq_kv as u64).refuse();
    }
    if p.q == 0 || p.k == 0 || p.v == 0 || p.o == 0 {
        return Text::new("FA buffer pointers must not be null").refuse();
    }
    Ok(())
}

/// What is wrong with the dimensions of a matrix product.
pub open spec fn gemm_dims_fault(m: int, n: int, k: int) -> Option<Fault> {
    if m == 0 || n == 0 || k == 0 {
        Some(
            Fault::InvalidArgument(
                "GEMM dims must be > 0: M="@ + text::decimal(m) + ", N="@ + text::decimal(n)
                    + ", K="@ + text::decimal(k),
            ),
        )
    } else {
        None
    }
}

/// Checks that no dimension of a matrix product is zero.
pub fn validate_gemm_dims_ffi(m: u32, n: u32, k: u32) -> (r: Result<()>)
    ensures
        plan::verdict(r) == gemm_dims_fault(m as int, n as int, k as int),
{
    if m == 0 || n == 0 || k == 0 {
        return Text::new("GEMM dims must be > 0: M=").n(m as u64).s(", N=").n(n as u64).s(
            ", K=",
        ).n(k as u64).refuse();
    }
    Ok(())
}

/// What is wrong with the alignment of a matrix product.
pub open spec fn mma_alignment_fault(m: int, n: int, k: int, k_align: int) -> Option<Fault> {
    if !shape::divides(32, m) || !shape::divides(32, n) {
        Some(
            Fault::InvalidArgument(
                "MMA GEMM requires M, N divisible by 32: M="@ + text::decimal(m) + ", N="@
                    + text::decimal(n),
            ),
        )
    } else if !shape::divides(k_align, k) {
        Some(
            Fault::InvalidArgument(
                "MMA GEMM requires K divisible by "@ + text::decimal(k_align) + ": K="@
                    + text::decimal(k),
            ),
        )
    } else {
        None
    }
}

/// Checks the alignment of a matrix product.
pub fn validate_mma_alignment_ffi(m: u32, n: u32, k: u32, k_align: u32) -> (r: Result<()>)
    ensures
        plan::verdict(r) == mma_alignment_fault(m as int, n as int, k as int, k_align as int),
{
    if !m.is_multiple_of(32) || !n.is_multiple_of(32) {
        return Text::new("MMA GEMM requires M, N divisible by 32: M=").n(m as u64).s(", N=").n(
            n as u64,
        ).refuse();
    }
    if !k.is_multiple_of(k_align) {
        return Text::new("MMA GEMM requires K divisible by ").n(k_align as u64).s(": K=").n(
            k as u64,
        ).refuse();
    }
    Ok(())
}

/// The kernel of an activation.
pub open spec fn activation_kernel(a: SparkActivationType) -> Seq<char> {
    match a {
        SparkActivationType::SiluMul => "silu_mul_bf16"@,
        SparkActivationType::GeluMul => "gelu_mul_bf16"@,
        SparkActivationType::GeluTanhMul => "gelu_tanh_mul_bf16"@,
    }
}

fn activation_name(a: SparkActivationType) -> (r: &'static str)
    ensures
        r@ == activation_kernel(a),
{
    match a {
        SparkActivationType::SiluMul => "silu_mul_bf16",
        SparkActivationType::GeluMul => "gelu_mul_bf16",
        SparkActivationType::GeluTanhMul => "gelu_tanh_mul_bf16",
    }
}

/// The answer of [`launch_fa_bf16_v3`].
pub open spec fn launch_fa_bf16_v3_plan(p: SparkFlashAttnParams) -> Plan {
    if let Some(fault) = fa_dims_fault(p) {
        Plan::Fail(fault)
    } else {
        Plan::launch(
            "fa_bf16_v3_d128"@,
            "flash_attn_bf16_v3_d128"@,
            (shape::ceil_div(p.seq_q as int, 128), p.num_heads as int, p.batch as int),
            (256, 1, 1),
            0,
            seq![
                Arg::Address(p.q), Arg::Address(p.k), Arg::Address(p.v), Arg::Address(p.o),
                Arg::Word(p.seq_q), Arg::Word(p.seq_kv), Arg::Word(p.num_heads),
                Arg::Scalar(p.scale),
            ],
        )
    }
}

/// BF16 attention.
pub fn launch_fa_bf16_v3(p: &SparkFlashAttnParams) -> (r: Result<Launch>)
    ensures
        plan::outcome(r) == launch_fa_bf16_v3_plan(*p),
        plan::launchable(r, 0),
{
    if let Err(e) = validate_fa_dims(p) {
        return Err(e);
    }
    Ok(
        Launch::new(
            "fa_bf16_v3_d128",
            "flash_attn_bf16_v3_d128",
            (shape::div_ceil(p.seq_q, 128), p.num_heads, p.batch),
            (256, 1, 1),
            0,
            vec![
                Arg::Address(p.q), Arg::Address(p.k), Arg::Address(p.v), Arg::Address(p.o),
                Arg::Word(p.seq_q), Arg::Word(p.seq_kv), Arg::Word(p.num_heads),
                Arg::Scalar(p.scale),
            ],
        ),
    )
}

/// The answer of [`launch_fa_bf16_v3_causal`].
pub open spec fn launch_fa_bf16_v3_causal_plan(p: SparkFlashAttnParams) -> Plan {
    if let Some(fault) = fa_dims_fault(p) {
        Plan::Fail(fault)
    } else {
        Plan::launch(
            "fa_bf16_v3_d128_causal"@,
            "flash_attn_bf16_v3_d128_causal"@,
            (shape::ceil_div(p.seq_q as int, 128), p.num_heads as int, p.batch as int),
            (256, 1, 1),
            0,
            seq![
                Arg::Address(p.q), Arg::Address(p.k), Arg::Address(p.v), Arg::Address(p.o),
                Arg::Word(p.seq_q), Arg::Word(p.seq_kv), Arg::Word(p.num_heads),
                Arg::Scalar(p.scale),
            ],
        )
    }
}

/// Causal BF16 attention.
pub fn launch_fa_bf16_v3_causal(p: &SparkFlashAttnParams) -> (r: Result<Launch>)
    ensures
        plan::outcome(r) == launch_fa_bf16_v3_causal_plan(*p),
        plan::launchable(r, 0),
{
    if let Err(e) = validate_fa_dims(p) {
        return Err(e);
    }
    Ok(
        Launch::new(
            "fa_bf16_v3_d128_causal",
            "flash_attn_bf16_v3_d128_causal",
            (shape::div_ceil(p.seq_q, 128), p.num_heads, p.batch),
            (256, 1, 1),
            0,
            vec![
                Arg::Address(p.q), Arg::Address(p.k), Arg::Address(p.v), Arg::Address(p.o),
                Arg::Word(p.seq_q), Arg::Word(p.seq_kv), Arg::Word(p.num_heads),
                Arg::Scalar(p.scale),
            ],
        ),
    )
}

/// The answer of [`launch_fa_fp8`].
pub open spec fn launch_fa_fp8_plan(p: SparkFlashAttnParams) -> Plan {
    if let Some(fault) = fa_dims_fault(p) {
        Plan::Fail(fault)
    } else {
        Plan::launch(
            "fa_fp8_d128"@,
            "flash_attn_fp8_d128"@,
            (shape::ceil_div(p.seq_q as int, 16), p.num_heads as int, p.batch as int),
            (32, 1, 1),
            0,
            seq![
                Arg::Address(p.q), Arg::Address(p.k), Arg::Address(p.v), Arg::Address(p.o),
                Arg::Word(p.seq_q), Arg::Word(p.seq_kv), Arg::Word(p.num_heads),
                Arg::Scalar(p.scale),
            ],
        )
    }
}

/// FP8 attention.
pub fn launch_fa_fp8(p: &SparkFlashAttnParams) -> (r: Result<Launch>)
    ensures
        plan::outcome(r) == launch_fa_fp8_plan(*p),
        plan::launchable(r, 0),
{
    if let Err(e) = validate_fa_dims(p) {
        return Err(e);
    }
    Ok(
        Launch::new(
            "fa_fp8_d128",
            "flash_attn_fp8_d128",
            (shape::div_ceil(p.seq_q, 16), p.num_heads, p.batch),
            (32, 1, 1),
            0,
            vec![
                Arg::Address(p.q), Arg::Address(p.k), Arg::Address(p.v), Arg::Address(p.o),
                Arg::Word(p.seq_q), Arg::Word(p.seq_kv), Arg::Word(p.num_heads),
                Arg::Scalar(p.scale),
            ],
        ),
    )
}

/// The answer of [`launch_fa_fp8_causal`].
pub open spec fn launch_fa_fp8_causal_plan(p: SparkFlashAttnParams) -> Plan {
    if let Some(fault) = fa_dims_fault(p) {
        Plan::Fail(fault)
    } else {
        Plan::launch(
            "fa_fp8_d128_causal"@,
            "flash_attn_fp8_d128_causal"@,
            (shape::ceil_div(p.seq_q as int, 16), p.num_heads as int, p.batch as int),
            (32, 1, 1),
            0,
            seq![
                Arg::Address(p.q), Arg::Address(p.k), Arg::Address(p.v), Arg::Address(p.o),
                Arg::Word(p.seq_q), Arg::Word(p.seq_kv), Arg::Word(p.num_heads),
                Arg::Scalar(p.scale),
            ],
        )
    }
}

/// Causal FP8 attention.
pub fn launch_fa_fp8_causal(p: &SparkFlashAttnParams) -> (r: Result<Launch>)
    ensures
        plan::outcome(r) == launch_fa_fp8_causal_plan(*p),
        plan::launchable(r, 0),
{
    if let Err(e) = validate_fa_dims(p) {
        return Err(e);
    }
    Ok(
        Launch::new(
            "fa_fp8_d128_causal",
            "flash_attn_fp8_d128_causal",
            (shape::div_ceil(p.seq_q, 16), p.num_heads, p.batch),
            (32, 1, 1),
            0,
            vec![
                Arg::Address(p.q), Arg::Address(p.k), Arg::Address(p.v), Arg::Address(p.o),
                Arg::Word(p.seq_q), Arg::Word(p.seq_kv), Arg::Word(p.num_heads),
                Arg::Scalar(p.scale),
            ],
        ),
    )
}

/// The answer of [`launch_gemm_bf16_mma`].
pub open spec fn launch_gemm_bf16_mma_plan(p: SparkGemmParams) -> Plan {
    if let Some(fault) = gemm_dims_fault(p.m as int, p.n as int, p.k as int) {
        Plan::Fail(fault)
    } else if !shape::divides(128, p.m as int) || !shape::divides(64, p.n as int) {
        Plan::invalid(
            "spark_gemm BF16 requires M divisible by 128 and N by 64: M="@
                + text::decimal(p.m as int) + ", N="@ + text::decimal(p.n as int),
        )
    } else if let Some(fault) = mma_alignment_fault(p.m as int, p.n as int, p.k as int, 16) {
        Plan::Fail(fault)
    } else if p.a == 0 || p.b == 0 || p.c == 0 {
        Plan::invalid("GEMM buffer pointers must not be null"@)
    } else {
        Plan::launch(
            "gemm_bf16_mma"@,
            "gemm_bf16_mma"@,
            (p.n as int / 64, p.m as int / 128, 1),
            (128, 1, 1),
            12288,
            seq![
                Arg::Address(p.a), Arg::Address(p.b), Arg::Address(p.c), Arg::Word(p.m),
                Arg::Word(p.n), Arg::Word(p.k),
            ],
        )
    }
}

/// BF16 matrix product over tiles of 128 rows and 64 columns.
pub fn launch_gemm_bf16_mma(p: &SparkGemmParams) -> (r: Result<Launch>)
    ensures
        plan::outcome(r) == launch_gemm_bf16_mma_plan(*p),
        plan::launchable(r, 0),
{
    if let Err(e) = validate_gemm_dims_ffi(p.m, p.n, p.k) {
        return Err(e);
    }
    if !p.m.is_multiple_of(128) || !p.n.is_multiple_of(64) {
        return Text::new("spark_gemm BF16 requires M divisible by 128 and N by 64: M=")
            .n(p.m as u64).s(", N=").n(p.n as u64).refuse();
    }
    if let Err(e) = validate_mma_alignment_ffi(p.m, p.n, p.k, 16) {
        return Err(e);
    }
    if p.a == 0 || p.b == 0 || p.c == 0 {
        return Text::new("GEMM buffer pointers must not be null").refuse();
    }
    Ok(
        Launch::new(
            "gemm_bf16_mma",
            "gemm_bf16_mma",
            (p.n / 64, p.m / 128, 1),
            (128, 1, 1),
            12288,
            vec![
                Arg::Address(p.a), Arg::Address(p.b), Arg::Address(p.c), Arg::Word(p.m),
                Arg::Word(p.n), Arg::Word(p.k),
            ],
        ),
    )
}

/// The answer of [`launch_gemm_fp8_mma`].
pub open spec fn launch_gemm_fp8_mma_plan(p: SparkGemmParams) -> Plan {
    if let Some(fault) = gemm_dims_fault(p.m as int, p.n as int, p.k as int) {
        Plan::Fail(fault)
    } else if let Some(fault) = mma_alignment_fault(p.m as int, p.n as int, p.k as int, 32) {
        Plan::Fail(fault)
    } else if p.a == 0 || p.b == 0 || p.c == 0 {
        Plan::invalid("GEMM buffer pointers must not be null"@)
    } else {
        Plan::launch(
            "gemm_fp8_mma"@,
            "gemm_fp8_mma"@,
            (shape::ceil_div(p.n as int, 32), shape::ceil_div(p.m as int, 32), 1),
            (32, 1, 1),
            2048,
            seq![
                Arg::Address(p.a), Arg::Address(p.b), Arg::Address(p.c), Arg::Word(p.m),
                Arg::Word(p.n), Arg::Word(p.k),
            ],
        )
    }
}

/// FP8 matrix product over square tiles of 32.
pub fn launch_gemm_fp8_mma(p: &SparkGemmParams) -> (r: Result<Launch>)
    ensures
        plan::outcome(r) == launch_gemm_fp8_mma_plan(*p),
        plan::launchable(r, 0),
{
    if let Err(e) = validate_gemm_dims_ffi(p.m, p.n, p.k) {
        return Err(e);
    }
    if let Err(e) = validate_mma_alignment_ffi(p.m, p.n, p.k, 32) {
        return Err(e);
    }
    if p.a == 0 || p.b == 0 || p.c == 0 {
        return Text::new("GEMM buffer pointers must not be null").refuse();
    }
    Ok(
        Launch::new(
            "gemm_fp8_mma",
            "gemm_fp8_mma",
            (shape::div_ceil(p.n, 32), shape::div_ceil(p.m, 32), 1),
            (32, 1, 1),
            2048,
            vec![
                Arg::Address(p.a), Arg::Address(p.b), Arg::Address(p.c), Arg::Word(p.m),
                Arg::Word(p.n), Arg::Word(p.k),
            ],
        ),
    )
}

/// The answer of [`launch_topk`].
pub open spec fn launch_topk_plan(p: SparkTopkParams) -> Plan {
    if p.batch_size == 0 || p.vocab_size == 0 || p.k == 0 {
        Plan::invalid(
            "topk dims must be > 0: batch_size="@ + text::decimal(p.batch_size as int)
                + ", vocab_size="@ + text::decimal(p.vocab_size as int) + ", k="@
                + text::decimal(p.k as int),
        )
    } else if p.logits == 0 || p.indices == 0 || p.values == 0 {
        Plan::invalid("topk buffer pointers must not be null"@)
    } else {
        Plan::launch(
            "topk_sampling"@,
            "topk_sampling"@,
            (p.batch_size as int, 1, 1),
            (256, 1, 1),
            0,
            seq![
                Arg::Address(p.logits), Arg::Address(p.indices), Arg::Address(p.values),
                Arg::Word(p.vocab_size), Arg::Word(p.k), Arg::Scalar(p.temperature),
            ],
        )
    }
}

/// Top-k sampling, one block per row.
pub fn launch_topk(p: &SparkTopkParams) -> (r: Result<Launch>)
    ensures
        plan::outcome(r) == launch_topk_plan(*p),
        plan::launchable(r, 0),
{
    if p.batch_size == 0 || p.vocab_size == 0 || p.k == 0 {
        return Text::new("topk dims must be > 0: batch_size=").n(p.batch_size as u64)
            .s(", vocab_size=").n(p.vocab_size as u64).s(", k=").n(p.k as u64).refuse();
    }
    if p.logits == 0 || p.indices == 0 || p.values == 0 {
        return Text::new("topk buffer pointers must not be null").refuse();
    }
    Ok(
        Launch::new(
            "topk_sampling",
            "topk_sampling",
            (p.batch_size, 1, 1),
            (256, 1, 1),
            0,
            vec![
                Arg::Address(p.logits), Arg::Address(p.indices), Arg::Address(p.values),
                Arg::Word(p.vocab_size), Arg::Word(p.k), Arg::Scalar(p.temperature),
            ],
        ),
    )
}

/// The answer of [`launch_moe`].
pub open spec fn launch_moe_plan(p: SparkMoeRoutingParams) -> Plan {
    if p.num_tokens == 0 || p.num_experts == 0 || p.top_k == 0 {
        Plan::invalid(
            "MoE dims must be > 0: num_tokens="@ + text::decimal(p.num_tokens as int)
                + ", num_experts="@ + text::decimal(p.num_experts as int) + ", top_k="@
                + text::decimal(p.top_k as int),
        )
    } else if p.top_k > p.num_experts {
        Plan::invalid(
            "top_k ("@ + text::decimal(p.top_k as int) + ") must be <= num_experts ("@
                + text::decimal(p.num_experts as int) + ")"@,
        )
    } else if p.logits == 0 || p.expert_ids == 0 || p.weights == 0 {
        Plan::invalid("MoE buffer pointers must not be null"@)
    } else {
        Plan::launch(
            "moe_routing"@,
            "moe_routing"@,
            (p.num_tokens as int, 1, 1),
            (32, 1, 1),
            0,
            seq![
                Arg::Address(p.logits), Arg::Address(p.expert_ids), Arg::Address(p.weights),
                Arg::Word(p.num_tokens), Arg::Word(p.num_experts), Arg::Word(p.top_k),
            ],
        )
    }
}

/// MoE routing, one block per token.
pub fn launch_moe(p: &SparkMoeRoutingParams) -> (r: Result<Launch>)
    ensures
        plan::outcome(r) == launch_moe_plan(*p),
        plan::launchable(r, 0),
{
    if p.num_tokens == 0 || p.num_experts == 0 || p.top_k == 0 {
        return Text::new("MoE dims must be > 0: num_tokens=").n(p.num_tokens as u64)
            .s(", num_experts=").n(p.num_experts as u64).s(", top_k=").n(p.top_k as u64).refuse();
    }
    if p.top_k > p.num_experts {
        return Text::new("top_k (").n(p.top_k as u64).s(") must be <= num_experts (")
            .n(p.num_experts as u64).s(")").refuse();
    }
    if p.logits == 0 || p.expert_ids == 0 || p.weights == 0 {
        return Text::new("MoE buffer pointers must not be null").refuse();
    }
    Ok(
        Launch::new(
            "moe_routing",
            "moe_routing",
            (p.num_tokens, 1, 1),
            (32, 1, 1),
            0,
            vec![
                Arg::Address(p.logits), Arg::Address(p.expert_ids), Arg::Address(p.weights),
                Arg::Word(p.num_tokens), Arg::Word(p.num_experts), Arg::Word(p.top_k),
            ],
        ),
    )
}

/// The answer of [`launch_rmsnorm`].
pub open spec fn launch_rmsnorm_plan(p: SparkRmsNormParams) -> Plan {
    if p.hidden_dim == 0 || p.num_rows == 0 {
        Plan::invalid(
            "RMSNorm dims must be > 0: hidden_dim="@ + text::decimal(p.hidden_dim as int)
                + ", num_rows="@ + text::decimal(p.num_rows as int),
        )
    } else if p.x == 0 || p.out == 0 || p.weight == 0 {
        Plan::invalid("RMSNorm buffer pointers must not be null"@)
    } else {
        Plan::launch(
            "rmsnorm_bf16"@,
            "rmsnorm_bf16"@,
            (p.num_rows as int, 1, 1),
            (256, 1, 1),
            0,
            seq![
                Arg::Address(p.x), Arg::Address(p.out), Arg::Address(p.weight),
                Arg::Word(p.hidden_dim), Arg::Scalar(p.eps),
            ],
        )
    }
}

/// RMSNorm, one block per row.
pub fn launch_rmsnorm(p: &SparkRmsNormParams) -> (r: Result<Launch>)
    ensures
        plan::outcome(r) == launch_rmsnorm_plan(*p),
        plan::launchable(r, 0),
{
    if p.hidden_dim == 0 || p.num_rows == 0 {
        return Text::new("RMSNorm dims must be > 0: hidden_dim=").n(p.hidden_dim as u64)
            .s(", num_rows=").n(p.num_rows as u64).refuse();
    }
    if p.x == 0 || p.out == 0 || p.weight == 0 {
        return Text::new("RMSNorm buffer pointers must not be null").refuse();
    }
    Ok(
        Launch::new(
            "rmsnorm_bf16",
            "rmsnorm_bf16",
            (p.num_rows, 1, 1),
            (256, 1, 1),
            0,
            vec![
                Arg::Address(p.x), Arg::Address(p.out), Arg::Address(p.weight),
                Arg::Word(p.hidden_dim), Arg::Scalar(p.eps),
            ],
        ),
    )
}

/// The answer of [`launch_rope`].
pub open spec fn launch_rope_plan(p: SparkRopeParams) -> Plan {
    if p.batch == 0 || p.seq_len == 0 || p.heads == 0 || p.dim == 0 {
        Plan::invalid(
            "RoPE dims must be > 0: batch="@ + text::decimal(p.batch as int) + ", seq_len="@
                + text::decimal(p.seq_len as int) + ", heads="@ + text::decimal(p.heads as int)
                + ", dim="@ + text::decimal(p.dim as int),
        )
    } else if !shape::divides(2, p.dim as int) {
        Plan::invalid("RoPE dim must be even: dim="@ + text::decimal(p.dim as int))
    } else if p.dim / 2 > 1024 {
        Plan::invalid(
            "RoPE dim/2 ("@ + text::decimal((p.dim / 2) as int)
                + ") exceeds max threads per block (1024)"@,
        )
    } else if p.x == 0 || p.cos_cache == 0 || p.sin_cache == 0 {
        Plan::invalid("RoPE buffer pointers must not be null"@)
    } else if p.batch * p.seq_len > u32::MAX || p.batch * p.seq_len * p.heads > u32::MAX {
        Plan::Undefined
    } else {
        Plan::launch(
            "rope_bf16"@,
            "rope_bf16"@,
            (p.batch * p.seq_len * p.heads, 1, 1),
            (p.dim as int / 2, 1, 1),
            0,
            seq![
                Arg::Address(p.x), Arg::Address(p.cos_cache), Arg::Address(p.sin_cache),
                Arg::Word(p.seq_len), Arg::Word(p.heads), Arg::Word(p.dim),
                Arg::word(p.dim as int / 2),
            ],
        )
    }
}

/// Whether a RoPE call has an answer: its positions can be counted in 32 bits, or it is refused.
pub fn rope_is_countable(p: &SparkRopeParams) -> (r: bool)
    ensures
        r == (launch_rope_plan(*p) !is Undefined),
{
    let refused: bool = p.batch == 0 || p.seq_len == 0 || p.heads == 0 || p.dim == 0 || p.dim % 2
        != 0 || p.dim / 2 > 1024 || p.x == 0 || p.cos_cache == 0 || p.sin_cache == 0;
    let positions: u128 = shape::triple_product(p.batch, p.seq_len, p.heads);
    proof {
        let n = p.batch * p.seq_len;
        assert(p.heads > 0 ==> n <= n * p.heads) by (nonlinear_arith)
            requires
                n == p.batch * p.seq_len,
        ;
    }
    refused || positions <= u32::MAX as u128
}

/// RoPE in place, one block per position and head, one thread per pair of elements.
pub fn launch_rope(p: &SparkRopeParams) -> (r: Result<Launch>)
    requires
        launch_rope_plan(*p) !is Undefined,
    ensures
        plan::outcome(r) == launch_rope_plan(*p),
        plan::launchable(r, 0),
{
    if p.batch == 0 || p.seq_len == 0 || p.heads == 0 || p.dim == 0 {
        return Text::new("RoPE dims must be > 0: batch=").n(p.batch as u64).s(", seq_len=")
            .n(p.seq_len as u64).s(", heads=").n(p.heads as u64).s(", dim=").n(p.dim as u64)
            .refuse();
    }
    if !p.dim.is_multiple_of(2) {
        return Text::new("RoPE dim must be even: dim=").n(p.dim as u64).refuse();
    }
    if p.dim / 2 > 1024 {
        return Text::new("RoPE dim/2 (").n((p.dim / 2) as u64)
            .s(") exceeds max threads per block (1024)").refuse();
    }
    if p.x == 0 || p.cos_cache == 0 || p.sin_cache == 0 {
        return Text::new("RoPE buffer pointers must not be null").refuse();
    }
    let positions: u32 = p.batch * p.seq_len * p.heads;
    assert(positions > 0) by (nonlinear_arith)
        requires
            positions == p.batch * p.seq_len * p.heads,
            p.batch > 0,
            p.seq_len > 0,
            p.heads > 0,
    ;
    Ok(
        Launch::new(
            "rope_bf16",
            "rope_bf16",
            (positions, 1, 1),
            (p.dim / 2, 1, 1),
            0,
            vec![
                Arg::Address(p.x), Arg::Address(p.cos_cache), Arg::Address(p.sin_cache),
                Arg::Word(p.seq_len), Arg::Word(p.heads), Arg::Word(p.dim), Arg::Word(p.dim / 2),
            ],
        ),
    )
}

/// The answer of [`launch_gemm_nvfp4`].
pub open spec fn launch_gemm_nvfp4_plan(p: SparkNvfp4GemmParams) -> Plan {
    if let Some(fault) = gemm_dims_fault(p.m as int, p.n as int, p.k as int) {
        Plan::Fail(fault)
    } else if let Some(fault) = mma_alignment_fault(p.m as int, p.n as int, p.k as int, 64) {
        Plan::Fail(fault)
    } else if p.a == 0 || p.b == 0 || p.c == 0 || p.scale_a == 0 || p.scale_b == 0 {
        Plan::invalid("NVFP4 GEMM buffer pointers must not be null"@)
    } else {
        Plan::launch(
            "gemm_nvfp4_mma"@,
            "gemm_nvfp4_mma"@,
            (shape::ceil_div(p.n as int, 32), shape::ceil_div(p.m as int, 32), 1),
            (32, 1, 1),
            2048,
            seq![
                Arg::Address(p.a), Arg::Address(p.b), Arg::Address(p.c), Arg::Address(p.scale_a),
                Arg::Address(p.scale_b), Arg::Word(p.m), Arg::Word(p.n), Arg::Word(p.k),
            ],
        )
    }
}

/// NVFP4 block-scaled matrix product over square tiles of 32.
pub fn launch_gemm_nvfp4(p: &SparkNvfp4GemmParams) -> (r: Result<Launch>)
    ensures
        plan::outcome(r) == launch_gemm_nvfp4_plan(*p),
        plan::launchable(r, 0),
{
    if let Err(e) = validate_gemm_dims_ffi(p.m, p.n, p.k) {
        return Err(e);
    }
    if let Err(e) = validate_mma_alignment_ffi(p.m, p.n, p.k, 64) {
        return Err(e);
    }
    if p.a == 0 || p.b == 0 || p.c == 0 || p.scale_a == 0 || p.scale_b == 0 {
        return Text::new("NVFP4 GEMM buffer pointers must not be null").refuse();
    }
    Ok(
        Launch::new(
            "gemm_nvfp4_mma",
            "gemm_nvfp4_mma",
            (shape::div_ceil(p.n, 32), shape::div_ceil(p.m, 32), 1),
            (32, 1, 1),
            2048,
            vec![
                Arg::Address(p.a), Arg::Address(p.b), Arg::Address(p.c), Arg::Address(p.scale_a),
                Arg::Address(p.scale_b), Arg::Word(p.m), Arg::Word(p.n), Arg::Word(p.k),
            ],
        ),
    )
}

/// The answer of [`launch_gemm_w4a16`].
pub open spec fn launch_gemm_w4a16_plan(p: SparkW4a16GemmParams) -> Plan {
    if let Some(fault) = gemm_dims_fault(p.m as int, p.n as int, p.k as int) {
        Plan::Fail(fault)
    } else if let Some(fault) = mma_alignment_fault(p.m as int, p.n as int, p.k as int, 16) {
        Plan::Fail(fault)
    } else if p.a == 0 || p.w == 0 || p.c == 0 || p.scales == 0 || p.zeros == 0 {
        Plan::invalid("W4A16 GEMM buffer pointers must not be null"@)
    } else {
        Plan::launch(
            "gemm_w4a16_mma"@,
            "gemm_w4a16_mma"@,
            (shape::ceil_div(p.n as int, 32), shape::ceil_div(p.m as int, 32), 1),
            (32, 1, 1),
            2176,
            seq![
                Arg::Address(p.a), Arg::Address(p.w), Arg::Address(p.c), Arg::Address(p.scales),
                Arg::Address(p.zeros), Arg::Word(p.m), Arg::Word(p.n), Arg::Word(p.k),
            ],
        )
    }
}

/// W4A16 matrix product over square tiles of 32.
pub fn launch_gemm_w4a16(p: &SparkW4a16GemmParams) -> (r: Result<Launch>)
    ensures
        plan::outcome(r) == launch_gemm_w4a16_plan(*p),
        plan::launchable(r, 0),
{
    if let Err(e) = validate_gemm_dims_ffi(p.m, p.n, p.k) {
        return Err(e);
    }
    if let Err(e) = validate_mma_alignment_ffi(p.m, p.n, p.k, 16) {
        return Err(e);
    }
    if p.a == 0 || p.w == 0 || p.c == 0 || p.scales == 0 || p.zeros == 0 {
        return Text::new("W4A16 GEMM buffer pointers must not be null").refuse();
    }
    Ok(
        Launch::new(
            "gemm_w4a16_mma",
            "gemm_w4a16_mma",
            (shape::div_ceil(p.n, 32), shape::div_ceil(p.m, 32), 1),
            (32, 1, 1),
            2176,
            vec![
                Arg::Address(p.a), Arg::Address(p.w), Arg::Address(p.c), Arg::Address(p.scales),
                Arg::Address(p.zeros), Arg::Word(p.m), Arg::Word(p.n), Arg::Word(p.k),
            ],
        ),
    )
}

/// The answer of [`launch_fa_bf16_varlen`].
pub open spec fn launch_fa_bf16_varlen_plan(p: SparkVarlenFlashAttnParams) -> Plan {
    if p.batch == 0 || p.num_heads == 0 || p.max_seqlen_q == 0 {
        Plan::invalid(
            "varlen FA dims must be > 0: batch="@ + text::decimal(p.batch as int)
                + ", num_heads="@ + text::decimal(p.num_heads as int) + ", max_seqlen_q="@
                + text::decimal(p.max_seqlen_q as int),
        )
    } else if p.q == 0 || p.k == 0 || p.v == 0 || p.o == 0 {
        Plan::invalid("varlen FA buffer pointers must not be null"@)
    } else if p.cu_seqlens_q == 0 || p.cu_seqlens_k == 0 {
        Plan::invalid("varlen FA cu_seqlens pointers must not be null"@)
    } else {
        Plan::launch(
            "fa_bf16_varlen_d128"@,
            "flash_attn_bf16_varlen_d128"@,
            (shape::ceil_div(p.max_seqlen_q as int, 16), p.num_heads as int, p.batch as int),
            (32, 1, 1),
            18432,
            seq![
                Arg::Address(p.q), Arg::Address(p.k), Arg::Address(p.v), Arg::Address(p.o),
                Arg::Address(p.cu_seqlens_q), Arg::Address(p.cu_seqlens_k),
                Arg::Word(p.num_heads), Arg::Word(p.max_seqlen_q), Arg::Scalar(p.scale),
            ],
        )
    }
}

/// BF16 attention over sequences of varying lengths.
pub fn launch_fa_bf16_varlen(p: &SparkVarlenFlashAttnParams) -> (r: Result<Launch>)
    ensures
        plan::outcome(r) == launch_fa_bf16_varlen_plan(*p),
        plan::launchable(r, 0),
{
    if p.batch == 0 || p.num_heads == 0 || p.max_seqlen_q == 0 {
        return Text::new("varlen FA dims must be > 0: batch=").n(p.batch as u64).s(", num_heads=")
            .n(p.num_heads as u64).s(", max_seqlen_q=").n(p.max_seqlen_q as u64).refuse();
    }
    if p.q == 0 || p.k == 0 || p.v == 0 || p.o == 0 {
        return Text::new("varlen FA buffer pointers must not be null").refuse();
    }
    if p.cu_seqlens_q == 0 || p.cu_seqlens_k == 0 {
        return Text::new("varlen FA cu_seqlens pointers must not be null").refuse();
    }
    Ok(
        Launch::new(
            "fa_bf16_varlen_d128",
            "flash_attn_bf16_varlen_d128",
            (shape::div_ceil(p.max_seqlen_q, 16), p.num_heads, p.batch),
            (32, 1, 1),
            18432,
            vec![
                Arg::Address(p.q), Arg::Address(p.k), Arg::Address(p.v), Arg::Address(p.o),
                Arg::Address(p.cu_seqlens_q), Arg::Address(p.cu_seqlens_k),
                Arg::Word(p.num_heads), Arg::Word(p.max_seqlen_q), Arg::Scalar(p.scale),
            ],
        ),
    )
}

/// The answer of [`launch_activation`].
pub open spec fn launch_activation_plan(p: SparkActivationParams) -> Plan {
    if p.total_out_elems == 0 || p.d == 0 {
        Plan::invalid(
            "activation dims must be > 0: total_out_elems="@
                + text::decimal(p.total_out_elems as int) + ", d="@ + text::decimal(p.d as int),
        )
    } else if p.input == 0 || p.out == 0 {
        Plan::invalid("activation buffer pointers must not be null"@)
    } else {
        Plan::launch(
            activation_kernel(p.activation),
            activation_kernel(p.activation),
            (shape::ceil_div(p.total_out_elems as int, 256), 1, 1),
            (256, 1, 1),
            0,
            seq![
                Arg::Address(p.input), Arg::Address(p.out), Arg::Word(p.total_out_elems),
                Arg::Word(p.d),
            ],
        )
    }
}

/// Gated activation, one thread per output element.
pub fn launch_activation(p: &SparkActivationParams) -> (r: Result<Launch>)
    ensures
        plan::outcome(r) == launch_activation_plan(*p),
        plan::launchable(r, 0),
{
    if p.total_out_elems == 0 || p.d == 0 {
        return Text::new("activation dims must be > 0: total_out_elems=")
            .n(p.total_out_elems as u64).s(", d=").n(p.d as u64).refuse();
    }
    if p.input == 0 || p.out == 0 {
        return Text::new("activation buffer pointers must not be null").refuse();
    }
    Ok(
        Launch::new(
            activation_name(p.activation),
            activation_name(p.activation),
            (shape::div_ceil(p.total_out_elems, 256), 1, 1),
            (256, 1, 1),
            0,
            vec![
                Arg::Address(p.input), Arg::Address(p.out), Arg::Word(p.total_out_elems),
                Arg::Word(p.d),
            ],
        ),
    )
}

/// Whether two launches run the same kernel in the same way, whatever their arguments.
pub open spec fn same_kernel(a: Plan, b: Plan) -> bool {
    a matches Plan::Launch(x) ==> (b matches Plan::Launch(y) ==> x.kernel == y.kernel && x.entry
        == y.entry && x.grid == y.grid && x.block == y.block && x.shared_mem == y.shared_mem)
}

/// The matrix products of the C API run the kernels of the library in the library's way.
pub proof fn c_products_run_library_kernels(
    p: SparkGemmParams, q: SparkNvfp4GemmParams, w: SparkW4a16GemmParams, a_len: int, b_len: int,
    c_len: int, s_len: int, t_len: int,
)
    ensures
        same_kernel(
            launch_gemm_bf16_mma_plan(p),
            dense::gemm_bf16_mma_plan(a_len, b_len, c_len, p.m as int, p.n as int, p.k as int),
        ),
        same_kernel(
            launch_gemm_fp8_mma_plan(p),
            dense::gemm_fp8_mma_plan(a_len, b_len, c_len, p.m as int, p.n as int, p.k as int),
        ),
        same_kernel(
            launch_gemm_nvfp4_plan(q),
            quantized::gemm_nvfp4_mma_plan(
                a_len, b_len, c_len, s_len, t_len, q.m as int, q.n as int, q.k as int,
            ),
        ),
        same_kernel(
            launch_gemm_w4a16_plan(w),
            quantized::gemm_w4a16_mma_plan(
                a_len, b_len, c_len, s_len, t_len, w.m as int, w.n as int, w.k as int,
            ),
        ),
{
}

/// BF16 attention of the C API runs the kernels of the library in the library's way.
pub proof fn c_attention_runs_library_kernels(
    p: SparkFlashAttnParams, v: SparkVarlenFlashAttnParams, q_len: int, k_len: int, v_len: int,
    o_len: int, cu_q_len: int, cu_k_len: int,
)
    ensures
        same_kernel(
            launch_fa_bf16_v3_plan(p),
            attention::flash_attn_bf16_v3_d128_plan(
                q_len, k_len, v_len, o_len, p.batch as int, p.num_heads as int, p.seq_q as int,
                p.seq_kv as int, p.scale,
            ),
        ),
        same_kernel(
            launch_fa_bf16_v3_causal_plan(p),
            attention::flash_attn_bf16_v3_d128_causal_plan(
                q_len, k_len, v_len, o_len, p.batch as int, p.num_heads as int, p.seq_q as int,
                p.seq_kv as int, p.scale,
            ),
        ),
        same_kernel(
            launch_fa_bf16_varlen_plan(v),
            attention::flash_attn_bf16_varlen_d128_plan(
                q_len, k_len, v_len, o_len, cu_q_len, cu_k_len, v.batch as int, v.num_heads as int,
                v.max_seqlen_q as int, v.scale,
            ),
        ),
{
}

} // verus!
