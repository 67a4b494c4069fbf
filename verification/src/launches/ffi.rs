//! What the launches of the C interface hand to their kernels.
use crate::ffi::launch;
use crate::ffi::types::{
    SparkActivationParams, SparkFlashAttnParams, SparkGemmParams, SparkMoeRoutingParams,
    SparkNvfp4GemmParams, SparkRmsNormParams, SparkRopeParams, SparkTopkParams,
    SparkVarlenFlashAttnParams, SparkW4a16GemmParams,
};
use crate::launches::attention_dense;
use crate::launches::role::Role;
use crate::meaning;
use crate::plan::{Arg, Plan};
use crate::shape;
use vstd::prelude::*;

verus! {

/// `launch_fa_bf16_v3` launches its kernel exactly where the sizes of the request are right, with
/// every argument what its role asks for, on blocks that cover the result.
pub proof fn launch_fa_bf16_v3_launches(p: SparkFlashAttnParams)
    ensures
        launch::launch_fa_bf16_v3_plan(p) matches Plan::Fail(f) ==> f is InvalidArgument,
        launch::launch_fa_bf16_v3_plan(p) !is Undefined,
        launch::launch_fa_bf16_v3_plan(p) is Launch <==> {
            &&& p.batch != 0
            &&& p.num_heads != 0
            &&& p.seq_q != 0
            &&& p.seq_kv != 0
            &&& p.q != 0
            &&& p.k != 0
            &&& p.v != 0
            &&& p.o != 0
        },
        launch::launch_fa_bf16_v3_plan(p) matches Plan::Launch(l) ==> {
            &&& l.entry == "flash_attn_bf16_v3_d128"@
            &&& l.kernel == "fa_bf16_v3_d128"@
            &&& l.args =~= attention_dense::flash_attn_bf16_v3_d128_takes().map_values(
                |r: Role|
                    match r {
                        Role::Query => Arg::Address(p.q),
                        Role::Key => Arg::Address(p.k),
                        Role::Value => Arg::Address(p.v),
                        Role::Output => Arg::Address(p.o),
                        Role::SeqQ => Arg::Word(p.seq_q),
                        Role::SeqKv => Arg::Word(p.seq_kv),
                        Role::NumHeads => Arg::Word(p.num_heads),
                        Role::Scale => Arg::Scalar(p.scale),
                        _ => Arg::Word(0),
                    },
            )
            &&& meaning::covers(l.grid.0, 128, p.seq_q as int)
            &&& l.grid.1 == p.num_heads as int
            &&& l.grid.2 == p.batch as int
            &&& l.block == (256int, 1int, 1int)
            &&& l.shared_mem == 0
            &&& l.opt_in is None
            &&& l.failure is None
            &&& l.tensor_maps.len() == 0
        },
{
    shape::lemma_ceil_div(p.seq_q as int, 128);
}

/// `launch_fa_bf16_v3_causal` launches its kernel exactly where the sizes of the request are
/// right, with every argument what its role asks for, on blocks that cover the result.
pub proof fn launch_fa_bf16_v3_causal_launches(p: SparkFlashAttnParams)
    ensures
        launch::launch_fa_bf16_v3_causal_plan(p) matches Plan::Fail(f) ==> f is InvalidArgument,
        launch::launch_fa_bf16_v3_causal_plan(p) !is Undefined,
        launch::launch_fa_bf16_v3_causal_plan(p) is Launch <==> {
            &&& p.batch != 0
            &&& p.num_heads != 0
            &&& p.seq_q != 0
            &&& p.seq_kv != 0
            &&& p.q != 0
            &&& p.k != 0
            &&& p.v != 0
            &&& p.o != 0
        },
        launch::launch_fa_bf16_v3_causal_plan(p) matches Plan::Launch(l) ==> {
            &&& l.entry == "flash_attn_bf16_v3_d128_causal"@
            &&& l.kernel == "fa_bf16_v3_d128_causal"@
            &&& l.args =~= attention_dense::flash_attn_bf16_v3_d128_causal_takes().map_values(
                |r: Role|
                    match r {
                        Role::Query => Arg::Address(p.q),
                        Role::Key => Arg::Address(p.k),
                        Role::Value => Arg::Address(p.v),
                        Role::Output => Arg::Address(p.o),
                        Role::SeqQ => Arg::Word(p.seq_q),
                        Role::SeqKv => Arg::Word(p.seq_kv),
                        Role::NumHeads => Arg::Word(p.num_heads),
                        Role::Scale => Arg::Scalar(p.scale),
                        _ => Arg::Word(0),
                    },
            )
            &&& meaning::covers(l.grid.0, 128, p.seq_q as int)
            &&& l.grid.1 == p.num_heads as int
            &&& l.grid.2 == p.batch as int
            &&& l.block == (256int, 1int, 1int)
            &&& l.shared_mem == 0
            &&& l.opt_in is None
            &&& l.failure is None
            &&& l.tensor_maps.len() == 0
        },
{
    shape::lemma_ceil_div(p.seq_q as int, 128);
}

/// `launch_fa_fp8` launches its kernel exactly where the sizes of the request are right, with
/// every argument what its role asks for, on blocks that cover the result.
pub proof fn launch_fa_fp8_launches(p: SparkFlashAttnParams)
    ensures
        launch::launch_fa_fp8_plan(p) matches Plan::Fail(f) ==> f is InvalidArgument,
        launch::launch_fa_fp8_plan(p) !is Undefined,
        launch::launch_fa_fp8_plan(p) is Launch <==> {
            &&& p.batch != 0
            &&& p.num_heads != 0
            &&& p.seq_q != 0
            &&& p.seq_kv != 0
            &&& p.q != 0
            &&& p.k != 0
            &&& p.v != 0
            &&& p.o != 0
        },
        launch::launch_fa_fp8_plan(p) matches Plan::Launch(l) ==> {
            &&& l.entry == "flash_attn_fp8_d128"@
            &&& l.kernel == "fa_fp8_d128"@
            &&& l.args =~= attention_dense::flash_attn_fp8_d128_takes().map_values(
                |r: Role|
                    match r {
                        Role::Query => Arg::Address(p.q),
                        Role::Key => Arg::Address(p.k),
                        Role::Value => Arg::Address(p.v),
                        Role::Output => Arg::Address(p.o),
                        Role::SeqQ => Arg::Word(p.seq_q),
                        Role::SeqKv => Arg::Word(p.seq_kv),
                        Role::NumHeads => Arg::Word(p.num_heads),
                        Role::Scale => Arg::Scalar(p.scale),
                        _ => Arg::Word(0),
                    },
            )
            &&& meaning::covers(l.grid.0, 16, p.seq_q as int)
            &&& l.grid.1 == p.num_heads as int
            &&& l.grid.2 == p.batch as int
            &&& l.block == (32int, 1int, 1int)
            &&& l.shared_mem == 0
            &&& l.opt_in is None
            &&& l.failure is None
            &&& l.tensor_maps.len() == 0
        },
{
    shape::lemma_ceil_div(p.seq_q as int, 16);
}

/// `launch_fa_fp8_causal` launches its kernel exactly where the sizes of the request are right,
/// with every argument what its role asks for, on blocks that cover the result.
pub proof fn launch_fa_fp8_causal_launches(p: SparkFlashAttnParams)
    ensures
        launch::launch_fa_fp8_causal_plan(p) matches Plan::Fail(f) ==> f is InvalidArgument,
        launch::launch_fa_fp8_causal_plan(p) !is Undefined,
        launch::launch_fa_fp8_causal_plan(p) is Launch <==> {
            &&& p.batch != 0
            &&& p.num_heads != 0
            &&& p.seq_q != 0
            &&& p.seq_kv != 0
            &&& p.q != 0
            &&& p.k != 0
            &&& p.v != 0
            &&& p.o != 0
        },
        launch::launch_fa_fp8_causal_plan(p) matches Plan::Launch(l) ==> {
            &&& l.entry == "flash_attn_fp8_d128_causal"@
            &&& l.kernel == "fa_fp8_d128_causal"@
            &&& l.args =~= attention_dense::flash_attn_fp8_d128_causal_takes().map_values(
                |r: Role|
                    match r {
                        Role::Query => Arg::Address(p.q),
                        Role::Key => Arg::Address(p.k),
                        Role::Value => Arg::Address(p.v),
                        Role::Output => Arg::Address(p.o),
                        Role::SeqQ => Arg::Word(p.seq_q),
                        Role::SeqKv => Arg::Word(p.seq_kv),
                        Role::NumHeads => Arg::Word(p.num_heads),
                        Role::Scale => Arg::Scalar(p.scale),
                        _ => Arg::Word(0),
                    },
            )
            &&& meaning::covers(l.grid.0, 16, p.seq_q as int)
            &&& l.grid.1 == p.num_heads as int
            &&& l.grid.2 == p.batch as int
            &&& l.block == (32int, 1int, 1int)
            &&& l.shared_mem == 0
            &&& l.opt_in is None
            &&& l.failure is None
            &&& l.tensor_maps.len() == 0
        },
{
    shape::lemma_ceil_div(p.seq_q as int, 16);
}

/// What the kernel `gemm_bf16_mma` takes, in order.
pub open spec fn gemm_bf16_mma_takes() -> Seq<Role> {
    seq![Role::Left, Role::Right, Role::Product, Role::Rows, Role::Columns, Role::Depth]
}

/// `launch_gemm_bf16_mma` launches its kernel exactly where the sizes of the request are right,
/// with every argument what its role asks for, on blocks that cover the result.
pub proof fn launch_gemm_bf16_mma_launches(p: SparkGemmParams)
    ensures
        launch::launch_gemm_bf16_mma_plan(p) matches Plan::Fail(f) ==> f is InvalidArgument,
        launch::launch_gemm_bf16_mma_plan(p) !is Undefined,
        launch::launch_gemm_bf16_mma_plan(p) is Launch <==> {
            &&& p.m as int != 0
            &&& p.n as int != 0
            &&& p.k as int != 0
            &&& p.m as int % 128 == 0
            &&& p.n as int % 64 == 0
            &&& p.m as int % 32 == 0
            &&& p.n as int % 32 == 0
            &&& p.k as int % 16 == 0
            &&& p.a != 0
            &&& p.b != 0
            &&& p.c != 0
        },
        launch::launch_gemm_bf16_mma_plan(p) matches Plan::Launch(l) ==> {
            &&& l.entry == "gemm_bf16_mma"@
            &&& l.kernel == "gemm_bf16_mma"@
            &&& l.args =~= gemm_bf16_mma_takes().map_values(
                |r: Role|
                    match r {
                        Role::Left => Arg::Address(p.a),
                        Role::Right => Arg::Address(p.b),
                        Role::Product => Arg::Address(p.c),
                        Role::Rows => Arg::Word(p.m),
                        Role::Columns => Arg::Word(p.n),
                        Role::Depth => Arg::Word(p.k),
                        _ => Arg::Word(0),
                    },
            )
            &&& l.grid.0 == p.n as int / 64
            &&& l.grid.1 == p.m as int / 128
            &&& l.grid.2 == 1
            &&& l.block == (128int, 1int, 1int)
            &&& l.shared_mem == 12288
            &&& l.opt_in is None
            &&& l.failure is None
            &&& l.tensor_maps.len() == 0
        },
{
}

/// What the kernel `gemm_fp8_mma` takes, in order.
pub open spec fn gemm_fp8_mma_takes() -> Seq<Role> {
    seq![Role::Left, Role::Right, Role::Product, Role::Rows, Role::Columns, Role::Depth]
}

/// `launch_gemm_fp8_mma` launches its kernel exactly where the sizes of the request are right,
/// with every argument what its role asks for, on blocks that cover the result.
pub proof fn launch_gemm_fp8_mma_launches(p: SparkGemmParams)
    ensures
        launch::launch_gemm_fp8_mma_plan(p) matches Plan::Fail(f) ==> f is InvalidArgument,
        launch::launch_gemm_fp8_mma_plan(p) !is Undefined,
        launch::launch_gemm_fp8_mma_plan(p) is Launch <==> {
            &&& p.m as int != 0
            &&& p.n as int != 0
            &&& p.k as int != 0
            &&& p.m as int % 32 == 0
            &&& p.n as int % 32 == 0
            &&& p.k as int % 32 == 0
            &&& p.a != 0
            &&& p.b != 0
            &&& p.c != 0
        },
        launch::launch_gemm_fp8_mma_plan(p) matches Plan::Launch(l) ==> {
            &&& l.entry == "gemm_fp8_mma"@
            &&& l.kernel == "gemm_fp8_mma"@
            &&& l.args =~= gemm_fp8_mma_takes().map_values(
                |r: Role|
                    match r {
                        Role::Left => Arg::Address(p.a),
                        Role::Right => Arg::Address(p.b),
                        Role::Product => Arg::Address(p.c),
                        Role::Rows => Arg::Word(p.m),
                        Role::Columns => Arg::Word(p.n),
                        Role::Depth => Arg::Word(p.k),
                        _ => Arg::Word(0),
                    },
            )
            &&& meaning::covers(l.grid.0, 32, p.n as int)
            &&& meaning::covers(l.grid.1, 32, p.m as int)
            &&& l.grid.2 == 1
            &&& l.block == (32int, 1int, 1int)
            &&& l.shared_mem == 2048
            &&& l.opt_in is None
            &&& l.failure is None
            &&& l.tensor_maps.len() == 0
        },
{
    shape::lemma_ceil_div(p.n as int, 32);
    shape::lemma_ceil_div(p.m as int, 32);
}

/// What the kernel `topk_sampling` takes, in order.
pub open spec fn topk_sampling_takes() -> Seq<Role> {
    seq![
        Role::Logits, Role::Indices, Role::Values, Role::VocabSize, Role::Depth,
        Role::Temperature,
    ]
}

/// `launch_topk` launches its kernel exactly where the sizes of the request are right, with every
/// argument what its role asks for, on blocks that cover the result.
pub proof fn launch_topk_launches(p: SparkTopkParams)
    ensures
        launch::launch_topk_plan(p) matches Plan::Fail(f) ==> f is InvalidArgument,
        launch::launch_topk_plan(p) !is Undefined,
        launch::launch_topk_plan(p) is Launch <==> {
            &&& p.batch_size != 0
            &&& p.vocab_size != 0
            &&& p.k != 0
            &&& p.logits != 0
            &&& p.indices != 0
            &&& p.values != 0
        },
        launch::launch_topk_plan(p) matches Plan::Launch(l) ==> {
            &&& l.entry == "topk_sampling"@
            &&& l.kernel == "topk_sampling"@
            &&& l.args =~= topk_sampling_takes().map_values(
                |r: Role|
                    match r {
                        Role::Logits => Arg::Address(p.logits),
                        Role::Indices => Arg::Address(p.indices),
                        Role::Values => Arg::Address(p.values),
                        Role::VocabSize => Arg::Word(p.vocab_size),
                        Role::Depth => Arg::Word(p.k),
                        Role::Temperature => Arg::Scalar(p.temperature),
                        _ => Arg::Word(0),
                    },
            )
            &&& l.grid.0 == p.batch_size as int
            &&& l.grid.1 == 1
            &&& l.grid.2 == 1
            &&& l.block == (256int, 1int, 1int)
            &&& l.shared_mem == 0
            &&& l.opt_in is None
            &&& l.failure is None
            &&& l.tensor_maps.len() == 0
        },
{
}

/// What the kernel `moe_routing` takes, in order.
pub open spec fn moe_routing_takes() -> Seq<Role> {
    seq![
        Role::Logits, Role::ExpertIds, Role::Weights, Role::NumTokens, Role::NumExperts,
        Role::TopK,
    ]
}

/// `launch_moe` launches its kernel exactly where the sizes of the request are right, with every
/// argument what its role asks for, on blocks that cover the result.
pub proof fn launch_moe_launches(p: SparkMoeRoutingParams)
    ensures
        launch::launch_moe_plan(p) matches Plan::Fail(f) ==> f is InvalidArgument,
        launch::launch_moe_plan(p) !is Undefined,
        launch::launch_moe_plan(p) is Launch <==> {
            &&& p.num_tokens != 0
            &&& p.num_experts != 0
            &&& p.top_k != 0
            &&& p.top_k <= p.num_experts
            &&& p.logits != 0
            &&& p.expert_ids != 0
            &&& p.weights != 0
        },
        launch::launch_moe_plan(p) matches Plan::Launch(l) ==> {
            &&& l.entry == "moe_routing"@
            &&& l.kernel == "moe_routing"@
            &&& l.args =~= moe_routing_takes().map_values(
                |r: Role|
                    match r {
                        Role::Logits => Arg::Address(p.logits),
                        Role::ExpertIds => Arg::Address(p.expert_ids),
                        Role::Weights => Arg::Address(p.weights),
                        Role::NumTokens => Arg::Word(p.num_tokens),
                        Role::NumExperts => Arg::Word(p.num_experts),
                        Role::TopK => Arg::Word(p.top_k),
                        _ => Arg::Word(0),
                    },
            )
            &&& l.grid.0 == p.num_tokens as int
            &&& l.grid.1 == 1
            &&& l.grid.2 == 1
            &&& l.block == (32int, 1int, 1int)
            &&& l.shared_mem == 0
            &&& l.opt_in is None
            &&& l.failure is None
            &&& l.tensor_maps.len() == 0
        },
{
}

/// What the kernel `rmsnorm_bf16` takes, in order.
pub open spec fn rmsnorm_bf16_takes() -> Seq<Role> {
    seq![Role::Input, Role::Out, Role::Weight, Role::HiddenDim, Role::Eps]
}

/// `launch_rmsnorm` launches its kernel exactly where the sizes of the request are right, with
/// every argument what its role asks for, on blocks that cover the result.
pub proof fn launch_rmsnorm_launches(p: SparkRmsNormParams)
    ensures
        launch::launch_rmsnorm_plan(p) matches Plan::Fail(f) ==> f is InvalidArgument,
        launch::launch_rmsnorm_plan(p) !is Undefined,
        launch::launch_rmsnorm_plan(p) is Launch <==> {
            &&& p.hidden_dim != 0
            &&& p.num_rows != 0
            &&& p.x != 0
            &&& p.out != 0
            &&& p.weight != 0
        },
        launch::launch_rmsnorm_plan(p) matches Plan::Launch(l) ==> {
            &&& l.entry == "rmsnorm_bf16"@
            &&& l.kernel == "rmsnorm_bf16"@
            &&& l.args =~= rmsnorm_bf16_takes().map_values(
                |r: Role|
                    match r {
                        Role::Input => Arg::Address(p.x),
                        Role::Out => Arg::Address(p.out),
                        Role::Weight => Arg::Address(p.weight),
                        Role::HiddenDim => Arg::Word(p.hidden_dim),
                        Role::Eps => Arg::Scalar(p.eps),
                        _ => Arg::Word(0),
                    },
            )
            &&& l.grid.0 == p.num_rows as int
            &&& l.grid.1 == 1
            &&& l.grid.2 == 1
            &&& l.block == (256int, 1int, 1int)
            &&& l.shared_mem == 0
            &&& l.opt_in is None
            &&& l.failure is None
            &&& l.tensor_maps.len() == 0
        },
{
}

/// What the kernel `rope_bf16` takes, in order.
pub open spec fn rope_bf16_takes() -> Seq<Role> {
    seq![
        Role::Input, Role::CosCache, Role::SinCache, Role::SeqLen, Role::Heads, Role::Dim,
        Role::Pairs,
    ]
}

/// `launch_rope` launches its kernel exactly where the sizes of the request are right, with every
/// argument what its role asks for, on blocks that cover the result.
pub proof fn launch_rope_launches(p: SparkRopeParams)
    ensures
        launch::launch_rope_plan(p) matches Plan::Fail(f) ==> f is InvalidArgument,
        launch::launch_rope_plan(p) is Launch <==> {
            &&& p.batch != 0
            &&& p.seq_len != 0
            &&& p.heads != 0
            &&& p.dim != 0
            &&& p.dim as int % 2 == 0
            &&& p.dim / 2 <= 1024
            &&& p.x != 0
            &&& p.cos_cache != 0
            &&& p.sin_cache != 0
            &&& p.batch * p.seq_len <= u32::MAX
            &&& p.batch * p.seq_len * p.heads <= u32::MAX
        },
        launch::launch_rope_plan(p) matches Plan::Launch(l) ==> {
            &&& l.entry == "rope_bf16"@
            &&& l.kernel == "rope_bf16"@
            &&& l.args =~= rope_bf16_takes().map_values(
                |r: Role|
                    match r {
                        Role::Input => Arg::Address(p.x),
                        Role::CosCache => Arg::Address(p.cos_cache),
                        Role::SinCache => Arg::Address(p.sin_cache),
                        Role::SeqLen => Arg::Word(p.seq_len),
                        Role::Heads => Arg::Word(p.heads),
                        Role::Dim => Arg::Word(p.dim),
                        Role::Pairs => Arg::word(p.dim as int / 2),
                        _ => Arg::Word(0),
                    },
            )
            &&& l.grid.0 == p.batch * p.seq_len * p.heads
            &&& l.grid.1 == 1
            &&& l.grid.2 == 1
            &&& l.block == (p.dim as int / 2, 1int, 1int)
            &&& l.shared_mem == 0
            &&& l.opt_in is None
            &&& l.failure is None
            &&& l.tensor_maps.len() == 0
        },
{
}

/// What the kernel `gemm_nvfp4_mma` takes, in order.
pub open spec fn gemm_nvfp4_mma_takes() -> Seq<Role> {
    seq![
        Role::Left, Role::Right, Role::Product, Role::ScaleA, Role::ScaleB, Role::Rows,
        Role::Columns, Role::Depth,
    ]
}

/// `launch_gemm_nvfp4` launches its kernel exactly where the sizes of the request are right, with
/// every argument what its role asks for, on blocks that cover the result.
pub proof fn launch_gemm_nvfp4_launches(p: SparkNvfp4GemmParams)
    ensures
        launch::launch_gemm_nvfp4_plan(p) matches Plan::Fail(f) ==> f is InvalidArgument,
        launch::launch_gemm_nvfp4_plan(p) !is Undefined,
        launch::launch_gemm_nvfp4_plan(p) is Launch <==> {
            &&& p.m as int != 0
            &&& p.n as int != 0
            &&& p.k as int != 0
            &&& p.m as int % 32 == 0
            &&& p.n as int % 32 == 0
            &&& p.k as int % 64 == 0
            &&& p.a != 0
            &&& p.b != 0
            &&& p.c != 0
            &&& p.scale_a != 0
            &&& p.scale_b != 0
        },
        launch::launch_gemm_nvfp4_plan(p) matches Plan::Launch(l) ==> {
            &&& l.entry == "gemm_nvfp4_mma"@
            &&& l.kernel == "gemm_nvfp4_mma"@
            &&& l.args =~= gemm_nvfp4_mma_takes().map_values(
                |r: Role|
                    match r {
                        Role::Left => Arg::Address(p.a),
                        Role::Right => Arg::Address(p.b),
                        Role::Product => Arg::Address(p.c),
                        Role::ScaleA => Arg::Address(p.scale_a),
                        Role::ScaleB => Arg::Address(p.scale_b),
                        Role::Rows => Arg::Word(p.m),
                        Role::Columns => Arg::Word(p.n),
                        Role::Depth => Arg::Word(p.k),
                        _ => Arg::Word(0),
                    },
            )
            &&& meaning::covers(l.grid.0, 32, p.n as int)
            &&& meaning::covers(l.grid.1, 32, p.m as int)
            &&& l.grid.2 == 1
            &&& l.block == (32int, 1int, 1int)
            &&& l.shared_mem == 2048
            &&& l.opt_in is None
            &&& l.failure is None
            &&& l.tensor_maps.len() == 0
        },
{
    shape::lemma_ceil_div(p.n as int, 32);
    shape::lemma_ceil_div(p.m as int, 32);
}

/// What the kernel `gemm_w4a16_mma` takes, in order.
pub open spec fn gemm_w4a16_mma_takes() -> Seq<Role> {
    seq![
        Role::Left, Role::Weight, Role::Product, Role::Scales, Role::Zeros, Role::Rows,
        Role::Columns, Role::Depth,
    ]
}

/// `launch_gemm_w4a16` launches its kernel exactly where the sizes of the request are right, with
/// every argument what its role asks for, on blocks that cover the result.
pub proof fn launch_gemm_w4a16_launches(p: SparkW4a16GemmParams)
    ensures
        launch::launch_gemm_w4a16_plan(p) matches Plan::Fail(f) ==> f is InvalidArgument,
        launch::launch_gemm_w4a16_plan(p) !is Undefined,
        launch::launch_gemm_w4a16_plan(p) is Launch <==> {
            &&& p.m as int != 0
            &&& p.n as int != 0
            &&& p.k as int != 0
            &&& p.m as int % 32 == 0
            &&& p.n as int % 32 == 0
            &&& p.k as int % 16 == 0
            &&& p.a != 0
            &&& p.w != 0
            &&& p.c != 0
            &&& p.scales != 0
            &&& p.zeros != 0
        },
        launch::launch_gemm_w4a16_plan(p) matches Plan::Launch(l) ==> {
            &&& l.entry == "gemm_w4a16_mma"@
            &&& l.kernel == "gemm_w4a16_mma"@
            &&& l.args =~= gemm_w4a16_mma_takes().map_values(
                |r: Role|
                    match r {
                        Role::Left => Arg::Address(p.a),
                        Role::Weight => Arg::Address(p.w),
                        Role::Product => Arg::Address(p.c),
                        Role::Scales => Arg::Address(p.scales),
                        Role::Zeros => Arg::Address(p.zeros),
                        Role::Rows => Arg::Word(p.m),
                        Role::Columns => Arg::Word(p.n),
                        Role::Depth => Arg::Word(p.k),
                        _ => Arg::Word(0),
                    },
            )
            &&& meaning::covers(l.grid.0, 32, p.n as int)
            &&& meaning::covers(l.grid.1, 32, p.m as int)
            &&& l.grid.2 == 1
            &&& l.block == (32int, 1int, 1int)
            &&& l.shared_mem == 2176
            &&& l.opt_in is None
            &&& l.failure is None
            &&& l.tensor_maps.len() == 0
        },
{
    shape::lemma_ceil_div(p.n as int, 32);
    shape::lemma_ceil_div(p.m as int, 32);
}

/// `launch_fa_bf16_varlen` launches its kernel exactly where the sizes of the request are right,
/// with every argument what its role asks for, on blocks that cover the result.
pub proof fn launch_fa_bf16_varlen_launches(p: SparkVarlenFlashAttnParams)
    ensures
        launch::launch_fa_bf16_varlen_plan(p) matches Plan::Fail(f) ==> f is InvalidArgument,
        launch::launch_fa_bf16_varlen_plan(p) !is Undefined,
        launch::launch_fa_bf16_varlen_plan(p) is Launch <==> {
            &&& p.batch != 0
            &&& p.num_heads != 0
            &&& p.max_seqlen_q != 0
            &&& p.q != 0
            &&& p.k != 0
            &&& p.v != 0
            &&& p.o != 0
            &&& p.cu_seqlens_q != 0
            &&& p.cu_seqlens_k != 0
        },
        launch::launch_fa_bf16_varlen_plan(p) matches Plan::Launch(l) ==> {
            &&& l.entry == "flash_attn_bf16_varlen_d128"@
            &&& l.kernel == "fa_bf16_varlen_d128"@
            &&& l.args =~= attention_dense::flash_attn_bf16_varlen_d128_takes().map_values(
                |r: Role|
                    match r {
                        Role::Query => Arg::Address(p.q),
                        Role::Key => Arg::Address(p.k),
                        Role::Value => Arg::Address(p.v),
                        Role::Output => Arg::Address(p.o),
                        Role::CuSeqlensQ => Arg::Address(p.cu_seqlens_q),
                        Role::CuSeqlensK => Arg::Address(p.cu_seqlens_k),
                        Role::NumHeads => Arg::Word(p.num_heads),
                        Role::MaxSeqlenQ => Arg::Word(p.max_seqlen_q),
                        Role::Scale => Arg::Scalar(p.scale),
                        _ => Arg::Word(0),
                    },
            )
            &&& meaning::covers(l.grid.0, 16, p.max_seqlen_q as int)
            &&& l.grid.1 == p.num_heads as int
            &&& l.grid.2 == p.batch as int
            &&& l.block == (32int, 1int, 1int)
            &&& l.shared_mem == 18432
            &&& l.opt_in is None
            &&& l.failure is None
            &&& l.tensor_maps.len() == 0
        },
{
    shape::lemma_ceil_div(p.max_seqlen_q as int, 16);
}

/// What the kernel `launch_activation` takes, in order.
pub open spec fn launch_activation_takes() -> Seq<Role> {
    seq![Role::Input, Role::Out, Role::TotalOutElems, Role::Width]
}

/// `launch_activation` launches its kernel exactly where the sizes of the request are right, with
/// every argument what its role asks for, on blocks that cover the result.
pub proof fn launch_activation_launches(p: SparkActivationParams)
    ensures
        launch::launch_activation_plan(p) matches Plan::Fail(f) ==> f is InvalidArgument,
        launch::launch_activation_plan(p) !is Undefined,
        launch::launch_activation_plan(p) is Launch <==> {
            &&& p.total_out_elems != 0
            &&& p.d != 0
            &&& p.input != 0
            &&& p.out != 0
        },
        launch::launch_activation_plan(p) matches Plan::Launch(l) ==> {
            &&& p.activation is SiluMul ==> l.entry == "silu_mul_bf16"@
            &&& p.activation is GeluMul ==> l.entry == "gelu_mul_bf16"@
            &&& p.activation is GeluTanhMul ==> l.entry == "gelu_tanh_mul_bf16"@
            &&& l.kernel == l.entry
            &&& l.args =~= launch_activation_takes().map_values(
                |r: Role|
                    match r {
                        Role::Input => Arg::Address(p.input),
                        Role::Out => Arg::Address(p.out),
                        Role::TotalOutElems => Arg::Word(p.total_out_elems),
                        Role::Width => Arg::Word(p.d),
                        _ => Arg::Word(0),
                    },
            )
            &&& meaning::covers(l.grid.0, 256, p.total_out_elems as int)
            &&& l.grid.1 == 1
            &&& l.grid.2 == 1
            &&& l.block == (256int, 1int, 1int)
            &&& l.shared_mem == 0
            &&& l.opt_in is None
            &&& l.failure is None
            &&& l.tensor_maps.len() == 0
        },
{
    shape::lemma_ceil_div(p.total_out_elems as int, 256);
}

} // verus!
