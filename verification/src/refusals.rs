//! How requests are refused that take more than one step.
use crate::attention::backward;
use crate::attention::backward_laws;
use crate::attention::mla_auto;
use crate::gemm;
use crate::gemm::managed;
use crate::plan::F32;
use crate::program::{End, ProgramView};
use vstd::prelude::*;

verus! {

/// Whether a program fails for no other reason than that the request is invalid.
pub open spec fn fails_as_invalid(p: ProgramView) -> bool {
    p.end matches End::Fail(f) ==> f is InvalidArgument
}

/// `fa_fp8_mla_decode_auto` refuses what it cannot do as an invalid request.
pub proof fn fa_fp8_mla_decode_auto_refuses_as_invalid(
    q_c_fp8_len: int, q_r_fp8_len: int, c_kv_len: int, k_rope_len: int, o_len: int, batch: int,
    num_heads: int, seq_kv: int, scale: F32, q_scale: F32, kv_scale: F32,
)
    ensures
        fails_as_invalid(
            mla_auto::fa_fp8_mla_decode_auto_program(
                q_c_fp8_len, q_r_fp8_len, c_kv_len, k_rope_len, o_len, batch, num_heads, seq_kv,
                scale, q_scale, kv_scale,
            ),
        ),
{
}

/// `mla_decode_bf16_mma_split` refuses what it cannot do as an invalid request.
pub proof fn mla_decode_bf16_mma_split_refuses_as_invalid(
    q_c_len: int, q_r_len: int, c_kv_len: int, k_rope_len: int, o_len: int, batch: int,
    num_heads: int, seq_kv: int, num_splits: int, scale: F32,
)
    ensures
        fails_as_invalid(
            mla_auto::mla_decode_bf16_mma_split_program(
                q_c_len, q_r_len, c_kv_len, k_rope_len, o_len, batch, num_heads, seq_kv,
                num_splits, scale,
            ),
        ),
{
}

/// `mla_decode_bf16_auto_with_splits` refuses what it cannot do as an invalid request.
pub proof fn mla_decode_bf16_auto_with_splits_refuses_as_invalid(
    q_c_len: int, q_r_len: int, c_kv_len: int, k_rope_len: int, o_len: int, batch: int,
    num_heads: int, seq_kv: int, scale: F32, num_splits: Option<u32>,
)
    ensures
        fails_as_invalid(
            mla_auto::mla_decode_bf16_auto_with_splits_program(
                q_c_len, q_r_len, c_kv_len, k_rope_len, o_len, batch, num_heads, seq_kv, scale,
                num_splits,
            ),
        ),
{
}

/// `mla_decode_bf16_auto` refuses what it cannot do as an invalid request.
pub proof fn mla_decode_bf16_auto_refuses_as_invalid(
    q_c_len: int, q_r_len: int, c_kv_len: int, k_rope_len: int, o_len: int, batch: int,
    num_heads: int, seq_kv: int, scale: F32,
)
    ensures
        fails_as_invalid(
            mla_auto::mla_decode_bf16_auto_program(
                q_c_len, q_r_len, c_kv_len, k_rope_len, o_len, batch, num_heads, seq_kv, scale,
            ),
        ),
{
}

/// `gemv_w8a16_split_k_managed` refuses what it cannot do as an invalid request.
pub proof fn gemv_w8a16_split_k_managed_refuses_as_invalid(
    x_len: int, b_fp8_len: int, b_scale: F32, scratch_len: int, out_len: int, n: int, k: int,
    num_shards: int, deterministic: bool,
)
    ensures
        fails_as_invalid(
            managed::gemv_w8a16_split_k_managed_program(
                x_len, b_fp8_len, b_scale, scratch_len, out_len, n, k, num_shards, deterministic,
            ),
        ),
{
}

/// `gemv_w8a16_split_k_w16_managed` refuses what it cannot do as an invalid request.
pub proof fn gemv_w8a16_split_k_w16_managed_refuses_as_invalid(
    x_len: int, b_fp8_len: int, b_scale: F32, scratch_len: int, out_len: int, n: int, k: int,
    num_shards: int, deterministic: bool,
)
    ensures
        fails_as_invalid(
            managed::gemv_w8a16_split_k_w16_managed_program(
                x_len, b_fp8_len, b_scale, scratch_len, out_len, n, k, num_shards, deterministic,
            ),
        ),
{
}

/// `gemv_bf16_split_k_w16_managed` refuses what it cannot do as an invalid request.
pub proof fn gemv_bf16_split_k_w16_managed_refuses_as_invalid(
    x_len: int, b_len: int, scratch_len: int, out_len: int, n: int, k: int, num_shards: int,
)
    ensures
        fails_as_invalid(
            managed::gemv_bf16_split_k_w16_managed_program(
                x_len, b_len, scratch_len, out_len, n, k, num_shards,
            ),
        ),
{
}

/// `gemv_bf16_split_k_managed` refuses what it cannot do as an invalid request.
pub proof fn gemv_bf16_split_k_managed_refuses_as_invalid(
    x_len: int, b_len: int, scratch_len: int, out_len: int, n: int, k: int, num_shards: int,
    deterministic: bool,
)
    ensures
        fails_as_invalid(
            managed::gemv_bf16_split_k_managed_program(
                x_len, b_len, scratch_len, out_len, n, k, num_shards, deterministic,
            ),
        ),
{
}

/// `gemv_bf16_split_k_managed_view` refuses what it cannot do as an invalid request.
pub proof fn gemv_bf16_split_k_managed_view_refuses_as_invalid(
    x_len: int, b_len: int, scratch_len: int, out_len: int, n: int, k: int, num_shards: int,
)
    ensures
        fails_as_invalid(
            managed::gemv_bf16_split_k_managed_view_program(
                x_len, b_len, scratch_len, out_len, n, k, num_shards,
            ),
        ),
{
}

/// `gemv_bf16_split_k_v4_managed` refuses what it cannot do as an invalid request.
pub proof fn gemv_bf16_split_k_v4_managed_refuses_as_invalid(
    x_len: int, b_len: int, scratch_len: int, out_len: int, n: int, k: int, num_shards: int,
)
    ensures
        fails_as_invalid(
            managed::gemv_bf16_split_k_v4_managed_program(
                x_len, b_len, scratch_len, out_len, n, k, num_shards,
            ),
        ),
{
}

/// `gemm_bf16_split_k_det_managed` refuses what it cannot do as an invalid request.
pub proof fn gemm_bf16_split_k_det_managed_refuses_as_invalid(
    x_len: int, b_len: int, stage_len: int, out_len: int, n: int, k: int, m: int, num_shards:
    int,
)
    ensures
        fails_as_invalid(
            managed::gemm_bf16_split_k_det_managed_program(
                x_len, b_len, stage_len, out_len, n, k, m, num_shards,
            ),
        ),
{
}

/// `gemm_bf16_backward_dA_mma` refuses what it cannot do as an invalid request.
pub proof fn gemm_bf16_backward_dA_mma_refuses_as_invalid(
    dc_len: int, b_len: int, da_len: int, m: int, n: int, k: int,
)
    ensures
        fails_as_invalid(
            gemm::backward::gemm_bf16_backward_dA_mma_program(
                dc_len, b_len, da_len, m, n, k,
            ),
        ),
{
}

/// `gemm_bf16_backward_dB_mma` refuses what it cannot do as an invalid request.
pub proof fn gemm_bf16_backward_dB_mma_refuses_as_invalid(
    a_len: int, dc_len: int, db_len: int, m: int, n: int, k: int,
)
    ensures
        fails_as_invalid(
            gemm::backward::gemm_bf16_backward_dB_mma_program(
                a_len, dc_len, db_len, m, n, k,
            ),
        ),
{
}

/// `gemm_fp8_w8a16_backward_dA` refuses what it cannot do as an invalid request.
pub proof fn gemm_fp8_w8a16_backward_dA_refuses_as_invalid(
    dc_len: int, b_fp8_len: int, b_scale: F32, da_len: int, m: int, n: int, k: int,
)
    ensures
        fails_as_invalid(
            gemm::backward::gemm_fp8_w8a16_backward_dA_program(
                dc_len, b_fp8_len, b_scale, da_len, m, n, k,
            ),
        ),
{
}

/// `gemm_fp8_w8a16_backward_dB` refuses what it cannot do as an invalid request.
pub proof fn gemm_fp8_w8a16_backward_dB_refuses_as_invalid(
    a_len: int, dc_len: int, db_len: int, m: int, n: int, k: int,
)
    ensures
        fails_as_invalid(
            gemm::backward::gemm_fp8_w8a16_backward_dB_program(
                a_len, dc_len, db_len, m, n, k,
            ),
        ),
{
}

/// `flash_attn_backward_bf16` refuses what it cannot do as an invalid request.
pub proof fn flash_attn_backward_bf16_refuses_as_invalid(
    q_len: int, k_len: int, v_len: int, do_len: int, dq_len: int, dk_len: int, dv_len: int,
    batch: int, num_heads: int, seq: int, d: int, scale: F32, causal: bool,
)
    requires
        batch >= 0,
        num_heads >= 0,
        seq >= 0,
        d >= 0,
    ensures
        fails_as_invalid(
            backward::flash_attn_backward_bf16_program(
                q_len, k_len, v_len, do_len, dq_len, dk_len, dv_len, batch, num_heads, seq, d,
                scale, causal,
            ),
        ),
{
    let p = backward::backward_prologue(seq, causal);
    if batch > 0 && num_heads > 0 && seq > 0 && d > 0 {
        assert(batch * num_heads > 0) by (nonlinear_arith)
            requires
                batch > 0,
                num_heads > 0,
        ;
        backward_laws::lemma_heads_are_done(p, batch * num_heads, seq, d, scale, causal);
    }
}

/// `flash_attn_backward_bf16_gqa` refuses what it cannot do as an invalid request.
pub proof fn flash_attn_backward_bf16_gqa_refuses_as_invalid(
    q_len: int, k_len: int, v_len: int, do_len: int, dq_len: int, dk_len: int, dv_len: int,
    batch: int, num_heads: int, num_kv_heads: int, seq: int, d: int, scale: F32, causal: bool,
)
    requires
        batch >= 0,
        num_heads >= 0,
        seq >= 0,
        d >= 0,
    ensures
        fails_as_invalid(
            backward::flash_attn_backward_bf16_gqa_program(
                q_len, k_len, v_len, do_len, dq_len, dk_len, dv_len, batch, num_heads,
                num_kv_heads, seq, d, scale, causal,
            ),
        ),
{
    let p = backward::backward_prologue(seq, causal);
    if batch > 0 && num_heads > 0 && seq > 0 && d > 0 {
        assert(batch * num_heads > 0) by (nonlinear_arith)
            requires
                batch > 0,
                num_heads > 0,
        ;
        backward_laws::lemma_heads_are_done(p, batch * num_heads, seq, d, scale, causal);
    }
}

/// `flash_attn_backward_fp8kv_bf16` refuses what it cannot do as an invalid request.
pub proof fn flash_attn_backward_fp8kv_bf16_refuses_as_invalid(
    q_len: int, k_fp8_len: int, v_fp8_len: int, do_len: int, dq_len: int, dk_len: int, dv_len:
    int, batch: int, num_heads: int, seq: int, d: int, scale: F32, kv_scale: F32, causal: bool,
)
    requires
        batch >= 0,
        num_heads >= 0,
        seq >= 0,
        d >= 0,
    ensures
        fails_as_invalid(
            backward::flash_attn_backward_fp8kv_bf16_program(
                q_len, k_fp8_len, v_fp8_len, do_len, dq_len, dk_len, dv_len, batch, num_heads,
                seq, d, scale, kv_scale, causal,
            ),
        ),
{
    let p = backward::backward_prologue(seq, causal);
    if batch > 0 && num_heads > 0 && seq > 0 && d > 0 {
        assert(batch * num_heads > 0) by (nonlinear_arith)
            requires
                batch > 0,
                num_heads > 0,
        ;
        backward_laws::lemma_heads_are_done(p, batch * num_heads, seq, d, scale, causal);
    }
}

} // verus!
