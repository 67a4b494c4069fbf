//! Attention with head dimension 256 and grouped key heads.
use crate::attention::dims;
use crate::error::Result;
use crate::plan::{Arg, F32, Launch, Plan};
use crate::plan;
use crate::shape;
use crate::text::Text;
use crate::text;
use vstd::prelude::*;

verus! {

/// The kernel and its entry point for grouped heads of dimension 256.
pub open spec fn d256_gqa_kernel(causal: bool) -> (Seq<char>, Seq<char>) {
    if causal {
        ("fa_bf16_v3_d256_gqa_causal"@, "flash_attn_bf16_v3_d256_gqa_causal"@)
    } else {
        ("fa_bf16_v3_d256_gqa"@, "flash_attn_bf16_v3_d256_gqa"@)
    }
}

/// The answer of [`flash_attn_bf16_v3_d256_gqa_inner`].
pub open spec fn flash_attn_bf16_v3_d256_gqa_inner_plan(
    q_len: int, k_len: int, v_len: int, o_len: int, batch: int, num_heads: int, num_heads_kv: int,
    seq_q: int, seq_kv: int, scale: F32, causal: bool, q_pos_offset: int,
) -> Plan {
    let q_need = batch * num_heads * seq_q * 256;
    let kv_need = batch * num_heads_kv * seq_kv * 256;
    if let Some(fault) = dims::attn_dims_fault(batch, num_heads, seq_q, seq_kv) {
        Plan::Fail(fault)
    } else if num_heads_kv == 0 || num_heads % num_heads_kv != 0 {
        Plan::invalid(
            "num_heads_kv ("@ + text::decimal(num_heads_kv) + ") must divide num_heads ("@
                + text::decimal(num_heads) + ")"@,
        )
    } else if q_need > u64::MAX || kv_need > u64::MAX {
        Plan::Undefined
    } else if q_len < q_need || k_len < kv_need || v_len < kv_need || o_len < q_need {
        Plan::invalid(
            "buffer too small for d=256 GQA (q="@ + text::decimal(q_len) + " k="@
                + text::decimal(k_len) + " v="@ + text::decimal(v_len) + " o="@
                + text::decimal(o_len) + " need q="@ + text::decimal(q_need) + " kv="@
                + text::decimal(kv_need) + ")"@,
        )
    } else {
        Plan::launch(
            d256_gqa_kernel(causal).0,
            d256_gqa_kernel(causal).1,
            (shape::ceil_div(seq_q, 128), num_heads, batch),
            (256, 1, 1),
            0,
            if causal {
                seq![
                    Arg::buffer(0), Arg::buffer(1), Arg::buffer(2), Arg::buffer(3),
                    Arg::word(seq_q), Arg::word(seq_kv), Arg::word(num_heads),
                    Arg::word(num_heads_kv), Arg::word(q_pos_offset), Arg::Scalar(scale),
                ]
            } else {
                seq![
                    Arg::buffer(0), Arg::buffer(1), Arg::buffer(2), Arg::buffer(3),
                    Arg::word(seq_q), Arg::word(seq_kv), Arg::word(num_heads),
                    Arg::word(num_heads_kv), Arg::Scalar(scale),
                ]
            },
        )
    }
}

/// BF16 attention with head dimension 256 and grouped key heads. The position offset of the
/// first query reaches the kernel only where the mask is causal.
pub fn flash_attn_bf16_v3_d256_gqa_inner(
    q_len: usize,
    k_len: usize,
    v_len: usize,
    o_len: usize,
    batch: u32,
    num_heads: u32,
    num_heads_kv: u32,
    seq_q: u32,
    seq_kv: u32,
    scale: F32,
    causal: bool,
    q_pos_offset: u32,
) -> (r: Result<Launch>)
    requires
        flash_attn_bf16_v3_d256_gqa_inner_plan(
            q_len as int, k_len as int, v_len as int, o_len as int, batch as int, num_heads as int,
            num_heads_kv as int, seq_q as int, seq_kv as int, scale, causal, q_pos_offset as int,
        ) !is Undefined,
    ensures
        plan::outcome(r) == flash_attn_bf16_v3_d256_gqa_inner_plan(
            q_len as int, k_len as int, v_len as int, o_len as int, batch as int, num_heads as int,
            num_heads_kv as int, seq_q as int, seq_kv as int, scale, causal, q_pos_offset as int,
        ),
        plan::launchable(r, 4),
{
    if let Err(e) = dims::validate_attn_dims(batch, num_heads, seq_q, seq_kv) {
        return Err(e);
    }
    if num_heads_kv == 0 || num_heads % num_heads_kv != 0 {
        return Text::new("num_heads_kv (").n(num_heads_kv as u64).s(") must divide num_heads (")
            .n(num_heads as u64).s(")").refuse();
    }
    let q_need: u64 = shape::product(batch, num_heads) * (seq_q as u64) * 256;
    let kv_need: u64 = shape::product(batch, num_heads_kv) * (seq_kv as u64) * 256;
    if (q_len as u64) < q_need
        || (k_len as u64) < kv_need
        || (v_len as u64) < kv_need
        || (o_len as u64) < q_need
    {
        return Text::new("buffer too small for d=256 GQA (q=").n(q_len as u64).s(" k=")
            .n(k_len as u64).s(" v=").n(v_len as u64).s(" o=").n(o_len as u64).s(" need q=")
            .n(q_need).s(" kv=").n(kv_need).s(")").refuse();
    }
    let grid = (shape::div_ceil(seq_q, 128), num_heads, batch);
    if causal {
        Ok(
            Launch::new(
                "fa_bf16_v3_d256_gqa_causal",
                "flash_attn_bf16_v3_d256_gqa_causal",
                grid,
                (256, 1, 1),
                0,
                vec![
                    Arg::param(0), Arg::param(1), Arg::param(2), Arg::param(3), Arg::Word(seq_q),
                    Arg::Word(seq_kv), Arg::Word(num_heads), Arg::Word(num_heads_kv),
                    Arg::Word(q_pos_offset), Arg::Scalar(scale),
                ],
            ),
        )
    } else {
        Ok(
            Launch::new(
                "fa_bf16_v3_d256_gqa",
                "flash_attn_bf16_v3_d256_gqa",
                grid,
                (256, 1, 1),
                0,
                vec![
                    Arg::param(0), Arg::param(1), Arg::param(2), Arg::param(3), Arg::Word(seq_q),
                    Arg::Word(seq_kv), Arg::Word(num_heads), Arg::Word(num_heads_kv),
                    Arg::Scalar(scale),
                ],
            ),
        )
    }
}

/// The answer of [`flash_attn_bf16_v3_d256_gqa`].
pub open spec fn flash_attn_bf16_v3_d256_gqa_plan(
    q_len: int, k_len: int, v_len: int, o_len: int, batch: int, num_heads: int, num_heads_kv: int,
    seq_q: int, seq_kv: int, scale: F32,
) -> Plan {
    flash_attn_bf16_v3_d256_gqa_inner_plan(
        q_len, k_len, v_len, o_len, batch, num_heads, num_heads_kv, seq_q, seq_kv, scale, false, 0,
    )
}

/// GQA variant of `flash_attn_bf16_v3_d256`. K/V have `num_heads_kv` heads; each Q
/// head q maps to head_kv = (q * num_heads_kv) / num_heads. Required for GDN-hybrid's
/// gated full-attention layers (16 Q heads, 2 KV heads, ratio 8).
pub fn flash_attn_bf16_v3_d256_gqa(
    q_len: usize,
    k_len: usize,
    v_len: usize,
    o_len: usize,
    batch: u32,
    num_heads: u32,
    num_heads_kv: u32,
    seq_q: u32,
    seq_kv: u32,
    scale: F32,
) -> (r: Result<Launch>)
    requires
        flash_attn_bf16_v3_d256_gqa_plan(
            q_len as int, k_len as int, v_len as int, o_len as int, batch as int, num_heads as int,
            num_heads_kv as int, seq_q as int, seq_kv as int, scale,
        ) !is Undefined,
    ensures
        plan::outcome(r) == flash_attn_bf16_v3_d256_gqa_plan(
            q_len as int, k_len as int, v_len as int, o_len as int, batch as int, num_heads as int,
            num_heads_kv as int, seq_q as int, seq_kv as int, scale,
        ),
        plan::launchable(r, 4),
{
    flash_attn_bf16_v3_d256_gqa_inner(
        q_len, k_len, v_len, o_len, batch, num_heads, num_heads_kv, seq_q, seq_kv, scale, false, 0,
    )
}

/// The answer of [`flash_attn_bf16_v3_d256_gqa_causal`].
pub open spec fn flash_attn_bf16_v3_d256_gqa_causal_plan(
    q_len: int, k_len: int, v_len: int, o_len: int, batch: int, num_heads: int, num_heads_kv: int,
    seq_q: int, seq_kv: int, scale: F32,
) -> Plan {
    flash_attn_bf16_v3_d256_gqa_inner_plan(
        q_len, k_len, v_len, o_len, batch, num_heads, num_heads_kv, seq_q, seq_kv, scale, true, 0,
    )
}

/// GQA + causal combined variant. `q_pos_offset` defaults to 0 (prefill); pass
/// `current_position` for decode (`seq_q=1`) so the causal mask gates the
/// correct KV positions even when current_seq isn't a multiple of BC=64.
pub fn flash_attn_bf16_v3_d256_gqa_causal(
    q_len: usize,
    k_len: usize,
    v_len: usize,
    o_len: usize,
    batch: u32,
    num_heads: u32,
    num_heads_kv: u32,
    seq_q: u32,
    seq_kv: u32,
    scale: F32,
) -> (r: Result<Launch>)
    requires
        flash_attn_bf16_v3_d256_gqa_causal_plan(
            q_len as int, k_len as int, v_len as int, o_len as int, batch as int, num_heads as int,
            num_heads_kv as int, seq_q as int, seq_kv as int, scale,
        ) !is Undefined,
    ensures
        plan::outcome(r) == flash_attn_bf16_v3_d256_gqa_causal_plan(
            q_len as int, k_len as int, v_len as int, o_len as int, batch as int, num_heads as int,
            num_heads_kv as int, seq_q as int, seq_kv as int, scale,
        ),
        plan::launchable(r, 4),
{
    flash_attn_bf16_v3_d256_gqa_inner(
        q_len, k_len, v_len, o_len, batch, num_heads, num_heads_kv, seq_q, seq_kv, scale, true, 0,
    )
}

/// The answer of [`flash_attn_bf16_v3_d256_gqa_causal_with_offset`].
pub open spec fn flash_attn_bf16_v3_d256_gqa_causal_with_offset_plan(
    q_len: int, k_len: int, v_len: int, o_len: int, batch: int, num_heads: int, num_heads_kv: int,
    seq_q: int, seq_kv: int, scale: F32, q_pos_offset: int,
) -> Plan {
    flash_attn_bf16_v3_d256_gqa_inner_plan(
        q_len, k_len, v_len, o_len, batch, num_heads, num_heads_kv, seq_q, seq_kv, scale, true,
        q_pos_offset,
    )
}

/// Causal BF16 flash attention (head_dim=256, GQA) where query row `i` is masked
/// against KV positions up to `q_pos_offset + i`. The offset places a chunk of
/// queries at an arbitrary start position, as needed for chunked prefill.
pub fn flash_attn_bf16_v3_d256_gqa_causal_with_offset(
    q_len: usize,
    k_len: usize,
    v_len: usize,
    o_len: usize,
    batch: u32,
    num_heads: u32,
    num_heads_kv: u32,
    seq_q: u32,
    seq_kv: u32,
    scale: F32,
    q_pos_offset: u32,
) -> (r: Result<Launch>)
    requires
        flash_attn_bf16_v3_d256_gqa_causal_with_offset_plan(
            q_len as int, k_len as int, v_len as int, o_len as int, batch as int, num_heads as int,
            num_heads_kv as int, seq_q as int, seq_kv as int, scale, q_pos_offset as int,
        ) !is Undefined,
    ensures
        plan::outcome(r) == flash_attn_bf16_v3_d256_gqa_causal_with_offset_plan(
            q_len as int, k_len as int, v_len as int, o_len as int, batch as int, num_heads as int,
            num_heads_kv as int, seq_q as int, seq_kv as int, scale, q_pos_offset as int,
        ),
        plan::launchable(r, 4),
{
    flash_attn_bf16_v3_d256_gqa_inner(
        q_len, k_len, v_len, o_len, batch, num_heads, num_heads_kv, seq_q, seq_kv, scale, true,
        q_pos_offset,
    )
}

/// Causal attention is causal attention whose first query stands at position zero.
pub proof fn causal_begins_at_zero(
    q_len: int, k_len: int, v_len: int, o_len: int, batch: int, num_heads: int, num_heads_kv: int,
    seq_q: int, seq_kv: int, scale: F32,
)
    ensures
        flash_attn_bf16_v3_d256_gqa_causal_plan(
            q_len, k_len, v_len, o_len, batch, num_heads, num_heads_kv, seq_q, seq_kv, scale,
        ) == flash_attn_bf16_v3_d256_gqa_causal_with_offset_plan(
            q_len, k_len, v_len, o_len, batch, num_heads, num_heads_kv, seq_q, seq_kv, scale, 0,
        ),
{
}

} // verus!
