//! Attention against paged caches and in splits of the keys.
use crate::error::Result;
use crate::plan::{Arg, F32, Launch, Plan};
use crate::plan;
use crate::shape;
use crate::text::Text;
use vstd::prelude::*;

verus! {

/// The answer of [`flash_attn_bf16_v3_paged_kv`].
pub open spec fn flash_attn_bf16_v3_paged_kv_plan(
    q_len: int, k_len: int, v_len: int, o_len: int, page_table_len: int, batch: int, num_heads: int,
    num_kv_heads: int, seq_q: int, seq_kv: int, page_size: int, max_pages: int, scale: F32,
) -> Plan {
    let grid_x = shape::ceil_div(seq_q, 128);
    if batch == 0 || num_heads == 0 || seq_q == 0 || seq_kv == 0 {
        Plan::invalid("zero dimension"@)
    } else if !shape::divides(num_kv_heads, num_heads) {
        Plan::invalid("num_heads must be divisible by num_kv_heads"@)
    } else {
        Plan::launch(
            "fa_bf16_v3_paged_kv"@,
            "flash_attn_bf16_v3_paged_kv"@,
            (grid_x, num_heads, batch),
            (256, 1, 1),
            0,
            seq![
                Arg::buffer(0), Arg::buffer(1), Arg::buffer(2), Arg::buffer(3), Arg::buffer(4),
                Arg::word(seq_q), Arg::word(seq_kv), Arg::word(num_heads), Arg::word(num_kv_heads),
                Arg::word(page_size), Arg::word(max_pages), Arg::Scalar(scale),
            ],
        )
    }
}

/// V3 architecture: 8 warps (256 threads), all threads load cooperatively.
/// No warp specialization. Q/K/V use raw pointers (no TMA).
/// K/V in paged layout: [num_pages, page_size, num_kv_heads, D] bf16.
/// Page table: [B, max_pages] u32.
pub fn flash_attn_bf16_v3_paged_kv(
    q_len: usize,
    k_len: usize,
    v_len: usize,
    o_len: usize,
    page_table_len: usize,
    batch: u32,
    num_heads: u32,
    num_kv_heads: u32,
    seq_q: u32,
    seq_kv: u32,
    page_size: u32,
    max_pages: u32,
    scale: F32,
) -> (r: Result<Launch>)
    ensures
        plan::outcome(r) == flash_attn_bf16_v3_paged_kv_plan(
            q_len as int, k_len as int, v_len as int, o_len as int, page_table_len as int,
            batch as int, num_heads as int, num_kv_heads as int, seq_q as int, seq_kv as int,
            page_size as int, max_pages as int, scale,
        ),
        plan::launchable(r, 5),
{
    if batch == 0 || num_heads == 0 || seq_q == 0 || seq_kv == 0 {
        return Text::new("zero dimension").refuse();
    }
    if !num_heads.is_multiple_of(num_kv_heads) {
        return Text::new("num_heads must be divisible by num_kv_heads").refuse();
    }
    let grid_x: u32 = shape::div_ceil(seq_q, 128);
    Ok(
        Launch::new(
            "fa_bf16_v3_paged_kv",
            "flash_attn_bf16_v3_paged_kv",
            (grid_x, num_heads, batch),
            (256, 1, 1),
            0,
            vec![
                Arg::param(0), Arg::param(1), Arg::param(2), Arg::param(3), Arg::param(4),
                Arg::Word(seq_q), Arg::Word(seq_kv), Arg::Word(num_heads), Arg::Word(num_kv_heads),
                Arg::Word(page_size), Arg::Word(max_pages), Arg::Scalar(scale),
            ],
        ),
    )
}

/// The answer of [`flash_attn_bf16_v3_paged_kv_causal`].
pub open spec fn flash_attn_bf16_v3_paged_kv_causal_plan(
    q_len: int, k_len: int, v_len: int, o_len: int, page_table_len: int, batch: int, num_heads: int,
    num_kv_heads: int, seq_q: int, seq_kv: int, page_size: int, max_pages: int, scale: F32,
) -> Plan {
    let grid_x = shape::ceil_div(seq_q, 128);
    if batch == 0 || num_heads == 0 || seq_q == 0 || seq_kv == 0 {
        Plan::invalid("zero dimension"@)
    } else if !shape::divides(num_kv_heads, num_heads) {
        Plan::invalid("num_heads must be divisible by num_kv_heads"@)
    } else {
        Plan::launch(
            "fa_bf16_v3_paged_kv_causal"@,
            "flash_attn_bf16_v3_paged_kv_causal"@,
            (grid_x, num_heads, batch),
            (256, 1, 1),
            0,
            seq![
                Arg::buffer(0), Arg::buffer(1), Arg::buffer(2), Arg::buffer(3), Arg::buffer(4),
                Arg::word(seq_q), Arg::word(seq_kv), Arg::word(num_heads), Arg::word(num_kv_heads),
                Arg::word(page_size), Arg::word(max_pages), Arg::Scalar(scale),
            ],
        )
    }
}

/// Launch BF16 Flash Attention V3 with paged KV cache (causal).
pub fn flash_attn_bf16_v3_paged_kv_causal(
    q_len: usize,
    k_len: usize,
    v_len: usize,
    o_len: usize,
    page_table_len: usize,
    batch: u32,
    num_heads: u32,
    num_kv_heads: u32,
    seq_q: u32,
    seq_kv: u32,
    page_size: u32,
    max_pages: u32,
    scale: F32,
) -> (r: Result<Launch>)
    ensures
        plan::outcome(r) == flash_attn_bf16_v3_paged_kv_causal_plan(
            q_len as int, k_len as int, v_len as int, o_len as int, page_table_len as int,
            batch as int, num_heads as int, num_kv_heads as int, seq_q as int, seq_kv as int,
            page_size as int, max_pages as int, scale,
        ),
        plan::launchable(r, 5),
{
    if batch == 0 || num_heads == 0 || seq_q == 0 || seq_kv == 0 {
        return Text::new("zero dimension").refuse();
    }
    if !num_heads.is_multiple_of(num_kv_heads) {
        return Text::new("num_heads must be divisible by num_kv_heads").refuse();
    }
    let grid_x: u32 = shape::div_ceil(seq_q, 128);
    Ok(
        Launch::new(
            "fa_bf16_v3_paged_kv_causal",
            "flash_attn_bf16_v3_paged_kv_causal",
            (grid_x, num_heads, batch),
            (256, 1, 1),
            0,
            vec![
                Arg::param(0), Arg::param(1), Arg::param(2), Arg::param(3), Arg::param(4),
                Arg::Word(seq_q), Arg::Word(seq_kv), Arg::Word(num_heads), Arg::Word(num_kv_heads),
                Arg::Word(page_size), Arg::Word(max_pages), Arg::Scalar(scale),
            ],
        ),
    )
}

/// The answer of [`flash_attn_bf16_v3_split_kv`].
pub open spec fn flash_attn_bf16_v3_split_kv_plan(
    q_len: int, k_len: int, v_len: int, o_partial_len: int, lse_partial_len: int, batch: int,
    num_heads: int, seq_q: int, seq_kv: int, scale: F32, num_splits: int, split_idx: int,
) -> Plan {
    let grid_x = shape::ceil_div(seq_q, 128);
    Plan::launch(
        "fa_bf16_v3_split_kv"@,
        "flash_attn_bf16_v3_split_kv"@,
        (grid_x, num_heads, batch),
        (256, 1, 1),
        0,
        seq![
            Arg::buffer(0), Arg::buffer(1), Arg::buffer(2), Arg::buffer(3), Arg::word(seq_q),
            Arg::word(seq_kv), Arg::word(num_heads), Arg::word(batch), Arg::Scalar(scale),
            Arg::buffer(4), Arg::word(num_splits), Arg::word(split_idx),
        ],
    )
}

/// Launch split-KV forward kernel (one split).
/// Writes FP32 partial O + LSE for this split's KV range.
pub fn flash_attn_bf16_v3_split_kv(
    q_len: usize,
    k_len: usize,
    v_len: usize,
    o_partial_len: usize,
    lse_partial_len: usize,
    batch: u32,
    num_heads: u32,
    seq_q: u32,
    seq_kv: u32,
    scale: F32,
    num_splits: u32,
    split_idx: u32,
) -> (r: Result<Launch>)
    ensures
        plan::outcome(r) == flash_attn_bf16_v3_split_kv_plan(
            q_len as int, k_len as int, v_len as int, o_partial_len as int, lse_partial_len as int,
            batch as int, num_heads as int, seq_q as int, seq_kv as int, scale, num_splits as int,
            split_idx as int,
        ),
        batch > 0 && num_heads > 0 && seq_q > 0 ==> plan::launchable(r, 5),
{
    let grid_x: u32 = shape::div_ceil(seq_q, 128);
    Ok(
        Launch::new(
            "fa_bf16_v3_split_kv",
            "flash_attn_bf16_v3_split_kv",
            (grid_x, num_heads, batch),
            (256, 1, 1),
            0,
            vec![
                Arg::param(0), Arg::param(1), Arg::param(2), Arg::param(3), Arg::Word(seq_q),
                Arg::Word(seq_kv), Arg::Word(num_heads), Arg::Word(batch), Arg::Scalar(scale),
                Arg::param(4), Arg::Word(num_splits), Arg::Word(split_idx),
            ],
        ),
    )
}

/// The answer of [`flash_decoding_combine`].
pub open spec fn flash_decoding_combine_plan(
    o_partial_len: int, lse_partial_len: int, o_len: int, batch: int, num_heads: int, seq_q: int,
    num_splits: int,
) -> Plan {
    Plan::launch(
        "flash_decoding_combine"@,
        "flash_decoding_combine"@,
        (seq_q, num_heads, batch),
        (128, 1, 1),
        0,
        seq![
            Arg::buffer(0), Arg::buffer(1), Arg::buffer(2), Arg::word(batch), Arg::word(num_heads),
            Arg::word(seq_q), Arg::word(num_splits),
        ],
    )
}

/// Launch FlashDecoding combine kernel.
/// Reduces split-KV partials to final BF16 output.
pub fn flash_decoding_combine(
    o_partial_len: usize,
    lse_partial_len: usize,
    o_len: usize,
    batch: u32,
    num_heads: u32,
    seq_q: u32,
    num_splits: u32,
) -> (r: Result<Launch>)
    ensures
        plan::outcome(r) == flash_decoding_combine_plan(
            o_partial_len as int, lse_partial_len as int, o_len as int, batch as int,
            num_heads as int, seq_q as int, num_splits as int,
        ),
        batch > 0 && num_heads > 0 && seq_q > 0 ==> plan::launchable(r, 3),
{
    Ok(
        Launch::new(
            "flash_decoding_combine",
            "flash_decoding_combine",
            (seq_q, num_heads, batch),
            (128, 1, 1),
            0,
            vec![
                Arg::param(0), Arg::param(1), Arg::param(2), Arg::Word(batch), Arg::Word(num_heads),
                Arg::Word(seq_q), Arg::Word(num_splits),
            ],
        ),
    )
}

/// The answer of [`flash_attn_fp8_v3_paged_kv`].
pub open spec fn flash_attn_fp8_v3_paged_kv_plan(
    q_len: int, k_len: int, v_len: int, o_len: int, page_table_len: int, batch: int, num_heads: int,
    num_kv_heads: int, seq_q: int, seq_kv: int, page_size: int, max_pages: int, scale: F32,
) -> Plan {
    let grid_x = shape::ceil_div(seq_q, 64);
    if batch == 0 || num_heads == 0 || seq_q == 0 || seq_kv == 0 {
        Plan::invalid("zero dimension"@)
    } else if !shape::divides(num_kv_heads, num_heads) {
        Plan::invalid("num_heads must be divisible by num_kv_heads"@)
    } else {
        Plan::launch(
            "fa_fp8_v3_paged_kv"@,
            "flash_attn_fp8_v3_paged_kv"@,
            (grid_x, num_heads, batch),
            (160, 1, 1),
            0,
            seq![
                Arg::buffer(0), Arg::buffer(1), Arg::buffer(2), Arg::buffer(3), Arg::buffer(4),
                Arg::word(seq_q), Arg::word(seq_kv), Arg::word(num_heads), Arg::word(num_kv_heads),
                Arg::word(page_size), Arg::word(max_pages), Arg::Scalar(scale),
            ],
        )
    }
}

/// Launch FP8 Flash Attention with paged KV cache.
/// V3 architecture: all-threads-load + bar.sync.
/// 160 threads (5 warps), Br=64, Bc=64, D=128.
pub fn flash_attn_fp8_v3_paged_kv(
    q_len: usize,
    k_len: usize,
    v_len: usize,
    o_len: usize,
    page_table_len: usize,
    batch: u32,
    num_heads: u32,
    num_kv_heads: u32,
    seq_q: u32,
    seq_kv: u32,
    page_size: u32,
    max_pages: u32,
    scale: F32,
) -> (r: Result<Launch>)
    ensures
        plan::outcome(r) == flash_attn_fp8_v3_paged_kv_plan(
            q_len as int, k_len as int, v_len as int, o_len as int, page_table_len as int,
            batch as int, num_heads as int, num_kv_heads as int, seq_q as int, seq_kv as int,
            page_size as int, max_pages as int, scale,
        ),
        plan::launchable(r, 5),
{
    if batch == 0 || num_heads == 0 || seq_q == 0 || seq_kv == 0 {
        return Text::new("zero dimension").refuse();
    }
    if !num_heads.is_multiple_of(num_kv_heads) {
        return Text::new("num_heads must be divisible by num_kv_heads").refuse();
    }
    let grid_x: u32 = shape::div_ceil(seq_q, 64);
    Ok(
        Launch::new(
            "fa_fp8_v3_paged_kv",
            "flash_attn_fp8_v3_paged_kv",
            (grid_x, num_heads, batch),
            (160, 1, 1),
            0,
            vec![
                Arg::param(0), Arg::param(1), Arg::param(2), Arg::param(3), Arg::param(4),
                Arg::Word(seq_q), Arg::Word(seq_kv), Arg::Word(num_heads), Arg::Word(num_kv_heads),
                Arg::Word(page_size), Arg::Word(max_pages), Arg::Scalar(scale),
            ],
        ),
    )
}

/// The answer of [`flash_attn_fp8_v3_paged_kv_causal`].
pub open spec fn flash_attn_fp8_v3_paged_kv_causal_plan(
    q_len: int, k_len: int, v_len: int, o_len: int, page_table_len: int, batch: int, num_heads: int,
    num_kv_heads: int, seq_q: int, seq_kv: int, page_size: int, max_pages: int, scale: F32,
) -> Plan {
    let grid_x = shape::ceil_div(seq_q, 128);
    Plan::launch(
        "fa_fp8_v3_paged_kv_causal"@,
        "flash_attn_fp8_v3_paged_kv_causal"@,
        (grid_x, num_heads, batch),
        (256, 1, 1),
        0,
        seq![
            Arg::buffer(0), Arg::buffer(1), Arg::buffer(2), Arg::buffer(3), Arg::buffer(4),
            Arg::word(seq_q), Arg::word(seq_kv), Arg::word(num_heads), Arg::word(num_kv_heads),
            Arg::word(page_size), Arg::word(max_pages), Arg::Scalar(scale),
        ],
    )
}

/// FP8 Paged KV cache + Causal flash attention (V3, 256 threads, BR=128).
pub fn flash_attn_fp8_v3_paged_kv_causal(
    q_len: usize,
    k_len: usize,
    v_len: usize,
    o_len: usize,
    page_table_len: usize,
    batch: u32,
    num_heads: u32,
    num_kv_heads: u32,
    seq_q: u32,
    seq_kv: u32,
    page_size: u32,
    max_pages: u32,
    scale: F32,
) -> (r: Result<Launch>)
    ensures
        plan::outcome(r) == flash_attn_fp8_v3_paged_kv_causal_plan(
            q_len as int, k_len as int, v_len as int, o_len as int, page_table_len as int,
            batch as int, num_heads as int, num_kv_heads as int, seq_q as int, seq_kv as int,
            page_size as int, max_pages as int, scale,
        ),
        batch > 0 && num_heads > 0 && seq_q > 0 ==> plan::launchable(r, 5),
{
    let grid_x: u32 = shape::div_ceil(seq_q, 128);
    Ok(
        Launch::new(
            "fa_fp8_v3_paged_kv_causal",
            "flash_attn_fp8_v3_paged_kv_causal",
            (grid_x, num_heads, batch),
            (256, 1, 1),
            0,
            vec![
                Arg::param(0), Arg::param(1), Arg::param(2), Arg::param(3), Arg::param(4),
                Arg::Word(seq_q), Arg::Word(seq_kv), Arg::Word(num_heads), Arg::Word(num_kv_heads),
                Arg::Word(page_size), Arg::Word(max_pages), Arg::Scalar(scale),
            ],
        ),
    )
}

/// The answer of [`flash_attn_bf16_v3_split_kv_causal`].
pub open spec fn flash_attn_bf16_v3_split_kv_causal_plan(
    q_len: int, k_len: int, v_len: int, o_partial_len: int, lse_partial_len: int, batch: int,
    num_heads: int, seq_q: int, seq_kv: int, scale: F32, num_splits: int, split_idx: int,
) -> Plan {
    let grid_x = shape::ceil_div(seq_q, 128);
    Plan::launch(
        "fa_bf16_v3_split_kv_causal"@,
        "flash_attn_bf16_v3_split_kv_causal"@,
        (grid_x, num_heads, batch),
        (256, 1, 1),
        0,
        seq![
            Arg::buffer(0), Arg::buffer(1), Arg::buffer(2), Arg::buffer(3), Arg::word(seq_q),
            Arg::word(seq_kv), Arg::word(num_heads), Arg::word(batch), Arg::Scalar(scale),
            Arg::buffer(4), Arg::word(num_splits), Arg::word(split_idx),
        ],
    )
}

/// Launch split-KV forward kernel (causal) for one split.
pub fn flash_attn_bf16_v3_split_kv_causal(
    q_len: usize,
    k_len: usize,
    v_len: usize,
    o_partial_len: usize,
    lse_partial_len: usize,
    batch: u32,
    num_heads: u32,
    seq_q: u32,
    seq_kv: u32,
    scale: F32,
    num_splits: u32,
    split_idx: u32,
) -> (r: Result<Launch>)
    ensures
        plan::outcome(r) == flash_attn_bf16_v3_split_kv_causal_plan(
            q_len as int, k_len as int, v_len as int, o_partial_len as int, lse_partial_len as int,
            batch as int, num_heads as int, seq_q as int, seq_kv as int, scale, num_splits as int,
            split_idx as int,
        ),
        batch > 0 && num_heads > 0 && seq_q > 0 ==> plan::launchable(r, 5),
{
    let grid_x: u32 = shape::div_ceil(seq_q, 128);
    Ok(
        Launch::new(
            "fa_bf16_v3_split_kv_causal",
            "flash_attn_bf16_v3_split_kv_causal",
            (grid_x, num_heads, batch),
            (256, 1, 1),
            0,
            vec![
                Arg::param(0), Arg::param(1), Arg::param(2), Arg::param(3), Arg::Word(seq_q),
                Arg::Word(seq_kv), Arg::Word(num_heads), Arg::Word(batch), Arg::Scalar(scale),
                Arg::param(4), Arg::Word(num_splits), Arg::Word(split_idx),
            ],
        ),
    )
}

/// The answer of [`flash_attn_bf16_v3_split_paged_kv`].
pub open spec fn flash_attn_bf16_v3_split_paged_kv_plan(
    q_len: int, k_len: int, v_len: int, o_partial_len: int, lse_partial_len: int,
    page_table_len: int, batch: int, num_heads: int, num_kv_heads: int, seq_q: int, seq_kv: int,
    page_size: int, max_pages: int, scale: F32, num_splits: int, split_idx: int,
) -> Plan {
    let grid_x = shape::ceil_div(seq_q, 128);
    Plan::launch(
        "fa_bf16_v3_split_paged_kv"@,
        "flash_attn_bf16_v3_split_paged_kv"@,
        (grid_x, num_heads, batch),
        (256, 1, 1),
        0,
        seq![
            Arg::buffer(0), Arg::buffer(1), Arg::buffer(2), Arg::buffer(3), Arg::buffer(5),
            Arg::word(seq_q), Arg::word(seq_kv), Arg::word(num_heads), Arg::word(num_kv_heads),
            Arg::word(page_size), Arg::word(max_pages), Arg::Scalar(scale), Arg::buffer(4),
            Arg::word(num_splits), Arg::word(split_idx), Arg::word(batch),
        ],
    )
}

/// Launch split-KV + paged KV forward kernel (one split).
pub fn flash_attn_bf16_v3_split_paged_kv(
    q_len: usize,
    k_len: usize,
    v_len: usize,
    o_partial_len: usize,
    lse_partial_len: usize,
    page_table_len: usize,
    batch: u32,
    num_heads: u32,
    num_kv_heads: u32,
    seq_q: u32,
    seq_kv: u32,
    page_size: u32,
    max_pages: u32,
    scale: F32,
    num_splits: u32,
    split_idx: u32,
) -> (r: Result<Launch>)
    ensures
        plan::outcome(r) == flash_attn_bf16_v3_split_paged_kv_plan(
            q_len as int, k_len as int, v_len as int, o_partial_len as int, lse_partial_len as int,
            page_table_len as int, batch as int, num_heads as int, num_kv_heads as int,
            seq_q as int, seq_kv as int, page_size as int, max_pages as int, scale,
            num_splits as int, split_idx as int,
        ),
        batch > 0 && num_heads > 0 && seq_q > 0 ==> plan::launchable(r, 6),
{
    let grid_x: u32 = shape::div_ceil(seq_q, 128);
    Ok(
        Launch::new(
            "fa_bf16_v3_split_paged_kv",
            "flash_attn_bf16_v3_split_paged_kv",
            (grid_x, num_heads, batch),
            (256, 1, 1),
            0,
            vec![
                Arg::param(0), Arg::param(1), Arg::param(2), Arg::param(3), Arg::param(5),
                Arg::Word(seq_q), Arg::Word(seq_kv), Arg::Word(num_heads), Arg::Word(num_kv_heads),
                Arg::Word(page_size), Arg::Word(max_pages), Arg::Scalar(scale), Arg::param(4),
                Arg::Word(num_splits), Arg::Word(split_idx), Arg::Word(batch),
            ],
        ),
    )
}

/// The answer of [`flash_attn_bf16_v3_split_paged_kv_causal`].
pub open spec fn flash_attn_bf16_v3_split_paged_kv_causal_plan(
    q_len: int, k_len: int, v_len: int, o_partial_len: int, lse_partial_len: int,
    page_table_len: int, batch: int, num_heads: int, num_kv_heads: int, seq_q: int, seq_kv: int,
    page_size: int, max_pages: int, scale: F32, num_splits: int, split_idx: int,
) -> Plan {
    let grid_x = shape::ceil_div(seq_q, 128);
    Plan::launch(
        "fa_bf16_v3_split_paged_kv_causal"@,
        "flash_attn_bf16_v3_split_paged_kv_causal"@,
        (grid_x, num_heads, batch),
        (256, 1, 1),
        0,
        seq![
            Arg::buffer(0), Arg::buffer(1), Arg::buffer(2), Arg::buffer(3), Arg::buffer(5),
            Arg::word(seq_q), Arg::word(seq_kv), Arg::word(num_heads), Arg::word(num_kv_heads),
            Arg::word(page_size), Arg::word(max_pages), Arg::Scalar(scale), Arg::buffer(4),
            Arg::word(num_splits), Arg::word(split_idx), Arg::word(batch),
        ],
    )
}

/// Split-KV + Paged KV cache + Causal flash attention (BF16, V3).
/// Same interface as split_paged_kv but with causal masking.
pub fn flash_attn_bf16_v3_split_paged_kv_causal(
    q_len: usize,
    k_len: usize,
    v_len: usize,
    o_partial_len: usize,
    lse_partial_len: usize,
    page_table_len: usize,
    batch: u32,
    num_heads: u32,
    num_kv_heads: u32,
    seq_q: u32,
    seq_kv: u32,
    page_size: u32,
    max_pages: u32,
    scale: F32,
    num_splits: u32,
    split_idx: u32,
) -> (r: Result<Launch>)
    ensures
        plan::outcome(r) == flash_attn_bf16_v3_split_paged_kv_causal_plan(
            q_len as int, k_len as int, v_len as int, o_partial_len as int, lse_partial_len as int,
            page_table_len as int, batch as int, num_heads as int, num_kv_heads as int,
            seq_q as int, seq_kv as int, page_size as int, max_pages as int, scale,
            num_splits as int, split_idx as int,
        ),
        batch > 0 && num_heads > 0 && seq_q > 0 ==> plan::launchable(r, 6),
{
    let grid_x: u32 = shape::div_ceil(seq_q, 128);
    Ok(
        Launch::new(
            "fa_bf16_v3_split_paged_kv_causal",
            "flash_attn_bf16_v3_split_paged_kv_causal",
            (grid_x, num_heads, batch),
            (256, 1, 1),
            0,
            vec![
                Arg::param(0), Arg::param(1), Arg::param(2), Arg::param(3), Arg::param(5),
                Arg::Word(seq_q), Arg::Word(seq_kv), Arg::Word(num_heads), Arg::Word(num_kv_heads),
                Arg::Word(page_size), Arg::Word(max_pages), Arg::Scalar(scale), Arg::param(4),
                Arg::Word(num_splits), Arg::Word(split_idx), Arg::Word(batch),
            ],
        ),
    )
}

/// The answer of [`flash_attn_fp8_v3_split_paged_kv`].
pub open spec fn flash_attn_fp8_v3_split_paged_kv_plan(
    q_len: int, k_len: int, v_len: int, o_partial_len: int, lse_partial_len: int,
    page_table_len: int, batch: int, num_heads: int, num_kv_heads: int, seq_q: int, seq_kv: int,
    page_size: int, max_pages: int, scale: F32, num_splits: int, split_idx: int,
) -> Plan {
    let grid_x = shape::ceil_div(seq_q, 128);
    Plan::launch(
        "fa_fp8_v3_split_paged_kv"@,
        "flash_attn_fp8_v3_split_paged_kv"@,
        (grid_x, num_heads, batch),
        (256, 1, 1),
        0,
        seq![
            Arg::buffer(0), Arg::buffer(1), Arg::buffer(2), Arg::buffer(3), Arg::buffer(5),
            Arg::word(seq_q), Arg::word(seq_kv), Arg::word(num_heads), Arg::word(num_kv_heads),
            Arg::word(page_size), Arg::word(max_pages), Arg::Scalar(scale), Arg::buffer(4),
            Arg::word(num_splits), Arg::word(split_idx), Arg::word(batch),
        ],
    )
}

/// FP8 Split-KV + Paged KV cache flash attention (V3, 256 threads, BR=128).
/// Writes FP32 partial O + LSE for FlashDecoding combine.
pub fn flash_attn_fp8_v3_split_paged_kv(
    q_len: usize,
    k_len: usize,
    v_len: usize,
    o_partial_len: usize,
    lse_partial_len: usize,
    page_table_len: usize,
    batch: u32,
    num_heads: u32,
    num_kv_heads: u32,
    seq_q: u32,
    seq_kv: u32,
    page_size: u32,
    max_pages: u32,
    scale: F32,
    num_splits: u32,
    split_idx: u32,
) -> (r: Result<Launch>)
    ensures
        plan::outcome(r) == flash_attn_fp8_v3_split_paged_kv_plan(
            q_len as int, k_len as int, v_len as int, o_partial_len as int, lse_partial_len as int,
            page_table_len as int, batch as int, num_heads as int, num_kv_heads as int,
            seq_q as int, seq_kv as int, page_size as int, max_pages as int, scale,
            num_splits as int, split_idx as int,
        ),
        batch > 0 && num_heads > 0 && seq_q > 0 ==> plan::launchable(r, 6),
{
    let grid_x: u32 = shape::div_ceil(seq_q, 128);
    Ok(
        Launch::new(
            "fa_fp8_v3_split_paged_kv",
            "flash_attn_fp8_v3_split_paged_kv",
            (grid_x, num_heads, batch),
            (256, 1, 1),
            0,
            vec![
                Arg::param(0), Arg::param(1), Arg::param(2), Arg::param(3), Arg::param(5),
                Arg::Word(seq_q), Arg::Word(seq_kv), Arg::Word(num_heads), Arg::Word(num_kv_heads),
                Arg::Word(page_size), Arg::Word(max_pages), Arg::Scalar(scale), Arg::param(4),
                Arg::Word(num_splits), Arg::Word(split_idx), Arg::Word(batch),
            ],
        ),
    )
}

/// The answer of [`flash_attn_fp8_v3_split_paged_kv_causal`].
pub open spec fn flash_attn_fp8_v3_split_paged_kv_causal_plan(
    q_len: int, k_len: int, v_len: int, o_partial_len: int, lse_partial_len: int,
    page_table_len: int, batch: int, num_heads: int, num_kv_heads: int, seq_q: int, seq_kv: int,
    page_size: int, max_pages: int, scale: F32, num_splits: int, split_idx: int,
) -> Plan {
    let grid_x = shape::ceil_div(seq_q, 128);
    Plan::launch(
        "fa_fp8_v3_split_paged_kv_causal"@,
        "flash_attn_fp8_v3_split_paged_kv_causal"@,
        (grid_x, num_heads, batch),
        (256, 1, 1),
        0,
        seq![
            Arg::buffer(0), Arg::buffer(1), Arg::buffer(2), Arg::buffer(3), Arg::buffer(5),
            Arg::word(seq_q), Arg::word(seq_kv), Arg::word(num_heads), Arg::word(num_kv_heads),
            Arg::word(page_size), Arg::word(max_pages), Arg::Scalar(scale), Arg::buffer(4),
            Arg::word(num_splits), Arg::word(split_idx), Arg::word(batch),
        ],
    )
}

/// FP8 Split-KV + Paged KV + Causal flash attention (V3, 256 threads, BR=128).
pub fn flash_attn_fp8_v3_split_paged_kv_causal(
    q_len: usize,
    k_len: usize,
    v_len: usize,
    o_partial_len: usize,
    lse_partial_len: usize,
    page_table_len: usize,
    batch: u32,
    num_heads: u32,
    num_kv_heads: u32,
    seq_q: u32,
    seq_kv: u32,
    page_size: u32,
    max_pages: u32,
    scale: F32,
    num_splits: u32,
    split_idx: u32,
) -> (r: Result<Launch>)
    ensures
        plan::outcome(r) == flash_attn_fp8_v3_split_paged_kv_causal_plan(
            q_len as int, k_len as int, v_len as int, o_partial_len as int, lse_partial_len as int,
            page_table_len as int, batch as int, num_heads as int, num_kv_heads as int,
            seq_q as int, seq_kv as int, page_size as int, max_pages as int, scale,
            num_splits as int, split_idx as int,
        ),
        batch > 0 && num_heads > 0 && seq_q > 0 ==> plan::launchable(r, 6),
{
    let grid_x: u32 = shape::div_ceil(seq_q, 128);
    Ok(
        Launch::new(
            "fa_fp8_v3_split_paged_kv_causal",
            "flash_attn_fp8_v3_split_paged_kv_causal",
            (grid_x, num_heads, batch),
            (256, 1, 1),
            0,
            vec![
                Arg::param(0), Arg::param(1), Arg::param(2), Arg::param(3), Arg::param(5),
                Arg::Word(seq_q), Arg::Word(seq_kv), Arg::Word(num_heads), Arg::Word(num_kv_heads),
                Arg::Word(page_size), Arg::Word(max_pages), Arg::Scalar(scale), Arg::param(4),
                Arg::Word(num_splits), Arg::Word(split_idx), Arg::Word(batch),
            ],
        ),
    )
}

} // verus!
