//! Paged and contiguous KV-cache write/append kernels.
use crate::error::Result;
use crate::plan::{Arg, F32, Launch, Plan};
use crate::plan;
use crate::text::Text;
use crate::text;
use vstd::prelude::*;

verus! {

/// Per-head dimension that the paged cache kernels assume.
pub const KV_HEAD_DIM: u32 = 128;

/// The answer of [`kv_cache_fp8_write`].
pub open spec fn kv_cache_fp8_write_plan(
    new_k_len: int, new_v_len: int, k_cache_len: int, v_cache_len: int, page_indices_len: int,
    slot_in_page_len: int, batch: int, num_heads: int, page_size: int, k_scale: F32, v_scale: F32,
) -> Plan {
    if batch == 0 || num_heads == 0 || page_size == 0 {
        Plan::invalid("batch, num_heads, page_size must be > 0"@)
    } else {
        Plan::raw_launch(
            "kv_cache_fp8_write"@,
            "kv_cache_fp8_write"@,
            (num_heads, batch, 1),
            (32, 1, 1),
            0,
            Seq::empty(),
            seq![
                Arg::buffer(0), Arg::buffer(1), Arg::buffer(2), Arg::buffer(3), Arg::buffer(4),
                Arg::buffer(5), Arg::word(num_heads), Arg::word(page_size), Arg::Scalar(k_scale),
                Arg::Scalar(v_scale),
            ],
            None,
            "KV FP8 write launch: "@,
        )
    }
}

/// Fused BF16→FP8 quantization + paged KV-cache write.
/// Writes one new token's K/V for all batch×head pairs into a paged FP8 cache.
pub fn kv_cache_fp8_write(
    new_k_len: usize,
    new_v_len: usize,
    k_cache_len: usize,
    v_cache_len: usize,
    page_indices_len: usize,
    slot_in_page_len: usize,
    batch: u32,
    num_heads: u32,
    page_size: u32,
    k_scale: F32,
    v_scale: F32,
) -> (r: Result<Launch>)
    ensures
        plan::outcome(r) == kv_cache_fp8_write_plan(
            new_k_len as int, new_v_len as int, k_cache_len as int, v_cache_len as int,
            page_indices_len as int, slot_in_page_len as int, batch as int, num_heads as int,
            page_size as int, k_scale, v_scale,
        ),
        plan::launchable(r, 6),
{
    if batch == 0 || num_heads == 0 || page_size == 0 {
        return Text::new("batch, num_heads, page_size must be > 0").refuse();
    }
    Ok(
        Launch::raw(
            "kv_cache_fp8_write",
            "kv_cache_fp8_write",
            (num_heads, batch, 1),
            (32, 1, 1),
            0,
            Vec::new(),
            vec![
                Arg::param(0), Arg::param(1), Arg::param(2), Arg::param(3), Arg::param(4),
                Arg::param(5), Arg::Word(num_heads), Arg::Word(page_size), Arg::Scalar(k_scale),
                Arg::Scalar(v_scale),
            ],
            None,
            Text::new("KV FP8 write launch: "),
        ),
    )
}

/// The answer of [`kv_cache_nvfp4_write`].
pub open spec fn kv_cache_nvfp4_write_plan(
    new_k_len: int, new_v_len: int, k_cache_len: int, v_cache_len: int, k_scales_in_len: int,
    v_scales_in_len: int, k_scales_out_len: int, v_scales_out_len: int, page_indices_len: int,
    slot_in_page_len: int, batch: int, num_heads: int, page_size: int,
) -> Plan {
    if batch == 0 || num_heads == 0 || page_size == 0 {
        Plan::invalid("dims must be > 0"@)
    } else {
        Plan::raw_launch(
            "kv_cache_nvfp4_write"@,
            "kv_cache_nvfp4_write"@,
            (num_heads, batch, 1),
            (32, 1, 1),
            0,
            Seq::empty(),
            seq![
                Arg::buffer(0), Arg::buffer(1), Arg::buffer(2), Arg::buffer(3), Arg::buffer(4),
                Arg::buffer(5), Arg::buffer(6), Arg::buffer(7), Arg::buffer(8), Arg::buffer(9),
                Arg::word(num_heads), Arg::word(page_size),
            ],
            None,
            "nvfp4 KV write launch: "@,
        )
    }
}

/// Fused BF16→NVFP4 quantization + paged KV-cache write (GLM-5 format).
/// Expects PRE-COMPUTED FP8 E4M3 scales (one per 16-element block).
/// Packed output: 4-bit FP4 E2M1 values, 2 per byte, with per-block scales.
pub fn kv_cache_nvfp4_write(
    new_k_len: usize,
    new_v_len: usize,
    k_cache_len: usize,
    v_cache_len: usize,
    k_scales_in_len: usize,
    v_scales_in_len: usize,
    k_scales_out_len: usize,
    v_scales_out_len: usize,
    page_indices_len: usize,
    slot_in_page_len: usize,
    batch: u32,
    num_heads: u32,
    page_size: u32,
) -> (r: Result<Launch>)
    ensures
        plan::outcome(r) == kv_cache_nvfp4_write_plan(
            new_k_len as int, new_v_len as int, k_cache_len as int, v_cache_len as int,
            k_scales_in_len as int, v_scales_in_len as int, k_scales_out_len as int,
            v_scales_out_len as int, page_indices_len as int, slot_in_page_len as int, batch as int,
            num_heads as int, page_size as int,
        ),
        plan::launchable(r, 10),
{
    if batch == 0 || num_heads == 0 || page_size == 0 {
        return Text::new("dims must be > 0").refuse();
    }
    Ok(
        Launch::raw(
            "kv_cache_nvfp4_write",
            "kv_cache_nvfp4_write",
            (num_heads, batch, 1),
            (32, 1, 1),
            0,
            Vec::new(),
            vec![
                Arg::param(0), Arg::param(1), Arg::param(2), Arg::param(3), Arg::param(4),
                Arg::param(5), Arg::param(6), Arg::param(7), Arg::param(8), Arg::param(9),
                Arg::Word(num_heads), Arg::Word(page_size),
            ],
            None,
            Text::new("nvfp4 KV write launch: "),
        ),
    )
}

/// The answer of [`kv_append_strided_bf16_full_view`].
pub open spec fn kv_append_strided_bf16_full_view_plan(
    src_k_len: int, src_v_len: int, dst_k_len: int, dst_v_len: int, position: int, max_seq: int,
    num_kv_heads: int, head_dim: int,
) -> Plan {
    let src_need = num_kv_heads * head_dim;
    let dst_need = num_kv_heads * max_seq * head_dim;
    if num_kv_heads == 0 || head_dim == 0 || max_seq == 0 {
        Plan::invalid("dims must be > 0"@)
    } else if position >= max_seq {
        Plan::invalid(
            "position "@ + text::decimal(position) + " >= max_seq "@ + text::decimal(max_seq),
        )
    } else if head_dim > 1024 {
        Plan::invalid("head_dim ("@ + text::decimal(head_dim) + ") > max threads per block (1024)"@)
    } else if src_need > u32::MAX || num_kv_heads * max_seq > u32::MAX || dst_need > u32::MAX {
        Plan::Undefined
    } else if src_k_len < src_need || src_v_len < src_need {
        Plan::invalid("src buffer too small"@)
    } else if dst_k_len < dst_need || dst_v_len < dst_need {
        Plan::invalid("dst buffer too small"@)
    } else {
        Plan::launch(
            "kv_append_strided_bf16"@,
            "kv_append_strided_bf16"@,
            (num_kv_heads, 1, 1),
            (head_dim, 1, 1),
            0,
            seq![
                Arg::buffer(0), Arg::buffer(1), Arg::buffer(2), Arg::buffer(3), Arg::word(position),
                Arg::word(max_seq), Arg::word(head_dim),
            ],
        )
    }
}

/// Single-launch multi-head BF16 KV append:
/// `dst[h, pos, :] = src[h, :]` for h in 0..num_heads_kv
pub fn kv_append_strided_bf16_full_view(
    src_k_len: usize,
    src_v_len: usize,
    dst_k_len: usize,
    dst_v_len: usize,
    position: u32,
    max_seq: u32,
    num_kv_heads: u32,
    head_dim: u32,
) -> (r: Result<Launch>)
    requires
        kv_append_strided_bf16_full_view_plan(
            src_k_len as int, src_v_len as int, dst_k_len as int, dst_v_len as int, position as int,
            max_seq as int, num_kv_heads as int, head_dim as int,
        ) !is Undefined,
    ensures
        plan::outcome(r) == kv_append_strided_bf16_full_view_plan(
            src_k_len as int, src_v_len as int, dst_k_len as int, dst_v_len as int, position as int,
            max_seq as int, num_kv_heads as int, head_dim as int,
        ),
        plan::launchable(r, 4),
{
    if num_kv_heads == 0 || head_dim == 0 || max_seq == 0 {
        return Text::new("dims must be > 0").refuse();
    }
    if position >= max_seq {
        return Text::new("position ").n(position as u64).s(" >= max_seq ").n(max_seq as u64)
            .refuse();
    }
    if head_dim > 1024 {
        return Text::new("head_dim (").n(head_dim as u64).s(") > max threads per block (1024)")
            .refuse();
    }
    let src_need: u64 = (num_kv_heads * head_dim) as u64;
    let dst_need: u64 = (num_kv_heads * max_seq * head_dim) as u64;
    if (src_k_len as u64) < src_need || (src_v_len as u64) < src_need {
        return Text::new("src buffer too small").refuse();
    }
    if (dst_k_len as u64) < dst_need || (dst_v_len as u64) < dst_need {
        return Text::new("dst buffer too small").refuse();
    }
    Ok(
        Launch::new(
            "kv_append_strided_bf16",
            "kv_append_strided_bf16",
            (num_kv_heads, 1, 1),
            (head_dim, 1, 1),
            0,
            vec![
                Arg::param(0), Arg::param(1), Arg::param(2), Arg::param(3), Arg::Word(position),
                Arg::Word(max_seq), Arg::Word(head_dim),
            ],
        ),
    )
}

/// The answer of [`kv_append_strided_fp8_full_view`].
pub open spec fn kv_append_strided_fp8_full_view_plan(
    src_k_len: int, src_v_len: int, dst_k_len: int, dst_v_len: int, position: int, max_seq: int,
    num_kv_heads: int, head_dim: int, k_scale: F32, v_scale: F32,
) -> Plan {
    let src_need = num_kv_heads * head_dim;
    let dst_need = num_kv_heads * max_seq * head_dim;
    if num_kv_heads == 0 || head_dim == 0 || max_seq == 0 {
        Plan::invalid("dims must be > 0"@)
    } else if position >= max_seq {
        Plan::invalid(
            "position "@ + text::decimal(position) + " >= max_seq "@ + text::decimal(max_seq),
        )
    } else if head_dim % 2 != 0 {
        Plan::invalid(
            "head_dim ("@ + text::decimal(head_dim) + ") must be even (FP8 pair-quantize)"@,
        )
    } else if head_dim / 2 > 1024 {
        Plan::invalid("head_dim/2 ("@ + text::decimal(head_dim / 2) + ") > max threads per block"@)
    } else if src_need > u32::MAX || num_kv_heads * max_seq > u32::MAX || dst_need > u32::MAX {
        Plan::Undefined
    } else if src_k_len < src_need || src_v_len < src_need {
        Plan::invalid("src buffer too small"@)
    } else if dst_k_len < dst_need || dst_v_len < dst_need {
        Plan::invalid("dst buffer too small"@)
    } else {
        Plan::launch(
            "kv_append_strided_fp8"@,
            "kv_append_strided_fp8"@,
            (num_kv_heads, 1, 1),
            (head_dim / 2, 1, 1),
            0,
            seq![
                Arg::buffer(0), Arg::buffer(1), Arg::buffer(2), Arg::buffer(3), Arg::word(position),
                Arg::word(max_seq), Arg::word(head_dim), Arg::Scalar(k_scale), Arg::Scalar(v_scale),
            ],
        )
    }
}

/// FP8 (e4m3) counterpart of `kv_append_strided_bf16_full_view`. Fused
/// BF16→FP8 quantize + strided write into a per-sequence VIEW of a batched
/// cache buffer. Used by the batched (M=128) full-attn KV append when the cache
/// is FP8: `dst_k`/`dst_v` are one slot's region of the cache. Reuses the
/// `kv_append_strided_fp8` PTX kernel (head_dim/2 threads, pair-quantize); the
/// per-tensor `k_scale`/`v_scale` are applied during the quantize.
pub fn kv_append_strided_fp8_full_view(
    src_k_len: usize,
    src_v_len: usize,
    dst_k_len: usize,
    dst_v_len: usize,
    position: u32,
    max_seq: u32,
    num_kv_heads: u32,
    head_dim: u32,
    k_scale: F32,
    v_scale: F32,
) -> (r: Result<Launch>)
    requires
        kv_append_strided_fp8_full_view_plan(
            src_k_len as int, src_v_len as int, dst_k_len as int, dst_v_len as int, position as int,
            max_seq as int, num_kv_heads as int, head_dim as int, k_scale, v_scale,
        ) !is Undefined,
    ensures
        plan::outcome(r) == kv_append_strided_fp8_full_view_plan(
            src_k_len as int, src_v_len as int, dst_k_len as int, dst_v_len as int, position as int,
            max_seq as int, num_kv_heads as int, head_dim as int, k_scale, v_scale,
        ),
        plan::launchable(r, 4),
{
    if num_kv_heads == 0 || head_dim == 0 || max_seq == 0 {
        return Text::new("dims must be > 0").refuse();
    }
    if position >= max_seq {
        return Text::new("position ").n(position as u64).s(" >= max_seq ").n(max_seq as u64)
            .refuse();
    }
    if head_dim % 2 != 0 {
        return Text::new("head_dim (").n(head_dim as u64).s(") must be even (FP8 pair-quantize)")
            .refuse();
    }
    if head_dim / 2 > 1024 {
        return Text::new("head_dim/2 (").n((head_dim / 2) as u64).s(") > max threads per block")
            .refuse();
    }
    let src_need: u64 = (num_kv_heads * head_dim) as u64;
    let dst_need: u64 = (num_kv_heads * max_seq * head_dim) as u64;
    if (src_k_len as u64) < src_need || (src_v_len as u64) < src_need {
        return Text::new("src buffer too small").refuse();
    }
    if (dst_k_len as u64) < dst_need || (dst_v_len as u64) < dst_need {
        return Text::new("dst buffer too small").refuse();
    }
    Ok(
        Launch::new(
            "kv_append_strided_fp8",
            "kv_append_strided_fp8",
            (num_kv_heads, 1, 1),
            (head_dim / 2, 1, 1),
            0,
            vec![
                Arg::param(0), Arg::param(1), Arg::param(2), Arg::param(3), Arg::Word(position),
                Arg::Word(max_seq), Arg::Word(head_dim), Arg::Scalar(k_scale), Arg::Scalar(v_scale),
            ],
        ),
    )
}

/// The answer of [`kv_append_strided_bf16_src_view`].
pub open spec fn kv_append_strided_bf16_src_view_plan(
    src_k_len: int, src_v_len: int, dst_k_len: int, dst_v_len: int, position: int, max_seq: int,
    num_kv_heads: int, head_dim: int,
) -> Plan {
    let src_need = num_kv_heads * head_dim;
    let dst_need = num_kv_heads * max_seq * head_dim;
    if num_kv_heads == 0 || head_dim == 0 || max_seq == 0 {
        Plan::invalid("dims must be > 0"@)
    } else if position >= max_seq {
        Plan::invalid(
            "position "@ + text::decimal(position) + " >= max_seq "@ + text::decimal(max_seq),
        )
    } else if head_dim > 1024 {
        Plan::invalid("head_dim ("@ + text::decimal(head_dim) + ") > max threads per block (1024)"@)
    } else if src_need > u32::MAX || num_kv_heads * max_seq > u32::MAX || dst_need > u32::MAX {
        Plan::Undefined
    } else if src_k_len < src_need || src_v_len < src_need {
        Plan::invalid("src buffer too small"@)
    } else if dst_k_len < dst_need || dst_v_len < dst_need {
        Plan::invalid("dst buffer too small"@)
    } else {
        Plan::launch(
            "kv_append_strided_bf16"@,
            "kv_append_strided_bf16"@,
            (num_kv_heads, 1, 1),
            (head_dim, 1, 1),
            0,
            seq![
                Arg::buffer(0), Arg::buffer(1), Arg::buffer(2), Arg::buffer(3), Arg::word(position),
                Arg::word(max_seq), Arg::word(head_dim),
            ],
        )
    }
}

/// `kv_append_strided_bf16` with the sources slices of a batched tensor.
pub fn kv_append_strided_bf16_src_view(
    src_k_len: usize,
    src_v_len: usize,
    dst_k_len: usize,
    dst_v_len: usize,
    position: u32,
    max_seq: u32,
    num_kv_heads: u32,
    head_dim: u32,
) -> (r: Result<Launch>)
    requires
        kv_append_strided_bf16_src_view_plan(
            src_k_len as int, src_v_len as int, dst_k_len as int, dst_v_len as int, position as int,
            max_seq as int, num_kv_heads as int, head_dim as int,
        ) !is Undefined,
    ensures
        plan::outcome(r) == kv_append_strided_bf16_src_view_plan(
            src_k_len as int, src_v_len as int, dst_k_len as int, dst_v_len as int, position as int,
            max_seq as int, num_kv_heads as int, head_dim as int,
        ),
        plan::launchable(r, 4),
{
    if num_kv_heads == 0 || head_dim == 0 || max_seq == 0 {
        return Text::new("dims must be > 0").refuse();
    }
    if position >= max_seq {
        return Text::new("position ").n(position as u64).s(" >= max_seq ").n(max_seq as u64)
            .refuse();
    }
    if head_dim > 1024 {
        return Text::new("head_dim (").n(head_dim as u64).s(") > max threads per block (1024)")
            .refuse();
    }
    let src_need: u64 = (num_kv_heads * head_dim) as u64;
    let dst_need: u64 = (num_kv_heads * max_seq * head_dim) as u64;
    if (src_k_len as u64) < src_need || (src_v_len as u64) < src_need {
        return Text::new("src buffer too small").refuse();
    }
    if (dst_k_len as u64) < dst_need || (dst_v_len as u64) < dst_need {
        return Text::new("dst buffer too small").refuse();
    }
    Ok(
        Launch::new(
            "kv_append_strided_bf16",
            "kv_append_strided_bf16",
            (num_kv_heads, 1, 1),
            (head_dim, 1, 1),
            0,
            vec![
                Arg::param(0), Arg::param(1), Arg::param(2), Arg::param(3), Arg::Word(position),
                Arg::Word(max_seq), Arg::Word(head_dim),
            ],
        ),
    )
}

/// The answer of [`kv_append_strided_bf16`].
pub open spec fn kv_append_strided_bf16_plan(
    src_k_len: int, src_v_len: int, dst_k_len: int, dst_v_len: int, position: int, max_seq: int,
    num_kv_heads: int, head_dim: int,
) -> Plan {
    let src_need = num_kv_heads * head_dim;
    let dst_need = num_kv_heads * max_seq * head_dim;
    if num_kv_heads == 0 || head_dim == 0 || max_seq == 0 {
        Plan::invalid("dims must be > 0"@)
    } else if position >= max_seq {
        Plan::invalid(
            "position "@ + text::decimal(position) + " >= max_seq "@ + text::decimal(max_seq),
        )
    } else if head_dim > 1024 {
        Plan::invalid("head_dim ("@ + text::decimal(head_dim) + ") > max threads per block (1024)"@)
    } else if src_need > u32::MAX || num_kv_heads * max_seq > u32::MAX || dst_need > u32::MAX {
        Plan::Undefined
    } else if src_k_len < src_need || src_v_len < src_need {
        Plan::invalid("src buffer too small"@)
    } else if dst_k_len < dst_need || dst_v_len < dst_need {
        Plan::invalid("dst buffer too small"@)
    } else {
        Plan::launch(
            "kv_append_strided_bf16"@,
            "kv_append_strided_bf16"@,
            (num_kv_heads, 1, 1),
            (head_dim, 1, 1),
            0,
            seq![
                Arg::buffer(0), Arg::buffer(1), Arg::buffer(2), Arg::buffer(3), Arg::word(position),
                Arg::word(max_seq), Arg::word(head_dim),
            ],
        )
    }
}

/// Append one token's K and V (`[num_kv_heads, head_dim]`) into contiguous BF16
/// caches laid out `[num_kv_heads, max_seq, head_dim]`, writing each head at
/// `position`. The `max_seq` stride keeps per-head sequences separated.
pub fn kv_append_strided_bf16(
    src_k_len: usize,
    src_v_len: usize,
    dst_k_len: usize,
    dst_v_len: usize,
    position: u32,
    max_seq: u32,
    num_kv_heads: u32,
    head_dim: u32,
) -> (r: Result<Launch>)
    requires
        kv_append_strided_bf16_plan(
            src_k_len as int, src_v_len as int, dst_k_len as int, dst_v_len as int, position as int,
            max_seq as int, num_kv_heads as int, head_dim as int,
        ) !is Undefined,
    ensures
        plan::outcome(r) == kv_append_strided_bf16_plan(
            src_k_len as int, src_v_len as int, dst_k_len as int, dst_v_len as int, position as int,
            max_seq as int, num_kv_heads as int, head_dim as int,
        ),
        plan::launchable(r, 4),
{
    if num_kv_heads == 0 || head_dim == 0 || max_seq == 0 {
        return Text::new("dims must be > 0").refuse();
    }
    if position >= max_seq {
        return Text::new("position ").n(position as u64).s(" >= max_seq ").n(max_seq as u64)
            .refuse();
    }
    if head_dim > 1024 {
        return Text::new("head_dim (").n(head_dim as u64).s(") > max threads per block (1024)")
            .refuse();
    }
    let src_need: u64 = (num_kv_heads * head_dim) as u64;
    let dst_need: u64 = (num_kv_heads * max_seq * head_dim) as u64;
    if (src_k_len as u64) < src_need || (src_v_len as u64) < src_need {
        return Text::new("src buffer too small").refuse();
    }
    if (dst_k_len as u64) < dst_need || (dst_v_len as u64) < dst_need {
        return Text::new("dst buffer too small").refuse();
    }
    Ok(
        Launch::new(
            "kv_append_strided_bf16",
            "kv_append_strided_bf16",
            (num_kv_heads, 1, 1),
            (head_dim, 1, 1),
            0,
            vec![
                Arg::param(0), Arg::param(1), Arg::param(2), Arg::param(3), Arg::Word(position),
                Arg::Word(max_seq), Arg::Word(head_dim),
            ],
        ),
    )
}

/// The answer of [`kv_append_strided_bf16_pos_dev`].
pub open spec fn kv_append_strided_bf16_pos_dev_plan(
    src_k_len: int, src_v_len: int, dst_k_len: int, dst_v_len: int, pos_ptr_len: int, max_seq: int,
    num_kv_heads: int, head_dim: int,
) -> Plan {
    let src_need = num_kv_heads * head_dim;
    let dst_need = num_kv_heads * max_seq * head_dim;
    if num_kv_heads == 0 || head_dim == 0 || max_seq == 0 {
        Plan::invalid("dims must be > 0"@)
    } else if head_dim > 1024 {
        Plan::invalid("head_dim ("@ + text::decimal(head_dim) + ") > max threads per block (1024)"@)
    } else if pos_ptr_len == 0 {
        Plan::invalid("pos_ptr empty"@)
    } else if src_need > u32::MAX || num_kv_heads * max_seq > u32::MAX || dst_need > u32::MAX {
        Plan::Undefined
    } else if src_k_len < src_need || src_v_len < src_need {
        Plan::invalid("src buffer too small"@)
    } else if dst_k_len < dst_need || dst_v_len < dst_need {
        Plan::invalid("dst buffer too small"@)
    } else {
        Plan::launch(
            "kv_append_strided_bf16_pos_dev"@,
            "kv_append_strided_bf16_pos_dev"@,
            (num_kv_heads, 1, 1),
            (head_dim, 1, 1),
            0,
            seq![
                Arg::buffer(0), Arg::buffer(1), Arg::buffer(2), Arg::buffer(3), Arg::buffer(4),
                Arg::word(max_seq), Arg::word(head_dim),
            ],
        )
    }
}

/// Position-from-device-pointer variant of `kv_append_strided_bf16`. Reads the
/// current append position from a u32 device pointer instead of taking it as
/// a kernel param. Lets the dispatch be replayed under a CUDA Graph across
/// positions when the host updates `*pos_ptr` between replays.
pub fn kv_append_strided_bf16_pos_dev(
    src_k_len: usize,
    src_v_len: usize,
    dst_k_len: usize,
    dst_v_len: usize,
    pos_ptr_len: usize,
    max_seq: u32,
    num_kv_heads: u32,
    head_dim: u32,
) -> (r: Result<Launch>)
    requires
        kv_append_strided_bf16_pos_dev_plan(
            src_k_len as int, src_v_len as int, dst_k_len as int, dst_v_len as int,
            pos_ptr_len as int, max_seq as int, num_kv_heads as int, head_dim as int,
        ) !is Undefined,
    ensures
        plan::outcome(r) == kv_append_strided_bf16_pos_dev_plan(
            src_k_len as int, src_v_len as int, dst_k_len as int, dst_v_len as int,
            pos_ptr_len as int, max_seq as int, num_kv_heads as int, head_dim as int,
        ),
        plan::launchable(r, 5),
{
    if num_kv_heads == 0 || head_dim == 0 || max_seq == 0 {
        return Text::new("dims must be > 0").refuse();
    }
    if head_dim > 1024 {
        return Text::new("head_dim (").n(head_dim as u64).s(") > max threads per block (1024)")
            .refuse();
    }
    if pos_ptr_len == 0 {
        return Text::new("pos_ptr empty").refuse();
    }
    let src_need: u64 = (num_kv_heads * head_dim) as u64;
    let dst_need: u64 = (num_kv_heads * max_seq * head_dim) as u64;
    if (src_k_len as u64) < src_need || (src_v_len as u64) < src_need {
        return Text::new("src buffer too small").refuse();
    }
    if (dst_k_len as u64) < dst_need || (dst_v_len as u64) < dst_need {
        return Text::new("dst buffer too small").refuse();
    }
    Ok(
        Launch::new(
            "kv_append_strided_bf16_pos_dev",
            "kv_append_strided_bf16_pos_dev",
            (num_kv_heads, 1, 1),
            (head_dim, 1, 1),
            0,
            vec![
                Arg::param(0), Arg::param(1), Arg::param(2), Arg::param(3), Arg::param(4),
                Arg::Word(max_seq), Arg::Word(head_dim),
            ],
        ),
    )
}

/// The answer of [`kv_append_strided_fp8`].
pub open spec fn kv_append_strided_fp8_plan(
    src_k_len: int, src_v_len: int, dst_k_len: int, dst_v_len: int, position: int, max_seq: int,
    num_kv_heads: int, head_dim: int, k_scale: F32, v_scale: F32,
) -> Plan {
    let src_need = num_kv_heads * head_dim;
    let dst_need = num_kv_heads * max_seq * head_dim;
    if num_kv_heads == 0 || head_dim == 0 || max_seq == 0 {
        Plan::invalid("dims must be > 0"@)
    } else if position >= max_seq {
        Plan::invalid(
            "position "@ + text::decimal(position) + " >= max_seq "@ + text::decimal(max_seq),
        )
    } else if head_dim % 2 != 0 {
        Plan::invalid(
            "head_dim ("@ + text::decimal(head_dim) + ") must be even (FP8 pair-quantize)"@,
        )
    } else if head_dim / 2 > 1024 {
        Plan::invalid("head_dim/2 ("@ + text::decimal(head_dim / 2) + ") > max threads per block"@)
    } else if src_need > u32::MAX || num_kv_heads * max_seq > u32::MAX || dst_need > u32::MAX {
        Plan::Undefined
    } else if src_k_len < src_need || src_v_len < src_need {
        Plan::invalid("src buffer too small"@)
    } else if dst_k_len < dst_need || dst_v_len < dst_need {
        Plan::invalid("dst buffer too small"@)
    } else {
        Plan::launch(
            "kv_append_strided_fp8"@,
            "kv_append_strided_fp8"@,
            (num_kv_heads, 1, 1),
            (head_dim / 2, 1, 1),
            0,
            seq![
                Arg::buffer(0), Arg::buffer(1), Arg::buffer(2), Arg::buffer(3), Arg::word(position),
                Arg::word(max_seq), Arg::word(head_dim), Arg::Scalar(k_scale), Arg::Scalar(v_scale),
            ],
        )
    }
}

/// Strided-append a new K and V row from BF16 src into a head-major FP8 KV cache.
pub fn kv_append_strided_fp8(
    src_k_len: usize,
    src_v_len: usize,
    dst_k_len: usize,
    dst_v_len: usize,
    position: u32,
    max_seq: u32,
    num_kv_heads: u32,
    head_dim: u32,
    k_scale: F32,
    v_scale: F32,
) -> (r: Result<Launch>)
    requires
        kv_append_strided_fp8_plan(
            src_k_len as int, src_v_len as int, dst_k_len as int, dst_v_len as int, position as int,
            max_seq as int, num_kv_heads as int, head_dim as int, k_scale, v_scale,
        ) !is Undefined,
    ensures
        plan::outcome(r) == kv_append_strided_fp8_plan(
            src_k_len as int, src_v_len as int, dst_k_len as int, dst_v_len as int, position as int,
            max_seq as int, num_kv_heads as int, head_dim as int, k_scale, v_scale,
        ),
        plan::launchable(r, 4),
{
    if num_kv_heads == 0 || head_dim == 0 || max_seq == 0 {
        return Text::new("dims must be > 0").refuse();
    }
    if position >= max_seq {
        return Text::new("position ").n(position as u64).s(" >= max_seq ").n(max_seq as u64)
            .refuse();
    }
    if head_dim % 2 != 0 {
        return Text::new("head_dim (").n(head_dim as u64).s(") must be even (FP8 pair-quantize)")
            .refuse();
    }
    if head_dim / 2 > 1024 {
        return Text::new("head_dim/2 (").n((head_dim / 2) as u64).s(") > max threads per block")
            .refuse();
    }
    let src_need: u64 = (num_kv_heads * head_dim) as u64;
    let dst_need: u64 = (num_kv_heads * max_seq * head_dim) as u64;
    if (src_k_len as u64) < src_need || (src_v_len as u64) < src_need {
        return Text::new("src buffer too small").refuse();
    }
    if (dst_k_len as u64) < dst_need || (dst_v_len as u64) < dst_need {
        return Text::new("dst buffer too small").refuse();
    }
    Ok(
        Launch::new(
            "kv_append_strided_fp8",
            "kv_append_strided_fp8",
            (num_kv_heads, 1, 1),
            (head_dim / 2, 1, 1),
            0,
            vec![
                Arg::param(0), Arg::param(1), Arg::param(2), Arg::param(3), Arg::Word(position),
                Arg::Word(max_seq), Arg::Word(head_dim), Arg::Scalar(k_scale), Arg::Scalar(v_scale),
            ],
        ),
    )
}

/// The answer of [`kv_append_strided_fp8_pos_dev`].
pub open spec fn kv_append_strided_fp8_pos_dev_plan(
    src_k_len: int, src_v_len: int, dst_k_len: int, dst_v_len: int, pos_ptr_len: int, max_seq: int,
    num_kv_heads: int, head_dim: int, k_scale: F32, v_scale: F32,
) -> Plan {
    let src_need = num_kv_heads * head_dim;
    let dst_need = num_kv_heads * max_seq * head_dim;
    if num_kv_heads == 0 || head_dim == 0 || max_seq == 0 {
        Plan::invalid("dims must be > 0"@)
    } else if head_dim % 2 != 0 {
        Plan::invalid(
            "head_dim ("@ + text::decimal(head_dim) + ") must be even (FP8 pair-quantize)"@,
        )
    } else if head_dim / 2 > 1024 {
        Plan::invalid("head_dim/2 ("@ + text::decimal(head_dim / 2) + ") > max threads per block"@)
    } else if pos_ptr_len == 0 {
        Plan::invalid("pos_ptr empty"@)
    } else if src_need > u32::MAX || num_kv_heads * max_seq > u32::MAX || dst_need > u32::MAX {
        Plan::Undefined
    } else if src_k_len < src_need || src_v_len < src_need {
        Plan::invalid("src buffer too small"@)
    } else if dst_k_len < dst_need || dst_v_len < dst_need {
        Plan::invalid("dst buffer too small"@)
    } else {
        Plan::launch(
            "kv_append_strided_fp8_pos_dev"@,
            "kv_append_strided_fp8_pos_dev"@,
            (num_kv_heads, 1, 1),
            (head_dim / 2, 1, 1),
            0,
            seq![
                Arg::buffer(0), Arg::buffer(1), Arg::buffer(2), Arg::buffer(3), Arg::buffer(4),
                Arg::word(max_seq), Arg::word(head_dim), Arg::Scalar(k_scale), Arg::Scalar(v_scale),
            ],
        )
    }
}

/// Position-from-device-pointer variant of `kv_append_strided_fp8`. Same
/// fused BF16→FP8 quantize + strided write, but reads `position` from a
/// u32 device pointer. Required for CUDA Graph capture compatibility —
/// the captured graph holds the `pos_ptr` device address constant; the
/// host updates `*pos_ptr` between replays.
pub fn kv_append_strided_fp8_pos_dev(
    src_k_len: usize,
    src_v_len: usize,
    dst_k_len: usize,
    dst_v_len: usize,
    pos_ptr_len: usize,
    max_seq: u32,
    num_kv_heads: u32,
    head_dim: u32,
    k_scale: F32,
    v_scale: F32,
) -> (r: Result<Launch>)
    requires
        kv_append_strided_fp8_pos_dev_plan(
            src_k_len as int, src_v_len as int, dst_k_len as int, dst_v_len as int,
            pos_ptr_len as int, max_seq as int, num_kv_heads as int, head_dim as int, k_scale,
            v_scale,
        ) !is Undefined,
    ensures
        plan::outcome(r) == kv_append_strided_fp8_pos_dev_plan(
            src_k_len as int, src_v_len as int, dst_k_len as int, dst_v_len as int,
            pos_ptr_len as int, max_seq as int, num_kv_heads as int, head_dim as int, k_scale,
            v_scale,
        ),
        plan::launchable(r, 5),
{
    if num_kv_heads == 0 || head_dim == 0 || max_seq == 0 {
        return Text::new("dims must be > 0").refuse();
    }
    if head_dim % 2 != 0 {
        return Text::new("head_dim (").n(head_dim as u64).s(") must be even (FP8 pair-quantize)")
            .refuse();
    }
    if head_dim / 2 > 1024 {
        return Text::new("head_dim/2 (").n((head_dim / 2) as u64).s(") > max threads per block")
            .refuse();
    }
    if pos_ptr_len == 0 {
        return Text::new("pos_ptr empty").refuse();
    }
    let src_need: u64 = (num_kv_heads * head_dim) as u64;
    let dst_need: u64 = (num_kv_heads * max_seq * head_dim) as u64;
    if (src_k_len as u64) < src_need || (src_v_len as u64) < src_need {
        return Text::new("src buffer too small").refuse();
    }
    if (dst_k_len as u64) < dst_need || (dst_v_len as u64) < dst_need {
        return Text::new("dst buffer too small").refuse();
    }
    Ok(
        Launch::new(
            "kv_append_strided_fp8_pos_dev",
            "kv_append_strided_fp8_pos_dev",
            (num_kv_heads, 1, 1),
            (head_dim / 2, 1, 1),
            0,
            vec![
                Arg::param(0), Arg::param(1), Arg::param(2), Arg::param(3), Arg::param(4),
                Arg::Word(max_seq), Arg::Word(head_dim), Arg::Scalar(k_scale), Arg::Scalar(v_scale),
            ],
        ),
    )
}

/// The answer of [`kv_append_multihead_bf16_pos_dev`].
pub open spec fn kv_append_multihead_bf16_pos_dev_plan(
    src_len: int, dst_len: int, pos_ptr_len: int, num_heads_kv: int, max_seq: int, head_dim: int,
) -> Plan {
    let src_need = num_heads_kv * head_dim;
    let dst_need = num_heads_kv * max_seq * head_dim;
    if num_heads_kv == 0 || max_seq == 0 || head_dim == 0 {
        Plan::invalid("dims must be > 0"@)
    } else if src_need > u32::MAX || num_heads_kv * max_seq > u32::MAX || dst_need > u32::MAX {
        Plan::Undefined
    } else if src_len < src_need {
        Plan::invalid("src too small"@)
    } else if dst_len < dst_need {
        Plan::invalid("dst too small"@)
    } else if pos_ptr_len == 0 {
        Plan::invalid("pos_ptr empty"@)
    } else {
        Plan::launch(
            "kv_append_multihead_bf16_pos_dev"@,
            "kv_append_multihead_bf16_pos_dev"@,
            (num_heads_kv, 1, 1),
            (head_dim, 1, 1),
            0,
            seq![
                Arg::buffer(0), Arg::buffer(1), Arg::buffer(2), Arg::word(max_seq),
                Arg::word(head_dim),
            ],
        )
    }
}

/// Append one token's multi-head BF16 tensor (`[num_heads_kv, head_dim]`) into a
/// `[num_heads_kv, max_seq, head_dim]` cache, reading the write position from
/// `pos_ptr` on the device so the append needs no host sync.
pub fn kv_append_multihead_bf16_pos_dev(
    src_len: usize,
    dst_len: usize,
    pos_ptr_len: usize,
    num_heads_kv: u32,
    max_seq: u32,
    head_dim: u32,
) -> (r: Result<Launch>)
    requires
        kv_append_multihead_bf16_pos_dev_plan(
            src_len as int, dst_len as int, pos_ptr_len as int, num_heads_kv as int, max_seq as int,
            head_dim as int,
        ) !is Undefined,
    ensures
        plan::outcome(r) == kv_append_multihead_bf16_pos_dev_plan(
            src_len as int, dst_len as int, pos_ptr_len as int, num_heads_kv as int, max_seq as int,
            head_dim as int,
        ),
        head_dim <= 1024 ==> plan::launchable(r, 3),
{
    if num_heads_kv == 0 || max_seq == 0 || head_dim == 0 {
        return Text::new("dims must be > 0").refuse();
    }
    let src_need: u64 = (num_heads_kv * head_dim) as u64;
    let dst_need: u64 = (num_heads_kv * max_seq * head_dim) as u64;
    if (src_len as u64) < src_need {
        return Text::new("src too small").refuse();
    }
    if (dst_len as u64) < dst_need {
        return Text::new("dst too small").refuse();
    }
    if pos_ptr_len == 0 {
        return Text::new("pos_ptr empty").refuse();
    }
    Ok(
        Launch::new(
            "kv_append_multihead_bf16_pos_dev",
            "kv_append_multihead_bf16_pos_dev",
            (num_heads_kv, 1, 1),
            (head_dim, 1, 1),
            0,
            vec![
                Arg::param(0), Arg::param(1), Arg::param(2), Arg::Word(max_seq),
                Arg::Word(head_dim),
            ],
        ),
    )
}

/// Where the row of one head and one position begins in a cache laid out as
/// `[num_kv_heads, max_seq, head_dim]`.
pub open spec fn row_start(max_seq: int, head_dim: int, head: int, position: int) -> int {
    (head * max_seq + position) * head_dim
}

/// The rows of different heads or positions do not overlap.
pub proof fn rows_are_separate(
    max_seq: int, head_dim: int, head: int, position: int, other_head: int, other_position: int,
)
    requires
        head_dim >= 0,
        0 <= position < max_seq,
        0 <= other_position < max_seq,
        head < other_head || (head == other_head && position < other_position),
    ensures
        row_start(max_seq, head_dim, head, position) + head_dim <= row_start(
            max_seq, head_dim, other_head, other_position,
        ),
{
    let a = head * max_seq + position;
    let b = other_head * max_seq + other_position;
    assert(a + 1 <= b) by (nonlinear_arith)
        requires
            a == head * max_seq + position,
            b == other_head * max_seq + other_position,
            0 <= position < max_seq,
            0 <= other_position < max_seq,
            head < other_head || (head == other_head && position < other_position),
    ;
    assert(a * head_dim + head_dim <= b * head_dim) by (nonlinear_arith)
        requires
            a + 1 <= b,
            head_dim >= 0,
    ;
}

proof fn lemma_row_inside(num_kv_heads: int, max_seq: int, head_dim: int, head: int, position: int)
    requires
        0 <= head < num_kv_heads,
        0 <= position < max_seq,
        head_dim >= 0,
    ensures
        0 <= row_start(max_seq, head_dim, head, position),
        row_start(max_seq, head_dim, head, position) + head_dim <= num_kv_heads * max_seq
            * head_dim,
{
    let a = head * max_seq + position;
    assert(0 <= a && a + 1 <= num_kv_heads * max_seq) by (nonlinear_arith)
        requires
            a == head * max_seq + position,
            0 <= head < num_kv_heads,
            0 <= position < max_seq,
    ;
    assert(0 <= a * head_dim && a * head_dim + head_dim <= num_kv_heads * max_seq * head_dim)
        by (nonlinear_arith)
        requires
            0 <= a,
            a + 1 <= num_kv_heads * max_seq,
            head_dim >= 0,
    ;
}

/// An append that is launched writes each head's row inside both caches.
pub proof fn appends_stay_inside(
    src_k_len: int, src_v_len: int, dst_k_len: int, dst_v_len: int, position: int, max_seq: int,
    num_kv_heads: int, head_dim: int, k_scale: F32, v_scale: F32, head: int,
)
    requires
        0 <= position,
        0 <= head < num_kv_heads,
        head_dim >= 0,
        kv_append_strided_bf16_full_view_plan(
            src_k_len, src_v_len, dst_k_len, dst_v_len, position, max_seq, num_kv_heads,
            head_dim,
        ) is Launch
        || kv_append_strided_bf16_src_view_plan(
            src_k_len, src_v_len, dst_k_len, dst_v_len, position, max_seq, num_kv_heads,
            head_dim,
        ) is Launch
        || kv_append_strided_bf16_plan(
            src_k_len, src_v_len, dst_k_len, dst_v_len, position, max_seq, num_kv_heads,
            head_dim,
        ) is Launch
        || kv_append_strided_fp8_full_view_plan(
            src_k_len, src_v_len, dst_k_len, dst_v_len, position, max_seq, num_kv_heads,
            head_dim, k_scale, v_scale,
        ) is Launch
        || kv_append_strided_fp8_plan(
            src_k_len, src_v_len, dst_k_len, dst_v_len, position, max_seq, num_kv_heads,
            head_dim, k_scale, v_scale,
        ) is Launch,
    ensures
        0 <= row_start(max_seq, head_dim, head, position),
        row_start(max_seq, head_dim, head, position) + head_dim <= dst_k_len,
        row_start(max_seq, head_dim, head, position) + head_dim <= dst_v_len,
{
    assert(position < max_seq);
    lemma_row_inside(num_kv_heads, max_seq, head_dim, head, position);
}

} // verus!
