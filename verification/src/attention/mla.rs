//! Attention over compressed key-value caches.
use crate::error::Result;
use crate::plan::{Arg, F32, Launch, Plan};
use crate::plan;
use crate::shape;
use crate::tensor_map;
use crate::text::Text;
use crate::text;
use vstd::prelude::*;

verus! {

/// Width of the compressed latent of a key-value row.
pub const MLA_D_C: u32 = 512;

/// Width of the rotary part of a key row.
pub const MLA_D_R: u32 = 64;

/// The answer of [`mla_decode_bf16`].
pub open spec fn mla_decode_bf16_plan(
    q_c_len: int, q_r_len: int, c_kv_len: int, k_rope_len: int, o_len: int, batch: int,
    num_heads: int, seq_kv: int, scale: F32,
) -> Plan {
    let q_c_need = batch * num_heads * MLA_D_C;
    let q_r_need = batch * num_heads * MLA_D_R;
    let ckv_need = batch * seq_kv * MLA_D_C;
    let krope_need = batch * seq_kv * MLA_D_R;
    let o_need = batch * num_heads * MLA_D_C;
    if batch == 0 || num_heads == 0 || seq_kv == 0 {
        Plan::invalid("batch, num_heads, seq_kv must be > 0"@)
    } else if q_c_need > u64::MAX
        || q_r_need > u64::MAX
        || ckv_need > u64::MAX
        || krope_need > u64::MAX
    {
        Plan::Undefined
    } else if q_c_len < q_c_need
        || q_r_len < q_r_need
        || c_kv_len < ckv_need
        || k_rope_len < krope_need
        || o_len < o_need
    {
        Plan::invalid("MLA buffer size mismatch"@)
    } else {
        Plan::raw_launch(
            "fa_bf16_mla_decode"@,
            "fa_bf16_mla_decode"@,
            (num_heads, batch, 1),
            (128, 1, 1),
            0,
            Seq::empty(),
            seq![
                Arg::buffer(0), Arg::buffer(1), Arg::buffer(2), Arg::buffer(3), Arg::buffer(4),
                Arg::word(num_heads), Arg::word(seq_kv), Arg::Scalar(scale),
            ],
            None,
            "MLA decode launch: "@,
        )
    }
}

/// Launch weight-absorbed MLA decode (BF16, seq_q=1).
pub fn mla_decode_bf16(
    q_c_len: usize,
    q_r_len: usize,
    c_kv_len: usize,
    k_rope_len: usize,
    o_len: usize,
    batch: u32,
    num_heads: u32,
    seq_kv: u32,
    scale: F32,
) -> (r: Result<Launch>)
    requires
        mla_decode_bf16_plan(
            q_c_len as int, q_r_len as int, c_kv_len as int, k_rope_len as int, o_len as int,
            batch as int, num_heads as int, seq_kv as int, scale,
        ) !is Undefined,
    ensures
        plan::outcome(r) == mla_decode_bf16_plan(
            q_c_len as int, q_r_len as int, c_kv_len as int, k_rope_len as int, o_len as int,
            batch as int, num_heads as int, seq_kv as int, scale,
        ),
        plan::launchable(r, 5),
{
    if batch == 0 || num_heads == 0 || seq_kv == 0 {
        return Text::new("batch, num_heads, seq_kv must be > 0").refuse();
    }
    let q_c_need: u64 = shape::product(batch, num_heads) * (MLA_D_C as u64);
    let q_r_need: u64 = shape::product(batch, num_heads) * (MLA_D_R as u64);
    let ckv_need: u64 = shape::product(batch, seq_kv) * (MLA_D_C as u64);
    let krope_need: u64 = shape::product(batch, seq_kv) * (MLA_D_R as u64);
    let o_need: u64 = shape::product(batch, num_heads) * (MLA_D_C as u64);
    if (q_c_len as u64) < q_c_need
        || (q_r_len as u64) < q_r_need
        || (c_kv_len as u64) < ckv_need
        || (k_rope_len as u64) < krope_need
        || (o_len as u64) < o_need
    {
        return Text::new("MLA buffer size mismatch").refuse();
    }
    Ok(
        Launch::raw(
            "fa_bf16_mla_decode",
            "fa_bf16_mla_decode",
            (num_heads, batch, 1),
            (128, 1, 1),
            0,
            Vec::new(),
            vec![
                Arg::param(0), Arg::param(1), Arg::param(2), Arg::param(3), Arg::param(4),
                Arg::Word(num_heads), Arg::Word(seq_kv), Arg::Scalar(scale),
            ],
            None,
            Text::new("MLA decode launch: "),
        ),
    )
}

/// The answer of [`mla_prefill_bf16`].
pub open spec fn mla_prefill_bf16_plan(
    q_c_len: int, q_r_len: int, c_kv_len: int, k_rope_len: int, o_len: int, batch: int,
    num_heads: int, seq_q: int, seq_kv: int, scale: F32,
) -> Plan {
    let q_c_need = batch * seq_q * num_heads * MLA_D_C;
    let q_r_need = batch * seq_q * num_heads * MLA_D_R;
    let ckv_need = batch * seq_kv * MLA_D_C;
    let krope_need = batch * seq_kv * MLA_D_R;
    let o_need = q_c_need;
    if batch == 0 || num_heads == 0 || seq_q == 0 || seq_kv == 0 {
        Plan::invalid("batch, num_heads, seq_q, seq_kv must be > 0"@)
    } else if q_c_need > u64::MAX
        || q_r_need > u64::MAX
        || ckv_need > u64::MAX
        || krope_need > u64::MAX
    {
        Plan::Undefined
    } else if q_c_len < q_c_need
        || q_r_len < q_r_need
        || c_kv_len < ckv_need
        || k_rope_len < krope_need
        || o_len < o_need
    {
        Plan::invalid("MLA prefill buffer size mismatch"@)
    } else {
        Plan::raw_launch(
            "fa_bf16_mla_prefill"@,
            "fa_bf16_mla_prefill"@,
            (seq_q, num_heads, batch),
            (128, 1, 1),
            0,
            Seq::empty(),
            seq![
                Arg::buffer(0), Arg::buffer(1), Arg::buffer(2), Arg::buffer(3), Arg::buffer(4),
                Arg::word(num_heads), Arg::word(seq_q), Arg::word(seq_kv), Arg::Scalar(scale),
            ],
            None,
            "MLA prefill launch: "@,
        )
    }
}

/// Launch weight-absorbed MLA prefill (BF16, causal, seq_q > 1).
pub fn mla_prefill_bf16(
    q_c_len: usize,
    q_r_len: usize,
    c_kv_len: usize,
    k_rope_len: usize,
    o_len: usize,
    batch: u32,
    num_heads: u32,
    seq_q: u32,
    seq_kv: u32,
    scale: F32,
) -> (r: Result<Launch>)
    requires
        mla_prefill_bf16_plan(
            q_c_len as int, q_r_len as int, c_kv_len as int, k_rope_len as int, o_len as int,
            batch as int, num_heads as int, seq_q as int, seq_kv as int, scale,
        ) !is Undefined,
    ensures
        plan::outcome(r) == mla_prefill_bf16_plan(
            q_c_len as int, q_r_len as int, c_kv_len as int, k_rope_len as int, o_len as int,
            batch as int, num_heads as int, seq_q as int, seq_kv as int, scale,
        ),
        plan::launchable(r, 5),
{
    if batch == 0 || num_heads == 0 || seq_q == 0 || seq_kv == 0 {
        return Text::new("batch, num_heads, seq_q, seq_kv must be > 0").refuse();
    }
    let q_c_need: u64 = shape::product(batch, seq_q) * (num_heads as u64) * (MLA_D_C as u64);
    let q_r_need: u64 = shape::product(batch, seq_q) * (num_heads as u64) * (MLA_D_R as u64);
    let ckv_need: u64 = shape::product(batch, seq_kv) * (MLA_D_C as u64);
    let krope_need: u64 = shape::product(batch, seq_kv) * (MLA_D_R as u64);
    let o_need: u64 = q_c_need;
    if (q_c_len as u64) < q_c_need
        || (q_r_len as u64) < q_r_need
        || (c_kv_len as u64) < ckv_need
        || (k_rope_len as u64) < krope_need
        || (o_len as u64) < o_need
    {
        return Text::new("MLA prefill buffer size mismatch").refuse();
    }
    Ok(
        Launch::raw(
            "fa_bf16_mla_prefill",
            "fa_bf16_mla_prefill",
            (seq_q, num_heads, batch),
            (128, 1, 1),
            0,
            Vec::new(),
            vec![
                Arg::param(0), Arg::param(1), Arg::param(2), Arg::param(3), Arg::param(4),
                Arg::Word(num_heads), Arg::Word(seq_q), Arg::Word(seq_kv), Arg::Scalar(scale),
            ],
            None,
            Text::new("MLA prefill launch: "),
        ),
    )
}

/// The answer of [`mla_decode_fp8kv_mma`].
pub open spec fn mla_decode_fp8kv_mma_plan(
    q_c_len: int, q_r_len: int, c_kv_len: int, k_rope_len: int, o_len: int, batch: int,
    num_heads: int, seq_kv: int, scale: F32, kv_scale: F32,
) -> Plan {
    let head_groups = num_heads / 16;
    if batch == 0 || num_heads == 0 || seq_kv == 0 {
        Plan::invalid("dims must be > 0"@)
    } else if num_heads % 16 != 0 {
        Plan::invalid(
            "mla_decode_fp8kv_mma requires num_heads % 16 == 0 (got "@ + text::decimal(num_heads)
                + ")"@,
        )
    } else {
        Plan::raw_launch(
            "fa_fp8kv_mla_decode_mma"@,
            "fa_fp8kv_mla_decode_mma"@,
            (head_groups, batch, 1),
            (128, 1, 1),
            27968,
            Seq::empty(),
            seq![
                Arg::buffer(0), Arg::buffer(1), Arg::buffer(2), Arg::buffer(3), Arg::buffer(4),
                Arg::word(num_heads), Arg::word(seq_kv), Arg::Scalar(scale), Arg::Scalar(kv_scale),
            ],
            Some("attr: "@),
            "fp8kv launch: "@,
        )
    }
}

/// Hybrid BF16 MMA with FP8 KV read — 16 heads/CTA, m16n8k16 QK + m16n8k8 PV.
/// Reads FP8 E4M3 c_kv/k_rope with per-tensor kv_scale, dequantizes to BF16 in
/// SMEM during load, then uses the proven BF16 MMA path. Requires num_heads % 16 == 0.
pub fn mla_decode_fp8kv_mma(
    q_c_len: usize,
    q_r_len: usize,
    c_kv_len: usize,
    k_rope_len: usize,
    o_len: usize,
    batch: u32,
    num_heads: u32,
    seq_kv: u32,
    scale: F32,
    kv_scale: F32,
) -> (r: Result<Launch>)
    ensures
        plan::outcome(r) == mla_decode_fp8kv_mma_plan(
            q_c_len as int, q_r_len as int, c_kv_len as int, k_rope_len as int, o_len as int,
            batch as int, num_heads as int, seq_kv as int, scale, kv_scale,
        ),
        plan::launchable(r, 5),
{
    if batch == 0 || num_heads == 0 || seq_kv == 0 {
        return Text::new("dims must be > 0").refuse();
    }
    if num_heads % 16 != 0 {
        return Text::new("mla_decode_fp8kv_mma requires num_heads % 16 == 0 (got ")
            .n(num_heads as u64).s(")").refuse();
    }
    let head_groups: u32 = num_heads / 16;
    Ok(
        Launch::raw(
            "fa_fp8kv_mla_decode_mma",
            "fa_fp8kv_mla_decode_mma",
            (head_groups, batch, 1),
            (128, 1, 1),
            27968,
            Vec::new(),
            vec![
                Arg::param(0), Arg::param(1), Arg::param(2), Arg::param(3), Arg::param(4),
                Arg::Word(num_heads), Arg::Word(seq_kv), Arg::Scalar(scale), Arg::Scalar(kv_scale),
            ],
            Some("attr: "),
            Text::new("fp8kv launch: "),
        ),
    )
}

/// The answer of [`mla_decode_fp8`].
pub open spec fn mla_decode_fp8_plan(
    q_c_len: int, q_r_len: int, c_kv_len: int, k_rope_len: int, o_len: int, batch: int,
    num_heads: int, seq_kv: int, scale: F32, kv_scale: F32,
) -> Plan {
    if batch == 0 || num_heads == 0 || seq_kv == 0 {
        Plan::invalid("batch, num_heads, seq_kv must be > 0"@)
    } else {
        Plan::raw_launch(
            "fa_fp8_mla_decode"@,
            "fa_fp8_mla_decode"@,
            (num_heads, batch, 1),
            (128, 1, 1),
            0,
            Seq::empty(),
            seq![
                Arg::buffer(0), Arg::buffer(1), Arg::buffer(2), Arg::buffer(3), Arg::buffer(4),
                Arg::word(num_heads), Arg::word(seq_kv), Arg::Scalar(scale), Arg::Scalar(kv_scale),
            ],
            None,
            "MLA FP8 decode launch: "@,
        )
    }
}

/// FP8-KV variant of `mla_decode_bf16`: the compressed KV and RoPE K caches are
/// stored as FP8 E4M3 and dequantized by `kv_scale` during the score/output
/// accumulation. Query inputs stay BF16.
pub fn mla_decode_fp8(
    q_c_len: usize,
    q_r_len: usize,
    c_kv_len: usize,
    k_rope_len: usize,
    o_len: usize,
    batch: u32,
    num_heads: u32,
    seq_kv: u32,
    scale: F32,
    kv_scale: F32,
) -> (r: Result<Launch>)
    ensures
        plan::outcome(r) == mla_decode_fp8_plan(
            q_c_len as int, q_r_len as int, c_kv_len as int, k_rope_len as int, o_len as int,
            batch as int, num_heads as int, seq_kv as int, scale, kv_scale,
        ),
        plan::launchable(r, 5),
{
    if batch == 0 || num_heads == 0 || seq_kv == 0 {
        return Text::new("batch, num_heads, seq_kv must be > 0").refuse();
    }
    Ok(
        Launch::raw(
            "fa_fp8_mla_decode",
            "fa_fp8_mla_decode",
            (num_heads, batch, 1),
            (128, 1, 1),
            0,
            Vec::new(),
            vec![
                Arg::param(0), Arg::param(1), Arg::param(2), Arg::param(3), Arg::param(4),
                Arg::Word(num_heads), Arg::Word(seq_kv), Arg::Scalar(scale), Arg::Scalar(kv_scale),
            ],
            None,
            Text::new("MLA FP8 decode launch: "),
        ),
    )
}

/// The answer of [`mla_decode_bf16_paged`].
pub open spec fn mla_decode_bf16_paged_plan(
    q_c_len: int, q_r_len: int, c_kv_len: int, k_rope_len: int, page_table_len: int,
    seq_lens_len: int, o_len: int, batch: int, num_heads: int, max_pages: int, page_size: int,
    scale: F32,
) -> Plan {
    if batch == 0 || num_heads == 0 || max_pages == 0 || page_size == 0 {
        Plan::invalid("batch, num_heads, max_pages, page_size must be > 0"@)
    } else {
        Plan::raw_launch(
            "fa_bf16_mla_decode_paged"@,
            "fa_bf16_mla_decode_paged"@,
            (num_heads, batch, 1),
            (128, 1, 1),
            0,
            Seq::empty(),
            seq![
                Arg::buffer(0), Arg::buffer(1), Arg::buffer(2), Arg::buffer(3), Arg::buffer(4),
                Arg::buffer(5), Arg::buffer(6), Arg::word(num_heads), Arg::word(max_pages),
                Arg::word(page_size), Arg::Scalar(scale),
            ],
            None,
            "MLA paged decode launch: "@,
        )
    }
}

/// Launch weight-absorbed MLA decode with PAGED KV cache (BF16, seq_q=1).
pub fn mla_decode_bf16_paged(
    q_c_len: usize,
    q_r_len: usize,
    c_kv_len: usize,
    k_rope_len: usize,
    page_table_len: usize,
    seq_lens_len: usize,
    o_len: usize,
    batch: u32,
    num_heads: u32,
    max_pages: u32,
    page_size: u32,
    scale: F32,
) -> (r: Result<Launch>)
    ensures
        plan::outcome(r) == mla_decode_bf16_paged_plan(
            q_c_len as int, q_r_len as int, c_kv_len as int, k_rope_len as int,
            page_table_len as int, seq_lens_len as int, o_len as int, batch as int,
            num_heads as int, max_pages as int, page_size as int, scale,
        ),
        plan::launchable(r, 7),
{
    if batch == 0 || num_heads == 0 || max_pages == 0 || page_size == 0 {
        return Text::new("batch, num_heads, max_pages, page_size must be > 0").refuse();
    }
    Ok(
        Launch::raw(
            "fa_bf16_mla_decode_paged",
            "fa_bf16_mla_decode_paged",
            (num_heads, batch, 1),
            (128, 1, 1),
            0,
            Vec::new(),
            vec![
                Arg::param(0), Arg::param(1), Arg::param(2), Arg::param(3), Arg::param(4),
                Arg::param(5), Arg::param(6), Arg::Word(num_heads), Arg::Word(max_pages),
                Arg::Word(page_size), Arg::Scalar(scale),
            ],
            None,
            Text::new("MLA paged decode launch: "),
        ),
    )
}

/// The answer of [`mla_decode_bf16_tma`].
pub open spec fn mla_decode_bf16_tma_plan(
    q_c_len: int, q_r_len: int, c_kv_len: int, k_rope_len: int, o_len: int, batch: int,
    num_heads: int, seq_kv: int, scale: F32,
) -> Plan {
    let total_kv_rows = batch * seq_kv;
    if batch == 0 || num_heads == 0 || seq_kv == 0 {
        Plan::invalid("dims must be > 0"@)
    } else if total_kv_rows > u32::MAX {
        Plan::Undefined
    } else {
        Plan::raw_launch(
            "fa_bf16_mla_decode_tma"@,
            "fa_bf16_mla_decode_tma"@,
            (num_heads, batch, 1),
            (128, 1, 1),
            19616,
            seq![
                tensor_map::desc(2, total_kv_rows, MLA_D_C as int, 8, 64),
                tensor_map::desc(3, total_kv_rows, MLA_D_R as int, 8, 64),
            ],
            seq![
                Arg::buffer(0), Arg::buffer(1), Arg::Descriptor(0), Arg::Descriptor(1),
                Arg::buffer(4), Arg::word(num_heads), Arg::word(seq_kv), Arg::Scalar(scale),
            ],
            Some("cuFuncSetAttribute: "@),
            "MLA TMA launch: "@,
        )
    }
}

/// TMA-accelerated MLA BF16 decode.
pub fn mla_decode_bf16_tma(
    q_c_len: usize,
    q_r_len: usize,
    c_kv_len: usize,
    k_rope_len: usize,
    o_len: usize,
    batch: u32,
    num_heads: u32,
    seq_kv: u32,
    scale: F32,
) -> (r: Result<Launch>)
    requires
        mla_decode_bf16_tma_plan(
            q_c_len as int, q_r_len as int, c_kv_len as int, k_rope_len as int, o_len as int,
            batch as int, num_heads as int, seq_kv as int, scale,
        ) !is Undefined,
    ensures
        plan::outcome(r) == mla_decode_bf16_tma_plan(
            q_c_len as int, q_r_len as int, c_kv_len as int, k_rope_len as int, o_len as int,
            batch as int, num_heads as int, seq_kv as int, scale,
        ),
        plan::launchable(r, 5),
{
    if batch == 0 || num_heads == 0 || seq_kv == 0 {
        return Text::new("dims must be > 0").refuse();
    }
    let total_kv_rows: u32 = batch * seq_kv;
    Ok(
        Launch::raw(
            "fa_bf16_mla_decode_tma",
            "fa_bf16_mla_decode_tma",
            (num_heads, batch, 1),
            (128, 1, 1),
            19616,
            vec![
                tensor_map::create_tma_desc(2, total_kv_rows, MLA_D_C, 8, 64),
                tensor_map::create_tma_desc(3, total_kv_rows, MLA_D_R, 8, 64),
            ],
            vec![
                Arg::param(0), Arg::param(1), Arg::Descriptor(0), Arg::Descriptor(1), Arg::param(4),
                Arg::Word(num_heads), Arg::Word(seq_kv), Arg::Scalar(scale),
            ],
            Some("cuFuncSetAttribute: "),
            Text::new("MLA TMA launch: "),
        ),
    )
}

/// The answer of [`mla_prefill_fp8`].
pub open spec fn mla_prefill_fp8_plan(
    q_c_len: int, q_r_len: int, c_kv_len: int, k_rope_len: int, o_len: int, batch: int,
    num_heads: int, seq_q: int, seq_kv: int, scale: F32, kv_scale: F32,
) -> Plan {
    if batch == 0 || num_heads == 0 || seq_q == 0 || seq_kv == 0 {
        Plan::invalid("dims must be > 0"@)
    } else {
        Plan::raw_launch(
            "fa_fp8_mla_prefill"@,
            "fa_fp8_mla_prefill"@,
            (seq_q, num_heads, batch),
            (128, 1, 1),
            0,
            Seq::empty(),
            seq![
                Arg::buffer(0), Arg::buffer(1), Arg::buffer(2), Arg::buffer(3), Arg::buffer(4),
                Arg::word(num_heads), Arg::word(seq_q), Arg::word(seq_kv), Arg::Scalar(scale),
                Arg::Scalar(kv_scale),
            ],
            None,
            "MLA FP8 prefill launch: "@,
        )
    }
}

/// Launch weight-absorbed MLA prefill with FP8 KV cache (causal, seq_q > 1).
/// Used by DeepSeek V3 / V4 FP8 KV serving during prefill.
pub fn mla_prefill_fp8(
    q_c_len: usize,
    q_r_len: usize,
    c_kv_len: usize,
    k_rope_len: usize,
    o_len: usize,
    batch: u32,
    num_heads: u32,
    seq_q: u32,
    seq_kv: u32,
    scale: F32,
    kv_scale: F32,
) -> (r: Result<Launch>)
    ensures
        plan::outcome(r) == mla_prefill_fp8_plan(
            q_c_len as int, q_r_len as int, c_kv_len as int, k_rope_len as int, o_len as int,
            batch as int, num_heads as int, seq_q as int, seq_kv as int, scale, kv_scale,
        ),
        plan::launchable(r, 5),
{
    if batch == 0 || num_heads == 0 || seq_q == 0 || seq_kv == 0 {
        return Text::new("dims must be > 0").refuse();
    }
    Ok(
        Launch::raw(
            "fa_fp8_mla_prefill",
            "fa_fp8_mla_prefill",
            (seq_q, num_heads, batch),
            (128, 1, 1),
            0,
            Vec::new(),
            vec![
                Arg::param(0), Arg::param(1), Arg::param(2), Arg::param(3), Arg::param(4),
                Arg::Word(num_heads), Arg::Word(seq_q), Arg::Word(seq_kv), Arg::Scalar(scale),
                Arg::Scalar(kv_scale),
            ],
            None,
            Text::new("MLA FP8 prefill launch: "),
        ),
    )
}

/// The answer of [`mla_split_kv_combine`].
pub open spec fn mla_split_kv_combine_plan(
    o_partial_len: int, lse_len: int, o_final_len: int, batch: int, num_heads: int, num_splits: int,
) -> Plan {
    if batch == 0 || num_heads == 0 || num_splits == 0 {
        Plan::invalid("dims must be > 0"@)
    } else if num_splits > 64 {
        Plan::invalid(
            "mla_split_kv_combine supports up to 64 splits (got "@ + text::decimal(num_splits)
                + ")"@,
        )
    } else {
        Plan::raw_launch(
            "mla_split_kv_combine"@,
            "mla_split_kv_combine"@,
            (num_heads, batch, 1),
            (128, 1, 1),
            0,
            Seq::empty(),
            seq![
                Arg::buffer(0), Arg::buffer(1), Arg::buffer(2), Arg::word(num_splits),
                Arg::word(num_heads),
            ],
            None,
            "MLA combine launch: "@,
        )
    }
}

/// Combine partial MLA outputs from split-K decode via log-sum-exp.
pub fn mla_split_kv_combine(
    o_partial_len: usize,
    lse_len: usize,
    o_final_len: usize,
    batch: u32,
    num_heads: u32,
    num_splits: u32,
) -> (r: Result<Launch>)
    ensures
        plan::outcome(r) == mla_split_kv_combine_plan(
            o_partial_len as int, lse_len as int, o_final_len as int, batch as int,
            num_heads as int, num_splits as int,
        ),
        plan::launchable(r, 3),
{
    if batch == 0 || num_heads == 0 || num_splits == 0 {
        return Text::new("dims must be > 0").refuse();
    }
    if num_splits > 64 {
        return Text::new("mla_split_kv_combine supports up to 64 splits (got ").n(num_splits as u64)
            .s(")").refuse();
    }
    Ok(
        Launch::raw(
            "mla_split_kv_combine",
            "mla_split_kv_combine",
            (num_heads, batch, 1),
            (128, 1, 1),
            0,
            Vec::new(),
            vec![
                Arg::param(0), Arg::param(1), Arg::param(2), Arg::Word(num_splits),
                Arg::Word(num_heads),
            ],
            None,
            Text::new("MLA combine launch: "),
        ),
    )
}

/// The answer of [`mla_decode_bf16_mma_tma_pq`].
pub open spec fn mla_decode_bf16_mma_tma_pq_plan(
    q_c_len: int, q_r_len: int, c_kv_len: int, k_rope_len: int, o_len: int, batch: int,
    num_heads: int, seq_kv: int, scale: F32,
) -> Plan {
    let total_kv_rows = batch * seq_kv;
    let head_groups = num_heads / 16;
    if num_heads % 16 != 0 {
        Plan::invalid(
            "mla_decode_bf16_mma_tma_pq requires num_heads % 16 == 0 (got "@
                + text::decimal(num_heads) + ")"@,
        )
    } else if total_kv_rows > u32::MAX {
        Plan::Undefined
    } else {
        Plan::raw_launch(
            "fa_bf16_mla_decode_mma_tma_pq"@,
            "fa_bf16_mla_decode_mma_tma_pq"@,
            (head_groups, batch, 1),
            (128, 1, 1),
            37216,
            seq![
                tensor_map::desc_swizzle(2, total_kv_rows, MLA_D_C as int, 8, 64),
                tensor_map::desc_swizzle(3, total_kv_rows, MLA_D_R as int, 8, 64),
            ],
            seq![
                Arg::buffer(0), Arg::buffer(1), Arg::Descriptor(0), Arg::Descriptor(1),
                Arg::buffer(4), Arg::word(num_heads), Arg::word(seq_kv), Arg::Scalar(scale),
            ],
            Some("attr: "@),
            "pq launch: "@,
        )
    }
}

/// MMA + TMA + persistent Q_r. Identical to `mla_decode_bf16_mma_tma` but
/// hoists the 4 Q_r ldmatrix calls out of the chunk loop (Q_r data is
/// loop-invariant). 20 extra persistent registers, no spills, same
/// occupancy.
pub fn mla_decode_bf16_mma_tma_pq(
    q_c_len: usize,
    q_r_len: usize,
    c_kv_len: usize,
    k_rope_len: usize,
    o_len: usize,
    batch: u32,
    num_heads: u32,
    seq_kv: u32,
    scale: F32,
) -> (r: Result<Launch>)
    requires
        mla_decode_bf16_mma_tma_pq_plan(
            q_c_len as int, q_r_len as int, c_kv_len as int, k_rope_len as int, o_len as int,
            batch as int, num_heads as int, seq_kv as int, scale,
        ) !is Undefined,
    ensures
        plan::outcome(r) == mla_decode_bf16_mma_tma_pq_plan(
            q_c_len as int, q_r_len as int, c_kv_len as int, k_rope_len as int, o_len as int,
            batch as int, num_heads as int, seq_kv as int, scale,
        ),
        batch > 0 && num_heads > 0 ==> plan::launchable(r, 5),
{
    if num_heads % 16 != 0 {
        return Text::new("mla_decode_bf16_mma_tma_pq requires num_heads % 16 == 0 (got ")
            .n(num_heads as u64).s(")").refuse();
    }
    let total_kv_rows: u32 = batch * seq_kv;
    let head_groups: u32 = num_heads / 16;
    Ok(
        Launch::raw(
            "fa_bf16_mla_decode_mma_tma_pq",
            "fa_bf16_mla_decode_mma_tma_pq",
            (head_groups, batch, 1),
            (128, 1, 1),
            37216,
            vec![
                tensor_map::create_tma_desc_swizzle(2, total_kv_rows, MLA_D_C, 8, 64),
                tensor_map::create_tma_desc_swizzle(3, total_kv_rows, MLA_D_R, 8, 64),
            ],
            vec![
                Arg::param(0), Arg::param(1), Arg::Descriptor(0), Arg::Descriptor(1), Arg::param(4),
                Arg::Word(num_heads), Arg::Word(seq_kv), Arg::Scalar(scale),
            ],
            Some("attr: "),
            Text::new("pq launch: "),
        ),
    )
}

/// The answer of [`mla_decode_bf16_mma_tma`].
pub open spec fn mla_decode_bf16_mma_tma_plan(
    q_c_len: int, q_r_len: int, c_kv_len: int, k_rope_len: int, o_len: int, batch: int,
    num_heads: int, seq_kv: int, scale: F32,
) -> Plan {
    let total_kv_rows = batch * seq_kv;
    let head_groups = num_heads / 16;
    if batch == 0 || num_heads == 0 || seq_kv == 0 {
        Plan::invalid("dims must be > 0"@)
    } else if num_heads % 16 != 0 {
        Plan::invalid(
            "mla_decode_bf16_mma_tma requires num_heads % 16 == 0 (got "@
                + text::decimal(num_heads) + ")"@,
        )
    } else if total_kv_rows > u32::MAX {
        Plan::Undefined
    } else {
        Plan::raw_launch(
            "fa_bf16_mla_decode_mma_tma"@,
            "fa_bf16_mla_decode_mma_tma"@,
            (head_groups, batch, 1),
            (128, 1, 1),
            37216,
            seq![
                tensor_map::desc_swizzle(2, total_kv_rows, MLA_D_C as int, 8, 64),
                tensor_map::desc_swizzle(3, total_kv_rows, MLA_D_R as int, 8, 64),
            ],
            seq![
                Arg::buffer(0), Arg::buffer(1), Arg::Descriptor(0), Arg::Descriptor(1),
                Arg::buffer(4), Arg::word(num_heads), Arg::word(seq_kv), Arg::Scalar(scale),
            ],
            Some("cuFuncSetAttribute: "@),
            "MMA TMA launch: "@,
        )
    }
}

/// MMA + TMA double-buffered BF16 MLA decode — prefetches chunk N+1 while
/// compute runs on chunk N. Uses SWIZZLE_128B TMA descriptors so the ldmatrix
/// layout matches. Requires num_heads % 16 == 0.
pub fn mla_decode_bf16_mma_tma(
    q_c_len: usize,
    q_r_len: usize,
    c_kv_len: usize,
    k_rope_len: usize,
    o_len: usize,
    batch: u32,
    num_heads: u32,
    seq_kv: u32,
    scale: F32,
) -> (r: Result<Launch>)
    requires
        mla_decode_bf16_mma_tma_plan(
            q_c_len as int, q_r_len as int, c_kv_len as int, k_rope_len as int, o_len as int,
            batch as int, num_heads as int, seq_kv as int, scale,
        ) !is Undefined,
    ensures
        plan::outcome(r) == mla_decode_bf16_mma_tma_plan(
            q_c_len as int, q_r_len as int, c_kv_len as int, k_rope_len as int, o_len as int,
            batch as int, num_heads as int, seq_kv as int, scale,
        ),
        plan::launchable(r, 5),
{
    if batch == 0 || num_heads == 0 || seq_kv == 0 {
        return Text::new("dims must be > 0").refuse();
    }
    if num_heads % 16 != 0 {
        return Text::new("mla_decode_bf16_mma_tma requires num_heads % 16 == 0 (got ")
            .n(num_heads as u64).s(")").refuse();
    }
    let total_kv_rows: u32 = batch * seq_kv;
    let head_groups: u32 = num_heads / 16;
    Ok(
        Launch::raw(
            "fa_bf16_mla_decode_mma_tma",
            "fa_bf16_mla_decode_mma_tma",
            (head_groups, batch, 1),
            (128, 1, 1),
            37216,
            vec![
                tensor_map::create_tma_desc_swizzle(2, total_kv_rows, MLA_D_C, 8, 64),
                tensor_map::create_tma_desc_swizzle(3, total_kv_rows, MLA_D_R, 8, 64),
            ],
            vec![
                Arg::param(0), Arg::param(1), Arg::Descriptor(0), Arg::Descriptor(1), Arg::param(4),
                Arg::Word(num_heads), Arg::Word(seq_kv), Arg::Scalar(scale),
            ],
            Some("cuFuncSetAttribute: "),
            Text::new("MMA TMA launch: "),
        ),
    )
}

/// The answer of [`mla_decode_bf16_mma`].
pub open spec fn mla_decode_bf16_mma_plan(
    q_c_len: int, q_r_len: int, c_kv_len: int, k_rope_len: int, o_len: int, batch: int,
    num_heads: int, seq_kv: int, scale: F32,
) -> Plan {
    let head_groups = num_heads / 16;
    if batch == 0 || num_heads == 0 || seq_kv == 0 {
        Plan::invalid("dims must be > 0"@)
    } else if num_heads % 16 != 0 {
        Plan::invalid(
            "mla_decode_bf16_mma requires num_heads % 16 == 0 (got "@ + text::decimal(num_heads)
                + ")"@,
        )
    } else {
        Plan::raw_launch(
            "fa_bf16_mla_decode_mma"@,
            "fa_bf16_mla_decode_mma"@,
            (head_groups, batch, 1),
            (128, 1, 1),
            27968,
            Seq::empty(),
            seq![
                Arg::buffer(0), Arg::buffer(1), Arg::buffer(2), Arg::buffer(3), Arg::buffer(4),
                Arg::word(num_heads), Arg::word(seq_kv), Arg::Scalar(scale),
            ],
            Some("cuFuncSetAttribute: "@),
            "MLA MMA launch: "@,
        )
    }
}

/// MMA-accelerated BF16 MLA decode.
pub fn mla_decode_bf16_mma(
    q_c_len: usize,
    q_r_len: usize,
    c_kv_len: usize,
    k_rope_len: usize,
    o_len: usize,
    batch: u32,
    num_heads: u32,
    seq_kv: u32,
    scale: F32,
) -> (r: Result<Launch>)
    ensures
        plan::outcome(r) == mla_decode_bf16_mma_plan(
            q_c_len as int, q_r_len as int, c_kv_len as int, k_rope_len as int, o_len as int,
            batch as int, num_heads as int, seq_kv as int, scale,
        ),
        plan::launchable(r, 5),
{
    if batch == 0 || num_heads == 0 || seq_kv == 0 {
        return Text::new("dims must be > 0").refuse();
    }
    if num_heads % 16 != 0 {
        return Text::new("mla_decode_bf16_mma requires num_heads % 16 == 0 (got ")
            .n(num_heads as u64).s(")").refuse();
    }
    let head_groups: u32 = num_heads / 16;
    Ok(
        Launch::raw(
            "fa_bf16_mla_decode_mma",
            "fa_bf16_mla_decode_mma",
            (head_groups, batch, 1),
            (128, 1, 1),
            27968,
            Vec::new(),
            vec![
                Arg::param(0), Arg::param(1), Arg::param(2), Arg::param(3), Arg::param(4),
                Arg::Word(num_heads), Arg::Word(seq_kv), Arg::Scalar(scale),
            ],
            Some("cuFuncSetAttribute: "),
            Text::new("MLA MMA launch: "),
        ),
    )
}

/// The answer of [`mla_decode_bf16_mma_qk`].
pub open spec fn mla_decode_bf16_mma_qk_plan(
    q_c_len: int, q_r_len: int, c_kv_len: int, k_rope_len: int, scores_len: int, batch: int,
    num_heads: int, seq_kv: int, scale: F32,
) -> Plan {
    let head_groups = num_heads / 16;
    if batch == 0 || num_heads == 0 || seq_kv == 0 {
        Plan::invalid("dims must be > 0"@)
    } else if num_heads % 16 != 0 {
        Plan::invalid(
            "mla_decode_bf16_mma_qk requires num_heads % 16 == 0 (got "@
                + text::decimal(num_heads) + ")"@,
        )
    } else {
        Plan::raw_launch(
            "fa_bf16_mla_decode_mma_qk"@,
            "fa_bf16_mla_decode_mma_qk"@,
            (head_groups, batch, 1),
            (128, 1, 1),
            28160,
            Seq::empty(),
            seq![
                Arg::buffer(0), Arg::buffer(1), Arg::buffer(2), Arg::buffer(3), Arg::buffer(4),
                Arg::word(num_heads), Arg::word(seq_kv), Arg::Scalar(scale),
            ],
            Some("cuFuncSetAttribute: "@),
            "MMA QK launch: "@,
        )
    }
}

/// QK-only entry point of the tensor-core MLA decode kernel, for validation.
pub fn mla_decode_bf16_mma_qk(
    q_c_len: usize,
    q_r_len: usize,
    c_kv_len: usize,
    k_rope_len: usize,
    scores_len: usize,
    batch: u32,
    num_heads: u32,
    seq_kv: u32,
    scale: F32,
) -> (r: Result<Launch>)
    ensures
        plan::outcome(r) == mla_decode_bf16_mma_qk_plan(
            q_c_len as int, q_r_len as int, c_kv_len as int, k_rope_len as int, scores_len as int,
            batch as int, num_heads as int, seq_kv as int, scale,
        ),
        plan::launchable(r, 5),
{
    if batch == 0 || num_heads == 0 || seq_kv == 0 {
        return Text::new("dims must be > 0").refuse();
    }
    if num_heads % 16 != 0 {
        return Text::new("mla_decode_bf16_mma_qk requires num_heads % 16 == 0 (got ")
            .n(num_heads as u64).s(")").refuse();
    }
    let head_groups: u32 = num_heads / 16;
    Ok(
        Launch::raw(
            "fa_bf16_mla_decode_mma_qk",
            "fa_bf16_mla_decode_mma_qk",
            (head_groups, batch, 1),
            (128, 1, 1),
            28160,
            Vec::new(),
            vec![
                Arg::param(0), Arg::param(1), Arg::param(2), Arg::param(3), Arg::param(4),
                Arg::Word(num_heads), Arg::Word(seq_kv), Arg::Scalar(scale),
            ],
            Some("cuFuncSetAttribute: "),
            Text::new("MMA QK launch: "),
        ),
    )
}

/// The answer of [`fa_fp8_mla_decode_mma_v3`].
pub open spec fn fa_fp8_mla_decode_mma_v3_plan(
    q_c_len: int, q_r_len: int, c_kv_len: int, k_rope_len: int, o_len: int, batch: int,
    num_heads: int, seq_kv: int, scale: F32, q_scale: F32, kv_scale: F32,
) -> Plan {
    if batch == 0 || num_heads == 0 || seq_kv == 0 {
        Plan::invalid("dims must be > 0"@)
    } else if num_heads % 16 != 0 {
        Plan::invalid("num_heads must be multiple of 16 (got "@ + text::decimal(num_heads) + ")"@)
    } else {
        Plan::launch(
            "fa_fp8_mla_decode_mma_v3"@,
            "fa_fp8_mla_decode_mma_v3"@,
            (num_heads / 16, batch, 1),
            (128, 1, 1),
            0,
            seq![
                Arg::buffer(0), Arg::buffer(1), Arg::buffer(2), Arg::buffer(3), Arg::buffer(4),
                Arg::word(num_heads), Arg::word(seq_kv), Arg::Scalar(scale), Arg::Scalar(q_scale),
                Arg::Scalar(kv_scale),
            ],
        )
    }
}

/// Warp-specialized 4-warp FP8 MMA MLA decode (v3). Same FP8 MMA QK as v2 but
/// distributes PV (64 N-tiles for D_C=512) and final normalize (512 cols)
/// across 4 warps. Targets long-Skv workloads where v1's 4-warp parallelism
/// dominated v2's single-warp throughput.
pub fn fa_fp8_mla_decode_mma_v3(
    q_c_len: usize,
    q_r_len: usize,
    c_kv_len: usize,
    k_rope_len: usize,
    o_len: usize,
    batch: u32,
    num_heads: u32,
    seq_kv: u32,
    scale: F32,
    q_scale: F32,
    kv_scale: F32,
) -> (r: Result<Launch>)
    ensures
        plan::outcome(r) == fa_fp8_mla_decode_mma_v3_plan(
            q_c_len as int, q_r_len as int, c_kv_len as int, k_rope_len as int, o_len as int,
            batch as int, num_heads as int, seq_kv as int, scale, q_scale, kv_scale,
        ),
        plan::launchable(r, 5),
{
    if batch == 0 || num_heads == 0 || seq_kv == 0 {
        return Text::new("dims must be > 0").refuse();
    }
    if num_heads % 16 != 0 {
        return Text::new("num_heads must be multiple of 16 (got ").n(num_heads as u64).s(")")
            .refuse();
    }
    Ok(
        Launch::new(
            "fa_fp8_mla_decode_mma_v3",
            "fa_fp8_mla_decode_mma_v3",
            (num_heads / 16, batch, 1),
            (128, 1, 1),
            0,
            vec![
                Arg::param(0), Arg::param(1), Arg::param(2), Arg::param(3), Arg::param(4),
                Arg::Word(num_heads), Arg::Word(seq_kv), Arg::Scalar(scale), Arg::Scalar(q_scale),
                Arg::Scalar(kv_scale),
            ],
        ),
    )
}

/// The answer of [`fa_fp8_mla_decode_mma_v2`].
pub open spec fn fa_fp8_mla_decode_mma_v2_plan(
    q_c_len: int, q_r_len: int, c_kv_len: int, k_rope_len: int, o_len: int, batch: int,
    num_heads: int, seq_kv: int, scale: F32, q_scale: F32, kv_scale: F32,
) -> Plan {
    if batch == 0 || num_heads == 0 || seq_kv == 0 {
        Plan::invalid("dims must be > 0"@)
    } else if num_heads % 16 != 0 {
        Plan::invalid("num_heads must be multiple of 16 (got "@ + text::decimal(num_heads) + ")"@)
    } else {
        Plan::launch(
            "fa_fp8_mla_decode_mma_v2"@,
            "fa_fp8_mla_decode_mma_v2"@,
            (num_heads / 16, batch, 1),
            (32, 1, 1),
            0,
            seq![
                Arg::buffer(0), Arg::buffer(1), Arg::buffer(2), Arg::buffer(3), Arg::buffer(4),
                Arg::word(num_heads), Arg::word(seq_kv), Arg::Scalar(scale), Arg::Scalar(q_scale),
                Arg::Scalar(kv_scale),
            ],
        )
    }
}

/// FP8 MMA MLA decode that writes the QK scores of the first chunk. `q_c`, `q_r`, `c_kv` and
/// `k_rope` are FP8 E4M3. Constraint: num_heads % 16 == 0.
pub fn fa_fp8_mla_decode_mma_v2(
    q_c_len: usize,
    q_r_len: usize,
    c_kv_len: usize,
    k_rope_len: usize,
    o_len: usize,
    batch: u32,
    num_heads: u32,
    seq_kv: u32,
    scale: F32,
    q_scale: F32,
    kv_scale: F32,
) -> (r: Result<Launch>)
    ensures
        plan::outcome(r) == fa_fp8_mla_decode_mma_v2_plan(
            q_c_len as int, q_r_len as int, c_kv_len as int, k_rope_len as int, o_len as int,
            batch as int, num_heads as int, seq_kv as int, scale, q_scale, kv_scale,
        ),
        plan::launchable(r, 5),
{
    if batch == 0 || num_heads == 0 || seq_kv == 0 {
        return Text::new("dims must be > 0").refuse();
    }
    if num_heads % 16 != 0 {
        return Text::new("num_heads must be multiple of 16 (got ").n(num_heads as u64).s(")")
            .refuse();
    }
    Ok(
        Launch::new(
            "fa_fp8_mla_decode_mma_v2",
            "fa_fp8_mla_decode_mma_v2",
            (num_heads / 16, batch, 1),
            (32, 1, 1),
            0,
            vec![
                Arg::param(0), Arg::param(1), Arg::param(2), Arg::param(3), Arg::param(4),
                Arg::Word(num_heads), Arg::Word(seq_kv), Arg::Scalar(scale), Arg::Scalar(q_scale),
                Arg::Scalar(kv_scale),
            ],
        ),
    )
}

} // verus!
