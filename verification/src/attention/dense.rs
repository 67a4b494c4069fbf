//! Attention over whole sequences.
use crate::attention::dims::HEAD_DIM;
use crate::attention::dims;
use crate::error::Result;
use crate::plan::{Arg, F32, Launch, Plan};
use crate::plan;
use crate::shape;
use crate::text::Text;
use crate::text;
use vstd::prelude::*;

verus! {

/// The answer of [`flash_attn_bf16_d128`].
pub open spec fn flash_attn_bf16_d128_plan(
    q_len: int, k_len: int, v_len: int, o_len: int, batch: int, num_heads: int, seq_q: int,
    seq_kv: int, scale: F32,
) -> Plan {
    let grid_x = shape::ceil_div(seq_q, 16);
    if let Some(fault) = dims::attn_dims_fault(batch, num_heads, seq_q, seq_kv) {
        Plan::Fail(fault)
    } else if dims::attn_needs_overflow(batch, num_heads, seq_q, seq_kv) {
        Plan::Undefined
    } else if let Some(fault) = dims::attn_bf16_bufs_fault(
        q_len, k_len, v_len, o_len, batch, num_heads, seq_q, seq_kv,
    ) {
        Plan::Fail(fault)
    } else {
        Plan::launch(
            "fa_bf16_d128"@,
            "flash_attn_bf16_d128"@,
            (grid_x, num_heads, batch),
            (32, 1, 1),
            18432,
            seq![
                Arg::buffer(0), Arg::buffer(1), Arg::buffer(2), Arg::buffer(3), Arg::word(seq_q),
                Arg::word(seq_kv), Arg::word(num_heads), Arg::Scalar(scale),
            ],
        )
    }
}

/// V1-generation non-causal BF16 flash attention (head_dim=128, single warp per
/// block, Br=16). Superseded by `flash_attn_bf16_v3_d128`.
pub fn flash_attn_bf16_d128(
    q_len: usize,
    k_len: usize,
    v_len: usize,
    o_len: usize,
    batch: u32,
    num_heads: u32,
    seq_q: u32,
    seq_kv: u32,
    scale: F32,
) -> (r: Result<Launch>)
    requires
        flash_attn_bf16_d128_plan(
            q_len as int, k_len as int, v_len as int, o_len as int, batch as int, num_heads as int,
            seq_q as int, seq_kv as int, scale,
        ) !is Undefined,
    ensures
        plan::outcome(r) == flash_attn_bf16_d128_plan(
            q_len as int, k_len as int, v_len as int, o_len as int, batch as int, num_heads as int,
            seq_q as int, seq_kv as int, scale,
        ),
        plan::launchable(r, 4),
{
    if let Err(e) = dims::validate_attn_dims(batch, num_heads, seq_q, seq_kv) {
        return Err(e);
    }
    if let Err(e) = dims::validate_attn_bf16_bufs(
        q_len, k_len, v_len, o_len, batch, num_heads, seq_q, seq_kv,
    ) {
        return Err(e);
    }
    let grid_x: u32 = shape::div_ceil(seq_q, 16);
    Ok(
        Launch::new(
            "fa_bf16_d128",
            "flash_attn_bf16_d128",
            (grid_x, num_heads, batch),
            (32, 1, 1),
            18432,
            vec![
                Arg::param(0), Arg::param(1), Arg::param(2), Arg::param(3), Arg::Word(seq_q),
                Arg::Word(seq_kv), Arg::Word(num_heads), Arg::Scalar(scale),
            ],
        ),
    )
}

/// The answer of [`flash_attn_bf16_v3_d128`].
pub open spec fn flash_attn_bf16_v3_d128_plan(
    q_len: int, k_len: int, v_len: int, o_len: int, batch: int, num_heads: int, seq_q: int,
    seq_kv: int, scale: F32,
) -> Plan {
    let grid_x = shape::ceil_div(seq_q, 128);
    if let Some(fault) = dims::attn_dims_fault(batch, num_heads, seq_q, seq_kv) {
        Plan::Fail(fault)
    } else if dims::attn_needs_overflow(batch, num_heads, seq_q, seq_kv) {
        Plan::Undefined
    } else if let Some(fault) = dims::attn_bf16_bufs_fault(
        q_len, k_len, v_len, o_len, batch, num_heads, seq_q, seq_kv,
    ) {
        Plan::Fail(fault)
    } else {
        Plan::launch(
            "fa_bf16_v3_d128"@,
            "flash_attn_bf16_v3_d128"@,
            (grid_x, num_heads, batch),
            (256, 1, 1),
            0,
            seq![
                Arg::buffer(0), Arg::buffer(1), Arg::buffer(2), Arg::buffer(3), Arg::word(seq_q),
                Arg::word(seq_kv), Arg::word(num_heads), Arg::Scalar(scale),
            ],
        )
    }
}

/// Launch BF16 Flash Attention V3 (non-causal) with d=128.
pub fn flash_attn_bf16_v3_d128(
    q_len: usize,
    k_len: usize,
    v_len: usize,
    o_len: usize,
    batch: u32,
    num_heads: u32,
    seq_q: u32,
    seq_kv: u32,
    scale: F32,
) -> (r: Result<Launch>)
    requires
        flash_attn_bf16_v3_d128_plan(
            q_len as int, k_len as int, v_len as int, o_len as int, batch as int, num_heads as int,
            seq_q as int, seq_kv as int, scale,
        ) !is Undefined,
    ensures
        plan::outcome(r) == flash_attn_bf16_v3_d128_plan(
            q_len as int, k_len as int, v_len as int, o_len as int, batch as int, num_heads as int,
            seq_q as int, seq_kv as int, scale,
        ),
        plan::launchable(r, 4),
{
    if let Err(e) = dims::validate_attn_dims(batch, num_heads, seq_q, seq_kv) {
        return Err(e);
    }
    if let Err(e) = dims::validate_attn_bf16_bufs(
        q_len, k_len, v_len, o_len, batch, num_heads, seq_q, seq_kv,
    ) {
        return Err(e);
    }
    let grid_x: u32 = shape::div_ceil(seq_q, 128);
    Ok(
        Launch::new(
            "fa_bf16_v3_d128",
            "flash_attn_bf16_v3_d128",
            (grid_x, num_heads, batch),
            (256, 1, 1),
            0,
            vec![
                Arg::param(0), Arg::param(1), Arg::param(2), Arg::param(3), Arg::Word(seq_q),
                Arg::Word(seq_kv), Arg::Word(num_heads), Arg::Scalar(scale),
            ],
        ),
    )
}

/// The answer of [`flash_attn_bf16_v22_db`].
pub open spec fn flash_attn_bf16_v22_db_plan(
    q_len: int, k_len: int, v_len: int, o_len: int, batch: int, num_heads: int, seq_q: int,
    seq_kv: int, scale: F32,
) -> Plan {
    let grid_x = shape::ceil_div(seq_q, 128);
    if let Some(fault) = dims::attn_dims_fault(batch, num_heads, seq_q, seq_kv) {
        Plan::Fail(fault)
    } else if dims::attn_needs_overflow(batch, num_heads, seq_q, seq_kv) {
        Plan::Undefined
    } else if let Some(fault) = dims::attn_bf16_bufs_fault(
        q_len, k_len, v_len, o_len, batch, num_heads, seq_q, seq_kv,
    ) {
        Plan::Fail(fault)
    } else {
        Plan::raw_launch(
            "fa_bf16_v22_db"@,
            "flash_attn_bf16_v22_db"@,
            (grid_x, num_heads, batch),
            (256, 1, 1),
            81920,
            Seq::empty(),
            seq![
                Arg::buffer(0), Arg::buffer(1), Arg::buffer(2), Arg::buffer(3), Arg::word(seq_q),
                Arg::word(seq_kv), Arg::word(num_heads), Arg::Scalar(scale),
            ],
            Some("cuFuncSetAttribute(MAX_DYNAMIC_SHARED_SIZE_BYTES=81920) failed: "@),
            "cuLaunchKernel failed for V22 DB: "@,
        )
    }
}

/// Launch BF16 Flash Attention V22 DB (non-causal) with d=128.
pub fn flash_attn_bf16_v22_db(
    q_len: usize,
    k_len: usize,
    v_len: usize,
    o_len: usize,
    batch: u32,
    num_heads: u32,
    seq_q: u32,
    seq_kv: u32,
    scale: F32,
) -> (r: Result<Launch>)
    requires
        flash_attn_bf16_v22_db_plan(
            q_len as int, k_len as int, v_len as int, o_len as int, batch as int, num_heads as int,
            seq_q as int, seq_kv as int, scale,
        ) !is Undefined,
    ensures
        plan::outcome(r) == flash_attn_bf16_v22_db_plan(
            q_len as int, k_len as int, v_len as int, o_len as int, batch as int, num_heads as int,
            seq_q as int, seq_kv as int, scale,
        ),
        plan::launchable(r, 4),
{
    if let Err(e) = dims::validate_attn_dims(batch, num_heads, seq_q, seq_kv) {
        return Err(e);
    }
    if let Err(e) = dims::validate_attn_bf16_bufs(
        q_len, k_len, v_len, o_len, batch, num_heads, seq_q, seq_kv,
    ) {
        return Err(e);
    }
    let grid_x: u32 = shape::div_ceil(seq_q, 128);
    Ok(
        Launch::raw(
            "fa_bf16_v22_db",
            "flash_attn_bf16_v22_db",
            (grid_x, num_heads, batch),
            (256, 1, 1),
            81920,
            Vec::new(),
            vec![
                Arg::param(0), Arg::param(1), Arg::param(2), Arg::param(3), Arg::Word(seq_q),
                Arg::Word(seq_kv), Arg::Word(num_heads), Arg::Scalar(scale),
            ],
            Some("cuFuncSetAttribute(MAX_DYNAMIC_SHARED_SIZE_BYTES=81920) failed: "),
            Text::new("cuLaunchKernel failed for V22 DB: "),
        ),
    )
}

/// The answer of [`flash_attn_bf16_v3_d256`].
pub open spec fn flash_attn_bf16_v3_d256_plan(
    q_len: int, k_len: int, v_len: int, o_len: int, batch: int, num_heads: int, seq_q: int,
    seq_kv: int, scale: F32,
) -> Plan {
    let q_need = batch * num_heads * seq_q * 256;
    let kv_need = batch * num_heads * seq_kv * 256;
    let grid_x = shape::ceil_div(seq_q, 128);
    if let Some(fault) = dims::attn_dims_fault(batch, num_heads, seq_q, seq_kv) {
        Plan::Fail(fault)
    } else if q_need > u64::MAX || kv_need > u64::MAX {
        Plan::Undefined
    } else if q_len < q_need {
        Plan::invalid(
            "Q buffer too small: "@ + text::decimal(q_len) + " < "@ + text::decimal(q_need),
        )
    } else if k_len < kv_need {
        Plan::invalid(
            "K buffer too small: "@ + text::decimal(k_len) + " < "@ + text::decimal(kv_need),
        )
    } else if v_len < kv_need {
        Plan::invalid(
            "V buffer too small: "@ + text::decimal(v_len) + " < "@ + text::decimal(kv_need),
        )
    } else if o_len < q_need {
        Plan::invalid(
            "O buffer too small: "@ + text::decimal(o_len) + " < "@ + text::decimal(q_need),
        )
    } else {
        Plan::launch(
            "fa_bf16_v3_d256"@,
            "flash_attn_bf16_v3_d256"@,
            (grid_x, num_heads, batch),
            (256, 1, 1),
            0,
            seq![
                Arg::buffer(0), Arg::buffer(1), Arg::buffer(2), Arg::buffer(3), Arg::word(seq_q),
                Arg::word(seq_kv), Arg::word(num_heads), Arg::Scalar(scale),
            ],
        )
    }
}

/// Launch BF16 Flash Attention (non-causal) with d=256.
pub fn flash_attn_bf16_v3_d256(
    q_len: usize,
    k_len: usize,
    v_len: usize,
    o_len: usize,
    batch: u32,
    num_heads: u32,
    seq_q: u32,
    seq_kv: u32,
    scale: F32,
) -> (r: Result<Launch>)
    requires
        flash_attn_bf16_v3_d256_plan(
            q_len as int, k_len as int, v_len as int, o_len as int, batch as int, num_heads as int,
            seq_q as int, seq_kv as int, scale,
        ) !is Undefined,
    ensures
        plan::outcome(r) == flash_attn_bf16_v3_d256_plan(
            q_len as int, k_len as int, v_len as int, o_len as int, batch as int, num_heads as int,
            seq_q as int, seq_kv as int, scale,
        ),
        plan::launchable(r, 4),
{
    if let Err(e) = dims::validate_attn_dims(batch, num_heads, seq_q, seq_kv) {
        return Err(e);
    }
    let q_need: u64 = shape::product(batch, num_heads) * (seq_q as u64) * 256;
    let kv_need: u64 = shape::product(batch, num_heads) * (seq_kv as u64) * 256;
    if (q_len as u64) < q_need {
        return Text::new("Q buffer too small: ").n(q_len as u64).s(" < ").n(q_need).refuse();
    }
    if (k_len as u64) < kv_need {
        return Text::new("K buffer too small: ").n(k_len as u64).s(" < ").n(kv_need).refuse();
    }
    if (v_len as u64) < kv_need {
        return Text::new("V buffer too small: ").n(v_len as u64).s(" < ").n(kv_need).refuse();
    }
    if (o_len as u64) < q_need {
        return Text::new("O buffer too small: ").n(o_len as u64).s(" < ").n(q_need).refuse();
    }
    let grid_x: u32 = shape::div_ceil(seq_q, 128);
    Ok(
        Launch::new(
            "fa_bf16_v3_d256",
            "flash_attn_bf16_v3_d256",
            (grid_x, num_heads, batch),
            (256, 1, 1),
            0,
            vec![
                Arg::param(0), Arg::param(1), Arg::param(2), Arg::param(3), Arg::Word(seq_q),
                Arg::Word(seq_kv), Arg::Word(num_heads), Arg::Scalar(scale),
            ],
        ),
    )
}

/// The answer of [`flash_attn_bf16_v3_d256_gqa_causal_pos_dev`].
pub open spec fn flash_attn_bf16_v3_d256_gqa_causal_pos_dev_plan(
    q_len: int, k_len: int, v_len: int, o_len: int, pos_ptr_len: int, batch: int, num_heads: int,
    num_heads_kv: int, seq_q: int, seq_kv: int, scale: F32,
) -> Plan {
    let q_need = batch * num_heads * seq_q * 256;
    let kv_need = batch * num_heads_kv * seq_kv * 256;
    let grid_x = shape::ceil_div(seq_q, 128);
    if let Some(fault) = dims::attn_dims_fault(batch, num_heads, seq_q, seq_kv) {
        Plan::Fail(fault)
    } else if num_heads_kv == 0 || !shape::divides(num_heads_kv, num_heads) {
        Plan::invalid(
            "num_heads_kv ("@ + text::decimal(num_heads_kv) + ") must divide num_heads ("@
                + text::decimal(num_heads) + ")"@,
        )
    } else if q_need > u64::MAX || kv_need > u64::MAX {
        Plan::Undefined
    } else if q_len < q_need || k_len < kv_need || v_len < kv_need || o_len < q_need {
        Plan::invalid("attn buffer too small"@)
    } else if shape::low_word(pos_ptr_len) < batch {
        Plan::invalid(
            "pos_ptr too small: "@ + text::decimal(pos_ptr_len) + " < batch "@
                + text::decimal(batch),
        )
    } else {
        Plan::launch(
            "fa_bf16_v3_d256_gqa_causal_pos_dev"@,
            "flash_attn_bf16_v3_d256_gqa_causal_pos_dev"@,
            (grid_x, num_heads, batch),
            (256, 1, 1),
            0,
            seq![
                Arg::buffer(0), Arg::buffer(1), Arg::buffer(2), Arg::buffer(3), Arg::word(seq_q),
                Arg::word(seq_kv), Arg::word(num_heads), Arg::word(num_heads_kv), Arg::buffer(4),
                Arg::Scalar(scale),
            ],
        )
    }
}

/// Causal BF16 flash attention (head_dim=256, GQA) with the query position read
/// from a device pointer. Each query row uses position `*pos_ptr` for the causal
/// mask, letting the position vary at launch time without a host sync.
pub fn flash_attn_bf16_v3_d256_gqa_causal_pos_dev(
    q_len: usize,
    k_len: usize,
    v_len: usize,
    o_len: usize,
    pos_ptr_len: usize,
    batch: u32,
    num_heads: u32,
    num_heads_kv: u32,
    seq_q: u32,
    seq_kv: u32,
    scale: F32,
) -> (r: Result<Launch>)
    requires
        flash_attn_bf16_v3_d256_gqa_causal_pos_dev_plan(
            q_len as int, k_len as int, v_len as int, o_len as int, pos_ptr_len as int,
            batch as int, num_heads as int, num_heads_kv as int, seq_q as int, seq_kv as int, scale,
        ) !is Undefined,
    ensures
        plan::outcome(r) == flash_attn_bf16_v3_d256_gqa_causal_pos_dev_plan(
            q_len as int, k_len as int, v_len as int, o_len as int, pos_ptr_len as int,
            batch as int, num_heads as int, num_heads_kv as int, seq_q as int, seq_kv as int, scale,
        ),
        plan::launchable(r, 5),
{
    if let Err(e) = dims::validate_attn_dims(batch, num_heads, seq_q, seq_kv) {
        return Err(e);
    }
    if num_heads_kv == 0 || !num_heads.is_multiple_of(num_heads_kv) {
        return Text::new("num_heads_kv (").n(num_heads_kv as u64).s(") must divide num_heads (")
            .n(num_heads as u64).s(")").refuse();
    }
    let q_need: u64 = shape::product(batch, num_heads) * (seq_q as u64) * 256;
    let kv_need: u64 = shape::product(batch, num_heads_kv) * (seq_kv as u64) * 256;
    if (q_len as u64) < q_need
        || (k_len as u64) < kv_need
        || (v_len as u64) < kv_need
        || (o_len as u64) < q_need
    {
        return Text::new("attn buffer too small").refuse();
    }
    if shape::truncate(pos_ptr_len as u64) < batch {
        return Text::new("pos_ptr too small: ").n(pos_ptr_len as u64).s(" < batch ").n(batch as u64)
            .refuse();
    }
    let grid_x: u32 = shape::div_ceil(seq_q, 128);
    Ok(
        Launch::new(
            "fa_bf16_v3_d256_gqa_causal_pos_dev",
            "flash_attn_bf16_v3_d256_gqa_causal_pos_dev",
            (grid_x, num_heads, batch),
            (256, 1, 1),
            0,
            vec![
                Arg::param(0), Arg::param(1), Arg::param(2), Arg::param(3), Arg::Word(seq_q),
                Arg::Word(seq_kv), Arg::Word(num_heads), Arg::Word(num_heads_kv), Arg::param(4),
                Arg::Scalar(scale),
            ],
        ),
    )
}

/// The answer of [`flash_attn_bf16_fp8kv_v3_d256_gqa_causal_pos_dev`].
pub open spec fn flash_attn_bf16_fp8kv_v3_d256_gqa_causal_pos_dev_plan(
    q_len: int, k_len: int, v_len: int, o_len: int, pos_ptr_len: int, batch: int, num_heads: int,
    num_heads_kv: int, seq_q: int, seq_kv: int, scale: F32, kv_scale: F32,
) -> Plan {
    let q_need = batch * num_heads * seq_q * 256;
    let kv_need = batch * num_heads_kv * seq_kv * 256;
    let grid_x = shape::ceil_div(seq_q, 128);
    if let Some(fault) = dims::attn_dims_fault(batch, num_heads, seq_q, seq_kv) {
        Plan::Fail(fault)
    } else if num_heads_kv == 0 || !shape::divides(num_heads_kv, num_heads) {
        Plan::invalid(
            "num_heads_kv ("@ + text::decimal(num_heads_kv) + ") must divide num_heads ("@
                + text::decimal(num_heads) + ")"@,
        )
    } else if q_need > u64::MAX || kv_need > u64::MAX {
        Plan::Undefined
    } else if q_len < q_need || k_len < kv_need || v_len < kv_need || o_len < q_need {
        Plan::invalid("attn fp8kv buffer too small"@)
    } else if shape::low_word(pos_ptr_len) < batch {
        Plan::invalid(
            "pos_ptr too small: "@ + text::decimal(pos_ptr_len) + " < batch "@
                + text::decimal(batch),
        )
    } else {
        Plan::launch(
            "fa_bf16_fp8kv_v3_d256_gqa_causal_pos_dev"@,
            "flash_attn_bf16_fp8kv_v3_d256_gqa_causal_pos_dev"@,
            (grid_x, num_heads, batch),
            (256, 1, 1),
            0,
            seq![
                Arg::buffer(0), Arg::buffer(1), Arg::buffer(2), Arg::buffer(3), Arg::word(seq_q),
                Arg::word(seq_kv), Arg::word(num_heads), Arg::word(num_heads_kv), Arg::buffer(4),
                Arg::Scalar(scale), Arg::Scalar(kv_scale),
            ],
        )
    }
}

/// FP8-KV causal flash attention (head_dim=256, GQA, pos_dev) — BF16 Q x e4m3
/// K/V. The KV cache is stored as FP8 e4m3 (1 byte/elem); the kernel dequantizes
/// K/V in the gmem->smem load and folds the per-tensor `kv_scale` into the QK
/// logit scale (K side) and the output normalization (V side). Numerically
/// equivalent to the BF16 d256 kernel run on dequantized (fp8 * kv_scale) K/V.
pub fn flash_attn_bf16_fp8kv_v3_d256_gqa_causal_pos_dev(
    q_len: usize,
    k_len: usize,
    v_len: usize,
    o_len: usize,
    pos_ptr_len: usize,
    batch: u32,
    num_heads: u32,
    num_heads_kv: u32,
    seq_q: u32,
    seq_kv: u32,
    scale: F32,
    kv_scale: F32,
) -> (r: Result<Launch>)
    requires
        flash_attn_bf16_fp8kv_v3_d256_gqa_causal_pos_dev_plan(
            q_len as int, k_len as int, v_len as int, o_len as int, pos_ptr_len as int,
            batch as int, num_heads as int, num_heads_kv as int, seq_q as int, seq_kv as int, scale,
            kv_scale,
        ) !is Undefined,
    ensures
        plan::outcome(r) == flash_attn_bf16_fp8kv_v3_d256_gqa_causal_pos_dev_plan(
            q_len as int, k_len as int, v_len as int, o_len as int, pos_ptr_len as int,
            batch as int, num_heads as int, num_heads_kv as int, seq_q as int, seq_kv as int, scale,
            kv_scale,
        ),
        plan::launchable(r, 5),
{
    if let Err(e) = dims::validate_attn_dims(batch, num_heads, seq_q, seq_kv) {
        return Err(e);
    }
    if num_heads_kv == 0 || !num_heads.is_multiple_of(num_heads_kv) {
        return Text::new("num_heads_kv (").n(num_heads_kv as u64).s(") must divide num_heads (")
            .n(num_heads as u64).s(")").refuse();
    }
    let q_need: u64 = shape::product(batch, num_heads) * (seq_q as u64) * 256;
    let kv_need: u64 = shape::product(batch, num_heads_kv) * (seq_kv as u64) * 256;
    if (q_len as u64) < q_need
        || (k_len as u64) < kv_need
        || (v_len as u64) < kv_need
        || (o_len as u64) < q_need
    {
        return Text::new("attn fp8kv buffer too small").refuse();
    }
    if shape::truncate(pos_ptr_len as u64) < batch {
        return Text::new("pos_ptr too small: ").n(pos_ptr_len as u64).s(" < batch ").n(batch as u64)
            .refuse();
    }
    let grid_x: u32 = shape::div_ceil(seq_q, 128);
    Ok(
        Launch::new(
            "fa_bf16_fp8kv_v3_d256_gqa_causal_pos_dev",
            "flash_attn_bf16_fp8kv_v3_d256_gqa_causal_pos_dev",
            (grid_x, num_heads, batch),
            (256, 1, 1),
            0,
            vec![
                Arg::param(0), Arg::param(1), Arg::param(2), Arg::param(3), Arg::Word(seq_q),
                Arg::Word(seq_kv), Arg::Word(num_heads), Arg::Word(num_heads_kv), Arg::param(4),
                Arg::Scalar(scale), Arg::Scalar(kv_scale),
            ],
        ),
    )
}

/// The answer of [`flash_attn_bf16_v3_d256_causal`].
pub open spec fn flash_attn_bf16_v3_d256_causal_plan(
    q_len: int, k_len: int, v_len: int, o_len: int, batch: int, num_heads: int, seq_q: int,
    seq_kv: int, scale: F32,
) -> Plan {
    let q_need = batch * num_heads * seq_q * 256;
    let kv_need = batch * num_heads * seq_kv * 256;
    let grid_x = shape::ceil_div(seq_q, 128);
    if let Some(fault) = dims::attn_dims_fault(batch, num_heads, seq_q, seq_kv) {
        Plan::Fail(fault)
    } else if q_need > u64::MAX || kv_need > u64::MAX {
        Plan::Undefined
    } else if q_len < q_need || k_len < kv_need || v_len < kv_need || o_len < q_need {
        Plan::invalid(
            "buffer too small for d=256 causal (q="@ + text::decimal(q_len) + " k="@
                + text::decimal(k_len) + " v="@ + text::decimal(v_len) + " o="@
                + text::decimal(o_len) + " need q="@ + text::decimal(q_need) + " kv="@
                + text::decimal(kv_need) + ")"@,
        )
    } else {
        Plan::launch(
            "fa_bf16_v3_d256_causal"@,
            "flash_attn_bf16_v3_d256_causal"@,
            (grid_x, num_heads, batch),
            (256, 1, 1),
            0,
            seq![
                Arg::buffer(0), Arg::buffer(1), Arg::buffer(2), Arg::buffer(3), Arg::word(seq_q),
                Arg::word(seq_kv), Arg::word(num_heads), Arg::word(0), Arg::Scalar(scale),
            ],
        )
    }
}

/// Causal variant of `flash_attn_bf16_v3_d256`. Same kernel + per-element causal mask
/// (S[i,j] = -inf where kv_pos_j > q_pos_i) and a KV-block iteration cap so blocks
/// fully outside the causal window are skipped.
pub fn flash_attn_bf16_v3_d256_causal(
    q_len: usize,
    k_len: usize,
    v_len: usize,
    o_len: usize,
    batch: u32,
    num_heads: u32,
    seq_q: u32,
    seq_kv: u32,
    scale: F32,
) -> (r: Result<Launch>)
    requires
        flash_attn_bf16_v3_d256_causal_plan(
            q_len as int, k_len as int, v_len as int, o_len as int, batch as int, num_heads as int,
            seq_q as int, seq_kv as int, scale,
        ) !is Undefined,
    ensures
        plan::outcome(r) == flash_attn_bf16_v3_d256_causal_plan(
            q_len as int, k_len as int, v_len as int, o_len as int, batch as int, num_heads as int,
            seq_q as int, seq_kv as int, scale,
        ),
        plan::launchable(r, 4),
{
    if let Err(e) = dims::validate_attn_dims(batch, num_heads, seq_q, seq_kv) {
        return Err(e);
    }
    let q_need: u64 = shape::product(batch, num_heads) * (seq_q as u64) * 256;
    let kv_need: u64 = shape::product(batch, num_heads) * (seq_kv as u64) * 256;
    if (q_len as u64) < q_need
        || (k_len as u64) < kv_need
        || (v_len as u64) < kv_need
        || (o_len as u64) < q_need
    {
        return Text::new("buffer too small for d=256 causal (q=").n(q_len as u64).s(" k=")
            .n(k_len as u64).s(" v=").n(v_len as u64).s(" o=").n(o_len as u64).s(" need q=")
            .n(q_need).s(" kv=").n(kv_need).s(")").refuse();
    }
    let grid_x: u32 = shape::div_ceil(seq_q, 128);
    Ok(
        Launch::new(
            "fa_bf16_v3_d256_causal",
            "flash_attn_bf16_v3_d256_causal",
            (grid_x, num_heads, batch),
            (256, 1, 1),
            0,
            vec![
                Arg::param(0), Arg::param(1), Arg::param(2), Arg::param(3), Arg::Word(seq_q),
                Arg::Word(seq_kv), Arg::Word(num_heads), Arg::Word(0), Arg::Scalar(scale),
            ],
        ),
    )
}

/// The answer of [`flash_attn_bf16_v18_4warp`].
pub open spec fn flash_attn_bf16_v18_4warp_plan(
    q_len: int, k_len: int, v_len: int, o_len: int, batch: int, num_heads: int, seq_q: int,
    seq_kv: int, scale: F32,
) -> Plan {
    let grid_x = shape::ceil_div(seq_q, 128);
    Plan::launch(
        "fa_bf16_v18_4warp"@,
        "flash_attn_bf16_v18_4warp"@,
        (grid_x, num_heads, batch),
        (128, 1, 1),
        0,
        seq![
            Arg::buffer(0), Arg::buffer(1), Arg::buffer(2), Arg::buffer(3), Arg::word(seq_q),
            Arg::word(seq_kv), Arg::word(num_heads), Arg::Scalar(scale),
        ],
    )
}

/// 128 threads, BR=128, BC=128. Each warp handles 32 Q rows (2 MMA row groups).
/// 512 regs/thread available. Matches CUTLASS CuTe DSL architecture.
pub fn flash_attn_bf16_v18_4warp(
    q_len: usize,
    k_len: usize,
    v_len: usize,
    o_len: usize,
    batch: u32,
    num_heads: u32,
    seq_q: u32,
    seq_kv: u32,
    scale: F32,
) -> (r: Result<Launch>)
    ensures
        plan::outcome(r) == flash_attn_bf16_v18_4warp_plan(
            q_len as int, k_len as int, v_len as int, o_len as int, batch as int, num_heads as int,
            seq_q as int, seq_kv as int, scale,
        ),
        batch > 0 && num_heads > 0 && seq_q > 0 ==> plan::launchable(r, 4),
{
    let grid_x: u32 = shape::div_ceil(seq_q, 128);
    Ok(
        Launch::new(
            "fa_bf16_v18_4warp",
            "flash_attn_bf16_v18_4warp",
            (grid_x, num_heads, batch),
            (128, 1, 1),
            0,
            vec![
                Arg::param(0), Arg::param(1), Arg::param(2), Arg::param(3), Arg::Word(seq_q),
                Arg::Word(seq_kv), Arg::Word(num_heads), Arg::Scalar(scale),
            ],
        ),
    )
}

/// The answer of [`flash_attn_bf16_v17_bc128`].
pub open spec fn flash_attn_bf16_v17_bc128_plan(
    q_len: int, k_len: int, v_len: int, o_len: int, batch: int, num_heads: int, seq_q: int,
    seq_kv: int, scale: F32,
) -> Plan {
    let grid_x = shape::ceil_div(seq_q, 128);
    Plan::launch(
        "fa_bf16_v17_bc128"@,
        "flash_attn_bf16_v17_bc128"@,
        (grid_x, num_heads, batch),
        (256, 1, 1),
        0,
        seq![
            Arg::buffer(0), Arg::buffer(1), Arg::buffer(2), Arg::buffer(3), Arg::word(seq_q),
            Arg::word(seq_kv), Arg::word(num_heads), Arg::Scalar(scale),
        ],
    )
}

/// Launch BF16 Flash Attention V17 (BC=128) with d=128.
/// Same as V3 but with BC=128 (double K/V tile width), halving KV loop iterations.
pub fn flash_attn_bf16_v17_bc128(
    q_len: usize,
    k_len: usize,
    v_len: usize,
    o_len: usize,
    batch: u32,
    num_heads: u32,
    seq_q: u32,
    seq_kv: u32,
    scale: F32,
) -> (r: Result<Launch>)
    ensures
        plan::outcome(r) == flash_attn_bf16_v17_bc128_plan(
            q_len as int, k_len as int, v_len as int, o_len as int, batch as int, num_heads as int,
            seq_q as int, seq_kv as int, scale,
        ),
        batch > 0 && num_heads > 0 && seq_q > 0 ==> plan::launchable(r, 4),
{
    let grid_x: u32 = shape::div_ceil(seq_q, 128);
    Ok(
        Launch::new(
            "fa_bf16_v17_bc128",
            "flash_attn_bf16_v17_bc128",
            (grid_x, num_heads, batch),
            (256, 1, 1),
            0,
            vec![
                Arg::param(0), Arg::param(1), Arg::param(2), Arg::param(3), Arg::Word(seq_q),
                Arg::Word(seq_kv), Arg::Word(num_heads), Arg::Scalar(scale),
            ],
        ),
    )
}

/// The answer of [`flash_attn_bf16_v3_d128_causal`].
pub open spec fn flash_attn_bf16_v3_d128_causal_plan(
    q_len: int, k_len: int, v_len: int, o_len: int, batch: int, num_heads: int, seq_q: int,
    seq_kv: int, scale: F32,
) -> Plan {
    let grid_x = shape::ceil_div(seq_q, 128);
    if let Some(fault) = dims::attn_dims_fault(batch, num_heads, seq_q, seq_kv) {
        Plan::Fail(fault)
    } else if dims::attn_needs_overflow(batch, num_heads, seq_q, seq_kv) {
        Plan::Undefined
    } else if let Some(fault) = dims::attn_bf16_bufs_fault(
        q_len, k_len, v_len, o_len, batch, num_heads, seq_q, seq_kv,
    ) {
        Plan::Fail(fault)
    } else {
        Plan::launch(
            "fa_bf16_v3_d128_causal"@,
            "flash_attn_bf16_v3_d128_causal"@,
            (grid_x, num_heads, batch),
            (256, 1, 1),
            0,
            seq![
                Arg::buffer(0), Arg::buffer(1), Arg::buffer(2), Arg::buffer(3), Arg::word(seq_q),
                Arg::word(seq_kv), Arg::word(num_heads), Arg::Scalar(scale),
            ],
        )
    }
}

/// Launch BF16 Flash Attention V3 (causal) with d=128.
pub fn flash_attn_bf16_v3_d128_causal(
    q_len: usize,
    k_len: usize,
    v_len: usize,
    o_len: usize,
    batch: u32,
    num_heads: u32,
    seq_q: u32,
    seq_kv: u32,
    scale: F32,
) -> (r: Result<Launch>)
    requires
        flash_attn_bf16_v3_d128_causal_plan(
            q_len as int, k_len as int, v_len as int, o_len as int, batch as int, num_heads as int,
            seq_q as int, seq_kv as int, scale,
        ) !is Undefined,
    ensures
        plan::outcome(r) == flash_attn_bf16_v3_d128_causal_plan(
            q_len as int, k_len as int, v_len as int, o_len as int, batch as int, num_heads as int,
            seq_q as int, seq_kv as int, scale,
        ),
        plan::launchable(r, 4),
{
    if let Err(e) = dims::validate_attn_dims(batch, num_heads, seq_q, seq_kv) {
        return Err(e);
    }
    if let Err(e) = dims::validate_attn_bf16_bufs(
        q_len, k_len, v_len, o_len, batch, num_heads, seq_q, seq_kv,
    ) {
        return Err(e);
    }
    let grid_x: u32 = shape::div_ceil(seq_q, 128);
    Ok(
        Launch::new(
            "fa_bf16_v3_d128_causal",
            "flash_attn_bf16_v3_d128_causal",
            (grid_x, num_heads, batch),
            (256, 1, 1),
            0,
            vec![
                Arg::param(0), Arg::param(1), Arg::param(2), Arg::param(3), Arg::Word(seq_q),
                Arg::Word(seq_kv), Arg::Word(num_heads), Arg::Scalar(scale),
            ],
        ),
    )
}

/// The answer of [`flash_attn_fp8_d128`].
pub open spec fn flash_attn_fp8_d128_plan(
    q_len: int, k_len: int, v_len: int, o_len: int, batch: int, num_heads: int, seq_q: int,
    seq_kv: int, scale: F32,
) -> Plan {
    let q_need = batch * num_heads * seq_q * HEAD_DIM;
    let kv_need = batch * num_heads * seq_kv * HEAD_DIM;
    let grid_x = shape::ceil_div(seq_q, 16);
    if let Some(fault) = dims::attn_dims_fault(batch, num_heads, seq_q, seq_kv) {
        Plan::Fail(fault)
    } else if q_need > u64::MAX || kv_need > u64::MAX {
        Plan::Undefined
    } else if q_len < q_need {
        Plan::invalid(
            "Q buffer too small: "@ + text::decimal(q_len) + " < "@ + text::decimal(q_need),
        )
    } else if k_len < kv_need {
        Plan::invalid(
            "K buffer too small: "@ + text::decimal(k_len) + " < "@ + text::decimal(kv_need),
        )
    } else if v_len < kv_need {
        Plan::invalid(
            "V buffer too small: "@ + text::decimal(v_len) + " < "@ + text::decimal(kv_need),
        )
    } else if o_len < q_need {
        Plan::invalid(
            "O buffer too small: "@ + text::decimal(o_len) + " < "@ + text::decimal(q_need),
        )
    } else {
        Plan::launch(
            "fa_fp8_d128"@,
            "flash_attn_fp8_d128"@,
            (grid_x, num_heads, batch),
            (32, 1, 1),
            0,
            seq![
                Arg::buffer(0), Arg::buffer(1), Arg::buffer(2), Arg::buffer(3), Arg::word(seq_q),
                Arg::word(seq_kv), Arg::word(num_heads), Arg::Scalar(scale),
            ],
        )
    }
}

/// Launch FP8 Flash Attention (non-causal) with d=128.
pub fn flash_attn_fp8_d128(
    q_len: usize,
    k_len: usize,
    v_len: usize,
    o_len: usize,
    batch: u32,
    num_heads: u32,
    seq_q: u32,
    seq_kv: u32,
    scale: F32,
) -> (r: Result<Launch>)
    requires
        flash_attn_fp8_d128_plan(
            q_len as int, k_len as int, v_len as int, o_len as int, batch as int, num_heads as int,
            seq_q as int, seq_kv as int, scale,
        ) !is Undefined,
    ensures
        plan::outcome(r) == flash_attn_fp8_d128_plan(
            q_len as int, k_len as int, v_len as int, o_len as int, batch as int, num_heads as int,
            seq_q as int, seq_kv as int, scale,
        ),
        plan::launchable(r, 4),
{
    if let Err(e) = dims::validate_attn_dims(batch, num_heads, seq_q, seq_kv) {
        return Err(e);
    }
    let q_need: u64 = shape::product(batch, num_heads) * (seq_q as u64) * (HEAD_DIM as u64);
    let kv_need: u64 = shape::product(batch, num_heads) * (seq_kv as u64) * (HEAD_DIM as u64);
    if (q_len as u64) < q_need {
        return Text::new("Q buffer too small: ").n(q_len as u64).s(" < ").n(q_need).refuse();
    }
    if (k_len as u64) < kv_need {
        return Text::new("K buffer too small: ").n(k_len as u64).s(" < ").n(kv_need).refuse();
    }
    if (v_len as u64) < kv_need {
        return Text::new("V buffer too small: ").n(v_len as u64).s(" < ").n(kv_need).refuse();
    }
    if (o_len as u64) < q_need {
        return Text::new("O buffer too small: ").n(o_len as u64).s(" < ").n(q_need).refuse();
    }
    let grid_x: u32 = shape::div_ceil(seq_q, 16);
    Ok(
        Launch::new(
            "fa_fp8_d128",
            "flash_attn_fp8_d128",
            (grid_x, num_heads, batch),
            (32, 1, 1),
            0,
            vec![
                Arg::param(0), Arg::param(1), Arg::param(2), Arg::param(3), Arg::Word(seq_q),
                Arg::Word(seq_kv), Arg::Word(num_heads), Arg::Scalar(scale),
            ],
        ),
    )
}

/// The answer of [`flash_attn_fp8_d128_causal`].
pub open spec fn flash_attn_fp8_d128_causal_plan(
    q_len: int, k_len: int, v_len: int, o_len: int, batch: int, num_heads: int, seq_q: int,
    seq_kv: int, scale: F32,
) -> Plan {
    let q_need = batch * num_heads * seq_q * HEAD_DIM;
    let kv_need = batch * num_heads * seq_kv * HEAD_DIM;
    let grid_x = shape::ceil_div(seq_q, 16);
    if let Some(fault) = dims::attn_dims_fault(batch, num_heads, seq_q, seq_kv) {
        Plan::Fail(fault)
    } else if q_need > u64::MAX || kv_need > u64::MAX {
        Plan::Undefined
    } else if q_len < q_need {
        Plan::invalid(
            "Q buffer too small: "@ + text::decimal(q_len) + " < "@ + text::decimal(q_need),
        )
    } else if k_len < kv_need {
        Plan::invalid(
            "K buffer too small: "@ + text::decimal(k_len) + " < "@ + text::decimal(kv_need),
        )
    } else if v_len < kv_need {
        Plan::invalid(
            "V buffer too small: "@ + text::decimal(v_len) + " < "@ + text::decimal(kv_need),
        )
    } else if o_len < q_need {
        Plan::invalid(
            "O buffer too small: "@ + text::decimal(o_len) + " < "@ + text::decimal(q_need),
        )
    } else {
        Plan::launch(
            "fa_fp8_d128_causal"@,
            "flash_attn_fp8_d128_causal"@,
            (grid_x, num_heads, batch),
            (32, 1, 1),
            0,
            seq![
                Arg::buffer(0), Arg::buffer(1), Arg::buffer(2), Arg::buffer(3), Arg::word(seq_q),
                Arg::word(seq_kv), Arg::word(num_heads), Arg::Scalar(scale),
            ],
        )
    }
}

/// Launch FP8 Flash Attention (causal) with d=128.
pub fn flash_attn_fp8_d128_causal(
    q_len: usize,
    k_len: usize,
    v_len: usize,
    o_len: usize,
    batch: u32,
    num_heads: u32,
    seq_q: u32,
    seq_kv: u32,
    scale: F32,
) -> (r: Result<Launch>)
    requires
        flash_attn_fp8_d128_causal_plan(
            q_len as int, k_len as int, v_len as int, o_len as int, batch as int, num_heads as int,
            seq_q as int, seq_kv as int, scale,
        ) !is Undefined,
    ensures
        plan::outcome(r) == flash_attn_fp8_d128_causal_plan(
            q_len as int, k_len as int, v_len as int, o_len as int, batch as int, num_heads as int,
            seq_q as int, seq_kv as int, scale,
        ),
        plan::launchable(r, 4),
{
    if let Err(e) = dims::validate_attn_dims(batch, num_heads, seq_q, seq_kv) {
        return Err(e);
    }
    let q_need: u64 = shape::product(batch, num_heads) * (seq_q as u64) * (HEAD_DIM as u64);
    let kv_need: u64 = shape::product(batch, num_heads) * (seq_kv as u64) * (HEAD_DIM as u64);
    if (q_len as u64) < q_need {
        return Text::new("Q buffer too small: ").n(q_len as u64).s(" < ").n(q_need).refuse();
    }
    if (k_len as u64) < kv_need {
        return Text::new("K buffer too small: ").n(k_len as u64).s(" < ").n(kv_need).refuse();
    }
    if (v_len as u64) < kv_need {
        return Text::new("V buffer too small: ").n(v_len as u64).s(" < ").n(kv_need).refuse();
    }
    if (o_len as u64) < q_need {
        return Text::new("O buffer too small: ").n(o_len as u64).s(" < ").n(q_need).refuse();
    }
    let grid_x: u32 = shape::div_ceil(seq_q, 16);
    Ok(
        Launch::new(
            "fa_fp8_d128_causal",
            "flash_attn_fp8_d128_causal",
            (grid_x, num_heads, batch),
            (32, 1, 1),
            0,
            vec![
                Arg::param(0), Arg::param(1), Arg::param(2), Arg::param(3), Arg::Word(seq_q),
                Arg::Word(seq_kv), Arg::Word(num_heads), Arg::Scalar(scale),
            ],
        ),
    )
}

/// The answer of [`flash_attn_bf16_varlen_d128`].
pub open spec fn flash_attn_bf16_varlen_d128_plan(
    q_len: int, k_len: int, v_len: int, o_len: int, cu_seqlens_q_len: int, cu_seqlens_k_len: int,
    batch: int, num_heads: int, max_seqlen_q: int, scale: F32,
) -> Plan {
    let cu_need = batch + 1;
    let grid_x = shape::ceil_div(max_seqlen_q, 16);
    if batch == 0 {
        Plan::invalid("batch must be > 0"@)
    } else if num_heads == 0 {
        Plan::invalid("num_heads must be > 0"@)
    } else if max_seqlen_q == 0 {
        Plan::invalid("max_seqlen_q must be > 0"@)
    } else if cu_need > u32::MAX {
        Plan::Undefined
    } else if cu_seqlens_q_len < cu_need {
        Plan::invalid(
            "cu_seqlens_q too small: "@ + text::decimal(cu_seqlens_q_len) + " < "@
                + text::decimal(cu_need),
        )
    } else if cu_seqlens_k_len < cu_need {
        Plan::invalid(
            "cu_seqlens_k too small: "@ + text::decimal(cu_seqlens_k_len) + " < "@
                + text::decimal(cu_need),
        )
    } else {
        Plan::launch(
            "fa_bf16_varlen_d128"@,
            "flash_attn_bf16_varlen_d128"@,
            (grid_x, num_heads, batch),
            (32, 1, 1),
            18432,
            seq![
                Arg::buffer(0), Arg::buffer(1), Arg::buffer(2), Arg::buffer(3), Arg::buffer(4),
                Arg::buffer(5), Arg::word(num_heads), Arg::word(max_seqlen_q), Arg::Scalar(scale),
            ],
        )
    }
}

/// Launch BF16 Flash Attention (varlen, non-causal) with d=128.
pub fn flash_attn_bf16_varlen_d128(
    q_len: usize,
    k_len: usize,
    v_len: usize,
    o_len: usize,
    cu_seqlens_q_len: usize,
    cu_seqlens_k_len: usize,
    batch: u32,
    num_heads: u32,
    max_seqlen_q: u32,
    scale: F32,
) -> (r: Result<Launch>)
    requires
        flash_attn_bf16_varlen_d128_plan(
            q_len as int, k_len as int, v_len as int, o_len as int, cu_seqlens_q_len as int,
            cu_seqlens_k_len as int, batch as int, num_heads as int, max_seqlen_q as int, scale,
        ) !is Undefined,
    ensures
        plan::outcome(r) == flash_attn_bf16_varlen_d128_plan(
            q_len as int, k_len as int, v_len as int, o_len as int, cu_seqlens_q_len as int,
            cu_seqlens_k_len as int, batch as int, num_heads as int, max_seqlen_q as int, scale,
        ),
        plan::launchable(r, 6),
{
    if batch == 0 {
        return Text::new("batch must be > 0").refuse();
    }
    if num_heads == 0 {
        return Text::new("num_heads must be > 0").refuse();
    }
    if max_seqlen_q == 0 {
        return Text::new("max_seqlen_q must be > 0").refuse();
    }
    let cu_need: u64 = (batch + 1) as u64;
    if (cu_seqlens_q_len as u64) < cu_need {
        return Text::new("cu_seqlens_q too small: ").n(cu_seqlens_q_len as u64).s(" < ").n(cu_need)
            .refuse();
    }
    if (cu_seqlens_k_len as u64) < cu_need {
        return Text::new("cu_seqlens_k too small: ").n(cu_seqlens_k_len as u64).s(" < ").n(cu_need)
            .refuse();
    }
    let grid_x: u32 = shape::div_ceil(max_seqlen_q, 16);
    Ok(
        Launch::new(
            "fa_bf16_varlen_d128",
            "flash_attn_bf16_varlen_d128",
            (grid_x, num_heads, batch),
            (32, 1, 1),
            18432,
            vec![
                Arg::param(0), Arg::param(1), Arg::param(2), Arg::param(3), Arg::param(4),
                Arg::param(5), Arg::Word(num_heads), Arg::Word(max_seqlen_q), Arg::Scalar(scale),
            ],
        ),
    )
}

/// The answer of [`flash_attn_bf16_d128_causal`].
pub open spec fn flash_attn_bf16_d128_causal_plan(
    q_len: int, k_len: int, v_len: int, o_len: int, batch: int, num_heads: int, seq_q: int,
    seq_kv: int, scale: F32,
) -> Plan {
    let grid_x = shape::ceil_div(seq_q, 16);
    if let Some(fault) = dims::attn_dims_fault(batch, num_heads, seq_q, seq_kv) {
        Plan::Fail(fault)
    } else if dims::attn_needs_overflow(batch, num_heads, seq_q, seq_kv) {
        Plan::Undefined
    } else if let Some(fault) = dims::attn_bf16_bufs_fault(
        q_len, k_len, v_len, o_len, batch, num_heads, seq_q, seq_kv,
    ) {
        Plan::Fail(fault)
    } else {
        Plan::launch(
            "fa_bf16_d128_causal"@,
            "flash_attn_bf16_d128_causal"@,
            (grid_x, num_heads, batch),
            (32, 1, 1),
            18432,
            seq![
                Arg::buffer(0), Arg::buffer(1), Arg::buffer(2), Arg::buffer(3), Arg::word(seq_q),
                Arg::word(seq_kv), Arg::word(num_heads), Arg::Scalar(scale),
            ],
        )
    }
}

/// Launch BF16 Flash Attention (causal) with d=128.
pub fn flash_attn_bf16_d128_causal(
    q_len: usize,
    k_len: usize,
    v_len: usize,
    o_len: usize,
    batch: u32,
    num_heads: u32,
    seq_q: u32,
    seq_kv: u32,
    scale: F32,
) -> (r: Result<Launch>)
    requires
        flash_attn_bf16_d128_causal_plan(
            q_len as int, k_len as int, v_len as int, o_len as int, batch as int, num_heads as int,
            seq_q as int, seq_kv as int, scale,
        ) !is Undefined,
    ensures
        plan::outcome(r) == flash_attn_bf16_d128_causal_plan(
            q_len as int, k_len as int, v_len as int, o_len as int, batch as int, num_heads as int,
            seq_q as int, seq_kv as int, scale,
        ),
        plan::launchable(r, 4),
{
    if let Err(e) = dims::validate_attn_dims(batch, num_heads, seq_q, seq_kv) {
        return Err(e);
    }
    if let Err(e) = dims::validate_attn_bf16_bufs(
        q_len, k_len, v_len, o_len, batch, num_heads, seq_q, seq_kv,
    ) {
        return Err(e);
    }
    let grid_x: u32 = shape::div_ceil(seq_q, 16);
    Ok(
        Launch::new(
            "fa_bf16_d128_causal",
            "flash_attn_bf16_d128_causal",
            (grid_x, num_heads, batch),
            (32, 1, 1),
            18432,
            vec![
                Arg::param(0), Arg::param(1), Arg::param(2), Arg::param(3), Arg::Word(seq_q),
                Arg::Word(seq_kv), Arg::Word(num_heads), Arg::Scalar(scale),
            ],
        ),
    )
}

} // verus!
