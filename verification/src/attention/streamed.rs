//! BF16 attention that streams its tiles through bulk copies.
use crate::attention::dims::HEAD_DIM;
use crate::attention::dims;
use crate::error::Result;
use crate::plan::{Arg, F32, Launch, Plan};
use crate::plan;
use crate::shape;
use crate::tensor_map;
use crate::text::Text;
use crate::text;
use vstd::prelude::*;

verus! {

/// The answer of [`flash_attn_bf16_v8_tma_db_d128`].
pub open spec fn flash_attn_bf16_v8_tma_db_d128_plan(
    q_len: int, k_len: int, v_len: int, o_len: int, batch: int, num_heads: int, seq_q: int,
    seq_kv: int, scale: F32,
) -> Plan {
    let grid_x = shape::ceil_div(seq_q, 64);
    let total_q_rows = batch * num_heads * seq_q;
    let total_kv_rows = batch * num_heads * seq_kv;
    if let Some(fault) = dims::attn_dims_fault(batch, num_heads, seq_q, seq_kv) {
        Plan::Fail(fault)
    } else if dims::attn_needs_overflow(batch, num_heads, seq_q, seq_kv) {
        Plan::Undefined
    } else if let Some(fault) = dims::attn_bf16_bufs_fault(
        q_len, k_len, v_len, o_len, batch, num_heads, seq_q, seq_kv,
    ) {
        Plan::Fail(fault)
    } else if batch * num_heads > u32::MAX
        || total_q_rows > u32::MAX
        || total_kv_rows > u32::MAX
    {
        Plan::Undefined
    } else {
        Plan::raw_launch(
            "fa_bf16_v8_tma_db_d128"@,
            "flash_attn_bf16_v8_tma_db_d128"@,
            (grid_x, num_heads, batch),
            (160, 1, 1),
            82032,
            seq![
                tensor_map::desc(0, total_q_rows, HEAD_DIM as int, 64, HEAD_DIM as int),
                tensor_map::desc(1, total_kv_rows, HEAD_DIM as int, 64, HEAD_DIM as int),
                tensor_map::desc(2, total_kv_rows, HEAD_DIM as int, 64, HEAD_DIM as int),
            ],
            seq![
                Arg::Descriptor(0), Arg::Descriptor(1), Arg::Descriptor(2), Arg::buffer(3),
                Arg::word(seq_q), Arg::word(seq_kv), Arg::word(num_heads), Arg::Scalar(scale),
            ],
            Some("cuFuncSetAttribute(MAX_DYNAMIC_SHARED_SIZE_BYTES=82032) failed: "@),
            "cuLaunchKernel failed for V8 TMA DB: "@,
        )
    }
}

/// Requires 90KB dynamic shared memory (K0+K1+V0+V1 buffers).
pub fn flash_attn_bf16_v8_tma_db_d128(
    q_len: usize,
    k_len: usize,
    v_len: usize,
    o_len: usize,
    batch: u32,
    num_heads: u32,
    seq_q: u32,
    seq_kv: u32,
    scale: F32,
) -> (r: Result<Launch>)
    requires
        flash_attn_bf16_v8_tma_db_d128_plan(
            q_len as int, k_len as int, v_len as int, o_len as int, batch as int, num_heads as int,
            seq_q as int, seq_kv as int, scale,
        ) !is Undefined,
    ensures
        plan::outcome(r) == flash_attn_bf16_v8_tma_db_d128_plan(
            q_len as int, k_len as int, v_len as int, o_len as int, batch as int, num_heads as int,
            seq_q as int, seq_kv as int, scale,
        ),
        plan::launchable(r, 4),
{
    if let Err(e) = dims::validate_attn_dims(batch, num_heads, seq_q, seq_kv) {
        return Err(e);
    }
    if let Err(e) = dims::validate_attn_bf16_bufs(
        q_len, k_len, v_len, o_len, batch, num_heads, seq_q, seq_kv,
    ) {
        return Err(e);
    }
    let grid_x: u32 = shape::div_ceil(seq_q, 64);
    let total_q_rows: u32 = batch * num_heads * seq_q;
    let total_kv_rows: u32 = batch * num_heads * seq_kv;
    Ok(
        Launch::raw(
            "fa_bf16_v8_tma_db_d128",
            "flash_attn_bf16_v8_tma_db_d128",
            (grid_x, num_heads, batch),
            (160, 1, 1),
            82032,
            vec![
                tensor_map::create_tma_desc(0, total_q_rows, HEAD_DIM, 64, HEAD_DIM),
                tensor_map::create_tma_desc(1, total_kv_rows, HEAD_DIM, 64, HEAD_DIM),
                tensor_map::create_tma_desc(2, total_kv_rows, HEAD_DIM, 64, HEAD_DIM),
            ],
            vec![
                Arg::Descriptor(0), Arg::Descriptor(1), Arg::Descriptor(2), Arg::param(3),
                Arg::Word(seq_q), Arg::Word(seq_kv), Arg::Word(num_heads), Arg::Scalar(scale),
            ],
            Some("cuFuncSetAttribute(MAX_DYNAMIC_SHARED_SIZE_BYTES=82032) failed: "),
            Text::new("cuLaunchKernel failed for V8 TMA DB: "),
        ),
    )
}

/// The answer of [`flash_attn_bf16_v11_fused_scale`].
pub open spec fn flash_attn_bf16_v11_fused_scale_plan(
    q_len: int, k_len: int, v_len: int, o_len: int, batch: int, num_heads: int, seq_q: int,
    seq_kv: int, scale: F32,
) -> Plan {
    let grid_x = shape::ceil_div(seq_q, 64);
    let total_q_rows = batch * num_heads * seq_q;
    let total_kv_rows = batch * num_heads * seq_kv;
    if let Some(fault) = dims::attn_dims_fault(batch, num_heads, seq_q, seq_kv) {
        Plan::Fail(fault)
    } else if dims::attn_needs_overflow(batch, num_heads, seq_q, seq_kv) {
        Plan::Undefined
    } else if let Some(fault) = dims::attn_bf16_bufs_fault(
        q_len, k_len, v_len, o_len, batch, num_heads, seq_q, seq_kv,
    ) {
        Plan::Fail(fault)
    } else if batch * num_heads > u32::MAX
        || total_q_rows > u32::MAX
        || total_kv_rows > u32::MAX
    {
        Plan::Undefined
    } else {
        Plan::raw_launch(
            "fa_bf16_v11_fused_scale"@,
            "flash_attn_bf16_v11_fused_scale"@,
            (grid_x, num_heads, batch),
            (160, 1, 1),
            82032,
            seq![
                tensor_map::desc_swizzle(0, total_q_rows, HEAD_DIM as int, 64, 64),
                tensor_map::desc_swizzle(1, total_kv_rows, HEAD_DIM as int, 64, 64),
                tensor_map::desc_swizzle(2, total_kv_rows, HEAD_DIM as int, 64, 64),
            ],
            seq![
                Arg::Descriptor(0), Arg::Descriptor(1), Arg::Descriptor(2), Arg::buffer(3),
                Arg::word(seq_q), Arg::word(seq_kv), Arg::word(num_heads), Arg::Scalar(scale),
            ],
            Some("cuFuncSetAttribute(MAX_DYNAMIC_SHARED_SIZE_BYTES=82032) failed: "@),
            "cuLaunchKernel failed for V11 fused scale: "@,
        )
    }
}

/// V11 builds on V9 (TMA + double-buffered KV + SWIZZLE_128B) with one optimization:
/// the scale factor (1/sqrt(D)) is fused into the softmax FMA, eliminating 32 explicit
/// FMUL instructions per KV iteration. Instead of `S *= scale` followed by
/// `fma(S_scaled, LOG2E, -max*LOG2E)`, V11 precomputes `scale_log2e = scale * LOG2E`
/// and uses `fma(S_unscaled, scale_log2e, -max_scaled*LOG2E)` directly.
/// The running row max is stored as a scaled value throughout.
pub fn flash_attn_bf16_v11_fused_scale(
    q_len: usize,
    k_len: usize,
    v_len: usize,
    o_len: usize,
    batch: u32,
    num_heads: u32,
    seq_q: u32,
    seq_kv: u32,
    scale: F32,
) -> (r: Result<Launch>)
    requires
        flash_attn_bf16_v11_fused_scale_plan(
            q_len as int, k_len as int, v_len as int, o_len as int, batch as int, num_heads as int,
            seq_q as int, seq_kv as int, scale,
        ) !is Undefined,
    ensures
        plan::outcome(r) == flash_attn_bf16_v11_fused_scale_plan(
            q_len as int, k_len as int, v_len as int, o_len as int, batch as int, num_heads as int,
            seq_q as int, seq_kv as int, scale,
        ),
        plan::launchable(r, 4),
{
    if let Err(e) = dims::validate_attn_dims(batch, num_heads, seq_q, seq_kv) {
        return Err(e);
    }
    if let Err(e) = dims::validate_attn_bf16_bufs(
        q_len, k_len, v_len, o_len, batch, num_heads, seq_q, seq_kv,
    ) {
        return Err(e);
    }
    let grid_x: u32 = shape::div_ceil(seq_q, 64);
    let total_q_rows: u32 = batch * num_heads * seq_q;
    let total_kv_rows: u32 = batch * num_heads * seq_kv;
    Ok(
        Launch::raw(
            "fa_bf16_v11_fused_scale",
            "flash_attn_bf16_v11_fused_scale",
            (grid_x, num_heads, batch),
            (160, 1, 1),
            82032,
            vec![
                tensor_map::create_tma_desc_swizzle(0, total_q_rows, HEAD_DIM, 64, 64),
                tensor_map::create_tma_desc_swizzle(1, total_kv_rows, HEAD_DIM, 64, 64),
                tensor_map::create_tma_desc_swizzle(2, total_kv_rows, HEAD_DIM, 64, 64),
            ],
            vec![
                Arg::Descriptor(0), Arg::Descriptor(1), Arg::Descriptor(2), Arg::param(3),
                Arg::Word(seq_q), Arg::Word(seq_kv), Arg::Word(num_heads), Arg::Scalar(scale),
            ],
            Some("cuFuncSetAttribute(MAX_DYNAMIC_SHARED_SIZE_BYTES=82032) failed: "),
            Text::new("cuLaunchKernel failed for V11 fused scale: "),
        ),
    )
}

/// The answer of [`flash_attn_bf16_v12_persistent`].
pub open spec fn flash_attn_bf16_v12_persistent_plan(
    q_len: int, k_len: int, v_len: int, o_len: int, batch: int, num_heads: int, seq_q: int,
    seq_kv: int, scale: F32,
) -> Plan {
    let num_q_blocks = shape::ceil_div(seq_q, 64);
    let grid_x = shape::lesser(num_q_blocks, 48);
    let total_q_rows = batch * num_heads * seq_q;
    let total_kv_rows = batch * num_heads * seq_kv;
    if let Some(fault) = dims::attn_dims_fault(batch, num_heads, seq_q, seq_kv) {
        Plan::Fail(fault)
    } else if dims::attn_needs_overflow(batch, num_heads, seq_q, seq_kv) {
        Plan::Undefined
    } else if let Some(fault) = dims::attn_bf16_bufs_fault(
        q_len, k_len, v_len, o_len, batch, num_heads, seq_q, seq_kv,
    ) {
        Plan::Fail(fault)
    } else if batch * num_heads > u32::MAX
        || total_q_rows > u32::MAX
        || total_kv_rows > u32::MAX
    {
        Plan::Undefined
    } else {
        Plan::raw_launch(
            "fa_bf16_v12_persistent"@,
            "flash_attn_bf16_v12_persistent"@,
            (grid_x, num_heads, batch),
            (160, 1, 1),
            82032,
            seq![
                tensor_map::desc_swizzle(0, total_q_rows, HEAD_DIM as int, 64, 64),
                tensor_map::desc_swizzle(1, total_kv_rows, HEAD_DIM as int, 64, 64),
                tensor_map::desc_swizzle(2, total_kv_rows, HEAD_DIM as int, 64, 64),
            ],
            seq![
                Arg::Descriptor(0), Arg::Descriptor(1), Arg::Descriptor(2), Arg::buffer(3),
                Arg::word(seq_q), Arg::word(seq_kv), Arg::word(num_heads), Arg::Scalar(scale),
            ],
            Some("cuFuncSetAttribute(MAX_DYNAMIC_SHARED_SIZE_BYTES=82032) failed: "@),
            "cuLaunchKernel failed for V12 persistent: "@,
        )
    }
}

/// Launch BF16 Flash Attention V12 (persistent) with TMA + SWIZZLE_128B + fused scale.
pub fn flash_attn_bf16_v12_persistent(
    q_len: usize,
    k_len: usize,
    v_len: usize,
    o_len: usize,
    batch: u32,
    num_heads: u32,
    seq_q: u32,
    seq_kv: u32,
    scale: F32,
) -> (r: Result<Launch>)
    requires
        flash_attn_bf16_v12_persistent_plan(
            q_len as int, k_len as int, v_len as int, o_len as int, batch as int, num_heads as int,
            seq_q as int, seq_kv as int, scale,
        ) !is Undefined,
    ensures
        plan::outcome(r) == flash_attn_bf16_v12_persistent_plan(
            q_len as int, k_len as int, v_len as int, o_len as int, batch as int, num_heads as int,
            seq_q as int, seq_kv as int, scale,
        ),
        plan::launchable(r, 4),
{
    if let Err(e) = dims::validate_attn_dims(batch, num_heads, seq_q, seq_kv) {
        return Err(e);
    }
    if let Err(e) = dims::validate_attn_bf16_bufs(
        q_len, k_len, v_len, o_len, batch, num_heads, seq_q, seq_kv,
    ) {
        return Err(e);
    }
    let num_q_blocks: u32 = shape::div_ceil(seq_q, 64);
    let grid_x: u32 = shape::lesser_of(num_q_blocks, 48);
    let total_q_rows: u32 = batch * num_heads * seq_q;
    let total_kv_rows: u32 = batch * num_heads * seq_kv;
    Ok(
        Launch::raw(
            "fa_bf16_v12_persistent",
            "flash_attn_bf16_v12_persistent",
            (grid_x, num_heads, batch),
            (160, 1, 1),
            82032,
            vec![
                tensor_map::create_tma_desc_swizzle(0, total_q_rows, HEAD_DIM, 64, 64),
                tensor_map::create_tma_desc_swizzle(1, total_kv_rows, HEAD_DIM, 64, 64),
                tensor_map::create_tma_desc_swizzle(2, total_kv_rows, HEAD_DIM, 64, 64),
            ],
            vec![
                Arg::Descriptor(0), Arg::Descriptor(1), Arg::Descriptor(2), Arg::param(3),
                Arg::Word(seq_q), Arg::Word(seq_kv), Arg::Word(num_heads), Arg::Scalar(scale),
            ],
            Some("cuFuncSetAttribute(MAX_DYNAMIC_SHARED_SIZE_BYTES=82032) failed: "),
            Text::new("cuLaunchKernel failed for V12 persistent: "),
        ),
    )
}

/// The answer of [`flash_attn_bf16_v13_bc32_d128`].
pub open spec fn flash_attn_bf16_v13_bc32_d128_plan(
    q_len: int, k_len: int, v_len: int, o_len: int, batch: int, num_heads: int, seq_q: int,
    seq_kv: int, scale: F32,
) -> Plan {
    let grid_x = shape::ceil_div(seq_q, 64);
    let total_q_rows = batch * num_heads * seq_q;
    let total_kv_rows = batch * num_heads * seq_kv;
    if let Some(fault) = dims::attn_dims_fault(batch, num_heads, seq_q, seq_kv) {
        Plan::Fail(fault)
    } else if dims::attn_needs_overflow(batch, num_heads, seq_q, seq_kv) {
        Plan::Undefined
    } else if let Some(fault) = dims::attn_bf16_bufs_fault(
        q_len, k_len, v_len, o_len, batch, num_heads, seq_q, seq_kv,
    ) {
        Plan::Fail(fault)
    } else if batch * num_heads > u32::MAX
        || total_q_rows > u32::MAX
        || total_kv_rows > u32::MAX
    {
        Plan::Undefined
    } else {
        Plan::raw_launch(
            "fa_bf16_v13_bc32_d128"@,
            "flash_attn_bf16_v13_bc32_d128"@,
            (grid_x, num_heads, batch),
            (160, 1, 1),
            0,
            seq![
                tensor_map::desc_swizzle(0, total_q_rows, HEAD_DIM as int, 64, 64),
                tensor_map::desc_swizzle(1, total_kv_rows, HEAD_DIM as int, 32, 64),
                tensor_map::desc_swizzle(2, total_kv_rows, HEAD_DIM as int, 32, 64),
            ],
            seq![
                Arg::Descriptor(0), Arg::Descriptor(1), Arg::Descriptor(2), Arg::buffer(3),
                Arg::word(seq_q), Arg::word(seq_kv), Arg::word(num_heads), Arg::Scalar(scale),
            ],
            None,
            "cuLaunchKernel failed for V13 Bc32: "@,
        )
    }
}

/// Flash Attention V13: BF16, non-causal, Bc=32 for 2-CTA/SM occupancy.
pub fn flash_attn_bf16_v13_bc32_d128(
    q_len: usize,
    k_len: usize,
    v_len: usize,
    o_len: usize,
    batch: u32,
    num_heads: u32,
    seq_q: u32,
    seq_kv: u32,
    scale: F32,
) -> (r: Result<Launch>)
    requires
        flash_attn_bf16_v13_bc32_d128_plan(
            q_len as int, k_len as int, v_len as int, o_len as int, batch as int, num_heads as int,
            seq_q as int, seq_kv as int, scale,
        ) !is Undefined,
    ensures
        plan::outcome(r) == flash_attn_bf16_v13_bc32_d128_plan(
            q_len as int, k_len as int, v_len as int, o_len as int, batch as int, num_heads as int,
            seq_q as int, seq_kv as int, scale,
        ),
        plan::launchable(r, 4),
{
    if let Err(e) = dims::validate_attn_dims(batch, num_heads, seq_q, seq_kv) {
        return Err(e);
    }
    if let Err(e) = dims::validate_attn_bf16_bufs(
        q_len, k_len, v_len, o_len, batch, num_heads, seq_q, seq_kv,
    ) {
        return Err(e);
    }
    let grid_x: u32 = shape::div_ceil(seq_q, 64);
    let total_q_rows: u32 = batch * num_heads * seq_q;
    let total_kv_rows: u32 = batch * num_heads * seq_kv;
    Ok(
        Launch::raw(
            "fa_bf16_v13_bc32_d128",
            "flash_attn_bf16_v13_bc32_d128",
            (grid_x, num_heads, batch),
            (160, 1, 1),
            0,
            vec![
                tensor_map::create_tma_desc_swizzle(0, total_q_rows, HEAD_DIM, 64, 64),
                tensor_map::create_tma_desc_swizzle(1, total_kv_rows, HEAD_DIM, 32, 64),
                tensor_map::create_tma_desc_swizzle(2, total_kv_rows, HEAD_DIM, 32, 64),
            ],
            vec![
                Arg::Descriptor(0), Arg::Descriptor(1), Arg::Descriptor(2), Arg::param(3),
                Arg::Word(seq_q), Arg::Word(seq_kv), Arg::Word(num_heads), Arg::Scalar(scale),
            ],
            None,
            Text::new("cuLaunchKernel failed for V13 Bc32: "),
        ),
    )
}

/// The answer of [`flash_attn_bf16_v11_causal`].
pub open spec fn flash_attn_bf16_v11_causal_plan(
    q_len: int, k_len: int, v_len: int, o_len: int, batch: int, num_heads: int, seq_q: int,
    seq_kv: int, scale: F32,
) -> Plan {
    let grid_x = shape::ceil_div(seq_q, 64);
    let total_q_rows = batch * num_heads * seq_q;
    let total_kv_rows = batch * num_heads * seq_kv;
    if let Some(fault) = dims::attn_dims_fault(batch, num_heads, seq_q, seq_kv) {
        Plan::Fail(fault)
    } else if dims::attn_needs_overflow(batch, num_heads, seq_q, seq_kv) {
        Plan::Undefined
    } else if let Some(fault) = dims::attn_bf16_bufs_fault(
        q_len, k_len, v_len, o_len, batch, num_heads, seq_q, seq_kv,
    ) {
        Plan::Fail(fault)
    } else if batch * num_heads > u32::MAX
        || total_q_rows > u32::MAX
        || total_kv_rows > u32::MAX
    {
        Plan::Undefined
    } else {
        Plan::raw_launch(
            "fa_bf16_v11_causal"@,
            "flash_attn_bf16_v11_causal"@,
            (grid_x, num_heads, batch),
            (160, 1, 1),
            82032,
            seq![
                tensor_map::desc_swizzle(0, total_q_rows, HEAD_DIM as int, 64, 64),
                tensor_map::desc_swizzle(1, total_kv_rows, HEAD_DIM as int, 64, 64),
                tensor_map::desc_swizzle(2, total_kv_rows, HEAD_DIM as int, 64, 64),
            ],
            seq![
                Arg::Descriptor(0), Arg::Descriptor(1), Arg::Descriptor(2), Arg::buffer(3),
                Arg::word(seq_q), Arg::word(seq_kv), Arg::word(num_heads), Arg::Scalar(scale),
            ],
            Some("cuFuncSetAttribute(MAX_DYNAMIC_SHARED_SIZE_BYTES=82032) failed: "@),
            "cuLaunchKernel failed for V11 causal: "@,
        )
    }
}

/// Launch BF16 Flash Attention V11 (causal) with TMA + SWIZZLE_128B + fused scale.
pub fn flash_attn_bf16_v11_causal(
    q_len: usize,
    k_len: usize,
    v_len: usize,
    o_len: usize,
    batch: u32,
    num_heads: u32,
    seq_q: u32,
    seq_kv: u32,
    scale: F32,
) -> (r: Result<Launch>)
    requires
        flash_attn_bf16_v11_causal_plan(
            q_len as int, k_len as int, v_len as int, o_len as int, batch as int, num_heads as int,
            seq_q as int, seq_kv as int, scale,
        ) !is Undefined,
    ensures
        plan::outcome(r) == flash_attn_bf16_v11_causal_plan(
            q_len as int, k_len as int, v_len as int, o_len as int, batch as int, num_heads as int,
            seq_q as int, seq_kv as int, scale,
        ),
        plan::launchable(r, 4),
{
    if let Err(e) = dims::validate_attn_dims(batch, num_heads, seq_q, seq_kv) {
        return Err(e);
    }
    if let Err(e) = dims::validate_attn_bf16_bufs(
        q_len, k_len, v_len, o_len, batch, num_heads, seq_q, seq_kv,
    ) {
        return Err(e);
    }
    let grid_x: u32 = shape::div_ceil(seq_q, 64);
    let total_q_rows: u32 = batch * num_heads * seq_q;
    let total_kv_rows: u32 = batch * num_heads * seq_kv;
    Ok(
        Launch::raw(
            "fa_bf16_v11_causal",
            "flash_attn_bf16_v11_causal",
            (grid_x, num_heads, batch),
            (160, 1, 1),
            82032,
            vec![
                tensor_map::create_tma_desc_swizzle(0, total_q_rows, HEAD_DIM, 64, 64),
                tensor_map::create_tma_desc_swizzle(1, total_kv_rows, HEAD_DIM, 64, 64),
                tensor_map::create_tma_desc_swizzle(2, total_kv_rows, HEAD_DIM, 64, 64),
            ],
            vec![
                Arg::Descriptor(0), Arg::Descriptor(1), Arg::Descriptor(2), Arg::param(3),
                Arg::Word(seq_q), Arg::Word(seq_kv), Arg::Word(num_heads), Arg::Scalar(scale),
            ],
            Some("cuFuncSetAttribute(MAX_DYNAMIC_SHARED_SIZE_BYTES=82032) failed: "),
            Text::new("cuLaunchKernel failed for V11 causal: "),
        ),
    )
}

/// The answer of [`flash_attn_bf16_v11_varlen`].
pub open spec fn flash_attn_bf16_v11_varlen_plan(
    q_len: int, k_len: int, v_len: int, o_len: int, cu_seqlens_q_len: int, cu_seqlens_k_len: int,
    batch: int, num_heads: int, max_seqlen_q: int, total_q: int, total_kv: int, scale: F32,
) -> Plan {
    let cu_need = batch + 1;
    let grid_x = shape::ceil_div(max_seqlen_q, 64);
    if batch == 0 {
        Plan::invalid("batch must be > 0"@)
    } else if num_heads == 0 {
        Plan::invalid("num_heads must be > 0"@)
    } else if max_seqlen_q == 0 || total_q == 0 || total_kv == 0 {
        Plan::invalid("max_seqlen_q, total_q, total_kv must be > 0"@)
    } else if cu_need > u32::MAX {
        Plan::Undefined
    } else if cu_seqlens_q_len < cu_need || cu_seqlens_k_len < cu_need {
        Plan::invalid("cu_seqlens too small: need "@ + text::decimal(cu_need))
    } else if num_heads * total_q > u32::MAX || num_heads * total_kv > u32::MAX {
        Plan::Undefined
    } else {
        Plan::raw_launch(
            "fa_bf16_v11_varlen"@,
            "flash_attn_bf16_v11_varlen"@,
            (grid_x, num_heads, batch),
            (160, 1, 1),
            82032,
            seq![
                tensor_map::desc_swizzle(0, num_heads * total_q, HEAD_DIM as int, 64, 64),
                tensor_map::desc_swizzle(1, num_heads * total_kv, HEAD_DIM as int, 64, 64),
                tensor_map::desc_swizzle(2, num_heads * total_kv, HEAD_DIM as int, 64, 64),
            ],
            seq![
                Arg::Descriptor(0), Arg::Descriptor(1), Arg::Descriptor(2), Arg::buffer(3),
                Arg::buffer(4), Arg::buffer(5), Arg::word(total_q), Arg::word(total_kv),
                Arg::Scalar(scale),
            ],
            Some("cuFuncSetAttribute failed: "@),
            "cuLaunchKernel failed for V11 varlen: "@,
        )
    }
}

/// Launch BF16 Flash Attention V11 varlen non-causal (TMA + SWIZZLE_128B + fused scale).
pub fn flash_attn_bf16_v11_varlen(
    q_len: usize,
    k_len: usize,
    v_len: usize,
    o_len: usize,
    cu_seqlens_q_len: usize,
    cu_seqlens_k_len: usize,
    batch: u32,
    num_heads: u32,
    max_seqlen_q: u32,
    total_q: u32,
    total_kv: u32,
    scale: F32,
) -> (r: Result<Launch>)
    requires
        flash_attn_bf16_v11_varlen_plan(
            q_len as int, k_len as int, v_len as int, o_len as int, cu_seqlens_q_len as int,
            cu_seqlens_k_len as int, batch as int, num_heads as int, max_seqlen_q as int,
            total_q as int, total_kv as int, scale,
        ) !is Undefined,
    ensures
        plan::outcome(r) == flash_attn_bf16_v11_varlen_plan(
            q_len as int, k_len as int, v_len as int, o_len as int, cu_seqlens_q_len as int,
            cu_seqlens_k_len as int, batch as int, num_heads as int, max_seqlen_q as int,
            total_q as int, total_kv as int, scale,
        ),
        plan::launchable(r, 6),
{
    if batch == 0 {
        return Text::new("batch must be > 0").refuse();
    }
    if num_heads == 0 {
        return Text::new("num_heads must be > 0").refuse();
    }
    if max_seqlen_q == 0 || total_q == 0 || total_kv == 0 {
        return Text::new("max_seqlen_q, total_q, total_kv must be > 0").refuse();
    }
    let cu_need: u64 = (batch + 1) as u64;
    if (cu_seqlens_q_len as u64) < cu_need || (cu_seqlens_k_len as u64) < cu_need {
        return Text::new("cu_seqlens too small: need ").n(cu_need).refuse();
    }
    let grid_x: u32 = shape::div_ceil(max_seqlen_q, 64);
    Ok(
        Launch::raw(
            "fa_bf16_v11_varlen",
            "flash_attn_bf16_v11_varlen",
            (grid_x, num_heads, batch),
            (160, 1, 1),
            82032,
            vec![
                tensor_map::create_tma_desc_swizzle(0, num_heads * total_q, HEAD_DIM, 64, 64),
                tensor_map::create_tma_desc_swizzle(1, num_heads * total_kv, HEAD_DIM, 64, 64),
                tensor_map::create_tma_desc_swizzle(2, num_heads * total_kv, HEAD_DIM, 64, 64),
            ],
            vec![
                Arg::Descriptor(0), Arg::Descriptor(1), Arg::Descriptor(2), Arg::param(3),
                Arg::param(4), Arg::param(5), Arg::Word(total_q), Arg::Word(total_kv),
                Arg::Scalar(scale),
            ],
            Some("cuFuncSetAttribute failed: "),
            Text::new("cuLaunchKernel failed for V11 varlen: "),
        ),
    )
}

/// The answer of [`flash_attn_bf16_v11_varlen_causal`].
pub open spec fn flash_attn_bf16_v11_varlen_causal_plan(
    q_len: int, k_len: int, v_len: int, o_len: int, cu_seqlens_q_len: int, cu_seqlens_k_len: int,
    batch: int, num_heads: int, max_seqlen_q: int, total_q: int, total_kv: int, scale: F32,
) -> Plan {
    let cu_need = batch + 1;
    let grid_x = shape::ceil_div(max_seqlen_q, 64);
    if batch == 0 {
        Plan::invalid("batch must be > 0"@)
    } else if num_heads == 0 {
        Plan::invalid("num_heads must be > 0"@)
    } else if max_seqlen_q == 0 || total_q == 0 || total_kv == 0 {
        Plan::invalid("max_seqlen_q, total_q, total_kv must be > 0"@)
    } else if cu_need > u32::MAX {
        Plan::Undefined
    } else if cu_seqlens_q_len < cu_need || cu_seqlens_k_len < cu_need {
        Plan::invalid("cu_seqlens too small: need "@ + text::decimal(cu_need))
    } else if num_heads * total_q > u32::MAX || num_heads * total_kv > u32::MAX {
        Plan::Undefined
    } else {
        Plan::raw_launch(
            "fa_bf16_v11_varlen_causal"@,
            "flash_attn_bf16_v11_varlen_causal"@,
            (grid_x, num_heads, batch),
            (160, 1, 1),
            82032,
            seq![
                tensor_map::desc_swizzle(0, num_heads * total_q, HEAD_DIM as int, 64, 64),
                tensor_map::desc_swizzle(1, num_heads * total_kv, HEAD_DIM as int, 64, 64),
                tensor_map::desc_swizzle(2, num_heads * total_kv, HEAD_DIM as int, 64, 64),
            ],
            seq![
                Arg::Descriptor(0), Arg::Descriptor(1), Arg::Descriptor(2), Arg::buffer(3),
                Arg::buffer(4), Arg::buffer(5), Arg::word(total_q), Arg::word(total_kv),
                Arg::Scalar(scale),
            ],
            Some("cuFuncSetAttribute(MAX_DYNAMIC_SHARED_SIZE_BYTES=82032) failed: "@),
            "cuLaunchKernel failed for V11 varlen causal: "@,
        )
    }
}

/// Launch BF16 Flash Attention V11 varlen causal (TMA + SWIZZLE_128B + fused scale).
pub fn flash_attn_bf16_v11_varlen_causal(
    q_len: usize,
    k_len: usize,
    v_len: usize,
    o_len: usize,
    cu_seqlens_q_len: usize,
    cu_seqlens_k_len: usize,
    batch: u32,
    num_heads: u32,
    max_seqlen_q: u32,
    total_q: u32,
    total_kv: u32,
    scale: F32,
) -> (r: Result<Launch>)
    requires
        flash_attn_bf16_v11_varlen_causal_plan(
            q_len as int, k_len as int, v_len as int, o_len as int, cu_seqlens_q_len as int,
            cu_seqlens_k_len as int, batch as int, num_heads as int, max_seqlen_q as int,
            total_q as int, total_kv as int, scale,
        ) !is Undefined,
    ensures
        plan::outcome(r) == flash_attn_bf16_v11_varlen_causal_plan(
            q_len as int, k_len as int, v_len as int, o_len as int, cu_seqlens_q_len as int,
            cu_seqlens_k_len as int, batch as int, num_heads as int, max_seqlen_q as int,
            total_q as int, total_kv as int, scale,
        ),
        plan::launchable(r, 6),
{
    if batch == 0 {
        return Text::new("batch must be > 0").refuse();
    }
    if num_heads == 0 {
        return Text::new("num_heads must be > 0").refuse();
    }
    if max_seqlen_q == 0 || total_q == 0 || total_kv == 0 {
        return Text::new("max_seqlen_q, total_q, total_kv must be > 0").refuse();
    }
    let cu_need: u64 = (batch + 1) as u64;
    if (cu_seqlens_q_len as u64) < cu_need || (cu_seqlens_k_len as u64) < cu_need {
        return Text::new("cu_seqlens too small: need ").n(cu_need).refuse();
    }
    let grid_x: u32 = shape::div_ceil(max_seqlen_q, 64);
    Ok(
        Launch::raw(
            "fa_bf16_v11_varlen_causal",
            "flash_attn_bf16_v11_varlen_causal",
            (grid_x, num_heads, batch),
            (160, 1, 1),
            82032,
            vec![
                tensor_map::create_tma_desc_swizzle(0, num_heads * total_q, HEAD_DIM, 64, 64),
                tensor_map::create_tma_desc_swizzle(1, num_heads * total_kv, HEAD_DIM, 64, 64),
                tensor_map::create_tma_desc_swizzle(2, num_heads * total_kv, HEAD_DIM, 64, 64),
            ],
            vec![
                Arg::Descriptor(0), Arg::Descriptor(1), Arg::Descriptor(2), Arg::param(3),
                Arg::param(4), Arg::param(5), Arg::Word(total_q), Arg::Word(total_kv),
                Arg::Scalar(scale),
            ],
            Some("cuFuncSetAttribute(MAX_DYNAMIC_SHARED_SIZE_BYTES=82032) failed: "),
            Text::new("cuLaunchKernel failed for V11 varlen causal: "),
        ),
    )
}

/// The answer of [`flash_attn_bf16_v11_gqa`].
pub open spec fn flash_attn_bf16_v11_gqa_plan(
    q_len: int, k_len: int, v_len: int, o_len: int, batch: int, num_heads_q: int, num_heads_kv: int,
    seq_q: int, seq_kv: int, scale: F32,
) -> Plan {
    let grid_x = shape::ceil_div(seq_q, 64);
    let total_q_rows = batch * num_heads_q * seq_q;
    let total_kv_rows = batch * num_heads_kv * seq_kv;
    if batch == 0 || num_heads_q == 0 || num_heads_kv == 0 || seq_q == 0 || seq_kv == 0 {
        Plan::invalid("batch, num_heads_q, num_heads_kv, seq_q, seq_kv must be > 0"@)
    } else if num_heads_q % num_heads_kv != 0 {
        Plan::invalid(
            "num_heads_q ("@ + text::decimal(num_heads_q)
                + ") must be divisible by num_heads_kv ("@ + text::decimal(num_heads_kv) + ")"@,
        )
    } else if batch * num_heads_q > u32::MAX
        || total_q_rows > u32::MAX
        || batch * num_heads_kv > u32::MAX
        || total_kv_rows > u32::MAX
    {
        Plan::Undefined
    } else {
        Plan::raw_launch(
            "fa_bf16_v11_gqa"@,
            "flash_attn_bf16_v11_gqa"@,
            (grid_x, num_heads_q, batch),
            (160, 1, 1),
            82032,
            seq![
                tensor_map::desc_swizzle(0, total_q_rows, HEAD_DIM as int, 64, 64),
                tensor_map::desc_swizzle(1, total_kv_rows, HEAD_DIM as int, 64, 64),
                tensor_map::desc_swizzle(2, total_kv_rows, HEAD_DIM as int, 64, 64),
            ],
            seq![
                Arg::Descriptor(0), Arg::Descriptor(1), Arg::Descriptor(2), Arg::buffer(3),
                Arg::word(seq_q), Arg::word(seq_kv), Arg::word(num_heads_q),
                Arg::word(num_heads_kv), Arg::Scalar(scale),
            ],
            Some("cuFuncSetAttribute failed: "@),
            "cuLaunchKernel failed for V11 GQA: "@,
        )
    }
}

/// Launch BF16 Flash Attention V11 GQA (non-causal) with TMA + SWIZZLE_128B + fused scale.
pub fn flash_attn_bf16_v11_gqa(
    q_len: usize,
    k_len: usize,
    v_len: usize,
    o_len: usize,
    batch: u32,
    num_heads_q: u32,
    num_heads_kv: u32,
    seq_q: u32,
    seq_kv: u32,
    scale: F32,
) -> (r: Result<Launch>)
    requires
        flash_attn_bf16_v11_gqa_plan(
            q_len as int, k_len as int, v_len as int, o_len as int, batch as int,
            num_heads_q as int, num_heads_kv as int, seq_q as int, seq_kv as int, scale,
        ) !is Undefined,
    ensures
        plan::outcome(r) == flash_attn_bf16_v11_gqa_plan(
            q_len as int, k_len as int, v_len as int, o_len as int, batch as int,
            num_heads_q as int, num_heads_kv as int, seq_q as int, seq_kv as int, scale,
        ),
        plan::launchable(r, 4),
{
    if batch == 0 || num_heads_q == 0 || num_heads_kv == 0 || seq_q == 0 || seq_kv == 0 {
        return Text::new("batch, num_heads_q, num_heads_kv, seq_q, seq_kv must be > 0").refuse();
    }
    if num_heads_q % num_heads_kv != 0 {
        return Text::new("num_heads_q (").n(num_heads_q as u64)
            .s(") must be divisible by num_heads_kv (").n(num_heads_kv as u64).s(")").refuse();
    }
    let grid_x: u32 = shape::div_ceil(seq_q, 64);
    let total_q_rows: u32 = batch * num_heads_q * seq_q;
    let total_kv_rows: u32 = batch * num_heads_kv * seq_kv;
    Ok(
        Launch::raw(
            "fa_bf16_v11_gqa",
            "flash_attn_bf16_v11_gqa",
            (grid_x, num_heads_q, batch),
            (160, 1, 1),
            82032,
            vec![
                tensor_map::create_tma_desc_swizzle(0, total_q_rows, HEAD_DIM, 64, 64),
                tensor_map::create_tma_desc_swizzle(1, total_kv_rows, HEAD_DIM, 64, 64),
                tensor_map::create_tma_desc_swizzle(2, total_kv_rows, HEAD_DIM, 64, 64),
            ],
            vec![
                Arg::Descriptor(0), Arg::Descriptor(1), Arg::Descriptor(2), Arg::param(3),
                Arg::Word(seq_q), Arg::Word(seq_kv), Arg::Word(num_heads_q),
                Arg::Word(num_heads_kv), Arg::Scalar(scale),
            ],
            Some("cuFuncSetAttribute failed: "),
            Text::new("cuLaunchKernel failed for V11 GQA: "),
        ),
    )
}

/// The answer of [`flash_attn_bf16_v11_gqa_causal`].
pub open spec fn flash_attn_bf16_v11_gqa_causal_plan(
    q_len: int, k_len: int, v_len: int, o_len: int, batch: int, num_heads_q: int, num_heads_kv: int,
    seq_q: int, seq_kv: int, scale: F32,
) -> Plan {
    let grid_x = shape::ceil_div(seq_q, 64);
    let total_q_rows = batch * num_heads_q * seq_q;
    let total_kv_rows = batch * num_heads_kv * seq_kv;
    if batch == 0 || num_heads_q == 0 || num_heads_kv == 0 || seq_q == 0 || seq_kv == 0 {
        Plan::invalid("batch, num_heads_q, num_heads_kv, seq_q, seq_kv must be > 0"@)
    } else if num_heads_q % num_heads_kv != 0 {
        Plan::invalid(
            "num_heads_q ("@ + text::decimal(num_heads_q)
                + ") must be divisible by num_heads_kv ("@ + text::decimal(num_heads_kv) + ")"@,
        )
    } else if batch * num_heads_q > u32::MAX
        || total_q_rows > u32::MAX
        || batch * num_heads_kv > u32::MAX
        || total_kv_rows > u32::MAX
    {
        Plan::Undefined
    } else {
        Plan::raw_launch(
            "fa_bf16_v11_gqa_causal"@,
            "flash_attn_bf16_v11_gqa_causal"@,
            (grid_x, num_heads_q, batch),
            (160, 1, 1),
            82032,
            seq![
                tensor_map::desc_swizzle(0, total_q_rows, HEAD_DIM as int, 64, 64),
                tensor_map::desc_swizzle(1, total_kv_rows, HEAD_DIM as int, 64, 64),
                tensor_map::desc_swizzle(2, total_kv_rows, HEAD_DIM as int, 64, 64),
            ],
            seq![
                Arg::Descriptor(0), Arg::Descriptor(1), Arg::Descriptor(2), Arg::buffer(3),
                Arg::word(seq_q), Arg::word(seq_kv), Arg::word(num_heads_q),
                Arg::word(num_heads_kv), Arg::Scalar(scale),
            ],
            Some("cuFuncSetAttribute failed: "@),
            "cuLaunchKernel failed for V11 GQA causal: "@,
        )
    }
}

/// Launch BF16 Flash Attention V11 GQA causal with TMA + SWIZZLE_128B + fused scale.
pub fn flash_attn_bf16_v11_gqa_causal(
    q_len: usize,
    k_len: usize,
    v_len: usize,
    o_len: usize,
    batch: u32,
    num_heads_q: u32,
    num_heads_kv: u32,
    seq_q: u32,
    seq_kv: u32,
    scale: F32,
) -> (r: Result<Launch>)
    requires
        flash_attn_bf16_v11_gqa_causal_plan(
            q_len as int, k_len as int, v_len as int, o_len as int, batch as int,
            num_heads_q as int, num_heads_kv as int, seq_q as int, seq_kv as int, scale,
        ) !is Undefined,
    ensures
        plan::outcome(r) == flash_attn_bf16_v11_gqa_causal_plan(
            q_len as int, k_len as int, v_len as int, o_len as int, batch as int,
            num_heads_q as int, num_heads_kv as int, seq_q as int, seq_kv as int, scale,
        ),
        plan::launchable(r, 4),
{
    if batch == 0 || num_heads_q == 0 || num_heads_kv == 0 || seq_q == 0 || seq_kv == 0 {
        return Text::new("batch, num_heads_q, num_heads_kv, seq_q, seq_kv must be > 0").refuse();
    }
    if num_heads_q % num_heads_kv != 0 {
        return Text::new("num_heads_q (").n(num_heads_q as u64)
            .s(") must be divisible by num_heads_kv (").n(num_heads_kv as u64).s(")").refuse();
    }
    let grid_x: u32 = shape::div_ceil(seq_q, 64);
    let total_q_rows: u32 = batch * num_heads_q * seq_q;
    let total_kv_rows: u32 = batch * num_heads_kv * seq_kv;
    Ok(
        Launch::raw(
            "fa_bf16_v11_gqa_causal",
            "flash_attn_bf16_v11_gqa_causal",
            (grid_x, num_heads_q, batch),
            (160, 1, 1),
            82032,
            vec![
                tensor_map::create_tma_desc_swizzle(0, total_q_rows, HEAD_DIM, 64, 64),
                tensor_map::create_tma_desc_swizzle(1, total_kv_rows, HEAD_DIM, 64, 64),
                tensor_map::create_tma_desc_swizzle(2, total_kv_rows, HEAD_DIM, 64, 64),
            ],
            vec![
                Arg::Descriptor(0), Arg::Descriptor(1), Arg::Descriptor(2), Arg::param(3),
                Arg::Word(seq_q), Arg::Word(seq_kv), Arg::Word(num_heads_q),
                Arg::Word(num_heads_kv), Arg::Scalar(scale),
            ],
            Some("cuFuncSetAttribute failed: "),
            Text::new("cuLaunchKernel failed for V11 GQA causal: "),
        ),
    )
}

/// The answer of [`flash_attn_bf16_v11_varlen_gqa`].
pub open spec fn flash_attn_bf16_v11_varlen_gqa_plan(
    q_len: int, k_len: int, v_len: int, o_len: int, cu_seqlens_q_len: int, cu_seqlens_k_len: int,
    batch: int, num_heads_q: int, num_heads_kv: int, max_seqlen_q: int, total_q: int, total_kv: int,
    scale: F32,
) -> Plan {
    let cu_need = batch + 1;
    let grid_x = shape::ceil_div(max_seqlen_q, 64);
    if batch == 0 || num_heads_q == 0 || num_heads_kv == 0 {
        Plan::invalid("batch, num_heads_q, num_heads_kv must be > 0"@)
    } else if num_heads_q % num_heads_kv != 0 {
        Plan::invalid(
            "num_heads_q ("@ + text::decimal(num_heads_q)
                + ") must be divisible by num_heads_kv ("@ + text::decimal(num_heads_kv) + ")"@,
        )
    } else if max_seqlen_q == 0 || total_q == 0 || total_kv == 0 {
        Plan::invalid("max_seqlen_q, total_q, total_kv must be > 0"@)
    } else if cu_need > u32::MAX {
        Plan::Undefined
    } else if cu_seqlens_q_len < cu_need || cu_seqlens_k_len < cu_need {
        Plan::invalid("cu_seqlens too small: need "@ + text::decimal(cu_need))
    } else if num_heads_q * total_q > u32::MAX || num_heads_kv * total_kv > u32::MAX {
        Plan::Undefined
    } else {
        Plan::raw_launch(
            "fa_bf16_v11_varlen_gqa"@,
            "flash_attn_bf16_v11_varlen_gqa"@,
            (grid_x, num_heads_q, batch),
            (160, 1, 1),
            82032,
            seq![
                tensor_map::desc_swizzle(0, num_heads_q * total_q, HEAD_DIM as int, 64, 64),
                tensor_map::desc_swizzle(1, num_heads_kv * total_kv, HEAD_DIM as int, 64, 64),
                tensor_map::desc_swizzle(2, num_heads_kv * total_kv, HEAD_DIM as int, 64, 64),
            ],
            seq![
                Arg::Descriptor(0), Arg::Descriptor(1), Arg::Descriptor(2), Arg::buffer(3),
                Arg::buffer(4), Arg::buffer(5), Arg::word(total_q), Arg::word(total_kv),
                Arg::word(num_heads_q), Arg::word(num_heads_kv), Arg::Scalar(scale),
            ],
            Some("cuFuncSetAttribute failed: "@),
            "cuLaunchKernel failed for V11 varlen GQA: "@,
        )
    }
}

/// Launch BF16 Flash Attention V11 varlen GQA (non-causal) with TMA + SWIZZLE_128B.
pub fn flash_attn_bf16_v11_varlen_gqa(
    q_len: usize,
    k_len: usize,
    v_len: usize,
    o_len: usize,
    cu_seqlens_q_len: usize,
    cu_seqlens_k_len: usize,
    batch: u32,
    num_heads_q: u32,
    num_heads_kv: u32,
    max_seqlen_q: u32,
    total_q: u32,
    total_kv: u32,
    scale: F32,
) -> (r: Result<Launch>)
    requires
        flash_attn_bf16_v11_varlen_gqa_plan(
            q_len as int, k_len as int, v_len as int, o_len as int, cu_seqlens_q_len as int,
            cu_seqlens_k_len as int, batch as int, num_heads_q as int, num_heads_kv as int,
            max_seqlen_q as int, total_q as int, total_kv as int, scale,
        ) !is Undefined,
    ensures
        plan::outcome(r) == flash_attn_bf16_v11_varlen_gqa_plan(
            q_len as int, k_len as int, v_len as int, o_len as int, cu_seqlens_q_len as int,
            cu_seqlens_k_len as int, batch as int, num_heads_q as int, num_heads_kv as int,
            max_seqlen_q as int, total_q as int, total_kv as int, scale,
        ),
        plan::launchable(r, 6),
{
    if batch == 0 || num_heads_q == 0 || num_heads_kv == 0 {
        return Text::new("batch, num_heads_q, num_heads_kv must be > 0").refuse();
    }
    if num_heads_q % num_heads_kv != 0 {
        return Text::new("num_heads_q (").n(num_heads_q as u64)
            .s(") must be divisible by num_heads_kv (").n(num_heads_kv as u64).s(")").refuse();
    }
    if max_seqlen_q == 0 || total_q == 0 || total_kv == 0 {
        return Text::new("max_seqlen_q, total_q, total_kv must be > 0").refuse();
    }
    let cu_need: u64 = (batch + 1) as u64;
    if (cu_seqlens_q_len as u64) < cu_need || (cu_seqlens_k_len as u64) < cu_need {
        return Text::new("cu_seqlens too small: need ").n(cu_need).refuse();
    }
    let grid_x: u32 = shape::div_ceil(max_seqlen_q, 64);
    Ok(
        Launch::raw(
            "fa_bf16_v11_varlen_gqa",
            "flash_attn_bf16_v11_varlen_gqa",
            (grid_x, num_heads_q, batch),
            (160, 1, 1),
            82032,
            vec![
                tensor_map::create_tma_desc_swizzle(0, num_heads_q * total_q, HEAD_DIM, 64, 64),
                tensor_map::create_tma_desc_swizzle(1, num_heads_kv * total_kv, HEAD_DIM, 64, 64),
                tensor_map::create_tma_desc_swizzle(2, num_heads_kv * total_kv, HEAD_DIM, 64, 64),
            ],
            vec![
                Arg::Descriptor(0), Arg::Descriptor(1), Arg::Descriptor(2), Arg::param(3),
                Arg::param(4), Arg::param(5), Arg::Word(total_q), Arg::Word(total_kv),
                Arg::Word(num_heads_q), Arg::Word(num_heads_kv), Arg::Scalar(scale),
            ],
            Some("cuFuncSetAttribute failed: "),
            Text::new("cuLaunchKernel failed for V11 varlen GQA: "),
        ),
    )
}

/// The answer of [`flash_attn_bf16_v11_varlen_gqa_causal`].
pub open spec fn flash_attn_bf16_v11_varlen_gqa_causal_plan(
    q_len: int, k_len: int, v_len: int, o_len: int, cu_seqlens_q_len: int, cu_seqlens_k_len: int,
    batch: int, num_heads_q: int, num_heads_kv: int, max_seqlen_q: int, total_q: int, total_kv: int,
    scale: F32,
) -> Plan {
    let cu_need = batch + 1;
    let grid_x = shape::ceil_div(max_seqlen_q, 64);
    if batch == 0 || num_heads_q == 0 || num_heads_kv == 0 {
        Plan::invalid("batch, num_heads_q, num_heads_kv must be > 0"@)
    } else if num_heads_q % num_heads_kv != 0 {
        Plan::invalid(
            "num_heads_q ("@ + text::decimal(num_heads_q)
                + ") must be divisible by num_heads_kv ("@ + text::decimal(num_heads_kv) + ")"@,
        )
    } else if max_seqlen_q == 0 || total_q == 0 || total_kv == 0 {
        Plan::invalid("max_seqlen_q, total_q, total_kv must be > 0"@)
    } else if cu_need > u32::MAX {
        Plan::Undefined
    } else if cu_seqlens_q_len < cu_need || cu_seqlens_k_len < cu_need {
        Plan::invalid("cu_seqlens too small: need "@ + text::decimal(cu_need))
    } else if num_heads_q * total_q > u32::MAX || num_heads_kv * total_kv > u32::MAX {
        Plan::Undefined
    } else {
        Plan::raw_launch(
            "fa_bf16_v11_varlen_gqa_causal"@,
            "flash_attn_bf16_v11_varlen_gqa_causal"@,
            (grid_x, num_heads_q, batch),
            (160, 1, 1),
            82032,
            seq![
                tensor_map::desc_swizzle(0, num_heads_q * total_q, HEAD_DIM as int, 64, 64),
                tensor_map::desc_swizzle(1, num_heads_kv * total_kv, HEAD_DIM as int, 64, 64),
                tensor_map::desc_swizzle(2, num_heads_kv * total_kv, HEAD_DIM as int, 64, 64),
            ],
            seq![
                Arg::Descriptor(0), Arg::Descriptor(1), Arg::Descriptor(2), Arg::buffer(3),
                Arg::buffer(4), Arg::buffer(5), Arg::word(total_q), Arg::word(total_kv),
                Arg::word(num_heads_q), Arg::word(num_heads_kv), Arg::Scalar(scale),
            ],
            Some("cuFuncSetAttribute failed: "@),
            "cuLaunchKernel failed for V11 varlen GQA causal: "@,
        )
    }
}

/// Launch BF16 Flash Attention V11 varlen GQA causal with TMA + SWIZZLE_128B.
pub fn flash_attn_bf16_v11_varlen_gqa_causal(
    q_len: usize,
    k_len: usize,
    v_len: usize,
    o_len: usize,
    cu_seqlens_q_len: usize,
    cu_seqlens_k_len: usize,
    batch: u32,
    num_heads_q: u32,
    num_heads_kv: u32,
    max_seqlen_q: u32,
    total_q: u32,
    total_kv: u32,
    scale: F32,
) -> (r: Result<Launch>)
    requires
        flash_attn_bf16_v11_varlen_gqa_causal_plan(
            q_len as int, k_len as int, v_len as int, o_len as int, cu_seqlens_q_len as int,
            cu_seqlens_k_len as int, batch as int, num_heads_q as int, num_heads_kv as int,
            max_seqlen_q as int, total_q as int, total_kv as int, scale,
        ) !is Undefined,
    ensures
        plan::outcome(r) == flash_attn_bf16_v11_varlen_gqa_causal_plan(
            q_len as int, k_len as int, v_len as int, o_len as int, cu_seqlens_q_len as int,
            cu_seqlens_k_len as int, batch as int, num_heads_q as int, num_heads_kv as int,
            max_seqlen_q as int, total_q as int, total_kv as int, scale,
        ),
        plan::launchable(r, 6),
{
    if batch == 0 || num_heads_q == 0 || num_heads_kv == 0 {
        return Text::new("batch, num_heads_q, num_heads_kv must be > 0").refuse();
    }
    if num_heads_q % num_heads_kv != 0 {
        return Text::new("num_heads_q (").n(num_heads_q as u64)
            .s(") must be divisible by num_heads_kv (").n(num_heads_kv as u64).s(")").refuse();
    }
    if max_seqlen_q == 0 || total_q == 0 || total_kv == 0 {
        return Text::new("max_seqlen_q, total_q, total_kv must be > 0").refuse();
    }
    let cu_need: u64 = (batch + 1) as u64;
    if (cu_seqlens_q_len as u64) < cu_need || (cu_seqlens_k_len as u64) < cu_need {
        return Text::new("cu_seqlens too small: need ").n(cu_need).refuse();
    }
    let grid_x: u32 = shape::div_ceil(max_seqlen_q, 64);
    Ok(
        Launch::raw(
            "fa_bf16_v11_varlen_gqa_causal",
            "flash_attn_bf16_v11_varlen_gqa_causal",
            (grid_x, num_heads_q, batch),
            (160, 1, 1),
            82032,
            vec![
                tensor_map::create_tma_desc_swizzle(0, num_heads_q * total_q, HEAD_DIM, 64, 64),
                tensor_map::create_tma_desc_swizzle(1, num_heads_kv * total_kv, HEAD_DIM, 64, 64),
                tensor_map::create_tma_desc_swizzle(2, num_heads_kv * total_kv, HEAD_DIM, 64, 64),
            ],
            vec![
                Arg::Descriptor(0), Arg::Descriptor(1), Arg::Descriptor(2), Arg::param(3),
                Arg::param(4), Arg::param(5), Arg::Word(total_q), Arg::Word(total_kv),
                Arg::Word(num_heads_q), Arg::Word(num_heads_kv), Arg::Scalar(scale),
            ],
            Some("cuFuncSetAttribute failed: "),
            Text::new("cuLaunchKernel failed for V11 varlen GQA causal: "),
        ),
    )
}

/// The answer of [`flash_attn_bf16_v20_tma_bc128`].
pub open spec fn flash_attn_bf16_v20_tma_bc128_plan(
    q_len: int, k_len: int, v_len: int, o_len: int, batch: int, num_heads: int, seq_q: int,
    seq_kv: int, scale: F32,
) -> Plan {
    let grid_x = shape::ceil_div(seq_q, 64);
    let total_q_rows = batch * num_heads * seq_q;
    let total_kv_rows = batch * num_heads * seq_kv;
    if let Some(fault) = dims::attn_dims_fault(batch, num_heads, seq_q, seq_kv) {
        Plan::Fail(fault)
    } else if dims::attn_needs_overflow(batch, num_heads, seq_q, seq_kv) {
        Plan::Undefined
    } else if let Some(fault) = dims::attn_bf16_bufs_fault(
        q_len, k_len, v_len, o_len, batch, num_heads, seq_q, seq_kv,
    ) {
        Plan::Fail(fault)
    } else if batch * num_heads > u32::MAX
        || total_q_rows > u32::MAX
        || total_kv_rows > u32::MAX
    {
        Plan::Undefined
    } else {
        Plan::raw_launch(
            "fa_bf16_v20_tma_bc128"@,
            "flash_attn_bf16_v20_tma_bc128"@,
            (grid_x, num_heads, batch),
            (160, 1, 1),
            98368,
            seq![
                tensor_map::desc_swizzle(0, total_q_rows, HEAD_DIM as int, 64, 64),
                tensor_map::desc_swizzle(1, total_kv_rows, HEAD_DIM as int, 128, 64),
                tensor_map::desc_swizzle(2, total_kv_rows, HEAD_DIM as int, 128, 64),
            ],
            seq![
                Arg::Descriptor(0), Arg::Descriptor(1), Arg::Descriptor(2), Arg::buffer(3),
                Arg::word(seq_q), Arg::word(seq_kv), Arg::word(num_heads), Arg::Scalar(scale),
            ],
            Some("cuFuncSetAttribute(MAX_DYNAMIC_SHARED_SIZE_BYTES=98368) failed: "@),
            "cuLaunchKernel failed for V20 TMA BC=128: "@,
        )
    }
}

/// Launch BF16 Flash Attention V20 (TMA, BC=128, single-buffered) with d=128.
/// 5 warps (160 threads): 4 MMA + 1 DMA. BR=64, BC=128.
/// TMA with swizzle for K/V loading. ~96KB dynamic SMEM.
pub fn flash_attn_bf16_v20_tma_bc128(
    q_len: usize,
    k_len: usize,
    v_len: usize,
    o_len: usize,
    batch: u32,
    num_heads: u32,
    seq_q: u32,
    seq_kv: u32,
    scale: F32,
) -> (r: Result<Launch>)
    requires
        flash_attn_bf16_v20_tma_bc128_plan(
            q_len as int, k_len as int, v_len as int, o_len as int, batch as int, num_heads as int,
            seq_q as int, seq_kv as int, scale,
        ) !is Undefined,
    ensures
        plan::outcome(r) == flash_attn_bf16_v20_tma_bc128_plan(
            q_len as int, k_len as int, v_len as int, o_len as int, batch as int, num_heads as int,
            seq_q as int, seq_kv as int, scale,
        ),
        plan::launchable(r, 4),
{
    if let Err(e) = dims::validate_attn_dims(batch, num_heads, seq_q, seq_kv) {
        return Err(e);
    }
    if let Err(e) = dims::validate_attn_bf16_bufs(
        q_len, k_len, v_len, o_len, batch, num_heads, seq_q, seq_kv,
    ) {
        return Err(e);
    }
    let grid_x: u32 = shape::div_ceil(seq_q, 64);
    let total_q_rows: u32 = batch * num_heads * seq_q;
    let total_kv_rows: u32 = batch * num_heads * seq_kv;
    Ok(
        Launch::raw(
            "fa_bf16_v20_tma_bc128",
            "flash_attn_bf16_v20_tma_bc128",
            (grid_x, num_heads, batch),
            (160, 1, 1),
            98368,
            vec![
                tensor_map::create_tma_desc_swizzle(0, total_q_rows, HEAD_DIM, 64, 64),
                tensor_map::create_tma_desc_swizzle(1, total_kv_rows, HEAD_DIM, 128, 64),
                tensor_map::create_tma_desc_swizzle(2, total_kv_rows, HEAD_DIM, 128, 64),
            ],
            vec![
                Arg::Descriptor(0), Arg::Descriptor(1), Arg::Descriptor(2), Arg::param(3),
                Arg::Word(seq_q), Arg::Word(seq_kv), Arg::Word(num_heads), Arg::Scalar(scale),
            ],
            Some("cuFuncSetAttribute(MAX_DYNAMIC_SHARED_SIZE_BYTES=98368) failed: "),
            Text::new("cuLaunchKernel failed for V20 TMA BC=128: "),
        ),
    )
}

/// The answer of [`flash_attn_bf16_v21_streaming_p`].
pub open spec fn flash_attn_bf16_v21_streaming_p_plan(
    q_len: int, k_len: int, v_len: int, o_len: int, batch: int, num_heads: int, seq_q: int,
    seq_kv: int, scale: F32,
) -> Plan {
    let grid_x = shape::ceil_div(seq_q, 64);
    let total_q_rows = batch * num_heads * seq_q;
    let total_kv_rows = batch * num_heads * seq_kv;
    if let Some(fault) = dims::attn_dims_fault(batch, num_heads, seq_q, seq_kv) {
        Plan::Fail(fault)
    } else if dims::attn_needs_overflow(batch, num_heads, seq_q, seq_kv) {
        Plan::Undefined
    } else if let Some(fault) = dims::attn_bf16_bufs_fault(
        q_len, k_len, v_len, o_len, batch, num_heads, seq_q, seq_kv,
    ) {
        Plan::Fail(fault)
    } else if batch * num_heads > u32::MAX
        || total_q_rows > u32::MAX
        || total_kv_rows > u32::MAX
    {
        Plan::Undefined
    } else {
        Plan::raw_launch(
            "fa_bf16_v21_streaming_p"@,
            "flash_attn_bf16_v21_streaming_p"@,
            (grid_x, num_heads, batch),
            (160, 1, 1),
            82032,
            seq![
                tensor_map::desc_swizzle(0, total_q_rows, HEAD_DIM as int, 64, 64),
                tensor_map::desc_swizzle(1, total_kv_rows, HEAD_DIM as int, 64, 64),
                tensor_map::desc_swizzle(2, total_kv_rows, HEAD_DIM as int, 64, 64),
            ],
            seq![
                Arg::Descriptor(0), Arg::Descriptor(1), Arg::Descriptor(2), Arg::buffer(3),
                Arg::word(seq_q), Arg::word(seq_kv), Arg::word(num_heads), Arg::Scalar(scale),
            ],
            Some("cuFuncSetAttribute failed: "@),
            "V21 streaming P launch failed: "@,
        )
    }
}

/// Launch BF16 Flash Attention V21 (streaming P, no P SMEM buffer) with d=128.
/// Same as V11 but fuses P computation with PV GEMM, eliminating P SMEM round-trip.
pub fn flash_attn_bf16_v21_streaming_p(
    q_len: usize,
    k_len: usize,
    v_len: usize,
    o_len: usize,
    batch: u32,
    num_heads: u32,
    seq_q: u32,
    seq_kv: u32,
    scale: F32,
) -> (r: Result<Launch>)
    requires
        flash_attn_bf16_v21_streaming_p_plan(
            q_len as int, k_len as int, v_len as int, o_len as int, batch as int, num_heads as int,
            seq_q as int, seq_kv as int, scale,
        ) !is Undefined,
    ensures
        plan::outcome(r) == flash_attn_bf16_v21_streaming_p_plan(
            q_len as int, k_len as int, v_len as int, o_len as int, batch as int, num_heads as int,
            seq_q as int, seq_kv as int, scale,
        ),
        plan::launchable(r, 4),
{
    if let Err(e) = dims::validate_attn_dims(batch, num_heads, seq_q, seq_kv) {
        return Err(e);
    }
    if let Err(e) = dims::validate_attn_bf16_bufs(
        q_len, k_len, v_len, o_len, batch, num_heads, seq_q, seq_kv,
    ) {
        return Err(e);
    }
    let grid_x: u32 = shape::div_ceil(seq_q, 64);
    let total_q_rows: u32 = batch * num_heads * seq_q;
    let total_kv_rows: u32 = batch * num_heads * seq_kv;
    Ok(
        Launch::raw(
            "fa_bf16_v21_streaming_p",
            "flash_attn_bf16_v21_streaming_p",
            (grid_x, num_heads, batch),
            (160, 1, 1),
            82032,
            vec![
                tensor_map::create_tma_desc_swizzle(0, total_q_rows, HEAD_DIM, 64, 64),
                tensor_map::create_tma_desc_swizzle(1, total_kv_rows, HEAD_DIM, 64, 64),
                tensor_map::create_tma_desc_swizzle(2, total_kv_rows, HEAD_DIM, 64, 64),
            ],
            vec![
                Arg::Descriptor(0), Arg::Descriptor(1), Arg::Descriptor(2), Arg::param(3),
                Arg::Word(seq_q), Arg::Word(seq_kv), Arg::Word(num_heads), Arg::Scalar(scale),
            ],
            Some("cuFuncSetAttribute failed: "),
            Text::new("V21 streaming P launch failed: "),
        ),
    )
}

/// The answer of [`flash_attn_bf16_v21_causal`].
pub open spec fn flash_attn_bf16_v21_causal_plan(
    q_len: int, k_len: int, v_len: int, o_len: int, batch: int, num_heads: int, seq_q: int,
    seq_kv: int, scale: F32,
) -> Plan {
    let grid_x = shape::ceil_div(seq_q, 64);
    let total_q_rows = batch * num_heads * seq_q;
    let total_kv_rows = batch * num_heads * seq_kv;
    if let Some(fault) = dims::attn_dims_fault(batch, num_heads, seq_q, seq_kv) {
        Plan::Fail(fault)
    } else if dims::attn_needs_overflow(batch, num_heads, seq_q, seq_kv) {
        Plan::Undefined
    } else if let Some(fault) = dims::attn_bf16_bufs_fault(
        q_len, k_len, v_len, o_len, batch, num_heads, seq_q, seq_kv,
    ) {
        Plan::Fail(fault)
    } else if batch * num_heads > u32::MAX
        || total_q_rows > u32::MAX
        || total_kv_rows > u32::MAX
    {
        Plan::Undefined
    } else {
        Plan::raw_launch(
            "fa_bf16_v21_causal"@,
            "flash_attn_bf16_v21_causal"@,
            (grid_x, num_heads, batch),
            (160, 1, 1),
            82032,
            seq![
                tensor_map::desc_swizzle(0, total_q_rows, HEAD_DIM as int, 64, 64),
                tensor_map::desc_swizzle(1, total_kv_rows, HEAD_DIM as int, 64, 64),
                tensor_map::desc_swizzle(2, total_kv_rows, HEAD_DIM as int, 64, 64),
            ],
            seq![
                Arg::Descriptor(0), Arg::Descriptor(1), Arg::Descriptor(2), Arg::buffer(3),
                Arg::word(seq_q), Arg::word(seq_kv), Arg::word(num_heads), Arg::Scalar(scale),
            ],
            Some("cuFuncSetAttribute failed: "@),
            "V21 causal launch failed: "@,
        )
    }
}

/// Launch BF16 Flash Attention V21 CAUSAL (streaming P + causal masking) with d=128.
/// Same architecture as V21 streaming_p + causal masking on diagonal KV block,
/// and effective_kv_blocks = min(num_kv_blocks, q_block+1) to skip future blocks.
pub fn flash_attn_bf16_v21_causal(
    q_len: usize,
    k_len: usize,
    v_len: usize,
    o_len: usize,
    batch: u32,
    num_heads: u32,
    seq_q: u32,
    seq_kv: u32,
    scale: F32,
) -> (r: Result<Launch>)
    requires
        flash_attn_bf16_v21_causal_plan(
            q_len as int, k_len as int, v_len as int, o_len as int, batch as int, num_heads as int,
            seq_q as int, seq_kv as int, scale,
        ) !is Undefined,
    ensures
        plan::outcome(r) == flash_attn_bf16_v21_causal_plan(
            q_len as int, k_len as int, v_len as int, o_len as int, batch as int, num_heads as int,
            seq_q as int, seq_kv as int, scale,
        ),
        plan::launchable(r, 4),
{
    if let Err(e) = dims::validate_attn_dims(batch, num_heads, seq_q, seq_kv) {
        return Err(e);
    }
    if let Err(e) = dims::validate_attn_bf16_bufs(
        q_len, k_len, v_len, o_len, batch, num_heads, seq_q, seq_kv,
    ) {
        return Err(e);
    }
    let grid_x: u32 = shape::div_ceil(seq_q, 64);
    let total_q_rows: u32 = batch * num_heads * seq_q;
    let total_kv_rows: u32 = batch * num_heads * seq_kv;
    Ok(
        Launch::raw(
            "fa_bf16_v21_causal",
            "flash_attn_bf16_v21_causal",
            (grid_x, num_heads, batch),
            (160, 1, 1),
            82032,
            vec![
                tensor_map::create_tma_desc_swizzle(0, total_q_rows, HEAD_DIM, 64, 64),
                tensor_map::create_tma_desc_swizzle(1, total_kv_rows, HEAD_DIM, 64, 64),
                tensor_map::create_tma_desc_swizzle(2, total_kv_rows, HEAD_DIM, 64, 64),
            ],
            vec![
                Arg::Descriptor(0), Arg::Descriptor(1), Arg::Descriptor(2), Arg::param(3),
                Arg::Word(seq_q), Arg::Word(seq_kv), Arg::Word(num_heads), Arg::Scalar(scale),
            ],
            Some("cuFuncSetAttribute failed: "),
            Text::new("V21 causal launch failed: "),
        ),
    )
}

/// The answer of [`flash_attn_bf16_v21_gqa`].
pub open spec fn flash_attn_bf16_v21_gqa_plan(
    q_len: int, k_len: int, v_len: int, o_len: int, batch: int, num_heads_q: int, num_heads_kv: int,
    seq_q: int, seq_kv: int, scale: F32,
) -> Plan {
    let grid_x = shape::ceil_div(seq_q, 64);
    let total_q_rows = batch * num_heads_q * seq_q;
    let total_kv_rows = batch * num_heads_kv * seq_kv;
    if batch == 0 || num_heads_q == 0 || num_heads_kv == 0 || seq_q == 0 || seq_kv == 0 {
        Plan::invalid("batch, num_heads_q, num_heads_kv, seq_q, seq_kv must be > 0"@)
    } else if num_heads_q % num_heads_kv != 0 {
        Plan::invalid(
            "num_heads_q ("@ + text::decimal(num_heads_q)
                + ") must be divisible by num_heads_kv ("@ + text::decimal(num_heads_kv) + ")"@,
        )
    } else if batch * num_heads_q > u32::MAX
        || total_q_rows > u32::MAX
        || batch * num_heads_kv > u32::MAX
        || total_kv_rows > u32::MAX
    {
        Plan::Undefined
    } else {
        Plan::raw_launch(
            "fa_bf16_v21_gqa"@,
            "flash_attn_bf16_v21_gqa"@,
            (grid_x, num_heads_q, batch),
            (160, 1, 1),
            82032,
            seq![
                tensor_map::desc_swizzle(0, total_q_rows, HEAD_DIM as int, 64, 64),
                tensor_map::desc_swizzle(1, total_kv_rows, HEAD_DIM as int, 64, 64),
                tensor_map::desc_swizzle(2, total_kv_rows, HEAD_DIM as int, 64, 64),
            ],
            seq![
                Arg::Descriptor(0), Arg::Descriptor(1), Arg::Descriptor(2), Arg::buffer(3),
                Arg::word(seq_q), Arg::word(seq_kv), Arg::word(num_heads_q),
                Arg::word(num_heads_kv), Arg::Scalar(scale),
            ],
            Some("cuFuncSetAttribute failed: "@),
            "V21 GQA launch failed: "@,
        )
    }
}

/// Launch BF16 Flash Attention V21 GQA (streaming P + Grouped Query Attention) with d=128.
/// Q has `num_heads_q` heads, K/V have `num_heads_kv` heads. Requires H_q % H_kv == 0.
pub fn flash_attn_bf16_v21_gqa(
    q_len: usize,
    k_len: usize,
    v_len: usize,
    o_len: usize,
    batch: u32,
    num_heads_q: u32,
    num_heads_kv: u32,
    seq_q: u32,
    seq_kv: u32,
    scale: F32,
) -> (r: Result<Launch>)
    requires
        flash_attn_bf16_v21_gqa_plan(
            q_len as int, k_len as int, v_len as int, o_len as int, batch as int,
            num_heads_q as int, num_heads_kv as int, seq_q as int, seq_kv as int, scale,
        ) !is Undefined,
    ensures
        plan::outcome(r) == flash_attn_bf16_v21_gqa_plan(
            q_len as int, k_len as int, v_len as int, o_len as int, batch as int,
            num_heads_q as int, num_heads_kv as int, seq_q as int, seq_kv as int, scale,
        ),
        plan::launchable(r, 4),
{
    if batch == 0 || num_heads_q == 0 || num_heads_kv == 0 || seq_q == 0 || seq_kv == 0 {
        return Text::new("batch, num_heads_q, num_heads_kv, seq_q, seq_kv must be > 0").refuse();
    }
    if num_heads_q % num_heads_kv != 0 {
        return Text::new("num_heads_q (").n(num_heads_q as u64)
            .s(") must be divisible by num_heads_kv (").n(num_heads_kv as u64).s(")").refuse();
    }
    let grid_x: u32 = shape::div_ceil(seq_q, 64);
    let total_q_rows: u32 = batch * num_heads_q * seq_q;
    let total_kv_rows: u32 = batch * num_heads_kv * seq_kv;
    Ok(
        Launch::raw(
            "fa_bf16_v21_gqa",
            "flash_attn_bf16_v21_gqa",
            (grid_x, num_heads_q, batch),
            (160, 1, 1),
            82032,
            vec![
                tensor_map::create_tma_desc_swizzle(0, total_q_rows, HEAD_DIM, 64, 64),
                tensor_map::create_tma_desc_swizzle(1, total_kv_rows, HEAD_DIM, 64, 64),
                tensor_map::create_tma_desc_swizzle(2, total_kv_rows, HEAD_DIM, 64, 64),
            ],
            vec![
                Arg::Descriptor(0), Arg::Descriptor(1), Arg::Descriptor(2), Arg::param(3),
                Arg::Word(seq_q), Arg::Word(seq_kv), Arg::Word(num_heads_q),
                Arg::Word(num_heads_kv), Arg::Scalar(scale),
            ],
            Some("cuFuncSetAttribute failed: "),
            Text::new("V21 GQA launch failed: "),
        ),
    )
}

/// The answer of [`flash_attn_bf16_v21_gqa_causal`].
pub open spec fn flash_attn_bf16_v21_gqa_causal_plan(
    q_len: int, k_len: int, v_len: int, o_len: int, batch: int, num_heads_q: int, num_heads_kv: int,
    seq_q: int, seq_kv: int, scale: F32,
) -> Plan {
    let grid_x = shape::ceil_div(seq_q, 64);
    let total_q_rows = batch * num_heads_q * seq_q;
    let total_kv_rows = batch * num_heads_kv * seq_kv;
    if batch == 0 || num_heads_q == 0 || num_heads_kv == 0 || seq_q == 0 || seq_kv == 0 {
        Plan::invalid("batch, num_heads_q, num_heads_kv, seq_q, seq_kv must be > 0"@)
    } else if num_heads_q % num_heads_kv != 0 {
        Plan::invalid(
            "num_heads_q ("@ + text::decimal(num_heads_q)
                + ") must be divisible by num_heads_kv ("@ + text::decimal(num_heads_kv) + ")"@,
        )
    } else if batch * num_heads_q > u32::MAX
        || total_q_rows > u32::MAX
        || batch * num_heads_kv > u32::MAX
        || total_kv_rows > u32::MAX
    {
        Plan::Undefined
    } else {
        Plan::raw_launch(
            "fa_bf16_v21_gqa_causal"@,
            "flash_attn_bf16_v21_gqa_causal"@,
            (grid_x, num_heads_q, batch),
            (160, 1, 1),
            82032,
            seq![
                tensor_map::desc_swizzle(0, total_q_rows, HEAD_DIM as int, 64, 64),
                tensor_map::desc_swizzle(1, total_kv_rows, HEAD_DIM as int, 64, 64),
                tensor_map::desc_swizzle(2, total_kv_rows, HEAD_DIM as int, 64, 64),
            ],
            seq![
                Arg::Descriptor(0), Arg::Descriptor(1), Arg::Descriptor(2), Arg::buffer(3),
                Arg::word(seq_q), Arg::word(seq_kv), Arg::word(num_heads_q),
                Arg::word(num_heads_kv), Arg::Scalar(scale),
            ],
            Some("cuFuncSetAttribute failed: "@),
            "V21 GQA causal launch failed: "@,
        )
    }
}

/// Launch BF16 Flash Attention V21 GQA + CAUSAL (streaming P + GQA + causal masking).
/// Combines head remap + causal diagonal block masking + effective_kv_blocks limit.
pub fn flash_attn_bf16_v21_gqa_causal(
    q_len: usize,
    k_len: usize,
    v_len: usize,
    o_len: usize,
    batch: u32,
    num_heads_q: u32,
    num_heads_kv: u32,
    seq_q: u32,
    seq_kv: u32,
    scale: F32,
) -> (r: Result<Launch>)
    requires
        flash_attn_bf16_v21_gqa_causal_plan(
            q_len as int, k_len as int, v_len as int, o_len as int, batch as int,
            num_heads_q as int, num_heads_kv as int, seq_q as int, seq_kv as int, scale,
        ) !is Undefined,
    ensures
        plan::outcome(r) == flash_attn_bf16_v21_gqa_causal_plan(
            q_len as int, k_len as int, v_len as int, o_len as int, batch as int,
            num_heads_q as int, num_heads_kv as int, seq_q as int, seq_kv as int, scale,
        ),
        plan::launchable(r, 4),
{
    if batch == 0 || num_heads_q == 0 || num_heads_kv == 0 || seq_q == 0 || seq_kv == 0 {
        return Text::new("batch, num_heads_q, num_heads_kv, seq_q, seq_kv must be > 0").refuse();
    }
    if num_heads_q % num_heads_kv != 0 {
        return Text::new("num_heads_q (").n(num_heads_q as u64)
            .s(") must be divisible by num_heads_kv (").n(num_heads_kv as u64).s(")").refuse();
    }
    let grid_x: u32 = shape::div_ceil(seq_q, 64);
    let total_q_rows: u32 = batch * num_heads_q * seq_q;
    let total_kv_rows: u32 = batch * num_heads_kv * seq_kv;
    Ok(
        Launch::raw(
            "fa_bf16_v21_gqa_causal",
            "flash_attn_bf16_v21_gqa_causal",
            (grid_x, num_heads_q, batch),
            (160, 1, 1),
            82032,
            vec![
                tensor_map::create_tma_desc_swizzle(0, total_q_rows, HEAD_DIM, 64, 64),
                tensor_map::create_tma_desc_swizzle(1, total_kv_rows, HEAD_DIM, 64, 64),
                tensor_map::create_tma_desc_swizzle(2, total_kv_rows, HEAD_DIM, 64, 64),
            ],
            vec![
                Arg::Descriptor(0), Arg::Descriptor(1), Arg::Descriptor(2), Arg::param(3),
                Arg::Word(seq_q), Arg::Word(seq_kv), Arg::Word(num_heads_q),
                Arg::Word(num_heads_kv), Arg::Scalar(scale),
            ],
            Some("cuFuncSetAttribute failed: "),
            Text::new("V21 GQA causal launch failed: "),
        ),
    )
}

} // verus!
