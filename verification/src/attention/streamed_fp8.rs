//! FP8 attention that streams its tiles through bulk copies.
use crate::attention::dims::HEAD_DIM;
use crate::attention::dims;
use crate::error::Result;
use crate::plan::{Arg, F32, Launch, Plan};
use crate::plan;
use crate::shape;
use crate::tensor_map;
use crate::text::Text;
use crate::text;
use vstd::prelude::*;

verus! {

/// The answer of [`flash_attn_fp8_v11_tma`].
pub open spec fn flash_attn_fp8_v11_tma_plan(
    q_len: int, k_len: int, v_len: int, o_len: int, batch: int, num_heads: int, seq_q: int,
    seq_kv: int, scale: F32,
) -> Plan {
    let q_need = batch * num_heads * seq_q * HEAD_DIM;
    let kv_need = batch * num_heads * seq_kv * HEAD_DIM;
    let grid_x = shape::ceil_div(seq_q, 64);
    let total_q_rows = batch * num_heads * seq_q;
    let total_kv_rows = batch * num_heads * seq_kv;
    if let Some(fault) = dims::attn_dims_fault(batch, num_heads, seq_q, seq_kv) {
        Plan::Fail(fault)
    } else if q_need > u64::MAX || kv_need > u64::MAX {
        Plan::Undefined
    } else if q_len < q_need {
        Plan::invalid(
            "Q buffer too small: "@ + text::decimal(q_len) + " < "@ + text::decimal(q_need),
        )
    } else if k_len < kv_need {
        Plan::invalid(
            "K buffer too small: "@ + text::decimal(k_len) + " < "@ + text::decimal(kv_need),
        )
    } else if v_len < kv_need {
        Plan::invalid(
            "V buffer too small: "@ + text::decimal(v_len) + " < "@ + text::decimal(kv_need),
        )
    } else if o_len < q_need {
        Plan::invalid(
            "O buffer too small: "@ + text::decimal(o_len) + " < "@ + text::decimal(q_need),
        )
    } else if batch * num_heads > u32::MAX
        || total_q_rows > u32::MAX
        || total_kv_rows > u32::MAX
    {
        Plan::Undefined
    } else {
        Plan::raw_launch(
            "fa_fp8_v11_tma"@,
            "flash_attn_fp8_v11_tma"@,
            (grid_x, num_heads, batch),
            (160, 1, 1),
            45168,
            seq![
                tensor_map::desc_fp8_swizzle(0, total_q_rows, HEAD_DIM as int, 64, 128),
                tensor_map::desc_fp8_swizzle(1, total_kv_rows, HEAD_DIM as int, 64, 128),
                tensor_map::desc_fp8(2, total_kv_rows, HEAD_DIM as int, 64, 128),
            ],
            seq![
                Arg::Descriptor(0), Arg::Descriptor(1), Arg::Descriptor(2), Arg::buffer(3),
                Arg::word(seq_q), Arg::word(seq_kv), Arg::word(num_heads), Arg::Scalar(scale),
            ],
            Some("cuFuncSetAttribute(MAX_DYNAMIC_SHARED_SIZE_BYTES=45168) failed: "@),
            "cuLaunchKernel failed for FP8 V11 TMA: "@,
        )
    }
}

/// Flash Attention FP8 V11 TMA: FP8 e4m3 QKV input → BF16 O output.
pub fn flash_attn_fp8_v11_tma(
    q_len: usize,
    k_len: usize,
    v_len: usize,
    o_len: usize,
    batch: u32,
    num_heads: u32,
    seq_q: u32,
    seq_kv: u32,
    scale: F32,
) -> (r: Result<Launch>)
    requires
        flash_attn_fp8_v11_tma_plan(
            q_len as int, k_len as int, v_len as int, o_len as int, batch as int, num_heads as int,
            seq_q as int, seq_kv as int, scale,
        ) !is Undefined,
    ensures
        plan::outcome(r) == flash_attn_fp8_v11_tma_plan(
            q_len as int, k_len as int, v_len as int, o_len as int, batch as int, num_heads as int,
            seq_q as int, seq_kv as int, scale,
        ),
        plan::launchable(r, 4),
{
    if let Err(e) = dims::validate_attn_dims(batch, num_heads, seq_q, seq_kv) {
        return Err(e);
    }
    let q_need: u64 = shape::product(batch, num_heads) * (seq_q as u64) * (HEAD_DIM as u64);
    let kv_need: u64 = shape::product(batch, num_heads) * (seq_kv as u64) * (HEAD_DIM as u64);
    if (q_len as u64) < q_need {
        return Text::new("Q buffer too small: ").n(q_len as u64).s(" < ").n(q_need).refuse();
    }
    if (k_len as u64) < kv_need {
        return Text::new("K buffer too small: ").n(k_len as u64).s(" < ").n(kv_need).refuse();
    }
    if (v_len as u64) < kv_need {
        return Text::new("V buffer too small: ").n(v_len as u64).s(" < ").n(kv_need).refuse();
    }
    if (o_len as u64) < q_need {
        return Text::new("O buffer too small: ").n(o_len as u64).s(" < ").n(q_need).refuse();
    }
    let grid_x: u32 = shape::div_ceil(seq_q, 64);
    let total_q_rows: u32 = batch * num_heads * seq_q;
    let total_kv_rows: u32 = batch * num_heads * seq_kv;
    Ok(
        Launch::raw(
            "fa_fp8_v11_tma",
            "flash_attn_fp8_v11_tma",
            (grid_x, num_heads, batch),
            (160, 1, 1),
            45168,
            vec![
                tensor_map::create_tma_desc_fp8_swizzle(0, total_q_rows, HEAD_DIM, 64, 128),
                tensor_map::create_tma_desc_fp8_swizzle(1, total_kv_rows, HEAD_DIM, 64, 128),
                tensor_map::create_tma_desc_fp8(2, total_kv_rows, HEAD_DIM, 64, 128),
            ],
            vec![
                Arg::Descriptor(0), Arg::Descriptor(1), Arg::Descriptor(2), Arg::param(3),
                Arg::Word(seq_q), Arg::Word(seq_kv), Arg::Word(num_heads), Arg::Scalar(scale),
            ],
            Some("cuFuncSetAttribute(MAX_DYNAMIC_SHARED_SIZE_BYTES=45168) failed: "),
            Text::new("cuLaunchKernel failed for FP8 V11 TMA: "),
        ),
    )
}

/// The answer of [`flash_attn_fp8_v12a_transpose`].
pub open spec fn flash_attn_fp8_v12a_transpose_plan(
    q_len: int, k_len: int, v_len: int, o_len: int, batch: int, num_heads: int, seq_q: int,
    seq_kv: int, scale: F32,
) -> Plan {
    let q_need = batch * num_heads * seq_q * HEAD_DIM;
    let kv_need = batch * num_heads * seq_kv * HEAD_DIM;
    let grid_x = shape::ceil_div(seq_q, 64);
    let total_q_rows = batch * num_heads * seq_q;
    let total_kv_rows = batch * num_heads * seq_kv;
    if let Some(fault) = dims::attn_dims_fault(batch, num_heads, seq_q, seq_kv) {
        Plan::Fail(fault)
    } else if q_need > u64::MAX || kv_need > u64::MAX {
        Plan::Undefined
    } else if q_len < q_need {
        Plan::invalid(
            "Q buffer too small: "@ + text::decimal(q_len) + " < "@ + text::decimal(q_need),
        )
    } else if k_len < kv_need {
        Plan::invalid(
            "K buffer too small: "@ + text::decimal(k_len) + " < "@ + text::decimal(kv_need),
        )
    } else if v_len < kv_need {
        Plan::invalid(
            "V buffer too small: "@ + text::decimal(v_len) + " < "@ + text::decimal(kv_need),
        )
    } else if o_len < q_need {
        Plan::invalid(
            "O buffer too small: "@ + text::decimal(o_len) + " < "@ + text::decimal(q_need),
        )
    } else if batch * num_heads > u32::MAX
        || total_q_rows > u32::MAX
        || total_kv_rows > u32::MAX
    {
        Plan::Undefined
    } else {
        Plan::raw_launch(
            "fa_fp8_v12a_transpose"@,
            "flash_attn_fp8_v12a_transpose"@,
            (grid_x, num_heads, batch),
            (160, 1, 1),
            61552,
            seq![
                tensor_map::desc_fp8_swizzle(0, total_q_rows, HEAD_DIM as int, 64, 128),
                tensor_map::desc_fp8_swizzle(1, total_kv_rows, HEAD_DIM as int, 64, 128),
                tensor_map::desc_fp8(2, total_kv_rows, HEAD_DIM as int, 64, 128),
            ],
            seq![
                Arg::Descriptor(0), Arg::Descriptor(1), Arg::Descriptor(2), Arg::buffer(3),
                Arg::word(seq_q), Arg::word(seq_kv), Arg::word(num_heads), Arg::Scalar(scale),
            ],
            Some("cuFuncSetAttribute failed for V12a: "@),
            "cuLaunchKernel failed for FP8 V12a transpose: "@,
        )
    }
}

/// Flash Attention FP8 V12a: SMEM cooperative transpose of V after TMA load.
pub fn flash_attn_fp8_v12a_transpose(
    q_len: usize,
    k_len: usize,
    v_len: usize,
    o_len: usize,
    batch: u32,
    num_heads: u32,
    seq_q: u32,
    seq_kv: u32,
    scale: F32,
) -> (r: Result<Launch>)
    requires
        flash_attn_fp8_v12a_transpose_plan(
            q_len as int, k_len as int, v_len as int, o_len as int, batch as int, num_heads as int,
            seq_q as int, seq_kv as int, scale,
        ) !is Undefined,
    ensures
        plan::outcome(r) == flash_attn_fp8_v12a_transpose_plan(
            q_len as int, k_len as int, v_len as int, o_len as int, batch as int, num_heads as int,
            seq_q as int, seq_kv as int, scale,
        ),
        plan::launchable(r, 4),
{
    if let Err(e) = dims::validate_attn_dims(batch, num_heads, seq_q, seq_kv) {
        return Err(e);
    }
    let q_need: u64 = shape::product(batch, num_heads) * (seq_q as u64) * (HEAD_DIM as u64);
    let kv_need: u64 = shape::product(batch, num_heads) * (seq_kv as u64) * (HEAD_DIM as u64);
    if (q_len as u64) < q_need {
        return Text::new("Q buffer too small: ").n(q_len as u64).s(" < ").n(q_need).refuse();
    }
    if (k_len as u64) < kv_need {
        return Text::new("K buffer too small: ").n(k_len as u64).s(" < ").n(kv_need).refuse();
    }
    if (v_len as u64) < kv_need {
        return Text::new("V buffer too small: ").n(v_len as u64).s(" < ").n(kv_need).refuse();
    }
    if (o_len as u64) < q_need {
        return Text::new("O buffer too small: ").n(o_len as u64).s(" < ").n(q_need).refuse();
    }
    let grid_x: u32 = shape::div_ceil(seq_q, 64);
    let total_q_rows: u32 = batch * num_heads * seq_q;
    let total_kv_rows: u32 = batch * num_heads * seq_kv;
    Ok(
        Launch::raw(
            "fa_fp8_v12a_transpose",
            "flash_attn_fp8_v12a_transpose",
            (grid_x, num_heads, batch),
            (160, 1, 1),
            61552,
            vec![
                tensor_map::create_tma_desc_fp8_swizzle(0, total_q_rows, HEAD_DIM, 64, 128),
                tensor_map::create_tma_desc_fp8_swizzle(1, total_kv_rows, HEAD_DIM, 64, 128),
                tensor_map::create_tma_desc_fp8(2, total_kv_rows, HEAD_DIM, 64, 128),
            ],
            vec![
                Arg::Descriptor(0), Arg::Descriptor(1), Arg::Descriptor(2), Arg::param(3),
                Arg::Word(seq_q), Arg::Word(seq_kv), Arg::Word(num_heads), Arg::Scalar(scale),
            ],
            Some("cuFuncSetAttribute failed for V12a: "),
            Text::new("cuLaunchKernel failed for FP8 V12a transpose: "),
        ),
    )
}

/// The answer of [`flash_attn_fp8_v12c_vt`].
pub open spec fn flash_attn_fp8_v12c_vt_plan(
    q_len: int, k_len: int, v_t_len: int, o_len: int, batch: int, num_heads: int, seq_q: int,
    seq_kv: int, scale: F32,
) -> Plan {
    let q_need = batch * num_heads * seq_q * HEAD_DIM;
    let kv_need = batch * num_heads * seq_kv * HEAD_DIM;
    let grid_x = shape::ceil_div(seq_q, 64);
    let total_q_rows = batch * num_heads * seq_q;
    let total_kv_rows = batch * num_heads * seq_kv;
    if let Some(fault) = dims::attn_dims_fault(batch, num_heads, seq_q, seq_kv) {
        Plan::Fail(fault)
    } else if q_need > u64::MAX || kv_need > u64::MAX {
        Plan::Undefined
    } else if q_len < q_need {
        Plan::invalid(
            "Q buffer too small: "@ + text::decimal(q_len) + " < "@ + text::decimal(q_need),
        )
    } else if k_len < kv_need {
        Plan::invalid(
            "K buffer too small: "@ + text::decimal(k_len) + " < "@ + text::decimal(kv_need),
        )
    } else if v_t_len < kv_need {
        Plan::invalid(
            "V_T buffer too small: "@ + text::decimal(v_t_len) + " < "@ + text::decimal(kv_need),
        )
    } else if o_len < q_need {
        Plan::invalid(
            "O buffer too small: "@ + text::decimal(o_len) + " < "@ + text::decimal(q_need),
        )
    } else if batch * num_heads > u32::MAX
        || total_q_rows > u32::MAX
        || total_kv_rows > u32::MAX
    {
        Plan::Undefined
    } else {
        Plan::raw_launch(
            "fa_fp8_v12c_vt"@,
            "flash_attn_fp8_v12c_vt"@,
            (grid_x, num_heads, batch),
            (160, 1, 1),
            45168,
            seq![
                tensor_map::desc_fp8_swizzle(0, total_q_rows, HEAD_DIM as int, 64, 128),
                tensor_map::desc_fp8_swizzle(1, total_kv_rows, HEAD_DIM as int, 64, 128),
                tensor_map::desc_fp8_vt(2, total_kv_rows, HEAD_DIM as int, 64, 128),
            ],
            seq![
                Arg::Descriptor(0), Arg::Descriptor(1), Arg::Descriptor(2), Arg::buffer(3),
                Arg::word(seq_q), Arg::word(seq_kv), Arg::word(num_heads), Arg::Scalar(scale),
            ],
            Some("cuFuncSetAttribute failed for V12c: "@),
            "cuLaunchKernel failed for FP8 V12c vt: "@,
        )
    }
}

/// Flash Attention FP8 V12c: V pre-transposed in GMEM as [D, B*H*Skv].
pub fn flash_attn_fp8_v12c_vt(
    q_len: usize,
    k_len: usize,
    v_t_len: usize,
    o_len: usize,
    batch: u32,
    num_heads: u32,
    seq_q: u32,
    seq_kv: u32,
    scale: F32,
) -> (r: Result<Launch>)
    requires
        flash_attn_fp8_v12c_vt_plan(
            q_len as int, k_len as int, v_t_len as int, o_len as int, batch as int,
            num_heads as int, seq_q as int, seq_kv as int, scale,
        ) !is Undefined,
    ensures
        plan::outcome(r) == flash_attn_fp8_v12c_vt_plan(
            q_len as int, k_len as int, v_t_len as int, o_len as int, batch as int,
            num_heads as int, seq_q as int, seq_kv as int, scale,
        ),
        plan::launchable(r, 4),
{
    if let Err(e) = dims::validate_attn_dims(batch, num_heads, seq_q, seq_kv) {
        return Err(e);
    }
    let q_need: u64 = shape::product(batch, num_heads) * (seq_q as u64) * (HEAD_DIM as u64);
    let kv_need: u64 = shape::product(batch, num_heads) * (seq_kv as u64) * (HEAD_DIM as u64);
    if (q_len as u64) < q_need {
        return Text::new("Q buffer too small: ").n(q_len as u64).s(" < ").n(q_need).refuse();
    }
    if (k_len as u64) < kv_need {
        return Text::new("K buffer too small: ").n(k_len as u64).s(" < ").n(kv_need).refuse();
    }
    if (v_t_len as u64) < kv_need {
        return Text::new("V_T buffer too small: ").n(v_t_len as u64).s(" < ").n(kv_need).refuse();
    }
    if (o_len as u64) < q_need {
        return Text::new("O buffer too small: ").n(o_len as u64).s(" < ").n(q_need).refuse();
    }
    let grid_x: u32 = shape::div_ceil(seq_q, 64);
    let total_q_rows: u32 = batch * num_heads * seq_q;
    let total_kv_rows: u32 = batch * num_heads * seq_kv;
    Ok(
        Launch::raw(
            "fa_fp8_v12c_vt",
            "flash_attn_fp8_v12c_vt",
            (grid_x, num_heads, batch),
            (160, 1, 1),
            45168,
            vec![
                tensor_map::create_tma_desc_fp8_swizzle(0, total_q_rows, HEAD_DIM, 64, 128),
                tensor_map::create_tma_desc_fp8_swizzle(1, total_kv_rows, HEAD_DIM, 64, 128),
                tensor_map::create_tma_desc_fp8_vt(2, total_kv_rows, HEAD_DIM, 64, 128),
            ],
            vec![
                Arg::Descriptor(0), Arg::Descriptor(1), Arg::Descriptor(2), Arg::param(3),
                Arg::Word(seq_q), Arg::Word(seq_kv), Arg::Word(num_heads), Arg::Scalar(scale),
            ],
            Some("cuFuncSetAttribute failed for V12c: "),
            Text::new("cuLaunchKernel failed for FP8 V12c vt: "),
        ),
    )
}

/// The answer of [`flash_attn_fp8_v12c_vt_causal`].
pub open spec fn flash_attn_fp8_v12c_vt_causal_plan(
    q_len: int, k_len: int, v_t_len: int, o_len: int, batch: int, num_heads: int, seq_q: int,
    seq_kv: int, scale: F32,
) -> Plan {
    let q_need = batch * num_heads * seq_q * HEAD_DIM;
    let kv_need = batch * num_heads * seq_kv * HEAD_DIM;
    let grid_x = shape::ceil_div(seq_q, 64);
    let total_q_rows = batch * num_heads * seq_q;
    let total_kv_rows = batch * num_heads * seq_kv;
    if let Some(fault) = dims::attn_dims_fault(batch, num_heads, seq_q, seq_kv) {
        Plan::Fail(fault)
    } else if q_need > u64::MAX || kv_need > u64::MAX {
        Plan::Undefined
    } else if q_len < q_need {
        Plan::invalid(
            "Q buffer too small: "@ + text::decimal(q_len) + " < "@ + text::decimal(q_need),
        )
    } else if k_len < kv_need {
        Plan::invalid(
            "K buffer too small: "@ + text::decimal(k_len) + " < "@ + text::decimal(kv_need),
        )
    } else if v_t_len < kv_need {
        Plan::invalid(
            "V_T buffer too small: "@ + text::decimal(v_t_len) + " < "@ + text::decimal(kv_need),
        )
    } else if o_len < q_need {
        Plan::invalid(
            "O buffer too small: "@ + text::decimal(o_len) + " < "@ + text::decimal(q_need),
        )
    } else if batch * num_heads > u32::MAX
        || total_q_rows > u32::MAX
        || total_kv_rows > u32::MAX
    {
        Plan::Undefined
    } else {
        Plan::raw_launch(
            "fa_fp8_v12c_vt_causal"@,
            "flash_attn_fp8_v12c_vt_causal"@,
            (grid_x, num_heads, batch),
            (160, 1, 1),
            45168,
            seq![
                tensor_map::desc_fp8_swizzle(0, total_q_rows, HEAD_DIM as int, 64, 128),
                tensor_map::desc_fp8_swizzle(1, total_kv_rows, HEAD_DIM as int, 64, 128),
                tensor_map::desc_fp8_vt(2, total_kv_rows, HEAD_DIM as int, 64, 128),
            ],
            seq![
                Arg::Descriptor(0), Arg::Descriptor(1), Arg::Descriptor(2), Arg::buffer(3),
                Arg::word(seq_q), Arg::word(seq_kv), Arg::word(num_heads), Arg::Scalar(scale),
            ],
            Some("cuFuncSetAttribute failed for FP8 V12c causal: "@),
            "cuLaunchKernel failed for FP8 V12c causal: "@,
        )
    }
}

/// Launch FP8 Flash Attention (causal, V_T layout) with d=128.
pub fn flash_attn_fp8_v12c_vt_causal(
    q_len: usize,
    k_len: usize,
    v_t_len: usize,
    o_len: usize,
    batch: u32,
    num_heads: u32,
    seq_q: u32,
    seq_kv: u32,
    scale: F32,
) -> (r: Result<Launch>)
    requires
        flash_attn_fp8_v12c_vt_causal_plan(
            q_len as int, k_len as int, v_t_len as int, o_len as int, batch as int,
            num_heads as int, seq_q as int, seq_kv as int, scale,
        ) !is Undefined,
    ensures
        plan::outcome(r) == flash_attn_fp8_v12c_vt_causal_plan(
            q_len as int, k_len as int, v_t_len as int, o_len as int, batch as int,
            num_heads as int, seq_q as int, seq_kv as int, scale,
        ),
        plan::launchable(r, 4),
{
    if let Err(e) = dims::validate_attn_dims(batch, num_heads, seq_q, seq_kv) {
        return Err(e);
    }
    let q_need: u64 = shape::product(batch, num_heads) * (seq_q as u64) * (HEAD_DIM as u64);
    let kv_need: u64 = shape::product(batch, num_heads) * (seq_kv as u64) * (HEAD_DIM as u64);
    if (q_len as u64) < q_need {
        return Text::new("Q buffer too small: ").n(q_len as u64).s(" < ").n(q_need).refuse();
    }
    if (k_len as u64) < kv_need {
        return Text::new("K buffer too small: ").n(k_len as u64).s(" < ").n(kv_need).refuse();
    }
    if (v_t_len as u64) < kv_need {
        return Text::new("V_T buffer too small: ").n(v_t_len as u64).s(" < ").n(kv_need).refuse();
    }
    if (o_len as u64) < q_need {
        return Text::new("O buffer too small: ").n(o_len as u64).s(" < ").n(q_need).refuse();
    }
    let grid_x: u32 = shape::div_ceil(seq_q, 64);
    let total_q_rows: u32 = batch * num_heads * seq_q;
    let total_kv_rows: u32 = batch * num_heads * seq_kv;
    Ok(
        Launch::raw(
            "fa_fp8_v12c_vt_causal",
            "flash_attn_fp8_v12c_vt_causal",
            (grid_x, num_heads, batch),
            (160, 1, 1),
            45168,
            vec![
                tensor_map::create_tma_desc_fp8_swizzle(0, total_q_rows, HEAD_DIM, 64, 128),
                tensor_map::create_tma_desc_fp8_swizzle(1, total_kv_rows, HEAD_DIM, 64, 128),
                tensor_map::create_tma_desc_fp8_vt(2, total_kv_rows, HEAD_DIM, 64, 128),
            ],
            vec![
                Arg::Descriptor(0), Arg::Descriptor(1), Arg::Descriptor(2), Arg::param(3),
                Arg::Word(seq_q), Arg::Word(seq_kv), Arg::Word(num_heads), Arg::Scalar(scale),
            ],
            Some("cuFuncSetAttribute failed for FP8 V12c causal: "),
            Text::new("cuLaunchKernel failed for FP8 V12c causal: "),
        ),
    )
}

/// The answer of [`flash_attn_fp8_v12c_vt_varlen`].
pub open spec fn flash_attn_fp8_v12c_vt_varlen_plan(
    q_len: int, k_len: int, v_t_len: int, o_len: int, cu_seqlens_q_len: int, cu_seqlens_k_len: int,
    batch: int, num_heads: int, max_seqlen_q: int, total_q: int, total_kv: int, scale: F32,
) -> Plan {
    let cu_need = batch + 1;
    let grid_x = shape::ceil_div(max_seqlen_q, 64);
    if batch == 0 {
        Plan::invalid("batch must be > 0"@)
    } else if num_heads == 0 {
        Plan::invalid("num_heads must be > 0"@)
    } else if max_seqlen_q == 0 || total_q == 0 || total_kv == 0 {
        Plan::invalid("max_seqlen_q, total_q, total_kv must be > 0"@)
    } else if cu_need > u32::MAX {
        Plan::Undefined
    } else if cu_seqlens_q_len < cu_need || cu_seqlens_k_len < cu_need {
        Plan::invalid("cu_seqlens too small: need "@ + text::decimal(cu_need))
    } else if num_heads * total_q > u32::MAX || num_heads * total_kv > u32::MAX {
        Plan::Undefined
    } else {
        Plan::raw_launch(
            "fa_fp8_v12c_vt_varlen"@,
            "flash_attn_fp8_v12c_vt_varlen"@,
            (grid_x, num_heads, batch),
            (160, 1, 1),
            45168,
            seq![
                tensor_map::desc_fp8_swizzle(0, num_heads * total_q, HEAD_DIM as int, 64, 128),
                tensor_map::desc_fp8_swizzle(1, num_heads * total_kv, HEAD_DIM as int, 64, 128),
                tensor_map::desc_fp8_vt(2, num_heads * total_kv, HEAD_DIM as int, 64, 128),
            ],
            seq![
                Arg::Descriptor(0), Arg::Descriptor(1), Arg::Descriptor(2), Arg::buffer(3),
                Arg::buffer(4), Arg::buffer(5), Arg::word(total_q), Arg::word(total_kv),
                Arg::Scalar(scale),
            ],
            Some("cuFuncSetAttribute failed for FP8 V12c VT varlen: "@),
            "cuLaunchKernel failed for FP8 V12c VT varlen: "@,
        )
    }
}

/// Launch FP8 Flash Attention (varlen non-causal, V_T layout) with d=128.
pub fn flash_attn_fp8_v12c_vt_varlen(
    q_len: usize,
    k_len: usize,
    v_t_len: usize,
    o_len: usize,
    cu_seqlens_q_len: usize,
    cu_seqlens_k_len: usize,
    batch: u32,
    num_heads: u32,
    max_seqlen_q: u32,
    total_q: u32,
    total_kv: u32,
    scale: F32,
) -> (r: Result<Launch>)
    requires
        flash_attn_fp8_v12c_vt_varlen_plan(
            q_len as int, k_len as int, v_t_len as int, o_len as int, cu_seqlens_q_len as int,
            cu_seqlens_k_len as int, batch as int, num_heads as int, max_seqlen_q as int,
            total_q as int, total_kv as int, scale,
        ) !is Undefined,
    ensures
        plan::outcome(r) == flash_attn_fp8_v12c_vt_varlen_plan(
            q_len as int, k_len as int, v_t_len as int, o_len as int, cu_seqlens_q_len as int,
            cu_seqlens_k_len as int, batch as int, num_heads as int, max_seqlen_q as int,
            total_q as int, total_kv as int, scale,
        ),
        plan::launchable(r, 6),
{
    if batch == 0 {
        return Text::new("batch must be > 0").refuse();
    }
    if num_heads == 0 {
        return Text::new("num_heads must be > 0").refuse();
    }
    if max_seqlen_q == 0 || total_q == 0 || total_kv == 0 {
        return Text::new("max_seqlen_q, total_q, total_kv must be > 0").refuse();
    }
    let cu_need: u64 = (batch + 1) as u64;
    if (cu_seqlens_q_len as u64) < cu_need || (cu_seqlens_k_len as u64) < cu_need {
        return Text::new("cu_seqlens too small: need ").n(cu_need).refuse();
    }
    let grid_x: u32 = shape::div_ceil(max_seqlen_q, 64);
    Ok(
        Launch::raw(
            "fa_fp8_v12c_vt_varlen",
            "flash_attn_fp8_v12c_vt_varlen",
            (grid_x, num_heads, batch),
            (160, 1, 1),
            45168,
            vec![
                tensor_map::create_tma_desc_fp8_swizzle(0, num_heads * total_q, HEAD_DIM, 64, 128),
                tensor_map::create_tma_desc_fp8_swizzle(1, num_heads * total_kv, HEAD_DIM, 64, 128),
                tensor_map::create_tma_desc_fp8_vt(2, num_heads * total_kv, HEAD_DIM, 64, 128),
            ],
            vec![
                Arg::Descriptor(0), Arg::Descriptor(1), Arg::Descriptor(2), Arg::param(3),
                Arg::param(4), Arg::param(5), Arg::Word(total_q), Arg::Word(total_kv),
                Arg::Scalar(scale),
            ],
            Some("cuFuncSetAttribute failed for FP8 V12c VT varlen: "),
            Text::new("cuLaunchKernel failed for FP8 V12c VT varlen: "),
        ),
    )
}

/// The answer of [`flash_attn_fp8_v12c_vt_varlen_causal`].
pub open spec fn flash_attn_fp8_v12c_vt_varlen_causal_plan(
    q_len: int, k_len: int, v_t_len: int, o_len: int, cu_seqlens_q_len: int, cu_seqlens_k_len: int,
    batch: int, num_heads: int, max_seqlen_q: int, total_q: int, total_kv: int, scale: F32,
) -> Plan {
    let cu_need = batch + 1;
    let grid_x = shape::ceil_div(max_seqlen_q, 64);
    if batch == 0 {
        Plan::invalid("batch must be > 0"@)
    } else if num_heads == 0 {
        Plan::invalid("num_heads must be > 0"@)
    } else if max_seqlen_q == 0 || total_q == 0 || total_kv == 0 {
        Plan::invalid("max_seqlen_q, total_q, total_kv must be > 0"@)
    } else if cu_need > u32::MAX {
        Plan::Undefined
    } else if cu_seqlens_q_len < cu_need || cu_seqlens_k_len < cu_need {
        Plan::invalid("cu_seqlens too small: need "@ + text::decimal(cu_need))
    } else if num_heads * total_q > u32::MAX || num_heads * total_kv > u32::MAX {
        Plan::Undefined
    } else {
        Plan::raw_launch(
            "fa_fp8_v12c_vt_varlen_causal"@,
            "flash_attn_fp8_v12c_vt_varlen_causal"@,
            (grid_x, num_heads, batch),
            (160, 1, 1),
            45168,
            seq![
                tensor_map::desc_fp8_swizzle(0, num_heads * total_q, HEAD_DIM as int, 64, 128),
                tensor_map::desc_fp8_swizzle(1, num_heads * total_kv, HEAD_DIM as int, 64, 128),
                tensor_map::desc_fp8_vt(2, num_heads * total_kv, HEAD_DIM as int, 64, 128),
            ],
            seq![
                Arg::Descriptor(0), Arg::Descriptor(1), Arg::Descriptor(2), Arg::buffer(3),
                Arg::buffer(4), Arg::buffer(5), Arg::word(total_q), Arg::word(total_kv),
                Arg::Scalar(scale),
            ],
            Some("cuFuncSetAttribute failed for FP8 V12c VT varlen causal: "@),
            "cuLaunchKernel failed for FP8 V12c VT varlen causal: "@,
        )
    }
}

/// Launch FP8 Flash Attention (varlen causal, V_T layout) with d=128.
pub fn flash_attn_fp8_v12c_vt_varlen_causal(
    q_len: usize,
    k_len: usize,
    v_t_len: usize,
    o_len: usize,
    cu_seqlens_q_len: usize,
    cu_seqlens_k_len: usize,
    batch: u32,
    num_heads: u32,
    max_seqlen_q: u32,
    total_q: u32,
    total_kv: u32,
    scale: F32,
) -> (r: Result<Launch>)
    requires
        flash_attn_fp8_v12c_vt_varlen_causal_plan(
            q_len as int, k_len as int, v_t_len as int, o_len as int, cu_seqlens_q_len as int,
            cu_seqlens_k_len as int, batch as int, num_heads as int, max_seqlen_q as int,
            total_q as int, total_kv as int, scale,
        ) !is Undefined,
    ensures
        plan::outcome(r) == flash_attn_fp8_v12c_vt_varlen_causal_plan(
            q_len as int, k_len as int, v_t_len as int, o_len as int, cu_seqlens_q_len as int,
            cu_seqlens_k_len as int, batch as int, num_heads as int, max_seqlen_q as int,
            total_q as int, total_kv as int, scale,
        ),
        plan::launchable(r, 6),
{
    if batch == 0 {
        return Text::new("batch must be > 0").refuse();
    }
    if num_heads == 0 {
        return Text::new("num_heads must be > 0").refuse();
    }
    if max_seqlen_q == 0 || total_q == 0 || total_kv == 0 {
        return Text::new("max_seqlen_q, total_q, total_kv must be > 0").refuse();
    }
    let cu_need: u64 = (batch + 1) as u64;
    if (cu_seqlens_q_len as u64) < cu_need || (cu_seqlens_k_len as u64) < cu_need {
        return Text::new("cu_seqlens too small: need ").n(cu_need).refuse();
    }
    let grid_x: u32 = shape::div_ceil(max_seqlen_q, 64);
    Ok(
        Launch::raw(
            "fa_fp8_v12c_vt_varlen_causal",
            "flash_attn_fp8_v12c_vt_varlen_causal",
            (grid_x, num_heads, batch),
            (160, 1, 1),
            45168,
            vec![
                tensor_map::create_tma_desc_fp8_swizzle(0, num_heads * total_q, HEAD_DIM, 64, 128),
                tensor_map::create_tma_desc_fp8_swizzle(1, num_heads * total_kv, HEAD_DIM, 64, 128),
                tensor_map::create_tma_desc_fp8_vt(2, num_heads * total_kv, HEAD_DIM, 64, 128),
            ],
            vec![
                Arg::Descriptor(0), Arg::Descriptor(1), Arg::Descriptor(2), Arg::param(3),
                Arg::param(4), Arg::param(5), Arg::Word(total_q), Arg::Word(total_kv),
                Arg::Scalar(scale),
            ],
            Some("cuFuncSetAttribute failed for FP8 V12c VT varlen causal: "),
            Text::new("cuLaunchKernel failed for FP8 V12c VT varlen causal: "),
        ),
    )
}

/// The answer of [`flash_attn_fp8_v12c_vt_gqa`].
pub open spec fn flash_attn_fp8_v12c_vt_gqa_plan(
    q_len: int, k_len: int, v_t_len: int, o_len: int, batch: int, num_heads_q: int,
    num_heads_kv: int, seq_q: int, seq_kv: int, scale: F32,
) -> Plan {
    let grid_x = shape::ceil_div(seq_q, 64);
    let total_q_rows = batch * num_heads_q * seq_q;
    let total_kv_rows = batch * num_heads_kv * seq_kv;
    if batch == 0 || num_heads_q == 0 || num_heads_kv == 0 || seq_q == 0 || seq_kv == 0 {
        Plan::invalid("batch, num_heads_q, num_heads_kv, seq_q, seq_kv must be > 0"@)
    } else if num_heads_q % num_heads_kv != 0 {
        Plan::invalid(
            "num_heads_q ("@ + text::decimal(num_heads_q)
                + ") must be divisible by num_heads_kv ("@ + text::decimal(num_heads_kv) + ")"@,
        )
    } else if batch * num_heads_q > u32::MAX
        || total_q_rows > u32::MAX
        || batch * num_heads_kv > u32::MAX
        || total_kv_rows > u32::MAX
    {
        Plan::Undefined
    } else {
        Plan::raw_launch(
            "fa_fp8_v12c_vt_gqa"@,
            "flash_attn_fp8_v12c_vt_gqa"@,
            (grid_x, num_heads_q, batch),
            (160, 1, 1),
            45168,
            seq![
                tensor_map::desc_fp8_swizzle(0, total_q_rows, HEAD_DIM as int, 64, 128),
                tensor_map::desc_fp8_swizzle(1, total_kv_rows, HEAD_DIM as int, 64, 128),
                tensor_map::desc_fp8_vt(2, total_kv_rows, HEAD_DIM as int, 64, 128),
            ],
            seq![
                Arg::Descriptor(0), Arg::Descriptor(1), Arg::Descriptor(2), Arg::buffer(3),
                Arg::word(seq_q), Arg::word(seq_kv), Arg::word(num_heads_q),
                Arg::word(num_heads_kv), Arg::Scalar(scale),
            ],
            Some("cuFuncSetAttribute failed for FP8 V12c VT GQA: "@),
            "cuLaunchKernel failed for FP8 V12c VT GQA: "@,
        )
    }
}

/// Launch FP8 Flash Attention V12c VT GQA (non-causal) with d=128.
pub fn flash_attn_fp8_v12c_vt_gqa(
    q_len: usize,
    k_len: usize,
    v_t_len: usize,
    o_len: usize,
    batch: u32,
    num_heads_q: u32,
    num_heads_kv: u32,
    seq_q: u32,
    seq_kv: u32,
    scale: F32,
) -> (r: Result<Launch>)
    requires
        flash_attn_fp8_v12c_vt_gqa_plan(
            q_len as int, k_len as int, v_t_len as int, o_len as int, batch as int,
            num_heads_q as int, num_heads_kv as int, seq_q as int, seq_kv as int, scale,
        ) !is Undefined,
    ensures
        plan::outcome(r) == flash_attn_fp8_v12c_vt_gqa_plan(
            q_len as int, k_len as int, v_t_len as int, o_len as int, batch as int,
            num_heads_q as int, num_heads_kv as int, seq_q as int, seq_kv as int, scale,
        ),
        plan::launchable(r, 4),
{
    if batch == 0 || num_heads_q == 0 || num_heads_kv == 0 || seq_q == 0 || seq_kv == 0 {
        return Text::new("batch, num_heads_q, num_heads_kv, seq_q, seq_kv must be > 0").refuse();
    }
    if num_heads_q % num_heads_kv != 0 {
        return Text::new("num_heads_q (").n(num_heads_q as u64)
            .s(") must be divisible by num_heads_kv (").n(num_heads_kv as u64).s(")").refuse();
    }
    let grid_x: u32 = shape::div_ceil(seq_q, 64);
    let total_q_rows: u32 = batch * num_heads_q * seq_q;
    let total_kv_rows: u32 = batch * num_heads_kv * seq_kv;
    Ok(
        Launch::raw(
            "fa_fp8_v12c_vt_gqa",
            "flash_attn_fp8_v12c_vt_gqa",
            (grid_x, num_heads_q, batch),
            (160, 1, 1),
            45168,
            vec![
                tensor_map::create_tma_desc_fp8_swizzle(0, total_q_rows, HEAD_DIM, 64, 128),
                tensor_map::create_tma_desc_fp8_swizzle(1, total_kv_rows, HEAD_DIM, 64, 128),
                tensor_map::create_tma_desc_fp8_vt(2, total_kv_rows, HEAD_DIM, 64, 128),
            ],
            vec![
                Arg::Descriptor(0), Arg::Descriptor(1), Arg::Descriptor(2), Arg::param(3),
                Arg::Word(seq_q), Arg::Word(seq_kv), Arg::Word(num_heads_q),
                Arg::Word(num_heads_kv), Arg::Scalar(scale),
            ],
            Some("cuFuncSetAttribute failed for FP8 V12c VT GQA: "),
            Text::new("cuLaunchKernel failed for FP8 V12c VT GQA: "),
        ),
    )
}

/// The answer of [`flash_attn_fp8_v12c_vt_gqa_causal`].
pub open spec fn flash_attn_fp8_v12c_vt_gqa_causal_plan(
    q_len: int, k_len: int, v_t_len: int, o_len: int, batch: int, num_heads_q: int,
    num_heads_kv: int, seq_q: int, seq_kv: int, scale: F32,
) -> Plan {
    let grid_x = shape::ceil_div(seq_q, 64);
    let total_q_rows = batch * num_heads_q * seq_q;
    let total_kv_rows = batch * num_heads_kv * seq_kv;
    if batch == 0 || num_heads_q == 0 || num_heads_kv == 0 || seq_q == 0 || seq_kv == 0 {
        Plan::invalid("batch, num_heads_q, num_heads_kv, seq_q, seq_kv must be > 0"@)
    } else if num_heads_q % num_heads_kv != 0 {
        Plan::invalid(
            "num_heads_q ("@ + text::decimal(num_heads_q)
                + ") must be divisible by num_heads_kv ("@ + text::decimal(num_heads_kv) + ")"@,
        )
    } else if batch * num_heads_q > u32::MAX
        || total_q_rows > u32::MAX
        || batch * num_heads_kv > u32::MAX
        || total_kv_rows > u32::MAX
    {
        Plan::Undefined
    } else {
        Plan::raw_launch(
            "fa_fp8_v12c_vt_gqa_causal"@,
            "flash_attn_fp8_v12c_vt_gqa_causal"@,
            (grid_x, num_heads_q, batch),
            (160, 1, 1),
            45168,
            seq![
                tensor_map::desc_fp8_swizzle(0, total_q_rows, HEAD_DIM as int, 64, 128),
                tensor_map::desc_fp8_swizzle(1, total_kv_rows, HEAD_DIM as int, 64, 128),
                tensor_map::desc_fp8_vt(2, total_kv_rows, HEAD_DIM as int, 64, 128),
            ],
            seq![
                Arg::Descriptor(0), Arg::Descriptor(1), Arg::Descriptor(2), Arg::buffer(3),
                Arg::word(seq_q), Arg::word(seq_kv), Arg::word(num_heads_q),
                Arg::word(num_heads_kv), Arg::Scalar(scale),
            ],
            Some("cuFuncSetAttribute failed for FP8 V12c VT GQA causal: "@),
            "cuLaunchKernel failed for FP8 V12c VT GQA causal: "@,
        )
    }
}

/// Launch FP8 Flash Attention V12c VT GQA causal with d=128.
pub fn flash_attn_fp8_v12c_vt_gqa_causal(
    q_len: usize,
    k_len: usize,
    v_t_len: usize,
    o_len: usize,
    batch: u32,
    num_heads_q: u32,
    num_heads_kv: u32,
    seq_q: u32,
    seq_kv: u32,
    scale: F32,
) -> (r: Result<Launch>)
    requires
        flash_attn_fp8_v12c_vt_gqa_causal_plan(
            q_len as int, k_len as int, v_t_len as int, o_len as int, batch as int,
            num_heads_q as int, num_heads_kv as int, seq_q as int, seq_kv as int, scale,
        ) !is Undefined,
    ensures
        plan::outcome(r) == flash_attn_fp8_v12c_vt_gqa_causal_plan(
            q_len as int, k_len as int, v_t_len as int, o_len as int, batch as int,
            num_heads_q as int, num_heads_kv as int, seq_q as int, seq_kv as int, scale,
        ),
        plan::launchable(r, 4),
{
    if batch == 0 || num_heads_q == 0 || num_heads_kv == 0 || seq_q == 0 || seq_kv == 0 {
        return Text::new("batch, num_heads_q, num_heads_kv, seq_q, seq_kv must be > 0").refuse();
    }
    if num_heads_q % num_heads_kv != 0 {
        return Text::new("num_heads_q (").n(num_heads_q as u64)
            .s(") must be divisible by num_heads_kv (").n(num_heads_kv as u64).s(")").refuse();
    }
    let grid_x: u32 = shape::div_ceil(seq_q, 64);
    let total_q_rows: u32 = batch * num_heads_q * seq_q;
    let total_kv_rows: u32 = batch * num_heads_kv * seq_kv;
    Ok(
        Launch::raw(
            "fa_fp8_v12c_vt_gqa_causal",
            "flash_attn_fp8_v12c_vt_gqa_causal",
            (grid_x, num_heads_q, batch),
            (160, 1, 1),
            45168,
            vec![
                tensor_map::create_tma_desc_fp8_swizzle(0, total_q_rows, HEAD_DIM, 64, 128),
                tensor_map::create_tma_desc_fp8_swizzle(1, total_kv_rows, HEAD_DIM, 64, 128),
                tensor_map::create_tma_desc_fp8_vt(2, total_kv_rows, HEAD_DIM, 64, 128),
            ],
            vec![
                Arg::Descriptor(0), Arg::Descriptor(1), Arg::Descriptor(2), Arg::param(3),
                Arg::Word(seq_q), Arg::Word(seq_kv), Arg::Word(num_heads_q),
                Arg::Word(num_heads_kv), Arg::Scalar(scale),
            ],
            Some("cuFuncSetAttribute failed for FP8 V12c VT GQA causal: "),
            Text::new("cuLaunchKernel failed for FP8 V12c VT GQA causal: "),
        ),
    )
}

/// The answer of [`flash_attn_fp8_v12c_vt_varlen_gqa`].
pub open spec fn flash_attn_fp8_v12c_vt_varlen_gqa_plan(
    q_len: int, k_len: int, v_t_len: int, o_len: int, cu_seqlens_q_len: int, cu_seqlens_k_len: int,
    batch: int, num_heads_q: int, num_heads_kv: int, max_seqlen_q: int, total_q: int, total_kv: int,
    scale: F32,
) -> Plan {
    let cu_need = batch + 1;
    let grid_x = shape::ceil_div(max_seqlen_q, 64);
    if batch == 0 {
        Plan::invalid("batch must be > 0"@)
    } else if num_heads_q == 0 || num_heads_kv == 0 {
        Plan::invalid("num_heads_q and num_heads_kv must be > 0"@)
    } else if num_heads_q % num_heads_kv != 0 {
        Plan::invalid(
            "num_heads_q ("@ + text::decimal(num_heads_q)
                + ") must be divisible by num_heads_kv ("@ + text::decimal(num_heads_kv) + ")"@,
        )
    } else if max_seqlen_q == 0 || total_q == 0 || total_kv == 0 {
        Plan::invalid("max_seqlen_q, total_q, total_kv must be > 0"@)
    } else if cu_need > u32::MAX {
        Plan::Undefined
    } else if cu_seqlens_q_len < cu_need || cu_seqlens_k_len < cu_need {
        Plan::invalid("cu_seqlens too small: need "@ + text::decimal(cu_need))
    } else if num_heads_q * total_q > u32::MAX || num_heads_kv * total_kv > u32::MAX {
        Plan::Undefined
    } else {
        Plan::raw_launch(
            "fa_fp8_v12c_vt_varlen_gqa"@,
            "flash_attn_fp8_v12c_vt_varlen_gqa"@,
            (grid_x, num_heads_q, batch),
            (160, 1, 1),
            45168,
            seq![
                tensor_map::desc_fp8_swizzle(0, num_heads_q * total_q, HEAD_DIM as int, 64, 128),
                tensor_map::desc_fp8_swizzle(1, num_heads_kv * total_kv, HEAD_DIM as int, 64, 128),
                tensor_map::desc_fp8_vt(2, num_heads_kv * total_kv, HEAD_DIM as int, 64, 128),
            ],
            seq![
                Arg::Descriptor(0), Arg::Descriptor(1), Arg::Descriptor(2), Arg::buffer(3),
                Arg::buffer(4), Arg::buffer(5), Arg::word(total_q), Arg::word(total_kv),
                Arg::word(num_heads_q), Arg::word(num_heads_kv), Arg::Scalar(scale),
            ],
            Some("cuFuncSetAttribute failed for FP8 V12c VT varlen GQA: "@),
            "cuLaunchKernel failed for FP8 V12c VT varlen GQA: "@,
        )
    }
}

/// Launch FP8 Flash Attention V12c VT varlen GQA (non-causal) with d=128.
pub fn flash_attn_fp8_v12c_vt_varlen_gqa(
    q_len: usize,
    k_len: usize,
    v_t_len: usize,
    o_len: usize,
    cu_seqlens_q_len: usize,
    cu_seqlens_k_len: usize,
    batch: u32,
    num_heads_q: u32,
    num_heads_kv: u32,
    max_seqlen_q: u32,
    total_q: u32,
    total_kv: u32,
    scale: F32,
) -> (r: Result<Launch>)
    requires
        flash_attn_fp8_v12c_vt_varlen_gqa_plan(
            q_len as int, k_len as int, v_t_len as int, o_len as int, cu_seqlens_q_len as int,
            cu_seqlens_k_len as int, batch as int, num_heads_q as int, num_heads_kv as int,
            max_seqlen_q as int, total_q as int, total_kv as int, scale,
        ) !is Undefined,
    ensures
        plan::outcome(r) == flash_attn_fp8_v12c_vt_varlen_gqa_plan(
            q_len as int, k_len as int, v_t_len as int, o_len as int, cu_seqlens_q_len as int,
            cu_seqlens_k_len as int, batch as int, num_heads_q as int, num_heads_kv as int,
            max_seqlen_q as int, total_q as int, total_kv as int, scale,
        ),
        plan::launchable(r, 6),
{
    if batch == 0 {
        return Text::new("batch must be > 0").refuse();
    }
    if num_heads_q == 0 || num_heads_kv == 0 {
        return Text::new("num_heads_q and num_heads_kv must be > 0").refuse();
    }
    if num_heads_q % num_heads_kv != 0 {
        return Text::new("num_heads_q (").n(num_heads_q as u64)
            .s(") must be divisible by num_heads_kv (").n(num_heads_kv as u64).s(")").refuse();
    }
    if max_seqlen_q == 0 || total_q == 0 || total_kv == 0 {
        return Text::new("max_seqlen_q, total_q, total_kv must be > 0").refuse();
    }
    let cu_need: u64 = (batch + 1) as u64;
    if (cu_seqlens_q_len as u64) < cu_need || (cu_seqlens_k_len as u64) < cu_need {
        return Text::new("cu_seqlens too small: need ").n(cu_need).refuse();
    }
    let grid_x: u32 = shape::div_ceil(max_seqlen_q, 64);
    Ok(
        Launch::raw(
            "fa_fp8_v12c_vt_varlen_gqa",
            "flash_attn_fp8_v12c_vt_varlen_gqa",
            (grid_x, num_heads_q, batch),
            (160, 1, 1),
            45168,
            vec![
                tensor_map::create_tma_desc_fp8_swizzle(0, num_heads_q * total_q, HEAD_DIM, 64, 128),
                tensor_map::create_tma_desc_fp8_swizzle(1, num_heads_kv * total_kv, HEAD_DIM, 64, 128),
                tensor_map::create_tma_desc_fp8_vt(2, num_heads_kv * total_kv, HEAD_DIM, 64, 128),
            ],
            vec![
                Arg::Descriptor(0), Arg::Descriptor(1), Arg::Descriptor(2), Arg::param(3),
                Arg::param(4), Arg::param(5), Arg::Word(total_q), Arg::Word(total_kv),
                Arg::Word(num_heads_q), Arg::Word(num_heads_kv), Arg::Scalar(scale),
            ],
            Some("cuFuncSetAttribute failed for FP8 V12c VT varlen GQA: "),
            Text::new("cuLaunchKernel failed for FP8 V12c VT varlen GQA: "),
        ),
    )
}

/// The answer of [`flash_attn_fp8_v12c_vt_varlen_gqa_causal`].
pub open spec fn flash_attn_fp8_v12c_vt_varlen_gqa_causal_plan(
    q_len: int, k_len: int, v_t_len: int, o_len: int, cu_seqlens_q_len: int, cu_seqlens_k_len: int,
    batch: int, num_heads_q: int, num_heads_kv: int, max_seqlen_q: int, total_q: int, total_kv: int,
    scale: F32,
) -> Plan {
    let cu_need = batch + 1;
    let grid_x = shape::ceil_div(max_seqlen_q, 64);
    if batch == 0 {
        Plan::invalid("batch must be > 0"@)
    } else if num_heads_q == 0 || num_heads_kv == 0 {
        Plan::invalid("num_heads_q and num_heads_kv must be > 0"@)
    } else if num_heads_q % num_heads_kv != 0 {
        Plan::invalid(
            "num_heads_q ("@ + text::decimal(num_heads_q)
                + ") must be divisible by num_heads_kv ("@ + text::decimal(num_heads_kv) + ")"@,
        )
    } else if max_seqlen_q == 0 || total_q == 0 || total_kv == 0 {
        Plan::invalid("max_seqlen_q, total_q, total_kv must be > 0"@)
    } else if cu_need > u32::MAX {
        Plan::Undefined
    } else if cu_seqlens_q_len < cu_need || cu_seqlens_k_len < cu_need {
        Plan::invalid("cu_seqlens too small: need "@ + text::decimal(cu_need))
    } else if num_heads_q * total_q > u32::MAX || num_heads_kv * total_kv > u32::MAX {
        Plan::Undefined
    } else {
        Plan::raw_launch(
            "fa_fp8_v12c_vt_varlen_gqa_causal"@,
            "flash_attn_fp8_v12c_vt_varlen_gqa_causal"@,
            (grid_x, num_heads_q, batch),
            (160, 1, 1),
            45168,
            seq![
                tensor_map::desc_fp8_swizzle(0, num_heads_q * total_q, HEAD_DIM as int, 64, 128),
                tensor_map::desc_fp8_swizzle(1, num_heads_kv * total_kv, HEAD_DIM as int, 64, 128),
                tensor_map::desc_fp8_vt(2, num_heads_kv * total_kv, HEAD_DIM as int, 64, 128),
            ],
            seq![
                Arg::Descriptor(0), Arg::Descriptor(1), Arg::Descriptor(2), Arg::buffer(3),
                Arg::buffer(4), Arg::buffer(5), Arg::word(total_q), Arg::word(total_kv),
                Arg::word(num_heads_q), Arg::word(num_heads_kv), Arg::Scalar(scale),
            ],
            Some("cuFuncSetAttribute failed for FP8 V12c VT varlen GQA causal: "@),
            "cuLaunchKernel failed for FP8 V12c VT varlen GQA causal: "@,
        )
    }
}

/// Launch FP8 Flash Attention V12c VT varlen GQA causal with d=128.
pub fn flash_attn_fp8_v12c_vt_varlen_gqa_causal(
    q_len: usize,
    k_len: usize,
    v_t_len: usize,
    o_len: usize,
    cu_seqlens_q_len: usize,
    cu_seqlens_k_len: usize,
    batch: u32,
    num_heads_q: u32,
    num_heads_kv: u32,
    max_seqlen_q: u32,
    total_q: u32,
    total_kv: u32,
    scale: F32,
) -> (r: Result<Launch>)
    requires
        flash_attn_fp8_v12c_vt_varlen_gqa_causal_plan(
            q_len as int, k_len as int, v_t_len as int, o_len as int, cu_seqlens_q_len as int,
            cu_seqlens_k_len as int, batch as int, num_heads_q as int, num_heads_kv as int,
            max_seqlen_q as int, total_q as int, total_kv as int, scale,
        ) !is Undefined,
    ensures
        plan::outcome(r) == flash_attn_fp8_v12c_vt_varlen_gqa_causal_plan(
            q_len as int, k_len as int, v_t_len as int, o_len as int, cu_seqlens_q_len as int,
            cu_seqlens_k_len as int, batch as int, num_heads_q as int, num_heads_kv as int,
            max_seqlen_q as int, total_q as int, total_kv as int, scale,
        ),
        plan::launchable(r, 6),
{
    if batch == 0 {
        return Text::new("batch must be > 0").refuse();
    }
    if num_heads_q == 0 || num_heads_kv == 0 {
        return Text::new("num_heads_q and num_heads_kv must be > 0").refuse();
    }
    if num_heads_q % num_heads_kv != 0 {
        return Text::new("num_heads_q (").n(num_heads_q as u64)
            .s(") must be divisible by num_heads_kv (").n(num_heads_kv as u64).s(")").refuse();
    }
    if max_seqlen_q == 0 || total_q == 0 || total_kv == 0 {
        return Text::new("max_seqlen_q, total_q, total_kv must be > 0").refuse();
    }
    let cu_need: u64 = (batch + 1) as u64;
    if (cu_seqlens_q_len as u64) < cu_need || (cu_seqlens_k_len as u64) < cu_need {
        return Text::new("cu_seqlens too small: need ").n(cu_need).refuse();
    }
    let grid_x: u32 = shape::div_ceil(max_seqlen_q, 64);
    Ok(
        Launch::raw(
            "fa_fp8_v12c_vt_varlen_gqa_causal",
            "flash_attn_fp8_v12c_vt_varlen_gqa_causal",
            (grid_x, num_heads_q, batch),
            (160, 1, 1),
            45168,
            vec![
                tensor_map::create_tma_desc_fp8_swizzle(0, num_heads_q * total_q, HEAD_DIM, 64, 128),
                tensor_map::create_tma_desc_fp8_swizzle(1, num_heads_kv * total_kv, HEAD_DIM, 64, 128),
                tensor_map::create_tma_desc_fp8_vt(2, num_heads_kv * total_kv, HEAD_DIM, 64, 128),
            ],
            vec![
                Arg::Descriptor(0), Arg::Descriptor(1), Arg::Descriptor(2), Arg::param(3),
                Arg::param(4), Arg::param(5), Arg::Word(total_q), Arg::Word(total_kv),
                Arg::Word(num_heads_q), Arg::Word(num_heads_kv), Arg::Scalar(scale),
            ],
            Some("cuFuncSetAttribute failed for FP8 V12c VT varlen GQA causal: "),
            Text::new("cuLaunchKernel failed for FP8 V12c VT varlen GQA causal: "),
        ),
    )
}

} // verus!
