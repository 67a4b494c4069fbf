//! Selective scans and chunked linear attention.
use crate::error::Result;
use crate::plan::{Arg, Launch, Plan};
use crate::plan;
use crate::text::Text;
use vstd::prelude::*;

verus! {

/// SSM state dimension (`d_state`) for the Mamba2 selective-scan kernels.
pub const MAMBA2_D_STATE: u32 = 128;

/// The answer of [`mamba2_selective_scan_decode`].
pub open spec fn mamba2_selective_scan_decode_plan(
    x_len: int, delta_len: int, a_log_len: int, b_len: int, c_len: int, h_len: int, y_len: int,
    batch: int, num_heads: int,
) -> Plan {
    let scalar_need = batch * num_heads;
    let state_need = batch * num_heads * MAMBA2_D_STATE;
    if batch == 0 || num_heads == 0 {
        Plan::invalid("batch, num_heads must be > 0"@)
    } else if scalar_need > u32::MAX || state_need > u32::MAX {
        Plan::Undefined
    } else if x_len < scalar_need || delta_len < scalar_need || y_len < scalar_need {
        Plan::invalid("Mamba2 x/delta/y buffer too small"@)
    } else if a_log_len < state_need
        || b_len < state_need
        || c_len < state_need
        || h_len < state_need
    {
        Plan::invalid("Mamba2 state buffer too small"@)
    } else {
        Plan::raw_launch(
            "mamba2_selective_scan_decode"@,
            "mamba2_selective_scan_decode"@,
            (num_heads, batch, 1),
            (128, 1, 1),
            0,
            Seq::empty(),
            seq![
                Arg::buffer(0), Arg::buffer(1), Arg::buffer(2), Arg::buffer(3), Arg::buffer(4),
                Arg::buffer(5), Arg::buffer(6), Arg::word(num_heads),
            ],
            None,
            "Mamba2 launch: "@,
        )
    }
}

/// Launch Mamba2 selective scan decode (single token).
/// Used by Nemotron-H and Mamba2 family models.
pub fn mamba2_selective_scan_decode(
    x_len: usize,
    delta_len: usize,
    a_log_len: usize,
    b_len: usize,
    c_len: usize,
    h_len: usize,
    y_len: usize,
    batch: u32,
    num_heads: u32,
) -> (r: Result<Launch>)
    requires
        mamba2_selective_scan_decode_plan(
            x_len as int, delta_len as int, a_log_len as int, b_len as int, c_len as int,
            h_len as int, y_len as int, batch as int, num_heads as int,
        ) !is Undefined,
    ensures
        plan::outcome(r) == mamba2_selective_scan_decode_plan(
            x_len as int, delta_len as int, a_log_len as int, b_len as int, c_len as int,
            h_len as int, y_len as int, batch as int, num_heads as int,
        ),
        plan::launchable(r, 7),
{
    if batch == 0 || num_heads == 0 {
        return Text::new("batch, num_heads must be > 0").refuse();
    }
    let scalar_need: u64 = (batch * num_heads) as u64;
    let state_need: u64 = (batch * num_heads * MAMBA2_D_STATE) as u64;
    if (x_len as u64) < scalar_need
        || (delta_len as u64) < scalar_need
        || (y_len as u64) < scalar_need
    {
        return Text::new("Mamba2 x/delta/y buffer too small").refuse();
    }
    if (a_log_len as u64) < state_need
        || (b_len as u64) < state_need
        || (c_len as u64) < state_need
        || (h_len as u64) < state_need
    {
        return Text::new("Mamba2 state buffer too small").refuse();
    }
    Ok(
        Launch::raw(
            "mamba2_selective_scan_decode",
            "mamba2_selective_scan_decode",
            (num_heads, batch, 1),
            (128, 1, 1),
            0,
            Vec::new(),
            vec![
                Arg::param(0), Arg::param(1), Arg::param(2), Arg::param(3), Arg::param(4),
                Arg::param(5), Arg::param(6), Arg::Word(num_heads),
            ],
            None,
            Text::new("Mamba2 launch: "),
        ),
    )
}

/// The answer of [`mamba2_selective_scan_prefill`].
pub open spec fn mamba2_selective_scan_prefill_plan(
    x_len: int, delta_len: int, a_log_len: int, b_len: int, c_len: int, h_len: int, y_len: int,
    batch: int, num_heads: int, seq_q: int,
) -> Plan {
    if batch == 0 || num_heads == 0 || seq_q == 0 {
        Plan::invalid("batch, num_heads, seq_q must be > 0"@)
    } else {
        Plan::raw_launch(
            "mamba2_selective_scan_prefill"@,
            "mamba2_selective_scan_prefill"@,
            (num_heads, batch, 1),
            (128, 1, 1),
            0,
            Seq::empty(),
            seq![
                Arg::buffer(0), Arg::buffer(1), Arg::buffer(2), Arg::buffer(3), Arg::buffer(4),
                Arg::buffer(5), Arg::buffer(6), Arg::word(num_heads), Arg::word(seq_q),
            ],
            None,
            "Mamba2 prefill launch: "@,
        )
    }
}

/// Launch Mamba2 selective scan prefill.
/// Holds state element per thread across all seq_q tokens in one kernel call.
pub fn mamba2_selective_scan_prefill(
    x_len: usize,
    delta_len: usize,
    a_log_len: usize,
    b_len: usize,
    c_len: usize,
    h_len: usize,
    y_len: usize,
    batch: u32,
    num_heads: u32,
    seq_q: u32,
) -> (r: Result<Launch>)
    ensures
        plan::outcome(r) == mamba2_selective_scan_prefill_plan(
            x_len as int, delta_len as int, a_log_len as int, b_len as int, c_len as int,
            h_len as int, y_len as int, batch as int, num_heads as int, seq_q as int,
        ),
        plan::launchable(r, 7),
{
    if batch == 0 || num_heads == 0 || seq_q == 0 {
        return Text::new("batch, num_heads, seq_q must be > 0").refuse();
    }
    Ok(
        Launch::raw(
            "mamba2_selective_scan_prefill",
            "mamba2_selective_scan_prefill",
            (num_heads, batch, 1),
            (128, 1, 1),
            0,
            Vec::new(),
            vec![
                Arg::param(0), Arg::param(1), Arg::param(2), Arg::param(3), Arg::param(4),
                Arg::param(5), Arg::param(6), Arg::Word(num_heads), Arg::Word(seq_q),
            ],
            None,
            Text::new("Mamba2 prefill launch: "),
        ),
    )
}

/// The answer of [`linear_attn_chunk_prefill`].
pub open spec fn linear_attn_chunk_prefill_plan(
    k_len: int, v_len: int, q_len: int, y_len: int, s_in_len: int, s_out_len: int, batch: int,
    num_heads: int,
) -> Plan {
    if batch == 0 || num_heads == 0 {
        Plan::invalid("batch, num_heads must be > 0"@)
    } else {
        Plan::raw_launch(
            "linear_attn_chunk_prefill"@,
            "linear_attn_chunk_prefill"@,
            (num_heads, batch, 1),
            (128, 1, 1),
            90112,
            Seq::empty(),
            seq![
                Arg::buffer(0), Arg::buffer(1), Arg::buffer(2), Arg::buffer(3), Arg::buffer(4),
                Arg::buffer(5), Arg::word(num_heads),
            ],
            Some("cuFuncSetAttribute: "@),
            "linear_attn_chunk_prefill launch: "@,
        )
    }
}

/// Launch linear attention chunk-parallel prefill (one chunk).
pub fn linear_attn_chunk_prefill(
    k_len: usize,
    v_len: usize,
    q_len: usize,
    y_len: usize,
    s_in_len: usize,
    s_out_len: usize,
    batch: u32,
    num_heads: u32,
) -> (r: Result<Launch>)
    ensures
        plan::outcome(r) == linear_attn_chunk_prefill_plan(
            k_len as int, v_len as int, q_len as int, y_len as int, s_in_len as int,
            s_out_len as int, batch as int, num_heads as int,
        ),
        plan::launchable(r, 6),
{
    if batch == 0 || num_heads == 0 {
        return Text::new("batch, num_heads must be > 0").refuse();
    }
    Ok(
        Launch::raw(
            "linear_attn_chunk_prefill",
            "linear_attn_chunk_prefill",
            (num_heads, batch, 1),
            (128, 1, 1),
            90112,
            Vec::new(),
            vec![
                Arg::param(0), Arg::param(1), Arg::param(2), Arg::param(3), Arg::param(4),
                Arg::param(5), Arg::Word(num_heads),
            ],
            Some("cuFuncSetAttribute: "),
            Text::new("linear_attn_chunk_prefill launch: "),
        ),
    )
}

/// The answer of [`linear_attn_state_update_mma`].
pub open spec fn linear_attn_state_update_mma_plan(
    v_len: int, k_len: int, s_in_len: int, s_out_len: int, batch: int, num_heads: int,
) -> Plan {
    if batch == 0 || num_heads == 0 {
        Plan::invalid("batch, num_heads must be > 0"@)
    } else {
        Plan::raw_launch(
            "linear_attn_state_update_mma"@,
            "linear_attn_state_update_mma"@,
            (num_heads, batch, 1),
            (128, 1, 1),
            81920,
            Seq::empty(),
            seq![
                Arg::buffer(0), Arg::buffer(1), Arg::buffer(2), Arg::buffer(3),
                Arg::word(num_heads),
            ],
            Some("cuFuncSetAttribute: "@),
            "linear_attn_state_update_mma launch: "@,
        )
    }
}

/// MMA-accelerated state update for linear attention chunk-scan:
/// S_new = S_init + V^T @ K
/// where V, K: [B, H, C=32, D=128] BF16; S_init/S_new: [B, H, D, D] FP32.
pub fn linear_attn_state_update_mma(
    v_len: usize,
    k_len: usize,
    s_in_len: usize,
    s_out_len: usize,
    batch: u32,
    num_heads: u32,
) -> (r: Result<Launch>)
    ensures
        plan::outcome(r) == linear_attn_state_update_mma_plan(
            v_len as int, k_len as int, s_in_len as int, s_out_len as int, batch as int,
            num_heads as int,
        ),
        plan::launchable(r, 4),
{
    if batch == 0 || num_heads == 0 {
        return Text::new("batch, num_heads must be > 0").refuse();
    }
    Ok(
        Launch::raw(
            "linear_attn_state_update_mma",
            "linear_attn_state_update_mma",
            (num_heads, batch, 1),
            (128, 1, 1),
            81920,
            Vec::new(),
            vec![Arg::param(0), Arg::param(1), Arg::param(2), Arg::param(3), Arg::Word(num_heads)],
            Some("cuFuncSetAttribute: "),
            Text::new("linear_attn_state_update_mma launch: "),
        ),
    )
}

/// The answer of [`linear_attn_y_inter_mma`].
pub open spec fn linear_attn_y_inter_mma_plan(
    q_len: int, s_len: int, y_len: int, batch: int, num_heads: int,
) -> Plan {
    if batch == 0 || num_heads == 0 {
        Plan::invalid("batch, num_heads must be > 0"@)
    } else {
        Plan::raw_launch(
            "linear_attn_y_inter_mma"@,
            "linear_attn_y_inter_mma"@,
            (num_heads, batch, 1),
            (128, 1, 1),
            40960,
            Seq::empty(),
            seq![Arg::buffer(0), Arg::buffer(1), Arg::buffer(2), Arg::word(num_heads)],
            Some("cuFuncSetAttribute: "@),
            "linear_attn_y_inter_mma launch: "@,
        )
    }
}

/// MMA-accelerated linear attention inter-chunk output:
/// Y_inter = Q @ S^T
/// Q: [B, H, C=32, D=128] BF16; S: [B, H, D, D] FP32; Y_inter: [B, H, C, D] FP32.
pub fn linear_attn_y_inter_mma(
    q_len: usize,
    s_len: usize,
    y_len: usize,
    batch: u32,
    num_heads: u32,
) -> (r: Result<Launch>)
    ensures
        plan::outcome(r) == linear_attn_y_inter_mma_plan(
            q_len as int, s_len as int, y_len as int, batch as int, num_heads as int,
        ),
        plan::launchable(r, 3),
{
    if batch == 0 || num_heads == 0 {
        return Text::new("batch, num_heads must be > 0").refuse();
    }
    Ok(
        Launch::raw(
            "linear_attn_y_inter_mma",
            "linear_attn_y_inter_mma",
            (num_heads, batch, 1),
            (128, 1, 1),
            40960,
            Vec::new(),
            vec![Arg::param(0), Arg::param(1), Arg::param(2), Arg::Word(num_heads)],
            Some("cuFuncSetAttribute: "),
            Text::new("linear_attn_y_inter_mma launch: "),
        ),
    )
}

} // verus!
