//! Depthwise causal convolutions.
use crate::error::Result;
use crate::plan::{Arg, Launch, Place, Plan};
use crate::plan;
use crate::shape;
use crate::text::Text;
use crate::text;
use vstd::prelude::*;

verus! {

/// The answer of [`conv1d_silu_bf16_batched`].
pub open spec fn conv1d_silu_bf16_batched_plan(
    state_len: int, current_len: int, weight_len: int, out_len: int, total_qkv: int, batch_m: int,
) -> Plan {
    let n = total_qkv;
    let m = batch_m;
    let grid_x = shape::ceil_div(total_qkv, 128);
    if total_qkv == 0 || batch_m == 0 {
        Plan::invalid("total_qkv and batch_m must be > 0"@)
    } else if m * 3 * n > u64::MAX {
        Plan::Undefined
    } else if state_len < m * 3 * n {
        Plan::invalid(
            "batched conv1d state buffer too small: need "@ + text::decimal(m * 3 * n) + " got "@
                + text::decimal(state_len),
        )
    } else if current_len < m * n || out_len < m * n {
        Plan::invalid("batched conv1d current/out buffer too small"@)
    } else if weight_len < 4 * n {
        Plan::invalid(
            "conv1d weight buffer too small: need "@ + text::decimal(4 * n) + " got "@
                + text::decimal(weight_len),
        )
    } else {
        Plan::raw_launch(
            "conv1d_silu_bf16_batched"@,
            "conv1d_silu_bf16_batched"@,
            (grid_x, batch_m, 1),
            (128, 1, 1),
            0,
            Seq::empty(),
            seq![
                Arg::buffer(0), Arg::buffer(1), Arg::buffer(2), Arg::buffer(3),
                Arg::word(total_qkv),
            ],
            None,
            "conv1d_silu_bf16_batched launch failed: "@,
        )
    }
}

/// Depthwise causal conv1d (kernel=4) + SiLU for `batch_m` sequences in one launch; the
/// 3-tap state of each sequence advances in place and the weights are shared.
pub fn conv1d_silu_bf16_batched(
    state_len: usize,
    current_len: usize,
    weight_len: usize,
    out_len: usize,
    total_qkv: u32,
    batch_m: u32,
) -> (r: Result<Launch>)
    requires
        conv1d_silu_bf16_batched_plan(
            state_len as int, current_len as int, weight_len as int, out_len as int,
            total_qkv as int, batch_m as int,
        ) !is Undefined,
    ensures
        plan::outcome(r) == conv1d_silu_bf16_batched_plan(
            state_len as int, current_len as int, weight_len as int, out_len as int,
            total_qkv as int, batch_m as int,
        ),
        plan::launchable(r, 4),
{
    if total_qkv == 0 || batch_m == 0 {
        return Text::new("total_qkv and batch_m must be > 0").refuse();
    }
    let n: u64 = total_qkv as u64;
    let m: u64 = batch_m as u64;
    if (state_len as u64) < m * 3 * n {
        return Text::new("batched conv1d state buffer too small: need ").n(m * 3 * n).s(" got ")
            .n(state_len as u64).refuse();
    }
    if (current_len as u64) < shape::product(batch_m, total_qkv)
        || (out_len as u64) < shape::product(batch_m, total_qkv)
    {
        return Text::new("batched conv1d current/out buffer too small").refuse();
    }
    if (weight_len as u64) < 4 * n {
        return Text::new("conv1d weight buffer too small: need ").n(4 * n).s(" got ")
            .n(weight_len as u64).refuse();
    }
    let grid_x: u32 = shape::div_ceil(total_qkv, 128);
    Ok(
        Launch::raw(
            "conv1d_silu_bf16_batched",
            "conv1d_silu_bf16_batched",
            (grid_x, batch_m, 1),
            (128, 1, 1),
            0,
            Vec::new(),
            vec![Arg::param(0), Arg::param(1), Arg::param(2), Arg::param(3), Arg::Word(total_qkv)],
            None,
            Text::new("conv1d_silu_bf16_batched launch failed: "),
        ),
    )
}

/// The answer of [`conv1d_silu_bf16`].
pub open spec fn conv1d_silu_bf16_plan(
    state_len: int, current_len: int, weight_len: int, out_len: int, total_qkv: int,
) -> Plan {
    let n = total_qkv;
    let grid = shape::ceil_div(total_qkv, 128);
    if total_qkv == 0 {
        Plan::invalid("total_qkv must be > 0"@)
    } else if state_len < 3 * n {
        Plan::invalid(
            "conv1d state buffer too small: need "@ + text::decimal(3 * n) + " got "@
                + text::decimal(state_len),
        )
    } else if current_len < n || out_len < n {
        Plan::invalid("conv1d current/out buffer too small"@)
    } else if weight_len < 4 * n {
        Plan::invalid(
            "conv1d weight buffer too small: need "@ + text::decimal(4 * n) + " got "@
                + text::decimal(weight_len),
        )
    } else {
        Plan::raw_launch(
            "conv1d_silu_bf16"@,
            "conv1d_silu_bf16"@,
            (grid, 1, 1),
            (128, 1, 1),
            0,
            Seq::empty(),
            seq![
                Arg::buffer(0), Arg::buffer(1), Arg::buffer(2), Arg::buffer(3),
                Arg::word(total_qkv),
            ],
            None,
            "conv1d_silu_bf16 launch: "@,
        )
    }
}

/// Single-token (M=1) variant of `conv1d_silu_bf16_batched`: applies the
/// depthwise causal Conv1d (kernel width 4) over the QKV stream followed by
/// SiLU, advancing the 3-tap rolling `state` in place. Used by Qwen3-Next /
/// GDN-hybrid GatedDeltaNet during decode.
pub fn conv1d_silu_bf16(
    state_len: usize,
    current_len: usize,
    weight_len: usize,
    out_len: usize,
    total_qkv: u32,
) -> (r: Result<Launch>)
    ensures
        plan::outcome(r) == conv1d_silu_bf16_plan(
            state_len as int, current_len as int, weight_len as int, out_len as int,
            total_qkv as int,
        ),
        plan::launchable(r, 4),
{
    if total_qkv == 0 {
        return Text::new("total_qkv must be > 0").refuse();
    }
    let n: u64 = total_qkv as u64;
    if (state_len as u64) < 3 * n {
        return Text::new("conv1d state buffer too small: need ").n(3 * n).s(" got ")
            .n(state_len as u64).refuse();
    }
    if (current_len as u64) < n || (out_len as u64) < n {
        return Text::new("conv1d current/out buffer too small").refuse();
    }
    if (weight_len as u64) < 4 * n {
        return Text::new("conv1d weight buffer too small: need ").n(4 * n).s(" got ")
            .n(weight_len as u64).refuse();
    }
    let grid: u32 = shape::div_ceil(total_qkv, 128);
    Ok(
        Launch::raw(
            "conv1d_silu_bf16",
            "conv1d_silu_bf16",
            (grid, 1, 1),
            (128, 1, 1),
            0,
            Vec::new(),
            vec![Arg::param(0), Arg::param(1), Arg::param(2), Arg::param(3), Arg::Word(total_qkv)],
            None,
            Text::new("conv1d_silu_bf16 launch: "),
        ),
    )
}

/// The answer of [`conv1d_silu_chunk_bf16`].
pub open spec fn conv1d_silu_chunk_bf16_plan(
    state_len: int, current_len: int, weight_len: int, out_len: int, total_qkv: int, m: int,
) -> Plan {
    let n = total_qkv;
    let grid = shape::ceil_div(total_qkv, 128);
    if total_qkv == 0 || m == 0 {
        Plan::invalid("total_qkv and m must be > 0"@)
    } else if state_len < 3 * n {
        Plan::invalid(
            "chunk conv1d state buffer too small: need "@ + text::decimal(3 * n) + " got "@
                + text::decimal(state_len),
        )
    } else if current_len < m * n || out_len < m * n {
        Plan::invalid("chunk conv1d current/out buffer too small"@)
    } else if weight_len < 4 * n {
        Plan::invalid(
            "conv1d weight buffer too small: need "@ + text::decimal(4 * n) + " got "@
                + text::decimal(weight_len),
        )
    } else {
        Plan::raw_launch(
            "conv1d_silu_chunk_bf16"@,
            "conv1d_silu_chunk_bf16"@,
            (grid, 1, 1),
            (128, 1, 1),
            0,
            Seq::empty(),
            seq![
                Arg::buffer(0), Arg::buffer(1), Arg::buffer(2), Arg::buffer(3),
                Arg::word(total_qkv), Arg::word(m),
            ],
            None,
            "conv1d_silu_chunk_bf16 launch: "@,
        )
    }
}

/// Chunked depthwise causal Conv1d (kernel=4) + SiLU over `m` consecutive tokens
/// of ONE sequence in a single launch. Byte-identical to calling
/// `conv1d_silu_bf16` (the M=1 kernel) `m` times while threading the 3-tap state:
/// the kernel keeps the sliding window in registers (same f32 fma order + SiLU)
/// and writes only the final state. Replaces the per-token prefill conv loop.
pub fn conv1d_silu_chunk_bf16(
    state_len: usize,
    current_len: usize,
    weight_len: usize,
    out_len: usize,
    total_qkv: u32,
    m: u32,
) -> (r: Result<Launch>)
    ensures
        plan::outcome(r) == conv1d_silu_chunk_bf16_plan(
            state_len as int, current_len as int, weight_len as int, out_len as int,
            total_qkv as int, m as int,
        ),
        plan::launchable(r, 4),
{
    if total_qkv == 0 || m == 0 {
        return Text::new("total_qkv and m must be > 0").refuse();
    }
    let n: u64 = total_qkv as u64;
    if (state_len as u64) < 3 * n {
        return Text::new("chunk conv1d state buffer too small: need ").n(3 * n).s(" got ")
            .n(state_len as u64).refuse();
    }
    if (current_len as u64) < shape::product(m, total_qkv)
        || (out_len as u64) < shape::product(m, total_qkv)
    {
        return Text::new("chunk conv1d current/out buffer too small").refuse();
    }
    if (weight_len as u64) < 4 * n {
        return Text::new("conv1d weight buffer too small: need ").n(4 * n).s(" got ")
            .n(weight_len as u64).refuse();
    }
    let grid: u32 = shape::div_ceil(total_qkv, 128);
    Ok(
        Launch::raw(
            "conv1d_silu_chunk_bf16",
            "conv1d_silu_chunk_bf16",
            (grid, 1, 1),
            (128, 1, 1),
            0,
            Vec::new(),
            vec![
                Arg::param(0), Arg::param(1), Arg::param(2), Arg::param(3), Arg::Word(total_qkv),
                Arg::Word(m),
            ],
            None,
            Text::new("conv1d_silu_chunk_bf16 launch: "),
        ),
    )
}

/// The answer of [`conv1d_backward_dx_bf16`].
pub open spec fn conv1d_backward_dx_bf16_plan(
    dy_len: int, w_len: int, dx_len: int, seq_len: int, channels: int,
) -> Plan {
    let need = seq_len * channels;
    if seq_len == 0 || channels == 0 {
        Plan::invalid("seq_len/channels must be > 0"@)
    } else if need > u32::MAX {
        Plan::Undefined
    } else if dy_len < need || dx_len < need {
        Plan::invalid("dy/dx buffer too small"@)
    } else if channels * 4 > u32::MAX {
        Plan::Undefined
    } else if w_len < channels * 4 {
        Plan::invalid("w buffer too small (need C*4)"@)
    } else {
        Plan::launch(
            "conv1d_backward_dx_bf16"@,
            "conv1d_backward_dx_bf16"@,
            (seq_len, shape::ceil_div(channels, 128), 1),
            (128, 1, 1),
            0,
            seq![
                Arg::buffer(0), Arg::buffer(1), Arg::buffer(2), Arg::word(seq_len),
                Arg::word(channels),
            ],
        )
    }
}

/// Backward (dx) for depthwise causal conv1d with kernel_size=4.
pub fn conv1d_backward_dx_bf16(
    dy_len: usize,
    w_len: usize,
    dx_len: usize,
    seq_len: u32,
    channels: u32,
) -> (r: Result<Launch>)
    requires
        conv1d_backward_dx_bf16_plan(
            dy_len as int, w_len as int, dx_len as int, seq_len as int, channels as int,
        ) !is Undefined,
    ensures
        plan::outcome(r) == conv1d_backward_dx_bf16_plan(
            dy_len as int, w_len as int, dx_len as int, seq_len as int, channels as int,
        ),
        plan::launchable(r, 3),
{
    if seq_len == 0 || channels == 0 {
        return Text::new("seq_len/channels must be > 0").refuse();
    }
    let need: u64 = (seq_len * channels) as u64;
    if (dy_len as u64) < need || (dx_len as u64) < need {
        return Text::new("dy/dx buffer too small").refuse();
    }
    if (w_len as u64) < ((channels * 4) as u64) {
        return Text::new("w buffer too small (need C*4)").refuse();
    }
    Ok(
        Launch::new(
            "conv1d_backward_dx_bf16",
            "conv1d_backward_dx_bf16",
            (seq_len, shape::div_ceil(channels, 128), 1),
            (128, 1, 1),
            0,
            vec![
                Arg::param(0), Arg::param(1), Arg::param(2), Arg::Word(seq_len),
                Arg::Word(channels),
            ],
        ),
    )
}

/// The answer of [`conv1d_backward_dw_bf16`].
pub open spec fn conv1d_backward_dw_bf16_plan(
    dy_len: int, x_len: int, dw_len: int, seq_len: int, channels: int,
) -> Plan {
    let need = seq_len * channels;
    let total = channels * 4;
    if seq_len == 0 || channels == 0 {
        Plan::invalid("seq_len/channels must be > 0"@)
    } else if need > u32::MAX {
        Plan::Undefined
    } else if dy_len < need || x_len < need {
        Plan::invalid("dy/x buffer too small"@)
    } else if total > u32::MAX {
        Plan::Undefined
    } else if dw_len < channels * 4 {
        Plan::invalid("dw buffer too small (need C*4)"@)
    } else {
        Plan::launch(
            "conv1d_backward_dw_bf16"@,
            "conv1d_backward_dw_bf16"@,
            (shape::ceil_div(total, 128), 1, 1),
            (128, 1, 1),
            0,
            seq![
                Arg::buffer(0), Arg::buffer(1), Arg::buffer(2), Arg::word(seq_len),
                Arg::word(channels),
            ],
        )
    }
}

/// Backward (dW) for depthwise causal conv1d with kernel_size=4.
pub fn conv1d_backward_dw_bf16(
    dy_len: usize,
    x_len: usize,
    dw_len: usize,
    seq_len: u32,
    channels: u32,
) -> (r: Result<Launch>)
    requires
        conv1d_backward_dw_bf16_plan(
            dy_len as int, x_len as int, dw_len as int, seq_len as int, channels as int,
        ) !is Undefined,
    ensures
        plan::outcome(r) == conv1d_backward_dw_bf16_plan(
            dy_len as int, x_len as int, dw_len as int, seq_len as int, channels as int,
        ),
        plan::launchable(r, 3),
{
    if seq_len == 0 || channels == 0 {
        return Text::new("seq_len/channels must be > 0").refuse();
    }
    let need: u64 = (seq_len * channels) as u64;
    if (dy_len as u64) < need || (x_len as u64) < need {
        return Text::new("dy/x buffer too small").refuse();
    }
    if (dw_len as u64) < ((channels * 4) as u64) {
        return Text::new("dw buffer too small (need C*4)").refuse();
    }
    let total: u32 = channels * 4;
    Ok(
        Launch::new(
            "conv1d_backward_dw_bf16",
            "conv1d_backward_dw_bf16",
            (shape::div_ceil(total, 128), 1, 1),
            (128, 1, 1),
            0,
            vec![
                Arg::param(0), Arg::param(1), Arg::param(2), Arg::Word(seq_len),
                Arg::Word(channels),
            ],
        ),
    )
}

/// The answer of [`conv1d_silu_bf16_row`].
pub open spec fn conv1d_silu_bf16_row_plan(
    state_len: int, current_full_len: int, out_full_len: int, weight_len: int, total_qkv: int,
    row_offset_elems: int,
) -> Plan {
    if total_qkv == 0 {
        Plan::invalid("total_qkv must be > 0"@)
    } else if state_len < 3 * total_qkv {
        Plan::invalid(
            "conv1d state buffer too small: need "@ + text::decimal(3 * total_qkv) + " got "@
                + text::decimal(state_len),
        )
    } else if row_offset_elems + total_qkv > u64::MAX {
        Plan::Undefined
    } else if current_full_len < row_offset_elems + total_qkv
        || out_full_len < row_offset_elems + total_qkv
    {
        Plan::invalid("conv1d row-view current/out buffer too small for offset"@)
    } else if weight_len < 4 * total_qkv {
        Plan::invalid(
            "conv1d weight buffer too small: need "@ + text::decimal(4 * total_qkv) + " got "@
                + text::decimal(weight_len),
        )
    } else {
        Plan::raw_launch(
            "conv1d_silu_bf16"@,
            "conv1d_silu_bf16"@,
            (shape::ceil_div(total_qkv, 128), 1, 1),
            (128, 1, 1),
            0,
            Seq::empty(),
            seq![
                Arg::buffer(0), Arg::Buffer(Place::param_at(1, row_offset_elems)), Arg::buffer(3),
                Arg::Buffer(Place::param_at(2, row_offset_elems)), Arg::word(total_qkv),
            ],
            None,
            "conv1d_silu_bf16_row launch: "@,
        )
    }
}

/// Row-offset variant of [`conv1d_silu_bf16`] for chunked prefill: reads the
/// `current` token directly from row `row_offset_elems` of a larger
/// `[M, total_qkv]` input buffer and writes the result to the same row of a
/// larger output buffer. The same kernel runs on the same bytes; only the launch
/// pointers carry the row offset.
pub fn conv1d_silu_bf16_row(
    state_len: usize,
    current_full_len: usize,
    out_full_len: usize,
    weight_len: usize,
    total_qkv: u32,
    row_offset_elems: usize,
) -> (r: Result<Launch>)
    requires
        conv1d_silu_bf16_row_plan(
            state_len as int, current_full_len as int, out_full_len as int, weight_len as int,
            total_qkv as int, row_offset_elems as int,
        ) !is Undefined,
    ensures
        plan::outcome(r) == conv1d_silu_bf16_row_plan(
            state_len as int, current_full_len as int, out_full_len as int, weight_len as int,
            total_qkv as int, row_offset_elems as int,
        ),
        plan::launchable(r, 4),
{
    if total_qkv == 0 {
        return Text::new("total_qkv must be > 0").refuse();
    }
    let n: u64 = total_qkv as u64;
    if (state_len as u64) < 3 * n {
        return Text::new("conv1d state buffer too small: need ").n(3 * n).s(" got ")
            .n(state_len as u64).refuse();
    }
    let row: u64 = row_offset_elems as u64;
    if (current_full_len as u64) < row + n || (out_full_len as u64) < row + n {
        return Text::new("conv1d row-view current/out buffer too small for offset").refuse();
    }
    if (weight_len as u64) < 4 * n {
        return Text::new("conv1d weight buffer too small: need ").n(4 * n).s(" got ")
            .n(weight_len as u64).refuse();
    }
    Ok(
        Launch::raw(
            "conv1d_silu_bf16",
            "conv1d_silu_bf16",
            (shape::div_ceil(total_qkv, 128), 1, 1),
            (128, 1, 1),
            0,
            Vec::new(),
            vec![
                Arg::param(0), Arg::Buffer(Place::within(1, row)), Arg::param(3),
                Arg::Buffer(Place::within(2, row)), Arg::Word(total_qkv),
            ],
            None,
            Text::new("conv1d_silu_bf16_row launch: "),
        ),
    )
}

} // verus!
