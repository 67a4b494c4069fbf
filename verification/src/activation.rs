//! Fused element-wise activation kernels (SiLU, GeLU, gating, casts).
use crate::error::Fault;
use crate::error::Result;
use crate::plan::{Arg, F32, Launch, Plan};
use crate::plan;
use crate::shape;
use crate::text::Text;
use crate::text;
use vstd::prelude::*;

verus! {

/// Why a fused activation cannot run on these arguments.
pub open spec fn activation_args_fault(
    input_len: int, out_len: int, total_out_elems: int, d: int,
) -> Option<Fault> {
    if total_out_elems == 0 {
        Some(Fault::InvalidArgument("total_out_elems must be > 0"@))
    } else if d == 0 {
        Some(Fault::InvalidArgument("d must be > 0"@))
    } else if d % 2 != 0 {
        Some(
            Fault::InvalidArgument(
                "d must be even for vectorized activation kernels (got "@ + text::decimal(d) + ")"@,
            ),
        )
    } else if total_out_elems % 2 != 0 {
        Some(
            Fault::InvalidArgument(
                "total_out_elems must be even for vectorized activation kernels (got "@
                    + text::decimal(total_out_elems) + ")"@,
            ),
        )
    } else if input_len < total_out_elems * 2 {
        Some(
            Fault::InvalidArgument(
                "input buffer too small: "@ + text::decimal(input_len) + " < "@
                    + text::decimal(total_out_elems * 2),
            ),
        )
    } else if out_len < total_out_elems {
        Some(
            Fault::InvalidArgument(
                "out buffer too small: "@ + text::decimal(out_len) + " < "@
                    + text::decimal(total_out_elems),
            ),
        )
    } else {
        None
    }
}

/// Checks the arguments of a fused activation. The kernels write two outputs per thread, so both
/// the row length and the total are even.
pub fn validate_activation_args(
    input_len: usize,
    out_len: usize,
    total_out_elems: u32,
    d: u32,
) -> (r: Result<()>)
    ensures
        plan::verdict(r) == activation_args_fault(
            input_len as int, out_len as int, total_out_elems as int, d as int,
        ),
{
    if total_out_elems == 0 {
        return Text::new("total_out_elems must be > 0").refuse();
    }
    if d == 0 {
        return Text::new("d must be > 0").refuse();
    }
    if d % 2 != 0 {
        return Text::new("d must be even for vectorized activation kernels (got ").n(d as u64)
            .s(")").refuse();
    }
    if total_out_elems % 2 != 0 {
        return Text::new("total_out_elems must be even for vectorized activation kernels (got ")
            .n(total_out_elems as u64).s(")").refuse();
    }
    let input_need: u64 = total_out_elems as u64 * 2;
    if (input_len as u64) < input_need {
        return Text::new("input buffer too small: ").n(input_len as u64).s(" < ").n(input_need)
            .refuse();
    }
    if (out_len as u64) < total_out_elems as u64 {
        return Text::new("out buffer too small: ").n(out_len as u64).s(" < ")
            .n(total_out_elems as u64).refuse();
    }
    Ok(())
}

/// Blocks for a kernel whose threads each produce two outputs: enough for all outputs, and at
/// least one.
pub open spec fn vector2_blocks(total_out_elems: int, threads_per_block: int) -> int {
    shape::greater(shape::ceil_div(total_out_elems, threads_per_block * 2), 1)
}

/// Blocks for a kernel whose threads each produce two outputs.
pub fn vector2_grid(total_out_elems: u32, threads_per_block: u32) -> (r: u32)
    requires
        0 < threads_per_block * 2 <= u32::MAX,
    ensures
        r == vector2_blocks(total_out_elems as int, threads_per_block as int),
{
    shape::greater_of(shape::div_ceil(total_out_elems, threads_per_block * 2), 1)
}

/// The answer of [`silu_mul_bf16`].
pub open spec fn silu_mul_bf16_plan(
    input_len: int, out_len: int, total_out_elems: int, d: int,
) -> Plan {
    let num_blocks = vector2_blocks(total_out_elems, 256);
    if let Some(fault) = activation_args_fault(input_len, out_len, total_out_elems, d) {
        Plan::Fail(fault)
    } else {
        Plan::launch(
            "silu_mul_bf16"@,
            "silu_mul_bf16"@,
            (num_blocks, 1, 1),
            (256, 1, 1),
            0,
            seq![Arg::buffer(0), Arg::buffer(1), Arg::word(total_out_elems), Arg::word(d)],
        )
    }
}

/// Launch SiLU*mul BF16 kernel.
pub fn silu_mul_bf16(
    input_len: usize,
    out_len: usize,
    total_out_elems: u32,
    d: u32,
) -> (r: Result<Launch>)
    ensures
        plan::outcome(r) == silu_mul_bf16_plan(
            input_len as int, out_len as int, total_out_elems as int, d as int,
        ),
        plan::launchable(r, 2),
{
    if let Err(e) = validate_activation_args(input_len, out_len, total_out_elems, d) {
        return Err(e);
    }
    let num_blocks: u32 = vector2_grid(total_out_elems, 256);
    Ok(
        Launch::new(
            "silu_mul_bf16",
            "silu_mul_bf16",
            (num_blocks, 1, 1),
            (256, 1, 1),
            0,
            vec![Arg::param(0), Arg::param(1), Arg::Word(total_out_elems), Arg::Word(d)],
        ),
    )
}

/// The answer of [`silu_bf16`].
pub open spec fn silu_bf16_plan(x_len: int, y_len: int, n: int) -> Plan {
    let num_blocks = shape::greater(shape::lesser(shape::ceil_div(n, 256), 65535), 1);
    if n == 0 {
        Plan::invalid("n must be > 0"@)
    } else if x_len < n || y_len < n {
        Plan::invalid(
            "buf too small: x="@ + text::decimal(x_len) + " y="@ + text::decimal(y_len)
                + " need="@ + text::decimal(n),
        )
    } else {
        Plan::launch(
            "silu_bf16"@,
            "silu_bf16"@,
            (num_blocks, 1, 1),
            (256, 1, 1),
            0,
            seq![Arg::buffer(0), Arg::buffer(1), Arg::word(n)],
        )
    }
}

/// Plain SiLU forward: `y[i] = x[i] * sigmoid(x[i])`.
pub fn silu_bf16(x_len: usize, y_len: usize, n: u32) -> (r: Result<Launch>)
    ensures
        plan::outcome(r) == silu_bf16_plan(x_len as int, y_len as int, n as int),
        plan::launchable(r, 2),
{
    if n == 0 {
        return Text::new("n must be > 0").refuse();
    }
    if (x_len as u64) < (n as u64) || (y_len as u64) < (n as u64) {
        return Text::new("buf too small: x=").n(x_len as u64).s(" y=").n(y_len as u64).s(" need=")
            .n(n as u64).refuse();
    }
    let num_blocks: u32 = shape::greater_of(shape::lesser_of(shape::div_ceil(n, 256), 65535), 1);
    Ok(
        Launch::new(
            "silu_bf16",
            "silu_bf16",
            (num_blocks, 1, 1),
            (256, 1, 1),
            0,
            vec![Arg::param(0), Arg::param(1), Arg::Word(n)],
        ),
    )
}

/// The answer of [`silu_backward_bf16`].
pub open spec fn silu_backward_bf16_plan(x_len: int, dy_len: int, dx_len: int, n: int) -> Plan {
    let need = n;
    let num_blocks = shape::ceil_div(n, 256);
    if n == 0 {
        Plan::invalid("n must be > 0"@)
    } else if x_len < need || dy_len < need || dx_len < need {
        Plan::invalid("buffers too small: need "@ + text::decimal(need))
    } else {
        Plan::launch(
            "silu_backward_bf16"@,
            "silu_backward_bf16"@,
            (num_blocks, 1, 1),
            (256, 1, 1),
            0,
            seq![Arg::buffer(0), Arg::buffer(1), Arg::buffer(2), Arg::word(n)],
        )
    }
}

/// Backward pass for plain SiLU: `y = x * sigmoid(x)`.
/// `dx[i] = dy[i] * sigmoid(x) * (1 + x * (1 - sigmoid(x)))`.
pub fn silu_backward_bf16(x_len: usize, dy_len: usize, dx_len: usize, n: u32) -> (r: Result<Launch>)
    ensures
        plan::outcome(r) == silu_backward_bf16_plan(
            x_len as int, dy_len as int, dx_len as int, n as int,
        ),
        plan::launchable(r, 3),
{
    if n == 0 {
        return Text::new("n must be > 0").refuse();
    }
    let need: u64 = n as u64;
    if (x_len as u64) < need || (dy_len as u64) < need || (dx_len as u64) < need {
        return Text::new("buffers too small: need ").n(need).refuse();
    }
    let num_blocks: u32 = shape::div_ceil(n, 256);
    Ok(
        Launch::new(
            "silu_backward_bf16",
            "silu_backward_bf16",
            (num_blocks, 1, 1),
            (256, 1, 1),
            0,
            vec![Arg::param(0), Arg::param(1), Arg::param(2), Arg::Word(n)],
        ),
    )
}

/// The answer of [`gelu_tanh_backward_bf16`].
pub open spec fn gelu_tanh_backward_bf16_plan(
    x_len: int, dy_len: int, dx_len: int, n: int,
) -> Plan {
    let need = n;
    let num_blocks = shape::ceil_div(n, 256);
    if n == 0 {
        Plan::invalid("n must be > 0"@)
    } else if x_len < need || dy_len < need || dx_len < need {
        Plan::invalid("buffers too small: need "@ + text::decimal(need))
    } else {
        Plan::launch(
            "gelu_tanh_backward_bf16"@,
            "gelu_tanh_backward_bf16"@,
            (num_blocks, 1, 1),
            (256, 1, 1),
            0,
            seq![Arg::buffer(0), Arg::buffer(1), Arg::buffer(2), Arg::word(n)],
        )
    }
}

/// Backward pass for PyTorch GeLU-tanh approximation:
/// `y = x * 0.5 * (1 + tanh(K*(x + 0.044715*x^3)))` with `K = sqrt(2/pi)`.
/// Analytical derivative: `dy/dx = 0.5*(1+t) + 0.5*x*(1-t^2)*K*(1+0.134145*x^2)`.
pub fn gelu_tanh_backward_bf16(
    x_len: usize,
    dy_len: usize,
    dx_len: usize,
    n: u32,
) -> (r: Result<Launch>)
    ensures
        plan::outcome(r) == gelu_tanh_backward_bf16_plan(
            x_len as int, dy_len as int, dx_len as int, n as int,
        ),
        plan::launchable(r, 3),
{
    if n == 0 {
        return Text::new("n must be > 0").refuse();
    }
    let need: u64 = n as u64;
    if (x_len as u64) < need || (dy_len as u64) < need || (dx_len as u64) < need {
        return Text::new("buffers too small: need ").n(need).refuse();
    }
    let num_blocks: u32 = shape::div_ceil(n, 256);
    Ok(
        Launch::new(
            "gelu_tanh_backward_bf16",
            "gelu_tanh_backward_bf16",
            (num_blocks, 1, 1),
            (256, 1, 1),
            0,
            vec![Arg::param(0), Arg::param(1), Arg::param(2), Arg::Word(n)],
        ),
    )
}

/// The answer of [`silu_mul_split_bf16`].
pub open spec fn silu_mul_split_bf16_plan(
    gate_len: int, up_len: int, out_len: int, n: int,
) -> Plan {
    let blocks = shape::greater(shape::lesser(shape::ceil_div(n, 512), 2048), 1);
    if n == 0 {
        Plan::invalid("n must be > 0"@)
    } else if n % 2 != 0 {
        Plan::invalid("silu_mul_split_bf16: n must be even, got "@ + text::decimal(n))
    } else if gate_len < n || up_len < n || out_len < n {
        Plan::invalid(
            "silu_mul_split_bf16: buffer too small (gate="@ + text::decimal(gate_len) + ", up="@
                + text::decimal(up_len) + ", out="@ + text::decimal(out_len) + ", need "@
                + text::decimal(n) + ")"@,
        )
    } else {
        Plan::launch(
            "silu_mul_split_bf16"@,
            "silu_mul_split_bf16"@,
            (blocks, 1, 1),
            (256, 1, 1),
            0,
            seq![Arg::buffer(0), Arg::buffer(1), Arg::buffer(2), Arg::word(n)],
        )
    }
}

/// SiLU*mul on SEPARATE gate and up tensors: `out[i] = silu(gate[i]) * up[i]`.
pub fn silu_mul_split_bf16(
    gate_len: usize,
    up_len: usize,
    out_len: usize,
    n: u32,
) -> (r: Result<Launch>)
    ensures
        plan::outcome(r) == silu_mul_split_bf16_plan(
            gate_len as int, up_len as int, out_len as int, n as int,
        ),
        plan::launchable(r, 3),
{
    if n == 0 {
        return Text::new("n must be > 0").refuse();
    }
    if n % 2 != 0 {
        return Text::new("silu_mul_split_bf16: n must be even, got ").n(n as u64).refuse();
    }
    if (gate_len as u64) < (n as u64)
        || (up_len as u64) < (n as u64)
        || (out_len as u64) < (n as u64)
    {
        return Text::new("silu_mul_split_bf16: buffer too small (gate=").n(gate_len as u64)
            .s(", up=").n(up_len as u64).s(", out=").n(out_len as u64).s(", need ").n(n as u64)
            .s(")").refuse();
    }
    let blocks: u32 = shape::greater_of(shape::lesser_of(shape::div_ceil(n, 256 * 2), 2048), 1);
    Ok(
        Launch::new(
            "silu_mul_split_bf16",
            "silu_mul_split_bf16",
            (blocks, 1, 1),
            (256, 1, 1),
            0,
            vec![Arg::param(0), Arg::param(1), Arg::param(2), Arg::Word(n)],
        ),
    )
}

/// The answer of [`scale_bf16_inplace_dev`].
pub open spec fn scale_bf16_inplace_dev_plan(buf_len: int, scalar_len: int, n: int) -> Plan {
    let blocks = shape::greater(shape::lesser(shape::ceil_div(n, 512), 2048), 1);
    if n == 0 {
        Plan::invalid("n must be > 0"@)
    } else if n % 2 != 0 {
        Plan::invalid("scale_bf16_inplace_dev: n must be even, got "@ + text::decimal(n))
    } else if buf_len < n {
        Plan::invalid(
            "scale_bf16_inplace_dev: buf too small ("@ + text::decimal(buf_len) + " < "@
                + text::decimal(n) + ")"@,
        )
    } else if scalar_len == 0 {
        Plan::invalid("scalar buffer empty"@)
    } else {
        Plan::launch(
            "scale_bf16_inplace_dev"@,
            "scale_bf16_inplace_dev"@,
            (blocks, 1, 1),
            (256, 1, 1),
            0,
            seq![Arg::buffer(0), Arg::buffer(1), Arg::word(n)],
        )
    }
}

/// In-place broadcast multiply by a single BF16 scalar device pointer:
/// `buf[i] *= *scalar`. Used by Gemma-4-style per-layer-scalar residuals.
/// The scalar stays on the device.
pub fn scale_bf16_inplace_dev(buf_len: usize, scalar_len: usize, n: u32) -> (r: Result<Launch>)
    ensures
        plan::outcome(r) == scale_bf16_inplace_dev_plan(
            buf_len as int, scalar_len as int, n as int,
        ),
        plan::launchable(r, 2),
{
    if n == 0 {
        return Text::new("n must be > 0").refuse();
    }
    if n % 2 != 0 {
        return Text::new("scale_bf16_inplace_dev: n must be even, got ").n(n as u64).refuse();
    }
    if (buf_len as u64) < (n as u64) {
        return Text::new("scale_bf16_inplace_dev: buf too small (").n(buf_len as u64).s(" < ")
            .n(n as u64).s(")").refuse();
    }
    if scalar_len == 0 {
        return Text::new("scalar buffer empty").refuse();
    }
    let blocks: u32 = shape::greater_of(shape::lesser_of(shape::div_ceil(n, 256 * 2), 2048), 1);
    Ok(
        Launch::new(
            "scale_bf16_inplace_dev",
            "scale_bf16_inplace_dev",
            (blocks, 1, 1),
            (256, 1, 1),
            0,
            vec![Arg::param(0), Arg::param(1), Arg::Word(n)],
        ),
    )
}

/// The answer of [`scale_bf16_rows_inplace`].
pub open spec fn scale_bf16_rows_inplace_plan(
    buf_len: int, row_scales_len: int, m: int, n: int, b_scale: F32,
) -> Plan {
    let grid_x = shape::ceil_div(n, 512);
    if m == 0 || n == 0 || n % 2 != 0 {
        Plan::invalid(
            "scale_bf16_rows_inplace: m="@ + text::decimal(m) + " > 0, n="@ + text::decimal(n)
                + " > 0 + even required"@,
        )
    } else if buf_len < m * n {
        Plan::invalid(
            "scale_bf16_rows_inplace: buf too small ("@ + text::decimal(buf_len) + " < "@
                + text::decimal(m) + "*"@ + text::decimal(n) + ")"@,
        )
    } else if row_scales_len < m {
        Plan::invalid(
            "scale_bf16_rows_inplace: row_scales too small ("@ + text::decimal(row_scales_len)
                + " < "@ + text::decimal(m) + ")"@,
        )
    } else {
        Plan::launch(
            "scale_bf16_rows_inplace"@,
            "scale_bf16_rows_inplace"@,
            (shape::greater(grid_x, 1), m, 1),
            (256, 1, 1),
            0,
            seq![Arg::buffer(0), Arg::buffer(1), Arg::word(m), Arg::word(n), Arg::Scalar(b_scale)],
        )
    }
}

/// In-place per-row scale + per-tensor scale broadcast for the
/// W8A16-via-FP8-v3 post-multiply. Computes `buf[i, j] *= row_scales[i] * b_scale`.
pub fn scale_bf16_rows_inplace(
    buf_len: usize,
    row_scales_len: usize,
    m: u32,
    n: u32,
    b_scale: F32,
) -> (r: Result<Launch>)
    ensures
        plan::outcome(r) == scale_bf16_rows_inplace_plan(
            buf_len as int, row_scales_len as int, m as int, n as int, b_scale,
        ),
        plan::launchable(r, 2),
{
    if m == 0 || n == 0 || n % 2 != 0 {
        return Text::new("scale_bf16_rows_inplace: m=").n(m as u64).s(" > 0, n=").n(n as u64)
            .s(" > 0 + even required").refuse();
    }
    if (buf_len as u64) < shape::product(m, n) {
        return Text::new("scale_bf16_rows_inplace: buf too small (").n(buf_len as u64).s(" < ")
            .n(m as u64).s("*").n(n as u64).s(")").refuse();
    }
    if (row_scales_len as u64) < (m as u64) {
        return Text::new("scale_bf16_rows_inplace: row_scales too small (").n(row_scales_len as u64)
            .s(" < ").n(m as u64).s(")").refuse();
    }
    let grid_x: u32 = shape::div_ceil(n, 512);
    Ok(
        Launch::new(
            "scale_bf16_rows_inplace",
            "scale_bf16_rows_inplace",
            (shape::greater_of(grid_x, 1), m, 1),
            (256, 1, 1),
            0,
            vec![Arg::param(0), Arg::param(1), Arg::Word(m), Arg::Word(n), Arg::Scalar(b_scale)],
        ),
    )
}

/// The answer of [`gelu_tanh_mul_split_view_bf16`].
pub open spec fn gelu_tanh_mul_split_view_bf16_plan(
    gate_len: int, up_len: int, out_len: int, n: int,
) -> Plan {
    let blocks = shape::greater(shape::lesser(shape::ceil_div(n, 512), 2048), 1);
    if n == 0 || n % 2 != 0 {
        Plan::invalid(
            "gelu_tanh_mul_split_view_bf16: n must be >0 and even, got "@ + text::decimal(n),
        )
    } else if gate_len < n || up_len < n || out_len < n {
        Plan::invalid(
            "gelu_tanh_mul_split_view_bf16: buffer too small (gate="@ + text::decimal(gate_len)
                + ", up="@ + text::decimal(up_len) + ", out="@ + text::decimal(out_len)
                + ", need "@ + text::decimal(n) + ")"@,
        )
    } else {
        Plan::launch(
            "gelu_tanh_mul_split_bf16"@,
            "gelu_tanh_mul_split_bf16"@,
            (blocks, 1, 1),
            (256, 1, 1),
            0,
            seq![Arg::buffer(0), Arg::buffer(1), Arg::buffer(2), Arg::word(n)],
        )
    }
}

/// `gelu_tanh_mul_split_bf16` with `up` a sub-slice of a larger contiguous
/// buffer (e.g., a per-layer slice of a stacked aux-inputs tensor).
pub fn gelu_tanh_mul_split_view_bf16(
    gate_len: usize,
    up_len: usize,
    out_len: usize,
    n: u32,
) -> (r: Result<Launch>)
    ensures
        plan::outcome(r) == gelu_tanh_mul_split_view_bf16_plan(
            gate_len as int, up_len as int, out_len as int, n as int,
        ),
        plan::launchable(r, 3),
{
    if n == 0 || n % 2 != 0 {
        return Text::new("gelu_tanh_mul_split_view_bf16: n must be >0 and even, got ").n(n as u64)
            .refuse();
    }
    if (gate_len as u64) < (n as u64)
        || (up_len as u64) < (n as u64)
        || (out_len as u64) < (n as u64)
    {
        return Text::new("gelu_tanh_mul_split_view_bf16: buffer too small (gate=")
            .n(gate_len as u64).s(", up=").n(up_len as u64).s(", out=").n(out_len as u64)
            .s(", need ").n(n as u64).s(")").refuse();
    }
    let blocks: u32 = shape::greater_of(shape::lesser_of(shape::div_ceil(n, 256 * 2), 2048), 1);
    Ok(
        Launch::new(
            "gelu_tanh_mul_split_bf16",
            "gelu_tanh_mul_split_bf16",
            (blocks, 1, 1),
            (256, 1, 1),
            0,
            vec![Arg::param(0), Arg::param(1), Arg::param(2), Arg::Word(n)],
        ),
    )
}

/// The answer of [`gelu_tanh_mul_split_bf16`].
pub open spec fn gelu_tanh_mul_split_bf16_plan(
    gate_len: int, up_len: int, out_len: int, n: int,
) -> Plan {
    let blocks = shape::greater(shape::lesser(shape::ceil_div(n, 512), 2048), 1);
    if n == 0 {
        Plan::invalid("n must be > 0"@)
    } else if n % 2 != 0 {
        Plan::invalid("gelu_tanh_mul_split_bf16: n must be even, got "@ + text::decimal(n))
    } else if gate_len < n || up_len < n || out_len < n {
        Plan::invalid(
            "gelu_tanh_mul_split_bf16: buffer too small (gate="@ + text::decimal(gate_len)
                + ", up="@ + text::decimal(up_len) + ", out="@ + text::decimal(out_len)
                + ", need "@ + text::decimal(n) + ")"@,
        )
    } else {
        Plan::launch(
            "gelu_tanh_mul_split_bf16"@,
            "gelu_tanh_mul_split_bf16"@,
            (blocks, 1, 1),
            (256, 1, 1),
            0,
            seq![Arg::buffer(0), Arg::buffer(1), Arg::buffer(2), Arg::word(n)],
        )
    }
}

/// `gelu_tanh(gate) * up` on SEPARATE gate and up tensors. Drop-in counterpart
/// to `silu_mul_split_bf16` for Gemma-style MLPs that use `gelu_pytorch_tanh`.
/// Avoids the dtod-copy "fuse gate||up into [N, 2D]" step that `gelu_tanh_mul_bf16`
/// requires.
pub fn gelu_tanh_mul_split_bf16(
    gate_len: usize,
    up_len: usize,
    out_len: usize,
    n: u32,
) -> (r: Result<Launch>)
    ensures
        plan::outcome(r) == gelu_tanh_mul_split_bf16_plan(
            gate_len as int, up_len as int, out_len as int, n as int,
        ),
        plan::launchable(r, 3),
{
    if n == 0 {
        return Text::new("n must be > 0").refuse();
    }
    if n % 2 != 0 {
        return Text::new("gelu_tanh_mul_split_bf16: n must be even, got ").n(n as u64).refuse();
    }
    if (gate_len as u64) < (n as u64)
        || (up_len as u64) < (n as u64)
        || (out_len as u64) < (n as u64)
    {
        return Text::new("gelu_tanh_mul_split_bf16: buffer too small (gate=").n(gate_len as u64)
            .s(", up=").n(up_len as u64).s(", out=").n(out_len as u64).s(", need ").n(n as u64)
            .s(")").refuse();
    }
    let blocks: u32 = shape::greater_of(shape::lesser_of(shape::div_ceil(n, 256 * 2), 2048), 1);
    Ok(
        Launch::new(
            "gelu_tanh_mul_split_bf16",
            "gelu_tanh_mul_split_bf16",
            (blocks, 1, 1),
            (256, 1, 1),
            0,
            vec![Arg::param(0), Arg::param(1), Arg::param(2), Arg::Word(n)],
        ),
    )
}

/// The answer of [`add_bf16`].
pub open spec fn add_bf16_plan(a_len: int, b_len: int, out_len: int, n: int) -> Plan {
    let blocks = shape::greater(shape::lesser(shape::ceil_div(n, 256), 2048), 1);
    if n == 0 {
        Plan::invalid("n must be > 0"@)
    } else if a_len < n || b_len < n || out_len < n {
        Plan::invalid(
            "add_bf16: buffer too small (a="@ + text::decimal(a_len) + ", b="@
                + text::decimal(b_len) + ", out="@ + text::decimal(out_len) + ", need "@
                + text::decimal(n) + ")"@,
        )
    } else {
        Plan::launch(
            "add_bf16"@,
            "add_bf16"@,
            (blocks, 1, 1),
            (256, 1, 1),
            0,
            seq![Arg::buffer(0), Arg::buffer(1), Arg::buffer(2), Arg::word(n)],
        )
    }
}

/// Elementwise BF16 add: `out[i] = a[i] + b[i]` for `i in [0, n)`.
pub fn add_bf16(a_len: usize, b_len: usize, out_len: usize, n: u32) -> (r: Result<Launch>)
    ensures
        plan::outcome(r) == add_bf16_plan(a_len as int, b_len as int, out_len as int, n as int),
        plan::launchable(r, 3),
{
    if n == 0 {
        return Text::new("n must be > 0").refuse();
    }
    if (a_len as u64) < (n as u64)
        || (b_len as u64) < (n as u64)
        || (out_len as u64) < (n as u64)
    {
        return Text::new("add_bf16: buffer too small (a=").n(a_len as u64).s(", b=").n(b_len as u64)
            .s(", out=").n(out_len as u64).s(", need ").n(n as u64).s(")").refuse();
    }
    let blocks: u32 = shape::greater_of(shape::lesser_of(shape::div_ceil(n, 256), 2048), 1);
    Ok(
        Launch::new(
            "add_bf16",
            "add_bf16",
            (blocks, 1, 1),
            (256, 1, 1),
            0,
            vec![Arg::param(0), Arg::param(1), Arg::param(2), Arg::Word(n)],
        ),
    )
}

/// The answer of [`f32_axpy`].
pub open spec fn f32_axpy_plan(out_len: int, src_len: int, alpha: F32, n: int) -> Plan {
    let blocks = shape::greater(shape::lesser(shape::ceil_div(n, 512), 2048), 1);
    if n == 0 {
        Plan::invalid("n must be > 0"@)
    } else if out_len < n || src_len < n {
        Plan::invalid(
            "f32_axpy: buffer too small (out="@ + text::decimal(out_len) + ", src="@
                + text::decimal(src_len) + ", need "@ + text::decimal(n) + ")"@,
        )
    } else {
        Plan::launch(
            "f32_axpy"@,
            "f32_axpy"@,
            (blocks, 1, 1),
            (256, 1, 1),
            0,
            seq![Arg::buffer(0), Arg::buffer(1), Arg::Scalar(alpha), Arg::word(n)],
        )
    }
}

/// Weighted F32 accumulate: `out[i] = out[i] + alpha * src[i]` for `i in [0, n)`.
pub fn f32_axpy(out_len: usize, src_len: usize, alpha: F32, n: u32) -> (r: Result<Launch>)
    ensures
        plan::outcome(r) == f32_axpy_plan(out_len as int, src_len as int, alpha, n as int),
        plan::launchable(r, 2),
{
    if n == 0 {
        return Text::new("n must be > 0").refuse();
    }
    if (out_len as u64) < (n as u64) || (src_len as u64) < (n as u64) {
        return Text::new("f32_axpy: buffer too small (out=").n(out_len as u64).s(", src=")
            .n(src_len as u64).s(", need ").n(n as u64).s(")").refuse();
    }
    let blocks: u32 = shape::greater_of(shape::lesser_of(shape::div_ceil(n, 256 * 2), 2048), 1);
    Ok(
        Launch::new(
            "f32_axpy",
            "f32_axpy",
            (blocks, 1, 1),
            (256, 1, 1),
            0,
            vec![Arg::param(0), Arg::param(1), Arg::Scalar(alpha), Arg::Word(n)],
        ),
    )
}

/// The answer of [`f32_weighted_sum_to_bf16`].
pub open spec fn f32_weighted_sum_to_bf16_plan(
    in_f32_len: int, weights_len: int, out_bf16_len: int, num_rows: int, n: int,
) -> Plan {
    let blocks = shape::greater(shape::ceil_div(n, 256), 1);
    if num_rows == 0 || n == 0 {
        Plan::invalid("dims must be > 0"@)
    } else if in_f32_len < num_rows * n {
        Plan::invalid("in_f32 too small"@)
    } else if weights_len < num_rows {
        Plan::invalid("weights too small"@)
    } else if out_bf16_len < n {
        Plan::invalid("out too small"@)
    } else {
        Plan::launch(
            "f32_weighted_sum_to_bf16"@,
            "f32_weighted_sum_to_bf16"@,
            (blocks, 1, 1),
            (256, 1, 1),
            0,
            seq![Arg::buffer(0), Arg::buffer(1), Arg::buffer(2), Arg::word(num_rows), Arg::word(n)],
        )
    }
}

/// Fused weighted column sum + BF16 cast: for each column j in `[0, n)`:
/// `out_bf16[j] = bf16( sum_{i=0..num_rows} weights[i] * in_f32[i, j] )`
pub fn f32_weighted_sum_to_bf16(
    in_f32_len: usize,
    weights_len: usize,
    out_bf16_len: usize,
    num_rows: u32,
    n: u32,
) -> (r: Result<Launch>)
    ensures
        plan::outcome(r) == f32_weighted_sum_to_bf16_plan(
            in_f32_len as int, weights_len as int, out_bf16_len as int, num_rows as int, n as int,
        ),
        plan::launchable(r, 3),
{
    if num_rows == 0 || n == 0 {
        return Text::new("dims must be > 0").refuse();
    }
    if (in_f32_len as u64) < shape::product(num_rows, n) {
        return Text::new("in_f32 too small").refuse();
    }
    if (weights_len as u64) < (num_rows as u64) {
        return Text::new("weights too small").refuse();
    }
    if (out_bf16_len as u64) < (n as u64) {
        return Text::new("out too small").refuse();
    }
    let blocks: u32 = shape::greater_of(shape::div_ceil(n, 256), 1);
    Ok(
        Launch::new(
            "f32_weighted_sum_to_bf16",
            "f32_weighted_sum_to_bf16",
            (blocks, 1, 1),
            (256, 1, 1),
            0,
            vec![Arg::param(0), Arg::param(1), Arg::param(2), Arg::Word(num_rows), Arg::Word(n)],
        ),
    )
}

/// The answer of [`f32_renormalize_topk`].
pub open spec fn f32_renormalize_topk_plan(w_len: int, n: int) -> Plan {
    if n == 0 || n > 16 {
        Plan::invalid("n must be in 1..=16, got "@ + text::decimal(n))
    } else if w_len < n {
        Plan::invalid("w buffer too small"@)
    } else {
        Plan::launch(
            "f32_renormalize_topk"@,
            "f32_renormalize_topk"@,
            (1, 1, 1),
            (1, 1, 1),
            0,
            seq![Arg::buffer(0), Arg::word(n)],
        )
    }
}

/// In-place divide by sum: w[i] /= sum(w) for i in 0..n.
pub fn f32_renormalize_topk(w_len: usize, n: u32) -> (r: Result<Launch>)
    ensures
        plan::outcome(r) == f32_renormalize_topk_plan(w_len as int, n as int),
        plan::launchable(r, 1),
{
    if n == 0 || n > 16 {
        return Text::new("n must be in 1..=16, got ").n(n as u64).refuse();
    }
    if (w_len as u64) < (n as u64) {
        return Text::new("w buffer too small").refuse();
    }
    Ok(
        Launch::new(
            "f32_renormalize_topk",
            "f32_renormalize_topk",
            (1, 1, 1),
            (1, 1, 1),
            0,
            vec![Arg::param(0), Arg::Word(n)],
        ),
    )
}

/// The answer of [`sigmoid_scalar_axpy_bf16`].
pub open spec fn sigmoid_scalar_axpy_bf16_plan(
    out_len: int, src_len: int, scalar_len: int, n: int,
) -> Plan {
    let blocks = shape::greater(shape::ceil_div(n, 256), 1);
    if n == 0 {
        Plan::invalid("n must be > 0"@)
    } else if out_len < n || src_len < n {
        Plan::invalid("out/src buffer too small"@)
    } else if scalar_len == 0 {
        Plan::invalid("scalar buffer empty"@)
    } else {
        Plan::launch(
            "sigmoid_scalar_axpy_bf16"@,
            "sigmoid_scalar_axpy_bf16"@,
            (blocks, 1, 1),
            (256, 1, 1),
            0,
            seq![Arg::buffer(0), Arg::buffer(1), Arg::buffer(2), Arg::word(n)],
        )
    }
}

/// In-place fused sigmoid-scalar AXPY in BF16:
/// `out[i] := out[i] + sigmoid(*scalar) * src[i]`
pub fn sigmoid_scalar_axpy_bf16(
    out_len: usize,
    src_len: usize,
    scalar_len: usize,
    n: u32,
) -> (r: Result<Launch>)
    ensures
        plan::outcome(r) == sigmoid_scalar_axpy_bf16_plan(
            out_len as int, src_len as int, scalar_len as int, n as int,
        ),
        plan::launchable(r, 3),
{
    if n == 0 {
        return Text::new("n must be > 0").refuse();
    }
    if (out_len as u64) < (n as u64) || (src_len as u64) < (n as u64) {
        return Text::new("out/src buffer too small").refuse();
    }
    if scalar_len == 0 {
        return Text::new("scalar buffer empty").refuse();
    }
    let blocks: u32 = shape::greater_of(shape::div_ceil(n, 256), 1);
    Ok(
        Launch::new(
            "sigmoid_scalar_axpy_bf16",
            "sigmoid_scalar_axpy_bf16",
            (blocks, 1, 1),
            (256, 1, 1),
            0,
            vec![Arg::param(0), Arg::param(1), Arg::param(2), Arg::Word(n)],
        ),
    )
}

/// The answer of [`f32_axpy_view`].
pub open spec fn f32_axpy_view_plan(out_len: int, src_len: int, alpha: F32, n: int) -> Plan {
    let blocks = shape::greater(shape::lesser(shape::ceil_div(n, 512), 2048), 1);
    if n == 0 {
        Plan::invalid("n must be > 0"@)
    } else if out_len < n || src_len < n {
        Plan::invalid(
            "f32_axpy_view: buffer too small (out="@ + text::decimal(out_len) + ", src="@
                + text::decimal(src_len) + ", need "@ + text::decimal(n) + ")"@,
        )
    } else {
        Plan::launch(
            "f32_axpy"@,
            "f32_axpy"@,
            (blocks, 1, 1),
            (256, 1, 1),
            0,
            seq![Arg::buffer(0), Arg::buffer(1), Arg::Scalar(alpha), Arg::word(n)],
        )
    }
}

/// View variant of `f32_axpy`: src can be a sub-view of a larger buffer (e.g.,
/// a single per-expert row of a `[num_active, n]` grouped GEMV output).
pub fn f32_axpy_view(out_len: usize, src_len: usize, alpha: F32, n: u32) -> (r: Result<Launch>)
    ensures
        plan::outcome(r) == f32_axpy_view_plan(out_len as int, src_len as int, alpha, n as int),
        plan::launchable(r, 2),
{
    if n == 0 {
        return Text::new("n must be > 0").refuse();
    }
    if (out_len as u64) < (n as u64) || (src_len as u64) < (n as u64) {
        return Text::new("f32_axpy_view: buffer too small (out=").n(out_len as u64).s(", src=")
            .n(src_len as u64).s(", need ").n(n as u64).s(")").refuse();
    }
    let blocks: u32 = shape::greater_of(shape::lesser_of(shape::div_ceil(n, 256 * 2), 2048), 1);
    Ok(
        Launch::new(
            "f32_axpy",
            "f32_axpy",
            (blocks, 1, 1),
            (256, 1, 1),
            0,
            vec![Arg::param(0), Arg::param(1), Arg::Scalar(alpha), Arg::Word(n)],
        ),
    )
}

/// The answer of [`bf16_axpy_host`].
pub open spec fn bf16_axpy_host_plan(out_inout_len: int, src_len: int, n: int, alpha: F32) -> Plan {
    let blocks = shape::greater(shape::lesser(shape::ceil_div(n, 256), 65535), 1);
    if n == 0 {
        Plan::invalid("n must be > 0"@)
    } else if out_inout_len < n || src_len < n {
        Plan::invalid(
            "bf16_axpy_host: buffer too small (out="@ + text::decimal(out_inout_len) + ", src="@
                + text::decimal(src_len) + ", need "@ + text::decimal(n) + ")"@,
        )
    } else {
        Plan::launch(
            "bf16_axpy_host"@,
            "bf16_axpy_host"@,
            (blocks, 1, 1),
            (256, 1, 1),
            0,
            seq![Arg::buffer(0), Arg::buffer(1), Arg::word(n), Arg::Scalar(alpha)],
        )
    }
}

/// In-place elementwise BF16 add: `out_inout[i] += src[i]` for `i in [0, n)`.
pub fn bf16_axpy_host(
    out_inout_len: usize,
    src_len: usize,
    n: u32,
    alpha: F32,
) -> (r: Result<Launch>)
    ensures
        plan::outcome(r) == bf16_axpy_host_plan(
            out_inout_len as int, src_len as int, n as int, alpha,
        ),
        plan::launchable(r, 2),
{
    if n == 0 {
        return Text::new("n must be > 0").refuse();
    }
    if (out_inout_len as u64) < (n as u64) || (src_len as u64) < (n as u64) {
        return Text::new("bf16_axpy_host: buffer too small (out=").n(out_inout_len as u64)
            .s(", src=").n(src_len as u64).s(", need ").n(n as u64).s(")").refuse();
    }
    let blocks: u32 = shape::greater_of(shape::lesser_of(shape::div_ceil(n, 256), 65535), 1);
    Ok(
        Launch::new(
            "bf16_axpy_host",
            "bf16_axpy_host",
            (blocks, 1, 1),
            (256, 1, 1),
            0,
            vec![Arg::param(0), Arg::param(1), Arg::Word(n), Arg::Scalar(alpha)],
        ),
    )
}

/// The answer of [`add_bf16_inplace`].
pub open spec fn add_bf16_inplace_plan(out_inout_len: int, src_len: int, n: int) -> Plan {
    let blocks = shape::greater(shape::lesser(shape::ceil_div(n, 256), 2048), 1);
    if n == 0 {
        Plan::invalid("n must be > 0"@)
    } else if out_inout_len < n || src_len < n {
        Plan::invalid(
            "add_bf16_inplace: buffer too small (out_inout="@ + text::decimal(out_inout_len)
                + ", src="@ + text::decimal(src_len) + ", need "@ + text::decimal(n) + ")"@,
        )
    } else {
        Plan::launch(
            "add_bf16"@,
            "add_bf16"@,
            (blocks, 1, 1),
            (256, 1, 1),
            0,
            seq![Arg::buffer(0), Arg::buffer(1), Arg::buffer(0), Arg::word(n)],
        )
    }
}

/// Element-wise BF16 add accumulating into `out_inout`: `out_inout[i] += src[i]`
/// for the first `n` elements. Used to fold a LoRA delta into a base activation.
pub fn add_bf16_inplace(out_inout_len: usize, src_len: usize, n: u32) -> (r: Result<Launch>)
    ensures
        plan::outcome(r) == add_bf16_inplace_plan(out_inout_len as int, src_len as int, n as int),
        plan::launchable(r, 2),
{
    if n == 0 {
        return Text::new("n must be > 0").refuse();
    }
    if (out_inout_len as u64) < (n as u64) || (src_len as u64) < (n as u64) {
        return Text::new("add_bf16_inplace: buffer too small (out_inout=").n(out_inout_len as u64)
            .s(", src=").n(src_len as u64).s(", need ").n(n as u64).s(")").refuse();
    }
    let blocks: u32 = shape::greater_of(shape::lesser_of(shape::div_ceil(n, 256), 2048), 1);
    Ok(
        Launch::new(
            "add_bf16",
            "add_bf16",
            (blocks, 1, 1),
            (256, 1, 1),
            0,
            vec![Arg::param(0), Arg::param(1), Arg::param(0), Arg::Word(n)],
        ),
    )
}

/// The answer of [`f32_to_bf16`].
pub open spec fn f32_to_bf16_plan(input_len: int, out_len: int, n: int) -> Plan {
    let blocks = shape::greater(shape::lesser(shape::ceil_div(n, 256), 2048), 1);
    if n == 0 {
        Plan::invalid("n must be > 0"@)
    } else if input_len < n || out_len < n {
        Plan::invalid(
            "f32_to_bf16: buffer too small (in="@ + text::decimal(input_len) + ", out="@
                + text::decimal(out_len) + ", need "@ + text::decimal(n) + ")"@,
        )
    } else {
        Plan::launch(
            "f32_to_bf16"@,
            "f32_to_bf16"@,
            (blocks, 1, 1),
            (256, 1, 1),
            0,
            seq![Arg::buffer(0), Arg::buffer(1), Arg::word(n)],
        )
    }
}

/// Elementwise cast F32 → BF16: `out[i] = bf16(in[i])`.
pub fn f32_to_bf16(input_len: usize, out_len: usize, n: u32) -> (r: Result<Launch>)
    ensures
        plan::outcome(r) == f32_to_bf16_plan(input_len as int, out_len as int, n as int),
        plan::launchable(r, 2),
{
    if n == 0 {
        return Text::new("n must be > 0").refuse();
    }
    if (input_len as u64) < (n as u64) || (out_len as u64) < (n as u64) {
        return Text::new("f32_to_bf16: buffer too small (in=").n(input_len as u64).s(", out=")
            .n(out_len as u64).s(", need ").n(n as u64).s(")").refuse();
    }
    let blocks: u32 = shape::greater_of(shape::lesser_of(shape::div_ceil(n, 256), 2048), 1);
    Ok(
        Launch::new(
            "f32_to_bf16",
            "f32_to_bf16",
            (blocks, 1, 1),
            (256, 1, 1),
            0,
            vec![Arg::param(0), Arg::param(1), Arg::Word(n)],
        ),
    )
}

/// The answer of [`broadcast_top_k_bf16`].
pub open spec fn broadcast_top_k_bf16_plan(
    input_len: int, out_len: int, m: int, top_k: int, hidden: int,
) -> Plan {
    let need_in = m * hidden;
    let need_out = m * top_k * hidden;
    let total_pairs = shape::low_word(need_out / 2);
    let blocks = shape::greater(shape::lesser(shape::ceil_div(total_pairs, 256), 2048), 1);
    if m == 0 || top_k == 0 || hidden == 0 {
        Plan::invalid("dims must be > 0"@)
    } else if hidden % 2 != 0 {
        Plan::invalid(
            "broadcast_top_k_bf16: hidden ("@ + text::decimal(hidden)
                + ") must be even (paired b32 stores)"@,
        )
    } else if need_out > u64::MAX {
        Plan::Undefined
    } else if input_len < need_in {
        Plan::invalid(
            "broadcast_top_k_bf16: input too small ("@ + text::decimal(input_len) + ", need "@
                + text::decimal(need_in) + ")"@,
        )
    } else if out_len < need_out {
        Plan::invalid(
            "broadcast_top_k_bf16: out too small ("@ + text::decimal(out_len) + ", need "@
                + text::decimal(need_out) + ")"@,
        )
    } else {
        Plan::launch(
            "broadcast_top_k_bf16"@,
            "broadcast_top_k_bf16"@,
            (blocks, 1, 1),
            (256, 1, 1),
            0,
            seq![Arg::buffer(0), Arg::buffer(1), Arg::word(m), Arg::word(top_k), Arg::word(hidden)],
        )
    }
}

/// Replicate `in [M, hidden]` along a new top_k axis: `out[j*top_k+k, :] = in[j, :]`.
/// Output is laid out flat as `[M*top_k, hidden]`. `hidden` must be even.
pub fn broadcast_top_k_bf16(
    input_len: usize,
    out_len: usize,
    m: u32,
    top_k: u32,
    hidden: u32,
) -> (r: Result<Launch>)
    requires
        broadcast_top_k_bf16_plan(
            input_len as int, out_len as int, m as int, top_k as int, hidden as int,
        ) !is Undefined,
    ensures
        plan::outcome(r) == broadcast_top_k_bf16_plan(
            input_len as int, out_len as int, m as int, top_k as int, hidden as int,
        ),
        plan::launchable(r, 2),
{
    if m == 0 || top_k == 0 || hidden == 0 {
        return Text::new("dims must be > 0").refuse();
    }
    if hidden % 2 != 0 {
        return Text::new("broadcast_top_k_bf16: hidden (").n(hidden as u64)
            .s(") must be even (paired b32 stores)").refuse();
    }
    let need_in: u64 = shape::product(m, hidden);
    let need_out: u64 = shape::product(m, top_k) * (hidden as u64);
    if (input_len as u64) < need_in {
        return Text::new("broadcast_top_k_bf16: input too small (").n(input_len as u64).s(", need ")
            .n(need_in).s(")").refuse();
    }
    if (out_len as u64) < need_out {
        return Text::new("broadcast_top_k_bf16: out too small (").n(out_len as u64).s(", need ")
            .n(need_out).s(")").refuse();
    }
    let total_pairs: u32 = shape::truncate(need_out / 2);
    let blocks: u32 = shape::greater_of(
        shape::lesser_of(shape::div_ceil(total_pairs, 256), 2048),
        1,
    );
    Ok(
        Launch::new(
            "broadcast_top_k_bf16",
            "broadcast_top_k_bf16",
            (blocks, 1, 1),
            (256, 1, 1),
            0,
            vec![Arg::param(0), Arg::param(1), Arg::Word(m), Arg::Word(top_k), Arg::Word(hidden)],
        ),
    )
}

/// The answer of [`bf16_to_f32`].
pub open spec fn bf16_to_f32_plan(input_len: int, out_len: int, n: int) -> Plan {
    let blocks = shape::greater(shape::lesser(shape::ceil_div(n, 256), 2048), 1);
    if n == 0 {
        Plan::invalid("n must be > 0"@)
    } else if input_len < n || out_len < n {
        Plan::invalid(
            "bf16_to_f32: buffer too small (in="@ + text::decimal(input_len) + ", out="@
                + text::decimal(out_len) + ", need "@ + text::decimal(n) + ")"@,
        )
    } else {
        Plan::launch(
            "bf16_to_f32"@,
            "bf16_to_f32"@,
            (blocks, 1, 1),
            (256, 1, 1),
            0,
            seq![Arg::buffer(0), Arg::buffer(1), Arg::word(n)],
        )
    }
}

/// Elementwise cast BF16 → F32: `out[i] = f32(in[i])`.
pub fn bf16_to_f32(input_len: usize, out_len: usize, n: u32) -> (r: Result<Launch>)
    ensures
        plan::outcome(r) == bf16_to_f32_plan(input_len as int, out_len as int, n as int),
        plan::launchable(r, 2),
{
    if n == 0 {
        return Text::new("n must be > 0").refuse();
    }
    if (input_len as u64) < (n as u64) || (out_len as u64) < (n as u64) {
        return Text::new("bf16_to_f32: buffer too small (in=").n(input_len as u64).s(", out=")
            .n(out_len as u64).s(", need ").n(n as u64).s(")").refuse();
    }
    let blocks: u32 = shape::greater_of(shape::lesser_of(shape::div_ceil(n, 256), 2048), 1);
    Ok(
        Launch::new(
            "bf16_to_f32",
            "bf16_to_f32",
            (blocks, 1, 1),
            (256, 1, 1),
            0,
            vec![Arg::param(0), Arg::param(1), Arg::Word(n)],
        ),
    )
}

/// The answer of [`gelu_mul_bf16`].
pub open spec fn gelu_mul_bf16_plan(
    input_len: int, out_len: int, total_out_elems: int, d: int,
) -> Plan {
    let num_blocks = vector2_blocks(total_out_elems, 256);
    if let Some(fault) = activation_args_fault(input_len, out_len, total_out_elems, d) {
        Plan::Fail(fault)
    } else {
        Plan::launch(
            "gelu_mul_bf16"@,
            "gelu_mul_bf16"@,
            (num_blocks, 1, 1),
            (256, 1, 1),
            0,
            seq![Arg::buffer(0), Arg::buffer(1), Arg::word(total_out_elems), Arg::word(d)],
        )
    }
}

/// Launch GeLU*mul BF16 kernel (tanh approximation, matches PyTorch default).
pub fn gelu_mul_bf16(
    input_len: usize,
    out_len: usize,
    total_out_elems: u32,
    d: u32,
) -> (r: Result<Launch>)
    ensures
        plan::outcome(r) == gelu_mul_bf16_plan(
            input_len as int, out_len as int, total_out_elems as int, d as int,
        ),
        plan::launchable(r, 2),
{
    if let Err(e) = validate_activation_args(input_len, out_len, total_out_elems, d) {
        return Err(e);
    }
    let num_blocks: u32 = vector2_grid(total_out_elems, 256);
    Ok(
        Launch::new(
            "gelu_mul_bf16",
            "gelu_mul_bf16",
            (num_blocks, 1, 1),
            (256, 1, 1),
            0,
            vec![Arg::param(0), Arg::param(1), Arg::Word(total_out_elems), Arg::Word(d)],
        ),
    )
}

/// The answer of [`gelu_tanh_mul_bf16`].
pub open spec fn gelu_tanh_mul_bf16_plan(
    input_len: int, out_len: int, total_out_elems: int, d: int,
) -> Plan {
    let num_blocks = vector2_blocks(total_out_elems, 256);
    if let Some(fault) = activation_args_fault(input_len, out_len, total_out_elems, d) {
        Plan::Fail(fault)
    } else {
        Plan::launch(
            "gelu_tanh_mul_bf16"@,
            "gelu_tanh_mul_bf16"@,
            (num_blocks, 1, 1),
            (256, 1, 1),
            0,
            seq![Arg::buffer(0), Arg::buffer(1), Arg::word(total_out_elems), Arg::word(d)],
        )
    }
}

/// Launch GeLU-tanh*mul BF16 kernel (explicit tanh approximation).
pub fn gelu_tanh_mul_bf16(
    input_len: usize,
    out_len: usize,
    total_out_elems: u32,
    d: u32,
) -> (r: Result<Launch>)
    ensures
        plan::outcome(r) == gelu_tanh_mul_bf16_plan(
            input_len as int, out_len as int, total_out_elems as int, d as int,
        ),
        plan::launchable(r, 2),
{
    if let Err(e) = validate_activation_args(input_len, out_len, total_out_elems, d) {
        return Err(e);
    }
    let num_blocks: u32 = vector2_grid(total_out_elems, 256);
    Ok(
        Launch::new(
            "gelu_tanh_mul_bf16",
            "gelu_tanh_mul_bf16",
            (num_blocks, 1, 1),
            (256, 1, 1),
            0,
            vec![Arg::param(0), Arg::param(1), Arg::Word(total_out_elems), Arg::Word(d)],
        ),
    )
}

/// The answer of [`batched_split_3way_bf16`].
pub open spec fn batched_split_3way_bf16_plan(
    src_len: int, dst0_len: int, dst1_len: int, dst2_len: int, n1: int, n2: int, n3: int,
    batch_m: int,
) -> Plan {
    let total = n1 + n2 + n3;
    let m = batch_m;
    let grid_x = shape::ceil_div(total, 128);
    if n1 == 0 || n2 == 0 || n3 == 0 || batch_m == 0 {
        Plan::invalid("dims must be > 0"@)
    } else if n1 + n2 > u32::MAX || total > u32::MAX {
        Plan::Undefined
    } else if src_len < m * total {
        Plan::invalid("src buffer too small"@)
    } else if dst0_len < m * n1 || dst1_len < m * n2 || dst2_len < m * n3 {
        Plan::invalid("dst buffer too small"@)
    } else {
        Plan::launch(
            "batched_split_3way_bf16"@,
            "batched_split_3way_bf16"@,
            (grid_x, batch_m, 1),
            (128, 1, 1),
            0,
            seq![
                Arg::buffer(0), Arg::buffer(1), Arg::buffer(2), Arg::buffer(3), Arg::word(n1),
                Arg::word(n2), Arg::word(n3),
            ],
        )
    }
}

/// De-interleave GDN-hybrid gated-attention Q-projection output.
pub fn batched_split_3way_bf16(
    src_len: usize,
    dst0_len: usize,
    dst1_len: usize,
    dst2_len: usize,
    n1: u32,
    n2: u32,
    n3: u32,
    batch_m: u32,
) -> (r: Result<Launch>)
    requires
        batched_split_3way_bf16_plan(
            src_len as int, dst0_len as int, dst1_len as int, dst2_len as int, n1 as int, n2 as int,
            n3 as int, batch_m as int,
        ) !is Undefined,
    ensures
        plan::outcome(r) == batched_split_3way_bf16_plan(
            src_len as int, dst0_len as int, dst1_len as int, dst2_len as int, n1 as int, n2 as int,
            n3 as int, batch_m as int,
        ),
        plan::launchable(r, 4),
{
    if n1 == 0 || n2 == 0 || n3 == 0 || batch_m == 0 {
        return Text::new("dims must be > 0").refuse();
    }
    let total: u32 = n1 + n2 + n3;
    if (src_len as u64) < shape::product(batch_m, total) {
        return Text::new("src buffer too small").refuse();
    }
    if (dst0_len as u64) < shape::product(batch_m, n1)
        || (dst1_len as u64) < shape::product(batch_m, n2)
        || (dst2_len as u64) < shape::product(batch_m, n3)
    {
        return Text::new("dst buffer too small").refuse();
    }
    let grid_x: u32 = shape::div_ceil(total, 128);
    Ok(
        Launch::new(
            "batched_split_3way_bf16",
            "batched_split_3way_bf16",
            (grid_x, batch_m, 1),
            (128, 1, 1),
            0,
            vec![
                Arg::param(0), Arg::param(1), Arg::param(2), Arg::param(3), Arg::Word(n1),
                Arg::Word(n2), Arg::Word(n3),
            ],
        ),
    )
}

/// The answer of [`split_q_gate_bf16`].
pub open spec fn split_q_gate_bf16_plan(
    q_full_len: int, q_only_len: int, gate_len: int, num_heads: int, head_dim: int,
) -> Plan {
    let need = num_heads * head_dim;
    if num_heads == 0 || head_dim == 0 {
        Plan::invalid("dims must be > 0"@)
    } else if need > u32::MAX {
        Plan::Undefined
    } else if q_full_len < 2 * need || q_only_len < need || gate_len < need {
        Plan::invalid("split_q_gate buffer too small"@)
    } else {
        Plan::launch(
            "split_q_gate_bf16"@,
            "split_q_gate_bf16"@,
            (num_heads, 1, 1),
            (head_dim, 1, 1),
            0,
            seq![Arg::buffer(0), Arg::buffer(1), Arg::buffer(2), Arg::word(head_dim)],
        )
    }
}

/// Split an interleaved `[num_heads, 2 * head_dim]` BF16 tensor into separate
/// query and gate halves: per head the first `head_dim` lanes go to `q_only`
/// and the next `head_dim` lanes go to `gate`. Used to unpack GatedDeltaNet
/// fused query+gate projections.
pub fn split_q_gate_bf16(
    q_full_len: usize,
    q_only_len: usize,
    gate_len: usize,
    num_heads: u32,
    head_dim: u32,
) -> (r: Result<Launch>)
    requires
        split_q_gate_bf16_plan(
            q_full_len as int, q_only_len as int, gate_len as int, num_heads as int,
            head_dim as int,
        ) !is Undefined,
    ensures
        plan::outcome(r) == split_q_gate_bf16_plan(
            q_full_len as int, q_only_len as int, gate_len as int, num_heads as int,
            head_dim as int,
        ),
        head_dim <= 1024 ==> plan::launchable(r, 3),
{
    if num_heads == 0 || head_dim == 0 {
        return Text::new("dims must be > 0").refuse();
    }
    let need: u64 = (num_heads * head_dim) as u64;
    if (q_full_len as u64) < 2 * need || (q_only_len as u64) < need || (gate_len as u64) < need {
        return Text::new("split_q_gate buffer too small").refuse();
    }
    Ok(
        Launch::new(
            "split_q_gate_bf16",
            "split_q_gate_bf16",
            (num_heads, 1, 1),
            (head_dim, 1, 1),
            0,
            vec![Arg::param(0), Arg::param(1), Arg::param(2), Arg::Word(head_dim)],
        ),
    )
}

/// The answer of [`attn_output_gate_inplace`].
pub open spec fn attn_output_gate_inplace_plan(
    attn_out_len: int, gate_logits_len: int, num_tokens: int, hidden_dim: int,
) -> Plan {
    let need = num_tokens * hidden_dim;
    if num_tokens == 0 || hidden_dim == 0 {
        Plan::invalid("dims must be > 0"@)
    } else if need > u32::MAX {
        Plan::Undefined
    } else if attn_out_len < need || gate_logits_len < need {
        Plan::invalid("attn_out/gate buffer too small"@)
    } else {
        Plan::raw_launch(
            "attn_output_gate"@,
            "attn_output_gate"@,
            (num_tokens, 1, 1),
            (128, 1, 1),
            0,
            Seq::empty(),
            seq![Arg::buffer(0), Arg::buffer(1), Arg::buffer(0), Arg::word(hidden_dim)],
            None,
            "attn_output_gate_inplace: "@,
        )
    }
}

/// In-place variant of `attn_output_gate`: `attn_out *= sigmoid(gate_logits)`.
/// Each thread reads its own slot of attn_out + gate_logits and writes back to
/// the same slot — alias-safe because no thread reads another thread's output.
pub fn attn_output_gate_inplace(
    attn_out_len: usize,
    gate_logits_len: usize,
    num_tokens: u32,
    hidden_dim: u32,
) -> (r: Result<Launch>)
    requires
        attn_output_gate_inplace_plan(
            attn_out_len as int, gate_logits_len as int, num_tokens as int, hidden_dim as int,
        ) !is Undefined,
    ensures
        plan::outcome(r) == attn_output_gate_inplace_plan(
            attn_out_len as int, gate_logits_len as int, num_tokens as int, hidden_dim as int,
        ),
        plan::launchable(r, 2),
{
    if num_tokens == 0 || hidden_dim == 0 {
        return Text::new("dims must be > 0").refuse();
    }
    let need: u64 = (num_tokens * hidden_dim) as u64;
    if (attn_out_len as u64) < need || (gate_logits_len as u64) < need {
        return Text::new("attn_out/gate buffer too small").refuse();
    }
    Ok(
        Launch::raw(
            "attn_output_gate",
            "attn_output_gate",
            (num_tokens, 1, 1),
            (128, 1, 1),
            0,
            Vec::new(),
            vec![Arg::param(0), Arg::param(1), Arg::param(0), Arg::Word(hidden_dim)],
            None,
            Text::new("attn_output_gate_inplace: "),
        ),
    )
}

/// The answer of [`attn_output_gate`].
pub open spec fn attn_output_gate_plan(
    attn_out_len: int, gate_logits_len: int, out_len: int, num_tokens: int, hidden_dim: int,
) -> Plan {
    if num_tokens == 0 || hidden_dim == 0 {
        Plan::invalid("dims must be > 0"@)
    } else {
        Plan::launch(
            "attn_output_gate"@,
            "attn_output_gate"@,
            (num_tokens, 1, 1),
            (128, 1, 1),
            0,
            seq![Arg::buffer(0), Arg::buffer(1), Arg::buffer(2), Arg::word(hidden_dim)],
        )
    }
}

/// GDN-hybrid Gated Attention output gate: y = attn_out * sigmoid(gate_logits).
/// Fuses sigmoid + multiply into one pass, avoiding the intermediate allocation.
pub fn attn_output_gate(
    attn_out_len: usize,
    gate_logits_len: usize,
    out_len: usize,
    num_tokens: u32,
    hidden_dim: u32,
) -> (r: Result<Launch>)
    ensures
        plan::outcome(r) == attn_output_gate_plan(
            attn_out_len as int, gate_logits_len as int, out_len as int, num_tokens as int,
            hidden_dim as int,
        ),
        plan::launchable(r, 3),
{
    if num_tokens == 0 || hidden_dim == 0 {
        return Text::new("dims must be > 0").refuse();
    }
    Ok(
        Launch::new(
            "attn_output_gate",
            "attn_output_gate",
            (num_tokens, 1, 1),
            (128, 1, 1),
            0,
            vec![Arg::param(0), Arg::param(1), Arg::param(2), Arg::Word(hidden_dim)],
        ),
    )
}

/// The answer of [`attn_output_gate_backward_bf16`].
pub open spec fn attn_output_gate_backward_bf16_plan(
    attn_out_len: int, gate_logits_len: int, dy_len: int, da_len: int, dg_len: int, num_tokens: int,
    hidden_dim: int,
) -> Plan {
    let need = num_tokens * hidden_dim;
    if num_tokens == 0 || hidden_dim == 0 {
        Plan::invalid("dims must be > 0"@)
    } else if need > u32::MAX {
        Plan::Undefined
    } else if attn_out_len < need
        || gate_logits_len < need
        || dy_len < need
        || da_len < need
        || dg_len < need
    {
        Plan::invalid("attn_output_gate_backward: one or more buffers too small"@)
    } else {
        Plan::launch(
            "attn_output_gate_backward_bf16"@,
            "attn_output_gate_backward_bf16"@,
            (num_tokens, 1, 1),
            (128, 1, 1),
            0,
            seq![
                Arg::buffer(0), Arg::buffer(1), Arg::buffer(2), Arg::buffer(3), Arg::buffer(4),
                Arg::word(hidden_dim),
            ],
        )
    }
}

/// Backward for `attn_output_gate` (9B GDN-hybrid / GDN-hybrid hybrid attention layer).
pub fn attn_output_gate_backward_bf16(
    attn_out_len: usize,
    gate_logits_len: usize,
    dy_len: usize,
    da_len: usize,
    dg_len: usize,
    num_tokens: u32,
    hidden_dim: u32,
) -> (r: Result<Launch>)
    requires
        attn_output_gate_backward_bf16_plan(
            attn_out_len as int, gate_logits_len as int, dy_len as int, da_len as int,
            dg_len as int, num_tokens as int, hidden_dim as int,
        ) !is Undefined,
    ensures
        plan::outcome(r) == attn_output_gate_backward_bf16_plan(
            attn_out_len as int, gate_logits_len as int, dy_len as int, da_len as int,
            dg_len as int, num_tokens as int, hidden_dim as int,
        ),
        plan::launchable(r, 5),
{
    if num_tokens == 0 || hidden_dim == 0 {
        return Text::new("dims must be > 0").refuse();
    }
    let need: u64 = (num_tokens * hidden_dim) as u64;
    if (attn_out_len as u64) < need
        || (gate_logits_len as u64) < need
        || (dy_len as u64) < need
        || (da_len as u64) < need
        || (dg_len as u64) < need
    {
        return Text::new("attn_output_gate_backward: one or more buffers too small").refuse();
    }
    Ok(
        Launch::new(
            "attn_output_gate_backward_bf16",
            "attn_output_gate_backward_bf16",
            (num_tokens, 1, 1),
            (128, 1, 1),
            0,
            vec![
                Arg::param(0), Arg::param(1), Arg::param(2), Arg::param(3), Arg::param(4),
                Arg::Word(hidden_dim),
            ],
        ),
    )
}

/// The blocks of a kernel that handles two elements per thread cover all elements, and without
/// the last block they do not, unless there is one block only.
pub proof fn vector2_blocks_cover(n: int, threads: int)
    requires
        n >= 0,
        threads > 0,
    ensures
        vector2_blocks(n, threads) >= 1,
        vector2_blocks(n, threads) * (threads * 2) >= n,
        vector2_blocks(n, threads) == 1 || (vector2_blocks(n, threads) - 1) * (threads * 2) < n,
{
    shape::lemma_ceil_div(n, threads * 2);
    let q = shape::ceil_div(n, threads * 2);
    let w = threads * 2;
    assert((q - 1) * w == q * w - w) by (nonlinear_arith);
    if q < 1 {
        assert(q == 0);
        assert(q * w == 0) by (nonlinear_arith)
            requires
                q == 0,
        ;
    }
}

} // verus!
