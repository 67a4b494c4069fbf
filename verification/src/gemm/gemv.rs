//! Matrix-vector products for decoding.
use crate::error::Result;
use crate::plan::{Arg, F32, Launch, Plan};
use crate::plan;
use crate::shape;
use crate::text::Text;
use crate::text;
use vstd::prelude::*;

verus! {

/// Most rows that the batched split-K kernel takes.
pub const SPLIT_K_DET_MAX_M: u32 = 8;

/// The answer of [`gemv_bf16`].
pub open spec fn gemv_bf16_plan(x_len: int, b_len: int, out_len: int, n: int, k: int) -> Plan {
    let smem_bytes = k * 2;
    let blocks = shape::ceil_div(n, 256);
    if n == 0 || k == 0 {
        Plan::invalid("n and k must be > 0"@)
    } else if x_len < k {
        Plan::invalid("gemv: x too small "@ + text::decimal(x_len) + " < "@ + text::decimal(k))
    } else if b_len < k * n {
        Plan::invalid("gemv: b too small "@ + text::decimal(b_len) + " < "@ + text::decimal(k * n))
    } else if out_len < n {
        Plan::invalid("gemv: out too small "@ + text::decimal(out_len) + " < "@ + text::decimal(n))
    } else if smem_bytes > 96 * 1024 {
        Plan::invalid(
            "gemv: K="@ + text::decimal(k) + " exceeds SMEM budget (96 KB / 2 = 49152 elements)"@,
        )
    } else {
        Plan::launch(
            "gemv_bf16"@,
            "gemv_bf16"@,
            (blocks, 1, 1),
            (256, 1, 1),
            smem_bytes,
            seq![Arg::buffer(0), Arg::buffer(1), Arg::buffer(2), Arg::word(n), Arg::word(k)],
        )
    }
}

/// Launch BF16 GEMV kernel: out[N] = x[K] @ B[K, N].
pub fn gemv_bf16(x_len: usize, b_len: usize, out_len: usize, n: u32, k: u32) -> (r: Result<Launch>)
    ensures
        plan::outcome(r) == gemv_bf16_plan(
            x_len as int, b_len as int, out_len as int, n as int, k as int,
        ),
        plan::launchable(r, 3),
{
    if n == 0 || k == 0 {
        return Text::new("n and k must be > 0").refuse();
    }
    if (x_len as u64) < (k as u64) {
        return Text::new("gemv: x too small ").n(x_len as u64).s(" < ").n(k as u64).refuse();
    }
    if (b_len as u64) < shape::product(k, n) {
        return Text::new("gemv: b too small ").n(b_len as u64).s(" < ").n(shape::product(k, n))
            .refuse();
    }
    if (out_len as u64) < (n as u64) {
        return Text::new("gemv: out too small ").n(out_len as u64).s(" < ").n(n as u64).refuse();
    }
    let smem_bytes: u64 = k as u64 * 2;
    if smem_bytes > 96 * 1024 {
        return Text::new("gemv: K=").n(k as u64)
            .s(" exceeds SMEM budget (96 KB / 2 = 49152 elements)").refuse();
    }
    let blocks: u32 = shape::div_ceil(n, 256);
    Ok(
        Launch::new(
            "gemv_bf16",
            "gemv_bf16",
            (blocks, 1, 1),
            (256, 1, 1),
            smem_bytes as u32,
            vec![Arg::param(0), Arg::param(1), Arg::param(2), Arg::Word(n), Arg::Word(k)],
        ),
    )
}

/// The answer of [`gemv_bf16_v2`].
pub open spec fn gemv_bf16_v2_plan(x_len: int, b_len: int, out_len: int, n: int, k: int) -> Plan {
    let smem_bytes = k * 2;
    let blocks = shape::ceil_div(n, 1024);
    if n == 0 || k == 0 {
        Plan::invalid("n and k must be > 0"@)
    } else if n % 8 != 0 {
        Plan::invalid("gemv_v2 requires N divisible by 8, got "@ + text::decimal(n))
    } else if smem_bytes > 96 * 1024 {
        Plan::invalid("gemv_v2: K="@ + text::decimal(k) + " exceeds SMEM budget"@)
    } else if x_len < k || b_len < k * n || out_len < n {
        Plan::invalid("gemv_v2: buffer sizes"@)
    } else {
        Plan::launch(
            "gemv_bf16_v2"@,
            "gemv_bf16_v2"@,
            (blocks, 1, 1),
            (128, 1, 1),
            smem_bytes,
            seq![Arg::buffer(0), Arg::buffer(1), Arg::buffer(2), Arg::word(n), Arg::word(k)],
        )
    }
}

/// Launch BF16 GEMV v2: each thread holds 8 column accumulators in registers
/// and does 8 independent FMAs per K-iteration, raising ILP from v1's 1 to 8.
pub fn gemv_bf16_v2(
    x_len: usize,
    b_len: usize,
    out_len: usize,
    n: u32,
    k: u32,
) -> (r: Result<Launch>)
    ensures
        plan::outcome(r) == gemv_bf16_v2_plan(
            x_len as int, b_len as int, out_len as int, n as int, k as int,
        ),
        plan::launchable(r, 3),
{
    if n == 0 || k == 0 {
        return Text::new("n and k must be > 0").refuse();
    }
    if n % 8 != 0 {
        return Text::new("gemv_v2 requires N divisible by 8, got ").n(n as u64).refuse();
    }
    let smem_bytes: u64 = k as u64 * 2;
    if smem_bytes > 96 * 1024 {
        return Text::new("gemv_v2: K=").n(k as u64).s(" exceeds SMEM budget").refuse();
    }
    if (x_len as u64) < (k as u64)
        || (b_len as u64) < shape::product(k, n)
        || (out_len as u64) < (n as u64)
    {
        return Text::new("gemv_v2: buffer sizes").refuse();
    }
    let blocks: u32 = shape::div_ceil(n, 1024);
    Ok(
        Launch::new(
            "gemv_bf16_v2",
            "gemv_bf16_v2",
            (blocks, 1, 1),
            (128, 1, 1),
            smem_bytes as u32,
            vec![Arg::param(0), Arg::param(1), Arg::param(2), Arg::Word(n), Arg::Word(k)],
        ),
    )
}

/// The answer of [`gemv_w4a16_nvfp4_split_k`].
pub open spec fn gemv_w4a16_nvfp4_split_k_plan(
    x_len: int, b_packed_len: int, b_scales_len: int, out_f32_len: int, n: int, k: int,
    num_shards: int,
) -> Plan {
    let k_shard = shape::ceil_div(k, num_shards);
    let smem_bytes = k_shard * 2;
    let need_packed = k * (n / 2);
    let need_scales = k * (n / 16);
    let n_blocks = shape::ceil_div(n, 1024);
    if n == 0 || k == 0 || num_shards == 0 {
        Plan::invalid("dims must be > 0"@)
    } else if n % 16 != 0 {
        Plan::invalid(
            "gemv_w4a16_nvfp4_split_k requires N divisible by 16, got "@ + text::decimal(n),
        )
    } else if smem_bytes > 96 * 1024 {
        Plan::invalid("gemv_w4a16: k_shard="@ + text::decimal(k_shard) + " exceeds SMEM budget"@)
    } else if x_len < k
        || b_packed_len < need_packed
        || b_scales_len < need_scales
        || out_f32_len < n
    {
        Plan::invalid(
            "buffer sizes (need packed="@ + text::decimal(need_packed) + " scales="@
                + text::decimal(need_scales) + ")"@,
        )
    } else {
        Plan::launch(
            "gemv_w4a16_nvfp4_split_k"@,
            "gemv_w4a16_nvfp4_split_k"@,
            (n_blocks, num_shards, 1),
            (128, 1, 1),
            smem_bytes,
            seq![
                Arg::buffer(0), Arg::buffer(1), Arg::buffer(2), Arg::buffer(3), Arg::word(n),
                Arg::word(k), Arg::word(k_shard),
            ],
        )
    }
}

/// W4A16 NVFP4 GEMV with split-K: BF16 activations × NVFP4 weights →
/// F32 accumulator. NVFP4 = FP4 e2m1 with 16-elem blocks along N and FP8
/// e4m3 per-block scales. Halves weight HBM bandwidth vs W8A16.
///
/// `b_packed`: `[K, N/2]` u8 (packed FP4)
/// `b_scales`: `[K, N/16]` u8 (FP8 e4m3 per-block scales)
/// Caller must zero `out_f32` before the launch.
pub fn gemv_w4a16_nvfp4_split_k(
    x_len: usize,
    b_packed_len: usize,
    b_scales_len: usize,
    out_f32_len: usize,
    n: u32,
    k: u32,
    num_shards: u32,
) -> (r: Result<Launch>)
    ensures
        plan::outcome(r) == gemv_w4a16_nvfp4_split_k_plan(
            x_len as int, b_packed_len as int, b_scales_len as int, out_f32_len as int, n as int,
            k as int, num_shards as int,
        ),
        plan::launchable(r, 4),
{
    if n == 0 || k == 0 || num_shards == 0 {
        return Text::new("dims must be > 0").refuse();
    }
    if n % 16 != 0 {
        return Text::new("gemv_w4a16_nvfp4_split_k requires N divisible by 16, got ").n(n as u64)
            .refuse();
    }
    let k_shard: u32 = shape::div_ceil(k, num_shards);
    let smem_bytes: u64 = k_shard as u64 * 2;
    if smem_bytes > 96 * 1024 {
        return Text::new("gemv_w4a16: k_shard=").n(k_shard as u64).s(" exceeds SMEM budget")
            .refuse();
    }
    let need_packed: u64 = shape::product(k, n / 2);
    let need_scales: u64 = shape::product(k, n / 16);
    if (x_len as u64) < (k as u64)
        || (b_packed_len as u64) < need_packed
        || (b_scales_len as u64) < need_scales
        || (out_f32_len as u64) < (n as u64)
    {
        return Text::new("buffer sizes (need packed=").n(need_packed).s(" scales=").n(need_scales)
            .s(")").refuse();
    }
    let n_blocks: u32 = shape::div_ceil(n, 1024);
    Ok(
        Launch::new(
            "gemv_w4a16_nvfp4_split_k",
            "gemv_w4a16_nvfp4_split_k",
            (n_blocks, num_shards, 1),
            (128, 1, 1),
            smem_bytes as u32,
            vec![
                Arg::param(0), Arg::param(1), Arg::param(2), Arg::param(3), Arg::Word(n),
                Arg::Word(k), Arg::Word(k_shard),
            ],
        ),
    )
}

/// The answer of [`gemv_w4a16_nvfp4_split_k_det`].
pub open spec fn gemv_w4a16_nvfp4_split_k_det_plan(
    x_len: int, b_packed_len: int, b_scales_len: int, stage_f32_len: int, n: int, k: int,
    num_shards: int,
) -> Plan {
    let k_shard = shape::ceil_div(k, num_shards);
    let smem_bytes = k_shard * 2;
    let need = num_shards * n;
    let n_blocks = shape::ceil_div(n, 1024);
    if n % 16 != 0 {
        Plan::invalid(
            "gemv_w4a16_nvfp4_split_k_det requires N divisible by 16, got "@ + text::decimal(n),
        )
    } else if num_shards == 0 {
        Plan::Undefined
    } else if smem_bytes > 96 * 1024 {
        Plan::invalid(
            "gemv_w4a16_det: k_shard="@ + text::decimal(k_shard) + " exceeds SMEM budget"@,
        )
    } else if stage_f32_len < need {
        Plan::invalid(
            "gemv_w4a16_det stage too small: "@ + text::decimal(stage_f32_len) + " < "@
                + text::decimal(need),
        )
    } else {
        Plan::launch(
            "gemv_w4a16_nvfp4_split_k_det"@,
            "gemv_w4a16_nvfp4_split_k_det"@,
            (n_blocks, num_shards, 1),
            (128, 1, 1),
            smem_bytes,
            seq![
                Arg::buffer(0), Arg::buffer(1), Arg::buffer(2), Arg::buffer(3), Arg::word(n),
                Arg::word(k), Arg::word(k_shard),
            ],
        )
    }
}

/// Deterministic NVFP4 GEMV: writes per-shard partials, to be paired with
/// `f32_shard_reduce_to_bf16`. The blocks are laid out as in `gemv_w4a16_nvfp4_split_k`.
pub fn gemv_w4a16_nvfp4_split_k_det(
    x_len: usize,
    b_packed_len: usize,
    b_scales_len: usize,
    stage_f32_len: usize,
    n: u32,
    k: u32,
    num_shards: u32,
) -> (r: Result<Launch>)
    requires
        gemv_w4a16_nvfp4_split_k_det_plan(
            x_len as int, b_packed_len as int, b_scales_len as int, stage_f32_len as int, n as int,
            k as int, num_shards as int,
        ) !is Undefined,
    ensures
        plan::outcome(r) == gemv_w4a16_nvfp4_split_k_det_plan(
            x_len as int, b_packed_len as int, b_scales_len as int, stage_f32_len as int, n as int,
            k as int, num_shards as int,
        ),
        n > 0 ==> plan::launchable(r, 4),
{
    if n % 16 != 0 {
        return Text::new("gemv_w4a16_nvfp4_split_k_det requires N divisible by 16, got ")
            .n(n as u64).refuse();
    }
    let k_shard: u32 = shape::div_ceil(k, num_shards);
    let smem_bytes: u64 = k_shard as u64 * 2;
    if smem_bytes > 96 * 1024 {
        return Text::new("gemv_w4a16_det: k_shard=").n(k_shard as u64).s(" exceeds SMEM budget")
            .refuse();
    }
    let need: u64 = shape::product(num_shards, n);
    if (stage_f32_len as u64) < need {
        return Text::new("gemv_w4a16_det stage too small: ").n(stage_f32_len as u64).s(" < ")
            .n(need).refuse();
    }
    let n_blocks: u32 = shape::div_ceil(n, 128 * 8);
    Ok(
        Launch::new(
            "gemv_w4a16_nvfp4_split_k_det",
            "gemv_w4a16_nvfp4_split_k_det",
            (n_blocks, num_shards, 1),
            (128, 1, 1),
            smem_bytes as u32,
            vec![
                Arg::param(0), Arg::param(1), Arg::param(2), Arg::param(3), Arg::Word(n),
                Arg::Word(k), Arg::Word(k_shard),
            ],
        ),
    )
}

/// The answer of [`gemv_w8a16_split_k`].
pub open spec fn gemv_w8a16_split_k_plan(
    x_len: int, b_fp8_len: int, b_scale: F32, out_f32_len: int, n: int, k: int, num_shards: int,
) -> Plan {
    let k_shard = shape::ceil_div(k, num_shards);
    let smem_bytes = k_shard * 2;
    let n_blocks = shape::ceil_div(n, 1024);
    if n == 0 || k == 0 || num_shards == 0 {
        Plan::invalid("dims must be > 0"@)
    } else if n % 8 != 0 {
        Plan::invalid("gemv_w8a16_split_k requires N divisible by 8, got "@ + text::decimal(n))
    } else if smem_bytes > 96 * 1024 {
        Plan::invalid(
            "gemv_w8a16_split_k: k_shard="@ + text::decimal(k_shard) + " exceeds SMEM budget"@,
        )
    } else if x_len < k || b_fp8_len < k * n || out_f32_len < n {
        Plan::invalid("buffer sizes"@)
    } else {
        Plan::launch(
            "gemv_w8a16_split_k"@,
            "gemv_w8a16_split_k"@,
            (n_blocks, num_shards, 1),
            (128, 1, 1),
            smem_bytes,
            seq![
                Arg::buffer(0), Arg::buffer(1), Arg::buffer(2), Arg::Scalar(b_scale), Arg::word(n),
                Arg::word(k), Arg::word(k_shard),
            ],
        )
    }
}

/// W8A16 GEMV with split-K: BF16 activations × FP8 e4m3 weights → F32
/// accumulator (cast to BF16 separately). Halves weight HBM bandwidth vs
/// `gemv_bf16_split_k`.
pub fn gemv_w8a16_split_k(
    x_len: usize,
    b_fp8_len: usize,
    b_scale: F32,
    out_f32_len: usize,
    n: u32,
    k: u32,
    num_shards: u32,
) -> (r: Result<Launch>)
    ensures
        plan::outcome(r) == gemv_w8a16_split_k_plan(
            x_len as int, b_fp8_len as int, b_scale, out_f32_len as int, n as int, k as int,
            num_shards as int,
        ),
        plan::launchable(r, 3),
{
    if n == 0 || k == 0 || num_shards == 0 {
        return Text::new("dims must be > 0").refuse();
    }
    if n % 8 != 0 {
        return Text::new("gemv_w8a16_split_k requires N divisible by 8, got ").n(n as u64).refuse();
    }
    let k_shard: u32 = shape::div_ceil(k, num_shards);
    let smem_bytes: u64 = k_shard as u64 * 2;
    if smem_bytes > 96 * 1024 {
        return Text::new("gemv_w8a16_split_k: k_shard=").n(k_shard as u64).s(" exceeds SMEM budget")
            .refuse();
    }
    if (x_len as u64) < (k as u64)
        || (b_fp8_len as u64) < shape::product(k, n)
        || (out_f32_len as u64) < (n as u64)
    {
        return Text::new("buffer sizes").refuse();
    }
    let n_blocks: u32 = shape::div_ceil(n, 1024);
    Ok(
        Launch::new(
            "gemv_w8a16_split_k",
            "gemv_w8a16_split_k",
            (n_blocks, num_shards, 1),
            (128, 1, 1),
            smem_bytes as u32,
            vec![
                Arg::param(0), Arg::param(1), Arg::param(2), Arg::Scalar(b_scale), Arg::Word(n),
                Arg::Word(k), Arg::Word(k_shard),
            ],
        ),
    )
}

/// The answer of [`gemv_w8a16_split_k_det`].
pub open spec fn gemv_w8a16_split_k_det_plan(
    x_len: int, b_fp8_len: int, b_scale: F32, stage_f32_len: int, n: int, k: int, num_shards: int,
) -> Plan {
    let k_shard = shape::ceil_div(k, num_shards);
    let smem_bytes = k_shard * 2;
    let need = num_shards * n;
    let n_blocks = shape::ceil_div(n, 1024);
    if n == 0 || k == 0 || num_shards == 0 {
        Plan::invalid("dims must be > 0"@)
    } else if n % 8 != 0 {
        Plan::invalid("gemv_w8a16_split_k_det requires N divisible by 8, got "@ + text::decimal(n))
    } else if smem_bytes > 96 * 1024 {
        Plan::invalid(
            "gemv_w8a16_split_k_det: k_shard="@ + text::decimal(k_shard) + " exceeds SMEM"@,
        )
    } else if x_len < k || b_fp8_len < k * n || stage_f32_len < need {
        Plan::invalid("buffer sizes"@)
    } else {
        Plan::launch(
            "gemv_w8a16_split_k_det"@,
            "gemv_w8a16_split_k_det"@,
            (n_blocks, num_shards, 1),
            (128, 1, 1),
            smem_bytes,
            seq![
                Arg::buffer(0), Arg::buffer(1), Arg::buffer(2), Arg::Scalar(b_scale), Arg::word(n),
                Arg::word(k), Arg::word(k_shard),
            ],
        )
    }
}

/// [`gemv_w8a16_split_k_det`], with the length of the staging memory in 64 bits.
pub(crate) fn w8a16_staged(
    x_len: usize,
    b_fp8_len: usize,
    b_scale: F32,
    stage_f32_len: u64,
    n: u32,
    k: u32,
    num_shards: u32,
) -> (r: Result<Launch>)
    ensures
        plan::outcome(r) == gemv_w8a16_split_k_det_plan(
            x_len as int, b_fp8_len as int, b_scale, stage_f32_len as int, n as int, k as int,
            num_shards as int,
        ),
        plan::launchable(r, 3),
{
    if n == 0 || k == 0 || num_shards == 0 {
        return Text::new("dims must be > 0").refuse();
    }
    if n % 8 != 0 {
        return Text::new("gemv_w8a16_split_k_det requires N divisible by 8, got ").n(n as u64)
            .refuse();
    }
    let k_shard: u32 = shape::div_ceil(k, num_shards);
    let smem_bytes: u64 = k_shard as u64 * 2;
    if smem_bytes > 96 * 1024 {
        return Text::new("gemv_w8a16_split_k_det: k_shard=").n(k_shard as u64).s(" exceeds SMEM")
            .refuse();
    }
    let need: u64 = shape::product(num_shards, n);
    if (x_len as u64) < (k as u64)
        || (b_fp8_len as u64) < shape::product(k, n)
        || stage_f32_len < need
    {
        return Text::new("buffer sizes").refuse();
    }
    let n_blocks: u32 = shape::div_ceil(n, 128 * 8);
    Ok(
        Launch::new(
            "gemv_w8a16_split_k_det",
            "gemv_w8a16_split_k_det",
            (n_blocks, num_shards, 1),
            (128, 1, 1),
            smem_bytes as u32,
            vec![
                Arg::param(0), Arg::param(1), Arg::param(2), Arg::Scalar(b_scale), Arg::Word(n),
                Arg::Word(k), Arg::Word(k_shard),
            ],
        ),
    )
}

/// Deterministic W8A16 GEMV — writes per-shard partials to
/// staging instead of atomic-adding. Pair with `f32_shard_reduce_to_bf16`.
pub fn gemv_w8a16_split_k_det(
    x_len: usize,
    b_fp8_len: usize,
    b_scale: F32,
    stage_f32_len: usize,
    n: u32,
    k: u32,
    num_shards: u32,
) -> (r: Result<Launch>)
    ensures
        plan::outcome(r) == gemv_w8a16_split_k_det_plan(
            x_len as int, b_fp8_len as int, b_scale, stage_f32_len as int, n as int, k as int,
            num_shards as int,
        ),
        plan::launchable(r, 3),
{
    w8a16_staged(x_len, b_fp8_len, b_scale, stage_f32_len as u64, n, k, num_shards)
}

/// The answer of [`gemv_w8a16_fused_bf16`].
pub open spec fn gemv_w8a16_fused_bf16_plan(
    x_len: int, b_fp8_len: int, b_scale: F32, out_bf16_len: int, n: int, k: int,
) -> Plan {
    let smem_bytes = k * 2;
    let grid_x = shape::ceil_div(n, 1024);
    if n == 0 || k == 0 {
        Plan::invalid("dims must be > 0"@)
    } else if n % 8 != 0 {
        Plan::invalid("n ("@ + text::decimal(n) + ") must be a multiple of 8"@)
    } else if x_len < k {
        Plan::invalid("x buffer too small"@)
    } else if k * n > u32::MAX {
        Plan::Undefined
    } else if b_fp8_len < k * n {
        Plan::invalid("b buffer too small"@)
    } else if out_bf16_len < n {
        Plan::invalid("out buffer too small"@)
    } else if smem_bytes > 99 * 1024 {
        Plan::invalid(
            "K="@ + text::decimal(k) + " too large for fused W8A16 SMEM (need "@
                + text::decimal(smem_bytes) + " > 99 KB)"@,
        )
    } else {
        Plan::launch(
            "gemv_w8a16_fused_bf16"@,
            "gemv_w8a16_fused_bf16"@,
            (grid_x, 1, 1),
            (128, 1, 1),
            smem_bytes,
            seq![
                Arg::buffer(0), Arg::buffer(1), Arg::buffer(2), Arg::Scalar(b_scale), Arg::word(n),
                Arg::word(k),
            ],
        )
    }
}

/// Fused W8A16 GEMV with direct BF16 output. Replaces the 3-launch
/// `gemv_w8a16_split_k_managed` (memset + split-K GEMV + cast) with a
/// single launch by trading split-K parallelism for launch-overhead
/// savings. Use when N is large enough to saturate SMs without splitting
/// (typically N ≥ ~4096 for SM121's 48 SMs).
pub fn gemv_w8a16_fused_bf16(
    x_len: usize,
    b_fp8_len: usize,
    b_scale: F32,
    out_bf16_len: usize,
    n: u32,
    k: u32,
) -> (r: Result<Launch>)
    requires
        gemv_w8a16_fused_bf16_plan(
            x_len as int, b_fp8_len as int, b_scale, out_bf16_len as int, n as int, k as int,
        ) !is Undefined,
    ensures
        plan::outcome(r) == gemv_w8a16_fused_bf16_plan(
            x_len as int, b_fp8_len as int, b_scale, out_bf16_len as int, n as int, k as int,
        ),
        plan::launchable(r, 3),
{
    if n == 0 || k == 0 {
        return Text::new("dims must be > 0").refuse();
    }
    if n % 8 != 0 {
        return Text::new("n (").n(n as u64).s(") must be a multiple of 8").refuse();
    }
    if (x_len as u64) < (k as u64) {
        return Text::new("x buffer too small").refuse();
    }
    if (b_fp8_len as u64) < ((k * n) as u64) {
        return Text::new("b buffer too small").refuse();
    }
    if (out_bf16_len as u64) < (n as u64) {
        return Text::new("out buffer too small").refuse();
    }
    let smem_bytes: u64 = k as u64 * 2;
    if smem_bytes > 99 * 1024 {
        return Text::new("K=").n(k as u64).s(" too large for fused W8A16 SMEM (need ").n(smem_bytes)
            .s(" > 99 KB)").refuse();
    }
    let grid_x: u32 = shape::div_ceil(n, 1024);
    Ok(
        Launch::new(
            "gemv_w8a16_fused_bf16",
            "gemv_w8a16_fused_bf16",
            (grid_x, 1, 1),
            (128, 1, 1),
            smem_bytes as u32,
            vec![
                Arg::param(0), Arg::param(1), Arg::param(2), Arg::Scalar(b_scale), Arg::Word(n),
                Arg::Word(k),
            ],
        ),
    )
}

/// The answer of [`gemv_w8a16_split_k_w16`].
pub open spec fn gemv_w8a16_split_k_w16_plan(
    x_len: int, b_fp8_len: int, b_scale: F32, out_f32_len: int, n: int, k: int, num_shards: int,
) -> Plan {
    let k_shard = shape::ceil_div(k, num_shards);
    let smem_bytes = k_shard * 2;
    let n_blocks = shape::ceil_div(n, 2048);
    if n == 0 || k == 0 || num_shards == 0 {
        Plan::invalid("dims must be > 0"@)
    } else if n % 16 != 0 {
        Plan::invalid("gemv_w8a16_split_k_w16 requires N divisible by 16, got "@ + text::decimal(n))
    } else if smem_bytes > 96 * 1024 {
        Plan::invalid(
            "gemv_w8a16_split_k_w16: k_shard="@ + text::decimal(k_shard) + " exceeds SMEM budget"@,
        )
    } else if x_len < k || b_fp8_len < k * n || out_f32_len < n {
        Plan::invalid("buffer sizes"@)
    } else {
        Plan::launch(
            "gemv_w8a16_split_k_w16"@,
            "gemv_w8a16_split_k_w16"@,
            (n_blocks, num_shards, 1),
            (128, 1, 1),
            smem_bytes,
            seq![
                Arg::buffer(0), Arg::buffer(1), Arg::buffer(2), Arg::Scalar(b_scale), Arg::word(n),
                Arg::word(k), Arg::word(k_shard),
            ],
        )
    }
}

/// W8A16 GEMV with 16 cols/thread (vs split_k's 8). Uses ld.global.v4.b32 for a
/// fully vectorized 16-byte weight load per K-iter and emits 2 independent groups
/// of 8 FMAs to keep the warp scheduler fed. Block: 128 threads × 16 = 2048
/// cols/block, halving CTA count vs the standard kernel — wins on weights with
/// large N (e.g. lm_head), loses on small N (would idle threads). Dispatch
/// selectively. Requires N divisible by 16.
pub fn gemv_w8a16_split_k_w16(
    x_len: usize,
    b_fp8_len: usize,
    b_scale: F32,
    out_f32_len: usize,
    n: u32,
    k: u32,
    num_shards: u32,
) -> (r: Result<Launch>)
    ensures
        plan::outcome(r) == gemv_w8a16_split_k_w16_plan(
            x_len as int, b_fp8_len as int, b_scale, out_f32_len as int, n as int, k as int,
            num_shards as int,
        ),
        plan::launchable(r, 3),
{
    if n == 0 || k == 0 || num_shards == 0 {
        return Text::new("dims must be > 0").refuse();
    }
    if n % 16 != 0 {
        return Text::new("gemv_w8a16_split_k_w16 requires N divisible by 16, got ").n(n as u64)
            .refuse();
    }
    let k_shard: u32 = shape::div_ceil(k, num_shards);
    let smem_bytes: u64 = k_shard as u64 * 2;
    if smem_bytes > 96 * 1024 {
        return Text::new("gemv_w8a16_split_k_w16: k_shard=").n(k_shard as u64)
            .s(" exceeds SMEM budget").refuse();
    }
    if (x_len as u64) < (k as u64)
        || (b_fp8_len as u64) < shape::product(k, n)
        || (out_f32_len as u64) < (n as u64)
    {
        return Text::new("buffer sizes").refuse();
    }
    let n_blocks: u32 = shape::div_ceil(n, 2048);
    Ok(
        Launch::new(
            "gemv_w8a16_split_k_w16",
            "gemv_w8a16_split_k_w16",
            (n_blocks, num_shards, 1),
            (128, 1, 1),
            smem_bytes as u32,
            vec![
                Arg::param(0), Arg::param(1), Arg::param(2), Arg::Scalar(b_scale), Arg::Word(n),
                Arg::Word(k), Arg::Word(k_shard),
            ],
        ),
    )
}

/// The answer of [`gemv_w8a16_split_k_w16_det`].
pub open spec fn gemv_w8a16_split_k_w16_det_plan(
    x_len: int, b_fp8_len: int, b_scale: F32, stage_f32_len: int, n: int, k: int, num_shards: int,
) -> Plan {
    let k_shard = shape::ceil_div(k, num_shards);
    let smem_bytes = k_shard * 2;
    let need = num_shards * n;
    let n_blocks = shape::ceil_div(n, 2048);
    if n % 16 != 0 {
        Plan::invalid(
            "gemv_w8a16_split_k_w16_det requires N divisible by 16, got "@ + text::decimal(n),
        )
    } else if num_shards == 0 {
        Plan::Undefined
    } else if smem_bytes > 96 * 1024 {
        Plan::invalid(
            "gemv_w8a16_split_k_w16_det: k_shard="@ + text::decimal(k_shard) + " exceeds SMEM"@,
        )
    } else if x_len < k || b_fp8_len < k * n || stage_f32_len < need {
        Plan::invalid("buffer sizes"@)
    } else {
        Plan::launch(
            "gemv_w8a16_split_k_w16_det"@,
            "gemv_w8a16_split_k_w16_det"@,
            (n_blocks, num_shards, 1),
            (128, 1, 1),
            smem_bytes,
            seq![
                Arg::buffer(0), Arg::buffer(1), Arg::buffer(2), Arg::Scalar(b_scale), Arg::word(n),
                Arg::word(k), Arg::word(k_shard),
            ],
        )
    }
}

/// [`gemv_w8a16_split_k_w16_det`], with the length of the staging memory in 64 bits.
pub(crate) fn w8a16_w16_staged(
    x_len: usize,
    b_fp8_len: usize,
    b_scale: F32,
    stage_f32_len: u64,
    n: u32,
    k: u32,
    num_shards: u32,
) -> (r: Result<Launch>)
    requires
        gemv_w8a16_split_k_w16_det_plan(
            x_len as int, b_fp8_len as int, b_scale, stage_f32_len as int, n as int, k as int,
            num_shards as int,
        ) !is Undefined,
    ensures
        plan::outcome(r) == gemv_w8a16_split_k_w16_det_plan(
            x_len as int, b_fp8_len as int, b_scale, stage_f32_len as int, n as int, k as int,
            num_shards as int,
        ),
        n > 0 ==> plan::launchable(r, 3),
{
    if n % 16 != 0 {
        return Text::new("gemv_w8a16_split_k_w16_det requires N divisible by 16, got ").n(n as u64)
            .refuse();
    }
    let k_shard: u32 = shape::div_ceil(k, num_shards);
    let smem_bytes: u64 = k_shard as u64 * 2;
    if smem_bytes > 96 * 1024 {
        return Text::new("gemv_w8a16_split_k_w16_det: k_shard=").n(k_shard as u64)
            .s(" exceeds SMEM").refuse();
    }
    let need: u64 = shape::product(num_shards, n);
    if (x_len as u64) < (k as u64)
        || (b_fp8_len as u64) < shape::product(k, n)
        || stage_f32_len < need
    {
        return Text::new("buffer sizes").refuse();
    }
    let n_blocks: u32 = shape::div_ceil(n, 128 * 16);
    Ok(
        Launch::new(
            "gemv_w8a16_split_k_w16_det",
            "gemv_w8a16_split_k_w16_det",
            (n_blocks, num_shards, 1),
            (128, 1, 1),
            smem_bytes as u32,
            vec![
                Arg::param(0), Arg::param(1), Arg::param(2), Arg::Scalar(b_scale), Arg::Word(n),
                Arg::Word(k), Arg::Word(k_shard),
            ],
        ),
    )
}

/// Deterministic wide-block W8A16 GEMV (16 cols/thread).
pub fn gemv_w8a16_split_k_w16_det(
    x_len: usize,
    b_fp8_len: usize,
    b_scale: F32,
    stage_f32_len: usize,
    n: u32,
    k: u32,
    num_shards: u32,
) -> (r: Result<Launch>)
    requires
        gemv_w8a16_split_k_w16_det_plan(
            x_len as int, b_fp8_len as int, b_scale, stage_f32_len as int, n as int, k as int,
            num_shards as int,
        ) !is Undefined,
    ensures
        plan::outcome(r) == gemv_w8a16_split_k_w16_det_plan(
            x_len as int, b_fp8_len as int, b_scale, stage_f32_len as int, n as int, k as int,
            num_shards as int,
        ),
        n > 0 ==> plan::launchable(r, 3),
{
    w8a16_w16_staged(x_len, b_fp8_len, b_scale, stage_f32_len as u64, n, k, num_shards)
}

/// The answer of [`gemv_bf16_split_k_w16`].
pub open spec fn gemv_bf16_split_k_w16_plan(
    x_len: int, b_len: int, out_f32_len: int, n: int, k: int, num_shards: int,
) -> Plan {
    let k_shard = shape::ceil_div(k, num_shards);
    let smem_bytes = k_shard * 2;
    let n_blocks = shape::ceil_div(n, 2048);
    if n == 0 || k == 0 || num_shards == 0 {
        Plan::invalid("dims must be > 0"@)
    } else if n % 16 != 0 {
        Plan::invalid("gemv_bf16_split_k_w16 requires N divisible by 16, got "@ + text::decimal(n))
    } else if smem_bytes > 96 * 1024 {
        Plan::invalid(
            "gemv_bf16_split_k_w16: k_shard="@ + text::decimal(k_shard) + " exceeds SMEM budget"@,
        )
    } else if x_len < k || b_len < k * n || out_f32_len < n {
        Plan::invalid("buffer sizes"@)
    } else {
        Plan::launch(
            "gemv_bf16_split_k_w16"@,
            "gemv_bf16_split_k_w16"@,
            (n_blocks, num_shards, 1),
            (128, 1, 1),
            smem_bytes,
            seq![
                Arg::buffer(0), Arg::buffer(1), Arg::buffer(2), Arg::word(n), Arg::word(k),
                Arg::word(k_shard),
            ],
        )
    }
}

/// Wide-block BF16 split-K GEMV variant: 16 cols/thread, 2048 cols/block.
/// Sibling of `gemv_w8a16_split_k_w16` for BF16 weights at very large N
/// (lm_head at vocab=262144 etc.). Loses on small N
/// (gate/up/down at inter≤10240) — caller picks. N must be a multiple of 16.
pub fn gemv_bf16_split_k_w16(
    x_len: usize,
    b_len: usize,
    out_f32_len: usize,
    n: u32,
    k: u32,
    num_shards: u32,
) -> (r: Result<Launch>)
    ensures
        plan::outcome(r) == gemv_bf16_split_k_w16_plan(
            x_len as int, b_len as int, out_f32_len as int, n as int, k as int, num_shards as int,
        ),
        plan::launchable(r, 3),
{
    if n == 0 || k == 0 || num_shards == 0 {
        return Text::new("dims must be > 0").refuse();
    }
    if n % 16 != 0 {
        return Text::new("gemv_bf16_split_k_w16 requires N divisible by 16, got ").n(n as u64)
            .refuse();
    }
    let k_shard: u32 = shape::div_ceil(k, num_shards);
    let smem_bytes: u64 = k_shard as u64 * 2;
    if smem_bytes > 96 * 1024 {
        return Text::new("gemv_bf16_split_k_w16: k_shard=").n(k_shard as u64)
            .s(" exceeds SMEM budget").refuse();
    }
    if (x_len as u64) < (k as u64)
        || (b_len as u64) < shape::product(k, n)
        || (out_f32_len as u64) < (n as u64)
    {
        return Text::new("buffer sizes").refuse();
    }
    let n_blocks: u32 = shape::div_ceil(n, 2048);
    Ok(
        Launch::new(
            "gemv_bf16_split_k_w16",
            "gemv_bf16_split_k_w16",
            (n_blocks, num_shards, 1),
            (128, 1, 1),
            smem_bytes as u32,
            vec![
                Arg::param(0), Arg::param(1), Arg::param(2), Arg::Word(n), Arg::Word(k),
                Arg::Word(k_shard),
            ],
        ),
    )
}

/// The answer of [`gemv_bf16_split_k`].
pub open spec fn gemv_bf16_split_k_plan(
    x_len: int, b_len: int, out_f32_len: int, n: int, k: int, num_shards: int,
) -> Plan {
    let k_shard = shape::ceil_div(k, num_shards);
    let smem_bytes = k_shard * 2;
    let n_blocks = shape::ceil_div(n, 1024);
    if n == 0 || k == 0 || num_shards == 0 {
        Plan::invalid("dims must be > 0"@)
    } else if n % 8 != 0 {
        Plan::invalid("gemv_split_k requires N divisible by 8, got "@ + text::decimal(n))
    } else if smem_bytes > 96 * 1024 {
        Plan::invalid("gemv_split_k: k_shard="@ + text::decimal(k_shard) + " exceeds SMEM budget"@)
    } else if x_len < k || b_len < k * n || out_f32_len < n {
        Plan::invalid("buffer sizes"@)
    } else {
        Plan::launch(
            "gemv_bf16_split_k"@,
            "gemv_bf16_split_k"@,
            (n_blocks, num_shards, 1),
            (128, 1, 1),
            smem_bytes,
            seq![
                Arg::buffer(0), Arg::buffer(1), Arg::buffer(2), Arg::word(n), Arg::word(k),
                Arg::word(k_shard),
            ],
        )
    }
}

/// Split-K BF16 GEMV: `out_f32 = x[1, K] * b[K, N]` accumulated in FP32, with the
/// K dimension split across `num_shards` partial sums. N must be divisible by 8.
/// This is the M=1 decode matvec; pair with `f32_to_bf16` to cast the result.
pub fn gemv_bf16_split_k(
    x_len: usize,
    b_len: usize,
    out_f32_len: usize,
    n: u32,
    k: u32,
    num_shards: u32,
) -> (r: Result<Launch>)
    ensures
        plan::outcome(r) == gemv_bf16_split_k_plan(
            x_len as int, b_len as int, out_f32_len as int, n as int, k as int, num_shards as int,
        ),
        plan::launchable(r, 3),
{
    if n == 0 || k == 0 || num_shards == 0 {
        return Text::new("dims must be > 0").refuse();
    }
    if n % 8 != 0 {
        return Text::new("gemv_split_k requires N divisible by 8, got ").n(n as u64).refuse();
    }
    let k_shard: u32 = shape::div_ceil(k, num_shards);
    let smem_bytes: u64 = k_shard as u64 * 2;
    if smem_bytes > 96 * 1024 {
        return Text::new("gemv_split_k: k_shard=").n(k_shard as u64).s(" exceeds SMEM budget")
            .refuse();
    }
    if (x_len as u64) < (k as u64)
        || (b_len as u64) < shape::product(k, n)
        || (out_f32_len as u64) < (n as u64)
    {
        return Text::new("buffer sizes").refuse();
    }
    let n_blocks: u32 = shape::div_ceil(n, 1024);
    Ok(
        Launch::new(
            "gemv_bf16_split_k",
            "gemv_bf16_split_k",
            (n_blocks, num_shards, 1),
            (128, 1, 1),
            smem_bytes as u32,
            vec![
                Arg::param(0), Arg::param(1), Arg::param(2), Arg::Word(n), Arg::Word(k),
                Arg::Word(k_shard),
            ],
        ),
    )
}

/// The answer of [`gemv_bf16_split_k_det`].
pub open spec fn gemv_bf16_split_k_det_plan(
    x_len: int, b_len: int, stage_f32_len: int, n: int, k: int, num_shards: int,
) -> Plan {
    let k_shard = shape::ceil_div(k, num_shards);
    let smem_bytes = k_shard * 2;
    let need = num_shards * n;
    let n_blocks = shape::ceil_div(n, 1024);
    if n == 0 || k == 0 || num_shards == 0 {
        Plan::invalid("dims must be > 0"@)
    } else if n % 8 != 0 {
        Plan::invalid("gemv_split_k_det requires N divisible by 8, got "@ + text::decimal(n))
    } else if smem_bytes > 96 * 1024 {
        Plan::invalid(
            "gemv_split_k_det: k_shard="@ + text::decimal(k_shard) + " exceeds SMEM budget"@,
        )
    } else if x_len < k || b_len < k * n || stage_f32_len < need {
        Plan::invalid(
            "gemv_split_k_det: stage_f32 too small "@ + text::decimal(stage_f32_len) + " < "@
                + text::decimal(need),
        )
    } else {
        Plan::launch(
            "gemv_bf16_split_k_det"@,
            "gemv_bf16_split_k_det"@,
            (n_blocks, num_shards, 1),
            (128, 1, 1),
            smem_bytes,
            seq![
                Arg::buffer(0), Arg::buffer(1), Arg::buffer(2), Arg::word(n), Arg::word(k),
                Arg::word(k_shard),
            ],
        )
    }
}

/// Deterministic-by-construction split-K GEMV. Same K-shard
/// parallelism as `gemv_bf16_split_k` but writes per-shard partial sums to
/// `stage_f32[num_shards × N]` instead of atomic-adding into `out_f32[N]`.
/// Pair with `f32_shard_reduce_to_bf16` to produce the final BF16 output.
pub fn gemv_bf16_split_k_det(
    x_len: usize,
    b_len: usize,
    stage_f32_len: usize,
    n: u32,
    k: u32,
    num_shards: u32,
) -> (r: Result<Launch>)
    ensures
        plan::outcome(r) == gemv_bf16_split_k_det_plan(
            x_len as int, b_len as int, stage_f32_len as int, n as int, k as int, num_shards as int,
        ),
        plan::launchable(r, 3),
{
    if n == 0 || k == 0 || num_shards == 0 {
        return Text::new("dims must be > 0").refuse();
    }
    if n % 8 != 0 {
        return Text::new("gemv_split_k_det requires N divisible by 8, got ").n(n as u64).refuse();
    }
    let k_shard: u32 = shape::div_ceil(k, num_shards);
    let smem_bytes: u64 = k_shard as u64 * 2;
    if smem_bytes > 96 * 1024 {
        return Text::new("gemv_split_k_det: k_shard=").n(k_shard as u64).s(" exceeds SMEM budget")
            .refuse();
    }
    let need: u64 = shape::product(num_shards, n);
    if (x_len as u64) < (k as u64)
        || (b_len as u64) < shape::product(k, n)
        || (stage_f32_len as u64) < need
    {
        return Text::new("gemv_split_k_det: stage_f32 too small ").n(stage_f32_len as u64).s(" < ")
            .n(need).refuse();
    }
    let n_blocks: u32 = shape::div_ceil(n, 1024);
    Ok(
        Launch::new(
            "gemv_bf16_split_k_det",
            "gemv_bf16_split_k_det",
            (n_blocks, num_shards, 1),
            (128, 1, 1),
            smem_bytes as u32,
            vec![
                Arg::param(0), Arg::param(1), Arg::param(2), Arg::Word(n), Arg::Word(k),
                Arg::Word(k_shard),
            ],
        ),
    )
}

/// The answer of [`gemm_bf16_split_k_det`].
pub open spec fn gemm_bf16_split_k_det_plan(
    x_len: int, b_len: int, stage_f32_len: int, n: int, k: int, m: int, num_shards: int,
) -> Plan {
    let k_shard = shape::ceil_div(k, num_shards);
    let smem_bytes = m * k_shard * 2;
    let need = num_shards * m * n;
    let n_blocks = shape::ceil_div(n, 1024);
    if n == 0 || k == 0 || num_shards == 0 || m == 0 {
        Plan::invalid("dims must be > 0"@)
    } else if n % 8 != 0 {
        Plan::invalid("gemm_bf16_split_k_det requires N divisible by 8, got "@ + text::decimal(n))
    } else if m > SPLIT_K_DET_MAX_M {
        Plan::invalid(
            "gemm_bf16_split_k_det: m="@ + text::decimal(m) + " exceeds MAX_M="@
                + text::decimal(SPLIT_K_DET_MAX_M as int),
        )
    } else if smem_bytes > 48 * 1024 {
        Plan::invalid(
            "gemm_bf16_split_k_det: smem "@ + text::decimal(smem_bytes) + "B (m="@
                + text::decimal(m) + " k_shard="@ + text::decimal(k_shard)
                + ") exceeds 48KB; raise num_shards"@,
        )
    } else if need > u64::MAX {
        Plan::Undefined
    } else if x_len < m * k || b_len < k * n || stage_f32_len < need {
        Plan::invalid(
            "gemm_bf16_split_k_det: buffer too small (stage need "@ + text::decimal(need)
                + ", got "@ + text::decimal(stage_f32_len) + ")"@,
        )
    } else {
        Plan::launch(
            "gemm_bf16_split_k_det"@,
            "gemm_bf16_split_k_det"@,
            (n_blocks, num_shards, 1),
            (128, 1, 1),
            smem_bytes,
            seq![
                Arg::buffer(0), Arg::buffer(1), Arg::buffer(2), Arg::word(n), Arg::word(k),
                Arg::word(k_shard), Arg::word(m),
            ],
        )
    }
}

/// Batched (M-row) deterministic split-K GEMM — bit-identical PER ROW to
/// `gemv_bf16_split_k_det`. This is the MTP self-spec VERIFY kernel: it computes
/// `out[m, :] = x[m, :] · B` for M rows while loading each weight tile ONCE
/// (amortizing weight bandwidth across the k+1 verified tokens). Each output
/// `(m, col)` reduces over K in the SAME order as the M=1 kernel, so feeding the
/// same `num_shards` the decode path uses yields argmax-identical logits.
pub fn gemm_bf16_split_k_det(
    x_len: usize,
    b_len: usize,
    stage_f32_len: usize,
    n: u32,
    k: u32,
    m: u32,
    num_shards: u32,
) -> (r: Result<Launch>)
    requires
        gemm_bf16_split_k_det_plan(
            x_len as int, b_len as int, stage_f32_len as int, n as int, k as int, m as int,
            num_shards as int,
        ) !is Undefined,
    ensures
        plan::outcome(r) == gemm_bf16_split_k_det_plan(
            x_len as int, b_len as int, stage_f32_len as int, n as int, k as int, m as int,
            num_shards as int,
        ),
        plan::launchable(r, 3),
{
    if n == 0 || k == 0 || num_shards == 0 || m == 0 {
        return Text::new("dims must be > 0").refuse();
    }
    if n % 8 != 0 {
        return Text::new("gemm_bf16_split_k_det requires N divisible by 8, got ").n(n as u64)
            .refuse();
    }
    if m > SPLIT_K_DET_MAX_M {
        return Text::new("gemm_bf16_split_k_det: m=").n(m as u64).s(" exceeds MAX_M=")
            .n(SPLIT_K_DET_MAX_M as u64).refuse();
    }
    let k_shard: u32 = shape::div_ceil(k, num_shards);
    assert(m * k_shard <= 8 * k_shard) by (nonlinear_arith)
        requires
            m <= 8,
    ;
    let smem_bytes: u64 = shape::product(m, k_shard) * 2;
    if smem_bytes > 48 * 1024 {
        return Text::new("gemm_bf16_split_k_det: smem ").n(smem_bytes).s("B (m=").n(m as u64)
            .s(" k_shard=").n(k_shard as u64).s(") exceeds 48KB; raise num_shards").refuse();
    }
    let need: u64 = shape::product(num_shards, m) * (n as u64);
    if (x_len as u64) < shape::product(m, k)
        || (b_len as u64) < shape::product(k, n)
        || (stage_f32_len as u64) < need
    {
        return Text::new("gemm_bf16_split_k_det: buffer too small (stage need ").n(need).s(", got ")
            .n(stage_f32_len as u64).s(")").refuse();
    }
    let n_blocks: u32 = shape::div_ceil(n, 1024);
    Ok(
        Launch::new(
            "gemm_bf16_split_k_det",
            "gemm_bf16_split_k_det",
            (n_blocks, num_shards, 1),
            (128, 1, 1),
            smem_bytes as u32,
            vec![
                Arg::param(0), Arg::param(1), Arg::param(2), Arg::Word(n), Arg::Word(k),
                Arg::Word(k_shard), Arg::Word(m),
            ],
        ),
    )
}

/// The answer of [`f32_shard_reduce_to_bf16`].
pub open spec fn f32_shard_reduce_to_bf16_plan(
    stage_f32_len: int, out_bf16_len: int, n: int, num_shards: int,
) -> Plan {
    let need = num_shards * n;
    let blocks = shape::ceil_div(n, 256);
    if n == 0 || num_shards == 0 {
        Plan::invalid("dims must be > 0"@)
    } else if stage_f32_len < need || out_bf16_len < n {
        Plan::invalid("shard_reduce buffers"@)
    } else {
        Plan::launch(
            "f32_shard_reduce_to_bf16"@,
            "f32_shard_reduce_to_bf16"@,
            (blocks, 1, 1),
            (256, 1, 1),
            0,
            seq![Arg::buffer(0), Arg::buffer(1), Arg::word(n), Arg::word(num_shards)],
        )
    }
}

/// [`f32_shard_reduce_to_bf16`], with the length of the staging memory in 64 bits.
pub(crate) fn shards_reduced(
    stage_f32_len: u64,
    out_bf16_len: usize,
    n: u32,
    num_shards: u32,
) -> (r: Result<Launch>)
    ensures
        plan::outcome(r) == f32_shard_reduce_to_bf16_plan(
            stage_f32_len as int, out_bf16_len as int, n as int, num_shards as int,
        ),
        plan::launchable(r, 2),
{
    if n == 0 || num_shards == 0 {
        return Text::new("dims must be > 0").refuse();
    }
    let need: u64 = shape::product(num_shards, n);
    if stage_f32_len < need || (out_bf16_len as u64) < (n as u64) {
        return Text::new("shard_reduce buffers").refuse();
    }
    let blocks: u32 = shape::div_ceil(n, 256);
    Ok(
        Launch::new(
            "f32_shard_reduce_to_bf16",
            "f32_shard_reduce_to_bf16",
            (blocks, 1, 1),
            (256, 1, 1),
            0,
            vec![Arg::param(0), Arg::param(1), Arg::Word(n), Arg::Word(num_shards)],
        ),
    )
}

/// Deterministic shard-reducer + bf16 cast. Reads
/// `stage_f32[num_shards × N]`, sums per output across shards, writes BF16.
pub fn f32_shard_reduce_to_bf16(
    stage_f32_len: usize,
    out_bf16_len: usize,
    n: u32,
    num_shards: u32,
) -> (r: Result<Launch>)
    ensures
        plan::outcome(r) == f32_shard_reduce_to_bf16_plan(
            stage_f32_len as int, out_bf16_len as int, n as int, num_shards as int,
        ),
        plan::launchable(r, 2),
{
    shards_reduced(stage_f32_len as u64, out_bf16_len, n, num_shards)
}

/// The answer of [`gemv_bf16_split_k_view`].
pub open spec fn gemv_bf16_split_k_view_plan(
    x_len: int, b_len: int, out_f32_len: int, n: int, k: int, num_shards: int,
) -> Plan {
    let k_shard = shape::ceil_div(k, num_shards);
    let smem_bytes = k_shard * 2;
    let n_blocks = shape::ceil_div(n, 1024);
    if n == 0 || k == 0 || num_shards == 0 {
        Plan::invalid("dims must be > 0"@)
    } else if n % 8 != 0 {
        Plan::invalid("gemv_split_k_view requires N divisible by 8, got "@ + text::decimal(n))
    } else if smem_bytes > 96 * 1024 {
        Plan::invalid(
            "gemv_split_k_view: k_shard="@ + text::decimal(k_shard) + " exceeds SMEM budget"@,
        )
    } else if x_len < k || b_len < k * n || out_f32_len < n {
        Plan::invalid("buffer sizes"@)
    } else {
        Plan::launch(
            "gemv_bf16_split_k"@,
            "gemv_bf16_split_k"@,
            (n_blocks, num_shards, 1),
            (128, 1, 1),
            smem_bytes,
            seq![
                Arg::buffer(0), Arg::buffer(1), Arg::buffer(2), Arg::word(n), Arg::word(k),
                Arg::word(k_shard),
            ],
        )
    }
}

/// View variant of `gemv_bf16_split_k`: weight matrix B can be a sub-view (e.g.,
/// a single expert's slice of a stacked-experts buffer).
pub fn gemv_bf16_split_k_view(
    x_len: usize,
    b_len: usize,
    out_f32_len: usize,
    n: u32,
    k: u32,
    num_shards: u32,
) -> (r: Result<Launch>)
    ensures
        plan::outcome(r) == gemv_bf16_split_k_view_plan(
            x_len as int, b_len as int, out_f32_len as int, n as int, k as int, num_shards as int,
        ),
        plan::launchable(r, 3),
{
    if n == 0 || k == 0 || num_shards == 0 {
        return Text::new("dims must be > 0").refuse();
    }
    if n % 8 != 0 {
        return Text::new("gemv_split_k_view requires N divisible by 8, got ").n(n as u64).refuse();
    }
    let k_shard: u32 = shape::div_ceil(k, num_shards);
    let smem_bytes: u64 = k_shard as u64 * 2;
    if smem_bytes > 96 * 1024 {
        return Text::new("gemv_split_k_view: k_shard=").n(k_shard as u64).s(" exceeds SMEM budget")
            .refuse();
    }
    if (x_len as u64) < (k as u64)
        || (b_len as u64) < shape::product(k, n)
        || (out_f32_len as u64) < (n as u64)
    {
        return Text::new("buffer sizes").refuse();
    }
    let n_blocks: u32 = shape::div_ceil(n, 1024);
    Ok(
        Launch::new(
            "gemv_bf16_split_k",
            "gemv_bf16_split_k",
            (n_blocks, num_shards, 1),
            (128, 1, 1),
            smem_bytes as u32,
            vec![
                Arg::param(0), Arg::param(1), Arg::param(2), Arg::Word(n), Arg::Word(k),
                Arg::Word(k_shard),
            ],
        ),
    )
}

/// The answer of [`gemv_bf16_split_k_v4`].
pub open spec fn gemv_bf16_split_k_v4_plan(
    x_len: int, b_len: int, out_f32_len: int, n: int, k: int, num_shards: int,
) -> Plan {
    let k_shard = shape::ceil_div(k, num_shards);
    let smem_bytes = k_shard * 2;
    let n_blocks = shape::ceil_div(n, 1024);
    if n == 0 || k == 0 || num_shards == 0 {
        Plan::invalid("dims must be > 0"@)
    } else if n % 8 != 0 {
        Plan::invalid("gemv_split_k_v4 requires N divisible by 8, got "@ + text::decimal(n))
    } else if smem_bytes > 96 * 1024 {
        Plan::invalid(
            "gemv_split_k_v4: k_shard="@ + text::decimal(k_shard) + " exceeds SMEM budget"@,
        )
    } else {
        Plan::launch(
            "gemv_bf16_split_k_v4"@,
            "gemv_bf16_split_k_v4"@,
            (n_blocks, num_shards, 1),
            (128, 1, 1),
            smem_bytes,
            seq![
                Arg::buffer(0), Arg::buffer(1), Arg::buffer(2), Arg::word(n), Arg::word(k),
                Arg::word(k_shard),
            ],
        )
    }
}

/// v4 of split-K GEMV: K loop unrolled by 2 → 16 FMAs per outer iter (vs v3's 8).
pub fn gemv_bf16_split_k_v4(
    x_len: usize,
    b_len: usize,
    out_f32_len: usize,
    n: u32,
    k: u32,
    num_shards: u32,
) -> (r: Result<Launch>)
    ensures
        plan::outcome(r) == gemv_bf16_split_k_v4_plan(
            x_len as int, b_len as int, out_f32_len as int, n as int, k as int, num_shards as int,
        ),
        plan::launchable(r, 3),
{
    if n == 0 || k == 0 || num_shards == 0 {
        return Text::new("dims must be > 0").refuse();
    }
    if n % 8 != 0 {
        return Text::new("gemv_split_k_v4 requires N divisible by 8, got ").n(n as u64).refuse();
    }
    let k_shard: u32 = shape::div_ceil(k, num_shards);
    let smem_bytes: u64 = k_shard as u64 * 2;
    if smem_bytes > 96 * 1024 {
        return Text::new("gemv_split_k_v4: k_shard=").n(k_shard as u64).s(" exceeds SMEM budget")
            .refuse();
    }
    let n_blocks: u32 = shape::div_ceil(n, 1024);
    Ok(
        Launch::new(
            "gemv_bf16_split_k_v4",
            "gemv_bf16_split_k_v4",
            (n_blocks, num_shards, 1),
            (128, 1, 1),
            smem_bytes as u32,
            vec![
                Arg::param(0), Arg::param(1), Arg::param(2), Arg::Word(n), Arg::Word(k),
                Arg::Word(k_shard),
            ],
        ),
    )
}

} // verus!
