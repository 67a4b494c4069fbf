//! Products with quantized operands.
use crate::error::Result;
use crate::gemm::dims;
use crate::plan::{Arg, F32, Launch, Plan};
use crate::plan;
use crate::shape;
use crate::text::Text;
use crate::text;
use vstd::prelude::*;

verus! {

/// The answer of [`gemm_nvfp4_mma`].
pub open spec fn gemm_nvfp4_mma_plan(
    a_len: int, b_len: int, c_len: int, scale_a_len: int, scale_b_len: int, m: int, n: int, k: int,
) -> Plan {
    let sa_need = shape::ceil_div(m, 16) * shape::ceil_div(k, 64);
    let sb_need = shape::ceil_div(k, 64) * shape::ceil_div(n, 8);
    let grid_x = shape::ceil_div(n, 32);
    let grid_y = shape::ceil_div(m, 32);
    if let Some(fault) = dims::gemm_dims_fault(m, n, k) {
        Plan::Fail(fault)
    } else if let Some(fault) = dims::mma_alignment_fault(m, n, k, 64) {
        Plan::Fail(fault)
    } else if scale_a_len < sa_need {
        Plan::invalid(
            "scale_a buffer too small: "@ + text::decimal(scale_a_len) + " < "@
                + text::decimal(sa_need) + " (ceil(M/16)*ceil(K/64))"@,
        )
    } else if scale_b_len < sb_need {
        Plan::invalid(
            "scale_b buffer too small: "@ + text::decimal(scale_b_len) + " < "@
                + text::decimal(sb_need) + " (ceil(K/64)*ceil(N/8))"@,
        )
    } else if a_len < m * k / 2 {
        Plan::invalid(
            "A buffer too small: "@ + text::decimal(a_len) + " < "@ + text::decimal(m * k / 2),
        )
    } else if b_len < k / 2 * n {
        Plan::invalid(
            "B buffer too small: "@ + text::decimal(b_len) + " < "@ + text::decimal(k / 2 * n),
        )
    } else if c_len < m * n {
        Plan::invalid(
            "C buffer too small: "@ + text::decimal(c_len) + " < "@ + text::decimal(m * n),
        )
    } else {
        Plan::launch(
            "gemm_nvfp4_mma"@,
            "gemm_nvfp4_mma"@,
            (grid_x, grid_y, 1),
            (32, 1, 1),
            2048,
            seq![
                Arg::buffer(0), Arg::buffer(1), Arg::buffer(2), Arg::buffer(3), Arg::buffer(4),
                Arg::word(m), Arg::word(n), Arg::word(k),
            ],
        )
    }
}

/// Launch NVFP4 block-scaled GEMM kernel using MMA.
pub fn gemm_nvfp4_mma(
    a_len: usize,
    b_len: usize,
    c_len: usize,
    scale_a_len: usize,
    scale_b_len: usize,
    m: u32,
    n: u32,
    k: u32,
) -> (r: Result<Launch>)
    ensures
        plan::outcome(r) == gemm_nvfp4_mma_plan(
            a_len as int, b_len as int, c_len as int, scale_a_len as int, scale_b_len as int,
            m as int, n as int, k as int,
        ),
        plan::launchable(r, 5),
{
    if let Err(e) = dims::validate_gemm_dims(m, n, k) {
        return Err(e);
    }
    if let Err(e) = dims::validate_mma_alignment(m, n, k, 64) {
        return Err(e);
    }
    let sa_need: u64 = shape::product(shape::div_ceil(m, 16), shape::div_ceil(k, 64));
    let sb_need: u64 = shape::product(shape::div_ceil(k, 64), shape::div_ceil(n, 8));
    if (scale_a_len as u64) < sa_need {
        return Text::new("scale_a buffer too small: ").n(scale_a_len as u64).s(" < ").n(sa_need)
            .s(" (ceil(M/16)*ceil(K/64))").refuse();
    }
    if (scale_b_len as u64) < sb_need {
        return Text::new("scale_b buffer too small: ").n(scale_b_len as u64).s(" < ").n(sb_need)
            .s(" (ceil(K/64)*ceil(N/8))").refuse();
    }
    if (a_len as u64) < shape::product(m, k) / 2 {
        return Text::new("A buffer too small: ").n(a_len as u64).s(" < ")
            .n(shape::product(m, k) / 2).refuse();
    }
    if (b_len as u64) < shape::product(k / 2, n) {
        return Text::new("B buffer too small: ").n(b_len as u64).s(" < ")
            .n(shape::product(k / 2, n)).refuse();
    }
    if (c_len as u64) < shape::product(m, n) {
        return Text::new("C buffer too small: ").n(c_len as u64).s(" < ").n(shape::product(m, n))
            .refuse();
    }
    let grid_x: u32 = shape::div_ceil(n, 32);
    let grid_y: u32 = shape::div_ceil(m, 32);
    Ok(
        Launch::new(
            "gemm_nvfp4_mma",
            "gemm_nvfp4_mma",
            (grid_x, grid_y, 1),
            (32, 1, 1),
            2048,
            vec![
                Arg::param(0), Arg::param(1), Arg::param(2), Arg::param(3), Arg::param(4),
                Arg::Word(m), Arg::Word(n), Arg::Word(k),
            ],
        ),
    )
}

/// The answer of [`gemm_w4a16_mma`].
pub open spec fn gemm_w4a16_mma_plan(
    a_len: int, w_len: int, c_len: int, scales_len: int, zeros_len: int, m: int, n: int, k: int,
) -> Plan {
    let grid_x = shape::ceil_div(n, 32);
    let grid_y = shape::ceil_div(m, 32);
    if let Some(fault) = dims::gemm_dims_fault(m, n, k) {
        Plan::Fail(fault)
    } else if let Some(fault) = dims::mma_alignment_fault(m, n, k, 16) {
        Plan::Fail(fault)
    } else if a_len < m * k {
        Plan::invalid(
            "A buffer too small: "@ + text::decimal(a_len) + " < "@ + text::decimal(m * k),
        )
    } else if w_len < k * n / 2 {
        Plan::invalid(
            "W buffer too small: "@ + text::decimal(w_len) + " < "@ + text::decimal(k * n / 2),
        )
    } else if c_len < m * n {
        Plan::invalid(
            "C buffer too small: "@ + text::decimal(c_len) + " < "@ + text::decimal(m * n),
        )
    } else if scales_len < n {
        Plan::invalid(
            "scales buffer too small: "@ + text::decimal(scales_len) + " < "@ + text::decimal(n),
        )
    } else if zeros_len < n {
        Plan::invalid(
            "zeros buffer too small: "@ + text::decimal(zeros_len) + " < "@ + text::decimal(n),
        )
    } else {
        Plan::launch(
            "gemm_w4a16_mma"@,
            "gemm_w4a16_mma"@,
            (grid_x, grid_y, 1),
            (32, 1, 1),
            2176,
            seq![
                Arg::buffer(0), Arg::buffer(1), Arg::buffer(2), Arg::buffer(3), Arg::buffer(4),
                Arg::word(m), Arg::word(n), Arg::word(k),
            ],
        )
    }
}

/// Launch W4A16 dequant GEMM kernel: C[M,N] = A[M,K] x dequant(W[K,N], scales, zeros)
pub fn gemm_w4a16_mma(
    a_len: usize,
    w_len: usize,
    c_len: usize,
    scales_len: usize,
    zeros_len: usize,
    m: u32,
    n: u32,
    k: u32,
) -> (r: Result<Launch>)
    ensures
        plan::outcome(r) == gemm_w4a16_mma_plan(
            a_len as int, w_len as int, c_len as int, scales_len as int, zeros_len as int, m as int,
            n as int, k as int,
        ),
        plan::launchable(r, 5),
{
    if let Err(e) = dims::validate_gemm_dims(m, n, k) {
        return Err(e);
    }
    if let Err(e) = dims::validate_mma_alignment(m, n, k, 16) {
        return Err(e);
    }
    if (a_len as u64) < shape::product(m, k) {
        return Text::new("A buffer too small: ").n(a_len as u64).s(" < ").n(shape::product(m, k))
            .refuse();
    }
    if (w_len as u64) < shape::product(k, n) / 2 {
        return Text::new("W buffer too small: ").n(w_len as u64).s(" < ")
            .n(shape::product(k, n) / 2).refuse();
    }
    if (c_len as u64) < shape::product(m, n) {
        return Text::new("C buffer too small: ").n(c_len as u64).s(" < ").n(shape::product(m, n))
            .refuse();
    }
    if (scales_len as u64) < (n as u64) {
        return Text::new("scales buffer too small: ").n(scales_len as u64).s(" < ").n(n as u64)
            .refuse();
    }
    if (zeros_len as u64) < (n as u64) {
        return Text::new("zeros buffer too small: ").n(zeros_len as u64).s(" < ").n(n as u64)
            .refuse();
    }
    let grid_x: u32 = shape::div_ceil(n, 32);
    let grid_y: u32 = shape::div_ceil(m, 32);
    Ok(
        Launch::new(
            "gemm_w4a16_mma",
            "gemm_w4a16_mma",
            (grid_x, grid_y, 1),
            (32, 1, 1),
            2176,
            vec![
                Arg::param(0), Arg::param(1), Arg::param(2), Arg::param(3), Arg::param(4),
                Arg::Word(m), Arg::Word(n), Arg::Word(k),
            ],
        ),
    )
}

/// The answer of [`gemm_fp8_block128`].
pub open spec fn gemm_fp8_block128_plan(
    a_len: int, b_len: int, scales_len: int, c_len: int, m: int, n: int, k: int,
) -> Plan {
    let scales_need = n * (k / 128);
    let grid_n = shape::ceil_div(n, 32);
    let grid_m = shape::ceil_div(m, 32);
    if m == 0 || n == 0 || k == 0 {
        Plan::invalid("dims must be > 0"@)
    } else if k % 128 != 0 {
        Plan::invalid("k must be divisible by 128 (DSv3 block size)"@)
    } else if m * k > u32::MAX {
        Plan::Undefined
    } else if a_len < m * k {
        Plan::invalid(
            "a buffer too small: "@ + text::decimal(a_len) + " < "@ + text::decimal(m * k),
        )
    } else if n * k > u32::MAX {
        Plan::Undefined
    } else if b_len < n * k {
        Plan::invalid(
            "b buffer too small: "@ + text::decimal(b_len) + " < "@ + text::decimal(n * k),
        )
    } else if scales_need > u32::MAX {
        Plan::Undefined
    } else if scales_len < scales_need {
        Plan::invalid(
            "scales buffer too small: "@ + text::decimal(scales_len) + " < "@
                + text::decimal(scales_need),
        )
    } else if m * n > u32::MAX {
        Plan::Undefined
    } else if c_len < m * n {
        Plan::invalid(
            "c buffer too small: "@ + text::decimal(c_len) + " < "@ + text::decimal(m * n),
        )
    } else {
        Plan::launch(
            "gemm_fp8_block128"@,
            "gemm_fp8_block128"@,
            (grid_n, grid_m, 1),
            (32, 1, 1),
            0,
            seq![
                Arg::buffer(0), Arg::buffer(1), Arg::buffer(2), Arg::buffer(3), Arg::word(m),
                Arg::word(n), Arg::word(k),
            ],
        )
    }
}

/// Dense GEMM with DSv3 block-scaled FP8 weights (BF16 activations).
pub fn gemm_fp8_block128(
    a_len: usize,
    b_len: usize,
    scales_len: usize,
    c_len: usize,
    m: u32,
    n: u32,
    k: u32,
) -> (r: Result<Launch>)
    requires
        gemm_fp8_block128_plan(
            a_len as int, b_len as int, scales_len as int, c_len as int, m as int, n as int,
            k as int,
        ) !is Undefined,
    ensures
        plan::outcome(r) == gemm_fp8_block128_plan(
            a_len as int, b_len as int, scales_len as int, c_len as int, m as int, n as int,
            k as int,
        ),
        plan::launchable(r, 4),
{
    if m == 0 || n == 0 || k == 0 {
        return Text::new("dims must be > 0").refuse();
    }
    if k % 128 != 0 {
        return Text::new("k must be divisible by 128 (DSv3 block size)").refuse();
    }
    if (a_len as u64) < ((m * k) as u64) {
        return Text::new("a buffer too small: ").n(a_len as u64).s(" < ").n((m * k) as u64)
            .refuse();
    }
    if (b_len as u64) < ((n * k) as u64) {
        return Text::new("b buffer too small: ").n(b_len as u64).s(" < ").n((n * k) as u64)
            .refuse();
    }
    let scales_need: u64 = (n * (k / 128)) as u64;
    if (scales_len as u64) < scales_need {
        return Text::new("scales buffer too small: ").n(scales_len as u64).s(" < ").n(scales_need)
            .refuse();
    }
    if (c_len as u64) < ((m * n) as u64) {
        return Text::new("c buffer too small: ").n(c_len as u64).s(" < ").n((m * n) as u64)
            .refuse();
    }
    let grid_n: u32 = shape::div_ceil(n, 32);
    let grid_m: u32 = shape::div_ceil(m, 32);
    Ok(
        Launch::new(
            "gemm_fp8_block128",
            "gemm_fp8_block128",
            (grid_n, grid_m, 1),
            (32, 1, 1),
            0,
            vec![
                Arg::param(0), Arg::param(1), Arg::param(2), Arg::param(3), Arg::Word(m),
                Arg::Word(n), Arg::Word(k),
            ],
        ),
    )
}

/// The answer of [`gemm_fp8_block128_mma`].
pub open spec fn gemm_fp8_block128_mma_plan(
    a_len: int, b_len: int, scales_len: int, c_len: int, m: int, n: int, k: int,
) -> Plan {
    let scales_need = n * (k / 128);
    let grid_n = shape::ceil_div(n, 32);
    let grid_m = shape::ceil_div(m, 32);
    if m == 0 || n == 0 || k == 0 {
        Plan::invalid("dims must be > 0"@)
    } else if k % 128 != 0 {
        Plan::invalid("k must be divisible by 128 (DSv3 block size)"@)
    } else if n % 2 != 0 {
        Plan::invalid("n must be even (kernel packs 2 BF16 per b32 store)"@)
    } else if m * k > u32::MAX {
        Plan::Undefined
    } else if a_len < m * k {
        Plan::invalid(
            "a buffer too small: "@ + text::decimal(a_len) + " < "@ + text::decimal(m * k),
        )
    } else if n * k > u32::MAX {
        Plan::Undefined
    } else if b_len < n * k {
        Plan::invalid(
            "b buffer too small: "@ + text::decimal(b_len) + " < "@ + text::decimal(n * k),
        )
    } else if scales_need > u32::MAX {
        Plan::Undefined
    } else if scales_len < scales_need {
        Plan::invalid(
            "scales buffer too small: "@ + text::decimal(scales_len) + " < "@
                + text::decimal(scales_need),
        )
    } else if m * n > u32::MAX {
        Plan::Undefined
    } else if c_len < m * n {
        Plan::invalid(
            "c buffer too small: "@ + text::decimal(c_len) + " < "@ + text::decimal(m * n),
        )
    } else {
        Plan::launch(
            "gemm_fp8_block128_mma"@,
            "gemm_fp8_block128_mma"@,
            (grid_n, grid_m, 1),
            (32, 1, 1),
            0,
            seq![
                Arg::buffer(0), Arg::buffer(1), Arg::buffer(2), Arg::buffer(3), Arg::word(m),
                Arg::word(n), Arg::word(k),
            ],
        )
    }
}

/// MMA-optimized variant of `gemm_fp8_block128`. Same math and layout, BF16
/// MMA m16n8k16 inner loop with vectorized B loads (1 col × 16 K-rows
/// contiguous per inner iter).
pub fn gemm_fp8_block128_mma(
    a_len: usize,
    b_len: usize,
    scales_len: usize,
    c_len: usize,
    m: u32,
    n: u32,
    k: u32,
) -> (r: Result<Launch>)
    requires
        gemm_fp8_block128_mma_plan(
            a_len as int, b_len as int, scales_len as int, c_len as int, m as int, n as int,
            k as int,
        ) !is Undefined,
    ensures
        plan::outcome(r) == gemm_fp8_block128_mma_plan(
            a_len as int, b_len as int, scales_len as int, c_len as int, m as int, n as int,
            k as int,
        ),
        plan::launchable(r, 4),
{
    if m == 0 || n == 0 || k == 0 {
        return Text::new("dims must be > 0").refuse();
    }
    if k % 128 != 0 {
        return Text::new("k must be divisible by 128 (DSv3 block size)").refuse();
    }
    if n % 2 != 0 {
        return Text::new("n must be even (kernel packs 2 BF16 per b32 store)").refuse();
    }
    if (a_len as u64) < ((m * k) as u64) {
        return Text::new("a buffer too small: ").n(a_len as u64).s(" < ").n((m * k) as u64)
            .refuse();
    }
    if (b_len as u64) < ((n * k) as u64) {
        return Text::new("b buffer too small: ").n(b_len as u64).s(" < ").n((n * k) as u64)
            .refuse();
    }
    let scales_need: u64 = (n * (k / 128)) as u64;
    if (scales_len as u64) < scales_need {
        return Text::new("scales buffer too small: ").n(scales_len as u64).s(" < ").n(scales_need)
            .refuse();
    }
    if (c_len as u64) < ((m * n) as u64) {
        return Text::new("c buffer too small: ").n(c_len as u64).s(" < ").n((m * n) as u64)
            .refuse();
    }
    let grid_n: u32 = shape::div_ceil(n, 32);
    let grid_m: u32 = shape::div_ceil(m, 32);
    Ok(
        Launch::new(
            "gemm_fp8_block128_mma",
            "gemm_fp8_block128_mma",
            (grid_n, grid_m, 1),
            (32, 1, 1),
            0,
            vec![
                Arg::param(0), Arg::param(1), Arg::param(2), Arg::param(3), Arg::Word(m),
                Arg::Word(n), Arg::Word(k),
            ],
        ),
    )
}

/// The answer of [`gemm_w8a16_mma_v3`].
pub open spec fn gemm_w8a16_mma_v3_plan(
    a_len: int, b_len: int, c_len: int, m: int, n: int, k: int, b_scale: F32,
    b_scale_text: Seq<char>,
) -> Plan {
    if let Some(fault) = dims::gemm_dims_fault(m, n, k) {
        Plan::Fail(fault)
    } else if m % 128 != 0 || n % 128 != 0 {
        Plan::invalid(
            "W8A16 MMA GEMM v3 requires M and N divisible by 128: M="@ + text::decimal(m) + ", N="@
                + text::decimal(n),
        )
    } else if k % 32 != 0 {
        Plan::invalid("W8A16 MMA GEMM v3 requires K divisible by 32: K="@ + text::decimal(k))
    } else if a_len < m * k || b_len < k * n || c_len < m * n {
        Plan::invalid("W8A16 v3 buffer size mismatch"@)
    } else if !b_scale.is_positive_finite() {
        Plan::invalid("b_scale must be > 0 and finite; got "@ + b_scale_text)
    } else {
        Plan::launch(
            "gemm_w8a16_mma_v3"@,
            "gemm_w8a16_mma_v3"@,
            (n / 128, m / 128, 1),
            (256, 1, 1),
            0,
            seq![
                Arg::buffer(0), Arg::buffer(1), Arg::buffer(2), Arg::word(m), Arg::word(n),
                Arg::word(k), Arg::Scalar(b_scale),
            ],
        )
    }
}

/// Dense W8A16 GEMM v3 — BF16 A × FP8 (E4M3) B × per-tensor scale → BF16 C.
/// 128×128 tile, 8 warps, K-block 32. Constraints: M%128, N%128, K%32. `b_scale_text` is how
/// `b_scale` prints.
pub fn gemm_w8a16_mma_v3(
    a_len: usize,
    b_len: usize,
    c_len: usize,
    m: u32,
    n: u32,
    k: u32,
    b_scale: F32,
    b_scale_text: &str,
) -> (r: Result<Launch>)
    ensures
        plan::outcome(r) == gemm_w8a16_mma_v3_plan(
            a_len as int, b_len as int, c_len as int, m as int, n as int, k as int, b_scale,
            b_scale_text@,
        ),
        plan::launchable(r, 3),
{
    if let Err(e) = dims::validate_gemm_dims(m, n, k) {
        return Err(e);
    }
    if m % 128 != 0 || n % 128 != 0 {
        return Text::new("W8A16 MMA GEMM v3 requires M and N divisible by 128: M=").n(m as u64)
            .s(", N=").n(n as u64).refuse();
    }
    if k % 32 != 0 {
        return Text::new("W8A16 MMA GEMM v3 requires K divisible by 32: K=").n(k as u64).refuse();
    }
    if (a_len as u64) < shape::product(m, k)
        || (b_len as u64) < shape::product(k, n)
        || (c_len as u64) < shape::product(m, n)
    {
        return Text::new("W8A16 v3 buffer size mismatch").refuse();
    }
    if !b_scale.positive_finite() {
        return Text::new("b_scale must be > 0 and finite; got ").s(b_scale_text).refuse();
    }
    Ok(
        Launch::new(
            "gemm_w8a16_mma_v3",
            "gemm_w8a16_mma_v3",
            (n / 128, m / 128, 1),
            (256, 1, 1),
            0,
            vec![
                Arg::param(0), Arg::param(1), Arg::param(2), Arg::Word(m), Arg::Word(n),
                Arg::Word(k), Arg::Scalar(b_scale),
            ],
        ),
    )
}

} // verus!
