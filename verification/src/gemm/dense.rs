//! Dense matrix products.
use crate::error::Result;
use crate::gemm::dims;
use crate::plan::{Arg, Launch, Plan};
use crate::plan;
use crate::shape;
use crate::tensor_map;
use crate::text::Text;
use crate::text;
use vstd::prelude::*;

verus! {

/// The answer of [`gemm_bf16`].
pub open spec fn gemm_bf16_plan(
    a_len: int, b_len: int, c_len: int, m: int, n: int, k: int,
) -> Plan {
    let grid_x = shape::ceil_div(n, 16);
    let grid_y = shape::ceil_div(m, 16);
    if let Some(fault) = dims::gemm_dims_fault(m, n, k) {
        Plan::Fail(fault)
    } else if a_len < m * k {
        Plan::invalid(
            "A buffer too small: "@ + text::decimal(a_len) + " < "@ + text::decimal(m * k),
        )
    } else if b_len < k * n {
        Plan::invalid(
            "B buffer too small: "@ + text::decimal(b_len) + " < "@ + text::decimal(k * n),
        )
    } else if c_len < m * n {
        Plan::invalid(
            "C buffer too small: "@ + text::decimal(c_len) + " < "@ + text::decimal(m * n),
        )
    } else {
        Plan::launch(
            "gemm_bf16"@,
            "gemm_bf16"@,
            (grid_x, grid_y, 1),
            (256, 1, 1),
            1024,
            seq![
                Arg::buffer(0), Arg::buffer(1), Arg::buffer(2), Arg::word(m), Arg::word(n),
                Arg::word(k),
            ],
        )
    }
}

/// Launch BF16 GEMM kernel: C[M,N] = A[M,K] x B[K,N]
pub fn gemm_bf16(
    a_len: usize,
    b_len: usize,
    c_len: usize,
    m: u32,
    n: u32,
    k: u32,
) -> (r: Result<Launch>)
    ensures
        plan::outcome(r) == gemm_bf16_plan(
            a_len as int, b_len as int, c_len as int, m as int, n as int, k as int,
        ),
        plan::launchable(r, 3),
{
    if let Err(e) = dims::validate_gemm_dims(m, n, k) {
        return Err(e);
    }
    if (a_len as u64) < shape::product(m, k) {
        return Text::new("A buffer too small: ").n(a_len as u64).s(" < ").n(shape::product(m, k))
            .refuse();
    }
    if (b_len as u64) < shape::product(k, n) {
        return Text::new("B buffer too small: ").n(b_len as u64).s(" < ").n(shape::product(k, n))
            .refuse();
    }
    if (c_len as u64) < shape::product(m, n) {
        return Text::new("C buffer too small: ").n(c_len as u64).s(" < ").n(shape::product(m, n))
            .refuse();
    }
    let grid_x: u32 = shape::div_ceil(n, 16);
    let grid_y: u32 = shape::div_ceil(m, 16);
    Ok(
        Launch::new(
            "gemm_bf16",
            "gemm_bf16",
            (grid_x, grid_y, 1),
            (256, 1, 1),
            1024,
            vec![
                Arg::param(0), Arg::param(1), Arg::param(2), Arg::Word(m), Arg::Word(n),
                Arg::Word(k),
            ],
        ),
    )
}

/// The answer of [`gemm_bf16_view`].
pub open spec fn gemm_bf16_view_plan(
    a_len: int, b_len: int, c_len: int, m: int, n: int, k: int,
) -> Plan {
    if let Some(fault) = dims::gemm_dims_fault(m, n, k) {
        Plan::Fail(fault)
    } else {
        Plan::launch(
            "gemm_bf16"@,
            "gemm_bf16"@,
            (shape::ceil_div(n, 16), shape::ceil_div(m, 16), 1),
            (256, 1, 1),
            1024,
            seq![
                Arg::buffer(0), Arg::buffer(1), Arg::buffer(2), Arg::word(m), Arg::word(n),
                Arg::word(k),
            ],
        )
    }
}

/// `gemm_bf16` (forward C = A @ B) on slices of larger batched buffers.
pub fn gemm_bf16_view(
    a_len: usize,
    b_len: usize,
    c_len: usize,
    m: u32,
    n: u32,
    k: u32,
) -> (r: Result<Launch>)
    ensures
        plan::outcome(r) == gemm_bf16_view_plan(
            a_len as int, b_len as int, c_len as int, m as int, n as int, k as int,
        ),
        plan::launchable(r, 3),
{
    if let Err(e) = dims::validate_gemm_dims(m, n, k) {
        return Err(e);
    }
    Ok(
        Launch::new(
            "gemm_bf16",
            "gemm_bf16",
            (shape::div_ceil(n, 16), shape::div_ceil(m, 16), 1),
            (256, 1, 1),
            1024,
            vec![
                Arg::param(0), Arg::param(1), Arg::param(2), Arg::Word(m), Arg::Word(n),
                Arg::Word(k),
            ],
        ),
    )
}

/// The answer of [`gemm_bf16_mma`].
pub open spec fn gemm_bf16_mma_plan(
    a_len: int, b_len: int, c_len: int, m: int, n: int, k: int,
) -> Plan {
    let grid_x = n / 64;
    let grid_y = m / 128;
    if let Some(fault) = dims::gemm_dims_fault(m, n, k) {
        Plan::Fail(fault)
    } else if m % 128 != 0 || n % 64 != 0 {
        Plan::invalid(
            "BF16 MMA GEMM requires M divisible by 128 and N by 64: M="@ + text::decimal(m)
                + ", N="@ + text::decimal(n),
        )
    } else if k % 16 != 0 {
        Plan::invalid("BF16 MMA GEMM requires K divisible by 16: K="@ + text::decimal(k))
    } else if a_len < m * k {
        Plan::invalid(
            "A buffer too small: "@ + text::decimal(a_len) + " < "@ + text::decimal(m * k),
        )
    } else if b_len < k * n {
        Plan::invalid(
            "B buffer too small: "@ + text::decimal(b_len) + " < "@ + text::decimal(k * n),
        )
    } else if c_len < m * n {
        Plan::invalid(
            "C buffer too small: "@ + text::decimal(c_len) + " < "@ + text::decimal(m * n),
        )
    } else {
        Plan::launch(
            "gemm_bf16_mma"@,
            "gemm_bf16_mma"@,
            (grid_x, grid_y, 1),
            (128, 1, 1),
            12288,
            seq![
                Arg::buffer(0), Arg::buffer(1), Arg::buffer(2), Arg::word(m), Arg::word(n),
                Arg::word(k),
            ],
        )
    }
}

/// Launch BF16 GEMM kernel using MMA (mma.sync.aligned.m16n8k16).
pub fn gemm_bf16_mma(
    a_len: usize,
    b_len: usize,
    c_len: usize,
    m: u32,
    n: u32,
    k: u32,
) -> (r: Result<Launch>)
    ensures
        plan::outcome(r) == gemm_bf16_mma_plan(
            a_len as int, b_len as int, c_len as int, m as int, n as int, k as int,
        ),
        plan::launchable(r, 3),
{
    if let Err(e) = dims::validate_gemm_dims(m, n, k) {
        return Err(e);
    }
    if m % 128 != 0 || n % 64 != 0 {
        return Text::new("BF16 MMA GEMM requires M divisible by 128 and N by 64: M=").n(m as u64)
            .s(", N=").n(n as u64).refuse();
    }
    if k % 16 != 0 {
        return Text::new("BF16 MMA GEMM requires K divisible by 16: K=").n(k as u64).refuse();
    }
    if (a_len as u64) < shape::product(m, k) {
        return Text::new("A buffer too small: ").n(a_len as u64).s(" < ").n(shape::product(m, k))
            .refuse();
    }
    if (b_len as u64) < shape::product(k, n) {
        return Text::new("B buffer too small: ").n(b_len as u64).s(" < ").n(shape::product(k, n))
            .refuse();
    }
    if (c_len as u64) < shape::product(m, n) {
        return Text::new("C buffer too small: ").n(c_len as u64).s(" < ").n(shape::product(m, n))
            .refuse();
    }
    let grid_x: u32 = n / 64;
    let grid_y: u32 = m / 128;
    Ok(
        Launch::new(
            "gemm_bf16_mma",
            "gemm_bf16_mma",
            (grid_x, grid_y, 1),
            (128, 1, 1),
            12288,
            vec![
                Arg::param(0), Arg::param(1), Arg::param(2), Arg::Word(m), Arg::Word(n),
                Arg::Word(k),
            ],
        ),
    )
}

/// The answer of [`gemm_bf16_mma_v2`].
pub open spec fn gemm_bf16_mma_v2_plan(
    a_len: int, b_len: int, c_len: int, m: int, n: int, k: int,
) -> Plan {
    let grid_x = n / 64;
    let grid_y = m / 128;
    if let Some(fault) = dims::gemm_dims_fault(m, n, k) {
        Plan::Fail(fault)
    } else if m % 128 != 0 || n % 64 != 0 {
        Plan::invalid(
            "BF16 MMA GEMM v2 requires M divisible by 128 and N by 64: M="@ + text::decimal(m)
                + ", N="@ + text::decimal(n),
        )
    } else if k % 32 != 0 {
        Plan::invalid("BF16 MMA GEMM v2 requires K divisible by 32: K="@ + text::decimal(k))
    } else if a_len < m * k || b_len < k * n || c_len < m * n {
        Plan::invalid("GEMM v2 buffer size mismatch"@)
    } else {
        Plan::launch(
            "gemm_bf16_mma_v2"@,
            "gemm_bf16_mma_v2"@,
            (grid_x, grid_y, 1),
            (128, 1, 1),
            0,
            seq![
                Arg::buffer(0), Arg::buffer(1), Arg::buffer(2), Arg::word(m), Arg::word(n),
                Arg::word(k),
            ],
        )
    }
}

/// Launch BF16 GEMM v2 — K-block = 32 (vs v1's 16) and 3-stage cp.async pipeline
/// (vs 2). Same 128×64 tile, same 4 warps. Halves loop overhead, doubles MMA per
/// K-iter. Requires M%128, N%64, K%32.
pub fn gemm_bf16_mma_v2(
    a_len: usize,
    b_len: usize,
    c_len: usize,
    m: u32,
    n: u32,
    k: u32,
) -> (r: Result<Launch>)
    ensures
        plan::outcome(r) == gemm_bf16_mma_v2_plan(
            a_len as int, b_len as int, c_len as int, m as int, n as int, k as int,
        ),
        plan::launchable(r, 3),
{
    if let Err(e) = dims::validate_gemm_dims(m, n, k) {
        return Err(e);
    }
    if m % 128 != 0 || n % 64 != 0 {
        return Text::new("BF16 MMA GEMM v2 requires M divisible by 128 and N by 64: M=").n(m as u64)
            .s(", N=").n(n as u64).refuse();
    }
    if k % 32 != 0 {
        return Text::new("BF16 MMA GEMM v2 requires K divisible by 32: K=").n(k as u64).refuse();
    }
    if (a_len as u64) < shape::product(m, k)
        || (b_len as u64) < shape::product(k, n)
        || (c_len as u64) < shape::product(m, n)
    {
        return Text::new("GEMM v2 buffer size mismatch").refuse();
    }
    let grid_x: u32 = n / 64;
    let grid_y: u32 = m / 128;
    Ok(
        Launch::new(
            "gemm_bf16_mma_v2",
            "gemm_bf16_mma_v2",
            (grid_x, grid_y, 1),
            (128, 1, 1),
            0,
            vec![
                Arg::param(0), Arg::param(1), Arg::param(2), Arg::Word(m), Arg::Word(n),
                Arg::Word(k),
            ],
        ),
    )
}

/// The answer of [`gemm_bf16_mma_v3`].
pub open spec fn gemm_bf16_mma_v3_plan(
    a_len: int, b_len: int, c_len: int, m: int, n: int, k: int,
) -> Plan {
    let grid_x = n / 128;
    let grid_y = m / 128;
    if let Some(fault) = dims::gemm_dims_fault(m, n, k) {
        Plan::Fail(fault)
    } else if m % 128 != 0 || n % 128 != 0 {
        Plan::invalid(
            "BF16 MMA GEMM v3 requires M and N divisible by 128: M="@ + text::decimal(m) + ", N="@
                + text::decimal(n),
        )
    } else if k % 32 != 0 {
        Plan::invalid("BF16 MMA GEMM v3 requires K divisible by 32: K="@ + text::decimal(k))
    } else if a_len < m * k || b_len < k * n || c_len < m * n {
        Plan::invalid("GEMM v3 buffer size mismatch"@)
    } else {
        Plan::launch(
            "gemm_bf16_mma_v3"@,
            "gemm_bf16_mma_v3"@,
            (grid_x, grid_y, 1),
            (256, 1, 1),
            0,
            seq![
                Arg::buffer(0), Arg::buffer(1), Arg::buffer(2), Arg::word(m), Arg::word(n),
                Arg::word(k),
            ],
        )
    }
}

/// Launch BF16 GEMM v3 — 128×128 tile (vs v1/v2's 128×64) with 8 warps in 2×4
/// layout. K=32 inner block, 2-stage cp.async pipeline. 32 KB static SMEM.
/// Targets large-shape regimes where v1's 4-warp 128×64 leaves tensor cores
/// unsaturated. Requires M%128, N%128, K%32.
pub fn gemm_bf16_mma_v3(
    a_len: usize,
    b_len: usize,
    c_len: usize,
    m: u32,
    n: u32,
    k: u32,
) -> (r: Result<Launch>)
    ensures
        plan::outcome(r) == gemm_bf16_mma_v3_plan(
            a_len as int, b_len as int, c_len as int, m as int, n as int, k as int,
        ),
        plan::launchable(r, 3),
{
    if let Err(e) = dims::validate_gemm_dims(m, n, k) {
        return Err(e);
    }
    if m % 128 != 0 || n % 128 != 0 {
        return Text::new("BF16 MMA GEMM v3 requires M and N divisible by 128: M=").n(m as u64)
            .s(", N=").n(n as u64).refuse();
    }
    if k % 32 != 0 {
        return Text::new("BF16 MMA GEMM v3 requires K divisible by 32: K=").n(k as u64).refuse();
    }
    if (a_len as u64) < shape::product(m, k)
        || (b_len as u64) < shape::product(k, n)
        || (c_len as u64) < shape::product(m, n)
    {
        return Text::new("GEMM v3 buffer size mismatch").refuse();
    }
    let grid_x: u32 = n / 128;
    let grid_y: u32 = m / 128;
    Ok(
        Launch::new(
            "gemm_bf16_mma_v3",
            "gemm_bf16_mma_v3",
            (grid_x, grid_y, 1),
            (256, 1, 1),
            0,
            vec![
                Arg::param(0), Arg::param(1), Arg::param(2), Arg::Word(m), Arg::Word(n),
                Arg::Word(k),
            ],
        ),
    )
}

/// The answer of [`gemm_bf16_mma_v5`].
pub open spec fn gemm_bf16_mma_v5_plan(
    a_len: int, b_len: int, c_len: int, m: int, n: int, k: int,
) -> Plan {
    let grid_x = n / 256;
    let grid_y = m / 128;
    if let Some(fault) = dims::gemm_dims_fault(m, n, k) {
        Plan::Fail(fault)
    } else if m % 128 != 0 || n % 256 != 0 {
        Plan::invalid(
            "BF16 MMA GEMM v5 requires M%128==0 and N%256==0: M="@ + text::decimal(m) + ", N="@
                + text::decimal(n),
        )
    } else if k % 32 != 0 {
        Plan::invalid("BF16 MMA GEMM v5 requires K divisible by 32: K="@ + text::decimal(k))
    } else if a_len < m * k || b_len < k * n || c_len < m * n {
        Plan::invalid("GEMM v5 buffer size mismatch"@)
    } else {
        Plan::launch(
            "gemm_bf16_mma_v5"@,
            "gemm_bf16_mma_v5"@,
            (grid_x, grid_y, 1),
            (256, 1, 1),
            0,
            seq![
                Arg::buffer(0), Arg::buffer(1), Arg::buffer(2), Arg::word(m), Arg::word(n),
                Arg::word(k),
            ],
        )
    }
}

/// BF16 MMA GEMM v5 — 128×256 register-blocked tile (vs v3's 128×128). Each
/// thread holds 128 FP32 accumulators (vs 64), trading occupancy (≈1 block/SM)
/// for compute-per-thread.
/// Requires M%128, N%256, K%32.
pub fn gemm_bf16_mma_v5(
    a_len: usize,
    b_len: usize,
    c_len: usize,
    m: u32,
    n: u32,
    k: u32,
) -> (r: Result<Launch>)
    ensures
        plan::outcome(r) == gemm_bf16_mma_v5_plan(
            a_len as int, b_len as int, c_len as int, m as int, n as int, k as int,
        ),
        plan::launchable(r, 3),
{
    if let Err(e) = dims::validate_gemm_dims(m, n, k) {
        return Err(e);
    }
    if m % 128 != 0 || n % 256 != 0 {
        return Text::new("BF16 MMA GEMM v5 requires M%128==0 and N%256==0: M=").n(m as u64)
            .s(", N=").n(n as u64).refuse();
    }
    if k % 32 != 0 {
        return Text::new("BF16 MMA GEMM v5 requires K divisible by 32: K=").n(k as u64).refuse();
    }
    if (a_len as u64) < shape::product(m, k)
        || (b_len as u64) < shape::product(k, n)
        || (c_len as u64) < shape::product(m, n)
    {
        return Text::new("GEMM v5 buffer size mismatch").refuse();
    }
    let grid_x: u32 = n / 256;
    let grid_y: u32 = m / 128;
    Ok(
        Launch::new(
            "gemm_bf16_mma_v5",
            "gemm_bf16_mma_v5",
            (grid_x, grid_y, 1),
            (256, 1, 1),
            0,
            vec![
                Arg::param(0), Arg::param(1), Arg::param(2), Arg::Word(m), Arg::Word(n),
                Arg::Word(k),
            ],
        ),
    )
}

/// The answer of [`gemm_bf16_mma_v4`].
pub open spec fn gemm_bf16_mma_v4_plan(
    a_len: int, b_len: int, c_len: int, m: int, n: int, k: int,
) -> Plan {
    let grid_n = n / 128;
    let grid_m = m / 128;
    if let Some(fault) = dims::gemm_dims_fault(m, n, k) {
        Plan::Fail(fault)
    } else if m % 128 != 0 || n % 128 != 0 || k % 32 != 0 {
        Plan::invalid(
            "v4 requires M%128==0, N%128==0, K%32==0; got M="@ + text::decimal(m) + ", N="@
                + text::decimal(n) + ", K="@ + text::decimal(k),
        )
    } else if a_len < m * k || b_len < k * n || c_len < m * n {
        Plan::invalid("buffer sizes too small"@)
    } else {
        Plan::raw_launch(
            "gemm_bf16_mma_v4"@,
            "gemm_bf16_mma_v4"@,
            (grid_n, grid_m, 1),
            (288, 1, 1),
            49232,
            seq![
                tensor_map::desc_bf16_2d(0, m, k, 128, 32),
                tensor_map::desc_bf16_2d(1, k, n, 32, 128),
            ],
            seq![
                Arg::Descriptor(0), Arg::Descriptor(1), Arg::buffer(2), Arg::word(m), Arg::word(n),
                Arg::word(k),
            ],
            Some("cuFuncSetAttribute MAX_DYNAMIC_SHARED_SIZE_BYTES=49232 failed: "@),
            "v4 cuLaunchKernel failed: "@,
        )
    }
}

/// Warp-specialized + TMA BF16 GEMM (v4). Requires M%128==0, N%128==0, K%32==0.
pub fn gemm_bf16_mma_v4(
    a_len: usize,
    b_len: usize,
    c_len: usize,
    m: u32,
    n: u32,
    k: u32,
) -> (r: Result<Launch>)
    ensures
        plan::outcome(r) == gemm_bf16_mma_v4_plan(
            a_len as int, b_len as int, c_len as int, m as int, n as int, k as int,
        ),
        plan::launchable(r, 3),
{
    if let Err(e) = dims::validate_gemm_dims(m, n, k) {
        return Err(e);
    }
    if m % 128 != 0 || n % 128 != 0 || k % 32 != 0 {
        return Text::new("v4 requires M%128==0, N%128==0, K%32==0; got M=").n(m as u64).s(", N=")
            .n(n as u64).s(", K=").n(k as u64).refuse();
    }
    if (a_len as u64) < shape::product(m, k)
        || (b_len as u64) < shape::product(k, n)
        || (c_len as u64) < shape::product(m, n)
    {
        return Text::new("buffer sizes too small").refuse();
    }
    let grid_n: u32 = n / 128;
    let grid_m: u32 = m / 128;
    Ok(
        Launch::raw(
            "gemm_bf16_mma_v4",
            "gemm_bf16_mma_v4",
            (grid_n, grid_m, 1),
            (288, 1, 1),
            49232,
            vec![
                tensor_map::create_tma_desc_bf16_2d(0, m, k, 128, 32),
                tensor_map::create_tma_desc_bf16_2d(1, k, n, 32, 128),
            ],
            vec![
                Arg::Descriptor(0), Arg::Descriptor(1), Arg::param(2), Arg::Word(m), Arg::Word(n),
                Arg::Word(k),
            ],
            Some("cuFuncSetAttribute MAX_DYNAMIC_SHARED_SIZE_BYTES=49232 failed: "),
            Text::new("v4 cuLaunchKernel failed: "),
        ),
    )
}

/// The answer of [`gemm_bf16_mma_v4_k64`].
pub open spec fn gemm_bf16_mma_v4_k64_plan(
    a_len: int, b_len: int, c_len: int, m: int, n: int, k: int,
) -> Plan {
    let grid_n = n / 128;
    let grid_m = m / 128;
    if let Some(fault) = dims::gemm_dims_fault(m, n, k) {
        Plan::Fail(fault)
    } else if m % 128 != 0 || n % 128 != 0 || k % 64 != 0 {
        Plan::invalid(
            "v4_k64 requires M%128==0, N%128==0, K%64==0; got M="@ + text::decimal(m) + ", N="@
                + text::decimal(n) + ", K="@ + text::decimal(k),
        )
    } else if a_len < m * k || b_len < k * n || c_len < m * n {
        Plan::invalid("buffer sizes too small"@)
    } else {
        Plan::raw_launch(
            "gemm_bf16_mma_v4_k64"@,
            "gemm_bf16_mma_v4_k64"@,
            (grid_n, grid_m, 1),
            (288, 1, 1),
            65584,
            seq![
                tensor_map::desc_bf16_2d(0, m, k, 128, 64),
                tensor_map::desc_bf16_2d(1, k, n, 64, 128),
            ],
            seq![
                Arg::Descriptor(0), Arg::Descriptor(1), Arg::buffer(2), Arg::word(m), Arg::word(n),
                Arg::word(k),
            ],
            Some("cuFuncSetAttribute MAX_DYNAMIC_SHARED_SIZE_BYTES=65584 failed: "@),
            "v4_k64 cuLaunchKernel failed: "@,
        )
    }
}

/// Warp-specialized + TMA BF16 GEMM with K-block=64 and a 2-stage pipeline. Each producer TMA pair
/// loads 16 KB A + 16 KB B: 64 KB of stages and 48 B of mbarriers in shared memory.
/// Requires M%128==0, N%128==0, K%64==0.
pub fn gemm_bf16_mma_v4_k64(
    a_len: usize,
    b_len: usize,
    c_len: usize,
    m: u32,
    n: u32,
    k: u32,
) -> (r: Result<Launch>)
    ensures
        plan::outcome(r) == gemm_bf16_mma_v4_k64_plan(
            a_len as int, b_len as int, c_len as int, m as int, n as int, k as int,
        ),
        plan::launchable(r, 3),
{
    if let Err(e) = dims::validate_gemm_dims(m, n, k) {
        return Err(e);
    }
    if m % 128 != 0 || n % 128 != 0 || k % 64 != 0 {
        return Text::new("v4_k64 requires M%128==0, N%128==0, K%64==0; got M=").n(m as u64)
            .s(", N=").n(n as u64).s(", K=").n(k as u64).refuse();
    }
    if (a_len as u64) < shape::product(m, k)
        || (b_len as u64) < shape::product(k, n)
        || (c_len as u64) < shape::product(m, n)
    {
        return Text::new("buffer sizes too small").refuse();
    }
    let grid_n: u32 = n / 128;
    let grid_m: u32 = m / 128;
    Ok(
        Launch::raw(
            "gemm_bf16_mma_v4_k64",
            "gemm_bf16_mma_v4_k64",
            (grid_n, grid_m, 1),
            (288, 1, 1),
            65584,
            vec![
                tensor_map::create_tma_desc_bf16_2d(0, m, k, 128, 64),
                tensor_map::create_tma_desc_bf16_2d(1, k, n, 64, 128),
            ],
            vec![
                Arg::Descriptor(0), Arg::Descriptor(1), Arg::param(2), Arg::Word(m), Arg::Word(n),
                Arg::Word(k),
            ],
            Some("cuFuncSetAttribute MAX_DYNAMIC_SHARED_SIZE_BYTES=65584 failed: "),
            Text::new("v4_k64 cuLaunchKernel failed: "),
        ),
    )
}

/// The answer of [`gemm_fp8_mma`].
pub open spec fn gemm_fp8_mma_plan(
    a_len: int, b_len: int, c_len: int, m: int, n: int, k: int,
) -> Plan {
    let grid_x = shape::ceil_div(n, 32);
    let grid_y = shape::ceil_div(m, 32);
    if let Some(fault) = dims::gemm_dims_fault(m, n, k) {
        Plan::Fail(fault)
    } else if let Some(fault) = dims::mma_alignment_fault(m, n, k, 32) {
        Plan::Fail(fault)
    } else if a_len < m * k {
        Plan::invalid(
            "A buffer too small: "@ + text::decimal(a_len) + " < "@ + text::decimal(m * k),
        )
    } else if b_len < k * n {
        Plan::invalid(
            "B buffer too small: "@ + text::decimal(b_len) + " < "@ + text::decimal(k * n),
        )
    } else if c_len < m * n {
        Plan::invalid(
            "C buffer too small: "@ + text::decimal(c_len) + " < "@ + text::decimal(m * n),
        )
    } else {
        Plan::launch(
            "gemm_fp8_mma"@,
            "gemm_fp8_mma"@,
            (grid_x, grid_y, 1),
            (32, 1, 1),
            2048,
            seq![
                Arg::buffer(0), Arg::buffer(1), Arg::buffer(2), Arg::word(m), Arg::word(n),
                Arg::word(k),
            ],
        )
    }
}

/// Launch FP8 GEMM kernel using MMA (mma.sync.aligned.m16n8k32).
pub fn gemm_fp8_mma(
    a_len: usize,
    b_len: usize,
    c_len: usize,
    m: u32,
    n: u32,
    k: u32,
) -> (r: Result<Launch>)
    ensures
        plan::outcome(r) == gemm_fp8_mma_plan(
            a_len as int, b_len as int, c_len as int, m as int, n as int, k as int,
        ),
        plan::launchable(r, 3),
{
    if let Err(e) = dims::validate_gemm_dims(m, n, k) {
        return Err(e);
    }
    if let Err(e) = dims::validate_mma_alignment(m, n, k, 32) {
        return Err(e);
    }
    if (a_len as u64) < shape::product(m, k) {
        return Text::new("A buffer too small: ").n(a_len as u64).s(" < ").n(shape::product(m, k))
            .refuse();
    }
    if (b_len as u64) < shape::product(k, n) {
        return Text::new("B buffer too small: ").n(b_len as u64).s(" < ").n(shape::product(k, n))
            .refuse();
    }
    if (c_len as u64) < shape::product(m, n) {
        return Text::new("C buffer too small: ").n(c_len as u64).s(" < ").n(shape::product(m, n))
            .refuse();
    }
    let grid_x: u32 = shape::div_ceil(n, 32);
    let grid_y: u32 = shape::div_ceil(m, 32);
    Ok(
        Launch::new(
            "gemm_fp8_mma",
            "gemm_fp8_mma",
            (grid_x, grid_y, 1),
            (32, 1, 1),
            2048,
            vec![
                Arg::param(0), Arg::param(1), Arg::param(2), Arg::Word(m), Arg::Word(n),
                Arg::Word(k),
            ],
        ),
    )
}

/// The answer of [`gemm_fp8_mma_v3`].
pub open spec fn gemm_fp8_mma_v3_plan(
    a_len: int, b_len: int, c_len: int, m: int, n: int, k: int,
) -> Plan {
    let grid_x = n / 128;
    let grid_y = m / 128;
    if let Some(fault) = dims::gemm_dims_fault(m, n, k) {
        Plan::Fail(fault)
    } else if m % 128 != 0 || n % 128 != 0 {
        Plan::invalid(
            "FP8 MMA GEMM v3 requires M and N divisible by 128: M="@ + text::decimal(m) + ", N="@
                + text::decimal(n),
        )
    } else if k % 32 != 0 {
        Plan::invalid("FP8 MMA GEMM v3 requires K divisible by 32: K="@ + text::decimal(k))
    } else if a_len < m * k || b_len < k * n || c_len < m * n {
        Plan::invalid("GEMM FP8 v3 buffer size mismatch"@)
    } else {
        Plan::launch(
            "gemm_fp8_mma_v3"@,
            "gemm_fp8_mma_v3"@,
            (grid_x, grid_y, 1),
            (256, 1, 1),
            0,
            seq![
                Arg::buffer(0), Arg::buffer(1), Arg::buffer(2), Arg::word(m), Arg::word(n),
                Arg::word(k),
            ],
        )
    }
}

/// Launch FP8 GEMM v3 — 128×128 tile (vs v1's 32×32) with 8 warps in 2×4 layout.
/// K=32 inner block, 2-stage cp.async pipeline. Requires M%128, N%128, K%32.
pub fn gemm_fp8_mma_v3(
    a_len: usize,
    b_len: usize,
    c_len: usize,
    m: u32,
    n: u32,
    k: u32,
) -> (r: Result<Launch>)
    ensures
        plan::outcome(r) == gemm_fp8_mma_v3_plan(
            a_len as int, b_len as int, c_len as int, m as int, n as int, k as int,
        ),
        plan::launchable(r, 3),
{
    if let Err(e) = dims::validate_gemm_dims(m, n, k) {
        return Err(e);
    }
    if m % 128 != 0 || n % 128 != 0 {
        return Text::new("FP8 MMA GEMM v3 requires M and N divisible by 128: M=").n(m as u64)
            .s(", N=").n(n as u64).refuse();
    }
    if k % 32 != 0 {
        return Text::new("FP8 MMA GEMM v3 requires K divisible by 32: K=").n(k as u64).refuse();
    }
    if (a_len as u64) < shape::product(m, k)
        || (b_len as u64) < shape::product(k, n)
        || (c_len as u64) < shape::product(m, n)
    {
        return Text::new("GEMM FP8 v3 buffer size mismatch").refuse();
    }
    let grid_x: u32 = n / 128;
    let grid_y: u32 = m / 128;
    Ok(
        Launch::new(
            "gemm_fp8_mma_v3",
            "gemm_fp8_mma_v3",
            (grid_x, grid_y, 1),
            (256, 1, 1),
            0,
            vec![
                Arg::param(0), Arg::param(1), Arg::param(2), Arg::Word(m), Arg::Word(n),
                Arg::Word(k),
            ],
        ),
    )
}

/// The answer of [`gemm_fp8_mma_v3_5`].
pub open spec fn gemm_fp8_mma_v3_5_plan(
    a_len: int, b_len: int, c_len: int, m: int, n: int, k: int,
) -> Plan {
    let grid_x = n / 128;
    let grid_y = m / 128;
    if let Some(fault) = dims::gemm_dims_fault(m, n, k) {
        Plan::Fail(fault)
    } else if m % 128 != 0 || n % 128 != 0 {
        Plan::invalid(
            "FP8 MMA GEMM v3.5 requires M and N divisible by 128: M="@ + text::decimal(m)
                + ", N="@ + text::decimal(n),
        )
    } else if k % 96 != 0 {
        Plan::invalid("FP8 MMA GEMM v3.5 requires K divisible by 96: K="@ + text::decimal(k))
    } else if a_len < m * k || b_len < k * n || c_len < m * n {
        Plan::invalid("GEMM FP8 v3.5 buffer size mismatch"@)
    } else {
        Plan::launch(
            "gemm_fp8_mma_v3_5"@,
            "gemm_fp8_mma_v3_5"@,
            (grid_x, grid_y, 1),
            (256, 1, 1),
            0,
            seq![
                Arg::buffer(0), Arg::buffer(1), Arg::buffer(2), Arg::word(m), Arg::word(n),
                Arg::word(k),
            ],
        )
    }
}

/// Launch FP8 GEMM v3.5 — same 128×128 tile + 8 warps as v3, 4-stage cp.async
/// pipeline (vs v3's 2). Requires M%128, N%128 and K%96: the 3-stage prologue covers K=0..95.
pub fn gemm_fp8_mma_v3_5(
    a_len: usize,
    b_len: usize,
    c_len: usize,
    m: u32,
    n: u32,
    k: u32,
) -> (r: Result<Launch>)
    ensures
        plan::outcome(r) == gemm_fp8_mma_v3_5_plan(
            a_len as int, b_len as int, c_len as int, m as int, n as int, k as int,
        ),
        plan::launchable(r, 3),
{
    if let Err(e) = dims::validate_gemm_dims(m, n, k) {
        return Err(e);
    }
    if m % 128 != 0 || n % 128 != 0 {
        return Text::new("FP8 MMA GEMM v3.5 requires M and N divisible by 128: M=").n(m as u64)
            .s(", N=").n(n as u64).refuse();
    }
    if k % 96 != 0 {
        return Text::new("FP8 MMA GEMM v3.5 requires K divisible by 96: K=").n(k as u64).refuse();
    }
    if (a_len as u64) < shape::product(m, k)
        || (b_len as u64) < shape::product(k, n)
        || (c_len as u64) < shape::product(m, n)
    {
        return Text::new("GEMM FP8 v3.5 buffer size mismatch").refuse();
    }
    let grid_x: u32 = n / 128;
    let grid_y: u32 = m / 128;
    Ok(
        Launch::new(
            "gemm_fp8_mma_v3_5",
            "gemm_fp8_mma_v3_5",
            (grid_x, grid_y, 1),
            (256, 1, 1),
            0,
            vec![
                Arg::param(0), Arg::param(1), Arg::param(2), Arg::Word(m), Arg::Word(n),
                Arg::Word(k),
            ],
        ),
    )
}

/// The answer of [`transpose_bf16`].
pub open spec fn transpose_bf16_plan(src_len: int, dst_len: int, m: int, n: int) -> Plan {
    let grid_x = shape::ceil_div(n, 32);
    let grid_y = shape::ceil_div(m, 32);
    if m == 0 || n == 0 {
        Plan::invalid(
            "transpose_bf16: M and N must be > 0 (got "@ + text::decimal(m) + "x"@
                + text::decimal(n) + ")"@,
        )
    } else if m * n > u32::MAX {
        Plan::Undefined
    } else if src_len < m * n || dst_len < m * n {
        Plan::invalid(
            "transpose_bf16: buffers too small src="@ + text::decimal(src_len) + " dst="@
                + text::decimal(dst_len) + " need="@ + text::decimal(m * n),
        )
    } else {
        Plan::launch(
            "transpose_bf16"@,
            "transpose_bf16"@,
            (grid_x, grid_y, 1),
            (32, 8, 1),
            0,
            seq![Arg::buffer(0), Arg::buffer(1), Arg::word(m), Arg::word(n)],
        )
    }
}

/// Out-of-place 2-D BF16 transpose: dst[N, M] = src[M, N].
pub fn transpose_bf16(src_len: usize, dst_len: usize, m: u32, n: u32) -> (r: Result<Launch>)
    requires
        transpose_bf16_plan(src_len as int, dst_len as int, m as int, n as int) !is Undefined,
    ensures
        plan::outcome(r) == transpose_bf16_plan(src_len as int, dst_len as int, m as int, n as int),
        plan::launchable(r, 2),
{
    if m == 0 || n == 0 {
        return Text::new("transpose_bf16: M and N must be > 0 (got ").n(m as u64).s("x").n(n as u64)
            .s(")").refuse();
    }
    if (src_len as u64) < ((m * n) as u64) || (dst_len as u64) < ((m * n) as u64) {
        return Text::new("transpose_bf16: buffers too small src=").n(src_len as u64).s(" dst=")
            .n(dst_len as u64).s(" need=").n((m * n) as u64).refuse();
    }
    let grid_x: u32 = shape::div_ceil(n, 32);
    let grid_y: u32 = shape::div_ceil(m, 32);
    Ok(
        Launch::new(
            "transpose_bf16",
            "transpose_bf16",
            (grid_x, grid_y, 1),
            (32, 8, 1),
            0,
            vec![Arg::param(0), Arg::param(1), Arg::Word(m), Arg::Word(n)],
        ),
    )
}

} // verus!
