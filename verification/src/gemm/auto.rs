//! Choosing among the kernels for a matrix product.
use crate::error::Result;
use crate::gemm::dense;
use crate::plan;
use crate::plan::{Launch, Plan};
use vstd::prelude::*;

verus! {

/// Whether the 128×128 tile fits the shape.
pub open spec fn v3_eligible(m: int, n: int, k: int) -> bool {
    m % 128 == 0 && n % 128 == 0 && k % 32 == 0
}

/// Whether a BF16 product has enough 128×128 tiles to keep the multiprocessors busy.
pub open spec fn large_enough(m: int, n: int) -> bool {
    (m >= 1024 && n >= 1024) || (m >= 256 && n >= 4096)
}

/// The answer of [`gemm_bf16_mma_auto`].
pub open spec fn gemm_bf16_mma_auto_plan(
    a_len: int, b_len: int, c_len: int, m: int, n: int, k: int,
) -> Plan {
    if m % 128 != 0 || n % 64 != 0 {
        dense::gemm_bf16_plan(a_len, b_len, c_len, m, n, k)
    } else if v3_eligible(m, n, k) && 128 <= m < 2048 && n >= 65536 && k >= 1024 {
        dense::gemm_bf16_mma_v4_plan(a_len, b_len, c_len, m, n, k)
    } else if v3_eligible(m, n, k) && large_enough(m, n) {
        dense::gemm_bf16_mma_v3_plan(a_len, b_len, c_len, m, n, k)
    } else {
        dense::gemm_bf16_mma_plan(a_len, b_len, c_len, m, n, k)
    }
}

/// Auto-dispatch BF16 GEMM. Shapes that no tensor-core tile fits go to the scalar kernel. Large
/// shapes, which fill the multiprocessors with 128×128 tiles, go to v3, all of 2048×2048 and more
/// among them. Below that many rows, very wide outputs go to the warp-specialized v4. The rest
/// goes to v1.
pub fn gemm_bf16_mma_auto(
    a_len: usize,
    b_len: usize,
    c_len: usize,
    m: u32,
    n: u32,
    k: u32,
) -> (r: Result<Launch>)
    ensures
        plan::outcome(r) == gemm_bf16_mma_auto_plan(
            a_len as int, b_len as int, c_len as int, m as int, n as int, k as int,
        ),
        plan::launchable(r, 3),
{
    let v3_eligible = m % 128 == 0 && n % 128 == 0 && k % 32 == 0;
    let large_enough = (m >= 1024 && n >= 1024) || (m >= 256 && n >= 4096);
    let v4_huge_n = v3_eligible && m >= 128 && m < 2048 && n >= 65536 && k >= 1024;
    let mma_aligned = m % 128 == 0 && n % 64 == 0;
    if !mma_aligned {
        dense::gemm_bf16(a_len, b_len, c_len, m, n, k)
    } else if v4_huge_n {
        dense::gemm_bf16_mma_v4(a_len, b_len, c_len, m, n, k)
    } else if v3_eligible && large_enough {
        dense::gemm_bf16_mma_v3(a_len, b_len, c_len, m, n, k)
    } else {
        dense::gemm_bf16_mma(a_len, b_len, c_len, m, n, k)
    }
}

/// The answer of [`gemm_fp8_mma_auto`].
pub open spec fn gemm_fp8_mma_auto_plan(
    a_len: int, b_len: int, c_len: int, m: int, n: int, k: int,
) -> Plan {
    if v3_eligible(m, n, k) && m >= 1024 && n >= 1024 {
        dense::gemm_fp8_mma_v3_plan(a_len, b_len, c_len, m, n, k)
    } else {
        dense::gemm_fp8_mma_plan(a_len, b_len, c_len, m, n, k)
    }
}

/// Auto-dispatch FP8 GEMM. Routes to v3 (128×128 tile, 8 warps) for shapes that satisfy its
/// constraints and are large enough to saturate the multiprocessors (M ≥ 1024 and N ≥ 1024), and
/// to v1 (32×32 tile) otherwise.
pub fn gemm_fp8_mma_auto(
    a_len: usize,
    b_len: usize,
    c_len: usize,
    m: u32,
    n: u32,
    k: u32,
) -> (r: Result<Launch>)
    ensures
        plan::outcome(r) == gemm_fp8_mma_auto_plan(
            a_len as int, b_len as int, c_len as int, m as int, n as int, k as int,
        ),
        plan::launchable(r, 3),
{
    let v3_eligible = m % 128 == 0 && n % 128 == 0 && k % 32 == 0;
    if v3_eligible && m >= 1024 && n >= 1024 {
        dense::gemm_fp8_mma_v3(a_len, b_len, c_len, m, n, k)
    } else {
        dense::gemm_fp8_mma(a_len, b_len, c_len, m, n, k)
    }
}

/// The automatic BF16 product takes every shape whose buffers are large enough, but for a
/// shape of whole tensor-core tiles whose inner dimension is no multiple of 16.
pub proof fn automatic_product_takes_shapes(
    a_len: int, b_len: int, c_len: int, m: int, n: int, k: int,
)
    requires
        m > 0,
        n > 0,
        k > 0,
    ensures
        gemm_bf16_mma_auto_plan(a_len, b_len, c_len, m, n, k) is Launch <==> {
            &&& a_len >= m * k && b_len >= k * n && c_len >= m * n
            &&& m % 128 == 0 && n % 64 == 0 ==> k % 16 == 0
        },
{
}

/// The automatic FP8 product takes every shape of whole 32×32×32 tiles whose buffers are large
/// enough.
pub proof fn automatic_fp8_product_takes_shapes(
    a_len: int, b_len: int, c_len: int, m: int, n: int, k: int,
)
    requires
        m > 0,
        n > 0,
        k > 0,
    ensures
        gemm_fp8_mma_auto_plan(a_len, b_len, c_len, m, n, k) is Launch <==> {
            &&& a_len >= m * k && b_len >= k * n && c_len >= m * n
            &&& m % 32 == 0 && n % 32 == 0 && k % 32 == 0
        },
{
}

} // verus!
