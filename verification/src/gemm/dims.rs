//! Checks shared by the matrix products.
use crate::error::{Fault, Result};
use crate::plan;
use crate::shape;
use crate::text;
use crate::text::Text;
use vstd::prelude::*;

verus! {

/// Why a product of these dimensions cannot be formed.
pub open spec fn gemm_dims_fault(m: int, n: int, k: int) -> Option<Fault> {
    if m == 0 || n == 0 || k == 0 {
        Some(
            Fault::InvalidArgument(
                "GEMM dimensions must be > 0: M="@ + text::decimal(m) + ", N="@ + text::decimal(n)
                    + ", K="@ + text::decimal(k),
            ),
        )
    } else {
        None
    }
}

/// Checks that no dimension of a product is zero.
pub fn validate_gemm_dims(m: u32, n: u32, k: u32) -> (r: Result<()>)
    ensures
        plan::verdict(r) == gemm_dims_fault(m as int, n as int, k as int),
{
    if m == 0 || n == 0 || k == 0 {
        return Text::new("GEMM dimensions must be > 0: M=").n(m as u64).s(", N=").n(n as u64)
            .s(", K=").n(k as u64).refuse();
    }
    Ok(())
}

/// Why dimensions do not fit the tiles of a tensor-core product.
pub open spec fn mma_alignment_fault(m: int, n: int, k: int, k_align: int) -> Option<Fault> {
    if m % 32 != 0 || n % 32 != 0 {
        Some(
            Fault::InvalidArgument(
                "MMA GEMM requires M, N divisible by 32: M="@ + text::decimal(m) + ", N="@
                    + text::decimal(n),
            ),
        )
    } else if !shape::divides(k_align, k) {
        Some(
            Fault::InvalidArgument(
                "MMA GEMM requires K divisible by "@ + text::decimal(k_align) + ": K="@
                    + text::decimal(k),
            ),
        )
    } else {
        None
    }
}

/// Checks that dimensions fit the tiles of a tensor-core product.
pub fn validate_mma_alignment(m: u32, n: u32, k: u32, k_align: u32) -> (r: Result<()>)
    ensures
        plan::verdict(r) == mma_alignment_fault(m as int, n as int, k as int, k_align as int),
{
    if m % 32 != 0 || n % 32 != 0 {
        return Text::new("MMA GEMM requires M, N divisible by 32: M=").n(m as u64).s(", N=")
            .n(n as u64).refuse();
    }
    if !k.is_multiple_of(k_align) {
        return Text::new("MMA GEMM requires K divisible by ").n(k_align as u64).s(": K=")
            .n(k as u64).refuse();
    }
    Ok(())
}

} // verus!
