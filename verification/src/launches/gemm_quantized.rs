//! What the launches of `gemm::quantized` hand to their kernels.
use crate::gemm::quantized;
use crate::launches::ffi;
use crate::launches::role::Role;
use crate::meaning;
use crate::plan::{Arg, F32, Plan};
use crate::shape;
use vstd::prelude::*;

verus! {

/// `gemm_nvfp4_mma` launches its kernel exactly where the sizes of the request are right, with
/// every argument what its role asks for, on blocks that cover the result.
pub proof fn gemm_nvfp4_mma_launches(
    a_len: int, b_len: int, c_len: int, scale_a_len: int, scale_b_len: int, m: int, n: int,
    k: int,
)
    requires
        m >= 0,
        n >= 0,
    ensures
        quantized::gemm_nvfp4_mma_plan(
            a_len, b_len, c_len, scale_a_len, scale_b_len, m, n, k,
        ) matches Plan::Fail(f) ==> f is InvalidArgument,
        quantized::gemm_nvfp4_mma_plan(
            a_len, b_len, c_len, scale_a_len, scale_b_len, m, n, k,
        ) !is Undefined,
        quantized::gemm_nvfp4_mma_plan(
            a_len, b_len, c_len, scale_a_len, scale_b_len, m, n, k,
        ) is Launch <==> {
            &&& m != 0
            &&& n != 0
            &&& k != 0
            &&& m % 32 == 0
            &&& n % 32 == 0
            &&& k % 64 == 0
            &&& scale_a_len >= shape::ceil_div(m, 16) * shape::ceil_div(k, 64)
            &&& scale_b_len >= shape::ceil_div(k, 64) * shape::ceil_div(n, 8)
            &&& a_len >= m * k / 2
            &&& b_len >= k / 2 * n
            &&& c_len >= m * n
        },
        quantized::gemm_nvfp4_mma_plan(
            a_len, b_len, c_len, scale_a_len, scale_b_len, m, n, k,
        ) matches Plan::Launch(l) ==> {
            &&& l.entry == "gemm_nvfp4_mma"@
            &&& l.kernel == "gemm_nvfp4_mma"@
            &&& l.args =~= ffi::gemm_nvfp4_mma_takes().map_values(
                |r: Role|
                    match r {
                        Role::Left => Arg::buffer(0),
                        Role::Right => Arg::buffer(1),
                        Role::Product => Arg::buffer(2),
                        Role::ScaleA => Arg::buffer(3),
                        Role::ScaleB => Arg::buffer(4),
                        Role::Rows => Arg::word(m),
                        Role::Columns => Arg::word(n),
                        Role::Depth => Arg::word(k),
                        _ => Arg::Word(0),
                    },
            )
            &&& meaning::covers(l.grid.0, 32, n)
            &&& meaning::covers(l.grid.1, 32, m)
            &&& l.grid.2 == 1
            &&& l.block == (32int, 1int, 1int)
            &&& l.shared_mem == 2048
            &&& l.opt_in is None
            &&& l.failure is None
            &&& l.tensor_maps.len() == 0
        },
{
    shape::lemma_ceil_div(n, 32);
    shape::lemma_ceil_div(m, 32);
}

/// `gemm_w4a16_mma` launches its kernel exactly where the sizes of the request are right, with
/// every argument what its role asks for, on blocks that cover the result.
pub proof fn gemm_w4a16_mma_launches(
    a_len: int, w_len: int, c_len: int, scales_len: int, zeros_len: int, m: int, n: int, k: int,
)
    requires
        m >= 0,
        n >= 0,
    ensures
        quantized::gemm_w4a16_mma_plan(
            a_len, w_len, c_len, scales_len, zeros_len, m, n, k,
        ) matches Plan::Fail(f) ==> f is InvalidArgument,
        quantized::gemm_w4a16_mma_plan(
            a_len, w_len, c_len, scales_len, zeros_len, m, n, k,
        ) !is Undefined,
        quantized::gemm_w4a16_mma_plan(
            a_len, w_len, c_len, scales_len, zeros_len, m, n, k,
        ) is Launch <==> {
            &&& m != 0
            &&& n != 0
            &&& k != 0
            &&& m % 32 == 0
            &&& n % 32 == 0
            &&& k % 16 == 0
            &&& a_len >= m * k
            &&& w_len >= k * n / 2
            &&& c_len >= m * n
            &&& scales_len >= n
            &&& zeros_len >= n
        },
        quantized::gemm_w4a16_mma_plan(
            a_len, w_len, c_len, scales_len, zeros_len, m, n, k,
        ) matches Plan::Launch(l) ==> {
            &&& l.entry == "gemm_w4a16_mma"@
            &&& l.kernel == "gemm_w4a16_mma"@
            &&& l.args =~= ffi::gemm_w4a16_mma_takes().map_values(
                |r: Role|
                    match r {
                        Role::Left => Arg::buffer(0),
                        Role::Weight => Arg::buffer(1),
                        Role::Product => Arg::buffer(2),
                        Role::Scales => Arg::buffer(3),
                        Role::Zeros => Arg::buffer(4),
                        Role::Rows => Arg::word(m),
                        Role::Columns => Arg::word(n),
                        Role::Depth => Arg::word(k),
                        _ => Arg::Word(0),
                    },
            )
            &&& meaning::covers(l.grid.0, 32, n)
            &&& meaning::covers(l.grid.1, 32, m)
            &&& l.grid.2 == 1
            &&& l.block == (32int, 1int, 1int)
            &&& l.shared_mem == 2176
            &&& l.opt_in is None
            &&& l.failure is None
            &&& l.tensor_maps.len() == 0
        },
{
    shape::lemma_ceil_div(n, 32);
    shape::lemma_ceil_div(m, 32);
}

/// What the kernel `gemm_fp8_block128` takes, in order.
pub open spec fn gemm_fp8_block128_takes() -> Seq<Role> {
    seq![
        Role::Left, Role::Right, Role::Scales, Role::Product, Role::Rows, Role::Columns,
        Role::Depth,
    ]
}

/// `gemm_fp8_block128` launches its kernel exactly where the sizes of the request are right, with
/// every argument what its role asks for, on blocks that cover the result.
pub proof fn gemm_fp8_block128_launches(
    a_len: int, b_len: int, scales_len: int, c_len: int, m: int, n: int, k: int,
)
    requires
        m >= 0,
        n >= 0,
    ensures
        quantized::gemm_fp8_block128_plan(
            a_len, b_len, scales_len, c_len, m, n, k,
        ) matches Plan::Fail(f) ==> f is InvalidArgument,
        quantized::gemm_fp8_block128_plan(
            a_len, b_len, scales_len, c_len, m, n, k,
        ) is Launch <==> {
            &&& m != 0
            &&& n != 0
            &&& k != 0
            &&& k % 128 == 0
            &&& m * k <= u32::MAX
            &&& a_len >= m * k
            &&& n * k <= u32::MAX
            &&& b_len >= n * k
            &&& (n * (k / 128)) <= u32::MAX
            &&& scales_len >= n * (k / 128)
            &&& m * n <= u32::MAX
            &&& c_len >= m * n
        },
        quantized::gemm_fp8_block128_plan(
            a_len, b_len, scales_len, c_len, m, n, k,
        ) matches Plan::Launch(l) ==> {
            &&& l.entry == "gemm_fp8_block128"@
            &&& l.kernel == "gemm_fp8_block128"@
            &&& l.args =~= gemm_fp8_block128_takes().map_values(
                |r: Role|
                    match r {
                        Role::Left => Arg::buffer(0),
                        Role::Right => Arg::buffer(1),
                        Role::Scales => Arg::buffer(2),
                        Role::Product => Arg::buffer(3),
                        Role::Rows => Arg::word(m),
                        Role::Columns => Arg::word(n),
                        Role::Depth => Arg::word(k),
                        _ => Arg::Word(0),
                    },
            )
            &&& meaning::covers(l.grid.0, 32, n)
            &&& meaning::covers(l.grid.1, 32, m)
            &&& l.grid.2 == 1
            &&& l.block == (32int, 1int, 1int)
            &&& l.shared_mem == 0
            &&& l.opt_in is None
            &&& l.failure is None
            &&& l.tensor_maps.len() == 0
        },
{
    shape::lemma_ceil_div(n, 32);
    shape::lemma_ceil_div(m, 32);
}

/// What the kernel `gemm_fp8_block128_mma` takes, in order.
pub open spec fn gemm_fp8_block128_mma_takes() -> Seq<Role> {
    seq![
        Role::Left, Role::Right, Role::Scales, Role::Product, Role::Rows, Role::Columns,
        Role::Depth,
    ]
}

/// `gemm_fp8_block128_mma` launches its kernel exactly where the sizes of the request are right,
/// with every argument what its role asks for, on blocks that cover the result.
pub proof fn gemm_fp8_block128_mma_launches(
    a_len: int, b_len: int, scales_len: int, c_len: int, m: int, n: int, k: int,
)
    requires
        m >= 0,
        n >= 0,
    ensures
        quantized::gemm_fp8_block128_mma_plan(
            a_len, b_len, scales_len, c_len, m, n, k,
        ) matches Plan::Fail(f) ==> f is InvalidArgument,
        quantized::gemm_fp8_block128_mma_plan(
            a_len, b_len, scales_len, c_len, m, n, k,
        ) is Launch <==> {
            &&& m != 0
            &&& n != 0
            &&& k != 0
            &&& k % 128 == 0
            &&& n % 2 == 0
            &&& m * k <= u32::MAX
            &&& a_len >= m * k
            &&& n * k <= u32::MAX
            &&& b_len >= n * k
            &&& (n * (k / 128)) <= u32::MAX
            &&& scales_len >= n * (k / 128)
            &&& m * n <= u32::MAX
            &&& c_len >= m * n
        },
        quantized::gemm_fp8_block128_mma_plan(
            a_len, b_len, scales_len, c_len, m, n, k,
        ) matches Plan::Launch(l) ==> {
            &&& l.entry == "gemm_fp8_block128_mma"@
            &&& l.kernel == "gemm_fp8_block128_mma"@
            &&& l.args =~= gemm_fp8_block128_mma_takes().map_values(
                |r: Role|
                    match r {
                        Role::Left => Arg::buffer(0),
                        Role::Right => Arg::buffer(1),
                        Role::Scales => Arg::buffer(2),
                        Role::Product => Arg::buffer(3),
                        Role::Rows => Arg::word(m),
                        Role::Columns => Arg::word(n),
                        Role::Depth => Arg::word(k),
                        _ => Arg::Word(0),
                    },
            )
            &&& meaning::covers(l.grid.0, 32, n)
            &&& meaning::covers(l.grid.1, 32, m)
            &&& l.grid.2 == 1
            &&& l.block == (32int, 1int, 1int)
            &&& l.shared_mem == 0
            &&& l.opt_in is None
            &&& l.failure is None
            &&& l.tensor_maps.len() == 0
        },
{
    shape::lemma_ceil_div(n, 32);
    shape::lemma_ceil_div(m, 32);
}

/// What the kernel `gemm_w8a16_mma_v3` takes, in order.
pub open spec fn gemm_w8a16_mma_v3_takes() -> Seq<Role> {
    seq![
        Role::Left, Role::Right, Role::Product, Role::Rows, Role::Columns, Role::Depth,
        Role::BScale,
    ]
}

/// `gemm_w8a16_mma_v3` launches its kernel exactly where the sizes of the request are right, with
/// every argument what its role asks for, on blocks that cover the result.
pub proof fn gemm_w8a16_mma_v3_launches(
    a_len: int, b_len: int, c_len: int, m: int, n: int, k: int, b_scale: F32,
    b_scale_text: Seq<char>,
)
    ensures
        quantized::gemm_w8a16_mma_v3_plan(
            a_len, b_len, c_len, m, n, k, b_scale, b_scale_text,
        ) matches Plan::Fail(f) ==> f is InvalidArgument,
        quantized::gemm_w8a16_mma_v3_plan(
            a_len, b_len, c_len, m, n, k, b_scale, b_scale_text,
        ) !is Undefined,
        quantized::gemm_w8a16_mma_v3_plan(
            a_len, b_len, c_len, m, n, k, b_scale, b_scale_text,
        ) is Launch <==> {
            &&& m != 0
            &&& n != 0
            &&& k != 0
            &&& m % 128 == 0
            &&& n % 128 == 0
            &&& k % 32 == 0
            &&& a_len >= m * k
            &&& b_len >= k * n
            &&& c_len >= m * n
            &&& b_scale.is_positive_finite()
        },
        quantized::gemm_w8a16_mma_v3_plan(
            a_len, b_len, c_len, m, n, k, b_scale, b_scale_text,
        ) matches Plan::Launch(l) ==> {
            &&& l.entry == "gemm_w8a16_mma_v3"@
            &&& l.kernel == "gemm_w8a16_mma_v3"@
            &&& l.args =~= gemm_w8a16_mma_v3_takes().map_values(
                |r: Role|
                    match r {
                        Role::Left => Arg::buffer(0),
                        Role::Right => Arg::buffer(1),
                        Role::Product => Arg::buffer(2),
                        Role::Rows => Arg::word(m),
                        Role::Columns => Arg::word(n),
                        Role::Depth => Arg::word(k),
                        Role::BScale => Arg::Scalar(b_scale),
                        _ => Arg::Word(0),
                    },
            )
            &&& l.grid.0 * 128 == n
            &&& l.grid.1 * 128 == m
            &&& l.grid.2 == 1
            &&& l.block == (256int, 1int, 1int)
            &&& l.shared_mem == 0
            &&& l.opt_in is None
            &&& l.failure is None
            &&& l.tensor_maps.len() == 0
        },
{
}

} // verus!
