//! What the launches of `gemm::dense` hand to their kernels.
use crate::gemm::dense;
use crate::launches::ffi;
use crate::launches::role::Role;
use crate::launches::role;
use crate::meaning;
use crate::plan::{Arg, MapElem, Plan, Swizzle};
use crate::shape;
use vstd::prelude::*;

verus! {

/// What the kernel `gemm_bf16` takes, in order.
pub open spec fn gemm_bf16_takes() -> Seq<Role> {
    seq![Role::Left, Role::Right, Role::Product, Role::Rows, Role::Columns, Role::Depth]
}

/// `gemm_bf16` launches its kernel exactly where the sizes of the request are right, with every
/// argument what its role asks for, on blocks that cover the result.
pub proof fn gemm_bf16_launches(a_len: int, b_len: int, c_len: int, m: int, n: int, k: int)
    requires
        m >= 0,
        n >= 0,
    ensures
        dense::gemm_bf16_plan(a_len, b_len, c_len, m, n, k) matches Plan::Fail(
            f,
        ) ==> f is InvalidArgument,
        dense::gemm_bf16_plan(a_len, b_len, c_len, m, n, k) !is Undefined,
        dense::gemm_bf16_plan(a_len, b_len, c_len, m, n, k) is Launch <==> {
            &&& m != 0
            &&& n != 0
            &&& k != 0
            &&& a_len >= m * k
            &&& b_len >= k * n
            &&& c_len >= m * n
        },
        dense::gemm_bf16_plan(a_len, b_len, c_len, m, n, k) matches Plan::Launch(l) ==> {
            &&& l.entry == "gemm_bf16"@
            &&& l.kernel == "gemm_bf16"@
            &&& l.args =~= gemm_bf16_takes().map_values(
                |r: Role|
                    match r {
                        Role::Left => Arg::buffer(0),
                        Role::Right => Arg::buffer(1),
                        Role::Product => Arg::buffer(2),
                        Role::Rows => Arg::word(m),
                        Role::Columns => Arg::word(n),
                        Role::Depth => Arg::word(k),
                        _ => Arg::Word(0),
                    },
            )
            &&& meaning::covers(l.grid.0, 16, n)
            &&& meaning::covers(l.grid.1, 16, m)
            &&& l.grid.2 == 1
            &&& l.block == (256int, 1int, 1int)
            &&& l.shared_mem == 1024
            &&& l.opt_in is None
            &&& l.failure is None
            &&& l.tensor_maps.len() == 0
        },
{
    shape::lemma_ceil_div(n, 16);
    shape::lemma_ceil_div(m, 16);
}

/// `gemm_bf16_view` launches its kernel exactly where the sizes of the request are right, with
/// every argument what its role asks for, on blocks that cover the result.
pub proof fn gemm_bf16_view_launches(a_len: int, b_len: int, c_len: int, m: int, n: int, k: int)
    requires
        m >= 0,
        n >= 0,
    ensures
        dense::gemm_bf16_view_plan(a_len, b_len, c_len, m, n, k) matches Plan::Fail(
            f,
        ) ==> f is InvalidArgument,
        dense::gemm_bf16_view_plan(a_len, b_len, c_len, m, n, k) !is Undefined,
        dense::gemm_bf16_view_plan(a_len, b_len, c_len, m, n, k) is Launch <==> {
            &&& m != 0
            &&& n != 0
            &&& k != 0
        },
        dense::gemm_bf16_view_plan(a_len, b_len, c_len, m, n, k) matches Plan::Launch(l) ==> {
            &&& l.entry == "gemm_bf16"@
            &&& l.kernel == "gemm_bf16"@
            &&& l.args =~= gemm_bf16_takes().map_values(
                |r: Role|
                    match r {
                        Role::Left => Arg::buffer(0),
                        Role::Right => Arg::buffer(1),
                        Role::Product => Arg::buffer(2),
                        Role::Rows => Arg::word(m),
                        Role::Columns => Arg::word(n),
                        Role::Depth => Arg::word(k),
                        _ => Arg::Word(0),
                    },
            )
            &&& meaning::covers(l.grid.0, 16, n)
            &&& meaning::covers(l.grid.1, 16, m)
            &&& l.grid.2 == 1
            &&& l.block == (256int, 1int, 1int)
            &&& l.shared_mem == 1024
            &&& l.opt_in is None
            &&& l.failure is None
            &&& l.tensor_maps.len() == 0
        },
{
    shape::lemma_ceil_div(n, 16);
    shape::lemma_ceil_div(m, 16);
}

/// `gemm_bf16_mma` launches its kernel exactly where the sizes of the request are right, with
/// every argument what its role asks for, on blocks that cover the result.
pub proof fn gemm_bf16_mma_launches(a_len: int, b_len: int, c_len: int, m: int, n: int, k: int)
    ensures
        dense::gemm_bf16_mma_plan(a_len, b_len, c_len, m, n, k) matches Plan::Fail(
            f,
        ) ==> f is InvalidArgument,
        dense::gemm_bf16_mma_plan(a_len, b_len, c_len, m, n, k) !is Undefined,
        dense::gemm_bf16_mma_plan(a_len, b_len, c_len, m, n, k) is Launch <==> {
            &&& m != 0
            &&& n != 0
            &&& k != 0
            &&& m % 128 == 0
            &&& n % 64 == 0
            &&& k % 16 == 0
            &&& a_len >= m * k
            &&& b_len >= k * n
            &&& c_len >= m * n
        },
        dense::gemm_bf16_mma_plan(a_len, b_len, c_len, m, n, k) matches Plan::Launch(l) ==> {
            &&& l.entry == "gemm_bf16_mma"@
            &&& l.kernel == "gemm_bf16_mma"@
            &&& l.args =~= ffi::gemm_bf16_mma_takes().map_values(
                |r: Role|
                    match r {
                        Role::Left => Arg::buffer(0),
                        Role::Right => Arg::buffer(1),
                        Role::Product => Arg::buffer(2),
                        Role::Rows => Arg::word(m),
                        Role::Columns => Arg::word(n),
                        Role::Depth => Arg::word(k),
                        _ => Arg::Word(0),
                    },
            )
            &&& l.grid.0 * 64 == n
            &&& l.grid.1 * 128 == m
            &&& l.grid.2 == 1
            &&& l.block == (128int, 1int, 1int)
            &&& l.shared_mem == 12288
            &&& l.opt_in is None
            &&& l.failure is None
            &&& l.tensor_maps.len() == 0
        },
{
}

/// What the kernel `gemm_bf16_mma_v2` takes, in order.
pub open spec fn gemm_bf16_mma_v2_takes() -> Seq<Role> {
    seq![Role::Left, Role::Right, Role::Product, Role::Rows, Role::Columns, Role::Depth]
}

/// `gemm_bf16_mma_v2` launches its kernel exactly where the sizes of the request are right, with
/// every argument what its role asks for, on blocks that cover the result.
pub proof fn gemm_bf16_mma_v2_launches(a_len: int, b_len: int, c_len: int, m: int, n: int, k: int)
    ensures
        dense::gemm_bf16_mma_v2_plan(a_len, b_len, c_len, m, n, k) matches Plan::Fail(
            f,
        ) ==> f is InvalidArgument,
        dense::gemm_bf16_mma_v2_plan(a_len, b_len, c_len, m, n, k) !is Undefined,
        dense::gemm_bf16_mma_v2_plan(a_len, b_len, c_len, m, n, k) is Launch <==> {
            &&& m != 0
            &&& n != 0
            &&& k != 0
            &&& m % 128 == 0
            &&& n % 64 == 0
            &&& k % 32 == 0
            &&& a_len >= m * k
            &&& b_len >= k * n
            &&& c_len >= m * n
        },
        dense::gemm_bf16_mma_v2_plan(a_len, b_len, c_len, m, n, k) matches Plan::Launch(l) ==> {
            &&& l.entry == "gemm_bf16_mma_v2"@
            &&& l.kernel == "gemm_bf16_mma_v2"@
            &&& l.args =~= gemm_bf16_mma_v2_takes().map_values(
                |r: Role|
                    match r {
                        Role::Left => Arg::buffer(0),
                        Role::Right => Arg::buffer(1),
                        Role::Product => Arg::buffer(2),
                        Role::Rows => Arg::word(m),
                        Role::Columns => Arg::word(n),
                        Role::Depth => Arg::word(k),
                        _ => Arg::Word(0),
                    },
            )
            &&& l.grid.0 * 64 == n
            &&& l.grid.1 * 128 == m
            &&& l.grid.2 == 1
            &&& l.block == (128int, 1int, 1int)
            &&& l.shared_mem == 0
            &&& l.opt_in is None
            &&& l.failure is None
            &&& l.tensor_maps.len() == 0
        },
{
}

/// What the kernel `gemm_bf16_mma_v3` takes, in order.
pub open spec fn gemm_bf16_mma_v3_takes() -> Seq<Role> {
    seq![Role::Left, Role::Right, Role::Product, Role::Rows, Role::Columns, Role::Depth]
}

/// `gemm_bf16_mma_v3` launches its kernel exactly where the sizes of the request are right, with
/// every argument what its role asks for, on blocks that cover the result.
pub proof fn gemm_bf16_mma_v3_launches(a_len: int, b_len: int, c_len: int, m: int, n: int, k: int)
    ensures
        dense::gemm_bf16_mma_v3_plan(a_len, b_len, c_len, m, n, k) matches Plan::Fail(
            f,
        ) ==> f is InvalidArgument,
        dense::gemm_bf16_mma_v3_plan(a_len, b_len, c_len, m, n, k) !is Undefined,
        dense::gemm_bf16_mma_v3_plan(a_len, b_len, c_len, m, n, k) is Launch <==> {
            &&& m != 0
            &&& n != 0
            &&& k != 0
            &&& m % 128 == 0
            &&& n % 128 == 0
            &&& k % 32 == 0
            &&& a_len >= m * k
            &&& b_len >= k * n
            &&& c_len >= m * n
        },
        dense::gemm_bf16_mma_v3_plan(a_len, b_len, c_len, m, n, k) matches Plan::Launch(l) ==> {
            &&& l.entry == "gemm_bf16_mma_v3"@
            &&& l.kernel == "gemm_bf16_mma_v3"@
            &&& l.args =~= gemm_bf16_mma_v3_takes().map_values(
                |r: Role|
                    match r {
                        Role::Left => Arg::buffer(0),
                        Role::Right => Arg::buffer(1),
                        Role::Product => Arg::buffer(2),
                        Role::Rows => Arg::word(m),
                        Role::Columns => Arg::word(n),
                        Role::Depth => Arg::word(k),
                        _ => Arg::Word(0),
                    },
            )
            &&& l.grid.0 * 128 == n
            &&& l.grid.1 * 128 == m
            &&& l.grid.2 == 1
            &&& l.block == (256int, 1int, 1int)
            &&& l.shared_mem == 0
            &&& l.opt_in is None
            &&& l.failure is None
            &&& l.tensor_maps.len() == 0
        },
{
}

/// What the kernel `gemm_bf16_mma_v5` takes, in order.
pub open spec fn gemm_bf16_mma_v5_takes() -> Seq<Role> {
    seq![Role::Left, Role::Right, Role::Product, Role::Rows, Role::Columns, Role::Depth]
}

/// `gemm_bf16_mma_v5` launches its kernel exactly where the sizes of the request are right, with
/// every argument what its role asks for, on blocks that cover the result.
pub proof fn gemm_bf16_mma_v5_launches(a_len: int, b_len: int, c_len: int, m: int, n: int, k: int)
    ensures
        dense::gemm_bf16_mma_v5_plan(a_len, b_len, c_len, m, n, k) matches Plan::Fail(
            f,
        ) ==> f is InvalidArgument,
        dense::gemm_bf16_mma_v5_plan(a_len, b_len, c_len, m, n, k) !is Undefined,
        dense::gemm_bf16_mma_v5_plan(a_len, b_len, c_len, m, n, k) is Launch <==> {
            &&& m != 0
            &&& n != 0
            &&& k != 0
            &&& m % 128 == 0
            &&& n % 256 == 0
            &&& k % 32 == 0
            &&& a_len >= m * k
            &&& b_len >= k * n
            &&& c_len >= m * n
        },
        dense::gemm_bf16_mma_v5_plan(a_len, b_len, c_len, m, n, k) matches Plan::Launch(l) ==> {
            &&& l.entry == "gemm_bf16_mma_v5"@
            &&& l.kernel == "gemm_bf16_mma_v5"@
            &&& l.args =~= gemm_bf16_mma_v5_takes().map_values(
                |r: Role|
                    match r {
                        Role::Left => Arg::buffer(0),
                        Role::Right => Arg::buffer(1),
                        Role::Product => Arg::buffer(2),
                        Role::Rows => Arg::word(m),
                        Role::Columns => Arg::word(n),
                        Role::Depth => Arg::word(k),
                        _ => Arg::Word(0),
                    },
            )
            &&& l.grid.0 * 256 == n
            &&& l.grid.1 * 128 == m
            &&& l.grid.2 == 1
            &&& l.block == (256int, 1int, 1int)
            &&& l.shared_mem == 0
            &&& l.opt_in is None
            &&& l.failure is None
            &&& l.tensor_maps.len() == 0
        },
{
}

/// What the kernel `gemm_bf16_mma_v4` takes, in order.
pub open spec fn gemm_bf16_mma_v4_takes() -> Seq<Role> {
    seq![Role::LeftTiles, Role::RightTiles, Role::Product, Role::Rows, Role::Columns, Role::Depth]
}

/// `gemm_bf16_mma_v4` launches its kernel exactly where the sizes of the request are right, with
/// every argument what its role asks for, on blocks that cover the result.
pub proof fn gemm_bf16_mma_v4_launches(a_len: int, b_len: int, c_len: int, m: int, n: int, k: int)
    ensures
        dense::gemm_bf16_mma_v4_plan(a_len, b_len, c_len, m, n, k) matches Plan::Fail(
            f,
        ) ==> f is InvalidArgument,
        dense::gemm_bf16_mma_v4_plan(a_len, b_len, c_len, m, n, k) !is Undefined,
        dense::gemm_bf16_mma_v4_plan(a_len, b_len, c_len, m, n, k) is Launch <==> {
            &&& m != 0
            &&& n != 0
            &&& k != 0
            &&& m % 128 == 0
            &&& n % 128 == 0
            &&& k % 32 == 0
            &&& a_len >= m * k
            &&& b_len >= k * n
            &&& c_len >= m * n
        },
        dense::gemm_bf16_mma_v4_plan(a_len, b_len, c_len, m, n, k) matches Plan::Launch(l) ==> {
            &&& l.entry == "gemm_bf16_mma_v4"@
            &&& l.kernel == "gemm_bf16_mma_v4"@
            &&& l.args =~= gemm_bf16_mma_v4_takes().map_values(
                |r: Role|
                    match r {
                        Role::LeftTiles => Arg::Descriptor(0),
                        Role::RightTiles => Arg::Descriptor(1),
                        Role::Product => Arg::buffer(2),
                        Role::Rows => Arg::word(m),
                        Role::Columns => Arg::word(n),
                        Role::Depth => Arg::word(k),
                        _ => Arg::Word(0),
                    },
            )
            &&& l.grid.0 * 128 == n
            &&& l.grid.1 * 128 == m
            &&& l.grid.2 == 1
            &&& l.block == (288int, 1int, 1int)
            &&& l.shared_mem == 49232
            &&& l.opt_in is Some
            &&& l.failure is Some
            &&& l.tensor_maps.len() == 2
            &&& role::tiles(l.tensor_maps[0], 0, MapElem::Bf16, m, k, 128, 32, Swizzle::Plain)
            &&& role::tiles(l.tensor_maps[1], 1, MapElem::Bf16, k, n, 32, 128, Swizzle::Plain)
        },
{
}

/// What the kernel `gemm_bf16_mma_v4_k64` takes, in order.
pub open spec fn gemm_bf16_mma_v4_k64_takes() -> Seq<Role> {
    seq![Role::LeftTiles, Role::RightTiles, Role::Product, Role::Rows, Role::Columns, Role::Depth]
}

/// `gemm_bf16_mma_v4_k64` launches its kernel exactly where the sizes of the request are right,
/// with every argument what its role asks for, on blocks that cover the result.
pub proof fn gemm_bf16_mma_v4_k64_launches(
    a_len: int, b_len: int, c_len: int, m: int, n: int, k: int,
)
    ensures
        dense::gemm_bf16_mma_v4_k64_plan(a_len, b_len, c_len, m, n, k) matches Plan::Fail(
            f,
        ) ==> f is InvalidArgument,
        dense::gemm_bf16_mma_v4_k64_plan(a_len, b_len, c_len, m, n, k) !is Undefined,
        dense::gemm_bf16_mma_v4_k64_plan(a_len, b_len, c_len, m, n, k) is Launch <==> {
            &&& m != 0
            &&& n != 0
            &&& k != 0
            &&& m % 128 == 0
            &&& n % 128 == 0
            &&& k % 64 == 0
            &&& a_len >= m * k
            &&& b_len >= k * n
            &&& c_len >= m * n
        },
        dense::gemm_bf16_mma_v4_k64_plan(a_len, b_len, c_len, m, n, k) matches Plan::Launch(l) ==> {
            &&& l.entry == "gemm_bf16_mma_v4_k64"@
            &&& l.kernel == "gemm_bf16_mma_v4_k64"@
            &&& l.args =~= gemm_bf16_mma_v4_k64_takes().map_values(
                |r: Role|
                    match r {
                        Role::LeftTiles => Arg::Descriptor(0),
                        Role::RightTiles => Arg::Descriptor(1),
                        Role::Product => Arg::buffer(2),
                        Role::Rows => Arg::word(m),
                        Role::Columns => Arg::word(n),
                        Role::Depth => Arg::word(k),
                        _ => Arg::Word(0),
                    },
            )
            &&& l.grid.0 * 128 == n
            &&& l.grid.1 * 128 == m
            &&& l.grid.2 == 1
            &&& l.block == (288int, 1int, 1int)
            &&& l.shared_mem == 65584
            &&& l.opt_in is Some
            &&& l.failure is Some
            &&& l.tensor_maps.len() == 2
            &&& role::tiles(l.tensor_maps[0], 0, MapElem::Bf16, m, k, 128, 64, Swizzle::Plain)
            &&& role::tiles(l.tensor_maps[1], 1, MapElem::Bf16, k, n, 64, 128, Swizzle::Plain)
        },
{
}

/// `gemm_fp8_mma` launches its kernel exactly where the sizes of the request are right, with
/// every argument what its role asks for, on blocks that cover the result.
pub proof fn gemm_fp8_mma_launches(a_len: int, b_len: int, c_len: int, m: int, n: int, k: int)
    requires
        m >= 0,
        n >= 0,
    ensures
        dense::gemm_fp8_mma_plan(a_len, b_len, c_len, m, n, k) matches Plan::Fail(
            f,
        ) ==> f is InvalidArgument,
        dense::gemm_fp8_mma_plan(a_len, b_len, c_len, m, n, k) !is Undefined,
        dense::gemm_fp8_mma_plan(a_len, b_len, c_len, m, n, k) is Launch <==> {
            &&& m != 0
            &&& n != 0
            &&& k != 0
            &&& m % 32 == 0
            &&& n % 32 == 0
            &&& k % 32 == 0
            &&& a_len >= m * k
            &&& b_len >= k * n
            &&& c_len >= m * n
        },
        dense::gemm_fp8_mma_plan(a_len, b_len, c_len, m, n, k) matches Plan::Launch(l) ==> {
            &&& l.entry == "gemm_fp8_mma"@
            &&& l.kernel == "gemm_fp8_mma"@
            &&& l.args =~= ffi::gemm_fp8_mma_takes().map_values(
                |r: Role|
                    match r {
                        Role::Left => Arg::buffer(0),
                        Role::Right => Arg::buffer(1),
                        Role::Product => Arg::buffer(2),
                        Role::Rows => Arg::word(m),
                        Role::Columns => Arg::word(n),
                        Role::Depth => Arg::word(k),
                        _ => Arg::Word(0),
                    },
            )
            &&& meaning::covers(l.grid.0, 32, n)
            &&& meaning::covers(l.grid.1, 32, m)
            &&& l.grid.2 == 1
            &&& l.block == (32int, 1int, 1int)
            &&& l.shared_mem == 2048
            &&& l.opt_in is None
            &&& l.failure is None
            &&& l.tensor_maps.len() == 0
        },
{
    shape::lemma_ceil_div(n, 32);
    shape::lemma_ceil_div(m, 32);
}

/// What the kernel `gemm_fp8_mma_v3` takes, in order.
pub open spec fn gemm_fp8_mma_v3_takes() -> Seq<Role> {
    seq![Role::Left, Role::Right, Role::Product, Role::Rows, Role::Columns, Role::Depth]
}

/// `gemm_fp8_mma_v3` launches its kernel exactly where the sizes of the request are right, with
/// every argument what its role asks for, on blocks that cover the result.
pub proof fn gemm_fp8_mma_v3_launches(a_len: int, b_len: int, c_len: int, m: int, n: int, k: int)
    ensures
        dense::gemm_fp8_mma_v3_plan(a_len, b_len, c_len, m, n, k) matches Plan::Fail(
            f,
        ) ==> f is InvalidArgument,
        dense::gemm_fp8_mma_v3_plan(a_len, b_len, c_len, m, n, k) !is Undefined,
        dense::gemm_fp8_mma_v3_plan(a_len, b_len, c_len, m, n, k) is Launch <==> {
            &&& m != 0
            &&& n != 0
            &&& k != 0
            &&& m % 128 == 0
            &&& n % 128 == 0
            &&& k % 32 == 0
            &&& a_len >= m * k
            &&& b_len >= k * n
            &&& c_len >= m * n
        },
        dense::gemm_fp8_mma_v3_plan(a_len, b_len, c_len, m, n, k) matches Plan::Launch(l) ==> {
            &&& l.entry == "gemm_fp8_mma_v3"@
            &&& l.kernel == "gemm_fp8_mma_v3"@
            &&& l.args =~= gemm_fp8_mma_v3_takes().map_values(
                |r: Role|
                    match r {
                        Role::Left => Arg::buffer(0),
                        Role::Right => Arg::buffer(1),
                        Role::Product => Arg::buffer(2),
                        Role::Rows => Arg::word(m),
                        Role::Columns => Arg::word(n),
                        Role::Depth => Arg::word(k),
                        _ => Arg::Word(0),
                    },
            )
            &&& l.grid.0 * 128 == n
            &&& l.grid.1 * 128 == m
            &&& l.grid.2 == 1
            &&& l.block == (256int, 1int, 1int)
            &&& l.shared_mem == 0
            &&& l.opt_in is None
            &&& l.failure is None
            &&& l.tensor_maps.len() == 0
        },
{
}

/// What the kernel `gemm_fp8_mma_v3_5` takes, in order.
pub open spec fn gemm_fp8_mma_v3_5_takes() -> Seq<Role> {
    seq![Role::Left, Role::Right, Role::Product, Role::Rows, Role::Columns, Role::Depth]
}

/// `gemm_fp8_mma_v3_5` launches its kernel exactly where the sizes of the request are right, with
/// every argument what its role asks for, on blocks that cover the result.
pub proof fn gemm_fp8_mma_v3_5_launches(
    a_len: int, b_len: int, c_len: int, m: int, n: int, k: int,
)
    ensures
        dense::gemm_fp8_mma_v3_5_plan(a_len, b_len, c_len, m, n, k) matches Plan::Fail(
            f,
        ) ==> f is InvalidArgument,
        dense::gemm_fp8_mma_v3_5_plan(a_len, b_len, c_len, m, n, k) !is Undefined,
        dense::gemm_fp8_mma_v3_5_plan(a_len, b_len, c_len, m, n, k) is Launch <==> {
            &&& m != 0
            &&& n != 0
            &&& k != 0
            &&& m % 128 == 0
            &&& n % 128 == 0
            &&& k % 96 == 0
            &&& a_len >= m * k
            &&& b_len >= k * n
            &&& c_len >= m * n
        },
        dense::gemm_fp8_mma_v3_5_plan(a_len, b_len, c_len, m, n, k) matches Plan::Launch(l) ==> {
            &&& l.entry == "gemm_fp8_mma_v3_5"@
            &&& l.kernel == "gemm_fp8_mma_v3_5"@
            &&& l.args =~= gemm_fp8_mma_v3_5_takes().map_values(
                |r: Role|
                    match r {
                        Role::Left => Arg::buffer(0),
                        Role::Right => Arg::buffer(1),
                        Role::Product => Arg::buffer(2),
                        Role::Rows => Arg::word(m),
                        Role::Columns => Arg::word(n),
                        Role::Depth => Arg::word(k),
                        _ => Arg::Word(0),
                    },
            )
            &&& l.grid.0 * 128 == n
            &&& l.grid.1 * 128 == m
            &&& l.grid.2 == 1
            &&& l.block == (256int, 1int, 1int)
            &&& l.shared_mem == 0
            &&& l.opt_in is None
            &&& l.failure is None
            &&& l.tensor_maps.len() == 0
        },
{
}

/// What the kernel `transpose_bf16` takes, in order.
pub open spec fn transpose_bf16_takes() -> Seq<Role> {
    seq![Role::Source, Role::Target, Role::Rows, Role::Columns]
}

/// `transpose_bf16` launches its kernel exactly where the sizes of the request are right, with
/// every argument what its role asks for, on blocks that cover the result.
pub proof fn transpose_bf16_launches(src_len: int, dst_len: int, m: int, n: int)
    requires
        m >= 0,
        n >= 0,
    ensures
        dense::transpose_bf16_plan(src_len, dst_len, m, n) matches Plan::Fail(
            f,
        ) ==> f is InvalidArgument,
        dense::transpose_bf16_plan(src_len, dst_len, m, n) is Launch <==> {
            &&& m != 0
            &&& n != 0
            &&& m * n <= u32::MAX
            &&& src_len >= m * n
            &&& dst_len >= m * n
        },
        dense::transpose_bf16_plan(src_len, dst_len, m, n) matches Plan::Launch(l) ==> {
            &&& l.entry == "transpose_bf16"@
            &&& l.kernel == "transpose_bf16"@
            &&& l.args =~= transpose_bf16_takes().map_values(
                |r: Role|
                    match r {
                        Role::Source => Arg::buffer(0),
                        Role::Target => Arg::buffer(1),
                        Role::Rows => Arg::word(m),
                        Role::Columns => Arg::word(n),
                        _ => Arg::Word(0),
                    },
            )
            &&& meaning::covers(l.grid.0, 32, n)
            &&& meaning::covers(l.grid.1, 32, m)
            &&& l.grid.2 == 1
            &&& l.block == (32int, 8int, 1int)
            &&& l.shared_mem == 0
            &&& l.opt_in is None
            &&& l.failure is None
            &&& l.tensor_maps.len() == 0
        },
{
    shape::lemma_ceil_div(n, 32);
    shape::lemma_ceil_div(m, 32);
}

} // verus!
