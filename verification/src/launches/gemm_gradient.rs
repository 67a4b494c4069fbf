//! What the launches of `gemm::gradient` hand to their kernels.
use crate::gemm::gradient;
use crate::launches::role::Role;
use crate::meaning;
use crate::plan::{Arg, Plan};
use crate::shape;
use vstd::prelude::*;

verus! {

/// What the kernel `gemm_bf16_backward_dA` takes, in order.
pub open spec fn gemm_bf16_backward_dA_takes() -> Seq<Role> {
    seq![Role::Dc, Role::Right, Role::Da, Role::Rows, Role::Columns, Role::Depth]
}

/// `gemm_bf16_backward_dA_view` launches its kernel exactly where the sizes of the request are
/// right, with every argument what its role asks for, on blocks that cover the result.
pub proof fn gemm_bf16_backward_dA_view_launches(
    dc_len: int, b_len: int, da_len: int, m: int, n: int, k: int,
)
    requires
        m >= 0,
        k >= 0,
    ensures
        gradient::gemm_bf16_backward_dA_view_plan(
            dc_len, b_len, da_len, m, n, k,
        ) matches Plan::Fail(f) ==> f is InvalidArgument,
        gradient::gemm_bf16_backward_dA_view_plan(
            dc_len, b_len, da_len, m, n, k,
        ) !is Undefined,
        gradient::gemm_bf16_backward_dA_view_plan(
            dc_len, b_len, da_len, m, n, k,
        ) is Launch <==> {
            &&& m != 0
            &&& n != 0
            &&& k != 0
        },
        gradient::gemm_bf16_backward_dA_view_plan(
            dc_len, b_len, da_len, m, n, k,
        ) matches Plan::Launch(l) ==> {
            &&& l.entry == "gemm_bf16_backward_dA"@
            &&& l.kernel == "gemm_bf16_backward_dA"@
            &&& l.args =~= gemm_bf16_backward_dA_takes().map_values(
                |r: Role|
                    match r {
                        Role::Dc => Arg::buffer(0),
                        Role::Right => Arg::buffer(1),
                        Role::Da => Arg::buffer(2),
                        Role::Rows => Arg::word(m),
                        Role::Columns => Arg::word(n),
                        Role::Depth => Arg::word(k),
                        _ => Arg::Word(0),
                    },
            )
            &&& meaning::covers(l.grid.0, 8, m)
            &&& meaning::covers(l.grid.1, 32, k)
            &&& l.grid.2 == 1
            &&& l.block == (256int, 1int, 1int)
            &&& l.shared_mem == 0
            &&& l.opt_in is None
            &&& l.failure is None
            &&& l.tensor_maps.len() == 0
        },
{
    shape::lemma_ceil_div(m, 8);
    shape::lemma_ceil_div(k, 32);
}

/// What the kernel `gemm_bf16_backward_dB` takes, in order.
pub open spec fn gemm_bf16_backward_dB_takes() -> Seq<Role> {
    seq![Role::Left, Role::Dc, Role::Db, Role::Rows, Role::Columns, Role::Depth]
}

/// `gemm_bf16_backward_dB_view` launches its kernel exactly where the sizes of the request are
/// right, with every argument what its role asks for, on blocks that cover the result.
pub proof fn gemm_bf16_backward_dB_view_launches(
    a_len: int, dc_len: int, db_len: int, m: int, n: int, k: int,
)
    requires
        n >= 0,
        k >= 0,
    ensures
        gradient::gemm_bf16_backward_dB_view_plan(
            a_len, dc_len, db_len, m, n, k,
        ) matches Plan::Fail(f) ==> f is InvalidArgument,
        gradient::gemm_bf16_backward_dB_view_plan(
            a_len, dc_len, db_len, m, n, k,
        ) !is Undefined,
        gradient::gemm_bf16_backward_dB_view_plan(
            a_len, dc_len, db_len, m, n, k,
        ) is Launch <==> {
            &&& m != 0
            &&& n != 0
            &&& k != 0
        },
        gradient::gemm_bf16_backward_dB_view_plan(
            a_len, dc_len, db_len, m, n, k,
        ) matches Plan::Launch(l) ==> {
            &&& l.entry == "gemm_bf16_backward_dB"@
            &&& l.kernel == "gemm_bf16_backward_dB"@
            &&& l.args =~= gemm_bf16_backward_dB_takes().map_values(
                |r: Role|
                    match r {
                        Role::Left => Arg::buffer(0),
                        Role::Dc => Arg::buffer(1),
                        Role::Db => Arg::buffer(2),
                        Role::Rows => Arg::word(m),
                        Role::Columns => Arg::word(n),
                        Role::Depth => Arg::word(k),
                        _ => Arg::Word(0),
                    },
            )
            &&& meaning::covers(l.grid.0, 8, k)
            &&& meaning::covers(l.grid.1, 32, n)
            &&& l.grid.2 == 1
            &&& l.block == (256int, 1int, 1int)
            &&& l.shared_mem == 0
            &&& l.opt_in is None
            &&& l.failure is None
            &&& l.tensor_maps.len() == 0
        },
{
    shape::lemma_ceil_div(k, 8);
    shape::lemma_ceil_div(n, 32);
}

/// `gemm_bf16_backward_dA` launches its kernel exactly where the sizes of the request are right,
/// with every argument what its role asks for, on blocks that cover the result.
pub proof fn gemm_bf16_backward_dA_launches(
    dc_len: int, b_len: int, da_len: int, m: int, n: int, k: int,
)
    requires
        m >= 0,
        k >= 0,
    ensures
        gradient::gemm_bf16_backward_dA_plan(
            dc_len, b_len, da_len, m, n, k,
        ) matches Plan::Fail(f) ==> f is InvalidArgument,
        gradient::gemm_bf16_backward_dA_plan(
            dc_len, b_len, da_len, m, n, k,
        ) !is Undefined,
        gradient::gemm_bf16_backward_dA_plan(
            dc_len, b_len, da_len, m, n, k,
        ) is Launch <==> {
            &&& m != 0
            &&& n != 0
            &&& k != 0
            &&& dc_len >= m * n
            &&& b_len >= k * n
            &&& da_len >= m * k
        },
        gradient::gemm_bf16_backward_dA_plan(
            dc_len, b_len, da_len, m, n, k,
        ) matches Plan::Launch(l) ==> {
            &&& l.entry == "gemm_bf16_backward_dA"@
            &&& l.kernel == "gemm_bf16_backward_dA"@
            &&& l.args =~= gemm_bf16_backward_dA_takes().map_values(
                |r: Role|
                    match r {
                        Role::Dc => Arg::buffer(0),
                        Role::Right => Arg::buffer(1),
                        Role::Da => Arg::buffer(2),
                        Role::Rows => Arg::word(m),
                        Role::Columns => Arg::word(n),
                        Role::Depth => Arg::word(k),
                        _ => Arg::Word(0),
                    },
            )
            &&& meaning::covers(l.grid.0, 8, m)
            &&& meaning::covers(l.grid.1, 32, k)
            &&& l.grid.2 == 1
            &&& l.block == (256int, 1int, 1int)
            &&& l.shared_mem == 0
            &&& l.opt_in is None
            &&& l.failure is None
            &&& l.tensor_maps.len() == 0
        },
{
    shape::lemma_ceil_div(m, 8);
    shape::lemma_ceil_div(k, 32);
}

/// `gemm_bf16_backward_dB` launches its kernel exactly where the sizes of the request are right,
/// with every argument what its role asks for, on blocks that cover the result.
pub proof fn gemm_bf16_backward_dB_launches(
    a_len: int, dc_len: int, db_len: int, m: int, n: int, k: int,
)
    requires
        n >= 0,
        k >= 0,
    ensures
        gradient::gemm_bf16_backward_dB_plan(
            a_len, dc_len, db_len, m, n, k,
        ) matches Plan::Fail(f) ==> f is InvalidArgument,
        gradient::gemm_bf16_backward_dB_plan(
            a_len, dc_len, db_len, m, n, k,
        ) !is Undefined,
        gradient::gemm_bf16_backward_dB_plan(
            a_len, dc_len, db_len, m, n, k,
        ) is Launch <==> {
            &&& m != 0
            &&& n != 0
            &&& k != 0
            &&& a_len >= m * k
            &&& dc_len >= m * n
            &&& db_len >= k * n
        },
        gradient::gemm_bf16_backward_dB_plan(
            a_len, dc_len, db_len, m, n, k,
        ) matches Plan::Launch(l) ==> {
            &&& l.entry == "gemm_bf16_backward_dB"@
            &&& l.kernel == "gemm_bf16_backward_dB"@
            &&& l.args =~= gemm_bf16_backward_dB_takes().map_values(
                |r: Role|
                    match r {
                        Role::Left => Arg::buffer(0),
                        Role::Dc => Arg::buffer(1),
                        Role::Db => Arg::buffer(2),
                        Role::Rows => Arg::word(m),
                        Role::Columns => Arg::word(n),
                        Role::Depth => Arg::word(k),
                        _ => Arg::Word(0),
                    },
            )
            &&& meaning::covers(l.grid.0, 8, k)
            &&& meaning::covers(l.grid.1, 32, n)
            &&& l.grid.2 == 1
            &&& l.block == (256int, 1int, 1int)
            &&& l.shared_mem == 0
            &&& l.opt_in is None
            &&& l.failure is None
            &&& l.tensor_maps.len() == 0
        },
{
    shape::lemma_ceil_div(k, 8);
    shape::lemma_ceil_div(n, 32);
}

} // verus!
