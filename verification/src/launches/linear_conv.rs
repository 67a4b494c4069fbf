//! What the launches of `linear_attention::conv` hand to their kernels.
use crate::launches::role::Role;
use crate::linear_attention::conv;
use crate::meaning;
use crate::plan::{Arg, Place, Plan};
use crate::shape;
use vstd::prelude::*;

verus! {

/// What the kernel `conv1d_silu_bf16_batched` takes, in order.
pub open spec fn conv1d_silu_bf16_batched_takes() -> Seq<Role> {
    seq![Role::State, Role::Current, Role::Weight, Role::Out, Role::TotalQkv]
}

/// `conv1d_silu_bf16_batched` launches its kernel exactly where the sizes of the request are
/// right, with every argument what its role asks for, on blocks that cover the result.
pub proof fn conv1d_silu_bf16_batched_launches(
    state_len: int, current_len: int, weight_len: int, out_len: int, total_qkv: int, batch_m: int,
)
    requires
        total_qkv >= 0,
    ensures
        conv::conv1d_silu_bf16_batched_plan(
            state_len, current_len, weight_len, out_len, total_qkv, batch_m,
        ) matches Plan::Fail(f) ==> f is InvalidArgument,
        conv::conv1d_silu_bf16_batched_plan(
            state_len, current_len, weight_len, out_len, total_qkv, batch_m,
        ) is Launch <==> {
            &&& total_qkv != 0
            &&& batch_m != 0
            &&& batch_m * 3 * total_qkv <= u64::MAX
            &&& state_len >= batch_m * 3 * total_qkv
            &&& current_len >= batch_m * total_qkv
            &&& out_len >= batch_m * total_qkv
            &&& weight_len >= 4 * total_qkv
        },
        conv::conv1d_silu_bf16_batched_plan(
            state_len, current_len, weight_len, out_len, total_qkv, batch_m,
        ) matches Plan::Launch(l) ==> {
            &&& l.entry == "conv1d_silu_bf16_batched"@
            &&& l.kernel == "conv1d_silu_bf16_batched"@
            &&& l.args =~= conv1d_silu_bf16_batched_takes().map_values(
                |r: Role|
                    match r {
                        Role::State => Arg::buffer(0),
                        Role::Current => Arg::buffer(1),
                        Role::Weight => Arg::buffer(2),
                        Role::Out => Arg::buffer(3),
                        Role::TotalQkv => Arg::word(total_qkv),
                        _ => Arg::Word(0),
                    },
            )
            &&& meaning::covers(l.grid.0, 128, total_qkv)
            &&& l.grid.1 == batch_m
            &&& l.grid.2 == 1
            &&& l.block == (128int, 1int, 1int)
            &&& l.shared_mem == 0
            &&& l.opt_in is None
            &&& l.failure is Some
            &&& l.tensor_maps.len() == 0
        },
{
    shape::lemma_ceil_div(total_qkv, 128);
}

/// What the kernel `conv1d_silu_bf16` takes, in order.
pub open spec fn conv1d_silu_bf16_takes() -> Seq<Role> {
    seq![Role::State, Role::Current, Role::Weight, Role::Out, Role::TotalQkv]
}

/// `conv1d_silu_bf16` launches its kernel exactly where the sizes of the request are right, with
/// every argument what its role asks for, on blocks that cover the result.
pub proof fn conv1d_silu_bf16_launches(
    state_len: int, current_len: int, weight_len: int, out_len: int, total_qkv: int,
)
    requires
        total_qkv >= 0,
    ensures
        conv::conv1d_silu_bf16_plan(
            state_len, current_len, weight_len, out_len, total_qkv,
        ) matches Plan::Fail(f) ==> f is InvalidArgument,
        conv::conv1d_silu_bf16_plan(
            state_len, current_len, weight_len, out_len, total_qkv,
        ) !is Undefined,
        conv::conv1d_silu_bf16_plan(
            state_len, current_len, weight_len, out_len, total_qkv,
        ) is Launch <==> {
            &&& total_qkv != 0
            &&& state_len >= 3 * total_qkv
            &&& current_len >= total_qkv
            &&& out_len >= total_qkv
            &&& weight_len >= 4 * total_qkv
        },
        conv::conv1d_silu_bf16_plan(
            state_len, current_len, weight_len, out_len, total_qkv,
        ) matches Plan::Launch(l) ==> {
            &&& l.entry == "conv1d_silu_bf16"@
            &&& l.kernel == "conv1d_silu_bf16"@
            &&& l.args =~= conv1d_silu_bf16_takes().map_values(
                |r: Role|
                    match r {
                        Role::State => Arg::buffer(0),
                        Role::Current => Arg::buffer(1),
                        Role::Weight => Arg::buffer(2),
                        Role::Out => Arg::buffer(3),
                        Role::TotalQkv => Arg::word(total_qkv),
                        _ => Arg::Word(0),
                    },
            )
            &&& meaning::covers(l.grid.0, 128, total_qkv)
            &&& l.grid.1 == 1
            &&& l.grid.2 == 1
            &&& l.block == (128int, 1int, 1int)
            &&& l.shared_mem == 0
            &&& l.opt_in is None
            &&& l.failure is Some
            &&& l.tensor_maps.len() == 0
        },
{
    shape::lemma_ceil_div(total_qkv, 128);
}

/// What the kernel `conv1d_silu_chunk_bf16` takes, in order.
pub open spec fn conv1d_silu_chunk_bf16_takes() -> Seq<Role> {
    seq![Role::State, Role::Current, Role::Weight, Role::Out, Role::TotalQkv, Role::Rows]
}

/// `conv1d_silu_chunk_bf16` launches its kernel exactly where the sizes of the request are right,
/// with every argument what its role asks for, on blocks that cover the result.
pub proof fn conv1d_silu_chunk_bf16_launches(
    state_len: int, current_len: int, weight_len: int, out_len: int, total_qkv: int, m: int,
)
    requires
        total_qkv >= 0,
    ensures
        conv::conv1d_silu_chunk_bf16_plan(
            state_len, current_len, weight_len, out_len, total_qkv, m,
        ) matches Plan::Fail(f) ==> f is InvalidArgument,
        conv::conv1d_silu_chunk_bf16_plan(
            state_len, current_len, weight_len, out_len, total_qkv, m,
        ) !is Undefined,
        conv::conv1d_silu_chunk_bf16_plan(
            state_len, current_len, weight_len, out_len, total_qkv, m,
        ) is Launch <==> {
            &&& total_qkv != 0
            &&& m != 0
            &&& state_len >= 3 * total_qkv
            &&& current_len >= m * total_qkv
            &&& out_len >= m * total_qkv
            &&& weight_len >= 4 * total_qkv
        },
        conv::conv1d_silu_chunk_bf16_plan(
            state_len, current_len, weight_len, out_len, total_qkv, m,
        ) matches Plan::Launch(l) ==> {
            &&& l.entry == "conv1d_silu_chunk_bf16"@
            &&& l.kernel == "conv1d_silu_chunk_bf16"@
            &&& l.args =~= conv1d_silu_chunk_bf16_takes().map_values(
                |r: Role|
                    match r {
                        Role::State => Arg::buffer(0),
                        Role::Current => Arg::buffer(1),
                        Role::Weight => Arg::buffer(2),
                        Role::Out => Arg::buffer(3),
                        Role::TotalQkv => Arg::word(total_qkv),
                        Role::Rows => Arg::word(m),
                        _ => Arg::Word(0),
                    },
            )
            &&& meaning::covers(l.grid.0, 128, total_qkv)
            &&& l.grid.1 == 1
            &&& l.grid.2 == 1
            &&& l.block == (128int, 1int, 1int)
            &&& l.shared_mem == 0
            &&& l.opt_in is None
            &&& l.failure is Some
            &&& l.tensor_maps.len() == 0
        },
{
    shape::lemma_ceil_div(total_qkv, 128);
}

/// What the kernel `conv1d_backward_dx_bf16` takes, in order.
pub open spec fn conv1d_backward_dx_bf16_takes() -> Seq<Role> {
    seq![Role::Dy, Role::Weight, Role::Dx, Role::SeqLen, Role::Channels]
}

/// `conv1d_backward_dx_bf16` launches its kernel exactly where the sizes of the request are
/// right, with every argument what its role asks for, on blocks that cover the result.
pub proof fn conv1d_backward_dx_bf16_launches(
    dy_len: int, w_len: int, dx_len: int, seq_len: int, channels: int,
)
    requires
        channels >= 0,
    ensures
        conv::conv1d_backward_dx_bf16_plan(
            dy_len, w_len, dx_len, seq_len, channels,
        ) matches Plan::Fail(f) ==> f is InvalidArgument,
        conv::conv1d_backward_dx_bf16_plan(
            dy_len, w_len, dx_len, seq_len, channels,
        ) is Launch <==> {
            &&& seq_len != 0
            &&& channels != 0
            &&& seq_len * channels <= u32::MAX
            &&& dy_len >= seq_len * channels
            &&& dx_len >= seq_len * channels
            &&& channels * 4 <= u32::MAX
            &&& w_len >= channels * 4
        },
        conv::conv1d_backward_dx_bf16_plan(
            dy_len, w_len, dx_len, seq_len, channels,
        ) matches Plan::Launch(l) ==> {
            &&& l.entry == "conv1d_backward_dx_bf16"@
            &&& l.kernel == "conv1d_backward_dx_bf16"@
            &&& l.args =~= conv1d_backward_dx_bf16_takes().map_values(
                |r: Role|
                    match r {
                        Role::Dy => Arg::buffer(0),
                        Role::Weight => Arg::buffer(1),
                        Role::Dx => Arg::buffer(2),
                        Role::SeqLen => Arg::word(seq_len),
                        Role::Channels => Arg::word(channels),
                        _ => Arg::Word(0),
                    },
            )
            &&& l.grid.0 == seq_len
            &&& meaning::covers(l.grid.1, 128, channels)
            &&& l.grid.2 == 1
            &&& l.block == (128int, 1int, 1int)
            &&& l.shared_mem == 0
            &&& l.opt_in is None
            &&& l.failure is None
            &&& l.tensor_maps.len() == 0
        },
{
    shape::lemma_ceil_div(channels, 128);
}

/// What the kernel `conv1d_backward_dw_bf16` takes, in order.
pub open spec fn conv1d_backward_dw_bf16_takes() -> Seq<Role> {
    seq![Role::Dy, Role::Input, Role::Dw, Role::SeqLen, Role::Channels]
}

/// `conv1d_backward_dw_bf16` launches its kernel exactly where the sizes of the request are
/// right, with every argument what its role asks for, on blocks that cover the result.
pub proof fn conv1d_backward_dw_bf16_launches(
    dy_len: int, x_len: int, dw_len: int, seq_len: int, channels: int,
)
    requires
        channels >= 0,
    ensures
        conv::conv1d_backward_dw_bf16_plan(
            dy_len, x_len, dw_len, seq_len, channels,
        ) matches Plan::Fail(f) ==> f is InvalidArgument,
        conv::conv1d_backward_dw_bf16_plan(
            dy_len, x_len, dw_len, seq_len, channels,
        ) is Launch <==> {
            &&& seq_len != 0
            &&& channels != 0
            &&& seq_len * channels <= u32::MAX
            &&& dy_len >= seq_len * channels
            &&& x_len >= seq_len * channels
            &&& channels * 4 <= u32::MAX
            &&& dw_len >= channels * 4
        },
        conv::conv1d_backward_dw_bf16_plan(
            dy_len, x_len, dw_len, seq_len, channels,
        ) matches Plan::Launch(l) ==> {
            &&& l.entry == "conv1d_backward_dw_bf16"@
            &&& l.kernel == "conv1d_backward_dw_bf16"@
            &&& l.args =~= conv1d_backward_dw_bf16_takes().map_values(
                |r: Role|
                    match r {
                        Role::Dy => Arg::buffer(0),
                        Role::Input => Arg::buffer(1),
                        Role::Dw => Arg::buffer(2),
                        Role::SeqLen => Arg::word(seq_len),
                        Role::Channels => Arg::word(channels),
                        _ => Arg::Word(0),
                    },
            )
            &&& meaning::covers(l.grid.0, 128, channels * 4)
            &&& l.grid.1 == 1
            &&& l.grid.2 == 1
            &&& l.block == (128int, 1int, 1int)
            &&& l.shared_mem == 0
            &&& l.opt_in is None
            &&& l.failure is None
            &&& l.tensor_maps.len() == 0
        },
{
    assert(channels * 4 >= 0) by (nonlinear_arith)
        requires
            channels >= 0,
    ;
    shape::lemma_ceil_div(channels * 4, 128);
}

/// `conv1d_silu_bf16_row` launches its kernel exactly where the sizes of the request are right,
/// with every argument what its role asks for, on blocks that cover the result.
pub proof fn conv1d_silu_bf16_row_launches(
    state_len: int, current_full_len: int, out_full_len: int, weight_len: int, total_qkv: int,
    row_offset_elems: int,
)
    requires
        total_qkv >= 0,
    ensures
        conv::conv1d_silu_bf16_row_plan(
            state_len, current_full_len, out_full_len, weight_len, total_qkv, row_offset_elems,
        ) matches Plan::Fail(f) ==> f is InvalidArgument,
        conv::conv1d_silu_bf16_row_plan(
            state_len, current_full_len, out_full_len, weight_len, total_qkv, row_offset_elems,
        ) is Launch <==> {
            &&& total_qkv != 0
            &&& state_len >= 3 * total_qkv
            &&& row_offset_elems + total_qkv <= u64::MAX
            &&& current_full_len >= row_offset_elems + total_qkv
            &&& out_full_len >= row_offset_elems + total_qkv
            &&& weight_len >= 4 * total_qkv
        },
        conv::conv1d_silu_bf16_row_plan(
            state_len, current_full_len, out_full_len, weight_len, total_qkv, row_offset_elems,
        ) matches Plan::Launch(l) ==> {
            &&& l.entry == "conv1d_silu_bf16"@
            &&& l.kernel == "conv1d_silu_bf16"@
            &&& l.args =~= conv1d_silu_bf16_takes().map_values(
                |r: Role|
                    match r {
                        Role::State => Arg::buffer(0),
                        Role::Current => Arg::Buffer(Place::param_at(1, row_offset_elems)),
                        Role::Weight => Arg::buffer(3),
                        Role::Out => Arg::Buffer(Place::param_at(2, row_offset_elems)),
                        Role::TotalQkv => Arg::word(total_qkv),
                        _ => Arg::Word(0),
                    },
            )
            &&& meaning::covers(l.grid.0, 128, total_qkv)
            &&& l.grid.1 == 1
            &&& l.grid.2 == 1
            &&& l.block == (128int, 1int, 1int)
            &&& l.shared_mem == 0
            &&& l.opt_in is None
            &&& l.failure is Some
            &&& l.tensor_maps.len() == 0
        },
{
    shape::lemma_ceil_div(total_qkv, 128);
}

} // verus!
