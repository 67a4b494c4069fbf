//! What the launches of `linear_attention::scan` hand to their kernels.
use crate::launches::role::Role;
use crate::linear_attention::scan;
use crate::plan::{Arg, Plan};
use vstd::prelude::*;

verus! {

/// What the kernel `mamba2_selective_scan_decode` takes, in order.
pub open spec fn mamba2_selective_scan_decode_takes() -> Seq<Role> {
    seq![
        Role::Input, Role::Delta, Role::ALog, Role::Right, Role::Product, Role::Heads,
        Role::Result, Role::NumHeads,
    ]
}

/// `mamba2_selective_scan_decode` launches its kernel exactly where the sizes of the request are
/// right, with every argument what its role asks for, on blocks that cover the result.
pub proof fn mamba2_selective_scan_decode_launches(
    x_len: int, delta_len: int, a_log_len: int, b_len: int, c_len: int, h_len: int, y_len: int,
    batch: int, num_heads: int,
)
    ensures
        scan::mamba2_selective_scan_decode_plan(
            x_len, delta_len, a_log_len, b_len, c_len, h_len, y_len, batch, num_heads,
        ) matches Plan::Fail(f) ==> f is InvalidArgument,
        scan::mamba2_selective_scan_decode_plan(
            x_len, delta_len, a_log_len, b_len, c_len, h_len, y_len, batch, num_heads,
        ) is Launch <==> {
            &&& batch != 0
            &&& num_heads != 0
            &&& batch * num_heads <= u32::MAX
            &&& batch * num_heads * 128 <= u32::MAX
            &&& x_len >= batch * num_heads
            &&& delta_len >= batch * num_heads
            &&& y_len >= batch * num_heads
            &&& a_log_len >= batch * num_heads * 128
            &&& b_len >= batch * num_heads * 128
            &&& c_len >= batch * num_heads * 128
            &&& h_len >= batch * num_heads * 128
        },
        scan::mamba2_selective_scan_decode_plan(
            x_len, delta_len, a_log_len, b_len, c_len, h_len, y_len, batch, num_heads,
        ) matches Plan::Launch(l) ==> {
            &&& l.entry == "mamba2_selective_scan_decode"@
            &&& l.kernel == "mamba2_selective_scan_decode"@
            &&& l.args =~= mamba2_selective_scan_decode_takes().map_values(
                |r: Role|
                    match r {
                        Role::Input => Arg::buffer(0),
                        Role::Delta => Arg::buffer(1),
                        Role::ALog => Arg::buffer(2),
                        Role::Right => Arg::buffer(3),
                        Role::Product => Arg::buffer(4),
                        Role::Heads => Arg::buffer(5),
                        Role::Result => Arg::buffer(6),
                        Role::NumHeads => Arg::word(num_heads),
                        _ => Arg::Word(0),
                    },
            )
            &&& l.grid.0 == num_heads
            &&& l.grid.1 == batch
            &&& l.grid.2 == 1
            &&& l.block == (128int, 1int, 1int)
            &&& l.shared_mem == 0
            &&& l.opt_in is None
            &&& l.failure is Some
            &&& l.tensor_maps.len() == 0
        },
{
}

/// What the kernel `mamba2_selective_scan_prefill` takes, in order.
pub open spec fn mamba2_selective_scan_prefill_takes() -> Seq<Role> {
    seq![
        Role::Input, Role::Delta, Role::ALog, Role::Right, Role::Product, Role::Heads,
        Role::Result, Role::NumHeads, Role::SeqQ,
    ]
}

/// `mamba2_selective_scan_prefill` launches its kernel exactly where the sizes of the request are
/// right, with every argument what its role asks for, on blocks that cover the result.
pub proof fn mamba2_selective_scan_prefill_launches(
    x_len: int, delta_len: int, a_log_len: int, b_len: int, c_len: int, h_len: int, y_len: int,
    batch: int, num_heads: int, seq_q: int,
)
    ensures
        scan::mamba2_selective_scan_prefill_plan(
            x_len, delta_len, a_log_len, b_len, c_len, h_len, y_len, batch, num_heads, seq_q,
        ) matches Plan::Fail(f) ==> f is InvalidArgument,
        scan::mamba2_selective_scan_prefill_plan(
            x_len, delta_len, a_log_len, b_len, c_len, h_len, y_len, batch, num_heads, seq_q,
        ) !is Undefined,
        scan::mamba2_selective_scan_prefill_plan(
            x_len, delta_len, a_log_len, b_len, c_len, h_len, y_len, batch, num_heads, seq_q,
        ) is Launch <==> {
            &&& batch != 0
            &&& num_heads != 0
            &&& seq_q != 0
        },
        scan::mamba2_selective_scan_prefill_plan(
            x_len, delta_len, a_log_len, b_len, c_len, h_len, y_len, batch, num_heads, seq_q,
        ) matches Plan::Launch(l) ==> {
            &&& l.entry == "mamba2_selective_scan_prefill"@
            &&& l.kernel == "mamba2_selective_scan_prefill"@
            &&& l.args =~= mamba2_selective_scan_prefill_takes().map_values(
                |r: Role|
                    match r {
                        Role::Input => Arg::buffer(0),
                        Role::Delta => Arg::buffer(1),
                        Role::ALog => Arg::buffer(2),
                        Role::Right => Arg::buffer(3),
                        Role::Product => Arg::buffer(4),
                        Role::Heads => Arg::buffer(5),
                        Role::Result => Arg::buffer(6),
                        Role::NumHeads => Arg::word(num_heads),
                        Role::SeqQ => Arg::word(seq_q),
                        _ => Arg::Word(0),
                    },
            )
            &&& l.grid.0 == num_heads
            &&& l.grid.1 == batch
            &&& l.grid.2 == 1
            &&& l.block == (128int, 1int, 1int)
            &&& l.shared_mem == 0
            &&& l.opt_in is None
            &&& l.failure is Some
            &&& l.tensor_maps.len() == 0
        },
{
}

/// What the kernel `linear_attn_chunk_prefill` takes, in order.
pub open spec fn linear_attn_chunk_prefill_takes() -> Seq<Role> {
    seq![Role::Key, Role::Value, Role::Query, Role::Result, Role::SIn, Role::SOut, Role::NumHeads]
}

/// `linear_attn_chunk_prefill` launches its kernel exactly where the sizes of the request are
/// right, with every argument what its role asks for, on blocks that cover the result.
pub proof fn linear_attn_chunk_prefill_launches(
    k_len: int, v_len: int, q_len: int, y_len: int, s_in_len: int, s_out_len: int, batch: int,
    num_heads: int,
)
    ensures
        scan::linear_attn_chunk_prefill_plan(
            k_len, v_len, q_len, y_len, s_in_len, s_out_len, batch, num_heads,
        ) matches Plan::Fail(f) ==> f is InvalidArgument,
        scan::linear_attn_chunk_prefill_plan(
            k_len, v_len, q_len, y_len, s_in_len, s_out_len, batch, num_heads,
        ) !is Undefined,
        scan::linear_attn_chunk_prefill_plan(
            k_len, v_len, q_len, y_len, s_in_len, s_out_len, batch, num_heads,
        ) is Launch <==> {
            &&& batch != 0
            &&& num_heads != 0
        },
        scan::linear_attn_chunk_prefill_plan(
            k_len, v_len, q_len, y_len, s_in_len, s_out_len, batch, num_heads,
        ) matches Plan::Launch(l) ==> {
            &&& l.entry == "linear_attn_chunk_prefill"@
            &&& l.kernel == "linear_attn_chunk_prefill"@
            &&& l.args =~= linear_attn_chunk_prefill_takes().map_values(
                |r: Role|
                    match r {
                        Role::Key => Arg::buffer(0),
                        Role::Value => Arg::buffer(1),
                        Role::Query => Arg::buffer(2),
                        Role::Result => Arg::buffer(3),
                        Role::SIn => Arg::buffer(4),
                        Role::SOut => Arg::buffer(5),
                        Role::NumHeads => Arg::word(num_heads),
                        _ => Arg::Word(0),
                    },
            )
            &&& l.grid.0 == num_heads
            &&& l.grid.1 == batch
            &&& l.grid.2 == 1
            &&& l.block == (128int, 1int, 1int)
            &&& l.shared_mem == 90112
            &&& l.opt_in is Some
            &&& l.failure is Some
            &&& l.tensor_maps.len() == 0
        },
{
}

/// What the kernel `linear_attn_state_update_mma` takes, in order.
pub open spec fn linear_attn_state_update_mma_takes() -> Seq<Role> {
    seq![Role::Value, Role::Key, Role::SIn, Role::SOut, Role::NumHeads]
}

/// `linear_attn_state_update_mma` launches its kernel exactly where the sizes of the request are
/// right, with every argument what its role asks for, on blocks that cover the result.
pub proof fn linear_attn_state_update_mma_launches(
    v_len: int, k_len: int, s_in_len: int, s_out_len: int, batch: int, num_heads: int,
)
    ensures
        scan::linear_attn_state_update_mma_plan(
            v_len, k_len, s_in_len, s_out_len, batch, num_heads,
        ) matches Plan::Fail(f) ==> f is InvalidArgument,
        scan::linear_attn_state_update_mma_plan(
            v_len, k_len, s_in_len, s_out_len, batch, num_heads,
        ) !is Undefined,
        scan::linear_attn_state_update_mma_plan(
            v_len, k_len, s_in_len, s_out_len, batch, num_heads,
        ) is Launch <==> {
            &&& batch != 0
            &&& num_heads != 0
        },
        scan::linear_attn_state_update_mma_plan(
            v_len, k_len, s_in_len, s_out_len, batch, num_heads,
        ) matches Plan::Launch(l) ==> {
            &&& l.entry == "linear_attn_state_update_mma"@
            &&& l.kernel == "linear_attn_state_update_mma"@
            &&& l.args =~= linear_attn_state_update_mma_takes().map_values(
                |r: Role|
                    match r {
                        Role::Value => Arg::buffer(0),
                        Role::Key => Arg::buffer(1),
                        Role::SIn => Arg::buffer(2),
                        Role::SOut => Arg::buffer(3),
                        Role::NumHeads => Arg::word(num_heads),
                        _ => Arg::Word(0),
                    },
            )
            &&& l.grid.0 == num_heads
            &&& l.grid.1 == batch
            &&& l.grid.2 == 1
            &&& l.block == (128int, 1int, 1int)
            &&& l.shared_mem == 81920
            &&& l.opt_in is Some
            &&& l.failure is Some
            &&& l.tensor_maps.len() == 0
        },
{
}

/// What the kernel `linear_attn_y_inter_mma` takes, in order.
pub open spec fn linear_attn_y_inter_mma_takes() -> Seq<Role> {
    seq![Role::Query, Role::State, Role::Result, Role::NumHeads]
}

/// `linear_attn_y_inter_mma` launches its kernel exactly where the sizes of the request are
/// right, with every argument what its role asks for, on blocks that cover the result.
pub proof fn linear_attn_y_inter_mma_launches(
    q_len: int, s_len: int, y_len: int, batch: int, num_heads: int,
)
    ensures
        scan::linear_attn_y_inter_mma_plan(
            q_len, s_len, y_len, batch, num_heads,
        ) matches Plan::Fail(f) ==> f is InvalidArgument,
        scan::linear_attn_y_inter_mma_plan(
            q_len, s_len, y_len, batch, num_heads,
        ) !is Undefined,
        scan::linear_attn_y_inter_mma_plan(
            q_len, s_len, y_len, batch, num_heads,
        ) is Launch <==> {
            &&& batch != 0
            &&& num_heads != 0
        },
        scan::linear_attn_y_inter_mma_plan(
            q_len, s_len, y_len, batch, num_heads,
        ) matches Plan::Launch(l) ==> {
            &&& l.entry == "linear_attn_y_inter_mma"@
            &&& l.kernel == "linear_attn_y_inter_mma"@
            &&& l.args =~= linear_attn_y_inter_mma_takes().map_values(
                |r: Role|
                    match r {
                        Role::Query => Arg::buffer(0),
                        Role::State => Arg::buffer(1),
                        Role::Result => Arg::buffer(2),
                        Role::NumHeads => Arg::word(num_heads),
                        _ => Arg::Word(0),
                    },
            )
            &&& l.grid.0 == num_heads
            &&& l.grid.1 == batch
            &&& l.grid.2 == 1
            &&& l.block == (128int, 1int, 1int)
            &&& l.shared_mem == 40960
            &&& l.opt_in is Some
            &&& l.failure is Some
            &&& l.tensor_maps.len() == 0
        },
{
}

} // verus!
