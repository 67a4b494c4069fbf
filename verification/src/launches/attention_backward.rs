//! What the launches of `attention::backward` hand to their kernels.
use crate::attention::backward;
use crate::launches::role::Role;
use crate::meaning;
use crate::plan::{Arg, F32, Plan};
use crate::shape;
use vstd::prelude::*;

verus! {

/// What the kernel `recompute` takes, in order.
pub open spec fn recompute_takes() -> Seq<Role> {
    seq![Role::Buffer0, Role::Buffer1, Role::Buffer2, Role::SeqArg, Role::Width, Role::Scale]
}

/// `recompute` launches its kernel with every argument what its role asks for, on blocks that
/// cover the result.
pub proof fn recompute_launches(seq: int, d: int, scale: F32, causal: bool)
    ensures
        backward::recompute_plan(seq, d, scale, causal) is Launch,
        backward::recompute_plan(seq, d, scale, causal) matches Plan::Launch(l) ==> {
            &&& causal ==> l.entry == "fa_bw_recompute_p_causal_bf16"@
            &&& !causal ==> l.entry == "fa_bw_recompute_p_bf16"@
            &&& l.kernel == l.entry
            &&& l.args =~= recompute_takes().map_values(
                |r: Role|
                    match r {
                        Role::Buffer0 => Arg::buffer(0),
                        Role::Buffer1 => Arg::buffer(1),
                        Role::Buffer2 => Arg::buffer(2),
                        Role::SeqArg => Arg::word(seq),
                        Role::Width => Arg::word(d),
                        Role::Scale => Arg::Scalar(scale),
                        _ => Arg::Word(0),
                    },
            )
            &&& l.grid.0 == seq
            &&& l.grid.1 == 1
            &&& l.grid.2 == 1
            &&& l.block == (128int, 1int, 1int)
            &&& l.shared_mem == 0
            &&& l.opt_in is None
            &&& l.failure is None
            &&& l.tensor_maps.len() == 0
        },
{
}

/// What the kernel `fa_bw_compute_ds_bf16` takes, in order.
pub open spec fn fa_bw_compute_ds_bf16_takes() -> Seq<Role> {
    seq![Role::Buffer0, Role::Buffer1, Role::Buffer2, Role::SeqArg]
}

/// `score_gradient` launches its kernel with every argument what its role asks for, on blocks
/// that cover the result.
pub proof fn score_gradient_launches(seq: int)
    ensures
        backward::score_gradient_plan(seq) is Launch,
        backward::score_gradient_plan(seq) matches Plan::Launch(l) ==> {
            &&& l.entry == "fa_bw_compute_ds_bf16"@
            &&& l.kernel == "fa_bw_compute_ds_bf16"@
            &&& l.args =~= fa_bw_compute_ds_bf16_takes().map_values(
                |r: Role|
                    match r {
                        Role::Buffer0 => Arg::buffer(0),
                        Role::Buffer1 => Arg::buffer(1),
                        Role::Buffer2 => Arg::buffer(2),
                        Role::SeqArg => Arg::word(seq),
                        _ => Arg::Word(0),
                    },
            )
            &&& l.grid.0 == seq
            &&& l.grid.1 == 1
            &&& l.grid.2 == 1
            &&& l.block == (128int, 1int, 1int)
            &&& l.shared_mem == 0
            &&& l.opt_in is None
            &&& l.failure is None
            &&& l.tensor_maps.len() == 0
        },
{
}

/// What the kernel `scale_bf16_inplace_host` takes, in order.
pub open spec fn scale_bf16_inplace_host_takes() -> Seq<Role> {
    seq![Role::Buffer0, Role::Columns, Role::Scale]
}

/// `scale` launches its kernel with every argument what its role asks for, on blocks that cover
/// the result.
pub proof fn scale_launches(n: int, scale: F32)
    requires
        n >= 0,
    ensures
        backward::scale_plan(n, scale) is Launch,
        backward::scale_plan(n, scale) matches Plan::Launch(l) ==> {
            &&& l.entry == "scale_bf16_inplace_host"@
            &&& l.kernel == "scale_bf16_inplace_host"@
            &&& l.args =~= scale_bf16_inplace_host_takes().map_values(
                |r: Role|
                    match r {
                        Role::Buffer0 => Arg::buffer(0),
                        Role::Columns => Arg::word(n),
                        Role::Scale => Arg::Scalar(scale),
                        _ => Arg::Word(0),
                    },
            )
            &&& meaning::covers(l.grid.0, 256, n)
            &&& l.grid.1 == 1
            &&& l.grid.2 == 1
            &&& l.block == (256int, 1int, 1int)
            &&& l.shared_mem == 0
            &&& l.opt_in is None
            &&& l.failure is None
            &&& l.tensor_maps.len() == 0
        },
{
    shape::lemma_ceil_div(n, 256);
}

} // verus!
