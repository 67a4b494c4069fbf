//! What the launches of `linear_attention::gdn` hand to their kernels.
use crate::launches::role::Role;
use crate::launches::role;
use crate::linear_attention::gdn;
use crate::meaning;
use crate::plan::{Arg, F32, MapElem, Plan, Swizzle};
use crate::shape;
use vstd::prelude::*;

verus! {

/// What the kernel `gdn_alpha_beta_bf16_batched` takes, in order.
pub open spec fn gdn_alpha_beta_bf16_batched_takes() -> Seq<Role> {
    seq![
        Role::ALogits, Role::BLogits, Role::DtBias, Role::ALog, Role::Alpha, Role::Beta,
        Role::Columns,
    ]
}

/// `gdn_alpha_beta_bf16_batched` launches its kernel exactly where the sizes of the request are
/// right, with every argument what its role asks for, on blocks that cover the result.
pub proof fn gdn_alpha_beta_bf16_batched_launches(
    a_logits_len: int, b_logits_len: int, dt_bias_len: int, a_log_len: int, alpha_len: int,
    beta_len: int, n: int, batch_m: int,
)
    requires
        n >= 0,
    ensures
        gdn::gdn_alpha_beta_bf16_batched_plan(
            a_logits_len, b_logits_len, dt_bias_len, a_log_len, alpha_len, beta_len, n, batch_m,
        ) matches Plan::Fail(f) ==> f is InvalidArgument,
        gdn::gdn_alpha_beta_bf16_batched_plan(
            a_logits_len, b_logits_len, dt_bias_len, a_log_len, alpha_len, beta_len, n, batch_m,
        ) !is Undefined,
        gdn::gdn_alpha_beta_bf16_batched_plan(
            a_logits_len, b_logits_len, dt_bias_len, a_log_len, alpha_len, beta_len, n, batch_m,
        ) is Launch <==> {
            &&& n != 0
            &&& batch_m != 0
            &&& a_logits_len >= n * batch_m
            &&& b_logits_len >= n * batch_m
            &&& alpha_len >= n * batch_m
            &&& beta_len >= n * batch_m
            &&& dt_bias_len >= n
            &&& a_log_len >= n
        },
        gdn::gdn_alpha_beta_bf16_batched_plan(
            a_logits_len, b_logits_len, dt_bias_len, a_log_len, alpha_len, beta_len, n, batch_m,
        ) matches Plan::Launch(l) ==> {
            &&& l.entry == "gdn_alpha_beta_bf16_batched"@
            &&& l.kernel == "gdn_alpha_beta_bf16_batched"@
            &&& l.args =~= gdn_alpha_beta_bf16_batched_takes().map_values(
                |r: Role|
                    match r {
                        Role::ALogits => Arg::buffer(0),
                        Role::BLogits => Arg::buffer(1),
                        Role::DtBias => Arg::buffer(2),
                        Role::ALog => Arg::buffer(3),
                        Role::Alpha => Arg::buffer(4),
                        Role::Beta => Arg::buffer(5),
                        Role::Columns => Arg::word(n),
                        _ => Arg::Word(0),
                    },
            )
            &&& meaning::covers(l.grid.0, 128, n)
            &&& l.grid.1 == batch_m
            &&& l.grid.2 == 1
            &&& l.block == (128int, 1int, 1int)
            &&& l.shared_mem == 0
            &&& l.opt_in is None
            &&& l.failure is Some
            &&& l.tensor_maps.len() == 0
        },
{
    shape::lemma_ceil_div(n, 128);
}

/// What the kernel `gdn_alpha_beta_bf16` takes, in order.
pub open spec fn gdn_alpha_beta_bf16_takes() -> Seq<Role> {
    seq![
        Role::ALogits, Role::BLogits, Role::DtBias, Role::ALog, Role::Alpha, Role::Beta,
        Role::Columns,
    ]
}

/// `gdn_alpha_beta_bf16` launches its kernel exactly where the sizes of the request are right,
/// with every argument what its role asks for, on blocks that cover the result.
pub proof fn gdn_alpha_beta_bf16_launches(
    a_logits_len: int, b_logits_len: int, dt_bias_len: int, a_log_len: int, alpha_len: int,
    beta_len: int, n: int,
)
    ensures
        gdn::gdn_alpha_beta_bf16_plan(
            a_logits_len, b_logits_len, dt_bias_len, a_log_len, alpha_len, beta_len, n,
        ) matches Plan::Fail(f) ==> f is InvalidArgument,
        gdn::gdn_alpha_beta_bf16_plan(
            a_logits_len, b_logits_len, dt_bias_len, a_log_len, alpha_len, beta_len, n,
        ) !is Undefined,
        gdn::gdn_alpha_beta_bf16_plan(
            a_logits_len, b_logits_len, dt_bias_len, a_log_len, alpha_len, beta_len, n,
        ) is Launch <==> {
            &&& n != 0
            &&& n <= 1024
            &&& a_logits_len >= n
            &&& b_logits_len >= n
            &&& dt_bias_len >= n
            &&& a_log_len >= n
            &&& alpha_len >= n
            &&& beta_len >= n
        },
        gdn::gdn_alpha_beta_bf16_plan(
            a_logits_len, b_logits_len, dt_bias_len, a_log_len, alpha_len, beta_len, n,
        ) matches Plan::Launch(l) ==> {
            &&& l.entry == "gdn_alpha_beta_bf16"@
            &&& l.kernel == "gdn_alpha_beta_bf16"@
            &&& l.args =~= gdn_alpha_beta_bf16_takes().map_values(
                |r: Role|
                    match r {
                        Role::ALogits => Arg::buffer(0),
                        Role::BLogits => Arg::buffer(1),
                        Role::DtBias => Arg::buffer(2),
                        Role::ALog => Arg::buffer(3),
                        Role::Alpha => Arg::buffer(4),
                        Role::Beta => Arg::buffer(5),
                        Role::Columns => Arg::word(n),
                        _ => Arg::Word(0),
                    },
            )
            &&& l.grid.0 == 1
            &&& l.grid.1 == 1
            &&& l.grid.2 == 1
            &&& l.block == (n, 1int, 1int)
            &&& l.shared_mem == 0
            &&& l.opt_in is None
            &&& l.failure is Some
            &&& l.tensor_maps.len() == 0
        },
{
}

/// What the kernel `l2norm_scale_replicate_bf16` takes, in order.
pub open spec fn l2norm_scale_replicate_bf16_takes() -> Seq<Role> {
    seq![Role::Input, Role::Result, Role::HeadDim, Role::Factor, Role::Scale, Role::Eps]
}

/// `l2norm_scale_replicate_bf16` launches its kernel exactly where the sizes of the request are
/// right, with every argument what its role asks for, on blocks that cover the result.
pub proof fn l2norm_scale_replicate_bf16_launches(
    x_len: int, y_len: int, num_heads_in: int, head_dim: int, factor: int, scale: F32, eps: F32,
)
    ensures
        gdn::l2norm_scale_replicate_bf16_plan(
            x_len, y_len, num_heads_in, head_dim, factor, scale, eps,
        ) matches Plan::Fail(f) ==> f is InvalidArgument,
        gdn::l2norm_scale_replicate_bf16_plan(
            x_len, y_len, num_heads_in, head_dim, factor, scale, eps,
        ) is Launch <==> {
            &&& num_heads_in != 0
            &&& head_dim != 0
            &&& factor != 0
            &&& head_dim % 32 == 0
            &&& head_dim <= 1024
            &&& num_heads_in * head_dim <= u32::MAX
            &&& num_heads_in * factor <= u32::MAX
            &&& num_heads_in * factor * head_dim <= u32::MAX
            &&& x_len >= num_heads_in * head_dim
            &&& y_len >= num_heads_in * factor * head_dim
        },
        gdn::l2norm_scale_replicate_bf16_plan(
            x_len, y_len, num_heads_in, head_dim, factor, scale, eps,
        ) matches Plan::Launch(l) ==> {
            &&& l.entry == "l2norm_scale_replicate_bf16"@
            &&& l.kernel == "l2norm_scale_replicate_bf16"@
            &&& l.args =~= l2norm_scale_replicate_bf16_takes().map_values(
                |r: Role|
                    match r {
                        Role::Input => Arg::buffer(0),
                        Role::Result => Arg::buffer(1),
                        Role::HeadDim => Arg::word(head_dim),
                        Role::Factor => Arg::word(factor),
                        Role::Scale => Arg::Scalar(scale),
                        Role::Eps => Arg::Scalar(eps),
                        _ => Arg::Word(0),
                    },
            )
            &&& l.grid.0 == num_heads_in
            &&& l.grid.1 == 1
            &&& l.grid.2 == 1
            &&& l.block == (head_dim, 1int, 1int)
            &&& l.shared_mem == 0
            &&& l.opt_in is None
            &&& l.failure is Some
            &&& l.tensor_maps.len() == 0
        },
{
}

/// What the kernel `gdn_alpha_beta_backward_bf16` takes, in order.
pub open spec fn gdn_alpha_beta_backward_bf16_takes() -> Seq<Role> {
    seq![
        Role::ALogits, Role::BLogits, Role::DtBias, Role::ALog, Role::Dalpha, Role::Dbeta,
        Role::DaLogits, Role::DbLogits, Role::DdtBias, Role::DALog, Role::Columns,
    ]
}

/// `gdn_alpha_beta_backward_bf16` launches its kernel exactly where the sizes of the request are
/// right, with every argument what its role asks for, on blocks that cover the result.
pub proof fn gdn_alpha_beta_backward_bf16_launches(
    a_logits_len: int, b_logits_len: int, dt_bias_len: int, a_log_len: int, dalpha_len: int,
    dbeta_len: int, da_logits_len: int, db_logits_len: int, ddt_bias_len: int, d_a_log_len: int,
    n: int,
)
    ensures
        gdn::gdn_alpha_beta_backward_bf16_plan(
            a_logits_len, b_logits_len, dt_bias_len, a_log_len, dalpha_len, dbeta_len,
            da_logits_len, db_logits_len, ddt_bias_len, d_a_log_len, n,
        ) matches Plan::Fail(f) ==> f is InvalidArgument,
        gdn::gdn_alpha_beta_backward_bf16_plan(
            a_logits_len, b_logits_len, dt_bias_len, a_log_len, dalpha_len, dbeta_len,
            da_logits_len, db_logits_len, ddt_bias_len, d_a_log_len, n,
        ) !is Undefined,
        gdn::gdn_alpha_beta_backward_bf16_plan(
            a_logits_len, b_logits_len, dt_bias_len, a_log_len, dalpha_len, dbeta_len,
            da_logits_len, db_logits_len, ddt_bias_len, d_a_log_len, n,
        ) is Launch <==> {
            &&& n != 0
            &&& n <= 1024
            &&& a_logits_len >= n
            &&& b_logits_len >= n
            &&& dt_bias_len >= n
            &&& a_log_len >= n
            &&& dalpha_len >= n
            &&& dbeta_len >= n
            &&& da_logits_len >= n
            &&& db_logits_len >= n
            &&& ddt_bias_len >= n
            &&& d_a_log_len >= n
        },
        gdn::gdn_alpha_beta_backward_bf16_plan(
            a_logits_len, b_logits_len, dt_bias_len, a_log_len, dalpha_len, dbeta_len,
            da_logits_len, db_logits_len, ddt_bias_len, d_a_log_len, n,
        ) matches Plan::Launch(l) ==> {
            &&& l.entry == "gdn_alpha_beta_backward_bf16"@
            &&& l.kernel == "gdn_alpha_beta_backward_bf16"@
            &&& l.args =~= gdn_alpha_beta_backward_bf16_takes().map_values(
                |r: Role|
                    match r {
                        Role::ALogits => Arg::buffer(0),
                        Role::BLogits => Arg::buffer(1),
                        Role::DtBias => Arg::buffer(2),
                        Role::ALog => Arg::buffer(3),
                        Role::Dalpha => Arg::buffer(4),
                        Role::Dbeta => Arg::buffer(5),
                        Role::DaLogits => Arg::buffer(6),
                        Role::DbLogits => Arg::buffer(7),
                        Role::DdtBias => Arg::buffer(8),
                        Role::DALog => Arg::buffer(9),
                        Role::Columns => Arg::word(n),
                        _ => Arg::Word(0),
                    },
            )
            &&& l.grid.0 == 1
            &&& l.grid.1 == 1
            &&& l.grid.2 == 1
            &&& l.block == (n, 1int, 1int)
            &&& l.shared_mem == 0
            &&& l.opt_in is None
            &&& l.failure is None
            &&& l.tensor_maps.len() == 0
        },
{
}

/// What the kernel `gdn_decode_backward_bf16` takes, in order.
pub open spec fn gdn_decode_backward_bf16_takes() -> Seq<Role> {
    seq![
        Role::SOld, Role::SNew, Role::Query, Role::Key, Role::Value, Role::Alpha, Role::Beta,
        Role::Dy, Role::DsTInout, Role::Dq, Role::Dk, Role::Dv, Role::Dalpha, Role::Dbeta,
        Role::NumHeads,
    ]
}

/// `gdn_decode_backward` launches its kernel exactly where the sizes of the request are right,
/// with every argument what its role asks for, on blocks that cover the result.
pub proof fn gdn_decode_backward_launches(
    s_old_len: int, s_new_len: int, q_len: int, k_len: int, v_len: int, alpha_len: int,
    beta_len: int, dy_len: int, ds_t_inout_len: int, dq_len: int, dk_len: int, dv_len: int,
    dalpha_len: int, dbeta_len: int, batch: int, num_heads: int,
)
    ensures
        gdn::gdn_decode_backward_plan(
            s_old_len, s_new_len, q_len, k_len, v_len, alpha_len, beta_len, dy_len,
            ds_t_inout_len, dq_len, dk_len, dv_len, dalpha_len, dbeta_len, batch, num_heads,
        ) matches Plan::Fail(f) ==> f is InvalidArgument,
        gdn::gdn_decode_backward_plan(
            s_old_len, s_new_len, q_len, k_len, v_len, alpha_len, beta_len, dy_len,
            ds_t_inout_len, dq_len, dk_len, dv_len, dalpha_len, dbeta_len, batch, num_heads,
        ) is Launch <==> {
            &&& batch != 0
            &&& num_heads != 0
            &&& batch * num_heads <= u32::MAX
            &&& s_old_len >= (batch * num_heads) * 128 * 128
            &&& s_new_len >= (batch * num_heads) * 128 * 128
            &&& ds_t_inout_len >= (batch * num_heads) * 128 * 128
            &&& q_len >= (batch * num_heads) * 128
            &&& k_len >= (batch * num_heads) * 128
            &&& v_len >= (batch * num_heads) * 128
            &&& dy_len >= (batch * num_heads) * 128
            &&& dq_len >= (batch * num_heads) * 128
            &&& dk_len >= (batch * num_heads) * 128
            &&& dv_len >= (batch * num_heads) * 128
            &&& alpha_len >= batch * num_heads
            &&& beta_len >= batch * num_heads
            &&& dalpha_len >= batch * num_heads
            &&& dbeta_len >= batch * num_heads
        },
        gdn::gdn_decode_backward_plan(
            s_old_len, s_new_len, q_len, k_len, v_len, alpha_len, beta_len, dy_len,
            ds_t_inout_len, dq_len, dk_len, dv_len, dalpha_len, dbeta_len, batch, num_heads,
        ) matches Plan::Launch(l) ==> {
            &&& l.entry == "gdn_decode_backward_bf16"@
            &&& l.kernel == "gdn_decode_backward_bf16"@
            &&& l.args =~= gdn_decode_backward_bf16_takes().map_values(
                |r: Role|
                    match r {
                        Role::SOld => Arg::buffer(0),
                        Role::SNew => Arg::buffer(1),
                        Role::Query => Arg::buffer(2),
                        Role::Key => Arg::buffer(3),
                        Role::Value => Arg::buffer(4),
                        Role::Alpha => Arg::buffer(5),
                        Role::Beta => Arg::buffer(6),
                        Role::Dy => Arg::buffer(7),
                        Role::DsTInout => Arg::buffer(8),
                        Role::Dq => Arg::buffer(9),
                        Role::Dk => Arg::buffer(10),
                        Role::Dv => Arg::buffer(11),
                        Role::Dalpha => Arg::buffer(12),
                        Role::Dbeta => Arg::buffer(13),
                        Role::NumHeads => Arg::word(num_heads),
                        _ => Arg::Word(0),
                    },
            )
            &&& l.grid.0 == num_heads
            &&& l.grid.1 == batch
            &&& l.grid.2 == 1
            &&& l.block == (128int, 1int, 1int)
            &&& l.shared_mem == 69248
            &&& l.opt_in is Some
            &&& l.failure is Some
            &&& l.tensor_maps.len() == 0
        },
{
}

/// What the kernel `l2norm_scale_replicate_backward_bf16` takes, in order.
pub open spec fn l2norm_scale_replicate_backward_bf16_takes() -> Seq<Role> {
    seq![Role::Input, Role::Dy, Role::Dx, Role::HeadDim, Role::Factor, Role::Scale, Role::Eps]
}

/// `l2norm_scale_replicate_backward_bf16` launches its kernel exactly where the sizes of the
/// request are right, with every argument what its role asks for, on blocks that cover the
/// result.
pub proof fn l2norm_scale_replicate_backward_bf16_launches(
    x_len: int, dy_len: int, dx_len: int, num_heads_in: int, head_dim: int, factor: int,
    scale: F32, eps: F32,
)
    ensures
        gdn::l2norm_scale_replicate_backward_bf16_plan(
            x_len, dy_len, dx_len, num_heads_in, head_dim, factor, scale, eps,
        ) matches Plan::Fail(f) ==> f is InvalidArgument,
        gdn::l2norm_scale_replicate_backward_bf16_plan(
            x_len, dy_len, dx_len, num_heads_in, head_dim, factor, scale, eps,
        ) is Launch <==> {
            &&& num_heads_in != 0
            &&& head_dim != 0
            &&& factor != 0
            &&& head_dim % 32 == 0
            &&& head_dim <= 1024
            &&& num_heads_in * head_dim <= u32::MAX
            &&& num_heads_in * factor <= u32::MAX
            &&& num_heads_in * factor * head_dim <= u32::MAX
            &&& x_len >= num_heads_in * head_dim
            &&& dx_len >= num_heads_in * head_dim
            &&& dy_len >= num_heads_in * factor * head_dim
        },
        gdn::l2norm_scale_replicate_backward_bf16_plan(
            x_len, dy_len, dx_len, num_heads_in, head_dim, factor, scale, eps,
        ) matches Plan::Launch(l) ==> {
            &&& l.entry == "l2norm_scale_replicate_backward_bf16"@
            &&& l.kernel == "l2norm_scale_replicate_backward_bf16"@
            &&& l.args =~= l2norm_scale_replicate_backward_bf16_takes().map_values(
                |r: Role|
                    match r {
                        Role::Input => Arg::buffer(0),
                        Role::Dy => Arg::buffer(1),
                        Role::Dx => Arg::buffer(2),
                        Role::HeadDim => Arg::word(head_dim),
                        Role::Factor => Arg::word(factor),
                        Role::Scale => Arg::Scalar(scale),
                        Role::Eps => Arg::Scalar(eps),
                        _ => Arg::Word(0),
                    },
            )
            &&& l.grid.0 == num_heads_in
            &&& l.grid.1 == 1
            &&& l.grid.2 == 1
            &&& l.block == (head_dim, 1int, 1int)
            &&& l.shared_mem == 0
            &&& l.opt_in is None
            &&& l.failure is None
            &&& l.tensor_maps.len() == 0
        },
{
}

/// What the kernel `gdn_decode` takes, in order.
pub open spec fn gdn_decode_takes() -> Seq<Role> {
    seq![
        Role::Query, Role::Key, Role::Value, Role::Alpha, Role::Beta, Role::State, Role::Result,
        Role::NumHeads,
    ]
}

/// `gdn_decode` launches its kernel exactly where the sizes of the request are right, with every
/// argument what its role asks for, on blocks that cover the result.
pub proof fn gdn_decode_launches(
    q_len: int, k_len: int, v_len: int, alpha_len: int, beta_len: int, state_len: int, y_len: int,
    batch: int, num_heads: int,
)
    ensures
        gdn::gdn_decode_plan(
            q_len, k_len, v_len, alpha_len, beta_len, state_len, y_len, batch, num_heads,
        ) matches Plan::Fail(f) ==> f is InvalidArgument,
        gdn::gdn_decode_plan(
            q_len, k_len, v_len, alpha_len, beta_len, state_len, y_len, batch, num_heads,
        ) is Launch <==> {
            &&& batch != 0
            &&& num_heads != 0
            &&& batch * num_heads * 128 <= u32::MAX
            &&& batch * num_heads <= u32::MAX
            &&& batch * num_heads * 128 * 128 <= u32::MAX
            &&& q_len >= batch * num_heads * 128
            &&& k_len >= batch * num_heads * 128
            &&& v_len >= batch * num_heads * 128
            &&& y_len >= batch * num_heads * 128
            &&& alpha_len >= batch * num_heads
            &&& beta_len >= batch * num_heads
            &&& state_len >= batch * num_heads * 128 * 128
        },
        gdn::gdn_decode_plan(
            q_len, k_len, v_len, alpha_len, beta_len, state_len, y_len, batch, num_heads,
        ) matches Plan::Launch(l) ==> {
            &&& l.entry == "gdn_decode"@
            &&& l.kernel == "gdn_decode"@
            &&& l.args =~= gdn_decode_takes().map_values(
                |r: Role|
                    match r {
                        Role::Query => Arg::buffer(0),
                        Role::Key => Arg::buffer(1),
                        Role::Value => Arg::buffer(2),
                        Role::Alpha => Arg::buffer(3),
                        Role::Beta => Arg::buffer(4),
                        Role::State => Arg::buffer(5),
                        Role::Result => Arg::buffer(6),
                        Role::NumHeads => Arg::word(num_heads),
                        _ => Arg::Word(0),
                    },
            )
            &&& l.grid.0 == num_heads
            &&& l.grid.1 == batch
            &&& l.grid.2 == 1
            &&& l.block == (128int, 1int, 1int)
            &&& l.shared_mem == 67072
            &&& l.opt_in is Some
            &&& l.failure is Some
            &&& l.tensor_maps.len() == 0
        },
{
}

/// What the kernel `gdn_decode_tma` takes, in order.
pub open spec fn gdn_decode_tma_takes() -> Seq<Role> {
    seq![
        Role::Query, Role::Key, Role::Value, Role::Alpha, Role::Beta, Role::StateTiles,
        Role::State, Role::Result, Role::NumHeads,
    ]
}

/// `gdn_decode_tma` launches its kernel exactly where the sizes of the request are right, with
/// every argument what its role asks for, on blocks that cover the result.
pub proof fn gdn_decode_tma_launches(
    q_len: int, k_len: int, v_len: int, alpha_len: int, beta_len: int, state_len: int, y_len: int,
    batch: int, num_heads: int,
)
    ensures
        gdn::gdn_decode_tma_plan(
            q_len, k_len, v_len, alpha_len, beta_len, state_len, y_len, batch, num_heads,
        ) matches Plan::Fail(f) ==> f is InvalidArgument,
        gdn::gdn_decode_tma_plan(
            q_len, k_len, v_len, alpha_len, beta_len, state_len, y_len, batch, num_heads,
        ) is Launch <==> {
            &&& batch != 0
            &&& num_heads != 0
            &&& batch * num_heads * 128 <= u32::MAX
        },
        gdn::gdn_decode_tma_plan(
            q_len, k_len, v_len, alpha_len, beta_len, state_len, y_len, batch, num_heads,
        ) matches Plan::Launch(l) ==> {
            &&& l.entry == "gdn_decode_tma"@
            &&& l.kernel == "gdn_decode_tma"@
            &&& l.args =~= gdn_decode_tma_takes().map_values(
                |r: Role|
                    match r {
                        Role::Query => Arg::buffer(0),
                        Role::Key => Arg::buffer(1),
                        Role::Value => Arg::buffer(2),
                        Role::Alpha => Arg::buffer(3),
                        Role::Beta => Arg::buffer(4),
                        Role::StateTiles => Arg::Descriptor(0),
                        Role::State => Arg::buffer(5),
                        Role::Result => Arg::buffer(6),
                        Role::NumHeads => Arg::word(num_heads),
                        _ => Arg::Word(0),
                    },
            )
            &&& l.grid.0 == num_heads
            &&& l.grid.1 == batch
            &&& l.grid.2 == 1
            &&& l.block == (128int, 1int, 1int)
            &&& l.shared_mem == 67088
            &&& l.opt_in is Some
            &&& l.failure is Some
            &&& l.tensor_maps.len() == 1
            &&& role::tiles(
                l.tensor_maps[0],
                5,
                MapElem::F32,
                batch * num_heads * 128,
                128,
                128,
                128,
                Swizzle::Plain,
            )
        },
{
}

/// What the kernel `gdn_prefill` takes, in order.
pub open spec fn gdn_prefill_takes() -> Seq<Role> {
    seq![
        Role::Query, Role::Key, Role::Value, Role::Alpha, Role::Beta, Role::State, Role::Result,
        Role::NumHeads, Role::SeqQ,
    ]
}

/// `gdn_prefill` launches its kernel exactly where the sizes of the request are right, with every
/// argument what its role asks for, on blocks that cover the result.
pub proof fn gdn_prefill_launches(
    q_len: int, k_len: int, v_len: int, alpha_len: int, beta_len: int, state_len: int, y_len: int,
    batch: int, num_heads: int, seq_q: int, decayed: bool,
)
    ensures
        gdn::gdn_prefill_plan(
            q_len, k_len, v_len, alpha_len, beta_len, state_len, y_len, batch, num_heads, seq_q,
            decayed,
        ) matches Plan::Fail(f) ==> f is InvalidArgument,
        gdn::gdn_prefill_plan(
            q_len, k_len, v_len, alpha_len, beta_len, state_len, y_len, batch, num_heads, seq_q,
            decayed,
        ) !is Undefined,
        gdn::gdn_prefill_plan(
            q_len, k_len, v_len, alpha_len, beta_len, state_len, y_len, batch, num_heads, seq_q,
            decayed,
        ) is Launch <==> {
            &&& batch != 0
            &&& num_heads != 0
            &&& seq_q != 0
        },
        gdn::gdn_prefill_plan(
            q_len, k_len, v_len, alpha_len, beta_len, state_len, y_len, batch, num_heads, seq_q,
            decayed,
        ) matches Plan::Launch(l) ==> {
            &&& decayed ==> l.entry == "gdn_prefill_hf"@
            &&& !decayed ==> l.entry == "gdn_prefill"@
            &&& l.kernel == l.entry
            &&& l.args =~= gdn_prefill_takes().map_values(
                |r: Role|
                    match r {
                        Role::Query => Arg::buffer(0),
                        Role::Key => Arg::buffer(1),
                        Role::Value => Arg::buffer(2),
                        Role::Alpha => Arg::buffer(3),
                        Role::Beta => Arg::buffer(4),
                        Role::State => Arg::buffer(5),
                        Role::Result => Arg::buffer(6),
                        Role::NumHeads => Arg::word(num_heads),
                        Role::SeqQ => Arg::word(seq_q),
                        _ => Arg::Word(0),
                    },
            )
            &&& l.grid.0 == num_heads
            &&& l.grid.1 == batch
            &&& l.grid.2 == 1
            &&& l.block == (128int, 1int, 1int)
            &&& l.shared_mem == 67072
            &&& l.opt_in is Some
            &&& l.failure is Some
            &&& l.tensor_maps.len() == 0
        },
{
}

} // verus!
