//! GatedDeltaNet kernels.
use crate::error::Result;
use crate::plan::{Arg, F32, Launch, Plan};
use crate::plan;
use crate::shape;
use crate::tensor_map;
use crate::text::Text;
use crate::text;
use vstd::prelude::*;

verus! {

/// Per-head dimension of GatedDeltaNet value/state used by these kernels.
pub const GDN_HEAD_DIM: u32 = 128;

/// The answer of [`gdn_alpha_beta_bf16_batched`].
pub open spec fn gdn_alpha_beta_bf16_batched_plan(
    a_logits_len: int, b_logits_len: int, dt_bias_len: int, a_log_len: int, alpha_len: int,
    beta_len: int, n: int, batch_m: int,
) -> Plan {
    let m = batch_m;
    let need = n * m;
    let grid_x = shape::ceil_div(n, 128);
    if n == 0 || batch_m == 0 {
        Plan::invalid("n and batch_m must be > 0"@)
    } else if a_logits_len < need || b_logits_len < need || alpha_len < need || beta_len < need {
        Plan::invalid("batched alpha_beta a/b/alpha/beta buffer too small"@)
    } else if dt_bias_len < n || a_log_len < n {
        Plan::invalid("dt_bias / a_log buffer too small"@)
    } else {
        Plan::raw_launch(
            "gdn_alpha_beta_bf16_batched"@,
            "gdn_alpha_beta_bf16_batched"@,
            (grid_x, batch_m, 1),
            (128, 1, 1),
            0,
            Seq::empty(),
            seq![
                Arg::buffer(0), Arg::buffer(1), Arg::buffer(2), Arg::buffer(3), Arg::buffer(4),
                Arg::buffer(5), Arg::word(n),
            ],
            None,
            "gdn_alpha_beta_bf16_batched launch: "@,
        )
    }
}

/// GatedDeltaNet decay scalars for `batch_m` sequences in one launch:
///   dt[i]    = softplus(a_logits[i] + dt_bias[i])
///   alpha[i] = exp(-exp(a_log[i]) * dt[i])
///   beta[i]  = sigmoid(b_logits[i])
///
/// `dt_bias` and `a_log` are shared by the sequences.
pub fn gdn_alpha_beta_bf16_batched(
    a_logits_len: usize,
    b_logits_len: usize,
    dt_bias_len: usize,
    a_log_len: usize,
    alpha_len: usize,
    beta_len: usize,
    n: u32,
    batch_m: u32,
) -> (r: Result<Launch>)
    ensures
        plan::outcome(r) == gdn_alpha_beta_bf16_batched_plan(
            a_logits_len as int, b_logits_len as int, dt_bias_len as int, a_log_len as int,
            alpha_len as int, beta_len as int, n as int, batch_m as int,
        ),
        plan::launchable(r, 6),
{
    if n == 0 || batch_m == 0 {
        return Text::new("n and batch_m must be > 0").refuse();
    }
    let need: u64 = shape::product(n, batch_m);
    if (a_logits_len as u64) < need
        || (b_logits_len as u64) < need
        || (alpha_len as u64) < need
        || (beta_len as u64) < need
    {
        return Text::new("batched alpha_beta a/b/alpha/beta buffer too small").refuse();
    }
    if (dt_bias_len as u64) < (n as u64) || (a_log_len as u64) < (n as u64) {
        return Text::new("dt_bias / a_log buffer too small").refuse();
    }
    let grid_x: u32 = shape::div_ceil(n, 128);
    Ok(
        Launch::raw(
            "gdn_alpha_beta_bf16_batched",
            "gdn_alpha_beta_bf16_batched",
            (grid_x, batch_m, 1),
            (128, 1, 1),
            0,
            Vec::new(),
            vec![
                Arg::param(0), Arg::param(1), Arg::param(2), Arg::param(3), Arg::param(4),
                Arg::param(5), Arg::Word(n),
            ],
            None,
            Text::new("gdn_alpha_beta_bf16_batched launch: "),
        ),
    )
}

/// The answer of [`gdn_alpha_beta_bf16`].
pub open spec fn gdn_alpha_beta_bf16_plan(
    a_logits_len: int, b_logits_len: int, dt_bias_len: int, a_log_len: int, alpha_len: int,
    beta_len: int, n: int,
) -> Plan {
    let need = n;
    if n == 0 || n > 1024 {
        Plan::invalid("n must be in 1..=1024, got "@ + text::decimal(n))
    } else if a_logits_len < need
        || b_logits_len < need
        || dt_bias_len < need
        || a_log_len < need
        || alpha_len < need
        || beta_len < need
    {
        Plan::invalid("alpha/beta buffer too small"@)
    } else {
        Plan::raw_launch(
            "gdn_alpha_beta_bf16"@,
            "gdn_alpha_beta_bf16"@,
            (1, 1, 1),
            (n, 1, 1),
            0,
            Seq::empty(),
            seq![
                Arg::buffer(0), Arg::buffer(1), Arg::buffer(2), Arg::buffer(3), Arg::buffer(4),
                Arg::buffer(5), Arg::word(n),
            ],
            None,
            "gdn_alpha_beta_bf16 launch: "@,
        )
    }
}

/// Single-token (M=1) variant of the batched GatedDeltaNet decay computation:
/// `dt = softplus(a_logits + dt_bias)`, `alpha = exp(-exp(a_log) * dt)`,
/// `beta = sigmoid(b_logits)` over `n` value heads. Inputs BF16, outputs FP32.
pub fn gdn_alpha_beta_bf16(
    a_logits_len: usize,
    b_logits_len: usize,
    dt_bias_len: usize,
    a_log_len: usize,
    alpha_len: usize,
    beta_len: usize,
    n: u32,
) -> (r: Result<Launch>)
    ensures
        plan::outcome(r) == gdn_alpha_beta_bf16_plan(
            a_logits_len as int, b_logits_len as int, dt_bias_len as int, a_log_len as int,
            alpha_len as int, beta_len as int, n as int,
        ),
        plan::launchable(r, 6),
{
    if n == 0 || n > 1024 {
        return Text::new("n must be in 1..=1024, got ").n(n as u64).refuse();
    }
    let need: u64 = n as u64;
    if (a_logits_len as u64) < need
        || (b_logits_len as u64) < need
        || (dt_bias_len as u64) < need
        || (a_log_len as u64) < need
        || (alpha_len as u64) < need
        || (beta_len as u64) < need
    {
        return Text::new("alpha/beta buffer too small").refuse();
    }
    Ok(
        Launch::raw(
            "gdn_alpha_beta_bf16",
            "gdn_alpha_beta_bf16",
            (1, 1, 1),
            (n, 1, 1),
            0,
            Vec::new(),
            vec![
                Arg::param(0), Arg::param(1), Arg::param(2), Arg::param(3), Arg::param(4),
                Arg::param(5), Arg::Word(n),
            ],
            None,
            Text::new("gdn_alpha_beta_bf16 launch: "),
        ),
    )
}

/// The answer of [`l2norm_scale_replicate_bf16`].
pub open spec fn l2norm_scale_replicate_bf16_plan(
    x_len: int, y_len: int, num_heads_in: int, head_dim: int, factor: int, scale: F32, eps: F32,
) -> Plan {
    let in_need = num_heads_in * head_dim;
    let out_need = num_heads_in * factor * head_dim;
    if num_heads_in == 0 || head_dim == 0 || factor == 0 {
        Plan::invalid("dims must be > 0"@)
    } else if head_dim % 32 != 0 || head_dim > 1024 {
        Plan::invalid("head_dim must be multiple of 32 and ≤ 1024, got "@ + text::decimal(head_dim))
    } else if in_need > u32::MAX || num_heads_in * factor > u32::MAX || out_need > u32::MAX {
        Plan::Undefined
    } else if x_len < in_need {
        Plan::invalid(
            "x buffer too small: "@ + text::decimal(x_len) + " < "@ + text::decimal(in_need),
        )
    } else if y_len < out_need {
        Plan::invalid(
            "y buffer too small: "@ + text::decimal(y_len) + " < "@ + text::decimal(out_need),
        )
    } else {
        Plan::raw_launch(
            "l2norm_scale_replicate_bf16"@,
            "l2norm_scale_replicate_bf16"@,
            (num_heads_in, 1, 1),
            (head_dim, 1, 1),
            0,
            Seq::empty(),
            seq![
                Arg::buffer(0), Arg::buffer(1), Arg::word(head_dim), Arg::word(factor),
                Arg::Scalar(scale), Arg::Scalar(eps),
            ],
            None,
            "l2norm_scale_replicate_bf16 launch: "@,
        )
    }
}

/// Per-head L2 normalization with scale + GQA-style interleave replication.
pub fn l2norm_scale_replicate_bf16(
    x_len: usize,
    y_len: usize,
    num_heads_in: u32,
    head_dim: u32,
    factor: u32,
    scale: F32,
    eps: F32,
) -> (r: Result<Launch>)
    requires
        l2norm_scale_replicate_bf16_plan(
            x_len as int, y_len as int, num_heads_in as int, head_dim as int, factor as int, scale,
            eps,
        ) !is Undefined,
    ensures
        plan::outcome(r) == l2norm_scale_replicate_bf16_plan(
            x_len as int, y_len as int, num_heads_in as int, head_dim as int, factor as int, scale,
            eps,
        ),
        plan::launchable(r, 2),
{
    if num_heads_in == 0 || head_dim == 0 || factor == 0 {
        return Text::new("dims must be > 0").refuse();
    }
    if head_dim % 32 != 0 || head_dim > 1024 {
        return Text::new("head_dim must be multiple of 32 and ≤ 1024, got ").n(head_dim as u64)
            .refuse();
    }
    let in_need: u64 = (num_heads_in * head_dim) as u64;
    let out_need: u64 = (num_heads_in * factor * head_dim) as u64;
    if (x_len as u64) < in_need {
        return Text::new("x buffer too small: ").n(x_len as u64).s(" < ").n(in_need).refuse();
    }
    if (y_len as u64) < out_need {
        return Text::new("y buffer too small: ").n(y_len as u64).s(" < ").n(out_need).refuse();
    }
    Ok(
        Launch::raw(
            "l2norm_scale_replicate_bf16",
            "l2norm_scale_replicate_bf16",
            (num_heads_in, 1, 1),
            (head_dim, 1, 1),
            0,
            Vec::new(),
            vec![
                Arg::param(0), Arg::param(1), Arg::Word(head_dim), Arg::Word(factor),
                Arg::Scalar(scale), Arg::Scalar(eps),
            ],
            None,
            Text::new("l2norm_scale_replicate_bf16 launch: "),
        ),
    )
}

/// The answer of [`gdn_alpha_beta_backward_bf16`].
pub open spec fn gdn_alpha_beta_backward_bf16_plan(
    a_logits_len: int, b_logits_len: int, dt_bias_len: int, a_log_len: int, dalpha_len: int,
    dbeta_len: int, da_logits_len: int, db_logits_len: int, ddt_bias_len: int, d_a_log_len: int,
    n: int,
) -> Plan {
    let need = n;
    if n == 0 || n > 1024 {
        Plan::invalid("n must be in 1..=1024, got "@ + text::decimal(n))
    } else if a_logits_len < need
        || b_logits_len < need
        || dt_bias_len < need
        || a_log_len < need
        || dalpha_len < need
        || dbeta_len < need
        || da_logits_len < need
        || db_logits_len < need
        || ddt_bias_len < need
        || d_a_log_len < need
    {
        Plan::invalid("gdn_alpha_beta_backward: buffer too small"@)
    } else {
        Plan::launch(
            "gdn_alpha_beta_backward_bf16"@,
            "gdn_alpha_beta_backward_bf16"@,
            (1, 1, 1),
            (n, 1, 1),
            0,
            seq![
                Arg::buffer(0), Arg::buffer(1), Arg::buffer(2), Arg::buffer(3), Arg::buffer(4),
                Arg::buffer(5), Arg::buffer(6), Arg::buffer(7), Arg::buffer(8), Arg::buffer(9),
                Arg::word(n),
            ],
        )
    }
}

/// Backward for `gdn_alpha_beta_bf16` — produces gradients wrt the inputs
/// `a_logits`, `b_logits`, `dt_bias`, `a_log` from upstream `dalpha`/`dbeta`.
pub fn gdn_alpha_beta_backward_bf16(
    a_logits_len: usize,
    b_logits_len: usize,
    dt_bias_len: usize,
    a_log_len: usize,
    dalpha_len: usize,
    dbeta_len: usize,
    da_logits_len: usize,
    db_logits_len: usize,
    ddt_bias_len: usize,
    d_a_log_len: usize,
    n: u32,
) -> (r: Result<Launch>)
    ensures
        plan::outcome(r) == gdn_alpha_beta_backward_bf16_plan(
            a_logits_len as int, b_logits_len as int, dt_bias_len as int, a_log_len as int,
            dalpha_len as int, dbeta_len as int, da_logits_len as int, db_logits_len as int,
            ddt_bias_len as int, d_a_log_len as int, n as int,
        ),
        plan::launchable(r, 10),
{
    if n == 0 || n > 1024 {
        return Text::new("n must be in 1..=1024, got ").n(n as u64).refuse();
    }
    let need: u64 = n as u64;
    if (a_logits_len as u64) < need
        || (b_logits_len as u64) < need
        || (dt_bias_len as u64) < need
        || (a_log_len as u64) < need
        || (dalpha_len as u64) < need
        || (dbeta_len as u64) < need
        || (da_logits_len as u64) < need
        || (db_logits_len as u64) < need
        || (ddt_bias_len as u64) < need
        || (d_a_log_len as u64) < need
    {
        return Text::new("gdn_alpha_beta_backward: buffer too small").refuse();
    }
    Ok(
        Launch::new(
            "gdn_alpha_beta_backward_bf16",
            "gdn_alpha_beta_backward_bf16",
            (1, 1, 1),
            (n, 1, 1),
            0,
            vec![
                Arg::param(0), Arg::param(1), Arg::param(2), Arg::param(3), Arg::param(4),
                Arg::param(5), Arg::param(6), Arg::param(7), Arg::param(8), Arg::param(9),
                Arg::Word(n),
            ],
        ),
    )
}

/// The answer of [`gdn_decode_backward`].
pub open spec fn gdn_decode_backward_plan(
    s_old_len: int, s_new_len: int, q_len: int, k_len: int, v_len: int, alpha_len: int,
    beta_len: int, dy_len: int, ds_t_inout_len: int, dq_len: int, dk_len: int, dv_len: int,
    dalpha_len: int, dbeta_len: int, batch: int, num_heads: int,
) -> Plan {
    let bh = batch * num_heads;
    let d_need = bh * 128;
    let s_need = bh * 128 * 128;
    if batch == 0 || num_heads == 0 {
        Plan::invalid("dims must be > 0"@)
    } else if bh > u32::MAX {
        Plan::Undefined
    } else if s_old_len < s_need || s_new_len < s_need || ds_t_inout_len < s_need {
        Plan::invalid("state buffer too small (need B*H*D*D)"@)
    } else if q_len < d_need
        || k_len < d_need
        || v_len < d_need
        || dy_len < d_need
        || dq_len < d_need
        || dk_len < d_need
        || dv_len < d_need
    {
        Plan::invalid("D-vector buffer too small"@)
    } else if alpha_len < bh || beta_len < bh || dalpha_len < bh || dbeta_len < bh {
        Plan::invalid("alpha/beta/dalpha/dbeta buffer too small"@)
    } else {
        Plan::raw_launch(
            "gdn_decode_backward_bf16"@,
            "gdn_decode_backward_bf16"@,
            (num_heads, batch, 1),
            (128, 1, 1),
            69248,
            Seq::empty(),
            seq![
                Arg::buffer(0), Arg::buffer(1), Arg::buffer(2), Arg::buffer(3), Arg::buffer(4),
                Arg::buffer(5), Arg::buffer(6), Arg::buffer(7), Arg::buffer(8), Arg::buffer(9),
                Arg::buffer(10), Arg::buffer(11), Arg::buffer(12), Arg::buffer(13),
                Arg::word(num_heads),
            ],
            Some("cuFuncSetAttribute: "@),
            "gdn_decode_backward launch: "@,
        )
    }
}

/// Backward for `gdn_decode` — the single-token GDN recurrent state update.
///
/// Given upstream `dy_t` and downstream `dS_t` (from later timesteps),
/// computes `dq, dk, dv, dalpha, dbeta` for this step and `dS_{t-1}` for the
/// previous step. `ds_t_inout` is in/out: input dS_t, output dS_{t-1}.
pub fn gdn_decode_backward(
    s_old_len: usize,
    s_new_len: usize,
    q_len: usize,
    k_len: usize,
    v_len: usize,
    alpha_len: usize,
    beta_len: usize,
    dy_len: usize,
    ds_t_inout_len: usize,
    dq_len: usize,
    dk_len: usize,
    dv_len: usize,
    dalpha_len: usize,
    dbeta_len: usize,
    batch: u32,
    num_heads: u32,
) -> (r: Result<Launch>)
    requires
        gdn_decode_backward_plan(
            s_old_len as int, s_new_len as int, q_len as int, k_len as int, v_len as int,
            alpha_len as int, beta_len as int, dy_len as int, ds_t_inout_len as int, dq_len as int,
            dk_len as int, dv_len as int, dalpha_len as int, dbeta_len as int, batch as int,
            num_heads as int,
        ) !is Undefined,
    ensures
        plan::outcome(r) == gdn_decode_backward_plan(
            s_old_len as int, s_new_len as int, q_len as int, k_len as int, v_len as int,
            alpha_len as int, beta_len as int, dy_len as int, ds_t_inout_len as int, dq_len as int,
            dk_len as int, dv_len as int, dalpha_len as int, dbeta_len as int, batch as int,
            num_heads as int,
        ),
        plan::launchable(r, 14),
{
    if batch == 0 || num_heads == 0 {
        return Text::new("dims must be > 0").refuse();
    }
    let bh: u64 = (batch * num_heads) as u64;
    let d_need: u64 = bh * 128;
    let s_need: u64 = bh * 128 * 128;
    if (s_old_len as u64) < s_need
        || (s_new_len as u64) < s_need
        || (ds_t_inout_len as u64) < s_need
    {
        return Text::new("state buffer too small (need B*H*D*D)").refuse();
    }
    if (q_len as u64) < d_need
        || (k_len as u64) < d_need
        || (v_len as u64) < d_need
        || (dy_len as u64) < d_need
        || (dq_len as u64) < d_need
        || (dk_len as u64) < d_need
        || (dv_len as u64) < d_need
    {
        return Text::new("D-vector buffer too small").refuse();
    }
    if (alpha_len as u64) < bh
        || (beta_len as u64) < bh
        || (dalpha_len as u64) < bh
        || (dbeta_len as u64) < bh
    {
        return Text::new("alpha/beta/dalpha/dbeta buffer too small").refuse();
    }
    Ok(
        Launch::raw(
            "gdn_decode_backward_bf16",
            "gdn_decode_backward_bf16",
            (num_heads, batch, 1),
            (128, 1, 1),
            69248,
            Vec::new(),
            vec![
                Arg::param(0), Arg::param(1), Arg::param(2), Arg::param(3), Arg::param(4),
                Arg::param(5), Arg::param(6), Arg::param(7), Arg::param(8), Arg::param(9),
                Arg::param(10), Arg::param(11), Arg::param(12), Arg::param(13),
                Arg::Word(num_heads),
            ],
            Some("cuFuncSetAttribute: "),
            Text::new("gdn_decode_backward launch: "),
        ),
    )
}

/// The answer of [`l2norm_scale_replicate_backward_bf16`].
pub open spec fn l2norm_scale_replicate_backward_bf16_plan(
    x_len: int, dy_len: int, dx_len: int, num_heads_in: int, head_dim: int, factor: int, scale: F32,
    eps: F32,
) -> Plan {
    let in_need = num_heads_in * head_dim;
    let dy_need = num_heads_in * factor * head_dim;
    if num_heads_in == 0 || head_dim == 0 || factor == 0 {
        Plan::invalid("dims must be > 0"@)
    } else if head_dim % 32 != 0 || head_dim > 1024 {
        Plan::invalid("head_dim must be multiple of 32 and ≤ 1024, got "@ + text::decimal(head_dim))
    } else if in_need > u32::MAX || num_heads_in * factor > u32::MAX || dy_need > u32::MAX {
        Plan::Undefined
    } else if x_len < in_need || dx_len < in_need {
        Plan::invalid("x/dx buffer too small"@)
    } else if dy_len < dy_need {
        Plan::invalid("dy buffer too small"@)
    } else {
        Plan::launch(
            "l2norm_scale_replicate_backward_bf16"@,
            "l2norm_scale_replicate_backward_bf16"@,
            (num_heads_in, 1, 1),
            (head_dim, 1, 1),
            0,
            seq![
                Arg::buffer(0), Arg::buffer(1), Arg::buffer(2), Arg::word(head_dim),
                Arg::word(factor), Arg::Scalar(scale), Arg::Scalar(eps),
            ],
        )
    }
}

/// Backward for `l2norm_scale_replicate_bf16` (Qwen3-Next / GDN-hybrid GDN Q/K norm).
pub fn l2norm_scale_replicate_backward_bf16(
    x_len: usize,
    dy_len: usize,
    dx_len: usize,
    num_heads_in: u32,
    head_dim: u32,
    factor: u32,
    scale: F32,
    eps: F32,
) -> (r: Result<Launch>)
    requires
        l2norm_scale_replicate_backward_bf16_plan(
            x_len as int, dy_len as int, dx_len as int, num_heads_in as int, head_dim as int,
            factor as int, scale, eps,
        ) !is Undefined,
    ensures
        plan::outcome(r) == l2norm_scale_replicate_backward_bf16_plan(
            x_len as int, dy_len as int, dx_len as int, num_heads_in as int, head_dim as int,
            factor as int, scale, eps,
        ),
        plan::launchable(r, 3),
{
    if num_heads_in == 0 || head_dim == 0 || factor == 0 {
        return Text::new("dims must be > 0").refuse();
    }
    if head_dim % 32 != 0 || head_dim > 1024 {
        return Text::new("head_dim must be multiple of 32 and ≤ 1024, got ").n(head_dim as u64)
            .refuse();
    }
    let in_need: u64 = (num_heads_in * head_dim) as u64;
    let dy_need: u64 = (num_heads_in * factor * head_dim) as u64;
    if (x_len as u64) < in_need || (dx_len as u64) < in_need {
        return Text::new("x/dx buffer too small").refuse();
    }
    if (dy_len as u64) < dy_need {
        return Text::new("dy buffer too small").refuse();
    }
    Ok(
        Launch::new(
            "l2norm_scale_replicate_backward_bf16",
            "l2norm_scale_replicate_backward_bf16",
            (num_heads_in, 1, 1),
            (head_dim, 1, 1),
            0,
            vec![
                Arg::param(0), Arg::param(1), Arg::param(2), Arg::Word(head_dim), Arg::Word(factor),
                Arg::Scalar(scale), Arg::Scalar(eps),
            ],
        ),
    )
}

/// The answer of [`gdn_decode`].
pub open spec fn gdn_decode_plan(
    q_len: int, k_len: int, v_len: int, alpha_len: int, beta_len: int, state_len: int, y_len: int,
    batch: int, num_heads: int,
) -> Plan {
    let qkv_need = batch * num_heads * GDN_HEAD_DIM;
    let scalar_need = batch * num_heads;
    let state_need = batch * num_heads * GDN_HEAD_DIM * GDN_HEAD_DIM;
    if batch == 0 || num_heads == 0 {
        Plan::invalid("batch, num_heads must be > 0"@)
    } else if qkv_need > u32::MAX || scalar_need > u32::MAX || state_need > u32::MAX {
        Plan::Undefined
    } else if q_len < qkv_need || k_len < qkv_need || v_len < qkv_need || y_len < qkv_need {
        Plan::invalid("GDN q/k/v/y buffer too small"@)
    } else if alpha_len < scalar_need || beta_len < scalar_need {
        Plan::invalid("GDN alpha/beta buffer too small"@)
    } else if state_len < state_need {
        Plan::invalid(
            "GDN state buffer too small: need "@ + text::decimal(state_need) + " (got "@
                + text::decimal(state_len) + ")"@,
        )
    } else {
        Plan::raw_launch(
            "gdn_decode"@,
            "gdn_decode"@,
            (num_heads, batch, 1),
            (128, 1, 1),
            67072,
            Seq::empty(),
            seq![
                Arg::buffer(0), Arg::buffer(1), Arg::buffer(2), Arg::buffer(3), Arg::buffer(4),
                Arg::buffer(5), Arg::buffer(6), Arg::word(num_heads),
            ],
            Some("cuFuncSetAttribute: "@),
            "GDN launch: "@,
        )
    }
}

/// Launch Gated DeltaNet decode (BF16, single token).
pub fn gdn_decode(
    q_len: usize,
    k_len: usize,
    v_len: usize,
    alpha_len: usize,
    beta_len: usize,
    state_len: usize,
    y_len: usize,
    batch: u32,
    num_heads: u32,
) -> (r: Result<Launch>)
    requires
        gdn_decode_plan(
            q_len as int, k_len as int, v_len as int, alpha_len as int, beta_len as int,
            state_len as int, y_len as int, batch as int, num_heads as int,
        ) !is Undefined,
    ensures
        plan::outcome(r) == gdn_decode_plan(
            q_len as int, k_len as int, v_len as int, alpha_len as int, beta_len as int,
            state_len as int, y_len as int, batch as int, num_heads as int,
        ),
        plan::launchable(r, 7),
{
    if batch == 0 || num_heads == 0 {
        return Text::new("batch, num_heads must be > 0").refuse();
    }
    let qkv_need: u64 = (batch * num_heads * GDN_HEAD_DIM) as u64;
    let scalar_need: u64 = (batch * num_heads) as u64;
    let state_need: u64 = (batch * num_heads * GDN_HEAD_DIM * GDN_HEAD_DIM) as u64;
    if (q_len as u64) < qkv_need
        || (k_len as u64) < qkv_need
        || (v_len as u64) < qkv_need
        || (y_len as u64) < qkv_need
    {
        return Text::new("GDN q/k/v/y buffer too small").refuse();
    }
    if (alpha_len as u64) < scalar_need || (beta_len as u64) < scalar_need {
        return Text::new("GDN alpha/beta buffer too small").refuse();
    }
    if (state_len as u64) < state_need {
        return Text::new("GDN state buffer too small: need ").n(state_need).s(" (got ")
            .n(state_len as u64).s(")").refuse();
    }
    Ok(
        Launch::raw(
            "gdn_decode",
            "gdn_decode",
            (num_heads, batch, 1),
            (128, 1, 1),
            67072,
            Vec::new(),
            vec![
                Arg::param(0), Arg::param(1), Arg::param(2), Arg::param(3), Arg::param(4),
                Arg::param(5), Arg::param(6), Arg::Word(num_heads),
            ],
            Some("cuFuncSetAttribute: "),
            Text::new("GDN launch: "),
        ),
    )
}

/// The answer of [`gdn_decode_tma`].
pub open spec fn gdn_decode_tma_plan(
    q_len: int, k_len: int, v_len: int, alpha_len: int, beta_len: int, state_len: int, y_len: int,
    batch: int, num_heads: int,
) -> Plan {
    let total_rows = batch * num_heads * GDN_HEAD_DIM;
    if batch == 0 || num_heads == 0 {
        Plan::invalid("dims must be > 0"@)
    } else if total_rows > u32::MAX {
        Plan::Undefined
    } else {
        Plan::raw_launch(
            "gdn_decode_tma"@,
            "gdn_decode_tma"@,
            (num_heads, batch, 1),
            (128, 1, 1),
            67088,
            seq![tensor_map::desc_fp32(5, total_rows, GDN_HEAD_DIM as int)],
            seq![
                Arg::buffer(0), Arg::buffer(1), Arg::buffer(2), Arg::buffer(3), Arg::buffer(4),
                Arg::Descriptor(0), Arg::buffer(5), Arg::buffer(6), Arg::word(num_heads),
            ],
            Some("cuFuncSetAttribute: "@),
            "GDN TMA launch: "@,
        )
    }
}

/// TMA-accelerated Gated DeltaNet decode.
/// Same math as `gdn_decode` but uses a single 64KB TMA bulk transfer for
/// state load (and TMA bulk store for state write-back), replacing 128×128
/// scalar `ld.global.f32`s.
pub fn gdn_decode_tma(
    q_len: usize,
    k_len: usize,
    v_len: usize,
    alpha_len: usize,
    beta_len: usize,
    state_len: usize,
    y_len: usize,
    batch: u32,
    num_heads: u32,
) -> (r: Result<Launch>)
    requires
        gdn_decode_tma_plan(
            q_len as int, k_len as int, v_len as int, alpha_len as int, beta_len as int,
            state_len as int, y_len as int, batch as int, num_heads as int,
        ) !is Undefined,
    ensures
        plan::outcome(r) == gdn_decode_tma_plan(
            q_len as int, k_len as int, v_len as int, alpha_len as int, beta_len as int,
            state_len as int, y_len as int, batch as int, num_heads as int,
        ),
        plan::launchable(r, 7),
{
    if batch == 0 || num_heads == 0 {
        return Text::new("dims must be > 0").refuse();
    }
    let total_rows: u32 = batch * num_heads * GDN_HEAD_DIM;
    Ok(
        Launch::raw(
            "gdn_decode_tma",
            "gdn_decode_tma",
            (num_heads, batch, 1),
            (128, 1, 1),
            67088,
            vec![tensor_map::create_tma_desc_fp32(5, total_rows, GDN_HEAD_DIM)],
            vec![
                Arg::param(0), Arg::param(1), Arg::param(2), Arg::param(3), Arg::param(4),
                Arg::Descriptor(0), Arg::param(5), Arg::param(6), Arg::Word(num_heads),
            ],
            Some("cuFuncSetAttribute: "),
            Text::new("GDN TMA launch: "),
        ),
    )
}

/// The prefill kernel: the one that applies the decay to the state-key product as well, or the
/// one that does not.
pub open spec fn prefill_kernel(decayed: bool) -> Seq<char> {
    if decayed {
        "gdn_prefill_hf"@
    } else {
        "gdn_prefill"@
    }
}

/// The answer of [`gdn_prefill`].
pub open spec fn gdn_prefill_plan(
    q_len: int, k_len: int, v_len: int, alpha_len: int, beta_len: int, state_len: int, y_len: int,
    batch: int, num_heads: int, seq_q: int, decayed: bool,
) -> Plan {
    if batch == 0 || num_heads == 0 || seq_q == 0 {
        Plan::invalid("batch, num_heads, seq_q must be > 0"@)
    } else {
        Plan::raw_launch(
            prefill_kernel(decayed),
            prefill_kernel(decayed),
            (num_heads, batch, 1),
            (128, 1, 1),
            67072,
            Seq::empty(),
            seq![
                Arg::buffer(0), Arg::buffer(1), Arg::buffer(2), Arg::buffer(3), Arg::buffer(4),
                Arg::buffer(5), Arg::buffer(6), Arg::word(num_heads), Arg::word(seq_q),
            ],
            Some("cuFuncSetAttribute: "@),
            "GDN prefill launch: "@,
        )
    }
}

/// Launch Gated DeltaNet prefill (seq_q > 1).
/// Keeps state resident in SMEM across all seq_q tokens in one kernel call. `decayed` tells
/// whether the environment variable `SPARK_GDN_HF` is set: then the kernel runs that applies
/// the alpha decay to the state-key product, as [`gdn_decode`] does.
pub fn gdn_prefill(
    q_len: usize,
    k_len: usize,
    v_len: usize,
    alpha_len: usize,
    beta_len: usize,
    state_len: usize,
    y_len: usize,
    batch: u32,
    num_heads: u32,
    seq_q: u32,
    decayed: bool,
) -> (r: Result<Launch>)
    ensures
        plan::outcome(r) == gdn_prefill_plan(
            q_len as int, k_len as int, v_len as int, alpha_len as int, beta_len as int,
            state_len as int, y_len as int, batch as int, num_heads as int, seq_q as int, decayed,
        ),
        plan::launchable(r, 7),
{
    if batch == 0 || num_heads == 0 || seq_q == 0 {
        return Text::new("batch, num_heads, seq_q must be > 0").refuse();
    }
    let kernel = if decayed {
        "gdn_prefill_hf"
    } else {
        "gdn_prefill"
    };
    Ok(
        Launch::raw(
            kernel,
            kernel,
            (num_heads, batch, 1),
            (128, 1, 1),
            67072,
            Vec::new(),
            vec![
                Arg::param(0), Arg::param(1), Arg::param(2), Arg::param(3), Arg::param(4),
                Arg::param(5), Arg::param(6), Arg::Word(num_heads), Arg::Word(seq_q),
            ],
            Some("cuFuncSetAttribute: "),
            Text::new("GDN prefill launch: "),
        ),
    )
}

} // verus!
