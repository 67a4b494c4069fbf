//! Streaming attention over packed sequences, and with windows and capped scores.
use crate::attention::dims;
use crate::attention::dims::HEAD_DIM;
use crate::error::Result;
use crate::plan;
use crate::plan::{Arg, F32, Launch, Plan};
use crate::shape;
use crate::tensor_map;
use crate::text;
use crate::text::Text;
use vstd::prelude::*;

verus! {

/// The answer of [`v21_varlen_dispatch`].
pub open spec fn v21_varlen_dispatch_plan(
    cu_seqlens_q_len: int, cu_seqlens_k_len: int, batch: int, num_heads_q: int, num_heads_kv: int,
    max_seqlen_q: int, total_q: int, total_kv: int, scale: F32, cubin_name: Seq<char>,
    entry_name: Seq<char>, is_gqa: bool,
) -> Plan {
    let cu_need = batch + 1;
    let q_rows = num_heads_q * total_q;
    let kv_rows = num_heads_kv * total_kv;
    let tensors = seq![
        Arg::Descriptor(0), Arg::Descriptor(1), Arg::Descriptor(2), Arg::buffer(3), Arg::buffer(4),
        Arg::buffer(5), Arg::word(total_q), Arg::word(total_kv),
    ];
    if batch == 0 || num_heads_q == 0 || num_heads_kv == 0 {
        Plan::invalid("batch, num_heads_q, num_heads_kv must be > 0"@)
    } else if max_seqlen_q == 0 || total_q == 0 || total_kv == 0 {
        Plan::invalid("max_seqlen_q, total_q, total_kv must be > 0"@)
    } else if num_heads_q % num_heads_kv != 0 {
        Plan::invalid(
            "num_heads_q ("@ + text::decimal(num_heads_q)
                + ") must be divisible by num_heads_kv ("@ + text::decimal(num_heads_kv) + ")"@,
        )
    } else if cu_need > u32::MAX {
        Plan::Undefined
    } else if cu_seqlens_q_len < cu_need || cu_seqlens_k_len < cu_need {
        Plan::invalid("cu_seqlens too small: need "@ + text::decimal(cu_need))
    } else if q_rows > u32::MAX || kv_rows > u32::MAX {
        Plan::Undefined
    } else {
        Plan::raw_launch(
            cubin_name,
            entry_name,
            (shape::ceil_div(max_seqlen_q, 64), num_heads_q, batch),
            (160, 1, 1),
            82032,
            seq![
                tensor_map::desc_swizzle(0, q_rows, HEAD_DIM as int, 64, 64),
                tensor_map::desc_swizzle(1, kv_rows, HEAD_DIM as int, 64, 64),
                tensor_map::desc_swizzle(2, kv_rows, HEAD_DIM as int, 64, 64),
            ],
            if is_gqa {
                tensors.push(Arg::word(num_heads_q)).push(Arg::word(num_heads_kv)).push(
                    Arg::Scalar(scale),
                )
            } else {
                tensors.push(Arg::Scalar(scale))
            },
            Some("cuFuncSetAttribute failed: "@),
            entry_name + " launch failed: "@,
        )
    }
}

/// V21 attention over sequences of different lengths packed into one token axis. The head
/// counts reach the kernel only where heads are grouped.
pub fn v21_varlen_dispatch(
    cu_seqlens_q_len: usize,
    cu_seqlens_k_len: usize,
    batch: u32,
    num_heads_q: u32,
    num_heads_kv: u32,
    max_seqlen_q: u32,
    total_q: u32,
    total_kv: u32,
    scale: F32,
    cubin_name: &'static str,
    entry_name: &'static str,
    is_gqa: bool,
) -> (r: Result<Launch>)
    requires
        v21_varlen_dispatch_plan(
            cu_seqlens_q_len as int, cu_seqlens_k_len as int, batch as int, num_heads_q as int,
            num_heads_kv as int, max_seqlen_q as int, total_q as int, total_kv as int, scale,
            cubin_name@, entry_name@, is_gqa,
        ) !is Undefined,
    ensures
        plan::outcome(r) == v21_varlen_dispatch_plan(
            cu_seqlens_q_len as int, cu_seqlens_k_len as int, batch as int, num_heads_q as int,
            num_heads_kv as int, max_seqlen_q as int, total_q as int, total_kv as int, scale,
            cubin_name@, entry_name@, is_gqa,
        ),
        plan::launchable(r, 6),
{
    if batch == 0 || num_heads_q == 0 || num_heads_kv == 0 {
        return Text::new("batch, num_heads_q, num_heads_kv must be > 0").refuse();
    }
    if max_seqlen_q == 0 || total_q == 0 || total_kv == 0 {
        return Text::new("max_seqlen_q, total_q, total_kv must be > 0").refuse();
    }
    if num_heads_q % num_heads_kv != 0 {
        return Text::new("num_heads_q (").n(num_heads_q as u64)
            .s(") must be divisible by num_heads_kv (").n(num_heads_kv as u64).s(")").refuse();
    }
    let cu_need: u64 = (batch + 1) as u64;
    if (cu_seqlens_q_len as u64) < cu_need || (cu_seqlens_k_len as u64) < cu_need {
        return Text::new("cu_seqlens too small: need ").n(cu_need).refuse();
    }
    let q_rows: u32 = num_heads_q * total_q;
    let kv_rows: u32 = num_heads_kv * total_kv;
    let mut args = vec![
        Arg::Descriptor(0), Arg::Descriptor(1), Arg::Descriptor(2), Arg::param(3), Arg::param(4),
        Arg::param(5), Arg::Word(total_q), Arg::Word(total_kv),
    ];
    if is_gqa {
        args.push(Arg::Word(num_heads_q));
        args.push(Arg::Word(num_heads_kv));
    }
    args.push(Arg::Scalar(scale));
    Ok(
        Launch::raw(
            cubin_name,
            entry_name,
            (shape::div_ceil(max_seqlen_q, 64), num_heads_q, batch),
            (160, 1, 1),
            82032,
            vec![
                tensor_map::create_tma_desc_swizzle(0, q_rows, HEAD_DIM, 64, 64),
                tensor_map::create_tma_desc_swizzle(1, kv_rows, HEAD_DIM, 64, 64),
                tensor_map::create_tma_desc_swizzle(2, kv_rows, HEAD_DIM, 64, 64),
            ],
            args,
            Some("cuFuncSetAttribute failed: "),
            Text::new(entry_name).s(" launch failed: "),
        ),
    )
}

/// The answer of [`flash_attn_bf16_v21_varlen`].
pub open spec fn flash_attn_bf16_v21_varlen_plan(
    q_len: int, k_len: int, v_len: int, o_len: int, cu_seqlens_q_len: int, cu_seqlens_k_len: int,
    batch: int, num_heads: int, max_seqlen_q: int, total_q: int, total_kv: int, scale: F32,
) -> Plan {
    v21_varlen_dispatch_plan(
        cu_seqlens_q_len, cu_seqlens_k_len, batch, num_heads, num_heads, max_seqlen_q, total_q,
        total_kv, scale, "fa_bf16_v21_varlen"@, "flash_attn_bf16_v21_varlen"@, false,
    )
}

/// BF16 Flash Attention V21 over packed sequences of different lengths.
pub fn flash_attn_bf16_v21_varlen(
    q_len: usize,
    k_len: usize,
    v_len: usize,
    o_len: usize,
    cu_seqlens_q_len: usize,
    cu_seqlens_k_len: usize,
    batch: u32,
    num_heads: u32,
    max_seqlen_q: u32,
    total_q: u32,
    total_kv: u32,
    scale: F32,
) -> (r: Result<Launch>)
    requires
        flash_attn_bf16_v21_varlen_plan(
            q_len as int, k_len as int, v_len as int, o_len as int, cu_seqlens_q_len as int,
            cu_seqlens_k_len as int, batch as int, num_heads as int, max_seqlen_q as int,
            total_q as int, total_kv as int, scale,
        ) !is Undefined,
    ensures
        plan::outcome(r) == flash_attn_bf16_v21_varlen_plan(
            q_len as int, k_len as int, v_len as int, o_len as int, cu_seqlens_q_len as int,
            cu_seqlens_k_len as int, batch as int, num_heads as int, max_seqlen_q as int,
            total_q as int, total_kv as int, scale,
        ),
        plan::launchable(r, 6),
{
    v21_varlen_dispatch(
        cu_seqlens_q_len, cu_seqlens_k_len, batch, num_heads, num_heads, max_seqlen_q, total_q,
        total_kv, scale, "fa_bf16_v21_varlen", "flash_attn_bf16_v21_varlen", false,
    )
}

/// The answer of [`flash_attn_bf16_v21_varlen_causal`].
pub open spec fn flash_attn_bf16_v21_varlen_causal_plan(
    q_len: int, k_len: int, v_len: int, o_len: int, cu_seqlens_q_len: int, cu_seqlens_k_len: int,
    batch: int, num_heads: int, max_seqlen_q: int, total_q: int, total_kv: int, scale: F32,
) -> Plan {
    v21_varlen_dispatch_plan(
        cu_seqlens_q_len, cu_seqlens_k_len, batch, num_heads, num_heads, max_seqlen_q, total_q,
        total_kv, scale, "fa_bf16_v21_varlen_causal"@, "flash_attn_bf16_v21_varlen_causal"@, false,
    )
}

/// BF16 Flash Attention V21 over packed sequences of different lengths, causal.
pub fn flash_attn_bf16_v21_varlen_causal(
    q_len: usize,
    k_len: usize,
    v_len: usize,
    o_len: usize,
    cu_seqlens_q_len: usize,
    cu_seqlens_k_len: usize,
    batch: u32,
    num_heads: u32,
    max_seqlen_q: u32,
    total_q: u32,
    total_kv: u32,
    scale: F32,
) -> (r: Result<Launch>)
    requires
        flash_attn_bf16_v21_varlen_causal_plan(
            q_len as int, k_len as int, v_len as int, o_len as int, cu_seqlens_q_len as int,
            cu_seqlens_k_len as int, batch as int, num_heads as int, max_seqlen_q as int,
            total_q as int, total_kv as int, scale,
        ) !is Undefined,
    ensures
        plan::outcome(r) == flash_attn_bf16_v21_varlen_causal_plan(
            q_len as int, k_len as int, v_len as int, o_len as int, cu_seqlens_q_len as int,
            cu_seqlens_k_len as int, batch as int, num_heads as int, max_seqlen_q as int,
            total_q as int, total_kv as int, scale,
        ),
        plan::launchable(r, 6),
{
    v21_varlen_dispatch(
        cu_seqlens_q_len, cu_seqlens_k_len, batch, num_heads, num_heads, max_seqlen_q, total_q,
        total_kv, scale, "fa_bf16_v21_varlen_causal", "flash_attn_bf16_v21_varlen_causal", false,
    )
}

/// The answer of [`flash_attn_bf16_v21_varlen_gqa`].
pub open spec fn flash_attn_bf16_v21_varlen_gqa_plan(
    q_len: int, k_len: int, v_len: int, o_len: int, cu_seqlens_q_len: int, cu_seqlens_k_len: int,
    batch: int, num_heads_q: int, num_heads_kv: int, max_seqlen_q: int, total_q: int, total_kv: int,
    scale: F32,
) -> Plan {
    v21_varlen_dispatch_plan(
        cu_seqlens_q_len, cu_seqlens_k_len, batch, num_heads_q, num_heads_kv, max_seqlen_q, total_q,
        total_kv, scale, "fa_bf16_v21_varlen_gqa"@, "flash_attn_bf16_v21_varlen_gqa"@, true,
    )
}

/// BF16 Flash Attention V21 over packed sequences, with grouped key heads.
pub fn flash_attn_bf16_v21_varlen_gqa(
    q_len: usize,
    k_len: usize,
    v_len: usize,
    o_len: usize,
    cu_seqlens_q_len: usize,
    cu_seqlens_k_len: usize,
    batch: u32,
    num_heads_q: u32,
    num_heads_kv: u32,
    max_seqlen_q: u32,
    total_q: u32,
    total_kv: u32,
    scale: F32,
) -> (r: Result<Launch>)
    requires
        flash_attn_bf16_v21_varlen_gqa_plan(
            q_len as int, k_len as int, v_len as int, o_len as int, cu_seqlens_q_len as int,
            cu_seqlens_k_len as int, batch as int, num_heads_q as int, num_heads_kv as int,
            max_seqlen_q as int, total_q as int, total_kv as int, scale,
        ) !is Undefined,
    ensures
        plan::outcome(r) == flash_attn_bf16_v21_varlen_gqa_plan(
            q_len as int, k_len as int, v_len as int, o_len as int, cu_seqlens_q_len as int,
            cu_seqlens_k_len as int, batch as int, num_heads_q as int, num_heads_kv as int,
            max_seqlen_q as int, total_q as int, total_kv as int, scale,
        ),
        plan::launchable(r, 6),
{
    v21_varlen_dispatch(
        cu_seqlens_q_len, cu_seqlens_k_len, batch, num_heads_q, num_heads_kv, max_seqlen_q, total_q,
        total_kv, scale, "fa_bf16_v21_varlen_gqa", "flash_attn_bf16_v21_varlen_gqa", true,
    )
}

/// The answer of [`flash_attn_bf16_v21_varlen_gqa_causal`].
pub open spec fn flash_attn_bf16_v21_varlen_gqa_causal_plan(
    q_len: int, k_len: int, v_len: int, o_len: int, cu_seqlens_q_len: int, cu_seqlens_k_len: int,
    batch: int, num_heads_q: int, num_heads_kv: int, max_seqlen_q: int, total_q: int, total_kv: int,
    scale: F32,
) -> Plan {
    v21_varlen_dispatch_plan(
        cu_seqlens_q_len, cu_seqlens_k_len, batch, num_heads_q, num_heads_kv, max_seqlen_q, total_q,
        total_kv, scale, "fa_bf16_v21_varlen_gqa_causal"@, "flash_attn_bf16_v21_varlen_gqa_causal"@,
        true,
    )
}

/// BF16 Flash Attention V21 over packed sequences, with grouped key heads, causal.
pub fn flash_attn_bf16_v21_varlen_gqa_causal(
    q_len: usize,
    k_len: usize,
    v_len: usize,
    o_len: usize,
    cu_seqlens_q_len: usize,
    cu_seqlens_k_len: usize,
    batch: u32,
    num_heads_q: u32,
    num_heads_kv: u32,
    max_seqlen_q: u32,
    total_q: u32,
    total_kv: u32,
    scale: F32,
) -> (r: Result<Launch>)
    requires
        flash_attn_bf16_v21_varlen_gqa_causal_plan(
            q_len as int, k_len as int, v_len as int, o_len as int, cu_seqlens_q_len as int,
            cu_seqlens_k_len as int, batch as int, num_heads_q as int, num_heads_kv as int,
            max_seqlen_q as int, total_q as int, total_kv as int, scale,
        ) !is Undefined,
    ensures
        plan::outcome(r) == flash_attn_bf16_v21_varlen_gqa_causal_plan(
            q_len as int, k_len as int, v_len as int, o_len as int, cu_seqlens_q_len as int,
            cu_seqlens_k_len as int, batch as int, num_heads_q as int, num_heads_kv as int,
            max_seqlen_q as int, total_q as int, total_kv as int, scale,
        ),
        plan::launchable(r, 6),
{
    v21_varlen_dispatch(
        cu_seqlens_q_len, cu_seqlens_k_len, batch, num_heads_q, num_heads_kv, max_seqlen_q, total_q,
        total_kv, scale, "fa_bf16_v21_varlen_gqa_causal", "flash_attn_bf16_v21_varlen_gqa_causal",
        true,
    )
}

/// What restricts the scores of an attention kernel.
#[derive(Clone, Copy)]
pub enum MaskKind {
    /// A causal mask, and scores capped smoothly at `softcap`.
    SoftcapCausal { softcap: F32 },
    /// Only the `window` most recent positions.
    Swa { window: u32 },
    /// Both.
    SwaSoftcap { window: u32, softcap: F32 },
}

impl MaskKind {
    /// The kernel and its entry point.
    pub open spec fn kernel(self) -> (Seq<char>, Seq<char>) {
        match self {
            MaskKind::SoftcapCausal { softcap } => (
                "fa_bf16_v21_softcap_causal"@,
                "flash_attn_bf16_v21_softcap_causal"@,
            ),
            MaskKind::Swa { window } => ("fa_bf16_v21_swa"@, "flash_attn_bf16_v21_swa"@),
            MaskKind::SwaSoftcap { window, softcap } => (
                "fa_bf16_v21_swa_softcap"@,
                "flash_attn_bf16_v21_swa_softcap"@,
            ),
        }
    }

    /// The arguments that the kernel takes after the scale.
    pub open spec fn extra_args(self) -> Seq<Arg> {
        match self {
            MaskKind::SoftcapCausal { softcap } => seq![Arg::Scalar(softcap)],
            MaskKind::Swa { window } => seq![Arg::Word(window)],
            MaskKind::SwaSoftcap { window, softcap } => seq![
                Arg::Word(window),
                Arg::Scalar(softcap),
            ],
        }
    }

    fn names(&self) -> (r: (&'static str, &'static str))
        ensures
            (r.0@, r.1@) == self.kernel(),
    {
        match self {
            MaskKind::SoftcapCausal { .. } => (
                "fa_bf16_v21_softcap_causal",
                "flash_attn_bf16_v21_softcap_causal",
            ),
            MaskKind::Swa { .. } => ("fa_bf16_v21_swa", "flash_attn_bf16_v21_swa"),
            MaskKind::SwaSoftcap { .. } => (
                "fa_bf16_v21_swa_softcap",
                "flash_attn_bf16_v21_swa_softcap",
            ),
        }
    }
}

/// The answer of [`v21_scalar_mask_dispatch`].
pub open spec fn v21_scalar_mask_dispatch_plan(
    q_len: int, k_len: int, v_len: int, o_len: int, batch: int, num_heads: int, seq_q: int,
    seq_kv: int, scale: F32, mask: MaskKind,
) -> Plan {
    let q_rows = batch * num_heads * seq_q;
    let kv_rows = batch * num_heads * seq_kv;
    if let Some(fault) = dims::attn_dims_fault(batch, num_heads, seq_q, seq_kv) {
        Plan::Fail(fault)
    } else if dims::attn_needs_overflow(batch, num_heads, seq_q, seq_kv) {
        Plan::Undefined
    } else if let Some(fault) = dims::attn_bf16_bufs_fault(
        q_len, k_len, v_len, o_len, batch, num_heads, seq_q, seq_kv,
    ) {
        Plan::Fail(fault)
    } else if batch * num_heads > u32::MAX || q_rows > u32::MAX || kv_rows > u32::MAX {
        Plan::Undefined
    } else {
        Plan::raw_launch(
            mask.kernel().0,
            mask.kernel().1,
            (shape::ceil_div(seq_q, 64), num_heads, batch),
            (160, 1, 1),
            82032,
            seq![
                tensor_map::desc_swizzle(0, q_rows, HEAD_DIM as int, 64, 64),
                tensor_map::desc_swizzle(1, kv_rows, HEAD_DIM as int, 64, 64),
                tensor_map::desc_swizzle(2, kv_rows, HEAD_DIM as int, 64, 64),
            ],
            seq![
                Arg::Descriptor(0), Arg::Descriptor(1), Arg::Descriptor(2), Arg::buffer(3),
                Arg::word(seq_q), Arg::word(seq_kv), Arg::word(num_heads), Arg::Scalar(scale),
            ] + mask.extra_args(),
            Some("cuFuncSetAttribute failed: "@),
            mask.kernel().1 + " launch failed: "@,
        )
    }
}

/// V21 attention with a restriction of the scores that takes scalar arguments.
pub fn v21_scalar_mask_dispatch(
    q_len: usize,
    k_len: usize,
    v_len: usize,
    o_len: usize,
    batch: u32,
    num_heads: u32,
    seq_q: u32,
    seq_kv: u32,
    scale: F32,
    mask: MaskKind,
) -> (r: Result<Launch>)
    requires
        v21_scalar_mask_dispatch_plan(
            q_len as int, k_len as int, v_len as int, o_len as int, batch as int, num_heads as int,
            seq_q as int, seq_kv as int, scale, mask,
        ) !is Undefined,
    ensures
        plan::outcome(r) == v21_scalar_mask_dispatch_plan(
            q_len as int, k_len as int, v_len as int, o_len as int, batch as int, num_heads as int,
            seq_q as int, seq_kv as int, scale, mask,
        ),
        plan::launchable(r, 4),
{
    if let Err(e) = dims::validate_attn_dims(batch, num_heads, seq_q, seq_kv) {
        return Err(e);
    }
    if let Err(e) = dims::validate_attn_bf16_bufs(
        q_len, k_len, v_len, o_len, batch, num_heads, seq_q, seq_kv,
    ) {
        return Err(e);
    }
    let q_rows: u32 = batch * num_heads * seq_q;
    let kv_rows: u32 = batch * num_heads * seq_kv;
    let names = mask.names();
    let mut args = vec![
        Arg::Descriptor(0), Arg::Descriptor(1), Arg::Descriptor(2), Arg::param(3), Arg::Word(seq_q),
        Arg::Word(seq_kv), Arg::Word(num_heads), Arg::Scalar(scale),
    ];
    match mask {
        MaskKind::SoftcapCausal { softcap } => {
            args.push(Arg::Scalar(softcap));
        },
        MaskKind::Swa { window } => {
            args.push(Arg::Word(window));
        },
        MaskKind::SwaSoftcap { window, softcap } => {
            args.push(Arg::Word(window));
            args.push(Arg::Scalar(softcap));
        },
    }
    Ok(
        Launch::raw(
            names.0,
            names.1,
            (shape::div_ceil(seq_q, 64), num_heads, batch),
            (160, 1, 1),
            82032,
            vec![
                tensor_map::create_tma_desc_swizzle(0, q_rows, HEAD_DIM, 64, 64),
                tensor_map::create_tma_desc_swizzle(1, kv_rows, HEAD_DIM, 64, 64),
                tensor_map::create_tma_desc_swizzle(2, kv_rows, HEAD_DIM, 64, 64),
            ],
            args,
            Some("cuFuncSetAttribute failed: "),
            Text::new(names.1).s(" launch failed: "),
        ),
    )
}

/// The answer of [`flash_attn_bf16_v21_softcap_causal`].
pub open spec fn flash_attn_bf16_v21_softcap_causal_plan(
    q_len: int, k_len: int, v_len: int, o_len: int, batch: int, num_heads: int, seq_q: int,
    seq_kv: int, scale: F32, softcap: F32,
) -> Plan {
    v21_scalar_mask_dispatch_plan(
        q_len, k_len, v_len, o_len, batch, num_heads, seq_q, seq_kv, scale,
        MaskKind::SoftcapCausal { softcap },
    )
}

/// BF16 Flash Attention V21, causal, with the scores capped smoothly at `softcap`.
pub fn flash_attn_bf16_v21_softcap_causal(
    q_len: usize,
    k_len: usize,
    v_len: usize,
    o_len: usize,
    batch: u32,
    num_heads: u32,
    seq_q: u32,
    seq_kv: u32,
    scale: F32,
    softcap: F32,
) -> (r: Result<Launch>)
    requires
        flash_attn_bf16_v21_softcap_causal_plan(
            q_len as int, k_len as int, v_len as int, o_len as int, batch as int, num_heads as int,
            seq_q as int, seq_kv as int, scale, softcap,
        ) !is Undefined,
    ensures
        plan::outcome(r) == flash_attn_bf16_v21_softcap_causal_plan(
            q_len as int, k_len as int, v_len as int, o_len as int, batch as int, num_heads as int,
            seq_q as int, seq_kv as int, scale, softcap,
        ),
        plan::launchable(r, 4),
{
    v21_scalar_mask_dispatch(
        q_len, k_len, v_len, o_len, batch, num_heads, seq_q, seq_kv, scale,
        MaskKind::SoftcapCausal { softcap },
    )
}

/// The answer of [`flash_attn_bf16_v21_swa`].
pub open spec fn flash_attn_bf16_v21_swa_plan(
    q_len: int, k_len: int, v_len: int, o_len: int, batch: int, num_heads: int, seq_q: int,
    seq_kv: int, scale: F32, window: int,
) -> Plan {
    if window == 0 {
        Plan::invalid("window must be > 0"@)
    } else {
        v21_scalar_mask_dispatch_plan(
            q_len, k_len, v_len, o_len, batch, num_heads, seq_q, seq_kv, scale,
            MaskKind::Swa { window: window as u32 },
        )
    }
}

/// BF16 Flash Attention V21 + Sliding Window Attention (SWA, causal).
/// Each query attends only to K/V positions in [max(0, q - window + 1), q].
pub fn flash_attn_bf16_v21_swa(
    q_len: usize,
    k_len: usize,
    v_len: usize,
    o_len: usize,
    batch: u32,
    num_heads: u32,
    seq_q: u32,
    seq_kv: u32,
    scale: F32,
    window: u32,
) -> (r: Result<Launch>)
    requires
        flash_attn_bf16_v21_swa_plan(
            q_len as int, k_len as int, v_len as int, o_len as int, batch as int, num_heads as int,
            seq_q as int, seq_kv as int, scale, window as int,
        ) !is Undefined,
    ensures
        plan::outcome(r) == flash_attn_bf16_v21_swa_plan(
            q_len as int, k_len as int, v_len as int, o_len as int, batch as int, num_heads as int,
            seq_q as int, seq_kv as int, scale, window as int,
        ),
        plan::launchable(r, 4),
{
    if window == 0 {
        return Text::new("window must be > 0").refuse();
    }
    v21_scalar_mask_dispatch(
        q_len, k_len, v_len, o_len, batch, num_heads, seq_q, seq_kv, scale,
        MaskKind::Swa { window },
    )
}

/// The answer of [`flash_attn_bf16_v21_swa_softcap`].
pub open spec fn flash_attn_bf16_v21_swa_softcap_plan(
    q_len: int, k_len: int, v_len: int, o_len: int, batch: int, num_heads: int, seq_q: int,
    seq_kv: int, scale: F32, window: int, softcap: F32,
) -> Plan {
    if window == 0 {
        Plan::invalid("window must be > 0"@)
    } else {
        v21_scalar_mask_dispatch_plan(
            q_len, k_len, v_len, o_len, batch, num_heads, seq_q, seq_kv, scale,
            MaskKind::SwaSoftcap { window: window as u32, softcap },
        )
    }
}

/// BF16 Flash Attention V21 with a sliding window and capped scores.
pub fn flash_attn_bf16_v21_swa_softcap(
    q_len: usize,
    k_len: usize,
    v_len: usize,
    o_len: usize,
    batch: u32,
    num_heads: u32,
    seq_q: u32,
    seq_kv: u32,
    scale: F32,
    window: u32,
    softcap: F32,
) -> (r: Result<Launch>)
    requires
        flash_attn_bf16_v21_swa_softcap_plan(
            q_len as int, k_len as int, v_len as int, o_len as int, batch as int, num_heads as int,
            seq_q as int, seq_kv as int, scale, window as int, softcap,
        ) !is Undefined,
    ensures
        plan::outcome(r) == flash_attn_bf16_v21_swa_softcap_plan(
            q_len as int, k_len as int, v_len as int, o_len as int, batch as int, num_heads as int,
            seq_q as int, seq_kv as int, scale, window as int, softcap,
        ),
        plan::launchable(r, 4),
{
    if window == 0 {
        return Text::new("window must be > 0").refuse();
    }
    v21_scalar_mask_dispatch(
        q_len, k_len, v_len, o_len, batch, num_heads, seq_q, seq_kv, scale,
        MaskKind::SwaSoftcap { window, softcap },
    )
}

} // verus!
