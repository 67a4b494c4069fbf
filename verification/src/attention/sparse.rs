//! Attention to selected positions, block selection and draft heads.
use crate::error::Result;
use crate::plan::{Arg, F32, Launch, Plan};
use crate::plan;
use crate::shape;
use crate::text::Text;
use crate::text;
use vstd::prelude::*;

verus! {

/// The answer of [`tree_attention_bf16`].
pub open spec fn tree_attention_bf16_plan(
    q_len: int, k_len: int, v_len: int, mask_len: int, o_len: int, batch: int, num_heads: int,
    seq_q: int, seq_kv: int, scale: F32,
) -> Plan {
    let mask_need = seq_q * seq_kv;
    if batch == 0 || num_heads == 0 || seq_q == 0 || seq_kv == 0 {
        Plan::invalid("batch, num_heads, seq_q, seq_kv must be > 0"@)
    } else if mask_need > u32::MAX {
        Plan::Undefined
    } else if mask_len < mask_need {
        Plan::invalid("mask too small: need "@ + text::decimal(mask_need))
    } else {
        Plan::raw_launch(
            "fa_bf16_tree"@,
            "fa_bf16_tree"@,
            (seq_q, num_heads, batch),
            (32, 1, 1),
            0,
            Seq::empty(),
            seq![
                Arg::buffer(0), Arg::buffer(1), Arg::buffer(2), Arg::buffer(3), Arg::buffer(4),
                Arg::word(num_heads), Arg::word(seq_q), Arg::word(seq_kv), Arg::Scalar(scale),
            ],
            None,
            "tree attn launch: "@,
        )
    }
}

/// Launch tree attention (BF16) — used by EAGLE-3 / Medusa speculative decoding.
/// Each draft query attends only to positions marked with mask[q, k] = 1.
/// Mask is shared across batches and heads (standard EAGLE-3 convention).
pub fn tree_attention_bf16(
    q_len: usize,
    k_len: usize,
    v_len: usize,
    mask_len: usize,
    o_len: usize,
    batch: u32,
    num_heads: u32,
    seq_q: u32,
    seq_kv: u32,
    scale: F32,
) -> (r: Result<Launch>)
    requires
        tree_attention_bf16_plan(
            q_len as int, k_len as int, v_len as int, mask_len as int, o_len as int, batch as int,
            num_heads as int, seq_q as int, seq_kv as int, scale,
        ) !is Undefined,
    ensures
        plan::outcome(r) == tree_attention_bf16_plan(
            q_len as int, k_len as int, v_len as int, mask_len as int, o_len as int, batch as int,
            num_heads as int, seq_q as int, seq_kv as int, scale,
        ),
        plan::launchable(r, 5),
{
    if batch == 0 || num_heads == 0 || seq_q == 0 || seq_kv == 0 {
        return Text::new("batch, num_heads, seq_q, seq_kv must be > 0").refuse();
    }
    let mask_need: u64 = (seq_q * seq_kv) as u64;
    if (mask_len as u64) < mask_need {
        return Text::new("mask too small: need ").n(mask_need).refuse();
    }
    Ok(
        Launch::raw(
            "fa_bf16_tree",
            "fa_bf16_tree",
            (seq_q, num_heads, batch),
            (32, 1, 1),
            0,
            Vec::new(),
            vec![
                Arg::param(0), Arg::param(1), Arg::param(2), Arg::param(3), Arg::param(4),
                Arg::Word(num_heads), Arg::Word(seq_q), Arg::Word(seq_kv), Arg::Scalar(scale),
            ],
            None,
            Text::new("tree attn launch: "),
        ),
    )
}

/// The answer of [`nsa_attention_bf16`].
pub open spec fn nsa_attention_bf16_plan(
    q_len: int, k_len: int, v_len: int, block_idx_len: int, o_len: int, batch: int, num_heads: int,
    seq_q: int, seq_kv: int, k_top: int, block_size: int, scale: F32,
) -> Plan {
    let idx_need = batch * seq_q * num_heads * k_top;
    if batch == 0
        || num_heads == 0
        || seq_q == 0
        || seq_kv == 0
        || k_top == 0
        || block_size == 0
    {
        Plan::invalid("all dims must be > 0"@)
    } else if batch * seq_q > u32::MAX
        || batch * seq_q * num_heads > u32::MAX
        || idx_need > u32::MAX
    {
        Plan::Undefined
    } else if block_idx_len < idx_need {
        Plan::invalid("block_idx too small: need "@ + text::decimal(idx_need))
    } else {
        Plan::raw_launch(
            "fa_bf16_nsa"@,
            "fa_bf16_nsa"@,
            (seq_q, num_heads, batch),
            (32, 1, 1),
            0,
            Seq::empty(),
            seq![
                Arg::buffer(0), Arg::buffer(1), Arg::buffer(2), Arg::buffer(3), Arg::buffer(4),
                Arg::word(num_heads), Arg::word(seq_q), Arg::word(seq_kv), Arg::word(k_top),
                Arg::word(block_size), Arg::Scalar(scale),
            ],
            None,
            "NSA launch: "@,
        )
    }
}

/// Native Sparse Attention (NSA): each query attends only to pre-selected
/// KV blocks (via block_idx).
pub fn nsa_attention_bf16(
    q_len: usize,
    k_len: usize,
    v_len: usize,
    block_idx_len: usize,
    o_len: usize,
    batch: u32,
    num_heads: u32,
    seq_q: u32,
    seq_kv: u32,
    k_top: u32,
    block_size: u32,
    scale: F32,
) -> (r: Result<Launch>)
    requires
        nsa_attention_bf16_plan(
            q_len as int, k_len as int, v_len as int, block_idx_len as int, o_len as int,
            batch as int, num_heads as int, seq_q as int, seq_kv as int, k_top as int,
            block_size as int, scale,
        ) !is Undefined,
    ensures
        plan::outcome(r) == nsa_attention_bf16_plan(
            q_len as int, k_len as int, v_len as int, block_idx_len as int, o_len as int,
            batch as int, num_heads as int, seq_q as int, seq_kv as int, k_top as int,
            block_size as int, scale,
        ),
        plan::launchable(r, 5),
{
    if batch == 0
        || num_heads == 0
        || seq_q == 0
        || seq_kv == 0
        || k_top == 0
        || block_size == 0
    {
        return Text::new("all dims must be > 0").refuse();
    }
    let idx_need: u64 = (batch * seq_q * num_heads * k_top) as u64;
    if (block_idx_len as u64) < idx_need {
        return Text::new("block_idx too small: need ").n(idx_need).refuse();
    }
    Ok(
        Launch::raw(
            "fa_bf16_nsa",
            "fa_bf16_nsa",
            (seq_q, num_heads, batch),
            (32, 1, 1),
            0,
            Vec::new(),
            vec![
                Arg::param(0), Arg::param(1), Arg::param(2), Arg::param(3), Arg::param(4),
                Arg::Word(num_heads), Arg::Word(seq_q), Arg::Word(seq_kv), Arg::Word(k_top),
                Arg::Word(block_size), Arg::Scalar(scale),
            ],
            None,
            Text::new("NSA launch: "),
        ),
    )
}

/// The answer of [`k_block_mean`].
pub open spec fn k_block_mean_plan(
    k_len: int, out_len: int, batch: int, num_heads: int, seq_kv: int, block_size: int,
) -> Plan {
    let num_blocks = shape::ceil_div(seq_kv, block_size);
    if batch == 0 || num_heads == 0 || seq_kv == 0 || block_size == 0 {
        Plan::invalid("dims must be > 0"@)
    } else {
        Plan::raw_launch(
            "k_block_mean"@,
            "k_block_mean"@,
            (num_blocks, num_heads, batch),
            (32, 1, 1),
            0,
            Seq::empty(),
            seq![
                Arg::buffer(0), Arg::buffer(1), Arg::word(batch), Arg::word(num_heads),
                Arg::word(seq_kv), Arg::word(block_size),
            ],
            None,
            "k_block_mean launch: "@,
        )
    }
}

/// Compute per-block mean of K for NSA / MoBA block scoring.
pub fn k_block_mean(
    k_len: usize,
    out_len: usize,
    batch: u32,
    num_heads: u32,
    seq_kv: u32,
    block_size: u32,
) -> (r: Result<Launch>)
    ensures
        plan::outcome(r) == k_block_mean_plan(
            k_len as int, out_len as int, batch as int, num_heads as int, seq_kv as int,
            block_size as int,
        ),
        plan::launchable(r, 2),
{
    if batch == 0 || num_heads == 0 || seq_kv == 0 || block_size == 0 {
        return Text::new("dims must be > 0").refuse();
    }
    let num_blocks: u32 = shape::div_ceil(seq_kv, block_size);
    proof {
        shape::lemma_ceil_div(seq_kv as int, block_size as int);
    }
    Ok(
        Launch::raw(
            "k_block_mean",
            "k_block_mean",
            (num_blocks, num_heads, batch),
            (32, 1, 1),
            0,
            Vec::new(),
            vec![
                Arg::param(0), Arg::param(1), Arg::Word(batch), Arg::Word(num_heads),
                Arg::Word(seq_kv), Arg::Word(block_size),
            ],
            None,
            Text::new("k_block_mean launch: "),
        ),
    )
}

/// The answer of [`topk_block_idx`].
pub open spec fn topk_block_idx_plan(
    scores_len: int, indices_len: int, batch: int, num_heads: int, seq_q: int, num_blocks: int,
    k_top: int,
) -> Plan {
    if batch == 0 || num_heads == 0 || seq_q == 0 || num_blocks == 0 || k_top == 0 {
        Plan::invalid("all dims must be > 0"@)
    } else if num_blocks > 32 {
        Plan::invalid(
            "topk_block_idx reference supports num_blocks ≤ 32, got "@ + text::decimal(num_blocks),
        )
    } else if k_top > num_blocks {
        Plan::invalid(
            "k_top ("@ + text::decimal(k_top) + ") must be ≤ num_blocks ("@
                + text::decimal(num_blocks) + ")"@,
        )
    } else {
        Plan::raw_launch(
            "topk_block_idx"@,
            "topk_block_idx"@,
            (seq_q, num_heads, batch),
            (32, 1, 1),
            0,
            Seq::empty(),
            seq![Arg::buffer(0), Arg::buffer(1), Arg::word(num_blocks), Arg::word(k_top)],
            None,
            "topk_block launch: "@,
        )
    }
}

/// Select top-K block indices per query from per-block importance scores.
/// Final stage of the NSA / MoBA block-selection pipeline.
pub fn topk_block_idx(
    scores_len: usize,
    indices_len: usize,
    batch: u32,
    num_heads: u32,
    seq_q: u32,
    num_blocks: u32,
    k_top: u32,
) -> (r: Result<Launch>)
    ensures
        plan::outcome(r) == topk_block_idx_plan(
            scores_len as int, indices_len as int, batch as int, num_heads as int, seq_q as int,
            num_blocks as int, k_top as int,
        ),
        plan::launchable(r, 2),
{
    if batch == 0 || num_heads == 0 || seq_q == 0 || num_blocks == 0 || k_top == 0 {
        return Text::new("all dims must be > 0").refuse();
    }
    if num_blocks > 32 {
        return Text::new("topk_block_idx reference supports num_blocks ≤ 32, got ")
            .n(num_blocks as u64).refuse();
    }
    if k_top > num_blocks {
        return Text::new("k_top (").n(k_top as u64).s(") must be ≤ num_blocks (")
            .n(num_blocks as u64).s(")").refuse();
    }
    Ok(
        Launch::raw(
            "topk_block_idx",
            "topk_block_idx",
            (seq_q, num_heads, batch),
            (32, 1, 1),
            0,
            Vec::new(),
            vec![Arg::param(0), Arg::param(1), Arg::Word(num_blocks), Arg::Word(k_top)],
            None,
            Text::new("topk_block launch: "),
        ),
    )
}

/// The answer of [`mtp_draft_heads`].
pub open spec fn mtp_draft_heads_plan(
    hidden_len: int, w_len: int, draft_len: int, batch: int, num_draft_heads: int, vocab: int,
    d_hidden: int,
) -> Plan {
    if batch == 0 || num_draft_heads == 0 || vocab == 0 || d_hidden == 0 {
        Plan::invalid("dims must be > 0"@)
    } else if hidden_len < batch * d_hidden {
        Plan::invalid("hidden too small"@)
    } else if num_draft_heads * vocab * d_hidden > u64::MAX {
        Plan::Undefined
    } else if w_len < num_draft_heads * vocab * d_hidden {
        Plan::invalid("W too small"@)
    } else if draft_len < batch * num_draft_heads {
        Plan::invalid("draft too small"@)
    } else {
        Plan::raw_launch(
            "mtp_draft_heads"@,
            "mtp_draft_heads"@,
            (num_draft_heads, batch, 1),
            (128, 1, 1),
            0,
            Seq::empty(),
            seq![
                Arg::buffer(0), Arg::buffer(1), Arg::buffer(2), Arg::word(d_hidden),
                Arg::word(vocab),
            ],
            None,
            "MTP launch: "@,
        )
    }
}

/// MTP draft-heads fused matmul+argmax for DeepSeek V3/V4 speculative decoding.
pub fn mtp_draft_heads(
    hidden_len: usize,
    w_len: usize,
    draft_len: usize,
    batch: u32,
    num_draft_heads: u32,
    vocab: u32,
    d_hidden: u32,
) -> (r: Result<Launch>)
    requires
        mtp_draft_heads_plan(
            hidden_len as int, w_len as int, draft_len as int, batch as int, num_draft_heads as int,
            vocab as int, d_hidden as int,
        ) !is Undefined,
    ensures
        plan::outcome(r) == mtp_draft_heads_plan(
            hidden_len as int, w_len as int, draft_len as int, batch as int, num_draft_heads as int,
            vocab as int, d_hidden as int,
        ),
        plan::launchable(r, 3),
{
    if batch == 0 || num_draft_heads == 0 || vocab == 0 || d_hidden == 0 {
        return Text::new("dims must be > 0").refuse();
    }
    if (hidden_len as u64) < shape::product(batch, d_hidden) {
        return Text::new("hidden too small").refuse();
    }
    if (w_len as u64) < shape::product(num_draft_heads, vocab) * (d_hidden as u64) {
        return Text::new("W too small").refuse();
    }
    if (draft_len as u64) < shape::product(batch, num_draft_heads) {
        return Text::new("draft too small").refuse();
    }
    Ok(
        Launch::raw(
            "mtp_draft_heads",
            "mtp_draft_heads",
            (num_draft_heads, batch, 1),
            (128, 1, 1),
            0,
            Vec::new(),
            vec![Arg::param(0), Arg::param(1), Arg::param(2), Arg::Word(d_hidden), Arg::Word(vocab)],
            None,
            Text::new("MTP launch: "),
        ),
    )
}

/// The answer of [`dsa_attention_bf16`].
pub open spec fn dsa_attention_bf16_plan(
    q_len: int, k_len: int, v_len: int, position_idx_len: int, o_len: int, batch: int,
    num_heads: int, seq_q: int, seq_kv: int, k_top: int, scale: F32,
) -> Plan {
    nsa_attention_bf16_plan(
        q_len, k_len, v_len, position_idx_len, o_len, batch, num_heads, seq_q, seq_kv, k_top, 1,
        scale,
    )
}

/// DeepSeek Sparse Attention (DSA) — DeepSeek V3.2 production variant.
/// Each query attends to a selected set of INDIVIDUAL positions (not blocks).
pub fn dsa_attention_bf16(
    q_len: usize,
    k_len: usize,
    v_len: usize,
    position_idx_len: usize,
    o_len: usize,
    batch: u32,
    num_heads: u32,
    seq_q: u32,
    seq_kv: u32,
    k_top: u32,
    scale: F32,
) -> (r: Result<Launch>)
    requires
        dsa_attention_bf16_plan(
            q_len as int, k_len as int, v_len as int, position_idx_len as int, o_len as int,
            batch as int, num_heads as int, seq_q as int, seq_kv as int, k_top as int, scale,
        ) !is Undefined,
    ensures
        plan::outcome(r) == dsa_attention_bf16_plan(
            q_len as int, k_len as int, v_len as int, position_idx_len as int, o_len as int,
            batch as int, num_heads as int, seq_q as int, seq_kv as int, k_top as int, scale,
        ),
        plan::launchable(r, 5),
{
    nsa_attention_bf16(
        q_len, k_len, v_len, position_idx_len, o_len, batch, num_heads, seq_q, seq_kv, k_top, 1,
        scale,
    )
}

/// The answer of [`medusa_draft_heads`].
pub open spec fn medusa_draft_heads_plan(
    hidden_len: int, w_len: int, draft_len: int, batch: int, num_draft_heads: int, vocab: int,
    d_hidden: int,
) -> Plan {
    mtp_draft_heads_plan(hidden_len, w_len, draft_len, batch, num_draft_heads, vocab, d_hidden)
}

/// Medusa draft heads — same kernel as MTP draft heads.
pub fn medusa_draft_heads(
    hidden_len: usize,
    w_len: usize,
    draft_len: usize,
    batch: u32,
    num_draft_heads: u32,
    vocab: u32,
    d_hidden: u32,
) -> (r: Result<Launch>)
    requires
        medusa_draft_heads_plan(
            hidden_len as int, w_len as int, draft_len as int, batch as int, num_draft_heads as int,
            vocab as int, d_hidden as int,
        ) !is Undefined,
    ensures
        plan::outcome(r) == medusa_draft_heads_plan(
            hidden_len as int, w_len as int, draft_len as int, batch as int, num_draft_heads as int,
            vocab as int, d_hidden as int,
        ),
        plan::launchable(r, 3),
{
    mtp_draft_heads(hidden_len, w_len, draft_len, batch, num_draft_heads, vocab, d_hidden)
}

/// Attention to single positions is attention to blocks of one position.
pub proof fn positions_are_blocks_of_one(
    q_len: int, k_len: int, v_len: int, position_idx_len: int, o_len: int, batch: int,
    num_heads: int, seq_q: int, seq_kv: int, k_top: int, scale: F32,
)
    ensures
        dsa_attention_bf16_plan(
            q_len, k_len, v_len, position_idx_len, o_len, batch, num_heads, seq_q, seq_kv, k_top,
            scale,
        ) == nsa_attention_bf16_plan(
            q_len, k_len, v_len, position_idx_len, o_len, batch, num_heads, seq_q, seq_kv, k_top, 1,
            scale,
        ),
{
}

/// The draft heads of both methods are computed alike.
pub proof fn medusa_heads_are_draft_heads(
    hidden_len: int, w_len: int, draft_len: int, batch: int, num_draft_heads: int, vocab: int,
    d_hidden: int,
)
    ensures
        medusa_draft_heads_plan(
            hidden_len, w_len, draft_len, batch, num_draft_heads, vocab, d_hidden,
        ) == mtp_draft_heads_plan(
            hidden_len, w_len, draft_len, batch, num_draft_heads, vocab, d_hidden,
        ),
{
}

} // verus!
