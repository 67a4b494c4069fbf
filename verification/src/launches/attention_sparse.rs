//! What the launches of `attention::sparse` hand to their kernels.
use crate::attention::sparse;
use crate::launches::role::Role;
use crate::plan::{Arg, F32, Plan};
use crate::shape;
use vstd::prelude::*;

verus! {

/// What the kernel `fa_bf16_tree` takes, in order.
pub open spec fn fa_bf16_tree_takes() -> Seq<Role> {
    seq![
        Role::Query, Role::Key, Role::Value, Role::Mask, Role::Output, Role::NumHeads, Role::SeqQ,
        Role::SeqKv, Role::Scale,
    ]
}

/// `tree_attention_bf16` launches its kernel exactly where the sizes of the request are right,
/// with every argument what its role asks for, on blocks that cover the result.
pub proof fn tree_attention_bf16_launches(
    q_len: int, k_len: int, v_len: int, mask_len: int, o_len: int, batch: int, num_heads: int,
    seq_q: int, seq_kv: int, scale: F32,
)
    ensures
        sparse::tree_attention_bf16_plan(
            q_len, k_len, v_len, mask_len, o_len, batch, num_heads, seq_q, seq_kv, scale,
        ) matches Plan::Fail(f) ==> f is InvalidArgument,
        sparse::tree_attention_bf16_plan(
            q_len, k_len, v_len, mask_len, o_len, batch, num_heads, seq_q, seq_kv, scale,
        ) is Launch <==> {
            &&& batch != 0
            &&& num_heads != 0
            &&& seq_q != 0
            &&& seq_kv != 0
            &&& seq_q * seq_kv <= u32::MAX
            &&& mask_len >= seq_q * seq_kv
        },
        sparse::tree_attention_bf16_plan(
            q_len, k_len, v_len, mask_len, o_len, batch, num_heads, seq_q, seq_kv, scale,
        ) matches Plan::Launch(l) ==> {
            &&& l.entry == "fa_bf16_tree"@
            &&& l.kernel == "fa_bf16_tree"@
            &&& l.args =~= fa_bf16_tree_takes().map_values(
                |r: Role|
                    match r {
                        Role::Query => Arg::buffer(0),
                        Role::Key => Arg::buffer(1),
                        Role::Value => Arg::buffer(2),
                        Role::Mask => Arg::buffer(3),
                        Role::Output => Arg::buffer(4),
                        Role::NumHeads => Arg::word(num_heads),
                        Role::SeqQ => Arg::word(seq_q),
                        Role::SeqKv => Arg::word(seq_kv),
                        Role::Scale => Arg::Scalar(scale),
                        _ => Arg::Word(0),
                    },
            )
            &&& l.grid.0 == seq_q
            &&& l.grid.1 == num_heads
            &&& l.grid.2 == batch
            &&& l.block == (32int, 1int, 1int)
            &&& l.shared_mem == 0
            &&& l.opt_in is None
            &&& l.failure is Some
            &&& l.tensor_maps.len() == 0
        },
{
}

/// What the kernel `fa_bf16_nsa` takes, in order.
pub open spec fn fa_bf16_nsa_takes() -> Seq<Role> {
    seq![
        Role::Query, Role::Key, Role::Value, Role::BlockIdx, Role::Output, Role::NumHeads,
        Role::SeqQ, Role::SeqKv, Role::KTop, Role::BlockSize, Role::Scale,
    ]
}

/// `nsa_attention_bf16` launches its kernel exactly where the sizes of the request are right,
/// with every argument what its role asks for, on blocks that cover the result.
pub proof fn nsa_attention_bf16_launches(
    q_len: int, k_len: int, v_len: int, block_idx_len: int, o_len: int, batch: int,
    num_heads: int, seq_q: int, seq_kv: int, k_top: int, block_size: int, scale: F32,
)
    ensures
        sparse::nsa_attention_bf16_plan(
            q_len, k_len, v_len, block_idx_len, o_len, batch, num_heads, seq_q, seq_kv, k_top,
            block_size, scale,
        ) matches Plan::Fail(f) ==> f is InvalidArgument,
        sparse::nsa_attention_bf16_plan(
            q_len, k_len, v_len, block_idx_len, o_len, batch, num_heads, seq_q, seq_kv, k_top,
            block_size, scale,
        ) is Launch <==> {
            &&& batch != 0
            &&& num_heads != 0
            &&& seq_q != 0
            &&& seq_kv != 0
            &&& k_top != 0
            &&& block_size != 0
            &&& batch * seq_q <= u32::MAX
            &&& batch * seq_q * num_heads <= u32::MAX
            &&& batch * seq_q * num_heads * k_top <= u32::MAX
            &&& block_idx_len >= batch * seq_q * num_heads * k_top
        },
        sparse::nsa_attention_bf16_plan(
            q_len, k_len, v_len, block_idx_len, o_len, batch, num_heads, seq_q, seq_kv, k_top,
            block_size, scale,
        ) matches Plan::Launch(l) ==> {
            &&& l.entry == "fa_bf16_nsa"@
            &&& l.kernel == "fa_bf16_nsa"@
            &&& l.args =~= fa_bf16_nsa_takes().map_values(
                |r: Role|
                    match r {
                        Role::Query => Arg::buffer(0),
                        Role::Key => Arg::buffer(1),
                        Role::Value => Arg::buffer(2),
                        Role::BlockIdx => Arg::buffer(3),
                        Role::Output => Arg::buffer(4),
                        Role::NumHeads => Arg::word(num_heads),
                        Role::SeqQ => Arg::word(seq_q),
                        Role::SeqKv => Arg::word(seq_kv),
                        Role::KTop => Arg::word(k_top),
                        Role::BlockSize => Arg::word(block_size),
                        Role::Scale => Arg::Scalar(scale),
                        _ => Arg::Word(0),
                    },
            )
            &&& l.grid.0 == seq_q
            &&& l.grid.1 == num_heads
            &&& l.grid.2 == batch
            &&& l.block == (32int, 1int, 1int)
            &&& l.shared_mem == 0
            &&& l.opt_in is None
            &&& l.failure is Some
            &&& l.tensor_maps.len() == 0
        },
{
}

/// What the kernel `k_block_mean` takes, in order.
pub open spec fn k_block_mean_takes() -> Seq<Role> {
    seq![Role::Key, Role::Out, Role::Batch, Role::NumHeads, Role::SeqKv, Role::BlockSize]
}

/// `k_block_mean` launches its kernel exactly where the sizes of the request are right, with
/// every argument what its role asks for, on blocks that cover the result.
pub proof fn k_block_mean_launches(
    k_len: int, out_len: int, batch: int, num_heads: int, seq_kv: int, block_size: int,
)
    ensures
        sparse::k_block_mean_plan(
            k_len, out_len, batch, num_heads, seq_kv, block_size,
        ) matches Plan::Fail(f) ==> f is InvalidArgument,
        sparse::k_block_mean_plan(
            k_len, out_len, batch, num_heads, seq_kv, block_size,
        ) !is Undefined,
        sparse::k_block_mean_plan(
            k_len, out_len, batch, num_heads, seq_kv, block_size,
        ) is Launch <==> {
            &&& batch != 0
            &&& num_heads != 0
            &&& seq_kv != 0
            &&& block_size != 0
        },
        sparse::k_block_mean_plan(
            k_len, out_len, batch, num_heads, seq_kv, block_size,
        ) matches Plan::Launch(l) ==> {
            &&& l.entry == "k_block_mean"@
            &&& l.kernel == "k_block_mean"@
            &&& l.args =~= k_block_mean_takes().map_values(
                |r: Role|
                    match r {
                        Role::Key => Arg::buffer(0),
                        Role::Out => Arg::buffer(1),
                        Role::Batch => Arg::word(batch),
                        Role::NumHeads => Arg::word(num_heads),
                        Role::SeqKv => Arg::word(seq_kv),
                        Role::BlockSize => Arg::word(block_size),
                        _ => Arg::Word(0),
                    },
            )
            &&& l.grid.0 == shape::ceil_div(seq_kv, block_size)
            &&& l.grid.1 == num_heads
            &&& l.grid.2 == batch
            &&& l.block == (32int, 1int, 1int)
            &&& l.shared_mem == 0
            &&& l.opt_in is None
            &&& l.failure is Some
            &&& l.tensor_maps.len() == 0
        },
{
}

/// What the kernel `topk_block_idx` takes, in order.
pub open spec fn topk_block_idx_takes() -> Seq<Role> {
    seq![Role::Scores, Role::Indices, Role::NumBlocks, Role::KTop]
}

/// `topk_block_idx` launches its kernel exactly where the sizes of the request are right, with
/// every argument what its role asks for, on blocks that cover the result.
pub proof fn topk_block_idx_launches(
    scores_len: int, indices_len: int, batch: int, num_heads: int, seq_q: int, num_blocks: int,
    k_top: int,
)
    ensures
        sparse::topk_block_idx_plan(
            scores_len, indices_len, batch, num_heads, seq_q, num_blocks, k_top,
        ) matches Plan::Fail(f) ==> f is InvalidArgument,
        sparse::topk_block_idx_plan(
            scores_len, indices_len, batch, num_heads, seq_q, num_blocks, k_top,
        ) !is Undefined,
        sparse::topk_block_idx_plan(
            scores_len, indices_len, batch, num_heads, seq_q, num_blocks, k_top,
        ) is Launch <==> {
            &&& batch != 0
            &&& num_heads != 0
            &&& seq_q != 0
            &&& num_blocks != 0
            &&& k_top != 0
            &&& num_blocks <= 32
            &&& k_top <= num_blocks
        },
        sparse::topk_block_idx_plan(
            scores_len, indices_len, batch, num_heads, seq_q, num_blocks, k_top,
        ) matches Plan::Launch(l) ==> {
            &&& l.entry == "topk_block_idx"@
            &&& l.kernel == "topk_block_idx"@
            &&& l.args =~= topk_block_idx_takes().map_values(
                |r: Role|
                    match r {
                        Role::Scores => Arg::buffer(0),
                        Role::Indices => Arg::buffer(1),
                        Role::NumBlocks => Arg::word(num_blocks),
                        Role::KTop => Arg::word(k_top),
                        _ => Arg::Word(0),
                    },
            )
            &&& l.grid.0 == seq_q
            &&& l.grid.1 == num_heads
            &&& l.grid.2 == batch
            &&& l.block == (32int, 1int, 1int)
            &&& l.shared_mem == 0
            &&& l.opt_in is None
            &&& l.failure is Some
            &&& l.tensor_maps.len() == 0
        },
{
}

/// What the kernel `mtp_draft_heads` takes, in order.
pub open spec fn mtp_draft_heads_takes() -> Seq<Role> {
    seq![Role::Hidden, Role::Weight, Role::Draft, Role::DHidden, Role::Vocab]
}

/// `mtp_draft_heads` launches its kernel exactly where the sizes of the request are right, with
/// every argument what its role asks for, on blocks that cover the result.
pub proof fn mtp_draft_heads_launches(
    hidden_len: int, w_len: int, draft_len: int, batch: int, num_draft_heads: int, vocab: int,
    d_hidden: int,
)
    ensures
        sparse::mtp_draft_heads_plan(
            hidden_len, w_len, draft_len, batch, num_draft_heads, vocab, d_hidden,
        ) matches Plan::Fail(f) ==> f is InvalidArgument,
        sparse::mtp_draft_heads_plan(
            hidden_len, w_len, draft_len, batch, num_draft_heads, vocab, d_hidden,
        ) is Launch <==> {
            &&& batch != 0
            &&& num_draft_heads != 0
            &&& vocab != 0
            &&& d_hidden != 0
            &&& hidden_len >= batch * d_hidden
            &&& num_draft_heads * vocab * d_hidden <= u64::MAX
            &&& w_len >= num_draft_heads * vocab * d_hidden
            &&& draft_len >= batch * num_draft_heads
        },
        sparse::mtp_draft_heads_plan(
            hidden_len, w_len, draft_len, batch, num_draft_heads, vocab, d_hidden,
        ) matches Plan::Launch(l) ==> {
            &&& l.entry == "mtp_draft_heads"@
            &&& l.kernel == "mtp_draft_heads"@
            &&& l.args =~= mtp_draft_heads_takes().map_values(
                |r: Role|
                    match r {
                        Role::Hidden => Arg::buffer(0),
                        Role::Weight => Arg::buffer(1),
                        Role::Draft => Arg::buffer(2),
                        Role::DHidden => Arg::word(d_hidden),
                        Role::Vocab => Arg::word(vocab),
                        _ => Arg::Word(0),
                    },
            )
            &&& l.grid.0 == num_draft_heads
            &&& l.grid.1 == batch
            &&& l.grid.2 == 1
            &&& l.block == (128int, 1int, 1int)
            &&& l.shared_mem == 0
            &&& l.opt_in is None
            &&& l.failure is Some
            &&& l.tensor_maps.len() == 0
        },
{
}

/// `dsa_attention_bf16` launches its kernel exactly where the sizes of the request are right,
/// with every argument what its role asks for, on blocks that cover the result.
pub proof fn dsa_attention_bf16_launches(
    q_len: int, k_len: int, v_len: int, position_idx_len: int, o_len: int, batch: int,
    num_heads: int, seq_q: int, seq_kv: int, k_top: int, scale: F32,
)
    ensures
        sparse::dsa_attention_bf16_plan(
            q_len, k_len, v_len, position_idx_len, o_len, batch, num_heads, seq_q, seq_kv, k_top,
            scale,
        ) matches Plan::Fail(f) ==> f is InvalidArgument,
        sparse::dsa_attention_bf16_plan(
            q_len, k_len, v_len, position_idx_len, o_len, batch, num_heads, seq_q, seq_kv, k_top,
            scale,
        ) is Launch <==> {
            &&& batch != 0
            &&& num_heads != 0
            &&& seq_q != 0
            &&& seq_kv != 0
            &&& k_top != 0
            &&& batch * seq_q <= u32::MAX
            &&& batch * seq_q * num_heads <= u32::MAX
            &&& batch * seq_q * num_heads * k_top <= u32::MAX
            &&& position_idx_len >= batch * seq_q * num_heads * k_top
        },
        sparse::dsa_attention_bf16_plan(
            q_len, k_len, v_len, position_idx_len, o_len, batch, num_heads, seq_q, seq_kv, k_top,
            scale,
        ) matches Plan::Launch(l) ==> {
            &&& l.entry == "fa_bf16_nsa"@
            &&& l.kernel == "fa_bf16_nsa"@
            &&& l.args =~= fa_bf16_nsa_takes().map_values(
                |r: Role|
                    match r {
                        Role::Query => Arg::buffer(0),
                        Role::Key => Arg::buffer(1),
                        Role::Value => Arg::buffer(2),
                        Role::BlockIdx => Arg::buffer(3),
                        Role::Output => Arg::buffer(4),
                        Role::NumHeads => Arg::word(num_heads),
                        Role::SeqQ => Arg::word(seq_q),
                        Role::SeqKv => Arg::word(seq_kv),
                        Role::KTop => Arg::word(k_top),
                        Role::BlockSize => Arg::word(1),
                        Role::Scale => Arg::Scalar(scale),
                        _ => Arg::Word(0),
                    },
            )
            &&& l.grid.0 == seq_q
            &&& l.grid.1 == num_heads
            &&& l.grid.2 == batch
            &&& l.block == (32int, 1int, 1int)
            &&& l.shared_mem == 0
            &&& l.opt_in is None
            &&& l.failure is Some
            &&& l.tensor_maps.len() == 0
        },
{
}

/// `medusa_draft_heads` launches its kernel exactly where the sizes of the request are right,
/// with every argument what its role asks for, on blocks that cover the result.
pub proof fn medusa_draft_heads_launches(
    hidden_len: int, w_len: int, draft_len: int, batch: int, num_draft_heads: int, vocab: int,
    d_hidden: int,
)
    ensures
        sparse::medusa_draft_heads_plan(
            hidden_len, w_len, draft_len, batch, num_draft_heads, vocab, d_hidden,
        ) matches Plan::Fail(f) ==> f is InvalidArgument,
        sparse::medusa_draft_heads_plan(
            hidden_len, w_len, draft_len, batch, num_draft_heads, vocab, d_hidden,
        ) is Launch <==> {
            &&& batch != 0
            &&& num_draft_heads != 0
            &&& vocab != 0
            &&& d_hidden != 0
            &&& hidden_len >= batch * d_hidden
            &&& num_draft_heads * vocab * d_hidden <= u64::MAX
            &&& w_len >= num_draft_heads * vocab * d_hidden
            &&& draft_len >= batch * num_draft_heads
        },
        sparse::medusa_draft_heads_plan(
            hidden_len, w_len, draft_len, batch, num_draft_heads, vocab, d_hidden,
        ) matches Plan::Launch(l) ==> {
            &&& l.entry == "mtp_draft_heads"@
            &&& l.kernel == "mtp_draft_heads"@
            &&& l.args =~= mtp_draft_heads_takes().map_values(
                |r: Role|
                    match r {
                        Role::Hidden => Arg::buffer(0),
                        Role::Weight => Arg::buffer(1),
                        Role::Draft => Arg::buffer(2),
                        Role::DHidden => Arg::word(d_hidden),
                        Role::Vocab => Arg::word(vocab),
                        _ => Arg::Word(0),
                    },
            )
            &&& l.grid.0 == num_draft_heads
            &&& l.grid.1 == batch
            &&& l.grid.2 == 1
            &&& l.block == (128int, 1int, 1int)
            &&& l.shared_mem == 0
            &&& l.opt_in is None
            &&& l.failure is Some
            &&& l.tensor_maps.len() == 0
        },
{
}

} // verus!
