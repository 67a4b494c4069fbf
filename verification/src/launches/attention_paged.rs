//! What the launches of `attention::paged` hand to their kernels.
use crate::attention::paged;
use crate::launches::role::Role;
use crate::meaning;
use crate::plan::{Arg, F32, Plan};
use crate::shape;
use vstd::prelude::*;

verus! {

/// What the kernel `flash_attn_bf16_v3_paged_kv` takes, in order.
pub open spec fn flash_attn_bf16_v3_paged_kv_takes() -> Seq<Role> {
    seq![
        Role::Query, Role::Key, Role::Value, Role::Output, Role::PageTable, Role::SeqQ,
        Role::SeqKv, Role::NumHeads, Role::NumKvHeads, Role::PageSize, Role::MaxPages,
        Role::Scale,
    ]
}

/// `flash_attn_bf16_v3_paged_kv` launches its kernel exactly where the sizes of the request are
/// right, with every argument what its role asks for, on blocks that cover the result.
pub proof fn flash_attn_bf16_v3_paged_kv_launches(
    q_len: int, k_len: int, v_len: int, o_len: int, page_table_len: int, batch: int,
    num_heads: int, num_kv_heads: int, seq_q: int, seq_kv: int, page_size: int, max_pages: int,
    scale: F32,
)
    requires
        seq_q >= 0,
    ensures
        paged::flash_attn_bf16_v3_paged_kv_plan(
            q_len, k_len, v_len, o_len, page_table_len, batch, num_heads, num_kv_heads, seq_q,
            seq_kv, page_size, max_pages, scale,
        ) matches Plan::Fail(f) ==> f is InvalidArgument,
        paged::flash_attn_bf16_v3_paged_kv_plan(
            q_len, k_len, v_len, o_len, page_table_len, batch, num_heads, num_kv_heads, seq_q,
            seq_kv, page_size, max_pages, scale,
        ) !is Undefined,
        paged::flash_attn_bf16_v3_paged_kv_plan(
            q_len, k_len, v_len, o_len, page_table_len, batch, num_heads, num_kv_heads, seq_q,
            seq_kv, page_size, max_pages, scale,
        ) is Launch <==> {
            &&& batch != 0
            &&& num_heads != 0
            &&& seq_q != 0
            &&& seq_kv != 0
            &&& num_kv_heads == 0 ==> num_heads == 0
            &&& num_kv_heads != 0 ==> num_heads % num_kv_heads == 0
        },
        paged::flash_attn_bf16_v3_paged_kv_plan(
            q_len, k_len, v_len, o_len, page_table_len, batch, num_heads, num_kv_heads, seq_q,
            seq_kv, page_size, max_pages, scale,
        ) matches Plan::Launch(l) ==> {
            &&& l.entry == "flash_attn_bf16_v3_paged_kv"@
            &&& l.kernel == "fa_bf16_v3_paged_kv"@
            &&& l.args =~= flash_attn_bf16_v3_paged_kv_takes().map_values(
                |r: Role|
                    match r {
                        Role::Query => Arg::buffer(0),
                        Role::Key => Arg::buffer(1),
                        Role::Value => Arg::buffer(2),
                        Role::Output => Arg::buffer(3),
                        Role::PageTable => Arg::buffer(4),
                        Role::SeqQ => Arg::word(seq_q),
                        Role::SeqKv => Arg::word(seq_kv),
                        Role::NumHeads => Arg::word(num_heads),
                        Role::NumKvHeads => Arg::word(num_kv_heads),
                        Role::PageSize => Arg::word(page_size),
                        Role::MaxPages => Arg::word(max_pages),
                        Role::Scale => Arg::Scalar(scale),
                        _ => Arg::Word(0),
                    },
            )
            &&& meaning::covers(l.grid.0, 128, seq_q)
            &&& l.grid.1 == num_heads
            &&& l.grid.2 == batch
            &&& l.block == (256int, 1int, 1int)
            &&& l.shared_mem == 0
            &&& l.opt_in is None
            &&& l.failure is None
            &&& l.tensor_maps.len() == 0
        },
{
    shape::lemma_ceil_div(seq_q, 128);
}

/// What the kernel `flash_attn_bf16_v3_paged_kv_causal` takes, in order.
pub open spec fn flash_attn_bf16_v3_paged_kv_causal_takes() -> Seq<Role> {
    seq![
        Role::Query, Role::Key, Role::Value, Role::Output, Role::PageTable, Role::SeqQ,
        Role::SeqKv, Role::NumHeads, Role::NumKvHeads, Role::PageSize, Role::MaxPages,
        Role::Scale,
    ]
}

/// `flash_attn_bf16_v3_paged_kv_causal` launches its kernel exactly where the sizes of the
/// request are right, with every argument what its role asks for, on blocks that cover the
/// result.
pub proof fn flash_attn_bf16_v3_paged_kv_causal_launches(
    q_len: int, k_len: int, v_len: int, o_len: int, page_table_len: int, batch: int,
    num_heads: int, num_kv_heads: int, seq_q: int, seq_kv: int, page_size: int, max_pages: int,
    scale: F32,
)
    requires
        seq_q >= 0,
    ensures
        paged::flash_attn_bf16_v3_paged_kv_causal_plan(
            q_len, k_len, v_len, o_len, page_table_len, batch, num_heads, num_kv_heads, seq_q,
            seq_kv, page_size, max_pages, scale,
        ) matches Plan::Fail(f) ==> f is InvalidArgument,
        paged::flash_attn_bf16_v3_paged_kv_causal_plan(
            q_len, k_len, v_len, o_len, page_table_len, batch, num_heads, num_kv_heads, seq_q,
            seq_kv, page_size, max_pages, scale,
        ) !is Undefined,
        paged::flash_attn_bf16_v3_paged_kv_causal_plan(
            q_len, k_len, v_len, o_len, page_table_len, batch, num_heads, num_kv_heads, seq_q,
            seq_kv, page_size, max_pages, scale,
        ) is Launch <==> {
            &&& batch != 0
            &&& num_heads != 0
            &&& seq_q != 0
            &&& seq_kv != 0
            &&& num_kv_heads == 0 ==> num_heads == 0
            &&& num_kv_heads != 0 ==> num_heads % num_kv_heads == 0
        },
        paged::flash_attn_bf16_v3_paged_kv_causal_plan(
            q_len, k_len, v_len, o_len, page_table_len, batch, num_heads, num_kv_heads, seq_q,
            seq_kv, page_size, max_pages, scale,
        ) matches Plan::Launch(l) ==> {
            &&& l.entry == "flash_attn_bf16_v3_paged_kv_causal"@
            &&& l.kernel == "fa_bf16_v3_paged_kv_causal"@
            &&& l.args =~= flash_attn_bf16_v3_paged_kv_causal_takes().map_values(
                |r: Role|
                    match r {
                        Role::Query => Arg::buffer(0),
                        Role::Key => Arg::buffer(1),
                        Role::Value => Arg::buffer(2),
                        Role::Output => Arg::buffer(3),
                        Role::PageTable => Arg::buffer(4),
                        Role::SeqQ => Arg::word(seq_q),
                        Role::SeqKv => Arg::word(seq_kv),
                        Role::NumHeads => Arg::word(num_heads),
                        Role::NumKvHeads => Arg::word(num_kv_heads),
                        Role::PageSize => Arg::word(page_size),
                        Role::MaxPages => Arg::word(max_pages),
                        Role::Scale => Arg::Scalar(scale),
                        _ => Arg::Word(0),
                    },
            )
            &&& meaning::covers(l.grid.0, 128, seq_q)
            &&& l.grid.1 == num_heads
            &&& l.grid.2 == batch
            &&& l.block == (256int, 1int, 1int)
            &&& l.shared_mem == 0
            &&& l.opt_in is None
            &&& l.failure is None
            &&& l.tensor_maps.len() == 0
        },
{
    shape::lemma_ceil_div(seq_q, 128);
}

/// What the kernel `flash_attn_bf16_v3_split_kv` takes, in order.
pub open spec fn flash_attn_bf16_v3_split_kv_takes() -> Seq<Role> {
    seq![
        Role::Query, Role::Key, Role::Value, Role::OPartial, Role::SeqQ, Role::SeqKv,
        Role::NumHeads, Role::Batch, Role::Scale, Role::LsePartial, Role::NumSplits,
        Role::SplitIdx,
    ]
}

/// `flash_attn_bf16_v3_split_kv` launches its kernel with every argument what its role asks for,
/// on blocks that cover the result.
pub proof fn flash_attn_bf16_v3_split_kv_launches(
    q_len: int, k_len: int, v_len: int, o_partial_len: int, lse_partial_len: int, batch: int,
    num_heads: int, seq_q: int, seq_kv: int, scale: F32, num_splits: int, split_idx: int,
)
    requires
        seq_q >= 0,
    ensures
        paged::flash_attn_bf16_v3_split_kv_plan(
            q_len, k_len, v_len, o_partial_len, lse_partial_len, batch, num_heads, seq_q, seq_kv,
            scale, num_splits, split_idx,
        ) is Launch,
        paged::flash_attn_bf16_v3_split_kv_plan(
            q_len, k_len, v_len, o_partial_len, lse_partial_len, batch, num_heads, seq_q, seq_kv,
            scale, num_splits, split_idx,
        ) matches Plan::Launch(l) ==> {
            &&& l.entry == "flash_attn_bf16_v3_split_kv"@
            &&& l.kernel == "fa_bf16_v3_split_kv"@
            &&& l.args =~= flash_attn_bf16_v3_split_kv_takes().map_values(
                |r: Role|
                    match r {
                        Role::Query => Arg::buffer(0),
                        Role::Key => Arg::buffer(1),
                        Role::Value => Arg::buffer(2),
                        Role::OPartial => Arg::buffer(3),
                        Role::SeqQ => Arg::word(seq_q),
                        Role::SeqKv => Arg::word(seq_kv),
                        Role::NumHeads => Arg::word(num_heads),
                        Role::Batch => Arg::word(batch),
                        Role::Scale => Arg::Scalar(scale),
                        Role::LsePartial => Arg::buffer(4),
                        Role::NumSplits => Arg::word(num_splits),
                        Role::SplitIdx => Arg::word(split_idx),
                        _ => Arg::Word(0),
                    },
            )
            &&& meaning::covers(l.grid.0, 128, seq_q)
            &&& l.grid.1 == num_heads
            &&& l.grid.2 == batch
            &&& l.block == (256int, 1int, 1int)
            &&& l.shared_mem == 0
            &&& l.opt_in is None
            &&& l.failure is None
            &&& l.tensor_maps.len() == 0
        },
{
    shape::lemma_ceil_div(seq_q, 128);
}

/// What the kernel `flash_decoding_combine` takes, in order.
pub open spec fn flash_decoding_combine_takes() -> Seq<Role> {
    seq![
        Role::OPartial, Role::LsePartial, Role::Output, Role::Batch, Role::NumHeads, Role::SeqQ,
        Role::NumSplits,
    ]
}

/// `flash_decoding_combine` launches its kernel with every argument what its role asks for, on
/// blocks that cover the result.
pub proof fn flash_decoding_combine_launches(
    o_partial_len: int, lse_partial_len: int, o_len: int, batch: int, num_heads: int, seq_q: int,
    num_splits: int,
)
    ensures
        paged::flash_decoding_combine_plan(
            o_partial_len, lse_partial_len, o_len, batch, num_heads, seq_q, num_splits,
        ) is Launch,
        paged::flash_decoding_combine_plan(
            o_partial_len, lse_partial_len, o_len, batch, num_heads, seq_q, num_splits,
        ) matches Plan::Launch(l) ==> {
            &&& l.entry == "flash_decoding_combine"@
            &&& l.kernel == "flash_decoding_combine"@
            &&& l.args =~= flash_decoding_combine_takes().map_values(
                |r: Role|
                    match r {
                        Role::OPartial => Arg::buffer(0),
                        Role::LsePartial => Arg::buffer(1),
                        Role::Output => Arg::buffer(2),
                        Role::Batch => Arg::word(batch),
                        Role::NumHeads => Arg::word(num_heads),
                        Role::SeqQ => Arg::word(seq_q),
                        Role::NumSplits => Arg::word(num_splits),
                        _ => Arg::Word(0),
                    },
            )
            &&& l.grid.0 == seq_q
            &&& l.grid.1 == num_heads
            &&& l.grid.2 == batch
            &&& l.block == (128int, 1int, 1int)
            &&& l.shared_mem == 0
            &&& l.opt_in is None
            &&& l.failure is None
            &&& l.tensor_maps.len() == 0
        },
{
}

/// What the kernel `flash_attn_fp8_v3_paged_kv` takes, in order.
pub open spec fn flash_attn_fp8_v3_paged_kv_takes() -> Seq<Role> {
    seq![
        Role::Query, Role::Key, Role::Value, Role::Output, Role::PageTable, Role::SeqQ,
        Role::SeqKv, Role::NumHeads, Role::NumKvHeads, Role::PageSize, Role::MaxPages,
        Role::Scale,
    ]
}

/// `flash_attn_fp8_v3_paged_kv` launches its kernel exactly where the sizes of the request are
/// right, with every argument what its role asks for, on blocks that cover the result.
pub proof fn flash_attn_fp8_v3_paged_kv_launches(
    q_len: int, k_len: int, v_len: int, o_len: int, page_table_len: int, batch: int,
    num_heads: int, num_kv_heads: int, seq_q: int, seq_kv: int, page_size: int, max_pages: int,
    scale: F32,
)
    requires
        seq_q >= 0,
    ensures
        paged::flash_attn_fp8_v3_paged_kv_plan(
            q_len, k_len, v_len, o_len, page_table_len, batch, num_heads, num_kv_heads, seq_q,
            seq_kv, page_size, max_pages, scale,
        ) matches Plan::Fail(f) ==> f is InvalidArgument,
        paged::flash_attn_fp8_v3_paged_kv_plan(
            q_len, k_len, v_len, o_len, page_table_len, batch, num_heads, num_kv_heads, seq_q,
            seq_kv, page_size, max_pages, scale,
        ) !is Undefined,
        paged::flash_attn_fp8_v3_paged_kv_plan(
            q_len, k_len, v_len, o_len, page_table_len, batch, num_heads, num_kv_heads, seq_q,
            seq_kv, page_size, max_pages, scale,
        ) is Launch <==> {
            &&& batch != 0
            &&& num_heads != 0
            &&& seq_q != 0
            &&& seq_kv != 0
            &&& num_kv_heads == 0 ==> num_heads == 0
            &&& num_kv_heads != 0 ==> num_heads % num_kv_heads == 0
        },
        paged::flash_attn_fp8_v3_paged_kv_plan(
            q_len, k_len, v_len, o_len, page_table_len, batch, num_heads, num_kv_heads, seq_q,
            seq_kv, page_size, max_pages, scale,
        ) matches Plan::Launch(l) ==> {
            &&& l.entry == "flash_attn_fp8_v3_paged_kv"@
            &&& l.kernel == "fa_fp8_v3_paged_kv"@
            &&& l.args =~= flash_attn_fp8_v3_paged_kv_takes().map_values(
                |r: Role|
                    match r {
                        Role::Query => Arg::buffer(0),
                        Role::Key => Arg::buffer(1),
                        Role::Value => Arg::buffer(2),
                        Role::Output => Arg::buffer(3),
                        Role::PageTable => Arg::buffer(4),
                        Role::SeqQ => Arg::word(seq_q),
                        Role::SeqKv => Arg::word(seq_kv),
                        Role::NumHeads => Arg::word(num_heads),
                        Role::NumKvHeads => Arg::word(num_kv_heads),
                        Role::PageSize => Arg::word(page_size),
                        Role::MaxPages => Arg::word(max_pages),
                        Role::Scale => Arg::Scalar(scale),
                        _ => Arg::Word(0),
                    },
            )
            &&& meaning::covers(l.grid.0, 64, seq_q)
            &&& l.grid.1 == num_heads
            &&& l.grid.2 == batch
            &&& l.block == (160int, 1int, 1int)
            &&& l.shared_mem == 0
            &&& l.opt_in is None
            &&& l.failure is None
            &&& l.tensor_maps.len() == 0
        },
{
    shape::lemma_ceil_div(seq_q, 64);
}

/// What the kernel `flash_attn_fp8_v3_paged_kv_causal` takes, in order.
pub open spec fn flash_attn_fp8_v3_paged_kv_causal_takes() -> Seq<Role> {
    seq![
        Role::Query, Role::Key, Role::Value, Role::Output, Role::PageTable, Role::SeqQ,
        Role::SeqKv, Role::NumHeads, Role::NumKvHeads, Role::PageSize, Role::MaxPages,
        Role::Scale,
    ]
}

/// `flash_attn_fp8_v3_paged_kv_causal` launches its kernel with every argument what its role asks
/// for, on blocks that cover the result.
pub proof fn flash_attn_fp8_v3_paged_kv_causal_launches(
    q_len: int, k_len: int, v_len: int, o_len: int, page_table_len: int, batch: int,
    num_heads: int, num_kv_heads: int, seq_q: int, seq_kv: int, page_size: int, max_pages: int,
    scale: F32,
)
    requires
        seq_q >= 0,
    ensures
        paged::flash_attn_fp8_v3_paged_kv_causal_plan(
            q_len, k_len, v_len, o_len, page_table_len, batch, num_heads, num_kv_heads, seq_q,
            seq_kv, page_size, max_pages, scale,
        ) is Launch,
        paged::flash_attn_fp8_v3_paged_kv_causal_plan(
            q_len, k_len, v_len, o_len, page_table_len, batch, num_heads, num_kv_heads, seq_q,
            seq_kv, page_size, max_pages, scale,
        ) matches Plan::Launch(l) ==> {
            &&& l.entry == "flash_attn_fp8_v3_paged_kv_causal"@
            &&& l.kernel == "fa_fp8_v3_paged_kv_causal"@
            &&& l.args =~= flash_attn_fp8_v3_paged_kv_causal_takes().map_values(
                |r: Role|
                    match r {
                        Role::Query => Arg::buffer(0),
                        Role::Key => Arg::buffer(1),
                        Role::Value => Arg::buffer(2),
                        Role::Output => Arg::buffer(3),
                        Role::PageTable => Arg::buffer(4),
                        Role::SeqQ => Arg::word(seq_q),
                        Role::SeqKv => Arg::word(seq_kv),
                        Role::NumHeads => Arg::word(num_heads),
                        Role::NumKvHeads => Arg::word(num_kv_heads),
                        Role::PageSize => Arg::word(page_size),
                        Role::MaxPages => Arg::word(max_pages),
                        Role::Scale => Arg::Scalar(scale),
                        _ => Arg::Word(0),
                    },
            )
            &&& meaning::covers(l.grid.0, 128, seq_q)
            &&& l.grid.1 == num_heads
            &&& l.grid.2 == batch
            &&& l.block == (256int, 1int, 1int)
            &&& l.shared_mem == 0
            &&& l.opt_in is None
            &&& l.failure is None
            &&& l.tensor_maps.len() == 0
        },
{
    shape::lemma_ceil_div(seq_q, 128);
}

/// What the kernel `flash_attn_bf16_v3_split_kv_causal` takes, in order.
pub open spec fn flash_attn_bf16_v3_split_kv_causal_takes() -> Seq<Role> {
    seq![
        Role::Query, Role::Key, Role::Value, Role::OPartial, Role::SeqQ, Role::SeqKv,
        Role::NumHeads, Role::Batch, Role::Scale, Role::LsePartial, Role::NumSplits,
        Role::SplitIdx,
    ]
}

/// `flash_attn_bf16_v3_split_kv_causal` launches its kernel with every argument what its role
/// asks for, on blocks that cover the result.
pub proof fn flash_attn_bf16_v3_split_kv_causal_launches(
    q_len: int, k_len: int, v_len: int, o_partial_len: int, lse_partial_len: int, batch: int,
    num_heads: int, seq_q: int, seq_kv: int, scale: F32, num_splits: int, split_idx: int,
)
    requires
        seq_q >= 0,
    ensures
        paged::flash_attn_bf16_v3_split_kv_causal_plan(
            q_len, k_len, v_len, o_partial_len, lse_partial_len, batch, num_heads, seq_q, seq_kv,
            scale, num_splits, split_idx,
        ) is Launch,
        paged::flash_attn_bf16_v3_split_kv_causal_plan(
            q_len, k_len, v_len, o_partial_len, lse_partial_len, batch, num_heads, seq_q, seq_kv,
            scale, num_splits, split_idx,
        ) matches Plan::Launch(l) ==> {
            &&& l.entry == "flash_attn_bf16_v3_split_kv_causal"@
            &&& l.kernel == "fa_bf16_v3_split_kv_causal"@
            &&& l.args =~= flash_attn_bf16_v3_split_kv_causal_takes().map_values(
                |r: Role|
                    match r {
                        Role::Query => Arg::buffer(0),
                        Role::Key => Arg::buffer(1),
                        Role::Value => Arg::buffer(2),
                        Role::OPartial => Arg::buffer(3),
                        Role::SeqQ => Arg::word(seq_q),
                        Role::SeqKv => Arg::word(seq_kv),
                        Role::NumHeads => Arg::word(num_heads),
                        Role::Batch => Arg::word(batch),
                        Role::Scale => Arg::Scalar(scale),
                        Role::LsePartial => Arg::buffer(4),
                        Role::NumSplits => Arg::word(num_splits),
                        Role::SplitIdx => Arg::word(split_idx),
                        _ => Arg::Word(0),
                    },
            )
            &&& meaning::covers(l.grid.0, 128, seq_q)
            &&& l.grid.1 == num_heads
            &&& l.grid.2 == batch
            &&& l.block == (256int, 1int, 1int)
            &&& l.shared_mem == 0
            &&& l.opt_in is None
            &&& l.failure is None
            &&& l.tensor_maps.len() == 0
        },
{
    shape::lemma_ceil_div(seq_q, 128);
}

/// What the kernel `flash_attn_bf16_v3_split_paged_kv` takes, in order.
pub open spec fn flash_attn_bf16_v3_split_paged_kv_takes() -> Seq<Role> {
    seq![
        Role::Query, Role::Key, Role::Value, Role::OPartial, Role::PageTable, Role::SeqQ,
        Role::SeqKv, Role::NumHeads, Role::NumKvHeads, Role::PageSize, Role::MaxPages,
        Role::Scale, Role::LsePartial, Role::NumSplits, Role::SplitIdx, Role::Batch,
    ]
}

/// `flash_attn_bf16_v3_split_paged_kv` launches its kernel with every argument what its role asks
/// for, on blocks that cover the result.
pub proof fn flash_attn_bf16_v3_split_paged_kv_launches(
    q_len: int, k_len: int, v_len: int, o_partial_len: int, lse_partial_len: int,
    page_table_len: int, batch: int, num_heads: int, num_kv_heads: int, seq_q: int, seq_kv: int,
    page_size: int, max_pages: int, scale: F32, num_splits: int, split_idx: int,
)
    requires
        seq_q >= 0,
    ensures
        paged::flash_attn_bf16_v3_split_paged_kv_plan(
            q_len, k_len, v_len, o_partial_len, lse_partial_len, page_table_len, batch, num_heads,
            num_kv_heads, seq_q, seq_kv, page_size, max_pages, scale, num_splits, split_idx,
        ) is Launch,
        paged::flash_attn_bf16_v3_split_paged_kv_plan(
            q_len, k_len, v_len, o_partial_len, lse_partial_len, page_table_len, batch, num_heads,
            num_kv_heads, seq_q, seq_kv, page_size, max_pages, scale, num_splits, split_idx,
        ) matches Plan::Launch(l) ==> {
            &&& l.entry == "flash_attn_bf16_v3_split_paged_kv"@
            &&& l.kernel == "fa_bf16_v3_split_paged_kv"@
            &&& l.args =~= flash_attn_bf16_v3_split_paged_kv_takes().map_values(
                |r: Role|
                    match r {
                        Role::Query => Arg::buffer(0),
                        Role::Key => Arg::buffer(1),
                        Role::Value => Arg::buffer(2),
                        Role::OPartial => Arg::buffer(3),
                        Role::PageTable => Arg::buffer(5),
                        Role::SeqQ => Arg::word(seq_q),
                        Role::SeqKv => Arg::word(seq_kv),
                        Role::NumHeads => Arg::word(num_heads),
                        Role::NumKvHeads => Arg::word(num_kv_heads),
                        Role::PageSize => Arg::word(page_size),
                        Role::MaxPages => Arg::word(max_pages),
                        Role::Scale => Arg::Scalar(scale),
                        Role::LsePartial => Arg::buffer(4),
                        Role::NumSplits => Arg::word(num_splits),
                        Role::SplitIdx => Arg::word(split_idx),
                        Role::Batch => Arg::word(batch),
                        _ => Arg::Word(0),
                    },
            )
            &&& meaning::covers(l.grid.0, 128, seq_q)
            &&& l.grid.1 == num_heads
            &&& l.grid.2 == batch
            &&& l.block == (256int, 1int, 1int)
            &&& l.shared_mem == 0
            &&& l.opt_in is None
            &&& l.failure is None
            &&& l.tensor_maps.len() == 0
        },
{
    shape::lemma_ceil_div(seq_q, 128);
}

/// What the kernel `flash_attn_bf16_v3_split_paged_kv_causal` takes, in order.
pub open spec fn flash_attn_bf16_v3_split_paged_kv_causal_takes() -> Seq<Role> {
    seq![
        Role::Query, Role::Key, Role::Value, Role::OPartial, Role::PageTable, Role::SeqQ,
        Role::SeqKv, Role::NumHeads, Role::NumKvHeads, Role::PageSize, Role::MaxPages,
        Role::Scale, Role::LsePartial, Role::NumSplits, Role::SplitIdx, Role::Batch,
    ]
}

/// `flash_attn_bf16_v3_split_paged_kv_causal` launches its kernel with every argument what its
/// role asks for, on blocks that cover the result.
pub proof fn flash_attn_bf16_v3_split_paged_kv_causal_launches(
    q_len: int, k_len: int, v_len: int, o_partial_len: int, lse_partial_len: int,
    page_table_len: int, batch: int, num_heads: int, num_kv_heads: int, seq_q: int, seq_kv: int,
    page_size: int, max_pages: int, scale: F32, num_splits: int, split_idx: int,
)
    requires
        seq_q >= 0,
    ensures
        paged::flash_attn_bf16_v3_split_paged_kv_causal_plan(
            q_len, k_len, v_len, o_partial_len, lse_partial_len, page_table_len, batch, num_heads,
            num_kv_heads, seq_q, seq_kv, page_size, max_pages, scale, num_splits, split_idx,
        ) is Launch,
        paged::flash_attn_bf16_v3_split_paged_kv_causal_plan(
            q_len, k_len, v_len, o_partial_len, lse_partial_len, page_table_len, batch, num_heads,
            num_kv_heads, seq_q, seq_kv, page_size, max_pages, scale, num_splits, split_idx,
        ) matches Plan::Launch(l) ==> {
            &&& l.entry == "flash_attn_bf16_v3_split_paged_kv_causal"@
            &&& l.kernel == "fa_bf16_v3_split_paged_kv_causal"@
            &&& l.args =~= flash_attn_bf16_v3_split_paged_kv_causal_takes().map_values(
                |r: Role|
                    match r {
                        Role::Query => Arg::buffer(0),
                        Role::Key => Arg::buffer(1),
                        Role::Value => Arg::buffer(2),
                        Role::OPartial => Arg::buffer(3),
                        Role::PageTable => Arg::buffer(5),
                        Role::SeqQ => Arg::word(seq_q),
                        Role::SeqKv => Arg::word(seq_kv),
                        Role::NumHeads => Arg::word(num_heads),
                        Role::NumKvHeads => Arg::word(num_kv_heads),
                        Role::PageSize => Arg::word(page_size),
                        Role::MaxPages => Arg::word(max_pages),
                        Role::Scale => Arg::Scalar(scale),
                        Role::LsePartial => Arg::buffer(4),
                        Role::NumSplits => Arg::word(num_splits),
                        Role::SplitIdx => Arg::word(split_idx),
                        Role::Batch => Arg::word(batch),
                        _ => Arg::Word(0),
                    },
            )
            &&& meaning::covers(l.grid.0, 128, seq_q)
            &&& l.grid.1 == num_heads
            &&& l.grid.2 == batch
            &&& l.block == (256int, 1int, 1int)
            &&& l.shared_mem == 0
            &&& l.opt_in is None
            &&& l.failure is None
            &&& l.tensor_maps.len() == 0
        },
{
    shape::lemma_ceil_div(seq_q, 128);
}

/// What the kernel `flash_attn_fp8_v3_split_paged_kv` takes, in order.
pub open spec fn flash_attn_fp8_v3_split_paged_kv_takes() -> Seq<Role> {
    seq![
        Role::Query, Role::Key, Role::Value, Role::OPartial, Role::PageTable, Role::SeqQ,
        Role::SeqKv, Role::NumHeads, Role::NumKvHeads, Role::PageSize, Role::MaxPages,
        Role::Scale, Role::LsePartial, Role::NumSplits, Role::SplitIdx, Role::Batch,
    ]
}

/// `flash_attn_fp8_v3_split_paged_kv` launches its kernel with every argument what its role asks
/// for, on blocks that cover the result.
pub proof fn flash_attn_fp8_v3_split_paged_kv_launches(
    q_len: int, k_len: int, v_len: int, o_partial_len: int, lse_partial_len: int,
    page_table_len: int, batch: int, num_heads: int, num_kv_heads: int, seq_q: int, seq_kv: int,
    page_size: int, max_pages: int, scale: F32, num_splits: int, split_idx: int,
)
    requires
        seq_q >= 0,
    ensures
        paged::flash_attn_fp8_v3_split_paged_kv_plan(
            q_len, k_len, v_len, o_partial_len, lse_partial_len, page_table_len, batch, num_heads,
            num_kv_heads, seq_q, seq_kv, page_size, max_pages, scale, num_splits, split_idx,
        ) is Launch,
        paged::flash_attn_fp8_v3_split_paged_kv_plan(
            q_len, k_len, v_len, o_partial_len, lse_partial_len, page_table_len, batch, num_heads,
            num_kv_heads, seq_q, seq_kv, page_size, max_pages, scale, num_splits, split_idx,
        ) matches Plan::Launch(l) ==> {
            &&& l.entry == "flash_attn_fp8_v3_split_paged_kv"@
            &&& l.kernel == "fa_fp8_v3_split_paged_kv"@
            &&& l.args =~= flash_attn_fp8_v3_split_paged_kv_takes().map_values(
                |r: Role|
                    match r {
                        Role::Query => Arg::buffer(0),
                        Role::Key => Arg::buffer(1),
                        Role::Value => Arg::buffer(2),
                        Role::OPartial => Arg::buffer(3),
                        Role::PageTable => Arg::buffer(5),
                        Role::SeqQ => Arg::word(seq_q),
                        Role::SeqKv => Arg::word(seq_kv),
                        Role::NumHeads => Arg::word(num_heads),
                        Role::NumKvHeads => Arg::word(num_kv_heads),
                        Role::PageSize => Arg::word(page_size),
                        Role::MaxPages => Arg::word(max_pages),
                        Role::Scale => Arg::Scalar(scale),
                        Role::LsePartial => Arg::buffer(4),
                        Role::NumSplits => Arg::word(num_splits),
                        Role::SplitIdx => Arg::word(split_idx),
                        Role::Batch => Arg::word(batch),
                        _ => Arg::Word(0),
                    },
            )
            &&& meaning::covers(l.grid.0, 128, seq_q)
            &&& l.grid.1 == num_heads
            &&& l.grid.2 == batch
            &&& l.block == (256int, 1int, 1int)
            &&& l.shared_mem == 0
            &&& l.opt_in is None
            &&& l.failure is None
            &&& l.tensor_maps.len() == 0
        },
{
    shape::lemma_ceil_div(seq_q, 128);
}

/// What the kernel `flash_attn_fp8_v3_split_paged_kv_causal` takes, in order.
pub open spec fn flash_attn_fp8_v3_split_paged_kv_causal_takes() -> Seq<Role> {
    seq![
        Role::Query, Role::Key, Role::Value, Role::OPartial, Role::PageTable, Role::SeqQ,
        Role::SeqKv, Role::NumHeads, Role::NumKvHeads, Role::PageSize, Role::MaxPages,
        Role::Scale, Role::LsePartial, Role::NumSplits, Role::SplitIdx, Role::Batch,
    ]
}

/// `flash_attn_fp8_v3_split_paged_kv_causal` launches its kernel with every argument what its
/// role asks for, on blocks that cover the result.
pub proof fn flash_attn_fp8_v3_split_paged_kv_causal_launches(
    q_len: int, k_len: int, v_len: int, o_partial_len: int, lse_partial_len: int,
    page_table_len: int, batch: int, num_heads: int, num_kv_heads: int, seq_q: int, seq_kv: int,
    page_size: int, max_pages: int, scale: F32, num_splits: int, split_idx: int,
)
    requires
        seq_q >= 0,
    ensures
        paged::flash_attn_fp8_v3_split_paged_kv_causal_plan(
            q_len, k_len, v_len, o_partial_len, lse_partial_len, page_table_len, batch, num_heads,
            num_kv_heads, seq_q, seq_kv, page_size, max_pages, scale, num_splits, split_idx,
        ) is Launch,
        paged::flash_attn_fp8_v3_split_paged_kv_causal_plan(
            q_len, k_len, v_len, o_partial_len, lse_partial_len, page_table_len, batch, num_heads,
            num_kv_heads, seq_q, seq_kv, page_size, max_pages, scale, num_splits, split_idx,
        ) matches Plan::Launch(l) ==> {
            &&& l.entry == "flash_attn_fp8_v3_split_paged_kv_causal"@
            &&& l.kernel == "fa_fp8_v3_split_paged_kv_causal"@
            &&& l.args =~= flash_attn_fp8_v3_split_paged_kv_causal_takes().map_values(
                |r: Role|
                    match r {
                        Role::Query => Arg::buffer(0),
                        Role::Key => Arg::buffer(1),
                        Role::Value => Arg::buffer(2),
                        Role::OPartial => Arg::buffer(3),
                        Role::PageTable => Arg::buffer(5),
                        Role::SeqQ => Arg::word(seq_q),
                        Role::SeqKv => Arg::word(seq_kv),
                        Role::NumHeads => Arg::word(num_heads),
                        Role::NumKvHeads => Arg::word(num_kv_heads),
                        Role::PageSize => Arg::word(page_size),
                        Role::MaxPages => Arg::word(max_pages),
                        Role::Scale => Arg::Scalar(scale),
                        Role::LsePartial => Arg::buffer(4),
                        Role::NumSplits => Arg::word(num_splits),
                        Role::SplitIdx => Arg::word(split_idx),
                        Role::Batch => Arg::word(batch),
                        _ => Arg::Word(0),
                    },
            )
            &&& meaning::covers(l.grid.0, 128, seq_q)
            &&& l.grid.1 == num_heads
            &&& l.grid.2 == batch
            &&& l.block == (256int, 1int, 1int)
            &&& l.shared_mem == 0
            &&& l.opt_in is None
            &&& l.failure is None
            &&& l.tensor_maps.len() == 0
        },
{
    shape::lemma_ceil_div(seq_q, 128);
}

} // verus!
