//! What the launches of `attention::mla` hand to their kernels.
use crate::attention::mla;
use crate::launches::role::Role;
use crate::launches::role;
use crate::plan::{Arg, F32, MapElem, Plan, Swizzle};
use vstd::prelude::*;

verus! {

/// What the kernel `fa_bf16_mla_decode` takes, in order.
pub open spec fn fa_bf16_mla_decode_takes() -> Seq<Role> {
    seq![
        Role::QC, Role::QR, Role::CKv, Role::KRope, Role::Output, Role::NumHeads, Role::SeqKv,
        Role::Scale,
    ]
}

/// `mla_decode_bf16` launches its kernel exactly where the sizes of the request are right, with
/// every argument what its role asks for, on blocks that cover the result.
pub proof fn mla_decode_bf16_launches(
    q_c_len: int, q_r_len: int, c_kv_len: int, k_rope_len: int, o_len: int, batch: int,
    num_heads: int, seq_kv: int, scale: F32,
)
    ensures
        mla::mla_decode_bf16_plan(
            q_c_len, q_r_len, c_kv_len, k_rope_len, o_len, batch, num_heads, seq_kv, scale,
        ) matches Plan::Fail(f) ==> f is InvalidArgument,
        mla::mla_decode_bf16_plan(
            q_c_len, q_r_len, c_kv_len, k_rope_len, o_len, batch, num_heads, seq_kv, scale,
        ) is Launch <==> {
            &&& batch != 0
            &&& num_heads != 0
            &&& seq_kv != 0
            &&& batch * num_heads * 512 <= u64::MAX
            &&& batch * num_heads * 64 <= u64::MAX
            &&& batch * seq_kv * 512 <= u64::MAX
            &&& batch * seq_kv * 64 <= u64::MAX
            &&& q_c_len >= batch * num_heads * 512
            &&& q_r_len >= batch * num_heads * 64
            &&& c_kv_len >= batch * seq_kv * 512
            &&& k_rope_len >= batch * seq_kv * 64
            &&& o_len >= batch * num_heads * 512
        },
        mla::mla_decode_bf16_plan(
            q_c_len, q_r_len, c_kv_len, k_rope_len, o_len, batch, num_heads, seq_kv, scale,
        ) matches Plan::Launch(l) ==> {
            &&& l.entry == "fa_bf16_mla_decode"@
            &&& l.kernel == "fa_bf16_mla_decode"@
            &&& l.args =~= fa_bf16_mla_decode_takes().map_values(
                |r: Role|
                    match r {
                        Role::QC => Arg::buffer(0),
                        Role::QR => Arg::buffer(1),
                        Role::CKv => Arg::buffer(2),
                        Role::KRope => Arg::buffer(3),
                        Role::Output => Arg::buffer(4),
                        Role::NumHeads => Arg::word(num_heads),
                        Role::SeqKv => Arg::word(seq_kv),
                        Role::Scale => Arg::Scalar(scale),
                        _ => Arg::Word(0),
                    },
            )
            &&& l.grid.0 == num_heads
            &&& l.grid.1 == batch
            &&& l.grid.2 == 1
            &&& l.block == (128int, 1int, 1int)
            &&& l.shared_mem == 0
            &&& l.opt_in is None
            &&& l.failure is Some
            &&& l.tensor_maps.len() == 0
        },
{
}

/// What the kernel `fa_bf16_mla_prefill` takes, in order.
pub open spec fn fa_bf16_mla_prefill_takes() -> Seq<Role> {
    seq![
        Role::QC, Role::QR, Role::CKv, Role::KRope, Role::Output, Role::NumHeads, Role::SeqQ,
        Role::SeqKv, Role::Scale,
    ]
}

/// `mla_prefill_bf16` launches its kernel exactly where the sizes of the request are right, with
/// every argument what its role asks for, on blocks that cover the result.
pub proof fn mla_prefill_bf16_launches(
    q_c_len: int, q_r_len: int, c_kv_len: int, k_rope_len: int, o_len: int, batch: int,
    num_heads: int, seq_q: int, seq_kv: int, scale: F32,
)
    ensures
        mla::mla_prefill_bf16_plan(
            q_c_len, q_r_len, c_kv_len, k_rope_len, o_len, batch, num_heads, seq_q, seq_kv, scale,
        ) matches Plan::Fail(f) ==> f is InvalidArgument,
        mla::mla_prefill_bf16_plan(
            q_c_len, q_r_len, c_kv_len, k_rope_len, o_len, batch, num_heads, seq_q, seq_kv, scale,
        ) is Launch <==> {
            &&& batch != 0
            &&& num_heads != 0
            &&& seq_q != 0
            &&& seq_kv != 0
            &&& batch * seq_q * num_heads * 512 <= u64::MAX
            &&& batch * seq_q * num_heads * 64 <= u64::MAX
            &&& batch * seq_kv * 512 <= u64::MAX
            &&& batch * seq_kv * 64 <= u64::MAX
            &&& q_c_len >= batch * seq_q * num_heads * 512
            &&& q_r_len >= batch * seq_q * num_heads * 64
            &&& c_kv_len >= batch * seq_kv * 512
            &&& k_rope_len >= batch * seq_kv * 64
            &&& o_len >= batch * seq_q * num_heads * 512
        },
        mla::mla_prefill_bf16_plan(
            q_c_len, q_r_len, c_kv_len, k_rope_len, o_len, batch, num_heads, seq_q, seq_kv, scale,
        ) matches Plan::Launch(l) ==> {
            &&& l.entry == "fa_bf16_mla_prefill"@
            &&& l.kernel == "fa_bf16_mla_prefill"@
            &&& l.args =~= fa_bf16_mla_prefill_takes().map_values(
                |r: Role|
                    match r {
                        Role::QC => Arg::buffer(0),
                        Role::QR => Arg::buffer(1),
                        Role::CKv => Arg::buffer(2),
                        Role::KRope => Arg::buffer(3),
                        Role::Output => Arg::buffer(4),
                        Role::NumHeads => Arg::word(num_heads),
                        Role::SeqQ => Arg::word(seq_q),
                        Role::SeqKv => Arg::word(seq_kv),
                        Role::Scale => Arg::Scalar(scale),
                        _ => Arg::Word(0),
                    },
            )
            &&& l.grid.0 == seq_q
            &&& l.grid.1 == num_heads
            &&& l.grid.2 == batch
            &&& l.block == (128int, 1int, 1int)
            &&& l.shared_mem == 0
            &&& l.opt_in is None
            &&& l.failure is Some
            &&& l.tensor_maps.len() == 0
        },
{
}

/// What the kernel `fa_fp8kv_mla_decode_mma` takes, in order.
pub open spec fn fa_fp8kv_mla_decode_mma_takes() -> Seq<Role> {
    seq![
        Role::QC, Role::QR, Role::CKv, Role::KRope, Role::Output, Role::NumHeads, Role::SeqKv,
        Role::Scale, Role::KvScale,
    ]
}

/// `mla_decode_fp8kv_mma` launches its kernel exactly where the sizes of the request are right,
/// with every argument what its role asks for, on blocks that cover the result.
pub proof fn mla_decode_fp8kv_mma_launches(
    q_c_len: int, q_r_len: int, c_kv_len: int, k_rope_len: int, o_len: int, batch: int,
    num_heads: int, seq_kv: int, scale: F32, kv_scale: F32,
)
    ensures
        mla::mla_decode_fp8kv_mma_plan(
            q_c_len, q_r_len, c_kv_len, k_rope_len, o_len, batch, num_heads, seq_kv, scale,
            kv_scale,
        ) matches Plan::Fail(f) ==> f is InvalidArgument,
        mla::mla_decode_fp8kv_mma_plan(
            q_c_len, q_r_len, c_kv_len, k_rope_len, o_len, batch, num_heads, seq_kv, scale,
            kv_scale,
        ) !is Undefined,
        mla::mla_decode_fp8kv_mma_plan(
            q_c_len, q_r_len, c_kv_len, k_rope_len, o_len, batch, num_heads, seq_kv, scale,
            kv_scale,
        ) is Launch <==> {
            &&& batch != 0
            &&& num_heads != 0
            &&& seq_kv != 0
            &&& num_heads % 16 == 0
        },
        mla::mla_decode_fp8kv_mma_plan(
            q_c_len, q_r_len, c_kv_len, k_rope_len, o_len, batch, num_heads, seq_kv, scale,
            kv_scale,
        ) matches Plan::Launch(l) ==> {
            &&& l.entry == "fa_fp8kv_mla_decode_mma"@
            &&& l.kernel == "fa_fp8kv_mla_decode_mma"@
            &&& l.args =~= fa_fp8kv_mla_decode_mma_takes().map_values(
                |r: Role|
                    match r {
                        Role::QC => Arg::buffer(0),
                        Role::QR => Arg::buffer(1),
                        Role::CKv => Arg::buffer(2),
                        Role::KRope => Arg::buffer(3),
                        Role::Output => Arg::buffer(4),
                        Role::NumHeads => Arg::word(num_heads),
                        Role::SeqKv => Arg::word(seq_kv),
                        Role::Scale => Arg::Scalar(scale),
                        Role::KvScale => Arg::Scalar(kv_scale),
                        _ => Arg::Word(0),
                    },
            )
            &&& l.grid.0 * 16 == num_heads
            &&& l.grid.1 == batch
            &&& l.grid.2 == 1
            &&& l.block == (128int, 1int, 1int)
            &&& l.shared_mem == 27968
            &&& l.opt_in is Some
            &&& l.failure is Some
            &&& l.tensor_maps.len() == 0
        },
{
}

/// What the kernel `fa_fp8_mla_decode` takes, in order.
pub open spec fn fa_fp8_mla_decode_takes() -> Seq<Role> {
    seq![
        Role::QC, Role::QR, Role::CKv, Role::KRope, Role::Output, Role::NumHeads, Role::SeqKv,
        Role::Scale, Role::KvScale,
    ]
}

/// `mla_decode_fp8` launches its kernel exactly where the sizes of the request are right, with
/// every argument what its role asks for, on blocks that cover the result.
pub proof fn mla_decode_fp8_launches(
    q_c_len: int, q_r_len: int, c_kv_len: int, k_rope_len: int, o_len: int, batch: int,
    num_heads: int, seq_kv: int, scale: F32, kv_scale: F32,
)
    ensures
        mla::mla_decode_fp8_plan(
            q_c_len, q_r_len, c_kv_len, k_rope_len, o_len, batch, num_heads, seq_kv, scale,
            kv_scale,
        ) matches Plan::Fail(f) ==> f is InvalidArgument,
        mla::mla_decode_fp8_plan(
            q_c_len, q_r_len, c_kv_len, k_rope_len, o_len, batch, num_heads, seq_kv, scale,
            kv_scale,
        ) !is Undefined,
        mla::mla_decode_fp8_plan(
            q_c_len, q_r_len, c_kv_len, k_rope_len, o_len, batch, num_heads, seq_kv, scale,
            kv_scale,
        ) is Launch <==> {
            &&& batch != 0
            &&& num_heads != 0
            &&& seq_kv != 0
        },
        mla::mla_decode_fp8_plan(
            q_c_len, q_r_len, c_kv_len, k_rope_len, o_len, batch, num_heads, seq_kv, scale,
            kv_scale,
        ) matches Plan::Launch(l) ==> {
            &&& l.entry == "fa_fp8_mla_decode"@
            &&& l.kernel == "fa_fp8_mla_decode"@
            &&& l.args =~= fa_fp8_mla_decode_takes().map_values(
                |r: Role|
                    match r {
                        Role::QC => Arg::buffer(0),
                        Role::QR => Arg::buffer(1),
                        Role::CKv => Arg::buffer(2),
                        Role::KRope => Arg::buffer(3),
                        Role::Output => Arg::buffer(4),
                        Role::NumHeads => Arg::word(num_heads),
                        Role::SeqKv => Arg::word(seq_kv),
                        Role::Scale => Arg::Scalar(scale),
                        Role::KvScale => Arg::Scalar(kv_scale),
                        _ => Arg::Word(0),
                    },
            )
            &&& l.grid.0 == num_heads
            &&& l.grid.1 == batch
            &&& l.grid.2 == 1
            &&& l.block == (128int, 1int, 1int)
            &&& l.shared_mem == 0
            &&& l.opt_in is None
            &&& l.failure is Some
            &&& l.tensor_maps.len() == 0
        },
{
}

/// What the kernel `fa_bf16_mla_decode_paged` takes, in order.
pub open spec fn fa_bf16_mla_decode_paged_takes() -> Seq<Role> {
    seq![
        Role::QC, Role::QR, Role::CKv, Role::KRope, Role::PageTable, Role::SeqLens, Role::Output,
        Role::NumHeads, Role::MaxPages, Role::PageSize, Role::Scale,
    ]
}

/// `mla_decode_bf16_paged` launches its kernel exactly where the sizes of the request are right,
/// with every argument what its role asks for, on blocks that cover the result.
pub proof fn mla_decode_bf16_paged_launches(
    q_c_len: int, q_r_len: int, c_kv_len: int, k_rope_len: int, page_table_len: int,
    seq_lens_len: int, o_len: int, batch: int, num_heads: int, max_pages: int, page_size: int,
    scale: F32,
)
    ensures
        mla::mla_decode_bf16_paged_plan(
            q_c_len, q_r_len, c_kv_len, k_rope_len, page_table_len, seq_lens_len, o_len, batch,
            num_heads, max_pages, page_size, scale,
        ) matches Plan::Fail(f) ==> f is InvalidArgument,
        mla::mla_decode_bf16_paged_plan(
            q_c_len, q_r_len, c_kv_len, k_rope_len, page_table_len, seq_lens_len, o_len, batch,
            num_heads, max_pages, page_size, scale,
        ) !is Undefined,
        mla::mla_decode_bf16_paged_plan(
            q_c_len, q_r_len, c_kv_len, k_rope_len, page_table_len, seq_lens_len, o_len, batch,
            num_heads, max_pages, page_size, scale,
        ) is Launch <==> {
            &&& batch != 0
            &&& num_heads != 0
            &&& max_pages != 0
            &&& page_size != 0
        },
        mla::mla_decode_bf16_paged_plan(
            q_c_len, q_r_len, c_kv_len, k_rope_len, page_table_len, seq_lens_len, o_len, batch,
            num_heads, max_pages, page_size, scale,
        ) matches Plan::Launch(l) ==> {
            &&& l.entry == "fa_bf16_mla_decode_paged"@
            &&& l.kernel == "fa_bf16_mla_decode_paged"@
            &&& l.args =~= fa_bf16_mla_decode_paged_takes().map_values(
                |r: Role|
                    match r {
                        Role::QC => Arg::buffer(0),
                        Role::QR => Arg::buffer(1),
                        Role::CKv => Arg::buffer(2),
                        Role::KRope => Arg::buffer(3),
                        Role::PageTable => Arg::buffer(4),
                        Role::SeqLens => Arg::buffer(5),
                        Role::Output => Arg::buffer(6),
                        Role::NumHeads => Arg::word(num_heads),
                        Role::MaxPages => Arg::word(max_pages),
                        Role::PageSize => Arg::word(page_size),
                        Role::Scale => Arg::Scalar(scale),
                        _ => Arg::Word(0),
                    },
            )
            &&& l.grid.0 == num_heads
            &&& l.grid.1 == batch
            &&& l.grid.2 == 1
            &&& l.block == (128int, 1int, 1int)
            &&& l.shared_mem == 0
            &&& l.opt_in is None
            &&& l.failure is Some
            &&& l.tensor_maps.len() == 0
        },
{
}

/// What the kernel `fa_bf16_mla_decode_tma` takes, in order.
pub open spec fn fa_bf16_mla_decode_tma_takes() -> Seq<Role> {
    seq![
        Role::QC, Role::QR, Role::CKvTiles, Role::KRopeTiles, Role::Output, Role::NumHeads,
        Role::SeqKv, Role::Scale,
    ]
}

/// `mla_decode_bf16_tma` launches its kernel exactly where the sizes of the request are right,
/// with every argument what its role asks for, on blocks that cover the result.
pub proof fn mla_decode_bf16_tma_launches(
    q_c_len: int, q_r_len: int, c_kv_len: int, k_rope_len: int, o_len: int, batch: int,
    num_heads: int, seq_kv: int, scale: F32,
)
    ensures
        mla::mla_decode_bf16_tma_plan(
            q_c_len, q_r_len, c_kv_len, k_rope_len, o_len, batch, num_heads, seq_kv, scale,
        ) matches Plan::Fail(f) ==> f is InvalidArgument,
        mla::mla_decode_bf16_tma_plan(
            q_c_len, q_r_len, c_kv_len, k_rope_len, o_len, batch, num_heads, seq_kv, scale,
        ) is Launch <==> {
            &&& batch != 0
            &&& num_heads != 0
            &&& seq_kv != 0
            &&& batch * seq_kv <= u32::MAX
        },
        mla::mla_decode_bf16_tma_plan(
            q_c_len, q_r_len, c_kv_len, k_rope_len, o_len, batch, num_heads, seq_kv, scale,
        ) matches Plan::Launch(l) ==> {
            &&& l.entry == "fa_bf16_mla_decode_tma"@
            &&& l.kernel == "fa_bf16_mla_decode_tma"@
            &&& l.args =~= fa_bf16_mla_decode_tma_takes().map_values(
                |r: Role|
                    match r {
                        Role::QC => Arg::buffer(0),
                        Role::QR => Arg::buffer(1),
                        Role::CKvTiles => Arg::Descriptor(0),
                        Role::KRopeTiles => Arg::Descriptor(1),
                        Role::Output => Arg::buffer(4),
                        Role::NumHeads => Arg::word(num_heads),
                        Role::SeqKv => Arg::word(seq_kv),
                        Role::Scale => Arg::Scalar(scale),
                        _ => Arg::Word(0),
                    },
            )
            &&& l.grid.0 == num_heads
            &&& l.grid.1 == batch
            &&& l.grid.2 == 1
            &&& l.block == (128int, 1int, 1int)
            &&& l.shared_mem == 19616
            &&& l.opt_in is Some
            &&& l.failure is Some
            &&& l.tensor_maps.len() == 2
            &&& role::tiles(
                l.tensor_maps[0],
                2,
                MapElem::Bf16,
                batch * seq_kv,
                512,
                8,
                64,
                Swizzle::Plain,
            )
            &&& role::tiles(
                l.tensor_maps[1],
                3,
                MapElem::Bf16,
                batch * seq_kv,
                64,
                8,
                64,
                Swizzle::Plain,
            )
        },
{
}

/// What the kernel `fa_fp8_mla_prefill` takes, in order.
pub open spec fn fa_fp8_mla_prefill_takes() -> Seq<Role> {
    seq![
        Role::QC, Role::QR, Role::CKv, Role::KRope, Role::Output, Role::NumHeads, Role::SeqQ,
        Role::SeqKv, Role::Scale, Role::KvScale,
    ]
}

/// `mla_prefill_fp8` launches its kernel exactly where the sizes of the request are right, with
/// every argument what its role asks for, on blocks that cover the result.
pub proof fn mla_prefill_fp8_launches(
    q_c_len: int, q_r_len: int, c_kv_len: int, k_rope_len: int, o_len: int, batch: int,
    num_heads: int, seq_q: int, seq_kv: int, scale: F32, kv_scale: F32,
)
    ensures
        mla::mla_prefill_fp8_plan(
            q_c_len, q_r_len, c_kv_len, k_rope_len, o_len, batch, num_heads, seq_q, seq_kv, scale,
            kv_scale,
        ) matches Plan::Fail(f) ==> f is InvalidArgument,
        mla::mla_prefill_fp8_plan(
            q_c_len, q_r_len, c_kv_len, k_rope_len, o_len, batch, num_heads, seq_q, seq_kv, scale,
            kv_scale,
        ) !is Undefined,
        mla::mla_prefill_fp8_plan(
            q_c_len, q_r_len, c_kv_len, k_rope_len, o_len, batch, num_heads, seq_q, seq_kv, scale,
            kv_scale,
        ) is Launch <==> {
            &&& batch != 0
            &&& num_heads != 0
            &&& seq_q != 0
            &&& seq_kv != 0
        },
        mla::mla_prefill_fp8_plan(
            q_c_len, q_r_len, c_kv_len, k_rope_len, o_len, batch, num_heads, seq_q, seq_kv, scale,
            kv_scale,
        ) matches Plan::Launch(l) ==> {
            &&& l.entry == "fa_fp8_mla_prefill"@
            &&& l.kernel == "fa_fp8_mla_prefill"@
            &&& l.args =~= fa_fp8_mla_prefill_takes().map_values(
                |r: Role|
                    match r {
                        Role::QC => Arg::buffer(0),
                        Role::QR => Arg::buffer(1),
                        Role::CKv => Arg::buffer(2),
                        Role::KRope => Arg::buffer(3),
                        Role::Output => Arg::buffer(4),
                        Role::NumHeads => Arg::word(num_heads),
                        Role::SeqQ => Arg::word(seq_q),
                        Role::SeqKv => Arg::word(seq_kv),
                        Role::Scale => Arg::Scalar(scale),
                        Role::KvScale => Arg::Scalar(kv_scale),
                        _ => Arg::Word(0),
                    },
            )
            &&& l.grid.0 == seq_q
            &&& l.grid.1 == num_heads
            &&& l.grid.2 == batch
            &&& l.block == (128int, 1int, 1int)
            &&& l.shared_mem == 0
            &&& l.opt_in is None
            &&& l.failure is Some
            &&& l.tensor_maps.len() == 0
        },
{
}

/// What the kernel `mla_split_kv_combine` takes, in order.
pub open spec fn mla_split_kv_combine_takes() -> Seq<Role> {
    seq![Role::OPartial, Role::Lse, Role::OFinal, Role::NumSplits, Role::NumHeads]
}

/// `mla_split_kv_combine` launches its kernel exactly where the sizes of the request are right,
/// with every argument what its role asks for, on blocks that cover the result.
pub proof fn mla_split_kv_combine_launches(
    o_partial_len: int, lse_len: int, o_final_len: int, batch: int, num_heads: int,
    num_splits: int,
)
    ensures
        mla::mla_split_kv_combine_plan(
            o_partial_len, lse_len, o_final_len, batch, num_heads, num_splits,
        ) matches Plan::Fail(f) ==> f is InvalidArgument,
        mla::mla_split_kv_combine_plan(
            o_partial_len, lse_len, o_final_len, batch, num_heads, num_splits,
        ) !is Undefined,
        mla::mla_split_kv_combine_plan(
            o_partial_len, lse_len, o_final_len, batch, num_heads, num_splits,
        ) is Launch <==> {
            &&& batch != 0
            &&& num_heads != 0
            &&& num_splits != 0
            &&& num_splits <= 64
        },
        mla::mla_split_kv_combine_plan(
            o_partial_len, lse_len, o_final_len, batch, num_heads, num_splits,
        ) matches Plan::Launch(l) ==> {
            &&& l.entry == "mla_split_kv_combine"@
            &&& l.kernel == "mla_split_kv_combine"@
            &&& l.args =~= mla_split_kv_combine_takes().map_values(
                |r: Role|
                    match r {
                        Role::OPartial => Arg::buffer(0),
                        Role::Lse => Arg::buffer(1),
                        Role::OFinal => Arg::buffer(2),
                        Role::NumSplits => Arg::word(num_splits),
                        Role::NumHeads => Arg::word(num_heads),
                        _ => Arg::Word(0),
                    },
            )
            &&& l.grid.0 == num_heads
            &&& l.grid.1 == batch
            &&& l.grid.2 == 1
            &&& l.block == (128int, 1int, 1int)
            &&& l.shared_mem == 0
            &&& l.opt_in is None
            &&& l.failure is Some
            &&& l.tensor_maps.len() == 0
        },
{
}

/// What the kernel `fa_bf16_mla_decode_mma_tma_pq` takes, in order.
pub open spec fn fa_bf16_mla_decode_mma_tma_pq_takes() -> Seq<Role> {
    seq![
        Role::QC, Role::QR, Role::CKvTiles, Role::KRopeTiles, Role::Output, Role::NumHeads,
        Role::SeqKv, Role::Scale,
    ]
}

/// `mla_decode_bf16_mma_tma_pq` launches its kernel exactly where the sizes of the request are
/// right, with every argument what its role asks for, on blocks that cover the result.
pub proof fn mla_decode_bf16_mma_tma_pq_launches(
    q_c_len: int, q_r_len: int, c_kv_len: int, k_rope_len: int, o_len: int, batch: int,
    num_heads: int, seq_kv: int, scale: F32,
)
    ensures
        mla::mla_decode_bf16_mma_tma_pq_plan(
            q_c_len, q_r_len, c_kv_len, k_rope_len, o_len, batch, num_heads, seq_kv, scale,
        ) matches Plan::Fail(f) ==> f is InvalidArgument,
        mla::mla_decode_bf16_mma_tma_pq_plan(
            q_c_len, q_r_len, c_kv_len, k_rope_len, o_len, batch, num_heads, seq_kv, scale,
        ) is Launch <==> {
            &&& num_heads % 16 == 0
            &&& batch * seq_kv <= u32::MAX
        },
        mla::mla_decode_bf16_mma_tma_pq_plan(
            q_c_len, q_r_len, c_kv_len, k_rope_len, o_len, batch, num_heads, seq_kv, scale,
        ) matches Plan::Launch(l) ==> {
            &&& l.entry == "fa_bf16_mla_decode_mma_tma_pq"@
            &&& l.kernel == "fa_bf16_mla_decode_mma_tma_pq"@
            &&& l.args =~= fa_bf16_mla_decode_mma_tma_pq_takes().map_values(
                |r: Role|
                    match r {
                        Role::QC => Arg::buffer(0),
                        Role::QR => Arg::buffer(1),
                        Role::CKvTiles => Arg::Descriptor(0),
                        Role::KRopeTiles => Arg::Descriptor(1),
                        Role::Output => Arg::buffer(4),
                        Role::NumHeads => Arg::word(num_heads),
                        Role::SeqKv => Arg::word(seq_kv),
                        Role::Scale => Arg::Scalar(scale),
                        _ => Arg::Word(0),
                    },
            )
            &&& l.grid.0 * 16 == num_heads
            &&& l.grid.1 == batch
            &&& l.grid.2 == 1
            &&& l.block == (128int, 1int, 1int)
            &&& l.shared_mem == 37216
            &&& l.opt_in is Some
            &&& l.failure is Some
            &&& l.tensor_maps.len() == 2
            &&& role::tiles(
                l.tensor_maps[0],
                2,
                MapElem::Bf16,
                batch * seq_kv,
                512,
                8,
                64,
                Swizzle::Bytes128,
            )
            &&& role::tiles(
                l.tensor_maps[1],
                3,
                MapElem::Bf16,
                batch * seq_kv,
                64,
                8,
                64,
                Swizzle::Bytes128,
            )
        },
{
}

/// What the kernel `fa_bf16_mla_decode_mma_tma` takes, in order.
pub open spec fn fa_bf16_mla_decode_mma_tma_takes() -> Seq<Role> {
    seq![
        Role::QC, Role::QR, Role::CKvTiles, Role::KRopeTiles, Role::Output, Role::NumHeads,
        Role::SeqKv, Role::Scale,
    ]
}

/// `mla_decode_bf16_mma_tma` launches its kernel exactly where the sizes of the request are
/// right, with every argument what its role asks for, on blocks that cover the result.
pub proof fn mla_decode_bf16_mma_tma_launches(
    q_c_len: int, q_r_len: int, c_kv_len: int, k_rope_len: int, o_len: int, batch: int,
    num_heads: int, seq_kv: int, scale: F32,
)
    ensures
        mla::mla_decode_bf16_mma_tma_plan(
            q_c_len, q_r_len, c_kv_len, k_rope_len, o_len, batch, num_heads, seq_kv, scale,
        ) matches Plan::Fail(f) ==> f is InvalidArgument,
        mla::mla_decode_bf16_mma_tma_plan(
            q_c_len, q_r_len, c_kv_len, k_rope_len, o_len, batch, num_heads, seq_kv, scale,
        ) is Launch <==> {
            &&& batch != 0
            &&& num_heads != 0
            &&& seq_kv != 0
            &&& num_heads % 16 == 0
            &&& batch * seq_kv <= u32::MAX
        },
        mla::mla_decode_bf16_mma_tma_plan(
            q_c_len, q_r_len, c_kv_len, k_rope_len, o_len, batch, num_heads, seq_kv, scale,
        ) matches Plan::Launch(l) ==> {
            &&& l.entry == "fa_bf16_mla_decode_mma_tma"@
            &&& l.kernel == "fa_bf16_mla_decode_mma_tma"@
            &&& l.args =~= fa_bf16_mla_decode_mma_tma_takes().map_values(
                |r: Role|
                    match r {
                        Role::QC => Arg::buffer(0),
                        Role::QR => Arg::buffer(1),
                        Role::CKvTiles => Arg::Descriptor(0),
                        Role::KRopeTiles => Arg::Descriptor(1),
                        Role::Output => Arg::buffer(4),
                        Role::NumHeads => Arg::word(num_heads),
                        Role::SeqKv => Arg::word(seq_kv),
                        Role::Scale => Arg::Scalar(scale),
                        _ => Arg::Word(0),
                    },
            )
            &&& l.grid.0 * 16 == num_heads
            &&& l.grid.1 == batch
            &&& l.grid.2 == 1
            &&& l.block == (128int, 1int, 1int)
            &&& l.shared_mem == 37216
            &&& l.opt_in is Some
            &&& l.failure is Some
            &&& l.tensor_maps.len() == 2
            &&& role::tiles(
                l.tensor_maps[0],
                2,
                MapElem::Bf16,
                batch * seq_kv,
                512,
                8,
                64,
                Swizzle::Bytes128,
            )
            &&& role::tiles(
                l.tensor_maps[1],
                3,
                MapElem::Bf16,
                batch * seq_kv,
                64,
                8,
                64,
                Swizzle::Bytes128,
            )
        },
{
}

/// What the kernel `fa_bf16_mla_decode_mma` takes, in order.
pub open spec fn fa_bf16_mla_decode_mma_takes() -> Seq<Role> {
    seq![
        Role::QC, Role::QR, Role::CKv, Role::KRope, Role::Output, Role::NumHeads, Role::SeqKv,
        Role::Scale,
    ]
}

/// `mla_decode_bf16_mma` launches its kernel exactly where the sizes of the request are right,
/// with every argument what its role asks for, on blocks that cover the result.
pub proof fn mla_decode_bf16_mma_launches(
    q_c_len: int, q_r_len: int, c_kv_len: int, k_rope_len: int, o_len: int, batch: int,
    num_heads: int, seq_kv: int, scale: F32,
)
    ensures
        mla::mla_decode_bf16_mma_plan(
            q_c_len, q_r_len, c_kv_len, k_rope_len, o_len, batch, num_heads, seq_kv, scale,
        ) matches Plan::Fail(f) ==> f is InvalidArgument,
        mla::mla_decode_bf16_mma_plan(
            q_c_len, q_r_len, c_kv_len, k_rope_len, o_len, batch, num_heads, seq_kv, scale,
        ) !is Undefined,
        mla::mla_decode_bf16_mma_plan(
            q_c_len, q_r_len, c_kv_len, k_rope_len, o_len, batch, num_heads, seq_kv, scale,
        ) is Launch <==> {
            &&& batch != 0
            &&& num_heads != 0
            &&& seq_kv != 0
            &&& num_heads % 16 == 0
        },
        mla::mla_decode_bf16_mma_plan(
            q_c_len, q_r_len, c_kv_len, k_rope_len, o_len, batch, num_heads, seq_kv, scale,
        ) matches Plan::Launch(l) ==> {
            &&& l.entry == "fa_bf16_mla_decode_mma"@
            &&& l.kernel == "fa_bf16_mla_decode_mma"@
            &&& l.args =~= fa_bf16_mla_decode_mma_takes().map_values(
                |r: Role|
                    match r {
                        Role::QC => Arg::buffer(0),
                        Role::QR => Arg::buffer(1),
                        Role::CKv => Arg::buffer(2),
                        Role::KRope => Arg::buffer(3),
                        Role::Output => Arg::buffer(4),
                        Role::NumHeads => Arg::word(num_heads),
                        Role::SeqKv => Arg::word(seq_kv),
                        Role::Scale => Arg::Scalar(scale),
                        _ => Arg::Word(0),
                    },
            )
            &&& l.grid.0 * 16 == num_heads
            &&& l.grid.1 == batch
            &&& l.grid.2 == 1
            &&& l.block == (128int, 1int, 1int)
            &&& l.shared_mem == 27968
            &&& l.opt_in is Some
            &&& l.failure is Some
            &&& l.tensor_maps.len() == 0
        },
{
}

/// What the kernel `fa_bf16_mla_decode_mma_qk` takes, in order.
pub open spec fn fa_bf16_mla_decode_mma_qk_takes() -> Seq<Role> {
    seq![
        Role::QC, Role::QR, Role::CKv, Role::KRope, Role::Scores, Role::NumHeads, Role::SeqKv,
        Role::Scale,
    ]
}

/// `mla_decode_bf16_mma_qk` launches its kernel exactly where the sizes of the request are right,
/// with every argument what its role asks for, on blocks that cover the result.
pub proof fn mla_decode_bf16_mma_qk_launches(
    q_c_len: int, q_r_len: int, c_kv_len: int, k_rope_len: int, scores_len: int, batch: int,
    num_heads: int, seq_kv: int, scale: F32,
)
    ensures
        mla::mla_decode_bf16_mma_qk_plan(
            q_c_len, q_r_len, c_kv_len, k_rope_len, scores_len, batch, num_heads, seq_kv, scale,
        ) matches Plan::Fail(f) ==> f is InvalidArgument,
        mla::mla_decode_bf16_mma_qk_plan(
            q_c_len, q_r_len, c_kv_len, k_rope_len, scores_len, batch, num_heads, seq_kv, scale,
        ) !is Undefined,
        mla::mla_decode_bf16_mma_qk_plan(
            q_c_len, q_r_len, c_kv_len, k_rope_len, scores_len, batch, num_heads, seq_kv, scale,
        ) is Launch <==> {
            &&& batch != 0
            &&& num_heads != 0
            &&& seq_kv != 0
            &&& num_heads % 16 == 0
        },
        mla::mla_decode_bf16_mma_qk_plan(
            q_c_len, q_r_len, c_kv_len, k_rope_len, scores_len, batch, num_heads, seq_kv, scale,
        ) matches Plan::Launch(l) ==> {
            &&& l.entry == "fa_bf16_mla_decode_mma_qk"@
            &&& l.kernel == "fa_bf16_mla_decode_mma_qk"@
            &&& l.args =~= fa_bf16_mla_decode_mma_qk_takes().map_values(
                |r: Role|
                    match r {
                        Role::QC => Arg::buffer(0),
                        Role::QR => Arg::buffer(1),
                        Role::CKv => Arg::buffer(2),
                        Role::KRope => Arg::buffer(3),
                        Role::Scores => Arg::buffer(4),
                        Role::NumHeads => Arg::word(num_heads),
                        Role::SeqKv => Arg::word(seq_kv),
                        Role::Scale => Arg::Scalar(scale),
                        _ => Arg::Word(0),
                    },
            )
            &&& l.grid.0 * 16 == num_heads
            &&& l.grid.1 == batch
            &&& l.grid.2 == 1
            &&& l.block == (128int, 1int, 1int)
            &&& l.shared_mem == 28160
            &&& l.opt_in is Some
            &&& l.failure is Some
            &&& l.tensor_maps.len() == 0
        },
{
}

/// What the kernel `fa_fp8_mla_decode_mma_v3` takes, in order.
pub open spec fn fa_fp8_mla_decode_mma_v3_takes() -> Seq<Role> {
    seq![
        Role::QC, Role::QR, Role::CKv, Role::KRope, Role::Output, Role::NumHeads, Role::SeqKv,
        Role::Scale, Role::QScale, Role::KvScale,
    ]
}

/// `fa_fp8_mla_decode_mma_v3` launches its kernel exactly where the sizes of the request are
/// right, with every argument what its role asks for, on blocks that cover the result.
pub proof fn fa_fp8_mla_decode_mma_v3_launches(
    q_c_len: int, q_r_len: int, c_kv_len: int, k_rope_len: int, o_len: int, batch: int,
    num_heads: int, seq_kv: int, scale: F32, q_scale: F32, kv_scale: F32,
)
    ensures
        mla::fa_fp8_mla_decode_mma_v3_plan(
            q_c_len, q_r_len, c_kv_len, k_rope_len, o_len, batch, num_heads, seq_kv, scale,
            q_scale, kv_scale,
        ) matches Plan::Fail(f) ==> f is InvalidArgument,
        mla::fa_fp8_mla_decode_mma_v3_plan(
            q_c_len, q_r_len, c_kv_len, k_rope_len, o_len, batch, num_heads, seq_kv, scale,
            q_scale, kv_scale,
        ) !is Undefined,
        mla::fa_fp8_mla_decode_mma_v3_plan(
            q_c_len, q_r_len, c_kv_len, k_rope_len, o_len, batch, num_heads, seq_kv, scale,
            q_scale, kv_scale,
        ) is Launch <==> {
            &&& batch != 0
            &&& num_heads != 0
            &&& seq_kv != 0
            &&& num_heads % 16 == 0
        },
        mla::fa_fp8_mla_decode_mma_v3_plan(
            q_c_len, q_r_len, c_kv_len, k_rope_len, o_len, batch, num_heads, seq_kv, scale,
            q_scale, kv_scale,
        ) matches Plan::Launch(l) ==> {
            &&& l.entry == "fa_fp8_mla_decode_mma_v3"@
            &&& l.kernel == "fa_fp8_mla_decode_mma_v3"@
            &&& l.args =~= fa_fp8_mla_decode_mma_v3_takes().map_values(
                |r: Role|
                    match r {
                        Role::QC => Arg::buffer(0),
                        Role::QR => Arg::buffer(1),
                        Role::CKv => Arg::buffer(2),
                        Role::KRope => Arg::buffer(3),
                        Role::Output => Arg::buffer(4),
                        Role::NumHeads => Arg::word(num_heads),
                        Role::SeqKv => Arg::word(seq_kv),
                        Role::Scale => Arg::Scalar(scale),
                        Role::QScale => Arg::Scalar(q_scale),
                        Role::KvScale => Arg::Scalar(kv_scale),
                        _ => Arg::Word(0),
                    },
            )
            &&& l.grid.0 * 16 == num_heads
            &&& l.grid.1 == batch
            &&& l.grid.2 == 1
            &&& l.block == (128int, 1int, 1int)
            &&& l.shared_mem == 0
            &&& l.opt_in is None
            &&& l.failure is None
            &&& l.tensor_maps.len() == 0
        },
{
}

/// What the kernel `fa_fp8_mla_decode_mma_v2` takes, in order.
pub open spec fn fa_fp8_mla_decode_mma_v2_takes() -> Seq<Role> {
    seq![
        Role::QC, Role::QR, Role::CKv, Role::KRope, Role::Output, Role::NumHeads, Role::SeqKv,
        Role::Scale, Role::QScale, Role::KvScale,
    ]
}

/// `fa_fp8_mla_decode_mma_v2` launches its kernel exactly where the sizes of the request are
/// right, with every argument what its role asks for, on blocks that cover the result.
pub proof fn fa_fp8_mla_decode_mma_v2_launches(
    q_c_len: int, q_r_len: int, c_kv_len: int, k_rope_len: int, o_len: int, batch: int,
    num_heads: int, seq_kv: int, scale: F32, q_scale: F32, kv_scale: F32,
)
    ensures
        mla::fa_fp8_mla_decode_mma_v2_plan(
            q_c_len, q_r_len, c_kv_len, k_rope_len, o_len, batch, num_heads, seq_kv, scale,
            q_scale, kv_scale,
        ) matches Plan::Fail(f) ==> f is InvalidArgument,
        mla::fa_fp8_mla_decode_mma_v2_plan(
            q_c_len, q_r_len, c_kv_len, k_rope_len, o_len, batch, num_heads, seq_kv, scale,
            q_scale, kv_scale,
        ) !is Undefined,
        mla::fa_fp8_mla_decode_mma_v2_plan(
            q_c_len, q_r_len, c_kv_len, k_rope_len, o_len, batch, num_heads, seq_kv, scale,
            q_scale, kv_scale,
        ) is Launch <==> {
            &&& batch != 0
            &&& num_heads != 0
            &&& seq_kv != 0
            &&& num_heads % 16 == 0
        },
        mla::fa_fp8_mla_decode_mma_v2_plan(
            q_c_len, q_r_len, c_kv_len, k_rope_len, o_len, batch, num_heads, seq_kv, scale,
            q_scale, kv_scale,
        ) matches Plan::Launch(l) ==> {
            &&& l.entry == "fa_fp8_mla_decode_mma_v2"@
            &&& l.kernel == "fa_fp8_mla_decode_mma_v2"@
            &&& l.args =~= fa_fp8_mla_decode_mma_v2_takes().map_values(
                |r: Role|
                    match r {
                        Role::QC => Arg::buffer(0),
                        Role::QR => Arg::buffer(1),
                        Role::CKv => Arg::buffer(2),
                        Role::KRope => Arg::buffer(3),
                        Role::Output => Arg::buffer(4),
                        Role::NumHeads => Arg::word(num_heads),
                        Role::SeqKv => Arg::word(seq_kv),
                        Role::Scale => Arg::Scalar(scale),
                        Role::QScale => Arg::Scalar(q_scale),
                        Role::KvScale => Arg::Scalar(kv_scale),
                        _ => Arg::Word(0),
                    },
            )
            &&& l.grid.0 * 16 == num_heads
            &&& l.grid.1 == batch
            &&& l.grid.2 == 1
            &&& l.block == (32int, 1int, 1int)
            &&& l.shared_mem == 0
            &&& l.opt_in is None
            &&& l.failure is None
            &&& l.tensor_maps.len() == 0
        },
{
}

} // verus!
