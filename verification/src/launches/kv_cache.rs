//! What the launches of the key-value cache hand to their kernels.
use crate::kv_cache;
use crate::launches::role::Role;
use crate::plan::{Arg, F32, Plan};
use vstd::prelude::*;

verus! {

/// What the kernel `kv_cache_fp8_write` takes, in order.
pub open spec fn kv_cache_fp8_write_takes() -> Seq<Role> {
    seq![
        Role::NewK, Role::NewV, Role::KCache, Role::VCache, Role::PageIndices, Role::SlotInPage,
        Role::NumHeads, Role::PageSize, Role::KScale, Role::VScale,
    ]
}

/// `kv_cache_fp8_write` launches its kernel exactly where the sizes of the request are right,
/// with every argument what its role asks for, on blocks that cover the result.
pub proof fn kv_cache_fp8_write_launches(
    new_k_len: int, new_v_len: int, k_cache_len: int, v_cache_len: int, page_indices_len: int,
    slot_in_page_len: int, batch: int, num_heads: int, page_size: int, k_scale: F32, v_scale: F32,
)
    ensures
        kv_cache::kv_cache_fp8_write_plan(
            new_k_len, new_v_len, k_cache_len, v_cache_len, page_indices_len, slot_in_page_len,
            batch, num_heads, page_size, k_scale, v_scale,
        ) matches Plan::Fail(f) ==> f is InvalidArgument,
        kv_cache::kv_cache_fp8_write_plan(
            new_k_len, new_v_len, k_cache_len, v_cache_len, page_indices_len, slot_in_page_len,
            batch, num_heads, page_size, k_scale, v_scale,
        ) !is Undefined,
        kv_cache::kv_cache_fp8_write_plan(
            new_k_len, new_v_len, k_cache_len, v_cache_len, page_indices_len, slot_in_page_len,
            batch, num_heads, page_size, k_scale, v_scale,
        ) is Launch <==> {
            &&& batch != 0
            &&& num_heads != 0
            &&& page_size != 0
        },
        kv_cache::kv_cache_fp8_write_plan(
            new_k_len, new_v_len, k_cache_len, v_cache_len, page_indices_len, slot_in_page_len,
            batch, num_heads, page_size, k_scale, v_scale,
        ) matches Plan::Launch(l) ==> {
            &&& l.entry == "kv_cache_fp8_write"@
            &&& l.kernel == "kv_cache_fp8_write"@
            &&& l.args =~= kv_cache_fp8_write_takes().map_values(
                |r: Role|
                    match r {
                        Role::NewK => Arg::buffer(0),
                        Role::NewV => Arg::buffer(1),
                        Role::KCache => Arg::buffer(2),
                        Role::VCache => Arg::buffer(3),
                        Role::PageIndices => Arg::buffer(4),
                        Role::SlotInPage => Arg::buffer(5),
                        Role::NumHeads => Arg::word(num_heads),
                        Role::PageSize => Arg::word(page_size),
                        Role::KScale => Arg::Scalar(k_scale),
                        Role::VScale => Arg::Scalar(v_scale),
                        _ => Arg::Word(0),
                    },
            )
            &&& l.grid.0 == num_heads
            &&& l.grid.1 == batch
            &&& l.grid.2 == 1
            &&& l.block == (32int, 1int, 1int)
            &&& l.shared_mem == 0
            &&& l.opt_in is None
            &&& l.failure is Some
            &&& l.tensor_maps.len() == 0
        },
{
}

/// What the kernel `kv_cache_nvfp4_write` takes, in order.
pub open spec fn kv_cache_nvfp4_write_takes() -> Seq<Role> {
    seq![
        Role::NewK, Role::NewV, Role::KCache, Role::VCache, Role::KScalesIn, Role::VScalesIn,
        Role::KScalesOut, Role::VScalesOut, Role::PageIndices, Role::SlotInPage, Role::NumHeads,
        Role::PageSize,
    ]
}

/// `kv_cache_nvfp4_write` launches its kernel exactly where the sizes of the request are right,
/// with every argument what its role asks for, on blocks that cover the result.
pub proof fn kv_cache_nvfp4_write_launches(
    new_k_len: int, new_v_len: int, k_cache_len: int, v_cache_len: int, k_scales_in_len: int,
    v_scales_in_len: int, k_scales_out_len: int, v_scales_out_len: int, page_indices_len: int,
    slot_in_page_len: int, batch: int, num_heads: int, page_size: int,
)
    ensures
        kv_cache::kv_cache_nvfp4_write_plan(
            new_k_len, new_v_len, k_cache_len, v_cache_len, k_scales_in_len, v_scales_in_len,
            k_scales_out_len, v_scales_out_len, page_indices_len, slot_in_page_len, batch,
            num_heads, page_size,
        ) matches Plan::Fail(f) ==> f is InvalidArgument,
        kv_cache::kv_cache_nvfp4_write_plan(
            new_k_len, new_v_len, k_cache_len, v_cache_len, k_scales_in_len, v_scales_in_len,
            k_scales_out_len, v_scales_out_len, page_indices_len, slot_in_page_len, batch,
            num_heads, page_size,
        ) !is Undefined,
        kv_cache::kv_cache_nvfp4_write_plan(
            new_k_len, new_v_len, k_cache_len, v_cache_len, k_scales_in_len, v_scales_in_len,
            k_scales_out_len, v_scales_out_len, page_indices_len, slot_in_page_len, batch,
            num_heads, page_size,
        ) is Launch <==> {
            &&& batch != 0
            &&& num_heads != 0
            &&& page_size != 0
        },
        kv_cache::kv_cache_nvfp4_write_plan(
            new_k_len, new_v_len, k_cache_len, v_cache_len, k_scales_in_len, v_scales_in_len,
            k_scales_out_len, v_scales_out_len, page_indices_len, slot_in_page_len, batch,
            num_heads, page_size,
        ) matches Plan::Launch(l) ==> {
            &&& l.entry == "kv_cache_nvfp4_write"@
            &&& l.kernel == "kv_cache_nvfp4_write"@
            &&& l.args =~= kv_cache_nvfp4_write_takes().map_values(
                |r: Role|
                    match r {
                        Role::NewK => Arg::buffer(0),
                        Role::NewV => Arg::buffer(1),
                        Role::KCache => Arg::buffer(2),
                        Role::VCache => Arg::buffer(3),
                        Role::KScalesIn => Arg::buffer(4),
                        Role::VScalesIn => Arg::buffer(5),
                        Role::KScalesOut => Arg::buffer(6),
                        Role::VScalesOut => Arg::buffer(7),
                        Role::PageIndices => Arg::buffer(8),
                        Role::SlotInPage => Arg::buffer(9),
                        Role::NumHeads => Arg::word(num_heads),
                        Role::PageSize => Arg::word(page_size),
                        _ => Arg::Word(0),
                    },
            )
            &&& l.grid.0 == num_heads
            &&& l.grid.1 == batch
            &&& l.grid.2 == 1
            &&& l.block == (32int, 1int, 1int)
            &&& l.shared_mem == 0
            &&& l.opt_in is None
            &&& l.failure is Some
            &&& l.tensor_maps.len() == 0
        },
{
}

/// What the kernel `kv_append_strided_bf16` takes, in order.
pub open spec fn kv_append_strided_bf16_takes() -> Seq<Role> {
    seq![
        Role::SrcK, Role::SrcV, Role::DstK, Role::DstV, Role::Position, Role::MaxSeq,
        Role::HeadDim,
    ]
}

/// `kv_append_strided_bf16_full_view` launches its kernel exactly where the sizes of the request
/// are right, with every argument what its role asks for, on blocks that cover the result.
pub proof fn kv_append_strided_bf16_full_view_launches(
    src_k_len: int, src_v_len: int, dst_k_len: int, dst_v_len: int, position: int, max_seq: int,
    num_kv_heads: int, head_dim: int,
)
    ensures
        kv_cache::kv_append_strided_bf16_full_view_plan(
            src_k_len, src_v_len, dst_k_len, dst_v_len, position, max_seq, num_kv_heads, head_dim,
        ) matches Plan::Fail(f) ==> f is InvalidArgument,
        kv_cache::kv_append_strided_bf16_full_view_plan(
            src_k_len, src_v_len, dst_k_len, dst_v_len, position, max_seq, num_kv_heads, head_dim,
        ) is Launch <==> {
            &&& num_kv_heads != 0
            &&& head_dim != 0
            &&& max_seq != 0
            &&& position < max_seq
            &&& head_dim <= 1024
            &&& num_kv_heads * head_dim <= u32::MAX
            &&& num_kv_heads * max_seq <= u32::MAX
            &&& num_kv_heads * max_seq * head_dim <= u32::MAX
            &&& src_k_len >= num_kv_heads * head_dim
            &&& src_v_len >= num_kv_heads * head_dim
            &&& dst_k_len >= num_kv_heads * max_seq * head_dim
            &&& dst_v_len >= num_kv_heads * max_seq * head_dim
        },
        kv_cache::kv_append_strided_bf16_full_view_plan(
            src_k_len, src_v_len, dst_k_len, dst_v_len, position, max_seq, num_kv_heads, head_dim,
        ) matches Plan::Launch(l) ==> {
            &&& l.entry == "kv_append_strided_bf16"@
            &&& l.kernel == "kv_append_strided_bf16"@
            &&& l.args =~= kv_append_strided_bf16_takes().map_values(
                |r: Role|
                    match r {
                        Role::SrcK => Arg::buffer(0),
                        Role::SrcV => Arg::buffer(1),
                        Role::DstK => Arg::buffer(2),
                        Role::DstV => Arg::buffer(3),
                        Role::Position => Arg::word(position),
                        Role::MaxSeq => Arg::word(max_seq),
                        Role::HeadDim => Arg::word(head_dim),
                        _ => Arg::Word(0),
                    },
            )
            &&& l.grid.0 == num_kv_heads
            &&& l.grid.1 == 1
            &&& l.grid.2 == 1
            &&& l.block == (head_dim, 1int, 1int)
            &&& l.shared_mem == 0
            &&& l.opt_in is None
            &&& l.failure is None
            &&& l.tensor_maps.len() == 0
        },
{
}

/// What the kernel `kv_append_strided_fp8` takes, in order.
pub open spec fn kv_append_strided_fp8_takes() -> Seq<Role> {
    seq![
        Role::SrcK, Role::SrcV, Role::DstK, Role::DstV, Role::Position, Role::MaxSeq,
        Role::HeadDim, Role::KScale, Role::VScale,
    ]
}

/// `kv_append_strided_fp8_full_view` launches its kernel exactly where the sizes of the request
/// are right, with every argument what its role asks for, on blocks that cover the result.
pub proof fn kv_append_strided_fp8_full_view_launches(
    src_k_len: int, src_v_len: int, dst_k_len: int, dst_v_len: int, position: int, max_seq: int,
    num_kv_heads: int, head_dim: int, k_scale: F32, v_scale: F32,
)
    ensures
        kv_cache::kv_append_strided_fp8_full_view_plan(
            src_k_len, src_v_len, dst_k_len, dst_v_len, position, max_seq, num_kv_heads, head_dim,
            k_scale, v_scale,
        ) matches Plan::Fail(f) ==> f is InvalidArgument,
        kv_cache::kv_append_strided_fp8_full_view_plan(
            src_k_len, src_v_len, dst_k_len, dst_v_len, position, max_seq, num_kv_heads, head_dim,
            k_scale, v_scale,
        ) is Launch <==> {
            &&& num_kv_heads != 0
            &&& head_dim != 0
            &&& max_seq != 0
            &&& position < max_seq
            &&& head_dim % 2 == 0
            &&& head_dim / 2 <= 1024
            &&& num_kv_heads * head_dim <= u32::MAX
            &&& num_kv_heads * max_seq <= u32::MAX
            &&& num_kv_heads * max_seq * head_dim <= u32::MAX
            &&& src_k_len >= num_kv_heads * head_dim
            &&& src_v_len >= num_kv_heads * head_dim
            &&& dst_k_len >= num_kv_heads * max_seq * head_dim
            &&& dst_v_len >= num_kv_heads * max_seq * head_dim
        },
        kv_cache::kv_append_strided_fp8_full_view_plan(
            src_k_len, src_v_len, dst_k_len, dst_v_len, position, max_seq, num_kv_heads, head_dim,
            k_scale, v_scale,
        ) matches Plan::Launch(l) ==> {
            &&& l.entry == "kv_append_strided_fp8"@
            &&& l.kernel == "kv_append_strided_fp8"@
            &&& l.args =~= kv_append_strided_fp8_takes().map_values(
                |r: Role|
                    match r {
                        Role::SrcK => Arg::buffer(0),
                        Role::SrcV => Arg::buffer(1),
                        Role::DstK => Arg::buffer(2),
                        Role::DstV => Arg::buffer(3),
                        Role::Position => Arg::word(position),
                        Role::MaxSeq => Arg::word(max_seq),
                        Role::HeadDim => Arg::word(head_dim),
                        Role::KScale => Arg::Scalar(k_scale),
                        Role::VScale => Arg::Scalar(v_scale),
                        _ => Arg::Word(0),
                    },
            )
            &&& l.grid.0 == num_kv_heads
            &&& l.grid.1 == 1
            &&& l.grid.2 == 1
            &&& l.block == (head_dim / 2, 1int, 1int)
            &&& l.shared_mem == 0
            &&& l.opt_in is None
            &&& l.failure is None
            &&& l.tensor_maps.len() == 0
        },
{
}

/// `kv_append_strided_bf16_src_view` launches its kernel exactly where the sizes of the request
/// are right, with every argument what its role asks for, on blocks that cover the result.
pub proof fn kv_append_strided_bf16_src_view_launches(
    src_k_len: int, src_v_len: int, dst_k_len: int, dst_v_len: int, position: int, max_seq: int,
    num_kv_heads: int, head_dim: int,
)
    ensures
        kv_cache::kv_append_strided_bf16_src_view_plan(
            src_k_len, src_v_len, dst_k_len, dst_v_len, position, max_seq, num_kv_heads, head_dim,
        ) matches Plan::Fail(f) ==> f is InvalidArgument,
        kv_cache::kv_append_strided_bf16_src_view_plan(
            src_k_len, src_v_len, dst_k_len, dst_v_len, position, max_seq, num_kv_heads, head_dim,
        ) is Launch <==> {
            &&& num_kv_heads != 0
            &&& head_dim != 0
            &&& max_seq != 0
            &&& position < max_seq
            &&& head_dim <= 1024
            &&& num_kv_heads * head_dim <= u32::MAX
            &&& num_kv_heads * max_seq <= u32::MAX
            &&& num_kv_heads * max_seq * head_dim <= u32::MAX
            &&& src_k_len >= num_kv_heads * head_dim
            &&& src_v_len >= num_kv_heads * head_dim
            &&& dst_k_len >= num_kv_heads * max_seq * head_dim
            &&& dst_v_len >= num_kv_heads * max_seq * head_dim
        },
        kv_cache::kv_append_strided_bf16_src_view_plan(
            src_k_len, src_v_len, dst_k_len, dst_v_len, position, max_seq, num_kv_heads, head_dim,
        ) matches Plan::Launch(l) ==> {
            &&& l.entry == "kv_append_strided_bf16"@
            &&& l.kernel == "kv_append_strided_bf16"@
            &&& l.args =~= kv_append_strided_bf16_takes().map_values(
                |r: Role|
                    match r {
                        Role::SrcK => Arg::buffer(0),
                        Role::SrcV => Arg::buffer(1),
                        Role::DstK => Arg::buffer(2),
                        Role::DstV => Arg::buffer(3),
                        Role::Position => Arg::word(position),
                        Role::MaxSeq => Arg::word(max_seq),
                        Role::HeadDim => Arg::word(head_dim),
                        _ => Arg::Word(0),
                    },
            )
            &&& l.grid.0 == num_kv_heads
            &&& l.grid.1 == 1
            &&& l.grid.2 == 1
            &&& l.block == (head_dim, 1int, 1int)
            &&& l.shared_mem == 0
            &&& l.opt_in is None
            &&& l.failure is None
            &&& l.tensor_maps.len() == 0
        },
{
}

/// `kv_append_strided_bf16` launches its kernel exactly where the sizes of the request are right,
/// with every argument what its role asks for, on blocks that cover the result.
pub proof fn kv_append_strided_bf16_launches(
    src_k_len: int, src_v_len: int, dst_k_len: int, dst_v_len: int, position: int, max_seq: int,
    num_kv_heads: int, head_dim: int,
)
    ensures
        kv_cache::kv_append_strided_bf16_plan(
            src_k_len, src_v_len, dst_k_len, dst_v_len, position, max_seq, num_kv_heads, head_dim,
        ) matches Plan::Fail(f) ==> f is InvalidArgument,
        kv_cache::kv_append_strided_bf16_plan(
            src_k_len, src_v_len, dst_k_len, dst_v_len, position, max_seq, num_kv_heads, head_dim,
        ) is Launch <==> {
            &&& num_kv_heads != 0
            &&& head_dim != 0
            &&& max_seq != 0
            &&& position < max_seq
            &&& head_dim <= 1024
            &&& num_kv_heads * head_dim <= u32::MAX
            &&& num_kv_heads * max_seq <= u32::MAX
            &&& num_kv_heads * max_seq * head_dim <= u32::MAX
            &&& src_k_len >= num_kv_heads * head_dim
            &&& src_v_len >= num_kv_heads * head_dim
            &&& dst_k_len >= num_kv_heads * max_seq * head_dim
            &&& dst_v_len >= num_kv_heads * max_seq * head_dim
        },
        kv_cache::kv_append_strided_bf16_plan(
            src_k_len, src_v_len, dst_k_len, dst_v_len, position, max_seq, num_kv_heads, head_dim,
        ) matches Plan::Launch(l) ==> {
            &&& l.entry == "kv_append_strided_bf16"@
            &&& l.kernel == "kv_append_strided_bf16"@
            &&& l.args =~= kv_append_strided_bf16_takes().map_values(
                |r: Role|
                    match r {
                        Role::SrcK => Arg::buffer(0),
                        Role::SrcV => Arg::buffer(1),
                        Role::DstK => Arg::buffer(2),
                        Role::DstV => Arg::buffer(3),
                        Role::Position => Arg::word(position),
                        Role::MaxSeq => Arg::word(max_seq),
                        Role::HeadDim => Arg::word(head_dim),
                        _ => Arg::Word(0),
                    },
            )
            &&& l.grid.0 == num_kv_heads
            &&& l.grid.1 == 1
            &&& l.grid.2 == 1
            &&& l.block == (head_dim, 1int, 1int)
            &&& l.shared_mem == 0
            &&& l.opt_in is None
            &&& l.failure is None
            &&& l.tensor_maps.len() == 0
        },
{
}

/// What the kernel `kv_append_strided_bf16_pos_dev` takes, in order.
pub open spec fn kv_append_strided_bf16_pos_dev_takes() -> Seq<Role> {
    seq![
        Role::SrcK, Role::SrcV, Role::DstK, Role::DstV, Role::PosPtr, Role::MaxSeq, Role::HeadDim,
    ]
}

/// `kv_append_strided_bf16_pos_dev` launches its kernel exactly where the sizes of the request
/// are right, with every argument what its role asks for, on blocks that cover the result.
pub proof fn kv_append_strided_bf16_pos_dev_launches(
    src_k_len: int, src_v_len: int, dst_k_len: int, dst_v_len: int, pos_ptr_len: int,
    max_seq: int, num_kv_heads: int, head_dim: int,
)
    ensures
        kv_cache::kv_append_strided_bf16_pos_dev_plan(
            src_k_len, src_v_len, dst_k_len, dst_v_len, pos_ptr_len, max_seq, num_kv_heads,
            head_dim,
        ) matches Plan::Fail(f) ==> f is InvalidArgument,
        kv_cache::kv_append_strided_bf16_pos_dev_plan(
            src_k_len, src_v_len, dst_k_len, dst_v_len, pos_ptr_len, max_seq, num_kv_heads,
            head_dim,
        ) is Launch <==> {
            &&& num_kv_heads != 0
            &&& head_dim != 0
            &&& max_seq != 0
            &&& head_dim <= 1024
            &&& pos_ptr_len != 0
            &&& num_kv_heads * head_dim <= u32::MAX
            &&& num_kv_heads * max_seq <= u32::MAX
            &&& num_kv_heads * max_seq * head_dim <= u32::MAX
            &&& src_k_len >= num_kv_heads * head_dim
            &&& src_v_len >= num_kv_heads * head_dim
            &&& dst_k_len >= num_kv_heads * max_seq * head_dim
            &&& dst_v_len >= num_kv_heads * max_seq * head_dim
        },
        kv_cache::kv_append_strided_bf16_pos_dev_plan(
            src_k_len, src_v_len, dst_k_len, dst_v_len, pos_ptr_len, max_seq, num_kv_heads,
            head_dim,
        ) matches Plan::Launch(l) ==> {
            &&& l.entry == "kv_append_strided_bf16_pos_dev"@
            &&& l.kernel == "kv_append_strided_bf16_pos_dev"@
            &&& l.args =~= kv_append_strided_bf16_pos_dev_takes().map_values(
                |r: Role|
                    match r {
                        Role::SrcK => Arg::buffer(0),
                        Role::SrcV => Arg::buffer(1),
                        Role::DstK => Arg::buffer(2),
                        Role::DstV => Arg::buffer(3),
                        Role::PosPtr => Arg::buffer(4),
                        Role::MaxSeq => Arg::word(max_seq),
                        Role::HeadDim => Arg::word(head_dim),
                        _ => Arg::Word(0),
                    },
            )
            &&& l.grid.0 == num_kv_heads
            &&& l.grid.1 == 1
            &&& l.grid.2 == 1
            &&& l.block == (head_dim, 1int, 1int)
            &&& l.shared_mem == 0
            &&& l.opt_in is None
            &&& l.failure is None
            &&& l.tensor_maps.len() == 0
        },
{
}

/// `kv_append_strided_fp8` launches its kernel exactly where the sizes of the request are right,
/// with every argument what its role asks for, on blocks that cover the result.
pub proof fn kv_append_strided_fp8_launches(
    src_k_len: int, src_v_len: int, dst_k_len: int, dst_v_len: int, position: int, max_seq: int,
    num_kv_heads: int, head_dim: int, k_scale: F32, v_scale: F32,
)
    ensures
        kv_cache::kv_append_strided_fp8_plan(
            src_k_len, src_v_len, dst_k_len, dst_v_len, position, max_seq, num_kv_heads, head_dim,
            k_scale, v_scale,
        ) matches Plan::Fail(f) ==> f is InvalidArgument,
        kv_cache::kv_append_strided_fp8_plan(
            src_k_len, src_v_len, dst_k_len, dst_v_len, position, max_seq, num_kv_heads, head_dim,
            k_scale, v_scale,
        ) is Launch <==> {
            &&& num_kv_heads != 0
            &&& head_dim != 0
            &&& max_seq != 0
            &&& position < max_seq
            &&& head_dim % 2 == 0
            &&& head_dim / 2 <= 1024
            &&& num_kv_heads * head_dim <= u32::MAX
            &&& num_kv_heads * max_seq <= u32::MAX
            &&& num_kv_heads * max_seq * head_dim <= u32::MAX
            &&& src_k_len >= num_kv_heads * head_dim
            &&& src_v_len >= num_kv_heads * head_dim
            &&& dst_k_len >= num_kv_heads * max_seq * head_dim
            &&& dst_v_len >= num_kv_heads * max_seq * head_dim
        },
        kv_cache::kv_append_strided_fp8_plan(
            src_k_len, src_v_len, dst_k_len, dst_v_len, position, max_seq, num_kv_heads, head_dim,
            k_scale, v_scale,
        ) matches Plan::Launch(l) ==> {
            &&& l.entry == "kv_append_strided_fp8"@
            &&& l.kernel == "kv_append_strided_fp8"@
            &&& l.args =~= kv_append_strided_fp8_takes().map_values(
                |r: Role|
                    match r {
                        Role::SrcK => Arg::buffer(0),
                        Role::SrcV => Arg::buffer(1),
                        Role::DstK => Arg::buffer(2),
                        Role::DstV => Arg::buffer(3),
                        Role::Position => Arg::word(position),
                        Role::MaxSeq => Arg::word(max_seq),
                        Role::HeadDim => Arg::word(head_dim),
                        Role::KScale => Arg::Scalar(k_scale),
                        Role::VScale => Arg::Scalar(v_scale),
                        _ => Arg::Word(0),
                    },
            )
            &&& l.grid.0 == num_kv_heads
            &&& l.grid.1 == 1
            &&& l.grid.2 == 1
            &&& l.block == (head_dim / 2, 1int, 1int)
            &&& l.shared_mem == 0
            &&& l.opt_in is None
            &&& l.failure is None
            &&& l.tensor_maps.len() == 0
        },
{
}

/// What the kernel `kv_append_strided_fp8_pos_dev` takes, in order.
pub open spec fn kv_append_strided_fp8_pos_dev_takes() -> Seq<Role> {
    seq![
        Role::SrcK, Role::SrcV, Role::DstK, Role::DstV, Role::PosPtr, Role::MaxSeq, Role::HeadDim,
        Role::KScale, Role::VScale,
    ]
}

/// `kv_append_strided_fp8_pos_dev` launches its kernel exactly where the sizes of the request are
/// right, with every argument what its role asks for, on blocks that cover the result.
pub proof fn kv_append_strided_fp8_pos_dev_launches(
    src_k_len: int, src_v_len: int, dst_k_len: int, dst_v_len: int, pos_ptr_len: int,
    max_seq: int, num_kv_heads: int, head_dim: int, k_scale: F32, v_scale: F32,
)
    ensures
        kv_cache::kv_append_strided_fp8_pos_dev_plan(
            src_k_len, src_v_len, dst_k_len, dst_v_len, pos_ptr_len, max_seq, num_kv_heads,
            head_dim, k_scale, v_scale,
        ) matches Plan::Fail(f) ==> f is InvalidArgument,
        kv_cache::kv_append_strided_fp8_pos_dev_plan(
            src_k_len, src_v_len, dst_k_len, dst_v_len, pos_ptr_len, max_seq, num_kv_heads,
            head_dim, k_scale, v_scale,
        ) is Launch <==> {
            &&& num_kv_heads != 0
            &&& head_dim != 0
            &&& max_seq != 0
            &&& head_dim % 2 == 0
            &&& head_dim / 2 <= 1024
            &&& pos_ptr_len != 0
            &&& num_kv_heads * head_dim <= u32::MAX
            &&& num_kv_heads * max_seq <= u32::MAX
            &&& num_kv_heads * max_seq * head_dim <= u32::MAX
            &&& src_k_len >= num_kv_heads * head_dim
            &&& src_v_len >= num_kv_heads * head_dim
            &&& dst_k_len >= num_kv_heads * max_seq * head_dim
            &&& dst_v_len >= num_kv_heads * max_seq * head_dim
        },
        kv_cache::kv_append_strided_fp8_pos_dev_plan(
            src_k_len, src_v_len, dst_k_len, dst_v_len, pos_ptr_len, max_seq, num_kv_heads,
            head_dim, k_scale, v_scale,
        ) matches Plan::Launch(l) ==> {
            &&& l.entry == "kv_append_strided_fp8_pos_dev"@
            &&& l.kernel == "kv_append_strided_fp8_pos_dev"@
            &&& l.args =~= kv_append_strided_fp8_pos_dev_takes().map_values(
                |r: Role|
                    match r {
                        Role::SrcK => Arg::buffer(0),
                        Role::SrcV => Arg::buffer(1),
                        Role::DstK => Arg::buffer(2),
                        Role::DstV => Arg::buffer(3),
                        Role::PosPtr => Arg::buffer(4),
                        Role::MaxSeq => Arg::word(max_seq),
                        Role::HeadDim => Arg::word(head_dim),
                        Role::KScale => Arg::Scalar(k_scale),
                        Role::VScale => Arg::Scalar(v_scale),
                        _ => Arg::Word(0),
                    },
            )
            &&& l.grid.0 == num_kv_heads
            &&& l.grid.1 == 1
            &&& l.grid.2 == 1
            &&& l.block == (head_dim / 2, 1int, 1int)
            &&& l.shared_mem == 0
            &&& l.opt_in is None
            &&& l.failure is None
            &&& l.tensor_maps.len() == 0
        },
{
}

/// What the kernel `kv_append_multihead_bf16_pos_dev` takes, in order.
pub open spec fn kv_append_multihead_bf16_pos_dev_takes() -> Seq<Role> {
    seq![Role::Source, Role::Target, Role::PosPtr, Role::MaxSeq, Role::HeadDim]
}

/// `kv_append_multihead_bf16_pos_dev` launches its kernel exactly where the sizes of the request
/// are right, with every argument what its role asks for, on blocks that cover the result.
pub proof fn kv_append_multihead_bf16_pos_dev_launches(
    src_len: int, dst_len: int, pos_ptr_len: int, num_heads_kv: int, max_seq: int, head_dim: int,
)
    ensures
        kv_cache::kv_append_multihead_bf16_pos_dev_plan(
            src_len, dst_len, pos_ptr_len, num_heads_kv, max_seq, head_dim,
        ) matches Plan::Fail(f) ==> f is InvalidArgument,
        kv_cache::kv_append_multihead_bf16_pos_dev_plan(
            src_len, dst_len, pos_ptr_len, num_heads_kv, max_seq, head_dim,
        ) is Launch <==> {
            &&& num_heads_kv != 0
            &&& max_seq != 0
            &&& head_dim != 0
            &&& num_heads_kv * head_dim <= u32::MAX
            &&& num_heads_kv * max_seq <= u32::MAX
            &&& num_heads_kv * max_seq * head_dim <= u32::MAX
            &&& src_len >= num_heads_kv * head_dim
            &&& dst_len >= num_heads_kv * max_seq * head_dim
            &&& pos_ptr_len != 0
        },
        kv_cache::kv_append_multihead_bf16_pos_dev_plan(
            src_len, dst_len, pos_ptr_len, num_heads_kv, max_seq, head_dim,
        ) matches Plan::Launch(l) ==> {
            &&& l.entry == "kv_append_multihead_bf16_pos_dev"@
            &&& l.kernel == "kv_append_multihead_bf16_pos_dev"@
            &&& l.args =~= kv_append_multihead_bf16_pos_dev_takes().map_values(
                |r: Role|
                    match r {
                        Role::Source => Arg::buffer(0),
                        Role::Target => Arg::buffer(1),
                        Role::PosPtr => Arg::buffer(2),
                        Role::MaxSeq => Arg::word(max_seq),
                        Role::HeadDim => Arg::word(head_dim),
                        _ => Arg::Word(0),
                    },
            )
            &&& l.grid.0 == num_heads_kv
            &&& l.grid.1 == 1
            &&& l.grid.2 == 1
            &&& l.block == (head_dim, 1int, 1int)
            &&& l.shared_mem == 0
            &&& l.opt_in is None
            &&& l.failure is None
            &&& l.tensor_maps.len() == 0
        },
{
}

} // verus!
