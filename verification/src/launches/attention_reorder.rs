//! What the launches of `attention::reorder` hand to their kernels.
use crate::attention::reorder;
use crate::launches::role::Role;
use crate::plan::{Arg, Plan};
use crate::shape;
use vstd::prelude::*;

verus! {

/// What the kernel `permute_thd_to_htd_bf16` takes, in order.
pub open spec fn permute_thd_to_htd_bf16_takes() -> Seq<Role> {
    seq![Role::Source, Role::Target, Role::Tokens, Role::Heads, Role::Width]
}

/// `permute_thd_to_htd_bf16_view` launches its kernel with every argument what its role asks for,
/// on blocks that cover the result.
pub proof fn permute_thd_to_htd_bf16_view_launches(
    src_len: int, dst_len: int, t: int, h: int, d: int,
)
    ensures
        reorder::permute_thd_to_htd_bf16_view_plan(
            src_len, dst_len, t, h, d,
        ) is Launch,
        reorder::permute_thd_to_htd_bf16_view_plan(
            src_len, dst_len, t, h, d,
        ) matches Plan::Launch(l) ==> {
            &&& l.entry == "permute_thd_to_htd_bf16"@
            &&& l.kernel == "permute_thd_htd_bf16"@
            &&& l.args =~= permute_thd_to_htd_bf16_takes().map_values(
                |r: Role|
                    match r {
                        Role::Source => Arg::buffer(0),
                        Role::Target => Arg::buffer(1),
                        Role::Tokens => Arg::word(t),
                        Role::Heads => Arg::word(h),
                        Role::Width => Arg::word(d),
                        _ => Arg::Word(0),
                    },
            )
            &&& l.grid.0 == t
            &&& l.grid.1 == h
            &&& l.grid.2 == 1
            &&& l.block == (shape::greater(shape::lesser(256, d), 32), 1int, 1int)
            &&& l.shared_mem == 0
            &&& l.opt_in is None
            &&& l.failure is None
            &&& l.tensor_maps.len() == 0
        },
{
}

/// What the kernel `permute_htd_to_thd_bf16` takes, in order.
pub open spec fn permute_htd_to_thd_bf16_takes() -> Seq<Role> {
    seq![Role::Source, Role::Target, Role::Tokens, Role::Heads, Role::Width]
}

/// `permute_htd_to_thd_bf16_view` launches its kernel with every argument what its role asks for,
/// on blocks that cover the result.
pub proof fn permute_htd_to_thd_bf16_view_launches(
    src_len: int, dst_len: int, t: int, h: int, d: int,
)
    ensures
        reorder::permute_htd_to_thd_bf16_view_plan(
            src_len, dst_len, t, h, d,
        ) is Launch,
        reorder::permute_htd_to_thd_bf16_view_plan(
            src_len, dst_len, t, h, d,
        ) matches Plan::Launch(l) ==> {
            &&& l.entry == "permute_htd_to_thd_bf16"@
            &&& l.kernel == "permute_thd_htd_bf16"@
            &&& l.args =~= permute_htd_to_thd_bf16_takes().map_values(
                |r: Role|
                    match r {
                        Role::Source => Arg::buffer(0),
                        Role::Target => Arg::buffer(1),
                        Role::Tokens => Arg::word(t),
                        Role::Heads => Arg::word(h),
                        Role::Width => Arg::word(d),
                        _ => Arg::Word(0),
                    },
            )
            &&& l.grid.0 == t
            &&& l.grid.1 == h
            &&& l.grid.2 == 1
            &&& l.block == (shape::greater(shape::lesser(256, d), 32), 1int, 1int)
            &&& l.shared_mem == 0
            &&& l.opt_in is None
            &&& l.failure is None
            &&& l.tensor_maps.len() == 0
        },
{
}

/// What the kernel `paged_kv_gather_bf16` takes, in order.
pub open spec fn paged_kv_gather_bf16_takes() -> Seq<Role> {
    seq![
        Role::KvPaged, Role::KvOut, Role::PageTable, Role::NumKvHeads, Role::Width,
        Role::PageSize, Role::MaxPages, Role::SKv,
    ]
}

/// `paged_kv_gather_bf16` launches its kernel exactly where the sizes of the request are right,
/// with every argument what its role asks for, on blocks that cover the result.
pub proof fn paged_kv_gather_bf16_launches(
    kv_paged_len: int, kv_out_len: int, page_table_len: int, batch: int, num_kv_heads: int,
    d: int, page_size: int, max_pages: int, s_kv: int,
)
    ensures
        reorder::paged_kv_gather_bf16_plan(
            kv_paged_len, kv_out_len, page_table_len, batch, num_kv_heads, d, page_size,
            max_pages, s_kv,
        ) matches Plan::Fail(f) ==> f is InvalidArgument,
        reorder::paged_kv_gather_bf16_plan(
            kv_paged_len, kv_out_len, page_table_len, batch, num_kv_heads, d, page_size,
            max_pages, s_kv,
        ) is Launch <==> {
            &&& num_kv_heads * d <= u32::MAX
        },
        reorder::paged_kv_gather_bf16_plan(
            kv_paged_len, kv_out_len, page_table_len, batch, num_kv_heads, d, page_size,
            max_pages, s_kv,
        ) matches Plan::Launch(l) ==> {
            &&& l.entry == "paged_kv_gather_bf16"@
            &&& l.kernel == "paged_kv_gather_bf16"@
            &&& l.args =~= paged_kv_gather_bf16_takes().map_values(
                |r: Role|
                    match r {
                        Role::KvPaged => Arg::buffer(0),
                        Role::KvOut => Arg::buffer(1),
                        Role::PageTable => Arg::buffer(2),
                        Role::NumKvHeads => Arg::word(num_kv_heads),
                        Role::Width => Arg::word(d),
                        Role::PageSize => Arg::word(page_size),
                        Role::MaxPages => Arg::word(max_pages),
                        Role::SKv => Arg::word(s_kv),
                        _ => Arg::Word(0),
                    },
            )
            &&& l.grid.0 == s_kv
            &&& l.grid.1 == batch
            &&& l.grid.2 == 1
            &&& l.block == (shape::lesser(256, shape::greater(num_kv_heads * d, 32)), 1int, 1int)
            &&& l.shared_mem == 0
            &&& l.opt_in is None
            &&& l.failure is None
            &&& l.tensor_maps.len() == 0
        },
{
}

/// What the kernel `paged_kv_scatter_bf16` takes, in order.
pub open spec fn paged_kv_scatter_bf16_takes() -> Seq<Role> {
    seq![
        Role::DkvIn, Role::DkvPaged, Role::PageTable, Role::NumKvHeads, Role::Width,
        Role::PageSize, Role::MaxPages, Role::SKv,
    ]
}

/// `paged_kv_scatter_bf16` launches its kernel exactly where the sizes of the request are right,
/// with every argument what its role asks for, on blocks that cover the result.
pub proof fn paged_kv_scatter_bf16_launches(
    dkv_in_len: int, dkv_paged_len: int, page_table_len: int, batch: int, num_kv_heads: int,
    d: int, page_size: int, max_pages: int, s_kv: int,
)
    ensures
        reorder::paged_kv_scatter_bf16_plan(
            dkv_in_len, dkv_paged_len, page_table_len, batch, num_kv_heads, d, page_size,
            max_pages, s_kv,
        ) matches Plan::Fail(f) ==> f is InvalidArgument,
        reorder::paged_kv_scatter_bf16_plan(
            dkv_in_len, dkv_paged_len, page_table_len, batch, num_kv_heads, d, page_size,
            max_pages, s_kv,
        ) is Launch <==> {
            &&& num_kv_heads * d <= u32::MAX
        },
        reorder::paged_kv_scatter_bf16_plan(
            dkv_in_len, dkv_paged_len, page_table_len, batch, num_kv_heads, d, page_size,
            max_pages, s_kv,
        ) matches Plan::Launch(l) ==> {
            &&& l.entry == "paged_kv_scatter_bf16"@
            &&& l.kernel == "paged_kv_scatter_atomic_bf16"@
            &&& l.args =~= paged_kv_scatter_bf16_takes().map_values(
                |r: Role|
                    match r {
                        Role::DkvIn => Arg::buffer(0),
                        Role::DkvPaged => Arg::buffer(1),
                        Role::PageTable => Arg::buffer(2),
                        Role::NumKvHeads => Arg::word(num_kv_heads),
                        Role::Width => Arg::word(d),
                        Role::PageSize => Arg::word(page_size),
                        Role::MaxPages => Arg::word(max_pages),
                        Role::SKv => Arg::word(s_kv),
                        _ => Arg::Word(0),
                    },
            )
            &&& l.grid.0 == s_kv
            &&& l.grid.1 == batch
            &&& l.grid.2 == 1
            &&& l.block == (shape::lesser(256, shape::greater(num_kv_heads * d, 32)), 1int, 1int)
            &&& l.shared_mem == 0
            &&& l.opt_in is None
            &&& l.failure is None
            &&& l.tensor_maps.len() == 0
        },
{
}

} // verus!
