//! Kernels that reorder attention tensors.
use crate::error::Result;
use crate::plan::{Arg, Launch, Plan};
use crate::plan;
use crate::shape;
use vstd::prelude::*;

verus! {

/// The answer of [`permute_thd_to_htd_bf16_view`].
pub open spec fn permute_thd_to_htd_bf16_view_plan(
    src_len: int, dst_len: int, t: int, h: int, d: int,
) -> Plan {
    Plan::launch(
        "permute_thd_htd_bf16"@,
        "permute_thd_to_htd_bf16"@,
        (t, h, 1),
        (shape::greater(shape::lesser(256, d), 32), 1, 1),
        0,
        seq![Arg::buffer(0), Arg::buffer(1), Arg::word(t), Arg::word(h), Arg::word(d)],
    )
}

/// View variant of permute helper for slicing into a packed total buffer.
pub fn permute_thd_to_htd_bf16_view(
    src_len: usize,
    dst_len: usize,
    t: u32,
    h: u32,
    d: u32,
) -> (r: Result<Launch>)
    ensures
        plan::outcome(r) == permute_thd_to_htd_bf16_view_plan(
            src_len as int, dst_len as int, t as int, h as int, d as int,
        ),
        t > 0 && h > 0 ==> plan::launchable(r, 2),
{
    let threads: u32 = shape::greater_of(shape::lesser_of(256, d), 32);
    assert(threads * 1 * 1 <= 1024);
    Ok(
        Launch::new(
            "permute_thd_htd_bf16",
            "permute_thd_to_htd_bf16",
            (t, h, 1),
            (threads, 1, 1),
            0,
            vec![Arg::param(0), Arg::param(1), Arg::Word(t), Arg::Word(h), Arg::Word(d)],
        ),
    )
}

/// The answer of [`permute_htd_to_thd_bf16_view`].
pub open spec fn permute_htd_to_thd_bf16_view_plan(
    src_len: int, dst_len: int, t: int, h: int, d: int,
) -> Plan {
    Plan::launch(
        "permute_thd_htd_bf16"@,
        "permute_htd_to_thd_bf16"@,
        (t, h, 1),
        (shape::greater(shape::lesser(256, d), 32), 1, 1),
        0,
        seq![Arg::buffer(0), Arg::buffer(1), Arg::word(t), Arg::word(h), Arg::word(d)],
    )
}

/// Helper: permute `[H, T, D]` -> `[T, H, D]`. Inverse of
/// `permute_thd_to_htd_bf16`.
pub fn permute_htd_to_thd_bf16_view(
    src_len: usize,
    dst_len: usize,
    t: u32,
    h: u32,
    d: u32,
) -> (r: Result<Launch>)
    ensures
        plan::outcome(r) == permute_htd_to_thd_bf16_view_plan(
            src_len as int, dst_len as int, t as int, h as int, d as int,
        ),
        t > 0 && h > 0 ==> plan::launchable(r, 2),
{
    let threads: u32 = shape::greater_of(shape::lesser_of(256, d), 32);
    assert(threads * 1 * 1 <= 1024);
    Ok(
        Launch::new(
            "permute_thd_htd_bf16",
            "permute_htd_to_thd_bf16",
            (t, h, 1),
            (threads, 1, 1),
            0,
            vec![Arg::param(0), Arg::param(1), Arg::Word(t), Arg::Word(h), Arg::Word(d)],
        ),
    )
}

/// The answer of [`paged_kv_gather_bf16`].
pub open spec fn paged_kv_gather_bf16_plan(
    kv_paged_len: int, kv_out_len: int, page_table_len: int, batch: int, num_kv_heads: int, d: int,
    page_size: int, max_pages: int, s_kv: int,
) -> Plan {
    if num_kv_heads * d > u32::MAX {
        Plan::Undefined
    } else {
        Plan::launch(
            "paged_kv_gather_bf16"@,
            "paged_kv_gather_bf16"@,
            (s_kv, batch, 1),
            (shape::lesser(256, shape::greater(num_kv_heads * d, 32)), 1, 1),
            0,
            seq![
                Arg::buffer(0), Arg::buffer(1), Arg::buffer(2), Arg::word(num_kv_heads),
                Arg::word(d), Arg::word(page_size), Arg::word(max_pages), Arg::word(s_kv),
            ],
        )
    }
}

/// Helper: gather paged K or V into contiguous `[B, H_kv, S_kv, D]` layout
/// for the backward orchestrator.
pub fn paged_kv_gather_bf16(
    kv_paged_len: usize,
    kv_out_len: usize,
    page_table_len: usize,
    batch: u32,
    num_kv_heads: u32,
    d: u32,
    page_size: u32,
    max_pages: u32,
    s_kv: u32,
) -> (r: Result<Launch>)
    requires
        paged_kv_gather_bf16_plan(
            kv_paged_len as int, kv_out_len as int, page_table_len as int, batch as int,
            num_kv_heads as int, d as int, page_size as int, max_pages as int, s_kv as int,
        ) !is Undefined,
    ensures
        plan::outcome(r) == paged_kv_gather_bf16_plan(
            kv_paged_len as int, kv_out_len as int, page_table_len as int, batch as int,
            num_kv_heads as int, d as int, page_size as int, max_pages as int, s_kv as int,
        ),
        batch > 0 && s_kv > 0 ==> plan::launchable(r, 3),
{
    Ok(
        Launch::new(
            "paged_kv_gather_bf16",
            "paged_kv_gather_bf16",
            (s_kv, batch, 1),
            (shape::lesser_of(256, shape::greater_of(num_kv_heads * d, 32)), 1, 1),
            0,
            vec![
                Arg::param(0), Arg::param(1), Arg::param(2), Arg::Word(num_kv_heads), Arg::Word(d),
                Arg::Word(page_size), Arg::Word(max_pages), Arg::Word(s_kv),
            ],
        ),
    )
}

/// The answer of [`paged_kv_scatter_bf16`].
pub open spec fn paged_kv_scatter_bf16_plan(
    dkv_in_len: int, dkv_paged_len: int, page_table_len: int, batch: int, num_kv_heads: int, d: int,
    page_size: int, max_pages: int, s_kv: int,
) -> Plan {
    if num_kv_heads * d > u32::MAX {
        Plan::Undefined
    } else {
        Plan::launch(
            "paged_kv_scatter_atomic_bf16"@,
            "paged_kv_scatter_bf16"@,
            (s_kv, batch, 1),
            (shape::lesser(256, shape::greater(num_kv_heads * d, 32)), 1, 1),
            0,
            seq![
                Arg::buffer(0), Arg::buffer(1), Arg::buffer(2), Arg::word(num_kv_heads),
                Arg::word(d), Arg::word(page_size), Arg::word(max_pages), Arg::word(s_kv),
            ],
        )
    }
}

/// Helper: scatter contiguous `[B, H_kv, S_kv, D]` back to paged layout.
/// Plain (non-atomic) write — caller must guarantee no page sharing across
/// batches. For training (which never shares pages), this is fine.
pub fn paged_kv_scatter_bf16(
    dkv_in_len: usize,
    dkv_paged_len: usize,
    page_table_len: usize,
    batch: u32,
    num_kv_heads: u32,
    d: u32,
    page_size: u32,
    max_pages: u32,
    s_kv: u32,
) -> (r: Result<Launch>)
    requires
        paged_kv_scatter_bf16_plan(
            dkv_in_len as int, dkv_paged_len as int, page_table_len as int, batch as int,
            num_kv_heads as int, d as int, page_size as int, max_pages as int, s_kv as int,
        ) !is Undefined,
    ensures
        plan::outcome(r) == paged_kv_scatter_bf16_plan(
            dkv_in_len as int, dkv_paged_len as int, page_table_len as int, batch as int,
            num_kv_heads as int, d as int, page_size as int, max_pages as int, s_kv as int,
        ),
        batch > 0 && s_kv > 0 ==> plan::launchable(r, 3),
{
    Ok(
        Launch::new(
            "paged_kv_scatter_atomic_bf16",
            "paged_kv_scatter_bf16",
            (s_kv, batch, 1),
            (shape::lesser_of(256, shape::greater_of(num_kv_heads * d, 32)), 1, 1),
            0,
            vec![
                Arg::param(0), Arg::param(1), Arg::param(2), Arg::Word(num_kv_heads), Arg::Word(d),
                Arg::Word(page_size), Arg::Word(max_pages), Arg::Word(s_kv),
            ],
        ),
    )
}

} // verus!
