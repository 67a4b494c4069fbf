//! What decoding over a compressed cache amounts to when the cache is split.
use crate::attention::mla;
use crate::attention::mla_auto;
use crate::distributed::ring_coverage;
use crate::plan::{Arg, F32, LaunchView, MapElem, Place, Slot, TensorMapView};
use crate::program::{ProgramView, StepView};
use vstd::prelude::*;

verus! {

/// Whether exactly one of the first `merged` of `splits` equal parts of `len` positions holds
/// `position`.
pub open spec fn is_merged_once(len: int, splits: int, merged: int, position: int) -> bool {
    exists|s: int|
        0 <= s < merged && #[trigger] ring_coverage::part_holds(len, splits, s, position)
            && forall|other: int|
            #[trigger] ring_coverage::part_holds(len, splits, other, position) ==> other == s
}

/// Whether a launch computes partial results over `seq_kv` positions for all heads, one block
/// for 16 heads of a batch entry and a split.
pub open spec fn splits_the_cache(
    l: LaunchView, batch: int, num_heads: int, seq_kv: int, splits: int, scale: F32,
) -> bool {
    &&& l.entry == "fa_bf16_mla_decode_mma_tma_split"@
    &&& l.grid.0 * 16 == num_heads
    &&& l.grid.1 == batch
    &&& l.grid.2 == splits
    &&& l.args.len() == 11
    &&& l.args[0] == Arg::buffer(0)
    &&& l.args[1] == Arg::buffer(1)
    &&& l.args[7] == Arg::Word(num_heads as u32)
    &&& l.args[8] == Arg::Word(seq_kv as u32)
    &&& l.args[9] == Arg::Word(splits as u32)
    &&& l.args[10] == Arg::Scalar(scale)
}

/// Whether a launch merges the partial results that the launch `from` leaves, for all heads of
/// all batch entries, into the fifth buffer of the caller.
pub open spec fn merges_what_it_left(
    l: LaunchView, from: LaunchView, batch: int, num_heads: int,
) -> bool {
    &&& l.entry == "mla_split_kv_combine"@
    &&& l.grid == (num_heads, batch, 1int)
    &&& l.args.len() == 5
    &&& l.args[0] == from.args[5]
    &&& l.args[1] == from.args[6]
    &&& l.args[2] == Arg::buffer(4)
    &&& l.args[3] == from.args[9]
    &&& l.args[3] == Arg::Word(from.grid.2 as u32)
    &&& l.args[4] == Arg::Word(num_heads as u32)
}

/// Whether a descriptor is of the rows of one buffer of the caller, row by row.
pub open spec fn describes_rows(m: TensorMapView, buffer: u32, rows: int, width: int) -> bool {
    &&& m.base == Place::of_param(buffer)
    &&& m.elem == MapElem::Bf16
    &&& m.dims.len() == 2
    &&& m.dims[0] == width
    &&& m.dims[1] == rows
    &&& m.strides.len() == 1
    &&& m.strides[0] == width * 2
}

/// Whether a program splits the cache, merges all of the splits, and in this way takes every
/// position of the cache exactly once.
pub open spec fn merges_every_split(
    p: ProgramView, batch: int, num_heads: int, seq_kv: int, scale: F32,
) -> bool {
    &&& p.steps.len() == 5
    &&& p.steps[0] matches StepView::Encode { scratch: maps_at, maps }
    &&& p.steps[1] matches StepView::Alloc { scratch: partial, elem: _, len: partial_len, failure: _ }
    &&& p.steps[2] matches StepView::Alloc { scratch: lse, elem: _, len: lse_len, failure: _ }
    &&& p.steps[3] matches StepView::Launch(split)
    &&& p.steps[4] matches StepView::Launch(merge)
    &&& maps.len() == 2
    &&& describes_rows(maps[0], 2, batch * seq_kv, 512)
    &&& describes_rows(maps[1], 3, batch * seq_kv, 64)
    &&& splits_the_cache(split, batch, num_heads, seq_kv, split.grid.2, scale)
    &&& split.args[2] == Arg::Buffer(Place::of_scratch(maps_at))
    &&& split.args[3] == Arg::Buffer(Place::of_scratch((maps_at + 1) as u32))
    &&& split.args[5] == Arg::Buffer(Place::of_scratch(partial))
    &&& split.args[6] == Arg::Buffer(Place::of_scratch(lse))
    &&& partial != lse && partial > maps_at + 1 && lse > maps_at + 1
    &&& lse_len == split.grid.2 * batch * num_heads
    &&& partial_len == lse_len * 512
    &&& merges_what_it_left(merge, split, batch, num_heads)
    &&& forall|position: int|
        0 <= position < seq_kv ==> is_merged_once(
            seq_kv,
            split.grid.2,
            merge.args[3]->Word_0 as int,
            position,
        )
}

proof fn lemma_merged_once(len: int, splits: int, position: int)
    requires
        splits > 0,
        0 <= position < len,
    ensures
        is_merged_once(len, splits, splits, position),
{
    ring_coverage::parts_hold_every_position(len, splits, position);
    let part = choose|part: int|
        0 <= part < splits && ring_coverage::part_holds(len, splits, part, position) && forall|
            other: int,
        |
            #[trigger] ring_coverage::part_holds(len, splits, other, position) ==> other == part;
    assert(ring_coverage::part_holds(len, splits, part, position));
}

/// Decoding in splits merges exactly the splits that it computes: as many as the launch before
/// has blocks and is told of, from the memory that it leaves them in; and every position of the
/// cache is in exactly one of them.
pub proof fn mla_decode_bf16_mma_split_merges_every_split(
    q_c_len: int, q_r_len: int, c_kv_len: int, k_rope_len: int, o_len: int, batch: int,
    num_heads: int, seq_kv: int, num_splits: int, scale: F32,
)
    requires
        0 <= batch <= u32::MAX,
        0 <= num_heads <= u32::MAX,
        0 <= seq_kv <= u32::MAX,
        0 <= num_splits <= u32::MAX,
        mla_auto::mla_decode_bf16_mma_split_program(
            q_c_len, q_r_len, c_kv_len, k_rope_len, o_len, batch, num_heads, seq_kv, num_splits,
            scale,
        ).end is Done,
    ensures
        ({
            let p = mla_auto::mla_decode_bf16_mma_split_program(
                q_c_len, q_r_len, c_kv_len, k_rope_len, o_len, batch, num_heads, seq_kv,
                num_splits, scale,
            );
            &&& merges_every_split(p, batch, num_heads, seq_kv, scale)
            &&& p.steps[3]->Launch_0.grid.2 == num_splits
        }),
{
    let p = mla_auto::mla_decode_bf16_mma_split_program(
        q_c_len, q_r_len, c_kv_len, k_rope_len, o_len, batch, num_heads, seq_kv, num_splits, scale,
    );
    let split = p.steps[3]->Launch_0;
    let merge = p.steps[4]->Launch_0;
    assert forall|position: int| 0 <= position < seq_kv implies is_merged_once(
        seq_kv,
        split.grid.2,
        merge.args[3]->Word_0 as int,
        position,
    ) by {
        lemma_merged_once(seq_kv, num_splits, position);
    }
}

/// However many splits are asked for, or left open, decoding either launches one kernel or
/// splits the cache into as many parts as were asked for or are fitting, and merges every one.
pub proof fn mla_decode_bf16_auto_with_splits_merges_every_split(
    q_c_len: int, q_r_len: int, c_kv_len: int, k_rope_len: int, o_len: int, batch: int,
    num_heads: int, seq_kv: int, scale: F32, num_splits: Option<u32>,
)
    requires
        0 <= batch <= u32::MAX,
        0 <= num_heads <= u32::MAX,
        0 <= seq_kv <= u32::MAX,
        mla_auto::mla_decode_bf16_auto_with_splits_program(
            q_c_len, q_r_len, c_kv_len, k_rope_len, o_len, batch, num_heads, seq_kv, scale,
            num_splits,
        ).end is Done,
    ensures
        ({
            let p = mla_auto::mla_decode_bf16_auto_with_splits_program(
                q_c_len, q_r_len, c_kv_len, k_rope_len, o_len, batch, num_heads, seq_kv, scale,
                num_splits,
            );
            &&& p.steps.len() == 1 || merges_every_split(p, batch, num_heads, seq_kv, scale)
            &&& p.steps.len() == 1 <==> num_heads % 16 != 0 || (num_splits matches Some(n) && n
                <= 1) || (num_splits is None && seq_kv < 64)
            &&& p.steps.len() != 1 ==> (num_splits matches Some(n) ==> p.steps[3]->Launch_0.grid.2
                == n)
            &&& p.steps.len() != 1 && num_splits is None ==> 2 <= p.steps[3]->Launch_0.grid.2
                <= 16 && (p.steps[3]->Launch_0.grid.2 - 1) * 8 < seq_kv
        }),
{
    let splits = match num_splits {
        Some(n) => n as int,
        None => mla_auto::default_splits(batch, num_heads, seq_kv),
    };
    if num_heads % 16 == 0 && splits > 1 && !(num_splits is None && seq_kv < 64) {
        if batch > 0 && num_heads > 0 && seq_kv > 0 {
            mla_auto::default_splits_in_range(batch, num_heads, seq_kv);
            crate::shape::lemma_ceil_div(seq_kv, 8);
        }
        mla_decode_bf16_mma_split_merges_every_split(
            q_c_len, q_r_len, c_kv_len, k_rope_len, o_len, batch, num_heads, seq_kv, splits, scale,
        );
    }
}

} // verus!
