//! What sparse attention amounts to: which numbers reach the device, where, and what comes back.
use crate::attention::dsa;
use crate::attention::dsa::{DsaView, SparseSlots, SparseView};
use crate::attention::ranking;
use crate::attention::tiles;
use crate::attention::tiles::SparseShape;
use crate::dialogue::{ActionView, EventView};
use crate::plan::{Arg, F32, Place, Slot};
use crate::program::{End, StepView};
use vstd::prelude::*;

verus! {

/// Whether an action allocates a scratch buffer of `len` 16-bit numbers.
pub open spec fn allocates(action: ActionView, scratch: u32, len: int) -> bool {
    action matches ActionView::Run(StepView::Alloc { scratch: s, elem, len: n, failure }) && s
        == scratch && elem is U16 && n == len
}

/// Whether an action reads a buffer of 16-bit numbers.
pub open spec fn reads(action: ActionView, from: Slot) -> bool {
    action matches ActionView::ReadHalves { slot, failure } && slot == from
}

/// Whether an action writes numbers to a buffer.
pub open spec fn writes(action: ActionView, to: Slot, numbers: Seq<u16>) -> bool {
    action matches ActionView::WriteHalves { slot, data, failure } && slot == to && data == numbers
}

/// A call after its positions have come.
pub open spec fn after_indices(
    slots: SparseSlots, s: SparseShape, indices: Seq<i32>,
) -> (SparseView, ActionView) {
    dsa::sparse_start(slots, s).0.next(EventView::Indices(indices))
}

/// A call after its scratch memory has been allocated, too.
pub open spec fn after_memory(
    slots: SparseSlots, s: SparseShape, indices: Seq<i32>,
) -> (SparseView, ActionView) {
    after_indices(slots, s, indices).0.next(EventView::Done).0.next(EventView::Done).0.next(
        EventView::Done,
    ).0.next(EventView::Done)
}

/// A call reads the selected positions from their buffer, allocates room for the keys, the values,
/// one query and one output, and reads the queries, keys and values from theirs, in this order.
/// Then it begins with the first query.
pub proof fn a_call_reads_its_buffers(
    slots: SparseSlots, s: SparseShape, indices: Seq<i32>, q: Seq<u16>, k: Seq<u16>, v: Seq<u16>,
)
    requires
        s.valid(),
    ensures
        ({
            let rows = s.num_heads * 128;
            let tile = s.num_heads * s.topk * 128;
            let first = dsa::sparse_start(slots, s);
            let positions = after_indices(slots, s, indices);
            let a = positions.0.next(EventView::Done);
            let b = a.0.next(EventView::Done);
            let c = b.0.next(EventView::Done);
            let ready = after_memory(slots, s, indices);
            let queried = ready.0.next(EventView::Halves(q));
            let keyed = queried.0.next(EventView::Halves(k));
            let begun = keyed.0.next(EventView::Halves(v));
            &&& first.1 matches ActionView::ReadIndices { slot, failure } && slot == slots.indices
            &&& allocates(positions.1, 0, tile)
            &&& allocates(a.1, 1, tile)
            &&& allocates(b.1, 2, rows)
            &&& allocates(c.1, 3, rows)
            &&& reads(ready.1, slots.q)
            &&& reads(queried.1, slots.k)
            &&& reads(keyed.1, slots.v)
            &&& begun.0.stage is SendQ
            &&& begun.0.indices == indices
            &&& begun.0.q == q
            &&& begun.0.k == k
            &&& begun.0.v == v
            &&& begun.0.p == 0
            &&& begun.0.slots == slots
            &&& begun.0.shape == s
            &&& begun.0.out.len() == s.batch * s.seq_q * rows
            &&& writes(begun.1, Slot::Scratch(2), s.query(q, 0))
        }),
{
    assert(s.batch * s.seq_q * (s.num_heads * 128) >= 0) by (nonlinear_arith)
        requires
            s.batch >= 0,
            s.seq_q >= 0,
            s.num_heads >= 0,
    ;
}

/// The query that is sent holds, for each head, the row of that head of the token.
pub proof fn queries_hold_their_heads(s: SparseShape, q: Seq<u16>, p: int, head: int, at: int)
    requires
        s.valid(),
        0 <= p < s.batch * s.seq_q,
        q.len() >= s.batch * s.seq_q * (s.num_heads * 128),
        0 <= head < s.num_heads,
        0 <= at < 128,
    ensures
        s.query(q, p)[head * 128 + at] == q[(p * s.num_heads + head) * 128 + at],
        s.query(q, p).len() == s.num_heads * 128,
{
    let n = s.num_heads * 128;
    assert(p * n + n <= s.batch * s.seq_q * n && 0 <= p * n && (p + 1) * n == p * n + n)
        by (nonlinear_arith)
        requires
            0 <= p < s.batch * s.seq_q,
            n >= 0,
    ;
    assert((p * s.num_heads + head) * 128 + at == p * n + (head * 128 + at)) by (nonlinear_arith)
        requires
            n == s.num_heads * 128,
    ;
}

/// A gathered tile holds, for each query head and each selected position, the row of the key head
/// that serves the query head: each key head serves as many query heads as the others, in order.
pub proof fn tiles_hold_the_serving_heads(
    s: SparseShape, kv: Seq<u16>, indices: Seq<i32>, p: int, head: int, chosen: int, at: int,
)
    requires
        s.valid(),
        0 <= head < s.num_heads,
        0 <= chosen < s.topk,
        0 <= at < 128,
    ensures
        s.gathered(kv, indices, p)[(head * s.topk + chosen) * 128 + at] == kv[((p / (s.seq_q as int)
            * s.seq_kv_full + indices[p * s.topk + chosen]) * s.num_kv_heads + head / (
        s.num_heads as int / s.num_kv_heads as int)) * 128 + at],
{
    tiles::gathered_repeats_key_heads(s, kv, indices, p, head, chosen, at);
}

/// One query is attended on the device over the keys and values gathered for it: keys, values
/// and query are written to scratch memory of their own, the attention kernel is given query, keys
/// and values in this order and one more buffer, over all heads and as many positions as were
/// selected, and what it left in that buffer is read and becomes the output of the query.
pub proof fn a_query_is_attended(v: SparseView, o: Seq<u16>)
    requires
        v.well_formed(),
        v.stage is SendQ,
        o.len() == v.shape.row(),
    ensures
        ({
            let s = v.shape;
            let sent = v.next(EventView::Done);
            let valued = sent.0.next(EventView::Done);
            let run = valued.0.next(EventView::Done);
            let attended = run.0.next(EventView::Done);
            let served = attended.0.next(EventView::Halves(o));
            &&& writes(sent.1, Slot::Scratch(0), s.gathered(v.k, v.indices, v.p))
            &&& writes(valued.1, Slot::Scratch(1), s.gathered(v.v, v.indices, v.p))
            &&& run.1 matches ActionView::Run(StepView::Launch(l)) && {
                &&& l.entry == "flash_attn_bf16_d128"@
                &&& l.args.len() == 8
                &&& l.args[0] == Arg::Buffer(Place::of_scratch(2))
                &&& l.args[1] == Arg::Buffer(Place::of_scratch(0))
                &&& l.args[2] == Arg::Buffer(Place::of_scratch(1))
                &&& l.args[3] == Arg::Buffer(Place::of_scratch(3))
                &&& l.args[4] == Arg::Word(1)
                &&& l.args[5] == Arg::Word(s.topk)
                &&& l.args[6] == Arg::Word(s.num_heads)
                &&& l.args[7] == Arg::Scalar(s.scale)
                &&& l.grid.1 == s.num_heads
                &&& l.grid.2 == 1
            }
            &&& reads(attended.1, Slot::Scratch(3))
            &&& v.p + 1 < s.batch * s.seq_q ==> {
                &&& served.0.stage is SendQ
                &&& served.0.p == v.p + 1
                &&& s.query(served.0.out, v.p) == o
                &&& writes(served.1, Slot::Scratch(2), s.query(v.q, v.p + 1))
            }
            &&& v.p + 1 == s.batch * s.seq_q ==> {
                &&& served.0.stage is SendOut
                &&& served.1 matches ActionView::WriteHalves { slot, data, failure } && slot
                    == v.slots.out && s.query(data, v.p) == o
            }
        }),
{
    let s = v.shape;
    dsa::attention_of_one_query_is_launched(s);
    tiles::placed_is_read_back(s, v.out, v.p, o, v.p);
}

/// A call that has written its outputs is done.
pub proof fn a_call_ends_with_its_outputs(v: SparseView)
    requires
        v.stage is SendOut,
    ensures
        v.next(EventView::Done).1 == ActionView::Finish(End::Done),
{
}

/// A whole call scores all positions with the indexer's queries, keys and weights, reads the
/// scores from where the indexer left them, writes the selected positions where the attention
/// reads them, and attends with the queries, keys and values that come after the indexer's.
pub proof fn a_whole_call_attends_to_what_it_selects(
    q_idx_len: int, k_idx_len: int, weights_len: int, scores_len: int, s: SparseShape,
    scores: Seq<F32>,
)
    requires
        s.valid(),
    ensures
        ({
            let plan = dsa::dsa_indexer_score_bf16_plan(
                q_idx_len, k_idx_len, weights_len, scores_len, s.batch as int, s.seq_q as int,
                s.seq_kv_full as int,
            );
            let begun = dsa::dsa_start(plan, s);
            let scored = begun.0.next(EventView::Done);
            let selected = scored.0.next(EventView::Scores(scores));
            let attending = selected.0.next(EventView::Done);
            plan is Launch ==> {
                &&& begun.1 matches ActionView::Run(StepView::Launch(l)) && {
                    &&& l.entry == "dsa_indexer_score_bf16"@
                    &&& l.args.len() == 6
                    &&& l.args[0] == Arg::buffer(0)
                    &&& l.args[1] == Arg::buffer(1)
                    &&& l.args[2] == Arg::buffer(2)
                    &&& l.args[3] == Arg::buffer(6)
                    &&& l.args[4] == Arg::Word(s.seq_q)
                    &&& l.args[5] == Arg::Word(s.seq_kv_full)
                }
                &&& scored.1 matches ActionView::ReadScores { slot, failure } && slot
                    == Slot::Param(6)
                &&& selected.1 matches ActionView::WriteIndices { slot, indices, failure } && slot
                    == Slot::Param(7) && indices == dsa::selected(
                    scores,
                    s.batch * s.seq_q,
                    s.seq_kv_full as int,
                    s.topk as int,
                )
                &&& attending.1 matches ActionView::ReadIndices { slot, failure } && slot
                    == Slot::Param(7)
                &&& attending.0 matches DsaView::Attend(run) && {
                    &&& run.shape == s
                    &&& run.slots.q == Slot::Param(3)
                    &&& run.slots.k == Slot::Param(4)
                    &&& run.slots.v == Slot::Param(5)
                    &&& run.slots.indices == Slot::Param(7)
                    &&& run.slots.out == Slot::Param(8)
                }
            }
        }),
{
}

/// A call that cannot be made is refused at once: one with an empty dimension, or with query
/// heads that the key heads cannot share equally.
pub proof fn invalid_calls_are_refused(slots: SparseSlots, s: SparseShape)
    ensures
        s.valid() <==> dsa::sparse_start(slots, s).1 !is Finish,
        s.valid() <==> s.batch > 0 && s.seq_q > 0 && s.seq_kv_full > 0 && s.num_heads > 0
            && s.num_kv_heads > 0 && s.topk > 0 && s.num_heads % s.num_kv_heads == 0,
        !s.valid() ==> (dsa::sparse_start(slots, s).1 matches ActionView::Finish(End::Fail(f)) && f
            is InvalidArgument),
{
}

/// An own call takes its five buffers in the order queries, keys, values, positions, outputs.
pub proof fn own_calls_take_buffers_in_order()
    ensures
        dsa::sparse_params().q == Slot::Param(0),
        dsa::sparse_params().k == Slot::Param(1),
        dsa::sparse_params().v == Slot::Param(2),
        dsa::sparse_params().indices == Slot::Param(3),
        dsa::sparse_params().out == Slot::Param(4),
{
}

/// Place `i` of the selection of query `p` is the position of rank `i` among the scores of that query
/// alone, and the first position where there are fewer positions than places.
pub proof fn selections_follow_the_ranking(
    scores: Seq<F32>, n: int, seq_kv: int, topk: int, p: int, i: int,
)
    requires
        0 <= p < n,
        0 <= i < topk,
        0 < seq_kv <= i32::MAX,
        scores.len() >= n * seq_kv,
    ensures
        ({
            let chosen = dsa::selected(scores, n, seq_kv, topk);
            &&& chosen.len() == n * topk
            &&& 0 <= p * topk + i < n * topk
            &&& i < seq_kv ==> chosen[p * topk + i] == ranking::ranking(
                scores.subrange(p * seq_kv, (p + 1) * seq_kv),
            )[i]
            &&& i >= seq_kv ==> chosen[p * topk + i] == 0
        }),
{
    assert(0 <= p * topk + i < n * topk && (p + 1) * seq_kv == p * seq_kv + seq_kv && 0 <= p
        * seq_kv && (p + 1) * seq_kv <= n * seq_kv) by (nonlinear_arith)
        requires
            0 <= p < n,
            0 <= i < topk,
            seq_kv > 0,
    ;
    vstd::arithmetic::div_mod::lemma_fundamental_div_mod_converse(p * topk + i, topk, p, i);
    let row = scores.subrange(p * seq_kv, (p + 1) * seq_kv);
    ranking::ranking_names_each_position_once(row);
}

} // verus!
