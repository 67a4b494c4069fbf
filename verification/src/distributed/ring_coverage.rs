//! Which positions of the keys the rings work on.
use crate::distributed::ring_attention;
use crate::distributed::ring_attention_distributed;
use crate::distributed::transport::RingTransport;
use crate::plan::{Arg, F32, LaunchView, Place};
use crate::program::{BindingView, ProgramView, StepView};
use vstd::prelude::*;

verus! {

/// Whether part number `part` of `parts` equal parts of `len` positions holds `position`.
pub open spec fn part_holds(len: int, parts: int, part: int, position: int) -> bool {
    part * len <= position * parts < (part + 1) * len
}

/// Step number `i` of a program after its first `first` steps.
pub open spec fn step_after(p: ProgramView, first: int, i: int) -> StepView {
    p.steps[first + i]
}

/// Whether a step is a launch of the split kernel whose part of the keys holds `position`.
pub open spec fn works_on(s: StepView, position: int) -> bool {
    &&& s matches StepView::Launch(l)
    &&& l.kernel == "fa_bf16_v3_split_kv"@
    &&& l.args.len() == 12
    &&& l.args[5] matches Arg::Word(len)
    &&& l.args[10] matches Arg::Word(parts)
    &&& l.args[11] matches Arg::Word(part)
    &&& part_holds(len as int, parts as int, part as int, position)
}

/// Equal parts hold every position exactly once.
pub proof fn parts_hold_every_position(len: int, parts: int, position: int)
    requires
        parts > 0,
        0 <= position < len,
    ensures
        exists|part: int|
            0 <= part < parts && part_holds(len, parts, part, position) && forall|other: int|
                #[trigger] part_holds(len, parts, other, position) ==> other == part,
{
    let part = (position * parts) / len;
    assert(part * len <= position * parts < (part + 1) * len && 0 <= part < parts)
        by (nonlinear_arith)
        requires
            parts > 0,
            0 <= position < len,
            part == (position * parts) / len,
    ;
    assert forall|other: int| #[trigger] part_holds(len, parts, other, position) implies other
        == part by {
        assert(other == part) by (nonlinear_arith)
            requires
                len > 0,
                other * len <= position * parts < (other + 1) * len,
                part * len <= position * parts < (part + 1) * len,
        ;
    }
    assert(part_holds(len, parts, part, position));
}

proof fn lemma_chunks_at(
    p: ProgramView, n: int, q_len: int, k_len: int, v_len: int, batch: int, num_heads: int,
    seq_q: int, seq_kv: int, scale: F32, num_chunks: int,
)
    requires
        p.end is Done,
        0 <= n <= num_chunks <= u32::MAX,
        0 <= seq_kv <= u32::MAX,
    ensures
        ({
            let r = ring_attention::ring_chunks(
                p, n, q_len, k_len, v_len, batch, num_heads, seq_q, seq_kv, scale, num_chunks,
            );
            &&& r.end is Done
            &&& r.steps.len() == p.steps.len() + n
            &&& forall|c: int, position: int|
                0 <= c < n ==> (#[trigger] works_on(step_after(r, p.steps.len() as int, c), position)
                    <==> part_holds(seq_kv, num_chunks, c, position))
        }),
    decreases n,
{
    if n > 0 {
        lemma_chunks_at(
            p, n - 1, q_len, k_len, v_len, batch, num_heads, seq_q, seq_kv, scale, num_chunks,
        );
        let before = ring_attention::ring_chunks(
            p, n - 1, q_len, k_len, v_len, batch, num_heads, seq_q, seq_kv, scale, num_chunks,
        );
        let r = ring_attention::ring_chunks(
            p, n, q_len, k_len, v_len, batch, num_heads, seq_q, seq_kv, scale, num_chunks,
        );
        assert forall|c: int, position: int| 0 <= c < n implies (#[trigger] works_on(
            step_after(r, p.steps.len() as int, c),
            position,
        ) <==> part_holds(seq_kv, num_chunks, c, position)) by {
            if c < n - 1 {
                let s = step_after(before, p.steps.len() as int, c);
                assert(step_after(r, p.steps.len() as int, c) == s);
                assert(works_on(s, position) <==> part_holds(seq_kv, num_chunks, c, position));
            }
        }
    }
}

/// The sweep on one GPU works on every position of the keys in exactly one of its chunks.
pub proof fn sweep_covers_every_position(
    q_len: int, k_len: int, v_len: int, o_len: int, batch: int, num_heads: int, seq_q: int,
    seq_kv: int, scale: F32, num_chunks: int, position: int,
)
    requires
        0 <= num_chunks <= u32::MAX,
        0 <= position < seq_kv <= u32::MAX,
        ring_attention::ring_attention_bf16_program(
            q_len, k_len, v_len, o_len, batch, num_heads, seq_q, seq_kv, scale, num_chunks,
        ).end is Done,
    ensures
        ({
            let p = ring_attention::ring_attention_bf16_program(
                q_len, k_len, v_len, o_len, batch, num_heads, seq_q, seq_kv, scale, num_chunks,
            );
            &&& p.steps.len() == num_chunks + 3
            &&& exists|c: int|
                0 <= c < num_chunks && works_on(step_after(p, 2, c), position) && forall|other: int|
                    0 <= other < num_chunks && #[trigger] works_on(step_after(p, 2, other), position)
                        ==> other == c
        }),
{
    let lse = num_chunks * batch * num_heads * seq_q;
    let start = ProgramView::empty().step(ring_attention::partial(0, lse * 128)).step(
        ring_attention::partial(1, lse),
    );
    let p = ring_attention::ring_attention_bf16_program(
        q_len, k_len, v_len, o_len, batch, num_heads, seq_q, seq_kv, scale, num_chunks,
    );
    let swept = ring_attention::ring_chunks(
        start, num_chunks, q_len, k_len, v_len, batch, num_heads, seq_q, seq_kv, scale, num_chunks,
    );
    lemma_chunks_at(
        start, num_chunks, q_len, k_len, v_len, batch, num_heads, seq_q, seq_kv, scale, num_chunks,
    );
    assert forall|c: int| 0 <= c < num_chunks implies (#[trigger] works_on(
        step_after(p, 2, c),
        position,
    ) <==> part_holds(seq_kv, num_chunks, c, position)) by {
        assert(step_after(p, 2, c) == step_after(swept, 2, c));
        assert(works_on(step_after(swept, 2, c), position) <==> part_holds(
            seq_kv,
            num_chunks,
            c,
            position,
        ));
    }
    parts_hold_every_position(seq_kv, num_chunks, position);
    let c = choose|c: int|
        0 <= c < num_chunks && part_holds(seq_kv, num_chunks, c, position) && forall|other: int|
            #[trigger] part_holds(seq_kv, num_chunks, other, position) ==> other == c;
    assert(works_on(step_after(p, 2, c), position));
}

/// The launch of step number `step` of the ring across ranks.
pub open spec fn ring_launch<T: RingTransport>(
    transport: &T, step: int, q_len: int, batch: int, num_heads: int, seq_q: int,
    seq_kv_local: int, scale: F32,
) -> LaunchView {
    let ws = transport.ranks() as int;
    let rank = transport.own_rank() as int;
    let places = ring_attention_distributed::block_places(
        step, ring_attention_distributed::block_owner(rank, ws, step), batch * num_heads * seq_q,
    );
    BindingView { places, base: 0 }.launch(
        ring_attention_distributed::block_plan(
            q_len, batch, num_heads, seq_q, seq_kv_local, scale,
        )->Launch_0,
    )
}

proof fn lemma_ring_at<T: RingTransport>(
    p: ProgramView, transport: &T, n: int, q_len: int, batch: int, num_heads: int, seq_q: int,
    seq_kv_local: int, scale: F32,
)
    requires
        p.end is Done,
        0 <= n <= transport.ranks(),
        ring_attention_distributed::ring_steps(
            p, transport, n, q_len, batch, num_heads, seq_q, seq_kv_local, scale,
        ).end is Done,
    ensures
        ({
            let r = ring_attention_distributed::ring_steps(
                p, transport, n, q_len, batch, num_heads, seq_q, seq_kv_local, scale,
            );
            &&& r.steps.len() == p.steps.len() + if 0 < n == transport.ranks() {
                3 * n - 2
            } else {
                3 * n
            }
            &&& forall|k: int|
                0 <= k < n ==> r.steps[p.steps.len() + 3 * k] == StepView::Launch(
                    #[trigger] ring_launch(
                        transport, k, q_len, batch, num_heads, seq_q, seq_kv_local, scale,
                    ),
                )
        }),
    decreases n,
{
    if n > 0 {
        let before = ring_attention_distributed::ring_steps(
            p, transport, n - 1, q_len, batch, num_heads, seq_q, seq_kv_local, scale,
        );
        assert(before.end is Done);
        lemma_ring_at(
            p, transport, n - 1, q_len, batch, num_heads, seq_q, seq_kv_local, scale,
        );
    }
}

/// Each step of the ring across ranks works on the whole block at hand, in the scratch buffers
/// that hold it, and leaves the partial result in the rows of the block's owner.
pub proof fn ring_steps_take_whole_blocks<T: RingTransport>(
    transport: &T, q_len: int, k_local_len: int, v_local_len: int, o_len: int, batch: int,
    num_heads: int, seq_q: int, seq_kv_local: int, scale: F32, step: int, position: int,
)
    requires
        0 <= batch,
        0 <= num_heads,
        0 <= seq_q,
        0 <= step < transport.ranks(),
        0 <= position < seq_kv_local <= u32::MAX,
        ring_attention_distributed::ring_attention_bf16_distributed_program(
            transport, q_len, k_local_len, v_local_len, o_len, batch, num_heads, seq_q,
            seq_kv_local, scale,
        ).end is Done,
    ensures
        ({
            let p = ring_attention_distributed::ring_attention_bf16_distributed_program(
                transport, q_len, k_local_len, v_local_len, o_len, batch, num_heads, seq_q,
                seq_kv_local, scale,
            );
            let owner = ring_attention_distributed::block_owner(
                transport.own_rank() as int,
                transport.ranks() as int,
                step,
            );
            let rows = batch * num_heads * seq_q;
            let block = ring_attention_distributed::sending(step);
            let s = p.steps[8 + 3 * step];
            &&& p.steps.len() == 3 * transport.ranks() + 7
            &&& works_on(s, position)
            &&& s matches StepView::Launch(l) && {
                &&& l.args[1] == Arg::Buffer(Place::of_scratch(block))
                &&& l.args[2] == Arg::Buffer(Place::of_scratch((block + 1) as u32))
                &&& l.args[3] == Arg::Buffer(Place::scratch_at(4, owner * (rows * 128)))
                &&& l.args[9] == Arg::Buffer(Place::scratch_at(5, owner * rows))
            }
            &&& 0 <= owner * rows
            &&& (owner + 1) * rows <= transport.ranks() * rows
        }),
{
    let ws = transport.ranks() as int;
    let rank = transport.own_rank() as int;
    let kv = batch * num_heads * seq_kv_local * 128;
    let lse = ws * batch * num_heads * seq_q;
    let rows = batch * num_heads * seq_q;
    let owner = ring_attention_distributed::block_owner(rank, ws, step);
    let start = ring_attention_distributed::ring_prologue(kv, lse);
    let turned = ring_attention_distributed::ring_steps(
        start, transport, ws, q_len, batch, num_heads, seq_q, seq_kv_local, scale,
    );
    assert(turned.end is Done);
    assert(start.steps.len() == 8);
    lemma_ring_at(start, transport, ws, q_len, batch, num_heads, seq_q, seq_kv_local, scale);
    let l = ring_launch(
        transport, step, q_len, batch, num_heads, seq_q, seq_kv_local, scale,
    );
    let p = ring_attention_distributed::ring_attention_bf16_distributed_program(
        transport, q_len, k_local_len, v_local_len, o_len, batch, num_heads, seq_q, seq_kv_local,
        scale,
    );
    assert(p.steps[8 + 3 * step] == turned.steps[8 + 3 * step]);
    assert(p.steps[8 + 3 * step] == StepView::Launch(l));
    assert(part_holds(seq_kv_local, 1, 0, position));
    assert(works_on(StepView::Launch(l), position));
    assert(0 <= owner < ws);
    assert(rows >= 0) by (nonlinear_arith)
        requires
            0 <= batch,
            0 <= num_heads,
            0 <= seq_q,
            rows == batch * num_heads * seq_q,
    ;
    assert(0 <= owner * rows && (owner + 1) * rows <= ws * rows) by (nonlinear_arith)
        requires
            0 <= owner < ws,
            rows >= 0,
    ;
}

/// Over a turn of the ring, each rank works on every position of every rank's block: in exactly
/// one step it holds the block, and that step takes the whole block.
pub proof fn ring_covers_every_position<T: RingTransport>(
    transport: &T, q_len: int, k_local_len: int, v_local_len: int, o_len: int, batch: int,
    num_heads: int, seq_q: int, seq_kv_local: int, scale: F32, owner: int, position: int,
)
    requires
        0 <= batch,
        0 <= num_heads,
        0 <= seq_q,
        0 <= transport.own_rank() < transport.ranks(),
        0 <= owner < transport.ranks(),
        0 <= position < seq_kv_local <= u32::MAX,
        ring_attention_distributed::ring_attention_bf16_distributed_program(
            transport, q_len, k_local_len, v_local_len, o_len, batch, num_heads, seq_q,
            seq_kv_local, scale,
        ).end is Done,
    ensures
        ({
            let p = ring_attention_distributed::ring_attention_bf16_distributed_program(
                transport, q_len, k_local_len, v_local_len, o_len, batch, num_heads, seq_q,
                seq_kv_local, scale,
            );
            let rank = transport.own_rank() as int;
            let ws = transport.ranks() as int;
            exists|step: int|
                {
                    &&& 0 <= step < ws
                    &&& ring_attention_distributed::held_block(rank, ws, step) == owner
                    &&& works_on(p.steps[8 + 3 * step], position)
                    &&& forall|other: int|
                        0 <= other < ws && #[trigger] ring_attention_distributed::held_block(
                            rank,
                            ws,
                            other,
                        ) == owner ==> other == step
                }
        }),
{
    let rank = transport.own_rank() as int;
    let ws = transport.ranks() as int;
    ring_attention_distributed::ring_visits_every_block_once(rank, ws, owner);
    let step = choose|step: int|
        0 <= step < ws && ring_attention_distributed::block_owner(rank, ws, step) == owner
            && forall|other: int|
            0 <= other < ws && #[trigger] ring_attention_distributed::block_owner(rank, ws, other)
                == owner ==> other == step;
    assert forall|k: int| 0 <= k < ws implies #[trigger] ring_attention_distributed::held_block(
        rank,
        ws,
        k,
    ) == ring_attention_distributed::block_owner(rank, ws, k) by {
        ring_attention_distributed::ring_names_the_block_it_holds(rank, ws, k);
    }
    ring_steps_take_whole_blocks(
        transport, q_len, k_local_len, v_local_len, o_len, batch, num_heads, seq_q, seq_kv_local,
        scale, step, position,
    );
    assert(ring_attention_distributed::held_block(rank, ws, step) == owner);
}

} // verus!
