//! Ring attention across ranks as numbers: what a turn of the ring leaves in a rank's memory.
use crate::attention::paged;
use crate::distributed::ring_attention;
use crate::distributed::ring_attention_distributed;
use crate::distributed::transport::{NcclTransport, RingTransport};
use crate::meaning;
use crate::meaning::{Arithmetic, Memory};
use crate::plan::{Arg, F32, Place, Plan, Slot};
use crate::program::{BindingView, ProgramView, StepView};
use crate::shape;
use vstd::prelude::*;

verus! {

/// The block of keys and values that a rank brings to the ring.
#[verifier::ext_equal]
pub struct Block<T> {
    pub keys: Seq<T>,
    pub values: Seq<T>,
}

/// The block in a pair of neighbouring scratch buffers.
pub open spec fn block_in<T>(m: Memory<T>, scratch: u32, n: int) -> Block<T> {
    Block {
        keys: meaning::read(m, Place::of_scratch(scratch), n),
        values: meaning::read(m, Place::of_scratch((scratch + 1) as u32), n),
    }
}

/// Whether every exchange brings the block that its sender worked on: after step number `k` the
/// block of the owner of the next step is there.
pub open spec fn blocks_arrive<T>(
    trace: Seq<Memory<T>>, blocks: spec_fn(int) -> Block<T>, rank: int, ranks: int, n: int,
) -> bool {
    forall|k: int|
        0 <= k < ranks - 1 ==> #[trigger] block_in(
            trace[11 + 3 * k],
            ring_attention_distributed::receiving(k),
            n,
        ) == blocks(ring_attention_distributed::block_owner(rank, ranks, k + 1))
}

/// The partial results of all queries over a whole block.
pub open spec fn block_results<T>(
    a: Arithmetic<T>, q: Seq<T>, block: Block<T>, rows: int, seq_q: int, seq_kv: int, scale: F32,
) -> Seq<T> {
    meaning::partial_results(
        a, q, block.keys, block.values, rows, seq_q, seq_kv, 128, scale, 1, 0,
    )
}

/// The logarithms that go with [`block_results`].
pub open spec fn block_logarithms<T>(
    a: Arithmetic<T>, q: Seq<T>, block: Block<T>, rows: int, seq_q: int, seq_kv: int, scale: F32,
) -> Seq<T> {
    meaning::partial_logarithms(a, q, block.keys, rows, seq_q, seq_kv, 128, scale, 1, 0)
}

/// What the launch on one block does.
pub(crate) proof fn lemma_block<T>(
    a: Arithmetic<T>, q_len: int, batch: int, num_heads: int, seq_q: int, seq_kv: int, scale: F32,
    step: int, owner: int, ranks: int, before: Memory<T>, after: Memory<T>,
)
    requires
        0 < batch <= u32::MAX,
        0 < num_heads <= u32::MAX,
        0 < seq_q <= u32::MAX,
        0 <= seq_kv <= u32::MAX,
        0 <= owner < ranks,
        ranks * (batch * num_heads * seq_q) * 128 <= u32::MAX,
        ring_attention_distributed::block_plan(q_len, batch, num_heads, seq_q, seq_kv, scale)
            matches Plan::Launch(l) && meaning::launch_means(
            a,
            BindingView {
                places: ring_attention_distributed::block_places(
                    step,
                    owner,
                    batch * num_heads * seq_q,
                ),
                base: 0,
            }.launch(l),
            before,
            after,
        ),
    ensures
        ({
            let heads = num_heads * batch;
            let rows = batch * num_heads * seq_q;
            let q = meaning::read(before, Place::of_param(0), rows * 128);
            let block = block_in(
                before,
                ring_attention_distributed::sending(step),
                batch * num_heads * seq_kv * 128,
            );
            after == meaning::written(
                meaning::written(
                    before,
                    Place::scratch_at(4, owner * (rows * 128)),
                    block_results(a, q, block, rows, seq_q, seq_kv, scale),
                ),
                Place::scratch_at(5, owner * rows),
                block_logarithms(a, q, block, rows, seq_q, seq_kv, scale),
            )
        }),
{
    shape::lemma_ceil_div(seq_q, 128);
    let rows = batch * num_heads * seq_q;
    assert(num_heads * batch == batch * num_heads) by (nonlinear_arith);
    assert(0 <= owner * rows && owner * rows <= ranks * rows && owner * (rows * 128) == owner * rows
        * 128 && 0 <= rows) by (nonlinear_arith)
        requires
            0 <= owner < ranks,
            rows == batch * num_heads * seq_q,
            batch > 0,
            num_heads > 0,
            seq_q > 0,
    ;
    assert(seq_kv % 1 == 0);
}

/// Where the steps of the first `n` turns lie.
pub(crate) proof fn lemma_turns(
    p: ProgramView, t: &NcclTransport, n: int, q_len: int, batch: int, num_heads: int, seq_q: int,
    seq_kv: int, scale: F32,
)
    requires
        p.end is Done,
        0 <= n <= t.world_size,
    ensures
        ({
            let r = ring_attention_distributed::ring_steps(
                p, t, n, q_len, batch, num_heads, seq_q, seq_kv, scale,
            );
            &&& r.end is Done
            &&& r.steps.len() == p.steps.len() + if 0 < n == t.world_size {
                3 * n - 2
            } else {
                3 * n
            }
            &&& r.steps.subrange(0, p.steps.len() as int) == p.steps
        }),
    decreases n,
{
    let r = ring_attention_distributed::ring_steps(
        p, t, n, q_len, batch, num_heads, seq_q, seq_kv, scale,
    );
    if n > 0 {
        lemma_turns(p, t, n - 1, q_len, batch, num_heads, seq_q, seq_kv, scale);
        let before = ring_attention_distributed::ring_steps(
            p, t, n - 1, q_len, batch, num_heads, seq_q, seq_kv, scale,
        );
        assert(r.steps.subrange(0, p.steps.len() as int) =~= before.steps.subrange(
            0,
            p.steps.len() as int,
        ));
    } else {
        assert(r.steps.subrange(0, p.steps.len() as int) =~= p.steps);
    }
}

/// The first `n` steps of the ring leave the partial results over the blocks that they worked on
/// in the rows of the blocks' owners.
#[verifier::rlimit(80)]
proof fn lemma_ring<T>(
    a: Arithmetic<T>, p: ProgramView, t: &NcclTransport, n: int, q_len: int, batch: int,
    num_heads: int, seq_q: int, seq_kv: int, scale: F32, blocks: spec_fn(int) -> Block<T>,
    trace: Seq<Memory<T>>,
)
    requires
        p.end is Done,
        p.steps.len() == 8,
        0 < n <= t.world_size,
        t.rank < t.world_size,
        0 < batch <= u32::MAX,
        0 < num_heads <= u32::MAX,
        0 < seq_q <= u32::MAX,
        0 <= seq_kv <= u32::MAX,
        t.world_size * (batch * num_heads * seq_q) * 128 <= u32::MAX,
        meaning::carried_out(
            a,
            ring_attention_distributed::ring_steps(
                p, t, n, q_len, batch, num_heads, seq_q, seq_kv, scale,
            ).steps,
            trace,
        ),
        block_in(trace[8], 0, batch * num_heads * seq_kv * 128) == blocks(t.rank as int),
        forall|k: int|
            0 <= k < n - 1 ==> #[trigger] block_in(
                trace[11 + 3 * k],
                ring_attention_distributed::receiving(k),
                batch * num_heads * seq_kv * 128,
            ) == blocks(
                ring_attention_distributed::block_owner(
                    t.rank as int,
                    t.world_size as int,
                    k + 1,
                ),
            ),
    ensures
        ({
            let rows = batch * num_heads * seq_q;
            let q = meaning::read(trace[8], Place::of_param(0), rows * 128);
            let after = trace.last();
            &&& forall|i: int| #[trigger] after(Slot::Param(0), i) == trace[8](Slot::Param(0), i)
            &&& forall|k: int|
                #![trigger ring_attention_distributed::block_owner(
                    t.rank as int, t.world_size as int, k,
                )]
                0 <= k < n ==> {
                    let owner = ring_attention_distributed::block_owner(
                        t.rank as int,
                        t.world_size as int,
                        k,
                    );
                    &&& meaning::read(
                        after,
                        Place::scratch_at(4, owner * (rows * 128)),
                        rows * 128,
                    ) == block_results(a, q, blocks(owner), rows, seq_q, seq_kv, scale)
                    &&& meaning::read(after, Place::scratch_at(5, owner * rows), rows)
                        == block_logarithms(a, q, blocks(owner), rows, seq_q, seq_kv, scale)
                }
        }),
    decreases n,
{
    let ws = t.world_size as int;
    let rank = t.rank as int;
    let rows = batch * num_heads * seq_q;
    let kv = batch * num_heads * seq_kv * 128;
    let q = meaning::read(trace[8], Place::of_param(0), rows * 128);
    let all = ring_attention_distributed::ring_steps(
        p, t, n, q_len, batch, num_heads, seq_q, seq_kv, scale,
    );
    let earlier = ring_attention_distributed::ring_steps(
        p, t, n - 1, q_len, batch, num_heads, seq_q, seq_kv, scale,
    );
    lemma_turns(p, t, n, q_len, batch, num_heads, seq_q, seq_kv, scale);
    lemma_turns(p, t, n - 1, q_len, batch, num_heads, seq_q, seq_kv, scale);
    let at = 8 + 3 * (n - 1);
    assert(earlier.steps.len() == at);
    assert(all.steps.subrange(0, at) =~= earlier.steps);
    let step = n - 1;
    let owner = ring_attention_distributed::block_owner(rank, ws, step);
    assert(rows >= 0 && 0 <= kv) by (nonlinear_arith)
        requires
            rows == batch * num_heads * seq_q,
            kv == batch * num_heads * seq_kv * 128,
            batch > 0,
            num_heads > 0,
            seq_q > 0,
            seq_kv >= 0,
    ;
    let before = trace[at];
    if n > 1 {
        meaning::stretch_is_carried_out(a, all.steps, trace, 0, at);
        let part = trace.subrange(0, at + 1);
        assert forall|k: int| 0 <= k < n - 2 implies #[trigger] block_in(
            part[11 + 3 * k],
            ring_attention_distributed::receiving(k),
            kv,
        ) == blocks(ring_attention_distributed::block_owner(rank, ws, k + 1)) by {
            assert(part[11 + 3 * k] == trace[11 + 3 * k]);
            assert(block_in(trace[11 + 3 * k], ring_attention_distributed::receiving(k), kv)
                == blocks(ring_attention_distributed::block_owner(rank, ws, k + 1)));
        }
        assert(part[8] == trace[8]);
        lemma_ring(
            a, p, t, n - 1, q_len, batch, num_heads, seq_q, seq_kv, scale, blocks, part,
        );
        assert(part.last() == before);
        assert(block_in(
            trace[11 + 3 * (n - 2)],
            ring_attention_distributed::receiving(n - 2),
            kv,
        ) == blocks(ring_attention_distributed::block_owner(rank, ws, n - 2 + 1)));
        assert(ring_attention_distributed::receiving(n - 2)
            == ring_attention_distributed::sending(step));
    } else {
        assert(ring_attention_distributed::sending(0) == 0);
        ring_attention_distributed::ring_names_the_block_it_holds(rank, ws, 0);
        assert(owner == rank);
    }
    assert(block_in(before, ring_attention_distributed::sending(step), kv) == blocks(owner));
    assert(meaning::step_means(a, all.steps[at], trace[at], trace[at + 1]));
    assert(0 <= owner < ws) by (nonlinear_arith)
        requires
            owner == (rank + ws - step) % ws,
            ws > 0,
    ;
    lemma_block(
        a, q_len, batch, num_heads, seq_q, seq_kv, scale, step, owner, ws, before, trace[at + 1],
    );
    assert(meaning::read(before, Place::of_param(0), rows * 128) =~= q);
    let done = trace[at + 1];
    let after = trace.last();
    lemma_scratch_stays(a, all.steps, trace, t, n, at, kv);
    assert forall|k: int|
        #![trigger ring_attention_distributed::block_owner(rank, ws, k)]
        0 <= k < n implies {
        let other = ring_attention_distributed::block_owner(rank, ws, k);
        &&& meaning::read(after, Place::scratch_at(4, other * (rows * 128)), rows * 128)
            == block_results(a, q, blocks(other), rows, seq_q, seq_kv, scale)
        &&& meaning::read(after, Place::scratch_at(5, other * rows), rows) == block_logarithms(
            a,
            q,
            blocks(other),
            rows,
            seq_q,
            seq_kv,
            scale,
        )
    } by {
        let other = ring_attention_distributed::block_owner(rank, ws, k);
        assert(0 <= other < ws) by (nonlinear_arith)
            requires
                other == (rank + ws - k) % ws,
                ws > 0,
        ;
        assert(0 <= other * rows && other * rows <= ws * rows && other * (rows * 128) == other
            * rows * 128 && owner * (rows * 128) == owner * rows * 128 && 0 <= owner * rows <= ws
            * rows) by (nonlinear_arith)
            requires
                0 <= other < ws,
                0 <= owner < ws,
                rows >= 0,
        ;
        let x = meaning::read(after, Place::scratch_at(4, other * (rows * 128)), rows * 128);
        let y = meaning::read(after, Place::scratch_at(5, other * rows), rows);
        assert(x =~= meaning::read(
            done,
            Place::scratch_at(4, other * (rows * 128)),
            rows * 128,
        ));
        assert(y =~= meaning::read(done, Place::scratch_at(5, other * rows), rows));
        if k < step {
            ring_attention_distributed::ring_visits_every_block_once(rank, ws, other);
            assert(other != owner) by {
                let s = choose|s: int|
                    0 <= s < ws && ring_attention_distributed::block_owner(rank, ws, s) == other
                        && forall|o: int|
                        0 <= o < ws && #[trigger] ring_attention_distributed::block_owner(
                            rank,
                            ws,
                            o,
                        ) == other ==> o == s;
                assert(k == s);
                if other == owner {
                    assert(ring_attention_distributed::block_owner(rank, ws, step) == other);
                }
            }
            assert(other * rows + rows <= owner * rows || owner * rows + rows <= other * rows)
                by (nonlinear_arith)
                requires
                    other != owner,
                    rows >= 0,
            ;
            assert(x =~= meaning::read(
                before,
                Place::scratch_at(4, other * (rows * 128)),
                rows * 128,
            ));
            assert(y =~= meaning::read(before, Place::scratch_at(5, other * rows), rows));
        } else {
            assert(x =~= block_results(a, q, blocks(other), rows, seq_q, seq_kv, scale));
            assert(y =~= block_logarithms(a, q, blocks(other), rows, seq_q, seq_kv, scale));
        }
    }
}

/// The exchanges of a step leave the partial results and the queries alone.
proof fn lemma_scratch_stays<T>(
    a: Arithmetic<T>, steps: Seq<StepView>, trace: Seq<Memory<T>>, t: &NcclTransport, n: int,
    at: int, kv: int,
)
    requires
        meaning::carried_out(a, steps, trace),
        0 <= at < steps.len(),
        steps.len() == at + 1 || steps.len() == at + 3,
        steps.len() == at + 3 ==> {
            &&& steps[at + 1] matches StepView::Exchange { from, to, len, send_to, recv_from }
            &&& to.slot is Scratch && (to.slot->Scratch_0 < 4)
            &&& steps[at + 2] matches StepView::Exchange {
                from: f2,
                to: t2,
                len: l2,
                send_to: s2,
                recv_from: r2,
            }
            &&& t2.slot is Scratch && (t2.slot->Scratch_0 < 4)
        },
    ensures
        forall|i: int| #[trigger] trace.last()(Slot::Scratch(4), i) == trace[at + 1](
            Slot::Scratch(4),
            i,
        ),
        forall|i: int| #[trigger] trace.last()(Slot::Scratch(5), i) == trace[at + 1](
            Slot::Scratch(5),
            i,
        ),
        forall|i: int| #[trigger] trace.last()(Slot::Param(0), i) == trace[at + 1](
            Slot::Param(0),
            i,
        ),
{
    if steps.len() == at + 3 {
        assert(meaning::step_means(a, steps[at + 1], trace[at + 1], trace[at + 2]));
        assert(meaning::step_means(a, steps[at + 2], trace[at + 2], trace[at + 3]));
    }
}

/// After a turn of the ring a rank holds, for every query, attention over the keys of its head in
/// all blocks, each block whole and weighted on the values of the same block, merged in the order
/// of the blocks' owners: provided that every exchange brings the block that its sender worked on.
#[verifier::rlimit(80)]
pub proof fn ring_attention_bf16_distributed_attends_to_every_block<T>(
    a: Arithmetic<T>, t: &NcclTransport, q_len: int, k_len: int, v_len: int, o_len: int,
    batch: int, num_heads: int, seq_q: int, seq_kv: int, scale: F32,
    blocks: spec_fn(int) -> Block<T>, trace: Seq<Memory<T>>, i: int, c: int,
)
    requires
        0 < batch <= u32::MAX,
        0 < num_heads <= u32::MAX,
        0 < seq_q <= u32::MAX,
        0 <= seq_kv <= u32::MAX,
        t.rank < t.world_size,
        ({
            let p = ring_attention_distributed::ring_attention_bf16_distributed_program(
                t, q_len, k_len, v_len, o_len, batch, num_heads, seq_q, seq_kv, scale,
            );
            p.end is Done && meaning::carried_out(a, p.steps, trace)
        }),
        ({
            let kv = batch * num_heads * seq_kv * 128;
            &&& blocks(t.rank as int).keys == meaning::read(trace[0], Place::of_param(1), kv)
            &&& blocks(t.rank as int).values == meaning::read(trace[0], Place::of_param(2), kv)
            &&& blocks_arrive(trace, blocks, t.rank as int, t.world_size as int, kv)
        }),
        0 <= i < batch * num_heads * seq_q,
        0 <= c < 128,
    ensures
        ({
            let q = meaning::read(
                trace[0],
                Place::of_param(0),
                batch * num_heads * seq_q * 128,
            );
            trace.last()(Slot::Param(3), i * 128 + c) == (a.merged)(
                Seq::new(
                    t.world_size as nat,
                    |p: int|
                        (a.partial)(
                            meaning::row(q, 128, i),
                            meaning::part_of_head(blocks(p).keys, i / seq_q, seq_kv, 128, 1, 0),
                            meaning::part_of_head(blocks(p).values, i / seq_q, seq_kv, 128, 1, 0),
                            scale,
                            c,
                        ),
                ),
                Seq::new(
                    t.world_size as nat,
                    |p: int|
                        (a.partial_lse)(
                            meaning::row(q, 128, i),
                            meaning::part_of_head(blocks(p).keys, i / seq_q, seq_kv, 128, 1, 0),
                            scale,
                        ),
                ),
            )
        }),
{
    let ws = t.world_size as int;
    let rank = t.rank as int;
    let kv = batch * num_heads * seq_kv * 128;
    let rows = batch * num_heads * seq_q;
    let lse = ws * batch * num_heads * seq_q;
    let start = ring_attention_distributed::ring_prologue(kv, lse);
    let program = ring_attention_distributed::ring_attention_bf16_distributed_program(
        t, q_len, k_len, v_len, o_len, batch, num_heads, seq_q, seq_kv, scale,
    );
    let turned = ring_attention_distributed::ring_steps(
        start, t, ws, q_len, batch, num_heads, seq_q, seq_kv, scale,
    );
    assert(start.steps.len() == 8);
    lemma_turns(start, t, ws, q_len, batch, num_heads, seq_q, seq_kv, scale);
    let steps = program.steps;
    let count = turned.steps.len() as int;
    assert(ws * (batch * num_heads * seq_q) == lse && rows >= 0 && kv >= 0 && num_heads * batch
        * seq_q == rows) by (nonlinear_arith)
        requires
            lse == ws * batch * num_heads * seq_q,
            rows == batch * num_heads * seq_q,
            kv == batch * num_heads * seq_kv * 128,
            batch > 0,
            num_heads > 0,
            seq_q > 0,
            seq_kv >= 0,
    ;
    assert(steps.subrange(0, count) =~= turned.steps);
    meaning::stretch_is_carried_out(a, steps, trace, 0, count);
    let part = trace.subrange(0, count + 1);
    assert forall|j: int| 0 <= j < 8 implies steps[j] == #[trigger] start.steps[j] by {
        assert(steps[j] == turned.steps.subrange(0, 8)[j]);
    }
    lemma_prologue(a, start, kv, lse, steps, trace);
    assert(part[8] == trace[8]);
    assert(block_in(trace[8], 0, kv) =~= blocks(rank));
    assert forall|k: int| 0 <= k < ws - 1 implies #[trigger] block_in(
        part[11 + 3 * k],
        ring_attention_distributed::receiving(k),
        kv,
    ) == blocks(ring_attention_distributed::block_owner(rank, ws, k + 1)) by {
        assert(part[11 + 3 * k] == trace[11 + 3 * k]);
        assert(block_in(trace[11 + 3 * k], ring_attention_distributed::receiving(k), kv) == blocks(
            ring_attention_distributed::block_owner(rank, ws, k + 1),
        ));
    }
    lemma_ring(
        a, start, t, ws, q_len, batch, num_heads, seq_q, seq_kv, scale, blocks, part,
    );
    let m = trace[count];
    assert(part.last() == m);
    let q = meaning::read(trace[0], Place::of_param(0), rows * 128);
    assert(meaning::read(trace[8], Place::of_param(0), rows * 128) =~= q);
    assert(meaning::step_means(a, steps[count], trace[count], trace[count + 1]));
    let partials = meaning::read(m, Place::of_scratch(4), ws * rows * 128);
    let lses = meaning::read(m, Place::of_scratch(5), ws * rows);
    let merge = |i: int, c: int|
        (a.merged)(
            Seq::new(ws as nat, |p: int| meaning::entry(partials, 128, p * rows + i, c)),
            Seq::new(ws as nat, |p: int| meaning::entry(lses, 1, p * rows + i, 0)),
        );
    meaning::matrix_has_its_entries(rows, 128, merge, i, c);
    assert(trace.last() == meaning::written(
        m,
        Place::of_param(3),
        meaning::merged_results(a, partials, lses, rows, 128, ws),
    ));
    assert forall|p: int| 0 <= p < ws implies #[trigger] meaning::entry(
        partials,
        128,
        p * rows + i,
        c,
    ) == (a.partial)(
        meaning::row(q, 128, i),
        meaning::part_of_head(blocks(p).keys, i / seq_q, seq_kv, 128, 1, 0),
        meaning::part_of_head(blocks(p).values, i / seq_q, seq_kv, 128, 1, 0),
        scale,
        c,
    ) && meaning::entry(lses, 1, p * rows + i, 0) == (a.partial_lse)(
        meaning::row(q, 128, i),
        meaning::part_of_head(blocks(p).keys, i / seq_q, seq_kv, 128, 1, 0),
        scale,
    ) by {
        lemma_entry_of_owner(
            a, m, q, blocks, rank, ws, rows, seq_q, seq_kv, scale, p, i, c,
        );
    }
    assert(Seq::new(ws as nat, |p: int| meaning::entry(partials, 128, p * rows + i, c))
        =~= Seq::new(
        ws as nat,
        |p: int|
            (a.partial)(
                meaning::row(q, 128, i),
                meaning::part_of_head(blocks(p).keys, i / seq_q, seq_kv, 128, 1, 0),
                meaning::part_of_head(blocks(p).values, i / seq_q, seq_kv, 128, 1, 0),
                scale,
                c,
            ),
    ));
    assert forall|p: int| 0 <= p < ws implies #[trigger] meaning::entry(
        lses,
        1,
        p * rows + i,
        0,
    ) == (a.partial_lse)(
        meaning::row(q, 128, i),
        meaning::part_of_head(blocks(p).keys, i / seq_q, seq_kv, 128, 1, 0),
        scale,
    ) by {
        lemma_entry_of_owner(
            a, m, q, blocks, rank, ws, rows, seq_q, seq_kv, scale, p, i, c,
        );
    }
    assert(Seq::new(ws as nat, |p: int| meaning::entry(lses, 1, p * rows + i, 0)) =~= Seq::new(
        ws as nat,
        |p: int|
            (a.partial_lse)(
                meaning::row(q, 128, i),
                meaning::part_of_head(blocks(p).keys, i / seq_q, seq_kv, 128, 1, 0),
                scale,
            ),
    ));
}

/// The partial result of an owner's block, among all partial results.
proof fn lemma_entry_of_owner<T>(
    a: Arithmetic<T>, m: Memory<T>, q: Seq<T>, blocks: spec_fn(int) -> Block<T>, rank: int,
    ws: int, rows: int, seq_q: int, seq_kv: int, scale: F32, p: int, i: int, c: int,
)
    requires
        0 <= rank < ws,
        0 <= p < ws,
        0 <= i < rows,
        0 <= c < 128,
        ws * rows * 128 <= u32::MAX,
        forall|k: int|
            #![trigger ring_attention_distributed::block_owner(rank, ws, k)]
            0 <= k < ws ==> {
                let owner = ring_attention_distributed::block_owner(rank, ws, k);
                &&& meaning::read(m, Place::scratch_at(4, owner * (rows * 128)), rows * 128)
                    == block_results(a, q, blocks(owner), rows, seq_q, seq_kv, scale)
                &&& meaning::read(m, Place::scratch_at(5, owner * rows), rows)
                    == block_logarithms(a, q, blocks(owner), rows, seq_q, seq_kv, scale)
            },
    ensures
        meaning::entry(
            meaning::read(m, Place::of_scratch(4), ws * rows * 128),
            128,
            p * rows + i,
            c,
        ) == (a.partial)(
            meaning::row(q, 128, i),
            meaning::part_of_head(blocks(p).keys, i / seq_q, seq_kv, 128, 1, 0),
            meaning::part_of_head(blocks(p).values, i / seq_q, seq_kv, 128, 1, 0),
            scale,
            c,
        ),
        meaning::entry(meaning::read(m, Place::of_scratch(5), ws * rows), 1, p * rows + i, 0) == (
        a.partial_lse)(
            meaning::row(q, 128, i),
            meaning::part_of_head(blocks(p).keys, i / seq_q, seq_kv, 128, 1, 0),
            scale,
        ),
{
    ring_attention_distributed::ring_visits_every_block_once(rank, ws, p);
    let k = choose|k: int|
        0 <= k < ws && ring_attention_distributed::block_owner(rank, ws, k) == p && forall|o: int|
            0 <= o < ws && #[trigger] ring_attention_distributed::block_owner(rank, ws, o) == p
                ==> o == k;
    assert(ring_attention_distributed::block_owner(rank, ws, k) == p);
    assert(0 <= p * rows && p * rows + rows <= ws * rows && p * (rows * 128) == p * rows * 128)
        by (nonlinear_arith)
        requires
            0 <= p < ws,
            rows > 0,
    ;
    let x = meaning::read(m, Place::scratch_at(4, p * (rows * 128)), rows * 128);
    let y = meaning::read(m, Place::scratch_at(5, p * rows), rows);
    let keys = blocks(p).keys;
    let values = blocks(p).values;
    meaning::matrix_has_its_entries(
        rows,
        128,
        |i: int, c: int|
            (a.partial)(
                meaning::row(q, 128, i),
                meaning::part_of_head(keys, i / seq_q, seq_kv, 128, 1, 0),
                meaning::part_of_head(values, i / seq_q, seq_kv, 128, 1, 0),
                scale,
                c,
            ),
        i,
        c,
    );
    meaning::matrix_has_its_entries(
        rows,
        1,
        |i: int, c: int|
            (a.partial_lse)(
                meaning::row(q, 128, i),
                meaning::part_of_head(keys, i / seq_q, seq_kv, 128, 1, 0),
                scale,
            ),
        i,
        0,
    );
    assert((p * rows + i) * 128 + c == p * (rows * 128) + (i * 128 + c));
    assert(meaning::entry(
        meaning::read(m, Place::of_scratch(4), ws * rows * 128),
        128,
        p * rows + i,
        c,
    ) == x[i * 128 + c]);
    assert(meaning::entry(meaning::read(m, Place::of_scratch(5), ws * rows), 1, p * rows + i, 0)
        == y[i]);
}

/// Before the first step the rank's own block is ready, and the queries are as they were.
pub(crate) proof fn lemma_prologue<T>(
    a: Arithmetic<T>, start: ProgramView, kv: int, lse: int, steps: Seq<StepView>,
    trace: Seq<Memory<T>>,
)
    requires
        kv >= 0,
        start == ring_attention_distributed::ring_prologue(kv, lse),
        steps.len() >= 8,
        forall|j: int| 0 <= j < 8 ==> steps[j] == #[trigger] start.steps[j],
        meaning::carried_out(a, steps, trace),
    ensures
        meaning::read(trace[8], Place::of_scratch(0), kv) == meaning::read(
            trace[0],
            Place::of_param(1),
            kv,
        ),
        meaning::read(trace[8], Place::of_scratch(1), kv) == meaning::read(
            trace[0],
            Place::of_param(2),
            kv,
        ),
        forall|i: int| #[trigger] trace[8](Slot::Param(0), i) == trace[0](Slot::Param(0), i),
{
    assert(start.steps[0] == ring_attention_distributed::block(0, kv));
    assert(meaning::step_means(a, steps[0], trace[0], trace[1]));
    assert(start.steps[1] == ring_attention_distributed::block(1, kv));
    assert(meaning::step_means(a, steps[1], trace[1], trace[2]));
    assert(start.steps[2] == ring_attention_distributed::block(2, kv));
    assert(meaning::step_means(a, steps[2], trace[2], trace[3]));
    assert(start.steps[3] == ring_attention_distributed::block(3, kv));
    assert(meaning::step_means(a, steps[3], trace[3], trace[4]));
    assert(start.steps[4] == StepView::Copy {
        from: Place::of_param(1),
        to: Place::of_scratch(0),
        len: kv,
    });
    assert(meaning::step_means(a, steps[4], trace[4], trace[5]));
    assert(start.steps[5] == StepView::Copy {
        from: Place::of_param(2),
        to: Place::of_scratch(1),
        len: kv,
    });
    assert(meaning::step_means(a, steps[5], trace[5], trace[6]));
    assert(start.steps[6] == ring_attention::partial(4, lse * 128));
    assert(meaning::step_means(a, steps[6], trace[6], trace[7]));
    assert(start.steps[7] == ring_attention::partial(5, lse));
    assert(meaning::step_means(a, steps[7], trace[7], trace[8]));
    assert(meaning::read(trace[4], Place::of_param(1), kv) =~= meaning::read(
        trace[0],
        Place::of_param(1),
        kv,
    ));
    assert(meaning::read(trace[5], Place::of_param(2), kv) =~= meaning::read(
        trace[0],
        Place::of_param(2),
        kv,
    ));
    assert(meaning::read(trace[8], Place::of_scratch(0), kv) =~= meaning::read(
        trace[4],
        Place::of_param(1),
        kv,
    ));
    assert(meaning::read(trace[8], Place::of_scratch(1), kv) =~= meaning::read(
        trace[5],
        Place::of_param(2),
        kv,
    ));
}

} // verus!
