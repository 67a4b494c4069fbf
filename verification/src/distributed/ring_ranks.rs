//! Ring attention on all ranks at once: which block reaches which rank, and what all of them make of
//! it.
use crate::distributed::ring_attention_distributed;
use crate::distributed::ring_exchange;
use crate::distributed::ring_exchange::Block;
use crate::distributed::transport::NcclTransport;
use crate::meaning;
use crate::meaning::{Arithmetic, Memory};
use crate::plan::{F32, Place, Slot};
use crate::program::{BindingView, ProgramView, StepView};
use vstd::prelude::*;

verus! {

/// The place of rank `r` on a ring.
pub open spec fn member(ranks: u32, r: int) -> NcclTransport {
    NcclTransport { world_size: ranks, rank: r as u32 }
}

/// What each rank does: its own ring attention, all with the same sizes.
pub open spec fn programs(
    ranks: u32, q_len: int, k_len: int, v_len: int, o_len: int, batch: int, num_heads: int,
    seq_q: int, seq_kv: int, scale: F32,
) -> spec_fn(int) -> ProgramView {
    |r: int|
        ring_attention_distributed::ring_attention_bf16_distributed_program(
            &member(ranks, r), q_len, k_len, v_len, o_len, batch, num_heads, seq_q, seq_kv, scale,
        )
}

/// Whether a step sends `len` numbers to rank `r`.
pub open spec fn sends_to(s: StepView, r: int, len: int) -> bool {
    s is Exchange && s->Exchange_send_to == r && s->Exchange_len == len
}

/// Whether exchanges meet: where a rank receives from another one that sends to it in the same step,
/// it gets the numbers that the other one sends.
pub open spec fn exchanges_meet<T>(
    program: spec_fn(int) -> ProgramView, trace: spec_fn(int) -> Seq<Memory<T>>, ranks: int,
) -> bool {
    forall|r: int, j: int|
        #![trigger program(r).steps[j]]
        0 <= r < ranks && 0 <= j < program(r).steps.len() && program(r).steps[j] is Exchange ==> {
            let s = program(r).steps[j];
            let other = s->Exchange_recv_from;
            let sent = program(other).steps[j];
            0 <= other < ranks && j < program(other).steps.len() && sends_to(
                sent,
                r,
                s->Exchange_len,
            ) ==> meaning::read(trace(r)[j + 1], s->Exchange_to, s->Exchange_len) == meaning::read(
                trace(other)[j],
                sent->Exchange_from,
                s->Exchange_len,
            )
        }
}

/// The block that a rank brings with it.
pub open spec fn own_block<T>(m: Memory<T>, n: int) -> Block<T> {
    Block {
        keys: meaning::read(m, Place::of_param(1), n),
        values: meaning::read(m, Place::of_param(2), n),
    }
}

/// The steps of fewer turns begin those of more.
proof fn lemma_turns_go_on(
    p: ProgramView, t: &NcclTransport, m: int, n: int, q_len: int, batch: int, num_heads: int,
    seq_q: int, seq_kv: int, scale: F32,
)
    requires
        p.end is Done,
        0 <= m <= n <= t.world_size,
    ensures
        ({
            let x = ring_attention_distributed::ring_steps(
                p, t, m, q_len, batch, num_heads, seq_q, seq_kv, scale,
            ).steps;
            let y = ring_attention_distributed::ring_steps(
                p, t, n, q_len, batch, num_heads, seq_q, seq_kv, scale,
            ).steps;
            x.len() <= y.len() && forall|j: int| 0 <= j < x.len() ==> #[trigger] y[j] == x[j]
        }),
    decreases n - m,
{
    if m < n {
        lemma_turns_go_on(p, t, m, n - 1, q_len, batch, num_heads, seq_q, seq_kv, scale);
        ring_exchange::lemma_turns(p, t, n - 1, q_len, batch, num_heads, seq_q, seq_kv, scale);
        ring_exchange::lemma_turns(p, t, n, q_len, batch, num_heads, seq_q, seq_kv, scale);
        let y = ring_attention_distributed::ring_steps(
            p, t, n - 1, q_len, batch, num_heads, seq_q, seq_kv, scale,
        ).steps;
        let z = ring_attention_distributed::ring_steps(
            p, t, n, q_len, batch, num_heads, seq_q, seq_kv, scale,
        ).steps;
        assert(forall|j: int| 0 <= j < y.len() ==> #[trigger] z[j] == y[j]);
    }
}

/// The steps of one turn that is not the last.
#[verifier::rlimit(40)]
proof fn lemma_turn(
    t: &NcclTransport, k: int, q_len: int, k_len: int, v_len: int, o_len: int, batch: int,
    num_heads: int, seq_q: int, seq_kv: int, scale: F32,
)
    requires
        t.rank < t.world_size,
        0 <= k,
        k + 1 < t.world_size,
        ring_attention_distributed::ring_attention_bf16_distributed_program(
            t, q_len, k_len, v_len, o_len, batch, num_heads, seq_q, seq_kv, scale,
        ).end is Done,
    ensures
        ({
            let steps = ring_attention_distributed::ring_attention_bf16_distributed_program(
                t, q_len, k_len, v_len, o_len, batch, num_heads, seq_q, seq_kv, scale,
            ).steps;
            let kv = batch * num_heads * seq_kv * 128;
            let at = 8 + 3 * k;
            let rank = t.rank as int;
            let ws = t.world_size as int;
            let from = ring_attention_distributed::sending(k);
            let to = ring_attention_distributed::receiving(k);
            let plan = ring_attention_distributed::block_plan(
                q_len, batch, num_heads, seq_q, seq_kv, scale,
            );
            &&& at + 3 < steps.len()
            &&& plan is Launch
            &&& steps[at] == StepView::Launch(
                BindingView {
                    places: ring_attention_distributed::block_places(
                        k,
                        ring_attention_distributed::block_owner(rank, ws, k),
                        batch * num_heads * seq_q,
                    ),
                    base: 0,
                }.launch(plan->Launch_0),
            )
            &&& steps[at + 1] == (StepView::Exchange {
                from: Place::of_scratch(from),
                to: Place::of_scratch(to),
                len: kv,
                send_to: (rank + 1) % ws,
                recv_from: (rank + ws - 1) % ws,
            })
            &&& steps[at + 2] == (StepView::Exchange {
                from: Place::of_scratch((from + 1) as u32),
                to: Place::of_scratch((to + 1) as u32),
                len: kv,
                send_to: (rank + 1) % ws,
                recv_from: (rank + ws - 1) % ws,
            })
        }),
{
    let ws = t.world_size as int;
    let kv = batch * num_heads * seq_kv * 128;
    let start = ring_attention_distributed::ring_prologue(
        kv,
        ws * batch * num_heads * seq_q,
    );
    assert(start.steps.len() == 8);
    ring_exchange::lemma_turns(start, t, k, q_len, batch, num_heads, seq_q, seq_kv, scale);
    ring_exchange::lemma_turns(start, t, k + 1, q_len, batch, num_heads, seq_q, seq_kv, scale);
    ring_exchange::lemma_turns(start, t, ws, q_len, batch, num_heads, seq_q, seq_kv, scale);
    lemma_turns_go_on(start, t, k + 1, ws, q_len, batch, num_heads, seq_q, seq_kv, scale);
    let before = ring_attention_distributed::ring_steps(
        start, t, k, q_len, batch, num_heads, seq_q, seq_kv, scale,
    );
    let turned = ring_attention_distributed::ring_steps(
        start, t, k + 1, q_len, batch, num_heads, seq_q, seq_kv, scale,
    );
    let whole = ring_attention_distributed::ring_steps(
        start, t, ws, q_len, batch, num_heads, seq_q, seq_kv, scale,
    );
    let steps = ring_attention_distributed::ring_attention_bf16_distributed_program(
        t, q_len, k_len, v_len, o_len, batch, num_heads, seq_q, seq_kv, scale,
    ).steps;
    let at = 8 + 3 * k;
    assert(before.steps.len() == at);
    assert(turned.steps.len() == at + 3);
    assert forall|j: int| at <= j < at + 3 implies #[trigger] steps[j] == turned.steps[j] by {
        assert(whole.steps[j] == turned.steps[j]);
    }
}

/// The rank that sends keeps the block at hand through its own step and the first exchange.
#[verifier::rlimit(40)]
proof fn lemma_kept<T>(
    a: Arithmetic<T>, t: &NcclTransport, h: int, q_len: int, k_len: int, v_len: int, o_len: int,
    batch: int, num_heads: int, seq_q: int, seq_kv: int, scale: F32, trace: Seq<Memory<T>>,
)
    requires
        0 < batch <= u32::MAX,
        0 < num_heads <= u32::MAX,
        0 < seq_q <= u32::MAX,
        0 <= seq_kv <= u32::MAX,
        t.rank < t.world_size,
        0 <= h,
        h + 1 < t.world_size,
        ({
            let p = ring_attention_distributed::ring_attention_bf16_distributed_program(
                t, q_len, k_len, v_len, o_len, batch, num_heads, seq_q, seq_kv, scale,
            );
            p.end is Done && meaning::carried_out(a, p.steps, trace)
        }),
    ensures
        ({
            let kv = batch * num_heads * seq_kv * 128;
            let at = 8 + 3 * h;
            let from = ring_attention_distributed::sending(h);
            let behind = Place::of_scratch((from + 1) as u32);
            let to = Place::of_scratch(ring_attention_distributed::receiving(h));
            &&& meaning::read(trace[at + 1], Place::of_scratch(from), kv) == meaning::read(
                trace[at],
                Place::of_scratch(from),
                kv,
            )
            &&& meaning::read(trace[at + 2], behind, kv) == meaning::read(trace[at], behind, kv)
            &&& meaning::read(trace[at + 3], to, kv) == meaning::read(trace[at + 2], to, kv)
        }),
{
    let ws = t.world_size as int;
    let kv = batch * num_heads * seq_kv * 128;
    let rows = batch * num_heads * seq_q;
    let at = 8 + 3 * h;
    let from = ring_attention_distributed::sending(h);
    let behind = Place::of_scratch((from + 1) as u32);
    let to = Place::of_scratch(ring_attention_distributed::receiving(h));
    let owner = ring_attention_distributed::block_owner(t.rank as int, ws, h);
    lemma_turn(t, h, q_len, k_len, v_len, o_len, batch, num_heads, seq_q, seq_kv, scale);
    assert(ws * rows == ws * batch * num_heads * seq_q) by (nonlinear_arith)
        requires
            rows == batch * num_heads * seq_q,
    ;
    assert(0 <= owner < ws) by (nonlinear_arith)
        requires
            owner == (t.rank + ws - h) % ws,
            ws > 0,
    ;
    let y = ring_attention_distributed::ring_attention_bf16_distributed_program(
        t, q_len, k_len, v_len, o_len, batch, num_heads, seq_q, seq_kv, scale,
    ).steps;
    assert(meaning::step_means(a, y[at], trace[at], trace[at + 1]));
    assert(meaning::step_means(a, y[at + 1], trace[at + 1], trace[at + 1 + 1]));
    assert(meaning::step_means(a, y[at + 2], trace[at + 2], trace[at + 2 + 1]));
    ring_exchange::lemma_block(
        a, q_len, batch, num_heads, seq_q, seq_kv, scale, h, owner, ws, trace[at], trace[at + 1],
    );
    assert(meaning::read(trace[at + 1], Place::of_scratch(from), kv) =~= meaning::read(
        trace[at],
        Place::of_scratch(from),
        kv,
    ));
    assert(meaning::read(trace[at + 1], behind, kv) =~= meaning::read(trace[at], behind, kv));
    assert(meaning::read(trace[at + 2], behind, kv) =~= meaning::read(trace[at + 1], behind, kv));
    assert(meaning::read(trace[at + 3], to, kv) =~= meaning::read(trace[at + 2], to, kv));
}

/// The block that a rank begins with is its own.
proof fn lemma_held_first<T>(
    a: Arithmetic<T>, t: &NcclTransport, q_len: int, k_len: int, v_len: int, o_len: int,
    batch: int, num_heads: int, seq_q: int, seq_kv: int, scale: F32, trace: Seq<Memory<T>>,
)
    requires
        batch > 0,
        num_heads > 0,
        seq_kv >= 0,
        t.rank < t.world_size,
        ({
            let p = ring_attention_distributed::ring_attention_bf16_distributed_program(
                t, q_len, k_len, v_len, o_len, batch, num_heads, seq_q, seq_kv, scale,
            );
            p.end is Done && meaning::carried_out(a, p.steps, trace)
        }),
    ensures
        ring_exchange::block_in(trace[8], 0, batch * num_heads * seq_kv * 128) == own_block(
            trace[0],
            batch * num_heads * seq_kv * 128,
        ),
{
    let ws = t.world_size as int;
    let kv = batch * num_heads * seq_kv * 128;
    let lse = ws * batch * num_heads * seq_q;
    assert(kv >= 0) by (nonlinear_arith)
        requires
            kv == batch * num_heads * seq_kv * 128,
            batch > 0,
            num_heads > 0,
            seq_kv >= 0,
    ;
    let start = ring_attention_distributed::ring_prologue(kv, lse);
    let steps = ring_attention_distributed::ring_attention_bf16_distributed_program(
        t, q_len, k_len, v_len, o_len, batch, num_heads, seq_q, seq_kv, scale,
    ).steps;
    assert(start.steps.len() == 8);
    ring_exchange::lemma_turns(start, t, ws, q_len, batch, num_heads, seq_q, seq_kv, scale);
    let turned = ring_attention_distributed::ring_steps(
        start, t, ws, q_len, batch, num_heads, seq_q, seq_kv, scale,
    );
    assert forall|j: int| 0 <= j < 8 implies steps[j] == #[trigger] start.steps[j] by {
        assert(turned.steps.subrange(0, 8)[j] == start.steps[j]);
    }
    ring_exchange::lemma_prologue(a, start, kv, lse, steps, trace);
}

/// What a rank receives in an exchange that meets another one.
proof fn lemma_received<T>(
    program: spec_fn(int) -> ProgramView, trace: spec_fn(int) -> Seq<Memory<T>>, ranks: int,
    r: int, f: int, j: int, from: Place, to: Place, len: int,
)
    requires
        exchanges_meet(program, trace, ranks),
        0 <= r < ranks,
        0 <= f < ranks,
        0 <= j < program(r).steps.len(),
        j < program(f).steps.len(),
        program(r).steps[j] is Exchange,
        program(r).steps[j]->Exchange_to == to,
        program(r).steps[j]->Exchange_len == len,
        program(r).steps[j]->Exchange_recv_from == f,
        sends_to(program(f).steps[j], r, len),
        program(f).steps[j]->Exchange_from == from,
    ensures
        meaning::read(trace(r)[j + 1], to, len) == meaning::read(trace(f)[j], from, len),
{
}

/// Before its step number `k` every rank holds the block of the rank that many places before it.
#[verifier::rlimit(80)]
proof fn lemma_held<T>(
    a: Arithmetic<T>, ranks: u32, q_len: int, k_len: int, v_len: int, o_len: int, batch: int,
    num_heads: int, seq_q: int, seq_kv: int, scale: F32, trace: spec_fn(int) -> Seq<Memory<T>>,
    r: int, k: int,
)
    requires
        0 < batch <= u32::MAX,
        0 < num_heads <= u32::MAX,
        0 < seq_q <= u32::MAX,
        0 <= seq_kv <= u32::MAX,
        0 <= r < ranks,
        0 <= k < ranks,
        ({
            let program = programs(
                ranks, q_len, k_len, v_len, o_len, batch, num_heads, seq_q, seq_kv, scale,
            );
            &&& forall|x: int|
                0 <= x < ranks ==> (#[trigger] program(x)).end is Done && meaning::carried_out(
                    a,
                    program(x).steps,
                    trace(x),
                )
            &&& exchanges_meet(program, trace, ranks as int)
        }),
    ensures
        ({
            let kv = batch * num_heads * seq_kv * 128;
            ring_exchange::block_in(
                trace(r)[8 + 3 * k],
                ring_attention_distributed::sending(k),
                kv,
            ) == own_block(
                trace(ring_attention_distributed::block_owner(r, ranks as int, k))[0],
                kv,
            )
        }),
    decreases k,
{
    let program = programs(
        ranks, q_len, k_len, v_len, o_len, batch, num_heads, seq_q, seq_kv, scale,
    );
    let ws = ranks as int;
    let kv = batch * num_heads * seq_kv * 128;
    assert(program(r).end is Done);
    if k == 0 {
        lemma_held_first(
            a, &member(ranks, r), q_len, k_len, v_len, o_len, batch, num_heads, seq_q, seq_kv,
            scale, trace(r),
        );
        ring_attention_distributed::ring_names_the_block_it_holds(r, ws, 0);
        assert(ring_attention_distributed::sending(0) == 0);
    } else {
        let h = k - 1;
        let f = ring_attention_distributed::prev_rank(r, ws);
        ring_attention_distributed::ring_neighbours_agree(r, ws);
        assert(program(f).end is Done);
        lemma_held(
            a, ranks, q_len, k_len, v_len, o_len, batch, num_heads, seq_q, seq_kv, scale, trace,
            f, h,
        );
        ring_attention_distributed::ring_names_the_block_it_holds(r, ws, k);
        ring_attention_distributed::ring_names_the_block_it_holds(f, ws, h);
        let at = 8 + 3 * h;
        let from = ring_attention_distributed::sending(h);
        let to = ring_attention_distributed::receiving(h);
        let behind = Place::of_scratch((from + 1) as u32);
        lemma_turn(
            &member(ranks, r), h, q_len, k_len, v_len, o_len, batch, num_heads, seq_q, seq_kv,
            scale,
        );
        lemma_turn(
            &member(ranks, f), h, q_len, k_len, v_len, o_len, batch, num_heads, seq_q, seq_kv,
            scale,
        );
        lemma_kept(
            a, &member(ranks, r), h, q_len, k_len, v_len, o_len, batch, num_heads, seq_q, seq_kv,
            scale, trace(r),
        );
        lemma_kept(
            a, &member(ranks, f), h, q_len, k_len, v_len, o_len, batch, num_heads, seq_q, seq_kv,
            scale, trace(f),
        );
        lemma_received(
            program, trace, ws, r, f, at + 1, Place::of_scratch(from), Place::of_scratch(to), kv,
        );
        lemma_received(
            program, trace, ws, r, f, at + 2, behind, Place::of_scratch((to + 1) as u32), kv,
        );
        assert(at + 1 + 1 == at + 2 && at + 2 + 1 == at + 3 && 8 + 3 * k == at + 3);
        assert(ring_attention_distributed::sending(k) == to);
    }
}

/// When all ranks of a ring carry out their programs and the exchanges meet, every rank is left with
/// attention of its queries over the blocks of all ranks: each block whole, its keys with its values,
/// merged in the order of the ranks.
#[verifier::rlimit(40)]
pub proof fn ring_attention_bf16_distributed_attends_on_every_rank<T>(
    a: Arithmetic<T>, ranks: u32, q_len: int, k_len: int, v_len: int, o_len: int, batch: int,
    num_heads: int, seq_q: int, seq_kv: int, scale: F32, trace: spec_fn(int) -> Seq<Memory<T>>,
    rank: int, i: int, c: int,
)
    requires
        0 < batch <= u32::MAX,
        0 < num_heads <= u32::MAX,
        0 < seq_q <= u32::MAX,
        0 <= seq_kv <= u32::MAX,
        0 <= rank < ranks,
        ({
            let program = programs(
                ranks, q_len, k_len, v_len, o_len, batch, num_heads, seq_q, seq_kv, scale,
            );
            &&& forall|x: int|
                0 <= x < ranks ==> (#[trigger] program(x)).end is Done && meaning::carried_out(
                    a,
                    program(x).steps,
                    trace(x),
                )
            &&& exchanges_meet(program, trace, ranks as int)
        }),
        0 <= i < batch * num_heads * seq_q,
        0 <= c < 128,
    ensures
        ({
            let kv = batch * num_heads * seq_kv * 128;
            let q = meaning::read(
                trace(rank)[0],
                Place::of_param(0),
                batch * num_heads * seq_q * 128,
            );
            let block = |p: int| own_block(trace(p)[0], kv);
            trace(rank).last()(Slot::Param(3), i * 128 + c) == (a.merged)(
                Seq::new(
                    ranks as nat,
                    |p: int|
                        (a.partial)(
                            meaning::row(q, 128, i),
                            meaning::part_of_head(block(p).keys, i / seq_q, seq_kv, 128, 1, 0),
                            meaning::part_of_head(block(p).values, i / seq_q, seq_kv, 128, 1, 0),
                            scale,
                            c,
                        ),
                ),
                Seq::new(
                    ranks as nat,
                    |p: int|
                        (a.partial_lse)(
                            meaning::row(q, 128, i),
                            meaning::part_of_head(block(p).keys, i / seq_q, seq_kv, 128, 1, 0),
                            scale,
                        ),
                ),
            )
        }),
{
    let program = programs(
        ranks, q_len, k_len, v_len, o_len, batch, num_heads, seq_q, seq_kv, scale,
    );
    let ws = ranks as int;
    let kv = batch * num_heads * seq_kv * 128;
    let block = |p: int| own_block(trace(p)[0], kv);
    let t = member(ranks, rank);
    assert(program(rank).end is Done);
    assert forall|k: int| 0 <= k < ws - 1 implies #[trigger] ring_exchange::block_in(
        trace(rank)[11 + 3 * k],
        ring_attention_distributed::receiving(k),
        kv,
    ) == block(ring_attention_distributed::block_owner(rank, ws, k + 1)) by {
        lemma_held(
            a, ranks, q_len, k_len, v_len, o_len, batch, num_heads, seq_q, seq_kv, scale, trace,
            rank, k + 1,
        );
        assert(8 + 3 * (k + 1) == 11 + 3 * k);
        assert(ring_attention_distributed::sending(k + 1) == ring_attention_distributed::receiving(
            k,
        ));
    }
    assert(ring_exchange::blocks_arrive(trace(rank), block, rank, ws, kv));
    ring_exchange::ring_attention_bf16_distributed_attends_to_every_block(
        a, &t, q_len, k_len, v_len, o_len, batch, num_heads, seq_q, seq_kv, scale, block,
        trace(rank), i, c,
    );
}

} // verus!
