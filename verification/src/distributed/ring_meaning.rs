//! Ring attention as numbers: what the sweep leaves in memory.
use crate::attention::paged;
use crate::distributed::ring_attention;
use crate::meaning;
use crate::meaning::{Arithmetic, Memory};
use crate::plan::{Arg, F32, Place, Plan, Slot};
use crate::program::{BindingView, ProgramView, StepView};
use crate::shape;
use vstd::prelude::*;

verus! {

/// The result for query row `i` and column `c`: attention over the keys of its head in `parts`
/// parts, merged.
pub open spec fn merged_attention<T>(
    a: Arithmetic<T>, q: Seq<T>, k: Seq<T>, v: Seq<T>, seq_q: int, seq_kv: int, scale: F32,
    parts: int, i: int, c: int,
) -> T {
    (a.merged)(
        Seq::new(
            parts as nat,
            |p: int|
                (a.partial)(
                    meaning::row(q, 128, i),
                    meaning::part_of_head(k, i / seq_q, seq_kv, 128, parts, p),
                    meaning::part_of_head(v, i / seq_q, seq_kv, 128, parts, p),
                    scale,
                    c,
                ),
        ),
        Seq::new(
            parts as nat,
            |p: int|
                (a.partial_lse)(
                    meaning::row(q, 128, i),
                    meaning::part_of_head(k, i / seq_q, seq_kv, 128, parts, p),
                    scale,
                ),
        ),
    )
}

/// Whether merging the parts of a head gives attention over the whole head.
pub open spec fn merging_is_exact<T>(
    a: Arithmetic<T>, q: Seq<T>, k: Seq<T>, v: Seq<T>, seq_q: int, seq_kv: int, scale: F32,
    parts: int,
) -> bool {
    forall|i: int, c: int|
        #[trigger] merged_attention(a, q, k, v, seq_q, seq_kv, scale, parts, i, c) == (a.attended)(
            meaning::row(q, 128, i),
            meaning::head_rows(k, i / seq_q, seq_kv, 128),
            meaning::head_rows(v, i / seq_q, seq_kv, 128),
            scale,
            c,
        )
}

/// The memory that a launch on one part of the keys works on.
spec fn chunk_places() -> Seq<Place> {
    seq![
        Place::of_param(0), Place::of_param(1), Place::of_param(2), Place::of_scratch(0),
        Place::of_scratch(1),
    ]
}

proof fn lemma_sizes(num_chunks: int, batch: int, num_heads: int, seq_q: int, c: int)
    requires
        num_chunks > 0,
        batch >= 0,
        num_heads >= 0,
        seq_q >= 0,
        0 <= c <= num_chunks,
    ensures
        ({
            let rows = num_heads * batch * seq_q;
            &&& num_chunks * batch * num_heads * seq_q == num_chunks * rows
            &&& 0 <= c * rows <= num_chunks * rows
            &&& (c + 1) * rows == c * rows + rows
            &&& 0 <= rows <= num_chunks * rows
        }),
{
    let rows = num_heads * batch * seq_q;
    assert(num_chunks * batch * num_heads * seq_q == num_chunks * rows) by (nonlinear_arith)
        requires
            rows == num_heads * batch * seq_q,
    ;
    assert(rows >= 0) by (nonlinear_arith)
        requires
            rows == num_heads * batch * seq_q,
            batch >= 0,
            num_heads >= 0,
            seq_q >= 0,
    ;
    assert(0 <= c * rows <= num_chunks * rows && (c + 1) * rows == c * rows + rows && rows
        <= num_chunks * rows) by (nonlinear_arith)
        requires
            0 <= c <= num_chunks,
            num_chunks > 0,
            rows >= 0,
    ;
}

/// What the launch on one part of the keys does.
proof fn lemma_chunk<T>(
    a: Arithmetic<T>, q_len: int, k_len: int, v_len: int, batch: int, num_heads: int, seq_q: int,
    seq_kv: int, scale: F32, num_chunks: int, c: int, before: Memory<T>, after: Memory<T>,
)
    requires
        0 < batch <= u32::MAX,
        0 < num_heads <= u32::MAX,
        0 < seq_q <= u32::MAX,
        0 <= seq_kv <= u32::MAX,
        0 <= c < num_chunks <= u32::MAX,
        seq_kv % num_chunks == 0,
        num_chunks * batch * num_heads * seq_q * 128 <= u32::MAX,
        paged::flash_attn_bf16_v3_split_kv_plan(
            q_len, k_len, v_len, num_chunks * batch * num_heads * seq_q * 128, num_chunks * batch
                * num_heads * seq_q, batch, num_heads, seq_q, seq_kv, scale, num_chunks, c,
        ) matches Plan::Launch(l) && meaning::launch_means(
            a,
            BindingView { places: chunk_places(), base: 0 }.launch(l),
            before,
            after,
        ),
    ensures
        ({
            let heads = num_heads * batch;
            let rows = heads * seq_q;
            let q = meaning::read(before, Place::of_param(0), rows * 128);
            let k = meaning::read(before, Place::of_param(1), heads * seq_kv * 128);
            let v = meaning::read(before, Place::of_param(2), heads * seq_kv * 128);
            after == meaning::written(
                meaning::written(
                    before,
                    Place::scratch_at(0, c * rows * 128),
                    meaning::partial_results(
                        a, q, k, v, rows, seq_q, seq_kv, 128, scale, num_chunks, c,
                    ),
                ),
                Place::scratch_at(1, c * rows),
                meaning::partial_logarithms(
                    a, q, k, rows, seq_q, seq_kv, 128, scale, num_chunks, c,
                ),
            )
        }),
{
    shape::lemma_ceil_div(seq_q, 128);
    lemma_sizes(num_chunks, batch, num_heads, seq_q, c);
}

/// The launches on the first `n` parts leave the partial results of these parts in their rows.
#[verifier::rlimit(40)]
proof fn lemma_chunks<T>(
    a: Arithmetic<T>, p: ProgramView, n: int, q_len: int, k_len: int, v_len: int, batch: int,
    num_heads: int, seq_q: int, seq_kv: int, scale: F32, num_chunks: int, trace: Seq<Memory<T>>,
)
    requires
        p.end is Done,
        0 < batch <= u32::MAX,
        0 < num_heads <= u32::MAX,
        0 < seq_q <= u32::MAX,
        0 <= seq_kv <= u32::MAX,
        0 <= n <= num_chunks <= u32::MAX,
        0 < num_chunks,
        seq_kv % num_chunks == 0,
        num_chunks * batch * num_heads * seq_q * 128 <= u32::MAX,
        meaning::carried_out(
            a,
            ring_attention::ring_chunks(
                p, n, q_len, k_len, v_len, batch, num_heads, seq_q, seq_kv, scale, num_chunks,
            ).steps,
            trace,
        ),
    ensures
        ({
            let swept = ring_attention::ring_chunks(
                p, n, q_len, k_len, v_len, batch, num_heads, seq_q, seq_kv, scale, num_chunks,
            );
            let heads = num_heads * batch;
            let rows = heads * seq_q;
            let before = trace[p.steps.len() as int];
            let after = trace.last();
            let q = meaning::read(before, Place::of_param(0), rows * 128);
            let k = meaning::read(before, Place::of_param(1), heads * seq_kv * 128);
            let v = meaning::read(before, Place::of_param(2), heads * seq_kv * 128);
            &&& swept.end is Done
            &&& swept.steps.len() == p.steps.len() + n
            &&& forall|j: u32, i: int|
                #[trigger] after(Slot::Param(j), i) == before(Slot::Param(j), i)
            &&& forall|c: int|
                0 <= c < n ==> #[trigger] meaning::read(
                    after,
                    Place::scratch_at(0, c * rows * 128),
                    rows * 128,
                ) == meaning::partial_results(
                    a, q, k, v, rows, seq_q, seq_kv, 128, scale, num_chunks, c,
                )
            &&& forall|c: int|
                0 <= c < n ==> #[trigger] meaning::read(
                    after,
                    Place::scratch_at(1, c * rows),
                    rows,
                ) == meaning::partial_logarithms(
                    a, q, k, rows, seq_q, seq_kv, 128, scale, num_chunks, c,
                )
        }),
    decreases n,
{
    if n > 0 {
        let earlier = ring_attention::ring_chunks(
            p, n - 1, q_len, k_len, v_len, batch, num_heads, seq_q, seq_kv, scale, num_chunks,
        );
        let swept = ring_attention::ring_chunks(
            p, n, q_len, k_len, v_len, batch, num_heads, seq_q, seq_kv, scale, num_chunks,
        );
        lemma_earlier(
            p, n - 1, q_len, k_len, v_len, batch, num_heads, seq_q, seq_kv, scale, num_chunks,
        );
        let count = earlier.steps.len() as int;
        assert(swept.steps.subrange(0, count) =~= earlier.steps);
        meaning::stretch_is_carried_out(a, swept.steps, trace, 0, count);
        let part = trace.subrange(0, count + 1);
        lemma_chunks(
            a, p, n - 1, q_len, k_len, v_len, batch, num_heads, seq_q, seq_kv, scale, num_chunks,
            part,
        );
        assert(meaning::step_means(a, swept.steps[count], trace[count], trace[count + 1]));
        lemma_chunk(
            a, q_len, k_len, v_len, batch, num_heads, seq_q, seq_kv, scale, num_chunks, n - 1,
            trace[count], trace[count + 1],
        );
        let heads = num_heads * batch;
        let rows = heads * seq_q;
        let before = trace[p.steps.len() as int];
        let middle = trace[count];
        let after = trace.last();
        let q = meaning::read(before, Place::of_param(0), rows * 128);
        let k = meaning::read(before, Place::of_param(1), heads * seq_kv * 128);
        let v = meaning::read(before, Place::of_param(2), heads * seq_kv * 128);
        assert(part.last() == middle);
        assert(part[p.steps.len() as int] == before);
        assert(meaning::read(middle, Place::of_param(0), rows * 128) =~= q);
        assert(meaning::read(middle, Place::of_param(1), heads * seq_kv * 128) =~= k);
        assert(meaning::read(middle, Place::of_param(2), heads * seq_kv * 128) =~= v);
        lemma_sizes(num_chunks, batch, num_heads, seq_q, n - 1);
        assert forall|c: int| 0 <= c < n implies #[trigger] meaning::read(
            after,
            Place::scratch_at(0, c * rows * 128),
            rows * 128,
        ) == meaning::partial_results(
            a, q, k, v, rows, seq_q, seq_kv, 128, scale, num_chunks, c,
        ) by {
            lemma_sizes(num_chunks, batch, num_heads, seq_q, c);
            let x = meaning::read(after, Place::scratch_at(0, c * rows * 128), rows * 128);
            if c < n - 1 {
                lemma_earlier_rows(rows, c, n - 1);
                assert(x =~= meaning::read(
                    middle,
                    Place::scratch_at(0, c * rows * 128),
                    rows * 128,
                ));
            } else {
                assert(x =~= meaning::partial_results(
                    a, q, k, v, rows, seq_q, seq_kv, 128, scale, num_chunks, c,
                ));
            }
        }
        assert forall|c: int| 0 <= c < n implies #[trigger] meaning::read(
            after,
            Place::scratch_at(1, c * rows),
            rows,
        ) == meaning::partial_logarithms(
            a, q, k, rows, seq_q, seq_kv, 128, scale, num_chunks, c,
        ) by {
            lemma_sizes(num_chunks, batch, num_heads, seq_q, c);
            let x = meaning::read(after, Place::scratch_at(1, c * rows), rows);
            if c < n - 1 {
                lemma_earlier_rows(rows, c, n - 1);
                assert(x =~= meaning::read(middle, Place::scratch_at(1, c * rows), rows));
            } else {
                assert(x =~= meaning::partial_logarithms(
                    a, q, k, rows, seq_q, seq_kv, 128, scale, num_chunks, c,
                ));
            }
        }
    }
}

proof fn lemma_earlier_rows(rows: int, c: int, n: int)
    requires
        0 <= c < n,
        rows >= 0,
    ensures
        c * rows + rows <= n * rows,
{
    assert(c * rows + rows <= n * rows) by (nonlinear_arith)
        requires
            0 <= c < n,
            rows >= 0,
    ;
}

proof fn lemma_earlier(
    p: ProgramView, n: int, q_len: int, k_len: int, v_len: int, batch: int, num_heads: int,
    seq_q: int, seq_kv: int, scale: F32, num_chunks: int,
)
    requires
        p.end is Done,
        n >= 0,
    ensures
        ring_attention::ring_chunks(
            p, n, q_len, k_len, v_len, batch, num_heads, seq_q, seq_kv, scale, num_chunks,
        ).end is Done,
        ring_attention::ring_chunks(
            p, n, q_len, k_len, v_len, batch, num_heads, seq_q, seq_kv, scale, num_chunks,
        ).steps.len() == p.steps.len() + n,
        n > 0 ==> ring_attention::ring_chunks(
            p, n, q_len, k_len, v_len, batch, num_heads, seq_q, seq_kv, scale, num_chunks,
        ).steps.take(p.steps.len() as int) == p.steps,
    decreases n,
{
    if n > 0 {
        lemma_earlier(
            p, n - 1, q_len, k_len, v_len, batch, num_heads, seq_q, seq_kv, scale, num_chunks,
        );
        let earlier = ring_attention::ring_chunks(
            p, n - 1, q_len, k_len, v_len, batch, num_heads, seq_q, seq_kv, scale, num_chunks,
        ).steps;
        let all = ring_attention::ring_chunks(
            p, n, q_len, k_len, v_len, batch, num_heads, seq_q, seq_kv, scale, num_chunks,
        ).steps;
        assert(all.take(p.steps.len() as int) =~= earlier.take(p.steps.len() as int));
        if n == 1 {
            assert(earlier.take(p.steps.len() as int) =~= p.steps);
        }
    }
}

/// Ring attention on one GPU leaves in its output, for every query, attention over the keys of
/// the query's head in `num_chunks` parts, weighted on the values of the same parts, and merged;
/// where merging is exact, this is attention over the whole head.
#[verifier::rlimit(40)]
pub proof fn ring_attention_bf16_attends_to_every_key<T>(
    a: Arithmetic<T>, q_len: int, k_len: int, v_len: int, o_len: int, batch: int, num_heads: int,
    seq_q: int, seq_kv: int, scale: F32, num_chunks: int, trace: Seq<Memory<T>>, i: int, c: int,
)
    requires
        0 < batch <= u32::MAX,
        0 < num_heads <= u32::MAX,
        0 < seq_q <= u32::MAX,
        0 <= seq_kv <= u32::MAX,
        0 <= num_chunks <= u32::MAX,
        ({
            let p = ring_attention::ring_attention_bf16_program(
                q_len, k_len, v_len, o_len, batch, num_heads, seq_q, seq_kv, scale, num_chunks,
            );
            p.end is Done && meaning::carried_out(a, p.steps, trace)
        }),
        0 <= i < num_heads * batch * seq_q,
        0 <= c < 128,
    ensures
        ({
            let heads = num_heads * batch;
            let q = meaning::read(trace[0], Place::of_param(0), heads * seq_q * 128);
            let k = meaning::read(trace[0], Place::of_param(1), heads * seq_kv * 128);
            let v = meaning::read(trace[0], Place::of_param(2), heads * seq_kv * 128);
            let o = trace.last()(Slot::Param(3), i * 128 + c);
            &&& o == merged_attention(a, q, k, v, seq_q, seq_kv, scale, num_chunks, i, c)
            &&& merging_is_exact(a, q, k, v, seq_q, seq_kv, scale, num_chunks) ==> o
                == (a.attended)(
                meaning::row(q, 128, i),
                meaning::head_rows(k, i / seq_q, seq_kv, 128),
                meaning::head_rows(v, i / seq_q, seq_kv, 128),
                scale,
                c,
            )
        }),
{
    let lse = num_chunks * batch * num_heads * seq_q;
    let heads = num_heads * batch;
    let rows = heads * seq_q;
    let start = ProgramView::empty().step(ring_attention::partial(0, lse * 128)).step(
        ring_attention::partial(1, lse),
    );
    let program = ring_attention::ring_attention_bf16_program(
        q_len, k_len, v_len, o_len, batch, num_heads, seq_q, seq_kv, scale, num_chunks,
    );
    let swept = ring_attention::ring_chunks(
        start, num_chunks, q_len, k_len, v_len, batch, num_heads, seq_q, seq_kv, scale, num_chunks,
    );
    lemma_earlier(
        start, num_chunks, q_len, k_len, v_len, batch, num_heads, seq_q, seq_kv, scale, num_chunks,
    );
    let count = swept.steps.len() as int;
    let steps = program.steps;
    assert(start.steps.len() == 2);
    assert(steps.subrange(0, count) =~= swept.steps);
    meaning::stretch_is_carried_out(a, steps, trace, 0, count);
    let part = trace.subrange(0, count + 1);
    lemma_chunks(
        a, start, num_chunks, q_len, k_len, v_len, batch, num_heads, seq_q, seq_kv, scale,
        num_chunks, part,
    );
    assert(part.last() == trace[count]);
    assert(part[2] == trace[2]);
    assert(steps[0] == swept.steps.take(2)[0]);
    assert(steps[1] == swept.steps.take(2)[1]);
    assert(meaning::step_means(a, steps[0], trace[0], trace[1]));
    assert(meaning::step_means(a, steps[1], trace[1], trace[2]));
    assert(meaning::step_means(a, steps[count], trace[count], trace[count + 1]));
    let q = meaning::read(trace[0], Place::of_param(0), rows * 128);
    let k = meaning::read(trace[0], Place::of_param(1), heads * seq_kv * 128);
    let v = meaning::read(trace[0], Place::of_param(2), heads * seq_kv * 128);
    assert(meaning::read(trace[2], Place::of_param(0), rows * 128) =~= q);
    assert(meaning::read(trace[2], Place::of_param(1), heads * seq_kv * 128) =~= k);
    assert(meaning::read(trace[2], Place::of_param(2), heads * seq_kv * 128) =~= v);
    let m = trace[count];
    let partials = meaning::read(m, Place::of_scratch(0), num_chunks * rows * 128);
    let lses = meaning::read(m, Place::of_scratch(1), num_chunks * rows);
    let merge = |i: int, c: int|
        (a.merged)(
            Seq::new(
                num_chunks as nat,
                |p: int| meaning::entry(partials, 128, p * rows + i, c),
            ),
            Seq::new(num_chunks as nat, |p: int| meaning::entry(lses, 1, p * rows + i, 0)),
        );
    lemma_sizes(num_chunks, batch, num_heads, seq_q, 0);
    meaning::matrix_has_its_entries(rows, 128, merge, i, c);
    assert(trace.last() == meaning::written(
        m,
        Place::of_param(3),
        meaning::merged_results(a, partials, lses, rows, 128, num_chunks),
    ));
    assert forall|p: int| 0 <= p < num_chunks implies #[trigger] meaning::entry(
        partials,
        128,
        p * rows + i,
        c,
    ) == (a.partial)(
        meaning::row(q, 128, i),
        meaning::part_of_head(k, i / seq_q, seq_kv, 128, num_chunks, p),
        meaning::part_of_head(v, i / seq_q, seq_kv, 128, num_chunks, p),
        scale,
        c,
    ) by {
        lemma_sizes(num_chunks, batch, num_heads, seq_q, p);
        lemma_earlier_rows(rows, p, num_chunks);
        let x = meaning::read(m, Place::scratch_at(0, p * rows * 128), rows * 128);
        assert(x == meaning::partial_results(
            a, q, k, v, rows, seq_q, seq_kv, 128, scale, num_chunks, p,
        ));
        meaning::matrix_has_its_entries(
            rows,
            128,
            |i: int, c: int|
                (a.partial)(
                    meaning::row(q, 128, i),
                    meaning::part_of_head(k, i / seq_q, seq_kv, 128, num_chunks, p),
                    meaning::part_of_head(v, i / seq_q, seq_kv, 128, num_chunks, p),
                    scale,
                    c,
                ),
            i,
            c,
        );
        assert(meaning::entry(partials, 128, p * rows + i, c) == x[i * 128 + c]);
    }
    assert forall|p: int| 0 <= p < num_chunks implies #[trigger] meaning::entry(
        lses,
        1,
        p * rows + i,
        0,
    ) == (a.partial_lse)(
        meaning::row(q, 128, i),
        meaning::part_of_head(k, i / seq_q, seq_kv, 128, num_chunks, p),
        scale,
    ) by {
        lemma_sizes(num_chunks, batch, num_heads, seq_q, p);
        lemma_earlier_rows(rows, p, num_chunks);
        let x = meaning::read(m, Place::scratch_at(1, p * rows), rows);
        assert(x == meaning::partial_logarithms(
            a, q, k, rows, seq_q, seq_kv, 128, scale, num_chunks, p,
        ));
        meaning::matrix_has_its_entries(
            rows,
            1,
            |i: int, c: int|
                (a.partial_lse)(
                    meaning::row(q, 128, i),
                    meaning::part_of_head(k, i / seq_q, seq_kv, 128, num_chunks, p),
                    scale,
                ),
            i,
            0,
        );
        assert(meaning::entry(lses, 1, p * rows + i, 0) == x[i]);
    }
    let parts = Seq::new(
        num_chunks as nat,
        |p: int|
            (a.partial)(
                meaning::row(q, 128, i),
                meaning::part_of_head(k, i / seq_q, seq_kv, 128, num_chunks, p),
                meaning::part_of_head(v, i / seq_q, seq_kv, 128, num_chunks, p),
                scale,
                c,
            ),
    );
    assert(Seq::new(
        num_chunks as nat,
        |p: int| meaning::entry(partials, 128, p * rows + i, c),
    ) =~= parts);
    let logarithms = Seq::new(
        num_chunks as nat,
        |p: int|
            (a.partial_lse)(
                meaning::row(q, 128, i),
                meaning::part_of_head(k, i / seq_q, seq_kv, 128, num_chunks, p),
                scale,
            ),
    );
    assert(Seq::new(num_chunks as nat, |p: int| meaning::entry(lses, 1, p * rows + i, 0))
        =~= logarithms);
    let o = trace.last()(Slot::Param(3), i * 128 + c);
    assert(o == merge(i, c)) by {
        let all = meaning::merged_results(a, partials, lses, rows, 128, num_chunks);
        assert(all =~= meaning::matrix(rows, 128, merge));
        assert(o == all[i * 128 + c]);
    }
    assert(merge(i, c) == (a.merged)(parts, logarithms));
    assert(merged_attention(a, q, k, v, seq_q, seq_kv, scale, num_chunks, i, c) == (a.merged)(
        parts,
        logarithms,
    ));
}

} // verus!
