//! The gradients of attention over packed sequences as numbers.
use crate::attention::backward;
use crate::attention::backward_meaning;
use crate::attention::backward_meaning::Head;
use crate::attention::backward_variants;
use crate::attention::reorder;
use crate::meaning;
use crate::meaning::{Arithmetic, Memory};
use crate::plan::{Arg, F32, Place, Plan, Slot};
use crate::program::{BindingView, ProgramView, StepView};
use vstd::prelude::*;

verus! {

/// Where a packed tensor holds a number: head `h` of token `token`, column `c`.
pub open spec fn packed_at(token: int, h: int, c: int, heads: int, d: int) -> int {
    (token * heads + h) * d + c
}

/// The rows of head `h` of a sequence of `s` tokens from token `first` on, in a packed tensor.
pub open spec fn packed_rows<T>(
    m: Memory<T>, buffer: u32, first: int, s: int, h: int, heads: int, d: int,
) -> Seq<T> {
    meaning::matrix(
        s,
        d,
        |r: int, c: int| m(Slot::Param(buffer), packed_at(first + r, h, c, heads, d)),
    )
}

/// Head `h` of a sequence in packed tensors.
pub open spec fn packed_head<T>(
    m: Memory<T>, first: int, s: int, h: int, heads: int, d: int,
) -> Head<T> {
    Head {
        q: packed_rows(m, 0, first, s, h, heads, d),
        k: packed_rows(m, 1, first, s, h, heads, d),
        v: packed_rows(m, 2, first, s, h, heads, d),
        grad: packed_rows(m, 3, first, s, h, heads, d),
    }
}

/// Whether memory holds the gradients of a sequence's head in its rows of `dQ`, `dK` and `dV`.
pub open spec fn holds_packed_gradients<T>(
    a: Arithmetic<T>, start: Memory<T>, m: Memory<T>, first: int, s: int, h: int, heads: int,
    d: int, scale: F32, causal: bool,
) -> bool {
    let head = packed_head(start, first, s, h, heads, d);
    &&& packed_rows(m, 4, first, s, h, heads, d) == head.query_gradient(a, s, d, scale, causal)
    &&& packed_rows(m, 5, first, s, h, heads, d) == head.key_gradient(a, s, d, scale, causal)
    &&& packed_rows(m, 6, first, s, h, heads, d) == head.value_gradient(a, s, d, scale, causal)
}

proof fn lemma_index(heads: int, s: int, d: int, h: int, r: int, c: int)
    requires
        0 <= h < heads,
        0 <= r < s,
        0 <= c < d,
    ensures
        ({
            let hd = heads * d;
            let i = h * s + r;
            let g = r * heads + h;
            &&& 0 <= i < heads * s
            &&& i % s == r
            &&& i / s == h
            &&& 0 <= g < s * heads
            &&& g % heads == h
            &&& g / heads == r
            &&& 0 <= g * d + c < s * hd
            &&& i * d + c == h * (s * d) + (r * d + c)
            &&& 0 <= r * d + c < s * d
            &&& (heads * s) * d == s * hd
            &&& (s * heads) * d == s * hd
        }),
{
    let hd = heads * d;
    let i = h * s + r;
    let g = r * heads + h;
    assert(0 <= i < heads * s && 0 <= g < s * heads && 0 <= r * d + c < s * d) by (nonlinear_arith)
        requires
            i == h * s + r,
            g == r * heads + h,
            0 <= h < heads,
            0 <= r < s,
            0 <= c < d,
    ;
    vstd::arithmetic::div_mod::lemma_fundamental_div_mod_converse(i, s, h, r);
    vstd::arithmetic::div_mod::lemma_fundamental_div_mod_converse(g, heads, r, h);
    assert((s * heads) * d == s * hd && (heads * s) * d == s * hd) by (nonlinear_arith)
        requires
            hd == heads * d,
    ;
    assert(0 <= g * d + c < (s * heads) * d) by (nonlinear_arith)
        requires
            0 <= g < s * heads,
            0 <= c < d,
    ;
    assert(i * d + c == h * (s * d) + (r * d + c)) by (nonlinear_arith)
        requires
            i == h * s + r,
    ;
}

/// The rows of a head, in a copy with the heads first.
proof fn lemma_gathered_rows<T>(
    m: Memory<T>, buffer: u32, x: Seq<T>, first: int, s: int, h: int, heads: int, d: int,
)
    requires
        0 <= h < heads,
        s > 0,
        d > 0,
        0 <= first,
        first * (heads * d) <= u64::MAX,
        x == meaning::heads_first(
            meaning::read(m, Place::param_at(buffer, first * (heads * d)), s * (heads * d)),
            s,
            heads,
            d,
        ),
    ensures
        x.len() == s * (heads * d),
        0 <= h * (s * d),
        h * (s * d) + s * d <= s * (heads * d),
        x.subrange(h * (s * d), h * (s * d) + s * d) == packed_rows(
            m,
            buffer,
            first,
            s,
            h,
            heads,
            d,
        ),
{
    let hd = heads * d;
    let whole = meaning::read(m, Place::param_at(buffer, first * hd), s * hd);
    let f = |i: int, c: int| meaning::entry(whole, d, (i % s) * heads + i / s, c);
    let l = x.subrange(h * (s * d), h * (s * d) + s * d);
    let rows = packed_rows(m, buffer, first, s, h, heads, d);
    lemma_index(heads, s, d, h, 0, 0);
    assert(0 <= first * hd) by (nonlinear_arith)
        requires
            first >= 0,
            hd == heads * d,
            heads > 0,
            d > 0,
    ;
    assert(0 <= h * (s * d) && h * (s * d) + s * d <= s * hd && s * d >= 0) by (nonlinear_arith)
        requires
            0 <= h < heads,
            s > 0,
            d > 0,
            hd == heads * d,
    ;
    assert forall|e: int| 0 <= e < s * d implies #[trigger] l[e] == rows[e] by {
        let r = e / d;
        let c = e % d;
        assert(0 <= r < s && 0 <= c < d && e == r * d + c) by (nonlinear_arith)
            requires
                r == e / d,
                c == e % d,
                d > 0,
                0 <= e < s * d,
        ;
        lemma_index(heads, s, d, h, r, c);
        meaning::matrix_has_its_entries(heads * s, d, f, h * s + r, c);
        let g = r * heads + h;
        assert(first * hd + (g * d + c) == packed_at(first + r, h, c, heads, d))
            by (nonlinear_arith)
            requires
                hd == heads * d,
                g == r * heads + h,
                packed_at(first + r, h, c, heads, d) == ((first + r) * heads + h) * d + c,
        ;
    }
    assert(l =~= rows);
}

/// The rows of a head, brought back from a copy with the heads first.
proof fn lemma_scattered_rows<T>(
    m: Memory<T>, after: Memory<T>, buffer: u32, x: Seq<T>, first: int, s: int, h: int, heads: int,
    d: int,
)
    requires
        0 <= h < heads,
        s > 0,
        d > 0,
        0 <= first,
        first * (heads * d) <= u64::MAX,
        x.len() == s * (heads * d),
        after == meaning::written(
            m,
            Place::param_at(buffer, first * (heads * d)),
            meaning::tokens_first(x, s, heads, d),
        ),
    ensures
        packed_rows(after, buffer, first, s, h, heads, d) == x.subrange(
            h * (s * d),
            h * (s * d) + s * d,
        ),
{
    let hd = heads * d;
    let f = |i: int, c: int| meaning::entry(x, d, (i % heads) * s + i / heads, c);
    let l = x.subrange(h * (s * d), h * (s * d) + s * d);
    let rows = packed_rows(after, buffer, first, s, h, heads, d);
    lemma_index(heads, s, d, h, 0, 0);
    assert(0 <= first * hd) by (nonlinear_arith)
        requires
            first >= 0,
            hd == heads * d,
            heads > 0,
            d > 0,
    ;
    assert(0 <= h * (s * d) && h * (s * d) + s * d <= s * hd && s * d >= 0) by (nonlinear_arith)
        requires
            0 <= h < heads,
            s > 0,
            d > 0,
            hd == heads * d,
    ;
    assert forall|e: int| 0 <= e < s * d implies #[trigger] rows[e] == l[e] by {
        let r = e / d;
        let c = e % d;
        assert(0 <= r < s && 0 <= c < d && e == r * d + c) by (nonlinear_arith)
            requires
                r == e / d,
                c == e % d,
                d > 0,
                0 <= e < s * d,
        ;
        lemma_index(heads, s, d, h, r, c);
        let g = r * heads + h;
        meaning::matrix_has_its_entries(s * heads, d, f, g, c);
        assert(first * hd + (g * d + c) == packed_at(first + r, h, c, heads, d))
            by (nonlinear_arith)
            requires
                hd == heads * d,
                g == r * heads + h,
                packed_at(first + r, h, c, heads, d) == ((first + r) * heads + h) * d + c,
        ;
    }
    assert(rows =~= l);
}

/// What a launch that brings the heads to the front does.
proof fn lemma_gather<T>(
    a: Arithmetic<T>, src_len: int, dst_len: int, s: int, heads: int, d: int, places: Seq<Place>,
    before: Memory<T>, after: Memory<T>,
)
    requires
        places.len() == 2,
        0 < s <= u32::MAX,
        0 < heads <= u32::MAX,
        0 < d <= u32::MAX,
        reorder::permute_thd_to_htd_bf16_view_plan(src_len, dst_len, s, heads, d)
            matches Plan::Launch(l) && meaning::launch_means(
            a,
            BindingView { places, base: 0 }.launch(l),
            before,
            after,
        ),
    ensures
        after == meaning::written(
            before,
            places[1],
            meaning::heads_first(
                meaning::read(before, places[0], s * (heads * d)),
                s,
                heads,
                d,
            ),
        ),
{
}

/// What a launch that brings the tokens to the front does.
proof fn lemma_scatter<T>(
    a: Arithmetic<T>, src_len: int, dst_len: int, s: int, heads: int, d: int, places: Seq<Place>,
    before: Memory<T>, after: Memory<T>,
)
    requires
        places.len() == 2,
        0 < s <= u32::MAX,
        0 < heads <= u32::MAX,
        0 < d <= u32::MAX,
        reorder::permute_htd_to_thd_bf16_view_plan(src_len, dst_len, s, heads, d)
            matches Plan::Launch(l) && meaning::launch_means(
            a,
            BindingView { places, base: 0 }.launch(l),
            before,
            after,
        ),
    ensures
        after == meaning::written(
            before,
            places[1],
            meaning::tokens_first(
                meaning::read(before, places[0], s * (heads * d)),
                s,
                heads,
                d,
            ),
        ),
{
}

/// The steps of one sequence leave the gradients of its heads in its rows, and change nothing
/// else in the buffers of the caller.
#[verifier::rlimit(100)]
proof fn lemma_sequence<T>(
    a: Arithmetic<T>, p: ProgramView, cu: Seq<u32>, j: int, n: int, heads: int, d: int, scale: F32,
    causal: bool, trace: Seq<Memory<T>>,
)
    requires
        p.end is Done,
        0 <= j < cu.len() - 1,
        cu[j] <= cu[j + 1],
        0 < heads <= u32::MAX,
        0 < d <= u32::MAX,
        cu[j + 1] * (heads * d) <= u32::MAX,
        backward::backward_sequence(p, cu, j, n, heads, d, scale, causal).end is Done,
        meaning::carried_out(
            a,
            backward::backward_sequence(p, cu, j, n, heads, d, scale, causal).steps,
            trace,
        ),
    ensures
        ({
            let before = trace[p.steps.len() as int];
            let after = trace.last();
            let first = cu[j] as int;
            let s = cu[j + 1] - cu[j];
            let hd = heads * d;
            &&& trace.len() > p.steps.len()
            &&& s > 0 ==> forall|h: int|
                0 <= h < heads ==> #[trigger] holds_packed_gradients(
                    a, before, after, first, s, h, heads, d, scale, causal,
                )
            &&& forall|b: u32, i: int|
                !(4 <= b < 7 && first * hd <= i < cu[j + 1] * hd) ==> #[trigger] after(
                    Slot::Param(b),
                    i,
                ) == before(Slot::Param(b), i)
        }),
{
    let first = cu[j] as int;
    let s = cu[j + 1] - cu[j];
    let hd = heads * d;
    let at = first * hd;
    let steps = backward::backward_sequence(p, cu, j, n, heads, d, scale, causal).steps;
    let t = p.steps.len() as int;
    if s > 0 {
        assert(at + s * hd == cu[j + 1] * hd && 0 <= at && s <= s * hd && hd > 0)
            by (nonlinear_arith)
            requires
                at == cu[j] * hd,
                s == cu[j + 1] - cu[j],
                s > 0,
                hd == heads * d,
                heads > 0,
                d > 0,
        ;
        let gather = reorder::permute_thd_to_htd_bf16_view_plan(s * hd, n, s, heads, d);
        let scatter = reorder::permute_htd_to_thd_bf16_view_plan(n, s * hd, s, heads, d);
        let ready = p.then_launch(
            gather,
            seq![Place::param_at(0, at), Place::of_scratch(0)],
        ).then_launch(gather, seq![Place::param_at(1, at), Place::of_scratch(1)]).then_launch(
            gather,
            seq![Place::param_at(2, at), Place::of_scratch(2)],
        ).then_launch(gather, seq![Place::param_at(3, at), Place::of_scratch(3)]);
        let inner = backward::flash_attn_backward_bf16_program(
            n, n, n, n, n, n, n, 1, heads, s, d, scale, causal,
        );
        let b = backward::sequence_binding();
        let whole = ready.then_run(inner, b);
        let count = whole.steps.len() as int;
        assert(inner.end is Done);
        assert(ready.steps.len() == t + 4);
        assert(steps.len() == count + 3);
        assert(steps.subrange(0, count) =~= whole.steps);
        backward_variants::lemma_heads_within(
            a, ready, b, seq![n, n, n, n, n, n, n], 1, heads, s, d, scale, causal, steps, trace,
        );
        assert(1 * heads == heads);
        assert forall|i: int| t <= i < t + 4 implies steps[i] == #[trigger] ready.steps[i] by {
            assert(steps[i] == whole.steps[i]);
        }
        let m0 = trace[t];
        assert(meaning::step_means(a, steps[t], trace[t], trace[t + 1]));
        lemma_gather(
            a, s * hd, n, s, heads, d, seq![Place::param_at(0, at), Place::of_scratch(0)],
            trace[t], trace[t + 1],
        );
        assert(meaning::step_means(a, steps[t + 1], trace[t + 1], trace[t + 2]));
        lemma_gather(
            a, s * hd, n, s, heads, d, seq![Place::param_at(1, at), Place::of_scratch(1)],
            trace[t + 1], trace[t + 2],
        );
        assert(meaning::step_means(a, steps[t + 2], trace[t + 2], trace[t + 3]));
        lemma_gather(
            a, s * hd, n, s, heads, d, seq![Place::param_at(2, at), Place::of_scratch(2)],
            trace[t + 2], trace[t + 3],
        );
        assert(meaning::step_means(a, steps[t + 3], trace[t + 3], trace[t + 4]));
        lemma_gather(
            a, s * hd, n, s, heads, d, seq![Place::param_at(3, at), Place::of_scratch(3)],
            trace[t + 3], trace[t + 4],
        );
        assert(meaning::read(trace[t + 1], Place::param_at(1, at), s * hd) =~= meaning::read(
            m0,
            Place::param_at(1, at),
            s * hd,
        ));
        assert(meaning::read(trace[t + 2], Place::param_at(2, at), s * hd) =~= meaning::read(
            m0,
            Place::param_at(2, at),
            s * hd,
        ));
        assert(meaning::read(trace[t + 3], Place::param_at(3, at), s * hd) =~= meaning::read(
            m0,
            Place::param_at(3, at),
            s * hd,
        ));
        let ready_at = trace[t + 4];
        lemma_index(heads, s, d, 0, 0, 0);
        let copy = |i: u32|
            meaning::heads_first(
                meaning::read(m0, Place::param_at(i, at), s * hd),
                s,
                heads,
                d,
            );
        assert(meaning::read(ready_at, Place::of_scratch(0), s * hd) =~= copy(0));
        assert(meaning::read(ready_at, Place::of_scratch(1), s * hd) =~= copy(1));
        assert(meaning::read(ready_at, Place::of_scratch(2), s * hd) =~= copy(2));
        assert(meaning::read(ready_at, Place::of_scratch(3), s * hd) =~= copy(3));
        assert forall|i: u32| i < 4 implies #[trigger] meaning::read(
            ready_at,
            Place::of_scratch(i),
            s * hd,
        ) == copy(i) by {
            assert(i == 0 || i == 1 || i == 2 || i == 3);
        }
        lemma_copies(a, m0, ready_at, first, s, heads, d);
        let done_at = trace[count];
        assert(meaning::step_means(a, steps[count], trace[count], trace[count + 1]));
        lemma_scatter(
            a, n, s * hd, s, heads, d, seq![Place::of_scratch(4), Place::param_at(4, at)],
            trace[count], trace[count + 1],
        );
        assert(meaning::step_means(a, steps[count + 1], trace[count + 1], trace[count + 2]));
        lemma_scatter(
            a, n, s * hd, s, heads, d, seq![Place::of_scratch(5), Place::param_at(5, at)],
            trace[count + 1], trace[count + 2],
        );
        assert(meaning::step_means(a, steps[count + 2], trace[count + 2], trace[count + 3]));
        lemma_scatter(
            a, n, s * hd, s, heads, d, seq![Place::of_scratch(6), Place::param_at(6, at)],
            trace[count + 2], trace[count + 3],
        );
        assert(meaning::read(trace[count + 1], Place::of_scratch(5), s * hd) =~= meaning::read(
            done_at,
            Place::of_scratch(5),
            s * hd,
        ));
        assert(meaning::read(trace[count + 2], Place::of_scratch(6), s * hd) =~= meaning::read(
            done_at,
            Place::of_scratch(6),
            s * hd,
        ));
        lemma_scattered_len(a, s, heads, d);
        assert forall|h: int| 0 <= h < heads implies #[trigger] holds_packed_gradients(
            a, m0, trace.last(), first, s, h, heads, d, scale, causal,
        ) by {
            let before = meaning::seen(a, b, ready_at);
            let after = meaning::seen(a, b, done_at);
            assert(backward_meaning::holds_gradients(
                a,
                after,
                h,
                backward_meaning::head_of(before, h, s * d),
                s,
                d,
                scale,
                causal,
            ));
            assert(backward_meaning::head_of(before, h, s * d) == packed_head(
                m0,
                first,
                s,
                h,
                heads,
                d,
            ));
            lemma_brought_back(
                a, done_at, after, trace[count], trace[count + 1], 4, first, s, h, heads, d,
            );
            lemma_brought_back(
                a, done_at, after, trace[count + 1], trace[count + 2], 5, first, s, h, heads, d,
            );
            lemma_brought_back(
                a, done_at, after, trace[count + 2], trace[count + 3], 6, first, s, h, heads, d,
            );
            assert(packed_rows(trace.last(), 4, first, s, h, heads, d) =~= packed_rows(
                trace[count + 1],
                4,
                first,
                s,
                h,
                heads,
                d,
            ));
            assert(packed_rows(trace.last(), 5, first, s, h, heads, d) =~= packed_rows(
                trace[count + 2],
                5,
                first,
                s,
                h,
                heads,
                d,
            ));
        }
        lemma_params_unreached();
    }
}

/// The heads that the gradients of one sequence see are those of the sequence.
proof fn lemma_copies<T>(
    a: Arithmetic<T>, m0: Memory<T>, m: Memory<T>, first: int, s: int, heads: int, d: int,
)
    requires
        s > 0,
        heads > 0,
        d > 0,
        0 <= first,
        first * (heads * d) <= u32::MAX,
        s * (heads * d) <= u32::MAX,
        forall|i: u32|
            i < 4 ==> #[trigger] meaning::read(m, Place::of_scratch(i), s * (heads * d))
                == meaning::heads_first(
                meaning::read(m0, Place::param_at(i, first * (heads * d)), s * (heads * d)),
                s,
                heads,
                d,
            ),
    ensures
        forall|h: int|
            0 <= h < heads ==> #[trigger] backward_meaning::head_of(
                meaning::seen(a, backward::sequence_binding(), m),
                h,
                s * d,
            ) == packed_head(m0, first, s, h, heads, d),
{
    let hd = heads * d;
    let view = meaning::seen(a, backward::sequence_binding(), m);
    assert forall|h: int| 0 <= h < heads implies #[trigger] backward_meaning::head_of(
        view,
        h,
        s * d,
    ) == packed_head(m0, first, s, h, heads, d) by {
        let x = backward_meaning::head_of(view, h, s * d);
        let y = packed_head(m0, first, s, h, heads, d);
        let q = meaning::read(m, Place::of_scratch(0), s * hd);
        let k = meaning::read(m, Place::of_scratch(1), s * hd);
        let v = meaning::read(m, Place::of_scratch(2), s * hd);
        let g = meaning::read(m, Place::of_scratch(3), s * hd);
        lemma_gathered_rows(m0, 0, q, first, s, h, heads, d);
        lemma_gathered_rows(m0, 1, k, first, s, h, heads, d);
        lemma_gathered_rows(m0, 2, v, first, s, h, heads, d);
        lemma_gathered_rows(m0, 3, g, first, s, h, heads, d);
        assert(x.q =~= q.subrange(h * (s * d), h * (s * d) + s * d));
        assert(x.k =~= k.subrange(h * (s * d), h * (s * d) + s * d));
        assert(x.v =~= v.subrange(h * (s * d), h * (s * d) + s * d));
        assert(x.grad =~= g.subrange(h * (s * d), h * (s * d) + s * d));
        assert(x =~= y);
    }
}

proof fn lemma_scattered_len<T>(a: Arithmetic<T>, s: int, heads: int, d: int)
    ensures
        forall|x: Seq<T>|
            s >= 0 && heads >= 0 && d >= 0 ==> (#[trigger] meaning::tokens_first(x, s, heads, d)).len()
                == s * (heads * d),
{
    assert((s * heads) * d == s * (heads * d)) by (nonlinear_arith);
    if s >= 0 && heads >= 0 && d >= 0 {
        assert((s * heads) * d >= 0) by (nonlinear_arith)
            requires
                s >= 0,
                heads >= 0,
                d >= 0,
        ;
    }
}

/// A gradient that is brought back is the one that the part left for the head.
proof fn lemma_brought_back<T>(
    a: Arithmetic<T>, done_at: Memory<T>, view: Memory<T>, before: Memory<T>, after: Memory<T>,
    buffer: u32, first: int, s: int, h: int, heads: int, d: int,
)
    requires
        4 <= buffer < 7,
        0 <= h < heads,
        s > 0,
        d > 0,
        0 <= first,
        first * (heads * d) <= u32::MAX,
        s * (heads * d) <= u32::MAX,
        view == meaning::seen(a, backward::sequence_binding(), done_at),
        meaning::read(before, Place::of_scratch(buffer), s * (heads * d)) == meaning::read(
            done_at,
            Place::of_scratch(buffer),
            s * (heads * d),
        ),
        after == meaning::written(
            before,
            Place::param_at(buffer, first * (heads * d)),
            meaning::tokens_first(
                meaning::read(before, Place::of_scratch(buffer), s * (heads * d)),
                s,
                heads,
                d,
            ),
        ),
    ensures
        packed_rows(after, buffer, first, s, h, heads, d) == meaning::read(
            view,
            Place::param_at(buffer, h * (s * d)),
            s * d,
        ),
{
    let x = meaning::read(before, Place::of_scratch(buffer), s * (heads * d));
    lemma_index(heads, s, d, h, 0, 0);
    assert(0 <= h * (s * d) && h * (s * d) + s * d <= s * (heads * d)) by (nonlinear_arith)
        requires
            0 <= h < heads,
            s > 0,
            d > 0,
    ;
    lemma_scattered_rows(before, after, buffer, x, first, s, h, heads, d);
    assert(x.subrange(h * (s * d), h * (s * d) + s * d) =~= meaning::read(
        view,
        Place::param_at(buffer, h * (s * d)),
        s * d,
    ));
}

/// The gradients of one sequence reach no buffer of the caller.
proof fn lemma_params_unreached()
    ensures
        forall|i: u32|
            !(#[trigger] meaning::is_reached(backward::sequence_binding(), Slot::Param(i))),
{
    let b = backward::sequence_binding();
    assert forall|i: u32| !(#[trigger] meaning::is_reached(b, Slot::Param(i))) by {
        assert forall|s: Slot| #[trigger] meaning::reaches(b, s) implies b.slot(s).slot
            != Slot::Param(i) by {
            if let Slot::Param(k) = s {
                assert(b.places[k as int].slot is Scratch);
            }
        }
    }
}

/// The steps of a sequence follow those before it.
pub(crate) proof fn lemma_sequence_begins(
    p: ProgramView, cu: Seq<u32>, j: int, n: int, heads: int, d: int, scale: F32, causal: bool,
)
    ensures
        ({
            let steps = backward::backward_sequence(p, cu, j, n, heads, d, scale, causal).steps;
            &&& steps.len() >= p.steps.len()
            &&& steps.subrange(0, p.steps.len() as int) == p.steps
        }),
        p.end !is Done ==> backward::backward_sequence(p, cu, j, n, heads, d, scale, causal) == p,
{
    let steps = backward::backward_sequence(p, cu, j, n, heads, d, scale, causal).steps;
    assert(steps.subrange(0, p.steps.len() as int) =~= p.steps);
}

/// The steps of the first `count` sequences leave the gradients of each of them in its rows.
#[verifier::rlimit(60)]
proof fn lemma_sequences<T>(
    a: Arithmetic<T>, p: ProgramView, cu: Seq<u32>, count: int, n: int, heads: int, d: int,
    scale: F32, causal: bool, trace: Seq<Memory<T>>,
)
    requires
        p.end is Done,
        0 <= count < cu.len(),
        backward::nondecreasing(cu),
        cu[0] == 0,
        0 < heads <= u32::MAX,
        0 < d <= u32::MAX,
        cu.last() * (heads * d) <= u32::MAX,
        backward::backward_sequences(p, cu, count, n, heads, d, scale, causal).end is Done,
        meaning::carried_out(
            a,
            backward::backward_sequences(p, cu, count, n, heads, d, scale, causal).steps,
            trace,
        ),
    ensures
        ({
            let steps = backward::backward_sequences(
                p, cu, count, n, heads, d, scale, causal,
            ).steps;
            let start = trace[p.steps.len() as int];
            let after = trace.last();
            &&& steps.len() >= p.steps.len()
            &&& steps.subrange(0, p.steps.len() as int) == p.steps
            &&& forall|j: int, h: int|
                0 <= j < count && cu[j] < cu[j + 1] && 0 <= h < heads
                    ==> #[trigger] holds_packed_gradients(
                    a, start, after, cu[j] as int, cu[j + 1] - cu[j], h, heads, d, scale, causal,
                )
            &&& forall|b: u32, i: int|
                !(4 <= b < 7 && 0 <= i < cu[count] * (heads * d)) ==> #[trigger] after(
                    Slot::Param(b),
                    i,
                ) == start(Slot::Param(b), i)
        }),
    decreases count,
{
    let hd = heads * d;
    let all = backward::backward_sequences(p, cu, count, n, heads, d, scale, causal);
    if count > 0 {
        let earlier = backward::backward_sequences(p, cu, count - 1, n, heads, d, scale, causal);
        lemma_sequence_begins(earlier, cu, count - 1, n, heads, d, scale, causal);
        let at = earlier.steps.len() as int;
        meaning::stretch_is_carried_out(a, all.steps, trace, 0, at);
        let part = trace.subrange(0, at + 1);
        lemma_sequences(a, p, cu, count - 1, n, heads, d, scale, causal, part);
        crate::attention::backward_laws::lemma_boundaries(cu, count, cu.len() - 1);
        crate::attention::backward_laws::lemma_boundaries(cu, count - 1, count);
        assert(hd > 0 && cu[count] * hd <= cu.last() * hd && cu[count - 1] * hd <= cu[count] * hd
            && 0 <= cu[count - 1] * hd) by (nonlinear_arith)
            requires
                hd == heads * d,
                heads > 0,
                d > 0,
                cu[count] <= cu.last(),
                cu[count - 1] <= cu[count],
        ;
        lemma_sequence(a, earlier, cu, count - 1, n, heads, d, scale, causal, trace);
        let start = trace[p.steps.len() as int];
        let middle = trace[at];
        let after = trace.last();
        assert(part.last() == middle);
        assert(part[p.steps.len() as int] == start);
        assert(all.steps.subrange(0, p.steps.len() as int) =~= earlier.steps.subrange(
            0,
            p.steps.len() as int,
        )) by {
            assert forall|i: int| 0 <= i < p.steps.len() implies all.steps[i]
                == #[trigger] earlier.steps[i] by {
                assert(all.steps[i] == all.steps.subrange(0, at)[i]);
            }
        }
        assert forall|j: int, h: int|
            0 <= j < count && cu[j] < cu[j + 1] && 0 <= h
                < heads implies #[trigger] holds_packed_gradients(
            a, start, after, cu[j] as int, cu[j + 1] - cu[j], h, heads, d, scale, causal,
        ) by {
            let first = cu[j] as int;
            let s = cu[j + 1] - cu[j];
            if j < count - 1 {
                assert(holds_packed_gradients(
                    a, start, middle, first, s, h, heads, d, scale, causal,
                ));
                crate::attention::backward_laws::lemma_boundaries(cu, j + 1, count - 1);
                lemma_gradients_stay(
                    a, start, middle, after, first, s, h, heads, d, scale, causal,
                    cu[count - 1] as int,
                );
            } else {
                assert(holds_packed_gradients(
                    a, middle, after, first, s, h, heads, d, scale, causal,
                ));
                lemma_head_stays(start, middle, first, s, h, heads, d);
            }
        }
    } else {
        assert(all.steps.subrange(0, p.steps.len() as int) =~= p.steps);
    }
}

/// Gradients stay where what lies before the rows that change stays.
proof fn lemma_gradients_stay<T>(
    a: Arithmetic<T>, start: Memory<T>, before: Memory<T>, after: Memory<T>, first: int, s: int,
    h: int, heads: int, d: int, scale: F32, causal: bool, from: int,
)
    requires
        0 <= first,
        0 < s,
        first + s <= from,
        0 <= h < heads,
        0 < d,
        holds_packed_gradients(a, start, before, first, s, h, heads, d, scale, causal),
        forall|b: u32, i: int|
            i < from * (heads * d) ==> #[trigger] after(Slot::Param(b), i) == before(
                Slot::Param(b),
                i,
            ),
    ensures
        holds_packed_gradients(a, start, after, first, s, h, heads, d, scale, causal),
{
    lemma_rows_stay(before, after, 4, first, s, h, heads, d, from);
    lemma_rows_stay(before, after, 5, first, s, h, heads, d, from);
    lemma_rows_stay(before, after, 6, first, s, h, heads, d, from);
}

/// A head stays where the inputs stay.
proof fn lemma_head_stays<T>(
    before: Memory<T>, after: Memory<T>, first: int, s: int, h: int, heads: int, d: int,
)
    requires
        forall|b: u32, i: int|
            b < 4 ==> #[trigger] after(Slot::Param(b), i) == before(Slot::Param(b), i),
    ensures
        packed_head(after, first, s, h, heads, d) == packed_head(before, first, s, h, heads, d),
{
    lemma_input_stays(before, after, 0, first, s, h, heads, d);
    lemma_input_stays(before, after, 1, first, s, h, heads, d);
    lemma_input_stays(before, after, 2, first, s, h, heads, d);
    lemma_input_stays(before, after, 3, first, s, h, heads, d);
}

proof fn lemma_input_stays<T>(
    before: Memory<T>, after: Memory<T>, buffer: u32, first: int, s: int, h: int, heads: int,
    d: int,
)
    requires
        forall|i: int|
            #[trigger] after(Slot::Param(buffer), i) == before(Slot::Param(buffer), i),
    ensures
        packed_rows(after, buffer, first, s, h, heads, d) == packed_rows(
            before,
            buffer,
            first,
            s,
            h,
            heads,
            d,
        ),
{
    let x = packed_rows(after, buffer, first, s, h, heads, d);
    let y = packed_rows(before, buffer, first, s, h, heads, d);
    assert forall|e: int| 0 <= e < x.len() implies #[trigger] x[e] == y[e] by {
        let at = packed_at(first + e / d, h, e % d, heads, d);
        assert(after(Slot::Param(buffer), at) == before(Slot::Param(buffer), at));
    }
    assert(x =~= y);
}

/// What lies before the rows that change stays.
proof fn lemma_rows_stay<T>(
    before: Memory<T>, after: Memory<T>, buffer: u32, first: int, s: int, h: int, heads: int,
    d: int, from: int,
)
    requires
        4 <= buffer < 7,
        0 <= first,
        0 < s,
        first + s <= from,
        0 <= h < heads,
        0 < d,
        forall|i: int|
            i < from * (heads * d) ==> #[trigger] after(Slot::Param(buffer), i) == before(
                Slot::Param(buffer),
                i,
            ),
    ensures
        packed_rows(after, buffer, first, s, h, heads, d) == packed_rows(
            before,
            buffer,
            first,
            s,
            h,
            heads,
            d,
        ),
{
    let x = packed_rows(after, buffer, first, s, h, heads, d);
    let y = packed_rows(before, buffer, first, s, h, heads, d);
    assert forall|e: int| 0 <= e < x.len() implies #[trigger] x[e] == y[e] by {
        let r = e / d;
        let c = e % d;
        assert(0 <= r < s && 0 <= c < d) by (nonlinear_arith)
            requires
                r == e / d,
                c == e % d,
                d > 0,
                0 <= e < s * d,
        ;
        assert(packed_at(first + r, h, c, heads, d) < from * (heads * d)) by (nonlinear_arith)
            requires
                packed_at(first + r, h, c, heads, d) == ((first + r) * heads + h) * d + c,
                0 <= r < s,
                0 <= c < d,
                0 <= h < heads,
                0 <= first,
                first + s <= from,
        ;
    }
    assert(x =~= y);
}

/// Backward over packed sequences leaves in the rows of every sequence and head the gradients of
/// that head over the tokens of that sequence alone, and changes no input.
pub proof fn flash_attn_backward_bf16_varlen_gives_the_gradients<T>(
    a: Arithmetic<T>, q_len: int, k_len: int, v_len: int, do_len: int, dq_len: int, dk_len: int,
    dv_len: int, cu: Seq<u32>, heads: int, d: int, scale: F32, causal: bool,
    trace: Seq<Memory<T>>, j: int, h: int,
)
    requires
        0 < heads <= u32::MAX,
        0 < d <= u32::MAX,
        ({
            let p = backward::flash_attn_backward_bf16_varlen_program(
                q_len, k_len, v_len, do_len, dq_len, dk_len, dv_len, cu, heads, d, scale, causal,
            );
            p.end is Done && meaning::carried_out(a, p.steps, trace)
        }),
        0 <= j < cu.len() - 1,
        cu[j] < cu[j + 1],
        0 <= h < heads,
    ensures
        holds_packed_gradients(
            a, trace[0], trace.last(), cu[j] as int, cu[j + 1] - cu[j], h, heads, d, scale, causal,
        ),
        forall|b: u32, i: int|
            !(4 <= b < 7 && 0 <= i < cu.last() * (heads * d)) ==> #[trigger] trace.last()(
                Slot::Param(b),
                i,
            ) == trace[0](Slot::Param(b), i),
{
    let sequences = cu.len() - 1;
    let n = heads * backward::longest(cu, sequences) * d;
    let p = backward::varlen_prologue(n);
    assert(cu.last() * heads * d == cu.last() * (heads * d)) by (nonlinear_arith);
    assert(p.steps.len() == 7);
    lemma_sequences(a, p, cu, sequences, n, heads, d, scale, causal, trace);
    let steps = backward::backward_sequences(
        p, cu, sequences, n, heads, d, scale, causal,
    ).steps;
    assert forall|i: int| 0 <= i < 7 implies steps[i] == #[trigger] p.steps[i] by {
        assert(steps[i] == steps.subrange(0, 7)[i]);
    }
    assert(p.steps[0] == backward::scratch(0, n, "alloc q_htd: "@));
    assert(meaning::step_means(a, steps[0], trace[0], trace[1]));
    assert(trace[1] == meaning::cleared(trace[0], Slot::Scratch(0), a.zero));
    assert(p.steps[1] == backward::scratch(1, n, "alloc k_htd: "@));
    assert(meaning::step_means(a, steps[1], trace[1], trace[2]));
    assert(trace[2] == meaning::cleared(trace[1], Slot::Scratch(1), a.zero));
    assert(p.steps[2] == backward::scratch(2, n, "alloc v_htd: "@));
    assert(meaning::step_means(a, steps[2], trace[2], trace[3]));
    assert(trace[3] == meaning::cleared(trace[2], Slot::Scratch(2), a.zero));
    assert(p.steps[3] == backward::scratch(3, n, "alloc do_htd: "@));
    assert(meaning::step_means(a, steps[3], trace[3], trace[4]));
    assert(trace[4] == meaning::cleared(trace[3], Slot::Scratch(3), a.zero));
    assert(p.steps[4] == backward::scratch(4, n, "alloc dq_htd: "@));
    assert(meaning::step_means(a, steps[4], trace[4], trace[5]));
    assert(trace[5] == meaning::cleared(trace[4], Slot::Scratch(4), a.zero));
    assert(p.steps[5] == backward::scratch(5, n, "alloc dk_htd: "@));
    assert(meaning::step_means(a, steps[5], trace[5], trace[6]));
    assert(trace[6] == meaning::cleared(trace[5], Slot::Scratch(5), a.zero));
    assert(p.steps[6] == backward::scratch(6, n, "alloc dv_htd: "@));
    assert(meaning::step_means(a, steps[6], trace[6], trace[7]));
    assert(trace[7] == meaning::cleared(trace[6], Slot::Scratch(6), a.zero));
    assert forall|b: u32, i: int| #[trigger] trace[7](Slot::Param(b), i) == trace[0](
        Slot::Param(b),
        i,
    ) by {}
    let first = cu[j] as int;
    let s = cu[j + 1] - cu[j];
    assert(holds_packed_gradients(
        a, trace[7], trace.last(), first, s, h, heads, d, scale, causal,
    ));
    lemma_head_stays(trace[0], trace[7], first, s, h, heads, d);
}

} // verus!
