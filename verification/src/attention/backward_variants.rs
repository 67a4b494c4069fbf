//! The gradients of attention as numbers, where tensors are rearranged around the gradients of
//! the heads.
use crate::attention::backward;
use crate::attention::backward_laws;
use crate::attention::backward_meaning;
use crate::attention::backward_meaning::Head;
use crate::attention::backward_memory;
use crate::gemm::dense;
use crate::gemm::gradient;
use crate::meaning;
use crate::meaning::{Arithmetic, Memory};
use crate::plan::{Arg, F32, Place, Plan, Slot};
use crate::program::{BindingView, ProgramView, StepView};
use crate::shape;
use vstd::prelude::*;

verus! {

pub(crate) proof fn lemma_launch_names_no_address(p: ProgramView, plan: Plan, places: Seq<Place>)
    requires
        meaning::names_no_address(p.steps),
        plan matches Plan::Launch(l) ==> forall|j: int|
            0 <= j < l.args.len() ==> (#[trigger] l.args[j]) !is Address,
    ensures
        meaning::names_no_address(p.then_launch(plan, places).steps),
{
    let steps = p.then_launch(plan, places).steps;
    assert forall|k: int, j: int|
        #![trigger steps[k]->Launch_0.args[j]]
        0 <= k < steps.len() && steps[k] is Launch && 0 <= j
            < steps[k]->Launch_0.args.len() implies steps[k]->Launch_0.args[j] !is Address by {
        if k < p.steps.len() {
            assert(steps[k] == p.steps[k]);
            assert(p.steps[k]->Launch_0.args[j] !is Address);
        } else {
            let l = plan->Launch_0;
            assert(l.args[j] !is Address);
        }
    }
}

pub(crate) proof fn lemma_heads_name_no_address(
    p: ProgramView, heads: int, seq: int, d: int, scale: F32, causal: bool,
)
    requires
        meaning::names_no_address(p.steps),
    ensures
        meaning::names_no_address(
            backward::backward_heads(p, heads, seq, d, scale, causal).steps,
        ),
    decreases heads,
{
    if heads > 0 {
        lemma_heads_name_no_address(p, heads - 1, seq, d, scale, causal);
        let p = backward::backward_heads(p, heads - 1, seq, d, scale, causal);
        let n = seq * d;
        let w = seq * seq;
        let at = (heads - 1) * n;
        let q = Place::param_at(0, at);
        let k = Place::param_at(1, at);
        let v = Place::param_at(2, at);
        let grad = Place::param_at(3, at);
        let dq = Place::param_at(4, at);
        let dk = Place::param_at(5, at);
        let dv = Place::param_at(6, at);
        let weights = Place::of_scratch(0);
        let weight_grad = Place::of_scratch(1);
        let score_grad = Place::of_scratch(2);
        let recompute = backward::recompute_plan(seq, d, scale, causal);
        let by_b = gradient::gemm_bf16_backward_dB_view_plan(w, n, n, seq, d, seq);
        let by_a = gradient::gemm_bf16_backward_dA_view_plan(n, n, w, seq, d, seq);
        let scores = backward::score_gradient_plan(seq);
        let product = dense::gemm_bf16_view_plan(w, n, n, seq, d, seq);
        let scaling = backward::scale_plan(n, scale);
        lemma_launch_names_no_address(p, recompute, seq![q, k, weights]);
        let p = p.then_launch(recompute, seq![q, k, weights]);
        lemma_launch_names_no_address(p, by_b, seq![weights, grad, dv]);
        let p = p.then_launch(by_b, seq![weights, grad, dv]);
        lemma_launch_names_no_address(p, by_a, seq![grad, v, weight_grad]);
        let p = p.then_launch(by_a, seq![grad, v, weight_grad]);
        lemma_launch_names_no_address(p, scores, seq![weights, weight_grad, score_grad]);
        let p = p.then_launch(scores, seq![weights, weight_grad, score_grad]);
        lemma_launch_names_no_address(p, product, seq![score_grad, k, dq]);
        let p = p.then_launch(product, seq![score_grad, k, dq]);
        lemma_launch_names_no_address(p, scaling, seq![dq]);
        let p = p.then_launch(scaling, seq![dq]);
        lemma_launch_names_no_address(p, by_b, seq![score_grad, q, dk]);
        let p = p.then_launch(by_b, seq![score_grad, q, dk]);
        lemma_launch_names_no_address(p, scaling, seq![dk]);
    }
}

/// The gradients of the heads, carried out within a program that has come to `p`: every head
/// that the part sees gets its gradients, and nothing else changes that the part does not use.
pub(crate) proof fn lemma_heads_within<T>(
    a: Arithmetic<T>, p: ProgramView, b: BindingView, lens: Seq<int>, batch: int, num_heads: int,
    seq: int, d: int, scale: F32, causal: bool, steps: Seq<StepView>, trace: Seq<Memory<T>>,
)
    requires
        p.end is Done,
        batch >= 0,
        num_heads >= 0,
        seq >= 0,
        d >= 0,
        b.places.len() == 7,
        b.base + 3 <= u32::MAX,
        meaning::separates(b),
        meaning::carried_out(a, steps, trace),
        ({
            let q = backward::flash_attn_backward_bf16_program(
                lens[0], lens[1], lens[2], lens[3], lens[4], lens[5], lens[6], batch, num_heads,
                seq, d, scale, causal,
            );
            let whole = p.then_run(q, b);
            &&& q.end is Done
            &&& whole.steps.len() <= steps.len()
            &&& whole.steps == steps.subrange(0, whole.steps.len() as int)
        }),
    ensures
        ({
            let inner = 6 + 8 * (batch * num_heads);
            let at = p.steps.len() as int;
            let before = meaning::seen(a, b, trace[at]);
            let after = meaning::seen(a, b, trace[at + inner]);
            let n = seq * d;
            &&& inner >= 0
            &&& at + inner < trace.len()
            &&& p.then_run(
                backward::flash_attn_backward_bf16_program(
                    lens[0], lens[1], lens[2], lens[3], lens[4], lens[5], lens[6], batch,
                    num_heads, seq, d, scale, causal,
                ),
                b,
            ).steps.len() == at + inner
            &&& forall|h: int|
                0 <= h < batch * num_heads ==> #[trigger] backward_meaning::holds_gradients(
                    a,
                    after,
                    h,
                    backward_meaning::head_of(before, h, n),
                    seq,
                    d,
                    scale,
                    causal,
                )
            &&& forall|j: u32, i: int|
                !(4 <= j < 7 && 0 <= i < batch * num_heads * n) ==> #[trigger] after(
                    Slot::Param(j),
                    i,
                ) == before(Slot::Param(j), i)
            &&& forall|t: Slot, i: int|
                !meaning::is_reached(b, t) ==> #[trigger] trace[at + inner](t, i) == trace[at](t, i)
        }),
{
    let q = backward::flash_attn_backward_bf16_program(
        lens[0], lens[1], lens[2], lens[3], lens[4], lens[5], lens[6], batch, num_heads, seq, d,
        scale, causal,
    );
    let whole = p.then_run(q, b);
    let count = whole.steps.len() as int;
    let at = p.steps.len() as int;
    backward_laws::flash_attn_backward_bf16_is_all_or_nothing(
        lens[0], lens[1], lens[2], lens[3], lens[4], lens[5], lens[6], batch, num_heads, seq, d,
        scale, causal,
    );
    backward_memory::flash_attn_backward_bf16_is_closed(
        lens[0], lens[1], lens[2], lens[3], lens[4], lens[5], lens[6], batch, num_heads, seq, d,
        scale, causal,
    );
    meaning::stretch_is_carried_out(a, steps, trace, 0, count);
    let part = trace.subrange(0, count + 1);
    let prologue = backward::backward_prologue(seq, causal);
    lemma_heads_name_no_address(prologue, batch * num_heads, seq, d, scale, causal);
    meaning::part_is_carried_out(a, p, q, b, 7, 3, part);
    let times = meaning::seen_all(a, b, part.subrange(at, part.len() as int));
    backward_meaning::flash_attn_backward_bf16_gives_the_gradients(
        a, lens[0], lens[1], lens[2], lens[3], lens[4], lens[5], lens[6], batch, num_heads, seq, d,
        scale, causal, times,
    );
    assert(times[0] == meaning::seen(a, b, trace[at]));
    assert(times.last() == meaning::seen(a, b, trace[count]));
    assert(part.last() == trace[count]);
}

/// The head of number `i` with the keys and values of the key head that serves it.
pub open spec fn grouped_head<T>(
    m: Memory<T>, i: int, heads: int, kv: int, n: int,
) -> Head<T> {
    let serving = meaning::serving_head(i, heads, kv);
    Head {
        q: meaning::read(m, Place::param_at(0, i * n), n),
        k: meaning::read(m, Place::param_at(1, serving * n), n),
        v: meaning::read(m, Place::param_at(2, serving * n), n),
        grad: meaning::read(m, Place::param_at(3, i * n), n),
    }
}

/// The key head that serves a query head is one of the key heads, and a query head is served by
/// the key head that it is counted to.
pub proof fn serving_heads_are_there(batch: int, heads: int, kv: int, i: int)
    requires
        kv > 0,
        heads > 0,
        heads % kv == 0,
        0 <= i < batch * heads,
    ensures
        0 <= meaning::serving_head(i, heads, kv) < batch * kv,
{
    let group = heads / kv;
    let b = i / heads;
    let h = i % heads;
    assert(heads == group * kv && group > 0) by (nonlinear_arith)
        requires
            group == heads / kv,
            heads % kv == 0,
            kv > 0,
            heads > 0,
    ;
    assert(0 <= b < batch && 0 <= h < heads) by (nonlinear_arith)
        requires
            b == i / heads,
            h == i % heads,
            heads > 0,
            0 <= i < batch * heads,
    ;
    assert(0 <= h / group < kv) by (nonlinear_arith)
        requires
            0 <= h < group * kv,
            group > 0,
    ;
    let s = h / group;
    assert(0 <= b * kv + s < batch * kv) by (nonlinear_arith)
        requires
            0 <= b < batch,
            0 <= s < kv,
    ;
}

/// The query heads that a key head serves are heads of the tensor, and it is the one that serves
/// them.
pub proof fn served_heads_are_there(batch: int, heads: int, kv: int, c: int, g: int)
    requires
        kv > 0,
        heads > 0,
        heads % kv == 0,
        0 <= c < batch * kv,
        0 <= g < heads / kv,
    ensures
        0 <= meaning::first_served(c, heads, kv) + g < batch * heads,
        meaning::serving_head(meaning::first_served(c, heads, kv) + g, heads, kv) == c,
{
    let group = heads / kv;
    let b = c / kv;
    let s = c % kv;
    assert(heads == group * kv) by (nonlinear_arith)
        requires
            group == heads / kv,
            heads % kv == 0,
            kv > 0,
    ;
    assert(0 <= b < batch && 0 <= s < kv && c == b * kv + s) by (nonlinear_arith)
        requires
            b == c / kv,
            s == c % kv,
            kv > 0,
            0 <= c < batch * kv,
    ;
    let h = s * group + g;
    assert(0 <= h < heads && h / group == s) by (nonlinear_arith)
        requires
            h == s * group + g,
            0 <= s < kv,
            0 <= g < group,
            heads == group * kv,
    ;
    let i = b * heads + h;
    assert(0 <= i < batch * heads && i / heads == b && i % heads == h) by (nonlinear_arith)
        requires
            i == b * heads + h,
            0 <= b < batch,
            0 <= h < heads,
    ;
    assert(meaning::first_served(c, heads, kv) + g == i);
}

/// What the launch that repeats or sums heads does.
proof fn lemma_head_groups<T>(
    a: Arithmetic<T>, kernel: Seq<char>, count: int, batch: int, kv: int, heads: int, seq: int,
    d: int, places: Seq<Place>, before: Memory<T>, after: Memory<T>,
)
    requires
        places.len() == 2,
        batch > 0,
        seq > 0,
        d > 0,
        0 < kv <= heads,
        batch * heads * seq * d <= u32::MAX,
        kernel == "repeat_kv_groups_bf16"@ && count == batch * heads * seq * d || kernel
            == "sum_kv_groups_bf16"@ && count == batch * kv * seq * d,
        backward::head_groups_plan(kernel, count, batch, kv, heads, seq, d) matches Plan::Launch(l)
            && meaning::launch_means(a, BindingView { places, base: 0 }.launch(l), before, after),
    ensures
        kernel == "repeat_kv_groups_bf16"@ && count == batch * heads * seq * d
            ==> after == meaning::written(
            before,
            places[1],
            meaning::repeated_heads(
                meaning::read(before, places[0], batch * kv * (seq * d)),
                batch,
                heads,
                kv,
                seq * d,
            ),
        ),
        kernel == "sum_kv_groups_bf16"@ && count == batch * kv * seq * d
            ==> after == meaning::written(
            before,
            places[1],
            meaning::summed_heads(
                a,
                meaning::read(before, places[0], batch * heads * (seq * d)),
                batch,
                heads,
                kv,
                seq * d,
            ),
        ),
{
    lemma_group_sizes(batch, heads, seq, d);
    lemma_group_sizes(batch, kv, seq, d);
    assert(batch * kv * seq * d <= batch * heads * seq * d) by (nonlinear_arith)
        requires
            0 < kv <= heads,
            batch > 0,
            seq > 0,
            d > 0,
    ;
    assert(heads <= u32::MAX && batch <= u32::MAX && seq <= u32::MAX && d <= u32::MAX);
    shape::lemma_ceil_div(count, 256);
}

pub(crate) proof fn lemma_group_sizes(batch: int, heads: int, seq: int, d: int)
    requires
        batch > 0,
        heads > 0,
        seq > 0,
        d > 0,
    ensures
        batch * heads * (seq * d) == batch * heads * seq * d,
        batch <= batch * heads * seq * d,
        heads <= batch * heads * seq * d,
        seq <= batch * heads * seq * d,
        d <= batch * heads * seq * d,
        0 < seq * d,
        0 < batch * heads,
{
    assert(batch * heads * (seq * d) == batch * heads * seq * d) by (nonlinear_arith);
    let bh = batch * heads;
    let n = seq * d;
    assert(bh >= batch && bh >= heads && bh > 0) by (nonlinear_arith)
        requires
            bh == batch * heads,
            batch > 0,
            heads > 0,
    ;
    assert(n >= seq && n >= d && n > 0) by (nonlinear_arith)
        requires
            n == seq * d,
            seq > 0,
            d > 0,
    ;
    assert(bh * n >= bh && bh * n >= n) by (nonlinear_arith)
        requires
            bh > 0,
            n > 0,
    ;
}

/// The slice of a query head in repeated key heads is that of the key head that serves it.
proof fn lemma_repeated_slice<T>(
    m: Memory<T>, from: Place, x: Seq<T>, batch: int, heads: int, kv: int, n: int, i: int,
)
    requires
        kv > 0,
        heads > 0,
        heads % kv == 0,
        n > 0,
        0 <= i < batch * heads,
        from.start == 0,
        x == meaning::repeated_heads(
            meaning::read(m, from, batch * kv * n),
            batch,
            heads,
            kv,
            n,
        ),
        batch * heads * n <= u32::MAX,
        batch * kv * n <= u32::MAX,
    ensures
        ({
            let serving = meaning::serving_head(i, heads, kv);
            &&& x.len() == batch * heads * n
            &&& 0 <= i * n && i * n + n <= batch * heads * n
            &&& 0 <= serving * n && serving * n + n <= batch * kv * n
            &&& x.subrange(i * n, i * n + n) == meaning::read(
                m,
                Place { slot: from.slot, start: (serving * n) as u64 },
                n,
            )
        }),
{
    let serving = meaning::serving_head(i, heads, kv);
    let whole = meaning::read(m, from, batch * kv * n);
    let f = |i: int, r: int| meaning::entry(whole, n, meaning::serving_head(i, heads, kv), r);
    serving_heads_are_there(batch, heads, kv, i);
    assert(0 <= i * n && i * n + n <= batch * heads * n) by (nonlinear_arith)
        requires
            0 <= i < batch * heads,
            n > 0,
    ;
    assert(0 <= serving * n && serving * n + n <= batch * kv * n) by (nonlinear_arith)
        requires
            0 <= serving < batch * kv,
            n > 0,
    ;
    assert(x == meaning::matrix(batch * heads, n, f));
    let there = meaning::read(m, Place { slot: from.slot, start: (serving * n) as u64 }, n);
    assert forall|r: int| 0 <= r < n implies #[trigger] x.subrange(i * n, i * n + n)[r]
        == there[r] by {
        meaning::matrix_has_its_entries(batch * heads, n, f, i, r);
    }
    assert(x.subrange(i * n, i * n + n) =~= there);
}

/// A sum of equal numbers is equal.
pub(crate) proof fn lemma_total_of_equals<T>(
    a: Arithmetic<T>, x: spec_fn(int) -> T, y: spec_fn(int) -> T, n: int,
)
    requires
        forall|g: int| 0 <= g < n ==> #[trigger] x(g) == y(g),
    ensures
        meaning::total(a, x, n) == meaning::total(a, y, n),
    decreases n,
{
    if n > 0 {
        lemma_total_of_equals(a, x, y, n - 1);
    }
}

/// The heads that the gradients over repeated key heads see are those of the caller.
proof fn lemma_gqa_heads<T>(
    a: Arithmetic<T>, batch: int, heads: int, kv: int, n: int, start: Memory<T>, m: Memory<T>,
)
    requires
        batch > 0,
        kv > 0,
        heads > 0,
        heads % kv == 0,
        n > 0,
        batch * heads * n <= u32::MAX,
        batch * kv * n <= u32::MAX,
        meaning::read(m, Place::of_scratch(0), batch * heads * n) == meaning::repeated_heads(
            meaning::read(start, Place::of_param(1), batch * kv * n),
            batch,
            heads,
            kv,
            n,
        ),
        meaning::read(m, Place::of_scratch(1), batch * heads * n) == meaning::repeated_heads(
            meaning::read(start, Place::of_param(2), batch * kv * n),
            batch,
            heads,
            kv,
            n,
        ),
        forall|i: int| #[trigger] m(Slot::Param(0), i) == start(Slot::Param(0), i),
        forall|i: int| #[trigger] m(Slot::Param(3), i) == start(Slot::Param(3), i),
    ensures
        forall|i: int|
            0 <= i < batch * heads ==> #[trigger] backward_meaning::head_of(
                meaning::seen(a, backward::expanded_binding(), m),
                i,
                n,
            ) == grouped_head(start, i, heads, kv, n),
{
    let b = backward::expanded_binding();
    let view = meaning::seen(a, b, m);
    let keys = meaning::read(m, Place::of_scratch(0), batch * heads * n);
    let values = meaning::read(m, Place::of_scratch(1), batch * heads * n);
    assert forall|i: int| 0 <= i < batch * heads implies #[trigger] backward_meaning::head_of(
        view,
        i,
        n,
    ) == grouped_head(start, i, heads, kv, n) by {
        lemma_repeated_slice(start, Place::of_param(1), keys, batch, heads, kv, n, i);
        lemma_repeated_slice(start, Place::of_param(2), values, batch, heads, kv, n, i);
        let x = backward_meaning::head_of(view, i, n);
        let y = grouped_head(start, i, heads, kv, n);
        assert(x.q =~= y.q);
        assert(x.grad =~= y.grad);
        assert(x.k =~= keys.subrange(i * n, i * n + n));
        assert(x.v =~= values.subrange(i * n, i * n + n));
        assert(x =~= y);
    }
}

/// An entry of summed heads is summed over the heads that the key head serves.
proof fn lemma_summed_entry<T>(
    a: Arithmetic<T>, x: Seq<T>, batch: int, heads: int, kv: int, n: int, c: int, r: int,
    f: spec_fn(int) -> Seq<T>,
)
    requires
        kv > 0,
        heads > 0,
        heads % kv == 0,
        0 <= c < batch * kv,
        0 <= r < n,
        x.len() == batch * heads * n,
        forall|i: int| 0 <= i < batch * heads ==> #[trigger] f(i) == meaning::row(x, n, i),
    ensures
        meaning::entry(meaning::summed_heads(a, x, batch, heads, kv, n), n, c, r)
            == meaning::total(
            a,
            |g: int| f(meaning::first_served(c, heads, kv) + g)[r],
            heads / kv,
        ),
{
    let first = meaning::first_served(c, heads, kv);
    let sums = |i: int, r: int|
        meaning::total(
            a,
            |g: int| meaning::entry(x, n, meaning::first_served(i, heads, kv) + g, r),
            heads / kv,
        );
    meaning::matrix_has_its_entries(batch * kv, n, sums, c, r);
    let u = |g: int| meaning::entry(x, n, first + g, r);
    let w = |g: int| f(first + g)[r];
    assert forall|g: int| 0 <= g < heads / kv implies #[trigger] u(g) == w(g) by {
        served_heads_are_there(batch, heads, kv, c, g);
        let i = first + g;
        assert(f(i) == meaning::row(x, n, i));
        assert(0 <= i * n && i * n + n <= batch * heads * n) by (nonlinear_arith)
            requires
                0 <= i < batch * heads,
                n > 0,
        ;
    }
    lemma_total_of_equals(a, u, w, heads / kv);
}

/// Backward with grouped heads leaves in the slice of every query head the gradient of its
/// queries, over the keys and values of the key head that serves it, and in the slice of every
/// key head the gradients of its keys and values, summed over the query heads that it serves.
#[verifier::rlimit(60)]
pub proof fn flash_attn_backward_bf16_gqa_gives_the_gradients<T>(
    a: Arithmetic<T>, q_len: int, k_len: int, v_len: int, do_len: int, dq_len: int, dk_len: int,
    dv_len: int, batch: int, heads: int, kv: int, seq: int, d: int, scale: F32, causal: bool,
    trace: Seq<Memory<T>>,
)
    requires
        batch >= 0,
        heads >= 0,
        kv >= 0,
        seq >= 0,
        d >= 0,
        ({
            let p = backward::flash_attn_backward_bf16_gqa_program(
                q_len, k_len, v_len, do_len, dq_len, dk_len, dv_len, batch, heads, kv, seq, d,
                scale, causal,
            );
            p.end is Done && meaning::carried_out(a, p.steps, trace)
        }),
    ensures
        forall|i: int|
            0 <= i < batch * heads ==> #[trigger] meaning::read(
                trace.last(),
                Place::param_at(4, i * (seq * d)),
                seq * d,
            ) == grouped_head(trace[0], i, heads, kv, seq * d).query_gradient(
                a, seq, d, scale, causal,
            ),
        forall|c: int, r: int|
            #![trigger meaning::entry(
                meaning::read(trace.last(), Place::of_param(5), batch * kv * (seq * d)),
                seq * d, c, r,
            )]
            0 <= c < batch * kv && 0 <= r < seq * d ==> meaning::entry(
                meaning::read(trace.last(), Place::of_param(5), batch * kv * (seq * d)),
                seq * d,
                c,
                r,
            ) == meaning::total(
                a,
                |g: int|
                    grouped_head(
                        trace[0],
                        meaning::first_served(c, heads, kv) + g,
                        heads,
                        kv,
                        seq * d,
                    ).key_gradient(a, seq, d, scale, causal)[r],
                heads / kv,
            ),
        forall|c: int, r: int|
            #![trigger meaning::entry(
                meaning::read(trace.last(), Place::of_param(6), batch * kv * (seq * d)),
                seq * d, c, r,
            )]
            0 <= c < batch * kv && 0 <= r < seq * d ==> meaning::entry(
                meaning::read(trace.last(), Place::of_param(6), batch * kv * (seq * d)),
                seq * d,
                c,
                r,
            ) == meaning::total(
                a,
                |g: int|
                    grouped_head(
                        trace[0],
                        meaning::first_served(c, heads, kv) + g,
                        heads,
                        kv,
                        seq * d,
                    ).value_gradient(a, seq, d, scale, causal)[r],
                heads / kv,
            ),
{
    let program = backward::flash_attn_backward_bf16_gqa_program(
        q_len, k_len, v_len, do_len, dq_len, dk_len, dv_len, batch, heads, kv, seq, d, scale,
        causal,
    );
    let steps = program.steps;
    let q_elems = batch * heads * seq * d;
    let kv_elems = batch * kv * seq * d;
    let n = seq * d;
    let b = backward::expanded_binding();
    let repeat = backward::head_groups_plan(
        "repeat_kv_groups_bf16"@, q_elems, batch, kv, heads, seq, d,
    );
    let p = ProgramView::empty().step(backward::scratch(0, q_elems, "alloc k_exp: "@)).step(
        backward::scratch(1, q_elems, "alloc v_exp: "@),
    ).step(backward::scratch(2, q_elems, "alloc dk_exp: "@)).step(
        backward::scratch(3, q_elems, "alloc dv_exp: "@),
    ).step(
        StepView::Load { kernel: "repeat_kv_groups_bf16"@, entry: "repeat_kv_groups_bf16"@ },
    ).then_launch(repeat, seq![Place::of_param(1), Place::of_scratch(0)]).then_launch(
        repeat,
        seq![Place::of_param(2), Place::of_scratch(1)],
    );
    let lens = seq![q_len, q_elems, q_elems, do_len, dq_len, q_elems, q_elems];
    let inner = backward::flash_attn_backward_bf16_program(
        q_len, q_elems, q_elems, do_len, dq_len, q_elems, q_elems, batch, heads, seq, d, scale,
        causal,
    );
    let whole = p.then_run(inner, b);
    let count = whole.steps.len() as int;
    assert(inner.end is Done);
    assert(p.steps.len() == 7);
    assert(steps.len() == count + 3);
    assert(steps.subrange(0, count) =~= whole.steps);
    assert(batch > 0 && heads > 0 && seq > 0 && d > 0);
    assert(kv <= heads) by (nonlinear_arith)
        requires
            heads % kv == 0,
            heads > 0,
            kv > 0,
    ;
    lemma_group_sizes(batch, heads, seq, d);
    lemma_group_sizes(batch, kv, seq, d);
    lemma_heads_within(
        a, p, b, lens, batch, heads, seq, d, scale, causal, steps, trace,
    );
    assert forall|i: int| 0 <= i < 7 implies steps[i] == #[trigger] p.steps[i] by {
        assert(steps[i] == whole.steps[i]);
    }
    assert(meaning::step_means(a, steps[0], trace[0], trace[1]));
    assert(meaning::step_means(a, steps[1], trace[1], trace[2]));
    assert(meaning::step_means(a, steps[2], trace[2], trace[3]));
    assert(meaning::step_means(a, steps[3], trace[3], trace[4]));
    assert(meaning::step_means(a, steps[4], trace[4], trace[5]));
    assert(meaning::step_means(a, steps[5], trace[5], trace[6]));
    lemma_head_groups(
        a, "repeat_kv_groups_bf16"@, q_elems, batch, kv, heads, seq, d,
        seq![Place::of_param(1), Place::of_scratch(0)], trace[5], trace[6],
    );
    assert(meaning::step_means(a, steps[6], trace[6], trace[7]));
    lemma_head_groups(
        a, "repeat_kv_groups_bf16"@, q_elems, batch, kv, heads, seq, d,
        seq![Place::of_param(2), Place::of_scratch(1)], trace[6], trace[7],
    );
    assert(meaning::step_means(a, steps[count], trace[count], trace[count + 1]));
    assert(meaning::step_means(a, steps[count + 1], trace[count + 1], trace[count + 2]));
    lemma_head_groups(
        a, "sum_kv_groups_bf16"@, kv_elems, batch, kv, heads, seq, d,
        seq![Place::of_scratch(2), Place::of_param(5)], trace[count + 1], trace[count + 2],
    );
    assert(meaning::step_means(a, steps[count + 2], trace[count + 2], trace[count + 3]));
    lemma_head_groups(
        a, "sum_kv_groups_bf16"@, kv_elems, batch, kv, heads, seq, d,
        seq![Place::of_scratch(3), Place::of_param(6)], trace[count + 2], trace[count + 3],
    );
    let keys = meaning::read(trace[0], Place::of_param(1), batch * kv * n);
    let values = meaning::read(trace[0], Place::of_param(2), batch * kv * n);
    assert(meaning::read(trace[5], Place::of_param(1), batch * kv * n) =~= keys);
    assert(meaning::read(trace[6], Place::of_param(2), batch * kv * n) =~= values);
    assert(meaning::read(trace[7], Place::of_scratch(0), batch * heads * n)
        =~= meaning::repeated_heads(keys, batch, heads, kv, n));
    assert(meaning::read(trace[7], Place::of_scratch(1), batch * heads * n)
        =~= meaning::repeated_heads(values, batch, heads, kv, n));
    lemma_gqa_heads(a, batch, heads, kv, n, trace[0], trace[7]);
    let before = meaning::seen(a, b, trace[7]);
    let after = meaning::seen(a, b, trace[count]);
    assert forall|i: int| 0 <= i < batch * heads implies #[trigger] meaning::read(
        trace.last(),
        Place::param_at(4, i * n),
        n,
    ) == grouped_head(trace[0], i, heads, kv, n).query_gradient(a, seq, d, scale, causal) by {
        assert(backward_meaning::holds_gradients(
            a,
            after,
            i,
            backward_meaning::head_of(before, i, n),
            seq,
            d,
            scale,
            causal,
        ));
        assert(backward_meaning::head_of(before, i, n) == grouped_head(trace[0], i, heads, kv, n));
        assert(meaning::read(trace.last(), Place::param_at(4, i * n), n) =~= meaning::read(
            after,
            Place::param_at(4, i * n),
            n,
        ));
    }
    assert(meaning::read(trace[count + 1], Place::of_scratch(2), batch * heads * n)
        =~= meaning::read(after, Place::of_param(5), batch * heads * n));
    assert(meaning::read(trace[count + 2], Place::of_scratch(3), batch * heads * n)
        =~= meaning::read(after, Place::of_param(6), batch * heads * n));
    let dk = meaning::read(after, Place::of_param(5), batch * heads * n);
    let dv = meaning::read(after, Place::of_param(6), batch * heads * n);
    let key_grads = |i: int|
        grouped_head(trace[0], i, heads, kv, n).key_gradient(a, seq, d, scale, causal);
    assert forall|i: int| 0 <= i < batch * heads implies #[trigger] key_grads(i) == meaning::row(
        dk,
        n,
        i,
    ) by {
        assert(backward_meaning::holds_gradients(
            a,
            after,
            i,
            backward_meaning::head_of(before, i, n),
            seq,
            d,
            scale,
            causal,
        ));
        assert(0 <= i * n && i * n + n <= batch * heads * n) by (nonlinear_arith)
            requires
                0 <= i < batch * heads,
                n > 0,
        ;
        assert(backward_meaning::head_of(before, i, n) == grouped_head(trace[0], i, heads, kv, n));
        assert(meaning::row(dk, n, i) =~= meaning::read(
            after,
            Place::param_at(5, i * n),
            n,
        ));
    }
    assert(meaning::read(trace.last(), Place::of_param(5), batch * kv * n)
        =~= meaning::summed_heads(a, dk, batch, heads, kv, n));
    let value_grads = |i: int|
        grouped_head(trace[0], i, heads, kv, n).value_gradient(a, seq, d, scale, causal);
    assert forall|i: int| 0 <= i < batch * heads implies #[trigger] value_grads(i) == meaning::row(
        dv,
        n,
        i,
    ) by {
        assert(backward_meaning::holds_gradients(
            a,
            after,
            i,
            backward_meaning::head_of(before, i, n),
            seq,
            d,
            scale,
            causal,
        ));
        assert(0 <= i * n && i * n + n <= batch * heads * n) by (nonlinear_arith)
            requires
                0 <= i < batch * heads,
                n > 0,
        ;
        assert(backward_meaning::head_of(before, i, n) == grouped_head(trace[0], i, heads, kv, n));
        assert(meaning::row(dv, n, i) =~= meaning::read(
            after,
            Place::param_at(6, i * n),
            n,
        ));
    }
    assert(meaning::read(trace.last(), Place::of_param(6), batch * kv * n)
        =~= meaning::summed_heads(a, dv, batch, heads, kv, n));
    assert forall|c: int, r: int|
        #![trigger meaning::entry(
            meaning::read(trace.last(), Place::of_param(5), batch * kv * n), n, c, r,
        )]
        0 <= c < batch * kv && 0 <= r < n implies meaning::entry(
        meaning::read(trace.last(), Place::of_param(5), batch * kv * n),
        n,
        c,
        r,
    ) == meaning::total(
        a,
        |g: int|
            grouped_head(
                trace[0],
                meaning::first_served(c, heads, kv) + g,
                heads,
                kv,
                n,
            ).key_gradient(a, seq, d, scale, causal)[r],
        heads / kv,
    ) by {
        lemma_summed_entry(a, dk, batch, heads, kv, n, c, r, key_grads);
        let first = meaning::first_served(c, heads, kv);
        let sums = |g: int|
            grouped_head(trace[0], first + g, heads, kv, n).key_gradient(
                a, seq, d, scale, causal,
            )[r];
        assert(sums =~= |g: int| key_grads(first + g)[r]);
    }
    assert forall|c: int, r: int|
        #![trigger meaning::entry(
            meaning::read(trace.last(), Place::of_param(6), batch * kv * n), n, c, r,
        )]
        0 <= c < batch * kv && 0 <= r < n implies meaning::entry(
        meaning::read(trace.last(), Place::of_param(6), batch * kv * n),
        n,
        c,
        r,
    ) == meaning::total(
        a,
        |g: int|
            grouped_head(
                trace[0],
                meaning::first_served(c, heads, kv) + g,
                heads,
                kv,
                n,
            ).value_gradient(a, seq, d, scale, causal)[r],
        heads / kv,
    ) by {
        lemma_summed_entry(a, dv, batch, heads, kv, n, c, r, value_grads);
        let first = meaning::first_served(c, heads, kv);
        let sums = |g: int|
            grouped_head(trace[0], first + g, heads, kv, n).value_gradient(
                a, seq, d, scale, causal,
            )[r];
        assert(sums =~= |g: int| value_grads(first + g)[r]);
    }
}

/// The head of number `i` with the numbers that its key and value bytes stand for.
pub open spec fn widened_head<T>(
    a: Arithmetic<T>, m: Memory<T>, i: int, n: int, kv_scale: F32,
) -> Head<T> {
    Head {
        q: meaning::read(m, Place::param_at(0, i * n), n),
        k: meaning::read(m, Place::param_at(1, i * n), n).map_values(
            |v: T| (a.widened)(v, kv_scale),
        ),
        v: meaning::read(m, Place::param_at(2, i * n), n).map_values(
            |v: T| (a.widened)(v, kv_scale),
        ),
        grad: meaning::read(m, Place::param_at(3, i * n), n),
    }
}

/// Backward over an FP8 cache leaves in the slices of every head its gradients, over the numbers
/// that the bytes of its keys and values stand for.
#[verifier::rlimit(60)]
pub proof fn flash_attn_backward_fp8kv_bf16_gives_the_gradients<T>(
    a: Arithmetic<T>, q_len: int, k_fp8_len: int, v_fp8_len: int, do_len: int, dq_len: int,
    dk_len: int, dv_len: int, batch: int, num_heads: int, seq: int, d: int, scale: F32,
    kv_scale: F32, causal: bool, trace: Seq<Memory<T>>,
)
    requires
        batch >= 0,
        num_heads >= 0,
        seq >= 0,
        d >= 0,
        ({
            let p = backward::flash_attn_backward_fp8kv_bf16_program(
                q_len, k_fp8_len, v_fp8_len, do_len, dq_len, dk_len, dv_len, batch, num_heads, seq,
                d, scale, kv_scale, causal,
            );
            p.end is Done && meaning::carried_out(a, p.steps, trace)
        }),
    ensures
        forall|h: int|
            0 <= h < batch * num_heads ==> #[trigger] backward_meaning::holds_gradients(
                a,
                trace.last(),
                h,
                widened_head(a, trace[0], h, seq * d, kv_scale),
                seq,
                d,
                scale,
                causal,
            ),
{
    let steps = backward::flash_attn_backward_fp8kv_bf16_program(
        q_len, k_fp8_len, v_fp8_len, do_len, dq_len, dk_len, dv_len, batch, num_heads, seq, d,
        scale, kv_scale, causal,
    ).steps;
    let n = seq * d;
    let elems = batch * num_heads * seq * d;
    let b = BindingView {
        places: seq![
            Place::of_param(0), Place::of_scratch(0), Place::of_scratch(1), Place::of_param(3),
            Place::of_param(4), Place::of_param(5), Place::of_param(6),
        ],
        base: 2,
    };
    let p = ProgramView::empty().step(backward::scratch(0, elems, "alloc k_bf16: "@)).step(
        backward::scratch(1, elems, "alloc v_bf16: "@),
    ).step(
        StepView::Dequant {
            from: Place::of_param(1),
            to: Place::of_scratch(0),
            n: elems,
            scale: kv_scale,
        },
    ).step(
        StepView::Dequant {
            from: Place::of_param(2),
            to: Place::of_scratch(1),
            n: elems,
            scale: kv_scale,
        },
    );
    let lens = seq![q_len, elems, elems, do_len, dq_len, dk_len, dv_len];
    let inner = backward::flash_attn_backward_bf16_program(
        q_len, elems, elems, do_len, dq_len, dk_len, dv_len, batch, num_heads, seq, d, scale,
        causal,
    );
    let whole = p.then_run(inner, b);
    assert(steps =~= whole.steps);
    assert(steps.subrange(0, whole.steps.len() as int) =~= whole.steps);
    assert(p.steps.len() == 4);
    lemma_group_sizes(batch, num_heads, seq, d);
    lemma_heads_within(a, p, b, lens, batch, num_heads, seq, d, scale, causal, steps, trace);
    assert forall|i: int| 0 <= i < 4 implies steps[i] == #[trigger] p.steps[i] by {}
    assert(meaning::step_means(a, steps[0], trace[0], trace[1]));
    assert(meaning::step_means(a, steps[1], trace[1], trace[2]));
    assert(meaning::step_means(a, steps[2], trace[2], trace[3]));
    assert(meaning::step_means(a, steps[3], trace[3], trace[4]));
    let before = meaning::seen(a, b, trace[4]);
    let after = meaning::seen(a, b, trace.last());
    assert forall|h: int|
        0 <= h < batch * num_heads implies #[trigger] backward_meaning::holds_gradients(
        a,
        trace.last(),
        h,
        widened_head(a, trace[0], h, n, kv_scale),
        seq,
        d,
        scale,
        causal,
    ) by {
        assert(0 <= h * n && h * n + n <= batch * num_heads * n) by (nonlinear_arith)
            requires
                0 <= h < batch * num_heads,
                n > 0,
        ;
        let x = backward_meaning::head_of(before, h, n);
        let y = widened_head(a, trace[0], h, n, kv_scale);
        assert(x.q =~= y.q);
        assert(x.k =~= y.k);
        assert(x.v =~= y.v);
        assert(x.grad =~= y.grad);
        assert(x =~= y);
        assert(backward_meaning::holds_gradients(a, after, h, x, seq, d, scale, causal));
        assert(meaning::read(trace.last(), Place::param_at(4, h * n), n) =~= meaning::read(
            after,
            Place::param_at(4, h * n),
            n,
        ));
        assert(meaning::read(trace.last(), Place::param_at(5, h * n), n) =~= meaning::read(
            after,
            Place::param_at(5, h * n),
            n,
        ));
        assert(meaning::read(trace.last(), Place::param_at(6, h * n), n) =~= meaning::read(
            after,
            Place::param_at(6, h * n),
            n,
        ));
    }
}

} // verus!
