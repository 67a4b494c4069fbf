//! The gradients of attention as numbers: what the steps leave in memory.
use crate::attention::backward;
use crate::attention::backward_laws;
use crate::gemm::dense;
use crate::gemm::gradient;
use crate::meaning;
use crate::meaning::{Arithmetic, Memory};
use crate::plan::{Arg, F32, LaunchView, Place, Plan, Slot};
use crate::program::{BindingView, ProgramView, StepView};
use crate::shape;
use vstd::prelude::*;

verus! {

/// The tensors of one head: its queries, keys and values, and the gradient of its output.
#[verifier::ext_equal]
pub struct Head<T> {
    pub q: Seq<T>,
    pub k: Seq<T>,
    pub v: Seq<T>,
    pub grad: Seq<T>,
}

impl<T> Head<T> {
    /// The attention weights `P`.
    pub open spec fn weights(
        self, a: Arithmetic<T>, seq: int, d: int, scale: F32, causal: bool,
    ) -> Seq<T> {
        meaning::attention_weights(a, self.q, self.k, seq, d, scale, causal)
    }

    /// The gradient `dS` of the scores, from `P` and `dP = dO @ V^T`.
    pub open spec fn score_gradient(
        self, a: Arithmetic<T>, seq: int, d: int, scale: F32, causal: bool,
    ) -> Seq<T> {
        meaning::score_gradient(
            a,
            self.weights(a, seq, d, scale, causal),
            meaning::product_with_transposed(a, self.grad, self.v, seq, d, seq),
            seq,
        )
    }

    /// The gradient `dQ = (dS @ K) * scale` of the queries.
    pub open spec fn query_gradient(
        self, a: Arithmetic<T>, seq: int, d: int, scale: F32, causal: bool,
    ) -> Seq<T> {
        meaning::scaled(
            a,
            meaning::product(
                a,
                self.score_gradient(a, seq, d, scale, causal),
                self.k,
                seq,
                d,
                seq,
            ),
            scale,
        )
    }

    /// The gradient `dK = (dS^T @ Q) * scale` of the keys.
    pub open spec fn key_gradient(
        self, a: Arithmetic<T>, seq: int, d: int, scale: F32, causal: bool,
    ) -> Seq<T> {
        meaning::scaled(
            a,
            meaning::product_of_transposed(
                a,
                self.score_gradient(a, seq, d, scale, causal),
                self.q,
                seq,
                d,
                seq,
            ),
            scale,
        )
    }

    /// The gradient `dV = P^T @ dO` of the values.
    pub open spec fn value_gradient(
        self, a: Arithmetic<T>, seq: int, d: int, scale: F32, causal: bool,
    ) -> Seq<T> {
        meaning::product_of_transposed(
            a,
            self.weights(a, seq, d, scale, causal),
            self.grad,
            seq,
            d,
            seq,
        )
    }
}

/// Head number `head` of tensors of `n` elements per head.
pub open spec fn head_of<T>(m: Memory<T>, head: int, n: int) -> Head<T> {
    Head {
        q: meaning::read(m, Place::param_at(0, head * n), n),
        k: meaning::read(m, Place::param_at(1, head * n), n),
        v: meaning::read(m, Place::param_at(2, head * n), n),
        grad: meaning::read(m, Place::param_at(3, head * n), n),
    }
}

/// Whether memory holds the gradients of a head in its slices of `dQ`, `dK` and `dV`.
pub open spec fn holds_gradients<T>(
    a: Arithmetic<T>, m: Memory<T>, head: int, h: Head<T>, seq: int, d: int, scale: F32,
    causal: bool,
) -> bool {
    let n = seq * d;
    &&& meaning::read(m, Place::param_at(4, head * n), n) == h.query_gradient(
        a,
        seq,
        d,
        scale,
        causal,
    )
    &&& meaning::read(m, Place::param_at(5, head * n), n) == h.key_gradient(
        a,
        seq,
        d,
        scale,
        causal,
    )
    &&& meaning::read(m, Place::param_at(6, head * n), n) == h.value_gradient(
        a,
        seq,
        d,
        scale,
        causal,
    )
}

/// Whether the inputs are as they were.
pub open spec fn inputs_stay<T>(before: Memory<T>, after: Memory<T>) -> bool {
    forall|j: u32, i: int|
        j < 4 ==> #[trigger] after(Slot::Param(j), i) == before(Slot::Param(j), i)
}

/// What the launch of a product on three places does.
proof fn lemma_product<T>(
    a: Arithmetic<T>, places: Seq<Place>, m: int, n: int, k: int, before: Memory<T>,
    after: Memory<T>,
)
    requires
        places.len() == 3,
        0 < m <= u32::MAX,
        0 < n <= u32::MAX,
        0 < k <= u32::MAX,
        dense::gemm_bf16_view_plan(m * k, k * n, m * n, m, n, k) matches Plan::Launch(l)
            && meaning::launch_means(a, BindingView { places, base: 0 }.launch(l), before, after),
    ensures
        after == meaning::written(
            before,
            places[2],
            meaning::product(
                a,
                meaning::read(before, places[0], m * k),
                meaning::read(before, places[1], k * n),
                m,
                n,
                k,
            ),
        ),
{
    shape::lemma_ceil_div(m, 16);
    shape::lemma_ceil_div(n, 16);
}

/// What the launch of a gradient with respect to the left factor does.
proof fn lemma_by_a<T>(
    a: Arithmetic<T>, places: Seq<Place>, m: int, n: int, k: int, before: Memory<T>, after: Memory<T>,
)
    requires
        places.len() == 3,
        0 < m <= u32::MAX,
        0 < n <= u32::MAX,
        0 < k <= u32::MAX,
        gradient::gemm_bf16_backward_dA_view_plan(m * n, k * n, m * k, m, n, k) matches Plan::Launch(l)
            && meaning::launch_means(a, BindingView { places, base: 0 }.launch(l), before, after),
    ensures
        after == meaning::written(
            before,
            places[2],
            meaning::product_with_transposed(
                a,
                meaning::read(before, places[0], m * n),
                meaning::read(before, places[1], k * n),
                m,
                n,
                k,
            ),
        ),
{
    shape::lemma_ceil_div(m, 8);
    shape::lemma_ceil_div(k, 32);
}

/// What the launch of a gradient with respect to the right factor does.
proof fn lemma_by_b<T>(
    a: Arithmetic<T>, places: Seq<Place>, m: int, n: int, k: int, before: Memory<T>, after: Memory<T>,
)
    requires
        places.len() == 3,
        0 < m <= u32::MAX,
        0 < n <= u32::MAX,
        0 < k <= u32::MAX,
        gradient::gemm_bf16_backward_dB_view_plan(m * k, m * n, k * n, m, n, k) matches Plan::Launch(l)
            && meaning::launch_means(a, BindingView { places, base: 0 }.launch(l), before, after),
    ensures
        after == meaning::written(
            before,
            places[2],
            meaning::product_of_transposed(
                a,
                meaning::read(before, places[0], m * k),
                meaning::read(before, places[1], m * n),
                m,
                n,
                k,
            ),
        ),
{
    shape::lemma_ceil_div(k, 8);
    shape::lemma_ceil_div(n, 32);
}

/// What the launch that recomputes the weights does.
proof fn lemma_recompute<T>(
    a: Arithmetic<T>, places: Seq<Place>, seq: int, d: int, scale: F32, causal: bool, before: Memory<T>, after: Memory<T>,
)
    requires
        places.len() == 3,
        0 < seq <= u32::MAX,
        0 < d <= u32::MAX,
        backward::recompute_plan(seq, d, scale, causal) matches Plan::Launch(l)
            && meaning::launch_means(a, BindingView { places, base: 0 }.launch(l), before, after),
    ensures
        after == meaning::written(
            before,
            places[2],
            meaning::attention_weights(
                a,
                meaning::read(before, places[0], seq * d),
                meaning::read(before, places[1], seq * d),
                seq,
                d,
                scale,
                causal,
            ),
        ),
{
}

/// What the launch of the score gradient does.
proof fn lemma_scores<T>(
    a: Arithmetic<T>, places: Seq<Place>, seq: int, before: Memory<T>, after: Memory<T>,
)
    requires
        places.len() == 3,
        0 < seq <= u32::MAX,
        backward::score_gradient_plan(seq) matches Plan::Launch(l)
            && meaning::launch_means(a, BindingView { places, base: 0 }.launch(l), before, after),
    ensures
        after == meaning::written(
            before,
            places[2],
            meaning::score_gradient(
                a,
                meaning::read(before, places[0], seq * seq),
                meaning::read(before, places[1], seq * seq),
                seq,
            ),
        ),
{
}

/// What the launch that scales in place does.
proof fn lemma_scaling<T>(
    a: Arithmetic<T>, places: Seq<Place>, n: int, scale: F32, before: Memory<T>, after: Memory<T>,
)
    requires
        places.len() == 1,
        0 < n <= u32::MAX,
        backward::scale_plan(n, scale) matches Plan::Launch(l)
            && meaning::launch_means(a, BindingView { places, base: 0 }.launch(l), before, after),
    ensures
        after == meaning::written(
            before,
            places[0],
            meaning::scaled(a, meaning::read(before, places[0], n), scale),
        ),
{
    shape::lemma_ceil_div(n, 256);
}

/// The launches of one head leave the head's gradients in its slices, and change nothing else in
/// the buffers of the caller.
#[verifier::rlimit(60)]
proof fn lemma_head_gradients<T>(
    a: Arithmetic<T>, p: ProgramView, head: int, seq: int, d: int, scale: F32, causal: bool,
    trace: Seq<Memory<T>>,
)
    requires
        p.end is Done,
        seq > 0,
        d > 0,
        head >= 0,
        head * (seq * d) + seq * d <= u32::MAX,
        seq * seq <= u32::MAX,
        meaning::carried_out(
            a,
            backward::backward_head(p, head, seq, d, scale, causal).steps,
            trace,
        ),
    ensures
        ({
            let n = seq * d;
            let before = trace[p.steps.len() as int];
            let after = trace.last();
            &&& trace.len() == p.steps.len() + 9
            &&& holds_gradients(a, after, head, head_of(before, head, n), seq, d, scale, causal)
            &&& inputs_stay(before, after)
            &&& forall|j: u32, i: int|
                !(4 <= j < 7 && head * n <= i < head * n + n) ==> #[trigger] after(
                    Slot::Param(j),
                    i,
                ) == before(Slot::Param(j), i)
        }),
{
    let n = seq * d;
    let w = seq * seq;
    let at = head * n;
    let s = p.steps.len() as int;
    let q = Place::param_at(0, at);
    let k = Place::param_at(1, at);
    let v = Place::param_at(2, at);
    let grad = Place::param_at(3, at);
    let dq = Place::param_at(4, at);
    let dk = Place::param_at(5, at);
    let dv = Place::param_at(6, at);
    let weights = Place::of_scratch(0);
    let weight_grad = Place::of_scratch(1);
    let score_grad = Place::of_scratch(2);
    assert(seq <= w && d <= n && seq <= n && 0 <= at) by (nonlinear_arith)
        requires
            n == seq * d,
            w == seq * seq,
            at == head * n,
            head >= 0,
            seq > 0,
            d > 0,
    ;
    let steps = backward::backward_head(p, head, seq, d, scale, causal).steps;
    assert(steps.len() == s + 8);
    let h = head_of(trace[s], head, n);
    let weights_of = h.weights(a, seq, d, scale, causal);
    let scores_of = h.score_gradient(a, seq, d, scale, causal);
    assert(meaning::step_means(a, steps[s], trace[s], trace[s + 1]));
    lemma_recompute(a, seq![q, k, weights], seq, d, scale, causal, trace[s], trace[s + 1]);
    assert(meaning::step_means(a, steps[s + 1], trace[s + 1], trace[s + 2]));
    lemma_by_b(a, seq![weights, grad, dv], seq, d, seq, trace[s + 1], trace[s + 2]);
    assert(meaning::step_means(a, steps[s + 2], trace[s + 2], trace[s + 3]));
    lemma_by_a(a, seq![grad, v, weight_grad], seq, d, seq, trace[s + 2], trace[s + 3]);
    assert(meaning::step_means(a, steps[s + 3], trace[s + 3], trace[s + 4]));
    lemma_scores(a, seq![weights, weight_grad, score_grad], seq, trace[s + 3], trace[s + 4]);
    assert(meaning::step_means(a, steps[s + 4], trace[s + 4], trace[s + 5]));
    lemma_product(a, seq![score_grad, k, dq], seq, d, seq, trace[s + 4], trace[s + 5]);
    assert(meaning::step_means(a, steps[s + 5], trace[s + 5], trace[s + 6]));
    lemma_scaling(a, seq![dq], n, scale, trace[s + 5], trace[s + 6]);
    assert(meaning::step_means(a, steps[s + 6], trace[s + 6], trace[s + 7]));
    lemma_by_b(a, seq![score_grad, q, dk], seq, d, seq, trace[s + 6], trace[s + 7]);
    assert(meaning::step_means(a, steps[s + 7], trace[s + 7], trace[s + 8]));
    lemma_scaling(a, seq![dk], n, scale, trace[s + 7], trace[s + 8]);
    let m = trace;
    assert(meaning::read(m[s + 1], weights, w) =~= weights_of);
    assert(meaning::read(m[s + 1], grad, n) =~= h.grad);
    assert(meaning::read(m[s + 2], dv, n) =~= h.value_gradient(a, seq, d, scale, causal));
    assert(meaning::read(m[s + 2], grad, n) =~= h.grad);
    assert(meaning::read(m[s + 2], v, n) =~= h.v);
    assert(meaning::read(m[s + 3], weights, w) =~= weights_of);
    assert(meaning::read(m[s + 3], weight_grad, w) =~= meaning::product_with_transposed(
        a,
        h.grad,
        h.v,
        seq,
        d,
        seq,
    ));
    assert(meaning::read(m[s + 4], score_grad, w) =~= scores_of);
    assert(meaning::read(m[s + 4], k, n) =~= h.k);
    assert(meaning::read(m[s + 6], dq, n) =~= h.query_gradient(a, seq, d, scale, causal));
    assert(meaning::read(m[s + 6], score_grad, w) =~= scores_of);
    assert(meaning::read(m[s + 6], q, n) =~= h.q);
    assert(meaning::read(m[s + 8], dk, n) =~= h.key_gradient(a, seq, d, scale, causal));
    assert(meaning::read(m[s + 8], dq, n) =~= meaning::read(m[s + 6], dq, n));
    assert(meaning::read(m[s + 8], dv, n) =~= meaning::read(m[s + 2], dv, n));
}
/// The launches of the first `heads` heads leave the gradients of each of these heads in its
/// slices, and change nothing in the inputs.
proof fn lemma_heads_gradients<T>(
    a: Arithmetic<T>, p: ProgramView, heads: int, seq: int, d: int, scale: F32, causal: bool,
    trace: Seq<Memory<T>>,
)
    requires
        p.end is Done,
        seq > 0,
        d > 0,
        heads >= 0,
        heads * (seq * d) <= u32::MAX,
        seq * seq <= u32::MAX,
        meaning::carried_out(
            a,
            backward::backward_heads(p, heads, seq, d, scale, causal).steps,
            trace,
        ),
    ensures
        backward::backward_heads(p, heads, seq, d, scale, causal).end is Done,
        trace.len() == p.steps.len() + 8 * heads + 1,
        inputs_stay(trace[p.steps.len() as int], trace.last()),
        forall|h: int|
            0 <= h < heads ==> #[trigger] holds_gradients(
                a,
                trace.last(),
                h,
                head_of(trace[p.steps.len() as int], h, seq * d),
                seq,
                d,
                scale,
                causal,
            ),
        forall|j: u32, i: int|
            !(4 <= j < 7 && 0 <= i < heads * (seq * d)) ==> #[trigger] trace.last()(
                Slot::Param(j),
                i,
            ) == trace[p.steps.len() as int](Slot::Param(j), i),
    decreases heads,
{
    let n = seq * d;
    if heads > 0 {
        let earlier = backward::backward_heads(p, heads - 1, seq, d, scale, causal);
        let steps = backward::backward_heads(p, heads, seq, d, scale, causal).steps;
        backward_laws::lemma_heads_are_done(p, heads - 1, seq, d, scale, causal);
        backward_laws::lemma_head_is_done(earlier, heads - 1, seq, d, scale, causal);
        let count = earlier.steps.len() as int;
        assert(steps.take(count) =~= earlier.steps);
        let part = trace.take(count + 1);
        assert forall|i: int| 0 <= i < earlier.steps.len() implies meaning::step_means(
            a,
            #[trigger] earlier.steps[i],
            part[i],
            part[i + 1],
        ) by {
            assert(steps[i] == steps.take(count)[i]);
        }
        assert((heads - 1) * n + n == heads * n && 0 <= (heads - 1) * n) by (nonlinear_arith)
            requires
                heads > 0,
                n == seq * d,
                seq > 0,
                d > 0,
        ;
        lemma_heads_gradients(a, p, heads - 1, seq, d, scale, causal, part);
        lemma_head_gradients(a, earlier, heads - 1, seq, d, scale, causal, trace);
        let start = trace[p.steps.len() as int];
        let before = trace[count];
        let after = trace.last();
        assert(part.last() == before);
        assert forall|h: int| 0 <= h < heads implies #[trigger] holds_gradients(
            a,
            after,
            h,
            head_of(start, h, n),
            seq,
            d,
            scale,
            causal,
        ) by {
            assert(h * n + n <= heads * n && 0 <= h * n && (h < heads - 1 ==> h * n + n <= (heads
                - 1) * n)) by (nonlinear_arith)
                requires
                    0 <= h < heads,
                    n == seq * d,
                    seq > 0,
                    d > 0,
            ;
            if h < heads - 1 {
                assert(holds_gradients(
                    a,
                    before,
                    h,
                    head_of(start, h, n),
                    seq,
                    d,
                    scale,
                    causal,
                ));
                assert(meaning::read(after, Place::param_at(4, h * n), n) =~= meaning::read(
                    before,
                    Place::param_at(4, h * n),
                    n,
                ));
                assert(meaning::read(after, Place::param_at(5, h * n), n) =~= meaning::read(
                    before,
                    Place::param_at(5, h * n),
                    n,
                ));
                assert(meaning::read(after, Place::param_at(6, h * n), n) =~= meaning::read(
                    before,
                    Place::param_at(6, h * n),
                    n,
                ));
            } else {
                assert(head_of(start, h, n) =~= head_of(before, h, n));
            }
        }
    }
}

/// Flash attention backward leaves in the slices of every head its gradients
/// `dQ = (dS @ K) * scale`, `dK = (dS^T @ Q) * scale` and `dV = P^T @ dO`, of the head's own
/// queries, keys, values and output gradient, and leaves these as they were.
pub proof fn flash_attn_backward_bf16_gives_the_gradients<T>(
    a: Arithmetic<T>, q_len: int, k_len: int, v_len: int, do_len: int, dq_len: int, dk_len: int,
    dv_len: int, batch: int, num_heads: int, seq: int, d: int, scale: F32, causal: bool,
    trace: Seq<Memory<T>>,
)
    requires
        batch >= 0,
        num_heads >= 0,
        seq >= 0,
        d >= 0,
        ({
            let p = backward::flash_attn_backward_bf16_program(
                q_len, k_len, v_len, do_len, dq_len, dk_len, dv_len, batch, num_heads, seq, d,
                scale, causal,
            );
            p.end is Done && meaning::carried_out(a, p.steps, trace)
        }),
    ensures
        forall|h: int|
            0 <= h < batch * num_heads ==> #[trigger] holds_gradients(
                a,
                trace.last(),
                h,
                head_of(trace[0], h, seq * d),
                seq,
                d,
                scale,
                causal,
            ),
        forall|j: u32, i: int|
            !(4 <= j < 7 && 0 <= i < batch * num_heads * (seq * d)) ==> #[trigger] trace.last()(
                Slot::Param(j),
                i,
            ) == trace[0](Slot::Param(j), i),
{
    let heads = batch * num_heads;
    let p = backward::backward_prologue(seq, causal);
    assert(heads > 0 && heads * (seq * d) == batch * num_heads * seq * d) by (nonlinear_arith)
        requires
            heads == batch * num_heads,
            batch > 0,
            num_heads > 0,
    ;
    lemma_heads_gradients(a, p, heads, seq, d, scale, causal, trace);
    lemma_prologue(a, p, heads, seq, d, scale, causal, trace);
    assert forall|h: int| 0 <= h < heads implies #[trigger] holds_gradients(
        a,
        trace.last(),
        h,
        head_of(trace[0], h, seq * d),
        seq,
        d,
        scale,
        causal,
    ) by {
        assert(head_of(trace[0], h, seq * d) =~= head_of(trace[6], h, seq * d));
    }
}

/// The steps before the heads leave the buffers of the caller as they were.
proof fn lemma_prologue<T>(
    a: Arithmetic<T>, p: ProgramView, heads: int, seq: int, d: int, scale: F32, causal: bool,
    trace: Seq<Memory<T>>,
)
    requires
        p == backward::backward_prologue(seq, causal),
        seq > 0,
        d > 0,
        heads >= 0,
        meaning::carried_out(
            a,
            backward::backward_heads(p, heads, seq, d, scale, causal).steps,
            trace,
        ),
    ensures
        p.steps.len() == 6,
        forall|j: u32, i: int|
            #[trigger] trace[6](Slot::Param(j), i) == trace[0](Slot::Param(j), i),
{
    let steps = backward::backward_heads(p, heads, seq, d, scale, causal).steps;
    lemma_heads_begin(p, heads, seq, d, scale, causal);
    assert(steps.take(6) =~= p.steps);
    assert forall|i: int| 0 <= i < 6 implies #[trigger] steps[i] == p.steps[i] by {
        assert(steps[i] == steps.take(6)[i]);
    }
    assert(meaning::step_means(a, steps[0], trace[0], trace[1]));
    assert(meaning::step_means(a, steps[1], trace[1], trace[2]));
    assert(meaning::step_means(a, steps[2], trace[2], trace[3]));
    assert(meaning::step_means(a, steps[3], trace[3], trace[4]));
    assert(meaning::step_means(a, steps[4], trace[4], trace[5]));
    assert(meaning::step_means(a, steps[5], trace[5], trace[6]));
}

/// The steps of the heads follow those before them.
pub(crate) proof fn lemma_heads_begin(
    p: ProgramView, heads: int, seq: int, d: int, scale: F32, causal: bool,
)
    requires
        p.end is Done,
        seq > 0,
        d > 0,
        heads >= 0,
    ensures
        ({
            let steps = backward::backward_heads(p, heads, seq, d, scale, causal).steps;
            steps.len() >= p.steps.len() && steps.take(p.steps.len() as int) == p.steps
        }),
    decreases heads,
{
    let steps = backward::backward_heads(p, heads, seq, d, scale, causal).steps;
    if heads > 0 {
        let earlier = backward::backward_heads(p, heads - 1, seq, d, scale, causal);
        lemma_heads_begin(p, heads - 1, seq, d, scale, causal);
        backward_laws::lemma_heads_are_done(p, heads - 1, seq, d, scale, causal);
        backward_laws::lemma_head_is_done(earlier, heads - 1, seq, d, scale, causal);
        assert(steps.take(earlier.steps.len() as int) =~= earlier.steps);
        assert(steps.take(p.steps.len() as int) =~= earlier.steps.take(p.steps.len() as int));
    } else {
        assert(steps.take(p.steps.len() as int) =~= p.steps);
    }
}

} // verus!
