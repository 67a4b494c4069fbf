//! The gradients of attention over pages as numbers.
use crate::attention::backward;
use crate::attention::backward_laws;
use crate::attention::backward_meaning;
use crate::attention::backward_meaning::Head;
use crate::attention::backward_memory;
use crate::attention::backward_variants;
use crate::attention::reorder;
use crate::meaning;
use crate::meaning::{Arithmetic, Memory, Pages};
use crate::plan::{F32, Place, Slot};
use crate::program::{BindingView, ProgramView, StepView};
use crate::shape;
use vstd::prelude::*;

verus! {

/// A number of the gradient of key head `c`, from the gradients of the query heads: that of its own
/// query head, or the sum over the query heads that it serves.
pub open spec fn shared_gradient<T>(
    a: Arithmetic<T>, of_head: spec_fn(int) -> Seq<T>, c: int, heads: int, kv: int, r: int,
) -> T {
    if heads == kv {
        of_head(c)[r]
    } else {
        meaning::total(
            a,
            |g: int| of_head(meaning::first_served(c, heads, kv) + g)[r],
            heads / kv,
        )
    }
}

/// Shared gradients of equal gradients are equal.
proof fn lemma_shared_of_equals<T>(
    a: Arithmetic<T>, f: spec_fn(int) -> Seq<T>, g: spec_fn(int) -> Seq<T>, batch: int, c: int,
    heads: int, kv: int, r: int,
)
    requires
        kv > 0,
        heads > 0,
        heads % kv == 0,
        0 <= c < batch * kv,
        forall|i: int| 0 <= i < batch * heads ==> #[trigger] f(i) == g(i),
    ensures
        shared_gradient(a, f, c, heads, kv, r) == shared_gradient(a, g, c, heads, kv, r),
{
    if heads == kv {
        assert(f(c) == g(c));
    } else {
        let first = meaning::first_served(c, heads, kv);
        let u = |e: int| f(first + e)[r];
        let w = |e: int| g(first + e)[r];
        assert forall|e: int| 0 <= e < heads / kv implies #[trigger] u(e) == w(e) by {
            backward_variants::served_heads_are_there(batch, heads, kv, c, e);
            assert(f(first + e) == g(first + e));
        }
        backward_variants::lemma_total_of_equals(a, u, w, heads / kv);
    }
}

/// With as many key heads as query heads, each query head is served by the key head of its number.
proof fn lemma_own_head(heads: int, i: int)
    requires
        heads > 0,
        i >= 0,
    ensures
        meaning::serving_head(i, heads, heads) == i,
{
    assert(heads / heads == 1) by (nonlinear_arith)
        requires
            heads > 0,
    ;
    vstd::arithmetic::div_mod::lemma_fundamental_div_mod(i, heads);
    assert((i / heads) * heads == heads * (i / heads)) by (nonlinear_arith);
}

/// A part without bare addresses has none within the whole.
proof fn lemma_run_names_no_address(p: ProgramView, q: ProgramView, b: BindingView)
    requires
        meaning::names_no_address(p.steps),
        meaning::names_no_address(q.steps),
    ensures
        meaning::names_no_address(p.then_run(q, b).steps),
{
    let steps = p.then_run(q, b).steps;
    assert forall|k: int, j: int|
        #![trigger steps[k]->Launch_0.args[j]]
        0 <= k < steps.len() && steps[k] is Launch && 0 <= j
            < steps[k]->Launch_0.args.len() implies steps[k]->Launch_0.args[j] !is Address by {
        if k < p.steps.len() {
            assert(steps[k] == p.steps[k]);
            assert(p.steps[k]->Launch_0.args[j] !is Address);
        } else if p.end is Done {
            let i = k - p.steps.len();
            assert(steps[k] == b.step(q.steps[i]));
            assert(q.steps[i] is Launch);
            assert(q.steps[i]->Launch_0.args[j] !is Address);
        }
    }
}

proof fn lemma_step_names_no_address(p: ProgramView, s: StepView)
    requires
        meaning::names_no_address(p.steps),
        s !is Launch,
    ensures
        meaning::names_no_address(p.step(s).steps),
{
    let steps = p.step(s).steps;
    assert forall|k: int, j: int|
        #![trigger steps[k]->Launch_0.args[j]]
        0 <= k < steps.len() && steps[k] is Launch && 0 <= j
            < steps[k]->Launch_0.args.len() implies steps[k]->Launch_0.args[j] !is Address by {
        if k < p.steps.len() {
            assert(steps[k] == p.steps[k]);
            assert(p.steps[k]->Launch_0.args[j] !is Address);
        }
    }
}

/// Backward with grouped heads names no bare address.
proof fn lemma_gqa_names_no_address(
    q_len: int, do_len: int, dq_len: int, n: int, batch: int, heads: int, kv: int, seq: int,
    d: int, scale: F32, causal: bool,
)
    ensures
        meaning::names_no_address(
            backward::flash_attn_backward_bf16_gqa_program(
                q_len, n, n, do_len, dq_len, n, n, batch, heads, kv, seq, d, scale, causal,
            ).steps,
        ),
{
    let q_elems = batch * heads * seq * d;
    let kv_elems = batch * kv * seq * d;
    let repeat = backward::head_groups_plan(
        "repeat_kv_groups_bf16"@, q_elems, batch, kv, heads, seq, d,
    );
    let sum = backward::head_groups_plan(
        "sum_kv_groups_bf16"@, kv_elems, batch, kv, heads, seq, d,
    );
    let inner = backward::flash_attn_backward_bf16_program(
        q_len, q_elems, q_elems, do_len, dq_len, q_elems, q_elems, batch, heads, seq, d, scale,
        causal,
    );
    backward_variants::lemma_heads_name_no_address(
        backward::backward_prologue(seq, causal), batch * heads, seq, d, scale, causal,
    );
    assert(meaning::names_no_address(inner.steps));
    let p = ProgramView::empty();
    let s = backward::scratch(0, q_elems, "alloc k_exp: "@);
    lemma_step_names_no_address(p, s);
    let p = p.step(s);
    let s = backward::scratch(1, q_elems, "alloc v_exp: "@);
    lemma_step_names_no_address(p, s);
    let p = p.step(s);
    let s = backward::scratch(2, q_elems, "alloc dk_exp: "@);
    lemma_step_names_no_address(p, s);
    let p = p.step(s);
    let s = backward::scratch(3, q_elems, "alloc dv_exp: "@);
    lemma_step_names_no_address(p, s);
    let p = p.step(s);
    let s = StepView::Load { kernel: "repeat_kv_groups_bf16"@, entry: "repeat_kv_groups_bf16"@ };
    lemma_step_names_no_address(p, s);
    let p = p.step(s);
    let places = seq![Place::of_param(1), Place::of_scratch(0)];
    backward_variants::lemma_launch_names_no_address(p, repeat, places);
    let p = p.then_launch(repeat, places);
    let places = seq![Place::of_param(2), Place::of_scratch(1)];
    backward_variants::lemma_launch_names_no_address(p, repeat, places);
    let p = p.then_launch(repeat, places);
    lemma_run_names_no_address(p, inner, backward::expanded_binding());
    let p = p.then_run(inner, backward::expanded_binding());
    let s = StepView::Load { kernel: "sum_kv_groups_bf16"@, entry: "sum_kv_groups_bf16"@ };
    lemma_step_names_no_address(p, s);
    let p = p.step(s);
    let places = seq![Place::of_scratch(2), Place::of_param(5)];
    backward_variants::lemma_launch_names_no_address(p, sum, places);
    let p = p.then_launch(sum, places);
    let places = seq![Place::of_scratch(3), Place::of_param(6)];
    backward_variants::lemma_launch_names_no_address(p, sum, places);
}

/// What the gradients over gathered keys and values leave in the memory that they see.
pub open spec fn leaves_gradients<T>(
    a: Arithmetic<T>, before: Memory<T>, after: Memory<T>, batch: int, heads: int, kv: int,
    seq: int, d: int, scale: F32, causal: bool,
) -> bool {
    let n = seq * d;
    &&& forall|i: int|
        0 <= i < batch * heads ==> #[trigger] meaning::read(after, Place::param_at(4, i * n), n)
            == backward_variants::grouped_head(before, i, heads, kv, n).query_gradient(
            a, seq, d, scale, causal,
        )
    &&& forall|c: int, r: int|
        0 <= c < batch * kv && 0 <= r < n ==> after(
            Slot::Param(5),
            #[trigger] element_of(c, n, r),
        ) == shared_gradient(
            a,
            |i: int|
                backward_variants::grouped_head(before, i, heads, kv, n).key_gradient(
                    a, seq, d, scale, causal,
                ),
            c,
            heads,
            kv,
            r,
        ) && after(Slot::Param(6), element_of(c, n, r)) == shared_gradient(
            a,
            |i: int|
                backward_variants::grouped_head(before, i, heads, kv, n).value_gradient(
                    a, seq, d, scale, causal,
                ),
            c,
            heads,
            kv,
            r,
        )
}

/// Element `r` of head `c`, with `n` elements per head.
pub open spec fn element_of(c: int, n: int, r: int) -> int {
    c * n + r
}

/// The gradients over gathered keys and values, carried out within a program that has come to
/// `p`.
#[verifier::rlimit(60)]
proof fn lemma_gradients_within<T>(
    a: Arithmetic<T>, p: ProgramView, b: BindingView, q_len: int, do_len: int, dq_len: int,
    len: int, batch: int, heads: int, kv: int, seq: int, d: int, scale: F32, causal: bool,
    steps: Seq<StepView>, trace: Seq<Memory<T>>,
)
    requires
        p.end is Done,
        batch >= 0,
        heads >= 0,
        kv > 0,
        heads % kv == 0,
        seq >= 0,
        d >= 0,
        b.places.len() == 7,
        b.base + 7 <= u32::MAX,
        meaning::separates(b),
        meaning::carried_out(a, steps, trace),
        ({
            let q = backward::gathered_gradients(
                q_len, do_len, dq_len, len, batch, heads, kv, seq, d, scale, causal,
            );
            let whole = p.then_run(q, b);
            &&& q.end is Done
            &&& whole.steps.len() <= steps.len()
            &&& whole.steps == steps.subrange(0, whole.steps.len() as int)
        }),
    ensures
        ({
            let q = backward::gathered_gradients(
                q_len, do_len, dq_len, len, batch, heads, kv, seq, d, scale, causal,
            );
            let at = p.steps.len() as int;
            let end = at + q.steps.len() as int;
            &&& end < trace.len()
            &&& batch > 0 && heads > 0 && seq > 0 && d > 0
            &&& batch * heads * (seq * d) <= u32::MAX
            &&& leaves_gradients(
                a, meaning::seen(a, b, trace[at]), meaning::seen(a, b, trace[end]), batch, heads,
                kv, seq, d, scale, causal,
            )
            &&& forall|t: Slot, i: int|
                !meaning::is_reached(b, t) ==> #[trigger] trace[end](t, i) == trace[at](t, i)
        }),
{
    let q = backward::gathered_gradients(
        q_len, do_len, dq_len, len, batch, heads, kv, seq, d, scale, causal,
    );
    let n = seq * d;
    let whole = p.then_run(q, b);
    let count = whole.steps.len() as int;
    let at = p.steps.len() as int;
    assert(batch > 0 && heads > 0 && seq > 0 && d > 0);
    backward_variants::lemma_group_sizes(batch, heads, seq, d);
    backward_variants::lemma_group_sizes(batch, kv, seq, d);
    let before = meaning::seen(a, b, trace[at]);
    let after = meaning::seen(a, b, trace[count]);
    let of_key = |i: int|
        backward_variants::grouped_head(before, i, heads, kv, n).key_gradient(
            a, seq, d, scale, causal,
        );
    let of_value = |i: int|
        backward_variants::grouped_head(before, i, heads, kv, n).value_gradient(
            a, seq, d, scale, causal,
        );
    if heads == kv {
        backward_variants::lemma_heads_within(
            a, p, b, seq![q_len, len, len, do_len, dq_len, len, len], batch, heads, seq, d, scale,
            causal, steps, trace,
        );
        assert forall|i: int| 0 <= i < batch * heads implies #[trigger] meaning::read(
            after,
            Place::param_at(4, i * n),
            n,
        ) == backward_variants::grouped_head(before, i, heads, kv, n).query_gradient(
            a, seq, d, scale, causal,
        ) by {
            lemma_own_head(heads, i);
            assert(backward_meaning::holds_gradients(
                a, after, i, backward_meaning::head_of(before, i, n), seq, d, scale, causal,
            ));
            assert(backward_meaning::head_of(before, i, n) == backward_variants::grouped_head(
                before,
                i,
                heads,
                kv,
                n,
            ));
        }
        assert forall|c: int, r: int| 0 <= c < batch * kv && 0 <= r < n implies after(
            Slot::Param(5),
            #[trigger] element_of(c, n, r),
        ) == shared_gradient(a, of_key, c, heads, kv, r) && after(
            Slot::Param(6),
            element_of(c, n, r),
        ) == shared_gradient(a, of_value, c, heads, kv, r) by {
            lemma_own_head(heads, c);
            assert(backward_meaning::holds_gradients(
                a, after, c, backward_meaning::head_of(before, c, n), seq, d, scale, causal,
            ));
            assert(backward_meaning::head_of(before, c, n) == backward_variants::grouped_head(
                before,
                c,
                heads,
                kv,
                n,
            ));
            lemma_in_range(c, batch * kv, n, r);
            let x = meaning::read(after, Place::param_at(5, c * n), n);
            let y = meaning::read(after, Place::param_at(6, c * n), n);
            assert(x[r] == after(Slot::Param(5), c * n + r));
            assert(y[r] == after(Slot::Param(6), c * n + r));
        }
    } else {
        lemma_gqa_names_no_address(
            q_len, do_len, dq_len, len, batch, heads, kv, seq, d, scale, causal,
        );
        backward_memory::flash_attn_backward_bf16_gqa_is_closed(
            q_len, len, len, do_len, dq_len, len, len, batch, heads, kv, seq, d, scale, causal,
        );
        meaning::stretch_is_carried_out(a, steps, trace, 0, count);
        let part = trace.subrange(0, count + 1);
        meaning::part_is_carried_out(a, p, q, b, 7, 7, part);
        let times = meaning::seen_all(a, b, part.subrange(at, part.len() as int));
        backward_variants::flash_attn_backward_bf16_gqa_gives_the_gradients(
            a, q_len, len, len, do_len, dq_len, len, len, batch, heads, kv, seq, d, scale, causal,
            times,
        );
        assert(times[0] == before);
        assert(times.last() == after);
        assert(part.last() == trace[count]);
        assert forall|c: int, r: int| 0 <= c < batch * kv && 0 <= r < n implies after(
            Slot::Param(5),
            #[trigger] element_of(c, n, r),
        ) == shared_gradient(a, of_key, c, heads, kv, r) && after(
            Slot::Param(6),
            element_of(c, n, r),
        ) == shared_gradient(a, of_value, c, heads, kv, r) by {
            lemma_in_range(c, batch * kv, n, r);
            let x = meaning::read(after, Place::of_param(5), batch * kv * n);
            let y = meaning::read(after, Place::of_param(6), batch * kv * n);
            assert(meaning::entry(x, n, c, r) == after(Slot::Param(5), c * n + r));
            assert(meaning::entry(y, n, c, r) == after(Slot::Param(6), c * n + r));
            let first = meaning::first_served(c, heads, kv);
            assert((|g: int|
                backward_variants::grouped_head(before, first + g, heads, kv, n).key_gradient(
                    a, seq, d, scale, causal,
                )[r]) =~= (|g: int| of_key(first + g)[r]));
            assert((|g: int|
                backward_variants::grouped_head(before, first + g, heads, kv, n).value_gradient(
                    a, seq, d, scale, causal,
                )[r]) =~= (|g: int| of_value(first + g)[r]));
        }
    }
}

proof fn lemma_in_range(c: int, count: int, n: int, r: int)
    requires
        0 <= c < count,
        0 <= r < n,
    ensures
        0 <= c * n,
        c * n + r < count * n,
        c * n + n <= count * n,
{
    assert(0 <= c * n && c * n + n <= count * n) by (nonlinear_arith)
        requires
            0 <= c < count,
            n > 0,
    ;
}

/// Column `c` of row `r` of head `h`, with `rows` rows of `d` columns per head.
pub open spec fn cell(h: int, rows: int, d: int, r: int, c: int) -> int {
    (h * rows + r) * d + c
}

/// The steps of a shorter program begin a longer one.
pub open spec fn begins(p: ProgramView, steps: Seq<StepView>) -> bool {
    p.steps.len() <= steps.len() && forall|k: int|
        0 <= k < p.steps.len() ==> #[trigger] steps[k] == p.steps[k]
}

/// What the copies of the rows of heads do: the rows are there, and all else is as it was.
pub open spec fn heads_are_copied<T>(
    before: Memory<T>, after: Memory<T>, heads: int, from: Slot, from_rows: int, to: Slot,
    to_rows: int, rows: int, d: int,
) -> bool {
    &&& forall|s: Slot, i: int| s != to ==> #[trigger] after(s, i) == before(s, i)
    &&& forall|i: int| #[trigger]
        after(to, i) == {
            let w = to_rows * d;
            if 0 <= i < heads * w && i % w < rows * d {
                before(from, (i / w) * (from_rows * d) + i % w)
            } else {
                before(to, i)
            }
        }
}

#[verifier::rlimit(40)]
proof fn lemma_copies<T>(
    a: Arithmetic<T>, p: ProgramView, heads: int, from: Slot, from_rows: int, to: Slot,
    to_rows: int, rows: int, d: int, steps: Seq<StepView>, trace: Seq<Memory<T>>,
)
    requires
        p.end is Done,
        heads >= 0,
        d > 0,
        0 < rows <= from_rows,
        rows <= to_rows,
        heads * (from_rows * d) <= u32::MAX,
        heads * (to_rows * d) <= u32::MAX,
        from != to,
        meaning::carried_out(a, steps, trace),
        begins(backward::copy_heads(p, heads, from, from_rows, to, to_rows, rows, d), steps),
    ensures
        ({
            let r = backward::copy_heads(p, heads, from, from_rows, to, to_rows, rows, d);
            let at = p.steps.len() as int;
            &&& r.end is Done
            &&& r.steps.len() == at + heads
            &&& begins(p, steps)
            &&& heads_are_copied(
                trace[at], trace[at + heads], heads, from, from_rows, to, to_rows, rows, d,
            )
        }),
    decreases heads,
{
    let at = p.steps.len() as int;
    let r = backward::copy_heads(p, heads, from, from_rows, to, to_rows, rows, d);
    if heads > 0 {
        let h = heads - 1;
        let w = to_rows * d;
        let x = from_rows * d;
        let earlier = backward::copy_heads(p, h, from, from_rows, to, to_rows, rows, d);
        backward::lemma_copies_keep_the_end(p, h, from, from_rows, to, to_rows, rows, d);
        assert forall|k: int| 0 <= k < earlier.steps.len() implies #[trigger] steps[k]
            == earlier.steps[k] by {
            assert(r.steps[k] == earlier.steps[k]);
        }
        assert(0 <= h * w <= heads * w && 0 <= h * x <= heads * x && h * w + w == heads * w
            && w > 0 && rows * d <= w && 0 < rows * d) by (nonlinear_arith)
            requires
                h == heads - 1,
                h >= 0,
                w == to_rows * d,
                x == from_rows * d,
                d > 0,
                0 < rows <= from_rows,
                rows <= to_rows,
        ;
        lemma_copies(a, p, h, from, from_rows, to, to_rows, rows, d, steps, trace);
        let s = r.steps[at + h];
        assert(s == steps[at + h]);
        assert(meaning::step_means(a, steps[at + h], trace[at + h], trace[at + h + 1]));
        let before = trace[at];
        let mid = trace[at + h];
        let after = trace[at + heads];
        assert forall|i: int| #[trigger] after(to, i) == (if 0 <= i < heads * w && i % w < rows * d
        {
            before(from, (i / w) * x + i % w)
        } else {
            before(to, i)
        }) by {
            assert(mid(to, i) == mid(to, i));
            if h * w <= i < h * w + w {
                vstd::arithmetic::div_mod::lemma_fundamental_div_mod_converse(i, w, h, i - h * w);
                assert(mid(from, h * x + (i - h * w)) == before(from, h * x + (i - h * w)));
            }
        }
    } else {
        assert(r == p);
    }
}

/// The layout of the pages that backward is told of.
pub open spec fn paged_layout(
    batch: int, kv: int, d: int, page_size: int, max_pages: int, tokens: int,
) -> Pages {
    Pages { heads: kv, d, page: page_size, pages: max_pages, tokens, batch }
}

/// What the gathering of the pages leaves: the caller's buffers as they were, and the cache in scratch
/// memory.
#[verifier::rlimit(60)]
proof fn lemma_gathered<T>(
    a: Arithmetic<T>, k_len: int, v_len: int, table_len: int, batch: int, kv: int, d: int,
    page_size: int, max_pages: int, tokens: int, steps: Seq<StepView>, trace: Seq<Memory<T>>,
)
    requires
        0 < batch <= u32::MAX,
        0 < kv <= u32::MAX,
        0 < d <= u32::MAX,
        kv * d <= u32::MAX,
        0 < page_size <= u32::MAX,
        0 <= max_pages <= u32::MAX,
        0 < tokens <= u32::MAX,
        meaning::carried_out(a, steps, trace),
        begins(
            backward::gathered_pages(
                k_len, v_len, table_len, batch * kv * tokens * d, batch, kv, d, page_size,
                max_pages, tokens,
            ),
            steps,
        ),
    ensures
        ({
            let p = backward::gathered_pages(
                k_len, v_len, table_len, batch * kv * tokens * d, batch, kv, d, page_size,
                max_pages, tokens,
            );
            let g = paged_layout(batch, kv, d, page_size, max_pages, tokens);
            let k = meaning::gathered_cache(
                a, trace[0], Place::of_param(1), Place::of_param(7), g,
            );
            let v = meaning::gathered_cache(
                a, trace[0], Place::of_param(2), Place::of_param(7), g,
            );
            &&& p.end is Done
            &&& p.steps.len() == 6
            &&& forall|j: u32, i: int|
                #[trigger] trace[6](Slot::Param(j), i) == trace[0](Slot::Param(j), i)
            &&& forall|i: int|
                0 <= i < k.len() ==> #[trigger] trace[6](Slot::Scratch(0), i) == k[i]
            &&& forall|i: int|
                0 <= i < v.len() ==> #[trigger] trace[6](Slot::Scratch(1), i) == v[i]
        }),
{
    let p = backward::gathered_pages(
        k_len, v_len, table_len, batch * kv * tokens * d, batch, kv, d, page_size, max_pages,
        tokens,
    );
    let g = paged_layout(batch, kv, d, page_size, max_pages, tokens);
    let n = batch * kv * tokens * d;
    assert(p.steps[0] == backward::scratch(0, n, "alloc k_flat: "@));
    assert(p.steps[1] == backward::scratch(1, n, "alloc v_flat: "@));
    assert(p.steps[2] == backward::scratch(2, n, "alloc dk_flat: "@));
    assert(p.steps[3] == backward::scratch(3, n, "alloc dv_flat: "@));
    assert(meaning::step_means(a, steps[0], trace[0], trace[1]));
    assert(meaning::step_means(a, steps[1], trace[1], trace[2]));
    assert(meaning::step_means(a, steps[2], trace[2], trace[3]));
    assert(meaning::step_means(a, steps[3], trace[3], trace[4]));
    assert(meaning::step_means(a, steps[4], trace[4], trace[5]));
    assert(meaning::step_means(a, steps[5], trace[5], trace[6]));
    let l = p.steps[4]->Launch_0;
    let o = p.steps[5]->Launch_0;
    assert(steps[4] == StepView::Launch(l));
    assert(steps[5] == StepView::Launch(o));
    assert(meaning::pages_of(l) == g);
    assert(meaning::pages_of(o) == g);
    let k = meaning::gathered_cache(a, trace[4], Place::of_param(1), Place::of_param(7), g);
    let v = meaning::gathered_cache(a, trace[5], Place::of_param(2), Place::of_param(7), g);
    assert(trace[5] == meaning::written(trace[4], Place::of_scratch(0), k));
    assert(trace[6] == meaning::written(trace[5], Place::of_scratch(1), v));
    assert forall|j: u32, i: int|
        #[trigger] trace[4](Slot::Param(j), i) == trace[0](Slot::Param(j), i) by {}
    assert forall|j: u32, i: int|
        #[trigger] trace[5](Slot::Param(j), i) == trace[0](Slot::Param(j), i) by {
        assert(trace[4](Slot::Param(j), i) == trace[0](Slot::Param(j), i));
    }
    assert(k =~= meaning::gathered_cache(a, trace[0], Place::of_param(1), Place::of_param(7), g));
    assert(v =~= meaning::gathered_cache(a, trace[0], Place::of_param(2), Place::of_param(7), g));
}

/// What the scattering of the gradients to the pages does.
#[verifier::rlimit(60)]
proof fn lemma_scattered<T>(
    a: Arithmetic<T>, p: ProgramView, n: int, dk_len: int, dv_len: int, table_len: int, batch: int,
    kv: int, d: int, page_size: int, max_pages: int, tokens: int, trace: Seq<Memory<T>>,
)
    requires
        p.end is Done,
        0 < batch <= u32::MAX,
        0 < kv <= u32::MAX,
        0 < d <= u32::MAX,
        kv * d <= u32::MAX,
        0 < page_size <= u32::MAX,
        0 <= max_pages <= u32::MAX,
        0 < tokens <= u32::MAX,
        meaning::carried_out(
            a,
            p.then_launch(
                reorder::paged_kv_scatter_bf16_plan(
                    n, dk_len, table_len, batch, kv, d, page_size, max_pages, tokens,
                ),
                seq![Place::of_scratch(2), Place::of_param(5), Place::of_param(7)],
            ).then_launch(
                reorder::paged_kv_scatter_bf16_plan(
                    n, dv_len, table_len, batch, kv, d, page_size, max_pages, tokens,
                ),
                seq![Place::of_scratch(3), Place::of_param(6), Place::of_param(7)],
            ).steps,
            trace,
        ),
    ensures
        ({
            let g = paged_layout(batch, kv, d, page_size, max_pages, tokens);
            let e = p.steps.len() as int;
            &&& trace.len() == e + 3
            &&& meaning::is_scattered(
                a, trace[e], trace[e + 1], Place::of_scratch(2), Place::of_param(5),
                Place::of_param(7), g,
            )
            &&& meaning::is_scattered(
                a, trace[e + 1], trace[e + 2], Place::of_scratch(3), Place::of_param(6),
                Place::of_param(7), g,
            )
        }),
{
    let g = paged_layout(batch, kv, d, page_size, max_pages, tokens);
    let e = p.steps.len() as int;
    let steps = p.then_launch(
        reorder::paged_kv_scatter_bf16_plan(
            n, dk_len, table_len, batch, kv, d, page_size, max_pages, tokens,
        ),
        seq![Place::of_scratch(2), Place::of_param(5), Place::of_param(7)],
    ).then_launch(
        reorder::paged_kv_scatter_bf16_plan(
            n, dv_len, table_len, batch, kv, d, page_size, max_pages, tokens,
        ),
        seq![Place::of_scratch(3), Place::of_param(6), Place::of_param(7)],
    ).steps;
    assert(meaning::step_means(a, steps[e], trace[e], trace[e + 1]));
    assert(meaning::step_means(a, steps[e + 1], trace[e + 1], trace[e + 1 + 1]));
    assert(meaning::pages_of(steps[e]->Launch_0) == g);
    assert(meaning::pages_of(steps[e + 1]->Launch_0) == g);
}

/// Row `r` of the queries, or of the gradient of their output, of head `i`: zeros behind the end of the
/// sequence.
pub open spec fn filled<T>(
    a: Arithmetic<T>, m: Memory<T>, tensor: u32, i: int, seq: int, d: int, r: int, c: int,
) -> T {
    if r < seq {
        m(Slot::Param(tensor), cell(i, seq, d, r, c))
    } else {
        a.zero
    }
}

/// The head of number `i`: its `seq` queries filled up to whole pages, with the keys and values that
/// the pages of its batch entry hold for the key head that serves it.
pub open spec fn paged_head<T>(
    a: Arithmetic<T>, m: Memory<T>, g: Pages, i: int, heads: int, seq: int,
) -> Head<T> {
    let b = i / heads;
    let h = (i % heads) / (heads / g.heads);
    let table = Place::of_param(7);
    Head {
        q: meaning::matrix(g.tokens, g.d, |r: int, c: int| filled(a, m, 0, i, seq, g.d, r, c)),
        k: meaning::matrix(
            g.tokens,
            g.d,
            |r: int, c: int|
                m(Slot::Param(1), meaning::cached_at(a, m, table, g, b, r, h, c)),
        ),
        v: meaning::matrix(
            g.tokens,
            g.d,
            |r: int, c: int|
                m(Slot::Param(2), meaning::cached_at(a, m, table, g, b, r, h, c)),
        ),
        grad: meaning::matrix(
            g.tokens,
            g.d,
            |r: int, c: int| filled(a, m, 3, i, seq, g.d, r, c),
        ),
    }
}

/// Whether the gradients see the queries filled up and the cache gathered.
pub open spec fn sees_pages<T>(
    a: Arithmetic<T>, m: Memory<T>, x: Memory<T>, g: Pages, heads: int, seq: int,
) -> bool {
    let k = meaning::gathered_cache(a, m, Place::of_param(1), Place::of_param(7), g);
    let v = meaning::gathered_cache(a, m, Place::of_param(2), Place::of_param(7), g);
    &&& forall|i: int, r: int, c: int|
        0 <= i < g.batch * heads && 0 <= r < g.tokens && 0 <= c < g.d ==> x(
            Slot::Param(0),
            #[trigger] cell(i, g.tokens, g.d, r, c),
        ) == filled(a, m, 0, i, seq, g.d, r, c)
    &&& forall|i: int, r: int, c: int|
        0 <= i < g.batch * heads && 0 <= r < g.tokens && 0 <= c < g.d ==> x(
            Slot::Param(3),
            #[trigger] cell(i, g.tokens, g.d, r, c),
        ) == filled(a, m, 3, i, seq, g.d, r, c)
    &&& forall|i: int| 0 <= i < k.len() ==> #[trigger] x(Slot::Param(1), i) == k[i]
    &&& forall|i: int| 0 <= i < v.len() ==> #[trigger] x(Slot::Param(2), i) == v[i]
}

/// The batch entry and the key head of the key head that serves a query head.
proof fn lemma_serving_parts(batch: int, heads: int, kv: int, i: int)
    requires
        kv > 0,
        heads > 0,
        heads % kv == 0,
        0 <= i < batch * heads,
    ensures
        meaning::serving_head(i, heads, kv) / kv == i / heads,
        meaning::serving_head(i, heads, kv) % kv == (i % heads) / (heads / kv),
        0 <= meaning::serving_head(i, heads, kv) < batch * kv,
        0 <= (i % heads) / (heads / kv) < kv,
{
    backward_variants::serving_heads_are_there(batch, heads, kv, i);
    let group = heads / kv;
    let h = i % heads;
    assert(heads == group * kv && group > 0) by (nonlinear_arith)
        requires
            group == heads / kv,
            heads % kv == 0,
            kv > 0,
            heads > 0,
    ;
    assert(0 <= h < heads);
    assert(0 <= h / group < kv) by (nonlinear_arith)
        requires
            0 <= h < group * kv,
            group > 0,
    ;
    vstd::arithmetic::div_mod::lemma_fundamental_div_mod_converse(
        meaning::serving_head(i, heads, kv),
        kv,
        i / heads,
        h / group,
    );
}

/// An element of a head as a cell.
proof fn lemma_cell(h: int, rows: int, d: int, e: int)
    requires
        0 <= e < rows * d,
        d > 0,
    ensures
        cell(h, rows, d, e / d, e % d) == h * (rows * d) + e,
        0 <= e / d < rows,
        0 <= e % d < d,
{
    vstd::arithmetic::div_mod::lemma_fundamental_div_mod(e, d);
    let r = e / d;
    assert((h * rows + r) * d == h * (rows * d) + d * r) by (nonlinear_arith);
    assert(0 <= r < rows) by (nonlinear_arith)
        requires
            r == e / d,
            0 <= e < rows * d,
            d > 0,
    ;
}

/// An element of the gathered cache.
proof fn lemma_gathered_element<T>(
    a: Arithmetic<T>, m: Memory<T>, cache: Place, table: Place, g: Pages, s: int, e: int,
)
    requires
        0 <= s < g.batch * g.heads,
        0 <= e < g.tokens * g.d,
        g.heads > 0,
        g.tokens > 0,
        g.d > 0,
    ensures
        ({
            let x = meaning::gathered_cache(a, m, cache, table, g);
            let at = s * (g.tokens * g.d) + e;
            &&& 0 <= at < x.len()
            &&& x[at] == m(
                cache.slot,
                cache.start + meaning::cached_at(
                    a,
                    m,
                    table,
                    g,
                    s / g.heads,
                    e / g.d,
                    s % g.heads,
                    e % g.d,
                ),
            )
        }),
{
    lemma_cell(s, g.tokens, g.d, e);
    let r = e / g.d;
    let c = e % g.d;
    let i = s * g.tokens + r;
    assert(0 <= i < g.batch * g.heads * g.tokens) by (nonlinear_arith)
        requires
            i == s * g.tokens + r,
            0 <= s < g.batch * g.heads,
            0 <= r < g.tokens,
    ;
    vstd::arithmetic::div_mod::lemma_fundamental_div_mod_converse(i, g.tokens, s, r);
    vstd::arithmetic::div_mod::lemma_fundamental_div_mod_converse(i * g.d + c, g.d, i, c);
    assert(0 <= i * g.d + c < g.batch * g.heads * g.tokens * g.d) by (nonlinear_arith)
        requires
            0 <= i < g.batch * g.heads * g.tokens,
            0 <= c < g.d,
    ;
    vstd::arithmetic::div_mod::lemma_div_denominator(i, g.tokens, g.heads);
    assert(g.tokens * g.heads == g.heads * g.tokens) by (nonlinear_arith);
    assert(i / (g.heads * g.tokens) == s / g.heads);
}

/// The heads that the gradients see are those of the pages.
#[verifier::rlimit(40)]
proof fn lemma_paged_head<T>(
    a: Arithmetic<T>, m: Memory<T>, x: Memory<T>, g: Pages, i: int, heads: int, seq: int,
)
    requires
        sees_pages(a, m, x, g, heads, seq),
        g.heads > 0,
        g.tokens > 0,
        g.d > 0,
        heads > 0,
        heads % g.heads == 0,
        0 <= i < g.batch * heads,
        g.batch * heads * (g.tokens * g.d) <= u32::MAX,
        g.batch * g.heads * (g.tokens * g.d) <= u32::MAX,
    ensures
        backward_variants::grouped_head(x, i, heads, g.heads, g.tokens * g.d) == paged_head(
            a, m, g, i, heads, seq,
        ),
{
    let n = g.tokens * g.d;
    let y = backward_variants::grouped_head(x, i, heads, g.heads, n);
    let z = paged_head(a, m, g, i, heads, seq);
    let s = meaning::serving_head(i, heads, g.heads);
    lemma_serving_parts(g.batch, heads, g.heads, i);
    assert(n > 0) by (nonlinear_arith)
        requires
            n == g.tokens * g.d,
            g.tokens > 0,
            g.d > 0,
    ;
    lemma_in_range(i, g.batch * heads, n, 0);
    lemma_in_range(s, g.batch * g.heads, n, 0);
    assert forall|e: int| 0 <= e < n implies #[trigger] y.q[e] == z.q[e] by {
        lemma_cell(i, g.tokens, g.d, e);
        assert(x(Slot::Param(0), cell(i, g.tokens, g.d, e / g.d, e % g.d)) == y.q[e]);
    }
    assert forall|e: int| 0 <= e < n implies #[trigger] y.grad[e] == z.grad[e] by {
        lemma_cell(i, g.tokens, g.d, e);
        assert(x(Slot::Param(3), cell(i, g.tokens, g.d, e / g.d, e % g.d)) == y.grad[e]);
    }
    assert forall|e: int| 0 <= e < n implies #[trigger] y.k[e] == z.k[e] by {
        lemma_gathered_element(a, m, Place::of_param(1), Place::of_param(7), g, s, e);
        assert(x(Slot::Param(1), s * n + e) == y.k[e]);
    }
    assert forall|e: int| 0 <= e < n implies #[trigger] y.v[e] == z.v[e] by {
        lemma_gathered_element(a, m, Place::of_param(2), Place::of_param(7), g, s, e);
        assert(x(Slot::Param(2), s * n + e) == y.v[e]);
    }
    assert(y.q =~= z.q);
    assert(y.k =~= z.k);
    assert(y.v =~= z.v);
    assert(y.grad =~= z.grad);
}

/// What backward over pages leaves before the gradients of keys and values go to the pages: the
/// gradients of the heads of the pages.
pub open spec fn leaves_paged_gradients<T>(
    a: Arithmetic<T>, m: Memory<T>, after: Memory<T>, g: Pages, heads: int, seq: int, scale: F32,
    causal: bool,
) -> bool {
    let n = g.tokens * g.d;
    &&& forall|i: int, r: int, c: int|
        0 <= i < g.batch * heads && 0 <= r < seq && 0 <= c < g.d ==> after(
            Slot::Param(4),
            #[trigger] cell(i, seq, g.d, r, c),
        ) == meaning::entry(
            paged_head(a, m, g, i, heads, seq).query_gradient(a, g.tokens, g.d, scale, causal),
            g.d,
            r,
            c,
        )
    &&& forall|c: int, r: int|
        0 <= c < g.batch * g.heads && 0 <= r < n ==> after(
            Slot::Scratch(2),
            #[trigger] element_of(c, n, r),
        ) == shared_gradient(
            a,
            |i: int|
                paged_head(a, m, g, i, heads, seq).key_gradient(a, g.tokens, g.d, scale, causal),
            c,
            heads,
            g.heads,
            r,
        ) && after(Slot::Scratch(3), element_of(c, n, r)) == shared_gradient(
            a,
            |i: int|
                paged_head(a, m, g, i, heads, seq).value_gradient(a, g.tokens, g.d, scale, causal),
            c,
            heads,
            g.heads,
            r,
        )
}

/// The gradients that are left of the heads that are seen are those of the heads of the pages.
#[verifier::rlimit(40)]
proof fn lemma_paged_results<T>(
    a: Arithmetic<T>, m: Memory<T>, x: Memory<T>, y: Memory<T>, g: Pages, heads: int, seq: int,
    scale: F32, causal: bool,
)
    requires
        sees_pages(a, m, x, g, heads, seq),
        leaves_gradients(a, x, y, g.batch, heads, g.heads, g.tokens, g.d, scale, causal),
        g.heads > 0,
        g.tokens > 0,
        g.d > 0,
        heads > 0,
        heads % g.heads == 0,
        g.batch * heads * (g.tokens * g.d) <= u32::MAX,
        g.batch * g.heads * (g.tokens * g.d) <= u32::MAX,
    ensures
        ({
            let n = g.tokens * g.d;
            &&& forall|i: int, r: int, c: int|
                0 <= i < g.batch * heads && 0 <= r < g.tokens && 0 <= c < g.d ==> y(
                    Slot::Param(4),
                    #[trigger] cell(i, g.tokens, g.d, r, c),
                ) == meaning::entry(
                    paged_head(a, m, g, i, heads, seq).query_gradient(
                        a, g.tokens, g.d, scale, causal,
                    ),
                    g.d,
                    r,
                    c,
                )
            &&& forall|c: int, r: int|
                0 <= c < g.batch * g.heads && 0 <= r < n ==> y(
                    Slot::Param(5),
                    #[trigger] element_of(c, n, r),
                ) == shared_gradient(
                    a,
                    |i: int|
                        paged_head(a, m, g, i, heads, seq).key_gradient(
                            a, g.tokens, g.d, scale, causal,
                        ),
                    c,
                    heads,
                    g.heads,
                    r,
                ) && y(Slot::Param(6), element_of(c, n, r)) == shared_gradient(
                    a,
                    |i: int|
                        paged_head(a, m, g, i, heads, seq).value_gradient(
                            a, g.tokens, g.d, scale, causal,
                        ),
                    c,
                    heads,
                    g.heads,
                    r,
                )
        }),
{
    let n = g.tokens * g.d;
    let of_key = |i: int|
        backward_variants::grouped_head(x, i, heads, g.heads, n).key_gradient(
            a, g.tokens, g.d, scale, causal,
        );
    let of_value = |i: int|
        backward_variants::grouped_head(x, i, heads, g.heads, n).value_gradient(
            a, g.tokens, g.d, scale, causal,
        );
    let key_of = |i: int|
        paged_head(a, m, g, i, heads, seq).key_gradient(a, g.tokens, g.d, scale, causal);
    let value_of = |i: int|
        paged_head(a, m, g, i, heads, seq).value_gradient(a, g.tokens, g.d, scale, causal);
    assert forall|i: int| 0 <= i < g.batch * heads implies #[trigger] of_key(i) == key_of(i) by {
        lemma_paged_head(a, m, x, g, i, heads, seq);
    }
    assert forall|i: int| 0 <= i < g.batch * heads implies #[trigger] of_value(i) == value_of(
        i,
    ) by {
        lemma_paged_head(a, m, x, g, i, heads, seq);
    }
    assert forall|i: int, r: int, c: int|
        0 <= i < g.batch * heads && 0 <= r < g.tokens && 0 <= c < g.d implies y(
        Slot::Param(4),
        #[trigger] cell(i, g.tokens, g.d, r, c),
    ) == meaning::entry(
        paged_head(a, m, g, i, heads, seq).query_gradient(a, g.tokens, g.d, scale, causal),
        g.d,
        r,
        c,
    ) by {
        lemma_paged_head(a, m, x, g, i, heads, seq);
        let e = r * g.d + c;
        assert(0 <= e < n && cell(i, g.tokens, g.d, r, c) == i * n + e) by (nonlinear_arith)
            requires
                e == r * g.d + c,
                n == g.tokens * g.d,
                0 <= r < g.tokens,
                0 <= c < g.d,
                cell(i, g.tokens, g.d, r, c) == (i * g.tokens + r) * g.d + c,
        ;
        lemma_in_range(i, g.batch * heads, n, e);
        let z = meaning::read(y, Place::param_at(4, i * n), n);
        assert(z[e] == y(Slot::Param(4), i * n + e));
    }
    assert forall|c: int, r: int| 0 <= c < g.batch * g.heads && 0 <= r < n implies y(
        Slot::Param(5),
        #[trigger] element_of(c, n, r),
    ) == shared_gradient(a, key_of, c, heads, g.heads, r) && y(
        Slot::Param(6),
        element_of(c, n, r),
    ) == shared_gradient(a, value_of, c, heads, g.heads, r) by {
        lemma_shared_of_equals(a, of_key, key_of, g.batch, c, heads, g.heads, r);
        lemma_shared_of_equals(a, of_value, value_of, g.batch, c, heads, g.heads, r);
    }
}

proof fn lemma_table_is_out_of_reach()
    ensures
        !meaning::is_reached(backward::flat_binding(), Slot::Param(7)),
        !meaning::is_reached(backward::padded_binding(), Slot::Param(7)),
        meaning::separates(backward::flat_binding()),
        meaning::separates(backward::padded_binding()),
{
    let b = backward::flat_binding();
    assert forall|s: Slot| #[trigger] meaning::reaches(b, s) implies b.slot(s).slot != Slot::Param(
        7,
    ) by {
        if let Slot::Param(i) = s {
            assert(i == 0 || i == 1 || i == 2 || i == 3 || i == 4 || i == 5 || i == 6);
        }
    }
    let b = backward::padded_binding();
    assert forall|s: Slot| #[trigger] meaning::reaches(b, s) implies b.slot(s).slot != Slot::Param(
        7,
    ) by {
        if let Slot::Param(i) = s {
            assert(i == 0 || i == 1 || i == 2 || i == 3 || i == 4 || i == 5 || i == 6);
        }
    }
}

/// Backward over pages that the sequence fills, before the scattering.
#[verifier::rlimit(60)]
proof fn lemma_flat<T>(
    a: Arithmetic<T>, q_len: int, k_len: int, v_len: int, do_len: int, dq_len: int, table_len: int,
    batch: int, heads: int, kv: int, d: int, page_size: int, max_pages: int, tokens: int,
    scale: F32, causal: bool, steps: Seq<StepView>, trace: Seq<Memory<T>>,
)
    requires
        0 < batch <= u32::MAX,
        0 < heads,
        0 < kv <= u32::MAX,
        heads % kv == 0,
        0 < d <= u32::MAX,
        kv * d <= u32::MAX,
        0 < page_size <= u32::MAX,
        0 <= max_pages <= u32::MAX,
        0 < tokens <= u32::MAX,
        batch * kv * (tokens * d) <= u32::MAX,
        meaning::carried_out(a, steps, trace),
        ({
            let n = batch * kv * tokens * d;
            let p = backward::paged_gradients(
                backward::gathered_pages(
                    k_len, v_len, table_len, n, batch, kv, d, page_size, max_pages, tokens,
                ), q_len, do_len, dq_len, n, batch, heads, kv, tokens, tokens, d, scale, causal,
            );
            p.end is Done && begins(p, steps)
        }),
    ensures
        ({
            let n = batch * kv * tokens * d;
            let p = backward::paged_gradients(
                backward::gathered_pages(
                    k_len, v_len, table_len, n, batch, kv, d, page_size, max_pages, tokens,
                ), q_len, do_len, dq_len, n, batch, heads, kv, tokens, tokens, d, scale, causal,
            );
            let g = paged_layout(batch, kv, d, page_size, max_pages, tokens);
            let e = p.steps.len() as int;
            &&& leaves_paged_gradients(a, trace[0], trace[e], g, heads, tokens, scale, causal)
            &&& forall|i: int|
                #[trigger] trace[e](Slot::Param(7), i) == trace[0](Slot::Param(7), i)
        }),
{
    let n = batch * kv * tokens * d;
    let b = backward::flat_binding();
    let g = paged_layout(batch, kv, d, page_size, max_pages, tokens);
    let gathered = backward::gathered_pages(
        k_len, v_len, table_len, n, batch, kv, d, page_size, max_pages, tokens,
    );
    let q = backward::gathered_gradients(
        q_len, do_len, dq_len, n, batch, heads, kv, tokens, d, scale, causal,
    );
    let whole = gathered.then_run(q, b);
    assert forall|k: int| 0 <= k < gathered.steps.len() implies #[trigger] steps[k]
        == gathered.steps[k] by {
        assert(whole.steps[k] == gathered.steps[k]);
    }
    lemma_gathered(
        a, k_len, v_len, table_len, batch, kv, d, page_size, max_pages, tokens, steps, trace,
    );
    lemma_table_is_out_of_reach();
    assert(q.end is Done);
    assert(whole.steps =~= steps.subrange(0, whole.steps.len() as int));
    lemma_gradients_within(
        a, gathered, b, q_len, do_len, dq_len, n, batch, heads, kv, tokens, d, scale, causal,
        steps, trace,
    );
    let e = whole.steps.len() as int;
    assert(e == 6 + q.steps.len());
    let x = meaning::seen(a, b, trace[6]);
    let y = meaning::seen(a, b, trace[e]);
    assert(sees_pages(a, trace[0], x, g, heads, tokens));
    lemma_paged_results(a, trace[0], x, y, g, heads, tokens, scale, causal);
    assert forall|i: int| #[trigger] trace[e](Slot::Param(4), i) == y(Slot::Param(4), i) by {}
    assert forall|i: int| #[trigger] trace[e](Slot::Scratch(2), i) == y(Slot::Param(5), i) by {}
    assert forall|i: int| #[trigger] trace[e](Slot::Scratch(3), i) == y(Slot::Param(6), i) by {}
    assert forall|i: int| #[trigger] trace[e](Slot::Param(7), i) == trace[0](
        Slot::Param(7),
        i,
    ) by {
        assert(trace[e](Slot::Param(7), i) == trace[6](Slot::Param(7), i));
    }
}

/// A cell of a head with `rows` rows, in a tensor with `all` rows per head.
proof fn lemma_cell_parts(i: int, heads: int, all: int, rows: int, d: int, r: int, c: int)
    requires
        0 <= i < heads,
        0 <= r < all,
        0 <= c < d,
        0 < rows <= all,
    ensures
        ({
            let w = all * d;
            let at = cell(i, all, d, r, c);
            &&& 0 <= at < heads * w
            &&& at / w == i
            &&& at % w == r * d + c
            &&& (at % w < rows * d <==> r < rows)
            &&& i * (rows * d) + at % w == cell(i, rows, d, r, c)
        }),
{
    let w = all * d;
    let e = r * d + c;
    assert(0 <= e < w && cell(i, all, d, r, c) == i * w + e && (e < rows * d <==> r < rows) && i * (
    rows * d) + e == cell(i, rows, d, r, c)) by (nonlinear_arith)
        requires
            e == r * d + c,
            w == all * d,
            0 <= r < all,
            0 <= c < d,
            cell(i, all, d, r, c) == (i * all + r) * d + c,
            cell(i, rows, d, r, c) == (i * rows + r) * d + c,
    ;
    lemma_in_range(i, heads, w, e);
    vstd::arithmetic::div_mod::lemma_fundamental_div_mod_converse(i * w + e, w, i, e);
}

/// Backward over pages that the sequence does not fill, before the scattering.
#[verifier::rlimit(100)]
proof fn lemma_padded<T>(
    a: Arithmetic<T>, q_len: int, k_len: int, v_len: int, do_len: int, dq_len: int, table_len: int,
    batch: int, heads: int, kv: int, seq: int, d: int, page_size: int, max_pages: int, tokens: int,
    scale: F32, causal: bool, steps: Seq<StepView>, trace: Seq<Memory<T>>,
)
    requires
        0 < batch <= u32::MAX,
        0 < heads,
        0 < kv <= u32::MAX,
        heads % kv == 0,
        0 < d <= u32::MAX,
        kv * d <= u32::MAX,
        0 < page_size <= u32::MAX,
        0 <= max_pages <= u32::MAX,
        0 < seq < tokens <= u32::MAX,
        batch * kv * (tokens * d) <= u32::MAX,
        batch * heads * (tokens * d) <= u32::MAX,
        meaning::carried_out(a, steps, trace),
        ({
            let n = batch * kv * tokens * d;
            let p = backward::paged_gradients(
                backward::gathered_pages(
                    k_len, v_len, table_len, n, batch, kv, d, page_size, max_pages, tokens,
                ), q_len, do_len, dq_len, n, batch, heads, kv, seq, tokens, d, scale, causal,
            );
            p.end is Done && begins(p, steps)
        }),
    ensures
        ({
            let n = batch * kv * tokens * d;
            let p = backward::paged_gradients(
                backward::gathered_pages(
                    k_len, v_len, table_len, n, batch, kv, d, page_size, max_pages, tokens,
                ), q_len, do_len, dq_len, n, batch, heads, kv, seq, tokens, d, scale, causal,
            );
            let g = paged_layout(batch, kv, d, page_size, max_pages, tokens);
            let e = p.steps.len() as int;
            &&& leaves_paged_gradients(a, trace[0], trace[e], g, heads, seq, scale, causal)
            &&& forall|i: int|
                #[trigger] trace[e](Slot::Param(7), i) == trace[0](Slot::Param(7), i)
        }),
{
    let n = batch * kv * tokens * d;
    let all = batch * heads;
    let padded = all * tokens * d;
    let b = backward::padded_binding();
    let g = paged_layout(batch, kv, d, page_size, max_pages, tokens);
    let gathered = backward::gathered_pages(
        k_len, v_len, table_len, n, batch, kv, d, page_size, max_pages, tokens,
    );
    let room = gathered.step(backward::scratch(4, padded, "alloc q_pad: "@)).step(
        backward::scratch(5, padded, "alloc do_pad: "@),
    ).step(backward::scratch(6, padded, "alloc dq_pad: "@));
    let half = backward::copy_heads(
        room, all, Slot::Param(0), seq, Slot::Scratch(4), tokens, seq, d,
    );
    let ready = backward::copy_heads(
        half, all, Slot::Param(3), seq, Slot::Scratch(5), tokens, seq, d,
    );
    let q = backward::gathered_gradients(
        padded, padded, padded, n, batch, heads, kv, tokens, d, scale, causal,
    );
    let run = ready.then_run(q, b);
    let last = backward::copy_heads(
        run, all, Slot::Scratch(6), tokens, Slot::Param(4), seq, seq, d,
    );
    assert(all > 0 && all * (seq * d) <= all * (tokens * d)) by (nonlinear_arith)
        requires
            all == batch * heads,
            batch > 0,
            heads > 0,
            0 < seq < tokens,
            d > 0,
    ;
    backward::lemma_copies_keep_the_end(
        run, all, Slot::Scratch(6), tokens, Slot::Param(4), seq, seq, d,
    );
    assert(run.end is Done);
    assert(ready.end is Done);
    assert(q.end is Done);
    backward::lemma_copies_keep_the_end(
        half, all, Slot::Param(3), seq, Slot::Scratch(5), tokens, seq, d,
    );
    backward::lemma_copies_keep_the_end(
        room, all, Slot::Param(0), seq, Slot::Scratch(4), tokens, seq, d,
    );
    assert(half.end is Done && room.end is Done && gathered.end is Done);
    lemma_copies(
        a, run, all, Slot::Scratch(6), tokens, Slot::Param(4), seq, seq, d, steps, trace,
    );
    assert forall|k: int| 0 <= k < ready.steps.len() implies #[trigger] steps[k]
        == ready.steps[k] by {
        assert(run.steps[k] == ready.steps[k]);
    }
    lemma_copies(
        a, half, all, Slot::Param(3), seq, Slot::Scratch(5), tokens, seq, d, steps, trace,
    );
    lemma_copies(
        a, room, all, Slot::Param(0), seq, Slot::Scratch(4), tokens, seq, d, steps, trace,
    );
    assert forall|k: int| 0 <= k < gathered.steps.len() implies #[trigger] steps[k]
        == gathered.steps[k] by {
        assert(room.steps[k] == gathered.steps[k]);
    }
    lemma_gathered(
        a, k_len, v_len, table_len, batch, kv, d, page_size, max_pages, tokens, steps, trace,
    );
    assert(room.steps.len() == 9);
    assert(steps[6] == room.steps[6] && steps[7] == room.steps[7] && steps[8] == room.steps[8]);
    assert(meaning::step_means(a, steps[6], trace[6], trace[7]));
    assert(meaning::step_means(a, steps[7], trace[7], trace[8]));
    assert(meaning::step_means(a, steps[8], trace[8], trace[9]));
    let m = trace[0];
    let empty = trace[9];
    let one = trace[9 + all];
    let two = trace[9 + all + all];
    assert forall|j: u32, i: int| #[trigger] empty(Slot::Param(j), i) == m(Slot::Param(j), i) by {
        assert(trace[6](Slot::Param(j), i) == m(Slot::Param(j), i));
    }
    lemma_table_is_out_of_reach();
    assert(run.steps =~= steps.subrange(0, run.steps.len() as int));
    lemma_gradients_within(
        a, ready, b, padded, padded, padded, n, batch, heads, kv, tokens, d, scale, causal, steps,
        trace,
    );
    let at = ready.steps.len() as int;
    let then = run.steps.len() as int;
    let e = last.steps.len() as int;
    assert(at == 9 + all + all && then == at + q.steps.len() && e == then + all);
    let x = meaning::seen(a, b, two);
    let y = meaning::seen(a, b, trace[then]);
    assert(sees_pages(a, m, x, g, heads, seq)) by {
        assert forall|i: int, r: int, c: int|
            0 <= i < g.batch * heads && 0 <= r < g.tokens && 0 <= c < g.d implies x(
            Slot::Param(0),
            #[trigger] cell(i, g.tokens, g.d, r, c),
        ) == filled(a, m, 0, i, seq, g.d, r, c) by {
            lemma_cell_parts(i, all, tokens, seq, d, r, c);
            let k = cell(i, tokens, d, r, c);
            assert(x(Slot::Param(0), k) == two(Slot::Scratch(4), k));
            assert(two(Slot::Scratch(4), k) == one(Slot::Scratch(4), k));
            assert(empty(Slot::Scratch(4), k) == a.zero);
        }
        assert forall|i: int, r: int, c: int|
            0 <= i < g.batch * heads && 0 <= r < g.tokens && 0 <= c < g.d implies x(
            Slot::Param(3),
            #[trigger] cell(i, g.tokens, g.d, r, c),
        ) == filled(a, m, 3, i, seq, g.d, r, c) by {
            lemma_cell_parts(i, all, tokens, seq, d, r, c);
            let k = cell(i, tokens, d, r, c);
            assert(x(Slot::Param(3), k) == two(Slot::Scratch(5), k));
            assert(one(Slot::Scratch(5), k) == empty(Slot::Scratch(5), k));
            assert(empty(Slot::Scratch(5), k) == a.zero);
            let f = cell(i, seq, d, r, c);
            assert(one(Slot::Param(3), f) == empty(Slot::Param(3), f));
        }
        let keys = meaning::gathered_cache(a, m, Place::of_param(1), Place::of_param(7), g);
        let values = meaning::gathered_cache(a, m, Place::of_param(2), Place::of_param(7), g);
        assert forall|i: int| 0 <= i < keys.len() implies #[trigger] x(Slot::Param(1), i)
            == keys[i] by {
            assert(two(Slot::Scratch(0), i) == one(Slot::Scratch(0), i));
            assert(one(Slot::Scratch(0), i) == empty(Slot::Scratch(0), i));
            assert(empty(Slot::Scratch(0), i) == trace[6](Slot::Scratch(0), i));
        }
        assert forall|i: int| 0 <= i < values.len() implies #[trigger] x(Slot::Param(2), i)
            == values[i] by {
            assert(two(Slot::Scratch(1), i) == one(Slot::Scratch(1), i));
            assert(one(Slot::Scratch(1), i) == empty(Slot::Scratch(1), i));
            assert(empty(Slot::Scratch(1), i) == trace[6](Slot::Scratch(1), i));
        }
    }
    lemma_paged_results(a, m, x, y, g, heads, seq, scale, causal);
    let after = trace[e];
    assert forall|i: int, r: int, c: int|
        0 <= i < g.batch * heads && 0 <= r < seq && 0 <= c < g.d implies after(
        Slot::Param(4),
        #[trigger] cell(i, seq, g.d, r, c),
    ) == meaning::entry(
        paged_head(a, m, g, i, heads, seq).query_gradient(a, g.tokens, g.d, scale, causal),
        g.d,
        r,
        c,
    ) by {
        lemma_cell_parts(i, all, seq, seq, d, r, c);
        lemma_cell_parts(i, all, tokens, seq, d, r, c);
        let k = cell(i, seq, d, r, c);
        let f = cell(i, tokens, d, r, c);
        assert(y(Slot::Param(4), f) == trace[then](Slot::Scratch(6), f));
        assert(after(Slot::Param(4), k) == trace[then](Slot::Scratch(6), i * (tokens * d) + (r * d
            + c)));
        lemma_cell_parts(i, all, tokens, tokens, d, r, c);
    }
    assert forall|i: int| #[trigger] after(Slot::Scratch(2), i) == y(Slot::Param(5), i) by {
        assert(after(Slot::Scratch(2), i) == trace[then](Slot::Scratch(2), i));
    }
    assert forall|i: int| #[trigger] after(Slot::Scratch(3), i) == y(Slot::Param(6), i) by {
        assert(after(Slot::Scratch(3), i) == trace[then](Slot::Scratch(3), i));
    }
    assert forall|i: int| #[trigger] trace[e](Slot::Param(7), i) == trace[0](
        Slot::Param(7),
        i,
    ) by {
        assert(after(Slot::Param(7), i) == trace[then](Slot::Param(7), i));
        assert(trace[then](Slot::Param(7), i) == two(Slot::Param(7), i));
        assert(two(Slot::Param(7), i) == one(Slot::Param(7), i));
        assert(one(Slot::Param(7), i) == empty(Slot::Param(7), i));
    }
}

/// Whether the pages hold the gradients: where one position alone has a token of the cache, that token
/// holds in `tensor` the gradient of its keys or values, shared over the query heads that they serve.
pub open spec fn pages_hold<T>(
    a: Arithmetic<T>, m: Memory<T>, after: Memory<T>, tensor: u32, g: Pages,
    of_head: spec_fn(int) -> Seq<T>, heads: int,
) -> bool {
    forall|b: int, pos: int, h: int, c: int|
        0 <= b < g.batch && 0 <= pos < g.tokens && 0 <= h < g.heads && 0 <= c < g.d
            && meaning::is_alone(a, m, Place::of_param(7), g, b, pos) ==> after(
            Slot::Param(tensor),
            #[trigger] meaning::cached_at(a, m, Place::of_param(7), g, b, pos, h, c),
        ) == shared_gradient(a, of_head, b * g.heads + h, heads, g.heads, pos * g.d + c)
}

/// What has been scattered is held by the pages.
#[verifier::rlimit(40)]
proof fn lemma_pages_hold<T>(
    a: Arithmetic<T>, m: Memory<T>, before: Memory<T>, after: Memory<T>, from: u32, tensor: u32,
    g: Pages, of_head: spec_fn(int) -> Seq<T>, heads: int,
)
    requires
        g.heads > 0,
        g.tokens > 0,
        g.d > 0,
        meaning::is_scattered(
            a, before, after, Place::of_scratch(from), Place::of_param(tensor), Place::of_param(7),
            g,
        ),
        forall|i: int| #[trigger] before(Slot::Param(7), i) == m(Slot::Param(7), i),
        forall|c: int, r: int|
            0 <= c < g.batch * g.heads && 0 <= r < g.tokens * g.d ==> before(
                Slot::Scratch(from),
                #[trigger] element_of(c, g.tokens * g.d, r),
            ) == shared_gradient(a, of_head, c, heads, g.heads, r),
    ensures
        pages_hold(a, m, after, tensor, g, of_head, heads),
{
    let table = Place::of_param(7);
    assert forall|b: int, pos: int|
        #[trigger] meaning::cached_token(a, before, table, g, b, pos) == meaning::cached_token(
            a,
            m,
            table,
            g,
            b,
            pos,
        ) by {}
    assert forall|b: int, pos: int, h: int, c: int|
        0 <= b < g.batch && 0 <= pos < g.tokens && 0 <= h < g.heads && 0 <= c < g.d
            && meaning::is_alone(a, m, table, g, b, pos) implies after(
        Slot::Param(tensor),
        #[trigger] meaning::cached_at(a, m, table, g, b, pos, h, c),
    ) == shared_gradient(a, of_head, b * g.heads + h, heads, g.heads, pos * g.d + c) by {
        assert(meaning::cached_token(a, before, table, g, b, pos) == meaning::cached_token(
            a,
            m,
            table,
            g,
            b,
            pos,
        ));
        assert(meaning::cached_at(a, before, table, g, b, pos, h, c) == meaning::cached_at(
            a,
            m,
            table,
            g,
            b,
            pos,
            h,
            c,
        ));
        assert forall|other: int, at: int|
            0 <= other < g.batch && 0 <= at < g.tokens && #[trigger] meaning::cached_token(
                a,
                before,
                table,
                g,
                other,
                at,
            ) == meaning::cached_token(a, before, table, g, b, pos) implies other == b && at
            == pos by {
            assert(meaning::cached_token(a, m, table, g, other, at) == meaning::cached_token(
                a,
                m,
                table,
                g,
                b,
                pos,
            ));
        }
        assert(meaning::is_alone(a, before, table, g, b, pos));
        let s = b * g.heads + h;
        let r = pos * g.d + c;
        let n = g.tokens * g.d;
        assert(0 <= s < g.batch * g.heads) by (nonlinear_arith)
            requires
                s == b * g.heads + h,
                0 <= b < g.batch,
                0 <= h < g.heads,
        ;
        lemma_cell_parts(s, g.batch * g.heads, g.tokens, g.tokens, g.d, pos, c);
        assert(0 <= r < n) by (nonlinear_arith)
            requires
                r == pos * g.d + c,
                n == g.tokens * g.d,
                0 <= pos < g.tokens,
                0 <= c < g.d,
        ;
        assert(cell(s, g.tokens, g.d, pos, c) == element_of(s, n, r)) by (nonlinear_arith)
            requires
                cell(s, g.tokens, g.d, pos, c) == (s * g.tokens + pos) * g.d + c,
                element_of(s, n, r) == s * n + r,
                r == pos * g.d + c,
                n == g.tokens * g.d,
        ;
    }
}

/// Backward against a paged cache leaves in `dQ` the gradient of the queries and in the pages of the
/// gradients those of the keys and values: each head attends to the tokens that the page table lists
/// for its batch entry, with its queries filled up with zeros to whole pages, and a key head that serves
/// more than one query head receives the sum of their gradients.
#[verifier::rlimit(60)]
pub proof fn flash_attn_backward_bf16_paged_gives_the_gradients<T>(
    a: Arithmetic<T>, q_len: int, k_paged_len: int, v_paged_len: int, do_len: int, dq_len: int,
    dk_paged_len: int, dv_paged_len: int, page_table_len: int, batch: int, num_heads: int,
    num_kv_heads: int, seq: int, d: int, page_size: int, max_pages: int, scale: F32, causal: bool,
    trace: Seq<Memory<T>>,
)
    requires
        batch > 0,
        num_heads > 0,
        num_kv_heads > 0,
        seq > 0,
        d > 0,
        page_size > 0,
        0 <= max_pages <= u32::MAX,
        ({
            let p = backward::flash_attn_backward_bf16_paged_program(
                q_len, k_paged_len, v_paged_len, do_len, dq_len, dk_paged_len, dv_paged_len,
                page_table_len, batch, num_heads, num_kv_heads, seq, seq, d, page_size, max_pages,
                scale, causal,
            );
            p.end is Done && meaning::carried_out(a, p.steps, trace)
        }),
    ensures
        ({
            let tokens = shape::ceil_div(seq, page_size) * page_size;
            let g = paged_layout(batch, num_kv_heads, d, page_size, max_pages, tokens);
            let m = trace[0];
            let head = |i: int| paged_head(a, m, g, i, num_heads, seq);
            &&& forall|i: int, r: int, c: int|
                0 <= i < batch * num_heads && 0 <= r < seq && 0 <= c < d ==> trace.last()(
                    Slot::Param(4),
                    #[trigger] cell(i, seq, d, r, c),
                ) == meaning::entry(
                    head(i).query_gradient(a, tokens, d, scale, causal),
                    d,
                    r,
                    c,
                )
            &&& pages_hold(
                a, m, trace.last(), 5, g,
                |i: int| head(i).key_gradient(a, tokens, d, scale, causal), num_heads,
            )
            &&& pages_hold(
                a, m, trace.last(), 6, g,
                |i: int| head(i).value_gradient(a, tokens, d, scale, causal), num_heads,
            )
        }),
{
    let tokens = shape::ceil_div(seq, page_size) * page_size;
    let n = batch * num_kv_heads * tokens * d;
    let g = paged_layout(batch, num_kv_heads, d, page_size, max_pages, tokens);
    let m = trace[0];
    backward_laws::pages_hold_the_sequence(seq, page_size);
    assert(num_heads % num_kv_heads == 0);
    backward_laws::lemma_key_heads(batch, num_kv_heads, num_kv_heads, tokens, d);
    backward_variants::lemma_group_sizes(batch, num_kv_heads, tokens, d);
    backward_variants::lemma_group_sizes(batch, num_heads, tokens, d);
    let gathered = backward::gathered_pages(
        k_paged_len, v_paged_len, page_table_len, n, batch, num_kv_heads, d, page_size, max_pages,
        tokens,
    );
    let p = backward::paged_gradients(
        gathered, q_len, do_len, dq_len, n, batch, num_heads, num_kv_heads, seq, tokens, d, scale,
        causal,
    );
    let steps = backward::flash_attn_backward_bf16_paged_program(
        q_len, k_paged_len, v_paged_len, do_len, dq_len, dk_paged_len, dv_paged_len,
        page_table_len, batch, num_heads, num_kv_heads, seq, seq, d, page_size, max_pages, scale,
        causal,
    ).steps;
    assert(p.end is Done);
    assert(begins(p, steps));
    assert(page_size <= tokens) by (nonlinear_arith)
        requires
            tokens == shape::ceil_div(seq, page_size) * page_size,
            tokens >= seq,
            seq > 0,
            page_size > 0,
    ;
    if seq == tokens {
        lemma_flat(
            a, q_len, k_paged_len, v_paged_len, do_len, dq_len, page_table_len, batch, num_heads,
            num_kv_heads, d, page_size, max_pages, tokens, scale, causal, steps, trace,
        );
    } else {
        lemma_padded(
            a, q_len, k_paged_len, v_paged_len, do_len, dq_len, page_table_len, batch, num_heads,
            num_kv_heads, seq, d, page_size, max_pages, tokens, scale, causal, steps, trace,
        );
    }
    lemma_scattered(
        a, p, n, dk_paged_len, dv_paged_len, page_table_len, batch, num_kv_heads, d, page_size,
        max_pages, tokens, trace,
    );
    let e = p.steps.len() as int;
    let before = trace[e];
    let mid = trace[e + 1];
    let last = trace[e + 2];
    assert(last == trace.last());
    let key = |i: int|
        paged_head(a, m, g, i, num_heads, seq).key_gradient(a, tokens, d, scale, causal);
    let value = |i: int|
        paged_head(a, m, g, i, num_heads, seq).value_gradient(a, tokens, d, scale, causal);
    lemma_pages_hold(a, m, before, mid, 2, 5, g, key, num_heads);
    assert forall|i: int| #[trigger] mid(Slot::Param(7), i) == m(Slot::Param(7), i) by {
        assert(mid(Slot::Param(7), i) == before(Slot::Param(7), i));
    }
    lemma_pages_hold(a, m, mid, last, 3, 6, g, value, num_heads);
    let head = |i: int| paged_head(a, m, g, i, num_heads, seq);
    assert((|i: int| head(i).key_gradient(a, tokens, d, scale, causal)) =~= key);
    assert((|i: int| head(i).value_gradient(a, tokens, d, scale, causal)) =~= value);
    assert forall|i: int, r: int, c: int|
        0 <= i < batch * num_heads && 0 <= r < seq && 0 <= c < d implies last(
        Slot::Param(4),
        #[trigger] cell(i, seq, d, r, c),
    ) == meaning::entry(head(i).query_gradient(a, tokens, d, scale, causal), d, r, c) by {
        let k = cell(i, seq, d, r, c);
        assert(last(Slot::Param(4), k) == mid(Slot::Param(4), k));
        assert(mid(Slot::Param(4), k) == before(Slot::Param(4), k));
    }
}

} // verus!
