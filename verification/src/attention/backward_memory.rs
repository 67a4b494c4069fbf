//! The memory that the gradients of attention use: each program names only the buffers of the
//! caller and scratch memory that it has allocated before.
use crate::attention::backward;
use crate::attention::reorder;
use crate::gemm::dense;
use crate::gemm::gradient;
use crate::memory;
use crate::plan::{F32, Place, Slot};
use crate::program::{BindingView, End, ProgramView, StepView};
use crate::shape;
use vstd::prelude::*;

verus! {

proof fn lemma_scratch(p: ProgramView, number: u32, len: int, failure: Seq<char>, buffers: int)
    requires
        p.closed(buffers),
        p.end is Done,
    ensures
        p.step(backward::scratch(number, len, failure)).closed(buffers),
        p.step(backward::scratch(number, len, failure)).end is Done,
        memory::granted(p.step(backward::scratch(number, len, failure)).steps, number),
        forall|i: u32|
            memory::granted(p.steps, i) ==> #[trigger] memory::granted(
                p.step(backward::scratch(number, len, failure)).steps,
                i,
            ),
        forall|n: int|
            p.numbered_below(n) && number < n ==> #[trigger] p.step(
                backward::scratch(number, len, failure),
            ).numbered_below(n),
{
    let s = backward::scratch(number, len, failure);
    memory::step_keeps_closed(p, s, buffers);
    assert(s.grants(number));
}

proof fn lemma_load(p: ProgramView, kernel: Seq<char>, entry: Seq<char>, buffers: int)
    requires
        p.closed(buffers),
    ensures
        p.step(StepView::Load { kernel, entry }).closed(buffers),
        forall|i: u32|
            memory::granted(p.steps, i) ==> #[trigger] memory::granted(
                p.step(StepView::Load { kernel, entry }).steps,
                i,
            ),
        forall|n: int|
            p.numbered_below(n) ==> #[trigger] p.step(
                StepView::Load { kernel, entry },
            ).numbered_below(n),
{
    memory::step_keeps_closed(p, StepView::Load { kernel, entry }, buffers);
}

proof fn lemma_head(p: ProgramView, head: int, seq: int, d: int, scale: F32, causal: bool)
    requires
        p.closed(7),
        p.provides(3),
        p.numbered_below(3),
    ensures
        backward::backward_head(p, head, seq, d, scale, causal).closed(7),
        backward::backward_head(p, head, seq, d, scale, causal).provides(3),
        backward::backward_head(p, head, seq, d, scale, causal).numbered_below(3),
{
    let n = seq * d;
    let w = seq * seq;
    let at = head * n;
    let q = Place::param_at(0, at);
    let k = Place::param_at(1, at);
    let v = Place::param_at(2, at);
    let grad = Place::param_at(3, at);
    let dq = Place::param_at(4, at);
    let dk = Place::param_at(5, at);
    let dv = Place::param_at(6, at);
    let weights = Place::of_scratch(0);
    let weight_grad = Place::of_scratch(1);
    let score_grad = Place::of_scratch(2);
    assert(memory::granted(p.steps, 0));
    assert(memory::granted(p.steps, 1));
    assert(memory::granted(p.steps, 2));
    let recompute = backward::recompute_plan(seq, d, scale, causal);
    let by_b = gradient::gemm_bf16_backward_dB_view_plan(w, n, n, seq, d, seq);
    let by_a = gradient::gemm_bf16_backward_dA_view_plan(n, n, w, seq, d, seq);
    let scores = backward::score_gradient_plan(seq);
    let product = dense::gemm_bf16_view_plan(w, n, n, seq, d, seq);
    let scaling = backward::scale_plan(n, scale);
    memory::launch_keeps_closed(p, recompute, seq![q, k, weights], 7);
    let p = p.then_launch(recompute, seq![q, k, weights]);
    memory::launch_keeps_closed(p, by_b, seq![weights, grad, dv], 7);
    let p = p.then_launch(by_b, seq![weights, grad, dv]);
    memory::launch_keeps_closed(p, by_a, seq![grad, v, weight_grad], 7);
    let p = p.then_launch(by_a, seq![grad, v, weight_grad]);
    memory::launch_keeps_closed(p, scores, seq![weights, weight_grad, score_grad], 7);
    let p = p.then_launch(scores, seq![weights, weight_grad, score_grad]);
    memory::launch_keeps_closed(p, product, seq![score_grad, k, dq], 7);
    let p = p.then_launch(product, seq![score_grad, k, dq]);
    memory::launch_keeps_closed(p, scaling, seq![dq], 7);
    let p = p.then_launch(scaling, seq![dq]);
    memory::launch_keeps_closed(p, by_b, seq![score_grad, q, dk], 7);
    let p = p.then_launch(by_b, seq![score_grad, q, dk]);
    memory::launch_keeps_closed(p, scaling, seq![dk], 7);
}

proof fn lemma_heads(p: ProgramView, heads: int, seq: int, d: int, scale: F32, causal: bool)
    requires
        p.closed(7),
        p.provides(3),
        p.numbered_below(3),
    ensures
        backward::backward_heads(p, heads, seq, d, scale, causal).closed(7),
        backward::backward_heads(p, heads, seq, d, scale, causal).provides(3),
        backward::backward_heads(p, heads, seq, d, scale, causal).numbered_below(3),
    decreases heads,
{
    if heads > 0 {
        lemma_heads(p, heads - 1, seq, d, scale, causal);
        lemma_head(
            backward::backward_heads(p, heads - 1, seq, d, scale, causal),
            heads - 1,
            seq,
            d,
            scale,
            causal,
        );
    }
}

/// Flash attention backward uses its seven buffers and three scratch buffers of its own.
pub proof fn flash_attn_backward_bf16_is_closed(
    q_len: int, k_len: int, v_len: int, do_len: int, dq_len: int, dk_len: int, dv_len: int,
    batch: int, num_heads: int, seq: int, d: int, scale: F32, causal: bool,
)
    ensures
        backward::flash_attn_backward_bf16_program(
            q_len, k_len, v_len, do_len, dq_len, dk_len, dv_len, batch, num_heads, seq, d, scale,
            causal,
        ).closed(7),
        backward::flash_attn_backward_bf16_program(
            q_len, k_len, v_len, do_len, dq_len, dk_len, dv_len, batch, num_heads, seq, d, scale,
            causal,
        ).numbered_below(3),
{
    let kernel = backward::recompute_kernel(causal);
    let ds = "fa_bw_compute_ds_bf16"@;
    let scaling = "scale_bf16_inplace_host"@;
    let p = ProgramView::empty();
    memory::nothing_is_closed(7, End::Done);
    assert(p.numbered_below(3));
    lemma_load(p, kernel, kernel, 7);
    let p = p.step(StepView::Load { kernel, entry: kernel });
    lemma_load(p, ds, ds, 7);
    let p = p.step(StepView::Load { kernel: ds, entry: ds });
    lemma_load(p, scaling, scaling, 7);
    let p = p.step(StepView::Load { kernel: scaling, entry: scaling });
    lemma_scratch(p, 0, seq * seq, "alloc P scratch: "@, 7);
    let p = p.step(backward::scratch(0, seq * seq, "alloc P scratch: "@));
    lemma_scratch(p, 1, seq * seq, "alloc dP scratch: "@, 7);
    let p = p.step(backward::scratch(1, seq * seq, "alloc dP scratch: "@));
    lemma_scratch(p, 2, seq * seq, "alloc dS scratch: "@, 7);
    let p = p.step(backward::scratch(2, seq * seq, "alloc dS scratch: "@));
    assert(p == backward::backward_prologue(seq, causal));
    lemma_heads(p, batch * num_heads, seq, d, scale, causal);
}

proof fn lemma_expanded(p: ProgramView)
    requires
        p.provides(4),
    ensures
        memory::places_known(backward::expanded_binding().places, 7, p.steps),
{
    assert(memory::granted(p.steps, 0));
    assert(memory::granted(p.steps, 1));
    assert(memory::granted(p.steps, 2));
    assert(memory::granted(p.steps, 3));
}

/// Backward with grouped heads uses its seven buffers and seven scratch buffers of its own.
pub proof fn flash_attn_backward_bf16_gqa_is_closed(
    q_len: int, k_len: int, v_len: int, do_len: int, dq_len: int, dk_len: int, dv_len: int,
    batch: int, num_heads_q: int, num_heads_kv: int, seq: int, d: int, scale: F32, causal: bool,
)
    ensures
        backward::flash_attn_backward_bf16_gqa_program(
            q_len, k_len, v_len, do_len, dq_len, dk_len, dv_len, batch, num_heads_q, num_heads_kv,
            seq, d, scale, causal,
        ).closed(7),
        backward::flash_attn_backward_bf16_gqa_program(
            q_len, k_len, v_len, do_len, dq_len, dk_len, dv_len, batch, num_heads_q, num_heads_kv,
            seq, d, scale, causal,
        ).numbered_below(7),
{
    let n = batch * num_heads_q * seq * d;
    let kv = batch * num_heads_kv * seq * d;
    let repeat_name = "repeat_kv_groups_bf16"@;
    let sum_name = "sum_kv_groups_bf16"@;
    let repeat = backward::head_groups_plan(
        repeat_name, n, batch, num_heads_kv, num_heads_q, seq, d,
    );
    let sum = backward::head_groups_plan(sum_name, kv, batch, num_heads_kv, num_heads_q, seq, d);
    let inner = backward::flash_attn_backward_bf16_program(
        q_len, n, n, do_len, dq_len, n, n, batch, num_heads_q, seq, d, scale, causal,
    );
    let b = backward::expanded_binding();
    let p = ProgramView::empty();
    memory::nothing_is_closed(7, End::Done);
    assert(p.numbered_below(7));
    lemma_scratch(p, 0, n, "alloc k_exp: "@, 7);
    let p = p.step(backward::scratch(0, n, "alloc k_exp: "@));
    lemma_scratch(p, 1, n, "alloc v_exp: "@, 7);
    let p = p.step(backward::scratch(1, n, "alloc v_exp: "@));
    lemma_scratch(p, 2, n, "alloc dk_exp: "@, 7);
    let p = p.step(backward::scratch(2, n, "alloc dk_exp: "@));
    lemma_scratch(p, 3, n, "alloc dv_exp: "@, 7);
    let p = p.step(backward::scratch(3, n, "alloc dv_exp: "@));
    lemma_load(p, repeat_name, repeat_name, 7);
    let p = p.step(StepView::Load { kernel: repeat_name, entry: repeat_name });
    let places = seq![Place::of_param(1), Place::of_scratch(0)];
    memory::launch_keeps_closed(p, repeat, places, 7);
    let p = p.then_launch(repeat, places);
    let places = seq![Place::of_param(2), Place::of_scratch(1)];
    memory::launch_keeps_closed(p, repeat, places, 7);
    let p = p.then_launch(repeat, places);
    flash_attn_backward_bf16_is_closed(
        q_len, n, n, do_len, dq_len, n, n, batch, num_heads_q, seq, d, scale, causal,
    );
    lemma_expanded(p);
    memory::run_keeps_closed(p, inner, b, 7, 3);
    let p = p.then_run(inner, b);
    lemma_load(p, sum_name, sum_name, 7);
    let p = p.step(StepView::Load { kernel: sum_name, entry: sum_name });
    let places = seq![Place::of_scratch(2), Place::of_param(5)];
    memory::launch_keeps_closed(p, sum, places, 7);
    let p = p.then_launch(sum, places);
    let places = seq![Place::of_scratch(3), Place::of_param(6)];
    memory::launch_keeps_closed(p, sum, places, 7);
}

/// Backward over an FP8 cache uses its seven buffers and five scratch buffers of its own.
pub proof fn flash_attn_backward_fp8kv_bf16_is_closed(
    q_len: int, k_fp8_len: int, v_fp8_len: int, do_len: int, dq_len: int, dk_len: int, dv_len: int,
    batch: int, num_heads: int, seq: int, d: int, scale: F32, kv_scale: F32, causal: bool,
)
    ensures
        backward::flash_attn_backward_fp8kv_bf16_program(
            q_len, k_fp8_len, v_fp8_len, do_len, dq_len, dk_len, dv_len, batch, num_heads, seq, d,
            scale, kv_scale, causal,
        ).closed(7),
{
    let n = batch * num_heads * seq * d;
    let inner = backward::flash_attn_backward_bf16_program(
        q_len, n, n, do_len, dq_len, dk_len, dv_len, batch, num_heads, seq, d, scale, causal,
    );
    let b = BindingView {
        places: seq![
            Place::of_param(0), Place::of_scratch(0), Place::of_scratch(1), Place::of_param(3),
            Place::of_param(4), Place::of_param(5), Place::of_param(6),
        ],
        base: 2,
    };
    let p = ProgramView::empty();
    memory::nothing_is_closed(7, End::Done);
    lemma_scratch(p, 0, n, "alloc k_bf16: "@, 7);
    let p = p.step(backward::scratch(0, n, "alloc k_bf16: "@));
    lemma_scratch(p, 1, n, "alloc v_bf16: "@, 7);
    let p = p.step(backward::scratch(1, n, "alloc v_bf16: "@));
    let s = StepView::Dequant {
        from: Place::of_param(1),
        to: Place::of_scratch(0),
        n,
        scale: kv_scale,
    };
    memory::step_keeps_closed(p, s, 7);
    let p = p.step(s);
    let s = StepView::Dequant {
        from: Place::of_param(2),
        to: Place::of_scratch(1),
        n,
        scale: kv_scale,
    };
    memory::step_keeps_closed(p, s, 7);
    let p = p.step(s);
    flash_attn_backward_bf16_is_closed(
        q_len, n, n, do_len, dq_len, dk_len, dv_len, batch, num_heads, seq, d, scale, causal,
    );
    memory::run_keeps_closed(p, inner, b, 7, 3);
}

proof fn lemma_copies(
    p: ProgramView, heads: int, from: Slot, from_rows: int, to: Slot, to_rows: int, rows: int,
    d: int, buffers: int,
)
    requires
        p.closed(buffers),
        memory::slot_known(from, buffers, p.steps),
        memory::slot_known(to, buffers, p.steps),
    ensures
        backward::copy_heads(p, heads, from, from_rows, to, to_rows, rows, d).closed(buffers),
        forall|i: u32|
            memory::granted(p.steps, i) ==> #[trigger] memory::granted(
                backward::copy_heads(p, heads, from, from_rows, to, to_rows, rows, d).steps,
                i,
            ),
    decreases heads,
{
    if heads > 0 {
        lemma_copies(p, heads - 1, from, from_rows, to, to_rows, rows, d, buffers);
        let before = backward::copy_heads(p, heads - 1, from, from_rows, to, to_rows, rows, d);
        let s = StepView::Copy {
            from: Place { slot: from, start: ((heads - 1) * (from_rows * d)) as u64 },
            to: Place { slot: to, start: ((heads - 1) * (to_rows * d)) as u64 },
            len: rows * d,
        };
        if let Slot::Scratch(i) = from {
            assert(memory::granted(before.steps, i));
        }
        if let Slot::Scratch(i) = to {
            assert(memory::granted(before.steps, i));
        }
        memory::step_keeps_closed(before, s, buffers);
    }
}

/// The gradients over gathered pages name their seven tensors and number their scratch memory
/// below 7.
proof fn lemma_gathered_gradients(
    q_len: int, do_len: int, dq_len: int, n: int, batch: int, num_heads: int, num_kv_heads: int,
    s_kv: int, d: int, scale: F32, causal: bool,
)
    ensures
        backward::gathered_gradients(
            q_len, do_len, dq_len, n, batch, num_heads, num_kv_heads, s_kv, d, scale, causal,
        ).closed(7),
        backward::gathered_gradients(
            q_len, do_len, dq_len, n, batch, num_heads, num_kv_heads, s_kv, d, scale, causal,
        ).numbered_below(7),
{
    let plain = backward::flash_attn_backward_bf16_program(
        q_len, n, n, do_len, dq_len, n, n, batch, num_heads, s_kv, d, scale, causal,
    );
    let inner = backward::gathered_gradients(
        q_len, do_len, dq_len, n, batch, num_heads, num_kv_heads, s_kv, d, scale, causal,
    );
    flash_attn_backward_bf16_is_closed(
        q_len, n, n, do_len, dq_len, n, n, batch, num_heads, s_kv, d, scale, causal,
    );
    flash_attn_backward_bf16_gqa_is_closed(
        q_len, n, n, do_len, dq_len, n, n, batch, num_heads, num_kv_heads, s_kv, d, scale, causal,
    );
    assert forall|k: int| 0 <= k < inner.steps.len() implies (
    #[trigger] inner.steps[k]).numbers_below(7) by {
        if num_heads == num_kv_heads {
            assert(plain.steps[k].numbers_below(3));
        }
    }
}

proof fn lemma_paged_gradients(
    p: ProgramView, q_len: int, do_len: int, dq_len: int, n: int, batch: int, num_heads: int,
    num_kv_heads: int, seq: int, s_kv: int, d: int, scale: F32, causal: bool,
)
    requires
        p.closed(8),
        p.end is Done,
        p.provides(4),
    ensures
        backward::paged_gradients(
            p, q_len, do_len, dq_len, n, batch, num_heads, num_kv_heads, seq, s_kv, d, scale,
            causal,
        ).closed(8),
        backward::paged_gradients(
            p, q_len, do_len, dq_len, n, batch, num_heads, num_kv_heads, seq, s_kv, d, scale,
            causal,
        ).provides(4),
{
    let heads = batch * num_heads;
    let need = heads * seq * d;
    let padded = heads * s_kv * d;
    assert(memory::granted(p.steps, 0) && memory::granted(p.steps, 1));
    assert(memory::granted(p.steps, 2) && memory::granted(p.steps, 3));
    if seq == s_kv {
        lemma_gathered_gradients(
            q_len, do_len, dq_len, n, batch, num_heads, num_kv_heads, s_kv, d, scale, causal,
        );
        memory::run_keeps_closed(
            p,
            backward::gathered_gradients(
                q_len, do_len, dq_len, n, batch, num_heads, num_kv_heads, s_kv, d, scale, causal,
            ),
            backward::flat_binding(),
            8,
            7,
        );
    } else if q_len < need || do_len < need || dq_len < need {
    } else {
        lemma_scratch(p, 4, padded, "alloc q_pad: "@, 8);
        let a = p.step(backward::scratch(4, padded, "alloc q_pad: "@));
        lemma_scratch(a, 5, padded, "alloc do_pad: "@, 8);
        let b = a.step(backward::scratch(5, padded, "alloc do_pad: "@));
        lemma_scratch(b, 6, padded, "alloc dq_pad: "@, 8);
        let c = b.step(backward::scratch(6, padded, "alloc dq_pad: "@));
        assert(memory::granted(c.steps, 4) && memory::granted(c.steps, 5));
        lemma_copies(c, heads, Slot::Param(0), seq, Slot::Scratch(4), s_kv, seq, d, 8);
        let e = backward::copy_heads(
            c, heads, Slot::Param(0), seq, Slot::Scratch(4), s_kv, seq, d,
        );
        assert(memory::granted(e.steps, 5));
        lemma_copies(e, heads, Slot::Param(3), seq, Slot::Scratch(5), s_kv, seq, d, 8);
        let f = backward::padded_queries(p, padded, heads, seq, s_kv, d);
        assert forall|i: u32| i < 7 implies #[trigger] memory::granted(f.steps, i) by {
            if i < 4 {
                assert(memory::granted(p.steps, i));
                assert(memory::granted(a.steps, i));
                assert(memory::granted(b.steps, i));
            } else if i == 4 {
                assert(memory::granted(a.steps, i));
                assert(memory::granted(b.steps, i));
            } else if i == 5 {
                assert(memory::granted(b.steps, i));
            } else {
                assert(i == 6);
            }
            assert(memory::granted(c.steps, i));
            assert(memory::granted(e.steps, i));
        }
        lemma_gathered_gradients(
            padded, padded, padded, n, batch, num_heads, num_kv_heads, s_kv, d, scale, causal,
        );
        let inner = backward::gathered_gradients(
            padded, padded, padded, n, batch, num_heads, num_kv_heads, s_kv, d, scale, causal,
        );
        let binding = backward::padded_binding();
        assert(memory::granted(f.steps, 0) && memory::granted(f.steps, 1));
        assert(memory::granted(f.steps, 2) && memory::granted(f.steps, 3));
        assert(memory::granted(f.steps, 4) && memory::granted(f.steps, 5));
        assert(memory::granted(f.steps, 6));
        memory::run_keeps_closed(f, inner, binding, 8, 7);
        let g = f.then_run(inner, binding);
        assert(memory::granted(g.steps, 6));
        lemma_copies(g, heads, Slot::Scratch(6), s_kv, Slot::Param(4), seq, seq, d, 8);
        let h = backward::copy_heads(
            g, heads, Slot::Scratch(6), s_kv, Slot::Param(4), seq, seq, d,
        );
        assert forall|i: u32| i < 4 implies #[trigger] memory::granted(h.steps, i) by {
            assert(memory::granted(f.steps, i));
            assert(memory::granted(g.steps, i));
        }
    }
}

/// Backward against a paged cache uses its eight buffers and scratch buffers of its own.
pub proof fn flash_attn_backward_bf16_paged_is_closed(
    q_len: int, k_paged_len: int, v_paged_len: int, do_len: int, dq_len: int, dk_paged_len: int,
    dv_paged_len: int, page_table_len: int, batch: int, num_heads: int, num_kv_heads: int,
    seq_q: int, seq_kv: int, d: int, page_size: int, max_pages: int, scale: F32, causal: bool,
)
    ensures
        backward::flash_attn_backward_bf16_paged_program(
            q_len, k_paged_len, v_paged_len, do_len, dq_len, dk_paged_len, dv_paged_len,
            page_table_len, batch, num_heads, num_kv_heads, seq_q, seq_kv, d, page_size, max_pages,
            scale, causal,
        ).closed(8),
{
    let s_kv = shape::ceil_div(seq_kv, page_size) * page_size;
    let n = batch * num_kv_heads * s_kv * d;
    let gather_k = reorder::paged_kv_gather_bf16_plan(
        k_paged_len, n, page_table_len, batch, num_kv_heads, d, page_size, max_pages, s_kv,
    );
    let gather_v = reorder::paged_kv_gather_bf16_plan(
        v_paged_len, n, page_table_len, batch, num_kv_heads, d, page_size, max_pages, s_kv,
    );
    let scatter_k = reorder::paged_kv_scatter_bf16_plan(
        n, dk_paged_len, page_table_len, batch, num_kv_heads, d, page_size, max_pages, s_kv,
    );
    let scatter_v = reorder::paged_kv_scatter_bf16_plan(
        n, dv_paged_len, page_table_len, batch, num_kv_heads, d, page_size, max_pages, s_kv,
    );
    let p = ProgramView::empty();
    memory::nothing_is_closed(8, End::Done);
    lemma_scratch(p, 0, n, "alloc k_flat: "@, 8);
    let p = p.step(backward::scratch(0, n, "alloc k_flat: "@));
    lemma_scratch(p, 1, n, "alloc v_flat: "@, 8);
    let p = p.step(backward::scratch(1, n, "alloc v_flat: "@));
    lemma_scratch(p, 2, n, "alloc dk_flat: "@, 8);
    let p = p.step(backward::scratch(2, n, "alloc dk_flat: "@));
    lemma_scratch(p, 3, n, "alloc dv_flat: "@, 8);
    let p = p.step(backward::scratch(3, n, "alloc dv_flat: "@));
    assert(p.provides(4)) by {
        assert forall|i: u32| i < 4 implies #[trigger] memory::granted(p.steps, i) by {
            assert(i == 0 || i == 1 || i == 2 || i == 3);
        }
    }
    let room = p;
    let places = seq![Place::of_param(1), Place::of_scratch(0), Place::of_param(7)];
    memory::launch_keeps_closed(p, gather_k, places, 8);
    let p = p.then_launch(gather_k, places);
    let places = seq![Place::of_param(2), Place::of_scratch(1), Place::of_param(7)];
    memory::launch_keeps_closed(p, gather_v, places, 8);
    let p = p.then_launch(gather_v, places);
    assert(p == backward::gathered_pages(
        k_paged_len, v_paged_len, page_table_len, n, batch, num_kv_heads, d, page_size, max_pages,
        s_kv,
    ));
    assert(p.provides(4)) by {
        assert forall|i: u32| i < 4 implies #[trigger] memory::granted(p.steps, i) by {
            assert(memory::granted(room.steps, i));
        }
    }
    if p.end is Done {
        lemma_paged_gradients(
            p, q_len, do_len, dq_len, n, batch, num_heads, num_kv_heads, seq_q, s_kv, d, scale,
            causal,
        );
    } else {
        backward::lemma_paged_gradients_after_end(
            p, q_len, do_len, dq_len, n, batch, num_heads, num_kv_heads, seq_q, s_kv, d, scale,
            causal,
        );
    }
    let p = backward::paged_gradients(
        p, q_len, do_len, dq_len, n, batch, num_heads, num_kv_heads, seq_q, s_kv, d, scale, causal,
    );
    assert(memory::granted(p.steps, 2) && memory::granted(p.steps, 3));
    let places = seq![Place::of_scratch(2), Place::of_param(5), Place::of_param(7)];
    memory::launch_keeps_closed(p, scatter_k, places, 8);
    let p = p.then_launch(scatter_k, places);
    let places = seq![Place::of_scratch(3), Place::of_param(6), Place::of_param(7)];
    memory::launch_keeps_closed(p, scatter_v, places, 8);
}

proof fn lemma_sequence(
    p: ProgramView, cu: Seq<u32>, j: int, n: int, num_heads: int, d: int, scale: F32, causal: bool,
)
    requires
        p.closed(7),
        p.provides(7),
    ensures
        backward::backward_sequence(p, cu, j, n, num_heads, d, scale, causal).closed(7),
        backward::backward_sequence(p, cu, j, n, num_heads, d, scale, causal).provides(7),
{
    let s = cu[j + 1] - cu[j];
    let hd = num_heads * d;
    let at = cu[j] * hd;
    let gather = reorder::permute_thd_to_htd_bf16_view_plan(s * hd, n, s, num_heads, d);
    let scatter = reorder::permute_htd_to_thd_bf16_view_plan(n, s * hd, s, num_heads, d);
    let inner = backward::flash_attn_backward_bf16_program(
        n, n, n, n, n, n, n, 1, num_heads, s, d, scale, causal,
    );
    let b = backward::sequence_binding();
    if s != 0 {
        assert(memory::granted(p.steps, 0));
        assert(memory::granted(p.steps, 1));
        assert(memory::granted(p.steps, 2));
        assert(memory::granted(p.steps, 3));
        assert(memory::granted(p.steps, 4));
        assert(memory::granted(p.steps, 5));
        assert(memory::granted(p.steps, 6));
        let places = seq![Place::param_at(0, at), Place::of_scratch(0)];
        memory::launch_keeps_closed(p, gather, places, 7);
        let p = p.then_launch(gather, places);
        let places = seq![Place::param_at(1, at), Place::of_scratch(1)];
        memory::launch_keeps_closed(p, gather, places, 7);
        let p = p.then_launch(gather, places);
        let places = seq![Place::param_at(2, at), Place::of_scratch(2)];
        memory::launch_keeps_closed(p, gather, places, 7);
        let p = p.then_launch(gather, places);
        let places = seq![Place::param_at(3, at), Place::of_scratch(3)];
        memory::launch_keeps_closed(p, gather, places, 7);
        let p = p.then_launch(gather, places);
        flash_attn_backward_bf16_is_closed(
            n, n, n, n, n, n, n, 1, num_heads, s, d, scale, causal,
        );
        memory::run_keeps_closed(p, inner, b, 7, 3);
        let p = p.then_run(inner, b);
        let places = seq![Place::of_scratch(4), Place::param_at(4, at)];
        memory::launch_keeps_closed(p, scatter, places, 7);
        let p = p.then_launch(scatter, places);
        let places = seq![Place::of_scratch(5), Place::param_at(5, at)];
        memory::launch_keeps_closed(p, scatter, places, 7);
        let p = p.then_launch(scatter, places);
        let places = seq![Place::of_scratch(6), Place::param_at(6, at)];
        memory::launch_keeps_closed(p, scatter, places, 7);
    }
}

proof fn lemma_sequences(
    p: ProgramView, cu: Seq<u32>, j: int, n: int, num_heads: int, d: int, scale: F32, causal: bool,
)
    requires
        p.closed(7),
        p.provides(7),
    ensures
        backward::backward_sequences(p, cu, j, n, num_heads, d, scale, causal).closed(7),
        backward::backward_sequences(p, cu, j, n, num_heads, d, scale, causal).provides(7),
    decreases j,
{
    if j > 0 {
        lemma_sequences(p, cu, j - 1, n, num_heads, d, scale, causal);
        lemma_sequence(
            backward::backward_sequences(p, cu, j - 1, n, num_heads, d, scale, causal),
            cu,
            j - 1,
            n,
            num_heads,
            d,
            scale,
            causal,
        );
    }
}

/// Backward over packed sequences uses its seven buffers and scratch buffers of its own.
pub proof fn flash_attn_backward_bf16_varlen_is_closed(
    q_len: int, k_len: int, v_len: int, do_len: int, dq_len: int, dk_len: int, dv_len: int,
    cu: Seq<u32>, num_heads: int, d: int, scale: F32, causal: bool,
)
    ensures
        backward::flash_attn_backward_bf16_varlen_program(
            q_len, k_len, v_len, do_len, dq_len, dk_len, dv_len, cu, num_heads, d, scale, causal,
        ).closed(7),
{
    let n = num_heads * backward::longest(cu, cu.len() - 1) * d;
    let p = ProgramView::empty();
    memory::nothing_is_closed(7, End::Done);
    lemma_scratch(p, 0, n, "alloc q_htd: "@, 7);
    let p = p.step(backward::scratch(0, n, "alloc q_htd: "@));
    lemma_scratch(p, 1, n, "alloc k_htd: "@, 7);
    let p = p.step(backward::scratch(1, n, "alloc k_htd: "@));
    lemma_scratch(p, 2, n, "alloc v_htd: "@, 7);
    let p = p.step(backward::scratch(2, n, "alloc v_htd: "@));
    lemma_scratch(p, 3, n, "alloc do_htd: "@, 7);
    let p = p.step(backward::scratch(3, n, "alloc do_htd: "@));
    lemma_scratch(p, 4, n, "alloc dq_htd: "@, 7);
    let p = p.step(backward::scratch(4, n, "alloc dq_htd: "@));
    lemma_scratch(p, 5, n, "alloc dk_htd: "@, 7);
    let p = p.step(backward::scratch(5, n, "alloc dk_htd: "@));
    lemma_scratch(p, 6, n, "alloc dv_htd: "@, 7);
    let p = p.step(backward::scratch(6, n, "alloc dv_htd: "@));
    assert(p == backward::varlen_prologue(n));
    assert(p.provides(7)) by {
        assert forall|i: u32| i < 7 implies #[trigger] memory::granted(p.steps, i) by {
            assert(i == 0 || i == 1 || i == 2 || i == 3 || i == 4 || i == 5 || i == 6);
        }
    }
    lemma_sequences(p, cu, cu.len() - 1, n, num_heads, d, scale, causal);
}

} // verus!
