//! Gradients of attention, as programs over scratch memory.
use crate::attention::reorder;
use crate::gemm::dense;
use crate::gemm::gradient;
use crate::plan::{Arg, F32, Launch, Place, Plan, Slot};
use crate::program::{Binding, BindingView, Elem, Program, ProgramView, Step, StepView};
use crate::shape;
use crate::text;
use crate::text::Text;
use vstd::prelude::*;

verus! {

/// A zeroed BF16 scratch buffer.
pub open spec fn scratch(number: u32, len: int, failure: Seq<char>) -> StepView {
    StepView::Alloc { scratch: number, elem: Elem::U16, len, failure: Some(failure) }
}

/// A zeroed BF16 scratch buffer.
pub fn alloc_scratch(number: u32, len: u32, failure: &'static str) -> (r: Step)
    ensures
        r@ == scratch(number, len as int, failure@),
{
    Step::Alloc { scratch: number, elem: Elem::U16, len: len as u64, failure: Some(failure) }
}

/// The kernel that recomputes the attention weights of one head.
pub open spec fn recompute_kernel(causal: bool) -> Seq<char> {
    if causal {
        "fa_bw_recompute_p_causal_bf16"@
    } else {
        "fa_bw_recompute_p_bf16"@
    }
}

fn recompute_name(causal: bool) -> (r: &'static str)
    ensures
        r@ == recompute_kernel(causal),
{
    if causal {
        "fa_bw_recompute_p_causal_bf16"
    } else {
        "fa_bw_recompute_p_bf16"
    }
}

/// Recomputes the attention weights `P` of one head from its queries and keys.
pub open spec fn recompute_plan(seq: int, d: int, scale: F32, causal: bool) -> Plan {
    Plan::launch(
        recompute_kernel(causal),
        recompute_kernel(causal),
        (seq, 1, 1),
        (128, 1, 1),
        0,
        seq![
            Arg::buffer(0), Arg::buffer(1), Arg::buffer(2), Arg::word(seq), Arg::word(d),
            Arg::Scalar(scale),
        ],
    )
}

fn recompute(seq: u32, d: u32, scale: F32, causal: bool) -> (r: Launch)
    ensures
        Plan::Launch(r@) == recompute_plan(seq as int, d as int, scale, causal),
{
    Launch::new(
        recompute_name(causal),
        recompute_name(causal),
        (seq, 1, 1),
        (128, 1, 1),
        0,
        vec![
            Arg::param(0), Arg::param(1), Arg::param(2), Arg::Word(seq), Arg::Word(d),
            Arg::Scalar(scale),
        ],
    )
}

/// Computes the score gradient `dS` of one head from `P` and `dP`.
pub open spec fn score_gradient_plan(seq: int) -> Plan {
    Plan::launch(
        "fa_bw_compute_ds_bf16"@,
        "fa_bw_compute_ds_bf16"@,
        (seq, 1, 1),
        (128, 1, 1),
        0,
        seq![Arg::buffer(0), Arg::buffer(1), Arg::buffer(2), Arg::word(seq)],
    )
}

fn score_gradient(seq: u32) -> (r: Launch)
    ensures
        Plan::Launch(r@) == score_gradient_plan(seq as int),
{
    Launch::new(
        "fa_bw_compute_ds_bf16",
        "fa_bw_compute_ds_bf16",
        (seq, 1, 1),
        (128, 1, 1),
        0,
        vec![Arg::param(0), Arg::param(1), Arg::param(2), Arg::Word(seq)],
    )
}

/// Scales `n` elements in place.
pub open spec fn scale_plan(n: int, scale: F32) -> Plan {
    Plan::launch(
        "scale_bf16_inplace_host"@,
        "scale_bf16_inplace_host"@,
        (shape::ceil_div(n, 256), 1, 1),
        (256, 1, 1),
        0,
        seq![Arg::buffer(0), Arg::word(n), Arg::Scalar(scale)],
    )
}

fn scale_in_place(n: u32, scale: F32) -> (r: Launch)
    ensures
        Plan::Launch(r@) == scale_plan(n as int, scale),
{
    Launch::new(
        "scale_bf16_inplace_host",
        "scale_bf16_inplace_host",
        (shape::div_ceil(n, 256), 1, 1),
        (256, 1, 1),
        0,
        vec![Arg::param(0), Arg::Word(n), Arg::Scalar(scale)],
    )
}

/// The gradients of head number `head`, after the program `p`. Scratch buffers 0, 1 and 2 hold
/// the weights, their gradient and the score gradient of the head.
pub open spec fn backward_head(
    p: ProgramView, head: int, seq: int, d: int, scale: F32, causal: bool,
) -> ProgramView {
    let n = seq * d;
    let w = seq * seq;
    let at = head * n;
    let q = Place::param_at(0, at);
    let k = Place::param_at(1, at);
    let v = Place::param_at(2, at);
    let grad = Place::param_at(3, at);
    let dq = Place::param_at(4, at);
    let dk = Place::param_at(5, at);
    let dv = Place::param_at(6, at);
    let weights = Place::of_scratch(0);
    let weight_grad = Place::of_scratch(1);
    let score_grad = Place::of_scratch(2);
    p.then_launch(recompute_plan(seq, d, scale, causal), seq![q, k, weights]).then_launch(
        gradient::gemm_bf16_backward_dB_view_plan(w, n, n, seq, d, seq),
        seq![weights, grad, dv],
    ).then_launch(
        gradient::gemm_bf16_backward_dA_view_plan(n, n, w, seq, d, seq),
        seq![grad, v, weight_grad],
    ).then_launch(score_gradient_plan(seq), seq![weights, weight_grad, score_grad]).then_launch(
        dense::gemm_bf16_view_plan(w, n, n, seq, d, seq),
        seq![score_grad, k, dq],
    ).then_launch(scale_plan(n, scale), seq![dq]).then_launch(
        gradient::gemm_bf16_backward_dB_view_plan(w, n, n, seq, d, seq),
        seq![score_grad, q, dk],
    ).then_launch(scale_plan(n, scale), seq![dk])
}

/// The gradients of the first `heads` heads, after the program `p`.
pub open spec fn backward_heads(
    p: ProgramView, heads: int, seq: int, d: int, scale: F32, causal: bool,
) -> ProgramView
    decreases heads,
{
    if heads <= 0 {
        p
    } else {
        backward_head(backward_heads(p, heads - 1, seq, d, scale, causal), heads - 1, seq, d, scale,
            causal)
    }
}

fn push_head(
    p: &mut Program,
    head: u32,
    seq: u32,
    d: u32,
    scale: F32,
    causal: bool,
)
    requires
        old(p)@.end is Done,
        seq > 0,
        d > 0,
        seq * d <= u32::MAX,
        seq * seq <= u32::MAX,
    ensures
        final(p)@ == backward_head(old(p)@, head as int, seq as int, d as int, scale, causal),
        final(p)@.end is Done,
{
    let n: u32 = seq * d;
    let w: u32 = seq * seq;
    let at: u64 = shape::product(head, n);
    let len: usize = n as usize;
    let square: usize = w as usize;
    p.launch(
        Ok(recompute(seq, d, scale, causal)),
        vec![Place::within(0, at), Place::within(1, at), Place::scratch(0)],
    );
    p.launch(
        gradient::gemm_bf16_backward_dB_view(square, len, len, seq, d, seq),
        vec![Place::scratch(0), Place::within(3, at), Place::within(6, at)],
    );
    p.launch(
        gradient::gemm_bf16_backward_dA_view(len, len, square, seq, d, seq),
        vec![Place::within(3, at), Place::within(2, at), Place::scratch(1)],
    );
    p.launch(
        Ok(score_gradient(seq)),
        vec![Place::scratch(0), Place::scratch(1), Place::scratch(2)],
    );
    p.launch(
        dense::gemm_bf16_view(square, len, len, seq, d, seq),
        vec![Place::scratch(2), Place::within(1, at), Place::within(4, at)],
    );
    p.launch(Ok(scale_in_place(n, scale)), Place::within(4, at).alone());
    p.launch(
        gradient::gemm_bf16_backward_dB_view(square, len, len, seq, d, seq),
        vec![Place::scratch(2), Place::within(0, at), Place::within(5, at)],
    );
    p.launch(Ok(scale_in_place(n, scale)), Place::within(5, at).alone());
}

/// The kernels and the scratch memory that the gradients of the heads need.
pub open spec fn backward_prologue(seq: int, causal: bool) -> ProgramView {
    ProgramView::empty().step(
        StepView::Load { kernel: recompute_kernel(causal), entry: recompute_kernel(causal) },
    ).step(
        StepView::Load { kernel: "fa_bw_compute_ds_bf16"@, entry: "fa_bw_compute_ds_bf16"@ },
    ).step(
        StepView::Load { kernel: "scale_bf16_inplace_host"@, entry: "scale_bf16_inplace_host"@ },
    ).step(scratch(0, seq * seq, "alloc P scratch: "@)).step(
        scratch(1, seq * seq, "alloc dP scratch: "@),
    ).step(scratch(2, seq * seq, "alloc dS scratch: "@))
}

fn prologue(seq: u32, causal: bool) -> (p: Program)
    requires
        seq * seq <= u32::MAX,
    ensures
        p@ == backward_prologue(seq as int, causal),
        p@.end is Done,
{
    let mut p = Program::new();
    p.push(Step::Load { kernel: recompute_name(causal), entry: recompute_name(causal) });
    p.push(Step::Load { kernel: "fa_bw_compute_ds_bf16", entry: "fa_bw_compute_ds_bf16" });
    p.push(Step::Load { kernel: "scale_bf16_inplace_host", entry: "scale_bf16_inplace_host" });
    p.push(alloc_scratch(0, seq * seq, "alloc P scratch: "));
    p.push(alloc_scratch(1, seq * seq, "alloc dP scratch: "));
    p.push(alloc_scratch(2, seq * seq, "alloc dS scratch: "));
    p
}

/// The answer of [`flash_attn_backward_bf16`].
pub open spec fn flash_attn_backward_bf16_program(
    q_len: int, k_len: int, v_len: int, do_len: int, dq_len: int, dk_len: int, dv_len: int,
    batch: int, num_heads: int, seq: int, d: int, scale: F32, causal: bool,
) -> ProgramView {
    let bhsd = batch * num_heads * seq * d;
    if batch == 0 || num_heads == 0 || seq == 0 || d == 0 {
        ProgramView::invalid("dims must be > 0"@)
    } else if batch * num_heads > u32::MAX || batch * num_heads * seq > u32::MAX || bhsd > u32::MAX
    {
        ProgramView::undefined()
    } else if q_len < bhsd || k_len < bhsd || v_len < bhsd || do_len < bhsd || dq_len < bhsd
        || dk_len < bhsd || dv_len < bhsd
    {
        ProgramView::invalid(
            "buffers too small: need "@ + text::decimal(bhsd) + " BF16 elements"@,
        )
    } else if seq * seq > u32::MAX {
        ProgramView::undefined()
    } else {
        backward_heads(backward_prologue(seq, causal), batch * num_heads, seq, d, scale, causal)
    }
}

/// A product of positive factors is at least the product of some of them.
proof fn lemma_part_of_product(a: int, b: int, c: int, d: int)
    by (nonlinear_arith)
    requires
        a > 0,
        b > 0,
        c > 0,
        d > 0,
    ensures
        c * d <= a * b * c * d,
        0 < c * d,
{
}

/// Flash Attention backward (BF16, as many key heads as query heads), head by head: materializes
/// P / dP / dS in scratch buffers and chains the GEMM-backward kernels.
pub fn flash_attn_backward_bf16(
    q_len: usize,
    k_len: usize,
    v_len: usize,
    do_len: usize,
    dq_len: usize,
    dk_len: usize,
    dv_len: usize,
    batch: u32,
    num_heads: u32,
    seq: u32,
    d: u32,
    scale: F32,
    causal: bool,
) -> (r: Program)
    requires
        flash_attn_backward_bf16_program(
            q_len as int, k_len as int, v_len as int, do_len as int, dq_len as int, dk_len as int,
            dv_len as int, batch as int, num_heads as int, seq as int, d as int, scale, causal,
        ).end !is Undefined,
    ensures
        r@ == flash_attn_backward_bf16_program(
            q_len as int, k_len as int, v_len as int, do_len as int, dq_len as int, dk_len as int,
            dv_len as int, batch as int, num_heads as int, seq as int, d as int, scale, causal,
        ),
{
    if batch == 0 || num_heads == 0 || seq == 0 || d == 0 {
        return Program::refused(Text::new("dims must be > 0"));
    }
    let bhsd: u64 = (batch * num_heads * seq * d) as u64;
    if (q_len as u64) < bhsd || (k_len as u64) < bhsd || (v_len as u64) < bhsd
        || (do_len as u64) < bhsd || (dq_len as u64) < bhsd || (dk_len as u64) < bhsd
        || (dv_len as u64) < bhsd
    {
        return Program::refused(
            Text::new("buffers too small: need ").n(bhsd).s(" BF16 elements"),
        );
    }
    proof {
        lemma_part_of_product(batch as int, num_heads as int, seq as int, d as int);
    }
    let mut p = prologue(seq, causal);
    let heads: u32 = batch * num_heads;
    let mut head: u32 = 0;
    while head < heads
        invariant
            head <= heads,
            seq > 0,
            d > 0,
            seq * d <= u32::MAX,
            seq * seq <= u32::MAX,
            p@ == backward_heads(
                backward_prologue(seq as int, causal), head as int, seq as int, d as int, scale,
                causal,
            ),
            p@.end is Done,
        decreases heads - head,
    {
        push_head(&mut p, head, seq, d, scale, causal);
        head = head + 1;
    }
    p
}

/// Copies the key heads of one tensor so that every query head has its own, or sums the copies
/// back: kernel `kernel` over `n` elements.
pub open spec fn head_groups_plan(
    kernel: Seq<char>, n: int, batch: int, num_heads_kv: int, num_heads_q: int, seq: int, d: int,
) -> Plan {
    Plan::launch(
        kernel,
        kernel,
        (shape::ceil_div(n, 256), 1, 1),
        (256, 1, 1),
        0,
        seq![
            Arg::buffer(0), Arg::buffer(1), Arg::word(batch), Arg::word(num_heads_kv),
            Arg::word(num_heads_q), Arg::word(seq), Arg::word(d),
        ],
    )
}

fn head_groups(
    kernel: &'static str,
    n: u32,
    batch: u32,
    num_heads_kv: u32,
    num_heads_q: u32,
    seq: u32,
    d: u32,
) -> (r: Launch)
    ensures
        Plan::Launch(r@) == head_groups_plan(
            kernel@, n as int, batch as int, num_heads_kv as int, num_heads_q as int, seq as int,
            d as int,
        ),
{
    Launch::new(
        kernel,
        kernel,
        (shape::div_ceil(n, 256), 1, 1),
        (256, 1, 1),
        0,
        vec![
            Arg::param(0), Arg::param(1), Arg::Word(batch), Arg::Word(num_heads_kv),
            Arg::Word(num_heads_q), Arg::Word(seq), Arg::Word(d),
        ],
    )
}

/// Where the gradients over expanded heads find their tensors: the expanded keys and values in
/// scratch buffers 0 and 1, their gradients in 2 and 3.
pub open spec fn expanded_binding() -> BindingView {
    BindingView {
        places: seq![
            Place::of_param(0), Place::of_scratch(0), Place::of_scratch(1), Place::of_param(3),
            Place::of_param(4), Place::of_scratch(2), Place::of_scratch(3),
        ],
        base: 4,
    }
}

/// The answer of [`flash_attn_backward_bf16_gqa`].
pub open spec fn flash_attn_backward_bf16_gqa_program(
    q_len: int, k_len: int, v_len: int, do_len: int, dq_len: int, dk_len: int, dv_len: int,
    batch: int, num_heads_q: int, num_heads_kv: int, seq: int, d: int, scale: F32, causal: bool,
) -> ProgramView {
    let q_elems = batch * num_heads_q * seq * d;
    let kv_elems = batch * num_heads_kv * seq * d;
    let repeat = head_groups_plan(
        "repeat_kv_groups_bf16"@, q_elems, batch, num_heads_kv, num_heads_q, seq, d,
    );
    let sum = head_groups_plan(
        "sum_kv_groups_bf16"@, kv_elems, batch, num_heads_kv, num_heads_q, seq, d,
    );
    if num_heads_kv == 0 || num_heads_q % num_heads_kv != 0 {
        ProgramView::invalid(
            "num_heads_kv ("@ + text::decimal(num_heads_kv) + ") must divide num_heads_q ("@
                + text::decimal(num_heads_q) + ")"@,
        )
    } else if batch * num_heads_q > u32::MAX || batch * num_heads_q * seq > u32::MAX
        || q_elems > u32::MAX || batch * num_heads_kv > u32::MAX
        || batch * num_heads_kv * seq > u32::MAX || kv_elems > u32::MAX
    {
        ProgramView::undefined()
    } else {
        ProgramView::empty().step(scratch(0, q_elems, "alloc k_exp: "@)).step(
            scratch(1, q_elems, "alloc v_exp: "@),
        ).step(scratch(2, q_elems, "alloc dk_exp: "@)).step(
            scratch(3, q_elems, "alloc dv_exp: "@),
        ).step(
            StepView::Load { kernel: "repeat_kv_groups_bf16"@, entry: "repeat_kv_groups_bf16"@ },
        ).then_launch(repeat, seq![Place::of_param(1), Place::of_scratch(0)]).then_launch(
            repeat,
            seq![Place::of_param(2), Place::of_scratch(1)],
        ).then_run(
            flash_attn_backward_bf16_program(
                q_len, q_elems, q_elems, do_len, dq_len, q_elems, q_elems, batch, num_heads_q, seq,
                d, scale, causal,
            ),
            expanded_binding(),
        ).step(
            StepView::Load { kernel: "sum_kv_groups_bf16"@, entry: "sum_kv_groups_bf16"@ },
        ).then_launch(sum, seq![Place::of_scratch(2), Place::of_param(5)]).then_launch(
            sum,
            seq![Place::of_scratch(3), Place::of_param(6)],
        )
    }
}

/// Flash Attention backward (BF16) with GQA support: expands the key heads, runs
/// [`flash_attn_backward_bf16`] on the expanded buffers, and sums the gradients back.
pub fn flash_attn_backward_bf16_gqa(
    q_len: usize,
    k_len: usize,
    v_len: usize,
    do_len: usize,
    dq_len: usize,
    dk_len: usize,
    dv_len: usize,
    batch: u32,
    num_heads_q: u32,
    num_heads_kv: u32,
    seq: u32,
    d: u32,
    scale: F32,
    causal: bool,
) -> (r: Program)
    requires
        flash_attn_backward_bf16_gqa_program(
            q_len as int, k_len as int, v_len as int, do_len as int, dq_len as int, dk_len as int,
            dv_len as int, batch as int, num_heads_q as int, num_heads_kv as int, seq as int,
            d as int, scale, causal,
        ).end !is Undefined,
    ensures
        r@ == flash_attn_backward_bf16_gqa_program(
            q_len as int, k_len as int, v_len as int, do_len as int, dq_len as int, dk_len as int,
            dv_len as int, batch as int, num_heads_q as int, num_heads_kv as int, seq as int,
            d as int, scale, causal,
        ),
{
    if num_heads_kv == 0 || num_heads_q % num_heads_kv != 0 {
        return Program::refused(
            Text::new("num_heads_kv (").n(num_heads_kv as u64).s(") must divide num_heads_q (")
                .n(num_heads_q as u64).s(")"),
        );
    }
    let q_elems: u32 = batch * num_heads_q * seq * d;
    let kv_elems: u32 = batch * num_heads_kv * seq * d;
    let mut p = Program::new();
    p.push(alloc_scratch(0, q_elems, "alloc k_exp: "));
    p.push(alloc_scratch(1, q_elems, "alloc v_exp: "));
    p.push(alloc_scratch(2, q_elems, "alloc dk_exp: "));
    p.push(alloc_scratch(3, q_elems, "alloc dv_exp: "));
    p.push(Step::Load { kernel: "repeat_kv_groups_bf16", entry: "repeat_kv_groups_bf16" });
    p.launch(
        Ok(head_groups(
            "repeat_kv_groups_bf16", q_elems, batch, num_heads_kv, num_heads_q, seq, d,
        )),
        vec![Place::param(1), Place::scratch(0)],
    );
    p.launch(
        Ok(head_groups(
            "repeat_kv_groups_bf16", q_elems, batch, num_heads_kv, num_heads_q, seq, d,
        )),
        vec![Place::param(2), Place::scratch(1)],
    );
    let n: usize = q_elems as usize;
    let inner = flash_attn_backward_bf16(
        q_len, n, n, do_len, dq_len, n, n, batch, num_heads_q, seq, d, scale, causal,
    );
    p.run(
        inner,
        Binding {
            places: vec![
                Place::param(0), Place::scratch(0), Place::scratch(1), Place::param(3),
                Place::param(4), Place::scratch(2), Place::scratch(3),
            ],
            base: 4,
        },
    );
    if p.end.is_err() {
        return p;
    }
    p.push(Step::Load { kernel: "sum_kv_groups_bf16", entry: "sum_kv_groups_bf16" });
    p.launch(
        Ok(head_groups(
            "sum_kv_groups_bf16", kv_elems, batch, num_heads_kv, num_heads_q, seq, d,
        )),
        vec![Place::scratch(2), Place::param(5)],
    );
    p.launch(
        Ok(head_groups(
            "sum_kv_groups_bf16", kv_elems, batch, num_heads_kv, num_heads_q, seq, d,
        )),
        vec![Place::scratch(3), Place::param(6)],
    );
    p
}

/// The answer of [`flash_attn_backward_fp8kv_bf16`].
pub open spec fn flash_attn_backward_fp8kv_bf16_program(
    q_len: int, k_fp8_len: int, v_fp8_len: int, do_len: int, dq_len: int, dk_len: int, dv_len: int,
    batch: int, num_heads: int, seq: int, d: int, scale: F32, kv_scale: F32, causal: bool,
) -> ProgramView {
    let kv_elems = batch * num_heads * seq * d;
    if batch * num_heads > u32::MAX || batch * num_heads * seq > u32::MAX || kv_elems > u32::MAX {
        ProgramView::undefined()
    } else {
        ProgramView::empty().step(scratch(0, kv_elems, "alloc k_bf16: "@)).step(
            scratch(1, kv_elems, "alloc v_bf16: "@),
        ).step(
            StepView::Dequant {
                from: Place::of_param(1),
                to: Place::of_scratch(0),
                n: kv_elems,
                scale: kv_scale,
            },
        ).step(
            StepView::Dequant {
                from: Place::of_param(2),
                to: Place::of_scratch(1),
                n: kv_elems,
                scale: kv_scale,
            },
        ).then_run(
            flash_attn_backward_bf16_program(
                q_len, kv_elems, kv_elems, do_len, dq_len, dk_len, dv_len, batch, num_heads, seq, d,
                scale, causal,
            ),
            BindingView {
                places: seq![
                    Place::of_param(0), Place::of_scratch(0), Place::of_scratch(1),
                    Place::of_param(3), Place::of_param(4), Place::of_param(5), Place::of_param(6),
                ],
                base: 2,
            },
        )
    }
}

/// Flash Attention backward with an FP8 key-value cache: dequantizes keys and values into
/// scratch buffers and runs [`flash_attn_backward_bf16`] on them.
pub fn flash_attn_backward_fp8kv_bf16(
    q_len: usize,
    k_fp8_len: usize,
    v_fp8_len: usize,
    do_len: usize,
    dq_len: usize,
    dk_len: usize,
    dv_len: usize,
    batch: u32,
    num_heads: u32,
    seq: u32,
    d: u32,
    scale: F32,
    kv_scale: F32,
    causal: bool,
) -> (r: Program)
    requires
        flash_attn_backward_fp8kv_bf16_program(
            q_len as int, k_fp8_len as int, v_fp8_len as int, do_len as int, dq_len as int,
            dk_len as int, dv_len as int, batch as int, num_heads as int, seq as int, d as int,
            scale, kv_scale, causal,
        ).end !is Undefined,
    ensures
        r@ == flash_attn_backward_fp8kv_bf16_program(
            q_len as int, k_fp8_len as int, v_fp8_len as int, do_len as int, dq_len as int,
            dk_len as int, dv_len as int, batch as int, num_heads as int, seq as int, d as int,
            scale, kv_scale, causal,
        ),
{
    let kv_elems: u32 = batch * num_heads * seq * d;
    let mut p = Program::new();
    p.push(alloc_scratch(0, kv_elems, "alloc k_bf16: "));
    p.push(alloc_scratch(1, kv_elems, "alloc v_bf16: "));
    p.push(
        Step::Dequant {
            from: Place::param(1),
            to: Place::scratch(0),
            n: kv_elems,
            scale: kv_scale,
        },
    );
    p.push(
        Step::Dequant {
            from: Place::param(2),
            to: Place::scratch(1),
            n: kv_elems,
            scale: kv_scale,
        },
    );
    let n: usize = kv_elems as usize;
    let inner = flash_attn_backward_bf16(
        q_len, n, n, do_len, dq_len, dk_len, dv_len, batch, num_heads, seq, d, scale, causal,
    );
    p.run(
        inner,
        Binding {
            places: vec![
                Place::param(0), Place::scratch(0), Place::scratch(1), Place::param(3),
                Place::param(4), Place::param(5), Place::param(6),
            ],
            base: 2,
        },
    );
    p
}

/// The first `rows` rows of each of the first `heads` heads, copied after the program `p` from a
/// tensor with `from_rows` rows per head to one with `to_rows`. A row has `d` elements.
pub open spec fn copy_heads(
    p: ProgramView, heads: int, from: Slot, from_rows: int, to: Slot, to_rows: int, rows: int,
    d: int,
) -> ProgramView
    decreases heads,
{
    if heads <= 0 {
        p
    } else {
        copy_heads(p, heads - 1, from, from_rows, to, to_rows, rows, d).step(
            StepView::Copy {
                from: Place { slot: from, start: ((heads - 1) * (from_rows * d)) as u64 },
                to: Place { slot: to, start: ((heads - 1) * (to_rows * d)) as u64 },
                len: rows * d,
            },
        )
    }
}

/// Copying heads ends a program in no way, and adds nothing to one that has ended.
pub proof fn lemma_copies_keep_the_end(
    p: ProgramView, heads: int, from: Slot, from_rows: int, to: Slot, to_rows: int, rows: int,
    d: int,
)
    ensures
        copy_heads(p, heads, from, from_rows, to, to_rows, rows, d).end == p.end,
        p.end !is Done ==> copy_heads(p, heads, from, from_rows, to, to_rows, rows, d) == p,
    decreases heads,
{
    if heads > 0 {
        lemma_copies_keep_the_end(p, heads - 1, from, from_rows, to, to_rows, rows, d);
    }
}

fn push_copies(
    p: &mut Program,
    heads: u32,
    from: Slot,
    from_rows: u32,
    to: Slot,
    to_rows: u32,
    rows: u32,
    d: u32,
)
    requires
        old(p)@.end is Done,
        heads > 0 ==> from_rows * d <= u32::MAX && to_rows * d <= u32::MAX && rows * d <= u32::MAX,
    ensures
        final(p)@ == copy_heads(
            old(p)@, heads as int, from, from_rows as int, to, to_rows as int, rows as int,
            d as int,
        ),
        final(p)@.end is Done,
{
    let ghost start = p@;
    let mut head: u32 = 0;
    while head < heads
        invariant
            head <= heads,
            heads > 0 ==> from_rows * d <= u32::MAX && to_rows * d <= u32::MAX && rows * d
                <= u32::MAX,
            p@ == copy_heads(
                start, head as int, from, from_rows as int, to, to_rows as int, rows as int,
                d as int,
            ),
            p@.end is Done,
        decreases heads - head,
    {
        p.push(
            Step::Copy {
                from: Place { slot: from, start: shape::product(head, from_rows * d) },
                to: Place { slot: to, start: shape::product(head, to_rows * d) },
                len: (rows * d) as u64,
            },
        );
        head = head + 1;
    }
}

/// The gradients over gathered keys and values of `n` elements each, with as many key heads as
/// query heads or with fewer.
pub open spec fn gathered_gradients(
    q_len: int, do_len: int, dq_len: int, n: int, batch: int, num_heads: int, num_kv_heads: int,
    s_kv: int, d: int, scale: F32, causal: bool,
) -> ProgramView {
    if num_heads == num_kv_heads {
        flash_attn_backward_bf16_program(
            q_len, n, n, do_len, dq_len, n, n, batch, num_heads, s_kv, d, scale, causal,
        )
    } else {
        flash_attn_backward_bf16_gqa_program(
            q_len, n, n, do_len, dq_len, n, n, batch, num_heads, num_kv_heads, s_kv, d, scale,
            causal,
        )
    }
}

fn differentiate_gathered(
    q_len: usize,
    do_len: usize,
    dq_len: usize,
    n: usize,
    batch: u32,
    num_heads: u32,
    num_kv_heads: u32,
    s_kv: u32,
    d: u32,
    scale: F32,
    causal: bool,
) -> (r: Program)
    requires
        gathered_gradients(
            q_len as int, do_len as int, dq_len as int, n as int, batch as int, num_heads as int,
            num_kv_heads as int, s_kv as int, d as int, scale, causal,
        ).end !is Undefined,
    ensures
        r@ == gathered_gradients(
            q_len as int, do_len as int, dq_len as int, n as int, batch as int, num_heads as int,
            num_kv_heads as int, s_kv as int, d as int, scale, causal,
        ),
{
    if num_heads == num_kv_heads {
        flash_attn_backward_bf16(
            q_len, n, n, do_len, dq_len, n, n, batch, num_heads, s_kv, d, scale, causal,
        )
    } else {
        flash_attn_backward_bf16_gqa(
            q_len, n, n, do_len, dq_len, n, n, batch, num_heads, num_kv_heads, s_kv, d, scale,
            causal,
        )
    }
}

/// Where the gradients over gathered pages find their tensors: the keys and values in scratch
/// buffers 0 and 1, their gradients in 2 and 3.
pub open spec fn flat_binding() -> BindingView {
    BindingView {
        places: seq![
            Place::of_param(0), Place::of_scratch(0), Place::of_scratch(1), Place::of_param(3),
            Place::of_param(4), Place::of_scratch(2), Place::of_scratch(3),
        ],
        base: 4,
    }
}

/// As [`flat_binding`], with the queries, their output gradient and their gradient filled up to
/// whole pages in scratch buffers 4, 5 and 6.
pub open spec fn padded_binding() -> BindingView {
    BindingView {
        places: seq![
            Place::of_scratch(4), Place::of_scratch(0), Place::of_scratch(1), Place::of_scratch(5),
            Place::of_scratch(6), Place::of_scratch(2), Place::of_scratch(3),
        ],
        base: 7,
    }
}

/// The scratch memory for gathered pages, with the pages gathered.
pub open spec fn gathered_pages(
    k_paged_len: int, v_paged_len: int, page_table_len: int, n: int, batch: int, num_kv_heads: int,
    d: int, page_size: int, max_pages: int, s_kv: int,
) -> ProgramView {
    ProgramView::empty().step(scratch(0, n, "alloc k_flat: "@)).step(
        scratch(1, n, "alloc v_flat: "@),
    ).step(scratch(2, n, "alloc dk_flat: "@)).step(
        scratch(3, n, "alloc dv_flat: "@),
    ).then_launch(
        reorder::paged_kv_gather_bf16_plan(
            k_paged_len, n, page_table_len, batch, num_kv_heads, d, page_size, max_pages, s_kv,
        ),
        seq![Place::of_param(1), Place::of_scratch(0), Place::of_param(7)],
    ).then_launch(
        reorder::paged_kv_gather_bf16_plan(
            v_paged_len, n, page_table_len, batch, num_kv_heads, d, page_size, max_pages, s_kv,
        ),
        seq![Place::of_param(2), Place::of_scratch(1), Place::of_param(7)],
    )
}

/// Zeroed scratch memory for `padded` elements of the queries, their output gradient and their
/// gradient, with the `seq` rows of each head of the first two copied in.
pub open spec fn padded_queries(
    p: ProgramView, padded: int, heads: int, seq: int, s_kv: int, d: int,
) -> ProgramView {
    let room = p.step(scratch(4, padded, "alloc q_pad: "@)).step(
        scratch(5, padded, "alloc do_pad: "@),
    ).step(scratch(6, padded, "alloc dq_pad: "@));
    copy_heads(
        copy_heads(room, heads, Slot::Param(0), seq, Slot::Scratch(4), s_kv, seq, d), heads,
        Slot::Param(3), seq, Slot::Scratch(5), s_kv, seq, d,
    )
}

/// The gradients over gathered pages, after the program `p`. Queries that do not fill the last
/// page are filled up with zeros, and the rows of their gradient that were asked for are brought
/// back.
pub open spec fn paged_gradients(
    p: ProgramView, q_len: int, do_len: int, dq_len: int, n: int, batch: int, num_heads: int,
    num_kv_heads: int, seq: int, s_kv: int, d: int, scale: F32, causal: bool,
) -> ProgramView {
    let heads = batch * num_heads;
    let need = heads * seq * d;
    let padded = heads * s_kv * d;
    if seq == s_kv {
        p.then_run(
            gathered_gradients(
                q_len, do_len, dq_len, n, batch, num_heads, num_kv_heads, s_kv, d, scale, causal,
            ),
            flat_binding(),
        )
    } else if q_len < need || do_len < need || dq_len < need {
        p.then_launch(
            Plan::invalid("buffers too small: need "@ + text::decimal(need) + " BF16 elements"@),
            seq![],
        )
    } else {
        copy_heads(
            padded_queries(p, padded, heads, seq, s_kv, d).then_run(
                gathered_gradients(
                    padded, padded, padded, n, batch, num_heads, num_kv_heads, s_kv, d, scale,
                    causal,
                ),
                padded_binding(),
            ), heads, Slot::Scratch(6), s_kv, Slot::Param(4), seq, seq, d,
        )
    }
}

/// The answer of [`flash_attn_backward_bf16_paged`].
pub open spec fn flash_attn_backward_bf16_paged_program(
    q_len: int, k_paged_len: int, v_paged_len: int, do_len: int, dq_len: int, dk_paged_len: int,
    dv_paged_len: int, page_table_len: int, batch: int, num_heads: int, num_kv_heads: int,
    seq_q: int, seq_kv: int, d: int, page_size: int, max_pages: int, scale: F32, causal: bool,
) -> ProgramView {
    let s_kv = shape::ceil_div(seq_kv, page_size) * page_size;
    let n = batch * num_kv_heads * s_kv * d;
    if !shape::divides(num_kv_heads, num_heads) {
        ProgramView::invalid("num_heads must be divisible by num_kv_heads"@)
    } else if seq_q != seq_kv {
        ProgramView::invalid("paged backward requires seq_q == seq_kv (training case)"@)
    } else if page_size == 0 || s_kv > u32::MAX || batch * num_kv_heads > u32::MAX
        || batch * num_kv_heads * s_kv > u32::MAX || n > u32::MAX
    {
        ProgramView::undefined()
    } else if seq_q != s_kv && (batch * num_heads > u32::MAX || batch * num_heads * s_kv > u32::MAX
        || batch * num_heads * s_kv * d > u32::MAX)
    {
        ProgramView::undefined()
    } else {
        paged_gradients(
            gathered_pages(
                k_paged_len, v_paged_len, page_table_len, n, batch, num_kv_heads, d, page_size,
                max_pages, s_kv,
            ), q_len, do_len, dq_len, n, batch, num_heads, num_kv_heads, seq_q, s_kv, d, scale,
            causal,
        ).then_launch(
            reorder::paged_kv_scatter_bf16_plan(
                n, dk_paged_len, page_table_len, batch, num_kv_heads, d, page_size, max_pages, s_kv,
            ),
            seq![Place::of_scratch(2), Place::of_param(5), Place::of_param(7)],
        ).then_launch(
            reorder::paged_kv_scatter_bf16_plan(
                n, dv_paged_len, page_table_len, batch, num_kv_heads, d, page_size, max_pages, s_kv,
            ),
            seq![Place::of_scratch(3), Place::of_param(6), Place::of_param(7)],
        )
    }
}

/// A program that has ended takes up no gradients.
pub proof fn lemma_paged_gradients_after_end(
    p: ProgramView, q_len: int, do_len: int, dq_len: int, n: int, batch: int, num_heads: int,
    num_kv_heads: int, seq: int, s_kv: int, d: int, scale: F32, causal: bool,
)
    requires
        p.end !is Done,
    ensures
        paged_gradients(
            p, q_len, do_len, dq_len, n, batch, num_heads, num_kv_heads, seq, s_kv, d, scale,
            causal,
        ) == p,
{
    let heads = batch * num_heads;
    lemma_copies_keep_the_end(p, heads, Slot::Param(0), seq, Slot::Scratch(4), s_kv, seq, d);
    lemma_copies_keep_the_end(p, heads, Slot::Param(3), seq, Slot::Scratch(5), s_kv, seq, d);
    lemma_copies_keep_the_end(p, heads, Slot::Scratch(6), s_kv, Slot::Param(4), seq, seq, d);
}

fn push_paged_gradients(
    p: &mut Program,
    q_len: usize,
    do_len: usize,
    dq_len: usize,
    n: usize,
    batch: u32,
    num_heads: u32,
    num_kv_heads: u32,
    seq: u32,
    s_kv: u32,
    d: u32,
    scale: F32,
    causal: bool,
)
    requires
        old(p)@.end is Done,
        seq <= s_kv,
        seq != s_kv ==> batch * num_heads <= u32::MAX && batch * num_heads * s_kv <= u32::MAX
            && batch * num_heads * s_kv * d <= u32::MAX,
        paged_gradients(
            old(p)@, q_len as int, do_len as int, dq_len as int, n as int, batch as int,
            num_heads as int, num_kv_heads as int, seq as int, s_kv as int, d as int, scale, causal,
        ).end !is Undefined,
    ensures
        final(p)@ == paged_gradients(
            old(p)@, q_len as int, do_len as int, dq_len as int, n as int, batch as int,
            num_heads as int, num_kv_heads as int, seq as int, s_kv as int, d as int, scale, causal,
        ),
{
    if seq == s_kv {
        let inner = differentiate_gathered(
            q_len, do_len, dq_len, n, batch, num_heads, num_kv_heads, s_kv, d, scale, causal,
        );
        p.run(
            inner,
            Binding {
                places: vec![
                    Place::param(0), Place::scratch(0), Place::scratch(1), Place::param(3),
                    Place::param(4), Place::scratch(2), Place::scratch(3),
                ],
                base: 4,
            },
        );
        return;
    }
    let heads: u32 = batch * num_heads;
    let padded: u32 = heads * s_kv * d;
    assert(heads * seq <= heads * s_kv && heads * seq * d <= heads * s_kv * d && seq * d <= s_kv
        * d && (heads > 0 ==> s_kv * d <= heads * s_kv * d)) by (nonlinear_arith)
        requires
            seq <= s_kv,
            heads >= 0,
            d >= 0,
    ;
    let need: u32 = heads * seq * d;
    if (q_len as u64) < need as u64 || (do_len as u64) < need as u64 || (dq_len as u64)
        < need as u64
    {
        let refusal = Text::new("buffers too small: need ").n(need as u64).s(" BF16 elements")
            .refuse();
        p.launch(refusal, Vec::new());
        return;
    }
    p.push(alloc_scratch(4, padded, "alloc q_pad: "));
    p.push(alloc_scratch(5, padded, "alloc do_pad: "));
    p.push(alloc_scratch(6, padded, "alloc dq_pad: "));
    push_copies(p, heads, Slot::Param(0), seq, Slot::Scratch(4), s_kv, seq, d);
    push_copies(p, heads, Slot::Param(3), seq, Slot::Scratch(5), s_kv, seq, d);
    let len: usize = padded as usize;
    proof {
        lemma_copies_keep_the_end(
            p@.then_run(
                gathered_gradients(
                    len as int, len as int, len as int, n as int, batch as int, num_heads as int,
                    num_kv_heads as int, s_kv as int, d as int, scale, causal,
                ),
                padded_binding(),
            ),
            heads as int,
            Slot::Scratch(6),
            s_kv as int,
            Slot::Param(4),
            seq as int,
            seq as int,
            d as int,
        );
    }
    let inner = differentiate_gathered(
        len, len, len, n, batch, num_heads, num_kv_heads, s_kv, d, scale, causal,
    );
    p.run(
        inner,
        Binding {
            places: vec![
                Place::scratch(4), Place::scratch(0), Place::scratch(1), Place::scratch(5),
                Place::scratch(6), Place::scratch(2), Place::scratch(3),
            ],
            base: 7,
        },
    );
    if p.end.is_err() {
        return;
    }
    push_copies(p, heads, Slot::Scratch(6), s_kv, Slot::Param(4), seq, seq, d);
}

/// Flash Attention backward (BF16) against a paged KV cache: gathers the pages into contiguous
/// buffers, runs the backward pass over whole pages, and scatters the gradients back.
///
/// The queries, their output gradient and their gradient are `[B, H_q, Sq, D]`. A sequence need
/// not fill its last page: the queries are then filled up with zeros, which give the keys and
/// values no gradient. The keys and values of the whole last page are read, and the gradients of
/// the whole page are written.
pub fn flash_attn_backward_bf16_paged(
    q_len: usize,
    k_paged_len: usize,
    v_paged_len: usize,
    do_len: usize,
    dq_len: usize,
    dk_paged_len: usize,
    dv_paged_len: usize,
    page_table_len: usize,
    batch: u32,
    num_heads: u32,
    num_kv_heads: u32,
    seq_q: u32,
    seq_kv: u32,
    d: u32,
    page_size: u32,
    max_pages: u32,
    scale: F32,
    causal: bool,
) -> (r: Program)
    requires
        flash_attn_backward_bf16_paged_program(
            q_len as int, k_paged_len as int, v_paged_len as int, do_len as int, dq_len as int,
            dk_paged_len as int, dv_paged_len as int, page_table_len as int, batch as int,
            num_heads as int, num_kv_heads as int, seq_q as int, seq_kv as int, d as int,
            page_size as int, max_pages as int, scale, causal,
        ).end !is Undefined,
    ensures
        r@ == flash_attn_backward_bf16_paged_program(
            q_len as int, k_paged_len as int, v_paged_len as int, do_len as int, dq_len as int,
            dk_paged_len as int, dv_paged_len as int, page_table_len as int, batch as int,
            num_heads as int, num_kv_heads as int, seq_q as int, seq_kv as int, d as int,
            page_size as int, max_pages as int, scale, causal,
        ),
{
    if !num_heads.is_multiple_of(num_kv_heads) {
        return Program::refused(Text::new("num_heads must be divisible by num_kv_heads"));
    }
    if seq_q != seq_kv {
        return Program::refused(
            Text::new("paged backward requires seq_q == seq_kv (training case)"),
        );
    }
    let pages_per_seq: u32 = shape::div_ceil(seq_kv, page_size);
    let s_kv: u32 = pages_per_seq * page_size;
    let gather_n: u32 = batch * num_kv_heads * s_kv * d;
    let n: usize = gather_n as usize;
    proof {
        let gathered = gathered_pages(
            k_paged_len as int, v_paged_len as int, page_table_len as int, n as int, batch as int,
            num_kv_heads as int, d as int, page_size as int, max_pages as int, s_kv as int,
        );
        if gathered.end !is Done {
            lemma_paged_gradients_after_end(
                gathered, q_len as int, do_len as int, dq_len as int, n as int, batch as int,
                num_heads as int, num_kv_heads as int, seq_q as int, s_kv as int, d as int, scale,
                causal,
            );
        }
    }
    let mut p = Program::new();
    p.push(alloc_scratch(0, gather_n, "alloc k_flat: "));
    p.push(alloc_scratch(1, gather_n, "alloc v_flat: "));
    p.push(alloc_scratch(2, gather_n, "alloc dk_flat: "));
    p.push(alloc_scratch(3, gather_n, "alloc dv_flat: "));
    p.launch(
        reorder::paged_kv_gather_bf16(
            k_paged_len, n, page_table_len, batch, num_kv_heads, d, page_size, max_pages, s_kv,
        ),
        vec![Place::param(1), Place::scratch(0), Place::param(7)],
    );
    p.launch(
        reorder::paged_kv_gather_bf16(
            v_paged_len, n, page_table_len, batch, num_kv_heads, d, page_size, max_pages, s_kv,
        ),
        vec![Place::param(2), Place::scratch(1), Place::param(7)],
    );
    proof {
        shape::lemma_ceil_div(seq_kv as int, page_size as int);
    }
    push_paged_gradients(
        &mut p, q_len, do_len, dq_len, n, batch, num_heads, num_kv_heads, seq_q, s_kv, d, scale,
        causal,
    );
    if p.end.is_err() {
        return p;
    }
    p.launch(
        reorder::paged_kv_scatter_bf16(
            n, dk_paged_len, page_table_len, batch, num_kv_heads, d, page_size, max_pages, s_kv,
        ),
        vec![Place::scratch(2), Place::param(5), Place::param(7)],
    );
    p.launch(
        reorder::paged_kv_scatter_bf16(
            n, dv_paged_len, page_table_len, batch, num_kv_heads, d, page_size, max_pages, s_kv,
        ),
        vec![Place::scratch(3), Place::param(6), Place::param(7)],
    );
    p
}

/// Whether no sequence boundary lies before the one that precedes it.
pub open spec fn nondecreasing(cu: Seq<u32>) -> bool {
    forall|i: int| 0 <= i < cu.len() - 1 ==> cu[i] <= #[trigger] cu[i + 1]
}

/// The length of the longest of the first `n` sequences.
pub open spec fn longest(cu: Seq<u32>, n: int) -> int
    decreases n,
{
    if n <= 0 {
        0
    } else {
        shape::greater(longest(cu, n - 1), cu[n] - cu[n - 1])
    }
}

/// Where the gradients of one sequence find their tensors: head-major copies in the scratch
/// buffers 0 to 6.
pub open spec fn sequence_binding() -> BindingView {
    BindingView {
        places: seq![
            Place::of_scratch(0), Place::of_scratch(1), Place::of_scratch(2), Place::of_scratch(3),
            Place::of_scratch(4), Place::of_scratch(5), Place::of_scratch(6),
        ],
        base: 7,
    }
}

/// The gradients of sequence number `j`, after the program `p`: its tokens are brought into
/// head-major order, differentiated, and the gradients brought back. `n` is the size of each
/// scratch buffer.
pub open spec fn backward_sequence(
    p: ProgramView, cu: Seq<u32>, j: int, n: int, num_heads: int, d: int, scale: F32, causal: bool,
) -> ProgramView {
    let s = cu[j + 1] - cu[j];
    let hd = num_heads * d;
    let at = cu[j] * hd;
    let gather = reorder::permute_thd_to_htd_bf16_view_plan(s * hd, n, s, num_heads, d);
    let scatter = reorder::permute_htd_to_thd_bf16_view_plan(n, s * hd, s, num_heads, d);
    if s == 0 {
        p
    } else {
        p.then_launch(gather, seq![Place::param_at(0, at), Place::of_scratch(0)]).then_launch(
            gather,
            seq![Place::param_at(1, at), Place::of_scratch(1)],
        ).then_launch(gather, seq![Place::param_at(2, at), Place::of_scratch(2)]).then_launch(
            gather,
            seq![Place::param_at(3, at), Place::of_scratch(3)],
        ).then_run(
            flash_attn_backward_bf16_program(
                n, n, n, n, n, n, n, 1, num_heads, s, d, scale, causal,
            ),
            sequence_binding(),
        ).then_launch(scatter, seq![Place::of_scratch(4), Place::param_at(4, at)]).then_launch(
            scatter,
            seq![Place::of_scratch(5), Place::param_at(5, at)],
        ).then_launch(scatter, seq![Place::of_scratch(6), Place::param_at(6, at)])
    }
}

/// The gradients of the first `j` sequences, after the program `p`.
pub open spec fn backward_sequences(
    p: ProgramView, cu: Seq<u32>, j: int, n: int, num_heads: int, d: int, scale: F32, causal: bool,
) -> ProgramView
    decreases j,
{
    if j <= 0 {
        p
    } else {
        backward_sequence(
            backward_sequences(p, cu, j - 1, n, num_heads, d, scale, causal), cu, j - 1, n,
            num_heads, d, scale, causal,
        )
    }
}

/// The scratch memory for head-major copies of one sequence.
pub open spec fn varlen_prologue(n: int) -> ProgramView {
    ProgramView::empty().step(scratch(0, n, "alloc q_htd: "@)).step(
        scratch(1, n, "alloc k_htd: "@),
    ).step(scratch(2, n, "alloc v_htd: "@)).step(scratch(3, n, "alloc do_htd: "@)).step(
        scratch(4, n, "alloc dq_htd: "@),
    ).step(scratch(5, n, "alloc dk_htd: "@)).step(scratch(6, n, "alloc dv_htd: "@))
}

/// The complaint about a buffer of `len` elements where `need` are needed.
pub open spec fn too_small(name: Seq<char>, len: int, need: int) -> ProgramView {
    ProgramView::invalid(
        name + " too small: "@ + text::decimal(len) + " < "@ + text::decimal(need),
    )
}

/// The answer of [`flash_attn_backward_bf16_varlen`].
pub open spec fn flash_attn_backward_bf16_varlen_program(
    q_len: int, k_len: int, v_len: int, do_len: int, dq_len: int, dk_len: int, dv_len: int,
    cu: Seq<u32>, num_heads: int, d: int, scale: F32, causal: bool,
) -> ProgramView {
    let total = cu.last() as int;
    let need = total * num_heads * d;
    let sequences = cu.len() - 1;
    let max_s = longest(cu, sequences);
    let n = num_heads * max_s * d;
    if cu.len() < 2 {
        ProgramView::invalid("cu_seqlens must have at least 2 entries (batch >= 1)"@)
    } else if cu[0] != 0 {
        ProgramView::invalid("cu_seqlens[0] must be 0"@)
    } else if total * num_heads > u32::MAX || need > u32::MAX {
        ProgramView::undefined()
    } else if q_len < need {
        too_small("q"@, q_len, need)
    } else if k_len < need {
        too_small("k"@, k_len, need)
    } else if v_len < need {
        too_small("v"@, v_len, need)
    } else if do_len < need {
        too_small("do_"@, do_len, need)
    } else if dq_len < need {
        too_small("dq"@, dq_len, need)
    } else if dk_len < need {
        too_small("dk"@, dk_len, need)
    } else if dv_len < need {
        too_small("dv"@, dv_len, need)
    } else if !nondecreasing(cu) || num_heads * max_s > u32::MAX || n > u32::MAX
        || num_heads * d > u32::MAX
    {
        ProgramView::undefined()
    } else {
        backward_sequences(varlen_prologue(n), cu, sequences, n, num_heads, d, scale, causal)
    }
}

/// A program that has ended takes up no further sequence.
proof fn lemma_sequences_after_end(
    p: ProgramView, cu: Seq<u32>, i: int, j: int, n: int, num_heads: int, d: int, scale: F32,
    causal: bool,
)
    requires
        0 <= i <= j,
        backward_sequences(p, cu, i, n, num_heads, d, scale, causal).end !is Done,
    ensures
        backward_sequences(p, cu, j, n, num_heads, d, scale, causal) == backward_sequences(
            p, cu, i, n, num_heads, d, scale, causal,
        ),
    decreases j - i,
{
    if i < j {
        lemma_sequences_after_end(p, cu, i, j - 1, n, num_heads, d, scale, causal);
    }
}

fn refuse_small(name: &str, len: usize, need: u64) -> (r: Program)
    ensures
        r@ == too_small(name@, len as int, need as int),
{
    Program::refused(Text::new(name).s(" too small: ").n(len as u64).s(" < ").n(need))
}

fn varlen_scratch(n: u32) -> (p: Program)
    ensures
        p@ == varlen_prologue(n as int),
        p@.end is Done,
{
    let mut p = Program::new();
    p.push(alloc_scratch(0, n, "alloc q_htd: "));
    p.push(alloc_scratch(1, n, "alloc k_htd: "));
    p.push(alloc_scratch(2, n, "alloc v_htd: "));
    p.push(alloc_scratch(3, n, "alloc do_htd: "));
    p.push(alloc_scratch(4, n, "alloc dq_htd: "));
    p.push(alloc_scratch(5, n, "alloc dk_htd: "));
    p.push(alloc_scratch(6, n, "alloc dv_htd: "));
    p
}

fn longest_sequence(cu_seqlens: &[u32]) -> (r: u32)
    requires
        cu_seqlens@.len() >= 2,
        nondecreasing(cu_seqlens@),
    ensures
        r == longest(cu_seqlens@, cu_seqlens@.len() - 1),
{
    let mut max_s: u32 = 0;
    let mut i: usize = 0;
    while i < cu_seqlens.len() - 1
        invariant
            cu_seqlens@.len() >= 2,
            i <= cu_seqlens@.len() - 1,
            nondecreasing(cu_seqlens@),
            max_s == longest(cu_seqlens@, i as int),
        decreases cu_seqlens@.len() - i,
    {
        assert(cu_seqlens@[i as int] <= cu_seqlens@[i + 1]);
        max_s = shape::greater_of(max_s, cu_seqlens[i + 1] - cu_seqlens[i]);
        i = i + 1;
    }
    max_s
}

fn push_sequence(
    p: &mut Program,
    cu_seqlens: &[u32],
    j: usize,
    n: u32,
    num_heads: u32,
    d: u32,
    scale: F32,
    causal: bool,
)
    requires
        old(p)@.end is Done,
        j + 1 < cu_seqlens@.len(),
        nondecreasing(cu_seqlens@),
        num_heads * d <= u32::MAX,
        backward_sequence(
            old(p)@, cu_seqlens@, j as int, n as int, num_heads as int, d as int, scale, causal,
        ).end !is Undefined,
    ensures
        final(p)@ == backward_sequence(
            old(p)@, cu_seqlens@, j as int, n as int, num_heads as int, d as int, scale, causal,
        ),
{
    assert(cu_seqlens@[j as int] <= cu_seqlens@[j + 1]);
    let start: u32 = cu_seqlens[j];
    let s: u32 = cu_seqlens[j + 1] - start;
    if s == 0 {
        return;
    }
    let hd: u32 = num_heads * d;
    let at: u64 = shape::product(start, hd);
    let len: usize = shape::product(s, hd) as usize;
    let copy: usize = n as usize;
    p.launch(
        reorder::permute_thd_to_htd_bf16_view(len, copy, s, num_heads, d),
        vec![Place::within(0, at), Place::scratch(0)],
    );
    p.launch(
        reorder::permute_thd_to_htd_bf16_view(len, copy, s, num_heads, d),
        vec![Place::within(1, at), Place::scratch(1)],
    );
    p.launch(
        reorder::permute_thd_to_htd_bf16_view(len, copy, s, num_heads, d),
        vec![Place::within(2, at), Place::scratch(2)],
    );
    p.launch(
        reorder::permute_thd_to_htd_bf16_view(len, copy, s, num_heads, d),
        vec![Place::within(3, at), Place::scratch(3)],
    );
    let inner = flash_attn_backward_bf16(
        copy, copy, copy, copy, copy, copy, copy, 1, num_heads, s, d, scale, causal,
    );
    p.run(
        inner,
        Binding {
            places: vec![
                Place::scratch(0), Place::scratch(1), Place::scratch(2), Place::scratch(3),
                Place::scratch(4), Place::scratch(5), Place::scratch(6),
            ],
            base: 7,
        },
    );
    if p.end.is_err() {
        return;
    }
    p.launch(
        reorder::permute_htd_to_thd_bf16_view(copy, len, s, num_heads, d),
        vec![Place::scratch(4), Place::within(4, at)],
    );
    p.launch(
        reorder::permute_htd_to_thd_bf16_view(copy, len, s, num_heads, d),
        vec![Place::scratch(5), Place::within(5, at)],
    );
    p.launch(
        reorder::permute_htd_to_thd_bf16_view(copy, len, s, num_heads, d),
        vec![Place::scratch(6), Place::within(6, at)],
    );
}

/// Flash Attention backward (BF16) over sequences of different lengths packed into one token
/// axis. `cu_seqlens` holds the cumulative lengths, one more than there are sequences; empty
/// sequences are skipped.
pub fn flash_attn_backward_bf16_varlen(
    q_len: usize,
    k_len: usize,
    v_len: usize,
    do_len: usize,
    dq_len: usize,
    dk_len: usize,
    dv_len: usize,
    cu_seqlens: &[u32],
    num_heads: u32,
    d: u32,
    scale: F32,
    causal: bool,
) -> (r: Program)
    requires
        flash_attn_backward_bf16_varlen_program(
            q_len as int, k_len as int, v_len as int, do_len as int, dq_len as int, dk_len as int,
            dv_len as int, cu_seqlens@, num_heads as int, d as int, scale, causal,
        ).end !is Undefined,
    ensures
        r@ == flash_attn_backward_bf16_varlen_program(
            q_len as int, k_len as int, v_len as int, do_len as int, dq_len as int, dk_len as int,
            dv_len as int, cu_seqlens@, num_heads as int, d as int, scale, causal,
        ),
{
    if cu_seqlens.len() < 2 {
        return Program::refused(
            Text::new("cu_seqlens must have at least 2 entries (batch >= 1)"),
        );
    }
    if cu_seqlens[0] != 0 {
        return Program::refused(Text::new("cu_seqlens[0] must be 0"));
    }
    let total: u32 = cu_seqlens[cu_seqlens.len() - 1];
    let need: u64 = (total * num_heads * d) as u64;
    if (q_len as u64) < need {
        return refuse_small("q", q_len, need);
    }
    if (k_len as u64) < need {
        return refuse_small("k", k_len, need);
    }
    if (v_len as u64) < need {
        return refuse_small("v", v_len, need);
    }
    if (do_len as u64) < need {
        return refuse_small("do_", do_len, need);
    }
    if (dq_len as u64) < need {
        return refuse_small("dq", dq_len, need);
    }
    if (dk_len as u64) < need {
        return refuse_small("dk", dk_len, need);
    }
    if (dv_len as u64) < need {
        return refuse_small("dv", dv_len, need);
    }
    let max_s: u32 = longest_sequence(cu_seqlens);
    let n: u32 = num_heads * max_s * d;
    let mut p = varlen_scratch(n);
    let sequences: usize = cu_seqlens.len() - 1;
    let ghost start = p@;
    let ghost all = backward_sequences(
        start, cu_seqlens@, sequences as int, n as int, num_heads as int, d as int, scale, causal,
    );
    let mut j: usize = 0;
    while j < sequences
        invariant
            j <= sequences,
            sequences == cu_seqlens@.len() - 1,
            nondecreasing(cu_seqlens@),
            num_heads * d <= u32::MAX,
            p@ == backward_sequences(
                start, cu_seqlens@, j as int, n as int, num_heads as int, d as int, scale, causal,
            ),
            p@.end is Done,
            all == backward_sequences(
                start, cu_seqlens@, sequences as int, n as int, num_heads as int, d as int, scale,
                causal,
            ),
            all.end !is Undefined,
            all == flash_attn_backward_bf16_varlen_program(
                q_len as int, k_len as int, v_len as int, do_len as int, dq_len as int,
                dk_len as int, dv_len as int, cu_seqlens@, num_heads as int, d as int, scale,
                causal,
            ),
        decreases sequences - j,
    {
        proof {
            if backward_sequences(
                start, cu_seqlens@, j + 1, n as int, num_heads as int, d as int, scale, causal,
            ).end !is Done {
                lemma_sequences_after_end(
                    start, cu_seqlens@, j + 1, sequences as int, n as int, num_heads as int,
                    d as int, scale, causal,
                );
            }
        }
        push_sequence(&mut p, cu_seqlens, j, n, num_heads, d, scale, causal);
        if p.end.is_err() {
            return p;
        }
        j = j + 1;
    }
    p
}

} // verus!
