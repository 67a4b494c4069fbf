//! The kernels that the gradients of attention load before they launch them.
use crate::attention::backward;
use crate::attention::backward_laws;
use crate::attention::backward_meaning;
use crate::plan::{F32, Plan};
use crate::program::StepView;
use vstd::prelude::*;

verus! {

/// Whether a step loads the kernel that a launch is of.
pub open spec fn loads(s: StepView, p: Plan) -> bool {
    s matches StepView::Load { kernel, entry } && p matches Plan::Launch(l) && l.kernel == kernel
        && l.entry == entry
}

/// Whether a step loads the kernel that another one launches.
pub open spec fn loads_for(s: StepView, t: StepView) -> bool {
    s matches StepView::Load { kernel, entry } && t matches StepView::Launch(l) && l.kernel
        == kernel && l.entry == entry
}

/// Backward loads the three kernels that it works on every head with before anything else: the one
/// that recomputes the weights, the one of the gradient of the scores, and the one that scales.
pub proof fn flash_attn_backward_bf16_loads_its_kernels(
    q_len: int, k_len: int, v_len: int, do_len: int, dq_len: int, dk_len: int, dv_len: int,
    batch: int, num_heads: int, seq: int, d: int, scale: F32, causal: bool,
)
    requires
        batch >= 0,
        num_heads >= 0,
        seq >= 0,
        d >= 0,
    ensures
        ({
            let p = backward::flash_attn_backward_bf16_program(
                q_len, k_len, v_len, do_len, dq_len, dk_len, dv_len, batch, num_heads, seq, d,
                scale, causal,
            );
            p.end is Done ==> {
                &&& p.steps.len() >= 3
                &&& loads(p.steps[0], backward::recompute_plan(seq, d, scale, causal))
                &&& loads(p.steps[1], backward::score_gradient_plan(seq))
                &&& loads(p.steps[2], backward::scale_plan(seq * d, scale))
            }
        }),
{
    let p = backward::backward_prologue(seq, causal);
    if batch > 0 && num_heads > 0 && seq > 0 && d > 0 {
        let heads = batch * num_heads;
        assert(heads > 0) by (nonlinear_arith)
            requires
                batch > 0,
                num_heads > 0,
                heads == batch * num_heads,
        ;
        backward_laws::lemma_heads_are_done(p, heads, seq, d, scale, causal);
        backward_meaning::lemma_heads_begin(p, heads, seq, d, scale, causal);
        let steps = backward::backward_heads(p, heads, seq, d, scale, causal).steps;
        assert(p.steps.len() == 6);
        assert(steps[0] == steps.take(6)[0]);
        assert(steps[1] == steps.take(6)[1]);
        assert(steps[2] == steps.take(6)[2]);
    }
}

/// Backward with grouped heads loads the kernel that repeats heads just before it repeats them, and
/// the one that sums heads just before it sums them.
pub proof fn flash_attn_backward_bf16_gqa_loads_its_kernels(
    q_len: int, k_len: int, v_len: int, do_len: int, dq_len: int, dk_len: int, dv_len: int,
    batch: int, heads: int, kv: int, seq: int, d: int, scale: F32, causal: bool,
)
    ensures
        ({
            let p = backward::flash_attn_backward_bf16_gqa_program(
                q_len, k_len, v_len, do_len, dq_len, dk_len, dv_len, batch, heads, kv, seq, d,
                scale, causal,
            );
            let n = p.steps.len() as int;
            p.end is Done ==> {
                &&& n >= 10
                &&& loads_for(p.steps[4], p.steps[5]) && loads_for(p.steps[4], p.steps[6])
                &&& loads_for(p.steps[n - 3], p.steps[n - 2]) && loads_for(
                    p.steps[n - 3],
                    p.steps[n - 1],
                )
            }
        }),
{
}

} // verus!
