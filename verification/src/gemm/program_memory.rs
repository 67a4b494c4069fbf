//! The memory that matrix products of several steps use: each program names only the buffers of
//! the caller and scratch memory that it has allocated before.
use crate::activation;
use crate::gemm::backward;
use crate::gemm::dense;
use crate::gemm::gemv;
use crate::gemm::gradient;
use crate::gemm::managed;
use crate::memory;
use crate::plan::{F32, Place, Plan, Slot};
use crate::program::{Elem, BindingView, End, ProgramView, StepView};
use vstd::prelude::*;

verus! {

proof fn lemma_scratch(len: int, failure: Seq<char>)
    ensures
        ProgramView::empty().step(backward::scratch(len, failure)).closed(3),
        ProgramView::empty().step(backward::scratch(len, failure)).provides(1),
        ProgramView::empty().step(backward::scratch(len, failure)).numbered_below(1),
{
    let s = backward::scratch(len, failure);
    memory::nothing_is_closed(3, End::Done);
    memory::step_keeps_closed(ProgramView::empty(), s, 3);
    assert(s.grants(0));
    assert(ProgramView::empty().numbered_below(1));
}

/// The gradient by the left factor uses its three buffers and one scratch buffer of its own.
#[allow(non_snake_case)]
pub proof fn gemm_bf16_backward_dA_mma_is_closed(
    dc_len: int, b_len: int, da_len: int, m: int, n: int, k: int,
)
    ensures
        backward::gemm_bf16_backward_dA_mma_program(dc_len, b_len, da_len, m, n, k).closed(3),
        backward::gemm_bf16_backward_dA_mma_program(dc_len, b_len, da_len, m, n, k).numbered_below(
            1,
        ),
{
    memory::single_is_closed(
        gradient::gemm_bf16_backward_dA_plan(dc_len, b_len, da_len, m, n, k),
        3,
    );
    memory::nothing_is_closed(3, End::Undefined);
    lemma_scratch(k * n, "alloc Bt scratch: "@);
    let p = ProgramView::empty().step(backward::scratch(k * n, "alloc Bt scratch: "@));
    assert(memory::granted(p.steps, 0));
    let transpose = dense::transpose_bf16_plan(b_len, k * n, k, n);
    let product = dense::gemm_bf16_mma_plan(dc_len, k * n, da_len, m, k, n);
    let places = seq![Place::of_param(1), Place::of_scratch(0)];
    memory::launch_keeps_closed(p, transpose, places, 3);
    let p = p.then_launch(transpose, places);
    let places = seq![Place::of_param(0), Place::of_scratch(0), Place::of_param(2)];
    memory::launch_keeps_closed(p, product, places, 3);
    assert(ProgramView::undefined().numbered_below(1));
}

/// The gradient by the right factor uses its three buffers and one scratch buffer of its own.
#[allow(non_snake_case)]
pub proof fn gemm_bf16_backward_dB_mma_is_closed(
    a_len: int, dc_len: int, db_len: int, m: int, n: int, k: int,
)
    ensures
        backward::gemm_bf16_backward_dB_mma_program(a_len, dc_len, db_len, m, n, k).closed(3),
        backward::gemm_bf16_backward_dB_mma_program(a_len, dc_len, db_len, m, n, k).numbered_below(
            1,
        ),
{
    memory::single_is_closed(
        gradient::gemm_bf16_backward_dB_plan(a_len, dc_len, db_len, m, n, k),
        3,
    );
    memory::nothing_is_closed(3, End::Undefined);
    lemma_scratch(m * k, "alloc At scratch: "@);
    let p = ProgramView::empty().step(backward::scratch(m * k, "alloc At scratch: "@));
    assert(memory::granted(p.steps, 0));
    let transpose = dense::transpose_bf16_plan(a_len, m * k, m, k);
    let product = dense::gemm_bf16_mma_plan(m * k, dc_len, db_len, k, n, m);
    let places = seq![Place::of_param(0), Place::of_scratch(0)];
    memory::launch_keeps_closed(p, transpose, places, 3);
    let p = p.then_launch(transpose, places);
    let places = seq![Place::of_scratch(0), Place::of_param(1), Place::of_param(2)];
    memory::launch_keeps_closed(p, product, places, 3);
    assert(ProgramView::undefined().numbered_below(1));
}

/// The gradient through quantized weights uses its three buffers and two scratch buffers of its
/// own.
#[allow(non_snake_case)]
pub proof fn gemm_fp8_w8a16_backward_dA_is_closed(
    dc_len: int, b_fp8_len: int, b_scale: F32, da_len: int, m: int, n: int, k: int,
)
    ensures
        backward::gemm_fp8_w8a16_backward_dA_program(
            dc_len, b_fp8_len, b_scale, da_len, m, n, k,
        ).closed(3),
{
    memory::nothing_is_closed(3, End::Undefined);
    lemma_scratch(k * n, "alloc b_bf16 scratch: "@);
    let p = ProgramView::empty().step(backward::scratch(k * n, "alloc b_bf16 scratch: "@));
    assert(memory::granted(p.steps, 0));
    let s = StepView::Dequant {
        from: Place::of_param(1),
        to: Place::of_scratch(0),
        n: k * n,
        scale: b_scale,
    };
    memory::step_keeps_closed(p, s, 3);
    let p = p.step(s);
    let inner = backward::gemm_bf16_backward_dA_mma_program(dc_len, k * n, da_len, m, n, k);
    let b = BindingView {
        places: seq![Place::of_param(0), Place::of_scratch(0), Place::of_param(2)],
        base: 1,
    };
    gemm_bf16_backward_dA_mma_is_closed(dc_len, k * n, da_len, m, n, k);
    memory::run_keeps_closed(p, inner, b, 3, 1);
}

/// Whether a launch of the product names the vector, the matrix and the accumulator only, and
/// the launch that finishes it the accumulator and the result only.
pub open spec fn two_launches(product: Plan, last: Plan) -> bool {
    memory::names_only(product, 3) && memory::names_only(last, 2)
}

proof fn lemma_two_launches(p: ProgramView, product: Plan, last: Plan)
    requires
        p.closed(4),
        two_launches(product, last),
    ensures
        p.then_launch(product, managed::operands()).then_launch(last, managed::result()).closed(4),
{
    memory::launch_keeps_closed(p, product, managed::operands(), 4);
    memory::launch_keeps_closed(
        p.then_launch(product, managed::operands()),
        last,
        managed::result(),
        4,
    );
}

proof fn lemma_clear()
    ensures
        managed::clear().closed(4),
        ProgramView::empty().closed(4),
{
    memory::nothing_is_closed(4, End::Done);
    memory::step_keeps_closed(ProgramView::empty(), StepView::Zero { slot: Slot::Param(2) }, 4);
}

proof fn lemma_staged(len: int, product: Plan, last: Plan)
    requires
        two_launches(product, last),
    ensures
        managed::stage(len).then_launch(product, managed::staged_operands()).then_launch(
            last,
            managed::staged_result(),
        ).closed(4),
{
    let s = StepView::Alloc { scratch: 0, elem: Elem::F32, len, failure: None };
    memory::nothing_is_closed(4, End::Done);
    memory::step_keeps_closed(ProgramView::empty(), s, 4);
    let p = managed::stage(len);
    assert(s.grants(0));
    assert(memory::granted(p.steps, 0));
    memory::launch_keeps_closed(p, product, managed::staged_operands(), 4);
    let q = p.then_launch(product, managed::staged_operands());
    assert(memory::granted(q.steps, 0));
    memory::launch_keeps_closed(q, last, managed::staged_result(), 4);
}

/// [`managed::gemv_w8a16_split_k_managed`] uses its four buffers and staging memory of its
/// own.
pub proof fn gemv_w8a16_split_k_managed_is_closed(
    x_len: int, b_fp8_len: int, b_scale: F32, scratch_len: int, out_len: int, n: int, k: int,
    num_shards: int, deterministic: bool,
)
    ensures
        managed::gemv_w8a16_split_k_managed_program(
            x_len, b_fp8_len, b_scale, scratch_len, out_len, n, k, num_shards, deterministic,
        ).closed(4),
{
    let need = num_shards * n;
    lemma_clear();
    lemma_two_launches(
        ProgramView::empty(),
        gemv::gemv_w8a16_split_k_det_plan(
            x_len, b_fp8_len, b_scale, scratch_len, n, k, num_shards,
        ),
        gemv::f32_shard_reduce_to_bf16_plan(scratch_len, out_len, n, num_shards),
    );
    lemma_staged(
        need,
        gemv::gemv_w8a16_split_k_det_plan(x_len, b_fp8_len, b_scale, need, n, k, num_shards),
        gemv::f32_shard_reduce_to_bf16_plan(need, out_len, n, num_shards),
    );
    lemma_two_launches(
        managed::clear(),
        gemv::gemv_w8a16_split_k_plan(
            x_len, b_fp8_len, b_scale, scratch_len, n, k, num_shards,
        ),
        activation::f32_to_bf16_plan(scratch_len, out_len, n),
    );
}

/// [`managed::gemv_w8a16_split_k_w16_managed`] uses its four buffers and staging memory of its
/// own.
pub proof fn gemv_w8a16_split_k_w16_managed_is_closed(
    x_len: int, b_fp8_len: int, b_scale: F32, scratch_len: int, out_len: int, n: int, k: int,
    num_shards: int, deterministic: bool,
)
    ensures
        managed::gemv_w8a16_split_k_w16_managed_program(
            x_len, b_fp8_len, b_scale, scratch_len, out_len, n, k, num_shards, deterministic,
        ).closed(4),
{
    let need = num_shards * n;
    lemma_clear();
    lemma_two_launches(
        ProgramView::empty(),
        gemv::gemv_w8a16_split_k_w16_det_plan(
            x_len, b_fp8_len, b_scale, scratch_len, n, k, num_shards,
        ),
        gemv::f32_shard_reduce_to_bf16_plan(scratch_len, out_len, n, num_shards),
    );
    lemma_staged(
        need,
        gemv::gemv_w8a16_split_k_w16_det_plan(x_len, b_fp8_len, b_scale, need, n, k, num_shards),
        gemv::f32_shard_reduce_to_bf16_plan(need, out_len, n, num_shards),
    );
    lemma_two_launches(
        managed::clear(),
        gemv::gemv_w8a16_split_k_w16_plan(
            x_len, b_fp8_len, b_scale, scratch_len, n, k, num_shards,
        ),
        activation::f32_to_bf16_plan(scratch_len, out_len, n),
    );
}

/// The managed BF16 vector product uses its four buffers and no scratch memory of its own.
pub proof fn gemv_bf16_split_k_managed_is_closed(
    x_len: int, b_len: int, scratch_len: int, out_len: int, n: int, k: int, num_shards: int,
    deterministic: bool,
)
    ensures
        managed::gemv_bf16_split_k_managed_program(
            x_len, b_len, scratch_len, out_len, n, k, num_shards, deterministic,
        ).closed(4),
{
    lemma_clear();
    memory::launch_keeps_closed(
        ProgramView::empty(),
        gemv::gemv_bf16_plan(x_len, b_len, out_len, n, k),
        seq![Place::of_param(0), Place::of_param(1), Place::of_param(3)],
        4,
    );
    lemma_two_launches(
        ProgramView::empty(),
        gemv::gemv_bf16_split_k_det_plan(x_len, b_len, scratch_len, n, k, num_shards),
        gemv::f32_shard_reduce_to_bf16_plan(scratch_len, out_len, n, num_shards),
    );
    lemma_two_launches(
        managed::clear(),
        gemv::gemv_bf16_split_k_plan(x_len, b_len, scratch_len, n, k, num_shards),
        activation::f32_to_bf16_plan(scratch_len, out_len, n),
    );
}

/// [`managed::gemv_bf16_split_k_w16_managed`] uses its four buffers and no scratch memory
/// of its own.
pub proof fn gemv_bf16_split_k_w16_managed_is_closed(
    x_len: int, b_len: int, scratch_len: int, out_len: int, n: int, k: int, num_shards: int,
)
    ensures
        managed::gemv_bf16_split_k_w16_managed_program(
            x_len, b_len, scratch_len, out_len, n, k, num_shards,
        ).closed(4),
{
    lemma_clear();
    lemma_two_launches(
        managed::clear(),
        gemv::gemv_bf16_split_k_w16_plan(x_len, b_len, scratch_len, n, k, num_shards),
        activation::f32_to_bf16_plan(scratch_len, out_len, n),
    );
}

/// [`managed::gemv_bf16_split_k_managed_view`] uses its four buffers and no scratch memory
/// of its own.
pub proof fn gemv_bf16_split_k_managed_view_is_closed(
    x_len: int, b_len: int, scratch_len: int, out_len: int, n: int, k: int, num_shards: int,
)
    ensures
        managed::gemv_bf16_split_k_managed_view_program(
            x_len, b_len, scratch_len, out_len, n, k, num_shards,
        ).closed(4),
{
    lemma_clear();
    lemma_two_launches(
        managed::clear(),
        gemv::gemv_bf16_split_k_view_plan(x_len, b_len, scratch_len, n, k, num_shards),
        activation::f32_to_bf16_plan(scratch_len, out_len, n),
    );
}

/// [`managed::gemv_bf16_split_k_v4_managed`] uses its four buffers and no scratch memory
/// of its own.
pub proof fn gemv_bf16_split_k_v4_managed_is_closed(
    x_len: int, b_len: int, scratch_len: int, out_len: int, n: int, k: int, num_shards: int,
)
    ensures
        managed::gemv_bf16_split_k_v4_managed_program(
            x_len, b_len, scratch_len, out_len, n, k, num_shards,
        ).closed(4),
{
    lemma_clear();
    lemma_two_launches(
        managed::clear(),
        gemv::gemv_bf16_split_k_v4_plan(x_len, b_len, scratch_len, n, k, num_shards),
        activation::f32_to_bf16_plan(scratch_len, out_len, n),
    );
}

/// The managed batched product uses its four buffers and no scratch memory of its own.
pub proof fn gemm_bf16_split_k_det_managed_is_closed(
    x_len: int, b_len: int, stage_len: int, out_len: int, n: int, k: int, m: int, num_shards: int,
)
    ensures
        managed::gemm_bf16_split_k_det_managed_program(
            x_len, b_len, stage_len, out_len, n, k, m, num_shards,
        ).closed(4),
{
    lemma_clear();
    memory::nothing_is_closed(4, End::Undefined);
    lemma_two_launches(
        ProgramView::empty(),
        gemv::gemm_bf16_split_k_det_plan(x_len, b_len, stage_len, n, k, m, num_shards),
        gemv::f32_shard_reduce_to_bf16_plan(stage_len, out_len, m * n, num_shards),
    );
}

} // verus!
