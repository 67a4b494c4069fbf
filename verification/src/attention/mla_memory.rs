//! The memory that decoding over compressed caches uses: each program names only the buffers of
//! the caller and scratch memory that it has provided before.
use crate::attention::mla;
use crate::attention::mla::{MLA_D_C, MLA_D_R};
use crate::attention::mla_auto;
use crate::memory;
use crate::plan::{F32, Place};
use crate::program::{Elem, End, ProgramView, StepView};
use crate::tensor_map;
use vstd::prelude::*;

verus! {

/// FP8 decoding uses its seven buffers only.
pub proof fn fa_fp8_mla_decode_auto_is_closed(
    q_c_fp8_len: int, q_r_fp8_len: int, c_kv_len: int, k_rope_len: int, o_len: int, batch: int,
    num_heads: int, seq_kv: int, scale: F32, q_scale: F32, kv_scale: F32,
)
    ensures
        mla_auto::fa_fp8_mla_decode_auto_program(
            q_c_fp8_len, q_r_fp8_len, c_kv_len, k_rope_len, o_len, batch, num_heads, seq_kv, scale,
            q_scale, kv_scale,
        ).closed(7),
{
    memory::nothing_is_closed(7, End::Done);
    memory::launch_keeps_closed(
        ProgramView::empty(),
        mla::fa_fp8_mla_decode_mma_v3_plan(
            q_c_fp8_len, q_r_fp8_len, c_kv_len, k_rope_len, o_len, batch, num_heads, seq_kv, scale,
            q_scale, kv_scale,
        ),
        seq![
            Place::of_param(2), Place::of_param(3), Place::of_param(4), Place::of_param(5),
            Place::of_param(6),
        ],
        7,
    );
}

/// Decoding in splits uses its five buffers, two descriptors and two scratch buffers of its own.
pub proof fn mla_decode_bf16_mma_split_is_closed(
    q_c_len: int, q_r_len: int, c_kv_len: int, k_rope_len: int, o_len: int, batch: int,
    num_heads: int, seq_kv: int, num_splits: int, scale: F32,
)
    ensures
        mla_auto::mla_decode_bf16_mma_split_program(
            q_c_len, q_r_len, c_kv_len, k_rope_len, o_len, batch, num_heads, seq_kv, num_splits,
            scale,
        ).closed(5),
{
    let rows = batch * seq_kv;
    let lse = num_splits * batch * num_heads;
    let partial = lse * MLA_D_C;
    let maps = seq![
        tensor_map::desc_swizzle(2, rows, MLA_D_C as int, 8, 64),
        tensor_map::desc_swizzle(3, rows, MLA_D_R as int, 8, 64),
    ];
    let p = ProgramView::empty();
    memory::nothing_is_closed(5, End::Done);
    let s = StepView::Encode { scratch: 0, maps };
    memory::step_keeps_closed(p, s, 5);
    let p = p.step(s);
    assert(s.grants(0) && s.grants(1));
    assert(memory::granted(p.steps, 0) && memory::granted(p.steps, 1));
    let s = StepView::Alloc { scratch: 2, elem: Elem::F32, len: partial, failure: None };
    memory::step_keeps_closed(p, s, 5);
    let p = p.step(s);
    assert(s.grants(2));
    assert(memory::granted(p.steps, 2));
    let s = StepView::Alloc { scratch: 3, elem: Elem::F32, len: lse, failure: None };
    memory::step_keeps_closed(p, s, 5);
    let p = p.step(s);
    assert(s.grants(3));
    assert(memory::granted(p.steps, 3));
    let plan = mla_auto::split_plan(batch, num_heads, seq_kv, num_splits, scale);
    let places = seq![
        Place::of_param(0), Place::of_param(1), Place::of_scratch(0), Place::of_scratch(1),
        Place::of_param(4), Place::of_scratch(2), Place::of_scratch(3),
    ];
    assert(memory::granted(p.steps, 0) && memory::granted(p.steps, 1));
    memory::launch_keeps_closed(p, plan, places, 5);
    let p = p.then_launch(plan, places);
    let plan = mla::mla_split_kv_combine_plan(partial, lse, o_len, batch, num_heads, num_splits);
    let places = seq![Place::of_scratch(2), Place::of_scratch(3), Place::of_param(4)];
    memory::launch_keeps_closed(p, plan, places, 5);
}

/// Decoding with a chosen kernel uses its five buffers and what it has provided itself.
pub proof fn mla_decode_bf16_auto_with_splits_is_closed(
    q_c_len: int, q_r_len: int, c_kv_len: int, k_rope_len: int, o_len: int, batch: int,
    num_heads: int, seq_kv: int, scale: F32, num_splits: Option<u32>,
)
    ensures
        mla_auto::mla_decode_bf16_auto_with_splits_program(
            q_c_len, q_r_len, c_kv_len, k_rope_len, o_len, batch, num_heads, seq_kv, scale,
            num_splits,
        ).closed(5),
{
    memory::single_is_closed(
        mla::mla_decode_bf16_plan(
            q_c_len, q_r_len, c_kv_len, k_rope_len, o_len, batch, num_heads, seq_kv, scale,
        ),
        5,
    );
    memory::single_is_closed(
        mla::mla_decode_bf16_mma_tma_plan(
            q_c_len, q_r_len, c_kv_len, k_rope_len, o_len, batch, num_heads, seq_kv, scale,
        ),
        5,
    );
    memory::single_is_closed(
        mla::mla_decode_bf16_mma_tma_pq_plan(
            q_c_len, q_r_len, c_kv_len, k_rope_len, o_len, batch, num_heads, seq_kv, scale,
        ),
        5,
    );
    let splits = match num_splits {
        Some(n) => n as int,
        None => mla_auto::default_splits(batch, num_heads, seq_kv),
    };
    mla_decode_bf16_mma_split_is_closed(
        q_c_len, q_r_len, c_kv_len, k_rope_len, o_len, batch, num_heads, seq_kv, splits, scale,
    );
}

} // verus!
