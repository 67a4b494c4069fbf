//! Choosing among the kernels for compressed key-value caches, and decoding in splits.
use crate::attention::mla;
use crate::attention::mla::{MLA_D_C, MLA_D_R};
use crate::error::Result;
use crate::plan;
use crate::plan::{Arg, F32, Launch, Place, Plan};
use crate::program::{Elem, Program, ProgramView, Step, StepView};
use crate::shape;
use crate::tensor_map;
use crate::text;
use crate::text::Text;
use vstd::prelude::*;

verus! {

/// The answer of [`mla_decode_fp8_auto`].
pub open spec fn mla_decode_fp8_auto_plan(
    q_c_len: int, q_r_len: int, c_kv_len: int, k_rope_len: int, o_len: int, batch: int,
    num_heads: int, seq_kv: int, scale: F32, kv_scale: F32,
) -> Plan {
    if num_heads % 16 != 0 || num_heads < 16 || seq_kv < 32 {
        mla::mla_decode_fp8_plan(
            q_c_len, q_r_len, c_kv_len, k_rope_len, o_len, batch, num_heads, seq_kv, scale,
            kv_scale,
        )
    } else {
        mla::mla_decode_fp8kv_mma_plan(
            q_c_len, q_r_len, c_kv_len, k_rope_len, o_len, batch, num_heads, seq_kv, scale,
            kv_scale,
        )
    }
}

/// Auto-dispatch FP8-KV MLA decode: the tensor-core kernel where the heads fill its tiles and
/// the cache is long enough, the scalar kernel otherwise.
pub fn mla_decode_fp8_auto(
    q_c_len: usize,
    q_r_len: usize,
    c_kv_len: usize,
    k_rope_len: usize,
    o_len: usize,
    batch: u32,
    num_heads: u32,
    seq_kv: u32,
    scale: F32,
    kv_scale: F32,
) -> (r: Result<Launch>)
    ensures
        plan::outcome(r) == mla_decode_fp8_auto_plan(
            q_c_len as int, q_r_len as int, c_kv_len as int, k_rope_len as int, o_len as int,
            batch as int, num_heads as int, seq_kv as int, scale, kv_scale,
        ),
        plan::launchable(r, 5),
{
    if num_heads % 16 != 0 || num_heads < 16 || seq_kv < 32 {
        return mla::mla_decode_fp8(
            q_c_len, q_r_len, c_kv_len, k_rope_len, o_len, batch, num_heads, seq_kv, scale,
            kv_scale,
        );
    }
    mla::mla_decode_fp8kv_mma(
        q_c_len, q_r_len, c_kv_len, k_rope_len, o_len, batch, num_heads, seq_kv, scale, kv_scale,
    )
}

/// The answer of [`fa_fp8_mla_decode_auto`].
pub open spec fn fa_fp8_mla_decode_auto_program(
    q_c_fp8_len: int, q_r_fp8_len: int, c_kv_len: int, k_rope_len: int, o_len: int, batch: int,
    num_heads: int, seq_kv: int, scale: F32, q_scale: F32, kv_scale: F32,
) -> ProgramView {
    ProgramView::empty().then_launch(
        mla::fa_fp8_mla_decode_mma_v3_plan(
            q_c_fp8_len, q_r_fp8_len, c_kv_len, k_rope_len, o_len, batch, num_heads, seq_kv, scale,
            q_scale, kv_scale,
        ),
        seq![
            Place::of_param(2), Place::of_param(3), Place::of_param(4), Place::of_param(5),
            Place::of_param(6),
        ],
    )
}

/// FP8 MLA decode. The BF16 queries, buffer parameters 0 and 1, are not used.
pub fn fa_fp8_mla_decode_auto(
    q_c_bf16_len: usize,
    q_r_bf16_len: usize,
    q_c_fp8_len: usize,
    q_r_fp8_len: usize,
    c_kv_len: usize,
    k_rope_len: usize,
    o_len: usize,
    batch: u32,
    num_heads: u32,
    seq_kv: u32,
    scale: F32,
    q_scale: F32,
    kv_scale: F32,
) -> (r: Program)
    ensures
        r@ == fa_fp8_mla_decode_auto_program(
            q_c_fp8_len as int, q_r_fp8_len as int, c_kv_len as int, k_rope_len as int,
            o_len as int, batch as int, num_heads as int, seq_kv as int, scale, q_scale, kv_scale,
        ),
{
    let mut p = Program::new();
    p.launch(
        mla::fa_fp8_mla_decode_mma_v3(
            q_c_fp8_len, q_r_fp8_len, c_kv_len, k_rope_len, o_len, batch, num_heads, seq_kv, scale,
            q_scale, kv_scale,
        ),
        vec![
            Place::param(2), Place::param(3), Place::param(4), Place::param(5), Place::param(6),
        ],
    );
    p
}

/// The launch that computes one partial result per split of the cache.
pub open spec fn split_plan(
    batch: int, num_heads: int, seq_kv: int, num_splits: int, scale: F32,
) -> Plan {
    Plan::raw_launch(
        "fa_bf16_mla_decode_mma_tma_split"@,
        "fa_bf16_mla_decode_mma_tma_split"@,
        (num_heads / 16, batch, num_splits),
        (128, 1, 1),
        37216,
        Seq::empty(),
        seq![
            Arg::buffer(0), Arg::buffer(1), Arg::buffer(2), Arg::buffer(3), Arg::buffer(4),
            Arg::buffer(5), Arg::buffer(6), Arg::word(num_heads), Arg::word(seq_kv),
            Arg::word(num_splits), Arg::Scalar(scale),
        ],
        Some("attr: "@),
        "split launch: "@,
    )
}

fn split_launch(batch: u32, num_heads: u32, seq_kv: u32, num_splits: u32, scale: F32) -> (r: Launch)
    ensures
        Plan::Launch(r@) == split_plan(
            batch as int, num_heads as int, seq_kv as int, num_splits as int, scale,
        ),
{
    let none: Vec<plan::TensorMap> = Vec::new();
    assert(plan::maps(none@) =~= Seq::empty());
    Launch::raw(
        "fa_bf16_mla_decode_mma_tma_split",
        "fa_bf16_mla_decode_mma_tma_split",
        (num_heads / 16, batch, num_splits),
        (128, 1, 1),
        37216,
        none,
        vec![
            Arg::param(0), Arg::param(1), Arg::param(2), Arg::param(3), Arg::param(4),
            Arg::param(5), Arg::param(6), Arg::Word(num_heads), Arg::Word(seq_kv),
            Arg::Word(num_splits), Arg::Scalar(scale),
        ],
        Some("attr: "),
        Text::new("split launch: "),
    )
}

/// The answer of [`mla_decode_bf16_mma_split`].
pub open spec fn mla_decode_bf16_mma_split_program(
    q_c_len: int, q_r_len: int, c_kv_len: int, k_rope_len: int, o_len: int, batch: int,
    num_heads: int, seq_kv: int, num_splits: int, scale: F32,
) -> ProgramView {
    let rows = batch * seq_kv;
    let lse_len = num_splits * batch * num_heads;
    let partial_len = lse_len * MLA_D_C;
    if batch == 0 || num_heads == 0 || seq_kv == 0 || num_splits == 0 {
        ProgramView::invalid("dims must be > 0"@)
    } else if num_heads % 16 != 0 {
        ProgramView::invalid(
            "mla_decode_bf16_mma_split requires num_heads % 16 == 0 (got "@
                + text::decimal(num_heads) + ")"@,
        )
    } else if num_splits > 64 {
        ProgramView::invalid("num_splits must be ≤ 64 (got "@ + text::decimal(num_splits) + ")"@)
    } else if rows > u32::MAX || num_splits * batch > u32::MAX || lse_len > u32::MAX {
        ProgramView::undefined()
    } else {
        ProgramView::empty().step(
            StepView::Encode {
                scratch: 0,
                maps: seq![
                    tensor_map::desc_swizzle(2, rows, MLA_D_C as int, 8, 64),
                    tensor_map::desc_swizzle(3, rows, MLA_D_R as int, 8, 64),
                ],
            },
        ).step(
            StepView::Alloc { scratch: 2, elem: Elem::F32, len: partial_len, failure: None },
        ).step(
            StepView::Alloc { scratch: 3, elem: Elem::F32, len: lse_len, failure: None },
        ).then_launch(
            split_plan(batch, num_heads, seq_kv, num_splits, scale),
            seq![
                Place::of_param(0), Place::of_param(1), Place::of_scratch(0), Place::of_scratch(1),
                Place::of_param(4), Place::of_scratch(2), Place::of_scratch(3),
            ],
        ).then_launch(
            mla::mla_split_kv_combine_plan(
                partial_len, lse_len, o_len, batch, num_heads, num_splits,
            ),
            seq![Place::of_scratch(2), Place::of_scratch(3), Place::of_param(4)],
        )
    }
}

/// MLA decode in `num_splits` parallel parts of the cache, each with its own partial result,
/// and a launch that combines them.
pub fn mla_decode_bf16_mma_split(
    q_c_len: usize,
    q_r_len: usize,
    c_kv_len: usize,
    k_rope_len: usize,
    o_len: usize,
    batch: u32,
    num_heads: u32,
    seq_kv: u32,
    num_splits: u32,
    scale: F32,
) -> (r: Program)
    requires
        mla_decode_bf16_mma_split_program(
            q_c_len as int, q_r_len as int, c_kv_len as int, k_rope_len as int, o_len as int,
            batch as int, num_heads as int, seq_kv as int, num_splits as int, scale,
        ).end !is Undefined,
    ensures
        r@ == mla_decode_bf16_mma_split_program(
            q_c_len as int, q_r_len as int, c_kv_len as int, k_rope_len as int, o_len as int,
            batch as int, num_heads as int, seq_kv as int, num_splits as int, scale,
        ),
{
    if batch == 0 || num_heads == 0 || seq_kv == 0 || num_splits == 0 {
        return Program::refused(Text::new("dims must be > 0"));
    }
    if num_heads % 16 != 0 {
        return Program::refused(
            Text::new("mla_decode_bf16_mma_split requires num_heads % 16 == 0 (got ")
                .n(num_heads as u64).s(")"),
        );
    }
    if num_splits > 64 {
        return Program::refused(
            Text::new("num_splits must be ≤ 64 (got ").n(num_splits as u64).s(")"),
        );
    }
    let rows: u32 = batch * seq_kv;
    let lse_len: u64 = (num_splits * batch * num_heads) as u64;
    let partial_len: u64 = lse_len * (MLA_D_C as u64);
    let maps = vec![
        tensor_map::create_tma_desc_swizzle(2, rows, MLA_D_C, 8, 64),
        tensor_map::create_tma_desc_swizzle(3, rows, MLA_D_R, 8, 64),
    ];
    assert(plan::maps(maps@) =~= seq![
        tensor_map::desc_swizzle(2, rows as int, MLA_D_C as int, 8, 64),
        tensor_map::desc_swizzle(3, rows as int, MLA_D_R as int, 8, 64),
    ]);
    let mut p = Program::new();
    p.push(Step::Encode { scratch: 0, maps });
    p.push(Step::Alloc { scratch: 2, elem: Elem::F32, len: partial_len, failure: None });
    p.push(Step::Alloc { scratch: 3, elem: Elem::F32, len: lse_len, failure: None });
    p.launch(
        Ok(split_launch(batch, num_heads, seq_kv, num_splits, scale)),
        vec![
            Place::param(0), Place::param(1), Place::scratch(0), Place::scratch(1),
            Place::param(4), Place::scratch(2), Place::scratch(3),
        ],
    );
    p.launch(
        mla::mla_split_kv_combine(
            partial_len as usize, lse_len as usize, o_len, batch, num_heads, num_splits,
        ),
        vec![Place::scratch(2), Place::scratch(3), Place::param(4)],
    );
    p
}

/// Splits that give the multiprocessors enough blocks: two or more for a long cache, but no
/// more than one per eight positions, and at most 16. A short cache is not split.
pub open spec fn default_splits(batch: int, num_heads: int, seq_kv: int) -> int {
    let base = (num_heads / 16) * batch;
    let target = if base >= 48 {
        2
    } else {
        shape::greater(48int / shape::greater(base, 1), 2)
    };
    if seq_kv < 64 {
        1
    } else {
        shape::lesser(shape::lesser(target, shape::ceil_div(seq_kv, 8)), 16)
    }
}

fn choose_splits(batch: u32, num_heads: u32, seq_kv: u32) -> (r: u32)
    requires
        seq_kv < 64 || (num_heads as int / 16) * batch <= u32::MAX,
    ensures
        r == default_splits(batch as int, num_heads as int, seq_kv as int),
{
    if seq_kv < 64 {
        return 1;
    }
    let base: u32 = (num_heads / 16) * batch;
    let target: u32 = if base >= 48 {
        2
    } else {
        shape::greater_of(48 / shape::greater_of(base, 1), 2)
    };
    let num_chunks: u32 = shape::div_ceil(seq_kv, 8);
    shape::lesser_of(shape::lesser_of(target, num_chunks), 16)
}

/// The answer of [`mla_decode_bf16_auto_with_splits`].
pub open spec fn mla_decode_bf16_auto_with_splits_program(
    q_c_len: int, q_r_len: int, c_kv_len: int, k_rope_len: int, o_len: int, batch: int,
    num_heads: int, seq_kv: int, scale: F32, num_splits: Option<u32>,
) -> ProgramView {
    let splits = match num_splits {
        Some(n) => n as int,
        None => default_splits(batch, num_heads, seq_kv),
    };
    if num_heads % 16 != 0 {
        ProgramView::single(
            mla::mla_decode_bf16_plan(
                q_c_len, q_r_len, c_kv_len, k_rope_len, o_len, batch, num_heads, seq_kv, scale,
            ),
        )
    } else if num_splits is None && seq_kv < 64 {
        ProgramView::single(
            mla::mla_decode_bf16_mma_tma_plan(
                q_c_len, q_r_len, c_kv_len, k_rope_len, o_len, batch, num_heads, seq_kv, scale,
            ),
        )
    } else if num_splits is None && (num_heads / 16) * batch > u32::MAX {
        ProgramView::undefined()
    } else if splits <= 1 {
        ProgramView::single(
            mla::mla_decode_bf16_mma_tma_pq_plan(
                q_c_len, q_r_len, c_kv_len, k_rope_len, o_len, batch, num_heads, seq_kv, scale,
            ),
        )
    } else {
        mla_decode_bf16_mma_split_program(
            q_c_len, q_r_len, c_kv_len, k_rope_len, o_len, batch, num_heads, seq_kv, splits, scale,
        )
    }
}

/// Auto-dispatch BF16 MLA decode with the number of splits given, or chosen by the shape.
pub fn mla_decode_bf16_auto_with_splits(
    q_c_len: usize,
    q_r_len: usize,
    c_kv_len: usize,
    k_rope_len: usize,
    o_len: usize,
    batch: u32,
    num_heads: u32,
    seq_kv: u32,
    scale: F32,
    num_splits: Option<u32>,
) -> (r: Program)
    requires
        mla_decode_bf16_auto_with_splits_program(
            q_c_len as int, q_r_len as int, c_kv_len as int, k_rope_len as int, o_len as int,
            batch as int, num_heads as int, seq_kv as int, scale, num_splits,
        ).end !is Undefined,
    ensures
        r@ == mla_decode_bf16_auto_with_splits_program(
            q_c_len as int, q_r_len as int, c_kv_len as int, k_rope_len as int, o_len as int,
            batch as int, num_heads as int, seq_kv as int, scale, num_splits,
        ),
{
    if num_heads % 16 != 0 {
        return Program::of_launch(
            mla::mla_decode_bf16(
                q_c_len, q_r_len, c_kv_len, k_rope_len, o_len, batch, num_heads, seq_kv, scale,
            ),
        );
    }
    if num_splits.is_none() && seq_kv < 64 {
        return Program::of_launch(
            mla::mla_decode_bf16_mma_tma(
                q_c_len, q_r_len, c_kv_len, k_rope_len, o_len, batch, num_heads, seq_kv, scale,
            ),
        );
    }
    let splits: u32 = match num_splits {
        Some(n) => n,
        None => choose_splits(batch, num_heads, seq_kv),
    };
    if splits <= 1 {
        return Program::of_launch(
            mla::mla_decode_bf16_mma_tma_pq(
                q_c_len, q_r_len, c_kv_len, k_rope_len, o_len, batch, num_heads, seq_kv, scale,
            ),
        );
    }
    mla_decode_bf16_mma_split(
        q_c_len, q_r_len, c_kv_len, k_rope_len, o_len, batch, num_heads, seq_kv, splits, scale,
    )
}

/// The answer of [`mla_decode_bf16_auto`].
pub open spec fn mla_decode_bf16_auto_program(
    q_c_len: int, q_r_len: int, c_kv_len: int, k_rope_len: int, o_len: int, batch: int,
    num_heads: int, seq_kv: int, scale: F32,
) -> ProgramView {
    if num_heads % 16 != 0 {
        ProgramView::single(
            mla::mla_decode_bf16_plan(
                q_c_len, q_r_len, c_kv_len, k_rope_len, o_len, batch, num_heads, seq_kv, scale,
            ),
        )
    } else if seq_kv < 64 {
        ProgramView::single(
            mla::mla_decode_bf16_mma_tma_plan(
                q_c_len, q_r_len, c_kv_len, k_rope_len, o_len, batch, num_heads, seq_kv, scale,
            ),
        )
    } else if (num_heads / 16) * batch > u32::MAX {
        ProgramView::undefined()
    } else {
        mla_decode_bf16_mma_split_program(
            q_c_len, q_r_len, c_kv_len, k_rope_len, o_len, batch, num_heads, seq_kv,
            default_splits(batch, num_heads, seq_kv), scale,
        )
    }
}

/// Auto-dispatch BF16 MLA decode: head counts that are no multiple of 16 go to the scalar kernel,
/// caches below 64 positions to the unsplit tensor-core kernel, and the rest is split so that
/// about 48 blocks run.
pub fn mla_decode_bf16_auto(
    q_c_len: usize,
    q_r_len: usize,
    c_kv_len: usize,
    k_rope_len: usize,
    o_len: usize,
    batch: u32,
    num_heads: u32,
    seq_kv: u32,
    scale: F32,
) -> (r: Program)
    requires
        mla_decode_bf16_auto_program(
            q_c_len as int, q_r_len as int, c_kv_len as int, k_rope_len as int, o_len as int,
            batch as int, num_heads as int, seq_kv as int, scale,
        ).end !is Undefined,
    ensures
        r@ == mla_decode_bf16_auto_program(
            q_c_len as int, q_r_len as int, c_kv_len as int, k_rope_len as int, o_len as int,
            batch as int, num_heads as int, seq_kv as int, scale,
        ),
{
    if num_heads % 16 != 0 {
        return Program::of_launch(
            mla::mla_decode_bf16(
                q_c_len, q_r_len, c_kv_len, k_rope_len, o_len, batch, num_heads, seq_kv, scale,
            ),
        );
    }
    if seq_kv < 64 {
        return Program::of_launch(
            mla::mla_decode_bf16_mma_tma(
                q_c_len, q_r_len, c_kv_len, k_rope_len, o_len, batch, num_heads, seq_kv, scale,
            ),
        );
    }
    let num_splits: u32 = choose_splits(batch, num_heads, seq_kv);
    mla_decode_bf16_mma_split(
        q_c_len, q_r_len, c_kv_len, k_rope_len, o_len, batch, num_heads, seq_kv, num_splits, scale,
    )
}

/// Leaving the number of splits open is the same as asking for the automatic choice.
pub proof fn auto_leaves_splits_open(
    q_c_len: int, q_r_len: int, c_kv_len: int, k_rope_len: int, o_len: int, batch: int,
    num_heads: int, seq_kv: int, scale: F32,
)
    ensures
        mla_decode_bf16_auto_program(
            q_c_len, q_r_len, c_kv_len, k_rope_len, o_len, batch, num_heads, seq_kv, scale,
        ) == mla_decode_bf16_auto_with_splits_program(
            q_c_len, q_r_len, c_kv_len, k_rope_len, o_len, batch, num_heads, seq_kv, scale, None,
        ),
{
}

/// The automatic choice is between 1 and 16 splits, leaves no split without positions, and
/// splits every cache of 64 or more positions; so the split kernel never refuses it.
pub proof fn default_splits_in_range(batch: int, num_heads: int, seq_kv: int)
    requires
        batch > 0,
        num_heads > 0,
        seq_kv > 0,
    ensures
        1 <= default_splits(batch, num_heads, seq_kv) <= 16,
        default_splits(batch, num_heads, seq_kv) <= shape::ceil_div(seq_kv, 8),
        seq_kv >= 64 <==> default_splits(batch, num_heads, seq_kv) >= 2,
{
    shape::lemma_ceil_div(seq_kv, 8);
    assert((num_heads / 16) * batch >= 0) by (nonlinear_arith)
        requires
            batch > 0,
            num_heads > 0,
    ;
}

} // verus!
