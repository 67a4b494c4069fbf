//! Ring attention on one GPU: the keys are swept in chunks, each giving a partial result, and
//! the partial results are merged.
use crate::attention::paged;
use crate::plan::{F32, Place};
use crate::program::{Elem, Program, ProgramView, Step, StepView};
use crate::text;
use crate::text::Text;
use vstd::prelude::*;

verus! {

/// A zeroed single-precision scratch buffer.
pub open spec fn partial(scratch: u32, len: int) -> StepView {
    StepView::Alloc { scratch, elem: Elem::F32, len, failure: None }
}

/// The partial results of the first `n` chunks, after the program `p`.
pub open spec fn ring_chunks(
    p: ProgramView, n: int, q_len: int, k_len: int, v_len: int, batch: int, num_heads: int,
    seq_q: int, seq_kv: int, scale: F32, num_chunks: int,
) -> ProgramView
    decreases n,
{
    let lse = num_chunks * batch * num_heads * seq_q;
    if n <= 0 {
        p
    } else {
        ring_chunks(
            p, n - 1, q_len, k_len, v_len, batch, num_heads, seq_q, seq_kv, scale, num_chunks,
        ).then_launch(
            paged::flash_attn_bf16_v3_split_kv_plan(
                q_len, k_len, v_len, lse * 128, lse, batch, num_heads, seq_q, seq_kv, scale,
                num_chunks, n - 1,
            ),
            seq![
                Place::of_param(0), Place::of_param(1), Place::of_param(2), Place::of_scratch(0),
                Place::of_scratch(1),
            ],
        )
    }
}

/// The answer of [`ring_attention_bf16`].
pub open spec fn ring_attention_bf16_program(
    q_len: int, k_len: int, v_len: int, o_len: int, batch: int, num_heads: int, seq_q: int,
    seq_kv: int, scale: F32, num_chunks: int,
) -> ProgramView {
    let lse = num_chunks * batch * num_heads * seq_q;
    if num_chunks == 0 || seq_kv % num_chunks != 0 {
        ProgramView::invalid(
            "num_chunks ("@ + text::decimal(num_chunks) + ") must divide seq_kv ("@
                + text::decimal(seq_kv) + ") evenly"@,
        )
    } else if num_chunks > 64 {
        ProgramView::invalid(
            "num_chunks="@ + text::decimal(num_chunks) + " exceeds practical limit (64)"@,
        )
    } else if num_chunks * batch > u32::MAX || num_chunks * batch * num_heads > u32::MAX
        || lse * 128 > u32::MAX
    {
        ProgramView::undefined()
    } else {
        ring_chunks(
            ProgramView::empty().step(partial(0, lse * 128)).step(partial(1, lse)), num_chunks,
            q_len, k_len, v_len, batch, num_heads, seq_q, seq_kv, scale, num_chunks,
        ).then_launch(
            paged::flash_decoding_combine_plan(
                lse * 128, lse, o_len, batch, num_heads, seq_q, num_chunks,
            ),
            seq![Place::of_scratch(0), Place::of_scratch(1), Place::of_param(3)],
        )
    }
}

/// Single-GPU ring attention. Sweeps KV in `num_chunks` steps, each computing a
/// partial output + LSE, then merges via online LSE combine.
///
/// `num_chunks` must divide `seq_kv` evenly. D=128.
pub fn ring_attention_bf16(
    q_len: usize,
    k_len: usize,
    v_len: usize,
    o_len: usize,
    batch: u32,
    num_heads: u32,
    seq_q: u32,
    seq_kv: u32,
    scale: F32,
    num_chunks: u32,
) -> (r: Program)
    requires
        ring_attention_bf16_program(
            q_len as int, k_len as int, v_len as int, o_len as int, batch as int, num_heads as int,
            seq_q as int, seq_kv as int, scale, num_chunks as int,
        ).end !is Undefined,
    ensures
        r@ == ring_attention_bf16_program(
            q_len as int, k_len as int, v_len as int, o_len as int, batch as int, num_heads as int,
            seq_q as int, seq_kv as int, scale, num_chunks as int,
        ),
{
    if num_chunks == 0 || seq_kv % num_chunks != 0 {
        return Program::refused(
            Text::new("num_chunks (").n(num_chunks as u64).s(") must divide seq_kv (")
                .n(seq_kv as u64).s(") evenly"),
        );
    }
    if num_chunks > 64 {
        return Program::refused(
            Text::new("num_chunks=").n(num_chunks as u64).s(" exceeds practical limit (64)"),
        );
    }
    let total_partial: u32 = num_chunks * batch * num_heads * seq_q * 128;
    let total_lse: u32 = num_chunks * batch * num_heads * seq_q;
    let mut p = Program::new();
    p.push(
        Step::Alloc { scratch: 0, elem: Elem::F32, len: total_partial as u64, failure: None },
    );
    p.push(Step::Alloc { scratch: 1, elem: Elem::F32, len: total_lse as u64, failure: None });
    let ghost start = p@;
    let mut chunk: u32 = 0;
    while chunk < num_chunks
        invariant
            chunk <= num_chunks,
            total_lse == num_chunks * batch * num_heads * seq_q,
            total_partial == total_lse * 128,
            p@ == ring_chunks(
                start, chunk as int, q_len as int, k_len as int, v_len as int, batch as int,
                num_heads as int, seq_q as int, seq_kv as int, scale, num_chunks as int,
            ),
            p@.end is Done,
        decreases num_chunks - chunk,
    {
        p.launch(
            paged::flash_attn_bf16_v3_split_kv(
                q_len, k_len, v_len, total_partial as usize, total_lse as usize, batch, num_heads,
                seq_q, seq_kv, scale, num_chunks, chunk,
            ),
            vec![
                Place::param(0), Place::param(1), Place::param(2), Place::scratch(0),
                Place::scratch(1),
            ],
        );
        chunk = chunk + 1;
    }
    p.launch(
        paged::flash_decoding_combine(
            total_partial as usize, total_lse as usize, o_len, batch, num_heads, seq_q, num_chunks,
        ),
        vec![Place::scratch(0), Place::scratch(1), Place::param(3)],
    );
    p
}

} // verus!
