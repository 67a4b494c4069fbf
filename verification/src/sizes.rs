//! The memory that programs ask for, and the sizes that they accept.
use crate::attention::backward;
use crate::attention::backward_laws;
use crate::attention::backward_meaning;
use crate::attention::backward_packed;
use crate::attention::mla_auto;
use crate::distributed::ring_attention;
use crate::distributed::ring_attention_distributed;
use crate::distributed::transport::RingTransport;
use crate::gemm;
use crate::gemm::managed;
use crate::plan::{F32, Slot};
use crate::program::{Elem, ProgramView, StepView};
use crate::shape;
use vstd::prelude::*;

verus! {

/// Whether a step provides a scratch buffer with room for exactly `len` elements.
pub open spec fn provides(s: StepView, number: u32, kind: Elem, room: int) -> bool {
    s matches StepView::Alloc { scratch, elem, len, failure } && scratch == number && elem == kind
        && len == room
}

/// Flash attention backward is done exactly where no dimension is zero, all seven buffers hold
/// every head, and the sizes fit in 32 bits; it then has room for three square matrices.
pub proof fn flash_attn_backward_bf16_has_room(
    q_len: int, k_len: int, v_len: int, do_len: int, dq_len: int, dk_len: int, dv_len: int,
    batch: int, num_heads: int, seq: int, d: int, scale: F32, causal: bool,
)
    requires
        batch >= 0,
        num_heads >= 0,
        seq >= 0,
        d >= 0,
    ensures
        ({
            let p = backward::flash_attn_backward_bf16_program(
                q_len, k_len, v_len, do_len, dq_len, dk_len, dv_len, batch, num_heads, seq, d,
                scale, causal,
            );
            let n = batch * num_heads * seq * d;
            &&& p.end is Done <==> {
                &&& batch > 0 && num_heads > 0 && seq > 0 && d > 0
                &&& batch * num_heads <= u32::MAX && batch * num_heads * seq <= u32::MAX && n
                    <= u32::MAX && seq * seq <= u32::MAX
                &&& q_len >= n && k_len >= n && v_len >= n && do_len >= n
                &&& dq_len >= n && dk_len >= n && dv_len >= n
            }
            &&& p.end is Done ==> p.steps.len() >= 6 && provides(
                p.steps[3],
                0,
                Elem::U16,
                seq * seq,
            ) && provides(p.steps[4], 1, Elem::U16, seq * seq) && provides(
                p.steps[5],
                2,
                Elem::U16,
                seq * seq,
            )
        }),
{
    let p = backward::backward_prologue(seq, causal);
    if batch > 0 && num_heads > 0 && seq > 0 && d > 0 {
        let heads = batch * num_heads;
        assert(heads > 0) by (nonlinear_arith)
            requires
                batch > 0,
                num_heads > 0,
                heads == batch * num_heads,
        ;
        backward_laws::lemma_heads_are_done(p, heads, seq, d, scale, causal);
        backward_meaning::lemma_heads_begin(p, heads, seq, d, scale, causal);
        let steps = backward::backward_heads(p, heads, seq, d, scale, causal).steps;
        assert(p.steps.len() == 6);
        assert(steps[3] == steps.take(6)[3]);
        assert(steps[4] == steps.take(6)[4]);
        assert(steps[5] == steps.take(6)[5]);
    }
}

/// Backward with grouped heads has room for keys, values and their gradients of every query head.
pub proof fn flash_attn_backward_bf16_gqa_has_room(
    q_len: int, k_len: int, v_len: int, do_len: int, dq_len: int, dk_len: int, dv_len: int,
    batch: int, heads: int, kv: int, seq: int, d: int, scale: F32, causal: bool,
)
    requires
        batch >= 0,
        heads >= 0,
        kv >= 0,
        seq >= 0,
        d >= 0,
    ensures
        ({
            let p = backward::flash_attn_backward_bf16_gqa_program(
                q_len, k_len, v_len, do_len, dq_len, dk_len, dv_len, batch, heads, kv, seq, d,
                scale, causal,
            );
            let n = batch * heads * seq * d;
            &&& p.end is Done ==> {
                &&& kv > 0 && heads % kv == 0
                &&& batch > 0 && heads > 0 && seq > 0 && d > 0
                &&& q_len >= n && do_len >= n && dq_len >= n
                &&& p.steps.len() >= 4
                &&& provides(p.steps[0], 0, Elem::U16, n)
                &&& provides(p.steps[1], 1, Elem::U16, n)
                &&& provides(p.steps[2], 2, Elem::U16, n)
                &&& provides(p.steps[3], 3, Elem::U16, n)
            }
            &&& kv > 0 && heads % kv == 0 && batch > 0 && heads > 0 && seq > 0 && d > 0 && n
                <= u32::MAX && batch * heads <= u32::MAX && batch * heads * seq <= u32::MAX && batch
                * kv <= u32::MAX && batch * kv * seq <= u32::MAX && batch * kv * seq * d
                <= u32::MAX && seq * seq <= u32::MAX && q_len >= n && do_len >= n && dq_len >= n
                ==> p.end is Done
        }),
{
    let n = batch * heads * seq * d;
    flash_attn_backward_bf16_has_room(
        q_len, n, n, do_len, dq_len, n, n, batch, heads, seq, d, scale, causal,
    );
}

/// Backward over an FP8 cache has room for the numbers of its keys and values, and is done where
/// plain backward is that is given these.
pub proof fn flash_attn_backward_fp8kv_bf16_has_room(
    q_len: int, k_len: int, v_len: int, do_len: int, dq_len: int, dk_len: int, dv_len: int,
    batch: int, heads: int, seq: int, d: int, scale: F32, kv_scale: F32, causal: bool,
)
    requires
        batch >= 0,
        heads >= 0,
        seq >= 0,
        d >= 0,
    ensures
        ({
            let p = backward::flash_attn_backward_fp8kv_bf16_program(
                q_len, k_len, v_len, do_len, dq_len, dk_len, dv_len, batch, heads, seq, d, scale,
                kv_scale, causal,
            );
            let n = batch * heads * seq * d;
            &&& p.end is Done <==> {
                &&& batch > 0 && heads > 0 && seq > 0 && d > 0
                &&& batch * heads <= u32::MAX && batch * heads * seq <= u32::MAX && n <= u32::MAX
                    && seq * seq <= u32::MAX
                &&& q_len >= n && do_len >= n && dq_len >= n && dk_len >= n && dv_len >= n
            }
            &&& p.end is Done ==> p.steps.len() >= 2 && provides(p.steps[0], 0, Elem::U16, n)
                && provides(p.steps[1], 1, Elem::U16, n)
        }),
{
    let n = batch * heads * seq * d;
    flash_attn_backward_bf16_has_room(
        q_len, n, n, do_len, dq_len, dk_len, dv_len, batch, heads, seq, d, scale, causal,
    );
}

/// The steps of packed sequences follow the memory that they work in.
proof fn lemma_sequences_begin(
    p: ProgramView, cu: Seq<u32>, count: int, n: int, heads: int, d: int, scale: F32, causal: bool,
)
    ensures
        ({
            let steps = backward::backward_sequences(
                p, cu, count, n, heads, d, scale, causal,
            ).steps;
            &&& steps.len() >= p.steps.len()
            &&& forall|i: int| 0 <= i < p.steps.len() ==> steps[i] == #[trigger] p.steps[i]
        }),
    decreases count,
{
    if count > 0 {
        lemma_sequences_begin(p, cu, count - 1, n, heads, d, scale, causal);
        let earlier = backward::backward_sequences(p, cu, count - 1, n, heads, d, scale, causal);
        backward_packed::lemma_sequence_begins(earlier, cu, count - 1, n, heads, d, scale, causal);
        let steps = backward::backward_sequences(p, cu, count, n, heads, d, scale, causal).steps;
        assert forall|i: int| 0 <= i < p.steps.len() implies steps[i] == #[trigger] p.steps[i] by {
            assert(steps[i] == steps.subrange(0, earlier.steps.len() as int)[i]);
            assert(earlier.steps[i] == p.steps[i]);
        }
    }
}

/// Backward over packed sequences has seven scratch buffers with room for the longest sequence,
/// and so for every one.
pub proof fn flash_attn_backward_bf16_varlen_has_room(
    q_len: int, k_len: int, v_len: int, do_len: int, dq_len: int, dk_len: int, dv_len: int,
    cu: Seq<u32>, heads: int, d: int, scale: F32, causal: bool, i: int, j: int,
)
    requires
        heads >= 0,
        d >= 0,
        backward::flash_attn_backward_bf16_varlen_program(
            q_len, k_len, v_len, do_len, dq_len, dk_len, dv_len, cu, heads, d, scale, causal,
        ).end is Done,
        0 <= i < 7,
        0 <= j < cu.len() - 1,
    ensures
        ({
            let p = backward::flash_attn_backward_bf16_varlen_program(
                q_len, k_len, v_len, do_len, dq_len, dk_len, dv_len, cu, heads, d, scale, causal,
            );
            let need = cu.last() * heads * d;
            &&& p.steps.len() >= 7
            &&& p.steps[i] matches StepView::Alloc { scratch, elem, len, failure } && scratch == i
                && elem == Elem::U16 && len >= heads * (cu[j + 1] - cu[j]) * d
            &&& q_len >= need && k_len >= need && v_len >= need && do_len >= need
            &&& dq_len >= need && dk_len >= need && dv_len >= need
            &&& cu[0] == 0 && cu[j] <= cu[j + 1]
        }),
{
    let sequences = cu.len() - 1;
    let longest = backward::longest(cu, sequences);
    let n = heads * longest * d;
    let p = backward::varlen_prologue(n);
    lemma_sequences_begin(p, cu, sequences, n, heads, d, scale, causal);
    backward_laws::longest_is_longest(cu, sequences, j);
    assert(p.steps.len() == 7);
    let s = cu[j + 1] - cu[j];
    assert(heads * s * d <= n) by (nonlinear_arith)
        requires
            n == heads * longest * d,
            s <= longest,
            heads >= 0,
            d >= 0,
    ;
    let steps = backward::backward_sequences(p, cu, sequences, n, heads, d, scale, causal).steps;
    assert(steps[i] == p.steps[i]);
}

/// The gradients of a product are done exactly where the plain kernel or the tensor-core kernel
/// takes them, and have room for the transposed factor.
#[allow(non_snake_case)]
pub proof fn gemm_gradients_have_room(
    x_len: int, y_len: int, z_len: int, scale: F32, m: int, n: int, k: int,
)
    requires
        m >= 0,
        n >= 0,
        k >= 0,
    ensures
        ({
            let by_a = gemm::backward::gemm_bf16_backward_dA_mma_program(
                x_len, y_len, z_len, m, n, k,
            );
            let by_b = gemm::backward::gemm_bf16_backward_dB_mma_program(
                x_len, y_len, z_len, m, n, k,
            );
            let by_bytes = gemm::backward::gemm_fp8_w8a16_backward_dA_program(
                x_len, y_len, scale, z_len, m, n, k,
            );
            let some = m > 0 && n > 0 && k > 0;
            &&& by_a.end is Done ==> some && x_len >= m * n && y_len >= k * n && z_len >= m * k
            &&& some && x_len >= m * n && y_len >= k * n && z_len >= m * k && k * n <= u32::MAX
                ==> by_a.end is Done
            &&& by_a.end is Done && by_a.steps.len() > 1 ==> provides(
                by_a.steps[0],
                0,
                Elem::U16,
                k * n,
            )
            &&& by_a.end is Done ==> (by_a.steps.len() > 1 <==> m % 128 == 0 && k % 64 == 0 && n
                % 16 == 0)
            &&& by_b.end is Done ==> some && x_len >= m * k && y_len >= m * n && z_len >= k * n
            &&& some && x_len >= m * k && y_len >= m * n && z_len >= k * n && m * k <= u32::MAX
                ==> by_b.end is Done
            &&& by_b.end is Done && by_b.steps.len() > 1 ==> provides(
                by_b.steps[0],
                0,
                Elem::U16,
                m * k,
            )
            &&& by_b.end is Done ==> (by_b.steps.len() > 1 <==> k % 128 == 0 && n % 64 == 0 && m
                % 16 == 0)
            &&& by_bytes.end is Done ==> by_bytes.steps.len() >= 2 && provides(
                by_bytes.steps[0],
                0,
                Elem::U16,
                k * n,
            )
        }),
{
    assert(m * k == k * m) by (nonlinear_arith);
    assert(n * k == k * n) by (nonlinear_arith);
}

/// Ring attention on one GPU has room for the partial results and logarithms of every chunk, and
/// is done exactly where at most 64 equal chunks make up the keys and the sizes fit in 32 bits.
pub proof fn ring_attention_bf16_has_room(
    q_len: int, k_len: int, v_len: int, o_len: int, batch: int, num_heads: int, seq_q: int,
    seq_kv: int, scale: F32, num_chunks: int,
)
    requires
        num_chunks >= 0,
    ensures
        ({
            let p = ring_attention::ring_attention_bf16_program(
                q_len, k_len, v_len, o_len, batch, num_heads, seq_q, seq_kv, scale, num_chunks,
            );
            let rows = num_chunks * batch * num_heads * seq_q;
            &&& p.end is Done <==> 0 < num_chunks <= 64 && seq_kv % num_chunks == 0 && num_chunks
                * batch <= u32::MAX && num_chunks * batch * num_heads <= u32::MAX && rows * 128
                <= u32::MAX
            &&& p.end is Done ==> {
                &&& p.steps.len() == num_chunks + 3
                &&& provides(p.steps[0], 0, Elem::F32, rows * 128)
                &&& provides(p.steps[1], 1, Elem::F32, rows)
            }
        }),
{
    let rows = num_chunks * batch * num_heads * seq_q;
    let start = ProgramView::empty().step(ring_attention::partial(0, rows * 128)).step(
        ring_attention::partial(1, rows),
    );
    lemma_chunks_begin(
        start, num_chunks, q_len, k_len, v_len, batch, num_heads, seq_q, seq_kv, scale, num_chunks,
    );
    assert(start.steps.len() == 2);
    let swept = ring_attention::ring_chunks(
        start, num_chunks, q_len, k_len, v_len, batch, num_heads, seq_q, seq_kv, scale, num_chunks,
    );
    assert(swept.steps[0] == start.steps[0]);
    assert(swept.steps[1] == start.steps[1]);
}

proof fn lemma_chunks_begin(
    p: ProgramView, n: int, q_len: int, k_len: int, v_len: int, batch: int, num_heads: int,
    seq_q: int, seq_kv: int, scale: F32, num_chunks: int,
)
    requires
        p.end is Done,
        n >= 0,
    ensures
        ({
            let r = ring_attention::ring_chunks(
                p, n, q_len, k_len, v_len, batch, num_heads, seq_q, seq_kv, scale, num_chunks,
            );
            &&& r.end is Done
            &&& r.steps.len() == p.steps.len() + n
            &&& forall|i: int| 0 <= i < p.steps.len() ==> r.steps[i] == #[trigger] p.steps[i]
        }),
    decreases n,
{
    if n > 0 {
        lemma_chunks_begin(
            p, n - 1, q_len, k_len, v_len, batch, num_heads, seq_q, seq_kv, scale, num_chunks,
        );
    }
}

/// Deterministic products stage one row per shard, in their own memory where the scratch is too
/// small, and are never told of more room than there is.
pub proof fn deterministic_products_have_room(
    x_len: int, b_len: int, b_scale: F32, scratch_len: int, out_len: int, n: int, k: int,
    shards: int,
)
    ensures
        ({
            let p = managed::gemv_w8a16_split_k_managed_program(
                x_len, b_len, b_scale, scratch_len, out_len, n, k, shards, true,
            );
            let w = managed::gemv_w8a16_split_k_w16_managed_program(
                x_len, b_len, b_scale, scratch_len, out_len, n, k, shards, true,
            );
            let b = managed::gemv_bf16_split_k_managed_program(
                x_len, b_len, scratch_len, out_len, n, k, shards, true,
            );
            &&& p.end is Done && scratch_len < shards * n ==> p.steps.len() == 3 && provides(
                p.steps[0],
                0,
                Elem::F32,
                shards * n,
            )
            &&& p.end is Done && scratch_len >= shards * n ==> p.steps.len() == 2
            &&& w.end is Done && scratch_len < shards * n ==> w.steps.len() == 3 && provides(
                w.steps[0],
                0,
                Elem::F32,
                shards * n,
            )
            &&& w.end is Done && scratch_len >= shards * n ==> w.steps.len() == 2
            &&& b.end is Done && scratch_len < shards * n ==> b.steps.len() == 1
            &&& b.end is Done && scratch_len >= shards * n ==> b.steps.len() == 2
        }),
{
}

/// Decoding in splits is done exactly where no dimension is zero, groups of 16 heads are full, at
/// most 64 splits are asked for and the sizes fit in 32 bits.
pub proof fn mla_decode_bf16_mma_split_is_done(
    q_c_len: int, q_r_len: int, c_kv_len: int, k_rope_len: int, o_len: int, batch: int,
    num_heads: int, seq_kv: int, num_splits: int, scale: F32,
)
    requires
        batch >= 0,
        num_heads >= 0,
        seq_kv >= 0,
        num_splits >= 0,
    ensures
        mla_auto::mla_decode_bf16_mma_split_program(
            q_c_len, q_r_len, c_kv_len, k_rope_len, o_len, batch, num_heads, seq_kv, num_splits,
            scale,
        ).end is Done <==> {
            &&& batch > 0 && num_heads > 0 && seq_kv > 0 && 0 < num_splits <= 64
            &&& num_heads % 16 == 0
            &&& batch * seq_kv <= u32::MAX
            &&& num_splits * batch <= u32::MAX
            &&& num_splits * batch * num_heads <= u32::MAX
        },
{
}

/// Backward over pages has room for the keys, the values and their gradients of all pages, and where
/// the sequence does not fill its last page also for the queries, their output gradient and their
/// gradient filled up to whole pages.
pub proof fn flash_attn_backward_bf16_paged_has_room(
    q_len: int, k_paged_len: int, v_paged_len: int, do_len: int, dq_len: int, dk_paged_len: int,
    dv_paged_len: int, page_table_len: int, batch: int, num_heads: int, num_kv_heads: int,
    seq: int, d: int, page_size: int, max_pages: int, scale: F32, causal: bool,
)
    requires
        batch > 0,
        num_heads > 0,
        num_kv_heads > 0,
        seq > 0,
        d > 0,
        page_size > 0,
    ensures
        ({
            let tokens = shape::ceil_div(seq, page_size) * page_size;
            let n = batch * num_kv_heads * tokens * d;
            let filled = batch * num_heads * tokens * d;
            let p = backward::flash_attn_backward_bf16_paged_program(
                q_len, k_paged_len, v_paged_len, do_len, dq_len, dk_paged_len, dv_paged_len,
                page_table_len, batch, num_heads, num_kv_heads, seq, seq, d, page_size, max_pages,
                scale, causal,
            );
            &&& p.end is Done ==> {
                &&& p.steps.len() >= 6
                &&& provides(p.steps[0], 0, Elem::U16, n)
                &&& provides(p.steps[1], 1, Elem::U16, n)
                &&& provides(p.steps[2], 2, Elem::U16, n)
                &&& provides(p.steps[3], 3, Elem::U16, n)
            }
            &&& p.end is Done && seq != tokens ==> {
                &&& p.steps.len() >= 9
                &&& provides(p.steps[6], 4, Elem::U16, filled)
                &&& provides(p.steps[7], 5, Elem::U16, filled)
                &&& provides(p.steps[8], 6, Elem::U16, filled)
            }
        }),
{
    let tokens = shape::ceil_div(seq, page_size) * page_size;
    let n = batch * num_kv_heads * tokens * d;
    let heads = batch * num_heads;
    let filled = heads * tokens * d;
    let gathered = backward::gathered_pages(
        k_paged_len, v_paged_len, page_table_len, n, batch, num_kv_heads, d, page_size, max_pages,
        tokens,
    );
    let room = gathered.step(backward::scratch(4, filled, "alloc q_pad: "@)).step(
        backward::scratch(5, filled, "alloc do_pad: "@),
    ).step(backward::scratch(6, filled, "alloc dq_pad: "@));
    let half = backward::copy_heads(
        room, heads, Slot::Param(0), seq, Slot::Scratch(4), tokens, seq, d,
    );
    let ready = backward::copy_heads(
        half, heads, Slot::Param(3), seq, Slot::Scratch(5), tokens, seq, d,
    );
    let run = ready.then_run(
        backward::gathered_gradients(
            filled, filled, filled, n, batch, num_heads, num_kv_heads, tokens, d, scale, causal,
        ),
        backward::padded_binding(),
    );
    let p = backward::flash_attn_backward_bf16_paged_program(
        q_len, k_paged_len, v_paged_len, do_len, dq_len, dk_paged_len, dv_paged_len,
        page_table_len, batch, num_heads, num_kv_heads, seq, seq, d, page_size, max_pages, scale,
        causal,
    );
    assert(heads > 0) by (nonlinear_arith)
        requires
            heads == batch * num_heads,
            batch > 0,
            num_heads > 0,
    ;
    backward::lemma_copies_keep_the_end(
        room, heads, Slot::Param(0), seq, Slot::Scratch(4), tokens, seq, d,
    );
    backward::lemma_copies_keep_the_end(
        half, heads, Slot::Param(3), seq, Slot::Scratch(5), tokens, seq, d,
    );
    backward::lemma_copies_keep_the_end(
        run, heads, Slot::Scratch(6), tokens, Slot::Param(4), seq, seq, d,
    );
    if p.end is Done {
        assert(gathered.end is Done);
        assert(gathered.steps.len() == 6);
        assert(gathered.steps[0] == backward::scratch(0, n, "alloc k_flat: "@));
        assert(gathered.steps[1] == backward::scratch(1, n, "alloc v_flat: "@));
        assert(gathered.steps[2] == backward::scratch(2, n, "alloc dk_flat: "@));
        assert(gathered.steps[3] == backward::scratch(3, n, "alloc dv_flat: "@));
        if seq != tokens {
            assert(run.end is Done && ready.end is Done && half.end is Done && room.end is Done);
            backward_laws::lemma_copies_at(
                room, heads, Slot::Param(0), seq, Slot::Scratch(4), tokens, seq, d,
            );
            backward_laws::lemma_copies_at(
                half, heads, Slot::Param(3), seq, Slot::Scratch(5), tokens, seq, d,
            );
            backward_laws::lemma_copies_at(
                run, heads, Slot::Scratch(6), tokens, Slot::Param(4), seq, seq, d,
            );
            assert forall|k: int| 0 <= k < 9 implies #[trigger] p.steps[k] == room.steps[k] by {
                assert(half.steps[k] == room.steps[k]);
                assert(ready.steps[k] == half.steps[k]);
                assert(run.steps[k] == ready.steps[k]);
            }
            assert(room.steps[6] == backward::scratch(4, filled, "alloc q_pad: "@));
            assert(room.steps[7] == backward::scratch(5, filled, "alloc do_pad: "@));
            assert(room.steps[8] == backward::scratch(6, filled, "alloc dq_pad: "@));
            assert(p.steps[0] == room.steps[0] && p.steps[1] == room.steps[1] && p.steps[2]
                == room.steps[2] && p.steps[3] == room.steps[3]);
            assert(p.steps[6] == room.steps[6] && p.steps[7] == room.steps[7] && p.steps[8]
                == room.steps[8]);
        }
    }
}

proof fn lemma_ring_begins<T: RingTransport>(
    p: ProgramView, transport: &T, n: int, q_len: int, batch: int, num_heads: int, seq_q: int,
    seq_kv_local: int, scale: F32,
)
    ensures
        ({
            let r = ring_attention_distributed::ring_steps(
                p, transport, n, q_len, batch, num_heads, seq_q, seq_kv_local, scale,
            );
            &&& r.steps.len() >= p.steps.len()
            &&& forall|i: int| 0 <= i < p.steps.len() ==> r.steps[i] == #[trigger] p.steps[i]
        }),
    decreases n,
{
    if n > 0 {
        lemma_ring_begins(
            p, transport, n - 1, q_len, batch, num_heads, seq_q, seq_kv_local, scale,
        );
    }
}

/// Ring attention over several ranks has room for two blocks of keys and two of values, one pair to
/// send and one to receive, and for the partial results and logarithms of every rank's block.
pub proof fn ring_attention_bf16_distributed_has_room<T: RingTransport>(
    transport: &T, q_len: int, k_local_len: int, v_local_len: int, o_len: int, batch: int,
    num_heads: int, seq_q: int, seq_kv_local: int, scale: F32,
)
    ensures
        ({
            let p = ring_attention_distributed::ring_attention_bf16_distributed_program(
                transport, q_len, k_local_len, v_local_len, o_len, batch, num_heads, seq_q,
                seq_kv_local, scale,
            );
            let kv = batch * num_heads * seq_kv_local * 128;
            let rows = transport.ranks() * batch * num_heads * seq_q;
            p.end is Done ==> {
                &&& p.steps.len() >= 8
                &&& provides(p.steps[0], 0, Elem::U16, kv)
                &&& provides(p.steps[1], 1, Elem::U16, kv)
                &&& provides(p.steps[2], 2, Elem::U16, kv)
                &&& provides(p.steps[3], 3, Elem::U16, kv)
                &&& provides(p.steps[6], 4, Elem::F32, rows * 128)
                &&& provides(p.steps[7], 5, Elem::F32, rows)
            }
        }),
{
    let kv = batch * num_heads * seq_kv_local * 128;
    let rows = transport.ranks() * batch * num_heads * seq_q;
    let start = ring_attention_distributed::ring_prologue(kv, rows);
    lemma_ring_begins(
        start, transport, transport.ranks() as int, q_len, batch, num_heads, seq_q, seq_kv_local,
        scale,
    );
    assert(start.steps.len() == 8);
    assert(provides(start.steps[0], 0, Elem::U16, kv));
    assert(provides(start.steps[1], 1, Elem::U16, kv));
    assert(provides(start.steps[2], 2, Elem::U16, kv));
    assert(provides(start.steps[3], 3, Elem::U16, kv));
    assert(provides(start.steps[6], 4, Elem::F32, rows * 128));
    assert(provides(start.steps[7], 5, Elem::F32, rows));
}

} // verus!
