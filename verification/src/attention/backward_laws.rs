//! What the gradients of attention amount to: accepted requests run to their end, and the parts
//! that are worked on one after the other make up the whole.
use crate::attention::backward;
use crate::attention::backward_memory;
use crate::attention::reorder;
use crate::gemm::dense;
use crate::gemm::gradient;
use crate::memory;
use crate::plan::{Arg, F32, Place, Slot};
use crate::program::{ProgramView, StepView};
use crate::shape;
use vstd::prelude::*;

verus! {

/// The slices of the heads lie one behind the other, and together they make up the tensor.
pub proof fn head_slices_make_up_the_tensor(heads: int, seq: int, d: int, head: int)
    requires
        0 <= head < heads,
        seq >= 0,
        d >= 0,
    ensures
        head * (seq * d) + seq * d == (head + 1) * (seq * d),
        0 <= head * (seq * d),
        head * (seq * d) + seq * d <= heads * (seq * d),
        heads * (seq * d) == heads * seq * d,
{
    let n = seq * d;
    assert(n >= 0) by (nonlinear_arith)
        requires
            n == seq * d,
            seq >= 0,
            d >= 0,
    ;
    assert(head * n + n == (head + 1) * n && 0 <= head * n && head * n + n <= heads * n)
        by (nonlinear_arith)
        requires
            0 <= head < heads,
            n >= 0,
    ;
    assert(heads * (seq * d) == heads * seq * d) by (nonlinear_arith);
}

pub(crate) proof fn lemma_head_is_done(
    p: ProgramView, head: int, seq: int, d: int, scale: F32, causal: bool,
)
    requires
        p.end is Done,
        seq > 0,
        d > 0,
    ensures
        backward::backward_head(p, head, seq, d, scale, causal).end is Done,
        backward::backward_head(p, head, seq, d, scale, causal).steps.len() == p.steps.len() + 8,
{
    let n = seq * d;
    let w = seq * seq;
    assert(n > 0 && w > 0) by (nonlinear_arith)
        requires
            n == seq * d,
            w == seq * seq,
            seq > 0,
            d > 0,
    ;
    assert(gradient::gemm_bf16_backward_dB_view_plan(w, n, n, seq, d, seq) is Launch);
    assert(gradient::gemm_bf16_backward_dA_view_plan(n, n, w, seq, d, seq) is Launch);
    assert(dense::gemm_bf16_view_plan(w, n, n, seq, d, seq) is Launch);
}

pub(crate) proof fn lemma_heads_are_done(
    p: ProgramView, heads: int, seq: int, d: int, scale: F32, causal: bool,
)
    requires
        p.end is Done,
        heads >= 0,
        seq > 0,
        d > 0,
    ensures
        backward::backward_heads(p, heads, seq, d, scale, causal).end is Done,
        backward::backward_heads(p, heads, seq, d, scale, causal).steps.len() == p.steps.len() + 8
            * heads,
    decreases heads,
{
    if heads > 0 {
        lemma_heads_are_done(p, heads - 1, seq, d, scale, causal);
        lemma_head_is_done(
            backward::backward_heads(p, heads - 1, seq, d, scale, causal),
            heads - 1,
            seq,
            d,
            scale,
            causal,
        );
    }
}

/// Flash attention backward either is refused before its first step, or loads three kernels,
/// allocates three scratch buffers, launches eight kernels per head, and is done.
pub proof fn flash_attn_backward_bf16_is_all_or_nothing(
    q_len: int, k_len: int, v_len: int, do_len: int, dq_len: int, dk_len: int, dv_len: int,
    batch: int, num_heads: int, seq: int, d: int, scale: F32, causal: bool,
)
    requires
        batch >= 0,
        num_heads >= 0,
        seq >= 0,
        d >= 0,
    ensures
        ({
            let p = backward::flash_attn_backward_bf16_program(
                q_len, k_len, v_len, do_len, dq_len, dk_len, dv_len, batch, num_heads, seq, d,
                scale, causal,
            );
            if p.end is Done {
                p.steps.len() == 6 + 8 * (batch * num_heads)
            } else {
                p.steps.len() == 0
            }
        }),
{
    if batch > 0 && num_heads > 0 && seq > 0 && d > 0 {
        assert(batch * num_heads >= 0) by (nonlinear_arith)
            requires
                batch > 0,
                num_heads > 0,
        ;
        lemma_heads_are_done(
            backward::backward_prologue(seq, causal),
            batch * num_heads,
            seq,
            d,
            scale,
            causal,
        );
    }
}

/// A cache of whole pages holds the sequence, with less than one page to spare.
pub proof fn pages_hold_the_sequence(seq_kv: int, page_size: int)
    requires
        seq_kv >= 0,
        page_size > 0,
    ensures
        ({
            let s_kv = shape::ceil_div(seq_kv, page_size) * page_size;
            s_kv % page_size == 0 && seq_kv <= s_kv < seq_kv + page_size
        }),
{
    shape::lemma_ceil_div(seq_kv, page_size);
    vstd::arithmetic::div_mod::lemma_mod_multiples_basic(
        shape::ceil_div(seq_kv, page_size),
        page_size,
    );
}

/// No sequence is longer than the longest.
pub proof fn longest_is_longest(cu: Seq<u32>, n: int, j: int)
    requires
        0 <= j < n < cu.len(),
    ensures
        cu[j + 1] - cu[j] <= backward::longest(cu, n),
        0 <= backward::longest(cu, n),
    decreases n,
{
    assert(backward::longest(cu, 0) == 0);
    if j < n - 1 {
        longest_is_longest(cu, n - 1, j);
    } else if n > 1 {
        longest_is_longest(cu, n - 1, 0);
    }
}

/// The tokens of the sequences lie one behind the other, and together they make up the packed
/// tensor.
pub proof fn sequences_make_up_the_tensor(cu: Seq<u32>, j: int, hd: int)
    requires
        cu.len() >= 2,
        cu[0] == 0,
        backward::nondecreasing(cu),
        0 <= j < cu.len() - 1,
        hd >= 0,
    ensures
        cu[j] * hd + (cu[j + 1] - cu[j]) * hd == cu[j + 1] * hd,
        0 <= cu[j] * hd,
        cu[j + 1] * hd <= cu.last() * hd,
        cu[0] * hd == 0,
{
    lemma_boundaries(cu, j + 1, cu.len() - 1);
    assert(cu[j] * hd + (cu[j + 1] - cu[j]) * hd == cu[j + 1] * hd) by (nonlinear_arith);
    assert(0 <= cu[j] * hd && cu[j + 1] * hd <= cu.last() * hd) by (nonlinear_arith)
        requires
            hd >= 0,
            cu[j + 1] <= cu.last(),
    ;
}

pub(crate) proof fn lemma_boundaries(cu: Seq<u32>, i: int, j: int)
    requires
        backward::nondecreasing(cu),
        0 <= i <= j < cu.len(),
    ensures
        cu[i] <= cu[j],
    decreases j - i,
{
    if i < j {
        lemma_boundaries(cu, i, j - 1);
        assert(cu[j - 1] <= cu[(j - 1) + 1]);
    }
}

proof fn lemma_sequence_is_done(
    p: ProgramView, cu: Seq<u32>, j: int, n: int, num_heads: int, d: int, scale: F32, causal: bool,
)
    requires
        p.end is Done,
        0 <= cu[j + 1] - cu[j],
        num_heads > 0,
        d > 0,
        num_heads * (cu[j + 1] - cu[j]) * d <= n <= u32::MAX,
        (cu[j + 1] - cu[j]) * (cu[j + 1] - cu[j]) <= u32::MAX,
    ensures
        backward::backward_sequence(p, cu, j, n, num_heads, d, scale, causal).end is Done,
{
    let s = cu[j + 1] - cu[j];
    if s > 0 {
        let bhsd = 1 * num_heads * s * d;
        assert(num_heads * s <= bhsd && num_heads <= bhsd) by (nonlinear_arith)
            requires
                bhsd == 1 * num_heads * s * d,
                num_heads > 0,
                s > 0,
                d > 0,
        ;
        lemma_heads_are_done(
            backward::backward_prologue(s, causal),
            1 * num_heads,
            s,
            d,
            scale,
            causal,
        );
        assert(backward::flash_attn_backward_bf16_program(
            n, n, n, n, n, n, n, 1, num_heads, s, d, scale, causal,
        ).end is Done);
    }
}

proof fn lemma_sequences_are_done(
    p: ProgramView, cu: Seq<u32>, j: int, max_s: int, num_heads: int, d: int, scale: F32,
    causal: bool,
)
    requires
        p.end is Done,
        backward::nondecreasing(cu),
        0 <= j < cu.len(),
        forall|i: int| 0 <= i < cu.len() - 1 ==> #[trigger] cu[i + 1] - cu[i] <= max_s,
        num_heads > 0,
        d > 0,
        num_heads * max_s * d <= u32::MAX,
        max_s * max_s <= u32::MAX,
    ensures
        backward::backward_sequences(
            p, cu, j, num_heads * max_s * d, num_heads, d, scale, causal,
        ).end is Done,
    decreases j,
{
    if j > 0 {
        let n = num_heads * max_s * d;
        lemma_sequences_are_done(p, cu, j - 1, max_s, num_heads, d, scale, causal);
        let s = cu[(j - 1) + 1] - cu[j - 1];
        assert(0 <= s <= max_s);
        assert(num_heads * s * d <= n && s * s <= max_s * max_s) by (nonlinear_arith)
            requires
                n == num_heads * max_s * d,
                0 <= s <= max_s,
                num_heads > 0,
                d > 0,
        ;
        lemma_sequence_is_done(
            backward::backward_sequences(p, cu, j - 1, n, num_heads, d, scale, causal),
            cu,
            j - 1,
            n,
            num_heads,
            d,
            scale,
            causal,
        );
    }
}

/// Backward over packed sequences is done for every accepted request with heads to work on:
/// the scratch buffers have room for each sequence.
pub proof fn flash_attn_backward_bf16_varlen_is_done(
    q_len: int, k_len: int, v_len: int, do_len: int, dq_len: int, dk_len: int, dv_len: int,
    cu: Seq<u32>, num_heads: int, d: int, scale: F32, causal: bool,
)
    requires
        cu.len() >= 2,
        cu[0] == 0,
        backward::nondecreasing(cu),
        num_heads > 0,
        d > 0,
        num_heads * d <= u32::MAX,
        ({
            let need = cu.last() * num_heads * d;
            let max_s = backward::longest(cu, cu.len() - 1);
            &&& need <= u32::MAX
            &&& q_len >= need && k_len >= need && v_len >= need && do_len >= need
            &&& dq_len >= need && dk_len >= need && dv_len >= need
            &&& max_s * max_s <= u32::MAX
        }),
    ensures
        backward::flash_attn_backward_bf16_varlen_program(
            q_len, k_len, v_len, do_len, dq_len, dk_len, dv_len, cu, num_heads, d, scale, causal,
        ).end is Done,
{
    let total = cu.last() as int;
    let need = total * num_heads * d;
    let sequences = cu.len() - 1;
    let max_s = backward::longest(cu, sequences);
    lemma_longest_in_total(cu, sequences);
    assert(num_heads * max_s * d <= need && num_heads * max_s <= num_heads * max_s * d && total
        * num_heads <= need) by (nonlinear_arith)
        requires
            need == total * num_heads * d,
            0 <= max_s <= total,
            num_heads > 0,
            d > 0,
    ;
    assert forall|i: int| 0 <= i < cu.len() - 1 implies #[trigger] cu[i + 1] - cu[i] <= max_s by {
        longest_is_longest(cu, sequences, i);
    }
    lemma_sequences_are_done(
        backward::varlen_prologue(num_heads * max_s * d),
        cu,
        sequences,
        max_s,
        num_heads,
        d,
        scale,
        causal,
    );
}

proof fn lemma_longest_in_total(cu: Seq<u32>, n: int)
    requires
        cu.len() >= 1,
        cu[0] == 0,
        backward::nondecreasing(cu),
        0 <= n < cu.len(),
    ensures
        0 <= backward::longest(cu, n) <= cu.last(),
    decreases n,
{
    if n > 0 {
        lemma_longest_in_total(cu, n - 1);
        lemma_boundaries(cu, n, cu.len() - 1);
    }
}

/// Copying heads takes one step per head, in order: the rows of a head lie together in both
/// tensors, inside the head's own slice.
pub proof fn copies_take_every_head(
    p: ProgramView, heads: int, from: Slot, from_rows: int, to: Slot, to_rows: int, rows: int,
    d: int, head: int,
)
    requires
        p.end is Done,
        0 <= head < heads,
        0 <= rows <= from_rows,
        rows <= to_rows,
        d >= 0,
    ensures
        ({
            let r = backward::copy_heads(p, heads, from, from_rows, to, to_rows, rows, d);
            &&& r.steps.len() == p.steps.len() + heads
            &&& r.steps.take(p.steps.len() as int) == p.steps
            &&& r.steps[p.steps.len() + head] == StepView::Copy {
                from: Place { slot: from, start: (head * (from_rows * d)) as u64 },
                to: Place { slot: to, start: (head * (to_rows * d)) as u64 },
                len: rows * d,
            }
        }),
        0 <= head * (from_rows * d),
        head * (from_rows * d) + rows * d <= (head + 1) * (from_rows * d),
        0 <= head * (to_rows * d),
        head * (to_rows * d) + rows * d <= (head + 1) * (to_rows * d),
{
    lemma_copies_at(p, heads, from, from_rows, to, to_rows, rows, d);
    let r = backward::copy_heads(p, heads, from, from_rows, to, to_rows, rows, d);
    assert(r.steps.take(p.steps.len() as int) =~= p.steps);
    assert(copied_head(
        r.steps, p.steps.len() as int, head, from, from_rows, to, to_rows, rows, d,
    ));
    assert(0 <= head * (from_rows * d) && head * (from_rows * d) + rows * d <= (head + 1) * (
    from_rows * d)) by (nonlinear_arith)
        requires
            0 <= head,
            0 <= rows <= from_rows,
            d >= 0,
    ;
    assert(0 <= head * (to_rows * d) && head * (to_rows * d) + rows * d <= (head + 1) * (to_rows
        * d)) by (nonlinear_arith)
        requires
            0 <= head,
            0 <= rows <= to_rows,
            d >= 0,
    ;
}

/// Whether step number `head` after the first `first` steps copies that head.
pub open spec fn copied_head(
    steps: Seq<StepView>, first: int, head: int, from: Slot, from_rows: int, to: Slot,
    to_rows: int, rows: int, d: int,
) -> bool {
    steps[first + head] == StepView::Copy {
        from: Place { slot: from, start: (head * (from_rows * d)) as u64 },
        to: Place { slot: to, start: (head * (to_rows * d)) as u64 },
        len: rows * d,
    }
}

pub(crate) proof fn lemma_copies_at(
    p: ProgramView, heads: int, from: Slot, from_rows: int, to: Slot, to_rows: int, rows: int,
    d: int,
)
    requires
        p.end is Done,
        heads >= 0,
    ensures
        ({
            let r = backward::copy_heads(p, heads, from, from_rows, to, to_rows, rows, d);
            &&& r.end is Done
            &&& r.steps.len() == p.steps.len() + heads
            &&& forall|k: int| 0 <= k < p.steps.len() ==> r.steps[k] == p.steps[k]
            &&& forall|head: int|
                0 <= head < heads ==> #[trigger] copied_head(
                    r.steps, p.steps.len() as int, head, from, from_rows, to, to_rows, rows, d,
                )
        }),
    decreases heads,
{
    if heads > 0 {
        lemma_copies_at(p, heads - 1, from, from_rows, to, to_rows, rows, d);
        let before = backward::copy_heads(p, heads - 1, from, from_rows, to, to_rows, rows, d);
        let r = backward::copy_heads(p, heads, from, from_rows, to, to_rows, rows, d);
        assert forall|head: int| 0 <= head < heads implies #[trigger] copied_head(
            r.steps, p.steps.len() as int, head, from, from_rows, to, to_rows, rows, d,
        ) by {
            if head < heads - 1 {
                assert(copied_head(
                    before.steps, p.steps.len() as int, head, from, from_rows, to, to_rows, rows,
                    d,
                ));
            }
        }
    }
}

proof fn lemma_gathered_gradients_are_done(
    q_len: int, do_len: int, dq_len: int, batch: int, num_heads: int, num_kv_heads: int, s_kv: int,
    d: int, scale: F32, causal: bool,
)
    requires
        batch > 0,
        num_heads > 0,
        num_kv_heads > 0,
        num_heads % num_kv_heads == 0,
        s_kv > 0,
        d > 0,
        batch * num_heads * s_kv * d <= u32::MAX,
        s_kv * s_kv <= u32::MAX,
    ensures
        ({
            let n = batch * num_kv_heads * s_kv * d;
            let all = batch * num_heads * s_kv * d;
            let p = backward::gathered_gradients(
                q_len, do_len, dq_len, n, batch, num_heads, num_kv_heads, s_kv, d, scale, causal,
            );
            &&& p.end !is Undefined
            &&& p.end is Done <==> q_len >= all && do_len >= all && dq_len >= all
        }),
{
    let n = batch * num_kv_heads * s_kv * d;
    let all = batch * num_heads * s_kv * d;
    lemma_key_heads(batch, num_heads, num_kv_heads, s_kv, d);
    lemma_heads_are_done(
        backward::backward_prologue(s_kv, causal), batch * num_heads, s_kv, d, scale, causal,
    );
}

/// Key heads that divide the query heads are no more than they are.
pub(crate) proof fn lemma_key_heads(batch: int, num_heads: int, num_kv_heads: int, s_kv: int, d: int)
    requires
        batch > 0,
        num_heads > 0,
        num_kv_heads > 0,
        num_heads % num_kv_heads == 0,
        s_kv > 0,
        d > 0,
    ensures
        num_kv_heads <= num_heads,
        0 < batch * num_kv_heads <= batch * num_heads,
        batch * num_kv_heads * s_kv <= batch * num_heads * s_kv,
        batch * num_kv_heads * s_kv * d <= batch * num_heads * s_kv * d,
        batch * num_heads <= batch * num_heads * s_kv <= batch * num_heads * s_kv * d,
        num_kv_heads * d <= batch * num_heads * s_kv * d,
        s_kv <= batch * num_heads * s_kv * d,
{
    if num_kv_heads > num_heads {
        vstd::arithmetic::div_mod::lemma_small_mod(num_heads as nat, num_kv_heads as nat);
    }
    let a = batch * num_kv_heads;
    let b = batch * num_heads;
    assert(0 < a <= b && num_kv_heads <= a) by (nonlinear_arith)
        requires
            a == batch * num_kv_heads,
            b == batch * num_heads,
            0 < num_kv_heads <= num_heads,
            batch > 0,
    ;
    assert(a * s_kv <= b * s_kv && b <= b * s_kv && s_kv <= b * s_kv) by (nonlinear_arith)
        requires
            0 < a <= b,
            s_kv > 0,
    ;
    assert(a * s_kv * d <= b * s_kv * d && b * s_kv <= b * s_kv * d && a * d <= b * s_kv * d)
        by (nonlinear_arith)
        requires
            0 < a <= b,
            a * s_kv <= b * s_kv,
            b <= b * s_kv,
            s_kv > 0,
            d > 0,
    ;
    assert(num_kv_heads * d <= a * d) by (nonlinear_arith)
        requires
            num_kv_heads <= a,
            d > 0,
    ;
}

/// Backward against a paged cache is done exactly when the queries, their output gradient and
/// their gradient hold `[B, H_q, Sq, D]` elements each, whether or not the sequence fills its
/// last page.
pub proof fn flash_attn_backward_bf16_paged_takes_its_shapes(
    q_len: int, k_paged_len: int, v_paged_len: int, do_len: int, dq_len: int, dk_paged_len: int,
    dv_paged_len: int, page_table_len: int, batch: int, num_heads: int, num_kv_heads: int,
    seq: int, d: int, page_size: int, max_pages: int, scale: F32, causal: bool,
)
    requires
        batch > 0,
        num_heads > 0,
        num_kv_heads > 0,
        num_heads % num_kv_heads == 0,
        seq > 0,
        d > 0,
        page_size > 0,
        ({
            let s_kv = shape::ceil_div(seq, page_size) * page_size;
            batch * num_heads * s_kv * d <= u32::MAX && s_kv * s_kv <= u32::MAX
        }),
    ensures
        ({
            let need = batch * num_heads * seq * d;
            backward::flash_attn_backward_bf16_paged_program(
                q_len, k_paged_len, v_paged_len, do_len, dq_len, dk_paged_len, dv_paged_len,
                page_table_len, batch, num_heads, num_kv_heads, seq, seq, d, page_size, max_pages,
                scale, causal,
            ).end is Done <==> q_len >= need && do_len >= need && dq_len >= need
        }),
{
    let s_kv = shape::ceil_div(seq, page_size) * page_size;
    let n = batch * num_kv_heads * s_kv * d;
    let heads = batch * num_heads;
    let padded = heads * s_kv * d;
    pages_hold_the_sequence(seq, page_size);
    lemma_key_heads(batch, num_heads, num_kv_heads, s_kv, d);
    lemma_gathered_gradients_are_done(
        q_len, do_len, dq_len, batch, num_heads, num_kv_heads, s_kv, d, scale, causal,
    );
    lemma_gathered_gradients_are_done(
        padded, padded, padded, batch, num_heads, num_kv_heads, s_kv, d, scale, causal,
    );
    let gathered = backward::gathered_pages(
        k_paged_len, v_paged_len, page_table_len, n, batch, num_kv_heads, d, page_size, max_pages,
        s_kv,
    );
    assert(gathered.end is Done);
    let room = gathered.step(backward::scratch(4, padded, "alloc q_pad: "@)).step(
        backward::scratch(5, padded, "alloc do_pad: "@),
    ).step(backward::scratch(6, padded, "alloc dq_pad: "@));
    backward::lemma_copies_keep_the_end(
        room, heads, Slot::Param(0), seq, Slot::Scratch(4), s_kv, seq, d,
    );
    let half = backward::copy_heads(
        room, heads, Slot::Param(0), seq, Slot::Scratch(4), s_kv, seq, d,
    );
    backward::lemma_copies_keep_the_end(
        half, heads, Slot::Param(3), seq, Slot::Scratch(5), s_kv, seq, d,
    );
    let ready = backward::padded_queries(gathered, padded, heads, seq, s_kv, d);
    assert(ready.end is Done);
    let run = ready.then_run(
        backward::gathered_gradients(
            padded, padded, padded, n, batch, num_heads, num_kv_heads, s_kv, d, scale, causal,
        ),
        backward::padded_binding(),
    );
    assert(run.end is Done);
    backward::lemma_copies_keep_the_end(
        run, heads, Slot::Scratch(6), s_kv, Slot::Param(4), seq, seq, d,
    );
}

/// Whether a step moves the tokens of sequence number `j` between tensor number `tensor` of the
/// caller and its head-major copy, and names nothing else of the caller: it begins at the first
/// token of the sequence and takes as many tokens as the sequence has.
pub open spec fn moves_sequence(
    s: StepView, cu: Seq<u32>, j: int, tensor: u32, num_heads: int, d: int,
) -> bool {
    let own = Arg::Buffer(Place::param_at(tensor, cu[j] * (num_heads * d)));
    let copy = Arg::Buffer(Place::of_scratch(tensor));
    let tokens = Arg::word(cu[j + 1] - cu[j]);
    &&& s matches StepView::Launch(l)
    &&& l.kernel == "permute_thd_htd_bf16"@
    &&& l.tensor_maps.len() == 0
    &&& if tensor < 4 {
        l.entry == "permute_thd_to_htd_bf16"@ && l.args =~= seq![
            own,
            copy,
            tokens,
            Arg::word(num_heads),
            Arg::word(d),
        ]
    } else {
        l.entry == "permute_htd_to_thd_bf16"@ && l.args =~= seq![
            copy,
            own,
            tokens,
            Arg::word(num_heads),
            Arg::word(d),
        ]
    }
}

/// Whether a step stays in scratch memory, or moves the tokens of one of the first `n` sequences.
pub open spec fn keeps_to_sequences(
    s: StepView, cu: Seq<u32>, n: int, num_heads: int, d: int,
) -> bool {
    s.stays_in_scratch() || exists|j: int, tensor: u32|
        0 <= j < n && cu[j] < cu[j + 1] && tensor < 7 && #[trigger] moves_sequence(
            s,
            cu,
            j,
            tensor,
            num_heads,
            d,
        )
}

proof fn lemma_sequence_keeps(
    p: ProgramView, cu: Seq<u32>, j: int, n: int, num_heads: int, d: int, scale: F32, causal: bool,
)
    requires
        0 <= j < cu.len() - 1,
        backward::nondecreasing(cu),
        forall|k: int|
            0 <= k < p.steps.len() ==> keeps_to_sequences(
                #[trigger] p.steps[k],
                cu,
                j,
                num_heads,
                d,
            ),
    ensures
        ({
            let r = backward::backward_sequence(p, cu, j, n, num_heads, d, scale, causal);
            forall|k: int|
                0 <= k < r.steps.len() ==> keeps_to_sequences(
                    #[trigger] r.steps[k],
                    cu,
                    j + 1,
                    num_heads,
                    d,
                )
        }),
{
    let s = cu[j + 1] - cu[j];
    assert(cu[j] <= cu[j + 1]);
    assert forall|k: int| 0 <= k < p.steps.len() implies keeps_to_sequences(
        #[trigger] p.steps[k],
        cu,
        j + 1,
        num_heads,
        d,
    ) by {
        assert(keeps_to_sequences(p.steps[k], cu, j, num_heads, d));
    }
    if s > 0 && p.end is Done {
        let a = lemma_token_move(p, cu, j, 0, n, num_heads, d);
        let a = lemma_token_move(a, cu, j, 1, n, num_heads, d);
        let a = lemma_token_move(a, cu, j, 2, n, num_heads, d);
        let a = lemma_token_move(a, cu, j, 3, n, num_heads, d);
        let inner = backward::flash_attn_backward_bf16_program(
            n, n, n, n, n, n, n, 1, num_heads, s, d, scale, causal,
        );
        let b = backward::sequence_binding();
        backward_memory::flash_attn_backward_bf16_is_closed(
            n, n, n, n, n, n, n, 1, num_heads, s, d, scale, causal,
        );
        let c = a.then_run(inner, b);
        assert forall|k: int| 0 <= k < c.steps.len() implies keeps_to_sequences(
            #[trigger] c.steps[k],
            cu,
            j + 1,
            num_heads,
            d,
        ) by {
            if k >= a.steps.len() {
                let m = k - a.steps.len();
                assert(inner.steps[m].known(7, inner.steps.take(m)));
                memory::bound_step_stays_in_scratch(inner.steps[m], b, inner.steps.take(m));
                assert(c.steps[k] == b.step(inner.steps[m]));
            } else {
                assert(c.steps[k] == a.steps[k]);
            }
        }
        if c.end is Done {
            let e = lemma_token_move(c, cu, j, 4, n, num_heads, d);
            let e = lemma_token_move(e, cu, j, 5, n, num_heads, d);
            let e = lemma_token_move(e, cu, j, 6, n, num_heads, d);
        }
    }
}

/// The tokens of sequence number `j` moved between a tensor and its copy, after the program `p`.
spec fn token_move(
    p: ProgramView, cu: Seq<u32>, j: int, tensor: u32, n: int, num_heads: int, d: int,
) -> ProgramView {
    let s = cu[j + 1] - cu[j];
    let hd = num_heads * d;
    let own = Place::param_at(tensor, cu[j] * hd);
    let copy = Place::of_scratch(tensor);
    if tensor < 4 {
        p.then_launch(
            reorder::permute_thd_to_htd_bf16_view_plan(s * hd, n, s, num_heads, d),
            seq![own, copy],
        )
    } else {
        p.then_launch(
            reorder::permute_htd_to_thd_bf16_view_plan(n, s * hd, s, num_heads, d),
            seq![copy, own],
        )
    }
}

/// One move of tokens after a program that keeps to its sequences.
proof fn lemma_token_move(
    p: ProgramView, cu: Seq<u32>, j: int, tensor: u32, n: int, num_heads: int, d: int,
) -> (r: ProgramView)
    requires
        p.end is Done,
        0 <= j,
        cu[j] < cu[j + 1],
        tensor < 7,
        forall|k: int|
            0 <= k < p.steps.len() ==> keeps_to_sequences(
                #[trigger] p.steps[k],
                cu,
                j + 1,
                num_heads,
                d,
            ),
    ensures
        r == token_move(p, cu, j, tensor, n, num_heads, d),
        r.end is Done,
        forall|k: int|
            0 <= k < r.steps.len() ==> keeps_to_sequences(
                #[trigger] r.steps[k],
                cu,
                j + 1,
                num_heads,
                d,
            ),
{
    let r = token_move(p, cu, j, tensor, n, num_heads, d);
    assert(moves_sequence(r.steps.last(), cu, j, tensor, num_heads, d));
    assert forall|k: int| 0 <= k < r.steps.len() implies keeps_to_sequences(
        #[trigger] r.steps[k],
        cu,
        j + 1,
        num_heads,
        d,
    ) by {
        if k < p.steps.len() {
            assert(r.steps[k] == p.steps[k]);
        } else {
            assert(r.steps[k] == r.steps.last());
        }
    }
    r
}

proof fn lemma_sequences_keep(
    p: ProgramView, cu: Seq<u32>, j: int, n: int, num_heads: int, d: int, scale: F32, causal: bool,
)
    requires
        0 <= j < cu.len(),
        backward::nondecreasing(cu),
        forall|k: int| 0 <= k < p.steps.len() ==> (#[trigger] p.steps[k]).stays_in_scratch(),
    ensures
        ({
            let r = backward::backward_sequences(p, cu, j, n, num_heads, d, scale, causal);
            forall|k: int|
                0 <= k < r.steps.len() ==> keeps_to_sequences(
                    #[trigger] r.steps[k],
                    cu,
                    j,
                    num_heads,
                    d,
                )
        }),
    decreases j,
{
    if j > 0 {
        lemma_sequences_keep(p, cu, j - 1, n, num_heads, d, scale, causal);
        lemma_sequence_keeps(
            backward::backward_sequences(p, cu, j - 1, n, num_heads, d, scale, causal), cu, j - 1,
            n, num_heads, d, scale, causal,
        );
    }
}

/// Backward over packed sequences keeps the sequences apart: every step stays in scratch memory
/// or moves the tokens of one sequence, from its first token to the first of the next one. So
/// the gradients of a sequence come from its own tokens, and nothing from the last boundary on
/// is written.
pub proof fn sequences_are_kept_apart(
    q_len: int, k_len: int, v_len: int, do_len: int, dq_len: int, dk_len: int, dv_len: int,
    cu: Seq<u32>, num_heads: int, d: int, scale: F32, causal: bool, k: int,
)
    requires
        num_heads >= 0,
        d >= 0,
        0 <= k < backward::flash_attn_backward_bf16_varlen_program(
            q_len, k_len, v_len, do_len, dq_len, dk_len, dv_len, cu, num_heads, d, scale, causal,
        ).steps.len(),
    ensures
        ({
            let s = backward::flash_attn_backward_bf16_varlen_program(
                q_len, k_len, v_len, do_len, dq_len, dk_len, dv_len, cu, num_heads, d, scale,
                causal,
            ).steps[k];
            s.stays_in_scratch() || exists|j: int, tensor: u32|
                0 <= j < cu.len() - 1 && cu[j] < cu[j + 1] <= cu.last() && tensor < 7
                    && #[trigger] moves_sequence(s, cu, j, tensor, num_heads, d)
        }),
{
    let sequences = cu.len() - 1;
    let n = num_heads * backward::longest(cu, sequences) * d;
    let p = backward::flash_attn_backward_bf16_varlen_program(
        q_len, k_len, v_len, do_len, dq_len, dk_len, dv_len, cu, num_heads, d, scale, causal,
    );
    lemma_sequences_keep(
        backward::varlen_prologue(n), cu, sequences, n, num_heads, d, scale, causal,
    );
    let s = p.steps[k];
    assert(keeps_to_sequences(s, cu, sequences, num_heads, d));
    if !s.stays_in_scratch() {
        let (j, tensor) = choose|j: int, tensor: u32|
            0 <= j < sequences && cu[j] < cu[j + 1] && tensor < 7 && #[trigger] moves_sequence(
                s,
                cu,
                j,
                tensor,
                num_heads,
                d,
            );
        lemma_boundaries(cu, j + 1, sequences);
        assert(moves_sequence(s, cu, j, tensor, num_heads, d));
    }
}

} // verus!
