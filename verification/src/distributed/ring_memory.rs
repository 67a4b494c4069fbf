//! The memory that ring attention uses: each program names only the buffers of the caller and
//! scratch memory that it has allocated before.
use crate::attention::paged;
use crate::distributed::ring_attention;
use crate::distributed::ring_attention_distributed;
use crate::distributed::transport::{LoopbackTransport, NcclTransport, RingTransport};
use crate::memory;
use crate::plan::{F32, Place};
use crate::program::{Elem, End, ProgramView, StepView};
use vstd::prelude::*;

verus! {

proof fn lemma_alloc(p: ProgramView, scratch: u32, elem: Elem, len: int)
    requires
        p.closed(4),
        p.provides(scratch as int),
        p.end is Done,
    ensures
        ({
            let s = StepView::Alloc { scratch, elem, len, failure: None };
            p.step(s).closed(4) && p.step(s).provides(scratch + 1) && p.step(s).end is Done
        }),
{
    let s = StepView::Alloc { scratch, elem, len, failure: None };
    memory::step_keeps_closed(p, s, 4);
    assert(s.grants(scratch));
    assert forall|i: u32| i < scratch + 1 implies #[trigger] memory::granted(
        p.step(s).steps,
        i,
    ) by {
        if i < scratch {
            assert(memory::granted(p.steps, i));
        }
    }
}

proof fn lemma_chunks(
    p: ProgramView, n: int, q_len: int, k_len: int, v_len: int, batch: int, num_heads: int,
    seq_q: int, seq_kv: int, scale: F32, num_chunks: int,
)
    requires
        p.closed(4),
        p.provides(2),
    ensures
        ring_attention::ring_chunks(
            p, n, q_len, k_len, v_len, batch, num_heads, seq_q, seq_kv, scale, num_chunks,
        ).closed(4),
        ring_attention::ring_chunks(
            p, n, q_len, k_len, v_len, batch, num_heads, seq_q, seq_kv, scale, num_chunks,
        ).provides(2),
    decreases n,
{
    if n > 0 {
        lemma_chunks(
            p, n - 1, q_len, k_len, v_len, batch, num_heads, seq_q, seq_kv, scale, num_chunks,
        );
        let before = ring_attention::ring_chunks(
            p, n - 1, q_len, k_len, v_len, batch, num_heads, seq_q, seq_kv, scale, num_chunks,
        );
        let lse = num_chunks * batch * num_heads * seq_q;
        assert(memory::granted(before.steps, 0) && memory::granted(before.steps, 1));
        memory::launch_keeps_closed(
            before,
            paged::flash_attn_bf16_v3_split_kv_plan(
                q_len, k_len, v_len, lse * 128, lse, batch, num_heads, seq_q, seq_kv, scale,
                num_chunks, n - 1,
            ),
            seq![
                Place::of_param(0), Place::of_param(1), Place::of_param(2), Place::of_scratch(0),
                Place::of_scratch(1),
            ],
            4,
        );
    }
}

/// Ring attention on one device uses its four buffers and two scratch buffers of its own.
pub proof fn ring_attention_bf16_is_closed(
    q_len: int, k_len: int, v_len: int, o_len: int, batch: int, num_heads: int, seq_q: int,
    seq_kv: int, scale: F32, num_chunks: int,
)
    ensures
        ring_attention::ring_attention_bf16_program(
            q_len, k_len, v_len, o_len, batch, num_heads, seq_q, seq_kv, scale, num_chunks,
        ).closed(4),
{
    let lse = num_chunks * batch * num_heads * seq_q;
    memory::nothing_is_closed(4, End::Done);
    let p = ProgramView::empty();
    lemma_alloc(p, 0, Elem::F32, lse * 128);
    let p = p.step(ring_attention::partial(0, lse * 128));
    lemma_alloc(p, 1, Elem::F32, lse);
    let p = p.step(ring_attention::partial(1, lse));
    lemma_chunks(
        p, num_chunks, q_len, k_len, v_len, batch, num_heads, seq_q, seq_kv, scale, num_chunks,
    );
    let p = ring_attention::ring_chunks(
        p, num_chunks, q_len, k_len, v_len, batch, num_heads, seq_q, seq_kv, scale, num_chunks,
    );
    assert(memory::granted(p.steps, 0) && memory::granted(p.steps, 1));
    memory::launch_keeps_closed(
        p,
        paged::flash_decoding_combine_plan(
            lse * 128, lse, o_len, batch, num_heads, seq_q, num_chunks,
        ),
        seq![Place::of_scratch(0), Place::of_scratch(1), Place::of_param(3)],
        4,
    );
}

/// Whether a transport touches nothing but what it is asked to send and to receive into.
pub open spec fn keeps_to_its_buffers<T: RingTransport>(transport: &T) -> bool {
    forall|send: Place, n: int, recv: Place, m: int, send_to: int, recv_from: int|
        (#[trigger] transport.exchange(send, n, recv, m, send_to, recv_from)) matches Ok(s) ==> (s
            matches StepView::Copy { from, to, len } && from == send && to == recv) || (s
            matches StepView::Exchange { from, to, len, send_to: t, recv_from: f } && from == send
            && to == recv)
}

/// Both transports touch nothing but what they are asked to send and to receive into.
pub proof fn transports_keep_to_their_buffers(a: LoopbackTransport, b: NcclTransport)
    ensures
        keeps_to_its_buffers(&a),
        keeps_to_its_buffers(&b),
{
}

proof fn lemma_transfer<T: RingTransport>(
    p: ProgramView, transport: &T, send: u32, recv: u32, kv: int, to: int, from: int,
)
    requires
        p.closed(4),
        p.provides(6),
        send < 6,
        recv < 6,
        keeps_to_its_buffers(transport),
    ensures
        ({
            let q = ring_attention_distributed::then_transfer(
                p,
                transport.exchange(
                    Place::of_scratch(send),
                    kv,
                    Place::of_scratch(recv),
                    kv,
                    to,
                    from,
                ),
            );
            q.closed(4) && q.provides(6)
        }),
{
    assert(memory::granted(p.steps, send) && memory::granted(p.steps, recv));
    if let Ok(s) = transport.exchange(
        Place::of_scratch(send),
        kv,
        Place::of_scratch(recv),
        kv,
        to,
        from,
    ) {
        memory::step_keeps_closed(p, s, 4);
    }
}

proof fn lemma_ring<T: RingTransport>(
    p: ProgramView, transport: &T, n: int, q_len: int, batch: int, num_heads: int, seq_q: int,
    seq_kv_local: int, scale: F32,
)
    requires
        p.closed(4),
        p.provides(6),
        keeps_to_its_buffers(transport),
    ensures
        ring_attention_distributed::ring_steps(
            p, transport, n, q_len, batch, num_heads, seq_q, seq_kv_local, scale,
        ).closed(4),
        ring_attention_distributed::ring_steps(
            p, transport, n, q_len, batch, num_heads, seq_q, seq_kv_local, scale,
        ).provides(6),
    decreases n,
{
    if n > 0 {
        lemma_ring(
            p, transport, n - 1, q_len, batch, num_heads, seq_q, seq_kv_local, scale,
        );
        let before = ring_attention_distributed::ring_steps(
            p, transport, n - 1, q_len, batch, num_heads, seq_q, seq_kv_local, scale,
        );
        let step = n - 1;
        let ws = transport.ranks() as int;
        let rank = transport.own_rank() as int;
        let kv = batch * num_heads * seq_kv_local * 128;
        let send = ring_attention_distributed::sending(step);
        let recv = ring_attention_distributed::receiving(step);
        let plan = ring_attention_distributed::block_plan(
            q_len, batch, num_heads, seq_q, seq_kv_local, scale,
        );
        let places = ring_attention_distributed::block_places(
            step, ring_attention_distributed::block_owner(rank, ws, step),
            batch * num_heads * seq_q,
        );
        assert(memory::granted(before.steps, send));
        assert(memory::granted(before.steps, (send + 1) as u32));
        assert(memory::granted(before.steps, 4) && memory::granted(before.steps, 5));
        memory::launch_keeps_closed(before, plan, places, 4);
        let computed = before.then_launch(plan, places);
        if step + 1 < ws {
            let to = ring_attention_distributed::next_rank(rank, ws);
            let from = ring_attention_distributed::prev_rank(rank, ws);
            lemma_transfer(computed, transport, send, recv, kv, to, from);
            let keys = ring_attention_distributed::then_transfer(
                computed,
                transport.exchange(
                    Place::of_scratch(send), kv, Place::of_scratch(recv), kv, to, from,
                ),
            );
            lemma_transfer(
                keys, transport, (send + 1) as u32, (recv + 1) as u32, kv, to, from,
            );
        }
    }
}

/// Ring attention across ranks uses its four buffers and six scratch buffers of its own.
pub proof fn ring_attention_bf16_distributed_is_closed<T: RingTransport>(
    transport: &T, q_len: int, k_local_len: int, v_local_len: int, o_len: int, batch: int,
    num_heads: int, seq_q: int, seq_kv_local: int, scale: F32,
)
    requires
        keeps_to_its_buffers(transport),
    ensures
        ring_attention_distributed::ring_attention_bf16_distributed_program(
            transport, q_len, k_local_len, v_local_len, o_len, batch, num_heads, seq_q,
            seq_kv_local, scale,
        ).closed(4),
{
    let ws = transport.ranks() as int;
    let kv = batch * num_heads * seq_kv_local * 128;
    let lse = ws * batch * num_heads * seq_q;
    memory::nothing_is_closed(4, End::Done);
    let p = ProgramView::empty();
    lemma_alloc(p, 0, Elem::U16, kv);
    let p = p.step(ring_attention_distributed::block(0, kv));
    lemma_alloc(p, 1, Elem::U16, kv);
    let p = p.step(ring_attention_distributed::block(1, kv));
    lemma_alloc(p, 2, Elem::U16, kv);
    let p = p.step(ring_attention_distributed::block(2, kv));
    lemma_alloc(p, 3, Elem::U16, kv);
    let p = p.step(ring_attention_distributed::block(3, kv));
    assert(memory::granted(p.steps, 0) && memory::granted(p.steps, 1));
    assert(memory::granted(p.steps, 2) && memory::granted(p.steps, 3));
    let s = StepView::Copy { from: Place::of_param(1), to: Place::of_scratch(0), len: kv };
    memory::step_keeps_closed(p, s, 4);
    let p = p.step(s);
    let s = StepView::Copy { from: Place::of_param(2), to: Place::of_scratch(1), len: kv };
    memory::step_keeps_closed(p, s, 4);
    let p = p.step(s);
    assert(p.provides(4)) by {
        assert forall|i: u32| i < 4 implies #[trigger] memory::granted(p.steps, i) by {
            assert(i == 0 || i == 1 || i == 2 || i == 3);
        }
    }
    lemma_alloc(p, 4, Elem::F32, lse * 128);
    let p = p.step(ring_attention::partial(4, lse * 128));
    lemma_alloc(p, 5, Elem::F32, lse);
    let p = p.step(ring_attention::partial(5, lse));
    assert(p == ring_attention_distributed::ring_prologue(kv, lse));
    lemma_ring(p, transport, ws, q_len, batch, num_heads, seq_q, seq_kv_local, scale);
    let p = ring_attention_distributed::ring_steps(
        p, transport, ws, q_len, batch, num_heads, seq_q, seq_kv_local, scale,
    );
    assert(memory::granted(p.steps, 4) && memory::granted(p.steps, 5));
    memory::launch_keeps_closed(
        p,
        paged::flash_decoding_combine_plan(lse * 128, lse, o_len, batch, num_heads, seq_q, ws),
        seq![Place::of_scratch(4), Place::of_scratch(5), Place::of_param(3)],
        4,
    );
}

} // verus!
