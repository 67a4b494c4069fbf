//! Ring attention across ranks: every rank holds one block of keys and values, and the blocks
//! travel round the ring while each rank computes its partial results.
use crate::attention::paged;
use crate::distributed::ring_attention;
use crate::distributed::transport::RingTransport;
use crate::error::Fault;
use crate::plan::{F32, Place, Plan};
use crate::program::{Elem, End, Program, ProgramView, Step, StepView};
use crate::shape;
use crate::text::Text;
use vstd::prelude::*;

verus! {

/// The rank that `rank` sends to.
pub open spec fn next_rank(rank: int, world_size: int) -> int {
    (rank + 1) % world_size
}

/// The rank that `rank` receives from.
pub open spec fn prev_rank(rank: int, world_size: int) -> int {
    (rank + world_size - 1) % world_size
}

/// The rank whose block `rank` works on in step number `step`.
pub open spec fn block_owner(rank: int, world_size: int, step: int) -> int {
    (rank + world_size - step) % world_size
}

/// The scratch buffer that holds the keys in step number `step`; the values are in the next
/// one.
pub open spec fn sending(step: int) -> u32 {
    if step % 2 == 0 {
        0
    } else {
        2
    }
}

/// The scratch buffer that receives the keys in step number `step`; the values go to the next
/// one.
pub open spec fn receiving(step: int) -> u32 {
    if step % 2 == 0 {
        2
    } else {
        0
    }
}

/// A program, and then what a transport answered.
pub open spec fn then_transfer(
    p: ProgramView, t: core::result::Result<StepView, Fault>,
) -> ProgramView {
    match p.end {
        End::Done => match t {
            Ok(s) => p.step(s),
            Err(f) => ProgramView { steps: p.steps, end: End::Fail(f) },
        },
        _ => p,
    }
}

/// The partial result against one whole block: the split kernel with the block as its only part.
pub open spec fn block_plan(
    q_len: int, batch: int, num_heads: int, seq_q: int, seq_kv_local: int, scale: F32,
) -> Plan {
    let kv = batch * num_heads * seq_kv_local * 128;
    let rows = batch * num_heads * seq_q;
    paged::flash_attn_bf16_v3_split_kv_plan(
        q_len, kv, kv, rows * 128, rows, batch, num_heads, seq_q, seq_kv_local, scale, 1, 0,
    )
}

/// The memory of step number `step`: the queries, the block at hand, and the partial result of
/// the block's owner, which has `rows` rows.
pub open spec fn block_places(step: int, owner: int, rows: int) -> Seq<Place> {
    seq![
        Place::of_param(0), Place::of_scratch(sending(step)),
        Place::of_scratch((sending(step) + 1) as u32), Place::scratch_at(4, owner * (rows * 128)),
        Place::scratch_at(5, owner * rows),
    ]
}

/// Step number `step` of the ring, after the program `p`: a partial result against the block at
/// hand, and then, but for the last step, the block is passed on.
pub open spec fn ring_step<T: RingTransport>(
    p: ProgramView, transport: &T, step: int, q_len: int, batch: int, num_heads: int, seq_q: int,
    seq_kv_local: int, scale: F32,
) -> ProgramView {
    let ws = transport.ranks() as int;
    let rank = transport.own_rank() as int;
    let kv = batch * num_heads * seq_kv_local * 128;
    let send = sending(step);
    let recv = receiving(step);
    let computed = p.then_launch(
        block_plan(q_len, batch, num_heads, seq_q, seq_kv_local, scale),
        block_places(step, block_owner(rank, ws, step), batch * num_heads * seq_q),
    );
    if step + 1 < ws {
        then_transfer(
            then_transfer(
                computed,
                transport.exchange(
                    Place::of_scratch(send), kv, Place::of_scratch(recv), kv,
                    next_rank(rank, ws), prev_rank(rank, ws),
                ),
            ),
            transport.exchange(
                Place::of_scratch((send + 1) as u32), kv, Place::of_scratch((recv + 1) as u32), kv,
                next_rank(rank, ws), prev_rank(rank, ws),
            ),
        )
    } else {
        computed
    }
}

/// The first `n` steps of the ring, after the program `p`.
pub open spec fn ring_steps<T: RingTransport>(
    p: ProgramView, transport: &T, n: int, q_len: int, batch: int, num_heads: int, seq_q: int,
    seq_kv_local: int, scale: F32,
) -> ProgramView
    decreases n,
{
    if n <= 0 {
        p
    } else {
        ring_step(
            ring_steps(
                p, transport, n - 1, q_len, batch, num_heads, seq_q, seq_kv_local, scale,
            ), transport, n - 1, q_len, batch, num_heads, seq_q, seq_kv_local, scale,
        )
    }
}

/// A zeroed BF16 buffer for a travelling block.
pub open spec fn block(scratch: u32, len: int) -> StepView {
    StepView::Alloc { scratch, elem: Elem::U16, len, failure: None }
}

/// The scratch memory of the ring, with the rank's own block ready to be sent.
pub open spec fn ring_prologue(kv: int, lse: int) -> ProgramView {
    ProgramView::empty().step(block(0, kv)).step(block(1, kv)).step(block(2, kv)).step(
        block(3, kv),
    ).step(
        StepView::Copy { from: Place::of_param(1), to: Place::of_scratch(0), len: kv },
    ).step(
        StepView::Copy { from: Place::of_param(2), to: Place::of_scratch(1), len: kv },
    ).step(ring_attention::partial(4, lse * 128)).step(ring_attention::partial(5, lse))
}

/// The answer of [`ring_attention_bf16_distributed`].
pub open spec fn ring_attention_bf16_distributed_program<T: RingTransport>(
    transport: &T, q_len: int, k_local_len: int, v_local_len: int, o_len: int, batch: int,
    num_heads: int, seq_q: int, seq_kv_local: int, scale: F32,
) -> ProgramView {
    let ws = transport.ranks() as int;
    let rank = transport.own_rank() as int;
    let kv = batch * num_heads * seq_kv_local * 128;
    let lse = ws * batch * num_heads * seq_q;
    if ws == 0 {
        ProgramView::invalid("world_size must be > 0"@)
    } else if batch * num_heads > u32::MAX || kv > u32::MAX || ws * batch > u32::MAX
        || ws * batch * num_heads > u32::MAX || lse * 128 > u32::MAX || rank + 1 > u32::MAX
        || rank + ws > u32::MAX
    {
        ProgramView::undefined()
    } else {
        ring_steps(
            ring_prologue(kv, lse), transport, ws, q_len, batch, num_heads, seq_q, seq_kv_local,
            scale,
        ).then_launch(
            paged::flash_decoding_combine_plan(
                lse * 128, lse, o_len, batch, num_heads, seq_q, ws,
            ),
            seq![Place::of_scratch(4), Place::of_scratch(5), Place::of_param(3)],
        )
    }
}

/// A program that has ended takes no further step of the ring.
proof fn lemma_steps_after_end<T: RingTransport>(
    p: ProgramView, transport: &T, i: int, n: int, q_len: int, batch: int, num_heads: int,
    seq_q: int, seq_kv_local: int, scale: F32,
)
    requires
        0 <= i <= n,
        ring_steps(
            p, transport, i, q_len, batch, num_heads, seq_q, seq_kv_local, scale,
        ).end !is Done,
    ensures
        ring_steps(p, transport, n, q_len, batch, num_heads, seq_q, seq_kv_local, scale)
            == ring_steps(p, transport, i, q_len, batch, num_heads, seq_q, seq_kv_local, scale),
    decreases n - i,
{
    if i < n {
        lemma_steps_after_end(
            p, transport, i, n - 1, q_len, batch, num_heads, seq_q, seq_kv_local, scale,
        );
    }
}

fn prologue(kv: u32, partial: u32, lse: u32) -> (p: Program)
    requires
        partial == lse * 128,
    ensures
        p@ == ring_prologue(kv as int, lse as int),
        p@.end is Done,
{
    let mut p = Program::new();
    p.push(Step::Alloc { scratch: 0, elem: Elem::U16, len: kv as u64, failure: None });
    p.push(Step::Alloc { scratch: 1, elem: Elem::U16, len: kv as u64, failure: None });
    p.push(Step::Alloc { scratch: 2, elem: Elem::U16, len: kv as u64, failure: None });
    p.push(Step::Alloc { scratch: 3, elem: Elem::U16, len: kv as u64, failure: None });
    p.push(Step::Copy { from: Place::param(1), to: Place::scratch(0), len: kv as u64 });
    p.push(Step::Copy { from: Place::param(2), to: Place::scratch(1), len: kv as u64 });
    p.push(Step::Alloc { scratch: 4, elem: Elem::F32, len: partial as u64, failure: None });
    p.push(Step::Alloc { scratch: 5, elem: Elem::F32, len: lse as u64, failure: None });
    p
}

/// Adds what a transport answered to a program that has not ended yet.
fn push_transfer(p: &mut Program, t: crate::error::Result<Step>)
    requires
        old(p)@.end is Done,
    ensures
        final(p)@ == then_transfer(old(p)@, crate::distributed::transport::transfer(t)),
{
    match t {
        Ok(s) => {
            p.push(s);
        },
        Err(e) => {
            p.end = Err(e);
        },
    }
}

/// Multi-node ring attention. Uses `transport` to ring-rotate KV between
/// ranks. Each rank computes `world_size` partials, one against each rank's whole block, and
/// combines them locally.
pub fn ring_attention_bf16_distributed<T: RingTransport>(
    transport: &T,
    q_len: usize,
    k_local_len: usize,
    v_local_len: usize,
    o_len: usize,
    batch: u32,
    num_heads: u32,
    seq_q: u32,
    seq_kv_local: u32,
    scale: F32,
) -> (r: Program)
    requires
        ring_attention_bf16_distributed_program(
            transport, q_len as int, k_local_len as int, v_local_len as int, o_len as int,
            batch as int, num_heads as int, seq_q as int, seq_kv_local as int, scale,
        ).end !is Undefined,
    ensures
        r@ == ring_attention_bf16_distributed_program(
            transport, q_len as int, k_local_len as int, v_local_len as int, o_len as int,
            batch as int, num_heads as int, seq_q as int, seq_kv_local as int, scale,
        ),
{
    let world_size: u32 = transport.world_size();
    let rank: u32 = transport.rank();
    if world_size == 0 {
        return Program::refused(Text::new("world_size must be > 0"));
    }
    let kv: u32 = batch * num_heads * seq_kv_local * 128;
    let partial: u32 = world_size * batch * num_heads * seq_q * 128;
    let lse: u32 = world_size * batch * num_heads * seq_q;
    assert(world_size * batch * num_heads * seq_q == world_size * (batch * num_heads * seq_q))
        by (nonlinear_arith);
    proof {
        let rows = batch * num_heads * seq_q;
        assert(0 <= rows <= world_size * rows) by (nonlinear_arith)
            requires
                rows == batch * num_heads * seq_q,
                world_size >= 1,
        ;
    }
    let rows: u32 = batch * num_heads * seq_q;
    let next: u32 = (rank + 1) % world_size;
    let prev: u32 = (rank + world_size - 1) % world_size;
    let mut p = prologue(kv, partial, lse);
    let ghost start = p@;
    let mut step: u32 = 0;
    while step < world_size
        invariant
            step <= world_size,
            world_size == transport.ranks(),
            rank == transport.own_rank(),
            rank + world_size <= u32::MAX,
            next == next_rank(rank as int, world_size as int),
            prev == prev_rank(rank as int, world_size as int),
            kv == batch * num_heads * seq_kv_local * 128,
            lse == world_size * batch * num_heads * seq_q,
            partial == lse * 128,
            rows == batch * num_heads * seq_q,
            lse == world_size * rows,
            start == ring_prologue(kv as int, lse as int),
            p@ == ring_steps(
                start, transport, step as int, q_len as int, batch as int, num_heads as int,
                seq_q as int, seq_kv_local as int, scale,
            ),
            p@.end is Done,
            ring_attention_bf16_distributed_program(
                transport, q_len as int, k_local_len as int, v_local_len as int, o_len as int,
                batch as int, num_heads as int, seq_q as int, seq_kv_local as int, scale,
            ) == ring_steps(
                start, transport, world_size as int, q_len as int, batch as int, num_heads as int,
                seq_q as int, seq_kv_local as int, scale,
            ).then_launch(
                paged::flash_decoding_combine_plan(
                    lse * 128, lse as int, o_len as int, batch as int, num_heads as int,
                    seq_q as int, world_size as int,
                ),
                seq![Place::of_scratch(4), Place::of_scratch(5), Place::of_param(3)],
            ),
        decreases world_size - step,
    {
        let owner: u32 = (rank + world_size - step) % world_size;
        let send: u32 = if step % 2 == 0 {
            0
        } else {
            2
        };
        let recv: u32 = 2 - send;
        proof {
            if ring_steps(
                start, transport, step + 1, q_len as int, batch as int, num_heads as int,
                seq_q as int, seq_kv_local as int, scale,
            ).end !is Done {
                lemma_steps_after_end(
                    start, transport, step + 1, world_size as int, q_len as int, batch as int,
                    num_heads as int, seq_q as int, seq_kv_local as int, scale,
                );
            }
        }
        assert(rows * 128 <= partial) by (nonlinear_arith)
            requires
                partial == lse * 128,
                lse == world_size * rows,
                world_size >= 1,
        ;
        p.launch(
            paged::flash_attn_bf16_v3_split_kv(
                q_len, kv as usize, kv as usize, (rows * 128) as usize, rows as usize, batch,
                num_heads, seq_q, seq_kv_local, scale, 1, 0,
            ),
            vec![
                Place::param(0), Place::scratch(send), Place::scratch(send + 1),
                Place::within_scratch(4, shape::product(owner, rows * 128)),
                Place::within_scratch(5, shape::product(owner, rows)),
            ],
        );
        if step + 1 < world_size {
            let passed = transport.send_recv_bf16(
                Place::scratch(send), kv as u64, Place::scratch(recv), kv as u64, next, prev,
            );
            push_transfer(&mut p, passed);
            if p.end.is_err() {
                return p;
            }
            let passed = transport.send_recv_bf16(
                Place::scratch(send + 1), kv as u64, Place::scratch(recv + 1), kv as u64, next,
                prev,
            );
            push_transfer(&mut p, passed);
            if p.end.is_err() {
                return p;
            }
        }
        step = step + 1;
    }
    p.launch(
        paged::flash_decoding_combine(
            partial as usize, lse as usize, o_len, batch, num_heads, seq_q, world_size,
        ),
        vec![Place::scratch(4), Place::scratch(5), Place::param(3)],
    );
    p
}

/// The rank whose block `rank` holds after `step` rotations, when in every rotation each rank
/// takes over what its predecessor held.
pub open spec fn held_block(rank: int, world_size: int, step: int) -> int
    decreases step,
{
    if step <= 0 {
        rank
    } else {
        held_block(prev_rank(rank, world_size), world_size, step - 1)
    }
}

/// In every step each rank works on the block that it really holds: the owner that it names to
/// the kernel is the rank from which the block set out.
pub proof fn ring_names_the_block_it_holds(rank: int, world_size: int, step: int)
    requires
        0 <= rank < world_size,
        0 <= step < world_size,
    ensures
        held_block(rank, world_size, step) == block_owner(rank, world_size, step),
    decreases step,
{
    if step == 0 {
        vstd::arithmetic::div_mod::lemma_mod_add_multiples_vanish(rank, world_size);
        vstd::arithmetic::div_mod::lemma_small_mod(rank as nat, world_size as nat);
        assert((rank + world_size) % world_size == rank);
    } else {
        let before = prev_rank(rank, world_size);
        lemma_prev_rank(rank, world_size);
        ring_names_the_block_it_holds(before, world_size, step - 1);
        if rank > 0 {
            assert(before == rank - 1);
        } else {
            vstd::arithmetic::div_mod::lemma_mod_add_multiples_vanish(
                world_size - step,
                world_size,
            );
            assert(before + world_size - (step - 1) == world_size + (world_size - step));
        }
    }
}

/// The predecessor on the ring.
proof fn lemma_prev_rank(rank: int, world_size: int)
    requires
        0 <= rank < world_size,
    ensures
        prev_rank(rank, world_size) == if rank > 0 {
            rank - 1
        } else {
            world_size - 1
        },
{
    if rank > 0 {
        vstd::arithmetic::div_mod::lemma_mod_add_multiples_vanish(rank - 1, world_size);
        vstd::arithmetic::div_mod::lemma_small_mod((rank - 1) as nat, world_size as nat);
        assert(rank + world_size - 1 == world_size + (rank - 1));
    } else {
        vstd::arithmetic::div_mod::lemma_small_mod((world_size - 1) as nat, world_size as nat);
    }
}

/// Sending to the next rank and receiving from the previous one fit together: the rank that I
/// send to receives from me, and the rank that I receive from sends to me.
pub proof fn ring_neighbours_agree(rank: int, world_size: int)
    requires
        0 <= rank < world_size,
    ensures
        0 <= next_rank(rank, world_size) < world_size,
        0 <= prev_rank(rank, world_size) < world_size,
        prev_rank(next_rank(rank, world_size), world_size) == rank,
        next_rank(prev_rank(rank, world_size), world_size) == rank,
{
    lemma_prev_rank(rank, world_size);
    if rank + 1 < world_size {
        vstd::arithmetic::div_mod::lemma_small_mod((rank + 1) as nat, world_size as nat);
    } else {
        vstd::arithmetic::div_mod::lemma_mod_self_0(world_size);
    }
    lemma_prev_rank(next_rank(rank, world_size), world_size);
    if rank > 0 {
        vstd::arithmetic::div_mod::lemma_small_mod(rank as nat, world_size as nat);
    } else {
        vstd::arithmetic::div_mod::lemma_mod_self_0(world_size);
    }
}

/// Over a whole turn of the ring, a rank works on the block of every rank, and on each once.
pub proof fn ring_visits_every_block_once(rank: int, world_size: int, owner: int)
    requires
        0 <= rank < world_size,
        0 <= owner < world_size,
    ensures
        exists|step: int|
            0 <= step < world_size && block_owner(rank, world_size, step) == owner && forall|
                other: int,
            |
                0 <= other < world_size && #[trigger] block_owner(rank, world_size, other) == owner
                    ==> other == step,
{
    let step = if owner <= rank {
        rank - owner
    } else {
        rank + world_size - owner
    };
    assert forall|s: int| 0 <= s < world_size implies #[trigger] block_owner(rank, world_size, s)
        == if s <= rank {
        rank - s
    } else {
        rank + world_size - s
    } by {
        if s <= rank {
            vstd::arithmetic::div_mod::lemma_mod_add_multiples_vanish(rank - s, world_size);
            vstd::arithmetic::div_mod::lemma_small_mod((rank - s) as nat, world_size as nat);
            assert(rank + world_size - s == world_size + (rank - s));
        } else {
            vstd::arithmetic::div_mod::lemma_small_mod(
                (rank + world_size - s) as nat,
                world_size as nat,
            );
        }
    }
    assert(block_owner(rank, world_size, step) == owner);
}

} // verus!
