//! The gated delta rule as numbers: what decoding one token leaves in memory.
use crate::linear_attention::gdn;
use crate::meaning;
use crate::meaning::{Arithmetic, Memory};
use crate::plan::{Arg, LaunchView, Place, Plan, Slot};
use vstd::prelude::*;

verus! {

/// The state of a head after a token: `S' = alpha * S + beta * (v - S @ k) @ k^T`.
pub open spec fn next_state<T>(
    a: Arithmetic<T>, s: Seq<T>, k: Seq<T>, v: Seq<T>, alpha: T, beta: T,
) -> Seq<T> {
    meaning::matrix(
        128,
        128,
        |i: int, j: int|
            (a.plus)(
                (a.times)(alpha, meaning::entry(s, 128, i, j)),
                (a.times)(
                    (a.times)(
                        beta,
                        (a.minus)(
                            v[i],
                            meaning::dot(
                                a,
                                |t: int| meaning::entry(s, 128, i, t),
                                |t: int| k[t],
                                128,
                            ),
                        ),
                    ),
                    k[j],
                ),
            ),
    )
}

/// What a query reads from the state of its head: `y = S @ q`.
pub open spec fn answer<T>(a: Arithmetic<T>, s: Seq<T>, q: Seq<T>) -> Seq<T> {
    meaning::matrix(
        128,
        1,
        |i: int, j: int|
            meaning::dot(a, |t: int| meaning::entry(s, 128, i, t), |t: int| q[t], 128),
    )
}

/// The vector of head number `h` in a buffer.
pub open spec fn vector_of<T>(m: Memory<T>, p: Place, h: int) -> Seq<T> {
    meaning::read(m, meaning::moved(p, h * 128), 128)
}

/// The state of head number `h` in a buffer.
pub open spec fn state_of<T>(m: Memory<T>, p: Place, h: int) -> Seq<T> {
    meaning::read(m, meaning::moved(p, h * 16384), 16384)
}

/// Whether one token has gone through every head: the state in `s` has moved on by the head's
/// key, value and gates, and `y` holds what the head's query reads from the new state.
pub open spec fn token_is_taken<T>(
    a: Arithmetic<T>, before: Memory<T>, after: Memory<T>, heads: int, q: Place, k: Place, v: Place,
    alpha: Place, beta: Place, s: Place, y: Place,
) -> bool {
    forall|h: int|
        0 <= h < heads ==> {
            &&& #[trigger] state_of(after, s, h) == next_state(
                a,
                state_of(before, s, h),
                vector_of(before, k, h),
                vector_of(before, v, h),
                before(alpha.slot, alpha.start + h),
                before(beta.slot, beta.start + h),
            )
            &&& vector_of(after, y, h) == answer(a, state_of(after, s, h), vector_of(before, q, h))
        }
}

/// What the kernels of the gated delta rule do, one block to a head of a batch entry.
pub open spec fn delta_rule_means<T>(
    a: Arithmetic<T>, l: LaunchView, before: Memory<T>, after: Memory<T>,
) -> bool {
    &&& l.entry == "gdn_decode"@ && l.takes(7, 1, 0) && l.grid.0 == l.count(7) ==> token_is_taken(
        a,
        before,
        after,
        l.grid.0 * l.grid.1,
        l.place(0),
        l.place(1),
        l.place(2),
        l.place(3),
        l.place(4),
        l.place(5),
        l.place(6),
    )
    &&& l.entry == "gdn_decode_tma"@ && l.args.len() == 9 && l.args[0] is Buffer
        && l.args[1] is Buffer && l.args[2] is Buffer && l.args[3] is Buffer && l.args[4] is Buffer
        && l.args[6] is Buffer && l.args[7] is Buffer && l.grid.0 == l.count(8) && (
    l.args[5] matches Arg::Descriptor(i) && i < l.tensor_maps.len() && l.tensor_maps[i as int].base
        == l.place(6)) ==> token_is_taken(
        a,
        before,
        after,
        l.grid.0 * l.grid.1,
        l.place(0),
        l.place(1),
        l.place(2),
        l.place(3),
        l.place(4),
        l.place(6),
        l.place(7),
    )
}

/// Decoding one token takes it through the recurrence of every head of every batch entry, with
/// the caller's queries, keys, values and gates each in its own part.
pub proof fn gdn_decode_follows_the_recurrence<T>(
    a: Arithmetic<T>, q_len: int, k_len: int, v_len: int, alpha_len: int, beta_len: int,
    state_len: int, y_len: int, batch: int, num_heads: int, before: Memory<T>, after: Memory<T>,
)
    requires
        0 <= batch <= u32::MAX,
        0 <= num_heads <= u32::MAX,
        gdn::gdn_decode_plan(
            q_len, k_len, v_len, alpha_len, beta_len, state_len, y_len, batch, num_heads,
        ) matches Plan::Launch(l) && delta_rule_means(a, l, before, after),
    ensures
        token_is_taken(
            a,
            before,
            after,
            num_heads * batch,
            Place::of_param(0),
            Place::of_param(1),
            Place::of_param(2),
            Place::of_param(3),
            Place::of_param(4),
            Place::of_param(5),
            Place::of_param(6),
        ),
{
}

/// Decoding with the state fetched in tiles takes the token through the same recurrence.
pub proof fn gdn_decode_tma_follows_the_recurrence<T>(
    a: Arithmetic<T>, q_len: int, k_len: int, v_len: int, alpha_len: int, beta_len: int,
    state_len: int, y_len: int, batch: int, num_heads: int, before: Memory<T>, after: Memory<T>,
)
    requires
        0 <= batch <= u32::MAX,
        0 <= num_heads <= u32::MAX,
        gdn::gdn_decode_tma_plan(
            q_len, k_len, v_len, alpha_len, beta_len, state_len, y_len, batch, num_heads,
        ) matches Plan::Launch(l) && delta_rule_means(a, l, before, after),
    ensures
        token_is_taken(
            a,
            before,
            after,
            num_heads * batch,
            Place::of_param(0),
            Place::of_param(1),
            Place::of_param(2),
            Place::of_param(3),
            Place::of_param(4),
            Place::of_param(5),
            Place::of_param(6),
        ),
{
}

} // verus!
