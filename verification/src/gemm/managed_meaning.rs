//! Products with a split depth as numbers: what the steps leave in memory.
use crate::activation;
use crate::gemm::gemv;
use crate::gemm::managed;
use crate::meaning;
use crate::meaning::{Arithmetic, Memory};
use crate::plan::{Arg, F32, Place, Plan, Slot};
use crate::program::{BindingView, ProgramView, StepView};
use crate::shape;
use vstd::prelude::*;

verus! {

/// `m` rows times a matrix, the depth split among shards whose parts are summed in their order.
pub open spec fn summed_in_order<T>(
    a: Arithmetic<T>, x: Seq<T>, b: Seq<T>, m: int, n: int, k: int, shards: int,
) -> Seq<T> {
    meaning::matrix(
        1,
        m * n,
        |i: int, e: int|
            (a.rounded)(
                meaning::total(
                    a,
                    |s: int|
                        meaning::shard_sum(
                            a,
                            meaning::row(x, k, e / n),
                            b,
                            n,
                            k,
                            shape::ceil_div(k, shards),
                            s,
                            e % n,
                        ),
                    shards,
                ),
            ),
    )
}

/// A row times a matrix, the depth split among shards whose parts are summed in whatever order.
pub open spec fn summed_in_any_order<T>(
    a: Arithmetic<T>, x: Seq<T>, b: Seq<T>, n: int, k: int, shards: int,
) -> Seq<T> {
    meaning::matrix(
        1,
        n,
        |i: int, j: int|
            (a.rounded)(
                (a.gathered)(
                    a.zero,
                    Seq::new(
                        shards as nat,
                        |s: int|
                            meaning::shard_sum(a, x, b, n, k, shape::ceil_div(k, shards), s, j),
                    ),
                ),
            ),
    )
}

/// A row times a matrix, the depth not split.
pub open spec fn unsplit<T>(a: Arithmetic<T>, x: Seq<T>, b: Seq<T>, n: int, k: int) -> Seq<T> {
    meaning::product(a, x, b, 1, n, k).map_values(|v: T| (a.rounded)(v))
}

/// Staged parts that are reduced are summed in their order.
proof fn lemma_reduced<T>(
    a: Arithmetic<T>, x: Seq<T>, b: Seq<T>, m: int, n: int, k: int, shards: int,
)
    requires
        m >= 0,
        n >= 0,
        shards > 0,
    ensures
        meaning::reduced_shards(
            a,
            meaning::staged_shards(a, x, b, m, n, k, shape::ceil_div(k, shards), shards),
            m * n,
            shards,
        ) == summed_in_order(a, x, b, m, n, k, shards),
        meaning::staged_shards(a, x, b, m, n, k, shape::ceil_div(k, shards), shards).len()
            == shards * (m * n),
{
    let chunk = shape::ceil_div(k, shards);
    let staged = meaning::staged_shards(a, x, b, m, n, k, chunk, shards);
    let l = meaning::reduced_shards(a, staged, m * n, shards);
    let r = summed_in_order(a, x, b, m, n, k, shards);
    assert(m * n >= 0 && shards * (m * n) >= 0) by (nonlinear_arith)
        requires
            m >= 0,
            n >= 0,
            shards > 0,
    ;
    assert(1 * (m * n) == m * n);
    assert forall|e: int| 0 <= e < m * n implies #[trigger] l[e] == r[e] by {
        vstd::arithmetic::div_mod::lemma_fundamental_div_mod_converse(e, m * n, 0, e);
        let u = |s: int| meaning::entry(staged, m * n, s, e);
        let w = |s: int|
            meaning::shard_sum(a, meaning::row(x, k, e / n), b, n, k, chunk, s, e % n);
        assert forall|s: int| 0 <= s < shards implies #[trigger] u(s) == w(s) by {
            meaning::matrix_has_its_entries(
                shards,
                m * n,
                |s: int, e: int|
                    meaning::shard_sum(a, meaning::row(x, k, e / n), b, n, k, chunk, s, e % n),
                s,
                e,
            );
        }
        lemma_total_of_equals(a, u, w, shards);
    }
    assert(l =~= r);
}

proof fn lemma_total_of_equals<T>(
    a: Arithmetic<T>, x: spec_fn(int) -> T, y: spec_fn(int) -> T, n: int,
)
    requires
        forall|s: int| 0 <= s < n ==> #[trigger] x(s) == y(s),
    ensures
        meaning::total(a, x, n) == meaning::total(a, y, n),
    decreases n,
{
    if n > 0 {
        lemma_total_of_equals(a, x, y, n - 1);
    }
}

/// Parts that are gathered on cleared memory, and then stored, are summed in whatever order.
proof fn lemma_gathered<T>(
    a: Arithmetic<T>, zeros: Seq<T>, x: Seq<T>, b: Seq<T>, n: int, k: int, shards: int,
)
    requires
        n >= 0,
        zeros.len() == n,
        forall|j: int| 0 <= j < n ==> #[trigger] zeros[j] == a.zero,
    ensures
        meaning::gathered_shards(
            a,
            zeros,
            x,
            b,
            n,
            k,
            shape::ceil_div(k, shards),
            shards,
        ).map_values(|v: T| (a.rounded)(v)) == summed_in_any_order(a, x, b, n, k, shards),
        meaning::gathered_shards(
            a,
            zeros,
            x,
            b,
            n,
            k,
            shape::ceil_div(k, shards),
            shards,
        ).len() == n,
{
    let l = meaning::gathered_shards(a, zeros, x, b, n, k, shape::ceil_div(k, shards), shards);
    let r = summed_in_any_order(a, x, b, n, k, shards);
    assert(1 * n == n);
    let stored = l.map_values(|v: T| (a.rounded)(v));
    assert forall|e: int| 0 <= e < n implies #[trigger] stored[e] == r[e] by {
        vstd::arithmetic::div_mod::lemma_fundamental_div_mod_converse(e, n, 0, e);
    }
    assert(stored =~= r);
}

/// A row of several is multiplied as it is alone.
pub proof fn rows_are_multiplied_alone<T>(
    a: Arithmetic<T>, x: Seq<T>, b: Seq<T>, m: int, n: int, k: int, shards: int, i: int, j: int,
)
    requires
        0 <= i < m,
        0 <= j < n,
        k >= 0,
        x.len() == m * k,
    ensures
        summed_in_order(a, x, b, m, n, k, shards)[i * n + j] == summed_in_order(
            a,
            meaning::row(x, k, i),
            b,
            1,
            n,
            k,
            shards,
        )[j],
{
    let e = i * n + j;
    assert(0 <= e < m * n) by (nonlinear_arith)
        requires
            e == i * n + j,
            0 <= i < m,
            0 <= j < n,
    ;
    assert(1 * (m * n) == m * n);
    assert(1 * (1 * n) == n);
    vstd::arithmetic::div_mod::lemma_fundamental_div_mod_converse(e, n, i, j);
    vstd::arithmetic::div_mod::lemma_fundamental_div_mod_converse(e, m * n, 0, e);
    vstd::arithmetic::div_mod::lemma_fundamental_div_mod_converse(j, n, 0, j);
    vstd::arithmetic::div_mod::lemma_fundamental_div_mod_converse(j, 1 * n, 0, j);
    assert(0 <= i * k && i * k + k <= m * k) by (nonlinear_arith)
        requires
            0 <= i < m,
            k >= 0,
    ;
    let own = meaning::row(x, k, i);
    assert(meaning::row(own, k, 0) =~= own);
}

proof fn lemma_chunks(k: int, shards: int)
    requires
        0 <= k,
        0 < shards,
    ensures
        0 <= shape::ceil_div(k, shards) <= k,
        k <= shards * shape::ceil_div(k, shards),
{
    shape::lemma_ceil_div(k, shards);
    let c = shape::ceil_div(k, shards);
    assert(c * shards == shards * c) by (nonlinear_arith);
}

/// The managed product leaves in its result the row times the numbers that the weight bytes
/// stand for: in deterministic mode summed shard after shard, and else in whatever order.
#[verifier::rlimit(40)]
pub proof fn gemv_w8a16_split_k_managed_gives_the_product<T>(
    a: Arithmetic<T>, x_len: int, b_fp8_len: int, b_scale: F32, scratch_len: int, out_len: int, n: int,
    k: int, num_shards: int, deterministic: bool, trace: Seq<Memory<T>>,
)
    requires
        0 <= n <= u32::MAX,
        0 <= k <= u32::MAX,
        0 <= num_shards <= u32::MAX,
        ({
            let p = managed::gemv_w8a16_split_k_managed_program(
                x_len, b_fp8_len, b_scale, scratch_len, out_len, n, k, num_shards, deterministic,
            );
            p.end is Done && meaning::carried_out(a, p.steps, trace)
        }),
    ensures
        ({
            let x = meaning::read(trace[0], Place::of_param(0), k);
            let b = meaning::read(trace[0], Place::of_param(1), k * n).map_values(
                |v: T| (a.widened)(v, b_scale),
            );
            meaning::read(trace.last(), Place::of_param(3), n) == if deterministic {
                summed_in_order(a, x, b, 1, n, k, num_shards)
            } else {
                summed_in_any_order(a, x, b, n, k, num_shards)
            }
        }),
{
    let steps = managed::gemv_w8a16_split_k_managed_program(
                x_len, b_fp8_len, b_scale, scratch_len, out_len, n, k, num_shards, deterministic,
            ).steps;
    let x = meaning::read(trace[0], Place::of_param(0), k);
    let b = meaning::read(trace[0], Place::of_param(1), k * n).map_values(
                |v: T| (a.widened)(v, b_scale),
            );
    let chunk = shape::ceil_div(k, num_shards);
    if deterministic && scratch_len >= num_shards * n {
        assert(meaning::step_means(a, steps[0], trace[0], trace[1]));
        assert(meaning::step_means(a, steps[1], trace[1], trace[2]));
        lemma_chunks(k, num_shards);
        shape::lemma_ceil_div(n, 1024);
        shape::lemma_ceil_div(n, 256);
        lemma_reduced(a, x, b, 1, n, k, num_shards);
        let staged = meaning::staged_shards(a, x, b, 1, n, k, chunk, num_shards);
        assert(meaning::read(trace[0], Place::of_param(0), k) =~= x);
        assert(meaning::read(trace[0], Place::of_param(1), k * n) =~= meaning::read(
            trace[0],
            Place::of_param(1),
            k * n,
        ));
        assert(trace[1] == meaning::written(trace[0], Place::of_param(2), staged));
        assert(meaning::read(trace[1], Place::of_param(2), num_shards * (n)) =~= staged);
        let sums = summed_in_order(a, x, b, 1, n, k, num_shards);
        assert(trace[2] == meaning::written(trace[1], Place::of_param(3), sums));
        assert(meaning::read(trace[2], Place::of_param(3), n) =~= sums);
    } else if deterministic {
        assert(meaning::step_means(a, steps[0], trace[0], trace[1]));
        assert(meaning::step_means(a, steps[1], trace[1], trace[2]));
        assert(meaning::step_means(a, steps[2], trace[2], trace[3]));
        lemma_chunks(k, num_shards);
        shape::lemma_ceil_div(n, 1024);
        shape::lemma_ceil_div(n, 256);
        lemma_reduced(a, x, b, 1, n, k, num_shards);
        let staged = meaning::staged_shards(a, x, b, 1, n, k, chunk, num_shards);
        assert(meaning::read(trace[1], Place::of_param(0), k) =~= x);
        assert(meaning::read(trace[1], Place::of_param(1), k * n) =~= meaning::read(
            trace[0],
            Place::of_param(1),
            k * n,
        ));
        assert(trace[2] == meaning::written(trace[1], Place::of_scratch(0), staged));
        assert(meaning::read(trace[2], Place::of_scratch(0), num_shards * (n)) =~= staged);
        let sums = summed_in_order(a, x, b, 1, n, k, num_shards);
        assert(trace[3] == meaning::written(trace[2], Place::of_param(3), sums));
        assert(meaning::read(trace[3], Place::of_param(3), n) =~= sums);
    } else {
        assert(meaning::step_means(a, steps[0], trace[0], trace[1]));
        assert(meaning::step_means(a, steps[1], trace[1], trace[2]));
        assert(meaning::step_means(a, steps[2], trace[2], trace[3]));
        lemma_chunks(k, num_shards);
        shape::lemma_ceil_div(n, 1024);
        let zeros = meaning::read(trace[1], Place::of_param(2), n);
        assert(meaning::read(trace[1], Place::of_param(0), k) =~= x);
        assert(meaning::read(trace[1], Place::of_param(1), k * n) =~= meaning::read(
            trace[0],
            Place::of_param(1),
            k * n,
        ));
        lemma_gathered(a, zeros, x, b, n, k, num_shards);
        let sums = meaning::gathered_shards(a, zeros, x, b, n, k, chunk, num_shards);
        assert(trace[2] == meaning::written(trace[1], Place::of_param(2), sums));
        assert(meaning::read(trace[2], Place::of_param(2), n) =~= sums);
        let stored = sums.map_values(|v: T| (a.rounded)(v));
        assert(trace[3] == meaning::written(trace[2], Place::of_param(3), stored));
        assert(meaning::read(trace[3], Place::of_param(3), n) =~= stored);
    }
}

/// The managed product leaves in its result the row times the numbers that the weight bytes
/// stand for: in deterministic mode summed shard after shard, and else in whatever order.
#[verifier::rlimit(40)]
pub proof fn gemv_w8a16_split_k_w16_managed_gives_the_product<T>(
    a: Arithmetic<T>, x_len: int, b_fp8_len: int, b_scale: F32, scratch_len: int, out_len: int, n: int,
    k: int, num_shards: int, deterministic: bool, trace: Seq<Memory<T>>,
)
    requires
        0 <= n <= u32::MAX,
        0 <= k <= u32::MAX,
        0 <= num_shards <= u32::MAX,
        ({
            let p = managed::gemv_w8a16_split_k_w16_managed_program(
                x_len, b_fp8_len, b_scale, scratch_len, out_len, n, k, num_shards, deterministic,
            );
            p.end is Done && meaning::carried_out(a, p.steps, trace)
        }),
    ensures
        ({
            let x = meaning::read(trace[0], Place::of_param(0), k);
            let b = meaning::read(trace[0], Place::of_param(1), k * n).map_values(
                |v: T| (a.widened)(v, b_scale),
            );
            meaning::read(trace.last(), Place::of_param(3), n) == if deterministic {
                summed_in_order(a, x, b, 1, n, k, num_shards)
            } else {
                summed_in_any_order(a, x, b, n, k, num_shards)
            }
        }),
{
    let steps = managed::gemv_w8a16_split_k_w16_managed_program(
                x_len, b_fp8_len, b_scale, scratch_len, out_len, n, k, num_shards, deterministic,
            ).steps;
    let x = meaning::read(trace[0], Place::of_param(0), k);
    let b = meaning::read(trace[0], Place::of_param(1), k * n).map_values(
                |v: T| (a.widened)(v, b_scale),
            );
    let chunk = shape::ceil_div(k, num_shards);
    if deterministic && scratch_len >= num_shards * n {
        assert(meaning::step_means(a, steps[0], trace[0], trace[1]));
        assert(meaning::step_means(a, steps[1], trace[1], trace[2]));
        lemma_chunks(k, num_shards);
        shape::lemma_ceil_div(n, 2048);
        shape::lemma_ceil_div(n, 256);
        lemma_reduced(a, x, b, 1, n, k, num_shards);
        let staged = meaning::staged_shards(a, x, b, 1, n, k, chunk, num_shards);
        assert(meaning::read(trace[0], Place::of_param(0), k) =~= x);
        assert(meaning::read(trace[0], Place::of_param(1), k * n) =~= meaning::read(
            trace[0],
            Place::of_param(1),
            k * n,
        ));
        assert(trace[1] == meaning::written(trace[0], Place::of_param(2), staged));
        assert(meaning::read(trace[1], Place::of_param(2), num_shards * (n)) =~= staged);
        let sums = summed_in_order(a, x, b, 1, n, k, num_shards);
        assert(trace[2] == meaning::written(trace[1], Place::of_param(3), sums));
        assert(meaning::read(trace[2], Place::of_param(3), n) =~= sums);
    } else if deterministic {
        assert(meaning::step_means(a, steps[0], trace[0], trace[1]));
        assert(meaning::step_means(a, steps[1], trace[1], trace[2]));
        assert(meaning::step_means(a, steps[2], trace[2], trace[3]));
        lemma_chunks(k, num_shards);
        shape::lemma_ceil_div(n, 2048);
        shape::lemma_ceil_div(n, 256);
        lemma_reduced(a, x, b, 1, n, k, num_shards);
        let staged = meaning::staged_shards(a, x, b, 1, n, k, chunk, num_shards);
        assert(meaning::read(trace[1], Place::of_param(0), k) =~= x);
        assert(meaning::read(trace[1], Place::of_param(1), k * n) =~= meaning::read(
            trace[0],
            Place::of_param(1),
            k * n,
        ));
        assert(trace[2] == meaning::written(trace[1], Place::of_scratch(0), staged));
        assert(meaning::read(trace[2], Place::of_scratch(0), num_shards * (n)) =~= staged);
        let sums = summed_in_order(a, x, b, 1, n, k, num_shards);
        assert(trace[3] == meaning::written(trace[2], Place::of_param(3), sums));
        assert(meaning::read(trace[3], Place::of_param(3), n) =~= sums);
    } else {
        assert(meaning::step_means(a, steps[0], trace[0], trace[1]));
        assert(meaning::step_means(a, steps[1], trace[1], trace[2]));
        assert(meaning::step_means(a, steps[2], trace[2], trace[3]));
        lemma_chunks(k, num_shards);
        shape::lemma_ceil_div(n, 2048);
        let zeros = meaning::read(trace[1], Place::of_param(2), n);
        assert(meaning::read(trace[1], Place::of_param(0), k) =~= x);
        assert(meaning::read(trace[1], Place::of_param(1), k * n) =~= meaning::read(
            trace[0],
            Place::of_param(1),
            k * n,
        ));
        lemma_gathered(a, zeros, x, b, n, k, num_shards);
        let sums = meaning::gathered_shards(a, zeros, x, b, n, k, chunk, num_shards);
        assert(trace[2] == meaning::written(trace[1], Place::of_param(2), sums));
        assert(meaning::read(trace[2], Place::of_param(2), n) =~= sums);
        let stored = sums.map_values(|v: T| (a.rounded)(v));
        assert(trace[3] == meaning::written(trace[2], Place::of_param(3), stored));
        assert(meaning::read(trace[3], Place::of_param(3), n) =~= stored);
    }
}

/// The managed product leaves in its result the row times the matrix, summed in whatever order
/// the shards come.
#[verifier::rlimit(40)]
pub proof fn gemv_bf16_split_k_w16_managed_gives_the_product<T>(
    a: Arithmetic<T>, x_len: int, b_len: int, scratch_len: int, out_len: int, n: int, k: int,
    num_shards: int, trace: Seq<Memory<T>>,
)
    requires
        0 <= n <= u32::MAX,
        0 <= k <= u32::MAX,
        0 <= num_shards <= u32::MAX,
        ({
            let p = managed::gemv_bf16_split_k_w16_managed_program(
                x_len, b_len, scratch_len, out_len, n, k, num_shards,
            );
            p.end is Done && meaning::carried_out(a, p.steps, trace)
        }),
    ensures
        ({
            let x = meaning::read(trace[0], Place::of_param(0), k);
            let b = meaning::read(trace[0], Place::of_param(1), k * n);
            meaning::read(trace.last(), Place::of_param(3), n) == summed_in_any_order(
                a,
                x,
                b,
                n,
                k,
                num_shards,
            )
        }),
{
    let steps = managed::gemv_bf16_split_k_w16_managed_program(
                x_len, b_len, scratch_len, out_len, n, k, num_shards,
            ).steps;
    let x = meaning::read(trace[0], Place::of_param(0), k);
    let b = meaning::read(trace[0], Place::of_param(1), k * n);
    let chunk = shape::ceil_div(k, num_shards);
    {
        assert(meaning::step_means(a, steps[0], trace[0], trace[1]));
        assert(meaning::step_means(a, steps[1], trace[1], trace[2]));
        assert(meaning::step_means(a, steps[2], trace[2], trace[3]));
        lemma_chunks(k, num_shards);
        shape::lemma_ceil_div(n, 2048);
        let zeros = meaning::read(trace[1], Place::of_param(2), n);
        assert(meaning::read(trace[1], Place::of_param(0), k) =~= x);
        assert(meaning::read(trace[1], Place::of_param(1), k * n) =~= meaning::read(
            trace[0],
            Place::of_param(1),
            k * n,
        ));
        lemma_gathered(a, zeros, x, b, n, k, num_shards);
        let sums = meaning::gathered_shards(a, zeros, x, b, n, k, chunk, num_shards);
        assert(trace[2] == meaning::written(trace[1], Place::of_param(2), sums));
        assert(meaning::read(trace[2], Place::of_param(2), n) =~= sums);
        let stored = sums.map_values(|v: T| (a.rounded)(v));
        assert(trace[3] == meaning::written(trace[2], Place::of_param(3), stored));
        assert(meaning::read(trace[3], Place::of_param(3), n) =~= stored);
    }
}

/// The managed product leaves in its result the row times the matrix, summed in whatever order
/// the shards come.
#[verifier::rlimit(40)]
pub proof fn gemv_bf16_split_k_managed_view_gives_the_product<T>(
    a: Arithmetic<T>, x_len: int, b_len: int, scratch_len: int, out_len: int, n: int, k: int,
    num_shards: int, trace: Seq<Memory<T>>,
)
    requires
        0 <= n <= u32::MAX,
        0 <= k <= u32::MAX,
        0 <= num_shards <= u32::MAX,
        ({
            let p = managed::gemv_bf16_split_k_managed_view_program(
                x_len, b_len, scratch_len, out_len, n, k, num_shards,
            );
            p.end is Done && meaning::carried_out(a, p.steps, trace)
        }),
    ensures
        ({
            let x = meaning::read(trace[0], Place::of_param(0), k);
            let b = meaning::read(trace[0], Place::of_param(1), k * n);
            meaning::read(trace.last(), Place::of_param(3), n) == summed_in_any_order(
                a,
                x,
                b,
                n,
                k,
                num_shards,
            )
        }),
{
    let steps = managed::gemv_bf16_split_k_managed_view_program(
                x_len, b_len, scratch_len, out_len, n, k, num_shards,
            ).steps;
    let x = meaning::read(trace[0], Place::of_param(0), k);
    let b = meaning::read(trace[0], Place::of_param(1), k * n);
    let chunk = shape::ceil_div(k, num_shards);
    {
        assert(meaning::step_means(a, steps[0], trace[0], trace[1]));
        assert(meaning::step_means(a, steps[1], trace[1], trace[2]));
        assert(meaning::step_means(a, steps[2], trace[2], trace[3]));
        lemma_chunks(k, num_shards);
        shape::lemma_ceil_div(n, 1024);
        let zeros = meaning::read(trace[1], Place::of_param(2), n);
        assert(meaning::read(trace[1], Place::of_param(0), k) =~= x);
        assert(meaning::read(trace[1], Place::of_param(1), k * n) =~= meaning::read(
            trace[0],
            Place::of_param(1),
            k * n,
        ));
        lemma_gathered(a, zeros, x, b, n, k, num_shards);
        let sums = meaning::gathered_shards(a, zeros, x, b, n, k, chunk, num_shards);
        assert(trace[2] == meaning::written(trace[1], Place::of_param(2), sums));
        assert(meaning::read(trace[2], Place::of_param(2), n) =~= sums);
        let stored = sums.map_values(|v: T| (a.rounded)(v));
        assert(trace[3] == meaning::written(trace[2], Place::of_param(3), stored));
        assert(meaning::read(trace[3], Place::of_param(3), n) =~= stored);
    }
}

/// The managed product leaves in its result the row times the matrix, summed in whatever order
/// the shards come.
#[verifier::rlimit(40)]
pub proof fn gemv_bf16_split_k_v4_managed_gives_the_product<T>(
    a: Arithmetic<T>, x_len: int, b_len: int, scratch_len: int, out_len: int, n: int, k: int,
    num_shards: int, trace: Seq<Memory<T>>,
)
    requires
        0 <= n <= u32::MAX,
        0 <= k <= u32::MAX,
        0 <= num_shards <= u32::MAX,
        ({
            let p = managed::gemv_bf16_split_k_v4_managed_program(
                x_len, b_len, scratch_len, out_len, n, k, num_shards,
            );
            p.end is Done && meaning::carried_out(a, p.steps, trace)
        }),
    ensures
        ({
            let x = meaning::read(trace[0], Place::of_param(0), k);
            let b = meaning::read(trace[0], Place::of_param(1), k * n);
            meaning::read(trace.last(), Place::of_param(3), n) == summed_in_any_order(
                a,
                x,
                b,
                n,
                k,
                num_shards,
            )
        }),
{
    let steps = managed::gemv_bf16_split_k_v4_managed_program(
                x_len, b_len, scratch_len, out_len, n, k, num_shards,
            ).steps;
    let x = meaning::read(trace[0], Place::of_param(0), k);
    let b = meaning::read(trace[0], Place::of_param(1), k * n);
    let chunk = shape::ceil_div(k, num_shards);
    {
        assert(meaning::step_means(a, steps[0], trace[0], trace[1]));
        assert(meaning::step_means(a, steps[1], trace[1], trace[2]));
        assert(meaning::step_means(a, steps[2], trace[2], trace[3]));
        lemma_chunks(k, num_shards);
        shape::lemma_ceil_div(n, 1024);
        let zeros = meaning::read(trace[1], Place::of_param(2), n);
        assert(meaning::read(trace[1], Place::of_param(0), k) =~= x);
        assert(meaning::read(trace[1], Place::of_param(1), k * n) =~= meaning::read(
            trace[0],
            Place::of_param(1),
            k * n,
        ));
        lemma_gathered(a, zeros, x, b, n, k, num_shards);
        let sums = meaning::gathered_shards(a, zeros, x, b, n, k, chunk, num_shards);
        assert(trace[2] == meaning::written(trace[1], Place::of_param(2), sums));
        assert(meaning::read(trace[2], Place::of_param(2), n) =~= sums);
        let stored = sums.map_values(|v: T| (a.rounded)(v));
        assert(trace[3] == meaning::written(trace[2], Place::of_param(3), stored));
        assert(meaning::read(trace[3], Place::of_param(3), n) =~= stored);
    }
}

#[verifier::rlimit(40)]
proof fn lemma_staged_bf16<T>(
    a: Arithmetic<T>, x_len: int, b_len: int, scratch_len: int, out_len: int, n: int, k: int,
    num_shards: int, trace: Seq<Memory<T>>,
)
    requires
        0 <= n <= u32::MAX,
        0 <= k <= u32::MAX,
        0 <= num_shards <= u32::MAX,
        scratch_len >= num_shards * n,
        ({
            let p = managed::gemv_bf16_split_k_managed_program(
                x_len, b_len, scratch_len, out_len, n, k, num_shards, true,
            );
            p.end is Done && meaning::carried_out(a, p.steps, trace)
        }),
    ensures
        ({
            let x = meaning::read(trace[0], Place::of_param(0), k);
            let b = meaning::read(trace[0], Place::of_param(1), k * n);
            meaning::read(trace.last(), Place::of_param(3), n) == summed_in_order(
                a,
                x,
                b,
                1,
                n,
                k,
                num_shards,
            )
        }),
{
    let steps = managed::gemv_bf16_split_k_managed_program(
                x_len, b_len, scratch_len, out_len, n, k, num_shards, true,
            ).steps;
    let x = meaning::read(trace[0], Place::of_param(0), k);
    let b = meaning::read(trace[0], Place::of_param(1), k * n);
    let chunk = shape::ceil_div(k, num_shards);
    {
        assert(meaning::step_means(a, steps[0], trace[0], trace[1]));
        assert(meaning::step_means(a, steps[1], trace[1], trace[2]));
        lemma_chunks(k, num_shards);
        shape::lemma_ceil_div(n, 1024);
        shape::lemma_ceil_div(n, 256);
        lemma_reduced(a, x, b, 1, n, k, num_shards);
        let staged = meaning::staged_shards(a, x, b, 1, n, k, chunk, num_shards);
        assert(meaning::read(trace[0], Place::of_param(0), k) =~= x);
        assert(meaning::read(trace[0], Place::of_param(1), k * n) =~= meaning::read(
            trace[0],
            Place::of_param(1),
            k * n,
        ));
        assert(trace[1] == meaning::written(trace[0], Place::of_param(2), staged));
        assert(meaning::read(trace[1], Place::of_param(2), num_shards * (n)) =~= staged);
        let sums = summed_in_order(a, x, b, 1, n, k, num_shards);
        assert(trace[2] == meaning::written(trace[1], Place::of_param(3), sums));
        assert(meaning::read(trace[2], Place::of_param(3), n) =~= sums);
    }
}

/// The managed product leaves in its result the row times the matrix: in deterministic mode
/// summed shard after shard, or not split at all where the scratch has no room for the shards,
/// and else in whatever order the shards come.
#[verifier::rlimit(40)]
pub proof fn gemv_bf16_split_k_managed_gives_the_product<T>(
    a: Arithmetic<T>, x_len: int, b_len: int, scratch_len: int, out_len: int, n: int, k: int,
    num_shards: int, deterministic: bool, trace: Seq<Memory<T>>,
)
    requires
        0 <= n <= u32::MAX,
        0 <= k <= u32::MAX,
        0 <= num_shards <= u32::MAX,
        ({
            let p = managed::gemv_bf16_split_k_managed_program(
                x_len, b_len, scratch_len, out_len, n, k, num_shards, deterministic,
            );
            p.end is Done && meaning::carried_out(a, p.steps, trace)
        }),
    ensures
        ({
            let x = meaning::read(trace[0], Place::of_param(0), k);
            let b = meaning::read(trace[0], Place::of_param(1), k * n);
            meaning::read(trace.last(), Place::of_param(3), n) == if !deterministic {
                summed_in_any_order(a, x, b, n, k, num_shards)
            } else if scratch_len >= num_shards * n {
                summed_in_order(a, x, b, 1, n, k, num_shards)
            } else {
                unsplit(a, x, b, n, k)
            }
        }),
{
    let steps = managed::gemv_bf16_split_k_managed_program(
                x_len, b_len, scratch_len, out_len, n, k, num_shards, deterministic,
            ).steps;
    let x = meaning::read(trace[0], Place::of_param(0), k);
    let b = meaning::read(trace[0], Place::of_param(1), k * n);
    let chunk = shape::ceil_div(k, num_shards);
    if deterministic && scratch_len >= num_shards * n {
        lemma_staged_bf16(
            a, x_len, b_len, scratch_len, out_len, n, k, num_shards, trace,
        );
    } else if deterministic {
        assert(meaning::step_means(a, steps[0], trace[0], trace[1]));
        shape::lemma_ceil_div(n, 256);
        assert(trace[1] == meaning::written(
            trace[0],
            Place::of_param(3),
            unsplit(a, x, b, n, k),
        ));
        assert(meaning::read(trace[1], Place::of_param(3), n) =~= unsplit(a, x, b, n, k));
    } else {
        assert(managed::gemv_bf16_split_k_managed_program(
            x_len, b_len, scratch_len, out_len, n, k, num_shards, false,
        ) == managed::gemv_bf16_split_k_managed_view_program(
            x_len, b_len, scratch_len, out_len, n, k, num_shards,
        ));
        gemv_bf16_split_k_managed_view_gives_the_product(
            a, x_len, b_len, scratch_len, out_len, n, k, num_shards, trace,
        );
    }
}

/// The managed product of several rows leaves in its result the rows times the matrix, summed
/// shard after shard.
#[verifier::rlimit(40)]
pub proof fn gemm_bf16_split_k_det_managed_gives_the_product<T>(
    a: Arithmetic<T>, x_len: int, b_len: int, stage_len: int, out_len: int, n: int, k: int,
    m: int, num_shards: int, trace: Seq<Memory<T>>,
)
    requires
        0 <= n <= u32::MAX,
        0 <= k <= u32::MAX,
        0 <= num_shards <= u32::MAX,
        0 <= m <= u32::MAX,
        ({
            let p = managed::gemm_bf16_split_k_det_managed_program(
                x_len, b_len, stage_len, out_len, n, k, m, num_shards,
            );
            p.end is Done && meaning::carried_out(a, p.steps, trace)
        }),
    ensures
        ({
            let x = meaning::read(trace[0], Place::of_param(0), m * k);
            let b = meaning::read(trace[0], Place::of_param(1), k * n);
            meaning::read(trace.last(), Place::of_param(3), m * n) == summed_in_order(
                a,
                x,
                b,
                m,
                n,
                k,
                num_shards,
            )
        }),
{
    let steps = managed::gemm_bf16_split_k_det_managed_program(
                x_len, b_len, stage_len, out_len, n, k, m, num_shards,
            ).steps;
    let x = meaning::read(trace[0], Place::of_param(0), m * k);
    let b = meaning::read(trace[0], Place::of_param(1), k * n);
    let chunk = shape::ceil_div(k, num_shards);
    {
        assert(meaning::step_means(a, steps[0], trace[0], trace[1]));
        assert(meaning::step_means(a, steps[1], trace[1], trace[2]));
        lemma_chunks(k, num_shards);
        shape::lemma_ceil_div(n, 1024);
        shape::lemma_ceil_div(m * n, 256);
        lemma_reduced(a, x, b, m, n, k, num_shards);
        let staged = meaning::staged_shards(a, x, b, m, n, k, chunk, num_shards);
        assert(meaning::read(trace[0], Place::of_param(0), m * k) =~= x);
        assert(meaning::read(trace[0], Place::of_param(1), k * n) =~= meaning::read(
            trace[0],
            Place::of_param(1),
            k * n,
        ));
        assert(trace[1] == meaning::written(trace[0], Place::of_param(2), staged));
        assert(meaning::read(trace[1], Place::of_param(2), num_shards * (m * n)) =~= staged);
        let sums = summed_in_order(a, x, b, m, n, k, num_shards);
        assert(trace[2] == meaning::written(trace[1], Place::of_param(3), sums));
        assert(meaning::read(trace[2], Place::of_param(3), m * n) =~= sums);
    }
}

} // verus!
