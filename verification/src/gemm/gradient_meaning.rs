//! The gradients of a matrix product as numbers: what the steps leave in memory.
use crate::gemm::backward;
use crate::gemm::dense;
use crate::gemm::gradient;
use crate::gemm::program_memory;
use crate::meaning;
use crate::meaning::{Arithmetic, Memory};
use crate::plan::{Arg, F32, Place, Plan, Slot};
use crate::program::{BindingView, ProgramView, StepView};
use crate::shape;
use vstd::prelude::*;

verus! {

/// Two matrices with the same entries are the same.
proof fn lemma_same_matrix<T>(
    rows: int, columns: int, f: spec_fn(int, int) -> T, g: spec_fn(int, int) -> T,
)
    requires
        rows >= 0,
        columns > 0,
        forall|i: int, j: int|
            0 <= i < rows && 0 <= j < columns ==> #[trigger] f(i, j) == g(i, j),
    ensures
        meaning::matrix(rows, columns, f) == meaning::matrix(rows, columns, g),
{
    let x = meaning::matrix(rows, columns, f);
    let y = meaning::matrix(rows, columns, g);
    assert forall|e: int| 0 <= e < x.len() implies #[trigger] x[e] == y[e] by {
        assert(0 <= e / columns < rows && 0 <= e % columns < columns) by (nonlinear_arith)
            requires
                0 <= e < rows * columns,
                columns > 0,
        ;
        assert(f(e / columns, e % columns) == g(e / columns, e % columns));
    }
    assert(x =~= y);
}

/// A product with a matrix that was transposed beforehand is a product with its transpose.
proof fn lemma_transposed_right<T>(
    a: Arithmetic<T>, x: Seq<T>, y: Seq<T>, m: int, n: int, k: int,
)
    requires
        m >= 0,
        n > 0,
        k > 0,
    ensures
        meaning::product(a, x, meaning::transposed(y, k, n), m, k, n)
            == meaning::product_with_transposed(a, x, y, m, n, k),
{
    let yt = meaning::transposed(y, k, n);
    let f = |i: int, j: int|
        meaning::dot(
            a,
            |t: int| meaning::entry(x, n, i, t),
            |t: int| meaning::entry(yt, k, t, j),
            n,
        );
    let g = |i: int, j: int|
        meaning::dot(
            a,
            |t: int| meaning::entry(x, n, i, t),
            |t: int| meaning::entry(y, n, j, t),
            n,
        );
    assert forall|i: int, j: int| 0 <= i < m && 0 <= j < k implies #[trigger] f(i, j) == g(
        i,
        j,
    ) by {
        let u = |t: int| meaning::entry(x, n, i, t);
        let v = |t: int| meaning::entry(yt, k, t, j);
        let w = |t: int| meaning::entry(y, n, j, t);
        assert forall|t: int| 0 <= t < n implies #[trigger] v(t) == w(t) by {
            meaning::matrix_has_its_entries(
                n,
                k,
                |i: int, j: int| meaning::entry(y, n, j, i),
                t,
                j,
            );
        }
        meaning::dot_of_equals(a, u, v, u, w, n);
    }
    lemma_same_matrix(m, k, f, g);
}

/// A product of a matrix that was transposed beforehand is a product of its transpose.
proof fn lemma_transposed_left<T>(
    a: Arithmetic<T>, x: Seq<T>, y: Seq<T>, m: int, n: int, k: int,
)
    requires
        m > 0,
        n > 0,
        k > 0,
    ensures
        meaning::product(a, meaning::transposed(x, m, k), y, k, n, m)
            == meaning::product_of_transposed(a, x, y, m, n, k),
{
    let xt = meaning::transposed(x, m, k);
    let f = |i: int, j: int|
        meaning::dot(
            a,
            |t: int| meaning::entry(xt, m, i, t),
            |t: int| meaning::entry(y, n, t, j),
            m,
        );
    let g = |i: int, j: int|
        meaning::dot(
            a,
            |t: int| meaning::entry(x, k, t, i),
            |t: int| meaning::entry(y, n, t, j),
            m,
        );
    assert forall|i: int, j: int| 0 <= i < k && 0 <= j < n implies #[trigger] f(i, j) == g(
        i,
        j,
    ) by {
        let u = |t: int| meaning::entry(xt, m, i, t);
        let v = |t: int| meaning::entry(y, n, t, j);
        let w = |t: int| meaning::entry(x, k, t, i);
        assert forall|t: int| 0 <= t < m implies #[trigger] u(t) == w(t) by {
            meaning::matrix_has_its_entries(
                k,
                m,
                |i: int, j: int| meaning::entry(x, k, j, i),
                i,
                t,
            );
        }
        meaning::dot_of_equals(a, u, v, w, v, m);
    }
    lemma_same_matrix(k, n, f, g);
}

/// What a transposing launch on two places does.
pub proof fn transposition_is_carried_out<T>(
    a: Arithmetic<T>, src_len: int, dst_len: int, m: int, n: int, places: Seq<Place>,
    before: Memory<T>, after: Memory<T>,
)
    requires
        places.len() == 2,
        m >= 0,
        n >= 0,
        dense::transpose_bf16_plan(src_len, dst_len, m, n) matches Plan::Launch(l)
            && meaning::launch_means(a, BindingView { places, base: 0 }.launch(l), before, after),
    ensures
        after == meaning::written(
            before,
            places[1],
            meaning::transposed(meaning::read(before, places[0], m * n), m, n),
        ),
{
    assert(m <= m * n && n <= m * n) by (nonlinear_arith)
        requires
            m > 0,
            n > 0,
    ;
    shape::lemma_ceil_div(m, 32);
    shape::lemma_ceil_div(n, 32);
}

/// What a launch of the tensor-core product on three places does.
pub proof fn product_is_carried_out<T>(
    a: Arithmetic<T>, a_len: int, b_len: int, c_len: int, m: int, n: int, k: int,
    places: Seq<Place>, before: Memory<T>, after: Memory<T>,
)
    requires
        places.len() == 3,
        0 <= m <= u32::MAX,
        0 <= n <= u32::MAX,
        0 <= k <= u32::MAX,
        dense::gemm_bf16_mma_plan(a_len, b_len, c_len, m, n, k) matches Plan::Launch(l)
            && meaning::launch_means(a, BindingView { places, base: 0 }.launch(l), before, after),
    ensures
        after == meaning::written(
            before,
            places[2],
            meaning::product(
                a,
                meaning::read(before, places[0], m * k),
                meaning::read(before, places[1], k * n),
                m,
                n,
                k,
            ),
        ),
{
}

/// On the tensor-core path the scratch memory holds `B` transposed: its entry in row `j` and
/// column `i`, in the `N x K` layout that the product reads, is the entry of `B` in row `i` and
/// column `j`, in the `K x N` layout that `B` has in the forward product.
#[allow(non_snake_case)]
pub proof fn gemm_bf16_backward_dA_mma_transposes_b<T>(
    a: Arithmetic<T>, dc_len: int, b_len: int, da_len: int, m: int, n: int, k: int,
    trace: Seq<Memory<T>>, i: int, j: int,
)
    requires
        0 <= m <= u32::MAX,
        0 <= n <= u32::MAX,
        0 <= k <= u32::MAX,
        ({
            let p = backward::gemm_bf16_backward_dA_mma_program(
                dc_len, b_len, da_len, m, n, k,
            );
            p.end is Done && p.steps.len() > 1 && meaning::carried_out(a, p.steps, trace)
        }),
        0 <= i < k,
        0 <= j < n,
    ensures
        trace.len() == 4,
        trace[2](Slot::Scratch(0), j * k + i) == trace[0](Slot::Param(1), i * n + j),
{
    let p = backward::gemm_bf16_backward_dA_mma_program(dc_len, b_len, da_len, m, n, k);
    assert(meaning::step_means(a, p.steps[0], trace[0], trace[1]));
    assert(meaning::step_means(a, p.steps[1], trace[1], trace[2]));
    transposition_is_carried_out(
        a, b_len, k * n, k, n, seq![Place::of_param(1), Place::of_scratch(0)], trace[1], trace[2],
    );
    let b = meaning::read(trace[1], Place::of_param(1), k * n);
    meaning::matrix_has_its_entries(
        n,
        k,
        |i: int, j: int| meaning::entry(b, n, j, i),
        j,
        i,
    );
    meaning::matrix_has_its_entries(
        k,
        n,
        |i: int, j: int| meaning::entry(b, n, i, j),
        i,
        j,
    );
}

/// The gradient of the left factor is `dA = dC @ B^T`, whichever path is taken.
#[allow(non_snake_case)]
pub proof fn gemm_bf16_backward_dA_mma_gives_the_gradient<T>(
    a: Arithmetic<T>, dc_len: int, b_len: int, da_len: int, m: int, n: int, k: int,
    trace: Seq<Memory<T>>,
)
    requires
        0 <= m <= u32::MAX,
        0 <= n <= u32::MAX,
        0 <= k <= u32::MAX,
        ({
            let p = backward::gemm_bf16_backward_dA_mma_program(
                dc_len, b_len, da_len, m, n, k,
            );
            p.end is Done && meaning::carried_out(a, p.steps, trace)
        }),
    ensures
        meaning::read(trace.last(), Place::of_param(2), m * k) == meaning::product_with_transposed(
            a,
            meaning::read(trace[0], Place::of_param(0), m * n),
            meaning::read(trace[0], Place::of_param(1), k * n),
            m,
            n,
            k,
        ),
{
    let p = backward::gemm_bf16_backward_dA_mma_program(dc_len, b_len, da_len, m, n, k);
    let dc = meaning::read(trace[0], Place::of_param(0), m * n);
    let b = meaning::read(trace[0], Place::of_param(1), k * n);
    assert(meaning::step_means(a, p.steps[0], trace[0], trace[1]));
    if m % 128 != 0 || k % 64 != 0 || n % 16 != 0 {
        shape::lemma_ceil_div(m, 8);
        shape::lemma_ceil_div(k, 32);
        meaning::written_is_read(
            trace[0],
            Place::of_param(2),
            meaning::product_with_transposed(a, dc, b, m, n, k),
        );
        assert(trace.last() == trace[1]);
    } else {
        assert(meaning::step_means(a, p.steps[1], trace[1], trace[2]));
        assert(meaning::step_means(a, p.steps[2], trace[2], trace[3]));
        transposition_is_carried_out(
            a, b_len, k * n, k, n, seq![Place::of_param(1), Place::of_scratch(0)], trace[1],
            trace[2],
        );
        product_is_carried_out(
            a, dc_len, k * n, da_len, m, k, n,
            seq![Place::of_param(0), Place::of_scratch(0), Place::of_param(2)], trace[2], trace[3],
        );
        assert(meaning::read(trace[1], Place::of_param(1), k * n) =~= b);
        assert(meaning::read(trace[2], Place::of_param(0), m * n) =~= dc);
        let bt = meaning::transposed(b, k, n);
        lemma_transposed_right(a, dc, b, m, n, k);
        assert(bt.len() == k * n) by (nonlinear_arith)
            requires
                bt.len() == n * k,
        ;
        assert(meaning::read(trace[2], Place::of_scratch(0), n * k) =~= bt) by {
            assert(n * k == k * n) by (nonlinear_arith);
        }
        meaning::written_is_read(
            trace[2],
            Place::of_param(2),
            meaning::product(a, dc, bt, m, k, n),
        );
    }
}

/// The gradient of the right factor is `dB = A^T @ dC`, whichever path is taken.
#[allow(non_snake_case)]
pub proof fn gemm_bf16_backward_dB_mma_gives_the_gradient<T>(
    a: Arithmetic<T>, a_len: int, dc_len: int, db_len: int, m: int, n: int, k: int,
    trace: Seq<Memory<T>>,
)
    requires
        0 <= m <= u32::MAX,
        0 <= n <= u32::MAX,
        0 <= k <= u32::MAX,
        ({
            let p = backward::gemm_bf16_backward_dB_mma_program(
                a_len, dc_len, db_len, m, n, k,
            );
            p.end is Done && meaning::carried_out(a, p.steps, trace)
        }),
    ensures
        meaning::read(trace.last(), Place::of_param(2), k * n) == meaning::product_of_transposed(
            a,
            meaning::read(trace[0], Place::of_param(0), m * k),
            meaning::read(trace[0], Place::of_param(1), m * n),
            m,
            n,
            k,
        ),
{
    let p = backward::gemm_bf16_backward_dB_mma_program(a_len, dc_len, db_len, m, n, k);
    let x = meaning::read(trace[0], Place::of_param(0), m * k);
    let dc = meaning::read(trace[0], Place::of_param(1), m * n);
    assert(meaning::step_means(a, p.steps[0], trace[0], trace[1]));
    if k % 128 != 0 || n % 64 != 0 || m % 16 != 0 {
        shape::lemma_ceil_div(k, 8);
        shape::lemma_ceil_div(n, 32);
        meaning::written_is_read(
            trace[0],
            Place::of_param(2),
            meaning::product_of_transposed(a, x, dc, m, n, k),
        );
        assert(trace.last() == trace[1]);
    } else {
        assert(meaning::step_means(a, p.steps[1], trace[1], trace[2]));
        assert(meaning::step_means(a, p.steps[2], trace[2], trace[3]));
        transposition_is_carried_out(
            a, a_len, m * k, m, k, seq![Place::of_param(0), Place::of_scratch(0)], trace[1],
            trace[2],
        );
        product_is_carried_out(
            a, m * k, dc_len, db_len, k, n, m,
            seq![Place::of_scratch(0), Place::of_param(1), Place::of_param(2)], trace[2], trace[3],
        );
        assert(meaning::read(trace[1], Place::of_param(0), m * k) =~= x);
        assert(meaning::read(trace[2], Place::of_param(1), m * n) =~= dc);
        let xt = meaning::transposed(x, m, k);
        lemma_transposed_left(a, x, dc, m, n, k);
        assert(k * m == m * k) by (nonlinear_arith);
        assert(meaning::read(trace[2], Place::of_scratch(0), k * m) =~= xt);
        meaning::written_is_read(
            trace[2],
            Place::of_param(2),
            meaning::product(a, xt, dc, k, n, m),
        );
    }
}

/// The gradient of the left factor over quantized weights is `dA = dC @ W^T`, of the numbers `W`
/// that the weight bytes stand for.
#[allow(non_snake_case)]
#[verifier::rlimit(40)]
pub proof fn gemm_fp8_w8a16_backward_dA_gives_the_gradient<T>(
    a: Arithmetic<T>, dc_len: int, b_fp8_len: int, b_scale: F32, da_len: int, m: int, n: int,
    k: int, trace: Seq<Memory<T>>,
)
    requires
        0 <= m <= u32::MAX,
        0 <= n <= u32::MAX,
        0 <= k <= u32::MAX,
        ({
            let p = backward::gemm_fp8_w8a16_backward_dA_program(
                dc_len, b_fp8_len, b_scale, da_len, m, n, k,
            );
            p.end is Done && meaning::carried_out(a, p.steps, trace)
        }),
    ensures
        meaning::read(trace.last(), Place::of_param(2), m * k) == meaning::product_with_transposed(
            a,
            meaning::read(trace[0], Place::of_param(0), m * n),
            meaning::read(trace[0], Place::of_param(1), k * n).map_values(
                |v: T| (a.widened)(v, b_scale),
            ),
            m,
            n,
            k,
        ),
{
    let steps = backward::gemm_fp8_w8a16_backward_dA_program(
        dc_len, b_fp8_len, b_scale, da_len, m, n, k,
    ).steps;
    let b = BindingView {
        places: seq![Place::of_param(0), Place::of_scratch(0), Place::of_param(2)],
        base: 1,
    };
    let p = ProgramView::empty().step(
        backward::scratch(k * n, "alloc b_bf16 scratch: "@),
    ).step(
        StepView::Dequant {
            from: Place::of_param(1),
            to: Place::of_scratch(0),
            n: k * n,
            scale: b_scale,
        },
    );
    let q = backward::gemm_bf16_backward_dA_mma_program(dc_len, k * n, da_len, m, n, k);
    assert(steps =~= p.then_run(q, b).steps);
    program_memory::gemm_bf16_backward_dA_mma_is_closed(dc_len, k * n, da_len, m, n, k);
    assert(meaning::step_means(a, steps[0], trace[0], trace[1]));
    assert(meaning::step_means(a, steps[1], trace[1], trace[2]));
    meaning::part_is_carried_out(a, p, q, b, 3, 1, trace);
    let times = meaning::seen_all(a, b, trace.subrange(2, trace.len() as int));
    gemm_bf16_backward_dA_mma_gives_the_gradient(a, dc_len, k * n, da_len, m, n, k, times);
    let w = meaning::read(trace[0], Place::of_param(1), k * n).map_values(
        |v: T| (a.widened)(v, b_scale),
    );
    assert(k * n >= 0) by (nonlinear_arith)
        requires
            k >= 0,
            n >= 0,
    ;
    assert(times[0] == meaning::seen(a, b, trace[2]));
    assert(times.last() == meaning::seen(a, b, trace.last()));
    assert(meaning::read(times[0], Place::of_param(1), k * n) =~= w);
    assert(meaning::read(times[0], Place::of_param(0), m * n) =~= meaning::read(
        trace[0],
        Place::of_param(0),
        m * n,
    ));
    assert(meaning::read(times.last(), Place::of_param(2), m * k) =~= meaning::read(
        trace.last(),
        Place::of_param(2),
        m * k,
    ));
}

} // verus!
