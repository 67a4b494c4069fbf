//! What kernels compute: numbers in memory, and what a step of a program does to them.
//!
//! The arithmetic is left open, so that what is proved over it holds of exact numbers as well as
//! of rounded ones. A kernel does its work only where its blocks cover the result.
use crate::memory;
use crate::plan::{Arg, F32, LaunchView, Place, Slot};
use crate::program::{BindingView, ProgramView, StepView};
use vstd::prelude::*;

verus! {

/// The arithmetic of the elements in memory.
#[verifier::reject_recursive_types(T)]
pub struct Arithmetic<T> {
    /// Nothing, with which memory is cleared and sums begin.
    pub zero: T,
    /// The sum of two numbers.
    pub plus: spec_fn(T, T) -> T,
    /// The difference of two numbers.
    pub minus: spec_fn(T, T) -> T,
    /// The product of two numbers.
    pub times: spec_fn(T, T) -> T,
    /// The number that a scalar argument stands for.
    pub scalar: spec_fn(F32) -> T,
    /// The weight of one entry of a row among the first so many: `softmax`.
    pub weight: spec_fn(Seq<T>, int) -> T,
    /// One number of the result of attention: a query over some keys, weighted on their values.
    pub attended: spec_fn(Seq<T>, Seq<T>, Seq<T>, F32, int) -> T,
    /// The same, over a part of the keys only, before it is merged with the other parts.
    pub partial: spec_fn(Seq<T>, Seq<T>, Seq<T>, F32, int) -> T,
    /// The logarithm of the sum of the exponentials of the scores over a part of the keys.
    pub partial_lse: spec_fn(Seq<T>, Seq<T>, F32) -> T,
    /// The partial results, merged by their logarithms.
    pub merged: spec_fn(Seq<T>, Seq<T>) -> T,
    /// A number to which the numbers of a list are added in whatever order they come.
    pub gathered: spec_fn(T, Seq<T>) -> T,
    /// A sum as it is stored in the result.
    pub rounded: spec_fn(T) -> T,
    /// The number that a byte and its scale stand for.
    pub widened: spec_fn(T, F32) -> T,
    /// The index that an element of a table holds.
    pub index: spec_fn(T) -> int,
}

/// The contents of memory, by buffer and element.
pub type Memory<T> = spec_fn(Slot, int) -> T;

/// The `n` elements that begin at a place.
pub open spec fn read<T>(m: Memory<T>, p: Place, n: int) -> Seq<T> {
    Seq::new(n as nat, |i: int| m(p.slot, p.start + i))
}

/// Memory with elements written from a place on.
pub open spec fn written<T>(m: Memory<T>, p: Place, x: Seq<T>) -> Memory<T> {
    |s: Slot, i: int|
        if s == p.slot && p.start <= i < p.start + x.len() {
            x[i - p.start]
        } else {
            m(s, i)
        }
}

/// Memory with a buffer cleared.
pub open spec fn cleared<T>(m: Memory<T>, slot: Slot, zero: T) -> Memory<T> {
    |s: Slot, i: int| if s == slot { zero } else { m(s, i) }
}

/// Whether two runs of elements have none in common.
pub open spec fn apart(p: Place, n: int, q: Place, k: int) -> bool {
    p.slot != q.slot || p.start + n <= q.start || q.start + k <= p.start
}

/// What is written can be read.
pub proof fn written_is_read<T>(m: Memory<T>, p: Place, x: Seq<T>)
    ensures
        read(written(m, p, x), p, x.len() as int) == x,
{
    assert(read(written(m, p, x), p, x.len() as int) =~= x);
}

/// What lies apart from what is written stays.
pub proof fn written_elsewhere<T>(m: Memory<T>, p: Place, x: Seq<T>, q: Place, n: int)
    requires
        n >= 0,
        apart(p, x.len() as int, q, n),
    ensures
        read(written(m, p, x), q, n) == read(m, q, n),
{
    assert(read(written(m, p, x), q, n) =~= read(m, q, n));
}

/// The product of the entries that two lists of `n` numbers have in the same place, summed.
pub open spec fn dot<T>(a: Arithmetic<T>, x: spec_fn(int) -> T, y: spec_fn(int) -> T, n: int) -> T
    decreases n,
{
    if n <= 0 {
        a.zero
    } else {
        (a.plus)(dot(a, x, y, n - 1), (a.times)(x(n - 1), y(n - 1)))
    }
}

/// Lists that agree on their first `n` entries have the same product.
pub proof fn dot_of_equals<T>(
    a: Arithmetic<T>, x: spec_fn(int) -> T, y: spec_fn(int) -> T, u: spec_fn(int) -> T,
    v: spec_fn(int) -> T, n: int,
)
    requires
        forall|t: int| 0 <= t < n ==> #[trigger] x(t) == u(t),
        forall|t: int| 0 <= t < n ==> #[trigger] y(t) == v(t),
    ensures
        dot(a, x, y, n) == dot(a, u, v, n),
    decreases n,
{
    if n > 0 {
        dot_of_equals(a, x, y, u, v, n - 1);
    }
}

/// The entry in row `i` and column `j` of a matrix with `columns` columns.
pub open spec fn entry<T>(x: Seq<T>, columns: int, i: int, j: int) -> T {
    x[i * columns + j]
}

/// Row number `i` of a matrix with `columns` columns.
pub open spec fn row<T>(x: Seq<T>, columns: int, i: int) -> Seq<T> {
    x.subrange(i * columns, i * columns + columns)
}

/// A matrix by its entries.
pub open spec fn matrix<T>(rows: int, columns: int, f: spec_fn(int, int) -> T) -> Seq<T> {
    Seq::new((rows * columns) as nat, |e: int| f(e / columns, e % columns))
}

/// A matrix has the entries that it was made of.
pub proof fn matrix_has_its_entries<T>(
    rows: int, columns: int, f: spec_fn(int, int) -> T, i: int, j: int,
)
    requires
        0 <= i < rows,
        0 <= j < columns,
    ensures
        entry(matrix(rows, columns, f), columns, i, j) == f(i, j),
        matrix(rows, columns, f).len() == rows * columns,
        0 <= i * columns + j < rows * columns,
{
    assert(0 <= i * columns + j < rows * columns) by (nonlinear_arith)
        requires
            0 <= i < rows,
            0 <= j < columns,
    ;
    vstd::arithmetic::div_mod::lemma_fundamental_div_mod_converse(i * columns + j, columns, i, j);
}

/// `X @ Y` of `X[m, k]` and `Y[k, n]`.
pub open spec fn product<T>(
    a: Arithmetic<T>, x: Seq<T>, y: Seq<T>, m: int, n: int, k: int,
) -> Seq<T> {
    matrix(
        m,
        n,
        |i: int, j: int| dot(a, |t: int| entry(x, k, i, t), |t: int| entry(y, n, t, j), k),
    )
}

/// `X^T @ Y` of `X[m, k]` and `Y[m, n]`.
pub open spec fn product_of_transposed<T>(
    a: Arithmetic<T>, x: Seq<T>, y: Seq<T>, m: int, n: int, k: int,
) -> Seq<T> {
    matrix(
        k,
        n,
        |i: int, j: int| dot(a, |t: int| entry(x, k, t, i), |t: int| entry(y, n, t, j), m),
    )
}

/// `X @ Y^T` of `X[m, n]` and `Y[k, n]`.
pub open spec fn product_with_transposed<T>(
    a: Arithmetic<T>, x: Seq<T>, y: Seq<T>, m: int, n: int, k: int,
) -> Seq<T> {
    matrix(
        m,
        k,
        |i: int, j: int| dot(a, |t: int| entry(x, n, i, t), |t: int| entry(y, n, j, t), n),
    )
}

/// `X^T` of `X[m, n]`.
pub open spec fn transposed<T>(x: Seq<T>, m: int, n: int) -> Seq<T> {
    matrix(n, m, |i: int, j: int| entry(x, n, j, i))
}

/// Every number, times a scalar.
pub open spec fn scaled<T>(a: Arithmetic<T>, x: Seq<T>, s: F32) -> Seq<T> {
    x.map_values(|v: T| (a.times)(v, (a.scalar)(s)))
}

/// The numbers of a list, summed.
pub open spec fn total<T>(a: Arithmetic<T>, x: spec_fn(int) -> T, n: int) -> T
    decreases n,
{
    if n <= 0 {
        a.zero
    } else {
        (a.plus)(total(a, x, n - 1), x(n - 1))
    }
}

/// The key head that serves query head number `i`, counted over the whole batch: each of the
/// `kv` key heads of a batch entry serves equally many of its `heads` query heads, in order.
pub open spec fn serving_head(i: int, heads: int, kv: int) -> int {
    (i / heads) * kv + (i % heads) / (heads / kv)
}

/// The first query head that key head number `i` serves, both counted over the whole batch.
pub open spec fn first_served(i: int, heads: int, kv: int) -> int {
    (i / kv) * heads + (i % kv) * (heads / kv)
}

/// Key heads of `n` elements, repeated so that every query head has its own.
pub open spec fn repeated_heads<T>(
    x: Seq<T>, batch: int, heads: int, kv: int, n: int,
) -> Seq<T> {
    matrix(batch * heads, n, |i: int, r: int| entry(x, n, serving_head(i, heads, kv), r))
}

/// Heads of `n` elements, summed over the query heads that each key head serves.
pub open spec fn summed_heads<T>(
    a: Arithmetic<T>, x: Seq<T>, batch: int, heads: int, kv: int, n: int,
) -> Seq<T> {
    matrix(
        batch * kv,
        n,
        |i: int, r: int|
            total(a, |g: int| entry(x, n, first_served(i, heads, kv) + g, r), heads / kv),
    )
}

/// `[T, H, D]` as `[H, T, D]`.
pub open spec fn heads_first<T>(x: Seq<T>, tokens: int, heads: int, d: int) -> Seq<T> {
    matrix(heads * tokens, d, |i: int, c: int| entry(x, d, (i % tokens) * heads + i / tokens, c))
}

/// `[H, T, D]` as `[T, H, D]`.
pub open spec fn tokens_first<T>(x: Seq<T>, tokens: int, heads: int, d: int) -> Seq<T> {
    matrix(tokens * heads, d, |i: int, c: int| entry(x, d, (i % heads) * tokens + i / heads, c))
}

/// The attention weights `P = softmax(Q @ K^T * scale)` of one head. Under a causal mask a query
/// gives no weight to the keys after it.
pub open spec fn attention_weights<T>(
    a: Arithmetic<T>, q: Seq<T>, k: Seq<T>, seq: int, d: int, scale: F32, causal: bool,
) -> Seq<T> {
    let scores = scaled(a, product_with_transposed(a, q, k, seq, d, seq), scale);
    matrix(
        seq,
        seq,
        |i: int, j: int|
            {
                let seen = if causal { i + 1 } else { seq };
                if j < seen {
                    (a.weight)(scores.subrange(i * seq, i * seq + seen), j)
                } else {
                    a.zero
                }
            },
    )
}

/// The score gradient `dS = P * (dP - D)` of one head, where `D` sums `dP * P` over each row.
pub open spec fn score_gradient<T>(
    a: Arithmetic<T>, p: Seq<T>, dp: Seq<T>, seq: int,
) -> Seq<T> {
    matrix(
        seq,
        seq,
        |i: int, j: int|
            (a.times)(
                entry(p, seq, i, j),
                (a.minus)(
                    entry(dp, seq, i, j),
                    dot(a, |t: int| entry(dp, seq, i, t), |t: int| entry(p, seq, i, t), seq),
                ),
            ),
    )
}

/// A place, so many elements further.
pub open spec fn moved(p: Place, by: int) -> Place {
    Place { slot: p.slot, start: (p.start + by) as u64 }
}

/// The rows of one of `parts` equal parts of head number `head`, with `seq` rows of `d` elements
/// per head.
pub open spec fn part_of_head<T>(
    x: Seq<T>, head: int, seq: int, d: int, parts: int, part: int,
) -> Seq<T> {
    let chunk = seq / parts;
    x.subrange((head * seq + part * chunk) * d, (head * seq + (part + 1) * chunk) * d)
}

/// The rows of head number `head`, with `seq` rows of `d` elements per head.
pub open spec fn head_rows<T>(x: Seq<T>, head: int, seq: int, d: int) -> Seq<T> {
    x.subrange(head * seq * d, (head * seq + seq) * d)
}

/// The partial results of all queries over one part of the keys of their heads.
pub open spec fn partial_results<T>(
    a: Arithmetic<T>, q: Seq<T>, k: Seq<T>, v: Seq<T>, rows: int, seq_q: int, seq_kv: int, d: int,
    scale: F32, parts: int, part: int,
) -> Seq<T> {
    matrix(
        rows,
        d,
        |i: int, c: int|
            (a.partial)(
                row(q, d, i),
                part_of_head(k, i / seq_q, seq_kv, d, parts, part),
                part_of_head(v, i / seq_q, seq_kv, d, parts, part),
                scale,
                c,
            ),
    )
}

/// The logarithms that go with [`partial_results`].
pub open spec fn partial_logarithms<T>(
    a: Arithmetic<T>, q: Seq<T>, k: Seq<T>, rows: int, seq_q: int, seq_kv: int, d: int, scale: F32,
    parts: int, part: int,
) -> Seq<T> {
    matrix(
        rows,
        1,
        |i: int, c: int|
            (a.partial_lse)(
                row(q, d, i),
                part_of_head(k, i / seq_q, seq_kv, d, parts, part),
                scale,
            ),
    )
}

/// Partial results of `parts` parts, merged.
pub open spec fn merged_results<T>(
    a: Arithmetic<T>, partials: Seq<T>, lses: Seq<T>, rows: int, d: int, parts: int,
) -> Seq<T> {
    matrix(
        rows,
        d,
        |i: int, c: int|
            (a.merged)(
                Seq::new(parts as nat, |p: int| entry(partials, d, p * rows + i, c)),
                Seq::new(parts as nat, |p: int| entry(lses, 1, p * rows + i, 0)),
            ),
    )
}

/// What the kernels do that work on the keys in parts.
pub open spec fn parts_mean<T>(
    a: Arithmetic<T>, l: LaunchView, before: Memory<T>, after: Memory<T>,
) -> bool {
    &&& l.entry == "flash_attn_bf16_v3_split_kv"@ && l.args.len() == 12 && l.args[0] is Buffer
        && l.args[1] is Buffer && l.args[2] is Buffer && l.args[3] is Buffer && l.args[4] is Word
        && l.args[5] is Word && l.args[6] is Word && l.args[7] is Word && l.args[8] is Scalar
        && l.args[9] is Buffer && l.args[10] is Word && l.args[11] is Word && ({
        let seq_q = l.count(4);
        let seq_kv = l.count(5);
        let heads = l.count(6);
        let batch = l.count(7);
        let parts = l.count(10);
        let part = l.count(11);
        &&& covers(l.grid.0, 128, seq_q)
        &&& l.grid.1 == heads
        &&& l.grid.2 == batch
        &&& 0 <= part < parts
        &&& seq_kv % parts == 0
    }) ==> {
        let seq_q = l.count(4);
        let seq_kv = l.count(5);
        let heads = l.count(6) * l.count(7);
        let rows = heads * seq_q;
        let parts = l.count(10);
        let part = l.count(11);
        let q = read(before, l.place(0), rows * 128);
        let k = read(before, l.place(1), heads * seq_kv * 128);
        let v = read(before, l.place(2), heads * seq_kv * 128);
        after == written(
            written(
                before,
                moved(l.place(3), part * rows * 128),
                partial_results(
                    a,
                    q,
                    k,
                    v,
                    rows,
                    seq_q,
                    seq_kv,
                    128,
                    l.scalar(8),
                    parts,
                    part,
                ),
            ),
            moved(l.place(9), part * rows),
            partial_logarithms(a, q, k, rows, seq_q, seq_kv, 128, l.scalar(8), parts, part),
        )
    }
    &&& l.entry == "flash_decoding_combine"@ && l.takes(3, 4, 0) && l.grid.0 == l.count(5)
        && l.grid.1 == l.count(4) && l.grid.2 == l.count(3) ==> {
        let rows = l.count(4) * l.count(3) * l.count(5);
        let parts = l.count(6);
        after == written(
            before,
            l.place(2),
            merged_results(
                a,
                read(before, l.place(0), parts * rows * 128),
                read(before, l.place(1), parts * rows),
                rows,
                128,
                parts,
            ),
        )
    }
}

/// The part of a product of a row with column `j` of `b` that falls to shard number `s`: `chunk`
/// entries of the depth `k`, or what is left of it.
pub open spec fn shard_sum<T>(
    a: Arithmetic<T>, x: Seq<T>, b: Seq<T>, n: int, k: int, chunk: int, s: int, j: int,
) -> T {
    let rest = k - s * chunk;
    dot(
        a,
        |t: int| x[s * chunk + t],
        |t: int| entry(b, n, s * chunk + t, j),
        if rest < chunk { rest } else { chunk },
    )
}

/// The parts of a product of `m` rows that fall to the shards, shard after shard.
pub open spec fn staged_shards<T>(
    a: Arithmetic<T>, x: Seq<T>, b: Seq<T>, m: int, n: int, k: int, chunk: int, shards: int,
) -> Seq<T> {
    matrix(
        shards,
        m * n,
        |s: int, e: int| shard_sum(a, row(x, k, e / n), b, n, k, chunk, s, e % n),
    )
}

/// Staged parts of `n` results, summed shard after shard.
pub open spec fn reduced_shards<T>(a: Arithmetic<T>, x: Seq<T>, n: int, shards: int) -> Seq<T> {
    matrix(1, n, |i: int, e: int| (a.rounded)(total(a, |s: int| entry(x, n, s, e), shards)))
}

/// A row of `n` numbers with the parts that fall to the shards added in whatever order.
pub open spec fn gathered_shards<T>(
    a: Arithmetic<T>, sums: Seq<T>, x: Seq<T>, b: Seq<T>, n: int, k: int, chunk: int, shards: int,
) -> Seq<T> {
    matrix(
        1,
        n,
        |i: int, j: int|
            (a.gathered)(
                sums[j],
                Seq::new(shards as nat, |s: int| shard_sum(a, x, b, n, k, chunk, s, j)),
            ),
    )
}

/// Whether a launch of a split product with 8 columns to a thread, or with 16, covers its
/// columns, and its shards cover the depth.
pub open spec fn splits_depth(l: LaunchView, tile: int, n: int, k: int, chunk: int) -> bool {
    &&& covers(l.grid.0, tile, n)
    &&& k <= l.grid.1 * chunk
}

/// What the kernels of split products do.
pub open spec fn shards_mean<T>(
    a: Arithmetic<T>, l: LaunchView, before: Memory<T>, after: Memory<T>,
) -> bool {
    let n = l.count(3);
    let k = l.count(4);
    let chunk = l.count(5);
    let x = read(before, l.place(0), k);
    let b = read(before, l.place(1), k * n);
    let wide = read(before, l.place(1), l.count(5) * l.count(4)).map_values(
        |v: T| (a.widened)(v, l.scalar(3)),
    );
    let narrow = read(before, l.place(0), l.count(5));
    let adds = written(
        before,
        l.place(2),
        gathered_shards(a, read(before, l.place(2), n), x, b, n, k, chunk, l.grid.1),
    );
    let adds_wide = written(
        before,
        l.place(2),
        gathered_shards(
            a,
            read(before, l.place(2), l.count(4)),
            narrow,
            wide,
            l.count(4),
            l.count(5),
            l.count(6),
            l.grid.1,
        ),
    );
    let stages_wide = written(
        before,
        l.place(2),
        staged_shards(
            a,
            narrow,
            wide,
            1,
            l.count(4),
            l.count(5),
            l.count(6),
            l.grid.1,
        ),
    );
    &&& l.entry == "gemv_bf16_split_k"@ && l.takes(3, 3, 0) && splits_depth(l, 1024, n, k, chunk)
        ==> after == adds
    &&& l.entry == "gemv_bf16_split_k_v4"@ && l.takes(3, 3, 0) && splits_depth(
        l,
        1024,
        n,
        k,
        chunk,
    ) ==> after == adds
    &&& l.entry == "gemv_bf16_split_k_w16"@ && l.takes(3, 3, 0) && splits_depth(
        l,
        2048,
        n,
        k,
        chunk,
    ) ==> after == adds
    &&& l.entry == "gemv_bf16_split_k_det"@ && l.takes(3, 3, 0) && splits_depth(
        l,
        1024,
        n,
        k,
        chunk,
    ) ==> after == written(
        before,
        l.place(2),
        staged_shards(a, x, b, 1, n, k, chunk, l.grid.1),
    )
    &&& l.entry == "gemm_bf16_split_k_det"@ && l.takes(3, 4, 0) && splits_depth(
        l,
        1024,
        n,
        k,
        chunk,
    ) ==> after == written(
        before,
        l.place(2),
        staged_shards(
            a,
            read(before, l.place(0), l.count(6) * k),
            b,
            l.count(6),
            n,
            k,
            chunk,
            l.grid.1,
        ),
    )
    &&& l.entry == "gemv_w8a16_split_k"@ && l.takes_scaled() && splits_depth(
        l,
        1024,
        l.count(4),
        l.count(5),
        l.count(6),
    ) ==> after == adds_wide
    &&& l.entry == "gemv_w8a16_split_k_w16"@ && l.takes_scaled() && splits_depth(
        l,
        2048,
        l.count(4),
        l.count(5),
        l.count(6),
    ) ==> after == adds_wide
    &&& l.entry == "gemv_w8a16_split_k_det"@ && l.takes_scaled() && splits_depth(
        l,
        1024,
        l.count(4),
        l.count(5),
        l.count(6),
    ) ==> after == stages_wide
    &&& l.entry == "gemv_w8a16_split_k_w16_det"@ && l.takes_scaled() && splits_depth(
        l,
        2048,
        l.count(4),
        l.count(5),
        l.count(6),
    ) ==> after == stages_wide
    &&& l.entry == "gemv_bf16"@ && l.takes(3, 2, 0) && covers(l.grid.0, 256, n)
        ==> after == written(
        before,
        l.place(2),
        product(a, x, b, 1, n, k).map_values(|v: T| (a.rounded)(v)),
    )
    &&& l.entry == "f32_shard_reduce_to_bf16"@ && l.takes(2, 2, 0) && covers(
        l.grid.0,
        256,
        l.count(2),
    ) ==> after == written(
        before,
        l.place(1),
        reduced_shards(
            a,
            read(before, l.place(0), l.count(3) * l.count(2)),
            l.count(2),
            l.count(3),
        ),
    )
    &&& l.entry == "f32_to_bf16"@ && l.takes(2, 1, 0) && l.grid.0 >= 1 ==> after == written(
        before,
        l.place(1),
        read(before, l.place(0), l.count(2)).map_values(|v: T| (a.rounded)(v)),
    )
}

/// Whether `blocks` blocks of `tile` cover `extent`, the last of them not in vain.
pub open spec fn covers(blocks: int, tile: int, extent: int) -> bool {
    (blocks - 1) * tile < extent <= blocks * tile
}

impl LaunchView {
    /// The buffer that argument number `i` names.
    pub open spec fn place(self, i: int) -> Place {
        self.args[i]->Buffer_0
    }

    /// The number in argument number `i`.
    pub open spec fn count(self, i: int) -> int {
        self.args[i]->Word_0 as int
    }

    /// Whether the arguments are so many buffers, then so many numbers, then so many scalars.
    pub open spec fn takes(self, buffers: int, counts: int, scalars: int) -> bool {
        &&& self.args.len() == buffers + counts + scalars
        &&& forall|i: int| 0 <= i < buffers ==> (#[trigger] self.args[i]) is Buffer
        &&& forall|i: int| buffers <= i < buffers + counts ==> (#[trigger] self.args[i]) is Word
        &&& forall|i: int|
            buffers + counts <= i < self.args.len() ==> (#[trigger] self.args[i]) is Scalar
    }

    /// Whether the arguments are three buffers, a scalar and three numbers.
    pub open spec fn takes_scaled(self) -> bool {
        &&& self.args.len() == 7
        &&& self.args[0] is Buffer
        &&& self.args[1] is Buffer
        &&& self.args[2] is Buffer
        &&& self.args[3] is Scalar
        &&& self.args[4] is Word
        &&& self.args[5] is Word
        &&& self.args[6] is Word
    }

    /// The scalar in argument number `i`.
    pub open spec fn scalar(self, i: int) -> F32 {
        self.args[i]->Scalar_0
    }
}

/// What the kernels of matrix products do.
pub open spec fn products_mean<T>(
    a: Arithmetic<T>, l: LaunchView, before: Memory<T>, after: Memory<T>,
) -> bool {
    let x = l.place(0);
    let y = l.place(1);
    let z = l.place(2);
    let m = l.count(3);
    let n = l.count(4);
    let k = l.count(5);
    &&& l.entry == "gemm_bf16"@ && l.takes(3, 3, 0) && covers(l.grid.0, 16, n) && covers(l.grid.1, 16, m)
        ==> after == written(
        before,
        z,
        product(a, read(before, x, m * k), read(before, y, k * n), m, n, k),
    )
    &&& l.entry == "gemm_bf16_mma"@ && l.takes(3, 3, 0) && covers(l.grid.0, 64, n) && covers(l.grid.1, 128, m)
        ==> after == written(
        before,
        z,
        product(a, read(before, x, m * k), read(before, y, k * n), m, n, k),
    )
    &&& l.entry == "gemm_bf16_backward_dA"@ && l.takes(3, 3, 0) && covers(l.grid.0, 8, m) && covers(l.grid.1, 32, k)
        ==> after == written(
        before,
        z,
        product_with_transposed(a, read(before, x, m * n), read(before, y, k * n), m, n, k),
    )
    &&& l.entry == "gemm_bf16_backward_dB"@ && l.takes(3, 3, 0) && covers(l.grid.0, 8, k) && covers(l.grid.1, 32, n)
        ==> after == written(
        before,
        z,
        product_of_transposed(a, read(before, x, m * k), read(before, y, m * n), m, n, k),
    )
}

/// How a cache is laid out in pages: `heads` heads of `d` elements per token, `page` tokens per page,
/// and up to `pages` pages per batch entry, which a table lists.
pub struct Pages {
    pub heads: int,
    pub d: int,
    pub page: int,
    pub pages: int,
    pub tokens: int,
    pub batch: int,
}

/// The token of the cache that holds position `pos` of batch entry `b`.
pub open spec fn cached_token<T>(
    a: Arithmetic<T>, m: Memory<T>, table: Place, g: Pages, b: int, pos: int,
) -> int {
    (a.index)(m(table.slot, table.start + b * g.pages + pos / g.page)) * g.page + pos % g.page
}

/// Where the cache holds column `c` of head `h` at position `pos` of batch entry `b`.
pub open spec fn cached_at<T>(
    a: Arithmetic<T>, m: Memory<T>, table: Place, g: Pages, b: int, pos: int, h: int, c: int,
) -> int {
    (cached_token(a, m, table, g, b, pos) * g.heads + h) * g.d + c
}

/// The cache, gathered as `[batch, heads, tokens, d]`.
pub open spec fn gathered_cache<T>(
    a: Arithmetic<T>, m: Memory<T>, cache: Place, table: Place, g: Pages,
) -> Seq<T> {
    matrix(
        g.batch * g.heads * g.tokens,
        g.d,
        |i: int, c: int|
            m(
                cache.slot,
                cache.start + cached_at(
                    a,
                    m,
                    table,
                    g,
                    i / (g.heads * g.tokens),
                    i % g.tokens,
                    (i / g.tokens) % g.heads,
                    c,
                ),
            ),
    )
}

/// Whether no other position has its token of the cache in common with this one.
pub open spec fn is_alone<T>(
    a: Arithmetic<T>, m: Memory<T>, table: Place, g: Pages, b: int, pos: int,
) -> bool {
    forall|other: int, at: int|
        0 <= other < g.batch && 0 <= at < g.tokens && #[trigger] cached_token(
            a,
            m,
            table,
            g,
            other,
            at,
        ) == cached_token(a, m, table, g, b, pos) ==> other == b && at == pos
}

/// Whether a tensor `[batch, heads, tokens, d]` has been scattered to a cache: what is held by one
/// position alone is there.
pub open spec fn is_scattered<T>(
    a: Arithmetic<T>, before: Memory<T>, after: Memory<T>, from: Place, cache: Place, table: Place,
    g: Pages,
) -> bool {
    &&& forall|s: Slot, i: int|
        s != cache.slot ==> #[trigger] after(s, i) == before(s, i)
    &&& forall|b: int, pos: int, h: int, c: int|
        0 <= b < g.batch && 0 <= pos < g.tokens && 0 <= h < g.heads && 0 <= c < g.d && is_alone(
            a,
            before,
            table,
            g,
            b,
            pos,
        ) ==> after(
            cache.slot,
            cache.start + #[trigger] cached_at(a, before, table, g, b, pos, h, c),
        ) == before(from.slot, from.start + ((b * g.heads + h) * g.tokens + pos) * g.d + c)
}

/// The layout that a launch over pages is told of.
pub open spec fn pages_of(l: LaunchView) -> Pages {
    Pages {
        heads: l.count(3),
        d: l.count(4),
        page: l.count(5),
        pages: l.count(6),
        tokens: l.count(7),
        batch: l.grid.1,
    }
}

/// What the kernels that move pages do.
pub open spec fn pages_mean<T>(
    a: Arithmetic<T>, l: LaunchView, before: Memory<T>, after: Memory<T>,
) -> bool {
    &&& l.entry == "paged_kv_gather_bf16"@ && l.takes(3, 5, 0) && l.grid.0 == l.count(7)
        ==> after == written(
        before,
        l.place(1),
        gathered_cache(a, before, l.place(0), l.place(2), pages_of(l)),
    )
    &&& l.entry == "paged_kv_scatter_bf16"@ && l.takes(3, 5, 0) && l.grid.0 == l.count(7)
        ==> is_scattered(a, before, after, l.place(0), l.place(1), l.place(2), pages_of(l))
}

/// What the kernels that move a matrix do.
pub open spec fn moves_mean<T>(
    a: Arithmetic<T>, l: LaunchView, before: Memory<T>, after: Memory<T>,
) -> bool {
    let from = l.place(0);
    let to = l.place(1);
    &&& l.entry == "transpose_bf16"@ && l.takes(2, 2, 0) && covers(l.grid.0, 32, l.count(3)) && covers(
        l.grid.1,
        32,
        l.count(2),
    ) ==> after == written(
        before,
        to,
        transposed(read(before, from, l.count(2) * l.count(3)), l.count(2), l.count(3)),
    )
    &&& l.entry == "repeat_kv_groups_bf16"@ && l.takes(2, 5, 0) && covers(
        l.grid.0,
        256,
        l.count(2) * l.count(4) * (l.count(5) * l.count(6)),
    ) ==> after == written(
        before,
        to,
        repeated_heads(
            read(before, from, l.count(2) * l.count(3) * (l.count(5) * l.count(6))),
            l.count(2),
            l.count(4),
            l.count(3),
            l.count(5) * l.count(6),
        ),
    )
    &&& l.entry == "sum_kv_groups_bf16"@ && l.takes(2, 5, 0) && covers(
        l.grid.0,
        256,
        l.count(2) * l.count(3) * (l.count(5) * l.count(6)),
    ) ==> after == written(
        before,
        to,
        summed_heads(
            a,
            read(before, from, l.count(2) * l.count(4) * (l.count(5) * l.count(6))),
            l.count(2),
            l.count(4),
            l.count(3),
            l.count(5) * l.count(6),
        ),
    )
    &&& l.entry == "permute_thd_to_htd_bf16"@ && l.takes(2, 3, 0) && l.grid.0 == l.count(2)
        && l.grid.1 == l.count(3) ==> after == written(
        before,
        to,
        heads_first(
            read(before, from, l.count(2) * (l.count(3) * l.count(4))),
            l.count(2),
            l.count(3),
            l.count(4),
        ),
    )
    &&& l.entry == "permute_htd_to_thd_bf16"@ && l.takes(2, 3, 0) && l.grid.0 == l.count(2)
        && l.grid.1 == l.count(3) ==> after == written(
        before,
        to,
        tokens_first(
            read(before, from, l.count(2) * (l.count(3) * l.count(4))),
            l.count(2),
            l.count(3),
            l.count(4),
        ),
    )
}

/// What the kernels of attention gradients do.
pub open spec fn gradients_mean<T>(
    a: Arithmetic<T>, l: LaunchView, before: Memory<T>, after: Memory<T>,
) -> bool {
    let seq = l.count(3);
    let d = l.count(4);
    &&& l.entry == "fa_bw_recompute_p_bf16"@ && l.takes(3, 2, 1) && l.grid.0 == seq ==> after == written(
        before,
        l.place(2),
        attention_weights(
            a,
            read(before, l.place(0), seq * d),
            read(before, l.place(1), seq * d),
            seq,
            d,
            l.scalar(5),
            false,
        ),
    )
    &&& l.entry == "fa_bw_recompute_p_causal_bf16"@ && l.takes(3, 2, 1) && l.grid.0 == seq ==> after == written(
        before,
        l.place(2),
        attention_weights(
            a,
            read(before, l.place(0), seq * d),
            read(before, l.place(1), seq * d),
            seq,
            d,
            l.scalar(5),
            true,
        ),
    )
    &&& l.entry == "fa_bw_compute_ds_bf16"@ && l.takes(3, 1, 0) && l.grid.0 == seq ==> after == written(
        before,
        l.place(2),
        score_gradient(
            a,
            read(before, l.place(0), seq * seq),
            read(before, l.place(1), seq * seq),
            seq,
        ),
    )
    &&& l.entry == "scale_bf16_inplace_host"@ && l.takes(1, 1, 1) && covers(l.grid.0, 256, l.count(1))
        ==> after == written(
        before,
        l.place(0),
        scaled(a, read(before, l.place(0), l.count(1)), l.scalar(2)),
    )
}

/// Whether a launch is given some of a buffer, as an argument or by a descriptor.
pub open spec fn is_given(l: LaunchView, s: Slot) -> bool {
    ||| exists|i: int|
        0 <= i < l.args.len() && ((#[trigger] l.args[i]) matches Arg::Buffer(p) && p.slot == s)
    ||| exists|i: int| 0 <= i < l.tensor_maps.len() && (#[trigger] l.tensor_maps[i]).base.slot == s
}

/// A kernel without bare addresses reaches only the buffers that it is given.
pub open spec fn others_stay<T>(l: LaunchView, before: Memory<T>, after: Memory<T>) -> bool {
    (forall|i: int| 0 <= i < l.args.len() ==> (#[trigger] l.args[i]) !is Address) ==> forall|
        s: Slot,
        i: int,
    |
        !is_given(l, s) ==> #[trigger] after(s, i) == before(s, i)
}

/// What a launch does to memory, as far as its kernel is known.
pub open spec fn launch_means<T>(
    a: Arithmetic<T>, l: LaunchView, before: Memory<T>, after: Memory<T>,
) -> bool {
    &&& products_mean(a, l, before, after)
    &&& moves_mean(a, l, before, after)
    &&& gradients_mean(a, l, before, after)
    &&& parts_mean(a, l, before, after)
    &&& shards_mean(a, l, before, after)
    &&& pages_mean(a, l, before, after)
    &&& others_stay(l, before, after)
}

/// What a step does to memory.
pub open spec fn step_means<T>(
    a: Arithmetic<T>, s: StepView, before: Memory<T>, after: Memory<T>,
) -> bool {
    match s {
        StepView::Load { kernel, entry } => after == before,
        StepView::Alloc { scratch, elem, len, failure } => after == cleared(
            before,
            Slot::Scratch(scratch),
            a.zero,
        ),
        StepView::Encode { scratch, maps } => after == before,
        StepView::Zero { slot } => after == cleared(before, slot, a.zero),
        StepView::Copy { from, to, len } => after == written(before, to, read(before, from, len)),
        StepView::Exchange { from, to, len, send_to, recv_from } => forall|s: Slot, i: int|
            !(s == to.slot && to.start <= i < to.start + len) ==> #[trigger] after(s, i) == before(
                s,
                i,
            ),
        StepView::Dequant { from, to, n, scale } => after == written(
            before,
            to,
            read(before, from, n).map_values(|v: T| (a.widened)(v, scale)),
        ),
        StepView::Launch(l) => launch_means(a, l, before, after),
    }
}

/// Whether a list of memory contents is what a device goes through that carries out the steps.
pub open spec fn carried_out<T>(
    a: Arithmetic<T>, steps: Seq<StepView>, trace: Seq<Memory<T>>,
) -> bool {
    &&& trace.len() == steps.len() + 1
    &&& forall|i: int|
        0 <= i < steps.len() ==> step_means(a, #[trigger] steps[i], trace[i], trace[i + 1])
}

/// Whether a slot of a part of a program stands for memory of the whole.
pub open spec fn reaches(b: BindingView, s: Slot) -> bool {
    match s {
        Slot::Param(i) => i < b.places.len(),
        Slot::Scratch(i) => b.base + i <= u32::MAX,
    }
}

/// Memory of the whole, as a part of a program sees it.
pub open spec fn seen<T>(a: Arithmetic<T>, b: BindingView, m: Memory<T>) -> Memory<T> {
    |s: Slot, i: int| if reaches(b, s) { m(b.slot(s).slot, i) } else { a.zero }
}

/// Whether a part of a program finds each of its buffers in a buffer of its own.
pub open spec fn separates(b: BindingView) -> bool {
    &&& forall|i: int| 0 <= i < b.places.len() ==> (#[trigger] b.places[i]).start == 0
    &&& forall|i: int, j: int|
        0 <= i < j < b.places.len() ==> (#[trigger] b.places[i]).slot != (
        #[trigger] b.places[j]).slot
    &&& forall|i: int|
        0 <= i < b.places.len() ==> ((#[trigger] b.places[i]).slot matches Slot::Scratch(k)
            ==> k < b.base)
}

/// Whether the step names only memory that the part can reach.
pub open spec fn within_reach(b: BindingView, s: StepView) -> bool {
    match s {
        StepView::Alloc { scratch, elem, len, failure } => reaches(b, Slot::Scratch(scratch)),
        StepView::Zero { slot } => reaches(b, slot),
        StepView::Copy { from, to, len } => reaches(b, from.slot) && reaches(b, to.slot),
        StepView::Exchange { from, to, len, send_to, recv_from } => reaches(b, from.slot)
            && reaches(b, to.slot),
        StepView::Dequant { from, to, n, scale } => reaches(b, from.slot) && reaches(b, to.slot),
        StepView::Launch(l) => {
            &&& forall|i: int|
                0 <= i < l.args.len() ==> ((#[trigger] l.args[i]) matches Arg::Buffer(p)
                    ==> reaches(b, p.slot))
            &&& forall|i: int|
                0 <= i < l.tensor_maps.len() ==> reaches(
                    b,
                    (#[trigger] l.tensor_maps[i]).base.slot,
                )
        },
        _ => true,
    }
}

proof fn lemma_slots_differ(b: BindingView, s: Slot, t: Slot)
    requires
        separates(b),
        reaches(b, s),
        reaches(b, t),
        s != t,
    ensures
        b.slot(s).slot != b.slot(t).slot,
{
    match (s, t) {
        (Slot::Param(i), Slot::Param(j)) => {
            if i < j {
                assert(b.places[i as int].slot != b.places[j as int].slot);
            } else {
                assert(b.places[j as int].slot != b.places[i as int].slot);
            }
        },
        _ => {},
    }
}

proof fn lemma_place(b: BindingView, p: Place)
    requires
        separates(b),
        reaches(b, p.slot),
    ensures
        b.place(p) == (Place { slot: b.slot(p.slot).slot, start: p.start }),
{
}

proof fn lemma_read_seen<T>(a: Arithmetic<T>, b: BindingView, m: Memory<T>, p: Place, n: int)
    requires
        separates(b),
        reaches(b, p.slot),
    ensures
        read(m, b.place(p), n) == read(seen(a, b, m), p, n),
{
    lemma_place(b, p);
    assert(read(m, b.place(p), n) =~= read(seen(a, b, m), p, n));
}

proof fn lemma_written_seen<T>(
    a: Arithmetic<T>, b: BindingView, m: Memory<T>, p: Place, x: Seq<T>,
)
    requires
        separates(b),
        reaches(b, p.slot),
    ensures
        seen(a, b, written(m, b.place(p), x)) == written(seen(a, b, m), p, x),
{
    lemma_place(b, p);
    assert forall|s: Slot, i: int|
        #[trigger] seen(a, b, written(m, b.place(p), x))(s, i) == written(seen(a, b, m), p, x)(
            s,
            i,
        ) by {
        if reaches(b, s) && s != p.slot {
            lemma_slots_differ(b, s, p.slot);
        }
    }
    assert(seen(a, b, written(m, b.place(p), x)) =~= written(seen(a, b, m), p, x));
}

proof fn lemma_cleared_seen<T>(a: Arithmetic<T>, b: BindingView, m: Memory<T>, slot: Slot)
    requires
        separates(b),
        reaches(b, slot),
    ensures
        seen(a, b, cleared(m, b.slot(slot).slot, a.zero)) == cleared(seen(a, b, m), slot, a.zero),
{
    assert forall|s: Slot, i: int|
        #[trigger] seen(a, b, cleared(m, b.slot(slot).slot, a.zero))(s, i) == cleared(
            seen(a, b, m),
            slot,
            a.zero,
        )(s, i) by {
        if reaches(b, s) && s != slot {
            lemma_slots_differ(b, s, slot);
        }
    }
    assert(seen(a, b, cleared(m, b.slot(slot).slot, a.zero)) =~= cleared(
        seen(a, b, m),
        slot,
        a.zero,
    ));
}

proof fn lemma_products_seen<T>(
    a: Arithmetic<T>, b: BindingView, l: LaunchView, before: Memory<T>, after: Memory<T>,
)
    requires
        separates(b),
        within_reach(b, StepView::Launch(l)),
        products_mean(a, b.launch(l), before, after),
        forall|i: int|
            0 <= i < l.args.len() ==> #[trigger] b.launch(l).args[i] == b.arg(l.args[i]),
        forall|p: Place, n: int|
            reaches(b, p.slot) ==> #[trigger] read(before, b.place(p), n) == read(
                seen(a, b, before),
                p,
                n,
            ),
        forall|p: Place, x: Seq<T>|
            reaches(b, p.slot) ==> seen(a, b, #[trigger] written(before, b.place(p), x))
                == written(seen(a, b, before), p, x),
    ensures
        products_mean(a, l, seen(a, b, before), seen(a, b, after)),
{
}

proof fn lemma_moves_seen<T>(
    a: Arithmetic<T>, b: BindingView, l: LaunchView, before: Memory<T>, after: Memory<T>,
)
    requires
        separates(b),
        within_reach(b, StepView::Launch(l)),
        moves_mean(a, b.launch(l), before, after),
        forall|i: int|
            0 <= i < l.args.len() ==> #[trigger] b.launch(l).args[i] == b.arg(l.args[i]),
        forall|p: Place, n: int|
            reaches(b, p.slot) ==> #[trigger] read(before, b.place(p), n) == read(
                seen(a, b, before),
                p,
                n,
            ),
        forall|p: Place, x: Seq<T>|
            reaches(b, p.slot) ==> seen(a, b, #[trigger] written(before, b.place(p), x))
                == written(seen(a, b, before), p, x),
    ensures
        moves_mean(a, l, seen(a, b, before), seen(a, b, after)),
{
}

proof fn lemma_gradients_seen<T>(
    a: Arithmetic<T>, b: BindingView, l: LaunchView, before: Memory<T>, after: Memory<T>,
)
    requires
        separates(b),
        within_reach(b, StepView::Launch(l)),
        gradients_mean(a, b.launch(l), before, after),
        forall|i: int|
            0 <= i < l.args.len() ==> #[trigger] b.launch(l).args[i] == b.arg(l.args[i]),
        forall|p: Place, n: int|
            reaches(b, p.slot) ==> #[trigger] read(before, b.place(p), n) == read(
                seen(a, b, before),
                p,
                n,
            ),
        forall|p: Place, x: Seq<T>|
            reaches(b, p.slot) ==> seen(a, b, #[trigger] written(before, b.place(p), x))
                == written(seen(a, b, before), p, x),
    ensures
        gradients_mean(a, l, seen(a, b, before), seen(a, b, after)),
{
}


proof fn lemma_shards_seen<T>(
    a: Arithmetic<T>, b: BindingView, l: LaunchView, before: Memory<T>, after: Memory<T>,
)
    requires
        separates(b),
        within_reach(b, StepView::Launch(l)),
        shards_mean(a, b.launch(l), before, after),
        forall|i: int|
            0 <= i < l.args.len() ==> #[trigger] b.launch(l).args[i] == b.arg(l.args[i]),
        forall|p: Place, n: int|
            reaches(b, p.slot) ==> #[trigger] read(before, b.place(p), n) == read(
                seen(a, b, before),
                p,
                n,
            ),
        forall|p: Place, x: Seq<T>|
            reaches(b, p.slot) ==> seen(a, b, #[trigger] written(before, b.place(p), x))
                == written(seen(a, b, before), p, x),
    ensures
        shards_mean(a, l, seen(a, b, before), seen(a, b, after)),
{
}


proof fn lemma_parts_seen<T>(
    a: Arithmetic<T>, b: BindingView, l: LaunchView, before: Memory<T>, after: Memory<T>,
)
    requires
        separates(b),
        within_reach(b, StepView::Launch(l)),
        parts_mean(a, b.launch(l), before, after),
        forall|i: int|
            0 <= i < l.args.len() ==> #[trigger] b.launch(l).args[i] == b.arg(l.args[i]),
        forall|p: Place, n: int|
            reaches(b, p.slot) ==> #[trigger] read(before, b.place(p), n) == read(
                seen(a, b, before),
                p,
                n,
            ),
        forall|p: Place, x: Seq<T>|
            reaches(b, p.slot) ==> seen(a, b, #[trigger] written(before, b.place(p), x))
                == written(seen(a, b, before), p, x),
    ensures
        parts_mean(a, l, seen(a, b, before), seen(a, b, after)),
{
    assert forall|m: Memory<T>, p: Place, by: int, x: Seq<T>| reaches(b, p.slot) implies seen(
        a,
        b,
        #[trigger] written(m, moved(b.place(p), by), x),
    ) == written(seen(a, b, m), moved(p, by), x) by {
        lemma_place(b, p);
        lemma_place(b, moved(p, by));
        lemma_written_seen(a, b, m, moved(p, by), x);
    }
}

proof fn lemma_pages_seen<T>(
    a: Arithmetic<T>, b: BindingView, l: LaunchView, before: Memory<T>, after: Memory<T>,
)
    requires
        separates(b),
        within_reach(b, StepView::Launch(l)),
        pages_mean(a, b.launch(l), before, after),
    ensures
        pages_mean(a, l, seen(a, b, before), seen(a, b, after)),
{
    let bound = b.launch(l);
    let view = seen(a, b, before);
    let next = seen(a, b, after);
    if l.takes(3, 5, 0) {
        assert forall|i: int| 0 <= i < l.args.len() implies #[trigger] bound.args[i] == b.arg(
            l.args[i],
        ) by {}
        let g = pages_of(l);
        let (x, y, table) = (l.place(0), l.place(1), l.place(2));
        assert(reaches(b, x.slot) && reaches(b, y.slot) && reaches(b, table.slot)) by {
            assert(l.args[0] is Buffer && l.args[1] is Buffer && l.args[2] is Buffer);
        }
        lemma_place(b, x);
        lemma_place(b, y);
        lemma_place(b, table);
        assert(bound.args[0] == b.arg(l.args[0]));
        assert(bound.args[1] == b.arg(l.args[1]));
        assert(bound.args[2] == b.arg(l.args[2]));
        assert(bound.args[3] == b.arg(l.args[3]));
        assert(bound.args[4] == b.arg(l.args[4]));
        assert(bound.args[5] == b.arg(l.args[5]));
        assert(bound.args[6] == b.arg(l.args[6]));
        assert(bound.args[7] == b.arg(l.args[7]));
        assert(l.args[3] is Word && l.args[4] is Word && l.args[5] is Word && l.args[6] is Word
            && l.args[7] is Word);
        assert(pages_of(bound) == g);
        assert(bound.takes(3, 5, 0));
        let (p, q, r) = (bound.place(0), bound.place(1), bound.place(2));
        assert forall|e: int, pos: int|
            #[trigger] cached_token(a, before, r, g, e, pos) == cached_token(
                a,
                view,
                table,
                g,
                e,
                pos,
            ) by {}
        if l.entry == "paged_kv_gather_bf16"@ && l.grid.0 == l.count(7) {
            let u = gathered_cache(a, before, p, r, g);
            let v = gathered_cache(a, view, x, table, g);
            assert forall|e: int| 0 <= e < u.len() implies #[trigger] u[e] == v[e] by {
                let i = e / g.d;
                assert(cached_token(a, before, r, g, i / (g.heads * g.tokens), i % g.tokens)
                    == cached_token(a, view, table, g, i / (g.heads * g.tokens), i % g.tokens));
            }
            assert(u =~= v);
            lemma_written_seen(a, b, before, y, u);
        }
        if l.entry == "paged_kv_scatter_bf16"@ && l.grid.0 == l.count(7) {
            assert(is_scattered(a, before, after, p, q, r, g));
            assert forall|s: Slot, i: int| s != y.slot implies #[trigger] next(s, i) == view(
                s,
                i,
            ) by {
                if reaches(b, s) {
                    lemma_slots_differ(b, s, y.slot);
                    assert(after(b.slot(s).slot, i) == before(b.slot(s).slot, i));
                }
            }
            assert forall|e: int, pos: int, h: int, c: int|
                0 <= e < g.batch && 0 <= pos < g.tokens && 0 <= h < g.heads && 0 <= c < g.d
                    && is_alone(a, view, table, g, e, pos) implies next(
                y.slot,
                y.start + #[trigger] cached_at(a, view, table, g, e, pos, h, c),
            ) == view(x.slot, x.start + ((e * g.heads + h) * g.tokens + pos) * g.d + c) by {
                assert(is_alone(a, before, r, g, e, pos)) by {
                    assert forall|other: int, at: int|
                        0 <= other < g.batch && 0 <= at < g.tokens && #[trigger] cached_token(
                            a,
                            before,
                            r,
                            g,
                            other,
                            at,
                        ) == cached_token(a, before, r, g, e, pos) implies other == e && at
                        == pos by {
                        assert(cached_token(a, view, table, g, other, at) == cached_token(
                            a,
                            before,
                            r,
                            g,
                            other,
                            at,
                        ));
                    }
                }
                assert(cached_at(a, before, r, g, e, pos, h, c) == cached_at(
                    a,
                    view,
                    table,
                    g,
                    e,
                    pos,
                    h,
                    c,
                ));
            }
        }
    }
}

proof fn lemma_launch_seen<T>(
    a: Arithmetic<T>, b: BindingView, l: LaunchView, before: Memory<T>, after: Memory<T>,
)
    requires
        separates(b),
        within_reach(b, StepView::Launch(l)),
        launch_means(a, b.launch(l), before, after),
    ensures
        launch_means(a, l, seen(a, b, before), seen(a, b, after)),
{
    let bound = b.launch(l);
    assert forall|i: int| 0 <= i < l.args.len() implies #[trigger] bound.args[i] == b.arg(
        l.args[i],
    ) by {}
    assert forall|p: Place, n: int| reaches(b, p.slot) implies #[trigger] read(
        before,
        b.place(p),
        n,
    ) == read(seen(a, b, before), p, n) by {
        lemma_read_seen(a, b, before, p, n);
    }
    assert forall|p: Place, x: Seq<T>| reaches(b, p.slot) implies seen(
        a,
        b,
        #[trigger] written(before, b.place(p), x),
    ) == written(seen(a, b, before), p, x) by {
        lemma_written_seen(a, b, before, p, x);
    }
    lemma_products_seen(a, b, l, before, after);
    lemma_moves_seen(a, b, l, before, after);
    lemma_gradients_seen(a, b, l, before, after);
    lemma_parts_seen(a, b, l, before, after);
    lemma_shards_seen(a, b, l, before, after);
    lemma_pages_seen(a, b, l, before, after);
    if forall|i: int| 0 <= i < l.args.len() ==> (#[trigger] l.args[i]) !is Address {
        assert forall|i: int| 0 <= i < bound.args.len() implies (
        #[trigger] bound.args[i]) !is Address by {
            assert(l.args[i] !is Address);
        }
        assert forall|s: Slot, i: int| !is_given(l, s) implies #[trigger] seen(a, b, after)(s, i)
            == seen(a, b, before)(s, i) by {
            if reaches(b, s) {
                lemma_not_given(b, l, s);
                assert(after(b.slot(s).slot, i) == before(b.slot(s).slot, i));
            }
        }
    }
}

proof fn lemma_not_given(b: BindingView, l: LaunchView, s: Slot)
    requires
        separates(b),
        within_reach(b, StepView::Launch(l)),
        reaches(b, s),
        !is_given(l, s),
    ensures
        !is_given(b.launch(l), b.slot(s).slot),
{
    let bound = b.launch(l);
    let t = b.slot(s).slot;
    assert forall|i: int| 0 <= i < bound.args.len() implies !((
    #[trigger] bound.args[i]) matches Arg::Buffer(p) && p.slot == t) by {
        assert(bound.args[i] == b.arg(l.args[i]));
        if let Arg::Buffer(p) = l.args[i] {
            lemma_slots_differ(b, p.slot, s);
        }
    }
    assert forall|i: int| 0 <= i < bound.tensor_maps.len() implies (
    #[trigger] bound.tensor_maps[i]).base.slot != t by {
        assert(bound.tensor_maps[i] == b.map(l.tensor_maps[i]));
        lemma_slots_differ(b, l.tensor_maps[i].base.slot, s);
    }
}

/// Whether a buffer of the whole is one that a part can reach.
pub open spec fn is_reached(b: BindingView, t: Slot) -> bool {
    exists|s: Slot| #[trigger] reaches(b, s) && b.slot(s).slot == t
}

/// A step of a part leaves alone what the part does not reach.
pub proof fn unreached_stays<T>(
    a: Arithmetic<T>, b: BindingView, s: StepView, before: Memory<T>, after: Memory<T>, t: Slot,
    i: int,
)
    requires
        separates(b),
        within_reach(b, s),
        step_means(a, b.step(s), before, after),
        s matches StepView::Launch(l) ==> forall|j: int|
            0 <= j < l.args.len() ==> (#[trigger] l.args[j]) !is Address,
        !is_reached(b, t),
    ensures
        after(t, i) == before(t, i),
{
    match s {
        StepView::Launch(l) => {
            let bound = b.launch(l);
            assert forall|j: int| 0 <= j < bound.args.len() implies (
            #[trigger] bound.args[j]) !is Address && !(bound.args[j] matches Arg::Buffer(p)
                && p.slot == t) by {
                assert(bound.args[j] == b.arg(l.args[j]));
                if let Arg::Buffer(p) = l.args[j] {
                    assert(reaches(b, p.slot));
                }
            }
            assert forall|j: int| 0 <= j < bound.tensor_maps.len() implies (
            #[trigger] bound.tensor_maps[j]).base.slot != t by {
                assert(bound.tensor_maps[j] == b.map(l.tensor_maps[j]));
                assert(reaches(b, l.tensor_maps[j].base.slot));
            }
            assert(others_stay(bound, before, after));
        },
        StepView::Alloc { scratch, elem, len, failure } => {
            assert(reaches(b, Slot::Scratch(scratch)));
        },
        StepView::Zero { slot } => {
            assert(reaches(b, slot));
        },
        StepView::Copy { from, to, len } => {
            assert(reaches(b, to.slot));
        },
        StepView::Dequant { from, to, n, scale } => {
            assert(reaches(b, to.slot));
        },
        StepView::Exchange { from, to, len, send_to, recv_from } => {
            assert(reaches(b, to.slot));
        },
        _ => {},
    }
}

/// What a step of a part does to the memory of the whole, it does to the memory that the part
/// sees.
pub proof fn step_is_seen<T>(
    a: Arithmetic<T>, b: BindingView, s: StepView, before: Memory<T>, after: Memory<T>,
)
    requires
        separates(b),
        within_reach(b, s),
        step_means(a, b.step(s), before, after),
    ensures
        step_means(a, s, seen(a, b, before), seen(a, b, after)),
{
    match s {
        StepView::Load { .. } => {},
        StepView::Alloc { scratch, elem, len, failure } => {
            lemma_cleared_seen(a, b, before, Slot::Scratch(scratch));
        },
        StepView::Encode { .. } => {},
        StepView::Zero { slot } => {
            lemma_cleared_seen(a, b, before, slot);
        },
        StepView::Copy { from, to, len } => {
            lemma_read_seen(a, b, before, from, len);
            lemma_written_seen(a, b, before, to, read(before, b.place(from), len));
        },
        StepView::Exchange { from, to, len, send_to, recv_from } => {
            lemma_place(b, to);
            assert forall|s: Slot, i: int|
                !(s == to.slot && to.start <= i < to.start + len) implies #[trigger] seen(
                a,
                b,
                after,
            )(s, i) == seen(a, b, before)(s, i) by {
                if reaches(b, s) && s != to.slot {
                    lemma_slots_differ(b, s, to.slot);
                }
                if reaches(b, s) {
                    assert(after(b.slot(s).slot, i) == before(b.slot(s).slot, i));
                }
            }
        },
        StepView::Dequant { from, to, n, scale } => {
            lemma_read_seen(a, b, before, from, n);
            let x = read(before, b.place(from), n).map_values(|v: T| (a.widened)(v, scale));
            lemma_written_seen(a, b, before, to, x);
        },
        StepView::Launch(l) => {
            lemma_launch_seen(a, b, l, before, after);
        },
    }
}

/// A stretch of what is carried out is carried out.
pub proof fn stretch_is_carried_out<T>(
    a: Arithmetic<T>, steps: Seq<StepView>, trace: Seq<Memory<T>>, i: int, j: int,
)
    requires
        carried_out(a, steps, trace),
        0 <= i <= j <= steps.len(),
    ensures
        carried_out(a, steps.subrange(i, j), trace.subrange(i, j + 1)),
{
    let part = steps.subrange(i, j);
    let times = trace.subrange(i, j + 1);
    assert forall|k: int| 0 <= k < part.len() implies step_means(
        a,
        #[trigger] part[k],
        times[k],
        times[k + 1],
    ) by {
        assert(part[k] == steps[i + k]);
        assert(step_means(a, steps[i + k], trace[i + k], trace[i + k + 1]));
    }
}

/// What a part of a program sees while it is carried out within the whole.
pub open spec fn seen_all<T>(
    a: Arithmetic<T>, b: BindingView, trace: Seq<Memory<T>>,
) -> Seq<Memory<T>> {
    trace.map_values(|m: Memory<T>| seen(a, b, m))
}

proof fn lemma_known_is_within_reach(
    b: BindingView, q: ProgramView, buffers: int, scratch: int, k: int,
)
    requires
        q.closed(buffers),
        q.numbered_below(scratch),
        b.places.len() == buffers,
        b.base + scratch <= u32::MAX,
        0 <= k < q.steps.len(),
    ensures
        within_reach(b, q.steps[k]),
{
    let before = q.steps.take(k);
    assert forall|s: Slot| memory::slot_known(s, buffers, before) implies reaches(b, s) by {
        if let Slot::Scratch(i) = s {
            let j = choose|j: int| 0 <= j < before.len() && #[trigger] before[j].grants(i);
            assert(before[j] == q.steps[j]);
            assert(q.steps[j].numbers_below(scratch));
        }
    }
    assert(q.steps[k].known(buffers, before));
    assert(q.steps[k].numbers_below(scratch));
    if let StepView::Launch(l) = q.steps[k] {
        assert forall|i: int| 0 <= i < l.args.len() implies ((
        #[trigger] l.args[i]) matches Arg::Buffer(p) ==> reaches(b, p.slot)) by {}
        assert forall|i: int| 0 <= i < l.tensor_maps.len() implies reaches(
            b,
            (#[trigger] l.tensor_maps[i]).base.slot,
        ) by {}
    }
}

/// A part that is carried out within the whole is carried out on the memory that it sees.
pub proof fn part_is_carried_out<T>(
    a: Arithmetic<T>, p: ProgramView, q: ProgramView, b: BindingView, buffers: int, scratch: int,
    trace: Seq<Memory<T>>,
)
    requires
        p.end is Done,
        q.closed(buffers),
        q.numbered_below(scratch),
        b.places.len() == buffers,
        b.base + scratch <= u32::MAX,
        separates(b),
        carried_out(a, p.then_run(q, b).steps, trace),
    ensures
        carried_out(
            a,
            q.steps,
            seen_all(a, b, trace.subrange(p.steps.len() as int, trace.len() as int)),
        ),
        trace.len() == p.steps.len() + q.steps.len() + 1,
        names_no_address(q.steps) ==> forall|t: Slot, i: int|
            !is_reached(b, t) ==> #[trigger] trace.last()(t, i) == trace[p.steps.len() as int](
                t,
                i,
            ),
{
    let all = p.then_run(q, b).steps;
    let n = p.steps.len() as int;
    let times = trace.subrange(n, trace.len() as int);
    assert forall|k: int| 0 <= k < q.steps.len() implies step_means(
        a,
        #[trigger] q.steps[k],
        seen_all(a, b, times)[k],
        seen_all(a, b, times)[k + 1],
    ) by {
        assert(all[n + k] == b.step(q.steps[k]));
        assert(step_means(a, all[n + k], trace[n + k], trace[n + k + 1]));
        lemma_known_is_within_reach(b, q, buffers, scratch, k);
        step_is_seen(a, b, q.steps[k], trace[n + k], trace[n + k + 1]);
    }
    if names_no_address(q.steps) {
        assert forall|t: Slot, i: int| !is_reached(b, t) implies #[trigger] trace.last()(t, i)
            == trace[n](t, i) by {
            lemma_unreached_stays(a, p, q, b, buffers, scratch, trace, q.steps.len() as int, t, i);
        }
    }
}

/// Whether no launch among the steps is given a bare address.
pub open spec fn names_no_address(steps: Seq<StepView>) -> bool {
    forall|k: int, j: int|
        #![trigger steps[k]->Launch_0.args[j]]
        0 <= k < steps.len() && steps[k] is Launch && 0 <= j < steps[k]->Launch_0.args.len()
            ==> steps[k]->Launch_0.args[j] !is Address
}

proof fn lemma_unreached_stays<T>(
    a: Arithmetic<T>, p: ProgramView, q: ProgramView, b: BindingView, buffers: int, scratch: int,
    trace: Seq<Memory<T>>, k: int, t: Slot, i: int,
)
    requires
        p.end is Done,
        q.closed(buffers),
        q.numbered_below(scratch),
        b.places.len() == buffers,
        b.base + scratch <= u32::MAX,
        separates(b),
        carried_out(a, p.then_run(q, b).steps, trace),
        names_no_address(q.steps),
        0 <= k <= q.steps.len(),
        !is_reached(b, t),
    ensures
        trace[p.steps.len() + k](t, i) == trace[p.steps.len() as int](t, i),
    decreases k,
{
    let n = p.steps.len() as int;
    if k > 0 {
        lemma_unreached_stays(a, p, q, b, buffers, scratch, trace, k - 1, t, i);
        let all = p.then_run(q, b).steps;
        assert(all[n + k - 1] == b.step(q.steps[k - 1]));
        assert(step_means(a, all[n + k - 1], trace[n + k - 1], trace[n + k - 1 + 1]));
        lemma_known_is_within_reach(b, q, buffers, scratch, k - 1);
        if let StepView::Launch(l) = q.steps[k - 1] {
            assert forall|j: int| 0 <= j < l.args.len() implies (
            #[trigger] l.args[j]) !is Address by {
                assert(q.steps[k - 1]->Launch_0.args[j] !is Address);
            }
        }
        unreached_stays(a, b, q.steps[k - 1], trace[n + k - 1], trace[n + k], t, i);
    }
}

} // verus!
