//! Host tensors of an attention call that attends to selected positions.
//!
//! Queries and outputs are laid out as `[batch, seq_q, num_heads, 128]`, keys and values as
//! `[batch, seq_kv, num_kv_heads, 128]`, and the selected positions as `[batch, seq_q, topk]`.
use crate::attention::dims::HEAD_DIM;
use crate::plan::F32;
use crate::shape;
use vstd::prelude::*;

verus! {

/// The dimensions of a call.
#[derive(Debug, Clone, Copy, PartialEq, Eq, Structural)]
pub struct SparseShape {
    pub batch: u32,
    pub seq_q: u32,
    pub seq_kv_full: u32,
    pub num_heads: u32,
    pub num_kv_heads: u32,
    pub topk: u32,
    pub scale: F32,
}

impl SparseShape {
    /// Whether the call can be made: no dimension is zero, and every key head serves equally
    /// many query heads.
    pub open spec fn valid(self) -> bool {
        &&& self.batch > 0
        &&& self.seq_q > 0
        &&& self.seq_kv_full > 0
        &&& self.num_heads > 0
        &&& self.num_kv_heads > 0
        &&& self.topk > 0
        &&& self.num_heads % self.num_kv_heads == 0
    }

    /// The number of queries.
    pub open spec fn queries(self) -> int {
        self.batch * self.seq_q
    }

    /// The elements of one query, and of its output.
    pub open spec fn row(self) -> int {
        self.num_heads * HEAD_DIM
    }

    /// The elements of the keys or values that one query attends to.
    pub open spec fn tile(self) -> int {
        self.num_heads * self.topk * HEAD_DIM
    }

    /// Whether the sizes of the tiles and of the output fit in 32 bits.
    pub open spec fn fits(self) -> bool {
        self.tile() <= u32::MAX && self.queries() * self.num_heads * HEAD_DIM <= u32::MAX
    }

    /// The query heads that share one key head.
    pub open spec fn group(self) -> int {
        self.num_heads as int / self.num_kv_heads as int
    }

    /// Query number `p` of the queries `q`.
    pub open spec fn query(self, q: Seq<u16>, p: int) -> Seq<u16> {
        q.subrange(p * self.row(), (p + 1) * self.row())
    }

    /// Where element `x` of the tile of query `p` is found: the tile is laid out as
    /// `[num_heads, topk, 128]`, and each key head is repeated for the query heads that share
    /// it.
    pub open spec fn source(self, indices: Seq<i32>, p: int, x: int) -> int {
        let at = x % (HEAD_DIM as int);
        let chosen = (x / (HEAD_DIM as int)) % (self.topk as int);
        let head = x / (HEAD_DIM as int) / (self.topk as int);
        let batch = p / (self.seq_q as int);
        let position = indices[p * self.topk + chosen];
        ((batch * self.seq_kv_full + position) * self.num_kv_heads + head / self.group()) * HEAD_DIM
            + at
    }

    /// Whether every position that query `p` attends to lies in a tensor of `len` elements.
    pub open spec fn covers_query(self, indices: Seq<i32>, len: int, p: int) -> bool {
        forall|x: int| 0 <= x < self.tile() ==> #[trigger] self.reads(indices, len, p, x)
    }

    /// Whether element `x` of the tile of query `p` lies in a tensor of `len` elements.
    pub open spec fn reads(self, indices: Seq<i32>, len: int, p: int, x: int) -> bool {
        let chosen = (x / (HEAD_DIM as int)) % (self.topk as int);
        indices[p * self.topk + chosen] >= 0 && self.source(indices, p, x) < len
    }

    /// Whether every selected position lies in a tensor of `len` elements.
    pub open spec fn covers(self, indices: Seq<i32>, len: int) -> bool {
        forall|p: int|
            0 <= p < self.queries() ==> #[trigger] self.covers_query(indices, len, p)
    }

    /// The keys or values that query `p` attends to.
    pub open spec fn gathered(self, kv: Seq<u16>, indices: Seq<i32>, p: int) -> Seq<u16> {
        Seq::new(self.tile() as nat, |x: int| kv[self.source(indices, p, x)])
    }

    /// The outputs `out` with `o` as the output of query `p`.
    pub open spec fn placed(self, out: Seq<u16>, p: int, o: Seq<u16>) -> Seq<u16> {
        let start = p * self.row();
        Seq::new(
            out.len(),
            |i: int| if start <= i < start + self.row() { o[i - start] } else { out[i] },
        )
    }
}

/// Sizes of one query do not exceed those of all queries.
pub proof fn lemma_row_bounds(s: SparseShape, p: int)
    requires
        0 <= p < s.queries(),
    ensures
        0 <= p * s.row(),
        p * s.row() + s.row() == (p + 1) * s.row(),
        (p + 1) * s.row() <= s.queries() * s.row(),
        s.queries() * s.row() == s.queries() * s.num_heads * HEAD_DIM,
{
    let row = s.row();
    assert(row >= 0) by (nonlinear_arith)
        requires
            row == s.num_heads * HEAD_DIM,
    ;
    let n = s.queries();
    assert(0 <= p * row && p * row + row == (p + 1) * row && (p + 1) * row <= n * row)
        by (nonlinear_arith)
        requires
            row >= 0,
            0 <= p < n,
    ;
    assert(n * (s.num_heads * HEAD_DIM) == n * s.num_heads * HEAD_DIM) by (nonlinear_arith);
}

fn product_fits(a: u32, b: u32, c: u32) -> (r: bool)
    ensures
        r == (a * b * c * HEAD_DIM <= u32::MAX),
{
    let abc: u128 = shape::triple_product(a, b, c);
    abc <= u32::MAX as u128 && abc * HEAD_DIM as u128 <= u32::MAX as u128
}

impl SparseShape {
    /// Whether the call can be made: no dimension is zero, and every key head serves equally
    /// many query heads.
    pub fn is_valid(&self) -> (r: bool)
        ensures
            r == self.valid(),
    {
        self.batch > 0 && self.seq_q > 0 && self.seq_kv_full > 0 && self.num_heads > 0
            && self.num_kv_heads > 0 && self.topk > 0 && self.num_heads % self.num_kv_heads == 0
    }

    /// Whether the sizes of the tiles and of the output fit in 32 bits.
    pub fn sizes_fit(&self) -> (r: bool)
        ensures
            r == self.fits(),
    {
        proof {
            assert(1 * self.num_heads * self.topk * HEAD_DIM == self.tile());
        }
        product_fits(1, self.num_heads, self.topk) && product_fits(
            self.batch,
            self.seq_q,
            self.num_heads,
        )
    }
}

fn is_read(s: SparseShape, indices: &Vec<i32>, len: usize, p: u32, x: u32) -> (r: bool)
    requires
        s.valid(),
        p < s.queries(),
        indices@.len() >= s.queries() * s.topk,
    ensures
        r == s.reads(indices@, len as int, p as int, x as int),
{
    let group: u32 = s.num_heads / s.num_kv_heads;
    let at: u32 = x % HEAD_DIM;
    let chosen: u32 = (x / HEAD_DIM) % s.topk;
    let head: u32 = x / HEAD_DIM / s.topk;
    let first: u64 = shape::product(p, s.topk);
    let total: usize = indices.len();
    proof {
        assert(first + chosen < s.queries() * s.topk) by (nonlinear_arith)
            requires
                first == p * s.topk,
                p < s.queries(),
                0 <= chosen < s.topk,
        ;
        assert(group > 0) by (nonlinear_arith)
            requires
                s.num_heads > 0,
                s.num_kv_heads > 0,
                s.num_heads % s.num_kv_heads == 0,
                group == s.num_heads / s.num_kv_heads,
        ;
        assert(first + chosen < total);
    }
    let position: i32 = indices[(first + chosen as u64) as usize];
    if position < 0 {
        return false;
    }
    let batch: u32 = p / s.seq_q;
    let line: u128 = shape::product(batch, s.seq_kv_full) as u128 + position as u128;
    let key_head: u32 = head / group;
    proof {
        assert((line * s.num_kv_heads + key_head) * HEAD_DIM + at <= u128::MAX) by (nonlinear_arith)
            requires
                line <= u64::MAX + u32::MAX,
                s.num_kv_heads <= u32::MAX,
                key_head <= u32::MAX,
                HEAD_DIM == 128,
                at < 128,
        ;
        assert(0 <= line * s.num_kv_heads) by (nonlinear_arith);
    }
    (line * s.num_kv_heads as u128 + key_head as u128) * HEAD_DIM as u128 + (at as u128)
        < len as u128
}

fn is_query_covered(s: SparseShape, indices: &Vec<i32>, len: usize, p: u32) -> (r: bool)
    requires
        s.valid(),
        s.fits(),
        p < s.queries(),
        indices@.len() >= s.queries() * s.topk,
    ensures
        r == s.covers_query(indices@, len as int, p as int),
{
    let total: u32 = {
        assert(s.num_heads * s.topk <= s.num_heads * s.topk * HEAD_DIM);
        s.num_heads * s.topk * HEAD_DIM
    };
    let mut x: u32 = 0;
    while x < total
        invariant
            x <= total,
            total == s.tile(),
            s.valid(),
            p < s.queries(),
            indices@.len() >= s.queries() * s.topk,
            forall|y: int|
                0 <= y < x ==> #[trigger] s.reads(indices@, len as int, p as int, y),
        decreases total - x,
    {
        if !is_read(s, indices, len, p, x) {
            return false;
        }
        x = x + 1;
    }
    true
}

/// Whether every selected position lies in a tensor of `len` elements.
pub fn is_covered(s: SparseShape, indices: &Vec<i32>, len: usize) -> (r: bool)
    requires
        s.valid(),
        s.fits(),
        indices@.len() >= s.queries() * s.topk,
    ensures
        r == s.covers(indices@, len as int),
{
    let queries: u64 = shape::product(s.batch, s.seq_q);
    let n: u32 = {
        assert(s.queries() <= u32::MAX) by (nonlinear_arith)
            requires
                s.queries() * s.num_heads * HEAD_DIM <= u32::MAX,
                s.num_heads > 0,
                HEAD_DIM == 128,
                s.queries() >= 0,
        ;
        queries as u32
    };
    let mut p: u32 = 0;
    while p < n
        invariant
            p <= n,
            n == s.queries(),
            s.valid(),
            s.fits(),
            indices@.len() >= s.queries() * s.topk,
            forall|q: int|
                0 <= q < p ==> #[trigger] s.covers_query(indices@, len as int, q),
        decreases n - p,
    {
        if !is_query_covered(s, indices, len, p) {
            return false;
        }
        p = p + 1;
    }
    true
}

/// Copies query number `p` out of the queries.
pub fn query(s: SparseShape, q: &Vec<u16>, p: u32) -> (r: Vec<u16>)
    requires
        s.fits(),
        p < s.queries(),
        q@.len() >= s.queries() * s.row(),
    ensures
        r@ == s.query(q@, p as int),
{
    proof {
        lemma_row_bounds(s, p as int);
    }
    let row: u32 = s.num_heads * HEAD_DIM;
    let start: u32 = p * row;
    let mut out: Vec<u16> = Vec::new();
    let mut i: u32 = 0;
    while i < row
        invariant
            i <= row,
            row == s.row(),
            start == p * s.row(),
            start + row <= q@.len(),
            start + row <= u32::MAX,
            out@ == q@.subrange(start as int, start + i),
        decreases row - i,
    {
        out.push(q[(start + i) as usize]);
        i = i + 1;
        assert(out@ =~= q@.subrange(start as int, start + i));
    }
    out
}

/// Gathers the keys or values that query `p` attends to.
pub fn gather(s: SparseShape, kv: &Vec<u16>, indices: &Vec<i32>, p: u32) -> (r: Vec<u16>)
    requires
        s.valid(),
        s.fits(),
        p < s.queries(),
        indices@.len() >= s.queries() * s.topk,
        s.covers_query(indices@, kv@.len() as int, p as int),
    ensures
        r@ == s.gathered(kv@, indices@, p as int),
{
    let total: u32 = {
        assert(s.num_heads * s.topk <= s.num_heads * s.topk * HEAD_DIM);
        s.num_heads * s.topk * HEAD_DIM
    };
    let len: usize = kv.len();
    let group: u32 = s.num_heads / s.num_kv_heads;
    let batch: u32 = p / s.seq_q;
    let first: u64 = shape::product(p, s.topk);
    let chosen_len: usize = indices.len();
    proof {
        assert(group > 0) by (nonlinear_arith)
            requires
                s.num_heads > 0,
                s.num_kv_heads > 0,
                s.num_heads % s.num_kv_heads == 0,
                group == s.num_heads / s.num_kv_heads,
        ;
    }
    let mut out: Vec<u16> = Vec::new();
    let mut x: u32 = 0;
    while x < total
        invariant
            x <= total,
            total == s.tile(),
            s.valid(),
            p < s.queries(),
            len == kv@.len(),
            group == s.group(),
            group > 0,
            batch == p as int / s.seq_q as int,
            first == p * s.topk,
            chosen_len == indices@.len(),
            chosen_len >= s.queries() * s.topk,
            s.covers_query(indices@, len as int, p as int),
            out@ == Seq::new(x as nat, |y: int| kv@[s.source(indices@, p as int, y)]),
        decreases total - x,
    {
        let at: u32 = x % HEAD_DIM;
        let chosen: u32 = (x / HEAD_DIM) % s.topk;
        let head: u32 = x / HEAD_DIM / s.topk;
        proof {
            assert(s.reads(indices@, len as int, p as int, x as int));
            assert(first + chosen < s.queries() * s.topk) by (nonlinear_arith)
                requires
                    first == p * s.topk,
                    p < s.queries(),
                    0 <= chosen < s.topk,
            ;
        }
        let position: u32 = indices[(first + chosen as u64) as usize] as u32;
        let key_head: u32 = head / group;
        let ghost line = batch * s.seq_kv_full + position;
        proof {
            assert(0 <= batch * s.seq_kv_full <= line);
            assert(line <= line * s.num_kv_heads) by (nonlinear_arith)
                requires
                    line >= 0,
                    s.num_kv_heads > 0,
            ;
        }
        let line: u64 = shape::product(batch, s.seq_kv_full) + position as u64;
        let from: u64 = (line * s.num_kv_heads as u64 + key_head as u64) * HEAD_DIM as u64
            + at as u64;
        assert(from == s.source(indices@, p as int, x as int));
        out.push(kv[from as usize]);
        x = x + 1;
        assert(out@ =~= Seq::new(x as nat, |y: int| kv@[s.source(indices@, p as int, y)]));
    }
    assert(out@ =~= s.gathered(kv@, indices@, p as int));
    out
}

/// Writes the output of query `p` into the outputs.
pub fn place(s: SparseShape, out: &mut Vec<u16>, o: &Vec<u16>, p: u32)
    requires
        s.fits(),
        p < s.queries(),
        old(out)@.len() == s.queries() * s.row(),
        o@.len() >= s.row(),
    ensures
        final(out)@ == s.placed(old(out)@, p as int, o@),
{
    proof {
        lemma_row_bounds(s, p as int);
    }
    let row: u32 = s.num_heads * HEAD_DIM;
    let start: u32 = p * row;
    let ghost before = out@;
    let mut i: u32 = 0;
    while i < row
        invariant
            i <= row,
            row == s.row(),
            start == p * s.row(),
            start + row <= out@.len(),
            start + row <= u32::MAX,
            o@.len() >= row,
            out@.len() == before.len(),
            forall|j: int|
                0 <= j < out@.len() ==> #[trigger] out@[j] == if start <= j < start + i {
                    o@[j - start]
                } else {
                    before[j]
                },
        decreases row - i,
    {
        out.set((start + i) as usize, o[i as usize]);
        i = i + 1;
    }
    assert(out@ =~= s.placed(before, p as int, o@));
}

/// Outputs of nothing but zeros.
pub fn blank(s: SparseShape) -> (r: Vec<u16>)
    requires
        s.fits(),
        s.valid(),
    ensures
        r@ == Seq::new((s.queries() * s.row()) as nat, |i: int| 0u16),
{
    proof {
        assert(s.queries() > 0) by (nonlinear_arith)
            requires
                s.queries() == s.batch * s.seq_q,
                s.batch > 0,
                s.seq_q > 0,
        ;
        lemma_row_bounds(s, 0);
        assert(s.queries() <= s.queries() * s.num_heads) by (nonlinear_arith)
            requires
                s.queries() > 0,
                s.num_heads > 0,
        ;
    }
    let n: u32 = s.batch * s.seq_q * s.num_heads * HEAD_DIM;
    let r = vec![0u16; n as usize];
    assert(r@ =~= Seq::new((s.queries() * s.row()) as nat, |i: int| 0u16));
    r
}

/// A tile holds, for each query head and each selected position, the row of the key head that
/// the query head shares.
pub proof fn gathered_repeats_key_heads(
    s: SparseShape,
    kv: Seq<u16>,
    indices: Seq<i32>,
    p: int,
    head: int,
    chosen: int,
    at: int,
)
    requires
        s.valid(),
        0 <= head < s.num_heads,
        0 <= chosen < s.topk,
        0 <= at < HEAD_DIM,
    ensures
        s.gathered(kv, indices, p)[(head * s.topk + chosen) * HEAD_DIM + at] == kv[((p
            / s.seq_q as int * s.seq_kv_full + indices[p * s.topk + chosen]) * s.num_kv_heads + head
            / s.group()) * HEAD_DIM + at],
{
    let d = HEAD_DIM as int;
    let line = head * s.topk + chosen;
    let x = line * d + at;
    vstd::arithmetic::div_mod::lemma_fundamental_div_mod_converse(x, d, line, at);
    vstd::arithmetic::div_mod::lemma_fundamental_div_mod_converse(
        line,
        s.topk as int,
        head,
        chosen,
    );
    assert(0 <= line < s.num_heads * s.topk) by (nonlinear_arith)
        requires
            line == head * s.topk + chosen,
            0 <= head < s.num_heads,
            0 <= chosen < s.topk,
    ;
}

/// What was placed as the output of a query is read back as that, and the outputs of the other
/// queries stay as they were.
pub proof fn placed_is_read_back(s: SparseShape, out: Seq<u16>, p: int, o: Seq<u16>, q: int)
    requires
        out.len() == s.queries() * s.row(),
        o.len() == s.row(),
        0 <= p < s.queries(),
        0 <= q < s.queries(),
    ensures
        s.placed(out, p, o).len() == out.len(),
        s.query(s.placed(out, p, o), q) == if p == q {
            o
        } else {
            s.query(out, q)
        },
{
    lemma_row_bounds(s, p);
    lemma_row_bounds(s, q);
    let row = s.row();
    let start = p * row;
    let from = q * row;
    let after = s.placed(out, p, o);
    if p < q {
        assert(start + row <= from) by (nonlinear_arith)
            requires
                p + 1 <= q,
                row >= 0,
                start == p * row,
                from == q * row,
        ;
    } else if q < p {
        assert(from + row <= start) by (nonlinear_arith)
            requires
                q + 1 <= p,
                row >= 0,
                start == p * row,
                from == q * row,
        ;
    }
    if p == q {
        assert(s.query(after, q) =~= o);
    } else {
        assert(s.query(after, q) =~= s.query(out, q));
    }
}

} // verus!
