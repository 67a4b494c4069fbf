//! DeepSeek Sparse Attention (DSA).
//!
//! Two stages: the indexer scores key positions, then attention runs over the best of them only.
//! The second stage gathers the selected positions on the host, one query at a time.
use crate::attention::dense;
use crate::attention::dims::HEAD_DIM;
use crate::attention::ranking;
use crate::attention::tiles;
use crate::attention::tiles::SparseShape;
use crate::dialogue::{Action, ActionView, Event, EventView};
use crate::error::{Fault, Result};
use crate::plan;
use crate::plan::{Arg, F32, Launch, Place, Plan, Slot};
use crate::program::{Binding, BindingView, Elem, End, Step, StepView};
use crate::shape;
use crate::text;
use crate::text::Text;
use vstd::prelude::*;

verus! {

/// Heads of the indexer.
pub const H_IDX: u32 = 32;

/// Head dimension of the indexer.
pub const D_IDX: u32 = 128;

/// Key positions that one block scores.
pub const TILE_T: u32 = 128;

/// The answer of [`dsa_indexer_score_bf16`].
pub open spec fn dsa_indexer_score_bf16_plan(
    q_len: int, k_len: int, weights_len: int, out_len: int, batch: int, seq_q: int, seq_kv: int,
) -> Plan {
    let q_need = batch * seq_q * H_IDX * D_IDX;
    let k_need = batch * seq_kv * D_IDX;
    let w_need = batch * seq_q * H_IDX;
    let o_need = batch * seq_q * seq_kv;
    let grid_x = batch * seq_q;
    let grid_y = shape::ceil_div(seq_kv, TILE_T as int);
    if batch == 0 || seq_q == 0 || seq_kv == 0 {
        Plan::invalid("batch / seq_q / seq_kv must be > 0"@)
    } else if q_need > u32::MAX
        || k_need > u32::MAX
        || w_need > u32::MAX
        || grid_x > u32::MAX
        || o_need > u32::MAX
    {
        Plan::Undefined
    } else if q_len < q_need {
        Plan::invalid("q too small: "@ + text::decimal(q_len) + " < "@ + text::decimal(q_need))
    } else if k_len < k_need {
        Plan::invalid("k too small: "@ + text::decimal(k_len) + " < "@ + text::decimal(k_need))
    } else if weights_len < w_need {
        Plan::invalid(
            "weights too small: "@ + text::decimal(weights_len) + " < "@ + text::decimal(w_need),
        )
    } else if out_len < o_need {
        Plan::invalid("out too small: "@ + text::decimal(out_len) + " < "@ + text::decimal(o_need))
    } else {
        Plan::launch(
            "dsa_indexer_bf16"@,
            "dsa_indexer_score_bf16"@,
            (grid_x, grid_y, 1),
            (TILE_T as int, 1, 1),
            8320,
            seq![
                Arg::buffer(0), Arg::buffer(1), Arg::buffer(2), Arg::buffer(3), Arg::word(seq_q),
                Arg::word(seq_kv),
            ],
        )
    }
}

/// Compute the DSA indexer's per-(b, s, t) raw index scores from queries `[B, S, H_idx, D_idx]`,
/// the indexer's own keys `[B, T, D_idx]` and weights `[B, S, H_idx]`.
pub fn dsa_indexer_score_bf16(
    q_len: usize,
    k_len: usize,
    weights_len: usize,
    out_len: usize,
    batch: u32,
    seq_q: u32,
    seq_kv: u32,
) -> (r: Result<Launch>)
    requires
        dsa_indexer_score_bf16_plan(
            q_len as int, k_len as int, weights_len as int, out_len as int, batch as int,
            seq_q as int, seq_kv as int,
        ) !is Undefined,
    ensures
        plan::outcome(r) == dsa_indexer_score_bf16_plan(
            q_len as int, k_len as int, weights_len as int, out_len as int, batch as int,
            seq_q as int, seq_kv as int,
        ),
        plan::launchable(r, 4),
{
    if batch == 0 || seq_q == 0 || seq_kv == 0 {
        return Text::new("batch / seq_q / seq_kv must be > 0").refuse();
    }
    let q_need: u64 = (batch * seq_q * H_IDX * D_IDX) as u64;
    let k_need: u64 = (batch * seq_kv * D_IDX) as u64;
    let w_need: u64 = (batch * seq_q * H_IDX) as u64;
    let o_need: u64 = (batch * seq_q * seq_kv) as u64;
    if (q_len as u64) < q_need {
        return Text::new("q too small: ").n(q_len as u64).s(" < ").n(q_need).refuse();
    }
    if (k_len as u64) < k_need {
        return Text::new("k too small: ").n(k_len as u64).s(" < ").n(k_need).refuse();
    }
    if (weights_len as u64) < w_need {
        return Text::new("weights too small: ").n(weights_len as u64).s(" < ").n(w_need).refuse();
    }
    if (out_len as u64) < o_need {
        return Text::new("out too small: ").n(out_len as u64).s(" < ").n(o_need).refuse();
    }
    let grid_x: u32 = batch * seq_q;
    assert(grid_x > 0) by (nonlinear_arith)
        requires
            grid_x == batch * seq_q,
            batch > 0,
            seq_q > 0,
    ;
    proof {
        shape::lemma_ceil_div(seq_kv as int, TILE_T as int);
    }
    let grid_y: u32 = shape::div_ceil(seq_kv, TILE_T);
    Ok(
        Launch::new(
            "dsa_indexer_bf16",
            "dsa_indexer_score_bf16",
            (grid_x, grid_y, 1),
            (TILE_T, 1, 1),
            8320,
            vec![
                Arg::param(0), Arg::param(1), Arg::param(2), Arg::param(3), Arg::Word(seq_q),
                Arg::Word(seq_kv),
            ],
        ),
    )
}


/// Whether the sizes of the indexer's tensors fit in 32 bits, or a dimension is zero.
pub open spec fn indexer_fits(batch: int, seq_q: int, seq_kv: int) -> bool {
    ||| batch == 0 || seq_q == 0 || seq_kv == 0
    ||| {
        &&& batch * seq_q * H_IDX * D_IDX <= u32::MAX
        &&& batch * seq_kv * D_IDX <= u32::MAX
        &&& batch * seq_q * seq_kv <= u32::MAX
    }
}

/// Whether the sizes of the indexer's tensors fit in 32 bits, or a dimension is zero.
pub fn indexer_sizes_fit(batch: u32, seq_q: u32, seq_kv: u32) -> (r: bool)
    ensures
        r == indexer_fits(batch as int, seq_q as int, seq_kv as int),
        r == (dsa_indexer_score_bf16_plan(
            0, 0, 0, 0, batch as int, seq_q as int, seq_kv as int,
        ) !is Undefined),
{
    if batch == 0 || seq_q == 0 || seq_kv == 0 {
        return true;
    }
    let q: u128 = shape::triple_product(batch, seq_q, H_IDX * D_IDX);
    let k: u128 = shape::triple_product(batch, seq_kv, D_IDX);
    let o: u128 = shape::triple_product(batch, seq_q, seq_kv);
    proof {
        let n = batch * seq_q;
        assert(n * (H_IDX * D_IDX) == n * H_IDX * D_IDX) by (nonlinear_arith);
        assert(n >= 0) by (nonlinear_arith)
            requires
                n == batch * seq_q,
        ;
    }
    q <= u32::MAX as u128 && k <= u32::MAX as u128 && o <= u32::MAX as u128
}

/// The device buffers of a sparse attention call.
#[derive(Debug, Clone, Copy, PartialEq, Eq, Structural)]
pub struct SparseSlots {
    pub q: Slot,
    pub k: Slot,
    pub v: Slot,
    pub indices: Slot,
    pub out: Slot,
}

/// What a sparse attention call waits for.
#[derive(Debug, Clone, Copy, PartialEq, Eq, Structural)]
pub enum SparseStage {
    /// The selected positions.
    Indices,
    /// Memory for the gathered keys.
    AllocK,
    /// Memory for the gathered values.
    AllocV,
    /// Memory for one query.
    AllocQ,
    /// Memory for one output.
    AllocO,
    /// The queries.
    Query,
    /// The keys.
    Key,
    /// The values.
    Value,
    /// The copy of one query.
    SendQ,
    /// The copy of its keys.
    SendK,
    /// The copy of its values.
    SendV,
    /// Its attention.
    Attend,
    /// Its output.
    Output,
    /// The copy of all outputs.
    SendOut,
    /// Nothing: the call has ended.
    Ended,
}

/// A sparse attention call under way.
pub struct SparseRun {
    pub slots: SparseSlots,
    pub shape: SparseShape,
    pub stage: SparseStage,
    pub indices: Vec<i32>,
    pub q: Vec<u16>,
    pub k: Vec<u16>,
    pub v: Vec<u16>,
    pub out: Vec<u16>,
    /// The query that is being served.
    pub p: u32,
}

/// A [`SparseRun`] by its contents.
#[verifier::ext_equal]
pub struct SparseView {
    pub slots: SparseSlots,
    pub shape: SparseShape,
    pub stage: SparseStage,
    pub indices: Seq<i32>,
    pub q: Seq<u16>,
    pub k: Seq<u16>,
    pub v: Seq<u16>,
    pub out: Seq<u16>,
    pub p: int,
}

impl View for SparseRun {
    type V = SparseView;

    open spec fn view(&self) -> SparseView {
        SparseView {
            slots: self.slots,
            shape: self.shape,
            stage: self.stage,
            indices: self.indices@,
            q: self.q@,
            k: self.k@,
            v: self.v@,
            out: self.out@,
            p: self.p as int,
        }
    }
}

/// Zeroed BF16 scratch memory.
pub open spec fn scratch(number: u32, len: int, failure: Seq<char>) -> ActionView {
    ActionView::Run(
        StepView::Alloc { scratch: number, elem: Elem::U16, len, failure: Some(failure) },
    )
}

fn alloc_scratch(number: u32, len: u32, failure: &'static str) -> (r: Action)
    ensures
        r@ == scratch(number, len as int, failure@),
{
    Action::Run(
        Step::Alloc { scratch: number, elem: Elem::U16, len: len as u64, failure: Some(failure) },
    )
}

/// The attention of one query over its gathered keys and values.
pub open spec fn attend_plan(s: SparseShape) -> Plan {
    dense::flash_attn_bf16_d128_plan(
        s.row(),
        s.tile(),
        s.tile(),
        s.row(),
        1,
        s.num_heads as int,
        1,
        s.topk as int,
        s.scale,
    )
}

/// The scratch memory of a call, in the order in which the attention of one query takes it.
pub open spec fn attend_places() -> Seq<Place> {
    seq![Place::of_scratch(2), Place::of_scratch(0), Place::of_scratch(1), Place::of_scratch(3)]
}

impl SparseView {
    /// A call that ended as `end` says.
    pub open spec fn ended(self, end: End) -> (SparseView, ActionView) {
        (SparseView { stage: SparseStage::Ended, ..self }, ActionView::Finish(end))
    }

    /// The copy of query `p` to the device.
    pub open spec fn send_query(self, p: int) -> (SparseView, ActionView) {
        (
            SparseView { stage: SparseStage::SendQ, p, ..self },
            ActionView::WriteHalves {
                slot: Slot::Scratch(2),
                data: self.shape.query(self.q, p),
                failure: "htod q_one: "@,
            },
        )
    }

    /// How far the call is, as a number.
    pub open spec fn reached(self) -> int {
        match self.stage {
            SparseStage::Indices => 0,
            SparseStage::AllocK => 1,
            SparseStage::AllocV => 2,
            SparseStage::AllocQ => 3,
            SparseStage::AllocO => 4,
            SparseStage::Query => 5,
            SparseStage::Key => 6,
            SparseStage::Value => 7,
            SparseStage::SendQ => 8,
            SparseStage::SendK => 9,
            SparseStage::SendV => 10,
            SparseStage::Attend => 11,
            SparseStage::Output => 12,
            SparseStage::SendOut => 13,
            SparseStage::Ended => 14,
        }
    }

    /// What holds of a call at every stage.
    pub open spec fn well_formed(self) -> bool {
        &&& self.reached() < 14 ==> self.shape.valid() && self.shape.fits()
        &&& 1 <= self.reached() < 13 ==> self.indices.len() >= self.shape.queries()
            * self.shape.topk
        &&& 6 <= self.reached() < 13 ==> self.q.len() >= self.shape.queries() * self.shape.row()
        &&& 7 <= self.reached() < 13 ==> self.shape.covers(self.indices, self.k.len() as int)
        &&& 8 <= self.reached() < 13 ==> self.shape.covers(self.indices, self.v.len() as int)
        &&& 8 <= self.reached() < 13 ==> self.out.len() == self.shape.queries() * self.shape.row()
            && 0 <= self.p < self.shape.queries()
    }

    /// Whether the call can go on with an event: it is of the kind that was asked for, and what
    /// was read is as long as the call's dimensions and its selected positions demand.
    pub open spec fn accepts(self, e: EventView) -> bool {
        let s = self.shape;
        match self.stage {
            SparseStage::Indices => e matches EventView::Indices(d) && d.len() >= s.queries()
                * s.topk,
            SparseStage::Query => e matches EventView::Halves(d) && d.len() >= s.queries()
                * s.row(),
            SparseStage::Key => e matches EventView::Halves(d) && s.covers(
                self.indices,
                d.len() as int,
            ),
            SparseStage::Value => e matches EventView::Halves(d) && s.covers(
                self.indices,
                d.len() as int,
            ),
            SparseStage::Output => e matches EventView::Halves(d) && d.len() >= s.row(),
            SparseStage::Ended => false,
            _ => e is Done,
        }
    }

    /// How the call goes on after an event.
    pub open spec fn next(self, e: EventView) -> (SparseView, ActionView) {
        let s = self.shape;
        match self.stage {
            SparseStage::Indices => (
                SparseView { stage: SparseStage::AllocK, indices: e->Indices_0, ..self },
                scratch(0, s.tile(), "alloc k_gather: "@),
            ),
            SparseStage::AllocK => (
                SparseView { stage: SparseStage::AllocV, ..self },
                scratch(1, s.tile(), "alloc v_gather: "@),
            ),
            SparseStage::AllocV => (
                SparseView { stage: SparseStage::AllocQ, ..self },
                scratch(2, s.row(), "alloc q_one: "@),
            ),
            SparseStage::AllocQ => (
                SparseView { stage: SparseStage::AllocO, ..self },
                scratch(3, s.row(), "alloc o_one: "@),
            ),
            SparseStage::AllocO => (
                SparseView { stage: SparseStage::Query, ..self },
                ActionView::ReadHalves { slot: self.slots.q, failure: "dtoh q: "@ },
            ),
            SparseStage::Query => (
                SparseView { stage: SparseStage::Key, q: e->Halves_0, ..self },
                ActionView::ReadHalves { slot: self.slots.k, failure: "dtoh k: "@ },
            ),
            SparseStage::Key => (
                SparseView { stage: SparseStage::Value, k: e->Halves_0, ..self },
                ActionView::ReadHalves { slot: self.slots.v, failure: "dtoh v: "@ },
            ),
            SparseStage::Value => SparseView {
                v: e->Halves_0,
                out: Seq::new((s.queries() * s.row()) as nat, |i: int| 0u16),
                ..self
            }.send_query(0),
            SparseStage::SendQ => (
                SparseView { stage: SparseStage::SendK, ..self },
                ActionView::WriteHalves {
                    slot: Slot::Scratch(0),
                    data: s.gathered(self.k, self.indices, self.p),
                    failure: "htod k_gh: "@,
                },
            ),
            SparseStage::SendK => (
                SparseView { stage: SparseStage::SendV, ..self },
                ActionView::WriteHalves {
                    slot: Slot::Scratch(1),
                    data: s.gathered(self.v, self.indices, self.p),
                    failure: "htod v_gh: "@,
                },
            ),
            SparseStage::SendV => match attend_plan(s) {
                Plan::Launch(l) => (
                    SparseView { stage: SparseStage::Attend, ..self },
                    ActionView::Run(
                        StepView::Launch(
                            BindingView { places: attend_places(), base: 0 }.launch(l),
                        ),
                    ),
                ),
                Plan::Fail(f) => self.ended(End::Fail(f)),
                Plan::Undefined => self.ended(End::Undefined),
            },
            SparseStage::Attend => (
                SparseView { stage: SparseStage::Output, ..self },
                ActionView::ReadHalves { slot: Slot::Scratch(3), failure: "dtoh o_one: "@ },
            ),
            SparseStage::Output => {
                let out = s.placed(self.out, self.p, e->Halves_0);
                if self.p + 1 < s.queries() {
                    SparseView { out, ..self }.send_query(self.p + 1)
                } else {
                    (
                        SparseView { stage: SparseStage::SendOut, out: Seq::empty(), ..self },
                        ActionView::WriteHalves {
                            slot: self.slots.out,
                            data: out,
                            failure: "htod final out: "@,
                        },
                    )
                }
            },
            SparseStage::SendOut => self.ended(End::Done),
            SparseStage::Ended => self.ended(End::Done),
        }
    }
}

/// A call that has just begun, in stage `stage`.
pub open spec fn fresh(slots: SparseSlots, shape: SparseShape, stage: SparseStage) -> SparseView {
    SparseView {
        slots,
        shape,
        stage,
        indices: Seq::empty(),
        q: Seq::empty(),
        k: Seq::empty(),
        v: Seq::empty(),
        out: Seq::empty(),
        p: 0,
    }
}

/// How a call begins: it is refused, or it asks for the selected positions.
pub open spec fn sparse_start(slots: SparseSlots, s: SparseShape) -> (SparseView, ActionView) {
    if s.batch == 0 || s.seq_q == 0 || s.seq_kv_full == 0 || s.num_heads == 0 || s.topk == 0 {
        (
            fresh(slots, s, SparseStage::Ended),
            ActionView::Finish(
                End::Fail(
                    Fault::InvalidArgument(
                        "batch / seq_q / seq_kv_full / num_heads / topk must be > 0"@,
                    ),
                ),
            ),
        )
    } else if !shape::divides(s.num_kv_heads as int, s.num_heads as int) {
        (
            fresh(slots, s, SparseStage::Ended),
            ActionView::Finish(
                End::Fail(
                    Fault::InvalidArgument("num_heads must be divisible by num_kv_heads"@),
                ),
            ),
        )
    } else {
        (
            fresh(slots, s, SparseStage::Indices),
            ActionView::ReadIndices { slot: slots.indices, failure: "dtoh top_k_indices: "@ },
        )
    }
}

/// Begins a call on given buffers.
pub fn begin_sparse(slots: SparseSlots, shape: SparseShape) -> (r: (SparseRun, Action))
    requires
        shape.valid() ==> shape.fits(),
    ensures
        (r.0@, r.1@) == sparse_start(slots, shape),
        r.0@.well_formed(),
{
    let mut run = SparseRun {
        slots,
        shape,
        stage: SparseStage::Ended,
        indices: Vec::new(),
        q: Vec::new(),
        k: Vec::new(),
        v: Vec::new(),
        out: Vec::new(),
        p: 0,
    };
    if shape.batch == 0 || shape.seq_q == 0 || shape.seq_kv_full == 0 || shape.num_heads == 0
        || shape.topk == 0 {
        return (
            run,
            Action::Finish(
                Text::new("batch / seq_q / seq_kv_full / num_heads / topk must be > 0").refuse(),
            ),
        );
    }
    if !shape.num_heads.is_multiple_of(shape.num_kv_heads) {
        return (
            run,
            Action::Finish(Text::new("num_heads must be divisible by num_kv_heads").refuse()),
        );
    }
    run.stage = SparseStage::Indices;
    (run, Action::ReadIndices { slot: slots.indices, failure: "dtoh top_k_indices: " })
}

/// The attention of one query can always be launched.
pub proof fn attention_of_one_query_is_launched(s: SparseShape)
    requires
        s.valid(),
        s.fits(),
    ensures
        attend_plan(s) is Launch,
{
    let h = s.num_heads as int;
    let t = s.topk as int;
    assert(1 * h * 1 * HEAD_DIM == s.row() && 1 * h * t * HEAD_DIM == s.tile());
    assert(s.row() <= s.tile()) by (nonlinear_arith)
        requires
            s.row() == h * HEAD_DIM,
            s.tile() == h * t * HEAD_DIM,
            h > 0,
            t > 0,
    ;
}

impl SparseRun {
    /// Whether the call can go on with an event.
    pub fn can_accept(&self, e: &Event) -> (r: bool)
        requires
            self@.well_formed(),
        ensures
            r == self@.accepts(e@),
    {
        let s = self.shape;
        match (self.stage, e) {
            (SparseStage::Indices, Event::Indices(d)) => {
                d.len() as u128 >= shape::triple_product(s.batch, s.seq_q, s.topk)
            },
            (SparseStage::Query, Event::Halves(d)) => {
                proof {
                    lemma_sizes(s);
                }
                d.len() as u128 >= shape::triple_product(
                    s.batch,
                    s.seq_q,
                    s.num_heads * HEAD_DIM,
                )
            },
            (SparseStage::Key, Event::Halves(d)) => tiles::is_covered(s, &self.indices, d.len()),
            (SparseStage::Value, Event::Halves(d)) => tiles::is_covered(s, &self.indices, d.len()),
            (SparseStage::Output, Event::Halves(d)) => {
                proof {
                    lemma_sizes(s);
                }
                d.len() as u64 >= (s.num_heads * HEAD_DIM) as u64
            },
            (SparseStage::Indices, _)
            | (SparseStage::Query, _)
            | (SparseStage::Key, _)
            | (SparseStage::Value, _)
            | (SparseStage::Output, _)
            | (SparseStage::Ended, _) => false,
            (_, Event::Done) => true,
            _ => false,
        }
    }

    /// Goes on after an event.
    pub fn next(&mut self, e: Event) -> (r: Action)
        requires
            old(self)@.well_formed(),
            old(self)@.accepts(e@),
        ensures
            (final(self)@, r@) == old(self)@.next(e@),
            final(self)@.well_formed(),
    {
        let s = self.shape;
        proof {
            lemma_sizes(s);
            attention_of_one_query_is_launched(s);
        }
        match self.stage {
            SparseStage::Indices => {
                if let Event::Indices(d) = e {
                    self.indices = d;
                }
                self.stage = SparseStage::AllocK;
                alloc_scratch(0, s.num_heads * s.topk * HEAD_DIM, "alloc k_gather: ")
            },
            SparseStage::AllocK => {
                self.stage = SparseStage::AllocV;
                alloc_scratch(1, s.num_heads * s.topk * HEAD_DIM, "alloc v_gather: ")
            },
            SparseStage::AllocV => {
                self.stage = SparseStage::AllocQ;
                alloc_scratch(2, s.num_heads * HEAD_DIM, "alloc q_one: ")
            },
            SparseStage::AllocQ => {
                self.stage = SparseStage::AllocO;
                alloc_scratch(3, s.num_heads * HEAD_DIM, "alloc o_one: ")
            },
            SparseStage::AllocO => {
                self.stage = SparseStage::Query;
                Action::ReadHalves { slot: self.slots.q, failure: "dtoh q: " }
            },
            SparseStage::Query => {
                if let Event::Halves(d) = e {
                    self.q = d;
                }
                self.stage = SparseStage::Key;
                Action::ReadHalves { slot: self.slots.k, failure: "dtoh k: " }
            },
            SparseStage::Key => {
                if let Event::Halves(d) = e {
                    self.k = d;
                }
                self.stage = SparseStage::Value;
                Action::ReadHalves { slot: self.slots.v, failure: "dtoh v: " }
            },
            SparseStage::Value => {
                if let Event::Halves(d) = e {
                    self.v = d;
                }
                self.out = tiles::blank(s);
                self.p = 0;
                self.stage = SparseStage::SendQ;
                Action::WriteHalves {
                    slot: Slot::Scratch(2),
                    data: tiles::query(s, &self.q, 0),
                    failure: "htod q_one: ",
                }
            },
            SparseStage::SendQ => {
                self.stage = SparseStage::SendK;
                assert(s.covers_query(self.indices@, self.k@.len() as int, self.p as int));
                Action::WriteHalves {
                    slot: Slot::Scratch(0),
                    data: tiles::gather(s, &self.k, &self.indices, self.p),
                    failure: "htod k_gh: ",
                }
            },
            SparseStage::SendK => {
                self.stage = SparseStage::SendV;
                assert(s.covers_query(self.indices@, self.v@.len() as int, self.p as int));
                Action::WriteHalves {
                    slot: Slot::Scratch(1),
                    data: tiles::gather(s, &self.v, &self.indices, self.p),
                    failure: "htod v_gh: ",
                }
            },
            SparseStage::SendV => {
                let row: usize = (s.num_heads * HEAD_DIM) as usize;
                let tile: usize = (s.num_heads * s.topk * HEAD_DIM) as usize;
                match dense::flash_attn_bf16_d128(
                    row,
                    tile,
                    tile,
                    row,
                    1,
                    s.num_heads,
                    1,
                    s.topk,
                    s.scale,
                ) {
                    Ok(l) => {
                        self.stage = SparseStage::Attend;
                        let b = Binding {
                            places: vec![
                                Place::scratch(2),
                                Place::scratch(0),
                                Place::scratch(1),
                                Place::scratch(3),
                            ],
                            base: 0,
                        };
                        assert(b@.places =~= attend_places());
                        Action::Run(Step::Launch(b.bind_launch(l)))
                    },
                    Err(f) => {
                        self.stage = SparseStage::Ended;
                        Action::Finish(Err(f))
                    },
                }
            },
            SparseStage::Attend => {
                self.stage = SparseStage::Output;
                Action::ReadHalves { slot: Slot::Scratch(3), failure: "dtoh o_one: " }
            },
            SparseStage::Output => {
                if let Event::Halves(d) = e {
                    tiles::place(s, &mut self.out, &d, self.p);
                }
                if self.p + 1 < s.batch * s.seq_q {
                    self.p = self.p + 1;
                    self.stage = SparseStage::SendQ;
                    Action::WriteHalves {
                        slot: Slot::Scratch(2),
                        data: tiles::query(s, &self.q, self.p),
                        failure: "htod q_one: ",
                    }
                } else {
                    let mut data: Vec<u16> = Vec::new();
                    std::mem::swap(&mut data, &mut self.out);
                    self.stage = SparseStage::SendOut;
                    Action::WriteHalves { slot: self.slots.out, data, failure: "htod final out: " }
                }
            },
            SparseStage::SendOut => {
                self.stage = SparseStage::Ended;
                Action::Finish(Ok(()))
            },
            SparseStage::Ended => {
                self.stage = SparseStage::Ended;
                Action::Finish(Ok(()))
            },
        }
    }
}

/// Sparse attention over gathered positions: for each query the keys and values at its selected
/// positions are gathered, each key head is repeated for the query heads that share it, and dense
/// attention runs over what was gathered.
///
/// The buffers are, in order, the queries `[B, S, H, 128]`, the keys and the values
/// `[B, T, H_kv, 128]`, the selected positions `[B, S, topk]` and the outputs `[B, S, H, 128]`.
pub fn dsa_sparse_attention_bf16(
    batch: u32,
    seq_q: u32,
    seq_kv_full: u32,
    num_heads: u32,
    num_kv_heads: u32,
    topk: u32,
    scale: F32,
) -> (r: (SparseRun, Action))
    requires
        ({
            let shape = SparseShape {
                batch,
                seq_q,
                seq_kv_full,
                num_heads,
                num_kv_heads,
                topk,
                scale,
            };
            shape.valid() ==> shape.fits()
        }),
    ensures
        (r.0@, r.1@) == sparse_start(
            sparse_params(),
            SparseShape { batch, seq_q, seq_kv_full, num_heads, num_kv_heads, topk, scale },
        ),
        r.0@.well_formed(),
{
    let slots = SparseSlots {
        q: Slot::Param(0),
        k: Slot::Param(1),
        v: Slot::Param(2),
        indices: Slot::Param(3),
        out: Slot::Param(4),
    };
    begin_sparse(
        slots,
        SparseShape { batch, seq_q, seq_kv_full, num_heads, num_kv_heads, topk, scale },
    )
}

/// The buffers of a sparse attention call that is made by itself.
pub open spec fn sparse_params() -> SparseSlots {
    SparseSlots {
        q: Slot::Param(0),
        k: Slot::Param(1),
        v: Slot::Param(2),
        indices: Slot::Param(3),
        out: Slot::Param(4),
    }
}

/// A call after the query that it serves has been attended, with the output `o`.
pub open spec fn serve(v: SparseView, o: Seq<u16>) -> (SparseView, ActionView) {
    v.next(EventView::Done).0.next(EventView::Done).0.next(EventView::Done).0.next(
        EventView::Done,
    ).0.next(EventView::Halves(o))
}

/// A call after its first `n` queries have been attended, with the outputs `outs`, and what it
/// asks for then.
pub open spec fn serve_all(v: SparseView, outs: Seq<Seq<u16>>, n: nat) -> (SparseView, ActionView)
    decreases n,
{
    if n == 0 {
        v.send_query(0)
    } else {
        serve(serve_all(v, outs, (n - 1) as nat).0, outs[n - 1])
    }
}

proof fn lemma_serve_all(v: SparseView, outs: Seq<Seq<u16>>, n: nat)
    requires
        v.well_formed(),
        v.stage is SendQ,
        v.p == 0,
        outs.len() == v.shape.queries(),
        forall|i: int| 0 <= i < outs.len() ==> #[trigger] outs[i].len() == v.shape.row(),
        n < outs.len(),
    ensures
        ({
            let w = serve_all(v, outs, n).0;
            &&& w == SparseView { out: w.out, p: n as int, ..v }
            &&& w.out.len() == v.out.len()
            &&& forall|i: int| 0 <= i < n ==> #[trigger] v.shape.query(w.out, i) == outs[i]
        }),
    decreases n,
{
    if n > 0 {
        let before = serve_all(v, outs, (n - 1) as nat).0;
        lemma_serve_all(v, outs, (n - 1) as nat);
        attention_of_one_query_is_launched(v.shape);
        let after = serve_all(v, outs, n).0;
        assert(outs[n - 1].len() == v.shape.row());
        assert forall|i: int| 0 <= i < n implies #[trigger] v.shape.query(after.out, i)
            == outs[i] by {
            tiles::placed_is_read_back(v.shape, before.out, n - 1, outs[n - 1], i);
        }
    }
}

/// Once every query has been attended, the call asks for one copy to its output buffer, and that
/// copy holds the output of each query in its place.
pub proof fn outputs_are_assembled(v: SparseView, outs: Seq<Seq<u16>>)
    requires
        v.well_formed(),
        v.stage is SendQ,
        v.p == 0,
        outs.len() == v.shape.queries(),
        forall|i: int| 0 <= i < outs.len() ==> #[trigger] outs[i].len() == v.shape.row(),
    ensures
        serve_all(v, outs, outs.len()).1 matches ActionView::WriteHalves { slot, data, failure }
            && slot == v.slots.out && data.len() == v.shape.queries() * v.shape.row() && forall|
            p: int,
        |
            0 <= p < outs.len() ==> #[trigger] v.shape.query(data, p) == outs[p],
{
    let n = outs.len();
    let before = serve_all(v, outs, (n - 1) as nat).0;
    lemma_serve_all(v, outs, (n - 1) as nat);
    attention_of_one_query_is_launched(v.shape);
    assert(outs[n - 1].len() == v.shape.row());
    let data = v.shape.placed(before.out, n - 1, outs[n - 1]);
    assert(serve_all(v, outs, n).1 == ActionView::WriteHalves {
        slot: v.slots.out,
        data,
        failure: "htod final out: "@,
    });
    assert forall|p: int| 0 <= p < outs.len() implies #[trigger] v.shape.query(data, p)
        == outs[p] by {
        tiles::placed_is_read_back(v.shape, before.out, n - 1, outs[n - 1], p);
    }
}

/// A 32-bit number as the signed number of the same bits.
pub open spec fn signed(x: u32) -> i32 {
    if x < 0x8000_0000 {
        x as i32
    } else {
        (x - 0x1_0000_0000) as i32
    }
}

fn as_signed(x: u32) -> (r: i32)
    ensures
        r == signed(x),
{
    if x < 0x8000_0000 {
        x as i32
    } else {
        (x as i64 - 0x1_0000_0000) as i32
    }
}

/// The scores of query `p`.
pub open spec fn score_row(scores: Seq<F32>, seq_kv: int, p: int) -> Seq<F32> {
    scores.subrange(p * seq_kv, p * seq_kv + seq_kv)
}

/// The position that query `p` attends to at place `i`: the one of rank `i`, and position zero
/// where there are fewer positions than places.
pub open spec fn selection(scores: Seq<F32>, seq_kv: int, p: int, i: int) -> i32 {
    if i < seq_kv {
        signed(ranking::ranking(score_row(scores, seq_kv, p))[i])
    } else {
        0
    }
}

/// The `topk` best positions of each of `n` queries.
pub open spec fn selected(scores: Seq<F32>, n: int, seq_kv: int, topk: int) -> Seq<i32> {
    Seq::new((n * topk) as nat, |x: int| selection(scores, seq_kv, x / topk, x % topk))
}

/// Selects the `topk` best positions of each of `n` queries.
pub fn select_positions(scores: &Vec<F32>, n: u32, seq_kv: u32, topk: u32) -> (r: Vec<i32>)
    requires
        n * topk <= u32::MAX,
        scores@.len() >= n * seq_kv,
    ensures
        r@ == selected(scores@, n as int, seq_kv as int, topk as int),
{
    let mut out: Vec<i32> = Vec::new();
    let mut p: u32 = 0;
    let len: usize = scores.len();
    if topk == 0 {
        assert(out@ =~= selected(scores@, n as int, seq_kv as int, topk as int));
        return out;
    }
    while p < n
        invariant
            p <= n,
            topk > 0,
            n * topk <= u32::MAX,
            len == scores@.len(),
            len >= n * seq_kv,
            out@ == selected(scores@, p as int, seq_kv as int, topk as int),
        decreases n - p,
    {
        let base: u64 = shape::product(p, seq_kv);
        proof {
            assert(p * seq_kv + seq_kv <= n * seq_kv) by (nonlinear_arith)
                requires
                    p < n,
            ;
            assert(p * topk + topk == (p + 1) * topk) by (nonlinear_arith);
            assert(p * topk >= 0) by (nonlinear_arith);
        }
        let order = ranking::rank(scores, base as usize, seq_kv);
        let ghost row = score_row(scores@, seq_kv as int, p as int);
        proof {
            ranking::ranking_names_each_position_once(row);
        }
        let mut i: u32 = 0;
        while i < topk
            invariant
                i <= topk,
                topk > 0,
                row == score_row(scores@, seq_kv as int, p as int),
                order@ == ranking::ranking(row),
                order@.len() == seq_kv,
                p * topk >= 0,
                out@ == Seq::new(
                    (p * topk + i) as nat,
                    |x: int|
                        selection(
                            scores@,
                            seq_kv as int,
                            x / (topk as int),
                            x % (topk as int),
                        ),
                ),
            decreases topk - i,
        {
            let position: i32 = if i < seq_kv {
                as_signed(order[i as usize])
            } else {
                0
            };
            proof {
                vstd::arithmetic::div_mod::lemma_fundamental_div_mod_converse(
                    p * topk + i,
                    topk as int,
                    p as int,
                    i as int,
                );
            }
            out.push(position);
            i = i + 1;
            assert(out@ =~= Seq::new(
                (p * topk + i) as nat,
                |x: int| selection(scores@, seq_kv as int, x / (topk as int), x % (topk as int)),
            ));
        }
        p = p + 1;
        assert(out@ =~= selected(scores@, p as int, seq_kv as int, topk as int));
    }
    out
}

/// The selected positions lie in the row, and no position is selected twice.
pub proof fn selection_is_valid(scores: Seq<F32>, n: int, seq_kv: int, topk: int, p: int, i: int)
    requires
        scores.len() >= n * seq_kv,
        0 < seq_kv <= 0x8000_0000,
        0 <= p < n,
        0 <= i < topk,
    ensures
        selected(scores, n, seq_kv, topk).len() == n * topk,
        selected(scores, n, seq_kv, topk)[p * topk + i] == selection(scores, seq_kv, p, i),
        0 <= selection(scores, seq_kv, p, i) < seq_kv,
        forall|j: int|
            0 <= j < i < seq_kv ==> #[trigger] selection(scores, seq_kv, p, j) != selection(
                scores,
                seq_kv,
                p,
                i,
            ),
{
    let row = score_row(scores, seq_kv, p);
    assert(0 <= p * seq_kv && p * seq_kv + seq_kv <= n * seq_kv) by (nonlinear_arith)
        requires
            0 <= p < n,
            seq_kv > 0,
    ;
    assert(0 <= p * topk && p * topk + topk <= n * topk) by (nonlinear_arith)
        requires
            0 <= p < n,
            topk > 0,
    ;
    vstd::arithmetic::div_mod::lemma_fundamental_div_mod_converse(p * topk + i, topk, p, i);
    ranking::ranking_names_each_position_once(row);
}

/// A position that is not selected has no higher score than one that is.
pub proof fn selection_is_best(scores: Seq<F32>, n: int, seq_kv: int, p: int, i: int, t: int)
    requires
        scores.len() >= n * seq_kv,
        0 < seq_kv <= 0x8000_0000,
        0 <= p < n,
        0 <= i < seq_kv,
        0 <= t < seq_kv,
        forall|j: int| 0 <= j <= i ==> #[trigger] selection(scores, seq_kv, p, j) != t,
    ensures
        ({
            let row = score_row(scores, seq_kv, p);
            ranking::key(row[t]) <= ranking::key(row[selection(scores, seq_kv, p, i) as int])
        }),
{
    let row = score_row(scores, seq_kv, p);
    assert(0 <= p * seq_kv && p * seq_kv + seq_kv <= n * seq_kv) by (nonlinear_arith)
        requires
            0 <= p < n,
            seq_kv > 0,
    ;
    ranking::ranking_names_each_position_once(row);
    let order = ranking::ranking(row);
    let j = choose|j: int| 0 <= j < order.len() && order[j] == t as u32;
    assert(order.contains(t as u32));
    assert(selection(scores, seq_kv, p, j) == t);
    assert(j > i);
    ranking::ranking_descends(row, i, j);
}

/// With keys and values for every position of every batch, all selected positions can be read.
pub proof fn selection_is_covered(s: SparseShape, scores: Seq<F32>, len: int)
    requires
        s.valid(),
        s.seq_kv_full <= 0x8000_0000,
        scores.len() >= s.queries() * s.seq_kv_full,
        len >= s.batch * s.seq_kv_full * s.num_kv_heads * HEAD_DIM,
    ensures
        s.covers(selected(scores, s.queries(), s.seq_kv_full as int, s.topk as int), len),
{
    let n = s.queries();
    let kv = s.seq_kv_full as int;
    let topk = s.topk as int;
    let d = HEAD_DIM as int;
    let heads = s.num_kv_heads as int;
    let group = s.group();
    let indices = selected(scores, n, kv, topk);
    assert forall|p: int| 0 <= p < n implies #[trigger] s.covers_query(indices, len, p) by {
        assert forall|x: int| 0 <= x < s.tile() implies #[trigger] s.reads(indices, len, p, x) by {
            let at = x % d;
            let line = x / d;
            let chosen = line % topk;
            let head = line / topk;
            let batch = p / (s.seq_q as int);
            selection_is_valid(scores, n, kv, topk, p, chosen);
            let position = indices[p * topk + chosen] as int;
            assert(0 <= line < s.num_heads * topk) by (nonlinear_arith)
                requires
                    0 <= x < s.num_heads * topk * d,
                    line == x / d,
                    d == 128,
            ;
            assert(0 <= head < s.num_heads) by (nonlinear_arith)
                requires
                    0 <= line < s.num_heads * topk,
                    head == line / topk,
                    topk > 0,
            ;
            assert(group > 0 && s.num_heads == heads * group) by (nonlinear_arith)
                requires
                    s.num_heads > 0,
                    heads > 0,
                    s.num_heads as int % heads == 0,
                    group == s.num_heads as int / heads,
            ;
            let key_head = head / group;
            assert(0 <= key_head < heads) by (nonlinear_arith)
                requires
                    0 <= head < heads * group,
                    group > 0,
                    key_head == head / group,
            ;
            assert(0 <= batch < s.batch) by (nonlinear_arith)
                requires
                    0 <= p < s.batch * s.seq_q,
                    s.seq_q > 0,
                    batch == p / (s.seq_q as int),
            ;
            let cell = batch * kv + position;
            assert(0 <= cell && cell + 1 <= s.batch * kv) by (nonlinear_arith)
                requires
                    0 <= batch < s.batch,
                    0 <= position < kv,
                    cell == batch * kv + position,
            ;
            let wide = cell * heads + key_head;
            assert(0 <= wide && wide + 1 <= s.batch * kv * heads) by (nonlinear_arith)
                requires
                    0 <= cell,
                    cell + 1 <= s.batch * kv,
                    0 <= key_head < heads,
                    wide == cell * heads + key_head,
            ;
            assert(wide * d + at < s.batch * kv * heads * d) by (nonlinear_arith)
                requires
                    wide + 1 <= s.batch * kv * heads,
                    0 <= at < d,
            ;
        }
    }
}

/// A whole DSA call under way.
pub enum DsaRun {
    /// The indexer is to be launched.
    Score(SparseShape),
    /// Its scores are to be read.
    Scores(SparseShape),
    /// The selected positions are to be copied to the device.
    SendIndices(SparseShape),
    /// Attention runs over the selected positions.
    Attend(SparseRun),
    /// The call has ended.
    Ended,
}

/// A [`DsaRun`] by its contents.
#[verifier::ext_equal]
pub enum DsaView {
    Score(SparseShape),
    Scores(SparseShape),
    SendIndices(SparseShape),
    Attend(SparseView),
    Ended,
}

impl View for DsaRun {
    type V = DsaView;

    open spec fn view(&self) -> DsaView {
        match *self {
            DsaRun::Score(s) => DsaView::Score(s),
            DsaRun::Scores(s) => DsaView::Scores(s),
            DsaRun::SendIndices(s) => DsaView::SendIndices(s),
            DsaRun::Attend(run) => DsaView::Attend(run@),
            DsaRun::Ended => DsaView::Ended,
        }
    }
}

/// The buffers of the attention of a whole DSA call.
pub open spec fn dsa_params() -> SparseSlots {
    SparseSlots {
        q: Slot::Param(3),
        k: Slot::Param(4),
        v: Slot::Param(5),
        indices: Slot::Param(7),
        out: Slot::Param(8),
    }
}

/// Whether the sizes of a DSA call fit in 32 bits.
pub open spec fn dsa_fits(s: SparseShape) -> bool {
    s.queries() <= u32::MAX && s.queries() * s.topk <= u32::MAX && (s.valid() ==> s.fits())
}

/// Whether the sizes of a DSA call fit in 32 bits.
pub fn dsa_sizes_fit(s: SparseShape) -> (r: bool)
    ensures
        r == dsa_fits(s),
{
    let n: u64 = shape::product(s.batch, s.seq_q);
    n <= u32::MAX as u64 && shape::product(n as u32, s.topk) <= u32::MAX as u64 && (!s.is_valid()
        || s.sizes_fit())
}

/// How a DSA call begins: it is refused, or it launches the indexer.
pub open spec fn dsa_start(scoring: Plan, s: SparseShape) -> (DsaView, ActionView) {
    match scoring {
        Plan::Launch(l) => (
            DsaView::Score(s),
            ActionView::Run(
                StepView::Launch(BindingView { places: indexer_places(), base: 0 }.launch(l)),
            ),
        ),
        Plan::Fail(f) => (DsaView::Ended, ActionView::Finish(End::Fail(f))),
        Plan::Undefined => (DsaView::Ended, ActionView::Finish(End::Undefined)),
    }
}

/// The buffers of the indexer.
pub open spec fn indexer_places() -> Seq<Place> {
    seq![Place::of_param(0), Place::of_param(1), Place::of_param(2), Place::of_param(6)]
}

impl DsaView {
    /// What holds of a call at every stage.
    pub open spec fn well_formed(self) -> bool {
        match self {
            DsaView::Score(s) => dsa_fits(s),
            DsaView::Scores(s) => dsa_fits(s),
            DsaView::SendIndices(s) => dsa_fits(s),
            DsaView::Attend(run) => run.well_formed(),
            DsaView::Ended => true,
        }
    }

    /// Whether the call can go on with an event: it is of the kind that was asked for, and what
    /// was read is as long as the call demands.
    pub open spec fn accepts(self, e: EventView) -> bool {
        match self {
            DsaView::Score(s) => e is Done,
            DsaView::Scores(s) => e matches EventView::Scores(d) && d.len() >= s.queries()
                * s.seq_kv_full,
            DsaView::SendIndices(s) => e is Done,
            DsaView::Attend(run) => run.accepts(e),
            DsaView::Ended => false,
        }
    }

    /// How the call goes on after an event.
    pub open spec fn next(self, e: EventView) -> (DsaView, ActionView) {
        match self {
            DsaView::Score(s) => (
                DsaView::Scores(s),
                ActionView::ReadScores { slot: Slot::Param(6), failure: "dtoh index_scores: "@ },
            ),
            DsaView::Scores(s) => (
                DsaView::SendIndices(s),
                ActionView::WriteIndices {
                    slot: Slot::Param(7),
                    indices: selected(
                        e->Scores_0,
                        s.queries(),
                        s.seq_kv_full as int,
                        s.topk as int,
                    ),
                    failure: "htod topk_indices: "@,
                },
            ),
            DsaView::SendIndices(s) => {
                let (run, action) = sparse_start(dsa_params(), s);
                (DsaView::Attend(run), action)
            },
            DsaView::Attend(run) => {
                let (run, action) = run.next(e);
                (DsaView::Attend(run), action)
            },
            DsaView::Ended => (self, ActionView::Finish(End::Done)),
        }
    }
}

/// End-to-end DSA forward: the indexer scores all positions, the `topk` best of each query are
/// selected, and attention runs over those.
///
/// The buffers are, in order, the indexer's queries, its keys and its weights, the queries, the
/// keys and the values of the attention, scratch memory for the scores `[B, S, T]`, scratch
/// memory for the selected positions `[B, S, topk]`, and the outputs.
pub fn dsa_attention_bf16(
    q_idx_len: usize,
    k_idx_len: usize,
    weights_len: usize,
    index_scores_len: usize,
    batch: u32,
    seq_q: u32,
    seq_kv_full: u32,
    num_heads: u32,
    num_kv_heads: u32,
    topk: u32,
    scale_attn: F32,
) -> (r: (DsaRun, Action))
    requires
        dsa_indexer_score_bf16_plan(
            q_idx_len as int, k_idx_len as int, weights_len as int, index_scores_len as int,
            batch as int, seq_q as int, seq_kv_full as int,
        ) !is Undefined,
        dsa_indexer_score_bf16_plan(
            q_idx_len as int, k_idx_len as int, weights_len as int, index_scores_len as int,
            batch as int, seq_q as int, seq_kv_full as int,
        ) is Launch ==> dsa_fits(
            SparseShape {
                batch,
                seq_q,
                seq_kv_full,
                num_heads,
                num_kv_heads,
                topk,
                scale: scale_attn,
            },
        ),
    ensures
        (r.0@, r.1@) == dsa_start(
            dsa_indexer_score_bf16_plan(
                q_idx_len as int, k_idx_len as int, weights_len as int, index_scores_len as int,
                batch as int, seq_q as int, seq_kv_full as int,
            ),
            SparseShape {
                batch,
                seq_q,
                seq_kv_full,
                num_heads,
                num_kv_heads,
                topk,
                scale: scale_attn,
            },
        ),
        r.0@.well_formed(),
{
    match dsa_indexer_score_bf16(
        q_idx_len,
        k_idx_len,
        weights_len,
        index_scores_len,
        batch,
        seq_q,
        seq_kv_full,
    ) {
        Ok(l) => {
            let b = Binding {
                places: vec![Place::param(0), Place::param(1), Place::param(2), Place::param(6)],
                base: 0,
            };
            assert(b@.places =~= indexer_places());
            let shape = SparseShape {
                batch,
                seq_q,
                seq_kv_full,
                num_heads,
                num_kv_heads,
                topk,
                scale: scale_attn,
            };
            (DsaRun::Score(shape), Action::Run(Step::Launch(b.bind_launch(l))))
        },
        Err(f) => (DsaRun::Ended, Action::Finish(Err(f))),
    }
}

impl DsaRun {
    /// Whether the call can go on with an event.
    pub fn can_accept(&self, e: &Event) -> (r: bool)
        requires
            self@.well_formed(),
        ensures
            r == self@.accepts(e@),
    {
        match (self, e) {
            (DsaRun::Score(_), Event::Done) => true,
            (DsaRun::Scores(s), Event::Scores(d)) => {
                d.len() as u128 >= shape::triple_product(
                    s.batch,
                    s.seq_q,
                    s.seq_kv_full,
                )
            },
            (DsaRun::SendIndices(_), Event::Done) => true,
            (DsaRun::Attend(run), e) => run.can_accept(e),
            _ => false,
        }
    }

    /// Goes on after an event.
    pub fn next(self, e: Event) -> (r: (DsaRun, Action))
        requires
            self@.well_formed(),
            self@.accepts(e@),
        ensures
            (r.0@, r.1@) == self@.next(e@),
            r.0@.well_formed(),
    {
        match self {
            DsaRun::Score(s) => (
                DsaRun::Scores(s),
                Action::ReadScores { slot: Slot::Param(6), failure: "dtoh index_scores: " },
            ),
            DsaRun::Scores(s) => {
                let scores = match e {
                    Event::Scores(d) => d,
                    _ => Vec::new(),
                };
                let indices = select_positions(&scores, s.batch * s.seq_q, s.seq_kv_full, s.topk);
                (
                    DsaRun::SendIndices(s),
                    Action::WriteIndices {
                        slot: Slot::Param(7),
                        indices,
                        failure: "htod topk_indices: ",
                    },
                )
            },
            DsaRun::SendIndices(s) => {
                let slots = SparseSlots {
                    q: Slot::Param(3),
                    k: Slot::Param(4),
                    v: Slot::Param(5),
                    indices: Slot::Param(7),
                    out: Slot::Param(8),
                };
                let (run, action) = begin_sparse(slots, s);
                (DsaRun::Attend(run), action)
            },
            DsaRun::Attend(run) => {
                let mut run = run;
                let action = run.next(e);
                (DsaRun::Attend(run), action)
            },
            DsaRun::Ended => (DsaRun::Ended, Action::Finish(Ok(()))),
        }
    }
}

proof fn lemma_sizes(s: SparseShape)
    ensures
        s.valid() && s.fits() ==> s.num_heads * s.topk <= u32::MAX && s.num_heads * HEAD_DIM
            <= u32::MAX && 0 < s.batch * s.seq_q <= u32::MAX,
{
    let h = s.num_heads as int;
    let t = s.topk as int;
    let n = s.queries();
    assert(s.valid() && s.fits() ==> h * t <= u32::MAX && h * HEAD_DIM <= u32::MAX)
        by (nonlinear_arith)
        requires
            s.valid() ==> h > 0 && t > 0,
            s.fits() ==> h * t * HEAD_DIM <= u32::MAX,
            HEAD_DIM == 128,
    ;
    assert(s.valid() ==> n > 0) by (nonlinear_arith)
        requires
            n == s.batch * s.seq_q,
            s.valid() ==> s.batch > 0 && s.seq_q > 0,
    ;
    assert(s.valid() && s.fits() ==> n <= u32::MAX) by (nonlinear_arith)
        requires
            s.valid() ==> h > 0 && n > 0,
            s.fits() ==> n * h * HEAD_DIM <= u32::MAX,
            HEAD_DIM == 128,
    ;
}

} // verus!
