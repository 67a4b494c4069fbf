//! The memory that programs name.
//!
//! A program is closed when every step names only buffers of the caller and scratch memory that
//! an earlier step has provided.
use crate::plan::{Arg, LaunchView, Place, Plan, Slot, TensorMapView};
use crate::program::{BindingView, End, ProgramView, StepView};
use vstd::prelude::*;

verus! {

impl StepView {
    /// Whether this step provides the scratch memory number `i`.
    pub open spec fn grants(self, i: u32) -> bool {
        match self {
            StepView::Alloc { scratch, elem, len, failure } => i == scratch,
            StepView::Encode { scratch, maps } => scratch <= i < scratch + maps.len(),
            _ => false,
        }
    }

    /// Whether the step names only the first `buffers` buffers of the caller and scratch memory
    /// that `before` has provided.
    pub open spec fn known(self, buffers: int, before: Seq<StepView>) -> bool {
        match self {
            StepView::Load { .. } => true,
            StepView::Alloc { .. } => true,
            StepView::Encode { scratch, maps } => maps_known(maps, buffers, before),
            StepView::Zero { slot } => slot_known(slot, buffers, before),
            StepView::Copy { from, to, len } => slot_known(from.slot, buffers, before)
                && slot_known(to.slot, buffers, before),
            StepView::Exchange { from, to, len, send_to, recv_from } => slot_known(
                from.slot,
                buffers,
                before,
            ) && slot_known(to.slot, buffers, before),
            StepView::Dequant { from, to, n, scale } => slot_known(from.slot, buffers, before)
                && slot_known(to.slot, buffers, before),
            StepView::Launch(l) => args_known(l.args, buffers, before) && maps_known(
                l.tensor_maps,
                buffers,
                before,
            ),
        }
    }

    /// Whether the step provides only scratch memory with numbers below `n`.
    pub open spec fn numbers_below(self, n: int) -> bool {
        match self {
            StepView::Alloc { scratch, elem, len, failure } => scratch < n,
            StepView::Encode { scratch, maps } => scratch + maps.len() <= n,
            _ => true,
        }
    }
}

/// Whether some of these steps provides the scratch memory number `i`.
pub open spec fn granted(steps: Seq<StepView>, i: u32) -> bool {
    exists|j: int| 0 <= j < steps.len() && #[trigger] steps[j].grants(i)
}

/// Whether a slot is one of the caller's first `buffers` buffers, or provided before.
pub open spec fn slot_known(slot: Slot, buffers: int, before: Seq<StepView>) -> bool {
    match slot {
        Slot::Param(i) => i < buffers,
        Slot::Scratch(i) => granted(before, i),
    }
}

/// Whether all descriptors describe known memory.
pub open spec fn maps_known(maps: Seq<TensorMapView>, buffers: int, before: Seq<StepView>) -> bool {
    forall|i: int|
        0 <= i < maps.len() ==> slot_known((#[trigger] maps[i]).base.slot, buffers, before)
}

/// Whether all arguments name known memory.
pub open spec fn args_known(args: Seq<Arg>, buffers: int, before: Seq<StepView>) -> bool {
    forall|i: int|
        0 <= i < args.len() ==> ((#[trigger] args[i]) matches Arg::Buffer(p) ==> slot_known(
            p.slot,
            buffers,
            before,
        ))
}

/// Whether all places are in known memory.
pub open spec fn places_known(places: Seq<Place>, buffers: int, before: Seq<StepView>) -> bool {
    forall|i: int|
        0 <= i < places.len() ==> slot_known((#[trigger] places[i]).slot, buffers, before)
}

impl ProgramView {
    /// Whether every step names only memory that is there when the step is carried out.
    pub open spec fn closed(self, buffers: int) -> bool {
        forall|k: int|
            0 <= k < self.steps.len() ==> (#[trigger] self.steps[k]).known(
                buffers,
                self.steps.take(k),
            )
    }

    /// Whether the program provides scratch memory with numbers below `n` only.
    pub open spec fn numbered_below(self, n: int) -> bool {
        forall|k: int| 0 <= k < self.steps.len() ==> (#[trigger] self.steps[k]).numbers_below(n)
    }

    /// Whether the program has provided the scratch memory with numbers below `n`.
    pub open spec fn provides(self, n: int) -> bool {
        forall|i: u32| i < n ==> #[trigger] granted(self.steps, i)
    }
}

/// Whether a launch names only its first `buffers` buffer parameters.
pub open spec fn names_only(p: Plan, buffers: int) -> bool {
    p matches Plan::Launch(l) ==> {
        &&& forall|i: int|
            0 <= i < l.args.len() ==> #[trigger] l.args[i].refers(
                buffers,
                l.tensor_maps.len() as int,
            )
        &&& forall|i: int|
            0 <= i < l.tensor_maps.len() ==> #[trigger] l.tensor_maps[i].base.refers(buffers)
    }
}

proof fn lemma_granted_more(before: Seq<StepView>, after: Seq<StepView>, i: u32)
    requires
        granted(before, i),
        before.len() <= after.len(),
        forall|j: int| 0 <= j < before.len() ==> before[j] == after[j],
    ensures
        granted(after, i),
{
    let j = choose|j: int| 0 <= j < before.len() && #[trigger] before[j].grants(i);
    assert(after[j].grants(i));
}

proof fn lemma_slot_more(slot: Slot, buffers: int, before: Seq<StepView>, after: Seq<StepView>)
    requires
        slot_known(slot, buffers, before),
        before.len() <= after.len(),
        forall|j: int| 0 <= j < before.len() ==> before[j] == after[j],
    ensures
        slot_known(slot, buffers, after),
{
    if let Slot::Scratch(i) = slot {
        lemma_granted_more(before, after, i);
    }
}

/// A closed program stays closed when a step is added that names known memory only. What was
/// provided stays provided.
pub proof fn step_keeps_closed(p: ProgramView, s: StepView, buffers: int)
    requires
        p.closed(buffers),
        p.end is Done ==> s.known(buffers, p.steps),
    ensures
        p.step(s).closed(buffers),
        forall|i: u32| granted(p.steps, i) ==> #[trigger] granted(p.step(s).steps, i),
        p.end is Done ==> forall|i: u32| s.grants(i) ==> #[trigger] granted(p.step(s).steps, i),
        forall|n: int|
            p.numbered_below(n) && s.numbers_below(n) ==> #[trigger] p.step(s).numbered_below(n),
{
    let q = p.step(s);
    if p.end is Done {
        assert forall|k: int| 0 <= k < q.steps.len() implies (#[trigger] q.steps[k]).known(
            buffers,
            q.steps.take(k),
        ) by {
            if k < p.steps.len() {
                assert(q.steps.take(k) =~= p.steps.take(k));
                assert(p.steps[k].known(buffers, p.steps.take(k)));
            } else {
                assert(q.steps.take(k) =~= p.steps);
            }
        }
        assert forall|i: u32| granted(p.steps, i) implies #[trigger] granted(q.steps, i) by {
            lemma_granted_more(p.steps, q.steps, i);
        }
        assert forall|i: u32| s.grants(i) implies #[trigger] granted(q.steps, i) by {
            assert(q.steps[p.steps.len() as int].grants(i));
        }
    }
}

/// A closed program stays closed when a launch is added that names only the places it is given.
pub proof fn launch_keeps_closed(p: ProgramView, plan: Plan, places: Seq<Place>, buffers: int)
    requires
        p.closed(buffers),
        names_only(plan, places.len() as int),
        places_known(places, buffers, p.steps),
    ensures
        p.then_launch(plan, places).closed(buffers),
        forall|i: u32|
            granted(p.steps, i) ==> #[trigger] granted(p.then_launch(plan, places).steps, i),
        forall|n: int|
            p.numbered_below(n) ==> #[trigger] p.then_launch(plan, places).numbered_below(n),
{
    if p.end is Done {
        if let Plan::Launch(l) = plan {
            let b = BindingView { places, base: 0 };
            let s = StepView::Launch(b.launch(l));
            assert(p.then_launch(plan, places) == p.step(s));
            lemma_bound_launch(l, b, buffers, p.steps);
            step_keeps_closed(p, s, buffers);
        }
    }
}

proof fn lemma_bound_launch(l: LaunchView, b: BindingView, buffers: int, before: Seq<StepView>)
    requires
        names_only(Plan::Launch(l), b.places.len() as int),
        places_known(b.places, buffers, before),
    ensures
        StepView::Launch(b.launch(l)).known(buffers, before),
{
    let bound = b.launch(l);
    assert forall|i: int| 0 <= i < bound.args.len() implies ((#[trigger] bound.args[i]) matches
        Arg::Buffer(p) ==> slot_known(p.slot, buffers, before)) by {
        assert(l.args[i].refers(b.places.len() as int, l.tensor_maps.len() as int));
        if let Arg::Buffer(p) = l.args[i] {
            if let Slot::Param(n) = p.slot {
                assert(slot_known(b.places[n as int].slot, buffers, before));
            }
        }
    }
    assert forall|i: int| 0 <= i < bound.tensor_maps.len() implies slot_known(
        (#[trigger] bound.tensor_maps[i]).base.slot,
        buffers,
        before,
    ) by {
        assert(l.tensor_maps[i].base.refers(b.places.len() as int));
        if let Slot::Param(n) = l.tensor_maps[i].base.slot {
            assert(slot_known(b.places[n as int].slot, buffers, before));
        }
    }
}

/// The steps of a part of a program, for the whole.
pub open spec fn bound(steps: Seq<StepView>, b: BindingView) -> Seq<StepView> {
    steps.map_values(|s: StepView| b.step(s))
}

proof fn lemma_bound_slot(
    slot: Slot,
    b: BindingView,
    buffers: int,
    own: Seq<StepView>,
    before: Seq<StepView>,
    part: Seq<StepView>,
    n: int,
)
    requires
        slot_known(slot, b.places.len() as int, part),
        places_known(b.places, buffers, own),
        before == own + bound(part, b),
        b.base + n <= u32::MAX,
        forall|k: int| 0 <= k < part.len() ==> (#[trigger] part[k]).numbers_below(n),
    ensures
        slot_known(b.slot(slot).slot, buffers, before),
{
    match slot {
        Slot::Param(i) => {
            assert(slot_known(b.places[i as int].slot, buffers, own));
            lemma_slot_more(b.places[i as int].slot, buffers, own, before);
        },
        Slot::Scratch(i) => {
            let j = choose|j: int| 0 <= j < part.len() && #[trigger] part[j].grants(i);
            assert(part[j].numbers_below(n));
            let moved = before[own.len() + j];
            assert(moved == b.step(part[j]));
            assert(moved.grants((b.base + i) as u32));
        },
    }
}

proof fn lemma_bound_step(
    s: StepView,
    b: BindingView,
    buffers: int,
    own: Seq<StepView>,
    before: Seq<StepView>,
    part: Seq<StepView>,
    n: int,
)
    requires
        s.known(b.places.len() as int, part),
        places_known(b.places, buffers, own),
        before == own + bound(part, b),
        b.base + n <= u32::MAX,
        forall|k: int| 0 <= k < part.len() ==> (#[trigger] part[k]).numbers_below(n),
    ensures
        b.step(s).known(buffers, before),
{
    match s {
        StepView::Load { .. } => {},
        StepView::Alloc { .. } => {},
        StepView::Encode { scratch, maps } => {
            assert forall|i: int| 0 <= i < maps.len() implies slot_known(
                b.map(#[trigger] maps[i]).base.slot,
                buffers,
                before,
            ) by {
                lemma_bound_slot(maps[i].base.slot, b, buffers, own, before, part, n);
            }
        },
        StepView::Zero { slot } => {
            lemma_bound_slot(slot, b, buffers, own, before, part, n);
        },
        StepView::Copy { from, to, len } => {
            lemma_bound_slot(from.slot, b, buffers, own, before, part, n);
            lemma_bound_slot(to.slot, b, buffers, own, before, part, n);
        },
        StepView::Exchange { from, to, len, send_to, recv_from } => {
            lemma_bound_slot(from.slot, b, buffers, own, before, part, n);
            lemma_bound_slot(to.slot, b, buffers, own, before, part, n);
        },
        StepView::Dequant { from, to, n: elems, scale } => {
            lemma_bound_slot(from.slot, b, buffers, own, before, part, n);
            lemma_bound_slot(to.slot, b, buffers, own, before, part, n);
        },
        StepView::Launch(l) => {
            let moved = b.launch(l);
            assert forall|i: int| 0 <= i < moved.args.len() implies ((#[trigger] moved.args[i])
                matches Arg::Buffer(p) ==> slot_known(p.slot, buffers, before)) by {
                if let Arg::Buffer(p) = l.args[i] {
                    lemma_bound_slot(p.slot, b, buffers, own, before, part, n);
                }
            }
            assert forall|i: int| 0 <= i < moved.tensor_maps.len() implies slot_known(
                (#[trigger] moved.tensor_maps[i]).base.slot,
                buffers,
                before,
            ) by {
                lemma_bound_slot(l.tensor_maps[i].base.slot, b, buffers, own, before, part, n);
            }
        },
    }
}

/// A closed program stays closed when a closed part is run on places that are known, with
/// numbers for its scratch memory that do not run out.
pub proof fn run_keeps_closed(p: ProgramView, q: ProgramView, b: BindingView, buffers: int, n: int)
    requires
        p.closed(buffers),
        q.closed(b.places.len() as int),
        q.numbered_below(n),
        b.base + n <= u32::MAX,
        places_known(b.places, buffers, p.steps),
    ensures
        p.then_run(q, b).closed(buffers),
        forall|i: u32| granted(p.steps, i) ==> #[trigger] granted(p.then_run(q, b).steps, i),
        forall|m: int|
            p.numbered_below(m) && b.base + n <= m ==> #[trigger] p.then_run(
                q,
                b,
            ).numbered_below(m),
{
    let r = p.then_run(q, b);
    if p.end is Done {
        assert forall|k: int| 0 <= k < r.steps.len() implies (#[trigger] r.steps[k]).known(
            buffers,
            r.steps.take(k),
        ) by {
            if k < p.steps.len() {
                assert(r.steps.take(k) =~= p.steps.take(k));
                assert(p.steps[k].known(buffers, p.steps.take(k)));
            } else {
                let i = k - p.steps.len();
                let part = q.steps.take(i);
                assert(r.steps.take(k) =~= p.steps + bound(part, b));
                assert(q.steps[i].known(b.places.len() as int, part));
                lemma_bound_step(q.steps[i], b, buffers, p.steps, r.steps.take(k), part, n);
            }
        }
        assert forall|i: u32| granted(p.steps, i) implies #[trigger] granted(r.steps, i) by {
            lemma_granted_more(p.steps, r.steps, i);
        }
        assert forall|m: int|
            p.numbered_below(m) && b.base + n <= m implies #[trigger] r.numbered_below(m) by {
            assert forall|k: int| 0 <= k < r.steps.len() implies (
            #[trigger] r.steps[k]).numbers_below(m) by {
                if k >= p.steps.len() {
                    assert(q.steps[k - p.steps.len()].numbers_below(n));
                } else {
                    assert(p.steps[k].numbers_below(m));
                }
            }
        }
    }
}

/// A program without steps is closed.
pub proof fn nothing_is_closed(buffers: int, end: End)
    ensures
        (ProgramView { steps: Seq::empty(), end }).closed(buffers),
        forall|n: int|
            #[trigger] (ProgramView { steps: Seq::empty(), end }).numbered_below(n),
{
}

/// A program of one launch is closed where the launch names only the caller's buffers.
pub proof fn single_is_closed(plan: Plan, buffers: int)
    requires
        names_only(plan, buffers),
    ensures
        ProgramView::single(plan).closed(buffers),
        forall|n: int| #[trigger] ProgramView::single(plan).numbered_below(n),
{
    if let Plan::Launch(l) = plan {
        let p = ProgramView::single(plan);
        assert(p.steps[0] == StepView::Launch(l));
        assert forall|i: int| 0 <= i < l.args.len() implies ((#[trigger] l.args[i]) matches
            Arg::Buffer(p) ==> slot_known(p.slot, buffers, Seq::empty())) by {
            assert(l.args[i].refers(buffers, l.tensor_maps.len() as int));
        }
        assert forall|i: int| 0 <= i < l.tensor_maps.len() implies slot_known(
            (#[trigger] l.tensor_maps[i]).base.slot,
            buffers,
            Seq::empty(),
        ) by {
            assert(l.tensor_maps[i].base.refers(buffers));
        }
        assert(p.steps.take(0) =~= Seq::empty());
        assert(StepView::Launch(l).known(buffers, Seq::empty()));
    }
}

impl StepView {
    /// Whether the step names scratch memory only, and no buffer of the caller.
    pub open spec fn stays_in_scratch(self) -> bool {
        match self {
            StepView::Load { .. } => true,
            StepView::Alloc { .. } => true,
            StepView::Encode { scratch, maps } => forall|i: int|
                0 <= i < maps.len() ==> (#[trigger] maps[i]).base.slot is Scratch,
            StepView::Zero { slot } => slot is Scratch,
            StepView::Copy { from, to, len } => from.slot is Scratch && to.slot is Scratch,
            StepView::Exchange { from, to, len, send_to, recv_from } => from.slot is Scratch
                && to.slot is Scratch,
            StepView::Dequant { from, to, n, scale } => from.slot is Scratch && to.slot is Scratch,
            StepView::Launch(l) => {
                &&& forall|i: int|
                    0 <= i < l.args.len() ==> ((#[trigger] l.args[i]) matches Arg::Buffer(p)
                        ==> p.slot is Scratch)
                &&& forall|i: int|
                    0 <= i < l.tensor_maps.len() ==> (
                    #[trigger] l.tensor_maps[i]).base.slot is Scratch
            },
        }
    }
}

/// A step of a part that knows its memory stays in scratch memory, where the part is given
/// scratch memory only.
pub proof fn bound_step_stays_in_scratch(s: StepView, b: BindingView, before: Seq<StepView>)
    requires
        s.known(b.places.len() as int, before),
        forall|i: int| 0 <= i < b.places.len() ==> (#[trigger] b.places[i]).slot is Scratch,
    ensures
        b.step(s).stays_in_scratch(),
{
    match s {
        StepView::Encode { scratch, maps } => {
            let bound_maps = maps.map_values(|m: TensorMapView| b.map(m));
            assert forall|i: int| 0 <= i < bound_maps.len() implies (
            #[trigger] bound_maps[i]).base.slot is Scratch by {
                assert(slot_known(maps[i].base.slot, b.places.len() as int, before));
            }
        },
        StepView::Launch(l) => {
            let whole = b.launch(l);
            assert forall|i: int| 0 <= i < whole.args.len() implies ((
            #[trigger] whole.args[i]) matches Arg::Buffer(p) ==> p.slot is Scratch) by {
                let a = l.args[i];
                assert(whole.args[i] == b.arg(a));
            }
            assert forall|i: int| 0 <= i < whole.tensor_maps.len() implies (
            #[trigger] whole.tensor_maps[i]).base.slot is Scratch by {
                let m = l.tensor_maps[i];
                assert(whole.tensor_maps[i] == b.map(m));
            }
        },
        _ => {},
    }
}

} // verus!
