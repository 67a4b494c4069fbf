//! Requests that take more than one launch.
//!
//! A [`Program`] lists device steps in the order in which they are carried out, and how the
//! request ends once they have been: done, or with an error that was found on the way. A step
//! that the device refuses ends the request early, with the error that the step tells.
use crate::error::{DriverError, Fault, Result, SparkError};
use crate::plan;
use crate::plan::{Arg, F32, Launch, LaunchView, Place, Plan, Slot, TensorMap, TensorMapView};
use crate::text::Text;
use vstd::prelude::*;

verus! {

/// The element type of device memory.
#[derive(Debug, Clone, Copy, PartialEq, Eq, Structural)]
pub enum Elem {
    /// Single bytes.
    U8,
    /// Two bytes: BF16 values by their bits.
    U16,
    /// Four-byte signed numbers.
    I32,
    /// Single precision.
    F32,
}

/// One device step.
#[derive(Debug, PartialEq, Eq)]
pub enum Step {
    /// Looks a kernel up, so that a missing one is found here.
    Load { kernel: &'static str, entry: &'static str },
    /// Allocates `len` zeroed elements under the number `scratch`, in place of what that number
    /// stood for. A failure is told as `failure` and the driver's error, or as the driver's
    /// error alone.
    Alloc { scratch: u32, elem: Elem, len: u64, failure: Option<&'static str> },
    /// Encodes descriptors, then copies each to the device, under consecutive numbers from
    /// `scratch` on.
    Encode { scratch: u32, maps: Vec<TensorMap> },
    /// Fills a buffer with zeros.
    Zero { slot: Slot },
    /// Copies `len` elements of two bytes.
    Copy { from: Place, to: Place, len: u64 },
    /// Sends the `len` BF16 elements of `from` to one rank and receives as many into `to` from
    /// another.
    Exchange { from: Place, to: Place, len: u64, send_to: u32, recv_from: u32 },
    /// Dequantizes `n` FP8 elements with one scale into BF16.
    Dequant { from: Place, to: Place, n: u32, scale: F32 },
    /// Launches a kernel.
    Launch(Launch),
}

/// A [`Step`] by its contents.
#[verifier::ext_equal]
pub enum StepView {
    Load { kernel: Seq<char>, entry: Seq<char> },
    Alloc { scratch: u32, elem: Elem, len: int, failure: Option<Seq<char>> },
    Encode { scratch: u32, maps: Seq<TensorMapView> },
    Zero { slot: Slot },
    Copy { from: Place, to: Place, len: int },
    Exchange { from: Place, to: Place, len: int, send_to: int, recv_from: int },
    Dequant { from: Place, to: Place, n: int, scale: F32 },
    Launch(LaunchView),
}

/// How a request ends after its steps.
#[verifier::ext_equal]
pub enum End {
    /// It is done.
    Done,
    /// It is refused.
    Fail(Fault),
    /// Sizes leave the machine integers that hold them. Requests of this kind are not to be
    /// made.
    Undefined,
}

/// Steps, and how the request ends after them.
#[derive(Debug, PartialEq, Eq)]
pub struct Program {
    /// The steps, in order.
    pub steps: Vec<Step>,
    /// The end.
    pub end: Result<()>,
}

/// A [`Program`] by its contents.
#[verifier::ext_equal]
pub struct ProgramView {
    pub steps: Seq<StepView>,
    pub end: End,
}

/// The text in an optional literal.
pub open spec fn literal(s: Option<&'static str>) -> Option<Seq<char>> {
    match s {
        Some(t) => Some(t@),
        None => None,
    }
}

impl View for Step {
    type V = StepView;

    open spec fn view(&self) -> StepView {
        match *self {
            Step::Load { kernel, entry } => StepView::Load { kernel: kernel@, entry: entry@ },
            Step::Alloc { scratch, elem, len, failure } => StepView::Alloc {
                scratch,
                elem,
                len: len as int,
                failure: literal(failure),
            },
            Step::Encode { scratch, maps } => StepView::Encode { scratch, maps: plan::maps(maps@) },
            Step::Zero { slot } => StepView::Zero { slot },
            Step::Copy { from, to, len } => StepView::Copy { from, to, len: len as int },
            Step::Exchange { from, to, len, send_to, recv_from } => StepView::Exchange {
                from,
                to,
                len: len as int,
                send_to: send_to as int,
                recv_from: recv_from as int,
            },
            Step::Dequant { from, to, n, scale } => StepView::Dequant {
                from,
                to,
                n: n as int,
                scale,
            },
            Step::Launch(l) => StepView::Launch(l@),
        }
    }
}

/// The contents of a list of steps.
pub open spec fn steps(s: Seq<Step>) -> Seq<StepView> {
    s.map_values(|t: Step| t@)
}

/// How an end reads.
pub open spec fn end(r: Result<()>) -> End {
    match r {
        Ok(_) => End::Done,
        Err(e) => End::Fail(e@),
    }
}

impl View for Program {
    type V = ProgramView;

    open spec fn view(&self) -> ProgramView {
        ProgramView { steps: steps(self.steps@), end: end(self.end) }
    }
}

/// Memory that stands for the parameters of a part of a program: parameter `i` is the place
/// number `i`, and the part's scratch numbers begin at `base`.
#[derive(Debug, PartialEq, Eq)]
pub struct Binding {
    /// The places, by parameter.
    pub places: Vec<Place>,
    /// The first scratch number that the part may use.
    pub base: u32,
}

/// A [`Binding`] by its contents.
#[verifier::ext_equal]
pub struct BindingView {
    pub places: Seq<Place>,
    pub base: u32,
}

impl View for Binding {
    type V = BindingView;

    open spec fn view(&self) -> BindingView {
        BindingView { places: self.places@, base: self.base }
    }
}

impl Place {
    /// The buffer parameter number `i`, from its first element.
    pub open spec fn of_param(i: u32) -> Place {
        Place { slot: Slot::Param(i), start: 0 }
    }

    /// The buffer parameter number `i`, after `start` elements.
    pub open spec fn param_at(i: u32, start: int) -> Place {
        Place { slot: Slot::Param(i), start: start as u64 }
    }

    /// The scratch buffer number `i`, from its first element.
    pub open spec fn of_scratch(i: u32) -> Place {
        Place { slot: Slot::Scratch(i), start: 0 }
    }

    /// The scratch buffer number `i`, after `start` elements.
    pub open spec fn scratch_at(i: u32, start: int) -> Place {
        Place { slot: Slot::Scratch(i), start: start as u64 }
    }

    /// The buffer parameter number `i`, from its first element.
    pub fn param(i: u32) -> (r: Place)
        ensures
            r == Place::of_param(i),
    {
        Place { slot: Slot::Param(i), start: 0 }
    }

    /// The buffer parameter number `i`, after `start` elements.
    pub fn within(i: u32, start: u64) -> (r: Place)
        ensures
            r == Place::param_at(i, start as int),
    {
        Place { slot: Slot::Param(i), start }
    }

    /// The scratch buffer number `i`, after `start` elements.
    pub fn within_scratch(i: u32, start: u64) -> (r: Place)
        ensures
            r == Place::scratch_at(i, start as int),
    {
        Place { slot: Slot::Scratch(i), start }
    }

    /// The list of this place alone.
    pub fn alone(self) -> (r: Vec<Place>)
        ensures
            r@ == seq![self],
    {
        let r = vec![self];
        assert(r@ =~= seq![self]);
        r
    }

    /// The scratch buffer number `i`, from its first element.
    pub fn scratch(i: u32) -> (r: Place)
        ensures
            r == Place::of_scratch(i),
    {
        Place { slot: Slot::Scratch(i), start: 0 }
    }
}

impl BindingView {
    /// The memory that a slot of the part stands for.
    pub open spec fn slot(self, s: Slot) -> Place {
        match s {
            Slot::Param(i) => if i < self.places.len() {
                self.places[i as int]
            } else {
                Place { slot: s, start: 0 }
            },
            Slot::Scratch(i) => Place { slot: Slot::Scratch(self.base.wrapping_add(i)), start: 0 },
        }
    }

    /// The memory that a place of the part stands for.
    pub open spec fn place(self, p: Place) -> Place {
        Place { slot: self.slot(p.slot).slot, start: self.slot(p.slot).start.wrapping_add(p.start) }
    }

    /// A kernel argument of the part, for the whole.
    pub open spec fn arg(self, a: Arg) -> Arg {
        match a {
            Arg::Buffer(p) => Arg::Buffer(self.place(p)),
            _ => a,
        }
    }

    /// A descriptor of the part, for the whole.
    pub open spec fn map(self, m: TensorMapView) -> TensorMapView {
        TensorMapView { base: self.place(m.base), ..m }
    }

    /// A launch of the part, for the whole.
    pub open spec fn launch(self, l: LaunchView) -> LaunchView {
        LaunchView {
            tensor_maps: l.tensor_maps.map_values(|m: TensorMapView| self.map(m)),
            args: l.args.map_values(|a: Arg| self.arg(a)),
            ..l
        }
    }

    /// A step of the part, for the whole.
    pub open spec fn step(self, s: StepView) -> StepView {
        match s {
            StepView::Load { kernel, entry } => s,
            StepView::Alloc { scratch, elem, len, failure } => StepView::Alloc {
                scratch: self.base.wrapping_add(scratch),
                elem,
                len,
                failure,
            },
            StepView::Encode { scratch, maps } => StepView::Encode {
                scratch: self.base.wrapping_add(scratch),
                maps: maps.map_values(|m: TensorMapView| self.map(m)),
            },
            StepView::Zero { slot } => StepView::Zero { slot: self.slot(slot).slot },
            StepView::Copy { from, to, len } => StepView::Copy {
                from: self.place(from),
                to: self.place(to),
                len,
            },
            StepView::Exchange { from, to, len, send_to, recv_from } => StepView::Exchange {
                from: self.place(from),
                to: self.place(to),
                len,
                send_to,
                recv_from,
            },
            StepView::Dequant { from, to, n, scale } => StepView::Dequant {
                from: self.place(from),
                to: self.place(to),
                n,
                scale,
            },
            StepView::Launch(l) => StepView::Launch(self.launch(l)),
        }
    }
}

impl Binding {
    fn bind_slot(&self, s: Slot) -> (r: Place)
        ensures
            r == self@.slot(s),
    {
        match s {
            Slot::Param(i) => {
                if (i as u64) < self.places.len() as u64 {
                    self.places[i as usize]
                } else {
                    Place { slot: s, start: 0 }
                }
            },
            Slot::Scratch(i) => Place { slot: Slot::Scratch(self.base.wrapping_add(i)), start: 0 },
        }
    }

    fn bind_place(&self, p: Place) -> (r: Place)
        ensures
            r == self@.place(p),
    {
        let at = self.bind_slot(p.slot);
        Place { slot: at.slot, start: at.start.wrapping_add(p.start) }
    }

    fn bind_args(&self, args: &Vec<Arg>) -> (r: Vec<Arg>)
        ensures
            r@ == args@.map_values(|a: Arg| self@.arg(a)),
    {
        let mut out: Vec<Arg> = Vec::new();
        let mut i: usize = 0;
        while i < args.len()
            invariant
                i <= args.len(),
                out@ == args@.take(i as int).map_values(|a: Arg| self@.arg(a)),
            decreases args.len() - i,
        {
            let a = match args[i] {
                Arg::Buffer(p) => Arg::Buffer(self.bind_place(p)),
                other => other,
            };
            out.push(a);
            i = i + 1;
            assert(out@ =~= args@.take(i as int).map_values(|a: Arg| self@.arg(a)));
        }
        assert(args@.take(i as int) =~= args@);
        out
    }

    fn bind_map(&self, m: TensorMap) -> (r: TensorMap)
        ensures
            r@ == self@.map(m@),
    {
        let mut m = m;
        m.base = self.bind_place(m.base);
        m
    }

    fn bind_maps(&self, maps: Vec<TensorMap>) -> (r: Vec<TensorMap>)
        ensures
            plan::maps(r@) == plan::maps(maps@).map_values(|m: TensorMapView| self@.map(m)),
    {
        let ghost before = maps@;
        let mut maps = maps;
        let mut out: Vec<TensorMap> = Vec::new();
        while maps.len() > 0
            invariant
                maps@.len() + out@.len() == before.len(),
                maps@ == before.skip(out@.len() as int),
                plan::maps(out@) == plan::maps(before.take(out@.len() as int)).map_values(
                    |m: TensorMapView| self@.map(m),
                ),
            decreases maps.len(),
        {
            let ghost kept = out@;
            let m = maps.remove(0);
            let bound = self.bind_map(m);
            out.push(bound);
            proof {
                let n = out@.len() as int;
                assert(m == before.skip(n - 1)[0]);
                assert(maps@ =~= before.skip(n));
                assert(plan::maps(out@) =~= plan::maps(kept).push(self@.map(before[n - 1]@)));
                assert(before.take(n) =~= before.take(n - 1).push(before[n - 1]));
                assert(plan::maps(out@) =~= plan::maps(before.take(n)).map_values(
                    |m: TensorMapView| self@.map(m),
                ));
            }
        }
        assert(before.take(out@.len() as int) =~= before);
        out
    }

    /// A launch of the part, for the whole.
    pub fn bind_launch(&self, l: Launch) -> (r: Launch)
        ensures
            r@ == self@.launch(l@),
    {
        let mut l = l;
        l.args = self.bind_args(&l.args);
        let maps = l.tensor_maps;
        l.tensor_maps = self.bind_maps(maps);
        l
    }

    /// A step of the part, for the whole.
    pub fn bind_step(&self, s: Step) -> (r: Step)
        ensures
            r@ == self@.step(s@),
    {
        match s {
            Step::Load { kernel, entry } => Step::Load { kernel, entry },
            Step::Alloc { scratch, elem, len, failure } => Step::Alloc {
                scratch: self.base.wrapping_add(scratch),
                elem,
                len,
                failure,
            },
            Step::Encode { scratch, maps } => Step::Encode {
                scratch: self.base.wrapping_add(scratch),
                maps: self.bind_maps(maps),
            },
            Step::Zero { slot } => Step::Zero { slot: self.bind_slot(slot).slot },
            Step::Copy { from, to, len } => Step::Copy {
                from: self.bind_place(from),
                to: self.bind_place(to),
                len,
            },
            Step::Exchange { from, to, len, send_to, recv_from } => Step::Exchange {
                from: self.bind_place(from),
                to: self.bind_place(to),
                len,
                send_to,
                recv_from,
            },
            Step::Dequant { from, to, n, scale } => Step::Dequant {
                from: self.bind_place(from),
                to: self.bind_place(to),
                n,
                scale,
            },
            Step::Launch(l) => Step::Launch(self.bind_launch(l)),
        }
    }
}

impl ProgramView {
    /// Nothing to do.
    pub open spec fn empty() -> ProgramView {
        ProgramView { steps: Seq::empty(), end: End::Done }
    }

    /// A request that is refused at once for the reason `msg`.
    pub open spec fn invalid(msg: Seq<char>) -> ProgramView {
        ProgramView { steps: Seq::empty(), end: End::Fail(Fault::InvalidArgument(msg)) }
    }

    /// A request that is not to be made.
    pub open spec fn undefined() -> ProgramView {
        ProgramView { steps: Seq::empty(), end: End::Undefined }
    }

    /// A single launch, on the program's own parameters.
    pub open spec fn single(p: Plan) -> ProgramView {
        match p {
            Plan::Launch(l) => ProgramView { steps: seq![StepView::Launch(l)], end: End::Done },
            Plan::Fail(f) => ProgramView { steps: Seq::empty(), end: End::Fail(f) },
            Plan::Undefined => ProgramView::undefined(),
        }
    }

    /// This program, and then the step `s`.
    pub open spec fn step(self, s: StepView) -> ProgramView {
        match self.end {
            End::Done => ProgramView { steps: self.steps.push(s), end: End::Done },
            _ => self,
        }
    }

    /// This program, and then the program `q` on the memory that `b` gives it.
    pub open spec fn then_run(self, q: ProgramView, b: BindingView) -> ProgramView {
        match self.end {
            End::Done => ProgramView {
                steps: self.steps + q.steps.map_values(|s: StepView| b.step(s)),
                end: q.end,
            },
            _ => self,
        }
    }

    /// This program, and then the planned launch on the memory that `places` gives it.
    pub open spec fn then_launch(self, p: Plan, places: Seq<Place>) -> ProgramView {
        match self.end {
            End::Done => match p {
                Plan::Launch(l) => ProgramView {
                    steps: self.steps.push(
                        StepView::Launch(BindingView { places, base: 0 }.launch(l)),
                    ),
                    end: End::Done,
                },
                Plan::Fail(f) => ProgramView { steps: self.steps, end: End::Fail(f) },
                Plan::Undefined => ProgramView { steps: self.steps, end: End::Undefined },
            },
            _ => self,
        }
    }
}

impl Program {
    /// Nothing to do.
    pub fn new() -> (r: Program)
        ensures
            r@ == ProgramView::empty(),
    {
        let r = Program { steps: Vec::new(), end: Ok(()) };
        assert(steps(r.steps@) =~= Seq::empty());
        r
    }

    /// A request that is refused at once.
    pub fn refused(reason: Text) -> (r: Program)
        ensures
            r@ == ProgramView::invalid(reason@),
    {
        let r = Program { steps: Vec::new(), end: reason.refuse() };
        assert(steps(r.steps@) =~= Seq::empty());
        r
    }

    /// A single launch, on the program's own parameters.
    pub fn of_launch(l: Result<Launch>) -> (r: Program)
        ensures
            r@ == ProgramView::single(plan::outcome(l)),
    {
        let mut steps: Vec<Step> = Vec::new();
        match l {
            Ok(l) => {
                steps.push(Step::Launch(l));
                let r = Program { steps, end: Ok(()) };
                assert(r@.steps =~= seq![StepView::Launch(l@)]);
                r
            },
            Err(e) => {
                let r = Program { steps, end: Err(e) };
                assert(r@.steps =~= Seq::empty());
                r
            },
        }
    }

    /// Adds a step to a program that has not ended yet.
    pub fn push(&mut self, s: Step)
        requires
            old(self)@.end is Done,
        ensures
            final(self)@ == old(self)@.step(s@),
    {
        self.steps.push(s);
        assert(self@.steps =~= old(self)@.steps.push(s@));
    }

    /// Adds a planned launch to a program that has not ended yet.
    pub fn launch(&mut self, l: Result<Launch>, places: Vec<Place>)
        requires
            old(self)@.end is Done,
        ensures
            final(self)@ == old(self)@.then_launch(plan::outcome(l), places@),
    {
        match l {
            Ok(l) => {
                let b = Binding { places, base: 0 };
                let bound = b.bind_launch(l);
                self.steps.push(Step::Launch(bound));
                assert(self@.steps =~= old(self)@.steps.push(StepView::Launch(bound@)));
            },
            Err(e) => {
                self.end = Err(e);
            },
        }
    }

    /// Adds the steps of another program, on the memory that `b` gives it, to a program that
    /// has not ended yet.
    pub fn run(&mut self, q: Program, b: Binding)
        requires
            old(self)@.end is Done,
        ensures
            final(self)@ == old(self)@.then_run(q@, b@),
    {
        let ghost before = q.steps@;
        let ghost start = self@.steps;
        let mut rest = q.steps;
        let ghost mut n: int = 0;
        while rest.len() > 0
            invariant
                0 <= n <= before.len(),
                rest@ == before.skip(n),
                steps(self.steps@) == start + steps(before.take(n)).map_values(
                    |s: StepView| b@.step(s),
                ),
                self.end == old(self).end,
            decreases rest.len(),
        {
            let ghost kept = self.steps@;
            let s = rest.remove(0);
            let bound = b.bind_step(s);
            self.steps.push(bound);
            proof {
                n = n + 1;
                assert(s == before.skip(n - 1)[0]);
                assert(rest@ =~= before.skip(n));
                assert(steps(self.steps@) =~= steps(kept).push(b@.step(before[n - 1]@)));
                assert(before.take(n) =~= before.take(n - 1).push(before[n - 1]));
                assert(steps(self.steps@) =~= start + steps(before.take(n)).map_values(
                    |s: StepView| b@.step(s),
                ));
            }
        }
        assert(before.take(n) =~= before);
        self.end = q.end;
    }
}

impl Step {
    /// The error for memory that could not be allocated.
    pub fn alloc_error(failure: Option<&'static str>, driver: DriverError) -> (r: SparkError)
        ensures
            r@ == match failure {
                Some(told) => Fault::LaunchFailed(told@ + driver.text@),
                None => Fault::Driver { code: driver.code as int, text: driver.text@ },
            },
    {
        match failure {
            Some(told) => SparkError::LaunchFailed(
                Text::new(told).s(driver.text.as_str()).done(),
            ),
            None => SparkError::Driver(driver),
        }
    }
}

} // verus!
