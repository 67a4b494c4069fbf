//! Requests whose data passes through the host.
//!
//! Such a request is a dialogue: it asks for one [`Action`] at a time, and goes on with the
//! [`Event`] that tells what came of it. An action that the device refuses ends the request, with
//! the error that the action tells.
use crate::error::{DriverError, Fault, Result, SparkError};
use crate::plan::{F32, Slot};
use crate::program;
use crate::program::{End, Step, StepView};
use crate::text::Text;
use vstd::prelude::*;

verus! {

/// What a request asks for. Where a copy fails, the error is `failure` and the driver's error.
#[derive(Debug, PartialEq, Eq)]
pub enum Action {
    /// A device step.
    Run(Step),
    /// The two-byte elements of a device buffer.
    ReadHalves { slot: Slot, failure: &'static str },
    /// The signed numbers in a device buffer.
    ReadIndices { slot: Slot, failure: &'static str },
    /// The single-precision numbers in a device buffer.
    ReadScores { slot: Slot, failure: &'static str },
    /// Two-byte elements to be copied to the start of a device buffer.
    WriteHalves { slot: Slot, data: Vec<u16>, failure: &'static str },
    /// Signed numbers to be copied to the start of a device buffer.
    WriteIndices { slot: Slot, indices: Vec<i32>, failure: &'static str },
    /// Nothing more: the request has ended.
    Finish(Result<()>),
}

/// An [`Action`] by its contents.
#[verifier::ext_equal]
pub enum ActionView {
    Run(StepView),
    ReadHalves { slot: Slot, failure: Seq<char> },
    ReadIndices { slot: Slot, failure: Seq<char> },
    ReadScores { slot: Slot, failure: Seq<char> },
    WriteHalves { slot: Slot, data: Seq<u16>, failure: Seq<char> },
    WriteIndices { slot: Slot, indices: Seq<i32>, failure: Seq<char> },
    Finish(End),
}

/// What came of an action.
#[derive(Debug, PartialEq, Eq)]
pub enum Event {
    /// It was carried out.
    Done,
    /// Two-byte elements were read.
    Halves(Vec<u16>),
    /// Signed numbers were read.
    Indices(Vec<i32>),
    /// Single-precision numbers were read.
    Scores(Vec<F32>),
}

/// An [`Event`] by its contents.
#[verifier::ext_equal]
pub enum EventView {
    Done,
    Halves(Seq<u16>),
    Indices(Seq<i32>),
    Scores(Seq<F32>),
}

impl View for Action {
    type V = ActionView;

    open spec fn view(&self) -> ActionView {
        match *self {
            Action::Run(s) => ActionView::Run(s@),
            Action::ReadHalves { slot, failure } => ActionView::ReadHalves {
                slot,
                failure: failure@,
            },
            Action::ReadIndices { slot, failure } => ActionView::ReadIndices {
                slot,
                failure: failure@,
            },
            Action::ReadScores { slot, failure } => ActionView::ReadScores {
                slot,
                failure: failure@,
            },
            Action::WriteHalves { slot, data, failure } => ActionView::WriteHalves {
                slot,
                data: data@,
                failure: failure@,
            },
            Action::WriteIndices { slot, indices, failure } => ActionView::WriteIndices {
                slot,
                indices: indices@,
                failure: failure@,
            },
            Action::Finish(r) => ActionView::Finish(program::end(r)),
        }
    }
}

impl View for Event {
    type V = EventView;

    open spec fn view(&self) -> EventView {
        match *self {
            Event::Done => EventView::Done,
            Event::Halves(d) => EventView::Halves(d@),
            Event::Indices(d) => EventView::Indices(d@),
            Event::Scores(d) => EventView::Scores(d@),
        }
    }
}

impl Action {
    /// The error for a copy that the driver did not carry out.
    pub fn copy_error(failure: &'static str, driver: DriverError) -> (r: SparkError)
        ensures
            r@ == Fault::LaunchFailed(failure@ + driver.text@),
    {
        SparkError::LaunchFailed(Text::new(failure).s(driver.text.as_str()).done())
    }
}

} // verus!
