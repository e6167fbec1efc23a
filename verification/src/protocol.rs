//! The words that a controller and its caller exchange: the events that
//! the caller reports, the directives that the controller answers with, and
//! the stages that a scan goes through.

use crate::entropy::EntropySample;
use crate::source::{FetchOutcome, FetchRequest, OutcomeView};
use crate::store::SavedState;
use vstd::prelude::*;

verus! {

/// Why a scan waits.
#[derive(Clone, Copy, Debug, PartialEq, Eq, Structural)]
pub enum PauseReason {
    RateLimit,
    TransientError,
}

/// How a scan ended.
#[derive(Clone, Copy, Debug, PartialEq, Eq, Structural)]
pub enum Outcome {
    UserStopped,
    Fatal,
    AnomalyFound,
    RangeExhausted,
}

/// The state of a scan as seen from outside.
#[derive(Clone, Copy, Debug, PartialEq, Eq, Structural)]
pub enum Phase {
    Running,
    Paused(PauseReason),
    Terminated(Outcome),
}

/// What made an answer unusable.
#[derive(Clone, Copy, Debug, PartialEq, Eq, Structural)]
pub enum FatalKind {
    /// The body lacks the expected structure; the controller keeps the body.
    MalformedPayload,
    /// The payload is no decimal number; the controller keeps the payload.
    NotDecimal,
}

/// What there is to say once a scan has ended.
#[derive(Clone, Copy, Debug, PartialEq, Eq, Structural)]
pub enum Report {
    /// The stop signal was seen with the cursor at `cursor`.
    UserStopped { cursor: u64 },
    /// An answer could not be used.
    Fatal(FatalKind),
    /// The window of digits from `start` up to but not including `end` has
    /// the anomalous entropy `entropy`; the controller keeps the window.
    AnomalyFound { start: u64, end: u64, entropy: EntropySample },
    /// The window at `cursor` was the last one: there is no room below it
    /// for another.
    RangeExhausted { cursor: u64 },
}

impl Report {
    /// The kind of ending that the report is about.
    pub open spec fn spec_outcome(&self) -> Outcome {
        match *self {
            Report::UserStopped { .. } => Outcome::UserStopped,
            Report::Fatal(_) => Outcome::Fatal,
            Report::AnomalyFound { .. } => Outcome::AnomalyFound,
            Report::RangeExhausted { .. } => Outcome::RangeExhausted,
        }
    }

    /// The kind of ending that the report is about.
    #[verifier::when_used_as_spec(spec_outcome)]
    pub fn outcome(&self) -> (outcome: Outcome)
        ensures
            outcome == self.outcome(),
    {
        match *self {
            Report::UserStopped { .. } => Outcome::UserStopped,
            Report::Fatal(_) => Outcome::Fatal,
            Report::AnomalyFound { .. } => Outcome::AnomalyFound,
            Report::RangeExhausted { .. } => Outcome::RangeExhausted,
        }
    }

    /// The status with which the process ends: 1 after a fatal answer, 0
    /// after every other ending.
    pub fn exit_code(&self) -> (code: i32)
        ensures
            code == (if self.outcome() == Outcome::Fatal {
                1i32
            } else {
                0i32
            }),
    {
        match *self {
            Report::Fatal(_) => 1,
            _ => 0,
        }
    }
}

/// Where in its cycle a scan stands, which is also what it waits for.
#[derive(Clone, Copy, Debug, PartialEq, Eq, Structural)]
pub enum Stage {
    /// Between cycles: waiting for the stop flag to be read.
    Idle,
    /// Waiting for the outcome of a fetch.
    Fetching,
    /// Waiting for the entropy of the window just fetched.
    Measuring,
    /// Waiting for a cooldown to pass.
    Paused(PauseReason),
    /// Ended.
    Terminated(Report),
}

impl Stage {
    /// The phase that a stage belongs to.
    pub open spec fn spec_phase(&self) -> Phase {
        match *self {
            Stage::Idle | Stage::Fetching | Stage::Measuring => Phase::Running,
            Stage::Paused(reason) => Phase::Paused(reason),
            Stage::Terminated(report) => Phase::Terminated(report.outcome()),
        }
    }

    /// The phase that a stage belongs to.
    #[verifier::when_used_as_spec(spec_phase)]
    pub fn phase(&self) -> (phase: Phase)
        ensures
            phase == self.phase(),
    {
        match *self {
            Stage::Idle | Stage::Fetching | Stage::Measuring => Phase::Running,
            Stage::Paused(reason) => Phase::Paused(reason),
            Stage::Terminated(report) => Phase::Terminated(report.outcome()),
        }
    }
}

/// What happened since the last directive.
#[derive(Debug, PartialEq, Eq)]
pub enum Event {
    /// The stop flag was read.
    Tick { stop_requested: bool },
    /// The fetch ended.
    Fetched(FetchOutcome),
    /// The entropy of the window's bytes was measured.
    Measured(EntropySample),
    /// The cooldown has passed.
    Woke,
}

/// What to do next.
#[derive(Debug, PartialEq, Eq)]
pub enum Directive {
    /// Save `save` if there is one, then fetch as `request` says; come back
    /// with `Event::Fetched`.
    Fetch { save: Option<SavedState>, request: FetchRequest },
    /// Measure the entropy of `bytes`; come back with `Event::Measured`.
    Measure { bytes: Vec<u8> },
    /// Wait for `seconds` seconds; come back with `Event::Woke`.
    Sleep { reason: PauseReason, seconds: u64 },
    /// Draw the history, with the cursor and entropy of the cycle just
    /// completed; come back with `Event::Tick`.
    Render { cursor: u64, entropy: EntropySample },
    /// Nothing to do; come back with `Event::Tick`.
    Proceed,
    /// The scan has ended.
    Halt(Report),
    /// The event is not the one awaited. Nothing has changed.
    OutOfTurn,
}

/// An event as a mathematical value.
#[verifier::ext_equal]
pub ghost enum EventView {
    Tick { stop_requested: bool },
    Fetched(OutcomeView),
    Measured(EntropySample),
    Woke,
}

/// A directive as a mathematical value.
#[verifier::ext_equal]
pub ghost enum DirectiveView {
    Fetch { save: Option<SavedState>, request: FetchRequest },
    Measure { bytes: Seq<u8> },
    Sleep { reason: PauseReason, seconds: u64 },
    Render { cursor: u64, entropy: EntropySample },
    Proceed,
    Halt(Report),
    OutOfTurn,
}

impl View for Event {
    type V = EventView;

    open spec fn view(&self) -> EventView {
        match *self {
            Event::Tick { stop_requested } => EventView::Tick { stop_requested },
            Event::Fetched(outcome) => EventView::Fetched(outcome@),
            Event::Measured(sample) => EventView::Measured(sample),
            Event::Woke => EventView::Woke,
        }
    }
}

impl View for Directive {
    type V = DirectiveView;

    open spec fn view(&self) -> DirectiveView {
        match *self {
            Directive::Fetch { save, request } => DirectiveView::Fetch { save, request },
            Directive::Measure { bytes } => DirectiveView::Measure { bytes: bytes@ },
            Directive::Sleep { reason, seconds } => DirectiveView::Sleep { reason, seconds },
            Directive::Render { cursor, entropy } => DirectiveView::Render { cursor, entropy },
            Directive::Proceed => DirectiveView::Proceed,
            Directive::Halt(report) => DirectiveView::Halt(report),
            Directive::OutOfTurn => DirectiveView::OutOfTurn,
        }
    }
}

} // verus!
