//! The scan as a state machine over mathematical values: what a controller
//! is, how it starts, and what each event makes of it.
//!
//! A cycle runs from one reading of the stop flag to the next. In between
//! the window at the cursor is fetched, encoded, measured and judged, and
//! the cursor moves down by one window. A fetch that fails is followed by a
//! pause and, in the next cycle, by the same fetch again.

use crate::bignum::is_decimal_literal;
use crate::config::ScanConfig;
use crate::encoding::{target_len, window_encoding};
use crate::entropy::{anomalous, EntropySample, ONE_BITS};
use crate::history::{blank, rolled};
use crate::protocol::{DirectiveView, EventView, FatalKind, PauseReason, Report, Stage};
use crate::source::{FetchRequest, OutcomeView};
use crate::store::SavedState;
use vstd::prelude::*;

verus! {

/// A controller as a mathematical value.
#[verifier::ext_equal]
pub ghost struct ControllerView {
    pub config: ScanConfig,
    /// The cursor at which the scan started.
    pub start: u64,
    /// The offset of the window that is next, or now, being scanned.
    pub cursor: u64,
    /// The number of cycles completed: windows fetched, measured, found
    /// unremarkable and left behind.
    pub completed: u64,
    /// The entropy measured last; one before any was measured.
    pub latest: EntropySample,
    pub stage: Stage,
    /// The rolling history, as bit patterns, oldest first.
    pub history: Seq<u32>,
    /// The digits of the window being measured, of the anomalous window, or
    /// of the payload that is no number; empty otherwise.
    pub window: Seq<char>,
    /// The raw body of a malformed answer; empty otherwise.
    pub payload: Seq<u8>,
}

impl ControllerView {
    /// What holds of every controller: the configuration is valid, each
    /// completed cycle has moved the cursor down by one window, a window at
    /// the start offset ends within the offsets, the history has its slots,
    /// and what is kept fits the stage.
    pub open spec fn wf(self) -> bool {
        &&& self.config.valid()
        &&& self.cursor + self.completed * self.config.window_length == self.start
        &&& self.start + self.config.window_length <= u64::MAX
        &&& self.history.len() == self.config.history_len
        &&& self.stage_fits()
    }

    /// What is kept at each stage. Digits are kept while they are measured
    /// and after they ended the scan, a raw body after it ended the scan,
    /// and nothing else. A report speaks of the cursor as it stands: a
    /// reported anomaly is the window at the cursor with the entropy
    /// measured last, and a scan is exhausted where no window fits below.
    pub open spec fn stage_fits(self) -> bool {
        match self.stage {
            Stage::Idle | Stage::Fetching | Stage::Paused(_) => {
                &&& self.window.len() == 0
                &&& self.payload.len() == 0
            },
            Stage::Measuring => {
                &&& is_decimal_literal(self.window)
                &&& self.payload.len() == 0
            },
            Stage::Terminated(Report::UserStopped { cursor }) => {
                &&& cursor == self.cursor
                &&& self.window.len() == 0
                &&& self.payload.len() == 0
            },
            Stage::Terminated(Report::Fatal(FatalKind::MalformedPayload)) => {
                self.window.len() == 0
            },
            Stage::Terminated(Report::Fatal(FatalKind::NotDecimal)) => {
                &&& !is_decimal_literal(self.window)
                &&& self.payload.len() == 0
            },
            Stage::Terminated(Report::AnomalyFound { start, end, entropy }) => {
                &&& start == self.cursor
                &&& end == self.cursor + self.config.window_length
                &&& entropy == self.latest
                &&& anomalous(entropy, self.config.threshold)
                &&& is_decimal_literal(self.window)
                &&& self.payload.len() == 0
            },
            Stage::Terminated(Report::RangeExhausted { cursor }) => {
                &&& cursor == self.cursor
                &&& self.cursor < self.config.window_length
                &&& self.window.len() == 0
                &&& self.payload.len() == 0
            },
        }
    }

    /// A save is due at the start of a cycle when the number of completed
    /// cycles is a multiple of the save interval.
    pub open spec fn save_due(self) -> bool {
        self.completed % self.config.persist_interval == 0
    }

    /// The query for the window at the cursor.
    pub open spec fn request(self) -> FetchRequest {
        FetchRequest {
            offset: self.cursor,
            length: self.config.window_length,
            timeout_secs: self.config.fetch_timeout_secs,
        }
    }

    /// The number of bytes in which each window is encoded.
    pub open spec fn encoded_len(self) -> nat {
        target_len(self.config.window_length as nat)
    }
}

/// The controller of a scan that starts at `start`.
pub open spec fn init(config: ScanConfig, start: u64) -> ControllerView {
    ControllerView {
        config,
        start,
        cursor: start,
        completed: 0,
        latest: EntropySample::of_bits(ONE_BITS),
        stage: Stage::Idle,
        history: blank(config.history_len as nat),
        window: Seq::empty(),
        payload: Seq::empty(),
    }
}

/// The start of a cycle. A stop request ends the scan. Otherwise the window
/// at the cursor is fetched, after a save of the cursor where one is due.
pub open spec fn tick(v: ControllerView, stop_requested: bool) -> (ControllerView, DirectiveView) {
    if stop_requested {
        let report = Report::UserStopped { cursor: v.cursor };
        (ControllerView { stage: Stage::Terminated(report), ..v }, DirectiveView::Halt(report))
    } else {
        (
            ControllerView { stage: Stage::Fetching, ..v },
            DirectiveView::Fetch {
                save: if v.save_due() {
                    Some(SavedState { digit_start: v.cursor })
                } else {
                    None
                },
                request: v.request(),
            },
        )
    }
}

/// The end of a fetch. A rate limit and a transient error each lead to a
/// pause of their own length, with nothing else changed. A fatal error ends
/// the scan, and so does a payload that is no decimal number. Digits are
/// encoded and handed out to be measured.
pub open spec fn fetched(v: ControllerView, outcome: OutcomeView) -> (
    ControllerView,
    DirectiveView,
) {
    match outcome {
        OutcomeView::RateLimited => (
            ControllerView { stage: Stage::Paused(PauseReason::RateLimit), ..v },
            DirectiveView::Sleep {
                reason: PauseReason::RateLimit,
                seconds: v.config.rate_limit_cooldown_secs,
            },
        ),
        OutcomeView::TransientError => (
            ControllerView { stage: Stage::Paused(PauseReason::TransientError), ..v },
            DirectiveView::Sleep {
                reason: PauseReason::TransientError,
                seconds: v.config.transient_cooldown_secs,
            },
        ),
        OutcomeView::FatalError(body) => {
            let report = Report::Fatal(FatalKind::MalformedPayload);
            (
                ControllerView { stage: Stage::Terminated(report), payload: body, ..v },
                DirectiveView::Halt(report),
            )
        },
        OutcomeView::Success(digits) => {
            if is_decimal_literal(digits) {
                (
                    ControllerView { stage: Stage::Measuring, window: digits, ..v },
                    DirectiveView::Measure { bytes: window_encoding(digits, v.encoded_len()) },
                )
            } else {
                let report = Report::Fatal(FatalKind::NotDecimal);
                (
                    ControllerView { stage: Stage::Terminated(report), window: digits, ..v },
                    DirectiveView::Halt(report),
                )
            }
        },
    }
}

/// The end of a measurement. An anomalous sample ends the scan with the
/// range of the window. Any other sample enters the history and is drawn;
/// then the cursor moves down by one window, or the scan ends where there
/// is no room for that.
pub open spec fn measured(v: ControllerView, sample: EntropySample) -> (
    ControllerView,
    DirectiveView,
) {
    if anomalous(sample, v.config.threshold) {
        let report = Report::AnomalyFound {
            start: v.cursor,
            end: (v.cursor + v.config.window_length) as u64,
            entropy: sample,
        };
        (
            ControllerView { stage: Stage::Terminated(report), latest: sample, ..v },
            DirectiveView::Halt(report),
        )
    } else {
        let drawn = DirectiveView::Render { cursor: v.cursor, entropy: sample };
        let history = rolled(v.history, sample.bits());
        if v.cursor < v.config.window_length {
            (
                ControllerView {
                    stage: Stage::Terminated(Report::RangeExhausted { cursor: v.cursor }),
                    latest: sample,
                    history,
                    window: Seq::empty(),
                    ..v
                },
                drawn,
            )
        } else {
            (
                ControllerView {
                    stage: Stage::Idle,
                    cursor: (v.cursor - v.config.window_length) as u64,
                    completed: (v.completed + 1) as u64,
                    latest: sample,
                    history,
                    window: Seq::empty(),
                    ..v
                },
                drawn,
            )
        }
    }
}

/// While a window fits below the cursor, the count of completed cycles has
/// room to grow: it is below the start offset.
pub proof fn lemma_cycles_are_counted(v: ControllerView)
    requires
        v.wf(),
        v.cursor >= v.config.window_length,
    ensures
        v.completed < v.start,
        (v.completed + 1) * v.config.window_length == v.completed * v.config.window_length
            + v.config.window_length,
{
    let length = v.config.window_length;
    assert(v.completed < v.start && (v.completed + 1) * length == v.completed * length + length)
        by (nonlinear_arith)
        requires
            length >= 1,
            v.cursor >= length,
            v.cursor + v.completed * length == v.start,
    ;
}

/// One step of the scan: the controller after `event`, and the directive
/// that answers it. An ended scan answers every event with its report. An
/// event other than the one awaited changes nothing.
pub open spec fn step(v: ControllerView, event: EventView) -> (ControllerView, DirectiveView) {
    match v.stage {
        Stage::Terminated(report) => (v, DirectiveView::Halt(report)),
        Stage::Idle => match event {
            EventView::Tick { stop_requested } => tick(v, stop_requested),
            _ => (v, DirectiveView::OutOfTurn),
        },
        Stage::Fetching => match event {
            EventView::Fetched(outcome) => fetched(v, outcome),
            _ => (v, DirectiveView::OutOfTurn),
        },
        Stage::Measuring => match event {
            EventView::Measured(sample) => measured(v, sample),
            _ => (v, DirectiveView::OutOfTurn),
        },
        Stage::Paused(_) => match event {
            EventView::Woke => (ControllerView { stage: Stage::Idle, ..v }, DirectiveView::Proceed),
            _ => (v, DirectiveView::OutOfTurn),
        },
    }
}

} // verus!
