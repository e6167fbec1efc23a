//! The scan controller: the state machine in executable form.
//!
//! The controller does nothing by itself. Each step takes what just happened
//! and answers with a directive: fetch, measure, sleep, draw, or halt. The
//! caller carries the directive out and comes back with its result.

use crate::config::{setup_check, ScanConfig, SetupError};
use crate::encoding::{encode_window, padded_len};
use crate::entropy::{is_anomalous, EntropySample};
use crate::history::RollingHistory;
use crate::machine::{
    fetched, init, lemma_cycles_are_counted, measured, step, tick, ControllerView,
};
use crate::protocol::{Directive, Event, FatalKind, PauseReason, Phase, Report, Stage};
use crate::source::{FetchOutcome, FetchRequest};
use crate::store::{first_cursor, initial_cursor, SavedState};
use vstd::prelude::*;

verus! {

/// The controller of one scan.
#[derive(Debug)]
pub struct Controller {
    config: ScanConfig,
    encoded_len: usize,
    start: u64,
    cursor: u64,
    completed: u64,
    latest: EntropySample,
    stage: Stage,
    history: RollingHistory,
    window: String,
    payload: Vec<u8>,
}

impl View for Controller {
    type V = ControllerView;

    closed spec fn view(&self) -> ControllerView {
        ControllerView {
            config: self.config,
            start: self.start,
            cursor: self.cursor,
            completed: self.completed,
            latest: self.latest,
            stage: self.stage,
            history: self.history@,
            window: self.window@,
            payload: self.payload@,
        }
    }
}

impl Controller {
    #[verifier::type_invariant]
    spec fn inv(self) -> bool {
        &&& self@.wf()
        &&& self.encoded_len == self@.encoded_len()
    }

    /// Sets up a scan. It starts at `explicit` if there is one, else at the
    /// cursor of `saved` if there is one, else at the default of `config`.
    pub fn new(
        config: ScanConfig,
        explicit: Option<u64>,
        saved: Option<SavedState>,
    ) -> (r: Result<Controller, SetupError>)
        ensures
            r is Ok <==> setup_check(config, first_cursor(explicit, saved, config.default_start))
                is Ok,
            r is Ok ==> r->Ok_0@ == init(
                config,
                first_cursor(explicit, saved, config.default_start),
            ),
            r is Ok ==> r->Ok_0@.wf(),
            r is Err ==> setup_check(config, first_cursor(explicit, saved, config.default_start))
                == Err::<(), SetupError>(r->Err_0),
    {
        let start: u64 = initial_cursor(explicit, saved, config.default_start);
        if config.window_length == 0 {
            Err(SetupError::EmptyWindow)
        } else if config.persist_interval == 0 {
            Err(SetupError::NoPersistInterval)
        } else if start > u64::MAX - config.window_length {
            Err(SetupError::StartTooLarge)
        } else {
            let controller = Controller {
                config,
                encoded_len: padded_len(config.window_length),
                start,
                cursor: start,
                completed: 0,
                latest: EntropySample::one(),
                stage: Stage::Idle,
                history: RollingHistory::new(config.history_len),
                window: String::new(),
                payload: Vec::new(),
            };
            assert(controller@ =~= init(config, start));
            proof {
                use_type_invariant(&controller);
            }
            Ok(controller)
        }
    }

    /// The parameters of the scan.
    pub fn config(&self) -> (config: ScanConfig)
        ensures
            config == self@.config,
    {
        self.config
    }

    /// The offset of the window that is next, or now, being scanned.
    pub fn cursor(&self) -> (cursor: u64)
        ensures
            cursor == self@.cursor,
    {
        self.cursor
    }

    /// The number of cycles completed.
    pub fn completed(&self) -> (completed: u64)
        ensures
            completed == self@.completed,
    {
        self.completed
    }

    /// The entropy measured last; one before any was measured.
    pub fn latest(&self) -> (sample: EntropySample)
        ensures
            sample == self@.latest,
    {
        self.latest
    }

    /// Where in its cycle the scan stands.
    pub fn stage(&self) -> (stage: Stage)
        ensures
            stage == self@.stage,
    {
        self.stage
    }

    /// Whether the scan runs, waits, or has ended.
    pub fn phase(&self) -> (phase: Phase)
        ensures
            phase == self@.stage.phase(),
    {
        self.stage.phase()
    }

    /// The rolling history.
    pub fn history(&self) -> (history: &RollingHistory)
        ensures
            history@ == self@.history,
    {
        &self.history
    }

    /// The digits of the window being measured, of the anomalous window, or
    /// of the payload that is no number; empty otherwise.
    pub fn window(&self) -> (digits: &String)
        ensures
            digits@ == self@.window,
    {
        &self.window
    }

    /// The raw body of a malformed answer; empty otherwise.
    pub fn payload(&self) -> (body: &Vec<u8>)
        ensures
            body@ == self@.payload,
    {
        &self.payload
    }

    /// The number of bytes in which each window is encoded.
    pub fn encoded_len(&self) -> (len: usize)
        ensures
            len == self@.encoded_len(),
    {
        proof {
            use_type_invariant(self);
        }
        self.encoded_len
    }

    /// Takes one step: the controller after `event`, and the directive that
    /// says what to do now. Every controller is well formed, before the step
    /// and after it.
    pub fn step(self, event: Event) -> (r: (Controller, Directive))
        ensures
            self@.wf(),
            r.0@.wf(),
            r.0@ == step(self@, event@).0,
            r.1@ == step(self@, event@).1,
    {
        proof {
            use_type_invariant(&self);
        }
        let r = match self.stage {
            Stage::Terminated(report) => (self, Directive::Halt(report)),
            Stage::Idle => match event {
                Event::Tick { stop_requested } => self.tick(stop_requested),
                _ => (self, Directive::OutOfTurn),
            },
            Stage::Fetching => match event {
                Event::Fetched(outcome) => self.fetched(outcome),
                _ => (self, Directive::OutOfTurn),
            },
            Stage::Measuring => match event {
                Event::Measured(sample) => self.measured(sample),
                _ => (self, Directive::OutOfTurn),
            },
            Stage::Paused(_) => match event {
                Event::Woke => {
                    let next = Controller { stage: Stage::Idle, ..self };
                    assert(next@ =~= step(self@, event@).0);
                    (next, Directive::Proceed)
                },
                _ => (self, Directive::OutOfTurn),
            },
        };
        proof {
            use_type_invariant(&r.0);
        }
        r
    }

    fn tick(self, stop_requested: bool) -> (r: (Controller, Directive))
        requires
            self@.stage == Stage::Idle,
        ensures
            r.0@ == tick(self@, stop_requested).0,
            r.1@ == tick(self@, stop_requested).1,
    {
        proof {
            use_type_invariant(&self);
        }
        if stop_requested {
            let report = Report::UserStopped { cursor: self.cursor };
            let next = Controller { stage: Stage::Terminated(report), ..self };
            assert(next@ =~= tick(self@, stop_requested).0);
            (next, Directive::Halt(report))
        } else {
            let save = if self.completed % self.config.persist_interval == 0 {
                Some(SavedState::new(self.cursor))
            } else {
                None
            };
            let request = FetchRequest {
                offset: self.cursor,
                length: self.config.window_length,
                timeout_secs: self.config.fetch_timeout_secs,
            };
            let next = Controller { stage: Stage::Fetching, ..self };
            assert(next@ =~= tick(self@, stop_requested).0);
            (next, Directive::Fetch { save, request })
        }
    }

    fn fetched(self, outcome: FetchOutcome) -> (r: (Controller, Directive))
        requires
            self@.stage == Stage::Fetching,
        ensures
            r.0@ == fetched(self@, outcome@).0,
            r.1@ == fetched(self@, outcome@).1,
    {
        proof {
            use_type_invariant(&self);
        }
        match outcome {
            FetchOutcome::RateLimited => {
                let seconds: u64 = self.config.rate_limit_cooldown_secs;
                let next = Controller { stage: Stage::Paused(PauseReason::RateLimit), ..self };
                assert(next@ =~= fetched(self@, outcome@).0);
                (next, Directive::Sleep { reason: PauseReason::RateLimit, seconds })
            },
            FetchOutcome::TransientError => {
                let seconds: u64 = self.config.transient_cooldown_secs;
                let next = Controller { stage: Stage::Paused(PauseReason::TransientError), ..self };
                assert(next@ =~= fetched(self@, outcome@).0);
                (next, Directive::Sleep { reason: PauseReason::TransientError, seconds })
            },
            FetchOutcome::FatalError(body) => {
                let report = Report::Fatal(FatalKind::MalformedPayload);
                let next = Controller { stage: Stage::Terminated(report), payload: body, ..self };
                assert(next@ =~= fetched(self@, outcome@).0);
                (next, Directive::Halt(report))
            },
            FetchOutcome::Success(digits) => {
                match encode_window(digits.as_str(), self.encoded_len) {
                    Some(bytes) => {
                        let next = Controller { stage: Stage::Measuring, window: digits, ..self };
                        assert(next@ =~= fetched(self@, outcome@).0);
                        (next, Directive::Measure { bytes })
                    },
                    None => {
                        let report = Report::Fatal(FatalKind::NotDecimal);
                        let next = Controller {
                            stage: Stage::Terminated(report),
                            window: digits,
                            ..self
                        };
                        assert(next@ =~= fetched(self@, outcome@).0);
                        (next, Directive::Halt(report))
                    },
                }
            },
        }
    }

    fn measured(self, sample: EntropySample) -> (r: (Controller, Directive))
        requires
            self@.stage == Stage::Measuring,
        ensures
            r.0@ == measured(self@, sample).0,
            r.1@ == measured(self@, sample).1,
    {
        proof {
            use_type_invariant(&self);
        }
        let length: u64 = self.config.window_length;
        let cursor: u64 = self.cursor;
        if is_anomalous(sample, self.config.threshold) {
            let report = Report::AnomalyFound {
                start: cursor,
                end: cursor + length,
                entropy: sample,
            };
            let next = Controller { stage: Stage::Terminated(report), latest: sample, ..self };
            assert(next@ =~= measured(self@, sample).0);
            (next, Directive::Halt(report))
        } else {
            let mut history = self.history;
            history.push(sample);
            let drawn = Directive::Render { cursor, entropy: sample };
            if cursor < length {
                let next = Controller {
                    stage: Stage::Terminated(Report::RangeExhausted { cursor }),
                    latest: sample,
                    history,
                    window: String::new(),
                    config: self.config,
                    encoded_len: self.encoded_len,
                    start: self.start,
                    cursor: self.cursor,
                    completed: self.completed,
                    payload: self.payload,
                };
                assert(next@ =~= measured(self@, sample).0);
                (next, drawn)
            } else {
                proof {
                    lemma_cycles_are_counted(self@);
                }
                let next = Controller {
                    stage: Stage::Idle,
                    cursor: cursor - length,
                    completed: self.completed + 1,
                    latest: sample,
                    history,
                    window: String::new(),
                    config: self.config,
                    encoded_len: self.encoded_len,
                    start: self.start,
                    payload: self.payload,
                };
                assert(next@ =~= measured(self@, sample).0);
                (next, drawn)
            }
        }
    }
}

} // verus!
