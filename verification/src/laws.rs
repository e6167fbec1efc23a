//! What holds of every scan, proved over the controller's step function.

use crate::bignum::is_decimal_literal;
use crate::config::{setup_check, ScanConfig};
use crate::encoding::{law_encoding_has_target_len, target_len, window_encoding};
use crate::entropy::{anomalous, EntropySample};
use crate::machine::{init, lemma_cycles_are_counted, step, ControllerView};
use crate::protocol::{DirectiveView, EventView, PauseReason, Report, Stage};
use crate::source::{FetchRequest, OutcomeView};
use crate::store::{first_cursor, SavedState};
use vstd::prelude::*;

verus! {

/// The controller after a run of events, taken in order.
pub open spec fn run(v: ControllerView, events: Seq<EventView>) -> ControllerView
    decreases events.len(),
{
    if events.len() == 0 {
        v
    } else {
        step(run(v, events.drop_last()), events.last()).0
    }
}

/// The directives that answer a run of events, one for each event.
pub open spec fn trace(v: ControllerView, events: Seq<EventView>) -> Seq<DirectiveView>
    decreases events.len(),
{
    if events.len() == 0 {
        Seq::empty()
    } else {
        trace(v, events.drop_last()).push(
            step(run(v, events.drop_last()), events.last()).1,
        )
    }
}

/// An outcome that calls for a pause and a second attempt.
pub open spec fn retriable(outcome: OutcomeView) -> bool {
    outcome is RateLimited || outcome is TransientError
}

/// The pause that answers a retriable outcome.
pub open spec fn pause_for(config: ScanConfig, outcome: OutcomeView) -> DirectiveView {
    if outcome is RateLimited {
        DirectiveView::Sleep {
            reason: PauseReason::RateLimit,
            seconds: config.rate_limit_cooldown_secs,
        }
    } else {
        DirectiveView::Sleep {
            reason: PauseReason::TransientError,
            seconds: config.transient_cooldown_secs,
        }
    }
}

/// The fetch that starts a cycle of `v`.
pub open spec fn fetch_of(v: ControllerView) -> DirectiveView {
    DirectiveView::Fetch {
        save: if v.save_due() {
            Some(SavedState { digit_start: v.cursor })
        } else {
            None
        },
        request: v.request(),
    }
}

/// The events of failed attempts: for each outcome the outcome itself, the
/// end of the pause, and a reading of the stop flag that finds it clear.
pub open spec fn retry_events(outcomes: Seq<OutcomeView>) -> Seq<EventView>
    decreases outcomes.len(),
{
    if outcomes.len() == 0 {
        Seq::empty()
    } else {
        retry_events(outcomes.drop_last()) + seq![
            EventView::Fetched(outcomes.last()),
            EventView::Woke,
            EventView::Tick { stop_requested: false },
        ]
    }
}

/// The directives that failed attempts are answered with: for each outcome
/// its pause, a go-ahead, and the same fetch once more.
pub open spec fn retry_directives(v: ControllerView, outcomes: Seq<OutcomeView>) -> Seq<
    DirectiveView,
>
    decreases outcomes.len(),
{
    if outcomes.len() == 0 {
        Seq::empty()
    } else {
        retry_directives(v, outcomes.drop_last()) + seq![
            pause_for(v.config, outcomes.last()),
            DirectiveView::Proceed,
            fetch_of(v),
        ]
    }
}

/// A step keeps a controller well formed, never changes its configuration
/// or its start offset, and never raises its cursor.
pub proof fn law_step_keeps_order(v: ControllerView, event: EventView)
    requires
        v.wf(),
    ensures
        step(v, event).0.wf(),
        step(v, event).0.config == v.config,
        step(v, event).0.start == v.start,
        step(v, event).0.cursor <= v.cursor,
{
    if v.cursor >= v.config.window_length {
        lemma_cycles_are_counted(v);
    }
}

/// The same holds of a whole run: from its first step to its last the
/// cursor has moved down by one window for each completed cycle, and by
/// nothing else.
pub proof fn law_run_keeps_order(v: ControllerView, events: Seq<EventView>)
    requires
        v.wf(),
    ensures
        run(v, events).wf(),
        run(v, events).config == v.config,
        run(v, events).start == v.start,
        run(v, events).cursor <= v.cursor,
        run(v, events).cursor == v.start - run(v, events).completed * v.config.window_length,
    decreases events.len(),
{
    if events.len() > 0 {
        law_run_keeps_order(v, events.drop_last());
        law_step_keeps_order(run(v, events.drop_last()), events.last());
    }
}

/// Only a success is measured. A step hands bytes out to be measured only
/// when it is told of a successful fetch that was awaited, and the bytes
/// are then the encoding of the digits that the fetch brought.
pub proof fn law_only_success_is_measured(v: ControllerView, event: EventView)
    requires
        step(v, event).1 is Measure,
    ensures
        v.stage == Stage::Fetching,
        event is Fetched,
        event->Fetched_0 is Success,
        is_decimal_literal(event->Fetched_0->Success_0),
        step(v, event).1->Measure_bytes == window_encoding(
            event->Fetched_0->Success_0,
            v.encoded_len(),
        ),
        step(v, event).0.cursor == v.cursor,
{
}

/// Only a measurement moves the cursor. A step changes the cursor only when
/// it is told the entropy of the window that is being measured and that
/// entropy is no anomaly; the cursor then moves down by one window and one
/// more cycle is completed.
pub proof fn law_only_measurement_moves_cursor(v: ControllerView, event: EventView)
    requires
        v.wf(),
        step(v, event).0.cursor != v.cursor,
    ensures
        v.stage == Stage::Measuring,
        event is Measured,
        !anomalous(event->Measured_0, v.config.threshold),
        step(v, event).0.cursor == v.cursor - v.config.window_length,
        step(v, event).0.completed == v.completed + 1,
        step(v, event).1 == (DirectiveView::Render {
            cursor: v.cursor,
            entropy: event->Measured_0,
        }),
{
    if v.cursor >= v.config.window_length {
        lemma_cycles_are_counted(v);
    }
}

/// An ended scan stays ended. Whatever events follow, nothing changes and
/// every answer is the report of the ending.
pub proof fn law_ended_scan_stays_ended(v: ControllerView, events: Seq<EventView>)
    requires
        v.stage is Terminated,
    ensures
        run(v, events) == v,
        trace(v, events).len() == events.len(),
        forall|i: int|
            0 <= i < events.len() ==> #[trigger] trace(v, events)[i] == DirectiveView::Halt(
                v.stage->Terminated_0,
            ),
    decreases events.len(),
{
    if events.len() > 0 {
        law_ended_scan_stays_ended(v, events.drop_last());
    }
}

/// A run in two parts is the second part run from where the first one
/// ended, and its trace is the two traces in a row.
pub proof fn law_run_in_parts(v: ControllerView, first: Seq<EventView>, second: Seq<EventView>)
    ensures
        run(v, first + second) == run(run(v, first), second),
        trace(v, first + second) == trace(v, first) + trace(run(v, first), second),
    decreases second.len(),
{
    if second.len() == 0 {
        assert(first + second =~= first);
        assert(trace(v, first) + trace(run(v, first), second) =~= trace(v, first));
    } else {
        law_run_in_parts(v, first, second.drop_last());
        assert((first + second).drop_last() =~= first + second.drop_last());
        assert((first + second).last() == second.last());
        assert(trace(v, first + second) =~= trace(v, first) + trace(run(v, first), second));
    }
}

/// One failed attempt. A controller that awaits a fetch and is told of a
/// rate limit or a transient error asks for the pause of that outcome, then
/// lets the scan go on, then asks for the very same fetch again; after that
/// it is in every respect as it was before. The cursor has not moved and no
/// window was handed out to be measured.
pub proof fn law_retry_round(v: ControllerView, outcome: OutcomeView)
    requires
        v.stage == Stage::Fetching,
        retriable(outcome),
    ensures
        run(
            v,
            seq![
                EventView::Fetched(outcome),
                EventView::Woke,
                EventView::Tick { stop_requested: false },
            ],
        ) == v,
        trace(
            v,
            seq![
                EventView::Fetched(outcome),
                EventView::Woke,
                EventView::Tick { stop_requested: false },
            ],
        ) == seq![pause_for(v.config, outcome), DirectiveView::Proceed, fetch_of(v)],
{
    let e1 = EventView::Fetched(outcome);
    let e2 = EventView::Woke;
    let e3 = EventView::Tick { stop_requested: false };
    let events = seq![e1, e2, e3];
    let none = Seq::<EventView>::empty();
    assert(events.drop_last() =~= seq![e1, e2]);
    assert(seq![e1, e2].drop_last() =~= seq![e1]);
    assert(seq![e1].drop_last() =~= none);
    let v0 = run(v, none);
    assert(v0 == v);
    let v1 = run(v, seq![e1]);
    assert(v1 == step(v, e1).0);
    let v2 = run(v, seq![e1, e2]);
    assert(v2 == step(v1, e2).0);
    let v3 = run(v, events);
    assert(v3 == step(v2, e3).0);
    assert(v3 =~= v);
    assert(trace(v, none) =~= Seq::<DirectiveView>::empty());
    assert(trace(v, seq![e1]) =~= seq![pause_for(v.config, outcome)]);
    assert(trace(v, seq![e1, e2]) =~= seq![pause_for(v.config, outcome), DirectiveView::Proceed]);
    assert(trace(v, events) =~= seq![
        pause_for(v.config, outcome),
        DirectiveView::Proceed,
        fetch_of(v),
    ]);
}

/// Any number of failed attempts. However many rate limits and transient
/// errors come in a row, the controller answers each with its pause, a
/// go-ahead and the same fetch, and ends as it began: with one fetch asked
/// for each failure, all at the one cursor, and nothing measured.
pub proof fn law_retries_repeat_the_fetch(v: ControllerView, outcomes: Seq<OutcomeView>)
    requires
        v.stage == Stage::Fetching,
        forall|i: int| 0 <= i < outcomes.len() ==> retriable(#[trigger] outcomes[i]),
    ensures
        run(v, retry_events(outcomes)) == v,
        trace(v, retry_events(outcomes)) == retry_directives(v, outcomes),
    decreases outcomes.len(),
{
    if outcomes.len() > 0 {
        let earlier = outcomes.drop_last();
        let round = seq![
            EventView::Fetched(outcomes.last()),
            EventView::Woke,
            EventView::Tick { stop_requested: false },
        ];
        law_retries_repeat_the_fetch(v, earlier);
        law_run_in_parts(v, retry_events(earlier), round);
        law_retry_round(v, outcomes.last());
    }
}

/// After the failures, the success. The digits that arrive at last are
/// encoded in the target length and handed out to be measured, with the
/// cursor still where it was; it moves only when their entropy comes back
/// unremarkable, and then by one window.
pub proof fn law_success_after_retries(
    v: ControllerView,
    outcomes: Seq<OutcomeView>,
    digits: Seq<char>,
    sample: EntropySample,
)
    requires
        v.wf(),
        v.stage == Stage::Fetching,
        forall|i: int| 0 <= i < outcomes.len() ==> retriable(#[trigger] outcomes[i]),
        is_decimal_literal(digits),
    ensures
        ({
            let arrived = step(
                run(v, retry_events(outcomes)),
                EventView::Fetched(OutcomeView::Success(digits)),
            );
            let judged = step(arrived.0, EventView::Measured(sample));
            &&& arrived.1 == DirectiveView::Measure {
                bytes: window_encoding(digits, v.encoded_len()),
            }
            &&& arrived.0.cursor == v.cursor
            &&& arrived.0.stage == Stage::Measuring
            &&& !anomalous(sample, v.config.threshold) && v.cursor >= v.config.window_length
                ==> judged.0.cursor == v.cursor - v.config.window_length && judged.0.completed
                == v.completed + 1
        }),
{
    law_retries_repeat_the_fetch(v, outcomes);
    if v.cursor >= v.config.window_length {
        lemma_cycles_are_counted(v);
    }
}

/// The verdict on a sample. A measured window ends the scan as an anomaly
/// exactly when its entropy lies strictly between zero and the threshold,
/// and the report then names the window: from the cursor up to, and not
/// including, the cursor plus the window length. Zero never ends a scan as
/// an anomaly.
pub proof fn law_anomaly_verdict(v: ControllerView, sample: EntropySample)
    requires
        v.wf(),
        v.stage == Stage::Measuring,
    ensures
        ({
            let judged = step(v, EventView::Measured(sample));
            &&& anomalous(sample, v.config.threshold) <==> (judged.0.stage is Terminated
                && judged.0.stage->Terminated_0 is AnomalyFound)
            &&& anomalous(sample, v.config.threshold) ==> judged.1 == DirectiveView::Halt(
                Report::AnomalyFound {
                    start: v.cursor,
                    end: (v.cursor + v.config.window_length) as u64,
                    entropy: sample,
                },
            ) && judged.0.stage == Stage::Terminated(
                Report::AnomalyFound {
                    start: v.cursor,
                    end: (v.cursor + v.config.window_length) as u64,
                    entropy: sample,
                },
            ) && v.cursor + v.config.window_length <= u64::MAX
            &&& sample.bits() == 0 ==> !anomalous(sample, v.config.threshold)
        }),
{
    assert(v.cursor + v.config.window_length <= u64::MAX) by (nonlinear_arith)
        requires
            v.cursor + v.completed * v.config.window_length == v.start,
            v.start + v.config.window_length <= u64::MAX,
            v.completed >= 0,
            v.config.window_length >= 0,
    ;
}

/// The save at the start of a cycle. A cycle that starts with the stop flag
/// clear asks for a fetch at the cursor, and with it for a save exactly
/// when the number of completed cycles is a multiple of the save interval.
/// What is saved is the cursor that the cycle starts with, which is the one
/// that its fetch uses, and not the one that the cycle will leave behind.
pub proof fn law_save_carries_cursor(v: ControllerView)
    requires
        v.wf(),
        v.stage == Stage::Idle,
    ensures
        ({
            let begun = step(v, EventView::Tick { stop_requested: false });
            &&& begun.1 matches DirectiveView::Fetch { save, request }
            &&& request.offset == v.cursor
            &&& request.length == v.config.window_length
            &&& save is Some <==> v.completed % v.config.persist_interval == 0
            &&& save is Some ==> save->Some_0.digit_start == v.cursor
            &&& begun.0.cursor == v.cursor
        }),
{
}

/// The save after a number of cycles. Whatever has happened in a scan that
/// started at `start`, if it now stands between cycles with a multiple of
/// the save interval completed, the next cycle saves the start offset less
/// one window for each completed cycle: the cursor of that cycle.
pub proof fn law_save_after_interval(config: ScanConfig, start: u64, events: Seq<EventView>)
    requires
        setup_check(config, start) is Ok,
        run(init(config, start), events).stage == Stage::Idle,
        run(init(config, start), events).completed % config.persist_interval == 0,
    ensures
        ({
            let now = run(init(config, start), events);
            let begun = step(now, EventView::Tick { stop_requested: false });
            &&& now.cursor == start - now.completed * config.window_length
            &&& begun.1 == DirectiveView::Fetch {
                save: Some(SavedState { digit_start: now.cursor }),
                request: FetchRequest {
                    offset: now.cursor,
                    length: config.window_length,
                    timeout_secs: config.fetch_timeout_secs,
                },
            }
        }),
{
    law_init_is_well_formed(config, start);
    law_run_keeps_order(init(config, start), events);
}

/// A scan that can be set up starts well formed.
pub proof fn law_init_is_well_formed(config: ScanConfig, start: u64)
    requires
        setup_check(config, start) is Ok,
    ensures
        init(config, start).wf(),
{
    assert(0 * config.window_length == 0) by (nonlinear_arith);
}

/// Resuming. A scan set up with a saved cursor and no explicit start offset
/// asks for its first fetch at exactly the saved cursor.
pub proof fn law_resume_at_saved_cursor(config: ScanConfig, saved: SavedState)
    requires
        setup_check(config, saved.digit_start) is Ok,
    ensures
        ({
            let start = first_cursor(None, Some(saved), config.default_start);
            let begun = step(init(config, start), EventView::Tick { stop_requested: false });
            &&& start == saved.digit_start
            &&& begun.1 matches DirectiveView::Fetch { save, request }
            &&& request.offset == saved.digit_start
        }),
{
}

/// The length of what is measured. A payload of at most as many characters
/// as a window has digits is encoded in exactly the target length, however
/// many zeros it starts with.
pub proof fn law_measured_bytes_have_target_len(v: ControllerView, digits: Seq<char>)
    requires
        v.wf(),
        v.stage == Stage::Fetching,
        is_decimal_literal(digits),
        digits.len() <= v.config.window_length,
    ensures
        step(v, EventView::Fetched(OutcomeView::Success(digits))).1 matches DirectiveView::Measure {
            bytes,
        } && bytes.len() == target_len(v.config.window_length as nat),
{
    law_encoding_has_target_len(digits, v.config.window_length as nat);
}

} // verus!
