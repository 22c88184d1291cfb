//! The ingestion cycle as a state machine.
//!
//! One cycle runs a single forward path: compute the bucket, reserve a row,
//! fetch a snapshot, fill the row, report the id. Every outside step can
//! fail, and any failure is terminal for the cycle: nothing is retried,
//! nothing is rolled back, and the reserved row is left as it stands.
//!
//! The machine here makes every decision; the surrounding process only
//! performs the requested [`CycleAction`], feeds the outcome back as a
//! [`CycleEvent`], and steps the machine again. [`start_cycle`] opens a
//! cycle, [`step`] advances it; [`spec_step`] is the full transition table
//! and [`spec_run`] its closure over a sequence of events, over which the
//! terminal guarantees at the end of this module are proved.

use vstd::prelude::*;

use crate::errors::{CycleError, FetchError, Stage, WriteFailure};
use crate::normalize::{hour_bucket, hour_bucket_of};
use crate::snapshot::Rate;

verus! {

/// Where one cycle stands. The forward path is `BucketComputed` →
/// `Reserved` → `Fetched` → `Done`; `Failed` absorbs a failure at any step.
pub enum CycleState {
    /// The bucket timestamp is computed; the reserve is requested.
    BucketComputed { bucket: i64 },
    /// A row is reserved under `record_id`; the fetch is requested.
    Reserved { bucket: i64, record_id: i64 },
    /// A snapshot arrived; filling the reserved row is requested.
    Fetched { bucket: i64, record_id: i64 },
    /// The row is filled; the cycle is complete.
    Done { record_id: i64 },
    /// The cycle failed at `stage`; nothing further happens.
    Failed { stage: Stage },
}

/// The outcome of one performed action, handed back to the machine.
pub enum CycleEvent {
    ReserveOk { record_id: i64 },
    ReserveErr { failure: WriteFailure },
    FetchOk { snapshot: Rate },
    FetchErr { error: FetchError },
    FillOk,
    FillErr { failure: WriteFailure },
}

/// What the machine asks the surrounding process to perform next.
pub enum CycleAction {
    /// Insert a row `(bucket, base)` with its pairs unset.
    Reserve { bucket: i64, base: String },
    /// Issue the one outbound request and decode its body.
    Fetch,
    /// Update row `record_id`, setting its pairs.
    Fill { record_id: i64, pairs: serde_json::Value },
    /// The cycle succeeded: report the reserved id.
    ReportSuccess { record_id: i64 },
    /// The cycle failed: report the stage and cause, change nothing.
    ReportFailure { error: CycleError },
}

/// The transition table: for a state awaiting the matching outcome, the
/// next state and the next action; `None` where the event does not answer
/// the state's pending action. A failure event moves to `Failed` at its
/// stage and requests only the report; a fetched snapshot's pairs move
/// whole into the fill request.
pub open spec fn spec_step(s: CycleState, e: CycleEvent) -> Option<(CycleState, CycleAction)> {
    match (s, e) {
        (
            CycleState::BucketComputed { bucket },
            CycleEvent::ReserveOk { record_id },
        ) => Some(((CycleState::Reserved { bucket, record_id }), CycleAction::Fetch)),
        (CycleState::BucketComputed { .. }, CycleEvent::ReserveErr { failure }) => Some(
            (
                (CycleState::Failed { stage: Stage::Reserve }),
                (CycleAction::ReportFailure { error: CycleError::ReserveFailure { failure } }),
            ),
        ),
        (CycleState::Reserved { bucket, record_id }, CycleEvent::FetchOk { snapshot }) => Some(
            (
                (CycleState::Fetched { bucket, record_id }),
                (CycleAction::Fill { record_id, pairs: snapshot.pairs }),
            ),
        ),
        (CycleState::Reserved { .. }, CycleEvent::FetchErr { error }) => Some(
            (
                (CycleState::Failed { stage: Stage::Fetch }),
                (CycleAction::ReportFailure { error: CycleError::FetchFailure { error } }),
            ),
        ),
        (CycleState::Fetched { record_id, .. }, CycleEvent::FillOk) => Some(
            (
                (CycleState::Done { record_id }),
                (CycleAction::ReportSuccess { record_id }),
            ),
        ),
        (CycleState::Fetched { .. }, CycleEvent::FillErr { failure }) => Some(
            (
                (CycleState::Failed { stage: Stage::Fill }),
                (CycleAction::ReportFailure { error: CycleError::FillFailure { failure } }),
            ),
        ),
        _ => None,
    }
}

/// Opens one cycle at the instant `now`: normalizes it to its hour bucket
/// and requests the reserve of `(bucket, "USD")` — the base is fixed by the
/// pipeline, not by any caller. The reserve is requested before any fetch
/// can be, so a failed cycle still leaves its row.
pub fn start_cycle(now: i64) -> (r: (CycleState, CycleAction))
    requires
        0 <= now,
    ensures
        r.0 matches CycleState::BucketComputed { bucket } && bucket == hour_bucket_of(now as int),
        r.1 matches CycleAction::Reserve { bucket, base } && bucket == hour_bucket_of(now as int)
            && base@ == "USD"@,
{
    let bucket = hour_bucket(now);
    (
        CycleState::BucketComputed { bucket },
        CycleAction::Reserve { bucket, base: "USD".to_owned() },
    )
}

/// Advances the cycle by one observed outcome, exactly as [`spec_step`]
/// says; `None` answers an event that does not match the pending action.
pub fn step(s: CycleState, e: CycleEvent) -> (r: Option<(CycleState, CycleAction)>)
    ensures
        r == spec_step(s, e),
{
    match (s, e) {
        (CycleState::BucketComputed { bucket }, CycleEvent::ReserveOk { record_id }) => Some(
            (CycleState::Reserved { bucket, record_id }, CycleAction::Fetch),
        ),
        (CycleState::BucketComputed { .. }, CycleEvent::ReserveErr { failure }) => Some(
            (
                CycleState::Failed { stage: Stage::Reserve },
                CycleAction::ReportFailure { error: CycleError::ReserveFailure { failure } },
            ),
        ),
        (CycleState::Reserved { bucket, record_id }, CycleEvent::FetchOk { snapshot }) => Some(
            (
                CycleState::Fetched { bucket, record_id },
                CycleAction::Fill { record_id, pairs: snapshot.pairs },
            ),
        ),
        (CycleState::Reserved { .. }, CycleEvent::FetchErr { error }) => Some(
            (
                CycleState::Failed { stage: Stage::Fetch },
                CycleAction::ReportFailure { error: CycleError::FetchFailure { error } },
            ),
        ),
        (CycleState::Fetched { record_id, .. }, CycleEvent::FillOk) => Some(
            (CycleState::Done { record_id }, CycleAction::ReportSuccess { record_id }),
        ),
        (CycleState::Fetched { .. }, CycleEvent::FillErr { failure }) => Some(
            (
                CycleState::Failed { stage: Stage::Fill },
                CycleAction::ReportFailure { error: CycleError::FillFailure { failure } },
            ),
        ),
        _ => None,
    }
}

/// The machine run over a whole sequence of outcomes: the state it ends in
/// and every action it requested along the way, stopping at the first event
/// that answers nothing.
pub open spec fn spec_run(s: CycleState, events: Seq<CycleEvent>) -> (CycleState, Seq<CycleAction>)
    decreases events.len(),
{
    if events.len() == 0 {
        (s, Seq::<CycleAction>::empty())
    } else {
        match spec_step(s, events[0]) {
            None => (s, Seq::<CycleAction>::empty()),
            Some(next) => {
                let rest = spec_run(next.0, events.drop_first());
                (rest.0, Seq::<CycleAction>::empty().push(next.1) + rest.1)
            },
        }
    }
}

/// A failed cycle is over: whatever outcomes are still fed in, the machine
/// stays in `Failed` and requests nothing further.
pub proof fn lemma_failed_is_terminal(stage: Stage, events: Seq<CycleEvent>)
    ensures
        spec_run((CycleState::Failed { stage }), events).0 == (CycleState::Failed { stage }),
        spec_run((CycleState::Failed { stage }), events).1 =~= Seq::<CycleAction>::empty(),
{
}

/// If the reserve fails, the fetch is never requested: the run's one and
/// only remaining action reports the reserve failure, and in particular no
/// `Fetch` and no `Fill` is ever requested.
pub proof fn lemma_reserve_failure_halts(bucket: i64, events: Seq<CycleEvent>)
    requires
        events.len() > 0,
        events[0] matches CycleEvent::ReserveErr { .. },
    ensures
        ({
            let r = spec_run((CycleState::BucketComputed { bucket }), events);
            &&& r.0 == (CycleState::Failed { stage: Stage::Reserve })
            &&& r.1.len() == 1
            &&& events[0] matches CycleEvent::ReserveErr { failure } && r.1[0] == (
            CycleAction::ReportFailure { error: CycleError::ReserveFailure { failure } })
            &&& forall|i: int| 0 <= i < r.1.len() ==> !(#[trigger] r.1[i] is Fetch) && !(r.1[i]
                is Fill)
        }),
{
    lemma_failed_is_terminal(Stage::Reserve, events.drop_first());
}

/// If the fetch fails, the fill is never requested: after a reserved cycle
/// sees a fetch failure, its one remaining action reports that failure, so
/// the reserved row is never touched again and keeps its pairs unset.
pub proof fn lemma_fetch_failure_halts(bucket: i64, record_id: i64, events: Seq<CycleEvent>)
    requires
        events.len() > 0,
        events[0] matches CycleEvent::FetchErr { .. },
    ensures
        ({
            let r = spec_run((CycleState::Reserved { bucket, record_id }), events);
            &&& r.0 == (CycleState::Failed { stage: Stage::Fetch })
            &&& r.1.len() == 1
            &&& events[0] matches CycleEvent::FetchErr { error } && r.1[0] == (
            CycleAction::ReportFailure { error: CycleError::FetchFailure { error } })
            &&& forall|i: int| 0 <= i < r.1.len() ==> !(#[trigger] r.1[i] is Fill)
        }),
{
    lemma_failed_is_terminal(Stage::Fetch, events.drop_first());
}

/// If the fill fails, the fetched data is discarded with the cycle: the one
/// remaining action reports the fill failure, so the reserved row keeps its
/// pairs unset even though a snapshot had arrived.
pub proof fn lemma_fill_failure_halts(bucket: i64, record_id: i64, events: Seq<CycleEvent>)
    requires
        events.len() > 0,
        events[0] matches CycleEvent::FillErr { .. },
    ensures
        ({
            let r = spec_run((CycleState::Fetched { bucket, record_id }), events);
            &&& r.0 == (CycleState::Failed { stage: Stage::Fill })
            &&& r.1.len() == 1
            &&& events[0] matches CycleEvent::FillErr { failure } && r.1[0] == (
            CycleAction::ReportFailure { error: CycleError::FillFailure { failure } })
            &&& forall|i: int| 0 <= i < r.1.len() ==> !(#[trigger] r.1[i] is Fill)
        }),
{
    lemma_failed_is_terminal(Stage::Fill, events.drop_first());
}

/// A completed cycle is over just as a failed one is: the machine stays in
/// `Done` and requests nothing further.
pub proof fn lemma_done_is_terminal(record_id: i64, events: Seq<CycleEvent>)
    ensures
        spec_run((CycleState::Done { record_id }), events).0 == (CycleState::Done { record_id }),
        spec_run((CycleState::Done { record_id }), events).1 =~= Seq::<CycleAction>::empty(),
{
}

/// The happy path: when reserve, fetch and fill each succeed, the cycle
/// requests exactly the fetch, the fill of the reserved row with the
/// snapshot's pairs taken whole, and the report of the reserved id, and
/// ends complete on that id.
pub proof fn lemma_successful_cycle(bucket: i64, record_id: i64, snapshot: Rate)
    ensures
        ({
            let events = Seq::<CycleEvent>::empty().push(
                (CycleEvent::ReserveOk { record_id }),
            ).push((CycleEvent::FetchOk { snapshot })).push(CycleEvent::FillOk);
            let r = spec_run((CycleState::BucketComputed { bucket }), events);
            &&& r.0 == (CycleState::Done { record_id })
            &&& r.1 =~= Seq::<CycleAction>::empty().push(CycleAction::Fetch).push(
                (CycleAction::Fill { record_id, pairs: snapshot.pairs }),
            ).push((CycleAction::ReportSuccess { record_id }))
        }),
{
    let events = Seq::<CycleEvent>::empty().push((CycleEvent::ReserveOk { record_id })).push(
        (CycleEvent::FetchOk { snapshot }),
    ).push(CycleEvent::FillOk);
    let ev1 = events.drop_first();
    let ev2 = ev1.drop_first();
    let ev3 = ev2.drop_first();
    assert(events[0] == (CycleEvent::ReserveOk { record_id }));
    assert(ev1[0] == (CycleEvent::FetchOk { snapshot }));
    assert(ev2[0] == CycleEvent::FillOk);
    assert(ev3.len() == 0);
    let s0 = CycleState::BucketComputed { bucket };
    let s1 = CycleState::Reserved { bucket, record_id };
    let s2 = CycleState::Fetched { bucket, record_id };
    let s3 = CycleState::Done { record_id };
    let r3 = spec_run(s3, ev3);
    assert(r3.0 == s3 && r3.1 =~= Seq::<CycleAction>::empty());
    let r2 = spec_run(s2, ev2);
    assert(r2.0 == s3);
    assert(r2.1 =~= Seq::<CycleAction>::empty().push((CycleAction::ReportSuccess { record_id })));
    let r1 = spec_run(s1, ev1);
    assert(r1.0 == s3);
    assert(r1.1 =~= Seq::<CycleAction>::empty().push(
        (CycleAction::Fill { record_id, pairs: snapshot.pairs }),
    ).push((CycleAction::ReportSuccess { record_id })));
    let r0 = spec_run(s0, events);
    assert(r0.0 == s3);
    assert(r0.1 =~= Seq::<CycleAction>::empty().push(CycleAction::Fetch).push(
        (CycleAction::Fill { record_id, pairs: snapshot.pairs }),
    ).push((CycleAction::ReportSuccess { record_id })));
}

} // verus!
