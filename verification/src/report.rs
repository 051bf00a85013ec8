//! The report handler: a single linear validate → resolve → compose →
//! dispatch → confirm pipeline.
//!
//! A report names a delivered event and carries a severity score and a
//! free-text reason.  The handler resolves the event, checks the score and
//! the reason, composes the dual-form notification, hands it to the admin
//! channel, and acknowledges only after the durability barrier confirms.
//! All validation happens before any side effect: an invalid report never
//! reaches the channel.

use vstd::prelude::*;
use vstd::string::StrSliceExecFns;
use crate::channel::AdminChannel;
use crate::channel::DurabilityBarrier;
use crate::notification::compose_notification;
use crate::notification::report_notification;
use crate::store::EventStore;
use crate::store::EventRecordView;
use crate::store::find_event;

verus! {

/// The lowest accepted severity score: maximal concern.
pub const SCORE_MIN: i64 = -100;

/// The highest accepted severity score: no concern.
pub const SCORE_MAX: i64 = 0;

/// The longest accepted reason, counted in Unicode scalar values.
pub const REASON_MAX_CHARS: usize = 250;

/// Why a report was not acknowledged.
#[derive(Clone, Copy, Debug, PartialEq, Eq)]
pub enum ReportError {
    /// The target event id does not resolve in the event store.
    InvalidReference,
    /// The score lies outside the accepted range.
    InvalidScore,
    /// The reason exceeds the accepted length.
    ReasonTooLong,
    /// The admin channel could not accept the notification.
    ChannelDispatchError,
    /// The durability confirmation failed after dispatch; the notification
    /// may nevertheless already sit in the channel.
    DurabilityError,
}

/// The empty acknowledgment returned on full success.
#[derive(Clone, Copy, Debug, PartialEq, Eq)]
pub struct Ack {}

/// Whether `score` lies in the accepted range.
pub open spec fn valid_score(score: int) -> bool {
    SCORE_MIN <= score <= SCORE_MAX
}

/// Whether `reason` fits the accepted length, counted in Unicode scalar
/// values.
pub open spec fn valid_reason(reason: Seq<char>) -> bool {
    reason.len() <= REASON_MAX_CHARS
}

/// Whether handling reaches dispatch: the event resolves, score and reason
/// pass validation, and the channel has room for the notification.
pub open spec fn report_dispatched(
    store: Seq<EventRecordView>,
    event_id: Seq<char>,
    score: int,
    reason: Seq<char>,
    queued: nat,
    capacity: nat,
) -> bool {
    &&& find_event(store, event_id) is Some
    &&& valid_score(score)
    &&& valid_reason(reason)
    &&& queued < capacity
}

/// The outcome of handling one report, checked in pipeline order: resolve
/// the event, validate the score, validate the reason, dispatch into a
/// channel holding `queued` of `capacity` notifications, then confirm
/// durability (`flush_ok`).
pub open spec fn report_outcome(
    store: Seq<EventRecordView>,
    event_id: Seq<char>,
    score: int,
    reason: Seq<char>,
    queued: nat,
    capacity: nat,
    flush_ok: bool,
) -> Result<Ack, ReportError> {
    if find_event(store, event_id) is None {
        Err(ReportError::InvalidReference)
    } else if !valid_score(score) {
        Err(ReportError::InvalidScore)
    } else if !valid_reason(reason) {
        Err(ReportError::ReasonTooLong)
    } else if queued >= capacity {
        Err(ReportError::ChannelDispatchError)
    } else if !flush_ok {
        Err(ReportError::DurabilityError)
    } else {
        Ok((Ack {  }))
    }
}

/// Handles one report: resolves `event_id` in `store`, validates `score` and
/// `reason`, composes the plain and rich notification, hands it to
/// `channel`, and confirms against `barrier` before acknowledging.
///
/// The result equals [`report_outcome`] over the views of the inputs, and
/// the channel receives exactly one notification — the composed one — when
/// handling reaches dispatch, and nothing otherwise.
pub fn handle_report(
    reporter: &String,
    event_id: &String,
    score: i64,
    reason: &String,
    store: &EventStore,
    channel: &mut AdminChannel,
    barrier: &DurabilityBarrier,
) -> (r: Result<Ack, ReportError>)
    ensures
        r == report_outcome(
            store@,
            event_id@,
            score as int,
            reason@,
            old(channel)@.len(),
            old(channel).cap(),
            barrier.is_available(),
        ),
        final(channel).cap() == old(channel).cap(),
        report_dispatched(
            store@,
            event_id@,
            score as int,
            reason@,
            old(channel)@.len(),
            old(channel).cap(),
        ) ==> final(channel)@ == old(channel)@.push(
            report_notification(
                reporter@,
                find_event(store@, event_id@)->Some_0,
                score as int,
                reason@,
            ),
        ),
        !report_dispatched(
            store@,
            event_id@,
            score as int,
            reason@,
            old(channel)@.len(),
            old(channel).cap(),
        ) ==> final(channel)@ == old(channel)@,
{
    let rec = match store.lookup(event_id) {
        Some(rec) => rec,
        None => {
            return Err(ReportError::InvalidReference);
        },
    };
    if score > SCORE_MAX || score < SCORE_MIN {
        return Err(ReportError::InvalidScore);
    }
    if reason.as_str().unicode_len() > REASON_MAX_CHARS {
        return Err(ReportError::ReasonTooLong);
    }
    let notification = compose_notification(reporter, rec, score, reason);
    match channel.send(notification) {
        Ok(()) => {},
        Err(_) => {
            return Err(ReportError::ChannelDispatchError);
        },
    }
    match barrier.flush() {
        Ok(()) => Ok(Ack {  }),
        Err(()) => Err(ReportError::DurabilityError),
    }
}

/// A report is acknowledged only when its score lies in the accepted range:
/// outside it, handling fails, whatever the rest of the request holds.
pub proof fn lemma_ack_needs_valid_score(
    store: Seq<EventRecordView>,
    event_id: Seq<char>,
    score: int,
    reason: Seq<char>,
    queued: nat,
    capacity: nat,
    flush_ok: bool,
)
    ensures
        report_outcome(store, event_id, score, reason, queued, capacity, flush_ok) is Ok
            ==> valid_score(score),
{
}

/// A report is acknowledged only when its reason fits the accepted length,
/// counted in Unicode scalar values.
pub proof fn lemma_ack_needs_valid_reason(
    store: Seq<EventRecordView>,
    event_id: Seq<char>,
    score: int,
    reason: Seq<char>,
    queued: nat,
    capacity: nat,
    flush_ok: bool,
)
    ensures
        report_outcome(store, event_id, score, reason, queued, capacity, flush_ok) is Ok
            ==> valid_reason(reason),
{
}

/// A report whose event id does not resolve is refused with
/// `InvalidReference` before any side effect, so nothing is handed to the
/// admin channel.
pub proof fn lemma_unknown_event_refused(
    store: Seq<EventRecordView>,
    event_id: Seq<char>,
    score: int,
    reason: Seq<char>,
    queued: nat,
    capacity: nat,
    flush_ok: bool,
)
    requires
        find_event(store, event_id) is None,
    ensures
        report_outcome(store, event_id, score, reason, queued, capacity, flush_ok) == Err::<
            Ack,
            ReportError,
        >(ReportError::InvalidReference),
        !report_dispatched(store, event_id, score, reason, queued, capacity),
{
}

/// A durability failure after a successful dispatch is surfaced: the call
/// fails with `DurabilityError` and no acknowledgment is returned, even
/// though the notification already sits in the channel.
pub proof fn lemma_flush_failure_not_acknowledged(
    store: Seq<EventRecordView>,
    event_id: Seq<char>,
    score: int,
    reason: Seq<char>,
    queued: nat,
    capacity: nat,
)
    requires
        report_dispatched(store, event_id, score, reason, queued, capacity),
    ensures
        report_outcome(store, event_id, score, reason, queued, capacity, false) == Err::<
            Ack,
            ReportError,
        >(ReportError::DurabilityError),
{
}

} // verus!
