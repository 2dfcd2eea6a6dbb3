//! The subscription bridge: the callback path from the event subsystem to
//! the queue.
//!
//! The subsystem invokes the callback once per matching event, on threads it
//! owns and at a rate outside this program's control. Each invocation either
//! rejects a subsystem-level delivery error, or renders the record and
//! forwards the text into the unbounded queue. Forwarding never waits on the
//! consumer: producer throughput is never throttled by consumer speed, at
//! the documented cost of unbounded memory growth if the consumer stalls.

use vstd::prelude::*;
use tokio::sync::mpsc::UnboundedSender;
use crate::render::{NativeRender, RenderResult, interpret_render, utf16_lossy};

verus! {

/// tokio's unbounded sending half, held opaquely: the producer side of the
/// queue between the notification callback and the consumer loop.
#[verifier::external_type_specification]
#[verifier::external_body]
#[verifier::reject_recursive_types(T)]
pub struct ExUnboundedSender<T>(UnboundedSender<T>);

/// Relies on tokio's `UnboundedSender::send`: it completes without any form
/// of waiting (the channel is unbounded), fails exactly when the receiving
/// half is gone, and hands the rejected message back in the error.
#[verifier::external_body]
fn push_text(sender: &UnboundedSender<String>, text: String) -> (r: Result<(), String>)
    ensures
        r matches Err(m) ==> m@ == text@,
{
    match sender.send(text) {
        Ok(()) => Ok(()),
        Err(e) => Err(e.0),
    }
}

/// The action the event subsystem reports with one callback invocation.
#[derive(Clone, Copy, Debug, PartialEq, Eq, Structural)]
pub enum NotifyAction {
    /// An event record is being delivered.
    Deliver,
    /// The subsystem signals a delivery error: there is no record to render.
    SubsystemError,
}

/// What one notification came to, so the caller can log it and answer the
/// subsystem with the right status code.
#[derive(Clone, Copy, Debug, PartialEq, Eq, Structural)]
pub enum NotifyReport {
    /// The action signalled a subsystem error: nothing was rendered, nothing
    /// was queued.
    RejectedAction,
    /// The record's complete text was queued.
    Forwarded,
    /// The record exceeded the rendering buffer; its truncated text was
    /// queued.
    ForwardedTruncated,
    /// Rendering failed with this native code; the record was dropped and
    /// the subscription goes on.
    DroppedRenderFailure(u32),
    /// The consumer side is gone: nothing can be queued any more.
    QueueClosed,
}

/// The text one notification offers the queue, if any: a delivered record's
/// rendering, complete from the written extent or truncated from the full
/// buffer. A subsystem error and a failed rendering offer nothing.
pub open spec fn forwarded_text(
    action: NotifyAction,
    outcome: NativeRender,
    buffer: Seq<u16>,
) -> Option<Seq<char>> {
    match action {
        NotifyAction::SubsystemError => None,
        NotifyAction::Deliver => match outcome {
            NativeRender::Wrote(n) => Some(utf16_lossy(buffer.take(n as int))),
            NativeRender::Insufficient(_) => Some(utf16_lossy(buffer)),
            NativeRender::Failed(_) => None,
        },
    }
}

/// Law: a notification offers text to the queue exactly when its action
/// delivers a record and the native rendering did not fail outright; a
/// subsystem error never reaches the renderer or the queue, and a failed
/// rendering is dropped without touching the queue.
pub proof fn lemma_forwarding_criterion(action: NotifyAction, outcome: NativeRender, buffer: Seq<u16>)
    ensures
        forwarded_text(action, outcome, buffer) is Some <==> (action is Deliver
            && !(outcome matches NativeRender::Failed(_))),
{
}

/// The texts a run of notifications offers the queue, in invocation order:
/// the bridge pushes at most one text per callback and never reorders.
pub open spec fn forwarded_sequence(notes: Seq<(NotifyAction, NativeRender, Seq<u16>)>) -> Seq<
    Seq<char>,
>
    decreases notes.len(),
{
    if notes.len() == 0 {
        Seq::empty()
    } else {
        let earlier = forwarded_sequence(notes.drop_last());
        match forwarded_text(notes.last().0, notes.last().1, notes.last().2) {
            Some(text) => earlier.push(text),
            None => earlier,
        }
    }
}

/// Law: over any run of notifications that each deliver a record whose
/// rendering did not fail, the queue is offered exactly one text per
/// notification, and the text offered in the i-th place is the i-th
/// record's rendering: first-in, first-out, nothing lost, nothing invented.
pub proof fn lemma_bridge_is_fifo(notes: Seq<(NotifyAction, NativeRender, Seq<u16>)>)
    requires
        forall|i: int|
            0 <= i < notes.len() ==> (#[trigger] notes[i]).0 is Deliver && !(notes[i].1 matches
            NativeRender::Failed(_)),
    ensures
        forwarded_sequence(notes).len() == notes.len(),
        forall|i: int|
            0 <= i < notes.len() ==> Some(#[trigger] forwarded_sequence(notes)[i])
                == forwarded_text(notes[i].0, notes[i].1, notes[i].2),
    decreases notes.len(),
{
    if notes.len() > 0 {
        lemma_bridge_is_fifo(notes.drop_last());
        assert(forwarded_text(notes.last().0, notes.last().1, notes.last().2) is Some);
        assert forall|i: int| 0 <= i < notes.len() implies Some(
            #[trigger] forwarded_sequence(notes)[i],
        ) == forwarded_text(notes[i].0, notes[i].1, notes[i].2) by {
            if i < notes.len() - 1 {
                assert(notes.drop_last()[i] == notes[i]);
            }
        }
    }
}

/// One callback invocation: rejects a subsystem error outright, otherwise
/// renders the record from what the native call reported into the supplied
/// buffer and forwards its text to the queue. Per-event failures are
/// isolated: a dropped or truncated record never affects later ones.
pub fn handle_notification(
    action: NotifyAction,
    outcome: NativeRender,
    buffer: &[u16],
    sender: &UnboundedSender<String>,
) -> (report: NotifyReport)
    requires
        outcome matches NativeRender::Wrote(n) ==> n <= buffer@.len(),
    ensures
        (action is SubsystemError ==> report == NotifyReport::RejectedAction),
        (report == NotifyReport::RejectedAction ==> action is SubsystemError),
        (action is Deliver ==> (outcome matches NativeRender::Failed(code)
            ==> report == NotifyReport::DroppedRenderFailure(code))),
        (report matches NotifyReport::DroppedRenderFailure(code)
            ==> action is Deliver && outcome == NativeRender::Failed(code)),
        (action is Deliver && !(outcome matches NativeRender::Failed(_))
            ==> report == NotifyReport::Forwarded || report == NotifyReport::ForwardedTruncated
                || report == NotifyReport::QueueClosed),
        (report == NotifyReport::Forwarded ==> outcome matches NativeRender::Wrote(_)),
        (report == NotifyReport::ForwardedTruncated ==> outcome matches NativeRender::Insufficient(_)),
        (report == NotifyReport::Forwarded || report == NotifyReport::ForwardedTruncated
            || report == NotifyReport::QueueClosed ==> forwarded_text(action, outcome, buffer@) is Some),
        (report == NotifyReport::RejectedAction || (report matches NotifyReport::DroppedRenderFailure(_))
            ==> forwarded_text(action, outcome, buffer@) is None),
{
    match action {
        NotifyAction::SubsystemError => NotifyReport::RejectedAction,
        NotifyAction::Deliver => {
            let rendered = interpret_render(outcome, buffer);
            match rendered {
                RenderResult::Complete(text) => match push_text(sender, text) {
                    Ok(_) => NotifyReport::Forwarded,
                    Err(_) => NotifyReport::QueueClosed,
                },
                RenderResult::Truncated(text) => match push_text(sender, text) {
                    Ok(_) => NotifyReport::ForwardedTruncated,
                    Err(_) => NotifyReport::QueueClosed,
                },
                RenderResult::RenderFailed(code) => NotifyReport::DroppedRenderFailure(code),
            }
        },
    }
}

/// The status answered to the event subsystem for one notification: zero
/// for success, one for failure. Only a rejected action and a closed queue
/// are failures; a record dropped or truncated by rendering is not, since
/// the subscription continues unharmed.
pub fn status_code(report: NotifyReport) -> (code: u32)
    ensures
        code == 1 <==> (report == NotifyReport::RejectedAction || report == NotifyReport::QueueClosed),
        code == 0 || code == 1,
{
    match report {
        NotifyReport::RejectedAction => 1,
        NotifyReport::QueueClosed => 1,
        NotifyReport::Forwarded => 0,
        NotifyReport::ForwardedTruncated => 0,
        NotifyReport::DroppedRenderFailure(_) => 0,
    }
}

/// The parameters of one subscription: a named channel and a filter query
/// in the subsystem's own syntax. The minimal bridge requests future events
/// only and supports no bookmark.
pub struct SubscriptionRequest {
    /// The named event channel to subscribe to.
    pub channel: String,
    /// The filter expression, in the subsystem's native query syntax.
    pub query: String,
    /// Whether only events emitted after subscribing are delivered.
    pub future_only: bool,
}

impl SubscriptionRequest {
    /// A subscription for future events of `channel` that match `query`.
    pub fn new(channel: String, query: String) -> (r: SubscriptionRequest)
        ensures
            r.channel@ == channel@,
            r.query@ == query@,
            r.future_only,
    {
        SubscriptionRequest { channel, query, future_only: true }
    }

    /// The native flag value for this request's delivery origin: future
    /// events only, or everything from the oldest record on.
    pub fn origin_flag(&self) -> (f: u32)
        ensures
            f == (if self.future_only { 1u32 } else { 2u32 }),
    {
        if self.future_only { 1 } else { 2 }
    }
}

} // verus!
