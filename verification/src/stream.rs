//! One subscriber's event stream, a step at a time.
//!
//! The stream itself never ends on its own and waits between messages, so
//! the loop belongs to whoever drives the connection. What that loop has to
//! do next is decided here.

use vstd::prelude::*;
use crate::hub::{Hub, HubView, MessageOrGap, MessageOrGapView, SubscriberCursor};
use crate::message::{Message, MessageView};

verus! {

/// What the connection does next.
#[derive(Debug, PartialEq, Eq)]
pub enum StreamStep {
    /// Send this message to the client as one event, then ask again.
    Emit(Message),
    /// Nothing to send: wait for the next publish, close or shutdown, then
    /// ask again.
    Wait,
    /// End the stream and release the cursor.
    Stop,
}

/// A [`StreamStep`] in specifications.
pub enum StreamStepView {
    Emit(MessageView),
    Wait,
    Stop,
}

impl View for StreamStep {
    type V = StreamStepView;

    open spec fn view(&self) -> StreamStepView {
        match self {
            StreamStep::Emit(m) => StreamStepView::Emit(m@),
            StreamStep::Wait => StreamStepView::Wait,
            StreamStep::Stop => StreamStepView::Stop,
        }
    }
}

/// Where a cursor at `position` reads from: its own position, or the oldest
/// retained message if it was overrun.
pub open spec fn resume_from(hub: HubView, position: nat) -> nat {
    if position < hub.oldest() {
        hub.oldest()
    } else {
        position
    }
}

/// The step that a stream at `position` takes.
///
/// A shutdown ends it whatever is pending. Otherwise the next message is
/// sent: the one at the cursor, or the oldest retained one if the cursor was
/// overrun. With nothing left to send the stream ends if the hub is closed,
/// and waits if not.
pub open spec fn next_step(hub: HubView, position: nat, shutdown: bool) -> StreamStepView {
    let from = resume_from(hub, position);
    if shutdown {
        StreamStepView::Stop
    } else if from < hub.sequence() {
        StreamStepView::Emit(hub.history[from as int])
    } else if hub.closed {
        StreamStepView::Stop
    } else {
        StreamStepView::Wait
    }
}

/// Where the cursor stands after that step: behind the message that was
/// sent, and where it was if none was.
pub open spec fn next_position(hub: HubView, position: nat, shutdown: bool) -> nat {
    let from = resume_from(hub, position);
    if !shutdown && from < hub.sequence() {
        from + 1
    } else {
        position
    }
}

/// Decides the next step of a subscriber's stream and moves its cursor.
///
/// `shutdown` says whether the server has asked its streams to end. A gap is
/// passed over in silence: the read is repeated and the client is never told
/// that messages were lost.
pub fn next_event(hub: &Hub, cursor: &mut SubscriberCursor, shutdown: bool) -> (step: StreamStep)
    requires
        hub.wf(),
    ensures
        step@ == next_step(hub@, old(cursor)@, shutdown),
        final(cursor)@ == next_position(hub@, old(cursor)@, shutdown),
        old(cursor)@ <= hub@.sequence() ==> final(cursor)@ <= hub@.sequence(),
{
    if shutdown {
        return StreamStep::Stop;
    }
    let ghost first = cursor@;
    loop
        invariant
            hub.wf(),
            !shutdown,
            first == old(cursor)@,
            resume_from(hub@, cursor@) == resume_from(hub@, first),
            cursor@ != first ==> first < hub@.oldest(),
        decreases
            (if cursor@ < hub@.oldest() {
                1int
            } else {
                0int
            }),
    {
        match cursor.receive(hub) {
            Some(MessageOrGap::Message(msg)) => {
                return StreamStep::Emit(msg);
            },
            Some(MessageOrGap::Gap) => {},
            Some(MessageOrGap::Closed) => {
                return StreamStep::Stop;
            },
            None => {
                return StreamStep::Wait;
            },
        }
    }
}

/// Lag loses messages and nothing else. A cursor that was overrun is told of
/// the gap by its next read and put on the oldest retained message, which the
/// read after that hands out. Its stream goes on, in one step and without a
/// word of the gap, with exactly that message. Neither ends or fails.
pub proof fn lemma_overrun_cursor_resumes_at_oldest(hub: HubView, position: nat)
    requires
        hub.wf(),
        position < hub.oldest(),
    ensures
        hub.oldest() < hub.sequence(),
        hub.receive(position) == Some(MessageOrGapView::Gap),
        hub.advance(position) == hub.oldest(),
        hub.receive(hub.oldest()) == Some(
            MessageOrGapView::Message(hub.history[hub.oldest() as int]),
        ),
        next_step(hub, position, false) == StreamStepView::Emit(hub.history[hub.oldest() as int]),
        next_position(hub, position, false) == hub.oldest() + 1,
{
}

/// Once the server asks its streams to end, a stream's next step
/// is to stop, whatever is still pending for it, and its cursor moves no
/// further: nothing is delivered after the request. A closed hub stops a
/// stream that has caught up.
pub proof fn lemma_shutdown_stops_stream(hub: HubView, position: nat)
    ensures
        next_step(hub, position, true) == StreamStepView::Stop,
        next_position(hub, position, true) == position,
        hub.closed && resume_from(hub, position) >= hub.sequence() ==> next_step(
            hub,
            position,
            false,
        ) == StreamStepView::Stop,
{
}

} // verus!
