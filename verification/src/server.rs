//! What the chat server does with the hub. `rocket` builds the state that the
//! server's launch function manages, and `post` is what its handler for a
//! submitted message does.

use vstd::prelude::*;
use crate::hub::{Hub, HubView, PublishOutcome};
use crate::message::{Message, MessageView, ValidationError};

verus! {

/// The number of messages that the server's hub retains.
pub const BUFFER_CAPACITY: usize = 1024;

/// The hub after `form` has been submitted: one message longer if the form is
/// valid, untouched if it is not.
pub open spec fn post_hub(queue: HubView, form: MessageView) -> HubView {
    if form.check().is_ok() {
        queue.publish(form)
    } else {
        queue
    }
}

/// What the submitter of `form` is owed: the publish outcome for a valid
/// form, the reason for one that is turned away.
pub open spec fn post_outcome(queue: HubView, form: MessageView) -> Result<
    PublishOutcome,
    ValidationError,
> {
    match form.check() {
        Ok(()) => Ok(queue.outcome()),
        Err(reason) => Err(reason),
    }
}

/// The state that the server is launched with: an open hub that nobody has
/// published to or subscribed to, retaining the last [`BUFFER_CAPACITY`]
/// messages.
pub fn rocket() -> (queue: Hub)
    ensures
        queue.wf(),
        queue@ == HubView::empty(BUFFER_CAPACITY as nat),
{
    Hub::new(BUFFER_CAPACITY)
}

/// The publish endpoint: checks the submitted form and, if it is valid,
/// broadcasts it. An invalid form never reaches the hub. That nobody listens
/// is no error.
pub fn post(form: Message, queue: &mut Hub) -> (outcome: Result<PublishOutcome, ValidationError>)
    requires
        old(queue).wf(),
        form@.is_valid() ==> old(queue)@.sequence() < u64::MAX,
    ensures
        final(queue).wf(),
        final(queue)@ == post_hub(old(queue)@, form@),
        outcome == post_outcome(old(queue)@, form@),
{
    match form.validate() {
        Ok(()) => Ok(queue.publish(form)),
        Err(reason) => Err(reason),
    }
}

/// Publishing with nobody subscribed succeeds: the message gets the next
/// sequence number and the publisher is told that nobody listened, which is
/// no error. Through the publish endpoint a valid form fares the same.
pub proof fn lemma_publish_needs_no_subscriber(hub: HubView, msg: MessageView)
    requires
        hub.subscribers == 0,
    ensures
        hub.outcome() == PublishOutcome::NoSubscribers,
        hub.publish(msg).sequence() == hub.sequence() + 1,
        hub.publish(msg).history[hub.sequence() as int] == msg,
        msg.is_valid() ==> post_outcome(hub, msg) == Ok::<PublishOutcome, ValidationError>(
            PublishOutcome::NoSubscribers,
        ) && post_hub(hub, msg) == hub.publish(msg),
{
}

/// A form with a field that is too long is turned away and leaves the hub as
/// it was.
pub proof fn lemma_invalid_form_never_reaches_hub(hub: HubView, form: MessageView)
    requires
        !form.is_valid(),
    ensures
        post_outcome(hub, form).is_err(),
        post_hub(hub, form) == hub,
{
}

} // verus!
