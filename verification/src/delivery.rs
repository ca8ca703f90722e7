//! What a subscriber is handed over a whole run of publishes and reads, and
//! what holds of it however the run goes.

use vstd::prelude::*;
use crate::hub::{HubView, MessageOrGapView};
use crate::message::MessageView;
use crate::stream::{
    lemma_overrun_cursor_resumes_at_oldest, next_position, next_step, resume_from, StreamStepView,
};

verus! {

/// One thing that happens to a hub while a subscriber is connected to it.
pub enum Operation {
    /// Somebody publishes a message.
    Publish(MessageView),
    /// Another subscriber joins.
    Subscribe,
    /// Another subscriber leaves.
    Release,
    /// The hub is closed.
    Close,
    /// The subscriber makes one read with its cursor.
    Read,
    /// The subscriber's stream takes one step, with no shutdown asked for.
    Stream,
}

/// A message as a subscriber got it, with its sequence number.
pub struct Delivery {
    pub sequence: nat,
    pub message: MessageView,
}

/// A hub, one subscriber's position, and what that subscriber has been handed
/// so far, first delivery first.
pub struct Run {
    pub hub: HubView,
    pub position: nat,
    pub delivered: Seq<Delivery>,
}

/// The run after one more operation.
pub open spec fn step(run: Run, op: Operation) -> Run {
    match op {
        Operation::Publish(msg) => Run { hub: run.hub.publish(msg), ..run },
        Operation::Subscribe => Run { hub: run.hub.subscribe(), ..run },
        Operation::Release => Run { hub: run.hub.release(), ..run },
        Operation::Close => Run { hub: run.hub.close(), ..run },
        Operation::Read => Run {
            hub: run.hub,
            position: run.hub.advance(run.position),
            delivered: match run.hub.receive(run.position) {
                Some(MessageOrGapView::Message(message)) => run.delivered.push(
                    Delivery { sequence: run.position, message },
                ),
                _ => run.delivered,
            },
        },
        Operation::Stream => Run {
            hub: run.hub,
            position: next_position(run.hub, run.position, false),
            delivered: match next_step(run.hub, run.position, false) {
                StreamStepView::Emit(message) => run.delivered.push(
                    Delivery { sequence: resume_from(run.hub, run.position), message },
                ),
                _ => run.delivered,
            },
        },
    }
}

/// The run that starts with nothing delivered on `hub`, with the subscriber
/// at `position`, and goes through `ops` in order.
pub open spec fn play(hub: HubView, position: nat, ops: Seq<Operation>) -> Run
    decreases ops.len(),
{
    if ops.len() == 0 {
        Run { hub, position, delivered: Seq::empty() }
    } else {
        step(play(hub, position, ops.drop_last()), ops.last())
    }
}

/// The hub after all of `msgs` have been published, first one first.
pub open spec fn publish_all(hub: HubView, msgs: Seq<MessageView>) -> HubView
    decreases msgs.len(),
{
    if msgs.len() == 0 {
        hub
    } else {
        publish_all(hub, msgs.drop_last()).publish(msgs.last())
    }
}

/// `earlier` is how `later` began: a hub never forgets or reorders what its
/// history once held, and its capacity never changes.
pub open spec fn extends(later: HubView, earlier: HubView) -> bool {
    &&& later.capacity == earlier.capacity
    &&& earlier.history.len() <= later.history.len()
    &&& forall|s: int| 0 <= s < earlier.history.len() ==> later.history[s] == earlier.history[s]
}

/// Every delivery of `run` is a message of the hub's history under its own
/// sequence number, none is from before `start`, and the cursor stands
/// behind all of them and not ahead of the publish sequence.
pub open spec fn delivered_from_history(start: nat, run: Run) -> bool {
    &&& start <= run.position <= run.hub.sequence()
    &&& forall|i: int|
        0 <= i < run.delivered.len() ==> {
            &&& start <= (#[trigger] run.delivered[i]).sequence < run.position
            &&& run.hub.history[run.delivered[i].sequence as int] == run.delivered[i].message
        }
}

/// Of two deliveries of `run`, the message that was published first was
/// delivered first; so none was delivered twice.
pub open spec fn in_publish_order(run: Run) -> bool {
    forall|i: int, j: int|
        0 <= i < run.delivered.len() && 0 <= j < run.delivered.len() ==> (
        (#[trigger] run.delivered[i]).sequence < (#[trigger] run.delivered[j]).sequence
            <==> i < j)
}

/// Through any run a hub only grows: what was published stays in its history
/// under the same sequence number, and the publish sequence never falls.
pub proof fn lemma_history_only_grows(hub: HubView, position: nat, ops: Seq<Operation>)
    ensures
        extends(play(hub, position, ops).hub, hub),
    decreases ops.len(),
{
    if ops.len() > 0 {
        lemma_history_only_grows(hub, position, ops.drop_last());
    }
}

/// Closing is final: through any run a closed hub stays closed.
pub proof fn lemma_closed_hub_stays_closed(hub: HubView, position: nat, ops: Seq<Operation>)
    requires
        hub.closed,
    ensures
        play(hub, position, ops).hub.closed,
    decreases ops.len(),
{
    if ops.len() > 0 {
        lemma_closed_hub_stays_closed(hub, position, ops.drop_last());
    }
}

/// A subscriber is handed nothing but what was published: through any run,
/// each delivery is the message that the history holds under that sequence
/// number, and the cursor never passes the publish sequence.
pub proof fn lemma_delivered_from_history(hub: HubView, position: nat, ops: Seq<Operation>)
    requires
        hub.wf(),
        position <= hub.sequence(),
    ensures
        delivered_from_history(position, play(hub, position, ops)),
    decreases ops.len(),
{
    if ops.len() > 0 {
        let before = play(hub, position, ops.drop_last());
        let after = play(hub, position, ops);
        lemma_delivered_from_history(hub, position, ops.drop_last());
        lemma_history_only_grows(hub, position, ops.drop_last());
        assert(before.hub.wf());
        assert(after == step(before, ops.last()));
        assert forall|i: int| 0 <= i < after.delivered.len() implies {
            &&& position <= (#[trigger] after.delivered[i]).sequence < after.position
            &&& after.hub.history[after.delivered[i].sequence as int] == after.delivered[i].message
        } by {
            if i < before.delivered.len() {
                assert(after.delivered[i] == before.delivered[i]);
            }
        }
    }
}

/// Through any run of publishes, reads and other operations, a subscriber
/// whose cursor started at or behind the publish sequence is handed messages
/// in the order in which they were published: if it gets two messages, the
/// one published first comes first.
pub proof fn lemma_delivered_in_publish_order(hub: HubView, position: nat, ops: Seq<Operation>)
    requires
        hub.wf(),
        position <= hub.sequence(),
    ensures
        in_publish_order(play(hub, position, ops)),
    decreases ops.len(),
{
    if ops.len() > 0 {
        let before = play(hub, position, ops.drop_last());
        let after = play(hub, position, ops);
        lemma_delivered_in_publish_order(hub, position, ops.drop_last());
        lemma_delivered_from_history(hub, position, ops.drop_last());
        assert(after == step(before, ops.last()));
        assert forall|i: int, j: int|
            0 <= i < after.delivered.len() && 0 <= j < after.delivered.len() implies (
        (#[trigger] after.delivered[i]).sequence < (#[trigger] after.delivered[j]).sequence
            <==> i < j) by {
            if i < before.delivered.len() {
                assert(after.delivered[i] == before.delivered[i]);
            }
            if j < before.delivered.len() {
                assert(after.delivered[j] == before.delivered[j]);
            }
        }
    }
}

/// A subscriber that joins after `hub.sequence()` messages have been
/// published is never handed one of them, whatever happens afterwards: every
/// message it gets is one of the history with a sequence number from its
/// subscription on, and so was published after it joined.
pub proof fn lemma_late_subscriber_sees_no_backlog(hub: HubView, ops: Seq<Operation>)
    requires
        hub.wf(),
    ensures
        delivered_from_history(hub.sequence(), play(hub.subscribe(), hub.sequence(), ops)),
        forall|i: int|
            0 <= i < play(hub.subscribe(), hub.sequence(), ops).delivered.len() ==> (
            #[trigger] play(hub.subscribe(), hub.sequence(), ops).delivered[i]).sequence
                >= hub.history.len(),
{
    lemma_delivered_from_history(hub.subscribe(), hub.sequence(), ops);
}

/// Publishing `msgs` appends them to the history and changes nothing else.
pub proof fn lemma_publish_all_appends(hub: HubView, msgs: Seq<MessageView>)
    ensures
        publish_all(hub, msgs) == (HubView { history: hub.history + msgs, ..hub }),
    decreases msgs.len(),
{
    if msgs.len() == 0 {
        assert(hub.history + msgs =~= hub.history);
    } else {
        lemma_publish_all_appends(hub, msgs.drop_last());
        assert((hub.history + msgs.drop_last()).push(msgs.last()) =~= hub.history + msgs);
    }
}

/// A subscriber that stalls while more messages are published than the hub
/// retains is overrun, and its stream goes on with the oldest message that
/// is left: it loses messages, and neither fails nor ends.
pub proof fn lemma_stalled_subscriber_resumes(hub: HubView, position: nat, msgs: Seq<MessageView>)
    requires
        hub.wf(),
        position <= hub.sequence(),
        msgs.len() > hub.capacity,
    ensures
        position < publish_all(hub, msgs).oldest(),
        next_step(publish_all(hub, msgs), position, false) == StreamStepView::Emit(
            publish_all(hub, msgs).history[publish_all(hub, msgs).oldest() as int],
        ),
        next_position(publish_all(hub, msgs), position, false) == publish_all(hub, msgs).oldest()
            + 1,
{
    lemma_publish_all_appends(hub, msgs);
    lemma_overrun_cursor_resumes_at_oldest(publish_all(hub, msgs), position);
}

} // verus!
