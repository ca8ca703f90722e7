//! The broadcast hub: a bounded window over everything published so far, and
//! the cursors with which subscribers read it at their own pace.
//!
//! The hub is plain data. Whoever shares it between tasks guards it with a
//! lock and wakes waiting readers after `publish` and `close`.

use vstd::prelude::*;
use crate::message::{Message, MessageView};

verus! {

/// What became of a published message. Neither case is a failure.
#[derive(Clone, Copy, Debug, PartialEq, Eq, Structural)]
pub enum PublishOutcome {
    /// At least one subscriber was live when the message was published.
    Delivered,
    /// Nobody was listening. The message was stored all the same.
    NoSubscribers,
}

/// The hub in specifications.
///
/// `history` is every message ever published, in publish order: the message
/// at index `s` has sequence number `s`. Only its last `capacity` entries are
/// still held by the hub; see [`HubView::oldest`].
#[verifier::ext_equal]
pub struct HubView {
    pub capacity: nat,
    pub history: Seq<MessageView>,
    pub subscribers: nat,
    pub closed: bool,
}

/// What one read hands to a subscriber, in specifications.
pub enum MessageOrGapView {
    Message(MessageView),
    Gap,
    Closed,
}

impl HubView {
    /// A hub holds at least one message.
    pub open spec fn wf(self) -> bool {
        self.capacity >= 1
    }

    /// The publish sequence: the number that the next message will get.
    pub open spec fn sequence(self) -> nat {
        self.history.len()
    }

    /// The sequence number of the oldest message that is still retained
    /// (equal to `sequence()` while nothing has been published).
    pub open spec fn oldest(self) -> nat {
        if self.history.len() > self.capacity {
            (self.history.len() - self.capacity) as nat
        } else {
            0
        }
    }

    /// The retained window, oldest first.
    pub open spec fn retained(self) -> Seq<MessageView> {
        self.history.subrange(self.oldest() as int, self.history.len() as int)
    }

    /// A fresh hub: nothing published, nobody subscribed, open.
    pub open spec fn empty(capacity: nat) -> HubView {
        HubView { capacity, history: Seq::empty(), subscribers: 0, closed: false }
    }

    /// The hub after `msg` has been published.
    pub open spec fn publish(self, msg: MessageView) -> HubView {
        HubView { history: self.history.push(msg), ..self }
    }

    /// What a publisher is told on this hub.
    pub open spec fn outcome(self) -> PublishOutcome {
        if self.subscribers > 0 {
            PublishOutcome::Delivered
        } else {
            PublishOutcome::NoSubscribers
        }
    }

    /// The hub after one more subscriber has joined.
    pub open spec fn subscribe(self) -> HubView {
        HubView { subscribers: self.subscribers + 1, ..self }
    }

    /// The hub after one subscriber has left.
    pub open spec fn release(self) -> HubView {
        HubView {
            subscribers: if self.subscribers > 0 {
                (self.subscribers - 1) as nat
            } else {
                0
            },
            ..self
        }
    }

    /// The hub after it has been closed.
    pub open spec fn close(self) -> HubView {
        HubView { closed: true, ..self }
    }

    /// What a cursor at `position` is handed by one read, `None` where it has
    /// to wait.
    ///
    /// A cursor that was overrun learns of the gap first. Otherwise it gets
    /// the message at its position, if that has been published. A closed hub
    /// is reported only once the cursor has caught up.
    pub open spec fn receive(self, position: nat) -> Option<MessageOrGapView> {
        if position < self.oldest() {
            Some(MessageOrGapView::Gap)
        } else if position < self.sequence() {
            Some(MessageOrGapView::Message(self.history[position as int]))
        } else if self.closed {
            Some(MessageOrGapView::Closed)
        } else {
            None
        }
    }

    /// Where a cursor at `position` stands after one read: on the oldest
    /// retained message after a gap, one further after a message, and where
    /// it was otherwise.
    pub open spec fn advance(self, position: nat) -> nat {
        if position < self.oldest() {
            self.oldest()
        } else if position < self.sequence() {
            position + 1
        } else {
            position
        }
    }
}

/// Publishing slides the window: the new message becomes its last entry, and
/// its oldest entry leaves if and only if the window was full. So the hub
/// never retains more than `capacity` messages, and always the most recent
/// ones.
pub proof fn lemma_publish_slides_window(hub: HubView, msg: MessageView)
    requires
        hub.wf(),
    ensures
        hub.retained().len() <= hub.capacity,
        hub.publish(msg).retained() == if hub.retained().len() < hub.capacity {
            hub.retained().push(msg)
        } else {
            hub.retained().drop_first().push(msg)
        },
{
    if hub.retained().len() < hub.capacity {
        assert(hub.publish(msg).retained() =~= hub.retained().push(msg));
    } else {
        assert(hub.publish(msg).retained() =~= hub.retained().drop_first().push(msg));
    }
}

/// A subscriber that comes and goes leaves no trace: once its cursor is
/// released the hub is what it was before it joined.
pub proof fn lemma_release_undoes_subscribe(hub: HubView)
    ensures
        hub.subscribe().release() == hub,
        hub.subscribe().outcome() == PublishOutcome::Delivered,
{
}

/// What one read hands to a subscriber.
#[derive(Debug, PartialEq, Eq)]
pub enum MessageOrGap {
    /// The next message in publish order.
    Message(Message),
    /// Messages that the cursor had not read yet were evicted. The cursor now
    /// stands on the oldest message that is left; how many were lost is not
    /// told.
    Gap,
    /// The hub is closed and the cursor has read everything.
    Closed,
}

impl View for MessageOrGap {
    type V = MessageOrGapView;

    open spec fn view(&self) -> MessageOrGapView {
        match self {
            MessageOrGap::Message(m) => MessageOrGapView::Message(m@),
            MessageOrGap::Gap => MessageOrGapView::Gap,
            MessageOrGap::Closed => MessageOrGapView::Closed,
        }
    }
}

impl DeepView for MessageOrGap {
    type V = MessageOrGapView;

    open spec fn deep_view(&self) -> MessageOrGapView {
        self@
    }
}

/// The slot that holds the message `offset` places after the oldest one, in
/// a ring of `capacity` slots whose oldest message lies in slot `start`.
spec fn slot_of(start: int, offset: int, capacity: int) -> int {
    if start + offset < capacity {
        start + offset
    } else {
        start + offset - capacity
    }
}

/// The shared broadcaster.
pub struct Hub {
    /// The retained messages. Filled front to back until `capacity` is
    /// reached, then overwritten in a ring.
    slots: Vec<Message>,
    capacity: usize,
    /// The slot of the oldest retained message.
    start: usize,
    /// The number of messages published so far.
    sequence: u64,
    subscribers: usize,
    closed: bool,
    history: Ghost<Seq<MessageView>>,
}

impl View for Hub {
    type V = HubView;

    closed spec fn view(&self) -> HubView {
        HubView {
            capacity: self.capacity as nat,
            history: self.history@,
            subscribers: self.subscribers as nat,
            closed: self.closed,
        }
    }
}

impl Hub {
    /// The fields stand for the view: the counter counts the history and the
    /// ring holds its last `capacity` messages, oldest at `start`.
    pub closed spec fn represents(&self) -> bool {
        &&& self.history@.len() == self.sequence
        &&& self.slots@.len() == if self.sequence < self.capacity {
            self.sequence as int
        } else {
            self.capacity as int
        }
        &&& self.start < self.capacity
        &&& self.slots@.len() < self.capacity ==> self.start == 0
        &&& forall|i: int|
            0 <= i < self.slots@.len() ==> (#[trigger] self.slots@[slot_of(
                self.start as int,
                i,
                self.capacity as int,
            )])@ == self.history@[self@.oldest() + i]
    }

    /// Well-formedness: established by [`Hub::new`], kept by every method.
    pub open spec fn wf(&self) -> bool {
        &&& self@.wf()
        &&& self@.sequence() <= u64::MAX
        &&& self@.subscribers <= usize::MAX
        &&& self@.capacity <= usize::MAX
        &&& self.represents()
    }

    /// A hub that retains the last `capacity` messages.
    pub fn new(capacity: usize) -> (hub: Hub)
        requires
            capacity >= 1,
        ensures
            hub.wf(),
            hub@ == HubView::empty(capacity as nat),
    {
        Hub {
            slots: Vec::new(),
            capacity,
            start: 0,
            sequence: 0,
            subscribers: 0,
            closed: false,
            history: Ghost(Seq::empty()),
        }
    }

    /// Appends `msg` under the next sequence number, evicting the oldest
    /// retained message if the window is full. Succeeds whether or not
    /// anybody listens, and says which it was.
    pub fn publish(&mut self, msg: Message) -> (outcome: PublishOutcome)
        requires
            old(self).wf(),
            old(self)@.sequence() < u64::MAX,
        ensures
            final(self).wf(),
            final(self)@ == old(self)@.publish(msg@),
            outcome == old(self)@.outcome(),
    {
        let ghost before = *self;
        let ghost added = msg@;
        if self.slots.len() < self.capacity {
            self.slots.push(msg);
        } else {
            self.slots.set(self.start, msg);
            self.start = if self.start + 1 == self.capacity {
                0
            } else {
                self.start + 1
            };
        }
        self.sequence = self.sequence + 1;
        self.history = Ghost(self.history@.push(added));
        proof {
            let cap = self.capacity as int;
            assert forall|i: int| 0 <= i < self.slots@.len() implies (#[trigger] self.slots@[slot_of(
                self.start as int,
                i,
                cap,
            )])@ == self.history@[self@.oldest() + i] by {
                if before.slots@.len() < cap {
                    if i < before.slots@.len() {
                        assert(before.slots@[slot_of(0, i, cap)]@ == before.history@[i]);
                    }
                } else {
                    if i < cap - 1 {
                        assert(before.slots@[slot_of(before.start as int, i + 1, cap)]@
                            == before.history@[before@.oldest() + i + 1]);
                    }
                }
            }
            assert(self@ =~= before@.publish(added));
        }
        if self.subscribers > 0 {
            PublishOutcome::Delivered
        } else {
            PublishOutcome::NoSubscribers
        }
    }

    /// Adds a subscriber. Its cursor stands at the current publish sequence,
    /// so it will be handed only what is published from now on.
    pub fn subscribe(&mut self) -> (cursor: SubscriberCursor)
        requires
            old(self).wf(),
            old(self)@.subscribers < usize::MAX,
        ensures
            final(self).wf(),
            final(self)@ == old(self)@.subscribe(),
            cursor@ == old(self)@.sequence(),
    {
        self.subscribers = self.subscribers + 1;
        SubscriberCursor { position: self.sequence }
    }

    /// Takes back the cursor of a subscriber that has gone, and counts one
    /// subscriber fewer.
    pub fn release(&mut self, _cursor: SubscriberCursor)
        requires
            old(self).wf(),
        ensures
            final(self).wf(),
            final(self)@ == old(self)@.release(),
    {
        if self.subscribers > 0 {
            self.subscribers = self.subscribers - 1;
        }
    }

    /// Closes the hub: a subscriber that has read everything is told so and
    /// stops. Closing twice is closing once. Publishing stays possible; what
    /// is published to a closed hub is retained like any other message.
    pub fn close(&mut self)
        requires
            old(self).wf(),
        ensures
            final(self).wf(),
            final(self)@ == old(self)@.close(),
    {
        self.closed = true;
    }

    /// The number of messages that the hub retains at most.
    pub fn capacity(&self) -> (n: usize)
        requires
            self.wf(),
        ensures
            n == self@.capacity,
    {
        self.capacity
    }

    /// The publish sequence: how many messages have been published.
    pub fn sequence(&self) -> (n: u64)
        requires
            self.wf(),
        ensures
            n == self@.sequence(),
    {
        self.sequence
    }

    /// The sequence number of the oldest retained message.
    pub fn oldest(&self) -> (n: u64)
        requires
            self.wf(),
        ensures
            n == self@.oldest(),
    {
        self.sequence - (self.slots.len() as u64)
    }

    /// The number of retained messages, never more than the capacity.
    pub fn len(&self) -> (n: usize)
        requires
            self.wf(),
        ensures
            n == self@.retained().len(),
            n <= self@.capacity,
    {
        self.slots.len()
    }

    /// The number of live subscribers.
    pub fn subscribers(&self) -> (n: usize)
        requires
            self.wf(),
        ensures
            n == self@.subscribers,
    {
        self.subscribers
    }

    /// Whether the hub has been closed.
    pub fn is_closed(&self) -> (closed: bool)
        requires
            self.wf(),
        ensures
            closed == self@.closed,
    {
        self.closed
    }
}

/// A subscriber's private read position: the sequence number of the message
/// that it will be handed next. Owned by one subscriber and never copied.
#[derive(Debug)]
pub struct SubscriberCursor {
    position: u64,
}

impl View for SubscriberCursor {
    type V = nat;

    closed spec fn view(&self) -> nat {
        self.position as nat
    }
}

impl SubscriberCursor {
    /// The sequence number of the message that this cursor will be handed
    /// next.
    pub fn position(&self) -> (n: u64)
        ensures
            n == self@,
    {
        self.position
    }

    /// One read that never waits: `None` says that there is nothing to hand
    /// out yet and the subscriber has to wait for the next publish or close.
    ///
    /// Otherwise the cursor is told of a gap and moved to the oldest retained
    /// message, or handed a copy of the message at its position and moved one
    /// further, or told that the hub is closed.
    pub fn receive(&mut self, hub: &Hub) -> (result: Option<MessageOrGap>)
        requires
            hub.wf(),
        ensures
            result.deep_view() == hub@.receive(old(self)@),
            final(self)@ == hub@.advance(old(self)@),
            old(self)@ <= hub@.sequence() ==> final(self)@ <= hub@.sequence(),
    {
        let oldest: u64 = hub.oldest();
        if self.position < oldest {
            self.position = oldest;
            Some(MessageOrGap::Gap)
        } else if self.position < hub.sequence {
            let offset: usize = (self.position - oldest) as usize;
            let before_wrap: usize = hub.capacity - hub.start;
            let slot: usize = if offset < before_wrap {
                hub.start + offset
            } else {
                offset - before_wrap
            };
            assert(slot == slot_of(hub.start as int, offset as int, hub.capacity as int));
            let copy = hub.slots[slot].clone();
            self.position = self.position + 1;
            Some(MessageOrGap::Message(copy))
        } else if hub.closed {
            Some(MessageOrGap::Closed)
        } else {
            None
        }
    }
}

} // verus!
