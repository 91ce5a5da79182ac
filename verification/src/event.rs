//! The events that drive the dashboard, and the bounded queue in which they
//! wait between the two producers, the keyboard and the timer, and the one
//! consumer, the loop.
//!
//! The queue never drops an event. When it is full it hands the event back,
//! and the producer keeps it and offers it again once there is room.

use vstd::prelude::*;
use std::collections::VecDeque;

verus! {

/// The time between two ticks, in milliseconds.
pub const TICK_MILLIS: u64 = 250;

/// The number of events that may wait for the loop.
pub const QUEUE_CAPACITY: usize = 64;

/// A key press.
#[derive(Clone, Copy, Debug, PartialEq, Eq, Structural)]
pub enum Key {
    Backspace,
    Left,
    Right,
    Up,
    Down,
    Home,
    End,
    PageUp,
    PageDown,
    BackTab,
    Delete,
    Insert,
    /// A function key, by its number.
    F(u8),
    /// A character key.
    Char(char),
    /// A character key, pressed with Alt.
    Alt(char),
    /// A character key, pressed with Ctrl.
    Ctrl(char),
    Null,
    Esc,
    /// A key that has no name here.
    Unknown,
}

/// The key that ends the program.
pub open spec fn quit_key() -> Key {
    Key::Char('q')
}

impl Key {
    /// Whether this is the key that ends the program.
    pub fn is_quit(self) -> (yes: bool)
        ensures
            yes == (self == quit_key()),
    {
        match self {
            Key::Char(c) => c == 'q',
            _ => false,
        }
    }
}

/// What the loop waits for.
#[derive(Clone, Copy, Debug, PartialEq, Eq, Structural)]
pub enum Event {
    /// A key was pressed.
    Input(Key),
    /// The refresh interval has passed.
    Tick,
}

/// The queue after `event` was offered to it: the event stands at the end
/// where there was room, and the queue is as it was where there was none.
pub open spec fn offered(queue: Seq<Event>, capacity: nat, event: Event) -> Seq<Event> {
    if queue.len() < capacity {
        queue.push(event)
    } else {
        queue
    }
}

/// The queue after its first event was taken from it.
pub open spec fn taken(queue: Seq<Event>) -> Seq<Event> {
    if queue.len() > 0 {
        queue.subrange(1, queue.len() as int)
    } else {
        queue
    }
}

/// Events in the order of their arrival, at most `capacity` of them.
pub struct EventQueue {
    items: VecDeque<Event>,
    capacity: usize,
}

impl View for EventQueue {
    type V = Seq<Event>;

    closed spec fn view(&self) -> Seq<Event> {
        self.items@
    }
}

impl EventQueue {
    /// The queue holds no more events than it has room for. Every queue
    /// that `new` made, with whatever was done to it since, is such a one.
    pub open spec fn well_formed(self) -> bool {
        self@.len() <= self.capacity()
    }

    /// The number of events that the queue has room for.
    pub closed spec fn capacity(self) -> nat {
        self.capacity as nat
    }

    /// An empty queue with room for `capacity` events.
    pub fn new(capacity: usize) -> (queue: EventQueue)
        ensures
            queue@ == Seq::<Event>::empty(),
            queue.capacity() == capacity,
            queue.well_formed(),
    {
        EventQueue { items: VecDeque::new(), capacity }
    }

    /// The number of events that wait.
    pub fn len(&self) -> (n: usize)
        ensures
            n == self@.len(),
            self.well_formed() ==> n <= self.capacity(),
    {
        self.items.len()
    }

    /// The number of events that the queue has room for.
    pub fn room(&self) -> (n: usize)
        ensures
            n == self.capacity(),
    {
        self.capacity
    }

    /// Whether no event waits.
    pub fn is_empty(&self) -> (yes: bool)
        ensures
            yes == (self@.len() == 0),
    {
        self.items.len() == 0
    }

    /// Whether the queue has no room left.
    pub fn is_full(&self) -> (yes: bool)
        ensures
            yes == (self@.len() >= self.capacity()),
    {
        self.items.len() >= self.capacity
    }

    /// Puts `event` at the end of the queue if there is room. If there is
    /// none the queue stays as it is and the event comes back, for the
    /// producer to keep.
    pub fn offer(&mut self, event: Event) -> (r: Result<(), Event>)
        ensures
            final(self)@ == offered(old(self)@, old(self).capacity(), event),
            final(self).capacity() == old(self).capacity(),
            r == if old(self)@.len() < old(self).capacity() {
                Ok::<(), Event>(())
            } else {
                Err::<(), Event>(event)
            },
    {
        if self.items.len() < self.capacity {
            self.items.push_back(event);
            Ok(())
        } else {
            Err(event)
        }
    }

    /// Takes the event that has waited longest, if any waits.
    pub fn next(&mut self) -> (r: Option<Event>)
        ensures
            final(self)@ == taken(old(self)@),
            final(self).capacity() == old(self).capacity(),
            r == if old(self)@.len() > 0 {
                Some(old(self)@[0])
            } else {
                None::<Event>
            },
    {
        self.items.pop_front()
    }
}

/// One use of a queue: a producer offers an event, or the consumer takes
/// one.
pub enum Step {
    Offer(Event),
    Take,
}

/// What has gone through a queue since it was made.
pub struct Traffic {
    /// The events that wait in the queue, oldest first.
    pub waiting: Seq<Event>,
    /// The events that the queue took in, in the order in which it did.
    pub accepted: Seq<Event>,
    /// The events that the consumer got, in the order in which it did.
    pub delivered: Seq<Event>,
}

/// The traffic after one more step on a queue with room for `capacity`
/// events. An offer to a full queue and a take from an empty one change
/// nothing.
pub open spec fn traffic_step(before: Traffic, capacity: nat, step: Step) -> Traffic {
    match step {
        Step::Offer(event) => Traffic {
            waiting: offered(before.waiting, capacity, event),
            accepted: if before.waiting.len() < capacity {
                before.accepted.push(event)
            } else {
                before.accepted
            },
            delivered: before.delivered,
        },
        Step::Take => Traffic {
            waiting: taken(before.waiting),
            accepted: before.accepted,
            delivered: if before.waiting.len() > 0 {
                before.delivered.push(before.waiting[0])
            } else {
                before.delivered
            },
        },
    }
}

/// The traffic of a new queue after `steps`, in their order.
pub open spec fn traffic_after(capacity: nat, steps: Seq<Step>) -> Traffic
    decreases steps.len(),
{
    if steps.len() == 0 {
        Traffic { waiting: Seq::empty(), accepted: Seq::empty(), delivered: Seq::empty() }
    } else {
        traffic_step(traffic_after(capacity, steps.drop_last()), capacity, steps.last())
    }
}

/// The traffic after the consumer has taken `n` more times.
pub open spec fn drained(before: Traffic, capacity: nat, n: nat) -> Traffic
    decreases n,
{
    if n == 0 {
        before
    } else {
        drained(traffic_step(before, capacity, Step::Take), capacity, (n - 1) as nat)
    }
}

/// Whether an event is a tick.
pub open spec fn is_tick(event: Event) -> bool {
    event == Event::Tick
}

/// Nothing is lost and nothing overtakes: whatever is offered and taken, in
/// whatever order, the events that the queue took in are those that the
/// consumer got followed by those that still wait. The queue stays within
/// its capacity.
pub proof fn lemma_nothing_lost(capacity: nat, steps: Seq<Step>)
    ensures
        ({
            let traffic = traffic_after(capacity, steps);
            &&& traffic.accepted == traffic.delivered + traffic.waiting
            &&& traffic.waiting.len() <= capacity
        }),
    decreases steps.len(),
{
    if steps.len() > 0 {
        lemma_nothing_lost(capacity, steps.drop_last());
        let before = traffic_after(capacity, steps.drop_last());
        let after = traffic_after(capacity, steps);
        assert(after.accepted =~= after.delivered + after.waiting);
    }
}

/// No tick is skipped: the ticks that the queue took in are the ticks that
/// the consumer got followed by the ticks that still wait.
pub proof fn lemma_ticks_kept(capacity: nat, steps: Seq<Step>)
    ensures
        ({
            let traffic = traffic_after(capacity, steps);
            traffic.accepted.filter(|e: Event| is_tick(e)) == traffic.delivered.filter(
                |e: Event| is_tick(e),
            ) + traffic.waiting.filter(|e: Event| is_tick(e))
        }),
{
    let traffic = traffic_after(capacity, steps);
    lemma_nothing_lost(capacity, steps);
    Seq::filter_distributes_over_add(traffic.delivered, traffic.waiting, |e: Event| is_tick(e));
}

/// A producer that was turned away gets in once the consumer has taken an
/// event: an offer that follows a take from a full queue with room for at
/// least one event is taken in, behind everything that waited.
pub proof fn lemma_room_after_take(before: Traffic, capacity: nat, event: Event)
    requires
        capacity >= 1,
        before.waiting.len() == capacity,
    ensures
        traffic_step(before, capacity, Step::Offer(event)) == before,
        ({
            let resumed = traffic_step(before, capacity, Step::Take);
            let retried = traffic_step(resumed, capacity, Step::Offer(event));
            &&& retried.accepted == before.accepted.push(event)
            &&& retried.waiting == taken(before.waiting).push(event)
            &&& retried.delivered == before.delivered.push(before.waiting[0])
        }),
{
}

/// A consumer that comes back after a stall gets everything: once it has
/// taken as many events as were waiting, it has got every event that the
/// queue took in, in that order, and the queue is empty.
pub proof fn lemma_drained_delivers_all(before: Traffic, capacity: nat)
    requires
        before.accepted == before.delivered + before.waiting,
    ensures
        ({
            let end = drained(before, capacity, before.waiting.len());
            &&& end.delivered == before.accepted
            &&& end.accepted == before.accepted
            &&& end.waiting.len() == 0
        }),
    decreases before.waiting.len(),
{
    if before.waiting.len() > 0 {
        let next = traffic_step(before, capacity, Step::Take);
        assert(next.accepted =~= next.delivered + next.waiting);
        lemma_drained_delivers_all(next, capacity);
    } else {
        assert(before.delivered + before.waiting =~= before.delivered);
    }
}

} // verus!
