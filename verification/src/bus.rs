//! The broadcast bus: append-only fan-out of domain events to every
//! active session.  Publishing never blocks; each subscription holds its
//! own cursor; a subscription taken after an event was published never
//! observes that event, and events reach a subscriber in publication
//! order.  The bus keeps a fixed-capacity ring: a subscriber that falls
//! more than the capacity behind loses the oldest undelivered events and
//! is told how many it lost.

use vstd::prelude::*;
use crate::messages::Message;
use crate::messages::MessageModel;

verus! {

/// The ring capacity this daemon uses.
pub const BUS_CAPACITY: usize = 32;

/// Where the kept window starts in the full event history.
pub open spec fn spec_window_start(len: int, capacity: int) -> int {
    if len >= capacity {
        len - capacity
    } else {
        0
    }
}

/// What one receive attempt returns: the next event, a notice of how
/// many events were lost to ring overflow, or nothing yet.
pub enum RecvOutcome {
    Received(Message),
    Lagged(u64),
    Empty,
}

/// The broadcast bus.  Its view is the full publication history; only
/// the last [`Bus::capacity`] events are still held.
pub struct Bus {
    buffer: Vec<Message>,
    base: usize,
    capacity: usize,
    history: Ghost<Seq<MessageModel>>,
}

/// One session's private receive end: a cursor into the history.
pub struct Subscription {
    cursor: usize,
}

impl View for Subscription {
    type V = int;

    closed spec fn view(&self) -> int {
        self.cursor as int
    }
}

impl View for Bus {
    type V = Seq<MessageModel>;

    closed spec fn view(&self) -> Seq<MessageModel> {
        self.history@
    }
}

impl Bus {
    /// The ring capacity the bus was created with.
    pub closed spec fn capacity(self) -> int {
        self.capacity as int
    }

    /// The bus invariant: the buffer is exactly the kept window of the
    /// history.
    pub closed spec fn wf(self) -> bool {
        &&& self.capacity > 0
        &&& self.history@.len() <= usize::MAX
        &&& self.base + self.buffer@.len() == self.history@.len()
        &&& self.base as int == spec_window_start(self.history@.len() as int, self.capacity as int)
        &&& forall|i: int|
            0 <= i < self.buffer@.len() ==> #[trigger] self.buffer@[i]@ == self.history@[self.base
                + i]
    }

    /// A fresh bus with this ring capacity.
    pub fn new(capacity: usize) -> (b: Bus)
        requires
            capacity > 0,
        ensures
            b.wf(),
            b@ =~= Seq::<MessageModel>::empty(),
            b.capacity() == capacity,
    {
        Bus {
            buffer: Vec::new(),
            base: 0,
            capacity,
            history: Ghost(Seq::empty()),
        }
    }

    /// Publishes an event: appended to the history, dropping the oldest
    /// held event once the ring is full.  Never blocks; an event nobody
    /// ever receives is simply gone.
    pub fn publish(&mut self, m: Message)
        requires
            old(self).wf(),
            old(self)@.len() < usize::MAX,
        ensures
            final(self).wf(),
            final(self)@ =~= old(self)@.push(m@),
            final(self).capacity() == old(self).capacity(),
    {
        if self.buffer.len() == self.capacity {
            self.buffer.remove(0);
            self.base += 1;
        }
        let ghost m_model = m@;
        self.buffer.push(m);
        proof {
            self.history@ = self.history@.push(m_model);
        }
    }

    /// One receive attempt on a subscription: an undelivered event in the
    /// kept window comes back in publication order; a cursor that fell
    /// out of the window skips forward and reports how much was lost; a
    /// cursor at the end finds nothing.
    pub fn recv(&self, sub: &mut Subscription) -> (r: RecvOutcome)
        requires
            self.wf(),
            0 <= old(sub)@ <= self@.len(),
        ensures
            ({
                let ws = spec_window_start(self@.len() as int, self.capacity());
                &&& old(sub)@ < ws ==> r is Lagged && r->Lagged_0 as int == ws - old(sub)@
                    && final(sub)@ == ws
                &&& ws <= old(sub)@ < self@.len() ==> r is Received && r->Received_0@
                    == self@[old(sub)@] && final(sub)@ == old(sub)@ + 1
                &&& old(sub)@ == self@.len() ==> r is Empty && final(sub)@ == old(sub)@
            }),
            0 <= final(sub)@ <= self@.len(),
    {
        if sub.cursor < self.base {
            let skipped = self.base - sub.cursor;
            sub.cursor = self.base;
            RecvOutcome::Lagged(skipped as u64)
        } else if sub.cursor - self.base < self.buffer.len() {
            let m = self.buffer[sub.cursor - self.base].duplicate();
            sub.cursor += 1;
            RecvOutcome::Received(m)
        } else {
            RecvOutcome::Empty
        }
    }

    /// A fresh receive end, seeing only what is published from now on.
    pub fn subscribe(&self) -> (s: Subscription)
        requires
            self.wf(),
        ensures
            s@ == self@.len(),
    {
        Subscription { cursor: self.buffer.len() + self.base }
    }
}

} // verus!
