//! The broadcast bus.
//!
//! One publisher, any number of subscribers. The bus keeps the newest
//! messages, as many as its capacity, and numbers every message it was ever
//! given. A subscriber holds a cursor, the number of the message it reads
//! next. Publishing never waits for a subscriber: a cursor that has fallen
//! behind what the bus still keeps skips to the oldest message kept.

use std::collections::VecDeque;
use vstd::prelude::*;

verus! {

/// The capacity of the bus that the relay runs with.
pub const DEFAULT_CAPACITY: usize = 100;

/// What a bus is: its capacity, every message published so far, in order,
/// and whether it was closed.
pub struct BusView {
    pub capacity: nat,
    pub history: Seq<Seq<char>>,
    pub closed: bool,
}

impl BusView {
    /// How many messages the bus still keeps.
    pub open spec fn kept(self) -> nat {
        if self.history.len() < self.capacity {
            self.history.len()
        } else {
            self.capacity
        }
    }

    /// The number of the oldest message that the bus still keeps.
    pub open spec fn oldest(self) -> nat {
        (self.history.len() - self.kept()) as nat
    }

    /// The number of the message that a cursor at `position` reads next, if
    /// there is one.
    pub open spec fn next_index(self, position: nat) -> Option<nat> {
        if position >= self.history.len() {
            None
        } else if position < self.oldest() {
            Some(self.oldest())
        } else {
            Some(position)
        }
    }

    /// The bus after `message` was published.
    pub open spec fn with(self, message: Seq<char>) -> BusView {
        BusView { history: self.history.push(message), ..self }
    }

    /// Whether the bus takes another message.
    pub open spec fn accepts(self) -> bool {
        !self.closed && self.history.len() < u64::MAX
    }
}

/// What a subscriber is handed when it asks for its next message.
#[derive(Debug, PartialEq, Eq)]
pub enum Delivery {
    /// The message with the number `sequence`.
    Message { sequence: u64, text: String },
    /// Nothing new yet.
    Pending,
    /// Nothing new, and the bus is closed.
    Closed,
}

pub enum DeliveryView {
    Message { sequence: nat, text: Seq<char> },
    Pending,
    Closed,
}

impl View for Delivery {
    type V = DeliveryView;

    open spec fn view(&self) -> DeliveryView {
        match self {
            Delivery::Message { sequence, text } => DeliveryView::Message {
                sequence: *sequence as nat,
                text: text@,
            },
            Delivery::Pending => DeliveryView::Pending,
            Delivery::Closed => DeliveryView::Closed,
        }
    }
}

/// A subscriber's place on the bus: the number of the message it reads
/// next.
pub struct Cursor {
    position: u64,
}

impl View for Cursor {
    type V = nat;

    closed spec fn view(&self) -> nat {
        self.position as nat
    }
}

impl Cursor {
    /// The number of the message that the cursor reads next.
    pub fn position(&self) -> (position: u64)
        ensures
            position == self@,
    {
        self.position
    }
}

/// A bounded, lossy fan-out channel of texts.
pub struct BroadcastBus {
    capacity: usize,
    retained: VecDeque<String>,
    published: u64,
    closed: bool,
    history: Ghost<Seq<Seq<char>>>,
}

impl View for BroadcastBus {
    type V = BusView;

    closed spec fn view(&self) -> BusView {
        BusView { capacity: self.capacity as nat, history: self.history@, closed: self.closed }
    }
}

impl BroadcastBus {
    /// The bus keeps the newest messages of its history, as many as its
    /// capacity, which is at least one.
    #[verifier::type_invariant]
    spec fn inv(self) -> bool {
        &&& self.capacity >= 1
        &&& self.published == self.history@.len()
        &&& self.retained@.len() == self@.kept()
        &&& forall|k: int|
            0 <= k < self.retained@.len() ==> (#[trigger] self.retained@[k])@ == self.history@[self@.oldest()
                + k]
    }

    /// A bus that keeps up to `capacity` messages; none where `capacity`
    /// is 0.
    pub fn new(capacity: usize) -> (bus: Option<BroadcastBus>)
        ensures
            match bus {
                Some(bus) => capacity >= 1 && bus@ == (BusView {
                    capacity: capacity as nat,
                    history: Seq::empty(),
                    closed: false,
                }),
                None => capacity == 0,
            },
    {
        if capacity == 0 {
            None
        } else {
            Some(
                BroadcastBus {
                    capacity,
                    retained: VecDeque::new(),
                    published: 0,
                    closed: false,
                    history: Ghost(Seq::empty()),
                },
            )
        }
    }

    /// How many messages the bus keeps at most.
    pub fn capacity(&self) -> (capacity: usize)
        ensures
            capacity == self@.capacity,
            capacity >= 1,
    {
        proof {
            use_type_invariant(self);
        }
        self.capacity
    }

    /// The number of messages published so far.
    pub fn published(&self) -> (count: u64)
        ensures
            count == self@.history.len(),
    {
        proof {
            use_type_invariant(self);
        }
        self.published
    }

    /// Whether the bus was closed.
    pub fn is_closed(&self) -> (closed: bool)
        ensures
            closed == self@.closed,
    {
        self.closed
    }

    /// Appends a message for every subscriber, dropping the oldest one kept
    /// where the bus is full. A closed bus takes nothing.
    pub fn publish(&mut self, message: String) -> (accepted: bool)
        ensures
            accepted == old(self)@.accepts(),
            final(self)@ == if accepted {
                old(self)@.with(message@)
            } else {
                old(self)@
            },
    {
        proof {
            use_type_invariant(&*self);
        }
        if self.closed || self.published == u64::MAX {
            return false;
        }
        let ghost before = self@;
        // The bus is taken out whole, changed and put back, so that what
        // `self` holds is a bus in order at every moment.
        let mut taken = BroadcastBus {
            capacity: 1,
            retained: VecDeque::new(),
            published: 0,
            closed: false,
            history: Ghost(Seq::empty()),
        };
        core::mem::swap(self, &mut taken);
        let BroadcastBus { capacity, retained, published, closed, history } = taken;
        let mut retained = retained;
        let ghost kept_before = retained@;
        if retained.len() == capacity {
            retained.pop_front();
        }
        retained.push_back(message);
        let ghost grown = history@.push(message@);
        proof {
            let after = BusView { capacity: capacity as nat, history: grown, closed };
            assert(after == before.with(message@));
            assert forall|k: int| 0 <= k < retained@.len() implies (#[trigger] retained@[k])@
                == grown[after.oldest() + k] by {
                if k < retained@.len() - 1 {
                    if kept_before.len() == capacity {
                        assert(retained@[k] == kept_before[k + 1]);
                    } else {
                        assert(retained@[k] == kept_before[k]);
                    }
                }
            }
        }
        *self = BroadcastBus {
            capacity,
            retained,
            published: published + 1,
            closed,
            history: Ghost(grown),
        };
        true
    }

    /// Closes the bus: a subscriber that has read everything is told so.
    pub fn close(&mut self)
        ensures
            final(self)@ == (BusView { closed: true, ..old(self)@ }),
    {
        proof {
            use_type_invariant(&*self);
        }
        self.closed = true;
    }

    /// A cursor for a new subscriber. It starts at now: nothing published
    /// before is read through it.
    pub fn subscribe(&self) -> (cursor: Cursor)
        ensures
            cursor@ == self@.history.len(),
    {
        proof {
            use_type_invariant(self);
        }
        Cursor { position: self.published }
    }

    /// The next message for a subscriber, and its cursor moved past it.
    ///
    /// A cursor that is behind what the bus keeps reads the oldest message
    /// kept. Where nothing is left to read the cursor stays, and the answer
    /// says whether more may come.
    pub fn next(&self, cursor: &mut Cursor) -> (delivery: Delivery)
        ensures
            match self@.next_index(old(cursor)@) {
                Some(index) => delivery@ == (DeliveryView::Message {
                    sequence: index,
                    text: self@.history[index as int],
                }) && final(cursor)@ == index + 1,
                None => final(cursor)@ == old(cursor)@ && delivery@ == if self@.closed {
                    DeliveryView::Closed
                } else {
                    DeliveryView::Pending
                },
            },
    {
        proof {
            use_type_invariant(self);
        }
        if cursor.position >= self.published {
            return if self.closed {
                Delivery::Closed
            } else {
                Delivery::Pending
            };
        }
        let kept: u64 = self.retained.len() as u64;
        let oldest: u64 = self.published - kept;
        let sequence: u64 = if cursor.position < oldest {
            oldest
        } else {
            cursor.position
        };
        let slot: usize = (sequence - oldest) as usize;
        let text = self.retained[slot].clone();
        cursor.position = sequence + 1;
        Delivery::Message { sequence, text }
    }
}

/// What a subscriber reads is in publish order: of two messages read one
/// after the other, through any number of publications in between, the
/// second was published after the first. No message is read twice and none
/// out of order; where the subscriber fell behind more than the bus keeps,
/// messages are left out.
pub proof fn lemma_deliveries_in_publish_order(
    before: BusView,
    after: BusView,
    position: nat,
    first: nat,
    second: nat,
)
    requires
        before.capacity >= 1,
        before.capacity == after.capacity,
        before.history.len() <= after.history.len(),
        before.history == after.history.subrange(0, before.history.len() as int),
        before.next_index(position) == Some(first),
        after.next_index(first + 1) == Some(second),
    ensures
        position <= first < second < after.history.len(),
        before.history[first as int] == after.history[first as int],
{
}

/// The numbers of the messages that a subscriber at `position` reads when
/// it reads until nothing is left.
pub open spec fn drained(bus: BusView, position: nat) -> Seq<nat>
    decreases bus.history.len() - position,
{
    match bus.next_index(position) {
        Some(index) if position <= index < bus.history.len() => seq![index] + drained(
            bus,
            index + 1,
        ),
        _ => Seq::empty(),
    }
}

/// Where a subscriber at `position` starts to read: at its cursor, or at
/// the oldest message kept where it has fallen behind that.
pub open spec fn resumes_at(bus: BusView, position: nat) -> nat {
    if position >= bus.history.len() {
        bus.history.len()
    } else if position < bus.oldest() {
        bus.oldest()
    } else {
        position
    }
}

/// A subscriber that reads until nothing is left reads every message from
/// where it resumes to the newest, each once and in publish order.
pub proof fn lemma_drained_in_order(bus: BusView, position: nat)
    requires
        bus.capacity >= 1,
    ensures
        drained(bus, position) == Seq::new(
            (bus.history.len() - resumes_at(bus, position)) as nat,
            |i: int| (resumes_at(bus, position) + i) as nat,
        ),
    decreases bus.history.len() - position,
{
    let start = resumes_at(bus, position);
    let expected = Seq::new(
        (bus.history.len() - start) as nat,
        |i: int| (start + i) as nat,
    );
    if position < bus.history.len() {
        lemma_drained_in_order(bus, start + 1);
        let rest = drained(bus, start + 1);
        assert(resumes_at(bus, start + 1) == start + 1);
        assert(seq![start] + rest =~= expected);
    } else {
        assert(drained(bus, position) =~= expected);
    }
}

/// A subscriber that has not fallen behind more than the bus keeps misses
/// nothing: it reads the message at its cursor.
pub proof fn lemma_no_loss_within_capacity(bus: BusView, position: nat)
    requires
        bus.capacity >= 1,
        position < bus.history.len(),
        bus.history.len() - position <= bus.capacity,
    ensures
        bus.next_index(position) == Some(position),
{
}

/// A message that is published reaches every subscriber that had read
/// everything before it: it is the next one that each of them reads.
pub proof fn lemma_publication_reaches(bus: BusView, message: Seq<char>, position: nat)
    requires
        bus.capacity >= 1,
        position == bus.history.len(),
    ensures
        bus.with(message).next_index(position) == Some(position),
        bus.with(message).history[position as int] == message,
{
}

} // verus!
