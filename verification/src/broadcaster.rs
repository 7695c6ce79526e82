//! The bounded fan-out buffer of one stream.
//!
//! A [`Broadcaster`] keeps the newest frames of its stream, at most as many as
//! its capacity. A [`Subscription`] is a reader's position in the sequence of
//! everything the broadcaster has accepted. Publishing never looks at the
//! readers; a reader that fell behind the oldest retained frame is told how
//! many frames it missed and goes on from that oldest frame.
//!
//! The contracts are stated over [`Channel`], the mathematical model of a
//! broadcaster: its capacity, every frame it has accepted so far, the number of
//! open subscriptions, and whether it was closed.

use vstd::prelude::*;
use std::collections::VecDeque;

verus! {

/// The capacity of a broadcaster where nothing else is asked for.
pub const DEFAULT_CAPACITY: usize = 100;

/// What one poll of a subscription yields, in the model.
pub enum Polled {
    /// The frame at the reader's position.
    Frame(Seq<u8>),
    /// The reader missed this many frames, which were evicted unread.
    Lagged(nat),
    /// The broadcaster was closed and the reader has seen all it retained.
    Closed,
    /// The reader has seen every frame published so far.
    Pending,
}

/// The model of one broadcaster.
pub struct Channel {
    /// The number of frames that are retained at most. Positive.
    pub capacity: nat,
    /// Every frame accepted so far, in publish order.
    pub history: Seq<Seq<u8>>,
    /// The number of open subscriptions.
    pub subscribers: nat,
    /// Whether the broadcaster was torn down.
    pub closed: bool,
}

impl Channel {
    /// A channel that has accepted nothing and has no subscriber.
    pub open spec fn fresh(capacity: nat) -> Channel {
        Channel { capacity, history: Seq::empty(), subscribers: 0, closed: false }
    }

    /// The number of frames accepted so far: the sequence number of the next one.
    pub open spec fn published(self) -> nat {
        self.history.len()
    }

    /// The sequence number of the oldest frame that is still retained.
    pub open spec fn oldest(self) -> nat {
        if self.history.len() <= self.capacity {
            0
        } else {
            (self.history.len() - self.capacity) as nat
        }
    }

    /// The frames that are still retained, oldest first.
    pub open spec fn retained(self) -> Seq<Seq<u8>> {
        self.history.subrange(self.oldest() as int, self.history.len() as int)
    }

    /// The channel after `frame` was offered: an open channel accepts it, a
    /// closed one is unchanged.
    pub open spec fn publish(self, frame: Seq<u8>) -> Channel {
        if self.closed {
            self
        } else {
            Channel { history: self.history.push(frame), ..self }
        }
    }

    /// The channel after one more subscription was opened.
    pub open spec fn subscribe(self) -> Channel {
        Channel { subscribers: self.subscribers + 1, ..self }
    }

    /// The channel after one subscription was given back.
    pub open spec fn release(self) -> Channel {
        Channel {
            subscribers: if self.subscribers > 0 {
                (self.subscribers - 1) as nat
            } else {
                0
            },
            ..self
        }
    }

    /// The channel after it was torn down.
    pub open spec fn close(self) -> Channel {
        Channel { closed: true, ..self }
    }

    /// What a reader at position `cursor` is handed.
    pub open spec fn poll(self, cursor: nat) -> Polled {
        if cursor < self.oldest() {
            Polled::Lagged((self.oldest() - cursor) as nat)
        } else if cursor < self.published() {
            Polled::Frame(self.history[cursor as int])
        } else if self.closed {
            Polled::Closed
        } else {
            Polled::Pending
        }
    }

    /// Where a reader at position `cursor` stands after one poll.
    pub open spec fn advance(self, cursor: nat) -> nat {
        if cursor < self.oldest() {
            self.oldest()
        } else if cursor < self.published() {
            cursor + 1
        } else {
            cursor
        }
    }
}

/// What one call of [`Subscription::next`] yields.
#[derive(Debug)]
pub enum Delivery {
    /// The next frame in publish order.
    Frame(Vec<u8>),
    /// This many frames were evicted before the subscriber read them.
    Lagged(u64),
    /// The broadcaster was closed and nothing is left to read.
    Closed,
    /// No frame has been published beyond the subscriber's position yet.
    Pending,
}

impl View for Delivery {
    type V = Polled;

    open spec fn view(&self) -> Polled {
        match self {
            Delivery::Frame(frame) => Polled::Frame(frame@),
            Delivery::Lagged(missed) => Polled::Lagged(*missed as nat),
            Delivery::Closed => Polled::Closed,
            Delivery::Pending => Polled::Pending,
        }
    }
}

/// A reader's position in one broadcaster's sequence of frames.
#[derive(Debug)]
pub struct Subscription {
    cursor: u64,
}

impl View for Subscription {
    type V = nat;

    /// The sequence number of the frame that the subscriber reads next.
    closed spec fn view(&self) -> nat {
        self.cursor as nat
    }
}

/// The fan-out buffer of one stream.
pub struct Broadcaster {
    capacity: usize,
    ring: VecDeque<Vec<u8>>,
    published: u64,
    subscribers: usize,
    closed: bool,
    history: Ghost<Seq<Seq<u8>>>,
}

impl View for Broadcaster {
    type V = Channel;

    closed spec fn view(&self) -> Channel {
        Channel {
            capacity: self.capacity as nat,
            history: self.history@,
            subscribers: self.subscribers as nat,
            closed: self.closed,
        }
    }
}

impl Broadcaster {
    /// The ring holds exactly the retained frames of the model.
    pub closed spec fn wf(&self) -> bool {
        &&& self.capacity > 0
        &&& self.history@.len() == self.published
        &&& self.ring@.len() == self@.retained().len()
        &&& forall|i: int|
            0 <= i < self.ring@.len() ==> (#[trigger] self.ring@[i])@ == self@.retained()[i]
    }

    /// A well-formed broadcaster has a positive capacity and counters that fit
    /// their machine types.
    pub proof fn lemma_bounds(&self)
        requires
            self.wf(),
        ensures
            self@.capacity > 0,
            self@.capacity <= usize::MAX,
            self@.published() <= u64::MAX,
            self@.subscribers <= usize::MAX,
    {
    }

    /// A broadcaster that retains up to `capacity` frames.
    pub fn new(capacity: usize) -> (made: Broadcaster)
        requires
            capacity > 0,
        ensures
            made.wf(),
            made@ == Channel::fresh(capacity as nat),
    {
        Broadcaster {
            capacity,
            ring: VecDeque::new(),
            published: 0,
            subscribers: 0,
            closed: false,
            history: Ghost(Seq::empty()),
        }
    }

    /// The number of frames that are retained at most.
    pub fn capacity(&self) -> (n: usize)
        ensures
            n == self@.capacity,
    {
        self.capacity
    }

    /// The number of frames accepted so far.
    pub fn published(&self) -> (n: u64)
        requires
            self.wf(),
        ensures
            n == self@.published(),
    {
        self.published
    }

    /// The number of open subscriptions.
    pub fn subscriber_count(&self) -> (n: usize)
        ensures
            n == self@.subscribers,
    {
        self.subscribers
    }

    /// Whether the broadcaster was torn down.
    pub fn is_closed(&self) -> (closed: bool)
        ensures
            closed == self@.closed,
    {
        self.closed
    }

    /// The number of frames that are retained now.
    pub fn retained_len(&self) -> (n: usize)
        requires
            self.wf(),
        ensures
            n == self@.retained().len(),
    {
        self.ring.len()
    }

    /// Accepts `frame` as the newest frame of the stream. When the ring is
    /// full, the oldest retained frame is evicted. No subscriber is consulted.
    /// A closed broadcaster drops the frame.
    pub fn publish(&mut self, frame: Vec<u8>)
        requires
            old(self).wf(),
            old(self)@.published() < u64::MAX,
        ensures
            final(self).wf(),
            final(self)@ == old(self)@.publish(frame@),
    {
        if self.closed {
            return ;
        }
        let ghost before = self@;
        let ghost kept = self.ring@;
        if self.ring.len() == self.capacity {
            let _ = self.ring.pop_front();
        }
        self.ring.push_back(frame);
        self.published = self.published + 1;
        self.history = Ghost(before.history.push(frame@));
        proof {
            let after = self@;
            assert(after == before.publish(frame@));
            assert(after.retained().len() == self.ring@.len());
            assert forall|i: int| 0 <= i < self.ring@.len() implies (#[trigger] self.ring@[i])@
                == after.retained()[i] by {
                if i < self.ring@.len() - 1 {
                    let shift: int = if kept.len() == before.capacity {
                        1
                    } else {
                        0
                    };
                    assert(self.ring@[i] == kept[i + shift]);
                    assert(kept[i + shift]@ == before.retained()[i + shift]);
                }
            }
        }
    }

    /// Opens a subscription with no backlog: the first frame it can read is the
    /// next one that is published.
    pub fn subscribe(&mut self) -> (opened: Subscription)
        requires
            old(self).wf(),
            old(self)@.subscribers < usize::MAX,
        ensures
            final(self).wf(),
            final(self)@ == old(self)@.subscribe(),
            opened@ == old(self)@.published(),
    {
        self.subscribers = self.subscribers + 1;
        Subscription { cursor: self.published }
    }

    /// Takes back a subscription whose session has ended. Retained frames and
    /// other subscriptions are untouched.
    pub fn release(&mut self, ended: Subscription)
        requires
            old(self).wf(),
        ensures
            final(self).wf(),
            final(self)@ == old(self)@.release(),
    {
        if self.subscribers > 0 {
            self.subscribers = self.subscribers - 1;
        }
    }

    /// Tears the broadcaster down. Subscribers still read what is retained and
    /// are then told that it is closed.
    pub fn close(&mut self)
        requires
            old(self).wf(),
        ensures
            final(self).wf(),
            final(self)@ == old(self)@.close(),
    {
        self.closed = true;
    }
}

impl Subscription {
    /// The sequence number of the frame that is read next.
    pub fn position(&self) -> (n: u64)
        ensures
            n == self@,
    {
        self.cursor
    }

    /// Hands out what is next for this subscriber and moves its position: the
    /// frame at its position; or, once, the number of frames that were evicted
    /// before it read them, after which it stands at the oldest retained frame;
    /// or that nothing is there yet; or that the broadcaster is closed.
    pub fn next(&mut self, source: &Broadcaster) -> (delivery: Delivery)
        requires
            source.wf(),
        ensures
            delivery@ == source@.poll(old(self)@),
            final(self)@ == source@.advance(old(self)@),
    {
        let kept: u64 = source.ring.len() as u64;
        let oldest: u64 = source.published - kept;
        if self.cursor < oldest {
            let missed: u64 = oldest - self.cursor;
            self.cursor = oldest;
            Delivery::Lagged(missed)
        } else if self.cursor < source.published {
            let slot: usize = (self.cursor - oldest) as usize;
            let frame: Vec<u8> = copy_frame(&source.ring[slot]);
            assert(source.ring@[slot as int]@ == source@.retained()[slot as int]);
            self.cursor = self.cursor + 1;
            Delivery::Frame(frame)
        } else if source.closed {
            Delivery::Closed
        } else {
            Delivery::Pending
        }
    }
}

/// A copy of `frame` for one more reader.
fn copy_frame(frame: &Vec<u8>) -> (copy: Vec<u8>)
    ensures
        copy@ == frame@,
{
    let copy = frame.clone();
    assert(copy@ =~= frame@);
    copy
}

} // verus!
