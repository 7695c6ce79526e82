//! What every subscriber can rely on, proved over the model of a broadcaster.
//!
//! The executable operations of [`crate::broadcaster`] are specified by the
//! functions of [`Channel`]; the statements here are about runs of several of
//! them: a batch of publishes followed by a series of polls.

use vstd::prelude::*;
use crate::broadcaster::{Channel, Polled};

verus! {

impl Channel {
    /// A channel that a broadcaster can stand for.
    pub open spec fn valid(self) -> bool {
        self.capacity > 0
    }

    /// The channel after each of `frames` was offered, first to last.
    pub open spec fn publish_all(self, frames: Seq<Seq<u8>>) -> Channel
        decreases frames.len(),
    {
        if frames.len() == 0 {
            self
        } else {
            self.publish_all(frames.drop_last()).publish(frames.last())
        }
    }

    /// What `count` polls in a row yield to a reader that starts at `cursor`.
    pub open spec fn polls(self, cursor: nat, count: nat) -> Seq<Polled>
        decreases count,
    {
        if count == 0 {
            Seq::empty()
        } else {
            seq![self.poll(cursor)] + self.polls(self.advance(cursor), (count - 1) as nat)
        }
    }

    /// Where a reader that starts at `cursor` stands after `count` polls.
    pub open spec fn cursor_after(self, cursor: nat, count: nat) -> nat
        decreases count,
    {
        if count == 0 {
            cursor
        } else {
            self.cursor_after(self.advance(cursor), (count - 1) as nat)
        }
    }
}

/// The deliveries that carry `frames`, one each, in the same order.
pub open spec fn as_deliveries(frames: Seq<Seq<u8>>) -> Seq<Polled> {
    Seq::new(frames.len(), |i: int| Polled::Frame(frames[i]))
}

/// An open channel appends a batch to its history and changes nothing else.
pub proof fn lemma_publish_all_appends(channel: Channel, frames: Seq<Seq<u8>>)
    requires
        !channel.closed,
    ensures
        channel.publish_all(frames) == (Channel {
            history: channel.history + frames,
            ..channel
        }),
    decreases frames.len(),
{
    if frames.len() == 0 {
        assert(channel.history + frames =~= channel.history);
    } else {
        lemma_publish_all_appends(channel, frames.drop_last());
        assert((channel.history + frames.drop_last()).push(frames.last()) =~= channel.history
            + frames);
    }
}

/// A closed channel takes nothing in.
pub proof fn lemma_closed_channel_is_frozen(channel: Channel, frames: Seq<Seq<u8>>)
    requires
        channel.closed,
    ensures
        channel.publish_all(frames) == channel,
    decreases frames.len(),
{
    if frames.len() > 0 {
        lemma_closed_channel_is_frozen(channel, frames.drop_last());
    }
}

/// A reader that stands at or after the oldest retained frame reads every
/// frame from its position on, one per poll, in publish order.
pub proof fn lemma_polls_follow_history(channel: Channel, cursor: nat, count: nat)
    requires
        channel.oldest() <= cursor,
        cursor + count <= channel.published(),
    ensures
        channel.polls(cursor, count) == as_deliveries(
            channel.history.subrange(cursor as int, (cursor + count) as int),
        ),
        channel.cursor_after(cursor, count) == cursor + count,
    decreases count,
{
    let wanted = as_deliveries(channel.history.subrange(cursor as int, (cursor + count) as int));
    if count == 0 {
        assert(channel.polls(cursor, count) =~= wanted);
    } else {
        lemma_polls_follow_history(channel, cursor + 1, (count - 1) as nat);
        let rest = as_deliveries(
            channel.history.subrange((cursor + 1) as int, (cursor + count) as int),
        );
        assert(seq![channel.poll(cursor)] + rest =~= wanted);
    }
}

/// Publish order is delivery order: a subscriber that was opened before a
/// batch of at most `capacity` frames was published, and then polls once per
/// frame, is handed exactly those frames in the order in which they were
/// published, and finds nothing more after them.
pub proof fn lemma_batch_is_delivered_in_publish_order(channel: Channel, frames: Seq<Seq<u8>>)
    requires
        channel.valid(),
        !channel.closed,
        frames.len() <= channel.capacity,
    ensures
        ({
            let start = channel.published();
            let after = channel.subscribe().publish_all(frames);
            &&& after.polls(start, frames.len()) == as_deliveries(frames)
            &&& after.cursor_after(start, frames.len()) == after.published()
            &&& after.poll(after.published()) == Polled::Pending
        }),
{
    let start = channel.published();
    let after = channel.subscribe().publish_all(frames);
    lemma_publish_all_appends(channel.subscribe(), frames);
    lemma_polls_follow_history(after, start, frames.len());
    assert(after.history.subrange(start as int, (start + frames.len()) as int) =~= frames);
}

/// A subscriber that fell behind is told so once, and exactly: when frames
/// that it had not read were evicted, its next poll reports their number and
/// hands out no frame; the polls after that hand out every retained frame,
/// oldest first, each once.
pub proof fn lemma_lag_is_reported_once(channel: Channel, cursor: nat)
    requires
        channel.valid(),
        cursor < channel.oldest(),
    ensures
        channel.poll(cursor) == Polled::Lagged((channel.oldest() - cursor) as nat),
        channel.advance(cursor) == channel.oldest(),
        channel.polls(channel.oldest(), channel.retained().len()) == as_deliveries(
            channel.retained(),
        ),
        channel.cursor_after(cursor, 1 + channel.retained().len()) == channel.published(),
{
    lemma_polls_follow_history(channel, channel.oldest(), channel.retained().len());
    assert(channel.cursor_after(cursor, 1 + channel.retained().len()) == channel.cursor_after(
        channel.advance(cursor),
        channel.retained().len(),
    ));
}

/// A subscriber that had read everything and then sat idle while more frames
/// than the capacity were published has missed all but the newest `capacity`
/// of them, and its next poll says so.
pub proof fn lemma_idle_subscriber_lags_by_the_overflow(channel: Channel, frames: Seq<Seq<u8>>)
    requires
        channel.valid(),
        !channel.closed,
        frames.len() > channel.capacity,
    ensures
        ({
            let cursor = channel.published();
            let after = channel.publish_all(frames);
            &&& after.poll(cursor) == Polled::Lagged((frames.len() - channel.capacity) as nat)
            &&& after.retained() == frames.subrange(
                frames.len() - channel.capacity,
                frames.len() as int,
            )
            &&& after.polls(after.advance(cursor), channel.capacity) == as_deliveries(
                after.retained(),
            )
        }),
{
    let cursor = channel.published();
    let after = channel.publish_all(frames);
    lemma_publish_all_appends(channel, frames);
    lemma_lag_is_reported_once(after, cursor);
    assert(after.retained() =~= frames.subrange(
        frames.len() - channel.capacity,
        frames.len() as int,
    ));
}

/// A subscriber that stood at the oldest retained frame and read nothing
/// while a batch was published is told of every frame that the batch
/// evicted: the reported count is the number of frames that left the ring.
pub proof fn lemma_lag_counts_evictions(channel: Channel, frames: Seq<Seq<u8>>)
    requires
        channel.valid(),
        !channel.closed,
        channel.publish_all(frames).oldest() > channel.oldest(),
    ensures
        ({
            let after = channel.publish_all(frames);
            let evicted = (after.oldest() - channel.oldest()) as nat;
            &&& channel.retained().len() + frames.len() == after.retained().len() + evicted
            &&& after.poll(channel.oldest()) == Polled::Lagged(evicted)
            &&& after.advance(channel.oldest()) == after.oldest()
        }),
{
    lemma_publish_all_appends(channel, frames);
}

/// No backlog and no gap at the start: the first poll of a subscription that
/// was opened just before a frame was published yields that frame.
pub proof fn lemma_first_poll_yields_next_publish(channel: Channel, frame: Seq<u8>)
    requires
        channel.valid(),
        !channel.closed,
    ensures
        channel.subscribe().publish(frame).poll(channel.published()) == Polled::Frame(frame),
        channel.subscribe().poll(channel.published()) == Polled::Pending,
{
}

/// Subscribers do not hold each other up: with a second subscriber that never
/// polls, the first one still reads every frame of a batch of at most
/// `capacity` frames, and the channel has accepted the whole batch.
pub proof fn lemma_idle_subscriber_blocks_nobody(channel: Channel, frames: Seq<Seq<u8>>)
    requires
        channel.valid(),
        !channel.closed,
        frames.len() <= channel.capacity,
    ensures
        ({
            let reader = channel.published();
            let after = channel.subscribe().subscribe().publish_all(frames);
            &&& after.history == channel.history + frames
            &&& after.polls(reader, frames.len()) == as_deliveries(frames)
        }),
{
    let reader = channel.published();
    let after = channel.subscribe().subscribe().publish_all(frames);
    lemma_publish_all_appends(channel.subscribe().subscribe(), frames);
    lemma_polls_follow_history(after, reader, frames.len());
    assert(after.history.subrange(reader as int, (reader + frames.len()) as int) =~= frames);
}

/// What a reader is handed depends on the frames alone, not on how many
/// other subscriptions are open.
pub proof fn lemma_polls_ignore_subscriber_count(
    channel: Channel,
    other: Channel,
    cursor: nat,
    count: nat,
)
    requires
        other == (Channel { subscribers: other.subscribers, ..channel }),
    ensures
        other.polls(cursor, count) == channel.polls(cursor, count),
        other.cursor_after(cursor, count) == channel.cursor_after(cursor, count),
    decreases count,
{
    if count > 0 {
        assert(other.oldest() == channel.oldest());
        lemma_polls_ignore_subscriber_count(
            channel,
            other,
            channel.advance(cursor),
            (count - 1) as nat,
        );
    }
}

/// A viewer that leaves takes nothing from the others: whether one
/// subscription is released before a batch is published or not at all, every
/// other reader is handed the same things.
pub proof fn lemma_release_keeps_delivery(
    channel: Channel,
    frames: Seq<Seq<u8>>,
    cursor: nat,
    count: nat,
)
    ensures
        channel.release().publish_all(frames).polls(cursor, count) == channel.publish_all(
            frames,
        ).polls(cursor, count),
        channel.release().publish_all(frames) == channel.publish_all(frames).release(),
{
    if channel.closed {
        lemma_closed_channel_is_frozen(channel, frames);
        lemma_closed_channel_is_frozen(channel.release(), frames);
    } else {
        lemma_publish_all_appends(channel, frames);
        lemma_publish_all_appends(channel.release(), frames);
    }
    let stayed = channel.publish_all(frames);
    let left = channel.release().publish_all(frames);
    assert(left == stayed.release());
    lemma_polls_ignore_subscriber_count(stayed, left, cursor, count);
}

/// A reader never moves backwards and never passes the newest frame, and a
/// frame it is handed is the one at the position it held.
pub proof fn lemma_poll_moves_forward(channel: Channel, cursor: nat)
    requires
        cursor <= channel.published(),
    ensures
        cursor <= channel.advance(cursor) <= channel.published(),
        channel.advance(cursor) >= channel.oldest(),
        match channel.poll(cursor) {
            Polled::Frame(frame) => frame == channel.history[cursor as int] && channel.advance(
                cursor,
            ) == cursor + 1,
            Polled::Lagged(missed) => missed > 0 && channel.advance(cursor) == cursor + missed,
            Polled::Closed => channel.closed && channel.advance(cursor) == cursor,
            Polled::Pending => !channel.closed && channel.advance(cursor) == cursor,
        },
{
}

/// Publishing keeps every earlier frame at its sequence number.
pub proof fn lemma_publish_keeps_history(channel: Channel, frame: Seq<u8>, position: int)
    requires
        0 <= position < channel.published(),
    ensures
        channel.publish(frame).history[position] == channel.history[position],
        channel.publish(frame).published() >= channel.published(),
        channel.publish(frame).oldest() >= channel.oldest(),
{
}

/// One step of a stream's life as one subscriber sees it.
pub enum Move {
    /// The producer offers a frame.
    Publish(Seq<u8>),
    /// The subscriber polls.
    Poll,
}

/// Where a channel and one subscriber stand after a series of moves.
pub struct Run {
    /// The channel after the moves.
    pub channel: Channel,
    /// The subscriber's position after the moves.
    pub cursor: nat,
    /// Each poll of the subscriber: the position it held, and what it was handed.
    pub seen: Seq<(nat, Polled)>,
}

/// The number of sequence numbers that a poll result accounts for: one for a
/// frame, the reported count for a lag, none otherwise.
pub open spec fn consumed(polled: Polled) -> nat {
    match polled {
        Polled::Frame(_) => 1,
        Polled::Lagged(missed) => missed,
        _ => 0,
    }
}

impl Channel {
    /// The outcome of `moves`, in order, for a subscriber that starts at `cursor`.
    pub open spec fn run(self, cursor: nat, moves: Seq<Move>) -> Run
        decreases moves.len(),
    {
        if moves.len() == 0 {
            Run { channel: self, cursor, seen: Seq::empty() }
        } else {
            let before = self.run(cursor, moves.drop_last());
            match moves.last() {
                Move::Publish(frame) => Run { channel: before.channel.publish(frame), ..before },
                Move::Poll => Run {
                    cursor: before.channel.advance(before.cursor),
                    seen: before.seen.push((before.cursor, before.channel.poll(before.cursor))),
                    ..before
                },
            }
        }
    }
}

impl Run {
    /// Where the poll after the `k`-th one started, or where the subscriber
    /// stands now if the `k`-th poll was the last.
    pub open spec fn next_position(self, k: int) -> nat {
        if k + 1 < self.seen.len() {
            self.seen[k + 1].0
        } else {
            self.cursor
        }
    }

    /// The `k`-th poll is accounted for: the next poll starts where it left
    /// off, a frame it was handed is the one published under its position,
    /// and a lag it was told of is not empty.
    pub open spec fn accounts_for(self, k: int) -> bool {
        let (position, polled) = self.seen[k];
        &&& self.next_position(k) == position + consumed(polled)
        &&& position + consumed(polled) <= self.channel.published()
        &&& polled matches Polled::Frame(frame) ==> frame == self.channel.history[position as int]
        &&& polled matches Polled::Lagged(missed) ==> missed > 0
    }

    /// The run started from `channel` with the subscriber at `cursor`, lost
    /// nothing of what `channel` had accepted, and every poll in it is
    /// accounted for.
    pub open spec fn follows(self, channel: Channel, cursor: nat) -> bool {
        &&& cursor <= self.cursor <= self.channel.published()
        &&& channel.published() <= self.channel.published()
        &&& self.channel.history.subrange(0, channel.published() as int) == channel.history
        &&& self.channel.capacity == channel.capacity
        &&& forall|k: int| 0 <= k < self.seen.len() ==> #[trigger] self.accounts_for(k)
        &&& self.next_position(-1) == cursor
    }
}

/// A publish keeps a run sound.
proof fn lemma_publish_keeps_run(channel: Channel, cursor: nat, before: Run, frame: Seq<u8>)
    requires
        before.follows(channel, cursor),
    ensures
        (Run { channel: before.channel.publish(frame), ..before }).follows(channel, cursor),
{
    let after = Run { channel: before.channel.publish(frame), ..before };
    assert(after.channel.history.subrange(0, channel.published() as int)
        =~= before.channel.history.subrange(0, channel.published() as int));
    assert forall|k: int| 0 <= k < after.seen.len() implies #[trigger] after.accounts_for(k) by {
        assert(before.accounts_for(k));
        assert(after.next_position(k) == before.next_position(k));
    }
    assert(after.next_position(-1) == before.next_position(-1));
}

/// A poll keeps a run sound.
proof fn lemma_poll_keeps_run(channel: Channel, cursor: nat, before: Run)
    requires
        before.follows(channel, cursor),
    ensures
        (Run {
            cursor: before.channel.advance(before.cursor),
            seen: before.seen.push((before.cursor, before.channel.poll(before.cursor))),
            ..before
        }).follows(channel, cursor),
{
    let after = Run {
        cursor: before.channel.advance(before.cursor),
        seen: before.seen.push((before.cursor, before.channel.poll(before.cursor))),
        ..before
    };
    let last = before.seen.len() as int;
    assert forall|k: int| 0 <= k < after.seen.len() implies #[trigger] after.accounts_for(k) by {
        if k < last {
            assert(before.accounts_for(k));
            assert(after.seen[k] == before.seen[k]);
            if k + 1 < last {
                assert(after.seen[k + 1] == before.seen[k + 1]);
            } else {
                assert(after.seen[k + 1].0 == before.cursor);
            }
            assert(after.next_position(k) == before.next_position(k));
        } else {
            assert(after.seen[k] == (before.cursor, before.channel.poll(before.cursor)));
            assert(after.next_position(k) == after.cursor);
        }
    }
    if last == 0 {
        assert(after.seen[0].0 == before.cursor);
        assert(before.next_position(-1) == before.cursor);
    } else {
        assert(after.seen[0] == before.seen[0]);
    }
    assert(after.next_position(-1) == cursor);
}

/// However publishes and polls are interleaved, a subscriber is handed frames
/// in publish order, none twice and none out of place, and every gap is
/// announced with its exact size: the first poll starts at the subscriber's
/// position, each later poll starts where the one before it left off, a frame
/// that is handed out is the one published under the position that the poll
/// held, and a lag report moves the position by exactly the reported count.
/// What was published earlier is never changed by what is published later.
pub proof fn lemma_every_frame_is_accounted_for(channel: Channel, cursor: nat, moves: Seq<Move>)
    requires
        cursor <= channel.published(),
    ensures
        channel.run(cursor, moves).follows(channel, cursor),
    decreases moves.len(),
{
    if moves.len() == 0 {
        let run = channel.run(cursor, moves);
        assert(run.channel.history.subrange(0, channel.published() as int) =~= channel.history);
    } else {
        lemma_every_frame_is_accounted_for(channel, cursor, moves.drop_last());
        let before = channel.run(cursor, moves.drop_last());
        match moves.last() {
            Move::Publish(frame) => lemma_publish_keeps_run(channel, cursor, before, frame),
            Move::Poll => lemma_poll_keeps_run(channel, cursor, before),
        }
    }
}

} // verus!
