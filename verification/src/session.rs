//! One viewer's session: a subscription bridged to a duplex transport.
//!
//! The transport itself is not here. Whoever drives it feeds the session one
//! [`Event`] at a time and carries out the [`Action`] that comes back. A
//! session is subscribed until its stream closes, a write fails or the
//! inbound half ends; from then on it is closing, for good. What a viewer
//! sends is discarded. A session reads the registry and never writes to it,
//! except that ending the session gives its subscription back.

use vstd::prelude::*;
use crate::broadcaster::{Channel, Delivery, Polled, Subscription};
use crate::registry::{Directory, Registry};

verus! {

/// The life of a session after the gateway admitted it.
#[derive(Clone, Copy, Debug, PartialEq, Eq, Structural)]
pub enum SessionState {
    /// Frames are pumped out and the inbound half is watched.
    Subscribed,
    /// One side has ended; nothing is sent any more.
    Closing,
}

/// What arrives on the inbound half of a transport.
#[derive(Clone, Copy, Debug, PartialEq, Eq, Structural)]
pub enum Inbound {
    /// A message from the viewer. It carries no meaning here.
    Message,
    /// The read failed.
    Error,
    /// The viewer closed the transport.
    Closed,
}

/// What a session is told.
#[derive(Clone, Copy, Debug, PartialEq, Eq, Structural)]
pub enum Event {
    /// The pump may look for the next frame: at the start, after a frame was
    /// written, after a lag was noted, or after the stream published.
    Wake,
    /// The frame handed out last could not be written.
    WriteFailed,
    /// Something arrived on the inbound half, or it ended.
    Inbound(Inbound),
}

/// What the driver of the transport has to do next.
#[derive(Debug)]
pub enum Action {
    /// Write this frame as one binary message, then wake the session.
    Send(Vec<u8>),
    /// This many frames were missed; wake the session again.
    Skip(u64),
    /// Nothing to send yet; wake the session when the stream has published.
    Wait,
    /// The inbound message is dropped; nothing else changes.
    Discard,
    /// Close the transport and end the session.
    Close,
}

/// The model of an action.
pub enum Reaction {
    Send(Seq<u8>),
    Skip(nat),
    Wait,
    Discard,
    Close,
}

impl View for Action {
    type V = Reaction;

    open spec fn view(&self) -> Reaction {
        match self {
            Action::Send(frame) => Reaction::Send(frame@),
            Action::Skip(missed) => Reaction::Skip(*missed as nat),
            Action::Wait => Reaction::Wait,
            Action::Discard => Reaction::Discard,
            Action::Close => Reaction::Close,
        }
    }
}

/// The model of a session.
pub struct Bridge {
    /// The index of the stream that the session views.
    pub stream: nat,
    /// The sequence number of the frame that it reads next.
    pub cursor: nat,
    /// Whether it is subscribed or closing.
    pub state: SessionState,
}

impl Bridge {
    /// The session that the gateway makes for a viewer of `stream`, whose
    /// channel has accepted `published` frames so far.
    pub open spec fn admitted(stream: nat, published: nat) -> Bridge {
        Bridge { stream, cursor: published, state: SessionState::Subscribed }
    }

    /// What a session answers to `event` when its stream's channel is `channel`.
    pub open spec fn reaction(self, channel: Channel, event: Event) -> Reaction {
        if self.state == SessionState::Closing {
            Reaction::Close
        } else {
            match event {
                Event::Wake => match channel.poll(self.cursor) {
                    Polled::Frame(frame) => Reaction::Send(frame),
                    Polled::Lagged(missed) => Reaction::Skip(missed),
                    Polled::Pending => Reaction::Wait,
                    Polled::Closed => Reaction::Close,
                },
                Event::WriteFailed => Reaction::Close,
                Event::Inbound(Inbound::Message) => Reaction::Discard,
                Event::Inbound(_) => Reaction::Close,
            }
        }
    }

    /// The session after `event`, when its stream's channel is `channel`.
    pub open spec fn after(self, channel: Channel, event: Event) -> Bridge {
        if self.state == SessionState::Closing {
            self
        } else {
            match event {
                Event::Wake => Bridge {
                    cursor: channel.advance(self.cursor),
                    state: if channel.poll(self.cursor) == Polled::Closed {
                        SessionState::Closing
                    } else {
                        SessionState::Subscribed
                    },
                    ..self
                },
                Event::Inbound(Inbound::Message) => self,
                _ => Bridge { state: SessionState::Closing, ..self },
            }
        }
    }
}

/// Why the gateway turned a viewer away.
#[derive(Clone, Copy, Debug, PartialEq, Eq, Structural)]
pub enum GatewayError {
    /// No registered stream has the requested name, in any casing.
    UnknownStream,
}

/// One admitted viewer: its stream, its subscription and its state.
#[derive(Debug)]
pub struct ClientSession {
    stream: usize,
    subscription: Subscription,
    state: SessionState,
}

impl View for ClientSession {
    type V = Bridge;

    closed spec fn view(&self) -> Bridge {
        Bridge { stream: self.stream as nat, cursor: self.subscription@, state: self.state }
    }
}

impl ClientSession {
    /// The index of the stream that the session views.
    pub fn stream(&self) -> (id: usize)
        ensures
            id == self@.stream,
    {
        self.stream
    }

    /// Whether the session is subscribed or closing.
    pub fn state(&self) -> (state: SessionState)
        ensures
            state == self@.state,
    {
        self.state
    }

    /// The sequence number of the frame that the session reads next.
    pub fn position(&self) -> (n: u64)
        ensures
            n == self@.cursor,
    {
        self.subscription.position()
    }

    /// Takes one event and says what to do. Only a wake-up of a subscribed
    /// session reads from the stream; a closing session answers `Close` to
    /// everything and stays as it is.
    pub fn step(&mut self, registry: &Registry, event: Event) -> (action: Action)
        requires
            registry.wf(),
            old(self)@.stream < registry@.len(),
        ensures
            action@ == old(self)@.reaction(registry@.channels[old(self)@.stream as int], event),
            final(self)@ == old(self)@.after(registry@.channels[old(self)@.stream as int], event),
    {
        match self.state {
            SessionState::Closing => Action::Close,
            SessionState::Subscribed => match event {
                Event::Wake => {
                    let source = registry.broadcaster(self.stream);
                    match self.subscription.next(source) {
                        Delivery::Frame(frame) => Action::Send(frame),
                        Delivery::Lagged(missed) => Action::Skip(missed),
                        Delivery::Pending => Action::Wait,
                        Delivery::Closed => {
                            self.state = SessionState::Closing;
                            Action::Close
                        },
                    }
                },
                Event::WriteFailed => {
                    self.state = SessionState::Closing;
                    Action::Close
                },
                Event::Inbound(Inbound::Message) => Action::Discard,
                Event::Inbound(_) => {
                    self.state = SessionState::Closing;
                    Action::Close
                },
            },
        }
    }

    /// Ends the session and gives its subscription back. Of the registry only
    /// the subscriber count of the session's stream changes.
    pub fn finish(self, registry: &mut Registry)
        requires
            old(registry).wf(),
            self@.stream < old(registry)@.len(),
        ensures
            final(registry).wf(),
            final(registry)@ == old(registry)@.with_channel(
                self@.stream as int,
                old(registry)@.channels[self@.stream as int].release(),
            ),
    {
        registry.release(self.stream, self.subscription);
    }
}

/// Whether the watcher of the inbound half goes on after `event`: a message
/// is dropped and the watch continues; an error or the end of the transport
/// ends it.
pub fn monitor_continues(event: Inbound) -> (go_on: bool)
    ensures
        go_on == (event == Inbound::Message),
{
    match event {
        Inbound::Message => true,
        Inbound::Error => false,
        Inbound::Closed => false,
    }
}

/// Admits or rejects a viewer that asked for `requested`. A name that matches
/// a registered stream, without regard to case, gets a subscribed session with
/// no backlog on that stream. Any other name is rejected, and the registry
/// stays as it was.
pub fn handle_connection(registry: &mut Registry, requested: &str) -> (admitted: Result<
    ClientSession,
    GatewayError,
>)
    requires
        old(registry).wf(),
        old(registry)@.has_room(),
    ensures
        final(registry).wf(),
        match admitted {
            Ok(session) => {
                let id = session@.stream as int;
                &&& old(registry)@.resolves(requested@, id)
                &&& session@ == Bridge::admitted(
                    session@.stream,
                    old(registry)@.channels[id].published(),
                )
                &&& final(registry)@ == old(registry)@.with_channel(
                    id,
                    old(registry)@.channels[id].subscribe(),
                )
            },
            Err(reason) => {
                &&& reason == GatewayError::UnknownStream
                &&& !old(registry)@.known(requested@)
                &&& final(registry)@ == old(registry)@
            },
        },
{
    match registry.lookup(requested) {
        Some(stream) => {
            proof {
                registry.lemma_wf_is_valid();
            }
            let subscription = registry.subscribe(stream);
            Ok(ClientSession { stream, subscription, state: SessionState::Subscribed })
        },
        None => Err(GatewayError::UnknownStream),
    }
}

/// Once closing, always closing: whatever happens next, the session asks for
/// the transport to be closed, reads nothing and stays where it is.
pub proof fn lemma_closing_is_final(session: Bridge, channel: Channel, event: Event)
    requires
        session.state == SessionState::Closing,
    ensures
        session.reaction(channel, event) == Reaction::Close,
        session.after(channel, event) == session,
{
}

/// A session ends exactly when its stream is closed and drained, a write
/// fails, or the inbound half fails or closes; and it asks for the transport
/// to be closed exactly then.
pub proof fn lemma_session_ends_on_either_side(session: Bridge, channel: Channel, event: Event)
    requires
        session.state == SessionState::Subscribed,
    ensures
        session.after(channel, event).state == SessionState::Closing <==> (event
            == Event::WriteFailed || event == Event::Inbound(Inbound::Error) || event
            == Event::Inbound(Inbound::Closed) || (event == Event::Wake && channel.poll(
            session.cursor,
        ) == Polled::Closed)),
        session.reaction(channel, event) == Reaction::Close <==> session.after(
            channel,
            event,
        ).state == SessionState::Closing,
        session.after(channel, event).stream == session.stream,
{
}

/// A viewer that leaves does not disturb the others: after its session is
/// finished, every other session, on the same stream or another, reacts to
/// every event as it would have, and moves to the same position.
pub proof fn lemma_departure_leaves_others_alone(
    directory: Directory,
    leaving: Bridge,
    staying: Bridge,
    event: Event,
)
    requires
        directory.valid(),
        leaving.stream < directory.len(),
        staying.stream < directory.len(),
    ensures
        ({
            let left = directory.with_channel(
                leaving.stream as int,
                directory.channels[leaving.stream as int].release(),
            );
            &&& left.valid()
            &&& left.names == directory.names
            &&& staying.reaction(left.channels[staying.stream as int], event) == staying.reaction(
                directory.channels[staying.stream as int],
                event,
            )
            &&& staying.after(left.channels[staying.stream as int], event) == staying.after(
                directory.channels[staying.stream as int],
                event,
            )
        }),
{
    let gone = directory.channels[leaving.stream as int].release();
    let left = directory.with_channel(leaving.stream as int, gone);
    let was = directory.channels[staying.stream as int];
    let is = left.channels[staying.stream as int];
    assert(is.history == was.history && is.capacity == was.capacity && is.closed == was.closed);
    assert(is.oldest() == was.oldest());
    assert(is.poll(staying.cursor) == was.poll(staying.cursor));
    assert(is.advance(staying.cursor) == was.advance(staying.cursor));
    assert forall|i: int| 0 <= i < left.channels.len() implies (#[trigger] left.channels[i]).capacity
        == left.capacity by {
        assert(directory.channels[i].capacity == directory.capacity);
    }
}

} // verus!
