//! The streams of one process: each name with its broadcaster.
//!
//! Names are compared without regard to case: two names are the same stream
//! when their lowercase forms are equal. The spelling as registered is kept for
//! listing. A name that is the same stream as a registered one is refused, so
//! a query resolves to at most one stream. Streams are never removed; a stream
//! is known by its index in registration order.

use vstd::prelude::*;
use crate::broadcaster::{Broadcaster, Channel, Subscription};
use crate::text::{lowercase, to_lowercase};

verus! {

/// Whether two names denote the same stream.
pub open spec fn same_stream(a: Seq<char>, b: Seq<char>) -> bool {
    lowercase(a) == lowercase(b)
}

/// The model of a registry.
pub struct Directory {
    /// The capacity that every broadcaster of the registry is made with.
    pub capacity: nat,
    /// The names as they were registered, in registration order.
    pub names: Seq<Seq<char>>,
    /// The channel of each stream, by the index of its name.
    pub channels: Seq<Channel>,
}

impl Directory {
    /// A registry without streams.
    pub open spec fn empty(capacity: nat) -> Directory {
        Directory { capacity, names: Seq::empty(), channels: Seq::empty() }
    }

    /// One channel per name, each valid, and no two names the same stream.
    pub open spec fn valid(self) -> bool {
        &&& self.capacity > 0
        &&& self.names.len() == self.channels.len()
        &&& forall|i: int|
            0 <= i < self.channels.len() ==> (#[trigger] self.channels[i]).capacity
                == self.capacity
        &&& forall|i: int, j: int|
            0 <= i < j < self.names.len() ==> !same_stream(
                #[trigger] self.names[i],
                #[trigger] self.names[j],
            )
    }

    /// The number of streams.
    pub open spec fn len(self) -> nat {
        self.names.len()
    }

    /// Whether `id` is the first stream whose name is the same stream as `query`.
    pub open spec fn resolves(self, query: Seq<char>, id: int) -> bool {
        &&& 0 <= id < self.names.len()
        &&& same_stream(self.names[id], query)
        &&& forall|j: int| 0 <= j < id ==> !same_stream(#[trigger] self.names[j], query)
    }

    /// Whether some stream has a name that is the same stream as `query`.
    pub open spec fn known(self, query: Seq<char>) -> bool {
        exists|i: int| 0 <= i < self.names.len() && same_stream(#[trigger] self.names[i], query)
    }

    /// The registry with one more stream, named `name`, that has published nothing.
    pub open spec fn register(self, name: Seq<char>) -> Directory {
        Directory {
            names: self.names.push(name),
            channels: self.channels.push(Channel::fresh(self.capacity)),
            ..self
        }
    }

    /// The registry with the channel of stream `id` replaced.
    pub open spec fn with_channel(self, id: int, channel: Channel) -> Directory {
        Directory { channels: self.channels.update(id, channel), ..self }
    }

    /// Whether every stream can take one more subscriber.
    pub open spec fn has_room(self) -> bool {
        forall|i: int|
            0 <= i < self.channels.len() ==> (#[trigger] self.channels[i]).subscribers
                < usize::MAX
    }
}

/// Why a registration was refused.
#[derive(Debug, PartialEq, Eq)]
pub enum RegisterError {
    /// The name is the same stream as the one registered under this index.
    DuplicateName(usize),
}

/// One registered stream.
struct Stream {
    name: String,
    key: String,
    broadcaster: Broadcaster,
}

/// The streams of one process and their broadcasters.
pub struct Registry {
    capacity: usize,
    streams: Vec<Stream>,
}

impl View for Registry {
    type V = Directory;

    closed spec fn view(&self) -> Directory {
        Directory {
            capacity: self.capacity as nat,
            names: Seq::new(self.streams@.len(), |i: int| self.streams@[i].name@),
            channels: Seq::new(self.streams@.len(), |i: int| self.streams@[i].broadcaster@),
        }
    }
}

impl Registry {
    /// Every stream holds the lowercase form of its name and a well-formed
    /// broadcaster, and the model is valid.
    pub closed spec fn wf(&self) -> bool {
        &&& self@.valid()
        &&& forall|i: int|
            0 <= i < self.streams@.len() ==> {
                &&& (#[trigger] self.streams@[i]).key@ == lowercase(self.streams@[i].name@)
                &&& self.streams@[i].broadcaster.wf()
            }
    }

    /// The model of a well-formed registry is valid, and its counters fit their
    /// machine types.
    pub proof fn lemma_wf_is_valid(&self)
        requires
            self.wf(),
        ensures
            self@.valid(),
            self@.len() <= usize::MAX,
            forall|i: int|
                0 <= i < self@.len() ==> (#[trigger] self@.channels[i]).published() <= u64::MAX,
    {
        assert(self@.len() == self.streams.len());
        assert forall|i: int| 0 <= i < self@.len() implies (#[trigger] self@.channels[i]).published()
            <= u64::MAX by {
            self.streams@[i].broadcaster.lemma_bounds();
        }
    }

    /// A registry without streams, whose broadcasters will retain up to
    /// `capacity` frames each.
    pub fn new(capacity: usize) -> (made: Registry)
        requires
            capacity > 0,
        ensures
            made.wf(),
            made@ == Directory::empty(capacity as nat),
    {
        let made = Registry { capacity, streams: Vec::new() };
        assert(made@.names =~= Seq::empty());
        assert(made@.channels =~= Seq::empty());
        made
    }

    /// The number of streams.
    pub fn len(&self) -> (n: usize)
        ensures
            n == self@.len(),
    {
        self.streams.len()
    }

    /// The stream that `query` names, without regard to case, if there is one.
    pub fn lookup(&self, query: &str) -> (found: Option<usize>)
        requires
            self.wf(),
        ensures
            match found {
                Some(id) => self@.resolves(query@, id as int),
                None => !self@.known(query@),
            },
    {
        let key = to_lowercase(query);
        self.position_of(&key, Ghost(query@))
    }

    /// The first stream whose lowercase name is `key`, the lowercase form of `query`.
    fn position_of(&self, key: &String, Ghost(query): Ghost<Seq<char>>) -> (found: Option<usize>)
        requires
            self.wf(),
            key@ == lowercase(query),
        ensures
            match found {
                Some(id) => self@.resolves(query, id as int),
                None => !self@.known(query),
            },
    {
        let mut i: usize = 0;
        while i < self.streams.len()
            invariant
                self.wf(),
                key@ == lowercase(query),
                i <= self.streams@.len(),
                forall|j: int| 0 <= j < i ==> !same_stream(#[trigger] self@.names[j], query),
            decreases self.streams@.len() - i,
        {
            if self.streams[i].key == *key {
                assert(self@.names[i as int] == self.streams@[i as int].name@);
                return Some(i);
            }
            assert(self@.names[i as int] == self.streams@[i as int].name@);
            i = i + 1;
        }
        None
    }

    /// Adds a stream named `name` with a broadcaster that has published
    /// nothing, and returns its index. A name that is the same stream as a
    /// registered one is refused, and the registry stays as it was.
    pub fn register(&mut self, name: String) -> (added: Result<usize, RegisterError>)
        requires
            old(self).wf(),
        ensures
            final(self).wf(),
            match added {
                Ok(id) => {
                    &&& !old(self)@.known(name@)
                    &&& id == old(self)@.len()
                    &&& final(self)@ == old(self)@.register(name@)
                },
                Err(RegisterError::DuplicateName(existing)) => {
                    &&& old(self)@.resolves(name@, existing as int)
                    &&& final(self)@ == old(self)@
                },
            },
    {
        let key = to_lowercase(name.as_str());
        match self.position_of(&key, Ghost(name@)) {
            Some(existing) => Err(RegisterError::DuplicateName(existing)),
            None => {
                let ghost before = self@;
                let id = self.streams.len();
                let broadcaster = Broadcaster::new(self.capacity);
                self.streams.push(Stream { name, key, broadcaster });
                proof {
                    assert(self@.names =~= before.names.push(name@));
                    assert(self@.channels =~= before.channels.push(
                        Channel::fresh(before.capacity),
                    ));
                    assert forall|i: int, j: int| 0 <= i < j < self@.names.len() implies !same_stream(
                        #[trigger] self@.names[i],
                        #[trigger] self@.names[j],
                    ) by {
                        if j == id {
                            assert(!same_stream(before.names[i], name@));
                        } else {
                            assert(!same_stream(before.names[i], before.names[j]));
                        }
                    }
                }
                Ok(id)
            },
        }
    }

    /// The names as they were registered, in registration order.
    pub fn list_names(&self) -> (names: Vec<String>)
        ensures
            names@.len() == self@.len(),
            forall|i: int| 0 <= i < names@.len() ==> (#[trigger] names@[i])@ == self@.names[i],
    {
        let mut names: Vec<String> = Vec::new();
        let mut i: usize = 0;
        while i < self.streams.len()
            invariant
                i <= self.streams@.len(),
                names@.len() == i,
                forall|j: int| 0 <= j < i ==> (#[trigger] names@[j])@ == self@.names[j],
            decreases self.streams@.len() - i,
        {
            names.push(self.streams[i].name.clone());
            i = i + 1;
        }
        names
    }

    /// The broadcaster of stream `id`.
    pub fn broadcaster(&self, id: usize) -> (found: &Broadcaster)
        requires
            self.wf(),
            id < self@.len(),
        ensures
            found.wf(),
            found@ == self@.channels[id as int],
    {
        &self.streams[id].broadcaster
    }

    /// Whether every stream can take one more subscriber.
    pub fn has_room(&self) -> (room: bool)
        requires
            self.wf(),
        ensures
            room == self@.has_room(),
    {
        let mut i: usize = 0;
        while i < self.streams.len()
            invariant
                i <= self.streams@.len(),
                forall|j: int| 0 <= j < i ==> (#[trigger] self@.channels[j]).subscribers < usize::MAX,
            decreases self.streams@.len() - i,
        {
            if self.streams[i].broadcaster.subscriber_count() == usize::MAX {
                assert(self@.channels[i as int].subscribers == usize::MAX);
                return false;
            }
            assert(self@.channels[i as int].subscribers < usize::MAX);
            i = i + 1;
        }
        true
    }

    /// Hands `frame` to the broadcaster of stream `id`. No other stream changes.
    pub fn publish(&mut self, id: usize, frame: Vec<u8>)
        requires
            old(self).wf(),
            id < old(self)@.len(),
            old(self)@.channels[id as int].published() < u64::MAX,
        ensures
            final(self).wf(),
            final(self)@ == old(self)@.with_channel(
                id as int,
                old(self)@.channels[id as int].publish(frame@),
            ),
    {
        self.streams[id].broadcaster.publish(frame);
        proof {
            Self::lemma_only_broadcaster_changed(
                *old(self),
                *self,
                id as int,
                old(self)@.channels[id as int].publish(frame@),
            );
        }
    }

    /// Opens a subscription on stream `id`. No other stream changes.
    pub fn subscribe(&mut self, id: usize) -> (opened: Subscription)
        requires
            old(self).wf(),
            id < old(self)@.len(),
            old(self)@.channels[id as int].subscribers < usize::MAX,
        ensures
            final(self).wf(),
            final(self)@ == old(self)@.with_channel(
                id as int,
                old(self)@.channels[id as int].subscribe(),
            ),
            opened@ == old(self)@.channels[id as int].published(),
    {
        let opened = self.streams[id].broadcaster.subscribe();
        proof {
            Self::lemma_only_broadcaster_changed(
                *old(self),
                *self,
                id as int,
                old(self)@.channels[id as int].subscribe(),
            );
        }
        opened
    }

    /// Gives a subscription on stream `id` back. No other stream changes.
    pub fn release(&mut self, id: usize, ended: Subscription)
        requires
            old(self).wf(),
            id < old(self)@.len(),
        ensures
            final(self).wf(),
            final(self)@ == old(self)@.with_channel(
                id as int,
                old(self)@.channels[id as int].release(),
            ),
    {
        self.streams[id].broadcaster.release(ended);
        proof {
            Self::lemma_only_broadcaster_changed(
                *old(self),
                *self,
                id as int,
                old(self)@.channels[id as int].release(),
            );
        }
    }

    /// Tears the broadcaster of stream `id` down. No other stream changes.
    pub fn close(&mut self, id: usize)
        requires
            old(self).wf(),
            id < old(self)@.len(),
        ensures
            final(self).wf(),
            final(self)@ == old(self)@.with_channel(
                id as int,
                old(self)@.channels[id as int].close(),
            ),
    {
        self.streams[id].broadcaster.close();
        proof {
            Self::lemma_only_broadcaster_changed(
                *old(self),
                *self,
                id as int,
                old(self)@.channels[id as int].close(),
            );
        }
    }

    /// When one stream's broadcaster moved to `channel`, of the same capacity,
    /// and nothing else changed, the registry is well-formed again and its
    /// model differs in that channel alone.
    proof fn lemma_only_broadcaster_changed(
        before: Registry,
        after: Registry,
        id: int,
        channel: Channel,
    )
        requires
            before.wf(),
            0 <= id < before.streams@.len(),
            after.capacity == before.capacity,
            after.streams@.len() == before.streams@.len(),
            forall|i: int|
                0 <= i < before.streams@.len() && i != id ==> #[trigger] after.streams@[i]
                    == before.streams@[i],
            after.streams@[id].name == before.streams@[id].name,
            after.streams@[id].key == before.streams@[id].key,
            after.streams@[id].broadcaster.wf(),
            after.streams@[id].broadcaster@ == channel,
            channel.capacity == before.streams@[id].broadcaster@.capacity,
        ensures
            after.wf(),
            after@ == before@.with_channel(id, channel),
    {
        assert(after@.names =~= before@.names);
        assert(after@.channels =~= before@.channels.update(id, channel));
        assert forall|i: int, j: int| 0 <= i < j < after@.names.len() implies !same_stream(
            #[trigger] after@.names[i],
            #[trigger] after@.names[j],
        ) by {
            assert(!same_stream(before@.names[i], before@.names[j]));
        }
        assert forall|i: int| 0 <= i < after@.channels.len() implies (
        #[trigger] after@.channels[i]).capacity == after@.capacity by {
            assert(before@.channels[i].capacity == before@.capacity);
        }
    }
}

/// Lookup does not see case: two queries with the same lowercase form name
/// the same stream, or both name none.
pub proof fn lemma_lookup_ignores_case(
    directory: Directory,
    query: Seq<char>,
    respelled: Seq<char>,
    id: int,
)
    requires
        same_stream(query, respelled),
    ensures
        directory.resolves(query, id) == directory.resolves(respelled, id),
        directory.known(query) == directory.known(respelled),
{
    if directory.known(query) {
        let i = choose|i: int|
            0 <= i < directory.names.len() && same_stream(#[trigger] directory.names[i], query);
        assert(same_stream(directory.names[i], respelled));
    }
    if directory.known(respelled) {
        let i = choose|i: int|
            0 <= i < directory.names.len() && same_stream(
                #[trigger] directory.names[i],
                respelled,
            );
        assert(same_stream(directory.names[i], query));
    }
}

/// A query names at most one stream, and in a valid registry every stream
/// whose name matches the query is the one that it resolves to.
pub proof fn lemma_resolution_is_unique(directory: Directory, query: Seq<char>, id: int, other: int)
    requires
        directory.resolves(query, id),
    ensures
        directory.known(query),
        directory.resolves(query, other) ==> other == id,
        directory.valid() && 0 <= other < directory.len() && same_stream(
            directory.names[other],
            query,
        ) ==> other == id,
{
    if directory.valid() && 0 <= other < directory.len() && same_stream(
        directory.names[other],
        query,
    ) && other != id {
        if other < id {
            assert(!same_stream(directory.names[other], directory.names[id]));
        } else {
            assert(!same_stream(directory.names[id], directory.names[other]));
        }
    }
}

/// A name that was registered is found under every spelling of it, and the
/// streams registered before it stay where they were.
pub proof fn lemma_registered_name_resolves(
    directory: Directory,
    name: Seq<char>,
    query: Seq<char>,
    id: int,
)
    requires
        directory.valid(),
        !directory.known(name),
    ensures
        directory.register(name).valid(),
        directory.register(name).resolves(name, directory.len() as int),
        directory.resolves(query, id) ==> directory.register(name).resolves(query, id),
        same_stream(query, name) ==> directory.register(name).resolves(
            query,
            directory.len() as int,
        ),
{
    let grown = directory.register(name);
    assert forall|j: int| 0 <= j < directory.len() implies !same_stream(
        #[trigger] grown.names[j],
        name,
    ) by {
        assert(!same_stream(directory.names[j], name));
    }
    assert forall|i: int, j: int| 0 <= i < j < grown.names.len() implies !same_stream(
        #[trigger] grown.names[i],
        #[trigger] grown.names[j],
    ) by {
        if j < directory.len() {
            assert(!same_stream(directory.names[i], directory.names[j]));
        }
    }
    assert forall|i: int| 0 <= i < grown.channels.len() implies (
    #[trigger] grown.channels[i]).capacity == grown.capacity by {
        if i < directory.len() {
            assert(directory.channels[i].capacity == directory.capacity);
        }
    }
    if directory.resolves(query, id) {
        assert(grown.names[id] == directory.names[id]);
        assert forall|j: int| 0 <= j < id implies !same_stream(#[trigger] grown.names[j], query) by {
            assert(!same_stream(directory.names[j], query));
        }
    }
}

} // verus!
