//! The registry of live channels, and the life of one channel.
//!
//! A channel is accepted, told who the local device is, and only then
//! registered; it stays registered for as long as its reader runs, and
//! leaves the registry with the reader's last step. The caller owns the
//! channels and guards the registry against concurrent use; here it is
//! decided what each event means.

use crate::field::texts_view;
use crate::value::same_text;
use vstd::prelude::*;

verus! {

/// The peers whose channels are live, in the order in which they were
/// registered. No peer stands in it twice.
pub struct ConnectionRegistry {
    peers: Vec<String>,
}

impl View for ConnectionRegistry {
    type V = Seq<Seq<char>>;

    closed spec fn view(&self) -> Seq<Seq<char>> {
        texts_view(self.peers@)
    }
}

/// Where a channel stands in its life.
#[derive(Debug, Clone, Copy, PartialEq, Eq, Structural)]
pub enum ChannelState {
    /// The connection was accepted; nothing was sent yet.
    Accepted,
    /// The identity of the local device was sent.
    IdentitySent,
    /// The channel stands in the registry and its reader runs.
    Registered,
    /// The channel is gone.
    Closed,
}

/// What happened on a channel.
#[derive(Debug, Clone, Copy, PartialEq, Eq, Structural)]
pub enum ChannelEvent {
    /// The identity was written to the channel.
    IdentityWritten,
    /// The identity could not be written.
    WriteFailed,
    /// The reader of the channel has started.
    ReaderStarted,
    /// The reader got this many bytes; none means that the peer has closed
    /// the channel.
    Read(usize),
    /// Reading failed for now and may be tried again.
    ReadInterrupted,
    /// Reading failed for good.
    ReadFailed,
    /// The program is shutting down and asks the channel to close.
    StopRequested,
}

/// What is to be done on a channel next.
#[derive(Debug, Clone, Copy, PartialEq, Eq, Structural)]
pub enum ChannelAction {
    /// Send the identity of the local device.
    SendIdentity,
    /// Start the reader of the channel.
    StartReader,
    /// Read from the channel.
    Read,
    /// Nothing more: the channel is closed.
    Stop,
}

/// The state of a channel after an event, and what is to be done next.
#[derive(Debug, Clone, Copy, PartialEq, Eq, Structural)]
pub struct Step {
    pub state: ChannelState,
    pub action: ChannelAction,
}

/// Whether the loop that accepts connections goes on: not after it was
/// asked to stop, and not after its deadline, where it has one. Without a
/// deadline it goes on until it is asked to stop.
pub open spec fn goes_on(now: u128, until: Option<u128>, stopping: bool) -> bool {
    !stopping && match until {
        Some(deadline) => now <= deadline,
        None => true,
    }
}

/// Whether the loop that accepts connections goes on.
pub fn accepting(now: u128, until: Option<u128>, stopping: bool) -> (r: bool)
    ensures
        r == goes_on(now, until, stopping),
{
    if stopping {
        return false;
    }
    match until {
        Some(deadline) => now <= deadline,
        None => true,
    }
}

/// The peers without `peer`.
pub open spec fn without(peers: Seq<Seq<char>>, peer: Seq<char>) -> Seq<Seq<char>>
    decreases peers.len(),
{
    if peers.len() == 0 {
        peers
    } else if peers.last() == peer {
        without(peers.drop_last(), peer)
    } else {
        without(peers.drop_last(), peer).push(peers.last())
    }
}

/// No peer occurs twice.
pub open spec fn distinct(peers: Seq<Seq<char>>) -> bool {
    forall|i: int, j: int| 0 <= i < j < peers.len() ==> peers[i] != peers[j]
}

/// The step that an event brings about on a channel in the given state. An
/// event that does not fit the state closes the channel.
pub open spec fn step_of(state: ChannelState, event: ChannelEvent) -> Step {
    match (state, event) {
        (ChannelState::Accepted, ChannelEvent::IdentityWritten) => Step {
            state: ChannelState::IdentitySent,
            action: ChannelAction::StartReader,
        },
        (ChannelState::IdentitySent, ChannelEvent::ReaderStarted) => Step {
            state: ChannelState::Registered,
            action: ChannelAction::Read,
        },
        (ChannelState::Registered, ChannelEvent::Read(n)) => if n > 0 {
            Step { state: ChannelState::Registered, action: ChannelAction::Read }
        } else {
            Step { state: ChannelState::Closed, action: ChannelAction::Stop }
        },
        (ChannelState::Registered, ChannelEvent::ReadInterrupted) => Step {
            state: ChannelState::Registered,
            action: ChannelAction::Read,
        },
        _ => Step { state: ChannelState::Closed, action: ChannelAction::Stop },
    }
}

/// The step that an event brings about on the channel of `peer`, given the
/// peers that are registered. It is the step of the table above, with one
/// exception: a channel whose peer is registered already is not registered
/// a second time but closed, so that there is never more than one reader
/// for a peer.
pub open spec fn step_for(
    peers: Seq<Seq<char>>,
    peer: Seq<char>,
    state: ChannelState,
    event: ChannelEvent,
) -> Step {
    let step = step_of(state, event);
    if state != ChannelState::Registered && step.state == ChannelState::Registered
        && peers.contains(peer) {
        Step { state: ChannelState::Closed, action: ChannelAction::Stop }
    } else {
        step
    }
}

/// The registry after an event on the channel of `peer`: the peer enters
/// when its channel becomes registered, and leaves when a registered
/// channel is closed.
pub open spec fn peers_after(
    peers: Seq<Seq<char>>,
    peer: Seq<char>,
    state: ChannelState,
    event: ChannelEvent,
) -> Seq<Seq<char>> {
    let next = step_for(peers, peer, state, event).state;
    if state != ChannelState::Registered && next == ChannelState::Registered {
        peers.push(peer)
    } else if state == ChannelState::Registered && next == ChannelState::Closed {
        without(peers, peer)
    } else {
        peers
    }
}

/// The peers without one of them: that one is gone, every other stays,
/// and no peer is there twice that was not there twice before.
pub proof fn lemma_without(peers: Seq<Seq<char>>, peer: Seq<char>)
    ensures
        !without(peers, peer).contains(peer),
        forall|other: Seq<char>|
            other != peer ==> (#[trigger] without(peers, peer).contains(other) <==> peers.contains(
                other,
            )),
        distinct(peers) ==> distinct(without(peers, peer)),
        !peers.contains(peer) ==> without(peers, peer) == peers,
        without(peers, peer).len() <= peers.len(),
    decreases peers.len(),
{
    if peers.len() > 0 {
        let rest = peers.drop_last();
        let last = peers.last();
        lemma_without(rest, peer);
        let w = without(rest, peer);
        assert(peers =~= rest.push(last));
        assert forall|other: Seq<char>| other != peer implies (#[trigger] without(
            peers,
            peer,
        ).contains(other) <==> peers.contains(other)) by {
            if peers.contains(other) {
                let i = choose|i: int| 0 <= i < peers.len() && peers[i] == other;
                if i < rest.len() {
                    assert(rest[i] == other);
                    assert(rest.contains(other));
                    assert(w.contains(other));
                    let k = choose|k: int| 0 <= k < w.len() && w[k] == other;
                    if last != peer {
                        assert(w.push(last)[k] == other);
                    }
                } else {
                    assert(last == other);
                    assert(w.push(last)[w.len() as int] == other);
                }
            }
            if without(peers, peer).contains(other) {
                let wp = without(peers, peer);
                let k = choose|k: int| 0 <= k < wp.len() && wp[k] == other;
                if last != peer && k == w.len() {
                    assert(peers[peers.len() - 1] == other);
                } else {
                    assert(w[k] == other);
                    assert(w.contains(other));
                    assert(rest.contains(other));
                    let i = choose|i: int| 0 <= i < rest.len() && rest[i] == other;
                    assert(peers[i] == other);
                }
            }
        }
        if last != peer {
            let wp = w.push(last);
            assert(!wp.contains(peer)) by {
                if wp.contains(peer) {
                    let k = choose|k: int| 0 <= k < wp.len() && wp[k] == peer;
                    assert(w[k] == peer);
                    assert(w.contains(peer));
                }
            }
            if distinct(peers) {
                assert(distinct(rest)) by {
                    assert forall|i: int, j: int| 0 <= i < j < rest.len() implies rest[i]
                        != rest[j] by {
                        assert(peers[i] != peers[j]);
                    }
                }
                assert(!rest.contains(last)) by {
                    if rest.contains(last) {
                        let i = choose|i: int| 0 <= i < rest.len() && rest[i] == last;
                        assert(peers[i] != peers[peers.len() - 1]);
                    }
                }
                assert(!w.contains(last));
                assert forall|i: int, j: int| 0 <= i < j < wp.len() implies wp[i] != wp[j] by {
                    if j == w.len() {
                        assert(w.contains(wp[i]));
                    }
                }
            }
            if !peers.contains(peer) {
                assert(!rest.contains(peer)) by {
                    if rest.contains(peer) {
                        let i = choose|i: int| 0 <= i < rest.len() && rest[i] == peer;
                        assert(peers[i] == peer);
                    }
                }
            }
        } else {
            assert(peers[peers.len() - 1] == peer);
            if distinct(peers) {
                assert forall|i: int, j: int| 0 <= i < j < rest.len() implies rest[i]
                    != rest[j] by {
                    assert(peers[i] != peers[j]);
                }
            }
        }
    }
}

impl ConnectionRegistry {
    #[verifier::type_invariant]
    spec fn inv(self) -> bool {
        distinct(texts_view(self.peers@))
    }

    /// A registry without channels.
    pub fn new() -> (r: ConnectionRegistry)
        ensures
            r@ == Seq::<Seq<char>>::empty(),
    {
        let peers: Vec<String> = Vec::new();
        assert(texts_view(peers@) =~= Seq::<Seq<char>>::empty());
        ConnectionRegistry { peers }
    }

    /// How many channels are live.
    pub fn len(&self) -> (n: usize)
        ensures
            n == self@.len(),
    {
        self.peers.len()
    }

    /// Whether the channel of a peer is live.
    pub fn contains(&self, peer: &str) -> (r: bool)
        ensures
            r == self@.contains(peer@),
    {
        let mut i: usize = 0;
        while i < self.peers.len()
            invariant
                0 <= i <= self.peers@.len(),
                forall|k: int| 0 <= k < i ==> texts_view(self.peers@)[k] != peer@,
            decreases self.peers@.len() - i,
        {
            if same_text(self.peers[i].as_str(), peer) {
                assert(texts_view(self.peers@)[i as int] == peer@);
                return true;
            }
            i = i + 1;
        }
        false
    }

    /// The peers whose channels are live at this moment.
    pub fn snapshot(&self) -> (r: Vec<String>)
        ensures
            texts_view(r@) == self@,
            distinct(self@),
    {
        proof {
            use_type_invariant(self);
        }
        let mut out: Vec<String> = Vec::new();
        let mut i: usize = 0;
        while i < self.peers.len()
            invariant
                0 <= i <= self.peers@.len(),
                out@.len() == i,
                forall|k: int| 0 <= k < i ==> (#[trigger] out@[k])@ == self.peers@[k]@,
            decreases self.peers@.len() - i,
        {
            out.push(self.peers[i].clone());
            i = i + 1;
        }
        assert(texts_view(out@) =~= texts_view(self.peers@));
        out
    }

    /// Enters a peer. Nothing changes where it stands in the registry
    /// already; the result says whether it was entered.
    pub fn register(&mut self, peer: &str) -> (entered: bool)
        ensures
            entered == !old(self)@.contains(peer@),
            final(self)@ == if entered {
                old(self)@.push(peer@)
            } else {
                old(self)@
            },
    {
        if self.contains(peer) {
            return false;
        }
        let ghost before = self@;
        let mut peers = self.snapshot();
        peers.push(peer.to_owned());
        proof {
            let after = texts_view(peers@);
            assert(after =~= before.push(peer@));
            assert forall|i: int, j: int| 0 <= i < j < after.len() implies after[i] != after[j] by {
                if j == before.len() {
                    assert(before[i] == after[i]);
                    assert(before.contains(before[i]));
                } else {
                    assert(before[i] != before[j]);
                }
            }
        }
        *self = ConnectionRegistry { peers };
        true
    }

    /// Removes a peer. The result says whether it stood in the registry.
    pub fn deregister(&mut self, peer: &str) -> (removed: bool)
        ensures
            removed == old(self)@.contains(peer@),
            final(self)@ == without(old(self)@, peer@),
    {
        let ghost before = self@;
        let found = self.contains(peer);
        let all = self.snapshot();
        let mut peers: Vec<String> = Vec::new();
        let mut i: usize = 0;
        proof {
            assert(before.subrange(0, 0) =~= Seq::<Seq<char>>::empty());
            assert(texts_view(peers@) =~= Seq::<Seq<char>>::empty());
        }
        while i < all.len()
            invariant
                0 <= i <= all@.len(),
                before == texts_view(all@),
                texts_view(peers@) == without(before.subrange(0, i as int), peer@),
            decreases all@.len() - i,
        {
            let ghost kept = texts_view(peers@);
            proof {
                assert(before.subrange(0, i + 1).drop_last() =~= before.subrange(0, i as int));
                assert(before.subrange(0, i + 1).last() == all@[i as int]@);
            }
            if !same_text(all[i].as_str(), peer) {
                peers.push(all[i].clone());
                assert(texts_view(peers@) =~= kept.push(all@[i as int]@));
            }
            i = i + 1;
        }
        proof {
            assert(before.subrange(0, i as int) =~= before);
            lemma_without(before, peer@);
        }
        *self = ConnectionRegistry { peers };
        found
    }

    /// Takes a new connection: the first thing to do on it is to send the
    /// identity of the local device.
    pub fn accept() -> (step: Step)
        ensures
            step == (Step { state: ChannelState::Accepted, action: ChannelAction::SendIdentity }),
    {
        Step { state: ChannelState::Accepted, action: ChannelAction::SendIdentity }
    }

    /// Takes an event on the channel of a peer: gives the state that the
    /// channel is in afterwards and what is to be done next, and enters the
    /// peer into the registry or removes it where the step asks for that. A
    /// peer that is registered already is not entered again: the channel
    /// that asks for it is closed.
    pub fn advance(&mut self, peer: &str, state: ChannelState, event: ChannelEvent) -> (step: Step)
        ensures
            step == step_for(old(self)@, peer@, state, event),
            final(self)@ == peers_after(old(self)@, peer@, state, event),
    {
        let step = Self::decide(state, event);
        match (state, step.state) {
            (ChannelState::Registered, ChannelState::Registered) => step,
            (_, ChannelState::Registered) => {
                if self.register(peer) {
                    step
                } else {
                    Step { state: ChannelState::Closed, action: ChannelAction::Stop }
                }
            },
            (ChannelState::Registered, ChannelState::Closed) => {
                self.deregister(peer);
                step
            },
            _ => step,
        }
    }

    /// The step that an event brings about on a channel in the given state.
    pub fn decide(state: ChannelState, event: ChannelEvent) -> (step: Step)
        ensures
            step == step_of(state, event),
    {
        match (state, event) {
            (ChannelState::Accepted, ChannelEvent::IdentityWritten) => Step {
                state: ChannelState::IdentitySent,
                action: ChannelAction::StartReader,
            },
            (ChannelState::IdentitySent, ChannelEvent::ReaderStarted) => Step {
                state: ChannelState::Registered,
                action: ChannelAction::Read,
            },
            (ChannelState::Registered, ChannelEvent::Read(n)) => if n > 0 {
                Step { state: ChannelState::Registered, action: ChannelAction::Read }
            } else {
                Step { state: ChannelState::Closed, action: ChannelAction::Stop }
            },
            (ChannelState::Registered, ChannelEvent::ReadInterrupted) => Step {
                state: ChannelState::Registered,
                action: ChannelAction::Read,
            },
            _ => Step { state: ChannelState::Closed, action: ChannelAction::Stop },
        }
    }
}

/// A channel whose peer has closed it is gone from the registry after the
/// one step that the reader takes on seeing it, whatever else the registry
/// holds.
pub proof fn lemma_closed_channel_leaves(peers: Seq<Seq<char>>, peer: Seq<char>)
    ensures
        step_for(peers, peer, ChannelState::Registered, ChannelEvent::Read(0)).state
            == ChannelState::Closed,
        !peers_after(peers, peer, ChannelState::Registered, ChannelEvent::Read(0)).contains(peer),
        forall|other: Seq<char>|
            other != peer ==> (#[trigger] peers_after(
                peers,
                peer,
                ChannelState::Registered,
                ChannelEvent::Read(0),
            ).contains(other) <==> peers.contains(other)),
{
    lemma_without(peers, peer);
}

/// A peer stands in the registry once the reader of its channel has
/// started.
pub proof fn lemma_started_channel_enters(peers: Seq<Seq<char>>, peer: Seq<char>)
    ensures
        peers_after(peers, peer, ChannelState::IdentitySent, ChannelEvent::ReaderStarted).contains(
            peer,
        ),
{
    let after = peers_after(peers, peer, ChannelState::IdentitySent, ChannelEvent::ReaderStarted);
    if !peers.contains(peer) {
        assert(after[peers.len() as int] == peer);
    }
}

/// There is one reader for a peer at most: while a peer is registered, a
/// second channel of that peer is closed instead of registered, and the
/// registry stays as it is.
pub proof fn lemma_one_reader_for_a_peer(peers: Seq<Seq<char>>, peer: Seq<char>)
    requires
        peers.contains(peer),
    ensures
        step_for(peers, peer, ChannelState::IdentitySent, ChannelEvent::ReaderStarted) == (Step {
            state: ChannelState::Closed,
            action: ChannelAction::Stop,
        }),
        peers_after(peers, peer, ChannelState::IdentitySent, ChannelEvent::ReaderStarted) == peers,
{
}

/// No event brings a peer into the registry twice.
pub proof fn lemma_registry_stays_distinct(
    peers: Seq<Seq<char>>,
    peer: Seq<char>,
    state: ChannelState,
    event: ChannelEvent,
)
    requires
        distinct(peers),
    ensures
        distinct(peers_after(peers, peer, state, event)),
{
    lemma_without(peers, peer);
    let after = peers_after(peers, peer, state, event);
    if after == peers.push(peer) && !peers.contains(peer) {
        assert forall|i: int, j: int| 0 <= i < j < after.len() implies after[i] != after[j] by {
            if j == peers.len() {
                assert(peers.contains(after[i]));
            } else {
                assert(peers[i] != peers[j]);
            }
        }
    }
}

/// A closed channel stays closed, and nothing more is done on it.
pub proof fn lemma_closed_is_final(peers: Seq<Seq<char>>, peer: Seq<char>, event: ChannelEvent)
    ensures
        step_for(peers, peer, ChannelState::Closed, event) == (Step {
            state: ChannelState::Closed,
            action: ChannelAction::Stop,
        }),
        peers_after(peers, peer, ChannelState::Closed, event) == peers,
{
}

} // verus!
