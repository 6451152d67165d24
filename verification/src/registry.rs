use crate::error::GameError;
use crate::types::{Envelope, Outbound, PlayerId};
use std::collections::HashMap;
use vstd::prelude::*;

verus! {

broadcast use vstd::std_specs::hash::group_hash_axioms;

/// `envelope`, addressed to each of `players` in turn.
pub open spec fn addressed(players: Seq<PlayerId>, envelope: Envelope) -> Seq<Outbound> {
    Seq::new(players.len(), |i: int| Outbound { recipient: players[i], envelope })
}

/// Who is registered, and where their messages go.
pub struct Roster<S> {
    /// The registered players, in the order in which they registered.
    pub players: Seq<PlayerId>,
    /// The sink of each registered player.
    pub sinks: Map<PlayerId, S>,
}

impl<S> Roster<S> {
    /// Nobody appears twice, and exactly the registered players have a sink.
    pub open spec fn wf(self) -> bool {
        &&& self.players.no_duplicates()
        &&& self.sinks.dom() == self.players.to_set()
    }

    /// The roster with nobody on it.
    pub open spec fn empty() -> Roster<S> {
        Roster { players: Seq::empty(), sinks: Map::empty() }
    }

    /// Whether `id` is registered.
    pub open spec fn contains(self, id: PlayerId) -> bool {
        self.players.contains(id)
    }

    /// The roster after `id` has registered with `sink`: a newcomer goes to
    /// the end, a known player keeps its place and gets the new sink.
    pub open spec fn registered(self, id: PlayerId, sink: S) -> Roster<S> {
        Roster {
            players: if self.contains(id) {
                self.players
            } else {
                self.players.push(id)
            },
            sinks: self.sinks.insert(id, sink),
        }
    }

    /// The roster after `id` has left.
    pub open spec fn unregistered(self, id: PlayerId) -> Roster<S> {
        Roster { players: self.players.remove_value(id), sinks: self.sinks.remove(id) }
    }

    /// `envelope` for `id` alone, if `id` is registered.
    pub open spec fn send(self, id: PlayerId, envelope: Envelope) -> Result<Outbound, GameError> {
        if self.contains(id) {
            Ok(Outbound { recipient: id, envelope })
        } else {
            Err(GameError::NotFound)
        }
    }

    /// `envelope` for everybody, in the order of registration.
    pub open spec fn broadcast(self, envelope: Envelope) -> Seq<Outbound> {
        addressed(self.players, envelope)
    }
}

/// Registering keeps a roster well-formed.
pub proof fn lemma_registered_wf<S>(roster: Roster<S>, id: PlayerId, sink: S)
    requires
        roster.wf(),
    ensures
        roster.registered(id, sink).wf(),
        roster.registered(id, sink).contains(id),
        forall|other: PlayerId|
            other != id ==> (#[trigger] roster.registered(id, sink).contains(other)
                <==> roster.contains(other)),
{
    let after = roster.registered(id, sink);
    if roster.contains(id) {
        assert(after.sinks.dom() =~= roster.sinks.dom());
    } else {
        assert(after.players.last() == id);
        assert forall|other: PlayerId| other != id implies (#[trigger] after.contains(other)
            <==> roster.contains(other)) by {
            if roster.contains(other) {
                let i = roster.players.index_of(other);
                assert(after.players[i] == other);
            }
            if after.contains(other) {
                let i = after.players.index_of(other);
                assert(roster.players[i] == other);
            }
        }
        assert(after.sinks.dom() =~= after.players.to_set()) by {
            assert forall|p: PlayerId| after.sinks.dom().contains(p) <==> after.players.to_set().contains(
                p,
            ) by {
                if p == id {
                    assert(after.players[after.players.len() - 1] == id);
                } else {
                    assert(after.contains(p) <==> roster.contains(p));
                    assert(roster.sinks.dom().contains(p) <==> roster.players.to_set().contains(
                        p,
                    ));
                }
            }
        }
    }
}

/// Where the one occurrence of a registered player is, its first
/// occurrence is.
pub proof fn lemma_position<S>(roster: Roster<S>, id: PlayerId, at: int)
    requires
        roster.wf(),
        0 <= at < roster.players.len(),
        roster.players[at] == id,
    ensures
        roster.players.remove_value(id) == roster.players.remove(at),
{
    roster.players.index_of_first_ensures(id);
}

/// Unregistering keeps a roster well-formed and removes the player.
pub proof fn lemma_unregistered_wf<S>(roster: Roster<S>, id: PlayerId)
    requires
        roster.wf(),
    ensures
        roster.unregistered(id).wf(),
        !roster.unregistered(id).contains(id),
        forall|other: PlayerId|
            other != id ==> (#[trigger] roster.unregistered(id).contains(other)
                <==> roster.contains(other)),
        !roster.contains(id) ==> roster.unregistered(id) == roster,
        roster.contains(id) ==> roster.unregistered(id).players.len() == roster.players.len() - 1,
{
    let after = roster.unregistered(id);
    roster.players.index_of_first_ensures(id);
    if roster.contains(id) {
        let at = roster.players.index_of_first(id).unwrap();
        roster.players.remove_ensures(at);
        assert(after.players == roster.players.remove(at));
        assert forall|other: PlayerId| after.contains(other) implies roster.contains(other) && other
            != id by {
            let i = after.players.index_of(other);
            if i < at {
                assert(roster.players[i] == other);
            } else {
                assert(roster.players[i + 1] == other);
            }
        }
        assert forall|other: PlayerId| other != id && roster.contains(other) implies after.contains(
            other,
        ) by {
            let i = roster.players.index_of(other);
            if i < at {
                assert(after.players[i] == other);
            } else {
                assert(after.players[i - 1] == other);
            }
        }
        assert(after.sinks.dom() =~= after.players.to_set()) by {
            assert forall|p: PlayerId| after.sinks.dom().contains(p) <==> after.players.to_set().contains(
                p,
            ) by {
                assert(roster.sinks.dom().contains(p) <==> roster.players.to_set().contains(p));
                if p != id {
                    assert(after.contains(p) <==> roster.contains(p));
                }
            }
        }
    } else {
        assert(after.sinks =~= roster.sinks);
    }
}

/// The connection registry: who is connected, and the sink of each.
pub struct Registry<S> {
    sinks: HashMap<PlayerId, S>,
    order: Vec<PlayerId>,
}

impl<S> View for Registry<S> {
    type V = Roster<S>;

    closed spec fn view(&self) -> Roster<S> {
        Roster { players: self.order@, sinks: self.sinks@ }
    }
}

impl<S> Registry<S> {
    /// Whether the registry is in a state that its own operations can reach.
    pub open spec fn wf(&self) -> bool {
        self@.wf()
    }

    /// A registry with nobody in it.
    pub fn new() -> (registry: Registry<S>)
        ensures
            registry.wf(),
            registry@ == Roster::<S>::empty(),
    {
        let registry = Registry { sinks: HashMap::new(), order: Vec::new() };
        assert(registry@.sinks.dom() =~= registry@.players.to_set());
        assert(registry@.sinks =~= Map::empty());
        registry
    }

    /// How many players are registered.
    pub fn len(&self) -> (n: usize)
        ensures
            n == self@.players.len(),
    {
        self.order.len()
    }

    /// Whether `id` is registered.
    pub fn contains(&self, id: PlayerId) -> (found: bool)
        requires
            self.wf(),
        ensures
            found == self@.contains(id),
    {
        self.sinks.contains_key(&id)
    }

    /// The registered players, in the order in which they registered.
    pub fn players(&self) -> (players: Vec<PlayerId>)
        ensures
            players@ == self@.players,
    {
        self.order.clone()
    }

    /// The sink of `id`, if `id` is registered.
    pub fn sink(&self, id: PlayerId) -> (sink: Option<&S>)
        requires
            self.wf(),
        ensures
            match sink {
                Some(sink) => self@.contains(id) && *sink == self@.sinks[id],
                None => !self@.contains(id),
            },
    {
        self.sinks.get(&id)
    }

    /// Registers `id` with `sink`. A player that is already registered
    /// keeps its place and gets the new sink.
    pub fn register(&mut self, id: PlayerId, sink: S)
        requires
            old(self).wf(),
        ensures
            final(self).wf(),
            final(self)@ == old(self)@.registered(id, sink),
    {
        proof {
            lemma_registered_wf(self@, id, sink);
        }
        let known = self.sinks.contains_key(&id);
        self.sinks.insert(id, sink);
        if !known {
            self.order.push(id);
        }
    }

    /// Where `id` stands in the order of registration.
    fn position(&self, id: PlayerId) -> (at: Option<usize>)
        ensures
            match at {
                Some(at) => at < self@.players.len() && self@.players[at as int] == id,
                None => !self@.contains(id),
            },
    {
        let mut at: usize = 0;
        while at < self.order.len()
            invariant
                at <= self.order.len(),
                forall|i: int| 0 <= i < at ==> self.order@[i] != id,
            decreases self.order.len() - at,
        {
            if self.order[at] == id {
                return Some(at);
            }
            at += 1;
        }
        None
    }

    /// Removes `id`. Nothing happens if `id` is not registered.
    pub fn unregister(&mut self, id: PlayerId)
        requires
            old(self).wf(),
        ensures
            final(self).wf(),
            final(self)@ == old(self)@.unregistered(id),
    {
        proof {
            lemma_unregistered_wf(self@, id);
        }
        match self.position(id) {
            Some(at) => {
                proof {
                    lemma_position(self@, id, at as int);
                }
                self.order.remove(at);
            },
            None => {},
        }
        self.sinks.remove(&id);
    }

    /// Addresses `envelope` to `id` alone. Fails with `NotFound` if `id` is
    /// not registered, as happens when a player disconnects while a message
    /// for it is under way.
    pub fn send(&self, id: PlayerId, envelope: &Envelope) -> (sent: Result<Outbound, GameError>)
        requires
            self.wf(),
        ensures
            sent == self@.send(id, *envelope),
    {
        if self.sinks.contains_key(&id) {
            Ok(Outbound { recipient: id, envelope: envelope.clone() })
        } else {
            Err(GameError::NotFound)
        }
    }

    /// Addresses `envelope` to every registered player, in the order in
    /// which they registered.
    pub fn broadcast(&self, envelope: &Envelope) -> (sent: Vec<Outbound>)
        ensures
            sent@ == self@.broadcast(*envelope),
    {
        let mut sent: Vec<Outbound> = Vec::new();
        let mut i: usize = 0;
        while i < self.order.len()
            invariant
                i <= self.order.len(),
                sent@.len() == i,
                forall|j: int|
                    0 <= j < i ==> sent@[j] == (Outbound {
                        recipient: self.order@[j],
                        envelope: *envelope,
                    }),
            decreases self.order.len() - i,
        {
            sent.push(Outbound { recipient: self.order[i], envelope: envelope.clone() });
            i += 1;
        }
        assert(sent@ =~= self@.broadcast(*envelope));
        sent
    }
}

} // verus!
