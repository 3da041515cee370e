//! Forwarding between one upstream transport and any number of downstream ones.
use std::collections::BTreeMap;

use vstd::prelude::*;

use crate::config::ZBrokerConfig;
use crate::fields::ZenohIdProto;

verus! {

/// A transport that a message is forwarded over.
#[derive(Clone, Copy, Debug, PartialEq, Eq, Structural)]
pub enum Peer {
    /// The upstream one.
    North,
    /// The downstream one to the peer with this identifier.
    South(u128),
}

/// The transports of a broker, which `D` stands for.
pub struct BrokerState<D> {
    north: Option<(ZenohIdProto, D)>,
    south: BTreeMap<u128, D>,
}

/// `ids` are those of `peers`, from the smallest to the largest.
pub open spec fn in_order(ids: Seq<u128>, peers: Set<u128>) -> bool {
    &&& forall|i: int, j: int| 0 <= i < j < ids.len() ==> ids[i] < ids[j]
    &&& forall|id: u128| peers.contains(id) <==> #[trigger] ids.contains(id)
}

/// The downstream peers that a message goes to: all but the one it came from, unless it came from
/// upstream.
pub open spec fn audience(peers: Set<u128>, north: bool, sender: u128) -> Set<u128> {
    if north {
        peers
    } else {
        peers.remove(sender)
    }
}

/// The downstream peers with these identifiers.
pub open spec fn souths(ids: Seq<u128>) -> Seq<Peer> {
    ids.map_values(|id: u128| Peer::South(id))
}

proof fn lemma_increasing(ids: Seq<u128>)
    requires
        vstd::std_specs::btree::increasing_seq(ids),
    ensures
        forall|i: int, j: int| 0 <= i < j < ids.len() ==> ids[i] < ids[j],
{
    broadcast use vstd::std_specs::btree::group_btree_axioms;

    assert forall|i: int, j: int| 0 <= i < j < ids.len() implies ids[i] < ids[j] by {
        assert(vstd::std_specs::cmp::OrdSpec::cmp_spec(&ids[i], &ids[j]) is Less);
    }
}

impl<D> BrokerState<D> {
    /// The upstream transport.
    pub closed spec fn upstream(&self) -> Option<(ZenohIdProto, D)> {
        self.north
    }

    /// The downstream transports.
    pub closed spec fn downstream(&self) -> Map<u128, D> {
        self.south@
    }

    pub fn new() -> (state: Self)
        ensures
            state.upstream() is None,
            state.downstream() == Map::<u128, D>::empty(),
    {
        BrokerState { north: None, south: BTreeMap::new() }
    }

    /// Takes an upstream transport into use.
    pub fn attach_north(&mut self, zid: ZenohIdProto, driver: D)
        ensures
            final(self).upstream() == Some((zid, driver)),
            final(self).downstream() == old(self).downstream(),
    {
        self.north = Some((zid, driver));
    }

    /// Forgets the upstream transport once it has ended.
    pub fn detach_north(&mut self)
        ensures
            final(self).upstream() is None,
            final(self).downstream() == old(self).downstream(),
    {
        self.north = None;
    }

    /// Takes a downstream transport into use, in place of the one to the same peer if there is one.
    pub fn attach_south(&mut self, zid: ZenohIdProto, driver: D)
        ensures
            final(self).upstream() == old(self).upstream(),
            final(self).downstream() == old(self).downstream().insert(zid@, driver),
    {
        broadcast use vstd::std_specs::btree::group_btree_axioms;

        self.south.insert(zid.as_u128(), driver);
    }

    /// Forgets the downstream transport to a peer once it has ended.
    pub fn detach_south(&mut self, zid: ZenohIdProto)
        ensures
            final(self).upstream() == old(self).upstream(),
            final(self).downstream() == old(self).downstream().remove(zid@),
    {
        broadcast use vstd::std_specs::btree::group_btree_axioms;

        self.south.remove(&zid.as_u128());
    }

    /// The transport to `peer`, if it is in use.
    pub fn driver(&self, peer: Peer) -> (driver: Option<&D>)
        ensures
            match peer {
                Peer::North => match self.upstream() {
                    Some((_, north)) => driver == Some(&north),
                    None => driver is None,
                },
                Peer::South(id) => if self.downstream().contains_key(id) {
                    driver == Some(&self.downstream()[id])
                } else {
                    driver is None
                },
            },
    {
        broadcast use vstd::std_specs::btree::group_btree_axioms;

        match peer {
            Peer::North => match &self.north {
                Some((_, driver)) => Some(driver),
                None => None,
            },
            Peer::South(id) => self.south.get(&id),
        }
    }

    /// Where a message goes, in this order: one from upstream to every downstream peer, one from the
    /// downstream peer `id` upstream and to every other downstream peer. Forwarding ends at the first
    /// transport that fails.
    pub fn update(&self, north: bool, id: ZenohIdProto) -> (peers: Vec<Peer>)
        ensures
            exists|ids: Seq<u128>|
                #[trigger] in_order(ids, audience(self.downstream().dom(), north, id@)) && peers@ == (if !north && self.upstream() is Some {
                    seq![Peer::North]
                } else {
                    seq![]
                }) + souths(ids),
            peers@.no_duplicates(),
            forall|key: u128| #[trigger]
                peers@.contains(Peer::South(key)) <==> self.downstream().contains_key(key) && (north
                    || key != id@),
            peers@.contains(Peer::North) <==> !north && self.upstream() is Some,
            peers@.contains(Peer::North) ==> peers@[0] == Peer::North,
            forall|i: int, j: int|
                0 <= i < j < peers@.len() && peers@[i] is South ==> peers@[j] is South
                    && (#[trigger] peers@[i])->South_0 < (#[trigger] peers@[j])->South_0,
    {
        broadcast use vstd::std_specs::btree::group_btree_axioms;

        let sender: u128 = id.as_u128();
        let mut peers: Vec<Peer> = Vec::new();
        if !north && self.north.is_some() {
            peers.push(Peer::North);
        }
        let ghost first = peers@;
        let ghost mut ids: Seq<u128> = seq![];
        let entries = self.south.iter();
        let ghost pairs = vstd::std_specs::iter::IteratorSpec::remaining(&entries);
        let ghost keys = pairs.map_values(|kv: (&u128, &D)| *kv.0);
        proof {
            lemma_increasing(keys);
        }
        for entry in it: entries
            invariant
                it.seq() == pairs,
                keys == pairs.map_values(|kv: (&u128, &D)| *kv.0),
                forall|i: int, j: int| 0 <= i < j < keys.len() ==> keys[i] < keys[j],
                peers@ == first + souths(ids),
                forall|i: int, j: int| 0 <= i < j < ids.len() ==> ids[i] < ids[j],
                forall|key: u128| #[trigger]
                    ids.contains(key) <==> (north || key != sender) && keys.take(
                        it.index() as int,
                    ).contains(key),
        {
            let key: u128 = *entry.0;
            proof {
                let at = it.index() as int;
                let before = keys.take(at);
                let after = keys.take(at + 1);
                assert(key == keys[at]);
                assert(after == before.push(key));
                assert forall|k: u128| #[trigger] after.contains(k) <==> before.contains(k) || k
                    == key by {
                    if before.contains(k) {
                        let i = choose|i: int| 0 <= i < before.len() && before[i] == k;
                        assert(after[i] == k);
                    }
                    assert(after[at] == key);
                }
                if north || key != sender {
                    let longer = ids.push(key);
                    assert forall|i: int, j: int| 0 <= i < j < longer.len() implies longer[i]
                        < longer[j] by {
                        if j == ids.len() {
                            assert(ids.contains(ids[i]));
                            let k = choose|k: int| 0 <= k < before.len() && before[k] == ids[i];
                            assert(keys[k] < keys[at]);
                        }
                    }
                    assert forall|k: u128| #[trigger] longer.contains(k) <==> ids.contains(k) || k
                        == key by {
                        if ids.contains(k) {
                            let i = choose|i: int| 0 <= i < ids.len() && ids[i] == k;
                            assert(longer[i] == k);
                        }
                        assert(longer[ids.len() as int] == key);
                    }
                    assert(souths(longer) == souths(ids).push(Peer::South(key)));
                    ids = longer;
                }
            }
            if north || key != sender {
                peers.push(Peer::South(key));
            }
        }
        proof {
            let receivers = audience(self.downstream().dom(), north, id@);
            assert(keys.take(keys.len() as int) == keys);
            assert forall|key: u128| receivers.contains(key) <==> #[trigger] ids.contains(key) by {
                if self.south@.contains_key(key) {
                    assert(pairs.contains((&key, &self.south@[key])));
                    let i = choose|i: int|
                        0 <= i < pairs.len() && pairs[i] == (&key, &self.south@[key]);
                    assert(keys[i] == key);
                }
                if keys.contains(key) {
                    let i = choose|i: int| 0 <= i < keys.len() && keys[i] == key;
                    assert(self.south@.contains_key(*pairs[i].0));
                }
            }
            assert(in_order(ids, receivers));
            let listed = first + souths(ids);
            assert forall|key: u128| #[trigger] listed.contains(Peer::South(key)) <==> ids.contains(
                key,
            ) by {
                if ids.contains(key) {
                    let i = choose|i: int| 0 <= i < ids.len() && ids[i] == key;
                    assert(listed[first.len() + i] == Peer::South(key));
                }
                if listed.contains(Peer::South(key)) {
                    let i = choose|i: int|
                        0 <= i < listed.len() && listed[i] == Peer::South(key);
                    assert(i >= first.len());
                    assert(ids[i - first.len()] == key);
                }
            }
            if first.len() > 0 {
                assert(listed[0] == Peer::North);
            }
        }
        peers
    }
}

/// A broker over transports that `D` stands for.
pub struct Broker<'res, Config: ZBrokerConfig, D> {
    pub config: &'res Config,
    pub state: BrokerState<D>,
}

impl<'res, Config: ZBrokerConfig, D> Broker<'res, Config, D> {
    pub fn new(config: &'res Config) -> (broker: Self)
        ensures
            broker.config == config,
            broker.state.upstream() is None,
            broker.state.downstream() == Map::<u128, D>::empty(),
    {
        Broker { config, state: BrokerState::new() }
    }
}

/// A message is never sent back to the downstream peer it came from.
pub proof fn law_a_message_is_not_echoed(ids: Seq<u128>, peers: Set<u128>, sender: u128)
    requires
        in_order(ids, audience(peers, false, sender)),
    ensures
        !(seq![Peer::North] + souths(ids)).contains(Peer::South(sender)),
        !souths(ids).contains(Peer::South(sender)),
{
    if souths(ids).contains(Peer::South(sender)) {
        let i = choose|i: int|
            0 <= i < souths(ids).len() && souths(ids)[i] == Peer::South(sender);
        assert(ids.contains(ids[i]));
    }
    if (seq![Peer::North] + souths(ids)).contains(Peer::South(sender)) {
        let i = choose|i: int|
            0 <= i < ids.len() + 1 && (seq![Peer::North] + souths(ids))[i] == Peer::South(sender);
        assert(souths(ids)[i - 1] == Peer::South(sender));
        assert(ids.contains(ids[i - 1]));
    }
}

/// Every peer in the audience of a message gets it, and gets it once.
pub proof fn law_every_other_peer_gets_a_message_once(
    ids: Seq<u128>,
    peers: Set<u128>,
    receiver: u128,
)
    requires
        in_order(ids, peers),
        peers.contains(receiver),
    ensures
        souths(ids).contains(Peer::South(receiver)),
        souths(ids).no_duplicates(),
{
    assert(ids.contains(receiver));
    let i = choose|i: int| 0 <= i < ids.len() && ids[i] == receiver;
    assert(souths(ids)[i] == Peer::South(receiver));
    assert forall|i: int, j: int| 0 <= i < ids.len() && 0 <= j < ids.len() && i != j implies souths(
        ids,
    )[i] != souths(ids)[j] by {
        if i < j {
            assert(ids[i] < ids[j]);
        } else {
            assert(ids[j] < ids[i]);
        }
    }
}

/// What the two directions have to do with each other, and how an audience follows the peers. A
/// message from upstream goes to every downstream peer, whoever sends it; one from a downstream peer
/// goes to every other one. A peer that attaches joins every audience but its own, and one that
/// detaches leaves all of them.
pub proof fn law_an_audience_is_everyone_else(
    peers: Set<u128>,
    sender: u128,
    other: u128,
    receiver: u128,
)
    ensures
        audience(peers, true, sender).contains(receiver) <==> peers.contains(receiver),
        audience(peers, false, sender).contains(receiver) <==> peers.contains(receiver) && receiver
            != sender,
        audience(peers, true, sender) == audience(peers, true, other),
        !peers.contains(sender) ==> audience(peers, false, sender) == audience(peers, true, sender),
        audience(peers.insert(receiver), true, sender).contains(receiver),
        receiver != sender ==> audience(peers.insert(receiver), false, sender).contains(receiver),
        !audience(peers.remove(receiver), true, sender).contains(receiver),
        !audience(peers.remove(receiver), false, sender).contains(receiver),
{
    assert(audience(peers, true, sender) == audience(peers, true, other));
    if !peers.contains(sender) {
        assert(audience(peers, false, sender) == audience(peers, true, sender));
    }
}

/// The list of receivers names each of the peers once and nobody else: as often as a peer is listed
/// it is one of them, and each of them is listed at one place.
pub proof fn law_a_list_of_receivers_is_exact(ids: Seq<u128>, peers: Set<u128>, receiver: u128)
    requires
        in_order(ids, peers),
    ensures
        souths(ids).contains(Peer::South(receiver)) <==> peers.contains(receiver),
        !souths(ids).contains(Peer::North),
        souths(ids).no_duplicates(),
        souths(ids).len() == ids.len(),
        forall|i: int, j: int| 0 <= i < j < ids.len() ==> ids[i] < ids[j],
        forall|i: int| 0 <= i < ids.len() ==> #[trigger] souths(ids)[i] == Peer::South(ids[i]),
{
    if peers.contains(receiver) {
        law_every_other_peer_gets_a_message_once(ids, peers, receiver);
    }
    if souths(ids).contains(Peer::South(receiver)) {
        let i = choose|i: int| 0 <= i < ids.len() && souths(ids)[i] == Peer::South(receiver);
        assert(ids.contains(ids[i]));
    }
    assert forall|i: int, j: int| 0 <= i < ids.len() && 0 <= j < ids.len() && i != j implies souths(
        ids,
    )[i] != souths(ids)[j] by {
        if i < j {
            assert(ids[i] < ids[j]);
        } else {
            assert(ids[j] < ids[i]);
        }
    }
}

/// A message from upstream reaches every downstream peer once and is not sent upstream again. One
/// from a downstream peer reaches the upstream peer, if there is one, and every downstream peer but
/// the one it came from, each once. Nobody else gets it.
pub proof fn law_a_message_reaches_everyone_else_once<D>(
    state: BrokerState<D>,
    id: ZenohIdProto,
    from_north: Vec<Peer>,
    from_south: Vec<Peer>,
    receiver: u128,
)
    requires
        call_ensures(BrokerState::<D>::update, (&state, true, id), from_north),
        call_ensures(BrokerState::<D>::update, (&state, false, id), from_south),
    ensures
        from_north@.contains(Peer::South(receiver)) <==> state.downstream().contains_key(receiver),
        from_south@.contains(Peer::South(receiver)) <==> state.downstream().contains_key(receiver)
            && receiver != id@,
        !from_north@.contains(Peer::North),
        from_south@.contains(Peer::North) <==> state.upstream() is Some,
        from_north@.no_duplicates(),
        from_south@.no_duplicates(),
{
}

/// A peer that attaches is reached from then on, over the transport it came with, and one that
/// detaches no more. Neither changes how any other peer is reached.
pub proof fn law_peers_are_reached_while_they_are_attached<D>()
    ensures
        forall|state: &mut BrokerState<D>, zid: ZenohIdProto, driver: D, nothing: ()| #[trigger]
            call_ensures(BrokerState::<D>::attach_south, (state, zid, driver), nothing) ==> {
                let before = *state;
                let after = *final(state);
                &&& after.downstream().contains_key(zid@) && after.downstream()[zid@] == driver
                &&& after.upstream() == before.upstream()
                &&& forall|other: u128|
                    other != zid@ ==> #[trigger] after.downstream().contains_key(other)
                        == before.downstream().contains_key(other)
            },
        forall|state: &mut BrokerState<D>, zid: ZenohIdProto, nothing: ()| #[trigger]
            call_ensures(BrokerState::<D>::detach_south, (state, zid), nothing) ==> {
                let before = *state;
                let after = *final(state);
                &&& !after.downstream().contains_key(zid@)
                &&& after.upstream() == before.upstream()
                &&& forall|other: u128|
                    other != zid@ ==> #[trigger] after.downstream().contains_key(other)
                        == before.downstream().contains_key(other)
            },
        forall|state: &mut BrokerState<D>, zid: ZenohIdProto, driver: D, nothing: ()| #[trigger]
            call_ensures(BrokerState::<D>::attach_north, (state, zid, driver), nothing)
                ==> (*final(state)).upstream() == Some((zid, driver))
                && (*final(state)).downstream() == (*state).downstream(),
        forall|state: &mut BrokerState<D>, nothing: ()| #[trigger]
            call_ensures(BrokerState::<D>::detach_north, (state,), nothing)
                ==> (*final(state)).upstream() is None && (*final(state)).downstream()
                == (*state).downstream(),
        forall|state: &BrokerState<D>, peer: Peer, driver: Option<&D>| #[trigger]
            call_ensures(BrokerState::<D>::driver, (state, peer), driver) ==> match peer {
                Peer::North => driver is Some <==> state.upstream() is Some,
                Peer::South(id) => {
                    &&& driver is Some <==> state.downstream().contains_key(id)
                    &&& driver is Some ==> *driver->0 == state.downstream()[id]
                },
            },
{
}

} // verus!
