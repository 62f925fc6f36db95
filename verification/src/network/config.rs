//! The configuration of the network.
use crate::network::primitives::PeerId;
use std::collections::HashSet;
use vstd::prelude::*;

verus! {

/// A peer and an address of it, in its wire form.
#[derive(Debug)]
pub struct MultiaddrWithPeerId {
    /// The peer.
    pub peer_id: PeerId,
    /// The address.
    pub multiaddr: Vec<u8>,
}

/// What happens to peers that are not reserved.
#[derive(Clone, Copy, PartialEq, Eq, Structural, Debug)]
pub enum NonReservedPeerMode {
    /// They are accepted.
    Accept,
    /// They are denied.
    Deny,
}

/// The configuration of a set of peers.
#[derive(Debug)]
pub struct SetConfig {
    /// How many peers may connect to us.
    pub in_peers: u32,
    /// How many peers we connect to.
    pub out_peers: u32,
    /// The reserved peers.
    pub reserved_nodes: Vec<MultiaddrWithPeerId>,
    /// What happens to the other peers.
    pub non_reserved_mode: NonReservedPeerMode,
}

/// The configuration of the set of peers of a user-defined protocol.
#[derive(Debug)]
pub struct NonDefaultSetConfig {
    /// The name of the protocol.
    pub notifications_protocol: String,
    /// Older names of the protocol.
    pub fallback_names: Vec<String>,
    /// The size that a notification may have.
    pub max_notification_size: u64,
    /// The configuration of the set.
    pub set_config: SetConfig,
}

/// The configuration of the network.
#[derive(Debug)]
pub struct NetworkConfiguration {
    /// The peers that are asked first for others.
    pub boot_nodes: Vec<MultiaddrWithPeerId>,
    /// The set of peers that we sync from.
    pub default_peers_set: SetConfig,
    /// The sets of the user-defined protocols.
    pub extra_sets: Vec<NonDefaultSetConfig>,
}

/// The configuration of a notifications protocol.
#[derive(Debug)]
pub struct ProtocolConfig {
    /// The name of the protocol.
    pub name: String,
    /// Older names of the protocol.
    pub fallback_names: Vec<String>,
    /// The handshake to send.
    pub handshake: Vec<u8>,
    /// The size that a notification may have.
    pub max_notification_size: u64,
}

/// A set of peers as the peer set manager wants it.
#[derive(Debug)]
pub struct PeersetSetConfig {
    /// How many peers may connect to us.
    pub in_peers: u32,
    /// How many peers we connect to.
    pub out_peers: u32,
    /// The peers that are asked first for others.
    pub bootnodes: Vec<PeerId>,
    /// The reserved peers.
    pub reserved_nodes: HashSet<PeerId>,
    /// Whether reserved peers alone are accepted.
    pub reserved_only: bool,
}

/// The peers of a list of nodes.
pub open spec fn peer_ids(nodes: Seq<MultiaddrWithPeerId>) -> Seq<PeerId> {
    nodes.map_values(|node: MultiaddrWithPeerId| node.peer_id)
}

/// Whether a peer is reserved in any of the given sets.
pub open spec fn reserved_in(sets: Seq<NonDefaultSetConfig>, peer: PeerId) -> bool {
    exists|i: int|
        0 <= i < sets.len() && peer_ids(
            (#[trigger] sets[i]).set_config.reserved_nodes@,
        ).contains(peer)
}

/// The nodes with an address, each with that address.
pub open spec fn addressed(nodes: Seq<MultiaddrWithPeerId>) -> Seq<(PeerId, Seq<u8>)>
    decreases nodes.len(),
{
    if nodes.len() == 0 {
        Seq::empty()
    } else {
        let last = nodes.last();
        if last.multiaddr@.len() == 0 {
            addressed(nodes.drop_last())
        } else {
            addressed(nodes.drop_last()).push((last.peer_id, last.multiaddr@))
        }
    }
}

/// The nodes, each with its address, be it empty or not.
pub open spec fn all_addresses(nodes: Seq<MultiaddrWithPeerId>) -> Seq<(PeerId, Seq<u8>)> {
    nodes.map_values(|node: MultiaddrWithPeerId| (node.peer_id, node.multiaddr@))
}

/// The addresses of the reserved nodes of all the given sets, in their order.
pub open spec fn extra_addresses(sets: Seq<NonDefaultSetConfig>) -> Seq<(PeerId, Seq<u8>)>
    decreases sets.len(),
{
    if sets.len() == 0 {
        Seq::empty()
    } else {
        extra_addresses(sets.drop_last()) + all_addresses(
            sets.last().set_config.reserved_nodes@,
        )
    }
}

/// The contents of a list of addresses.
pub open spec fn addresses_view(addresses: Seq<(PeerId, Vec<u8>)>) -> Seq<(PeerId, Seq<u8>)> {
    addresses.map_values(|address: (PeerId, Vec<u8>)| (address.0, address.1@))
}

/// The addresses that the configuration makes known: those of the reserved nodes
/// of the default set that have one, then those of the reserved nodes of every
/// other set.
pub open spec fn configured_addresses(config: NetworkConfiguration) -> Seq<(PeerId, Seq<u8>)> {
    addressed(config.default_peers_set.reserved_nodes@) + extra_addresses(config.extra_sets@)
}

/// Whether `set` is what the peer set manager needs to know of `config` with the
/// given boot nodes.
pub open spec fn is_set_of(set: PeersetSetConfig, config: SetConfig, bootnodes: Seq<PeerId>) -> bool {
    &&& set.in_peers == config.in_peers
    &&& set.out_peers == config.out_peers
    &&& set.bootnodes@ == bootnodes
    &&& set.reserved_nodes@ == peer_ids(config.reserved_nodes@).to_set()
    &&& set.reserved_only == (config.non_reserved_mode == NonReservedPeerMode::Deny)
}

/// Whether `sets` are the sets of the configuration: the one of the block announces
/// protocol first, with the boot nodes, then those of the user-defined protocols.
pub open spec fn are_sets_of(sets: Seq<PeersetSetConfig>, config: NetworkConfiguration) -> bool {
    &&& sets.len() == 1 + config.extra_sets@.len()
    &&& is_set_of(sets[0], config.default_peers_set, peer_ids(config.boot_nodes@))
    &&& forall|i: int|
        #![trigger config.extra_sets@[i]]
        0 <= i < config.extra_sets@.len() ==> is_set_of(
            sets[i + 1],
            config.extra_sets@[i].set_config,
            Seq::empty(),
        )
}

/// Whether `protocol` is the protocol of a user-defined set with the given
/// handshake.
pub open spec fn is_protocol_of(
    protocol: ProtocolConfig,
    set: NonDefaultSetConfig,
    handshake: Seq<u8>,
) -> bool {
    &&& protocol.name@ == set.notifications_protocol@
    &&& protocol.fallback_names@ == set.fallback_names@
    &&& protocol.handshake@ == handshake
    &&& protocol.max_notification_size == set.max_notification_size
}

/// Whether `protocols` are the protocols of the configuration: the block announces
/// protocol first, then the user-defined ones, as far as there are handshakes.
pub open spec fn are_protocols_of(
    protocols: Seq<ProtocolConfig>,
    sync_protocol_config: ProtocolConfig,
    config: NetworkConfiguration,
    handshakes: Seq<Vec<u8>>,
) -> bool {
    let sets = config.extra_sets@;
    let count = if sets.len() < handshakes.len() {
        sets.len()
    } else {
        handshakes.len()
    };
    &&& protocols.len() == 1 + count
    &&& protocols[0] == sync_protocol_config
    &&& forall|i: int|
        #![trigger sets[i]]
        0 <= i < count ==> is_protocol_of(protocols[i + 1], sets[i], handshakes[i]@)
}

/// The contents of a list of names.
pub open spec fn names_view(names: Seq<String>) -> Seq<Seq<char>> {
    names.map_values(|name: String| name@)
}

/// The names of the user-defined protocols, in the order of their sets.
pub open spec fn protocol_names(sets: Seq<NonDefaultSetConfig>) -> Seq<Seq<char>> {
    sets.map_values(|set: NonDefaultSetConfig| set.notifications_protocol@)
}

/// The boot nodes.
pub open spec fn boot_nodes_of(config: NetworkConfiguration) -> Set<PeerId> {
    peer_ids(config.boot_nodes@).to_set()
}

/// The peers that are reserved in any set.
pub open spec fn important_peers_of(config: NetworkConfiguration) -> Set<PeerId> {
    Set::new(
        |peer: PeerId|
            peer_ids(config.default_peers_set.reserved_nodes@).contains(peer) || reserved_in(
                config.extra_sets@,
                peer,
            ),
    )
}

/// The peers of a list of nodes, in its order.
pub(crate) fn collect_peer_ids(nodes: &Vec<MultiaddrWithPeerId>) -> (peers: Vec<PeerId>)
    ensures
        peers@ == peer_ids(nodes@),
{
    let mut peers: Vec<PeerId> = Vec::new();
    let mut i: usize = 0;
    while i < nodes.len()
        invariant
            i <= nodes@.len(),
            peers@ == peer_ids(nodes@).take(i as int),
        decreases nodes@.len() - i,
    {
        peers.push(nodes[i].peer_id);
        i = i + 1;
        assert(peers@ =~= peer_ids(nodes@).take(i as int));
    }
    assert(peers@ =~= peer_ids(nodes@));
    peers
}

/// Adds the peers of a list of nodes to a set.
pub(crate) fn insert_peer_ids(nodes: &Vec<MultiaddrWithPeerId>, peers: &mut HashSet<PeerId>)
    ensures
        final(peers)@ == old(peers)@.union(peer_ids(nodes@).to_set()),
{
    let mut i: usize = 0;
    assert(peer_ids(nodes@).take(0).to_set() =~= Set::<PeerId>::empty());
    while i < nodes.len()
        invariant
            i <= nodes@.len(),
            peers@ =~= old(peers)@.union(peer_ids(nodes@).take(i as int).to_set()),
        decreases nodes@.len() - i,
    {
        let ghost ids = peer_ids(nodes@);
        peers.insert(nodes[i].peer_id);
        proof {
            let before = ids.take(i as int);
            let after = ids.take(i + 1);
            assert(after =~= before.push(ids[i as int]));
            assert(after.to_set() =~= before.to_set().insert(ids[i as int])) by {
                assert forall|peer: PeerId| after.contains(peer) implies before.contains(peer)
                    || peer == ids[i as int] by {
                    let j = choose|j: int| 0 <= j < after.len() && after[j] == peer;
                    if j < i {
                        assert(before[j] == peer);
                    }
                }
                assert forall|peer: PeerId| before.contains(peer) implies after.contains(peer) by {
                    let j = choose|j: int| 0 <= j < before.len() && before[j] == peer;
                    assert(after[j] == peer);
                }
                assert(after[i as int] == ids[i as int]);
            }
        }
        i = i + 1;
    }
    assert(peer_ids(nodes@).take(i as int) =~= peer_ids(nodes@));
}

/// What the peer set manager needs to know of a set.
pub(crate) fn peerset_config(config: &SetConfig, bootnodes: Vec<PeerId>) -> (set: PeersetSetConfig)
    ensures
        is_set_of(set, *config, bootnodes@),
{
    let mut reserved_nodes: HashSet<PeerId> = HashSet::new();
    insert_peer_ids(&config.reserved_nodes, &mut reserved_nodes);
    assert(reserved_nodes@ =~= peer_ids(config.reserved_nodes@).to_set());
    PeersetSetConfig {
        in_peers: config.in_peers,
        out_peers: config.out_peers,
        bootnodes,
        reserved_nodes,
        reserved_only: config.non_reserved_mode == NonReservedPeerMode::Deny,
    }
}

/// The sets of the configuration.
pub(crate) fn peerset_configs(config: &NetworkConfiguration) -> (sets: Vec<PeersetSetConfig>)
    ensures
        are_sets_of(sets@, *config),
{
    let mut sets: Vec<PeersetSetConfig> = Vec::new();
    sets.push(peerset_config(&config.default_peers_set, collect_peer_ids(&config.boot_nodes)));
    let mut i: usize = 0;
    while i < config.extra_sets.len()
        invariant
            i <= config.extra_sets@.len(),
            sets@.len() == i + 1,
            is_set_of(sets@[0], config.default_peers_set, peer_ids(config.boot_nodes@)),
            forall|j: int|
                #![trigger config.extra_sets@[j]]
                0 <= j < i ==> is_set_of(
                    sets@[j + 1],
                    config.extra_sets@[j].set_config,
                    Seq::empty(),
                ),
        decreases config.extra_sets@.len() - i,
    {
        sets.push(peerset_config(&config.extra_sets[i].set_config, Vec::new()));
        i = i + 1;
    }
    sets
}

/// The addresses that the configuration makes known.
pub(crate) fn collect_addresses(config: &NetworkConfiguration) -> (addresses: Vec<
    (PeerId, Vec<u8>),
>)
    ensures
        addresses_view(addresses@) == configured_addresses(*config),
{
    let mut addresses: Vec<(PeerId, Vec<u8>)> = Vec::new();
    let nodes = &config.default_peers_set.reserved_nodes;
    let mut i: usize = 0;
    assert(nodes@.take(0) =~= Seq::<MultiaddrWithPeerId>::empty());
    assert(addresses_view(addresses@) =~= addressed(nodes@.take(0)));
    while i < nodes.len()
        invariant
            i <= nodes@.len(),
            addresses_view(addresses@) == addressed(nodes@.take(i as int)),
        decreases nodes@.len() - i,
    {
        let ghost before = addresses_view(addresses@);
        assert(nodes@.take(i + 1).drop_last() =~= nodes@.take(i as int));
        if nodes[i].multiaddr.len() > 0 {
            addresses.push((nodes[i].peer_id, nodes[i].multiaddr.clone()));
            assert(addresses_view(addresses@) =~= before.push(
                (nodes@[i as int].peer_id, nodes@[i as int].multiaddr@),
            ));
        }
        i = i + 1;
    }
    assert(nodes@.take(i as int) =~= nodes@);
    let sets = &config.extra_sets;
    let ghost base = addresses_view(addresses@);
    let mut i: usize = 0;
    assert(sets@.take(0) =~= Seq::<NonDefaultSetConfig>::empty());
    assert(base =~= base + extra_addresses(sets@.take(0)));
    while i < sets.len()
        invariant
            i <= sets@.len(),
            addresses_view(addresses@) == base + extra_addresses(sets@.take(i as int)),
        decreases sets@.len() - i,
    {
        let ghost start = addresses_view(addresses@);
        let nodes = &sets[i].set_config.reserved_nodes;
        let ghost all = all_addresses(nodes@);
        let mut j: usize = 0;
        assert(start =~= start + all.take(0));
        while j < nodes.len()
            invariant
                j <= nodes@.len(),
                all == all_addresses(nodes@),
                addresses_view(addresses@) == start + all.take(j as int),
            decreases nodes@.len() - j,
        {
            let ghost before = addresses_view(addresses@);
            addresses.push((nodes[j].peer_id, nodes[j].multiaddr.clone()));
            assert(addresses_view(addresses@) =~= before.push(all[j as int]));
            j = j + 1;
            assert(addresses_view(addresses@) =~= start + all.take(j as int));
        }
        assert(all.take(j as int) =~= all);
        assert(sets@.take(i + 1).drop_last() =~= sets@.take(i as int));
        i = i + 1;
        assert(addresses_view(addresses@) =~= base + extra_addresses(sets@.take(i as int)));
    }
    assert(sets@.take(i as int) =~= sets@);
    addresses
}

/// The protocols of the configuration.
pub(crate) fn protocol_configs(
    sync_protocol_config: ProtocolConfig,
    config: &NetworkConfiguration,
    handshakes: &Vec<Vec<u8>>,
) -> (protocols: Vec<ProtocolConfig>)
    ensures
        are_protocols_of(protocols@, sync_protocol_config, *config, handshakes@),
{
    let mut protocols: Vec<ProtocolConfig> = Vec::new();
    protocols.push(sync_protocol_config);
    let sets = &config.extra_sets;
    let mut i: usize = 0;
    while i < sets.len() && i < handshakes.len()
        invariant
            i <= sets@.len(),
            i <= handshakes@.len(),
            protocols@.len() == i + 1,
            protocols@[0] == sync_protocol_config,
            forall|j: int|
                #![trigger sets@[j]]
                0 <= j < i ==> is_protocol_of(protocols@[j + 1], sets@[j], handshakes@[j]@),
        decreases sets@.len() - i,
    {
        let set = &sets[i];
        let fallback_names = set.fallback_names.clone();
        assert(fallback_names@ =~= set.fallback_names@);
        protocols.push(
            ProtocolConfig {
                name: set.notifications_protocol.clone(),
                fallback_names,
                handshake: handshakes[i].clone(),
                max_notification_size: set.max_notification_size,
            },
        );
        i = i + 1;
    }
    protocols
}

/// The names of the user-defined protocols.
pub(crate) fn collect_protocol_names(sets: &Vec<NonDefaultSetConfig>) -> (names: Vec<String>)
    ensures
        names_view(names@) == protocol_names(sets@),
{
    let mut names: Vec<String> = Vec::new();
    let mut i: usize = 0;
    while i < sets.len()
        invariant
            i <= sets@.len(),
            names@.len() == i,
            forall|j: int| 0 <= j < i ==> (#[trigger] names@[j])@ == sets@[j].notifications_protocol@,
        decreases sets@.len() - i,
    {
        names.push(sets[i].notifications_protocol.clone());
        i = i + 1;
    }
    assert(names_view(names@) =~= protocol_names(sets@));
    names
}

/// The boot nodes.
pub(crate) fn collect_boot_nodes(config: &NetworkConfiguration) -> (peers: HashSet<PeerId>)
    ensures
        peers@ == boot_nodes_of(*config),
{
    let mut peers: HashSet<PeerId> = HashSet::new();
    insert_peer_ids(&config.boot_nodes, &mut peers);
    assert(peers@ =~= boot_nodes_of(*config));
    peers
}

/// The peers that are reserved in any set.
pub(crate) fn collect_important_peers(config: &NetworkConfiguration) -> (peers: HashSet<PeerId>)
    ensures
        peers@ == important_peers_of(*config),
{
    let mut peers: HashSet<PeerId> = HashSet::new();
    insert_peer_ids(&config.default_peers_set.reserved_nodes, &mut peers);
    let ghost base = peers@;
    let sets = &config.extra_sets;
    let mut i: usize = 0;
    while i < sets.len()
        invariant
            i <= sets@.len(),
            forall|peer: PeerId| #[trigger]
                peers@.contains(peer) <==> base.contains(peer) || reserved_in(
                    sets@.take(i as int),
                    peer,
                ),
        decreases sets@.len() - i,
    {
        let ghost before = peers@;
        insert_peer_ids(&sets[i].set_config.reserved_nodes, &mut peers);
        proof {
            let reserved = peer_ids(sets@[i as int].set_config.reserved_nodes@);
            assert forall|peer: PeerId| #[trigger] peers@.contains(peer) <==> base.contains(peer)
                || reserved_in(sets@.take(i + 1), peer) by {
                assert(peers@.contains(peer) <==> before.contains(peer) || reserved.contains(peer));
                if reserved.contains(peer) {
                    assert(sets@.take(i + 1)[i as int] == sets@[i as int]);
                }
                if reserved_in(sets@.take(i as int), peer) {
                    let j = choose|j: int|
                        0 <= j < i && peer_ids(
                            (#[trigger] sets@.take(i as int)[j]).set_config.reserved_nodes@,
                        ).contains(peer);
                    assert(sets@.take(i + 1)[j] == sets@.take(i as int)[j]);
                }
                if reserved_in(sets@.take(i + 1), peer) && !reserved.contains(peer) {
                    let j = choose|j: int|
                        0 <= j < i + 1 && peer_ids(
                            (#[trigger] sets@.take(i + 1)[j]).set_config.reserved_nodes@,
                        ).contains(peer);
                    assert(j != i);
                    assert(sets@.take(i as int)[j] == sets@.take(i + 1)[j]);
                }
            }
        }
        i = i + 1;
    }
    assert(sets@.take(i as int) =~= sets@);
    assert(peers@ =~= important_peers_of(*config));
    peers
}

} // verus!
