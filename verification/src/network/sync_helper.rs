//! The syncing state machine: what is known of the peers that are synced with, and
//! what the services around it have to do.
use crate::hex;
use crate::network::announce_cache::{self, cache_get, cache_new, cache_put};
use crate::network::config::ProtocolConfig;
use crate::network::known_blocks::LruHashSet;
use crate::network::primitives::{
    hash_eq, BadPeer, BlockAnnounce, BlockData, BlockHash, BlockNumber, BlockRequest,
    BlockResponse, BlockState, Header, PeerId, Roles,
};
use crate::network::protocol::{name_view, PeerValidationResult};
use crate::network::rep;
use crate::network::sync_model::{self, PeerConnected, Refusal, SyncView};
use crate::network::sync_types::{
    BlockAnnouncesHandshake, ChainInfo, IfDisconnected, LegacyHandshake, OpenStep, Peer, PeerInfo,
    PeerState, PollBlockAnnounceValidation, ProtocolNames, SyncAction, SyncTypes,
    LIGHT_MAXIMAL_BLOCKS_DIFFERENCE, MAX_BLOCK_ANNOUNCE_SIZE, MAX_KNOWN_BLOCKS,
};
use crate::scale;
use lru::LruCache;
use std::collections::{HashMap, HashSet};
use std::marker::PhantomData;
use vstd::prelude::*;
use vstd::slice::slice_to_vec;
use vstd::string::StringExecFns;

verus! {

/// What is known of the peers.
pub open spec fn peers_view(peers: Map<PeerId, Peer>) -> Map<PeerId, PeerState> {
    peers.map_values(|peer: Peer| peer@)
}

/// The syncing state machine.
pub struct SyncingHelper<T: SyncTypes> {
    /// The data of block announcements.
    block_announce_data_cache: LruCache<[u8; 32], Vec<u8>>,
    /// The hash of the genesis block.
    genesis_hash: BlockHash,
    /// The connected peers.
    peers: HashMap<PeerId, Peer>,
    /// The roles of this node.
    roles: Roles,
    /// How many full nodes to sync with.
    default_peers_set_num_full: usize,
    /// The peers that take no slot.
    default_peers_set_no_slot_peers: HashSet<PeerId>,
    /// Those of them that are connected.
    default_peers_set_no_slot_connected_peers: HashSet<PeerId>,
    /// How many light clients to sync with.
    default_peers_set_num_light: usize,
    /// The names of the protocols.
    names: ProtocolNames,
    /// Whether the network service was registered.
    service: bool,
    /// The types of the values that are passed on.
    types: PhantomData<T>,
}

impl<T: SyncTypes> View for SyncingHelper<T> {
    type V = SyncView;

    closed spec fn view(&self) -> SyncView {
        SyncView {
            peers: peers_view(self.peers@),
            cache: announce_cache::cache_entries(self.block_announce_data_cache),
            cache_capacity: announce_cache::cache_capacity(self.block_announce_data_cache),
            genesis_hash: self.genesis_hash,
            roles: self.roles,
            num_full: self.default_peers_set_num_full as nat,
            num_light: self.default_peers_set_num_light as nat,
            no_slot_peers: self.default_peers_set_no_slot_peers@,
            no_slot_connected_peers: self.default_peers_set_no_slot_connected_peers@,
            names: self.names,
            has_service: self.service,
        }
    }
}

/// The handshake that a peer sent.
fn read_handshake(received_handshake: &Vec<u8>, legacy: LegacyHandshake) -> (handshake: Option<
    BlockAnnouncesHandshake,
>)
    ensures
        handshake == sync_model::received_handshake(legacy, received_handshake@),
{
    match legacy {
        LegacyHandshake::Status(handshake) => Some(handshake),
        LegacyHandshake::Other => None,
        LegacyHandshake::Undecodable => BlockAnnouncesHandshake::decode_all(
            received_handshake.as_slice(),
        ),
    }
}

/// The keys of a map of peers, in an order that is not specified.
fn connected_peers(peers: &HashMap<PeerId, Peer>) -> (ids: Vec<PeerId>)
    ensures
        ids@.no_duplicates(),
        ids@.to_set() == peers@.dom(),
        ids@.len() == peers@.dom().len(),
{
    let mut ids: Vec<PeerId> = Vec::new();
    let ghost keys = vstd::std_specs::iter::IteratorSpec::remaining(&peers.keys()).unref();
    for id in iter: peers.keys()
        invariant
            keys == iter.seq().unref(),
            ids@ == keys.take(iter.index() as int),
    {
        ids.push(*id);
        assert(ids@ =~= keys.take(iter.index() + 1));
    }
    assert(ids@ =~= keys);
    ids
}

impl<T: SyncTypes> SyncingHelper<T> {
    /// The state is a valid one.
    pub closed spec fn wf(&self) -> bool {
        &&& self@.wf()
        &&& forall|peer: PeerId| #[trigger]
            self.peers@.contains_key(peer) ==> self.peers@[peer].wf()
    }

    /// A valid state machine has a valid state.
    pub proof fn lemma_wf(&self)
        requires
            self.wf(),
        ensures
            self@.wf(),
    {
    }

    /// Creates the state machine. `first_hash` is the hash of block number zero, and
    /// `info` what the chain looks like. Returns with it the configuration of the
    /// block announces protocol.
    pub fn new(
        cache_size: usize,
        protocol_id: &str,
        fork_id: &Option<String>,
        first_hash: BlockHash,
        info: ChainInfo,
        roles: Roles,
        default_peers_set_num_full: usize,
        default_peers_set_num_light: usize,
        block_request_protocol_name: String,
        state_request_protocol_name: String,
        warp_sync_protocol_name: Option<String>,
    ) -> (parts: (Self, ProtocolConfig))
        requires
            cache_size <= usize::MAX / 128,
            scale::known_role_bits(roles.bits),
        ensures
            parts.0.wf(),
            parts.0@.names.block_request == block_request_protocol_name,
            parts.0@.names.state_request == state_request_protocol_name,
            parts.0@.names.warp_sync == warp_sync_protocol_name,
            parts.0@.names.block_announces@ == sync_model::block_announces_name(
                first_hash,
                name_view(*fork_id),
            ),
            parts.0@ == (SyncView {
                peers: Map::empty(),
                cache: Seq::empty(),
                cache_capacity: cache_size as nat,
                genesis_hash: info.genesis_hash,
                roles,
                num_full: default_peers_set_num_full as nat,
                num_light: default_peers_set_num_light as nat,
                no_slot_peers: Set::empty(),
                no_slot_connected_peers: Set::empty(),
                names: parts.0@.names,
                has_service: false,
            }),
            parts.1.name@ == parts.0@.names.block_announces@,
            parts.1.fallback_names@.len() == 1,
            parts.1.fallback_names@[0]@ == sync_model::legacy_block_announces_name(protocol_id@),
            parts.1.handshake@ == scale::handshake_bytes(
                roles.bits,
                info.best_number,
                info.best_hash,
                info.genesis_hash,
            ),
            parts.1.max_notification_size == MAX_BLOCK_ANNOUNCE_SIZE,
    {
        let genesis = hex::bytes_to_hex(first_hash.as_slice());
        let mut name = String::from_str("/").concat(genesis.as_str());
        match fork_id {
            Some(fork_id) => {
                name = name.concat("/").concat(fork_id.as_str());
            },
            None => {},
        }
        let name = name.concat("/block-announces/1");
        let legacy = String::from_str("/").concat(protocol_id).concat("/block-announces/1");
        let handshake = BlockAnnouncesHandshake::build(
            roles,
            info.best_number,
            info.best_hash,
            info.genesis_hash,
        ).encode();
        let names = ProtocolNames {
            block_request: block_request_protocol_name,
            state_request: state_request_protocol_name,
            warp_sync: warp_sync_protocol_name,
            block_announces: name.clone(),
        };
        let helper = SyncingHelper {
            block_announce_data_cache: cache_new(cache_size),
            genesis_hash: info.genesis_hash,
            peers: HashMap::new(),
            roles,
            default_peers_set_num_full,
            default_peers_set_no_slot_peers: HashSet::new(),
            default_peers_set_no_slot_connected_peers: HashSet::new(),
            default_peers_set_num_light,
            names,
            service: false,
            types: PhantomData,
        };
        assert(helper@.peers =~= Map::<PeerId, PeerState>::empty());
        let config = ProtocolConfig {
            name,
            fallback_names: vec![legacy],
            handshake,
            max_notification_size: MAX_BLOCK_ANNOUNCE_SIZE,
        };
        (helper, config)
    }

    /// Takes note that the network service is there.
    pub fn register_network_service(&mut self)
        requires
            old(self).wf(),
        ensures
            final(self).wf(),
            final(self)@ == (SyncView { has_service: true, ..old(self)@ }),
    {
        self.service = true;
    }

    /// The number of connected peers.
    pub fn num_connected_peers(&self) -> (count: usize)
        ensures
            count == self@.peers.len(),
    {
        assert(self@.peers.dom() =~= self.peers@.dom());
        self.peers.len()
    }

    /// Whether a peer is connected.
    pub fn is_connected(&self, peer: PeerId) -> (connected: bool)
        ensures
            connected == self@.peers.contains_key(peer),
    {
        self.peers.contains_key(&peer)
    }

    /// The connected peers, in an order that is not specified.
    pub fn get_peers(&self) -> (peers: Vec<(PeerId, Peer)>)
        requires
            self.wf(),
        ensures
            forall|i: int, j: int|
                0 <= i < j < peers@.len() ==> peers@[i].0 != peers@[j].0,
            peers@.len() == self@.peers.len(),
            forall|i: int|
                0 <= i < peers@.len() ==> self@.peers.contains_key((#[trigger] peers@[i]).0)
                    && peers@[i].1@ == self@.peers[peers@[i].0] && peers@[i].1.wf(),
    {
        let ids = connected_peers(&self.peers);
        assert(self@.peers.dom() =~= self.peers@.dom());
        let mut peers: Vec<(PeerId, Peer)> = Vec::new();
        let mut i: usize = 0;
        while i < ids.len()
            invariant
                self.wf(),
                i <= ids@.len(),
                ids@.no_duplicates(),
                ids@.to_set() == self.peers@.dom(),
                peers@.len() == i,
                forall|j: int|
                    #![trigger peers@[j]]
                    0 <= j < i ==> peers@[j].0 == ids@[j] && self@.peers.contains_key(peers@[j].0)
                        && peers@[j].1@ == self@.peers[peers@[j].0] && peers@[j].1.wf(),
            decreases ids@.len() - i,
        {
            let id = ids[i];
            assert(ids@.to_set().contains(id));
            match self.peers.get(&id) {
                Some(peer) => {
                    peers.push((id, peer.clone()));
                },
                None => {},
            }
            i = i + 1;
        }
        peers
    }

    /// Whether the protocol is the block announces protocol.
    pub fn is_block_announces(&self, protocol: &String) -> (same: bool)
        ensures
            same == (protocol@ == self@.names.block_announces@),
    {
        *protocol == self.names.block_announces
    }

    /// Why a peer with this handshake is refused, whatever the slots.
    fn early_refusal(
        &self,
        who: PeerId,
        status: &BlockAnnouncesHandshake,
        best_number: BlockNumber,
    ) -> (refusal: Option<Refusal>)
        ensures
            refusal == self@.early_refusal(who, *status, best_number),
    {
        if self.peers.contains_key(&who) {
            return Some(Refusal::AlreadyConnected);
        }
        if !hash_eq(&status.genesis_hash, &self.genesis_hash) {
            return Some(Refusal::GenesisMismatch);
        }
        if self.roles.is_light() {
            if status.roles.is_light() {
                return Some(Refusal::BadRole);
            }
            let blocks_difference: BlockNumber = if best_number >= status.best_number {
                best_number - status.best_number
            } else {
                0
            };
            if blocks_difference as u64 >= LIGHT_MAXIMAL_BLOCKS_DIFFERENCE {
                return Some(Refusal::FarBehind);
            }
        }
        None
    }

    /// Why a peer with this handshake is refused.
    fn refusal(
        &self,
        who: PeerId,
        status: &BlockAnnouncesHandshake,
        best_number: BlockNumber,
        num_sync_peers: usize,
    ) -> (refusal: Option<Refusal>)
        requires
            self@.is_count(who, *status, best_number, num_sync_peers as nat),
        ensures
            refusal == self@.refusal(who, *status, best_number, num_sync_peers as nat),
    {
        match self.early_refusal(who, status, best_number) {
            Some(refusal) => return Some(refusal),
            None => {},
        }
        let this_peer_reserved_slot: u128 = if self.default_peers_set_no_slot_peers.contains(&who) {
            1
        } else {
            0
        };
        let full_slots: u128 = self.default_peers_set_num_full as u128
            + self.default_peers_set_no_slot_connected_peers.len() as u128
            + this_peer_reserved_slot;
        if status.roles.is_full() && num_sync_peers as u128 >= full_slots {
            return Some(Refusal::NoFullSlot);
        }
        if status.roles.is_light() && self.num_connected_peers() - num_sync_peers
            >= self.default_peers_set_num_light {
            return Some(Refusal::NoLightSlot);
        }
        None
    }

    /// Whether the number of full nodes that are synced with is one that can be where it
    /// counts for a peer with this handshake: it is not greater than the number of
    /// connected peers.
    pub fn is_count(
        &self,
        peer_id: PeerId,
        received_handshake: &Vec<u8>,
        legacy: LegacyHandshake,
        best_number: BlockNumber,
        num_sync_peers: usize,
    ) -> (holds: bool)
        ensures
            holds == (sync_model::received_handshake(legacy, received_handshake@) matches Some(
                status,
            ) ==> self@.is_count(peer_id, status, best_number, num_sync_peers as nat)),
    {
        match read_handshake(received_handshake, legacy) {
            Some(status) => !status.roles.is_light() || self.early_refusal(
                peer_id,
                &status,
                best_number,
            ).is_some() || num_sync_peers <= self.num_connected_peers(),
            None => true,
        }
    }

    /// Adds an accepted peer.
    fn insert_peer(&mut self, who: PeerId, status: &BlockAnnouncesHandshake)
        requires
            old(self).wf(),
        ensures
            final(self).wf(),
            final(self)@ == old(self)@.after_connected(who, *status),
    {
        let peer = Peer {
            info: PeerInfo {
                roles: status.roles,
                best_hash: status.best_hash,
                best_number: status.best_number,
            },
            known_blocks: LruHashSet::new(MAX_KNOWN_BLOCKS),
        };
        let no_slot_peer = self.default_peers_set_no_slot_peers.contains(&who);
        self.peers.insert(who, peer);
        if no_slot_peer {
            self.default_peers_set_no_slot_connected_peers.insert(who);
        }
        assert(self@.peers =~= old(self)@.after_connected(who, *status).peers);
        assert(self@.peers.dom() =~= old(self)@.peers.dom().insert(who));
    }

    /// A peer connected, with this handshake. `best_number` is the number of our best
    /// block, `num_sync_peers` the number of full nodes that are synced with. A full
    /// node is accepted only when the chain sync has agreed.
    pub fn on_sync_peer_connected(
        &mut self,
        who: PeerId,
        status: &BlockAnnouncesHandshake,
        best_number: BlockNumber,
        num_sync_peers: usize,
    ) -> (outcome: PeerConnected)
        requires
            old(self).wf(),
            old(self)@.is_count(who, *status, best_number, num_sync_peers as nat),
        ensures
            final(self).wf(),
            (final(self)@, outcome) == old(self)@.on_connected(
                who,
                *status,
                best_number,
                num_sync_peers as nat,
            ),
    {
        match self.refusal(who, status, best_number, num_sync_peers) {
            Some(refusal) => PeerConnected::Refused(refusal),
            None => if status.roles.is_full() {
                PeerConnected::NewPeer
            } else {
                self.insert_peer(who, status);
                PeerConnected::Accepted
            },
        }
    }

    /// What the chain sync answered when it was told of a new full node.
    pub fn new_peer_result(
        &mut self,
        who: PeerId,
        status: &BlockAnnouncesHandshake,
        result: Result<Option<BlockRequest>, BadPeer>,
    ) -> (actions: Vec<SyncAction<T>>)
        requires
            old(self).wf(),
        ensures
            final(self).wf(),
            match result {
                Ok(request) => {
                    &&& final(self)@ == old(self)@.after_connected(who, *status)
                    &&& actions@ == (match request {
                        Some(request) => seq![old(self)@.block_request::<T>(who, request)],
                        None => Seq::empty(),
                    }) + old(self)@.accepted::<T>(who, status.roles)
                },
                Err(bad) => {
                    &&& final(self)@ == old(self)@
                    &&& actions@ == sync_model::bad_peer_actions::<T>(bad)
                },
            },
    {
        let mut actions: Vec<SyncAction<T>> = Vec::new();
        match result {
            Ok(request) => {
                self.insert_peer(who, status);
                match request {
                    Some(request) => actions.push(self.prepare_block_request(who, request)),
                    None => {},
                }
                self.push_accepted(who, status.roles, &mut actions);
            },
            Err(BadPeer(id, change)) => {
                actions.push(SyncAction::DisconnectPeer(id));
                actions.push(SyncAction::ReportPeer(id, change));
            },
        }
        actions
    }

    /// Adds the notice that a peer was accepted.
    fn push_accepted(&self, who: PeerId, roles: Roles, actions: &mut Vec<SyncAction<T>>)
        ensures
            final(actions)@ == old(actions)@ + self@.accepted(who, roles),
    {
        if self.service {
            actions.push(
                SyncAction::ReportPeerValidationResult(who, PeerValidationResult::Accepted(roles)),
            );
        }
    }

    /// Requests blocks.
    pub fn prepare_block_request(&self, who: PeerId, request: BlockRequest) -> (action: SyncAction<
        T,
    >)
        ensures
            action == self@.block_request::<T>(who, request),
    {
        SyncAction::StartBlockRequest {
            who,
            request,
            protocol: if self.service {
                Some(self.names.block_request.clone())
            } else {
                None
            },
            if_disconnected: IfDisconnected::ImmediateError,
        }
    }

    /// Requests state.
    pub fn prepare_state_request(&self, who: PeerId, request: T::OpaqueStateRequest) -> (action:
        SyncAction<T>)
        ensures
            action == self@.state_request::<T>(who, request),
    {
        SyncAction::StartStateRequest {
            who,
            request,
            protocol: if self.service {
                Some(self.names.state_request.clone())
            } else {
                None
            },
            if_disconnected: IfDisconnected::ImmediateError,
        }
    }

    /// Requests a warp sync proof that starts at the block with this hash.
    pub fn prepare_warp_sync_request(&self, who: PeerId, begin: BlockHash) -> (action: SyncAction<T>)
        requires
            self@.has_service ==> self@.names.warp_sync is Some,
        ensures
            self@.is_warp_sync_request(action, who, begin),
    {
        SyncAction::StartWarpSyncRequest {
            who,
            request: slice_to_vec(begin.as_slice()),
            protocol: if self.service {
                match &self.names.warp_sync {
                    Some(name) => Some(name.clone()),
                    None => None,
                }
            } else {
                None
            },
            if_disconnected: IfDisconnected::ImmediateError,
        }
    }

    /// A substream of the block announces protocol was opened. `legacy` is the
    /// handshake read in the form of older versions of the protocol, `best_number` the
    /// number of our best block and `num_sync_peers` the number of full nodes that are
    /// synced with.
    pub fn custom_protocol_open(
        &mut self,
        peer_id: PeerId,
        received_handshake: &Vec<u8>,
        legacy: LegacyHandshake,
        best_number: BlockNumber,
        num_sync_peers: usize,
    ) -> (step: OpenStep<T>)
        requires
            old(self).wf(),
            sync_model::received_handshake(legacy, received_handshake@) matches Some(status)
                ==> old(self)@.is_count(peer_id, status, best_number, num_sync_peers as nat),
        ensures
            final(self).wf(),
            match sync_model::received_handshake(legacy, received_handshake@) {
                Some(status) => {
                    let (state, outcome) = old(self)@.on_connected(
                        peer_id,
                        status,
                        best_number,
                        num_sync_peers as nat,
                    );
                    &&& final(self)@ == state
                    &&& match outcome {
                        PeerConnected::Refused(refusal) => step matches OpenStep::Done(actions)
                            && actions@ == sync_model::refusal_actions::<T>(peer_id, refusal),
                        PeerConnected::NewPeer => step == OpenStep::<T>::NewPeer(status),
                        PeerConnected::Accepted => step matches OpenStep::Done(actions) && actions@
                            == state.accepted::<T>(peer_id, status.roles),
                    }
                },
                None => {
                    &&& final(self)@ == old(self)@
                    &&& step matches OpenStep::Done(actions)
                    &&& actions@ == seq![SyncAction::<T>::ReportPeer(peer_id, rep::bad_message())]
                },
            },
    {
        let handshake = read_handshake(received_handshake, legacy);
        let mut actions: Vec<SyncAction<T>> = Vec::new();
        match handshake {
            Some(status) => {
                match self.on_sync_peer_connected(peer_id, &status, best_number, num_sync_peers) {
                    PeerConnected::Refused(refusal) => {
                        let change = match refusal {
                            Refusal::GenesisMismatch => Some(rep::genesis_mismatch()),
                            Refusal::BadRole => Some(rep::bad_role()),
                            Refusal::FarBehind => Some(rep::peer_behind_us_light()),
                            _ => None,
                        };
                        if refusal != Refusal::AlreadyConnected {
                            actions.push(SyncAction::DisconnectPeer(peer_id));
                        }
                        match change {
                            Some(change) => actions.push(SyncAction::ReportPeer(peer_id, change)),
                            None => {},
                        }
                        OpenStep::Done(actions)
                    },
                    PeerConnected::NewPeer => OpenStep::NewPeer(status),
                    PeerConnected::Accepted => {
                        self.push_accepted(peer_id, status.roles, &mut actions);
                        OpenStep::Done(actions)
                    },
                }
            },
            None => {
                actions.push(SyncAction::ReportPeer(peer_id, rep::bad_message()));
                OpenStep::Done(actions)
            },
        }
    }

    /// A peer is gone. `Err` where it was not connected.
    pub fn on_sync_peer_disconnected(&mut self, peer: PeerId) -> (result: Result<
        Vec<SyncAction<T>>,
        (),
    >)
        requires
            old(self).wf(),
        ensures
            final(self).wf(),
            match result {
                Ok(actions) => {
                    &&& old(self)@.peers.contains_key(peer)
                    &&& final(self)@ == old(self)@.after_disconnected(peer)
                    &&& actions@ == seq![SyncAction::<T>::PeerDisconnected(peer)]
                },
                Err(()) => !old(self)@.peers.contains_key(peer) && final(self)@ == old(self)@,
            },
    {
        match self.peers.remove(&peer) {
            Some(_) => {
                self.default_peers_set_no_slot_connected_peers.remove(&peer);
                assert(self@.peers =~= old(self)@.peers.remove(peer));
                let mut actions: Vec<SyncAction<T>> = Vec::new();
                actions.push(SyncAction::PeerDisconnected(peer));
                Ok(actions)
            },
            None => {
                assert(self@.peers =~= old(self)@.peers);
                Err(())
            },
        }
    }

    /// A substream of the block announces protocol was closed.
    pub fn custom_protocol_close(&mut self, peer: PeerId) -> (actions: Vec<SyncAction<T>>)
        requires
            old(self).wf(),
            old(self)@.peers.contains_key(peer) ==> old(self)@.has_service,
        ensures
            final(self).wf(),
            if old(self)@.peers.contains_key(peer) {
                &&& final(self)@ == old(self)@.after_disconnected(peer)
                &&& actions@ == seq![
                    SyncAction::<T>::PeerDisconnected(peer),
                    SyncAction::<T>::DisconnectSyncPeer(peer),
                ]
            } else {
                final(self)@ == old(self)@ && actions@.len() == 0
            },
    {
        match self.on_sync_peer_disconnected(peer) {
            Ok(actions) => {
                let mut actions = actions;
                actions.push(SyncAction::DisconnectSyncPeer(peer));
                actions
            },
            Err(()) => Vec::new(),
        }
    }

    /// Has a block announcement validated, where its sender is a connected full node.
    /// A connected sender knows the block.
    pub fn push_block_announce_validation(&mut self, who: PeerId, announce: BlockAnnounce) -> (actions:
        Vec<SyncAction<T>>)
        requires
            old(self).wf(),
        ensures
            final(self).wf(),
            if old(self)@.peers.contains_key(who) {
                let hash = announce.header.spec_hash();
                &&& final(self)@ == old(self)@.after_known(who, hash)
                &&& actions@ == if old(self)@.peers[who].info.roles.is_full() {
                    seq![
                        SyncAction::<T>::PushBlockAnnounceValidation {
                            who,
                            hash,
                            announce,
                            is_best: sync_model::announces_best(announce),
                        },
                    ]
                } else {
                    Seq::empty()
                }
            } else {
                final(self)@ == old(self)@ && actions@.len() == 0
            },
    {
        let mut actions: Vec<SyncAction<T>> = Vec::new();
        let hash = announce.header.hash();
        match self.peers.remove(&who) {
            Some(peer) => {
                let mut peer = peer;
                peer.known_blocks.insert(hash);
                let is_full = peer.info.roles.is_full();
                self.peers.insert(who, peer);
                assert(self@.peers =~= old(self)@.after_known(who, hash).peers);
                assert(self@.peers.dom() =~= old(self)@.peers.dom());
                let is_best = match announce.state {
                    Some(BlockState::Normal) => false,
                    _ => true,
                };
                if is_full {
                    actions.push(
                        SyncAction::PushBlockAnnounceValidation { who, hash, announce, is_best },
                    );
                }
            },
            None => {
                assert(self@.peers =~= old(self)@.peers);
            },
        }
        actions
    }

    /// A notification of the block announces protocol came in. Where it is an
    /// announcement by a connected peer, it is validated, and the chain sync asked
    /// once for validations that ended. What a full node wrote in an announcement is
    /// what is validated: its header, its state and its data.
    pub fn notification(&mut self, peer: PeerId, message: &Vec<u8>) -> (actions: Vec<SyncAction<T>>)
        requires
            old(self).wf(),
        ensures
            final(self).wf(),
            match scale::block_announce_of(message@) {
                Some(parts) if old(self)@.peers.contains_key(peer) => {
                    let hash = scale::blake2_256_of(parts.1);
                    &&& final(self)@ == old(self)@.after_known(peer, hash)
                    &&& actions@.last() == SyncAction::<T>::PollBlockAnnounceValidation
                    &&& if old(self)@.peers[peer].info.roles.is_full() {
                        &&& actions@.len() == 2
                        &&& actions@[0] matches SyncAction::PushBlockAnnounceValidation {
                            who,
                            hash: announced,
                            announce,
                            is_best,
                        }
                        &&& who == peer
                        &&& announced == hash
                        &&& sync_model::announce_view(announce) == parts
                        &&& is_best == (parts.2 != Some(false))
                    } else {
                        actions@.len() == 1
                    }
                },
                _ => final(self)@ == old(self)@ && actions@.len() == 0,
            },
            old(self)@.peers.contains_key(peer) && old(self)@.peers[peer].info.roles.is_full()
                ==> forall|header: Header, is_best: bool, data: Seq<u8>|
                header.is_valid() && data.len() <= u32::MAX && message@
                    == #[trigger] sync_model::announcement(header, is_best, data) ==> {
                    &&& actions@.len() == 2
                    &&& actions@[0] matches SyncAction::PushBlockAnnounceValidation { announce, .. }
                    &&& sync_model::announce_view(announce) == (
                        header.number,
                        header.encoded@,
                        Some(is_best),
                        Some(data),
                    )
                },
    {
        if !self.peers.contains_key(&peer) {
            return Vec::new();
        }
        match scale::decode_block_announce(message.as_slice()) {
            Some((number, encoded, is_best, data)) => {
                let state = match is_best {
                    Some(true) => Some(BlockState::Best),
                    Some(false) => Some(BlockState::Normal),
                    None => None,
                };
                let announce = BlockAnnounce { header: Header { number, encoded }, state, data };
                let mut actions = self.push_block_announce_validation(peer, announce);
                actions.push(SyncAction::PollBlockAnnounceValidation);
                actions
            },
            None => Vec::new(),
        }
    }

    /// Stores the data of a validated announcement.
    fn cache_announce_data(&mut self, announce_hash: BlockHash, data: Option<Vec<u8>>)
        requires
            old(self).wf(),
            data is Some ==> data->0@.len() <= u32::MAX,
        ensures
            final(self).wf(),
            final(self)@ == match data {
                Some(data) => old(self)@.after_cached(announce_hash, data@),
                None => old(self)@,
            },
    {
        match data {
            Some(data) => if data.len() > 0 {
                proof {
                    announce_cache::lemma_put_keeps_capacity(
                        self@.cache,
                        self@.cache_capacity,
                        announce_hash,
                        data@,
                    );
                    announce_cache::lemma_put_entries(
                        self@.cache,
                        self@.cache_capacity,
                        announce_hash,
                        data@,
                    );
                }
                cache_put(&mut self.block_announce_data_cache, announce_hash, data);
            },
            None => {},
        }
    }

    /// The validation of a block announcement ended.
    pub fn process_block_announce_validation_result(
        &mut self,
        validation_result: PollBlockAnnounceValidation,
    ) -> (actions: Vec<SyncAction<T>>)
        requires
            old(self).wf(),
            match validation_result {
                PollBlockAnnounceValidation::Nothing { announce, .. }
                | PollBlockAnnounceValidation::ImportHeader { announce, .. } => {
                    announce.data is Some ==> announce.data->0@.len() <= u32::MAX
                },
                _ => true,
            },
        ensures
            final(self).wf(),
            match validation_result {
                PollBlockAnnounceValidation::Skip => {
                    final(self)@ == old(self)@ && actions@.len() == 0
                },
                PollBlockAnnounceValidation::Nothing { announce, .. } => {
                    &&& final(self)@ == old(self)@.after_announce_data(announce)
                    &&& actions@.len() == 0
                },
                PollBlockAnnounceValidation::ImportHeader { announce, who, .. } => {
                    &&& final(self)@ == old(self)@.after_announce_data(announce)
                    &&& actions@.len() == 1
                    &&& actions@[0] matches SyncAction::OnBlockData { who: from, request, response }
                    &&& from == who
                    &&& request is None
                    &&& sync_model::is_header_response(response, announce.header)
                },
                PollBlockAnnounceValidation::Failure { who, disconnect } => {
                    &&& final(self)@ == old(self)@
                    &&& actions@ == (if disconnect {
                        seq![SyncAction::<T>::DisconnectPeer(who)]
                    } else {
                        Seq::empty()
                    }).push(SyncAction::<T>::ReportPeer(who, rep::bad_block_announcement()))
                },
            },
    {
        let mut actions: Vec<SyncAction<T>> = Vec::new();
        match validation_result {
            PollBlockAnnounceValidation::Skip => {},
            PollBlockAnnounceValidation::Nothing { announce, .. } => {
                self.cache_announce_data(announce.header.hash(), announce.data);
            },
            PollBlockAnnounceValidation::ImportHeader { announce, who, .. } => {
                let hash = announce.header.hash();
                self.cache_announce_data(hash, announce.data);
                let block = BlockData {
                    hash,
                    header: Some(announce.header),
                    body: None,
                    indexed_body: None,
                    receipt: None,
                    message_queue: None,
                    justification: None,
                    justifications: None,
                };
                let response = BlockResponse { id: 0, blocks: vec![block] };
                actions.push(SyncAction::OnBlockData { who, request: None, response });
            },
            PollBlockAnnounceValidation::Failure { who, disconnect } => {
                if disconnect {
                    actions.push(SyncAction::DisconnectPeer(who));
                }
                actions.push(SyncAction::ReportPeer(who, rep::bad_block_announcement()));
            },
        }
        actions
    }

    /// Our handshake, with the given best block, in its wire form.
    pub fn get_handshake(&self, hash: BlockHash, number: BlockNumber) -> (handshake: Vec<u8>)
        ensures
            handshake@ == scale::handshake_bytes(
                self@.roles.bits,
                number,
                hash,
                self@.genesis_hash,
            ),
    {
        BlockAnnouncesHandshake::build(self.roles, number, hash, self.genesis_hash).encode()
    }

    /// Takes note that every peer knows a block, and returns those that did not.
    fn insert_known_block(&mut self, hash: BlockHash) -> (targets: Vec<PeerId>)
        requires
            old(self).wf(),
        ensures
            final(self).wf(),
            final(self)@ == (SyncView {
                peers: old(self)@.after_announced(hash, None).peers,
                ..old(self)@
            }),
            targets@.no_duplicates(),
            targets@.to_set() == old(self)@.peers_without(hash),
    {
        let ids = connected_peers(&self.peers);
        let mut targets: Vec<PeerId> = Vec::new();
        let ghost before = self.peers@;
        let mut i: usize = 0;
        while i < ids.len()
            invariant
                i <= ids@.len(),
                ids@.no_duplicates(),
                ids@.to_set() == before.dom(),
                before == old(self).peers@,
                forall|peer: PeerId| #[trigger]
                    before.contains_key(peer) ==> before[peer].wf(),
                self.peers@.dom() == before.dom(),
                forall|j: int|
                    #![trigger ids@[j]]
                    0 <= j < i ==> self.peers@[ids@[j]]@ == sync_model::after_known(
                        before[ids@[j]]@,
                        hash,
                    ) && self.peers@[ids@[j]].wf(),
                forall|j: int|
                    #![trigger ids@[j]]
                    i <= j < ids@.len() ==> self.peers@[ids@[j]] == before[ids@[j]],
                targets@.no_duplicates(),
                forall|peer: PeerId| #[trigger]
                    targets@.contains(peer) <==> ids@.take(i as int).contains(peer)
                        && !before[peer].known_blocks@.contains(hash),
                (SyncView { peers: old(self)@.peers, ..self@ }) == old(self)@,
            decreases ids@.len() - i,
        {
            let id = ids[i];
            assert(ids@.contains(id));
            assert(before.contains_key(id));
            assert(ids@.take(i + 1) =~= ids@.take(i as int).push(id));
            assert(!ids@.take(i as int).contains(id)) by {
                if ids@.take(i as int).contains(id) {
                    let j = choose|j: int| 0 <= j < i && ids@.take(i as int)[j] == id;
                    assert(ids@[j] == ids@[i as int]);
                }
            }
            match self.peers.remove(&id) {
                Some(peer) => {
                    let mut peer = peer;
                    let inserted = peer.known_blocks.insert(hash);
                    self.peers.insert(id, peer);
                    assert(self.peers@.dom() =~= before.dom());
                    if inserted {
                        let ghost known = targets@;
                        assert(!known.contains(id));
                        targets.push(id);
                        proof {
                            assert forall|a: int, b: int|
                                0 <= a < targets@.len() && 0 <= b < targets@.len() && a
                                    != b implies targets@[a] != targets@[b] by {
                                if a < known.len() {
                                    assert(known.contains(known[a]));
                                }
                                if b < known.len() {
                                    assert(known.contains(known[b]));
                                }
                            }
                            assert forall|other: PeerId| #[trigger] targets@.contains(other)
                                <==> known.contains(other) || other == id by {
                                if known.contains(other) {
                                    let j = choose|j: int|
                                        0 <= j < known.len() && known[j] == other;
                                    assert(targets@[j] == other);
                                }
                                assert(targets@[known.len() as int] == id);
                            }
                        }
                    }
                },
                None => {},
            }
            proof {
                assert forall|other: PeerId| #[trigger] ids@.take(i + 1).contains(other)
                    <==> ids@.take(i as int).contains(other) || other == id by {
                    let taken = ids@.take(i as int);
                    if taken.contains(other) {
                        let j = choose|j: int| 0 <= j < taken.len() && taken[j] == other;
                        assert(ids@.take(i + 1)[j] == other);
                    }
                    assert(ids@.take(i + 1)[i as int] == id);
                }
            }
            i = i + 1;
        }
        proof {
            assert(ids@.take(i as int) =~= ids@);
            assert forall|peer: PeerId| before.contains_key(peer) implies #[trigger] self.peers@[peer]@
                == sync_model::after_known(before[peer]@, hash) && self.peers@[peer].wf() by {
                assert(ids@.to_set().contains(peer));
                let j = choose|j: int| 0 <= j < ids@.len() && ids@[j] == peer;
                assert(ids@[j] == peer);
            }
            assert(self@.peers =~= old(self)@.after_announced(hash, None).peers);
            assert(targets@.to_set() =~= old(self)@.peers_without(hash)) by {
                assert forall|peer: PeerId| ids@.contains(peer) <==> before.contains_key(peer) by {
                    assert(ids@.to_set().contains(peer) <==> ids@.contains(peer));
                }
            }
        }
        targets
    }

    /// Announces a block to all peers that do not know it, unless it is unknown
    /// itself, in which case there is no header, or the genesis block. `best_hash` is
    /// the hash of our best block.
    pub fn announce_block(
        &mut self,
        hash: BlockHash,
        data: Option<Vec<u8>>,
        header: Option<Header>,
        best_hash: BlockHash,
    ) -> (actions: Vec<SyncAction<T>>)
        requires
            old(self).wf(),
            data is Some && old(self)@.is_sent(hash, header) ==> data->0@.len() <= u32::MAX,
        ensures
            final(self).wf(),
            old(self)@.announces(
                hash,
                sync_model::bytes_view(data),
                header,
                best_hash,
                final(self)@,
                actions@,
            ),
    {
        let mut actions: Vec<SyncAction<T>> = Vec::new();
        let header = match header {
            Some(header) => header,
            None => return actions,
        };
        if header.number == 0 {
            return actions;
        }
        let is_best = hash_eq(&best_hash, &hash);
        let data = match data {
            Some(data) => data,
            None => {
                proof {
                    announce_cache::lemma_lookup_is_entry(self@.cache, hash);
                    announce_cache::lemma_get_entries(self@.cache, hash);
                }
                match cache_get(&mut self.block_announce_data_cache, &hash) {
                    Some(data) => data,
                    None => Vec::new(),
                }
            },
        };
        assert(self.wf());
        let peers = self.insert_known_block(hash);
        proof {
            peers@.unique_seq_to_set();
        }
        if peers.len() > 0 && self.service {
            let mut message = header.encoded;
            let mut body = scale::encode_announce_body(is_best, &data);
            message.append(&mut body);
            actions.push(SyncAction::WriteBatchSyncNotification { peers, message });
        }
        actions
    }
}

} // verus!
