//! What the syncing state machine is, in mathematical terms.
use crate::hex;
use crate::network::announce_cache;
use crate::network::known_blocks;
use crate::network::primitives::{
    BadPeer, BlockAnnounce, BlockHash, BlockNumber, BlockRequest, BlockResponse, BlockState,
    Header, PeerId, Roles,
};
use crate::network::protocol::PeerValidationResult;
use crate::network::rep;
use crate::network::sync_types::{
    BlockAnnouncesHandshake, IfDisconnected, LegacyHandshake, PeerInfo, PeerState, ProtocolNames,
    SyncAction, SyncTypes, LIGHT_MAXIMAL_BLOCKS_DIFFERENCE, MAX_KNOWN_BLOCKS,
};
use crate::scale;
use vstd::prelude::*;

verus! {

/// Why a peer is not synced with.
#[derive(Clone, Copy, PartialEq, Eq, Structural, Debug)]
pub enum Refusal {
    /// It is connected already.
    AlreadyConnected,
    /// It has another genesis block.
    GenesisMismatch,
    /// It is a light client, and so are we.
    BadRole,
    /// It is far behind us, and we are a light client.
    FarBehind,
    /// There are full nodes enough.
    NoFullSlot,
    /// There are light clients enough.
    NoLightSlot,
}

/// What becomes of a peer that connected.
#[derive(Clone, Copy, PartialEq, Eq, Structural, Debug)]
pub enum PeerConnected {
    /// It is refused.
    Refused(Refusal),
    /// It is a full node, and the chain sync has to be told of it.
    NewPeer,
    /// It is accepted.
    Accepted,
}

/// The state of the syncing.
#[verifier::ext_equal]
pub struct SyncView {
    /// The connected peers.
    pub peers: Map<PeerId, PeerState>,
    /// The data of block announcements, the entry used last in front.
    pub cache: Seq<(BlockHash, Seq<u8>)>,
    /// The number of entries that the cache was made for.
    pub cache_capacity: nat,
    /// The hash of the genesis block.
    pub genesis_hash: BlockHash,
    /// The roles of this node.
    pub roles: Roles,
    /// How many full nodes to sync with.
    pub num_full: nat,
    /// How many light clients to sync with.
    pub num_light: nat,
    /// The peers that take no slot.
    pub no_slot_peers: Set<PeerId>,
    /// Those of them that are connected.
    pub no_slot_connected_peers: Set<PeerId>,
    /// The names of the protocols.
    pub names: ProtocolNames,
    /// Whether the network service was registered.
    pub has_service: bool,
}

impl SyncView {
    /// The roles of this node are known ones, the hashes known to a peer are within their
    /// limit and occur once, the cache is within its capacity and holds data that fits
    /// into an announcement, and the connected peers without a slot are connected peers
    /// without a slot.
    pub open spec fn wf(self) -> bool {
        &&& scale::known_role_bits(self.roles.bits)
        &&& self.peers.dom().finite()
        &&& forall|peer: PeerId| #[trigger]
            self.peers.contains_key(peer) ==> self.peers[peer].known_blocks.no_duplicates()
                && self.peers[peer].known_blocks.len() < MAX_KNOWN_BLOCKS
        &&& self.cache.len() <= self.cache_capacity
        &&& forall|i: int| 0 <= i < self.cache.len() ==> (#[trigger] self.cache[i]).1.len() <= u32::MAX
        &&& self.no_slot_connected_peers.subset_of(self.no_slot_peers)
        &&& self.no_slot_connected_peers.subset_of(self.peers.dom())
    }

    /// How many full nodes there may be for the peer to be refused: the slots, those
    /// of the connected peers that take none, and that of the peer where it takes
    /// none.
    pub open spec fn full_slots(self, who: PeerId) -> int {
        self.num_full + self.no_slot_connected_peers.len() + if self.no_slot_peers.contains(who) {
            1int
        } else {
            0
        }
    }

    /// Why a peer with this handshake is refused, whatever the slots. `best_number`
    /// is the number of our best block.
    pub open spec fn early_refusal(
        self,
        who: PeerId,
        status: BlockAnnouncesHandshake,
        best_number: BlockNumber,
    ) -> Option<Refusal> {
        if self.peers.contains_key(who) {
            Some(Refusal::AlreadyConnected)
        } else if status.genesis_hash != self.genesis_hash {
            Some(Refusal::GenesisMismatch)
        } else if self.roles.is_light() && status.roles.is_light() {
            Some(Refusal::BadRole)
        } else if self.roles.is_light() && best_number - status.best_number
            >= LIGHT_MAXIMAL_BLOCKS_DIFFERENCE {
            Some(Refusal::FarBehind)
        } else {
            None
        }
    }

    /// Why a peer with this handshake is refused. `best_number` is the number of our
    /// best block, `num_sync_peers` the number of full nodes that are synced with.
    pub open spec fn refusal(
        self,
        who: PeerId,
        status: BlockAnnouncesHandshake,
        best_number: BlockNumber,
        num_sync_peers: nat,
    ) -> Option<Refusal> {
        match self.early_refusal(who, status, best_number) {
            Some(refusal) => Some(refusal),
            None => {
                if status.roles.is_full() && num_sync_peers >= self.full_slots(who) {
                    Some(Refusal::NoFullSlot)
                } else if status.roles.is_light() && self.peers.len() - num_sync_peers
                    >= self.num_light {
                    Some(Refusal::NoLightSlot)
                } else {
                    None
                }
            },
        }
    }

    /// The state once a peer with this handshake was accepted.
    pub open spec fn after_connected(self, who: PeerId, status: BlockAnnouncesHandshake) -> SyncView {
        SyncView {
            peers: self.peers.insert(
                who,
                PeerState {
                    info: PeerInfo {
                        roles: status.roles,
                        best_hash: status.best_hash,
                        best_number: status.best_number,
                    },
                    known_blocks: Seq::empty(),
                },
            ),
            no_slot_connected_peers: if self.no_slot_peers.contains(who) {
                self.no_slot_connected_peers.insert(who)
            } else {
                self.no_slot_connected_peers
            },
            ..self
        }
    }

    /// What becomes of a peer with this handshake.
    pub open spec fn on_connected(
        self,
        who: PeerId,
        status: BlockAnnouncesHandshake,
        best_number: BlockNumber,
        num_sync_peers: nat,
    ) -> (SyncView, PeerConnected) {
        match self.refusal(who, status, best_number, num_sync_peers) {
            Some(refusal) => (self, PeerConnected::Refused(refusal)),
            None => if status.roles.is_full() {
                (self, PeerConnected::NewPeer)
            } else {
                (self.after_connected(who, status), PeerConnected::Accepted)
            },
        }
    }

    /// Whether the number of full nodes that are synced with is one that can be where
    /// it counts: it is not greater than the number of connected peers.
    pub open spec fn is_count(
        self,
        who: PeerId,
        status: BlockAnnouncesHandshake,
        best_number: BlockNumber,
        num_sync_peers: nat,
    ) -> bool {
        self.early_refusal(who, status, best_number) is None && status.roles.is_light()
            ==> num_sync_peers <= self.peers.len()
    }

    /// The notice that a peer was accepted, where the network service was registered.
    pub open spec fn accepted<T: SyncTypes>(self, who: PeerId, roles: Roles) -> Seq<SyncAction<T>> {
        if self.has_service {
            seq![
                SyncAction::ReportPeerValidationResult(who, PeerValidationResult::Accepted(roles)),
            ]
        } else {
            Seq::empty()
        }
    }

    /// The state once a peer is gone.
    pub open spec fn after_disconnected(self, who: PeerId) -> SyncView {
        SyncView {
            peers: self.peers.remove(who),
            no_slot_connected_peers: self.no_slot_connected_peers.remove(who),
            ..self
        }
    }

    /// The state once a peer is known to know a block.
    pub open spec fn after_known(self, who: PeerId, hash: BlockHash) -> SyncView {
        SyncView { peers: self.peers.insert(who, after_known(self.peers[who], hash)), ..self }
    }

    /// The state once data was stored for a block. Empty data is not stored.
    pub open spec fn after_cached(self, hash: BlockHash, data: Seq<u8>) -> SyncView {
        if data.len() == 0 {
            self
        } else {
            SyncView {
                cache: announce_cache::after_put(self.cache, self.cache_capacity, hash, data),
                ..self
            }
        }
    }

    /// Whether a block is announced: it is not the genesis block.
    pub open spec fn is_announced(header: Option<Header>) -> bool {
        header is Some && header->0.number != 0
    }

    /// The data that goes with an announcement of the block: the given data or, where
    /// there is none, the stored data, or none.
    pub open spec fn announced_data(self, hash: BlockHash, data: Option<Seq<u8>>) -> Seq<u8> {
        match data {
            Some(data) => data,
            None => match announce_cache::lookup(self.cache, hash) {
                Some(data) => data,
                None => Seq::empty(),
            },
        }
    }

    /// The peers that do not know the block.
    pub open spec fn peers_without(self, hash: BlockHash) -> Set<PeerId> {
        self.peers.dom().filter(|peer: PeerId| !self.peers[peer].known_blocks.contains(hash))
    }

    /// The state once a block was announced to all peers that did not know it.
    pub open spec fn after_announced(self, hash: BlockHash, data: Option<Seq<u8>>) -> SyncView {
        SyncView {
            peers: self.peers.map_values(|peer: PeerState| after_known(peer, hash)),
            cache: if data is None {
                announce_cache::after_get(self.cache, hash)
            } else {
                self.cache
            },
            ..self
        }
    }

    /// Whether an announcement of the block is sent to anyone: it is not the genesis block,
    /// some peer does not know it, and the network service was registered.
    pub open spec fn is_sent(self, hash: BlockHash, header: Option<Header>) -> bool {
        SyncView::is_announced(header) && self.peers_without(hash).len() > 0 && self.has_service
    }

    /// Whether these are the state and the actions that follow when a block is to be
    /// announced: nothing, where the block is unknown or the genesis block. Otherwise
    /// every peer knows the block, and those that did not are sent the announcement,
    /// where there are any and the network service was registered.
    pub open spec fn announces<T: SyncTypes>(
        self,
        hash: BlockHash,
        data: Option<Seq<u8>>,
        header: Option<Header>,
        best_hash: BlockHash,
        after: SyncView,
        actions: Seq<SyncAction<T>>,
    ) -> bool {
        if SyncView::is_announced(header) {
            let targets = self.peers_without(hash);
            &&& after == self.after_announced(hash, data)
            &&& if self.is_sent(hash, header) {
                &&& actions.len() == 1
                &&& actions[0] matches SyncAction::WriteBatchSyncNotification { peers, message }
                &&& peers@.no_duplicates()
                &&& peers@.to_set() == targets
                &&& message@ == announcement(
                    header->0,
                    best_hash == hash,
                    self.announced_data(hash, data),
                )
            } else {
                actions.len() == 0
            }
        } else {
            after == self && actions.len() == 0
        }
    }

    /// The state once the data of a validated announcement was stored.
    pub open spec fn after_announce_data(self, announce: BlockAnnounce) -> SyncView {
        match announce.data {
            Some(data) => self.after_cached(announce.header.spec_hash(), data@),
            None => self,
        }
    }

    /// The request for state, over the protocol for it where the network service was
    /// registered. It fails at once where the peer is not connected.
    pub open spec fn state_request<T: SyncTypes>(
        self,
        who: PeerId,
        request: T::OpaqueStateRequest,
    ) -> SyncAction<T> {
        SyncAction::StartStateRequest {
            who,
            request,
            protocol: if self.has_service {
                Some(self.names.state_request)
            } else {
                None
            },
            if_disconnected: IfDisconnected::ImmediateError,
        }
    }

    /// Whether the action is the request for a warp sync proof, over the protocol for
    /// it where the network service was registered. The wire form of the request is
    /// the hash of the block that the proof starts at. It fails at once where the peer
    /// is not connected.
    pub open spec fn is_warp_sync_request<T: SyncTypes>(
        self,
        action: SyncAction<T>,
        who: PeerId,
        begin: BlockHash,
    ) -> bool {
        &&& action matches SyncAction::StartWarpSyncRequest {
            who: to,
            request,
            protocol,
            if_disconnected,
        }
        &&& to == who
        &&& request@ == begin@
        &&& protocol == if self.has_service {
            self.names.warp_sync
        } else {
            None
        }
        &&& if_disconnected == IfDisconnected::ImmediateError
    }

    /// The request for blocks, over the protocol for it where the network service was
    /// registered. It fails at once where the peer is not connected.
    pub open spec fn block_request<T: SyncTypes>(
        self,
        who: PeerId,
        request: BlockRequest,
    ) -> SyncAction<T> {
        SyncAction::StartBlockRequest {
            who,
            request,
            protocol: if self.has_service {
                Some(self.names.block_request)
            } else {
                None
            },
            if_disconnected: IfDisconnected::ImmediateError,
        }
    }
}

/// What is known of a peer once it is known to know a block.
pub open spec fn after_known(peer: PeerState, hash: BlockHash) -> PeerState {
    PeerState {
        known_blocks: known_blocks::after_insert(
            peer.known_blocks,
            MAX_KNOWN_BLOCKS as nat,
            hash,
        ),
        ..peer
    }
}

/// What is done about a peer that the chain sync found bad.
pub open spec fn bad_peer_actions<T: SyncTypes>(bad: BadPeer) -> Seq<SyncAction<T>> {
    seq![SyncAction::DisconnectPeer(bad.0), SyncAction::ReportPeer(bad.0, bad.1)]
}

/// The handshake that a peer sent: a status message of older versions of the protocol
/// or, where the bytes are no message of those, the handshake whose wire form they
/// are.
pub open spec fn received_handshake(legacy: LegacyHandshake, bytes: Seq<u8>) -> Option<
    BlockAnnouncesHandshake,
> {
    match legacy {
        LegacyHandshake::Status(handshake) => Some(handshake),
        LegacyHandshake::Other => None,
        LegacyHandshake::Undecodable => BlockAnnouncesHandshake::from_wire(bytes),
    }
}

/// Whether the announced block is the best one of its sender, which it is unless the
/// sender says otherwise.
pub open spec fn announces_best(announce: BlockAnnounce) -> bool {
    announce.state != Some(BlockState::Normal)
}

/// What a block announcement holds, as plain values.
pub open spec fn announce_view(announce: BlockAnnounce) -> (
    u32,
    Seq<u8>,
    Option<bool>,
    Option<Seq<u8>>,
) {
    (
        announce.header.number,
        announce.header.encoded@,
        match announce.state {
            Some(BlockState::Best) => Some(true),
            Some(BlockState::Normal) => Some(false),
            None => None,
        },
        bytes_view(announce.data),
    )
}

/// The contents of optional bytes.
pub open spec fn bytes_view(bytes: Option<Vec<u8>>) -> Option<Seq<u8>> {
    match bytes {
        Some(bytes) => Some(bytes@),
        None => None,
    }
}

/// Whether the response holds the one header and nothing else.
pub open spec fn is_header_response(response: BlockResponse, header: Header) -> bool {
    let block = response.blocks@[0];
    &&& response.id == 0
    &&& response.blocks@.len() == 1
    &&& block.hash == header.spec_hash()
    &&& block.header == Some(header)
    &&& block.body is None
    &&& block.indexed_body is None
    &&& block.receipt is None
    &&& block.message_queue is None
    &&& block.justification is None
    &&& block.justifications is None
}

/// The name of the block announces protocol of the chain with this genesis block and,
/// where there is one, this fork.
pub open spec fn block_announces_name(genesis: BlockHash, fork_id: Option<Seq<char>>) -> Seq<char> {
    match fork_id {
        Some(fork_id) => "/"@ + hex::hex_of(genesis@) + "/"@ + fork_id + "/block-announces/1"@,
        None => "/"@ + hex::hex_of(genesis@) + "/block-announces/1"@,
    }
}

/// The older name of the block announces protocol.
pub open spec fn legacy_block_announces_name(protocol_id: Seq<char>) -> Seq<char> {
    "/"@ + protocol_id + "/block-announces/1"@
}

/// The wire form of the announcement of a block.
pub open spec fn announcement(header: Header, is_best: bool, data: Seq<u8>) -> Seq<u8> {
    header.encoded@ + scale::announce_body(is_best, data)
}

/// What is done about a refused peer.
pub open spec fn refusal_actions<T: SyncTypes>(who: PeerId, refusal: Refusal) -> Seq<SyncAction<T>> {
    match refusal {
        Refusal::AlreadyConnected => Seq::empty(),
        Refusal::GenesisMismatch => seq![
            SyncAction::DisconnectPeer(who),
            SyncAction::ReportPeer(who, rep::genesis_mismatch()),
        ],
        Refusal::BadRole => seq![
            SyncAction::DisconnectPeer(who),
            SyncAction::ReportPeer(who, rep::bad_role()),
        ],
        Refusal::FarBehind => seq![
            SyncAction::DisconnectPeer(who),
            SyncAction::ReportPeer(who, rep::peer_behind_us_light()),
        ],
        Refusal::NoFullSlot | Refusal::NoLightSlot => seq![SyncAction::DisconnectPeer(who)],
    }
}

} // verus!
