//! The values that the syncing state machine exchanges with the services around it.
use crate::network::known_blocks::LruHashSet;
use crate::network::primitives::{
    BadPeer, BlockAnnounce, BlockHash, BlockNumber, BlockRequest, BlockResponse, Header, PeerId,
    ReputationChange, Roles,
};
use crate::network::protocol::PeerValidationResult;
use crate::scale;
use vstd::prelude::*;

verus! {

/// Number of block hashes below which the hashes known to a peer stay.
pub const MAX_KNOWN_BLOCKS: usize = 1024;

/// The size that a block announcement may have.
pub const MAX_BLOCK_ANNOUNCE_SIZE: u64 = 1048576;

/// The size that notifications of the block announces and the transactions protocol
/// may have.
pub const BLOCK_ANNOUNCES_TRANSACTIONS_SUBSTREAM_SIZE: u64 = 16777216;

/// When a light client connects to a full node that is behind it by at least this many
/// blocks, the full node is considered not useful, and is disconnected to free the slot.
pub const LIGHT_MAXIMAL_BLOCKS_DIFFERENCE: u64 = 8192;

/// What becomes of a request to a peer that is not connected.
#[derive(Clone, Copy, PartialEq, Eq, Structural, Debug)]
pub enum IfDisconnected {
    /// The peer is connected to first.
    TryConnect,
    /// The request fails at once.
    ImmediateError,
}

/// The types of the values that only the services around the state machine look
/// into.
pub trait SyncTypes {
    /// Where blocks come from.
    type Origin;

    /// A block that is handed to the import queue.
    type IncomingBlock;

    /// The justifications of a block.
    type Justifications;

    /// A decoded block response.
    type OpaqueBlockResponse;

    /// A decoded state response.
    type OpaqueStateResponse;

    /// A state request.
    type OpaqueStateRequest;

    /// What the import queue says of the blocks that it processed.
    type ImportResults;
}

/// What was requested of a peer.
#[derive(Clone, Copy, Debug)]
pub enum PeerRequest {
    /// Blocks.
    Block(BlockRequest),
    /// State.
    State,
    /// A warp sync proof.
    WarpProof,
}

/// What a peer said of itself.
#[derive(Clone, Copy, Debug)]
pub struct PeerInfo {
    /// Its roles.
    pub roles: Roles,
    /// The hash of its best block.
    pub best_hash: BlockHash,
    /// The number of its best block.
    pub best_number: BlockNumber,
}

/// What is known of a peer.
pub struct Peer {
    /// What it said of itself.
    pub info: PeerInfo,
    /// The blocks that it knows.
    pub known_blocks: LruHashSet,
}

/// What is known of a peer: what it said of itself and the hashes of the blocks
/// that it knows, oldest first.
#[verifier::ext_equal]
pub struct PeerState {
    /// What it said of itself.
    pub info: PeerInfo,
    /// The blocks that it knows.
    pub known_blocks: Seq<BlockHash>,
}

impl View for Peer {
    type V = PeerState;

    open spec fn view(&self) -> PeerState {
        PeerState { info: self.info, known_blocks: self.known_blocks@ }
    }
}

impl Peer {
    /// The set of known blocks is one of the right size.
    pub open spec fn wf(&self) -> bool {
        self.known_blocks.wf() && self.known_blocks.limit() == MAX_KNOWN_BLOCKS
    }
}

impl Clone for Peer {
    fn clone(&self) -> (peer: Peer)
        ensures
            peer@ == self@,
            self.wf() ==> peer.wf(),
    {
        Peer { info: self.info, known_blocks: self.known_blocks.clone() }
    }
}

/// The handshake of the block announces protocol.
#[derive(Clone, Copy, PartialEq, Eq, Debug)]
pub struct BlockAnnouncesHandshake {
    /// The roles of the node.
    pub roles: Roles,
    /// The number of its best block.
    pub best_number: BlockNumber,
    /// The hash of its best block.
    pub best_hash: BlockHash,
    /// The hash of its genesis block.
    pub genesis_hash: BlockHash,
}

impl BlockAnnouncesHandshake {
    /// The wire form.
    pub open spec fn wire(&self) -> Seq<u8> {
        scale::handshake_bytes(
            self.roles.bits,
            self.best_number,
            self.best_hash,
            self.genesis_hash,
        )
    }

    /// Puts a handshake together.
    pub fn build(
        roles: Roles,
        best_number: BlockNumber,
        best_hash: BlockHash,
        genesis_hash: BlockHash,
    ) -> (handshake: BlockAnnouncesHandshake)
        ensures
            handshake == (BlockAnnouncesHandshake { roles, best_number, best_hash, genesis_hash }),
    {
        BlockAnnouncesHandshake { roles, best_number, best_hash, genesis_hash }
    }

    /// Writes the handshake down.
    pub fn encode(&self) -> (bytes: Vec<u8>)
        ensures
            bytes@ == self.wire(),
    {
        scale::encode_handshake(
            self.roles.bits,
            self.best_number,
            self.best_hash,
            self.genesis_hash,
        )
    }

    /// Whether the bytes are the wire form of the handshake, and its roles known.
    pub open spec fn is_read_from(&self, bytes: Seq<u8>) -> bool {
        self.wire() == bytes && scale::known_role_bits(self.roles.bits)
    }

    /// The handshake with known roles whose wire form the bytes are.
    pub open spec fn from_wire(bytes: Seq<u8>) -> Option<BlockAnnouncesHandshake> {
        if exists|handshake: BlockAnnouncesHandshake| #[trigger] handshake.is_read_from(bytes) {
            Some(
                choose|handshake: BlockAnnouncesHandshake| #[trigger] handshake.is_read_from(bytes),
            )
        } else {
            None
        }
    }

    /// Reads a handshake that takes up all the bytes. `None` where they are not
    /// the wire form of a handshake with known roles.
    pub fn decode_all(bytes: &[u8]) -> (handshake: Option<BlockAnnouncesHandshake>)
        ensures
            handshake == BlockAnnouncesHandshake::from_wire(bytes@),
            handshake is Some <==> bytes@.len() == 69 && bytes@[0] <= 7,
    {
        match scale::decode_handshake(bytes) {
            Some((roles, best_number, best_hash, genesis_hash)) => {
                let handshake = BlockAnnouncesHandshake {
                    roles: Roles { bits: roles },
                    best_number,
                    best_hash,
                    genesis_hash,
                };
                proof {
                    scale::lemma_u32_le_of_value(bytes@.subrange(1, 5), best_number);
                    assert(handshake.wire() =~= bytes@);
                    assert(handshake.is_read_from(bytes@));
                    lemma_handshake_wire_is_injective(
                        handshake,
                        BlockAnnouncesHandshake::from_wire(bytes@)->0,
                    );
                }
                Some(handshake)
            },
            None => {
                proof {
                    assert forall|handshake: BlockAnnouncesHandshake|
                        !#[trigger] handshake.is_read_from(bytes@) by {
                        assert(handshake.wire().len() == 69);
                        assert(handshake.wire()[0] == handshake.roles.bits);
                    }
                }
                None
            },
        }
    }
}

/// Reading a written handshake gives the one that was written, where its roles are
/// known.
pub proof fn lemma_handshake_round_trip(handshake: BlockAnnouncesHandshake)
    requires
        scale::known_role_bits(handshake.roles.bits),
    ensures
        BlockAnnouncesHandshake::from_wire(handshake.wire()) == Some(handshake),
{
    assert(handshake.is_read_from(handshake.wire()));
    lemma_handshake_wire_is_injective(
        handshake,
        BlockAnnouncesHandshake::from_wire(handshake.wire())->0,
    );
}

/// Writing a handshake that was read gives the bytes that it was read from.
pub proof fn lemma_handshake_reads_back(bytes: Seq<u8>)
    ensures
        BlockAnnouncesHandshake::from_wire(bytes) matches Some(handshake) ==> handshake.wire()
            == bytes,
{
}

/// Different handshakes have different wire forms.
pub proof fn lemma_handshake_wire_is_injective(
    a: BlockAnnouncesHandshake,
    b: BlockAnnouncesHandshake,
)
    requires
        a.wire() == b.wire(),
    ensures
        a == b,
{
    let wire = a.wire();
    assert(a.roles.bits == wire[0] && b.roles.bits == wire[0]);
    assert(scale::u32_le(a.best_number) =~= wire.subrange(1, 5));
    assert(scale::u32_le(b.best_number) =~= wire.subrange(1, 5));
    scale::lemma_u32_le_round_trip(a.best_number);
    scale::lemma_u32_le_round_trip(b.best_number);
    assert(a.best_hash@ =~= wire.subrange(5, 37));
    assert(b.best_hash@ =~= wire.subrange(5, 37));
    assert(a.genesis_hash@ =~= wire.subrange(37, 69));
    assert(b.genesis_hash@ =~= wire.subrange(37, 69));
    assert(a.best_hash =~= b.best_hash);
    assert(a.genesis_hash =~= b.genesis_hash);
}

/// The handshake that a peer sent, read in the form of older versions of the
/// protocol.
#[derive(Clone, Copy, Debug)]
pub enum LegacyHandshake {
    /// A status message.
    Status(BlockAnnouncesHandshake),
    /// Another message.
    Other,
    /// No message in that form.
    Undecodable,
}

/// The names of the protocols that the state machine speaks.
#[derive(Debug)]
pub struct ProtocolNames {
    /// The protocol to request blocks over.
    pub block_request: String,
    /// The protocol to request state over.
    pub state_request: String,
    /// The protocol to request warp sync proofs over.
    pub warp_sync: Option<String>,
    /// The block announces protocol.
    pub block_announces: String,
}

/// What the chain looks like.
#[derive(Clone, Copy, Debug)]
pub struct ChainInfo {
    /// The number of the best block.
    pub best_number: BlockNumber,
    /// The hash of the best block.
    pub best_hash: BlockHash,
    /// The hash of the genesis block.
    pub genesis_hash: BlockHash,
}

/// Why a request could not be sent or answered, as the transport tells it.
#[derive(Clone, Copy, PartialEq, Eq, Structural, Debug)]
pub enum OutboundFailure {
    /// The peer could not be dialled.
    DialFailure,
    /// No response came in time.
    Timeout,
    /// The connection was closed.
    ConnectionClosed,
    /// The peer does not speak the protocol.
    UnsupportedProtocols,
}

/// Why a request failed.
#[derive(Clone, Copy, PartialEq, Eq, Structural, Debug)]
pub enum RequestFailure {
    /// We are not connected to the peer.
    NotConnected,
    /// The protocol is not registered.
    UnknownProtocol,
    /// The peer refused the request.
    Refused,
    /// Nobody waits for the response any more.
    Obsolete,
    /// The transport failed.
    Network(OutboundFailure),
}

/// The sender of a response is gone.
#[derive(Clone, Copy, PartialEq, Eq, Structural, Debug)]
pub struct Canceled;

/// The end of a request: the peer, what was requested, and the response.
pub type PendingResponse = (PeerId, PeerRequest, Result<Result<Vec<u8>, RequestFailure>, Canceled>);

/// What is to be done with block data.
pub enum OnBlockData<T: SyncTypes> {
    /// Import the blocks.
    Import(T::Origin, Vec<T::IncomingBlock>),
    /// Send a request to the peer.
    Request(PeerId, BlockRequest),
    /// Nothing.
    Continue,
}

/// What is to be done with a justification.
pub enum OnBlockJustification<T: SyncTypes> {
    /// Nothing.
    Nothing,
    /// Import it.
    Import {
        /// Who sent it.
        peer: PeerId,
        /// The hash of the block.
        hash: BlockHash,
        /// The number of the block.
        number: BlockNumber,
        /// The justifications.
        justifications: T::Justifications,
    },
}

/// What is to be done with state data.
pub enum OnStateData<T: SyncTypes> {
    /// Import the block.
    Import(T::Origin, T::IncomingBlock),
    /// Nothing.
    Continue,
}

/// How the validation of a block announcement ended.
#[derive(Debug)]
pub enum PollBlockAnnounceValidation {
    /// The announcement is invalid.
    Failure {
        /// Who sent it.
        who: PeerId,
        /// Whether to disconnect the sender.
        disconnect: bool,
    },
    /// The announcement is valid and needs nothing more.
    Nothing {
        /// Whether the block is the best one of its sender.
        is_best: bool,
        /// Who sent it.
        who: PeerId,
        /// The announcement.
        announce: BlockAnnounce,
    },
    /// The announced header is to be imported.
    ImportHeader {
        /// Whether the block is the best one of its sender.
        is_best: bool,
        /// Who sent it.
        who: PeerId,
        /// The announcement.
        announce: BlockAnnounce,
    },
    /// The announcement is to be skipped.
    Skip,
}

/// What becomes of a peer that connected.
pub enum OpenStep<T: SyncTypes> {
    /// It is decided, and this is to be done.
    Done(Vec<SyncAction<T>>),
    /// The chain sync has to be told of the peer with this handshake. Its answer goes
    /// to `new_peer_result`.
    NewPeer(BlockAnnouncesHandshake),
}

/// What the services around the state machine have to do, one after the other. An
/// action whose outcome the state machine needs says which method takes it; what that
/// method returns is to be done before the next action.
#[allow(inconsistent_fields)]
pub enum SyncAction<T: SyncTypes> {
    /// Tell the chain sync how the import of a justification ended.
    OnJustificationImport {
        /// The hash of the block.
        hash: BlockHash,
        /// The number of the block.
        number: BlockNumber,
        /// Whether it was imported.
        success: bool,
    },
    /// Tell the chain sync of a new best block.
    UpdateChainInfo {
        /// The hash of the block.
        hash: BlockHash,
        /// The number of the block.
        number: BlockNumber,
    },
    /// Tell the chain sync of a finalized block.
    OnBlockFinalized {
        /// The hash of the block.
        hash: BlockHash,
        /// The number of the block.
        number: BlockNumber,
    },
    /// Have the chain sync request a justification.
    RequestJustification {
        /// The hash of the block.
        hash: BlockHash,
        /// The number of the block.
        number: BlockNumber,
    },
    /// Have the chain sync forget its justification requests.
    ClearJustificationRequests,
    /// Have the chain sync sync a fork from the given peers.
    SetSyncForkRequest {
        /// The peers.
        peers: Vec<PeerId>,
        /// The hash of the block.
        hash: BlockHash,
        /// The number of the block.
        number: BlockNumber,
    },
    /// Tell the chain sync of processed blocks. Its answers go to
    /// `blocks_processed_results`.
    OnBlocksProcessed {
        /// How many were imported.
        imported: usize,
        /// How many were processed.
        count: usize,
        /// What the import queue says of each.
        results: T::ImportResults,
    },
    /// Tell the chain sync that a peer is gone. Its answer goes to
    /// `peer_disconnected_result`.
    PeerDisconnected(PeerId),
    /// Have the chain sync validate a block announcement.
    PushBlockAnnounceValidation {
        /// Who sent it.
        who: PeerId,
        /// The hash of the block.
        hash: BlockHash,
        /// The announcement.
        announce: BlockAnnounce,
        /// Whether the block is the best one of its sender.
        is_best: bool,
    },
    /// Ask the chain sync once whether a validation ended. One that did goes to
    /// `process_block_announce_validation_result`.
    PollBlockAnnounceValidation,
    /// Have the chain sync decode a block response. The outcome goes to
    /// `block_response_decoded`.
    DecodeBlockResponse {
        /// Who sent it.
        who: PeerId,
        /// The request.
        request: BlockRequest,
        /// The response.
        response: Vec<u8>,
    },
    /// Have the chain sync decode a state response. The outcome goes to
    /// `state_response_decoded`.
    DecodeStateResponse {
        /// Who sent it.
        who: PeerId,
        /// The response.
        response: Vec<u8>,
    },
    /// Have the chain sync turn a block response into blocks. The outcome goes to
    /// `block_response_blocks`.
    BlockResponseIntoBlocks {
        /// Who sent it.
        who: PeerId,
        /// The request.
        request: BlockRequest,
        /// The response.
        response: T::OpaqueBlockResponse,
    },
    /// Hand a response with a justification to the chain sync. Its answer goes to
    /// `block_justification_result`.
    OnBlockJustification {
        /// Who sent it.
        who: PeerId,
        /// The response.
        response: BlockResponse,
    },
    /// Hand a response with blocks to the chain sync. Its answer goes to
    /// `block_data_result`.
    OnBlockData {
        /// Who sent it.
        who: PeerId,
        /// The request, where there was one.
        request: Option<BlockRequest>,
        /// The response.
        response: BlockResponse,
    },
    /// Hand a state response to the chain sync. Its answer goes to
    /// `state_data_result`.
    OnStateData {
        /// Who sent it.
        who: PeerId,
        /// The response.
        response: T::OpaqueStateResponse,
    },
    /// Hand a warp sync proof to the chain sync. Its answer goes to
    /// `warp_sync_data_result`.
    OnWarpSyncData {
        /// Who sent it.
        who: PeerId,
        /// The encoded proof.
        proof: Vec<u8>,
    },
    /// Hand blocks to the import queue.
    ImportBlocks {
        /// Where they come from.
        origin: T::Origin,
        /// The blocks.
        blocks: Vec<T::IncomingBlock>,
    },
    /// Hand justifications to the import queue.
    ImportJustifications {
        /// Who sent them.
        who: PeerId,
        /// The hash of the block.
        hash: BlockHash,
        /// The number of the block.
        number: BlockNumber,
        /// The justifications.
        justifications: T::Justifications,
    },
    /// Request blocks over the given protocol. Without one the request ends as
    /// canceled. Its end goes to `handle_pending_response`.
    StartBlockRequest {
        /// Of whom.
        who: PeerId,
        /// The request.
        request: BlockRequest,
        /// The protocol.
        protocol: Option<String>,
        /// What to do where the peer is not connected.
        if_disconnected: IfDisconnected,
    },
    /// Request state over the given protocol. Without one the request ends as
    /// canceled. Its end goes to `handle_pending_response`.
    StartStateRequest {
        /// Of whom.
        who: PeerId,
        /// The request.
        request: T::OpaqueStateRequest,
        /// The protocol.
        protocol: Option<String>,
        /// What to do where the peer is not connected.
        if_disconnected: IfDisconnected,
    },
    /// Request a warp sync proof over the given protocol. Without one the request
    /// ends as canceled. Its end goes to `handle_pending_response`.
    StartWarpSyncRequest {
        /// Of whom.
        who: PeerId,
        /// The request in its wire form.
        request: Vec<u8>,
        /// The protocol.
        protocol: Option<String>,
        /// What to do where the peer is not connected.
        if_disconnected: IfDisconnected,
    },
    /// Send a notification of the block announces protocol to many peers.
    WriteBatchSyncNotification {
        /// The peers.
        peers: Vec<PeerId>,
        /// The notification.
        message: Vec<u8>,
    },
    /// Tell the protocol that a syncing peer is gone.
    DisconnectSyncPeer(PeerId),
    /// Tell the protocol how the validation of a peer ended.
    ReportPeerValidationResult(PeerId, PeerValidationResult),
    /// Disconnect a peer.
    DisconnectPeer(PeerId),
    /// Change the reputation of a peer.
    ReportPeer(PeerId, ReputationChange),
}

/// A request to the state machine from another part of the node.
pub enum SyncEvent<T: SyncTypes> {
    /// How many peers are connected?
    NumConnectedPeers,
    /// What is the state of the chain sync?
    SyncState,
    /// What is the best block that was seen?
    BestSeenBlock,
    /// How many peers are synced with?
    NumSyncPeers,
    /// How many blocks are queued?
    NumQueuedBlocks,
    /// How many blocks were downloaded?
    NumDownloadedBlocks,
    /// How many requests are under way?
    NumSyncRequests,
    /// There is a new best block.
    UpdateChainInfo(BlockHash, BlockNumber),
    /// A block was finalized.
    OnBlockFinalized(BlockHash, Header),
    /// Request a justification.
    RequestJustification(BlockHash, BlockNumber),
    /// Forget all justification requests.
    ClearJustificationRequests,
    /// Sync a fork from the given peers.
    SetSyncForkRequest(Vec<PeerId>, BlockHash, BlockNumber),
    /// The import of a justification ended.
    JustificationImportResult(PeerId, BlockHash, BlockNumber, bool),
    /// Blocks were processed.
    OnBlocksProcessed(usize, usize, T::ImportResults),
    /// Who is connected?
    GetPeers,
    /// What is our handshake, with the given best block?
    GetHandshake(BlockHash, BlockNumber),
    /// Announce a block, with the given data.
    AnnounceBlock(BlockHash, Option<Vec<u8>>),
}

/// What the state machine answers to a request.
pub enum SyncAnswer {
    /// The number of connected peers.
    NumConnectedPeers(usize),
    /// The state of the chain sync, as the chain sync tells it.
    SyncState,
    /// The best block that was seen.
    BestSeenBlock(Option<BlockNumber>),
    /// The number of peers that are synced with.
    NumSyncPeers(u32),
    /// The number of queued blocks.
    NumQueuedBlocks(u32),
    /// The number of downloaded blocks.
    NumDownloadedBlocks(usize),
    /// The number of requests under way.
    NumSyncRequests(usize),
    /// The connected peers.
    Peers(Vec<(PeerId, Peer)>),
    /// The handshake in its wire form.
    Handshake(Vec<u8>),
    /// The block was handled.
    Announced,
    /// Nobody waits for an answer.
    Nothing,
}

/// What the chain sync says of itself.
#[derive(Clone, Copy, Debug)]
pub struct ChainSyncStatus {
    /// The best block that was seen.
    pub best_seen_block: Option<BlockNumber>,
    /// The number of peers that are synced with.
    pub num_peers: u32,
    /// The number of queued blocks.
    pub queued_blocks: u32,
    /// The number of downloaded blocks.
    pub num_downloaded_blocks: usize,
    /// The number of requests under way.
    pub num_sync_requests: usize,
}

} // verus!
