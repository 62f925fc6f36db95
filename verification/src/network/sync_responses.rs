//! The syncing state machine: what follows from the answers of the chain sync, the
//! ends of requests and the commands of other parts of the node.
use crate::network::primitives::{
    BadPeer, BlockAttributes, BlockData, BlockHash, BlockNumber, BlockRequest, BlockResponse,
    Header, PeerId,
};
use crate::network::rep;
use crate::network::sync_helper::SyncingHelper;
use crate::network::sync_model::{self, SyncView};
use crate::network::sync_types::{
    Canceled, ChainSyncStatus, OnBlockData, OnBlockJustification, OnStateData, OutboundFailure,
    PeerRequest, RequestFailure, SyncAction, SyncAnswer, SyncEvent, SyncTypes,
};
use crate::scale;
use vstd::prelude::*;

verus! {

/// What follows from what the chain sync says of block data.
pub open spec fn block_data_actions<T: SyncTypes>(
    state: SyncView,
    result: Result<OnBlockData<T>, BadPeer>,
) -> Seq<SyncAction<T>> {
    match result {
        Ok(OnBlockData::Import(origin, blocks)) => seq![
            SyncAction::ImportBlocks { origin, blocks },
        ],
        Ok(OnBlockData::Request(peer, request)) => seq![state.block_request(peer, request)],
        Ok(OnBlockData::Continue) => Seq::empty(),
        Err(bad) => sync_model::bad_peer_actions(bad),
    }
}

/// What follows from what the chain sync says of processed blocks: for each of its
/// answers, in their order, the request that it wants sent, or what is done about a
/// bad peer.
pub open spec fn blocks_processed_actions<T: SyncTypes>(
    state: SyncView,
    results: Seq<Result<(PeerId, BlockRequest), BadPeer>>,
) -> Seq<SyncAction<T>>
    decreases results.len(),
{
    if results.len() == 0 {
        Seq::empty()
    } else {
        blocks_processed_actions(state, results.drop_last()) + match results.last() {
            Ok((who, request)) => seq![state.block_request(who, request)],
            Err(bad) => sync_model::bad_peer_actions(bad),
        }
    }
}

/// What follows from the end of a request.
pub open spec fn pending_response_actions<T: SyncTypes>(
    id: PeerId,
    request: PeerRequest,
    response: Result<Result<Vec<u8>, RequestFailure>, Canceled>,
) -> Seq<SyncAction<T>> {
    match response {
        Ok(Ok(response)) => match request {
            PeerRequest::Block(request) => seq![
                SyncAction::DecodeBlockResponse { who: id, request, response },
            ],
            PeerRequest::State => seq![SyncAction::DecodeStateResponse { who: id, response }],
            PeerRequest::WarpProof => seq![SyncAction::OnWarpSyncData { who: id, proof: response }],
        },
        Ok(Err(failure)) => match failure {
            RequestFailure::Network(OutboundFailure::Timeout) => sync_model::bad_peer_actions(
                BadPeer(id, rep::timeout()),
            ),
            RequestFailure::Network(OutboundFailure::UnsupportedProtocols) => {
                sync_model::bad_peer_actions(BadPeer(id, rep::bad_protocol()))
            },
            RequestFailure::Refused => sync_model::bad_peer_actions(BadPeer(id, rep::refused())),
            RequestFailure::Network(OutboundFailure::DialFailure)
            | RequestFailure::Network(OutboundFailure::ConnectionClosed)
            | RequestFailure::NotConnected => seq![SyncAction::DisconnectPeer(id)],
            RequestFailure::UnknownProtocol | RequestFailure::Obsolete => Seq::empty(),
        },
        Err(Canceled) => seq![SyncAction::DisconnectPeer(id)],
    }
}

/// The requests for blocks of the given peers.
pub open spec fn block_requests<T: SyncTypes>(
    state: SyncView,
    requests: Seq<(PeerId, BlockRequest)>,
) -> Seq<SyncAction<T>> {
    requests.map_values(
        |request: (PeerId, BlockRequest)| state.block_request(request.0, request.1),
    )
}

/// Disconnects a bad peer and changes its reputation.
fn disconnect_and_report_peer<T: SyncTypes>(bad: BadPeer) -> (actions: Vec<SyncAction<T>>)
    ensures
        actions@ == sync_model::bad_peer_actions::<T>(bad),
{
    let BadPeer(id, change) = bad;
    let mut actions: Vec<SyncAction<T>> = Vec::new();
    actions.push(SyncAction::DisconnectPeer(id));
    actions.push(SyncAction::ReportPeer(id, change));
    actions
}

/// A single action.
fn only<T: SyncTypes>(action: SyncAction<T>) -> (actions: Vec<SyncAction<T>>)
    ensures
        actions@ == seq![action],
{
    let mut actions: Vec<SyncAction<T>> = Vec::new();
    actions.push(action);
    actions
}

impl<T: SyncTypes> SyncingHelper<T> {
    /// The import of a justification ended. Who provided one that does not hold is
    /// disconnected.
    pub fn justification_import_result(
        &self,
        who: PeerId,
        hash: BlockHash,
        number: BlockNumber,
        success: bool,
    ) -> (actions: Vec<SyncAction<T>>)
        ensures
            actions@ == seq![SyncAction::<T>::OnJustificationImport { hash, number, success }]
                + if success {
                Seq::empty()
            } else {
                sync_model::bad_peer_actions(BadPeer(who, rep::invalid_justification()))
            },
    {
        let mut actions: Vec<SyncAction<T>> = Vec::new();
        actions.push(SyncAction::OnJustificationImport { hash, number, success });
        if !success {
            let mut more = disconnect_and_report_peer(BadPeer(who, rep::invalid_justification()));
            actions.append(&mut more);
        }
        actions
    }

    /// There is a new best block.
    pub fn update_chain_info(&self, hash: BlockHash, number: BlockNumber) -> (action: SyncAction<T>)
        ensures
            action == (SyncAction::<T>::UpdateChainInfo { hash, number }),
    {
        SyncAction::UpdateChainInfo { hash, number }
    }

    /// A block was finalized.
    pub fn on_block_finalized(&self, hash: BlockHash, header: &Header) -> (action: SyncAction<T>)
        ensures
            action == (SyncAction::<T>::OnBlockFinalized { hash, number: header.number }),
    {
        SyncAction::OnBlockFinalized { hash, number: header.number }
    }

    /// Requests a justification.
    pub fn request_justification(&self, hash: &BlockHash, number: BlockNumber) -> (action:
        SyncAction<T>)
        ensures
            action == (SyncAction::<T>::RequestJustification { hash: *hash, number }),
    {
        SyncAction::RequestJustification { hash: *hash, number }
    }

    /// Forgets all justification requests.
    pub fn clear_justification_requests(&self) -> (action: SyncAction<T>)
        ensures
            action == SyncAction::<T>::ClearJustificationRequests,
    {
        SyncAction::ClearJustificationRequests
    }

    /// Syncs a fork from the given peers.
    pub fn set_sync_fork_request(
        &self,
        peers: Vec<PeerId>,
        hash: &BlockHash,
        number: BlockNumber,
    ) -> (action: SyncAction<T>)
        ensures
            action == (SyncAction::<T>::SetSyncForkRequest { peers, hash: *hash, number }),
    {
        SyncAction::SetSyncForkRequest { peers, hash: *hash, number }
    }

    /// Blocks were processed.
    pub fn on_blocks_processed(
        &self,
        imported: usize,
        count: usize,
        results: T::ImportResults,
    ) -> (action: SyncAction<T>)
        ensures
            action == (SyncAction::<T>::OnBlocksProcessed { imported, count, results }),
    {
        SyncAction::OnBlocksProcessed { imported, count, results }
    }

    /// What the chain sync answered when it was told of processed blocks.
    pub fn blocks_processed_results(
        &self,
        results: Vec<Result<(PeerId, BlockRequest), BadPeer>>,
    ) -> (actions: Vec<SyncAction<T>>)
        ensures
            actions@ == blocks_processed_actions::<T>(self@, results@),
    {
        let mut actions: Vec<SyncAction<T>> = Vec::new();
        let mut i: usize = 0;
        assert(results@.take(0) =~= Seq::<Result<(PeerId, BlockRequest), BadPeer>>::empty());
        while i < results.len()
            invariant
                i <= results@.len(),
                actions@ == blocks_processed_actions::<T>(self@, results@.take(i as int)),
            decreases results@.len() - i,
        {
            assert(results@.take(i + 1).drop_last() =~= results@.take(i as int));
            match results[i] {
                Ok((who, request)) => {
                    actions.push(self.prepare_block_request(who, request));
                },
                Err(bad) => {
                    let mut more = disconnect_and_report_peer(bad);
                    actions.append(&mut more);
                },
            }
            i = i + 1;
            assert(actions@ =~= blocks_processed_actions::<T>(self@, results@.take(i as int)));
        }
        assert(results@.take(i as int) =~= results@);
        actions
    }

    /// What the chain sync answered when it was told that a peer is gone.
    pub fn peer_disconnected_result(&self, result: Option<OnBlockData<T>>) -> (actions: Vec<
        SyncAction<T>,
    >)
        ensures
            actions@ == match result {
                Some(OnBlockData::Import(origin, blocks)) => seq![
                    SyncAction::<T>::ImportBlocks { origin, blocks },
                ],
                _ => Seq::empty(),
            },
    {
        match result {
            Some(OnBlockData::Import(origin, blocks)) => only(
                SyncAction::ImportBlocks { origin, blocks },
            ),
            _ => Vec::new(),
        }
    }

    /// What the chain sync answered to block data.
    pub fn block_data_result(&self, result: Result<OnBlockData<T>, BadPeer>) -> (actions: Vec<
        SyncAction<T>,
    >)
        ensures
            actions@ == block_data_actions(self@, result),
    {
        match result {
            Ok(OnBlockData::Import(origin, blocks)) => only(
                SyncAction::ImportBlocks { origin, blocks },
            ),
            Ok(OnBlockData::Request(peer, request)) => only(
                self.prepare_block_request(peer, request),
            ),
            Ok(OnBlockData::Continue) => Vec::new(),
            Err(bad) => disconnect_and_report_peer(bad),
        }
    }

    /// A response to a request for blocks came in.
    pub fn on_block_response(
        &self,
        peer_id: PeerId,
        request: BlockRequest,
        response: T::OpaqueBlockResponse,
    ) -> (action: SyncAction<T>)
        ensures
            action == (SyncAction::<T>::BlockResponseIntoBlocks { who: peer_id, request, response }),
    {
        SyncAction::BlockResponseIntoBlocks { who: peer_id, request, response }
    }

    /// A response to a request for blocks was turned into blocks, or could not be.
    /// Where justifications alone were asked for, it is handled as a justification.
    pub fn block_response_blocks(
        &self,
        peer_id: PeerId,
        request: BlockRequest,
        blocks: Option<Vec<BlockData>>,
    ) -> (actions: Vec<SyncAction<T>>)
        ensures
            actions@ == match blocks {
                Some(blocks) => {
                    let response = BlockResponse { id: request.id, blocks };
                    if request.fields == BlockAttributes::justification() {
                        seq![SyncAction::<T>::OnBlockJustification { who: peer_id, response }]
                    } else {
                        seq![
                            SyncAction::<T>::OnBlockData {
                                who: peer_id,
                                request: Some(request),
                                response,
                            },
                        ]
                    }
                },
                None => seq![SyncAction::<T>::ReportPeer(peer_id, rep::bad_message())],
            },
    {
        let blocks = match blocks {
            Some(blocks) => blocks,
            None => return only(SyncAction::ReportPeer(peer_id, rep::bad_message())),
        };
        let response = BlockResponse { id: request.id, blocks };
        if request.fields == BlockAttributes::justification() {
            only(SyncAction::OnBlockJustification { who: peer_id, response })
        } else {
            only(SyncAction::OnBlockData { who: peer_id, request: Some(request), response })
        }
    }

    /// What the chain sync answered to a justification.
    pub fn block_justification_result(
        &self,
        result: Result<OnBlockJustification<T>, BadPeer>,
    ) -> (actions: Vec<SyncAction<T>>)
        ensures
            actions@ == match result {
                Ok(OnBlockJustification::Nothing) => Seq::<SyncAction<T>>::empty(),
                Ok(OnBlockJustification::Import { peer, hash, number, justifications }) => seq![
                    SyncAction::ImportJustifications { who: peer, hash, number, justifications },
                ],
                Err(bad) => sync_model::bad_peer_actions::<T>(bad),
            },
    {
        match result {
            Ok(OnBlockJustification::Nothing) => Vec::new(),
            Ok(OnBlockJustification::Import { peer, hash, number, justifications }) => only(
                SyncAction::ImportJustifications { who: peer, hash, number, justifications },
            ),
            Err(bad) => disconnect_and_report_peer(bad),
        }
    }

    /// A response to a request for state came in.
    pub fn on_state_response(&self, peer_id: PeerId, response: T::OpaqueStateResponse) -> (action:
        SyncAction<T>)
        ensures
            action == (SyncAction::<T>::OnStateData { who: peer_id, response }),
    {
        SyncAction::OnStateData { who: peer_id, response }
    }

    /// What the chain sync answered to state data.
    pub fn state_data_result(&self, result: Result<OnStateData<T>, BadPeer>) -> (actions: Vec<
        SyncAction<T>,
    >)
        ensures
            match result {
                Ok(OnStateData::Import(origin, block)) => {
                    &&& actions@.len() == 1
                    &&& actions@[0] matches SyncAction::ImportBlocks { origin: from, blocks }
                    &&& from == origin
                    &&& blocks@ == seq![block]
                },
                Ok(OnStateData::Continue) => actions@.len() == 0,
                Err(bad) => actions@ == sync_model::bad_peer_actions::<T>(bad),
            },
    {
        match result {
            Ok(OnStateData::Import(origin, block)) => {
                let blocks = vec![block];
                assert(blocks@ =~= seq![block]);
                only(SyncAction::ImportBlocks { origin, blocks })
            },
            Ok(OnStateData::Continue) => Vec::new(),
            Err(bad) => disconnect_and_report_peer(bad),
        }
    }

    /// A response to a request for a warp sync proof came in.
    pub fn on_warp_sync_response(&self, peer_id: PeerId, response: Vec<u8>) -> (action: SyncAction<
        T,
    >)
        ensures
            action == (SyncAction::<T>::OnWarpSyncData { who: peer_id, proof: response }),
    {
        SyncAction::OnWarpSyncData { who: peer_id, proof: response }
    }

    /// What the chain sync answered to a warp sync proof.
    pub fn warp_sync_data_result(&self, result: Result<(), BadPeer>) -> (actions: Vec<
        SyncAction<T>,
    >)
        ensures
            actions@ == match result {
                Ok(()) => Seq::<SyncAction<T>>::empty(),
                Err(bad) => sync_model::bad_peer_actions::<T>(bad),
            },
    {
        match result {
            Ok(()) => Vec::new(),
            Err(bad) => disconnect_and_report_peer(bad),
        }
    }

    /// A request ended.
    pub fn handle_pending_response(
        &self,
        id: PeerId,
        request: PeerRequest,
        response: Result<Result<Vec<u8>, RequestFailure>, Canceled>,
    ) -> (actions: Vec<SyncAction<T>>)
        ensures
            actions@ == pending_response_actions::<T>(id, request, response),
    {
        match response {
            Ok(Ok(response)) => match request {
                PeerRequest::Block(request) => only(
                    SyncAction::DecodeBlockResponse { who: id, request, response },
                ),
                PeerRequest::State => only(SyncAction::DecodeStateResponse { who: id, response }),
                PeerRequest::WarpProof => only(self.on_warp_sync_response(id, response)),
            },
            Ok(Err(failure)) => match failure {
                RequestFailure::Network(OutboundFailure::Timeout) => disconnect_and_report_peer(
                    BadPeer(id, rep::timeout()),
                ),
                RequestFailure::Network(OutboundFailure::UnsupportedProtocols) => {
                    disconnect_and_report_peer(BadPeer(id, rep::bad_protocol()))
                },
                RequestFailure::Network(OutboundFailure::DialFailure) => only(
                    SyncAction::DisconnectPeer(id),
                ),
                RequestFailure::Refused => disconnect_and_report_peer(BadPeer(id, rep::refused())),
                RequestFailure::Network(OutboundFailure::ConnectionClosed)
                | RequestFailure::NotConnected => only(SyncAction::DisconnectPeer(id)),
                RequestFailure::UnknownProtocol | RequestFailure::Obsolete => Vec::new(),
            },
            Err(Canceled) => only(SyncAction::DisconnectPeer(id)),
        }
    }

    /// A response to a request for blocks was decoded, or could not be.
    pub fn block_response_decoded(
        &self,
        id: PeerId,
        request: BlockRequest,
        response: Option<T::OpaqueBlockResponse>,
    ) -> (actions: Vec<SyncAction<T>>)
        ensures
            actions@ == match response {
                Some(response) => seq![
                    SyncAction::<T>::BlockResponseIntoBlocks { who: id, request, response },
                ],
                None => sync_model::bad_peer_actions(BadPeer(id, rep::bad_message())),
            },
    {
        match response {
            Some(response) => only(self.on_block_response(id, request, response)),
            None => disconnect_and_report_peer(BadPeer(id, rep::bad_message())),
        }
    }

    /// A response to a request for state was decoded, or could not be.
    pub fn state_response_decoded(
        &self,
        id: PeerId,
        response: Option<T::OpaqueStateResponse>,
    ) -> (actions: Vec<SyncAction<T>>)
        ensures
            actions@ == match response {
                Some(response) => seq![SyncAction::<T>::OnStateData { who: id, response }],
                None => sync_model::bad_peer_actions(BadPeer(id, rep::bad_message())),
            },
    {
        match response {
            Some(response) => only(self.on_state_response(id, response)),
            None => disconnect_and_report_peer(BadPeer(id, rep::bad_message())),
        }
    }

    /// Sends the requests that the chain sync wants sent: those for blocks, for state,
    /// for justifications and for a warp sync proof, in this order.
    pub fn call_chain_sync(
        &self,
        blocks: Vec<(PeerId, BlockRequest)>,
        state: Option<(PeerId, T::OpaqueStateRequest)>,
        justifications: Vec<(PeerId, BlockRequest)>,
        warp_sync: Option<(PeerId, BlockHash)>,
    ) -> (actions: Vec<SyncAction<T>>)
        requires
            warp_sync is Some && self@.has_service ==> self@.names.warp_sync is Some,
        ensures
            ({
                let before = block_requests::<T>(self@, blocks@) + (match state {
                    Some((who, request)) => seq![self@.state_request::<T>(who, request)],
                    None => Seq::empty(),
                }) + block_requests::<T>(self@, justifications@);
                match warp_sync {
                    Some((who, begin)) => actions@.len() == before.len() + 1 && actions@.drop_last()
                        == before && self@.is_warp_sync_request(actions@.last(), who, begin),
                    None => actions@ == before,
                }
            }),
    {
        let mut actions: Vec<SyncAction<T>> = Vec::new();
        self.push_block_requests(&blocks, &mut actions);
        match state {
            Some((who, request)) => actions.push(self.prepare_state_request(who, request)),
            None => {},
        }
        self.push_block_requests(&justifications, &mut actions);
        let ghost before = actions@;
        match warp_sync {
            Some((who, begin)) => {
                actions.push(self.prepare_warp_sync_request(who, begin));
                assert(actions@.drop_last() =~= before);
            },
            None => {},
        }
        actions
    }

    /// Adds the requests for blocks of the given peers.
    fn push_block_requests(
        &self,
        requests: &Vec<(PeerId, BlockRequest)>,
        actions: &mut Vec<SyncAction<T>>,
    )
        ensures
            final(actions)@ == old(actions)@ + block_requests::<T>(self@, requests@),
    {
        let mut i: usize = 0;
        while i < requests.len()
            invariant
                i <= requests@.len(),
                actions@ == old(actions)@ + block_requests::<T>(self@, requests@).take(i as int),
            decreases requests@.len() - i,
        {
            let (who, request) = requests[i];
            actions.push(self.prepare_block_request(who, request));
            i = i + 1;
            assert(actions@ =~= old(actions)@ + block_requests::<T>(self@, requests@).take(
                i as int,
            ));
        }
        assert(block_requests::<T>(self@, requests@).take(i as int) =~= block_requests::<T>(
            self@,
            requests@,
        ));
    }

    /// Handles a command of another part of the node. `status` is what the chain sync
    /// says of itself; `header` and `best_hash` count for the announcement of a block
    /// alone, and are the header of that block, where it is known, and the hash of our
    /// best block.
    pub fn handle_command(
        &mut self,
        event: SyncEvent<T>,
        status: ChainSyncStatus,
        header: Option<Header>,
        best_hash: BlockHash,
    ) -> (step: (Vec<SyncAction<T>>, SyncAnswer))
        requires
            old(self).wf(),
            event matches SyncEvent::AnnounceBlock(hash, Some(data)) ==> old(self)@.is_sent(
                hash,
                header,
            ) ==> data@.len() <= u32::MAX,
        ensures
            final(self).wf(),
            event !is AnnounceBlock ==> final(self)@ == old(self)@,
            match event {
                SyncEvent::NumConnectedPeers => {
                    &&& step.0@.len() == 0
                    &&& step.1 matches SyncAnswer::NumConnectedPeers(count)
                    &&& count == old(self)@.peers.len()
                },
                SyncEvent::SyncState => step.0@.len() == 0 && step.1 == SyncAnswer::SyncState,
                SyncEvent::BestSeenBlock => step.0@.len() == 0 && step.1
                    == SyncAnswer::BestSeenBlock(status.best_seen_block),
                SyncEvent::NumSyncPeers => step.0@.len() == 0 && step.1
                    == SyncAnswer::NumSyncPeers(status.num_peers),
                SyncEvent::NumQueuedBlocks => step.0@.len() == 0 && step.1
                    == SyncAnswer::NumQueuedBlocks(status.queued_blocks),
                SyncEvent::NumDownloadedBlocks => step.0@.len() == 0 && step.1
                    == SyncAnswer::NumDownloadedBlocks(status.num_downloaded_blocks),
                SyncEvent::NumSyncRequests => step.0@.len() == 0 && step.1
                    == SyncAnswer::NumSyncRequests(status.num_sync_requests),
                SyncEvent::UpdateChainInfo(hash, number) => step.1 == SyncAnswer::Nothing
                    && step.0@ == seq![SyncAction::<T>::UpdateChainInfo { hash, number }],
                SyncEvent::OnBlockFinalized(hash, header) => step.1 == SyncAnswer::Nothing
                    && step.0@ == seq![
                    SyncAction::<T>::OnBlockFinalized { hash, number: header.number },
                ],
                SyncEvent::RequestJustification(hash, number) => step.1 == SyncAnswer::Nothing
                    && step.0@ == seq![SyncAction::<T>::RequestJustification { hash, number }],
                SyncEvent::ClearJustificationRequests => step.1 == SyncAnswer::Nothing && step.0@
                    == seq![SyncAction::<T>::ClearJustificationRequests],
                SyncEvent::SetSyncForkRequest(peers, hash, number) => step.1 == SyncAnswer::Nothing
                    && step.0@ == seq![SyncAction::<T>::SetSyncForkRequest { peers, hash, number }],
                SyncEvent::JustificationImportResult(who, hash, number, success) => step.1
                    == SyncAnswer::Nothing && step.0@ == seq![
                    SyncAction::<T>::OnJustificationImport { hash, number, success },
                ] + if success {
                    Seq::empty()
                } else {
                    sync_model::bad_peer_actions(BadPeer(who, rep::invalid_justification()))
                },
                SyncEvent::OnBlocksProcessed(imported, count, results) => step.1
                    == SyncAnswer::Nothing && step.0@ == seq![
                    SyncAction::<T>::OnBlocksProcessed { imported, count, results },
                ],
                SyncEvent::GetPeers => {
                    &&& step.0@.len() == 0
                    &&& step.1 matches SyncAnswer::Peers(peers)
                    &&& peers@.len() == old(self)@.peers.len()
                    &&& forall|i: int, j: int|
                        0 <= i < j < peers@.len() ==> peers@[i].0 != peers@[j].0
                    &&& forall|i: int|
                        0 <= i < peers@.len() ==> old(self)@.peers.contains_key(
                            (#[trigger] peers@[i]).0,
                        ) && peers@[i].1@ == old(self)@.peers[peers@[i].0]
                },
                SyncEvent::GetHandshake(hash, number) => {
                    &&& step.0@.len() == 0
                    &&& step.1 matches SyncAnswer::Handshake(handshake)
                    &&& handshake@ == scale::handshake_bytes(
                        old(self)@.roles.bits,
                        number,
                        hash,
                        old(self)@.genesis_hash,
                    )
                },
                SyncEvent::AnnounceBlock(hash, data) => {
                    &&& step.1 == SyncAnswer::Announced
                    &&& old(self)@.announces(
                        hash,
                        sync_model::bytes_view(data),
                        header,
                        best_hash,
                        final(self)@,
                        step.0@,
                    )
                },
            },
    {
        match event {
            SyncEvent::NumConnectedPeers => (
                Vec::new(),
                SyncAnswer::NumConnectedPeers(self.num_connected_peers()),
            ),
            SyncEvent::SyncState => (Vec::new(), SyncAnswer::SyncState),
            SyncEvent::BestSeenBlock => (
                Vec::new(),
                SyncAnswer::BestSeenBlock(status.best_seen_block),
            ),
            SyncEvent::NumSyncPeers => (Vec::new(), SyncAnswer::NumSyncPeers(status.num_peers)),
            SyncEvent::NumQueuedBlocks => (
                Vec::new(),
                SyncAnswer::NumQueuedBlocks(status.queued_blocks),
            ),
            SyncEvent::NumDownloadedBlocks => (
                Vec::new(),
                SyncAnswer::NumDownloadedBlocks(status.num_downloaded_blocks),
            ),
            SyncEvent::NumSyncRequests => (
                Vec::new(),
                SyncAnswer::NumSyncRequests(status.num_sync_requests),
            ),
            SyncEvent::UpdateChainInfo(hash, number) => (
                only(self.update_chain_info(hash, number)),
                SyncAnswer::Nothing,
            ),
            SyncEvent::OnBlockFinalized(hash, header) => (
                only(self.on_block_finalized(hash, &header)),
                SyncAnswer::Nothing,
            ),
            SyncEvent::RequestJustification(hash, number) => (
                only(self.request_justification(&hash, number)),
                SyncAnswer::Nothing,
            ),
            SyncEvent::ClearJustificationRequests => (
                only(self.clear_justification_requests()),
                SyncAnswer::Nothing,
            ),
            SyncEvent::SetSyncForkRequest(peers, hash, number) => (
                only(self.set_sync_fork_request(peers, &hash, number)),
                SyncAnswer::Nothing,
            ),
            SyncEvent::JustificationImportResult(who, hash, number, success) => (
                self.justification_import_result(who, hash, number, success),
                SyncAnswer::Nothing,
            ),
            SyncEvent::OnBlocksProcessed(imported, count, results) => (
                only(self.on_blocks_processed(imported, count, results)),
                SyncAnswer::Nothing,
            ),
            SyncEvent::GetPeers => (Vec::new(), SyncAnswer::Peers(self.get_peers())),
            SyncEvent::GetHandshake(hash, number) => (
                Vec::new(),
                SyncAnswer::Handshake(self.get_handshake(hash, number)),
            ),
            SyncEvent::AnnounceBlock(hash, data) => (
                self.announce_block(hash, data, header, best_hash),
                SyncAnswer::Announced,
            ),
        }
    }

    /// The substream of a protocol with a peer was closed. Protocols other than the
    /// block announces protocol are ignored.
    pub fn on_stream_closed(&mut self, remote: PeerId, protocol: &String) -> (actions: Vec<
        SyncAction<T>,
    >)
        requires
            old(self).wf(),
            protocol@ == old(self)@.names.block_announces@ && old(self)@.peers.contains_key(remote)
                ==> old(self)@.has_service,
        ensures
            final(self).wf(),
            if protocol@ == old(self)@.names.block_announces@ && old(self)@.peers.contains_key(
                remote,
            ) {
                &&& final(self)@ == old(self)@.after_disconnected(remote)
                &&& actions@ == seq![
                    SyncAction::<T>::PeerDisconnected(remote),
                    SyncAction::<T>::DisconnectSyncPeer(remote),
                ]
            } else {
                final(self)@ == old(self)@ && actions@.len() == 0
            },
    {
        if !self.is_block_announces(protocol) {
            return Vec::new();
        }
        self.custom_protocol_close(remote)
    }

    /// The notifications of the block announces protocol among those of all protocols,
    /// in their order.
    pub fn block_announces_messages(&self, messages: Vec<(String, Vec<u8>)>) -> (announces: Vec<
        Vec<u8>,
    >)
        ensures
            contents(announces@) == announces_among(self@, messages@),
    {
        let mut announces: Vec<Vec<u8>> = Vec::new();
        let mut i: usize = 0;
        assert(messages@.take(0) =~= Seq::<(String, Vec<u8>)>::empty());
        assert(contents(announces@) =~= Seq::<Seq<u8>>::empty());
        while i < messages.len()
            invariant
                i <= messages@.len(),
                contents(announces@) == announces_among(self@, messages@.take(i as int)),
            decreases messages@.len() - i,
        {
            assert(messages@.take(i + 1).drop_last() =~= messages@.take(i as int));
            let ghost before = contents(announces@);
            if self.is_block_announces(&messages[i].0) {
                announces.push(messages[i].1.clone());
                assert(contents(announces@) =~= before.push(messages@[i as int].1@));
            }
            i = i + 1;
        }
        assert(messages@.take(i as int) =~= messages@);
        announces
    }
}

/// The contents of a list of notifications.
pub open spec fn contents(messages: Seq<Vec<u8>>) -> Seq<Seq<u8>> {
    messages.map_values(|message: Vec<u8>| message@)
}

/// The notifications of the block announces protocol among those of all protocols.
pub open spec fn announces_among(state: SyncView, messages: Seq<(String, Vec<u8>)>) -> Seq<Seq<u8>>
    decreases messages.len(),
{
    if messages.len() == 0 {
        Seq::empty()
    } else {
        let before = announces_among(state, messages.drop_last());
        if messages.last().0@ == state.names.block_announces@ {
            before.push(messages.last().1@)
        } else {
            before
        }
    }
}

} // verus!
