//! What the calls of the syncing state machine do about responses, answers of the chain
//! sync and commands, told from their arguments and results alone.
use crate::network::config::ProtocolConfig;
use crate::network::primitives::{
    BadPeer, BlockAttributes, BlockData, BlockHash, BlockNumber, BlockRequest, Header, PeerId, Roles,
};
use crate::network::rep;
use crate::network::sync_helper::SyncingHelper;
use crate::hex;
use crate::network::sync_calls;
use crate::network::sync_loop::{next_step, LoopEvent, LoopStep};
use crate::network::sync_model::SyncView;
use crate::network::sync_responses;
use crate::network::sync_types::{
    BlockAnnouncesHandshake, Canceled, ChainInfo, ChainSyncStatus, IfDisconnected, LegacyHandshake,
    OnBlockData,
    OnBlockJustification, OnStateData, OutboundFailure, Peer, PeerRequest, RequestFailure,
    SyncAction, SyncAnswer, SyncEvent, SyncTypes,
    BLOCK_ANNOUNCES_TRANSACTIONS_SUBSTREAM_SIZE, MAX_BLOCK_ANNOUNCE_SIZE,
};
use crate::scale;
use vstd::prelude::*;

verus! {

/// What follows from a request without a response does not depend on what was requested,
/// nor on the state.
pub proof fn lemma_failures_do_not_depend_on_the_request<T: SyncTypes>(
    helper: &SyncingHelper<T>,
    other: &SyncingHelper<T>,
    id: PeerId,
    request: PeerRequest,
    other_request: PeerRequest,
    response: Result<Result<Vec<u8>, RequestFailure>, Canceled>,
    actions: Vec<SyncAction<T>>,
    other_actions: Vec<SyncAction<T>>,
)
    requires
        !(response matches Ok(Ok(_))),
        call_ensures(
            SyncingHelper::<T>::handle_pending_response,
            (helper, id, request, response),
            actions,
        ),
        call_ensures(
            SyncingHelper::<T>::handle_pending_response,
            (other, id, other_request, response),
            other_actions,
        ),
    ensures
        actions@ =~= other_actions@,
{
}

/// Whether the peer is disconnected and nothing else happens.
pub open spec fn only_disconnects<T: SyncTypes>(actions: Seq<SyncAction<T>>, id: PeerId) -> bool {
    actions.len() == 1 && actions[0] == SyncAction::<T>::DisconnectPeer(id)
}

/// Whether the peer is first disconnected and then pays.
pub open spec fn disconnects_and_costs<T: SyncTypes>(
    actions: Seq<SyncAction<T>>,
    bad: BadPeer,
) -> bool {
    &&& actions.len() == 2
    &&& actions[0] == SyncAction::<T>::DisconnectPeer(bad.0)
    &&& actions[1] == SyncAction::<T>::ReportPeer(bad.0, bad.1)
}

/// A peer that lets a request time out, refuses it or does not speak the protocol is
/// disconnected and pays; one that cannot be reached, and one whose response is lost, is
/// disconnected. Requests over a protocol of ours that is missing, and those that nobody
/// waits for, have no consequence. This holds of every request.
pub proof fn lemma_what_failures_cost<T: SyncTypes>(
    helper: &SyncingHelper<T>,
    id: PeerId,
    request: PeerRequest,
    response: Result<Result<Vec<u8>, RequestFailure>, Canceled>,
    actions: Vec<SyncAction<T>>,
)
    requires
        call_ensures(
            SyncingHelper::<T>::handle_pending_response,
            (helper, id, request, response),
            actions,
        ),
    ensures
        response == Ok::<_, Canceled>(
            Err::<Vec<u8>, _>(RequestFailure::Network(OutboundFailure::Timeout)),
        ) ==> disconnects_and_costs(actions@, BadPeer(id, rep::timeout())),
        response == Ok::<_, Canceled>(
            Err::<Vec<u8>, _>(RequestFailure::Network(OutboundFailure::UnsupportedProtocols)),
        ) ==> disconnects_and_costs(actions@, BadPeer(id, rep::bad_protocol())),
        response == Ok::<_, Canceled>(Err::<Vec<u8>, _>(RequestFailure::Refused))
            ==> disconnects_and_costs(actions@, BadPeer(id, rep::refused())),
        response == Ok::<_, Canceled>(
            Err::<Vec<u8>, _>(RequestFailure::Network(OutboundFailure::DialFailure)),
        ) ==> only_disconnects(actions@, id),
        response == Ok::<_, Canceled>(
            Err::<Vec<u8>, _>(RequestFailure::Network(OutboundFailure::ConnectionClosed)),
        ) ==> only_disconnects(actions@, id),
        response == Ok::<_, Canceled>(Err::<Vec<u8>, _>(RequestFailure::NotConnected))
            ==> only_disconnects(actions@, id),
        response is Err ==> only_disconnects(actions@, id),
        response == Ok::<_, Canceled>(Err::<Vec<u8>, _>(RequestFailure::UnknownProtocol))
            ==> actions@.len() == 0,
        response == Ok::<_, Canceled>(Err::<Vec<u8>, _>(RequestFailure::Obsolete))
            ==> actions@.len() == 0,
{
}

/// A response is passed on as it came, with who sent it and, where blocks were requested,
/// with the request, and costs nobody anything.
pub proof fn lemma_responses_are_passed_on<T: SyncTypes>(
    helper: &SyncingHelper<T>,
    id: PeerId,
    request: PeerRequest,
    response: Vec<u8>,
    actions: Vec<SyncAction<T>>,
)
    requires
        call_ensures(
            SyncingHelper::<T>::handle_pending_response,
            (helper, id, request, Ok::<_, Canceled>(Ok::<_, RequestFailure>(response))),
            actions,
        ),
    ensures
        actions@.len() == 1,
        request matches PeerRequest::Block(request) ==> actions@[0] == (SyncAction::<
            T,
        >::DecodeBlockResponse { who: id, request, response }),
        request is State ==> actions@[0] == (SyncAction::<T>::DecodeStateResponse {
            who: id,
            response,
        }),
        request is WarpProof ==> actions@[0] == (SyncAction::<T>::OnWarpSyncData {
            who: id,
            proof: response,
        }),
{
}

/// A response that cannot be decoded has its sender disconnected and pay for a bad
/// message; one that can be is passed on.
pub proof fn lemma_undecodable_responses_cost<T: SyncTypes>(
    helper: &SyncingHelper<T>,
    id: PeerId,
    request: BlockRequest,
    blocks: Option<T::OpaqueBlockResponse>,
    state: Option<T::OpaqueStateResponse>,
    on_blocks: Vec<SyncAction<T>>,
    on_state: Vec<SyncAction<T>>,
)
    requires
        call_ensures(
            SyncingHelper::<T>::block_response_decoded,
            (helper, id, request, blocks),
            on_blocks,
        ),
        call_ensures(
            SyncingHelper::<T>::state_response_decoded,
            (helper, id, state),
            on_state,
        ),
    ensures
        blocks is None ==> disconnects_and_costs(on_blocks@, BadPeer(id, rep::bad_message())),
        state is None ==> disconnects_and_costs(on_state@, BadPeer(id, rep::bad_message())),
        blocks matches Some(response) ==> on_blocks@.len() == 1 && on_blocks@[0] == (SyncAction::<
            T,
        >::BlockResponseIntoBlocks { who: id, request, response }),
        state matches Some(response) ==> on_state@.len() == 1 && on_state@[0] == (SyncAction::<
            T,
        >::OnStateData { who: id, response }),
{
}

/// The blocks of a response are handed over all and unchanged, under the identifier of the
/// request: as a justification where the request asked for nothing but that, and otherwise
/// together with the request. Where there are none for a response, its sender pays.
pub proof fn lemma_blocks_are_handed_over<T: SyncTypes>(
    helper: &SyncingHelper<T>,
    id: PeerId,
    request: BlockRequest,
    blocks: Option<Vec<BlockData>>,
    actions: Vec<SyncAction<T>>,
)
    requires
        call_ensures(
            SyncingHelper::<T>::block_response_blocks,
            (helper, id, request, blocks),
            actions,
        ),
    ensures
        actions@.len() == 1,
        blocks is None ==> actions@[0] == SyncAction::<T>::ReportPeer(id, rep::bad_message()),
        blocks matches Some(blocks) ==> {
            &&& request.fields.bits == 16 ==> (actions@[0] matches SyncAction::OnBlockJustification {
                who,
                response,
            } && who == id && response.id == request.id && response.blocks == blocks)
            &&& request.fields.bits != 16 ==> (actions@[0] matches SyncAction::OnBlockData {
                who,
                request: passed_on,
                response,
            } && who == id && passed_on == Some(request) && response.id == request.id
                && response.blocks == blocks)
        },
{
    assert(BlockAttributes::justification().bits == 16) by {
        assert(0b0001_0000u8 == 16u8);
    }
    assert(request.fields == (BlockAttributes { bits: request.fields.bits }));
}

/// Whoever the chain sync finds bad, in whatever answer, is disconnected and pays what the
/// chain sync says.
pub proof fn lemma_bad_peers_pay<T: SyncTypes>(
    helper: &SyncingHelper<T>,
    bad: BadPeer,
    on_blocks: Vec<SyncAction<T>>,
    on_justification: Vec<SyncAction<T>>,
    on_state: Vec<SyncAction<T>>,
    on_warp_sync: Vec<SyncAction<T>>,
)
    requires
        call_ensures(
            SyncingHelper::<T>::block_data_result,
            (helper, Err::<OnBlockData<T>, _>(bad)),
            on_blocks,
        ),
        call_ensures(
            SyncingHelper::<T>::block_justification_result,
            (helper, Err::<OnBlockJustification<T>, _>(bad)),
            on_justification,
        ),
        call_ensures(
            SyncingHelper::<T>::state_data_result,
            (helper, Err::<OnStateData<T>, _>(bad)),
            on_state,
        ),
        call_ensures(
            SyncingHelper::<T>::warp_sync_data_result,
            (helper, Err::<(), _>(bad)),
            on_warp_sync,
        ),
    ensures
        disconnects_and_costs(on_blocks@, bad),
        disconnects_and_costs(on_justification@, bad),
        disconnects_and_costs(on_state@, bad),
        disconnects_and_costs(on_warp_sync@, bad),
{
}

/// Whether the action requests these blocks of the peer, over the protocol for it where
/// the network service is there.
pub open spec fn requests_blocks<T: SyncTypes>(
    helper: &SyncingHelper<T>,
    action: SyncAction<T>,
    who: PeerId,
    request: BlockRequest,
) -> bool {
    action matches SyncAction::StartBlockRequest {
        who: to,
        request: sent,
        protocol,
        if_disconnected,
    } && {
        &&& to == who
        &&& sent == request
        &&& helper@.has_service ==> protocol == Some(helper@.names.block_request)
        &&& !helper@.has_service ==> protocol is None
        &&& if_disconnected == IfDisconnected::ImmediateError
    }
}

/// What the chain sync wants done is done and nothing else: blocks and justifications are
/// handed to the import queue as it gave them, and its requests are sent.
pub proof fn lemma_wishes_of_the_chain_sync<T: SyncTypes>(
    helper: &SyncingHelper<T>,
    blocks: OnBlockData<T>,
    justification: OnBlockJustification<T>,
    state: OnStateData<T>,
    last: Option<OnBlockData<T>>,
    on_blocks: Vec<SyncAction<T>>,
    on_justification: Vec<SyncAction<T>>,
    on_state: Vec<SyncAction<T>>,
    on_last: Vec<SyncAction<T>>,
    on_warp_sync: Vec<SyncAction<T>>,
)
    requires
        call_ensures(
            SyncingHelper::<T>::block_data_result,
            (helper, Ok::<_, BadPeer>(blocks)),
            on_blocks,
        ),
        call_ensures(
            SyncingHelper::<T>::block_justification_result,
            (helper, Ok::<_, BadPeer>(justification)),
            on_justification,
        ),
        call_ensures(
            SyncingHelper::<T>::state_data_result,
            (helper, Ok::<_, BadPeer>(state)),
            on_state,
        ),
        call_ensures(SyncingHelper::<T>::peer_disconnected_result, (helper, last), on_last),
        call_ensures(
            SyncingHelper::<T>::warp_sync_data_result,
            (helper, Ok::<_, BadPeer>(())),
            on_warp_sync,
        ),
    ensures
        blocks matches OnBlockData::Import(origin, imported) ==> on_blocks@.len() == 1
            && on_blocks@[0] == (SyncAction::<T>::ImportBlocks { origin, blocks: imported }),
        blocks matches OnBlockData::Request(who, request) ==> on_blocks@.len() == 1
            && requests_blocks(helper, on_blocks@[0], who, request),
        blocks is Continue ==> on_blocks@.len() == 0,
        justification is Nothing ==> on_justification@.len() == 0,
        justification matches OnBlockJustification::Import { peer, hash, number, justifications }
            ==> on_justification@.len() == 1 && on_justification@[0] == (SyncAction::<
            T,
        >::ImportJustifications { who: peer, hash, number, justifications }),
        state matches OnStateData::Import(origin, block) ==> on_state@.len() == 1 && (
        on_state@[0] matches SyncAction::ImportBlocks { origin: from, blocks } && from == origin
            && blocks@.len() == 1 && blocks@[0] == block),
        state is Continue ==> on_state@.len() == 0,
        last matches Some(OnBlockData::Import(origin, imported)) ==> on_last@.len() == 1
            && on_last@[0] == (SyncAction::<T>::ImportBlocks { origin, blocks: imported }),
        !(last matches Some(OnBlockData::Import(_, _))) ==> on_last@.len() == 0,
        on_warp_sync@.len() == 0,
{
}

/// The answers on processed blocks are acted on one after the other, in their order: what
/// follows from two lists of them, one after the other, is what follows from the first and
/// then what follows from the second.
pub proof fn lemma_processed_blocks_one_after_the_other<T: SyncTypes>(
    helper: &SyncingHelper<T>,
    first: Vec<Result<(PeerId, BlockRequest), BadPeer>>,
    second: Vec<Result<(PeerId, BlockRequest), BadPeer>>,
    both: Vec<Result<(PeerId, BlockRequest), BadPeer>>,
    on_first: Vec<SyncAction<T>>,
    on_second: Vec<SyncAction<T>>,
    on_both: Vec<SyncAction<T>>,
)
    requires
        both@ == first@ + second@,
        call_ensures(SyncingHelper::<T>::blocks_processed_results, (helper, first), on_first),
        call_ensures(SyncingHelper::<T>::blocks_processed_results, (helper, second), on_second),
        call_ensures(SyncingHelper::<T>::blocks_processed_results, (helper, both), on_both),
    ensures
        on_both@ =~= on_first@ + on_second@,
{
    lemma_processed_of_sum::<T>(helper, first@, second@);
}

/// The same of the sequences.
proof fn lemma_processed_of_sum<T: SyncTypes>(
    helper: &SyncingHelper<T>,
    first: Seq<Result<(PeerId, BlockRequest), BadPeer>>,
    second: Seq<Result<(PeerId, BlockRequest), BadPeer>>,
)
    ensures
        sync_responses::blocks_processed_actions::<T>(helper@, first + second)
            =~= sync_responses::blocks_processed_actions::<T>(helper@, first)
            + sync_responses::blocks_processed_actions::<T>(helper@, second),
    decreases second.len(),
{
    if second.len() == 0 {
        assert(first + second =~= first);
    } else {
        assert((first + second).drop_last() =~= first + second.drop_last());
        assert((first + second).last() == second.last());
        lemma_processed_of_sum::<T>(helper, first, second.drop_last());
    }
}

/// What follows from a single answer on processed blocks: the request that it wants sent,
/// or a bad peer is disconnected and pays. Nothing follows from none.
pub proof fn lemma_processed_blocks_single<T: SyncTypes>(
    helper: &SyncingHelper<T>,
    results: Vec<Result<(PeerId, BlockRequest), BadPeer>>,
    actions: Vec<SyncAction<T>>,
)
    requires
        results@.len() <= 1,
        call_ensures(SyncingHelper::<T>::blocks_processed_results, (helper, results), actions),
    ensures
        results@.len() == 0 ==> actions@.len() == 0,
        results@.len() == 1 ==> match results@[0] {
            Ok((who, request)) => actions@.len() == 1 && requests_blocks(
                helper,
                actions@[0],
                who,
                request,
            ),
            Err(bad) => disconnects_and_costs(actions@, bad),
        },
{
    if results@.len() == 1 {
        assert(results@.drop_last().len() == 0);
        assert(sync_responses::blocks_processed_actions::<T>(
            helper@,
            results@.drop_last(),
        ) =~= Seq::empty());
    }
}

/// Each request that the chain sync wants sent is sent once, to the peer that it names,
/// over the protocol for it where the network service is there: first those for blocks,
/// then that for state, then those for justifications, then that for a warp sync proof,
/// which holds the hash of the block to start at.
pub proof fn lemma_every_request_is_sent<T: SyncTypes>(
    helper: &SyncingHelper<T>,
    blocks: Vec<(PeerId, BlockRequest)>,
    state: Option<(PeerId, T::OpaqueStateRequest)>,
    justifications: Vec<(PeerId, BlockRequest)>,
    warp_sync: Option<(PeerId, BlockHash)>,
    actions: Vec<SyncAction<T>>,
)
    requires
        call_ensures(
            SyncingHelper::<T>::call_chain_sync,
            (helper, blocks, state, justifications, warp_sync),
            actions,
        ),
    ensures
        ({
            let states: int = if state is Some { 1 } else { 0 };
            let proofs: int = if warp_sync is Some { 1 } else { 0 };
            let first = blocks@.len() as int;
            let second = first + states;
            let third = second + justifications@.len();
            &&& actions@.len() == third + proofs
            &&& forall|i: int|
                0 <= i < first ==> requests_blocks(
                    helper,
                    #[trigger] actions@[i],
                    blocks@[i].0,
                    blocks@[i].1,
                )
            &&& state matches Some((who, request)) ==> requests_state(
                helper,
                actions@[first],
                who,
                request,
            )
            &&& forall|i: int|
                second <= i < third ==> requests_blocks(
                    helper,
                    #[trigger] actions@[i],
                    justifications@[i - second].0,
                    justifications@[i - second].1,
                )
            &&& warp_sync matches Some((who, begin)) ==> requests_proof(
                helper,
                actions@[third],
                who,
                begin,
            )
        }),
{
    if warp_sync is Some {
        assert forall|i: int| 0 <= i < actions@.len() - 1 implies #[trigger] actions@[i]
            == actions@.drop_last()[i] by {}
    }
}

/// Whether the action requests this state of the peer, over the protocol for it where the
/// network service is there.
pub open spec fn requests_state<T: SyncTypes>(
    helper: &SyncingHelper<T>,
    action: SyncAction<T>,
    who: PeerId,
    request: T::OpaqueStateRequest,
) -> bool {
    action matches SyncAction::StartStateRequest {
        who: to,
        request: sent,
        protocol,
        if_disconnected,
    } && {
        &&& to == who
        &&& sent == request
        &&& helper@.has_service ==> protocol == Some(helper@.names.state_request)
        &&& !helper@.has_service ==> protocol is None
        &&& if_disconnected == IfDisconnected::ImmediateError
    }
}

/// Whether the action requests a warp sync proof of the peer that starts at the block,
/// over the protocol for it where the network service is there.
pub open spec fn requests_proof<T: SyncTypes>(
    helper: &SyncingHelper<T>,
    action: SyncAction<T>,
    who: PeerId,
    begin: BlockHash,
) -> bool {
    action matches SyncAction::StartWarpSyncRequest {
        who: to,
        request: sent,
        protocol,
        if_disconnected,
    } && {
        &&& to == who
        &&& sent@ == begin@
        &&& helper@.has_service ==> protocol == helper@.names.warp_sync
        &&& !helper@.has_service ==> protocol is None
        &&& if_disconnected == IfDisconnected::ImmediateError
    }
}

/// A request that is prepared is the one that was asked for.
pub proof fn lemma_prepared_requests<T: SyncTypes>(
    helper: &SyncingHelper<T>,
    who: PeerId,
    blocks: BlockRequest,
    state: T::OpaqueStateRequest,
    begin: BlockHash,
    block_request: SyncAction<T>,
    state_request: SyncAction<T>,
    proof_request: SyncAction<T>,
)
    requires
        call_ensures(
            SyncingHelper::<T>::prepare_block_request,
            (helper, who, blocks),
            block_request,
        ),
        call_ensures(
            SyncingHelper::<T>::prepare_state_request,
            (helper, who, state),
            state_request,
        ),
        call_ensures(
            SyncingHelper::<T>::prepare_warp_sync_request,
            (helper, who, begin),
            proof_request,
        ),
    ensures
        requests_blocks(helper, block_request, who, blocks),
        requests_state(helper, state_request, who, state),
        requests_proof(helper, proof_request, who, begin),
{
}

/// What a justification whose import ended came from is disconnected and pays where it did
/// not hold, and the chain sync is told in any case.
pub proof fn lemma_invalid_justifications_cost<T: SyncTypes>(
    helper: &SyncingHelper<T>,
    who: PeerId,
    hash: BlockHash,
    number: BlockNumber,
    success: bool,
    actions: Vec<SyncAction<T>>,
)
    requires
        call_ensures(
            SyncingHelper::<T>::justification_import_result,
            (helper, who, hash, number, success),
            actions,
        ),
    ensures
        actions@.len() > 0,
        actions@[0] == (SyncAction::<T>::OnJustificationImport { hash, number, success }),
        success ==> actions@.len() == 1,
        !success ==> disconnects_and_costs(
            actions@.skip(1),
            BadPeer(who, rep::invalid_justification()),
        ),
{
}

/// A command that asks for something is answered with it, and neither changes the state nor
/// has anything done.
pub proof fn lemma_questions_are_answered<T: SyncTypes>(
    helper: &mut SyncingHelper<T>,
    event: SyncEvent<T>,
    status: ChainSyncStatus,
    header: Option<Header>,
    best_hash: BlockHash,
    step: (Vec<SyncAction<T>>, SyncAnswer),
)
    requires
        call_ensures(
            SyncingHelper::<T>::handle_command,
            (helper, event, status, header, best_hash),
            step,
        ),
        match event {
            SyncEvent::NumConnectedPeers
            | SyncEvent::SyncState
            | SyncEvent::BestSeenBlock
            | SyncEvent::NumSyncPeers
            | SyncEvent::NumQueuedBlocks
            | SyncEvent::NumDownloadedBlocks
            | SyncEvent::NumSyncRequests
            | SyncEvent::GetPeers
            | SyncEvent::GetHandshake(_, _) => true,
            _ => false,
        },
    ensures
        final(helper)@ == old(helper)@,
        step.0@.len() == 0,
        event is NumConnectedPeers ==> (step.1 matches SyncAnswer::NumConnectedPeers(count)
            && count == old(helper)@.peers.dom().len()),
        event is SyncState ==> step.1 == SyncAnswer::SyncState,
        event is BestSeenBlock ==> step.1 == SyncAnswer::BestSeenBlock(status.best_seen_block),
        event is NumSyncPeers ==> step.1 == SyncAnswer::NumSyncPeers(status.num_peers),
        event is NumQueuedBlocks ==> step.1 == SyncAnswer::NumQueuedBlocks(status.queued_blocks),
        event is NumDownloadedBlocks ==> step.1 == SyncAnswer::NumDownloadedBlocks(
            status.num_downloaded_blocks,
        ),
        event is NumSyncRequests ==> step.1 == SyncAnswer::NumSyncRequests(
            status.num_sync_requests,
        ),
        event is GetPeers ==> (step.1 matches SyncAnswer::Peers(peers) && lists_peers(
            old(helper)@,
            peers@,
        )),
        event matches SyncEvent::GetHandshake(hash, number) ==> (step.1 matches
            SyncAnswer::Handshake(bytes) && bytes@ == seq![old(helper)@.roles.bits]
            + scale::u32_le(number) + hash@ + old(helper)@.genesis_hash@),
{
    if event is GetPeers {
        if let SyncAnswer::Peers(peers) = step.1 {
            final(helper).lemma_wf();
            lemma_all_are_listed(old(helper)@, peers@);
        }
    }
}

/// Whether the list holds every connected peer, once, with what is known of it, and nobody
/// else.
pub open spec fn lists_peers(
    state: SyncView,
    peers: Seq<(PeerId, Peer)>,
) -> bool {
    &&& forall|who: PeerId| #[trigger]
        state.peers.contains_key(who) <==> exists|i: int|
            0 <= i < peers.len() && (#[trigger] peers[i]).0 == who
    &&& forall|i: int|
        0 <= i < peers.len() ==> (#[trigger] peers[i]).1.info == state.peers[peers[i].0].info
            && peers[i].1.known_blocks@ == state.peers[peers[i].0].known_blocks
    &&& forall|i: int, j: int|
        #![trigger peers[i], peers[j]]
        0 <= i < j < peers.len() ==> peers[i].0 != peers[j].0
}

/// As many different connected peers as there are connected peers are all of them.
proof fn lemma_all_are_listed(
    state: SyncView,
    peers: Seq<(PeerId, Peer)>,
)
    requires
        peers.len() == state.peers.len(),
        state.peers.dom().finite(),
        forall|i: int, j: int| 0 <= i < j < peers.len() ==> peers[i].0 != peers[j].0,
        forall|i: int|
            0 <= i < peers.len() ==> state.peers.contains_key((#[trigger] peers[i]).0)
                && peers[i].1@ == state.peers[peers[i].0],
    ensures
        lists_peers(state, peers),
{
    let ids = peers.map_values(|peer: (PeerId, Peer)| peer.0);
    assert(ids.no_duplicates());
    ids.unique_seq_to_set();
    assert(ids.to_set().subset_of(state.peers.dom())) by {
        assert forall|who: PeerId| ids.to_set().contains(who) implies state.peers.dom().contains(
            who,
        ) by {
            let i = choose|i: int| 0 <= i < ids.len() && ids[i] == who;
            assert(peers[i].0 == who);
        }
    }
    vstd::set_lib::lemma_subset_equality(ids.to_set(), state.peers.dom());
    assert forall|who: PeerId| #[trigger] state.peers.contains_key(who) implies exists|i: int|
        0 <= i < peers.len() && (#[trigger] peers[i]).0 == who by {
        assert(ids.to_set().contains(who));
        let i = choose|i: int| 0 <= i < ids.len() && ids[i] == who;
        assert(peers[i].0 == who);
    }
}

/// A command that has something done has exactly that done, and does not change the state.
pub proof fn lemma_orders_are_passed_on<T: SyncTypes>(
    helper: &mut SyncingHelper<T>,
    event: SyncEvent<T>,
    status: ChainSyncStatus,
    header: Option<Header>,
    best_hash: BlockHash,
    step: (Vec<SyncAction<T>>, SyncAnswer),
)
    requires
        call_ensures(
            SyncingHelper::<T>::handle_command,
            (helper, event, status, header, best_hash),
            step,
        ),
        match event {
            SyncEvent::UpdateChainInfo(_, _)
            | SyncEvent::OnBlockFinalized(_, _)
            | SyncEvent::RequestJustification(_, _)
            | SyncEvent::ClearJustificationRequests
            | SyncEvent::SetSyncForkRequest(_, _, _)
            | SyncEvent::JustificationImportResult(_, _, _, _)
            | SyncEvent::OnBlocksProcessed(_, _, _) => true,
            _ => false,
        },
    ensures
        final(helper)@ == old(helper)@,
        step.1 == SyncAnswer::Nothing,
        step.0@.len() == if event matches SyncEvent::JustificationImportResult(_, _, _, false) {
            3int
        } else {
            1
        },
        event matches SyncEvent::UpdateChainInfo(hash, number) ==> step.0@[0] == (SyncAction::<
            T,
        >::UpdateChainInfo { hash, number }),
        event matches SyncEvent::OnBlockFinalized(hash, finalized) ==> step.0@[0] == (SyncAction::<
            T,
        >::OnBlockFinalized { hash, number: finalized.number }),
        event matches SyncEvent::RequestJustification(hash, number) ==> step.0@[0]
            == (SyncAction::<T>::RequestJustification { hash, number }),
        event is ClearJustificationRequests ==> step.0@[0] == SyncAction::<
            T,
        >::ClearJustificationRequests,
        event matches SyncEvent::SetSyncForkRequest(peers, hash, number) ==> step.0@[0]
            == (SyncAction::<T>::SetSyncForkRequest { peers, hash, number }),
        event matches SyncEvent::JustificationImportResult(who, hash, number, success) ==> {
            &&& step.0@[0] == (SyncAction::<T>::OnJustificationImport { hash, number, success })
            &&& !success ==> disconnects_and_costs(
                step.0@.skip(1),
                BadPeer(who, rep::invalid_justification()),
            )
        },
        event matches SyncEvent::OnBlocksProcessed(imported, count, results) ==> step.0@[0]
            == (SyncAction::<T>::OnBlocksProcessed { imported, count, results }),
{
}

/// Every node reads our handshake, and finds our roles, our genesis block and the given
/// best block in it.
pub proof fn lemma_our_handshake_is_understood<T: SyncTypes>(
    helper: &SyncingHelper<T>,
    hash: BlockHash,
    number: BlockNumber,
    bytes: Vec<u8>,
    received: &[u8],
    handshake: Option<BlockAnnouncesHandshake>,
)
    requires
        helper.wf(),
        received@ == bytes@,
        call_ensures(SyncingHelper::<T>::get_handshake, (helper, hash, number), bytes),
        call_ensures(BlockAnnouncesHandshake::decode_all, (received,), handshake),
    ensures
        handshake is Some,
        handshake->0.roles == helper@.roles,
        handshake->0.best_number == number,
        handshake->0.best_hash == hash,
        handshake->0.genesis_hash == helper@.genesis_hash,
{
    helper.lemma_wf();
    crate::network::sync_types::lemma_handshake_round_trip(
        BlockAnnouncesHandshake {
            roles: helper@.roles,
            best_number: number,
            best_hash: hash,
            genesis_hash: helper@.genesis_hash,
        },
    );
}

/// A handshake with known roles that was written is read back as it was; what is read is
/// what was written, and nothing is read from bytes of another length or with unknown
/// roles.
pub proof fn lemma_handshakes_are_read_back(
    handshake: &BlockAnnouncesHandshake,
    bytes: Vec<u8>,
    received: &[u8],
    read: Option<BlockAnnouncesHandshake>,
)
    requires
        call_ensures(BlockAnnouncesHandshake::encode, (handshake,), bytes),
        call_ensures(BlockAnnouncesHandshake::decode_all, (received,), read),
    ensures
        received@ == bytes@ && handshake.roles.bits <= 7 ==> read == Some(*handshake),
        read is Some <==> received@.len() == 69 && received@[0] <= 7,
        read is Some ==> {
            &&& received@[0] == read->0.roles.bits
            &&& received@.subrange(1, 5) == scale::u32_le(read->0.best_number)
            &&& received@.subrange(5, 37) == read->0.best_hash@
            &&& received@.subrange(37, 69) == read->0.genesis_hash@
        },
        bytes@.len() == 69,
        bytes@[0] == handshake.roles.bits,
{
    if received@ == bytes@ && handshake.roles.bits <= 7 {
        crate::network::sync_types::lemma_handshake_round_trip(*handshake);
    }
    if read is Some {
        let found = read->0;
        assert(found.is_read_from(received@));
        assert(found.wire() == received@);
        assert(received@.subrange(1, 5) =~= scale::u32_le(found.best_number));
        assert(received@.subrange(5, 37) =~= found.best_hash@);
        assert(received@.subrange(37, 69) =~= found.genesis_hash@);
    }
}

/// The notifications of the block announces protocol come out in their order: those of two
/// lists, one after the other, are those of the first and then those of the second.
pub proof fn lemma_announcements_one_after_the_other<T: SyncTypes>(
    helper: &SyncingHelper<T>,
    first: Vec<(String, Vec<u8>)>,
    second: Vec<(String, Vec<u8>)>,
    both: Vec<(String, Vec<u8>)>,
    of_first: Vec<Vec<u8>>,
    of_second: Vec<Vec<u8>>,
    of_both: Vec<Vec<u8>>,
)
    requires
        both@ == first@ + second@,
        call_ensures(SyncingHelper::<T>::block_announces_messages, (helper, first), of_first),
        call_ensures(SyncingHelper::<T>::block_announces_messages, (helper, second), of_second),
        call_ensures(SyncingHelper::<T>::block_announces_messages, (helper, both), of_both),
    ensures
        of_both@.len() == of_first@.len() + of_second@.len(),
        forall|i: int|
            0 <= i < of_first@.len() ==> (#[trigger] of_first@[i])@ == of_both@[i]@,
        forall|i: int|
            0 <= i < of_second@.len() ==> (#[trigger] of_second@[i])@ == of_both@[of_first@.len()
                + i]@,
{
    lemma_announces_of_sum(helper@, first@, second@);
    let views = sync_responses::contents(of_both@);
    let views_first = sync_responses::contents(of_first@);
    let views_second = sync_responses::contents(of_second@);
    assert(views =~= views_first + views_second);
    assert forall|i: int| 0 <= i < of_first@.len() implies (#[trigger] of_first@[i])@
        == of_both@[i]@ by {
        assert(views_first[i] == views[i]);
    }
    assert forall|i: int| 0 <= i < of_second@.len() implies (#[trigger] of_second@[i])@
        == of_both@[of_first@.len() + i]@ by {
        assert(views_second[i] == views[of_first@.len() + i]);
    }
}

/// The same of the sequences.
proof fn lemma_announces_of_sum(
    state: SyncView,
    first: Seq<(String, Vec<u8>)>,
    second: Seq<(String, Vec<u8>)>,
)
    ensures
        sync_responses::announces_among(state, first + second) =~= sync_responses::announces_among(
            state,
            first,
        ) + sync_responses::announces_among(state, second),
    decreases second.len(),
{
    if second.len() == 0 {
        assert(first + second =~= first);
    } else {
        assert((first + second).drop_last() =~= first + second.drop_last());
        assert((first + second).last() == second.last());
        lemma_announces_of_sum(state, first, second.drop_last());
    }
}

/// A single notification comes out exactly where it is one of the block announces
/// protocol.
pub proof fn lemma_announcement_single<T: SyncTypes>(
    helper: &SyncingHelper<T>,
    messages: Vec<(String, Vec<u8>)>,
    announces: Vec<Vec<u8>>,
)
    requires
        messages@.len() <= 1,
        call_ensures(SyncingHelper::<T>::block_announces_messages, (helper, messages), announces),
    ensures
        messages@.len() == 0 ==> announces@.len() == 0,
        messages@.len() == 1 && messages@[0].0@ != helper@.names.block_announces@
            ==> announces@.len() == 0,
        messages@.len() == 1 && messages@[0].0@ == helper@.names.block_announces@
            ==> announces@.len() == 1 && announces@[0]@ == messages@[0].1@,
{
    let views = sync_responses::contents(announces@);
    assert(views.len() == announces@.len());
    if messages@.len() == 1 {
        assert(messages@.drop_last().len() == 0);
        assert(sync_responses::announces_among(helper@, messages@.drop_last()) =~= Seq::empty());
        if announces@.len() == 1 {
            assert(views[0] == announces@[0]@);
        }
    }
}

/// A new state machine knows no peer and no data and has no network service; all else is
/// as it was given. Its protocol is named after the chain and the fork, and its handshake
/// tells the roles and the best block.
pub proof fn lemma_a_new_state_machine<T: SyncTypes>(
    cache_size: usize,
    protocol_id: &str,
    fork_id: &Option<String>,
    first_hash: BlockHash,
    info: ChainInfo,
    roles: Roles,
    num_full: usize,
    num_light: usize,
    block_request: String,
    state_request: String,
    warp_sync: Option<String>,
    parts: (SyncingHelper<T>, ProtocolConfig),
)
    requires
        call_ensures(
            SyncingHelper::<T>::new,
            (
                cache_size,
                protocol_id,
                fork_id,
                first_hash,
                info,
                roles,
                num_full,
                num_light,
                block_request,
                state_request,
                warp_sync,
            ),
            parts,
        ),
    ensures
        forall|peer: PeerId| !#[trigger] parts.0@.peers.contains_key(peer),
        parts.0@.cache.len() == 0,
        parts.0@.cache_capacity == cache_size,
        parts.0@.genesis_hash == info.genesis_hash,
        parts.0@.roles == roles,
        parts.0@.num_full == num_full,
        parts.0@.num_light == num_light,
        forall|peer: PeerId| !#[trigger] parts.0@.no_slot_peers.contains(peer),
        forall|peer: PeerId| !#[trigger] parts.0@.no_slot_connected_peers.contains(peer),
        !parts.0@.has_service,
        parts.0@.names.block_request == block_request,
        parts.0@.names.state_request == state_request,
        parts.0@.names.warp_sync == warp_sync,
        parts.0@.names.block_announces@ == parts.1.name@,
        fork_id is None ==> parts.1.name@ == "/"@ + hex::hex_of(first_hash@)
            + "/block-announces/1"@,
        fork_id matches Some(fork) ==> parts.1.name@ == "/"@ + hex::hex_of(first_hash@) + "/"@
            + fork@ + "/block-announces/1"@,
        parts.1.fallback_names@.len() == 1,
        parts.1.fallback_names@[0]@ == "/"@ + protocol_id@ + "/block-announces/1"@,
        parts.1.handshake@ == seq![roles.bits] + scale::u32_le(info.best_number) + info.best_hash@
            + info.genesis_hash@,
        parts.1.max_notification_size == 1024 * 1024,
{
}

/// A protocol is the block announces protocol exactly where it has its name.
pub proof fn lemma_the_announces_protocol<T: SyncTypes>(
    helper: &SyncingHelper<T>,
    protocol: &String,
    same: bool,
)
    requires
        call_ensures(SyncingHelper::<T>::is_block_announces, (helper, protocol), same),
    ensures
        same <==> protocol@ == helper@.names.block_announces@,
{
}

/// A notification of the block announces protocol may be as long as an announcement of one
/// mebibyte, and together with transactions sixteen times as long.
pub proof fn lemma_sizes_of_notifications()
    ensures
        MAX_BLOCK_ANNOUNCE_SIZE == 1024 * 1024,
        BLOCK_ANNOUNCES_TRANSACTIONS_SUBSTREAM_SIZE == 16 * 1024 * 1024,
{
}

/// Registering the network service changes nothing else.
pub proof fn lemma_registering_the_service<T: SyncTypes>(helper: &mut SyncingHelper<T>, nothing: ())
    requires
        call_ensures(SyncingHelper::<T>::register_network_service, (helper,), nothing),
    ensures
        final(helper)@.has_service,
        final(helper)@ == (SyncView { has_service: true, ..old(helper)@ }),
{
}

/// A peer is connected exactly where it is listed, and the number of connected peers is
/// the length of the list.
pub proof fn lemma_peers_are_listed_and_counted<T: SyncTypes>(
    helper: &SyncingHelper<T>,
    who: PeerId,
    connected: bool,
    count: usize,
    peers: Vec<(PeerId, Peer)>,
)
    requires
        helper.wf(),
        call_ensures(SyncingHelper::<T>::is_connected, (helper, who), connected),
        call_ensures(SyncingHelper::<T>::num_connected_peers, (helper,), count),
        call_ensures(SyncingHelper::<T>::get_peers, (helper,), peers),
    ensures
        lists_peers(helper@, peers@),
        count == peers@.len(),
        connected <==> exists|i: int| 0 <= i < peers@.len() && (#[trigger] peers@[i]).0 == who,
{
    helper.lemma_wf();
    lemma_all_are_listed(helper@, peers@);
    assert(helper@.peers.contains_key(who) <==> exists|i: int|
        0 <= i < peers@.len() && (#[trigger] peers@[i]).0 == who);
}

/// Whether the number of full nodes that are synced with may be given for a peer: it must
/// not exceed that of the connected peers where that is what decides, which it is for a
/// suitable light client.
pub proof fn lemma_which_counts_can_be<T: SyncTypes>(
    helper: &SyncingHelper<T>,
    who: PeerId,
    bytes: &Vec<u8>,
    legacy: LegacyHandshake,
    status: BlockAnnouncesHandshake,
    best_number: BlockNumber,
    num_sync_peers: usize,
    holds: bool,
)
    requires
        legacy == LegacyHandshake::Status(status) || (legacy == LegacyHandshake::Undecodable
            && status.roles.bits <= 7 && bytes@ == scale::handshake_bytes(
            status.roles.bits,
            status.best_number,
            status.best_hash,
            status.genesis_hash,
        )),
        call_ensures(
            SyncingHelper::<T>::is_count,
            (helper, who, bytes, legacy, best_number, num_sync_peers),
            holds,
        ),
    ensures
        num_sync_peers <= helper@.peers.dom().len() ==> holds,
        !holds ==> sync_calls::is_suitable(helper@, who, status, best_number)
            && !sync_calls::holds_full_chain(status.roles.bits),
        sync_calls::is_suitable(helper@, who, status, best_number) && !sync_calls::holds_full_chain(
            status.roles.bits,
        ) ==> holds == (num_sync_peers <= helper@.peers.dom().len()),
{
    if legacy == LegacyHandshake::Undecodable {
        crate::network::sync_types::lemma_handshake_round_trip(status);
    }
    sync_calls::lemma_holds_full_chain(status.roles.bits);
    sync_calls::lemma_holds_full_chain(helper@.roles.bits);
}

/// The loop goes on asking the chain sync for requests after each command, each end of a
/// request or of a validation, and with the time, and ends with the network alone.
pub proof fn lemma_when_the_loop_asks(event: LoopEvent, step: LoopStep)
    requires
        call_ensures(next_step, (event,), step),
    ensures
        step == LoopStep::Stop <==> event == LoopEvent::NetworkClosed,
        step == LoopStep::AskChainSync <==> event == LoopEvent::Command || event
            == LoopEvent::Response || event == LoopEvent::Tick || event == LoopEvent::Validation,
{
}

/// What each fault costs: a fault that shows that the peer is of no use, or means harm,
/// costs all, and the others the less the more they can be due to chance.
pub proof fn lemma_what_faults_cost()
    ensures
        rep::genesis_mismatch().value == i32::MIN,
        rep::bad_protocol().value == i32::MIN,
        rep::bad_role().value == i32::MIN,
        rep::invalid_justification().value == i32::MIN,
        rep::bad_message().value == -4096,
        rep::bad_block_announcement().value == -4096,
        rep::timeout().value == -1024,
        rep::refused().value == -1024,
        rep::peer_behind_us_light().value == -256,
        rep::genesis_mismatch().reason@ == "Genesis mismatch"@,
        rep::bad_protocol().reason@ == "Unsupported protocol"@,
        rep::bad_role().reason@ == "Unsupported role"@,
        rep::invalid_justification().reason@ == "Invalid justification"@,
        rep::bad_message().reason@ == "Bad message"@,
        rep::bad_block_announcement().reason@ == "Bad block announcement"@,
        rep::timeout().reason@ == "Request timeout"@,
        rep::refused().reason@ == "Request refused"@,
        rep::peer_behind_us_light().reason@ == "Useless for a light peer"@,
{
}

} // verus!
