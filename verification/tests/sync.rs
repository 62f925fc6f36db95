use parity_scale_codec::{Decode, Encode};
use substrate_features::network::config::ProtocolConfig;
use substrate_features::network::known_blocks::LruHashSet;
use substrate_features::network::primitives::{
    BadPeer, BlockAnnounce, BlockAttributes, BlockHash, BlockRequest, BlockState, Direction,
    FromBlock, Header, ReputationChange, Roles,
};
use substrate_features::network::protocol::PeerValidationResult;
use substrate_features::network::sync_helper::SyncingHelper;
use substrate_features::network::sync_loop::{next_step, LoopEvent, LoopStep};
use substrate_features::network::sync_model::{PeerConnected, Refusal};
use substrate_features::network::sync_types::{
    BlockAnnouncesHandshake, Canceled, ChainInfo, ChainSyncStatus, IfDisconnected, LegacyHandshake,
    OnBlockData, OnBlockJustification, OnStateData, OpenStep, OutboundFailure, PeerRequest,
    PollBlockAnnounceValidation, RequestFailure, SyncAction, SyncAnswer, SyncEvent, SyncTypes,
    MAX_BLOCK_ANNOUNCE_SIZE, MAX_KNOWN_BLOCKS,
};

struct Types;

impl SyncTypes for Types {
    type Origin = &'static str;
    type IncomingBlock = u8;
    type Justifications = &'static str;
    type OpaqueBlockResponse = &'static str;
    type OpaqueStateResponse = &'static str;
    type OpaqueStateRequest = &'static str;
    type ImportResults = &'static str;
}

type Helper = SyncingHelper<Types>;
type Action = SyncAction<Types>;

const GENESIS: BlockHash = [7; 32];
const FULL: Roles = Roles { bits: 1 };
const LIGHT: Roles = Roles { bits: 2 };
const AUTHORITY: Roles = Roles { bits: 4 };

fn info() -> ChainInfo {
    ChainInfo { best_number: 20_000, best_hash: [8; 32], genesis_hash: GENESIS }
}

fn create(roles: Roles, num_full: usize, num_light: usize) -> (Helper, ProtocolConfig) {
    SyncingHelper::new(
        2,
        "sup",
        &None,
        GENESIS,
        info(),
        roles,
        num_full,
        num_light,
        "/blocks".to_string(),
        "/state".to_string(),
        Some("/warp".to_string()),
    )
}

fn helper(roles: Roles, num_full: usize, num_light: usize) -> Helper {
    let mut helper = create(roles, num_full, num_light).0;
    helper.register_network_service();
    helper
}

fn handshake(roles: Roles, best_number: u32) -> BlockAnnouncesHandshake {
    BlockAnnouncesHandshake::build(roles, best_number, [9; 32], GENESIS)
}

/// Connects light clients under these numbers.
fn with_peers(peers: &[u64]) -> Helper {
    let mut helper = helper(FULL, 5, 100);
    for peer in peers {
        let outcome = helper.on_sync_peer_connected(*peer, &handshake(LIGHT, 1), 1, 0);
        assert_eq!(outcome, PeerConnected::Accepted);
    }
    helper
}

fn request() -> BlockRequest {
    BlockRequest {
        id: 11,
        fields: BlockAttributes { bits: 3 },
        from: FromBlock::Number(4),
        direction: Direction::Ascending,
        max: Some(2),
    }
}

fn real_header(number: u32) -> sp_runtime::generic::Header<u32, sp_runtime::traits::BlakeTwo256> {
    sp_runtime::generic::Header {
        parent_hash: [1; 32].into(),
        number,
        state_root: [2; 32].into(),
        extrinsics_root: [3; 32].into(),
        digest: sp_runtime::generic::Digest {
            logs: vec![sp_runtime::generic::DigestItem::Other(vec![1, 2])],
        },
    }
}

fn header(number: u32) -> Header {
    Header::decode_all(real_header(number).encode()).unwrap()
}

fn hash_of(number: u32) -> BlockHash {
    sp_runtime::traits::Header::hash(&real_header(number)).0
}

fn disconnects(actions: &[Action], peer: u64) -> bool {
    actions.len() == 1 && matches!(actions[0], SyncAction::DisconnectPeer(id) if id == peer)
}

fn punishes(actions: &[Action], peer: u64, value: i32, reason: &str) -> bool {
    actions.len() == 2
        && matches!(actions[0], SyncAction::DisconnectPeer(id) if id == peer)
        && matches!(&actions[1], SyncAction::ReportPeer(id, change)
            if *id == peer && change.value == value && change.reason == reason)
}

#[test]
fn names_and_handshake_of_the_announces_protocol() {
    let (_, config) = create(AUTHORITY, 1, 1);
    let hex = "07".repeat(32);
    assert_eq!(config.name, format!("/{}/block-announces/1", hex));
    assert_eq!(config.fallback_names, vec!["/sup/block-announces/1".to_string()]);
    assert_eq!(config.max_notification_size, MAX_BLOCK_ANNOUNCE_SIZE);
    assert_eq!(config.max_notification_size, 1024 * 1024);
    assert_eq!(config.handshake, (4u8, 20_000u32, [8u8; 32], GENESIS).encode());
    let mut first: BlockHash = [0; 32];
    first[0] = 0xab;
    first[31] = 0x0f;
    let (helper, config): (Helper, ProtocolConfig) = SyncingHelper::new(
        2,
        "sup",
        &Some("fork".to_string()),
        first,
        info(),
        FULL,
        1,
        1,
        String::new(),
        String::new(),
        None,
    );
    assert_eq!(config.name, format!("/ab{}0f/fork/block-announces/1", "00".repeat(30)));
    assert_ne!(config.name, create(FULL, 1, 1).1.name);
    assert!(helper.is_block_announces(&config.name));
    assert!(!helper.is_block_announces(&config.fallback_names[0]));
}

#[test]
fn handshakes_are_read_back() {
    let status = handshake(AUTHORITY, 0x01020304);
    let bytes = status.encode();
    assert_eq!(bytes.len(), 69);
    assert_eq!(&bytes[..5], &[4, 4, 3, 2, 1]);
    assert_eq!(BlockAnnouncesHandshake::decode_all(&bytes), Some(status));
    assert_eq!(BlockAnnouncesHandshake::decode_all(&bytes[..68]), None);
    let mut longer = bytes.clone();
    longer.push(0);
    assert_eq!(BlockAnnouncesHandshake::decode_all(&longer), None);
    let mut unknown = bytes.clone();
    unknown[0] = 8;
    assert_eq!(BlockAnnouncesHandshake::decode_all(&unknown), None);
    assert_eq!(helper(AUTHORITY, 1, 1).get_handshake([9; 32], 0x01020304), bytes);
}

#[test]
fn the_own_handshake_is_read_by_others() {
    for bits in 0..8 {
        let roles = Roles { bits };
        assert!(roles.is_known());
        let bytes = helper(roles, 1, 1).get_handshake([9; 32], 70);
        assert_eq!(BlockAnnouncesHandshake::decode_all(&bytes), Some(handshake(roles, 70)));
    }
    assert!(!Roles { bits: 8 }.is_known());
    assert!(!Roles { bits: 255 }.is_known());
}

#[test]
fn the_loop_ends_with_the_network() {
    assert_eq!(next_step(LoopEvent::NetworkClosed), LoopStep::Stop);
    assert_eq!(next_step(LoopEvent::Network), LoopStep::Wait);
    assert_eq!(next_step(LoopEvent::CommandsClosed), LoopStep::Wait);
    assert_eq!(next_step(LoopEvent::Command), LoopStep::AskChainSync);
    assert_eq!(next_step(LoopEvent::Response), LoopStep::AskChainSync);
    assert_eq!(next_step(LoopEvent::Tick), LoopStep::AskChainSync);
    assert_eq!(next_step(LoopEvent::Validation), LoopStep::AskChainSync);
}

#[test]
fn headers_are_read() {
    let encoded = real_header(77).encode();
    let header = Header::decode_all(encoded.clone()).unwrap();
    assert_eq!(header.number, 77);
    assert_eq!(header.encoded, encoded);
    assert_eq!(header.hash(), hash_of(77));
    assert!(Header::decode_all(vec![1, 2, 3]).is_none());
    let mut longer = encoded.clone();
    longer.push(0);
    assert!(Header::decode_all(longer).is_none());
}

#[test]
fn a_light_peer_is_accepted() {
    let mut helper = helper(FULL, 0, 1);
    let status = handshake(LIGHT, 1);
    let step =
        helper.custom_protocol_open(3, &status.encode(), LegacyHandshake::Undecodable, 1, 0);
    match step {
        OpenStep::Done(actions) => {
            assert_eq!(actions.len(), 1);
            assert!(matches!(
                actions[0],
                SyncAction::ReportPeerValidationResult(3, PeerValidationResult::Accepted(LIGHT))
            ));
        }
        OpenStep::NewPeer(_) => panic!("not a full node"),
    }
    assert_eq!(helper.num_connected_peers(), 1);
    // There is one slot for light clients.
    let step =
        helper.custom_protocol_open(4, &status.encode(), LegacyHandshake::Undecodable, 1, 0);
    assert!(matches!(step, OpenStep::Done(actions) if disconnects(&actions, 4)));
}

#[test]
fn a_full_peer_is_passed_on() {
    let mut helper = helper(FULL, 2, 0);
    let status = handshake(AUTHORITY, 1);
    let step = helper.custom_protocol_open(3, &vec![], LegacyHandshake::Status(status), 1, 1);
    let status = match step {
        OpenStep::NewPeer(status) => status,
        OpenStep::Done(_) => panic!("a full node"),
    };
    assert_eq!(helper.num_connected_peers(), 0);
    let actions = helper.new_peer_result(3, &status, Ok(Some(request())));
    assert_eq!(helper.num_connected_peers(), 1);
    assert_eq!(actions.len(), 2);
    assert!(matches!(
        &actions[0],
        SyncAction::StartBlockRequest {
            who: 3,
            request,
            protocol: Some(name),
            if_disconnected: IfDisconnected::ImmediateError,
        }
            if request.id == 11 && name == "/blocks"
    ));
    assert!(matches!(
        actions[1],
        SyncAction::ReportPeerValidationResult(3, PeerValidationResult::Accepted(AUTHORITY))
    ));
    // There are two slots for full nodes.
    let outcome = helper.on_sync_peer_connected(4, &status, 1, 2);
    assert_eq!(outcome, PeerConnected::Refused(Refusal::NoFullSlot));
    let outcome = helper.on_sync_peer_connected(4, &status, 1, 1);
    assert_eq!(outcome, PeerConnected::NewPeer);
}

#[test]
fn a_full_peer_can_be_found_bad() {
    let mut helper = helper(FULL, 2, 0);
    let bad = BadPeer(3, ReputationChange { value: -5, reason: "Bad" });
    let actions = helper.new_peer_result(3, &handshake(FULL, 1), Err(bad));
    assert!(punishes(&actions, 3, -5, "Bad"));
    assert_eq!(helper.num_connected_peers(), 0);
    let actions = helper.new_peer_result(3, &handshake(FULL, 1), Ok(None));
    assert_eq!(actions.len(), 1);
    assert_eq!(helper.num_connected_peers(), 1);
}

#[test]
fn peers_are_refused() {
    let mut full = helper(FULL, 5, 5);
    let mut other = handshake(LIGHT, 1);
    other.genesis_hash = [6; 32];
    let step = full.custom_protocol_open(3, &other.encode(), LegacyHandshake::Undecodable, 1, 0);
    assert!(matches!(step, OpenStep::Done(actions)
        if punishes(&actions, 3, i32::MIN, "Genesis mismatch")));
    let status = handshake(LIGHT, 1);
    full.on_sync_peer_connected(3, &status, 1, 0);
    let step = full.custom_protocol_open(3, &status.encode(), LegacyHandshake::Undecodable, 1, 0);
    assert!(matches!(step, OpenStep::Done(actions) if actions.is_empty()));
    let mut light = helper(LIGHT, 5, 5);
    let step = light.custom_protocol_open(3, &status.encode(), LegacyHandshake::Undecodable, 1, 0);
    assert!(matches!(step, OpenStep::Done(actions)
        if punishes(&actions, 3, i32::MIN, "Unsupported role")));
    let far = handshake(FULL, 1_000);
    let step = light.custom_protocol_open(3, &far.encode(), LegacyHandshake::Undecodable, 9_192, 0);
    assert!(matches!(step, OpenStep::Done(actions)
        if punishes(&actions, 3, -256, "Useless for a light peer")));
    let step = light.custom_protocol_open(3, &far.encode(), LegacyHandshake::Undecodable, 9_191, 0);
    assert!(matches!(step, OpenStep::NewPeer(_)));
    let step = light.custom_protocol_open(3, &far.encode(), LegacyHandshake::Undecodable, 0, 0);
    assert!(matches!(step, OpenStep::NewPeer(_)));
    assert_eq!(light.num_connected_peers(), 0);
}

#[test]
fn there_are_no_more_full_nodes_than_peers() {
    let helper = with_peers(&[3]);
    let light = LegacyHandshake::Status(handshake(LIGHT, 1));
    assert!(helper.is_count(4, &vec![], light, 1, 1));
    assert!(!helper.is_count(4, &vec![], light, 1, 2));
    // It does not count where the peer is refused anyway, or is a full node.
    assert!(helper.is_count(3, &vec![], light, 1, 2));
    let full = LegacyHandshake::Status(handshake(FULL, 1));
    assert!(helper.is_count(4, &vec![], full, 1, 2));
    assert!(helper.is_count(4, &vec![], LegacyHandshake::Other, 1, 2));
}

#[test]
fn bad_handshakes_are_reported() {
    let mut helper = helper(FULL, 5, 5);
    let good = handshake(LIGHT, 1).encode();
    for (bytes, legacy) in
        [(good.clone(), LegacyHandshake::Other), (vec![1], LegacyHandshake::Undecodable)]
    {
        let step = helper.custom_protocol_open(3, &bytes, legacy, 1, 0);
        match step {
            OpenStep::Done(actions) => {
                assert_eq!(actions.len(), 1);
                assert!(matches!(&actions[0], SyncAction::ReportPeer(3, change)
                    if change.value == -4096 && change.reason == "Bad message"));
            }
            OpenStep::NewPeer(_) => panic!("not a handshake"),
        }
    }
    assert_eq!(helper.num_connected_peers(), 0);
}

#[test]
fn nothing_is_reported_without_the_network_service() {
    let (mut helper, _) = create(FULL, 5, 5);
    let status = handshake(LIGHT, 1);
    let step = helper.custom_protocol_open(3, &status.encode(), LegacyHandshake::Undecodable, 1, 0);
    assert!(matches!(step, OpenStep::Done(actions) if actions.is_empty()));
    assert_eq!(helper.num_connected_peers(), 1);
    let action = helper.prepare_block_request(3, request());
    assert!(matches!(action, SyncAction::StartBlockRequest { who: 3, protocol: None, .. }));
    let action = helper.prepare_state_request(3, "state");
    assert!(matches!(
        action,
        SyncAction::StartStateRequest { who: 3, request: "state", protocol: None, .. }
    ));
    let action = helper.prepare_warp_sync_request(3, [4; 32]);
    assert!(matches!(action, SyncAction::StartWarpSyncRequest { who: 3, protocol: None, .. }));
    assert!(helper.announce_block([5; 32], None, Some(header(3)), [5; 32]).is_empty());
}

#[test]
fn peers_disconnect() {
    let mut helper = with_peers(&[3, 4]);
    let actions = helper.custom_protocol_close(3);
    assert_eq!(actions.len(), 2);
    assert!(matches!(actions[0], SyncAction::PeerDisconnected(3)));
    assert!(matches!(actions[1], SyncAction::DisconnectSyncPeer(3)));
    assert!(helper.custom_protocol_close(3).is_empty());
    assert_eq!(helper.num_connected_peers(), 1);
    assert!(helper.on_sync_peer_disconnected(3).is_err());
    assert!(helper.on_sync_peer_disconnected(4).is_ok());
    assert_eq!(helper.num_connected_peers(), 0);
    let actions = helper.peer_disconnected_result(Some(OnBlockData::Import("gap", vec![1, 2])));
    assert_eq!(actions.len(), 1);
    assert!(matches!(&actions[0], SyncAction::ImportBlocks { origin: "gap", blocks }
        if *blocks == vec![1, 2]));
    assert!(helper.peer_disconnected_result(Some(OnBlockData::Continue)).is_empty());
    assert!(helper.peer_disconnected_result(Some(OnBlockData::Request(1, request()))).is_empty());
    assert!(helper.peer_disconnected_result(None).is_empty());
    // It may come back.
    let outcome = helper.on_sync_peer_connected(3, &handshake(LIGHT, 1), 1, 0);
    assert_eq!(outcome, PeerConnected::Accepted);
}

#[test]
fn only_the_announces_protocol_counts() {
    let mut helper = with_peers(&[3]);
    let name = format!("/{}/block-announces/1", "07".repeat(32));
    assert!(helper.on_stream_closed(3, &"/other".to_string()).is_empty());
    assert_eq!(helper.num_connected_peers(), 1);
    let messages = vec![
        (name.clone(), vec![1]),
        ("/other".to_string(), vec![2]),
        (name.clone(), vec![3]),
    ];
    assert_eq!(helper.block_announces_messages(messages), vec![vec![1], vec![3]]);
    let others = vec![("/other".to_string(), vec![2]), ("/more".to_string(), vec![4])];
    assert!(helper.block_announces_messages(others).is_empty());
    assert_eq!(helper.on_stream_closed(3, &name).len(), 2);
    assert_eq!(helper.num_connected_peers(), 0);
}

#[test]
fn a_block_is_announced_once() {
    let mut helper = with_peers(&[3, 4, 5]);
    let hash = hash_of(9);
    let actions = helper.announce_block(hash, Some(vec![6, 6]), Some(header(9)), [0; 32]);
    assert_eq!(actions.len(), 1);
    match &actions[0] {
        SyncAction::WriteBatchSyncNotification { peers, message } => {
            let mut peers = peers.clone();
            peers.sort();
            assert_eq!(peers, vec![3, 4, 5]);
            let announce = sc_network_common::sync::message::BlockAnnounce {
                header: real_header(9),
                state: Some(sc_network_common::sync::message::BlockState::Normal),
                data: Some(vec![6, 6]),
            };
            assert_eq!(*message, announce.encode());
        }
        _ => panic!("unexpected action"),
    }
    assert!(helper.announce_block(hash, None, Some(header(9)), hash).is_empty());
    let other = Some(vec![7; 1000]);
    assert!(helper.announce_block(hash, other.clone(), Some(header(9)), hash).is_empty());
    // Nor is it once a peer has gone.
    helper.custom_protocol_close(4);
    assert!(helper.announce_block(hash, other, Some(header(9)), hash).is_empty());
    // A new peer does not know it yet.
    helper.on_sync_peer_connected(6, &handshake(LIGHT, 1), 1, 0);
    let actions = helper.announce_block(hash, None, Some(header(9)), hash);
    match &actions[0] {
        SyncAction::WriteBatchSyncNotification { peers, message } => {
            assert_eq!(*peers, vec![6]);
            let announce = sc_network_common::sync::message::BlockAnnounce {
                header: real_header(9),
                state: Some(sc_network_common::sync::message::BlockState::Best),
                data: Some(vec![]),
            };
            assert_eq!(*message, announce.encode());
        }
        _ => panic!("unexpected action"),
    }
}

#[test]
fn some_blocks_are_not_announced() {
    let mut helper = with_peers(&[3]);
    assert!(helper.announce_block([1; 32], None, None, [1; 32]).is_empty());
    assert!(helper.announce_block([1; 32], None, Some(header(0)), [1; 32]).is_empty());
    let data = Some(vec![7; 1000]);
    assert!(helper.announce_block([1; 32], data.clone(), None, [1; 32]).is_empty());
    assert!(helper.announce_block([1; 32], data, Some(header(0)), [1; 32]).is_empty());
    // None of these made the peer know the block.
    assert_eq!(helper.announce_block([1; 32], None, Some(header(1)), [1; 32]).len(), 1);
    let mut empty = with_peers(&[]);
    assert!(empty.announce_block([1; 32], None, Some(header(1)), [1; 32]).is_empty());
}

#[test]
fn a_peer_does_not_get_its_own_announcement() {
    let mut helper = with_peers(&[3, 4]);
    let announce = BlockAnnounce { header: header(9), state: None, data: None };
    // A light client's announcement is not validated.
    assert!(helper.push_block_announce_validation(3, announce).is_empty());
    let actions = helper.announce_block(hash_of(9), None, Some(header(9)), [0; 32]);
    assert!(matches!(&actions[0], SyncAction::WriteBatchSyncNotification { peers, .. }
        if *peers == vec![4]));
}

#[test]
fn announcements_are_validated() {
    let mut helper = helper(FULL, 5, 5);
    helper.new_peer_result(3, &handshake(FULL, 1), Ok(None));
    for (state, data, is_best) in [
        (None, None, true),
        (Some(sc_network_common::sync::message::BlockState::Best), None, true),
        (Some(sc_network_common::sync::message::BlockState::Normal), Some(vec![4, 5]), false),
    ] {
        let message = sc_network_common::sync::message::BlockAnnounce {
            header: real_header(9),
            state,
            data: data.clone(),
        }
        .encode();
        let actions = helper.notification(3, &message);
        assert_eq!(actions.len(), 2);
        match &actions[0] {
            SyncAction::PushBlockAnnounceValidation { who, hash, announce, is_best: best } => {
                assert_eq!((*who, *hash, *best), (3, hash_of(9), is_best));
                assert_eq!(announce.header.number, 9);
                assert_eq!(announce.header.encoded, real_header(9).encode());
                assert_eq!(announce.data, data);
                assert_eq!(announce.state.is_some(), state.is_some());
            }
            _ => panic!("unexpected action"),
        }
        assert!(matches!(actions[1], SyncAction::PollBlockAnnounceValidation));
    }
    assert!(helper.notification(3, &vec![1, 2]).is_empty());
    assert!(helper.notification(4, &real_header(9).encode()).is_empty());
}

#[test]
fn what_one_node_announces_another_one_reads() {
    let mut sender = with_peers(&[3]);
    let actions = sender.announce_block(hash_of(9), Some(vec![1; 100]), Some(header(9)), hash_of(9));
    let message = match &actions[0] {
        SyncAction::WriteBatchSyncNotification { message, .. } => message.clone(),
        _ => panic!("unexpected action"),
    };
    let mut receiver = helper(FULL, 5, 5);
    receiver.new_peer_result(8, &handshake(FULL, 1), Ok(None));
    let actions = receiver.notification(8, &message);
    match &actions[0] {
        SyncAction::PushBlockAnnounceValidation { hash, announce, is_best, .. } => {
            assert_eq!((*hash, *is_best), (hash_of(9), true));
            assert_eq!(announce.state, Some(BlockState::Best));
            assert_eq!(announce.data, Some(vec![1; 100]));
            assert_eq!(announce.header.encoded, header(9).encoded);
        }
        _ => panic!("unexpected action"),
    }
    // The handshake of one is good for the other.
    let status = sender.get_handshake([1; 32], 5);
    let step = receiver.custom_protocol_open(9, &status, LegacyHandshake::Undecodable, 5, 1);
    assert!(matches!(step, OpenStep::NewPeer(_)));
}

#[test]
fn the_data_of_an_announcement_is_passed_on() {
    let mut helper = with_peers(&[3]);
    let announce = BlockAnnounce { header: header(9), state: None, data: Some(vec![1, 2]) };
    let result = PollBlockAnnounceValidation::Nothing { is_best: true, who: 3, announce };
    assert!(helper.process_block_announce_validation_result(result).is_empty());
    let actions = helper.announce_block(hash_of(9), None, Some(header(9)), [0; 32]);
    match &actions[0] {
        SyncAction::WriteBatchSyncNotification { message, .. } => {
            let announce = sc_network_common::sync::message::BlockAnnounce::<
                sp_runtime::generic::Header<u32, sp_runtime::traits::BlakeTwo256>,
            >::decode(&mut &message[..])
            .unwrap();
            assert_eq!(announce.data, Some(vec![1, 2]));
        }
        _ => panic!("unexpected action"),
    }
}

fn announced_data(helper: &mut Helper, number: u32) -> Vec<u8> {
    helper.on_sync_peer_connected(1_000 + number as u64, &handshake(LIGHT, 1), 1, 0);
    let actions = helper.announce_block(hash_of(number), None, Some(header(number)), [0; 32]);
    match &actions[0] {
        SyncAction::WriteBatchSyncNotification { message, .. } => {
            sc_network_common::sync::message::BlockAnnounce::<
                sp_runtime::generic::Header<u32, sp_runtime::traits::BlakeTwo256>,
            >::decode(&mut &message[..])
            .unwrap()
            .data
            .unwrap()
        }
        _ => panic!("unexpected action"),
    }
}

fn store(helper: &mut Helper, number: u32, data: Option<Vec<u8>>) {
    let announce = BlockAnnounce { header: header(number), state: None, data };
    let result = PollBlockAnnounceValidation::Nothing { is_best: true, who: 3, announce };
    assert!(helper.process_block_announce_validation_result(result).is_empty());
}

#[test]
fn the_data_used_longest_ago_is_forgotten() {
    // The cache has room for two entries.
    let mut helper = with_peers(&[]);
    store(&mut helper, 1, Some(vec![1]));
    store(&mut helper, 2, Some(vec![2]));
    assert_eq!(announced_data(&mut helper, 1), vec![1]);
    store(&mut helper, 3, Some(vec![3]));
    assert_eq!(announced_data(&mut helper, 2), Vec::<u8>::new());
    helper.on_sync_peer_disconnected(1_001).unwrap();
    assert_eq!(announced_data(&mut helper, 1), vec![1]);
    assert_eq!(announced_data(&mut helper, 3), vec![3]);
    // Empty data does not replace what is stored, new data does.
    store(&mut helper, 3, Some(vec![]));
    store(&mut helper, 3, None);
    helper.on_sync_peer_disconnected(1_003).unwrap();
    assert_eq!(announced_data(&mut helper, 3), vec![3]);
    store(&mut helper, 3, Some(vec![4]));
    helper.on_sync_peer_disconnected(1_003).unwrap();
    assert_eq!(announced_data(&mut helper, 3), vec![4]);
}

#[test]
fn validations_end() {
    let mut helper = with_peers(&[3]);
    let skip = PollBlockAnnounceValidation::Skip;
    assert!(helper.process_block_announce_validation_result(skip).is_empty());
    let failure = PollBlockAnnounceValidation::Failure { who: 3, disconnect: true };
    let actions = helper.process_block_announce_validation_result(failure);
    assert!(punishes(&actions, 3, -4096, "Bad block announcement"));
    let failure = PollBlockAnnounceValidation::Failure { who: 3, disconnect: false };
    let actions = helper.process_block_announce_validation_result(failure);
    assert_eq!(actions.len(), 1);
    assert!(matches!(actions[0], SyncAction::ReportPeer(3, _)));
    let announce = BlockAnnounce { header: header(9), state: None, data: None };
    let import = PollBlockAnnounceValidation::ImportHeader { is_best: true, who: 3, announce };
    let actions = helper.process_block_announce_validation_result(import);
    assert_eq!(actions.len(), 1);
    match &actions[0] {
        SyncAction::OnBlockData { who, request, response } => {
            assert_eq!(*who, 3);
            assert!(request.is_none());
            assert_eq!(response.id, 0);
            assert_eq!(response.blocks.len(), 1);
            let block = &response.blocks[0];
            assert_eq!(block.hash, hash_of(9));
            assert_eq!(block.header.as_ref().unwrap().encoded, header(9).encoded);
            assert!(block.body.is_none() && block.justifications.is_none());
        }
        _ => panic!("unexpected action"),
    }
}

#[test]
fn ends_of_requests() {
    let helper = helper(FULL, 5, 5);
    let block = PeerRequest::Block(request());
    let actions = helper.handle_pending_response(3, block, Ok(Ok(vec![1])));
    assert!(matches!(&actions[0], SyncAction::DecodeBlockResponse { who: 3, response, .. }
        if *response == vec![1]));
    let actions = helper.handle_pending_response(3, PeerRequest::State, Ok(Ok(vec![2])));
    assert!(matches!(&actions[0], SyncAction::DecodeStateResponse { who: 3, response }
        if *response == vec![2]));
    let actions = helper.handle_pending_response(3, PeerRequest::WarpProof, Ok(Ok(vec![3])));
    assert!(matches!(&actions[0], SyncAction::OnWarpSyncData { who: 3, proof }
        if *proof == vec![3]));
    let fail = |failure| helper.handle_pending_response(3, block, Ok(Err(failure)));
    let network = RequestFailure::Network;
    assert!(punishes(&fail(network(OutboundFailure::Timeout)), 3, -1024, "Request timeout"));
    let actions = fail(network(OutboundFailure::UnsupportedProtocols));
    assert!(punishes(&actions, 3, i32::MIN, "Unsupported protocol"));
    assert!(disconnects(&fail(network(OutboundFailure::DialFailure)), 3));
    assert!(disconnects(&fail(network(OutboundFailure::ConnectionClosed)), 3));
    assert!(disconnects(&fail(RequestFailure::NotConnected), 3));
    assert!(punishes(&fail(RequestFailure::Refused), 3, -1024, "Request refused"));
    assert!(fail(RequestFailure::UnknownProtocol).is_empty());
    assert!(fail(RequestFailure::Obsolete).is_empty());
    assert!(disconnects(&helper.handle_pending_response(3, block, Err(Canceled)), 3));
}

#[test]
fn responses_are_decoded() {
    let helper = helper(FULL, 5, 5);
    let actions = helper.block_response_decoded(3, request(), Some("blocks"));
    assert!(matches!(
        actions[0],
        SyncAction::BlockResponseIntoBlocks { who: 3, response: "blocks", .. }
    ));
    let actions = helper.block_response_decoded(3, request(), None);
    assert!(punishes(&actions, 3, -4096, "Bad message"));
    let actions = helper.state_response_decoded(3, Some("state"));
    assert!(matches!(actions[0], SyncAction::OnStateData { who: 3, response: "state" }));
    assert!(punishes(&helper.state_response_decoded(3, None), 3, -4096, "Bad message"));
    let actions = helper.block_response_blocks(3, request(), None);
    assert_eq!(actions.len(), 1);
    assert!(matches!(actions[0], SyncAction::ReportPeer(3, _)));
    let actions = helper.block_response_blocks(3, request(), Some(vec![]));
    assert!(matches!(&actions[0], SyncAction::OnBlockData { who: 3, request: Some(_), response }
        if response.id == 11));
    let mut justification = request();
    justification.fields = BlockAttributes { bits: 16 };
    let actions = helper.block_response_blocks(3, justification, Some(vec![]));
    assert!(matches!(&actions[0], SyncAction::OnBlockJustification { who: 3, response }
        if response.id == 11));
    // Only a request for justifications alone is one.
    justification.fields = BlockAttributes { bits: 17 };
    let actions = helper.block_response_blocks(3, justification, Some(vec![]));
    assert!(matches!(actions[0], SyncAction::OnBlockData { .. }));
}

#[test]
fn answers_of_the_chain_sync() {
    let helper = helper(FULL, 5, 5);
    let bad = BadPeer(4, ReputationChange { value: -5, reason: "Bad" });
    let actions = helper.block_data_result(Ok(OnBlockData::Import("network", vec![1])));
    assert!(matches!(&actions[0], SyncAction::ImportBlocks { origin: "network", blocks }
        if *blocks == vec![1]));
    let actions = helper.block_data_result(Ok(OnBlockData::Request(4, request())));
    assert!(matches!(actions[0], SyncAction::StartBlockRequest { who: 4, .. }));
    assert!(helper.block_data_result(Ok(OnBlockData::Continue)).is_empty());
    assert!(punishes(&helper.block_data_result(Err(bad)), 4, -5, "Bad"));
    let import = OnBlockJustification::Import {
        peer: 4,
        hash: [1; 32],
        number: 2,
        justifications: "good",
    };
    let actions = helper.block_justification_result(Ok(import));
    assert!(matches!(
        actions[0],
        SyncAction::ImportJustifications { who: 4, number: 2, justifications: "good", .. }
    ));
    assert!(helper.block_justification_result(Ok(OnBlockJustification::Nothing)).is_empty());
    assert!(punishes(&helper.block_justification_result(Err(bad)), 4, -5, "Bad"));
    let actions = helper.state_data_result(Ok(OnStateData::Import("network", 7)));
    assert!(matches!(&actions[0], SyncAction::ImportBlocks { origin: "network", blocks }
        if *blocks == vec![7]));
    assert!(helper.state_data_result(Ok(OnStateData::Continue)).is_empty());
    assert!(punishes(&helper.state_data_result(Err(bad)), 4, -5, "Bad"));
    assert!(helper.warp_sync_data_result(Ok(())).is_empty());
    assert!(punishes(&helper.warp_sync_data_result(Err(bad)), 4, -5, "Bad"));
    let actions =
        helper.blocks_processed_results(vec![Ok((1, request())), Err(bad), Ok((2, request()))]);
    assert_eq!(actions.len(), 4);
    assert!(matches!(actions[0], SyncAction::StartBlockRequest { who: 1, .. }));
    assert!(punishes(&actions[1..3], 4, -5, "Bad"));
    assert!(matches!(actions[3], SyncAction::StartBlockRequest { who: 2, .. }));
}

#[test]
fn requests_of_the_chain_sync() {
    let helper = helper(FULL, 5, 5);
    let actions = helper.call_chain_sync(
        vec![(1, request()), (2, request())],
        Some((3, "state")),
        vec![(4, request())],
        Some((5, [6; 32])),
    );
    assert_eq!(actions.len(), 5);
    assert!(matches!(actions[0], SyncAction::StartBlockRequest { who: 1, .. }));
    assert!(matches!(actions[1], SyncAction::StartBlockRequest { who: 2, .. }));
    assert!(matches!(
        &actions[2],
        SyncAction::StartStateRequest { who: 3, request: "state", protocol, if_disconnected }
            if protocol.as_deref() == Some("/state")
                && *if_disconnected == IfDisconnected::ImmediateError
    ));
    assert!(matches!(actions[3], SyncAction::StartBlockRequest { who: 4, .. }));
    assert!(matches!(
        &actions[4],
        SyncAction::StartWarpSyncRequest { who: 5, request, protocol, if_disconnected }
            if *request == vec![6; 32]
                && protocol.as_deref() == Some("/warp")
                && *if_disconnected == IfDisconnected::ImmediateError
    ));
    assert!(helper.call_chain_sync(vec![], None, vec![], None).is_empty());
}

#[test]
fn commands() {
    let mut helper = with_peers(&[3, 4]);
    let status = ChainSyncStatus {
        best_seen_block: Some(1),
        num_peers: 2,
        queued_blocks: 3,
        num_downloaded_blocks: 4,
        num_sync_requests: 5,
    };
    let mut ask = |event| {
        let (actions, answer) = helper.handle_command(event, status, Some(header(9)), [0; 32]);
        (actions, answer)
    };
    assert!(matches!(ask(SyncEvent::NumConnectedPeers).1, SyncAnswer::NumConnectedPeers(2)));
    assert!(matches!(ask(SyncEvent::SyncState).1, SyncAnswer::SyncState));
    assert!(matches!(ask(SyncEvent::BestSeenBlock).1, SyncAnswer::BestSeenBlock(Some(1))));
    assert!(matches!(ask(SyncEvent::NumSyncPeers).1, SyncAnswer::NumSyncPeers(2)));
    assert!(matches!(ask(SyncEvent::NumQueuedBlocks).1, SyncAnswer::NumQueuedBlocks(3)));
    assert!(matches!(ask(SyncEvent::NumDownloadedBlocks).1, SyncAnswer::NumDownloadedBlocks(4)));
    assert!(matches!(ask(SyncEvent::NumSyncRequests).1, SyncAnswer::NumSyncRequests(5)));
    assert!(matches!(
        ask(SyncEvent::UpdateChainInfo([1; 32], 2)).0[0],
        SyncAction::UpdateChainInfo { number: 2, .. }
    ));
    assert!(matches!(
        ask(SyncEvent::OnBlockFinalized([1; 32], header(7))).0[0],
        SyncAction::OnBlockFinalized { number: 7, .. }
    ));
    assert!(matches!(
        ask(SyncEvent::RequestJustification([1; 32], 2)).0[0],
        SyncAction::RequestJustification { number: 2, .. }
    ));
    assert!(matches!(
        ask(SyncEvent::ClearJustificationRequests).0[0],
        SyncAction::ClearJustificationRequests
    ));
    assert!(matches!(
        &ask(SyncEvent::SetSyncForkRequest(vec![3], [1; 32], 2)).0[0],
        SyncAction::SetSyncForkRequest { peers, number: 2, .. } if *peers == vec![3]
    ));
    let (actions, answer) = ask(SyncEvent::JustificationImportResult(3, [1; 32], 2, true));
    assert!(matches!(answer, SyncAnswer::Nothing));
    assert_eq!(actions.len(), 1);
    let actions = ask(SyncEvent::JustificationImportResult(3, [1; 32], 2, false)).0;
    assert!(matches!(
        actions[0],
        SyncAction::OnJustificationImport { number: 2, success: false, .. }
    ));
    assert!(punishes(&actions[1..], 3, i32::MIN, "Invalid justification"));
    assert!(matches!(
        ask(SyncEvent::OnBlocksProcessed(1, 2, "results")).0[0],
        SyncAction::OnBlocksProcessed { imported: 1, count: 2, results: "results" }
    ));
    match ask(SyncEvent::GetPeers).1 {
        SyncAnswer::Peers(peers) => {
            let mut ids: Vec<u64> = peers.iter().map(|(id, _)| *id).collect();
            ids.sort();
            assert_eq!(ids, vec![3, 4]);
            assert_eq!(peers[0].1.info.best_number, 1);
        }
        _ => panic!("unexpected answer"),
    }
    match ask(SyncEvent::GetHandshake([2; 32], 6)).1 {
        SyncAnswer::Handshake(bytes) => {
            assert_eq!(bytes, (1u8, 6u32, [2u8; 32], GENESIS).encode());
        }
        _ => panic!("unexpected answer"),
    }
    let (actions, answer) = ask(SyncEvent::AnnounceBlock(hash_of(9), None));
    assert!(matches!(answer, SyncAnswer::Announced));
    assert!(matches!(actions[0], SyncAction::WriteBatchSyncNotification { .. }));
}

#[test]
fn known_blocks_are_limited() {
    let mut known = LruHashSet::new(3);
    assert!(known.insert([1; 32]));
    assert!(known.insert([2; 32]));
    assert!(!known.insert([1; 32]));
    // The oldest one is the second one by now.
    assert!(known.insert([3; 32]));
    assert!(!known.insert([1; 32]));
    assert!(known.insert([2; 32]));
    assert_eq!(MAX_KNOWN_BLOCKS, 1024);
}
