use std::collections::HashSet;
use substrate_features::network::config::{
    MultiaddrWithPeerId, NetworkConfiguration, NonDefaultSetConfig, NonReservedPeerMode,
    PeersetSetConfig, ProtocolConfig, SetConfig,
};
use substrate_features::network::primitives::{ReputationChange, Roles};
use substrate_features::network::protocol::{
    CustomMessageOutcome, NotificationsOut, PeerValidationResult, Protocol, ProtocolAction,
};
use substrate_features::network::rep;

const ANNOUNCES: &str = "/announces/1";
const FIRST: &str = "/first/1";
const SECOND: &str = "/second/1";

fn node(peer_id: u64, multiaddr: Vec<u8>) -> MultiaddrWithPeerId {
    MultiaddrWithPeerId { peer_id, multiaddr }
}

fn extra_set(name: &str, reserved_nodes: Vec<MultiaddrWithPeerId>) -> NonDefaultSetConfig {
    NonDefaultSetConfig {
        notifications_protocol: name.to_string(),
        fallback_names: vec![format!("{}/old", name)],
        max_notification_size: 77,
        set_config: SetConfig {
            in_peers: 3,
            out_peers: 4,
            reserved_nodes,
            non_reserved_mode: NonReservedPeerMode::Deny,
        },
    }
}

fn configuration() -> NetworkConfiguration {
    NetworkConfiguration {
        boot_nodes: vec![node(1, vec![1]), node(2, vec![2]), node(1, vec![3])],
        default_peers_set: SetConfig {
            in_peers: 25,
            out_peers: 8,
            reserved_nodes: vec![node(5, vec![9, 9]), node(6, vec![])],
            non_reserved_mode: NonReservedPeerMode::Accept,
        },
        extra_sets: vec![
            extra_set(FIRST, vec![node(7, vec![]), node(5, vec![4])]),
            extra_set(SECOND, vec![]),
        ],
    }
}

fn sync_config() -> ProtocolConfig {
    ProtocolConfig {
        name: ANNOUNCES.to_string(),
        fallback_names: vec!["/old-announces".to_string()],
        handshake: vec![1, 2, 3],
        max_notification_size: 1024,
    }
}

type Parts = (Protocol<u32>, Vec<PeersetSetConfig>, Vec<ProtocolConfig>, Vec<(u64, Vec<u8>)>);

fn parts() -> Parts {
    Protocol::new(
        Roles { bits: 1 },
        &configuration(),
        vec![vec![10], vec![20]],
        sync_config(),
    )
}

fn protocol() -> Protocol<u32> {
    parts().0
}

fn open(
    protocol: &mut Protocol<u32>,
    peer_id: u64,
    set_id: usize,
    handshake: Vec<u8>,
) -> (Vec<ProtocolAction>, Option<CustomMessageOutcome<u32>>) {
    protocol.poll(NotificationsOut::CustomProtocolOpen {
        peer_id,
        set_id,
        received_handshake: handshake,
        notifications_sink: 42,
        negotiated_fallback: None,
    })
}

fn notify(
    protocol: &mut Protocol<u32>,
    peer_id: u64,
    set_id: usize,
    message: Vec<u8>,
) -> (Vec<ProtocolAction>, Option<CustomMessageOutcome<u32>>) {
    protocol.poll(NotificationsOut::Notification { peer_id, set_id, message })
}

fn is_message(outcome: &Option<CustomMessageOutcome<u32>>, from: u64, name: &str, text: &[u8]) -> bool {
    match outcome {
        Some(CustomMessageOutcome::NotificationsReceived { remote, messages }) => {
            *remote == from && messages.len() == 1 && messages[0].0 == name && messages[0].1 == text
        }
        _ => false,
    }
}

#[test]
fn new_splits_the_configuration() {
    let (_, sets, protocols, addresses) = parts();
    assert_eq!(sets.len(), 3);
    assert_eq!(sets[0].in_peers, 25);
    assert_eq!(sets[0].out_peers, 8);
    assert_eq!(sets[0].bootnodes, vec![1, 2, 1]);
    assert_eq!(sets[0].reserved_nodes, HashSet::from([5, 6]));
    assert!(!sets[0].reserved_only);
    assert_eq!(sets[1].bootnodes, Vec::<u64>::new());
    assert_eq!(sets[1].reserved_nodes, HashSet::from([7, 5]));
    assert!(sets[1].reserved_only);
    assert_eq!(sets[2].reserved_nodes.len(), 0);
    assert_eq!(protocols.len(), 3);
    assert_eq!(protocols[0].name, ANNOUNCES);
    assert_eq!(protocols[0].handshake, vec![1, 2, 3]);
    assert_eq!(protocols[1].name, FIRST);
    assert_eq!(protocols[1].fallback_names, vec!["/first/1/old".to_string()]);
    assert_eq!(protocols[1].handshake, vec![10]);
    assert_eq!(protocols[1].max_notification_size, 77);
    assert_eq!(protocols[2].name, SECOND);
    assert_eq!(protocols[2].handshake, vec![20]);
    // The default set makes known only nodes with an address, the others all of them.
    assert_eq!(addresses, vec![(5, vec![9, 9]), (7, vec![]), (5, vec![4])]);
}

#[test]
fn protocols_without_a_handshake_are_left_out() {
    let parts: Parts =
        Protocol::new(Roles { bits: 1 }, &configuration(), vec![vec![10]], sync_config());
    assert_eq!(parts.2.len(), 2);
}

#[test]
fn a_sync_peer_waits_for_validation() {
    let mut protocol = protocol();
    let (actions, outcome) = open(&mut protocol, 9, 0, vec![8, 8]);
    assert!(actions.is_empty());
    match outcome {
        Some(CustomMessageOutcome::PeerConnected { peer_id, received_handshake, .. }) => {
            assert_eq!(peer_id, 9);
            assert_eq!(received_handshake, vec![8, 8]);
        }
        other => panic!("unexpected {:?}", other),
    }
    assert!(notify(&mut protocol, 9, 0, vec![1]).1.is_none());
    assert!(notify(&mut protocol, 9, 0, vec![2]).1.is_none());
    protocol.report_peer_validation_result(9, PeerValidationResult::Accepted(Roles { bits: 4 }));
    assert!(matches!(protocol.poll_pending(), Some(CustomMessageOutcome::SyncConnected(9))));
    assert!(is_message(&protocol.poll_pending(), 9, ANNOUNCES, &[1]));
    assert!(is_message(&protocol.poll_pending(), 9, ANNOUNCES, &[2]));
    assert!(protocol.poll_pending().is_none());
    assert!(is_message(&notify(&mut protocol, 9, 0, vec![3]).1, 9, ANNOUNCES, &[3]));
}

#[test]
fn a_rejected_peer_is_forgotten() {
    let mut protocol = protocol();
    open(&mut protocol, 9, 0, vec![]);
    notify(&mut protocol, 9, 0, vec![1]);
    protocol.report_peer_validation_result(9, PeerValidationResult::Rejected);
    assert!(protocol.poll_pending().is_none());
    // It may connect again, and what it sent before is gone.
    open(&mut protocol, 9, 0, vec![]);
    protocol.report_peer_validation_result(9, PeerValidationResult::Accepted(Roles { bits: 1 }));
    assert!(matches!(protocol.poll_pending(), Some(CustomMessageOutcome::SyncConnected(9))));
    assert!(protocol.poll_pending().is_none());
}

#[test]
fn the_result_for_an_unknown_peer_is_ignored() {
    let mut protocol = protocol();
    protocol.report_peer_validation_result(9, PeerValidationResult::Accepted(Roles { bits: 1 }));
    protocol.report_peer_validation_result(9, PeerValidationResult::Rejected);
    assert!(protocol.poll_pending().is_none());
}

#[test]
fn waiting_outcomes_come_in_the_order_of_the_results() {
    let mut protocol = protocol();
    open(&mut protocol, 8, 0, vec![]);
    open(&mut protocol, 9, 0, vec![]);
    notify(&mut protocol, 9, 0, vec![1]);
    protocol.report_peer_validation_result(9, PeerValidationResult::Accepted(Roles { bits: 1 }));
    protocol.report_peer_validation_result(8, PeerValidationResult::Accepted(Roles { bits: 1 }));
    assert!(matches!(protocol.poll_pending(), Some(CustomMessageOutcome::SyncConnected(9))));
    assert!(is_message(&protocol.poll_pending(), 9, ANNOUNCES, &[1]));
    assert!(matches!(protocol.poll_pending(), Some(CustomMessageOutcome::SyncConnected(8))));
    assert!(protocol.poll_pending().is_none());
    let (actions, outcome) = notify(&mut protocol, 8, 0, vec![2]);
    assert!(actions.is_empty());
    assert!(is_message(&outcome, 8, ANNOUNCES, &[2]));
}

#[test]
fn closing_and_disconnecting_a_sync_peer() {
    let mut protocol = protocol();
    open(&mut protocol, 9, 0, vec![]);
    let (_, outcome) =
        protocol.poll(NotificationsOut::CustomProtocolClosed { peer_id: 9, set_id: 0 });
    match outcome {
        Some(CustomMessageOutcome::NotificationStreamClosed { remote, protocol }) => {
            assert_eq!((remote, protocol.as_str()), (9, ANNOUNCES));
        }
        other => panic!("unexpected {:?}", other),
    }
    // A disconnecting peer is not on probation any more.
    assert!(is_message(&notify(&mut protocol, 9, 0, vec![3]).1, 9, ANNOUNCES, &[3]));
    protocol.disconnect_sync_peer(9);
    assert!(matches!(protocol.poll_pending(), Some(CustomMessageOutcome::SyncDisconnected(9))));
    assert!(matches!(
        open(&mut protocol, 9, 0, vec![]).1,
        Some(CustomMessageOutcome::PeerConnected { .. })
    ));
}

#[test]
fn a_stream_with_roles_in_its_handshake_is_opened() {
    let mut protocol = protocol();
    let (actions, outcome) = open(&mut protocol, 9, 2, vec![4]);
    assert!(actions.is_empty());
    match outcome {
        Some(CustomMessageOutcome::NotificationStreamOpened {
            remote,
            protocol,
            roles,
            notifications_sink,
            ..
        }) => {
            assert_eq!((remote, protocol.as_str()), (9, SECOND));
            assert_eq!(roles, Roles { bits: 4 });
            assert_eq!(notifications_sink, 42);
        }
        other => panic!("unexpected {:?}", other),
    }
    assert!(is_message(&notify(&mut protocol, 9, 2, vec![7]).1, 9, SECOND, &[7]));
    let (_, outcome) = protocol.poll(NotificationsOut::CustomProtocolReplaced {
        peer_id: 9,
        notifications_sink: 43,
        set_id: 2,
    });
    assert!(matches!(
        outcome,
        Some(CustomMessageOutcome::NotificationStreamReplaced { notifications_sink: 43, .. })
    ));
    let (_, outcome) =
        protocol.poll(NotificationsOut::CustomProtocolClosed { peer_id: 9, set_id: 2 });
    assert!(matches!(outcome, Some(CustomMessageOutcome::NotificationStreamClosed { .. })));
}

#[test]
fn an_empty_handshake_takes_the_roles_of_an_accepted_peer() {
    let mut protocol = protocol();
    open(&mut protocol, 9, 0, vec![]);
    // On probation its roles are not known yet.
    assert_eq!(open(&mut protocol, 9, 1, vec![]).0.len(), 2);
    protocol.poll(NotificationsOut::CustomProtocolClosed { peer_id: 9, set_id: 1 });
    protocol.report_peer_validation_result(9, PeerValidationResult::Accepted(Roles { bits: 2 }));
    protocol.poll_pending();
    let (_, outcome) = open(&mut protocol, 9, 1, vec![]);
    match outcome {
        Some(CustomMessageOutcome::NotificationStreamOpened { roles, protocol, .. }) => {
            assert_eq!((roles, protocol.as_str()), (Roles { bits: 2 }, FIRST));
        }
        other => panic!("unexpected {:?}", other),
    }
}

#[test]
fn a_bad_handshake_stays_hidden() {
    for handshake in [vec![], vec![8], vec![255], vec![1, 1]] {
        let mut protocol = protocol();
        let (actions, outcome) = open(&mut protocol, 9, 1, handshake);
        assert!(outcome.is_none());
        assert_eq!(actions.len(), 2);
        assert!(matches!(actions[0], ProtocolAction::DisconnectPeer(9, 1)));
        match actions[1] {
            ProtocolAction::ReportPeer(9, change) => {
                assert_eq!(change, ReputationChange { value: -4096, reason: "Bad message" });
                assert_eq!(change, rep::bad_message());
            }
            _ => panic!("unexpected action"),
        }
        assert!(notify(&mut protocol, 9, 1, vec![1]).1.is_none());
        let (_, outcome) = protocol.poll(NotificationsOut::CustomProtocolReplaced {
            peer_id: 9,
            notifications_sink: 43,
            set_id: 1,
        });
        assert!(outcome.is_none());
        let closed = NotificationsOut::CustomProtocolClosed { peer_id: 9, set_id: 1 };
        assert!(protocol.poll(closed).1.is_none());
        // The next opening with a good handshake is handed out again.
        assert!(open(&mut protocol, 9, 1, vec![1]).1.is_some());
    }
}

#[test]
fn another_substream_is_not_hidden_with_a_bad_one() {
    let mut protocol = protocol();
    open(&mut protocol, 9, 1, vec![8]);
    assert!(open(&mut protocol, 9, 2, vec![1]).1.is_some());
    assert!(open(&mut protocol, 8, 1, vec![1]).1.is_some());
    assert!(is_message(&notify(&mut protocol, 9, 2, vec![5]).1, 9, SECOND, &[5]));
    assert!(is_message(&notify(&mut protocol, 8, 1, vec![6]).1, 8, FIRST, &[6]));
    assert!(notify(&mut protocol, 9, 1, vec![7]).1.is_none());
}

#[test]
fn the_sink_of_the_announces_protocol_is_not_handed_out() {
    let mut protocol = protocol();
    open(&mut protocol, 9, 0, vec![]);
    let (actions, outcome) = protocol.poll(NotificationsOut::CustomProtocolReplaced {
        peer_id: 9,
        notifications_sink: 43,
        set_id: 0,
    });
    assert!(actions.is_empty());
    assert!(outcome.is_none());
}

#[test]
fn names_stand_for_sets() {
    let protocol = protocol();
    let first = FIRST.to_string();
    let second = SECOND.to_string();
    let unknown = ANNOUNCES.to_string();
    assert!(matches!(
        protocol.disconnect_peer(3, &second),
        Some(ProtocolAction::DisconnectPeer(3, 2))
    ));
    assert!(protocol.disconnect_peer(3, &unknown).is_none());
    assert!(matches!(
        protocol.add_set_reserved_peer(&first, 3),
        Some(ProtocolAction::AddReservedPeer(1, 3))
    ));
    assert!(protocol.add_set_reserved_peer(&unknown, 3).is_none());
    assert!(matches!(
        protocol.remove_set_reserved_peer(&second, 3),
        Some(ProtocolAction::RemoveReservedPeer(2, 3))
    ));
    assert!(protocol.remove_set_reserved_peer(&unknown, 3).is_none());
    assert!(matches!(
        protocol.add_to_peers_set(&first, 3),
        Some(ProtocolAction::AddToPeersSet(1, 3))
    ));
    assert!(protocol.add_to_peers_set(&unknown, 3).is_none());
    assert!(matches!(
        protocol.remove_from_peers_set(&second, 3),
        Some(ProtocolAction::RemoveFromPeersSet(2, 3))
    ));
    assert!(protocol.remove_from_peers_set(&unknown, 3).is_none());
    match protocol.set_reserved_peerset_peers(&first, HashSet::from([1, 2])) {
        Some(ProtocolAction::SetReservedPeers(1, peers)) => {
            assert_eq!(peers, HashSet::from([1, 2]));
        }
        other => panic!("unexpected {:?}", other),
    }
    assert!(protocol.set_reserved_peerset_peers(&unknown, HashSet::new()).is_none());
}

#[test]
fn the_set_of_the_announces_protocol_is_the_first_one() {
    let protocol = protocol();
    assert!(matches!(
        protocol.set_sync_handshake(vec![1]),
        ProtocolAction::SetNotifProtocolHandshake(0, bytes) if bytes == vec![1]
    ));
    assert!(matches!(
        protocol.write_sync_notification(3, vec![2]),
        ProtocolAction::WriteNotification(3, 0, bytes) if bytes == vec![2]
    ));
    let actions = protocol.write_batch_sync_notification(vec![3, 4], vec![5]);
    assert_eq!(actions.len(), 2);
    assert!(matches!(&actions[0], ProtocolAction::WriteNotification(3, 0, bytes) if *bytes == vec![5]));
    assert!(matches!(&actions[1], ProtocolAction::WriteNotification(4, 0, bytes) if *bytes == vec![5]));
    assert!(matches!(
        protocol.report_peer(3, rep::timeout()),
        ProtocolAction::ReportPeer(3, ReputationChange { value: -1024, .. })
    ));
    assert!(matches!(
        protocol.set_reserved_only(true),
        ProtocolAction::SetReservedOnly(0, true)
    ));
    assert!(matches!(protocol.add_reserved_peer(3), ProtocolAction::AddReservedPeer(0, 3)));
    assert!(matches!(
        protocol.remove_reserved_peer(3),
        ProtocolAction::RemoveReservedPeer(0, 3)
    ));
    assert!(matches!(
        protocol.set_reserved_peers(HashSet::from([4])),
        ProtocolAction::SetReservedPeers(0, peers) if peers == HashSet::from([4])
    ));
    let actions = protocol.add_default_set_discovered_nodes(vec![6, 6]);
    assert_eq!(actions.len(), 2);
    assert!(actions.iter().all(|action| matches!(action, ProtocolAction::AddToPeersSet(0, 6))));
}

#[test]
fn connected_peers_that_are_queried_are_active() {
    let mut protocol = protocol();
    for peer in [3, 4, 5] {
        open(&mut protocol, peer, 0, vec![]);
    }
    assert_eq!(protocol.num_active_peers(&HashSet::new()), 0);
    assert_eq!(protocol.num_active_peers(&HashSet::from([6])), 0);
    assert_eq!(protocol.num_active_peers(&HashSet::from([3, 5, 6])), 2);
    protocol.disconnect_sync_peer(3);
    assert_eq!(protocol.num_active_peers(&HashSet::from([3, 5, 6])), 1);
}

#[test]
fn the_first_of_two_protocols_with_one_name_counts() {
    let mut config = configuration();
    config.extra_sets[1].notifications_protocol = FIRST.to_string();
    let parts: Parts =
        Protocol::new(Roles { bits: 1 }, &config, vec![vec![], vec![]], sync_config());
    let found = parts.0.disconnect_peer(3, &FIRST.to_string());
    assert!(matches!(found, Some(ProtocolAction::DisconnectPeer(3, 1))));
}
