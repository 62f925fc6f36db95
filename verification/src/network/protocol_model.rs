//! What the protocol state machine is, in mathematical terms.
use crate::network::config::{self, NetworkConfiguration};
use crate::network::primitives::{PeerId, ReputationChange, Roles, SetId};
use crate::network::rep;
use crate::scale;
use vstd::prelude::*;

verus! {

/// Identifier of the set of peers of the block announces protocol.
pub const HARDCODED_PEERSETS_SYNC: SetId = 0;

/// Number of sets that are not user-defined: every greater or equal identifier
/// belongs to a user-defined protocol.
pub const NUM_HARDCODED_PEERSETS: usize = 1;

/// How far the validation of a syncing peer has come.
#[derive(Clone, Copy, PartialEq, Eq, Structural, Debug)]
pub enum PeerStatus {
    /// The peer has not been validated yet.
    OnProbation,
    /// The peer was accepted.
    Accepted,
    /// The substream with the peer was closed.
    Disconnecting,
}

/// What is known of a syncing peer.
#[verifier::ext_equal]
pub struct PeerView {
    /// How far its validation has come.
    pub status: PeerStatus,
    /// Its roles, known from its acceptance on.
    pub roles: Option<Roles>,
    /// The notifications that wait for its validation, each with its sender.
    pub pending_notifs: Seq<(PeerId, Seq<u8>)>,
}

/// An outcome that is handed to the outer layers.
#[verifier::ext_equal]
pub enum OutcomeView<S> {
    /// A peer connected and awaits validation.
    PeerConnected {
        peer_id: PeerId,
        received_handshake: Seq<u8>,
        negotiated_fallback: Option<Seq<char>>,
    },
    /// A substream was opened.
    NotificationStreamOpened {
        remote: PeerId,
        protocol: Seq<char>,
        negotiated_fallback: Option<Seq<char>>,
        roles: Roles,
        notifications_sink: S,
    },
    /// The sink of a substream was replaced.
    NotificationStreamReplaced { remote: PeerId, protocol: Seq<char>, notifications_sink: S },
    /// A substream was closed.
    NotificationStreamClosed { remote: PeerId, protocol: Seq<char> },
    /// Notifications came in, each under its protocol.
    NotificationsReceived { remote: PeerId, messages: Seq<(Seq<char>, Seq<u8>)> },
    /// A syncing peer was accepted.
    SyncConnected(PeerId),
    /// A syncing peer was disconnected.
    SyncDisconnected(PeerId),
    /// Nothing to hand out.
    Nothing,
}

/// An event of the layer below.
#[verifier::ext_equal]
pub enum EventView<S> {
    /// A substream was opened.
    CustomProtocolOpen {
        peer_id: PeerId,
        set_id: SetId,
        received_handshake: Seq<u8>,
        notifications_sink: S,
        negotiated_fallback: Option<Seq<char>>,
    },
    /// The sink of a substream was replaced.
    CustomProtocolReplaced { peer_id: PeerId, notifications_sink: S, set_id: SetId },
    /// A substream was closed.
    CustomProtocolClosed { peer_id: PeerId, set_id: SetId },
    /// A notification came in.
    Notification { peer_id: PeerId, set_id: SetId, message: Seq<u8> },
}

/// What the layer below has to do.
#[verifier::ext_equal]
pub enum ActionView {
    /// Close the substream with the peer.
    DisconnectPeer(PeerId, SetId),
    /// Change the reputation of the peer.
    ReportPeer(PeerId, ReputationChange),
    /// Send this handshake from now on when a substream of the set is opened.
    SetNotifProtocolHandshake(SetId, Seq<u8>),
    /// Send a notification to the peer.
    WriteNotification(PeerId, SetId, Seq<u8>),
    /// Accept reserved peers alone in the set, or others too.
    SetReservedOnly(SetId, bool),
    /// Make the peer a reserved one of the set.
    AddReservedPeer(SetId, PeerId),
    /// Make the peer an ordinary one of the set.
    RemoveReservedPeer(SetId, PeerId),
    /// Make these peers, and no others, the reserved ones of the set.
    SetReservedPeers(SetId, Set<PeerId>),
    /// Add the peer to the set.
    AddToPeersSet(SetId, PeerId),
    /// Remove the peer from the set.
    RemoveFromPeersSet(SetId, PeerId),
}

/// The state of the protocol.
#[verifier::ext_equal]
pub struct ProtocolView<S> {
    /// The outcomes that wait to be handed out, the first one next.
    pub pending_messages: Seq<OutcomeView<S>>,
    /// The syncing peers.
    pub peers: Map<PeerId, PeerView>,
    /// The substreams that were opened with a bad handshake and not closed yet.
    pub bad_handshake_substreams: Set<(PeerId, SetId)>,
    /// The names of the user-defined protocols, in the order of their sets.
    pub notification_protocols: Seq<Seq<char>>,
    /// The name of the block announces protocol.
    pub block_announces_protocol_name: Seq<char>,
    /// The roles of this node.
    pub roles: Roles,
    /// The peers that are reserved in any set.
    pub important_peers: Set<PeerId>,
    /// The boot nodes.
    pub boot_node_ids: Set<PeerId>,
}

impl<S> ProtocolView<S> {
    /// The state at the start.
    pub open spec fn initial(
        roles: Roles,
        config: NetworkConfiguration,
        block_announces_protocol_name: Seq<char>,
    ) -> ProtocolView<S> {
        ProtocolView {
            pending_messages: Seq::empty(),
            peers: Map::empty(),
            bad_handshake_substreams: Set::empty(),
            notification_protocols: config::protocol_names(config.extra_sets@),
            block_announces_protocol_name,
            roles,
            important_peers: config::important_peers_of(config),
            boot_node_ids: config::boot_nodes_of(config),
        }
    }

    /// The roles of every accepted peer are known.
    pub open spec fn wf(self) -> bool {
        forall|peer: PeerId| #[trigger]
            self.peers.contains_key(peer) && self.peers[peer].status == PeerStatus::Accepted
                ==> self.peers[peer].roles is Some
    }

    /// The name of the user-defined protocol of a set.
    pub open spec fn protocol_of(self, set_id: SetId) -> Seq<char> {
        self.notification_protocols[set_id - NUM_HARDCODED_PEERSETS]
    }

    /// Whether a set belongs to a user-defined protocol.
    pub open spec fn is_user_defined(self, set_id: SetId) -> bool {
        NUM_HARDCODED_PEERSETS <= set_id < NUM_HARDCODED_PEERSETS
            + self.notification_protocols.len()
    }

    /// The set of the first user-defined protocol with the given name.
    pub open spec fn set_of(self, name: Seq<char>) -> Option<SetId> {
        match self.notification_protocols.index_of_first(name) {
            Some(index) => Some((index + NUM_HARDCODED_PEERSETS) as SetId),
            None => None,
        }
    }

    /// Whether the substream was opened with a bad handshake.
    pub open spec fn is_bad(self, peer_id: PeerId, set_id: SetId) -> bool {
        self.bad_handshake_substreams.contains((peer_id, set_id))
    }

    /// The roles with which a substream of a user-defined protocol is opened: those
    /// that the handshake gives or, where it is empty, those of an accepted peer.
    /// `None` where the handshake is bad.
    pub open spec fn stream_roles(self, peer_id: PeerId, handshake: Seq<u8>) -> Option<Roles> {
        if handshake.len() == 1 && scale::known_role_bits(handshake[0]) {
            Some(Roles { bits: handshake[0] })
        } else if handshake.len() == 0 && self.peers.contains_key(peer_id)
            && self.peers[peer_id].status == PeerStatus::Accepted {
            self.peers[peer_id].roles
        } else {
            None
        }
    }

    /// The outcome for one notification of the block announces protocol.
    pub open spec fn block_announce_received(self, remote: PeerId, message: Seq<u8>) -> OutcomeView<
        S,
    > {
        OutcomeView::NotificationsReceived {
            remote,
            messages: seq![(self.block_announces_protocol_name, message)],
        }
    }

    /// A substream was opened.
    pub open spec fn on_open(
        self,
        peer_id: PeerId,
        set_id: SetId,
        received_handshake: Seq<u8>,
        notifications_sink: S,
        negotiated_fallback: Option<Seq<char>>,
    ) -> (ProtocolView<S>, OutcomeView<S>, Seq<ActionView>) {
        if set_id == HARDCODED_PEERSETS_SYNC {
            let info = PeerView {
                status: PeerStatus::OnProbation,
                roles: None,
                pending_notifs: Seq::empty(),
            };
            (
                ProtocolView { peers: self.peers.insert(peer_id, info), ..self },
                OutcomeView::PeerConnected { peer_id, received_handshake, negotiated_fallback },
                Seq::empty(),
            )
        } else {
            match self.stream_roles(peer_id, received_handshake) {
                Some(roles) => (
                    self,
                    OutcomeView::NotificationStreamOpened {
                        remote: peer_id,
                        protocol: self.protocol_of(set_id),
                        negotiated_fallback,
                        roles,
                        notifications_sink,
                    },
                    Seq::empty(),
                ),
                None => (
                    ProtocolView {
                        bad_handshake_substreams: self.bad_handshake_substreams.insert(
                            (peer_id, set_id),
                        ),
                        ..self
                    },
                    OutcomeView::Nothing,
                    seq![
                        ActionView::DisconnectPeer(peer_id, set_id),
                        ActionView::ReportPeer(peer_id, rep::bad_message()),
                    ],
                ),
            }
        }
    }

    /// The sink of a substream was replaced.
    pub open spec fn on_replaced(
        self,
        peer_id: PeerId,
        notifications_sink: S,
        set_id: SetId,
    ) -> OutcomeView<S> {
        if set_id == HARDCODED_PEERSETS_SYNC || self.is_bad(peer_id, set_id) {
            OutcomeView::Nothing
        } else {
            OutcomeView::NotificationStreamReplaced {
                remote: peer_id,
                protocol: self.protocol_of(set_id),
                notifications_sink,
            }
        }
    }

    /// A substream was closed.
    pub open spec fn on_closed(self, peer_id: PeerId, set_id: SetId) -> (
        ProtocolView<S>,
        OutcomeView<S>,
    ) {
        if set_id == HARDCODED_PEERSETS_SYNC {
            let info = PeerView { status: PeerStatus::Disconnecting, ..self.peers[peer_id] };
            (
                ProtocolView { peers: self.peers.insert(peer_id, info), ..self },
                OutcomeView::NotificationStreamClosed {
                    remote: peer_id,
                    protocol: self.block_announces_protocol_name,
                },
            )
        } else if self.is_bad(peer_id, set_id) {
            (
                ProtocolView {
                    bad_handshake_substreams: self.bad_handshake_substreams.remove(
                        (peer_id, set_id),
                    ),
                    ..self
                },
                OutcomeView::Nothing,
            )
        } else {
            (
                self,
                OutcomeView::NotificationStreamClosed {
                    remote: peer_id,
                    protocol: self.protocol_of(set_id),
                },
            )
        }
    }

    /// A notification came in.
    pub open spec fn on_notification(self, peer_id: PeerId, set_id: SetId, message: Seq<u8>) -> (
        ProtocolView<S>,
        OutcomeView<S>,
    ) {
        if set_id == HARDCODED_PEERSETS_SYNC {
            let info = self.peers[peer_id];
            if info.status == PeerStatus::OnProbation {
                let info = PeerView {
                    pending_notifs: info.pending_notifs.push((peer_id, message)),
                    ..info
                };
                (
                    ProtocolView { peers: self.peers.insert(peer_id, info), ..self },
                    OutcomeView::Nothing,
                )
            } else {
                (self, self.block_announce_received(peer_id, message))
            }
        } else if self.is_bad(peer_id, set_id) {
            (self, OutcomeView::Nothing)
        } else {
            (
                self,
                OutcomeView::NotificationsReceived {
                    remote: peer_id,
                    messages: seq![(self.protocol_of(set_id), message)],
                },
            )
        }
    }

    /// What an event does to the state, what it hands out, and what the layer below
    /// has to do.
    pub open spec fn on_event(self, event: EventView<S>) -> (
        ProtocolView<S>,
        OutcomeView<S>,
        Seq<ActionView>,
    ) {
        match event {
            EventView::CustomProtocolOpen {
                peer_id,
                set_id,
                received_handshake,
                notifications_sink,
                negotiated_fallback,
            } => self.on_open(
                peer_id,
                set_id,
                received_handshake,
                notifications_sink,
                negotiated_fallback,
            ),
            EventView::CustomProtocolReplaced { peer_id, notifications_sink, set_id } => (
                self,
                self.on_replaced(peer_id, notifications_sink, set_id),
                Seq::empty(),
            ),
            EventView::CustomProtocolClosed { peer_id, set_id } => {
                let (state, outcome) = self.on_closed(peer_id, set_id);
                (state, outcome, Seq::empty())
            },
            EventView::Notification { peer_id, set_id, message } => {
                let (state, outcome) = self.on_notification(peer_id, set_id, message);
                (state, outcome, Seq::empty())
            },
        }
    }

    /// Whether the layer below may report the event in this state: a syncing peer
    /// connects once, disconnects and sends only while it is known, and every other
    /// substream belongs to a user-defined protocol. Nothing is asked of the set of
    /// a substream with a bad handshake.
    pub open spec fn admits(self, event: EventView<S>) -> bool {
        match event {
            EventView::CustomProtocolOpen { peer_id, set_id, received_handshake, .. } => {
                if set_id == HARDCODED_PEERSETS_SYNC {
                    !self.peers.contains_key(peer_id)
                } else {
                    self.stream_roles(peer_id, received_handshake) is Some
                        ==> self.is_user_defined(set_id)
                }
            },
            EventView::CustomProtocolReplaced { peer_id, set_id, .. } => {
                set_id == HARDCODED_PEERSETS_SYNC || self.is_bad(peer_id, set_id)
                    || self.is_user_defined(set_id)
            },
            EventView::CustomProtocolClosed { peer_id, set_id }
            | EventView::Notification { peer_id, set_id, .. } => {
                if set_id == HARDCODED_PEERSETS_SYNC {
                    self.peers.contains_key(peer_id)
                } else {
                    self.is_bad(peer_id, set_id) || self.is_user_defined(set_id)
                }
            },
        }
    }

    /// The state once the first waiting outcome, if any, was handed out.
    pub open spec fn after_pending(self) -> ProtocolView<S> {
        if self.pending_messages.len() == 0 {
            self
        } else {
            ProtocolView { pending_messages: self.pending_messages.drop_first(), ..self }
        }
    }

    /// The first waiting outcome.
    pub open spec fn first_pending(self) -> Option<OutcomeView<S>> {
        if self.pending_messages.len() == 0 {
            None
        } else {
            Some(self.pending_messages[0])
        }
    }

    /// The state once a disconnected peer was taken out of it, which is to be handed
    /// out.
    pub open spec fn after_disconnected(self, who: PeerId) -> ProtocolView<S> {
        ProtocolView {
            peers: self.peers.remove(who),
            pending_messages: self.pending_messages.push(OutcomeView::SyncDisconnected(who)),
            ..self
        }
    }

    /// The state once a peer was rejected.
    pub open spec fn after_rejected(self, who: PeerId) -> ProtocolView<S> {
        ProtocolView { peers: self.peers.remove(who), ..self }
    }

    /// The state once a peer was accepted with the given roles: its acceptance and
    /// then the notifications that waited for it are to be handed out, in the order
    /// in which they came. Unknown peers are ignored.
    pub open spec fn after_accepted(self, peer: PeerId, roles: Roles) -> ProtocolView<S> {
        if self.peers.contains_key(peer) {
            let waiting = self.peers[peer].pending_notifs;
            ProtocolView {
                peers: self.peers.insert(
                    peer,
                    PeerView {
                        status: PeerStatus::Accepted,
                        roles: Some(roles),
                        pending_notifs: Seq::empty(),
                    },
                ),
                pending_messages: self.pending_messages + seq![OutcomeView::SyncConnected(peer)]
                    + Seq::new(
                    waiting.len(),
                    |i: int| self.block_announce_received(waiting[i].0, waiting[i].1),
                ),
                ..self
            }
        } else {
            self
        }
    }
}

} // verus!
