//! The protocol state machine: what the outer layers learn of the events of the
//! notifications layer, and what that layer and the peer sets have to do.
use crate::double_map::DoubleMap;
use crate::network::config::{self, NetworkConfiguration, PeersetSetConfig, ProtocolConfig};
use crate::network::primitives::{PeerId, ReputationChange, Roles, SetId};
use crate::network::protocol_model::{
    ActionView, EventView, OutcomeView, PeerStatus, PeerView, ProtocolView,
    HARDCODED_PEERSETS_SYNC, NUM_HARDCODED_PEERSETS,
};
use crate::network::rep;
use crate::scale;
use std::collections::{HashMap, HashSet, VecDeque};
use vstd::prelude::*;

verus! {

/// The contents of an optional name.
pub open spec fn name_view(name: Option<String>) -> Option<Seq<char>> {
    match name {
        Some(name) => Some(name@),
        None => None,
    }
}

/// The contents of notifications, each with its sender.
pub open spec fn notifs_view(notifs: Seq<(PeerId, Vec<u8>)>) -> Seq<(PeerId, Seq<u8>)> {
    notifs.map_values(|notif: (PeerId, Vec<u8>)| (notif.0, notif.1@))
}

/// What the actions ask for.
pub open spec fn actions_view(actions: Seq<ProtocolAction>) -> Seq<ActionView> {
    actions.map_values(|action: ProtocolAction| action@)
}

/// What is known of a syncing peer.
pub struct NewPeerInfo {
    status: PeerStatus,
    roles: Option<Roles>,
    pending_notifs: VecDeque<(PeerId, Vec<u8>)>,
}

impl View for NewPeerInfo {
    type V = PeerView;

    closed spec fn view(&self) -> PeerView {
        PeerView {
            status: self.status,
            roles: self.roles,
            pending_notifs: notifs_view(self.pending_notifs@),
        }
    }
}

/// An outcome that is handed to the outer layers.
#[derive(Debug)]
#[must_use]
pub enum CustomMessageOutcome<S> {
    /// A peer connected for syncing and awaits validation.
    PeerConnected {
        /// The peer.
        peer_id: PeerId,
        /// The handshake that it sent.
        received_handshake: Vec<u8>,
        /// The older name of the protocol that was agreed on, if any.
        negotiated_fallback: Option<String>,
    },
    /// A substream was opened.
    NotificationStreamOpened {
        /// The peer.
        remote: PeerId,
        /// The protocol.
        protocol: String,
        /// The older name of the protocol that was agreed on, if any.
        negotiated_fallback: Option<String>,
        /// The roles of the peer.
        roles: Roles,
        /// The sink to send notifications with.
        notifications_sink: S,
    },
    /// The sink of a substream was replaced.
    NotificationStreamReplaced {
        /// The peer.
        remote: PeerId,
        /// The protocol.
        protocol: String,
        /// The new sink.
        notifications_sink: S,
    },
    /// A substream was closed.
    NotificationStreamClosed {
        /// The peer.
        remote: PeerId,
        /// The protocol.
        protocol: String,
    },
    /// Notifications came in.
    NotificationsReceived {
        /// The peer.
        remote: PeerId,
        /// The notifications, each with its protocol.
        messages: Vec<(String, Vec<u8>)>,
    },
    /// A syncing peer was accepted.
    SyncConnected(PeerId),
    /// A syncing peer was disconnected.
    SyncDisconnected(PeerId),
    /// Nothing to hand out.
    Nothing,
}

impl<S> View for CustomMessageOutcome<S> {
    type V = OutcomeView<S>;

    open spec fn view(&self) -> OutcomeView<S> {
        match *self {
            CustomMessageOutcome::PeerConnected {
                peer_id,
                received_handshake,
                negotiated_fallback,
            } => OutcomeView::PeerConnected {
                peer_id,
                received_handshake: received_handshake@,
                negotiated_fallback: name_view(negotiated_fallback),
            },
            CustomMessageOutcome::NotificationStreamOpened {
                remote,
                protocol,
                negotiated_fallback,
                roles,
                notifications_sink,
            } => OutcomeView::NotificationStreamOpened {
                remote,
                protocol: protocol@,
                negotiated_fallback: name_view(negotiated_fallback),
                roles,
                notifications_sink,
            },
            CustomMessageOutcome::NotificationStreamReplaced {
                remote,
                protocol,
                notifications_sink,
            } => OutcomeView::NotificationStreamReplaced {
                remote,
                protocol: protocol@,
                notifications_sink,
            },
            CustomMessageOutcome::NotificationStreamClosed { remote, protocol } => {
                OutcomeView::NotificationStreamClosed { remote, protocol: protocol@ }
            },
            CustomMessageOutcome::NotificationsReceived { remote, messages } => {
                OutcomeView::NotificationsReceived {
                    remote,
                    messages: messages@.map_values(
                        |message: (String, Vec<u8>)| (message.0@, message.1@),
                    ),
                }
            },
            CustomMessageOutcome::SyncConnected(peer) => OutcomeView::SyncConnected(peer),
            CustomMessageOutcome::SyncDisconnected(peer) => OutcomeView::SyncDisconnected(peer),
            CustomMessageOutcome::Nothing => OutcomeView::Nothing,
        }
    }
}

/// An event of the notifications layer.
#[derive(Debug)]
pub enum NotificationsOut<S> {
    /// A substream was opened.
    CustomProtocolOpen {
        /// The peer.
        peer_id: PeerId,
        /// The set of the protocol.
        set_id: SetId,
        /// The handshake that the peer sent.
        received_handshake: Vec<u8>,
        /// The sink to send notifications with.
        notifications_sink: S,
        /// The older name of the protocol that was agreed on, if any.
        negotiated_fallback: Option<String>,
    },
    /// The sink of a substream was replaced.
    CustomProtocolReplaced {
        /// The peer.
        peer_id: PeerId,
        /// The new sink.
        notifications_sink: S,
        /// The set of the protocol.
        set_id: SetId,
    },
    /// A substream was closed.
    CustomProtocolClosed {
        /// The peer.
        peer_id: PeerId,
        /// The set of the protocol.
        set_id: SetId,
    },
    /// A notification came in.
    Notification {
        /// The peer.
        peer_id: PeerId,
        /// The set of the protocol.
        set_id: SetId,
        /// The notification.
        message: Vec<u8>,
    },
}

impl<S> View for NotificationsOut<S> {
    type V = EventView<S>;

    open spec fn view(&self) -> EventView<S> {
        match *self {
            NotificationsOut::CustomProtocolOpen {
                peer_id,
                set_id,
                received_handshake,
                notifications_sink,
                negotiated_fallback,
            } => EventView::CustomProtocolOpen {
                peer_id,
                set_id,
                received_handshake: received_handshake@,
                notifications_sink,
                negotiated_fallback: name_view(negotiated_fallback),
            },
            NotificationsOut::CustomProtocolReplaced { peer_id, notifications_sink, set_id } => {
                EventView::CustomProtocolReplaced { peer_id, notifications_sink, set_id }
            },
            NotificationsOut::CustomProtocolClosed { peer_id, set_id } => {
                EventView::CustomProtocolClosed { peer_id, set_id }
            },
            NotificationsOut::Notification { peer_id, set_id, message } => {
                EventView::Notification { peer_id, set_id, message: message@ }
            },
        }
    }
}

/// What the notifications layer or the peer sets have to do.
#[derive(Debug)]
pub enum ProtocolAction {
    /// Close the substream of a set with a peer.
    DisconnectPeer(PeerId, SetId),
    /// Change the reputation of a peer.
    ReportPeer(PeerId, ReputationChange),
    /// Send this handshake from now on when a substream of the set is opened.
    SetNotifProtocolHandshake(SetId, Vec<u8>),
    /// Send a notification to a peer.
    WriteNotification(PeerId, SetId, Vec<u8>),
    /// Accept reserved peers alone in the set, or others too.
    SetReservedOnly(SetId, bool),
    /// Make a peer a reserved one of the set.
    AddReservedPeer(SetId, PeerId),
    /// Make a peer an ordinary one of the set.
    RemoveReservedPeer(SetId, PeerId),
    /// Make these peers, and no others, the reserved ones of the set.
    SetReservedPeers(SetId, HashSet<PeerId>),
    /// Add a peer to the set.
    AddToPeersSet(SetId, PeerId),
    /// Remove a peer from the set.
    RemoveFromPeersSet(SetId, PeerId),
}

impl View for ProtocolAction {
    type V = ActionView;

    open spec fn view(&self) -> ActionView {
        match *self {
            ProtocolAction::DisconnectPeer(peer_id, set_id) => ActionView::DisconnectPeer(
                peer_id,
                set_id,
            ),
            ProtocolAction::ReportPeer(peer_id, change) => ActionView::ReportPeer(peer_id, change),
            ProtocolAction::SetNotifProtocolHandshake(set_id, handshake) => {
                ActionView::SetNotifProtocolHandshake(set_id, handshake@)
            },
            ProtocolAction::WriteNotification(peer_id, set_id, message) => {
                ActionView::WriteNotification(peer_id, set_id, message@)
            },
            ProtocolAction::SetReservedOnly(set_id, reserved_only) => ActionView::SetReservedOnly(
                set_id,
                reserved_only,
            ),
            ProtocolAction::AddReservedPeer(set_id, peer_id) => ActionView::AddReservedPeer(
                set_id,
                peer_id,
            ),
            ProtocolAction::RemoveReservedPeer(set_id, peer_id) => ActionView::RemoveReservedPeer(
                set_id,
                peer_id,
            ),
            ProtocolAction::SetReservedPeers(set_id, peers) => ActionView::SetReservedPeers(
                set_id,
                peers@,
            ),
            ProtocolAction::AddToPeersSet(set_id, peer_id) => ActionView::AddToPeersSet(
                set_id,
                peer_id,
            ),
            ProtocolAction::RemoveFromPeersSet(set_id, peer_id) => ActionView::RemoveFromPeersSet(
                set_id,
                peer_id,
            ),
        }
    }
}

/// How the validation of a syncing peer ended.
#[derive(Clone, Copy, Debug)]
pub enum PeerValidationResult {
    /// The peer was accepted, with these roles.
    Accepted(Roles),
    /// The peer was rejected.
    Rejected,
}

/// The protocol state machine.
pub struct Protocol<S> {
    /// The outcomes that wait to be handed out before anything else.
    pending_messages: VecDeque<CustomMessageOutcome<S>>,
    /// The syncing peers.
    peers: HashMap<PeerId, NewPeerInfo>,
    /// The names of the user-defined protocols.
    notification_protocols: Vec<String>,
    /// The substreams that were opened with a bad handshake. The outer layers never
    /// heard of them, so they must not hear of their closing either.
    bad_handshake_substreams: DoubleMap<()>,
    /// The name of the block announces protocol.
    block_announces_protocol_name: String,
    /// The roles of this node.
    _roles: Roles,
    /// The peers that are reserved in any set.
    _important_peers: HashSet<PeerId>,
    /// The boot nodes.
    _boot_node_ids: HashSet<PeerId>,
}

/// What one action asks for.
pub open spec fn action_view(action: Option<ProtocolAction>) -> Option<ActionView> {
    match action {
        Some(action) => Some(action@),
        None => None,
    }
}

impl<S> View for Protocol<S> {
    type V = ProtocolView<S>;

    closed spec fn view(&self) -> ProtocolView<S> {
        ProtocolView {
            pending_messages: self.pending_messages@.map_values(
                |outcome: CustomMessageOutcome<S>| outcome@,
            ),
            peers: self.peers@.map_values(|info: NewPeerInfo| info@),
            bad_handshake_substreams: Set::new(
                |substream: (PeerId, SetId)|
                    self.bad_handshake_substreams@.contains_key((substream.0, substream.1 as u64)),
            ),
            notification_protocols: config::names_view(self.notification_protocols@),
            block_announces_protocol_name: self.block_announces_protocol_name@,
            roles: self._roles,
            important_peers: self._important_peers@,
            boot_node_ids: self._boot_node_ids@,
        }
    }
}

impl<S> Protocol<S> {
    /// Creates the state machine. Returns with it the sets of peers, the protocols
    /// that the notifications layer has to speak, in the order of their sets, and
    /// the addresses of peers that the configuration makes known.
    pub fn new(
        roles: Roles,
        network_config: &NetworkConfiguration,
        notifications_protocols_handshakes: Vec<Vec<u8>>,
        sync_protocol_config: ProtocolConfig,
    ) -> (parts: (Self, Vec<PeersetSetConfig>, Vec<ProtocolConfig>, Vec<(PeerId, Vec<u8>)>))
        ensures
            parts.0@.wf(),
            parts.0@ == ProtocolView::<S>::initial(
                roles,
                *network_config,
                sync_protocol_config.name@,
            ),
            config::are_sets_of(parts.1@, *network_config),
            config::are_protocols_of(
                parts.2@,
                sync_protocol_config,
                *network_config,
                notifications_protocols_handshakes@,
            ),
            config::addresses_view(parts.3@) == config::configured_addresses(*network_config),
    {
        let protocol = Protocol {
            pending_messages: VecDeque::new(),
            peers: HashMap::new(),
            notification_protocols: config::collect_protocol_names(&network_config.extra_sets),
            bad_handshake_substreams: DoubleMap::new(),
            block_announces_protocol_name: sync_protocol_config.name.clone(),
            _roles: roles,
            _important_peers: config::collect_important_peers(network_config),
            _boot_node_ids: config::collect_boot_nodes(network_config),
        };
        assert(protocol@ =~= ProtocolView::<S>::initial(
            roles,
            *network_config,
            sync_protocol_config.name@,
        ));
        let sets = config::peerset_configs(network_config);
        let protocols = config::protocol_configs(
            sync_protocol_config,
            network_config,
            &notifications_protocols_handshakes,
        );
        let known_addresses = config::collect_addresses(network_config);
        (protocol, sets, protocols, known_addresses)
    }

    /// Takes the first waiting outcome.
    pub fn poll_pending(&mut self) -> (outcome: Option<CustomMessageOutcome<S>>)
        ensures
            final(self)@ == old(self)@.after_pending(),
            match outcome {
                Some(outcome) => old(self)@.first_pending() == Some(outcome@),
                None => old(self)@.first_pending() is None,
            },
    {
        let outcome = self.pending_messages.pop_front();
        assert(self@ =~= old(self)@.after_pending());
        outcome
    }

    /// A copy of the name of the user-defined protocol of a set.
    fn protocol_name(&self, set_id: SetId) -> (name: String)
        requires
            self@.is_user_defined(set_id),
        ensures
            name@ == self@.protocol_of(set_id),
    {
        self.notification_protocols[set_id - NUM_HARDCODED_PEERSETS].clone()
    }

    /// Whether a substream was opened with a bad handshake.
    fn is_bad_substream(&self, peer_id: PeerId, set_id: SetId) -> (bad: bool)
        ensures
            bad == self@.is_bad(peer_id, set_id),
    {
        self.bad_handshake_substreams.contains_key(peer_id, set_id as u64)
    }

    /// The roles with which a substream of a user-defined protocol is opened.
    fn stream_roles(&self, peer_id: PeerId, received_handshake: &Vec<u8>) -> (roles: Option<Roles>)
        requires
            self@.wf(),
        ensures
            roles == self@.stream_roles(peer_id, received_handshake@),
    {
        match scale::decode_roles(received_handshake.as_slice()) {
            Some(bits) => Some(Roles { bits }),
            None => {
                if received_handshake.len() == 0 {
                    match self.peers.get(&peer_id) {
                        Some(info) => if info.status == PeerStatus::Accepted {
                            info.roles
                        } else {
                            None
                        },
                        None => None,
                    }
                } else {
                    None
                }
            },
        }
    }

    /// A substream was opened.
    fn on_open(
        &mut self,
        peer_id: PeerId,
        set_id: SetId,
        received_handshake: Vec<u8>,
        notifications_sink: S,
        negotiated_fallback: Option<String>,
        actions: &mut Vec<ProtocolAction>,
    ) -> (outcome: CustomMessageOutcome<S>)
        requires
            old(self)@.wf(),
            old(actions)@.len() == 0,
            set_id != HARDCODED_PEERSETS_SYNC && old(self)@.stream_roles(
                peer_id,
                received_handshake@,
            ) is Some ==> old(self)@.is_user_defined(set_id),
        ensures
            (
                final(self)@,
                outcome@,
                actions_view(final(actions)@),
            ) == old(self)@.on_open(
                peer_id,
                set_id,
                received_handshake@,
                notifications_sink,
                name_view(negotiated_fallback),
            ),
    {
        if set_id == HARDCODED_PEERSETS_SYNC {
            let info = NewPeerInfo {
                status: PeerStatus::OnProbation,
                roles: None,
                pending_notifs: VecDeque::new(),
            };
            assert(info@.pending_notifs =~= Seq::<(PeerId, Seq<u8>)>::empty());
            self.peers.insert(peer_id, info);
            assert(self@.peers =~= old(self)@.peers.insert(peer_id, info@));
            CustomMessageOutcome::PeerConnected { peer_id, received_handshake, negotiated_fallback }
        } else {
            match self.stream_roles(peer_id, &received_handshake) {
                Some(roles) => {
                    let protocol = self.protocol_name(set_id);
                    CustomMessageOutcome::NotificationStreamOpened {
                        remote: peer_id,
                        protocol,
                        negotiated_fallback,
                        roles,
                        notifications_sink,
                    }
                },
                None => {
                    self.bad_handshake_substreams.insert(peer_id, set_id as u64, ());
                    assert(self@.bad_handshake_substreams
                        =~= old(self)@.bad_handshake_substreams.insert((peer_id, set_id)));
                    actions.push(ProtocolAction::DisconnectPeer(peer_id, set_id));
                    actions.push(ProtocolAction::ReportPeer(peer_id, rep::bad_message()));
                    CustomMessageOutcome::Nothing
                },
            }
        }
    }

    /// The sink of a substream was replaced.
    fn on_replaced(&self, peer_id: PeerId, notifications_sink: S, set_id: SetId) -> (outcome:
        CustomMessageOutcome<S>)
        requires
            self@.admits(
                EventView::CustomProtocolReplaced { peer_id, notifications_sink, set_id },
            ),
        ensures
            outcome@ == self@.on_replaced(peer_id, notifications_sink, set_id),
    {
        if set_id == HARDCODED_PEERSETS_SYNC || self.is_bad_substream(peer_id, set_id) {
            CustomMessageOutcome::Nothing
        } else {
            let protocol = self.protocol_name(set_id);
            CustomMessageOutcome::NotificationStreamReplaced {
                remote: peer_id,
                protocol,
                notifications_sink,
            }
        }
    }

    /// A substream was closed.
    fn on_closed(&mut self, peer_id: PeerId, set_id: SetId) -> (outcome: CustomMessageOutcome<S>)
        requires
            old(self)@.admits(EventView::CustomProtocolClosed { peer_id, set_id }),
        ensures
            (final(self)@, outcome@) == old(self)@.on_closed(peer_id, set_id),
    {
        if set_id == HARDCODED_PEERSETS_SYNC {
            match self.peers.remove(&peer_id) {
                Some(info) => {
                    let info = NewPeerInfo {
                        status: PeerStatus::Disconnecting,
                        roles: info.roles,
                        pending_notifs: info.pending_notifs,
                    };
                    self.peers.insert(peer_id, info);
                    assert(self@.peers =~= old(self)@.peers.insert(peer_id, info@));
                },
                None => {},
            }
            CustomMessageOutcome::NotificationStreamClosed {
                remote: peer_id,
                protocol: self.block_announces_protocol_name.clone(),
            }
        } else if self.bad_handshake_substreams.remove(peer_id, set_id as u64).is_some() {
            assert(self@.bad_handshake_substreams
                =~= old(self)@.bad_handshake_substreams.remove((peer_id, set_id)));
            CustomMessageOutcome::Nothing
        } else {
            assert(self@.bad_handshake_substreams =~= old(self)@.bad_handshake_substreams);
            let protocol = self.protocol_name(set_id);
            CustomMessageOutcome::NotificationStreamClosed { remote: peer_id, protocol }
        }
    }

    /// A notification came in.
    fn on_notification(&mut self, peer_id: PeerId, set_id: SetId, message: Vec<u8>) -> (outcome:
        CustomMessageOutcome<S>)
        requires
            old(self)@.admits(
                EventView::Notification { peer_id, set_id, message: message@ },
            ),
        ensures
            (final(self)@, outcome@) == old(self)@.on_notification(peer_id, set_id, message@),
    {
        if set_id == HARDCODED_PEERSETS_SYNC {
            let on_probation = match self.peers.get(&peer_id) {
                Some(info) => info.status == PeerStatus::OnProbation,
                None => false,
            };
            if on_probation {
                match self.peers.remove(&peer_id) {
                    Some(info) => {
                        let mut info = info;
                        let ghost before = info@.pending_notifs;
                        let ghost notif = (peer_id, message@);
                        info.pending_notifs.push_back((peer_id, message));
                        assert(info@.pending_notifs =~= before.push(notif));
                        self.peers.insert(peer_id, info);
                        assert(self@.peers =~= old(self)@.peers.insert(peer_id, info@));
                    },
                    None => {},
                }
                CustomMessageOutcome::Nothing
            } else {
                received(peer_id, self.block_announces_protocol_name.clone(), message)
            }
        } else if self.is_bad_substream(peer_id, set_id) {
            CustomMessageOutcome::Nothing
        } else {
            let protocol = self.protocol_name(set_id);
            received(peer_id, protocol, message)
        }
    }

    /// Whether the notifications layer may report the event: a syncing peer connects
    /// once, disconnects and sends only while it is known, and every other substream
    /// belongs to a user-defined protocol.
    pub fn admits(&self, event: &NotificationsOut<S>) -> (admitted: bool)
        requires
            self@.wf(),
        ensures
            admitted == self@.admits(event@),
    {
        let protocols = self.notification_protocols.len();
        match event {
            NotificationsOut::CustomProtocolOpen { peer_id, set_id, received_handshake, .. } => {
                if *set_id == HARDCODED_PEERSETS_SYNC {
                    !self.is_sync_peer(*peer_id)
                } else {
                    self.stream_roles(*peer_id, received_handshake).is_none() || *set_id
                        - NUM_HARDCODED_PEERSETS < protocols
                }
            },
            NotificationsOut::CustomProtocolReplaced { peer_id, set_id, .. } => {
                *set_id == HARDCODED_PEERSETS_SYNC || self.is_bad_substream(*peer_id, *set_id)
                    || *set_id - NUM_HARDCODED_PEERSETS < protocols
            },
            NotificationsOut::CustomProtocolClosed { peer_id, set_id }
            | NotificationsOut::Notification { peer_id, set_id, .. } => {
                if *set_id == HARDCODED_PEERSETS_SYNC {
                    self.is_sync_peer(*peer_id)
                } else {
                    self.is_bad_substream(*peer_id, *set_id) || *set_id - NUM_HARDCODED_PEERSETS
                        < protocols
                }
            },
        }
    }

    /// Whether the peer is connected for syncing.
    pub fn is_sync_peer(&self, peer_id: PeerId) -> (known: bool)
        ensures
            known == self@.peers.contains_key(peer_id),
    {
        self.peers.contains_key(&peer_id)
    }

    /// Handles an event of the notifications layer. Waiting outcomes have priority: the
    /// layer is asked for an event only once none is left. Returns what the layer has to
    /// do and the outcome of the event. Where it has none, more events may follow, and
    /// the layer has to be asked again.
    pub fn poll(&mut self, event: NotificationsOut<S>) -> (step: (
        Vec<ProtocolAction>,
        Option<CustomMessageOutcome<S>>,
    ))
        requires
            old(self)@.wf(),
            old(self)@.pending_messages.len() == 0,
            old(self)@.admits(event@),
        ensures
            final(self)@.wf(),
            final(self)@.pending_messages.len() == 0,
            ({
                let (state, outcome, actions) = old(self)@.on_event(event@);
                &&& actions_view(step.0@) == actions
                &&& final(self)@ == state
                &&& match step.1 {
                    Some(handed_out) => handed_out@ == outcome && outcome != OutcomeView::<
                        S,
                    >::Nothing,
                    None => outcome == OutcomeView::<S>::Nothing,
                }
            }),
    {
        let mut actions: Vec<ProtocolAction> = Vec::new();
        assert(actions_view(actions@)
            =~= Seq::<ActionView>::empty());
        let outcome = match event {
            NotificationsOut::CustomProtocolOpen {
                peer_id,
                set_id,
                received_handshake,
                notifications_sink,
                negotiated_fallback,
            } => self.on_open(
                peer_id,
                set_id,
                received_handshake,
                notifications_sink,
                negotiated_fallback,
                &mut actions,
            ),
            NotificationsOut::CustomProtocolReplaced { peer_id, notifications_sink, set_id } => {
                self.on_replaced(peer_id, notifications_sink, set_id)
            },
            NotificationsOut::CustomProtocolClosed { peer_id, set_id } => self.on_closed(
                peer_id,
                set_id,
            ),
            NotificationsOut::Notification { peer_id, set_id, message } => self.on_notification(
                peer_id,
                set_id,
                message,
            ),
        };
        match outcome {
            CustomMessageOutcome::Nothing => (actions, None),
            outcome => (actions, Some(outcome)),
        }
    }

    /// Takes a disconnected syncing peer out of the state and lets the outer layers
    /// know.
    pub fn disconnect_sync_peer(&mut self, who: PeerId)
        requires
            old(self)@.wf(),
            old(self)@.peers.contains_key(who),
        ensures
            final(self)@.wf(),
            final(self)@ == old(self)@.after_disconnected(who),
    {
        self.peers.remove(&who);
        self.pending_messages.push_back(CustomMessageOutcome::SyncDisconnected(who));
        assert(self@.peers =~= old(self)@.peers.remove(who));
        assert(self@.pending_messages =~= old(self)@.pending_messages.push(
            OutcomeView::SyncDisconnected(who),
        ));
    }

    /// Takes note of how the validation of a syncing peer ended. An accepted peer is
    /// announced to the outer layers, followed by the notifications that it sent in
    /// the meantime, in their order; a rejected one is forgotten.
    pub fn report_peer_validation_result(&mut self, peer: PeerId, result: PeerValidationResult)
        requires
            old(self)@.wf(),
        ensures
            final(self)@.wf(),
            match result {
                PeerValidationResult::Accepted(roles) => final(self)@ == old(
                    self,
                )@.after_accepted(peer, roles),
                PeerValidationResult::Rejected => final(self)@ == old(self)@.after_rejected(peer),
            },
    {
        match result {
            PeerValidationResult::Accepted(roles) => match self.peers.remove(&peer) {
                Some(info) => {
                    let ghost waiting = info@.pending_notifs;
                    let mut pending_notifs = info.pending_notifs;
                    self.peers.insert(
                        peer,
                        NewPeerInfo {
                            status: PeerStatus::Accepted,
                            roles: Some(roles),
                            pending_notifs: VecDeque::new(),
                        },
                    );
                    self.pending_messages.push_back(CustomMessageOutcome::SyncConnected(peer));
                    let ghost target = old(self)@.after_accepted(peer, roles);
                    assert(self@.peers =~= target.peers) by {
                        assert(self@.peers[peer].pending_notifs
                            =~= Seq::<(PeerId, Seq<u8>)>::empty());
                    }
                    let ghost base = old(self)@.pending_messages.len() + 1;
                    let ghost mut done: int = 0;
                    assert(self@.pending_messages =~= target.pending_messages.take(base as int));
                    while pending_notifs.len() > 0
                        invariant
                            0 <= done <= waiting.len(),
                            base == old(self)@.pending_messages.len() + 1,
                            target == old(self)@.after_accepted(peer, roles),
                            target.pending_messages.len() == base + waiting.len(),
                            old(self)@.peers.contains_key(peer),
                            waiting == old(self)@.peers[peer].pending_notifs,
                            notifs_view(pending_notifs@) == waiting.skip(done),
                            self@ == (ProtocolView {
                                pending_messages: target.pending_messages.take(base + done),
                                ..target
                            }),
                        decreases pending_notifs@.len(),
                    {
                        let ghost before = notifs_view(pending_notifs@);
                        match pending_notifs.pop_front() {
                            Some((sender, message)) => {
                                assert(before[0] == (sender, message@));
                                assert(before.len() == waiting.len() - done);
                                assert(waiting[done] == waiting.skip(done)[0]);
                                assert(notifs_view(pending_notifs@) =~= before.drop_first());
                                let outcome = received(
                                    sender,
                                    self.block_announces_protocol_name.clone(),
                                    message,
                                );
                                let ghost queue = self@.pending_messages;
                                self.pending_messages.push_back(outcome);
                                proof {
                                    assert(self@.pending_messages =~= queue.push(outcome@));
                                    done = done + 1;
                                    assert(before.drop_first() =~= waiting.skip(done));
                                    assert(self@.pending_messages
                                        =~= target.pending_messages.take(base + done));
                                }
                            },
                            None => {},
                        }
                    }
                    assert(self@.pending_messages =~= target.pending_messages);
                },
                None => {
                    assert(self@.peers =~= old(self)@.peers);
                },
            },
            PeerValidationResult::Rejected => {
                self.peers.remove(&peer);
                assert(self@.peers =~= old(self)@.peers.remove(peer));
            },
        }
    }

    /// The set of the first user-defined protocol with the given name.
    fn set_of(&self, name: &String) -> (set: Option<SetId>)
        ensures
            set == self@.set_of(name@),
    {
        let ghost names = self@.notification_protocols;
        proof {
            names.index_of_first_ensures(name@);
        }
        let mut i: usize = 0;
        while i < self.notification_protocols.len()
            invariant
                i <= self.notification_protocols@.len(),
                names == config::names_view(self.notification_protocols@),
                names == self@.notification_protocols,
                forall|j: int| 0 <= j < i ==> names[j] != name@,
                match names.index_of_first(name@) {
                    Some(index) => 0 <= index < names.len() && names[index] == name@ && forall|
                        j: int,
                    |
                        0 <= j < index ==> names[j] != name@,
                    None => forall|j: int| 0 <= j < names.len() ==> names[j] != name@,
                },
            decreases self.notification_protocols@.len() - i,
        {
            assert(names[i as int] == self.notification_protocols@[i as int]@);
            if self.notification_protocols[i] == *name {
                return Some(i + NUM_HARDCODED_PEERSETS);
            }
            i = i + 1;
        }
        None
    }

    /// Disconnects a peer from a user-defined protocol. Unknown protocols are
    /// ignored.
    pub fn disconnect_peer(&self, peer_id: PeerId, protocol_name: &String) -> (action: Option<
        ProtocolAction,
    >)
        ensures
            action_view(action) == match self@.set_of(protocol_name@) {
                Some(set_id) => Some(ActionView::DisconnectPeer(peer_id, set_id)),
                None => None,
            },
    {
        match self.set_of(protocol_name) {
            Some(set_id) => Some(ProtocolAction::DisconnectPeer(peer_id, set_id)),
            None => None,
        }
    }

    /// The number of peers that we are connected to and that are being queried, among
    /// those that requests are under way to.
    pub fn num_active_peers(&self, queried: &HashSet<PeerId>) -> (count: usize)
        ensures
            count == self@.peers.dom().intersect(queried@).len(),
    {
        let mut count: usize = 0;
        let ghost ids = vstd::std_specs::iter::IteratorSpec::remaining(&queried.iter()).unref();
        let ghost connected = self@.peers.dom();
        let total: usize = queried.len();
        proof {
            ids.unique_seq_to_set();
        }
        assert(connected.intersect(ids.take(0).to_set()) =~= Set::<PeerId>::empty());
        for id in iter: queried.iter()
            invariant
                ids == iter.seq().unref(),
                ids.no_duplicates(),
                connected == self@.peers.dom(),
                count <= iter.index(),
                ids.len() == total,
                ids.to_set() == queried@,
                count == connected.intersect(ids.take(iter.index() as int).to_set()).len(),
        {
            proof {
                let i = iter.index() as int;
                let before = connected.intersect(ids.take(i).to_set());
                let after = connected.intersect(ids.take(i + 1).to_set());
                lemma_to_set_of_next(ids, i);
                assert(*id == ids[i]);
                if connected.contains(*id) {
                    assert(after =~= before.insert(*id));
                    assert(!before.contains(*id));
                } else {
                    assert(after =~= before);
                }
            }
            if self.is_sync_peer(*id) {
                count = count + 1;
            }
        }
        assert(ids.take(ids.len() as int) =~= ids);
        count
    }

    /// Sets the handshake of the block announces protocol.
    pub fn set_sync_handshake(&self, handshake_message: Vec<u8>) -> (action: ProtocolAction)
        ensures
            action@ == ActionView::SetNotifProtocolHandshake(
                HARDCODED_PEERSETS_SYNC,
                handshake_message@,
            ),
    {
        ProtocolAction::SetNotifProtocolHandshake(HARDCODED_PEERSETS_SYNC, handshake_message)
    }

    /// Sends a notification of the block announces protocol.
    pub fn write_sync_notification(&self, who: PeerId, message: Vec<u8>) -> (action: ProtocolAction)
        ensures
            action@ == ActionView::WriteNotification(who, HARDCODED_PEERSETS_SYNC, message@),
    {
        ProtocolAction::WriteNotification(who, HARDCODED_PEERSETS_SYNC, message)
    }

    /// Sends a notification of the block announces protocol to many peers.
    pub fn write_batch_sync_notification(&self, peers: Vec<PeerId>, message: Vec<u8>) -> (actions:
        Vec<ProtocolAction>)
        ensures
            actions_view(actions@) == Seq::new(
                peers@.len(),
                |i: int|
                    ActionView::WriteNotification(peers@[i], HARDCODED_PEERSETS_SYNC, message@),
            ),
    {
        let mut actions: Vec<ProtocolAction> = Vec::new();
        let mut i: usize = 0;
        while i < peers.len()
            invariant
                i <= peers@.len(),
                actions@.len() == i,
                forall|j: int|
                    0 <= j < i ==> (#[trigger] actions@[j])@ == ActionView::WriteNotification(
                        peers@[j],
                        HARDCODED_PEERSETS_SYNC,
                        message@,
                    ),
            decreases peers@.len() - i,
        {
            actions.push(
                ProtocolAction::WriteNotification(
                    peers[i],
                    HARDCODED_PEERSETS_SYNC,
                    message.clone(),
                ),
            );
            i = i + 1;
        }
        assert(actions_view(actions@) =~= Seq::new(
            peers@.len(),
            |i: int| ActionView::WriteNotification(peers@[i], HARDCODED_PEERSETS_SYNC, message@),
        ));
        actions
    }

    /// Changes the reputation of a peer.
    pub fn report_peer(&self, who: PeerId, reputation: ReputationChange) -> (action: ProtocolAction)
        ensures
            action@ == ActionView::ReportPeer(who, reputation),
    {
        ProtocolAction::ReportPeer(who, reputation)
    }

    /// Sets whether reserved peers alone are synced from.
    pub fn set_reserved_only(&self, reserved_only: bool) -> (action: ProtocolAction)
        ensures
            action@ == ActionView::SetReservedOnly(HARDCODED_PEERSETS_SYNC, reserved_only),
    {
        ProtocolAction::SetReservedOnly(HARDCODED_PEERSETS_SYNC, reserved_only)
    }

    /// Removes a peer from the reserved ones that are synced from.
    pub fn remove_reserved_peer(&self, peer: PeerId) -> (action: ProtocolAction)
        ensures
            action@ == ActionView::RemoveReservedPeer(HARDCODED_PEERSETS_SYNC, peer),
    {
        ProtocolAction::RemoveReservedPeer(HARDCODED_PEERSETS_SYNC, peer)
    }

    /// Adds a peer to the reserved ones that are synced from.
    pub fn add_reserved_peer(&self, peer: PeerId) -> (action: ProtocolAction)
        ensures
            action@ == ActionView::AddReservedPeer(HARDCODED_PEERSETS_SYNC, peer),
    {
        ProtocolAction::AddReservedPeer(HARDCODED_PEERSETS_SYNC, peer)
    }

    /// Sets the reserved peers that are synced from.
    pub fn set_reserved_peers(&self, peers: HashSet<PeerId>) -> (action: ProtocolAction)
        ensures
            action@ == ActionView::SetReservedPeers(HARDCODED_PEERSETS_SYNC, peers@),
    {
        ProtocolAction::SetReservedPeers(HARDCODED_PEERSETS_SYNC, peers)
    }

    /// Sets the reserved peers of a user-defined protocol. Unknown protocols are
    /// ignored.
    pub fn set_reserved_peerset_peers(&self, protocol: &String, peers: HashSet<PeerId>) -> (action:
        Option<ProtocolAction>)
        ensures
            action_view(action) == match self@.set_of(protocol@) {
                Some(set_id) => Some(ActionView::SetReservedPeers(set_id, peers@)),
                None => None,
            },
    {
        match self.set_of(protocol) {
            Some(set_id) => Some(ProtocolAction::SetReservedPeers(set_id, peers)),
            None => None,
        }
    }

    /// Removes a peer from the reserved ones of a user-defined protocol. Unknown
    /// protocols are ignored.
    pub fn remove_set_reserved_peer(&self, protocol: &String, peer: PeerId) -> (action: Option<
        ProtocolAction,
    >)
        ensures
            action_view(action) == match self@.set_of(protocol@) {
                Some(set_id) => Some(ActionView::RemoveReservedPeer(set_id, peer)),
                None => None,
            },
    {
        match self.set_of(protocol) {
            Some(set_id) => Some(ProtocolAction::RemoveReservedPeer(set_id, peer)),
            None => None,
        }
    }

    /// Adds a peer to the reserved ones of a user-defined protocol. Unknown
    /// protocols are ignored.
    pub fn add_set_reserved_peer(&self, protocol: &String, peer: PeerId) -> (action: Option<
        ProtocolAction,
    >)
        ensures
            action_view(action) == match self@.set_of(protocol@) {
                Some(set_id) => Some(ActionView::AddReservedPeer(set_id, peer)),
                None => None,
            },
    {
        match self.set_of(protocol) {
            Some(set_id) => Some(ProtocolAction::AddReservedPeer(set_id, peer)),
            None => None,
        }
    }

    /// Lets the set of the peers that are synced from know of discovered nodes. May
    /// be called with the same peers more than once.
    pub fn add_default_set_discovered_nodes(&self, peer_ids: Vec<PeerId>) -> (actions: Vec<
        ProtocolAction,
    >)
        ensures
            actions_view(actions@) == Seq::new(
                peer_ids@.len(),
                |i: int| ActionView::AddToPeersSet(HARDCODED_PEERSETS_SYNC, peer_ids@[i]),
            ),
    {
        let mut actions: Vec<ProtocolAction> = Vec::new();
        let mut i: usize = 0;
        while i < peer_ids.len()
            invariant
                i <= peer_ids@.len(),
                actions@.len() == i,
                forall|j: int|
                    0 <= j < i ==> (#[trigger] actions@[j])@ == ActionView::AddToPeersSet(
                        HARDCODED_PEERSETS_SYNC,
                        peer_ids@[j],
                    ),
            decreases peer_ids@.len() - i,
        {
            actions.push(ProtocolAction::AddToPeersSet(HARDCODED_PEERSETS_SYNC, peer_ids[i]));
            i = i + 1;
        }
        assert(actions_view(actions@) =~= Seq::new(
            peer_ids@.len(),
            |i: int| ActionView::AddToPeersSet(HARDCODED_PEERSETS_SYNC, peer_ids@[i]),
        ));
        actions
    }

    /// Adds a peer to the set of a user-defined protocol. Unknown protocols are
    /// ignored.
    pub fn add_to_peers_set(&self, protocol: &String, peer: PeerId) -> (action: Option<
        ProtocolAction,
    >)
        ensures
            action_view(action) == match self@.set_of(protocol@) {
                Some(set_id) => Some(ActionView::AddToPeersSet(set_id, peer)),
                None => None,
            },
    {
        match self.set_of(protocol) {
            Some(set_id) => Some(ProtocolAction::AddToPeersSet(set_id, peer)),
            None => None,
        }
    }

    /// Removes a peer from the set of a user-defined protocol. Unknown protocols are
    /// ignored.
    pub fn remove_from_peers_set(&self, protocol: &String, peer: PeerId) -> (action: Option<
        ProtocolAction,
    >)
        ensures
            action_view(action) == match self@.set_of(protocol@) {
                Some(set_id) => Some(ActionView::RemoveFromPeersSet(set_id, peer)),
                None => None,
            },
    {
        match self.set_of(protocol) {
            Some(set_id) => Some(ProtocolAction::RemoveFromPeersSet(set_id, peer)),
            None => None,
        }
    }
}

/// What one more element adds to the set of the first ones.
proof fn lemma_to_set_of_next(ids: Seq<PeerId>, i: int)
    requires
        ids.no_duplicates(),
        0 <= i < ids.len(),
    ensures
        ids.take(i + 1).to_set() == ids.take(i).to_set().insert(ids[i]),
        !ids.take(i).to_set().contains(ids[i]),
        ids.take(i).to_set().finite(),
{
    let before = ids.take(i);
    let after = ids.take(i + 1);
    assert(after =~= before.push(ids[i]));
    assert forall|id: PeerId| after.contains(id) <==> before.contains(id) || id == ids[i] by {
        if before.contains(id) {
            let j = choose|j: int| 0 <= j < before.len() && before[j] == id;
            assert(after[j] == id);
        }
        assert(after[i] == ids[i]);
    }
    assert(after.to_set() =~= before.to_set().insert(ids[i]));
}

/// One notification of a protocol.
fn received<S>(remote: PeerId, protocol: String, message: Vec<u8>) -> (outcome:
    CustomMessageOutcome<S>)
    ensures
        outcome@ == (OutcomeView::<S>::NotificationsReceived {
            remote,
            messages: seq![(protocol@, message@)],
        }),
{
    let ghost expected = seq![(protocol@, message@)];
    let messages = vec![(protocol, message)];
    assert(messages@.map_values(|message: (String, Vec<u8>)| (message.0@, message.1@))
        =~= expected);
    CustomMessageOutcome::NotificationsReceived { remote, messages }
}

} // verus!
