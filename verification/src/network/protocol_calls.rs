//! What the calls of the protocol state machine do, told from their arguments and results
//! alone.
use crate::network::config::{
    self, MultiaddrWithPeerId, NetworkConfiguration, NonDefaultSetConfig, PeersetSetConfig,
    ProtocolConfig, SetConfig,
};
use crate::network::primitives::{PeerId, ReputationChange, Roles, SetId};
use crate::network::protocol::{
    actions_view, CustomMessageOutcome, NotificationsOut, PeerValidationResult, Protocol,
    ProtocolAction,
};
use crate::network::protocol_model::{OutcomeView, PeerStatus, ProtocolView};
use crate::network::rep;
use std::collections::HashSet;
use vstd::prelude::*;

verus! {

/// Whether nothing is to be done and this is handed out.
pub open spec fn only_hands_out<S>(
    step: (Vec<ProtocolAction>, Option<CustomMessageOutcome<S>>),
) -> bool {
    step.0@.len() == 0 && step.1 is Some
}

/// Whether nothing is to be done and nothing is handed out.
pub open spec fn does_nothing<S>(
    step: (Vec<ProtocolAction>, Option<CustomMessageOutcome<S>>),
) -> bool {
    step.0@.len() == 0 && step.1 is None
}

/// Whether two optional names are the same.
pub open spec fn same_name(a: Option<String>, b: Option<String>) -> bool {
    (a is Some <==> b is Some) && (a is Some ==> a->0@ == b->0@)
}

/// No action has no view, and an action is what its view says.
proof fn lemma_actions(actions: Seq<ProtocolAction>)
    ensures
        actions_view(actions).len() == actions.len(),
        forall|i: int| 0 <= i < actions.len() ==> #[trigger] actions_view(actions)[i] == actions[i]@,
{
}

/// A substream of a user-defined protocol that is opened with one byte of known roles is
/// handed out with exactly those roles, under the name of its protocol.
pub proof fn lemma_opened_with_the_roles_of_the_handshake<S>(
    protocol: &mut Protocol<S>,
    peer_id: PeerId,
    set_id: SetId,
    received_handshake: Vec<u8>,
    notifications_sink: S,
    negotiated_fallback: Option<String>,
    step: (Vec<ProtocolAction>, Option<CustomMessageOutcome<S>>),
)
    requires
        set_id != 0,
        received_handshake@.len() == 1,
        received_handshake@[0] <= 7,
        call_ensures(
            Protocol::<S>::poll,
            (
                protocol,
                NotificationsOut::CustomProtocolOpen {
                    peer_id,
                    set_id,
                    received_handshake,
                    notifications_sink,
                    negotiated_fallback,
                },
            ),
            step,
        ),
    ensures
        final(protocol)@ == old(protocol)@,
        only_hands_out(step),
        step.1->0 matches CustomMessageOutcome::NotificationStreamOpened {
            remote,
            protocol: name,
            negotiated_fallback: fallback,
            roles,
            notifications_sink: sink,
        } && {
            &&& remote == peer_id
            &&& name@ == old(protocol)@.notification_protocols[set_id - 1]
            &&& same_name(fallback, negotiated_fallback)
            &&& roles.bits == received_handshake@[0]
            &&& sink == notifications_sink
        },
{
    lemma_actions(step.0@);
}

/// A substream of a user-defined protocol that an accepted peer opens with an empty
/// handshake is handed out with the roles that the peer was accepted with.
pub proof fn lemma_opened_with_the_roles_of_the_acceptance<S>(
    protocol: &mut Protocol<S>,
    peer_id: PeerId,
    set_id: SetId,
    received_handshake: Vec<u8>,
    notifications_sink: S,
    negotiated_fallback: Option<String>,
    step: (Vec<ProtocolAction>, Option<CustomMessageOutcome<S>>),
)
    requires
        set_id != 0,
        received_handshake@.len() == 0,
        old(protocol)@.peers.contains_key(peer_id),
        old(protocol)@.peers[peer_id].status == PeerStatus::Accepted,
        old(protocol)@.peers[peer_id].roles is Some,
        call_ensures(
            Protocol::<S>::poll,
            (
                protocol,
                NotificationsOut::CustomProtocolOpen {
                    peer_id,
                    set_id,
                    received_handshake,
                    notifications_sink,
                    negotiated_fallback,
                },
            ),
            step,
        ),
    ensures
        final(protocol)@ == old(protocol)@,
        only_hands_out(step),
        step.1->0 matches CustomMessageOutcome::NotificationStreamOpened {
            remote,
            protocol: name,
            negotiated_fallback: fallback,
            roles,
            notifications_sink: sink,
        } && {
            &&& remote == peer_id
            &&& name@ == old(protocol)@.notification_protocols[set_id - 1]
            &&& same_name(fallback, negotiated_fallback)
            &&& Some(roles) == old(protocol)@.peers[peer_id].roles
            &&& sink == notifications_sink
        },
{
    lemma_actions(step.0@);
}

/// A substream of a user-defined protocol that is opened with anything else than one byte
/// of known roles, or nothing by an accepted peer, is not handed out. The peer is
/// disconnected from it and pays for a bad message, and the substream is marked; nothing
/// else changes.
pub proof fn lemma_opened_with_a_bad_handshake<S>(
    protocol: &mut Protocol<S>,
    peer_id: PeerId,
    set_id: SetId,
    received_handshake: Vec<u8>,
    notifications_sink: S,
    negotiated_fallback: Option<String>,
    step: (Vec<ProtocolAction>, Option<CustomMessageOutcome<S>>),
)
    requires
        set_id != 0,
        !(received_handshake@.len() == 1 && received_handshake@[0] <= 7),
        !(received_handshake@.len() == 0 && old(protocol)@.peers.contains_key(peer_id)
            && old(protocol)@.peers[peer_id].status == PeerStatus::Accepted),
        call_ensures(
            Protocol::<S>::poll,
            (
                protocol,
                NotificationsOut::CustomProtocolOpen {
                    peer_id,
                    set_id,
                    received_handshake,
                    notifications_sink,
                    negotiated_fallback,
                },
            ),
            step,
        ),
    ensures
        step.1 is None,
        step.0@.len() == 2,
        step.0@[0] == ProtocolAction::DisconnectPeer(peer_id, set_id),
        step.0@[1] == ProtocolAction::ReportPeer(peer_id, rep::bad_message()),
        forall|peer: PeerId, set: SetId| #[trigger]
            final(protocol)@.bad_handshake_substreams.contains((peer, set)) <==> old(protocol)@.bad_handshake_substreams.contains((peer, set)) || (peer == peer_id && set == set_id),
        final(protocol)@ == (ProtocolView {
            bad_handshake_substreams: final(protocol)@.bad_handshake_substreams,
            ..old(protocol)@
        }),
{
    lemma_actions(step.0@);
    assert(actions_view(step.0@)[0] == step.0@[0]@);
    assert(actions_view(step.0@)[1] == step.0@[1]@);
}

/// A peer that opens a substream of the block announces protocol is handed out with what
/// it sent, whatever that is, and is on probation from then on: no roles are known of it,
/// and nothing waits.
pub proof fn lemma_connecting_peers_are_on_probation<S>(
    protocol: &mut Protocol<S>,
    peer_id: PeerId,
    received_handshake: Vec<u8>,
    notifications_sink: S,
    negotiated_fallback: Option<String>,
    step: (Vec<ProtocolAction>, Option<CustomMessageOutcome<S>>),
)
    requires
        call_ensures(
            Protocol::<S>::poll,
            (
                protocol,
                NotificationsOut::CustomProtocolOpen {
                    peer_id,
                    set_id: 0,
                    received_handshake,
                    notifications_sink,
                    negotiated_fallback,
                },
            ),
            step,
        ),
    ensures
        only_hands_out(step),
        step.1->0 matches CustomMessageOutcome::PeerConnected {
            peer_id: peer,
            received_handshake: handshake,
            negotiated_fallback: fallback,
        } && peer == peer_id && handshake@ == received_handshake@ && same_name(
            fallback,
            negotiated_fallback,
        ),
        final(protocol)@.peers.contains_key(peer_id),
        final(protocol)@.peers[peer_id].status == PeerStatus::OnProbation,
        final(protocol)@.peers[peer_id].roles is None,
        final(protocol)@.peers[peer_id].pending_notifs.len() == 0,
        differs_in_one_peer(old(protocol)@, final(protocol)@, peer_id),
{
    lemma_actions(step.0@);
}

/// Whether two states differ at most in what is known of one peer.
pub open spec fn differs_in_one_peer<S>(
    before: ProtocolView<S>,
    after: ProtocolView<S>,
    who: PeerId,
) -> bool {
    &&& forall|peer: PeerId|
        #![trigger after.peers.contains_key(peer)]
        #![trigger before.peers.contains_key(peer)]
        peer != who ==> after.peers.contains_key(peer) == before.peers.contains_key(peer) && (
        before.peers.contains_key(peer) ==> after.peers[peer] == before.peers[peer])
    &&& after == (ProtocolView { peers: after.peers, ..before })
}

/// A new sink for a substream of a user-defined protocol is handed out, unless the
/// substream is marked; one for the block announces protocol is not. Nothing changes.
pub proof fn lemma_replaced_sinks_are_handed_out<S>(
    protocol: &mut Protocol<S>,
    peer_id: PeerId,
    set_id: SetId,
    notifications_sink: S,
    step: (Vec<ProtocolAction>, Option<CustomMessageOutcome<S>>),
)
    requires
        call_ensures(
            Protocol::<S>::poll,
            (
                protocol,
                NotificationsOut::CustomProtocolReplaced { peer_id, notifications_sink, set_id },
            ),
            step,
        ),
    ensures
        final(protocol)@ == old(protocol)@,
        set_id == 0 || old(protocol)@.bad_handshake_substreams.contains((peer_id, set_id))
            ==> does_nothing(step),
        set_id != 0 && !old(protocol)@.bad_handshake_substreams.contains((peer_id, set_id)) ==> {
            &&& only_hands_out(step)
            &&& step.1->0 matches CustomMessageOutcome::NotificationStreamReplaced {
                remote,
                protocol: name,
                notifications_sink: sink,
            }
            &&& remote == peer_id
            &&& name@ == old(protocol)@.notification_protocols[set_id - 1]
            &&& sink == notifications_sink
        },
{
    lemma_actions(step.0@);
}

/// The closing of a substream is handed out under the name of its protocol, unless the
/// substream is marked: then the mark leaves. A peer whose substream of the block
/// announces protocol is closed is disconnecting from then on.
pub proof fn lemma_closed_substreams_are_handed_out<S>(
    protocol: &mut Protocol<S>,
    peer_id: PeerId,
    set_id: SetId,
    step: (Vec<ProtocolAction>, Option<CustomMessageOutcome<S>>),
)
    requires
        call_ensures(
            Protocol::<S>::poll,
            (protocol, NotificationsOut::CustomProtocolClosed { peer_id, set_id }),
            step,
        ),
    ensures
        set_id == 0 ==> {
            &&& only_hands_out(step)
            &&& step.1->0 matches CustomMessageOutcome::NotificationStreamClosed {
                remote,
                protocol: name,
            }
            &&& remote == peer_id
            &&& name@ == old(protocol)@.block_announces_protocol_name
            &&& final(protocol)@.peers.contains_key(peer_id)
            &&& final(protocol)@.peers[peer_id].status == PeerStatus::Disconnecting
            &&& final(protocol)@.peers[peer_id].roles == old(protocol)@.peers[peer_id].roles
            &&& final(protocol)@.peers[peer_id].pending_notifs == old(protocol)@.peers[peer_id].pending_notifs
            &&& differs_in_one_peer(old(protocol)@, final(protocol)@, peer_id)
        },
        set_id != 0 && old(protocol)@.bad_handshake_substreams.contains((peer_id, set_id)) ==> {
            &&& does_nothing(step)
            &&& forall|peer: PeerId, set: SetId| #[trigger]
                final(protocol)@.bad_handshake_substreams.contains((peer, set)) <==> old(protocol)@.bad_handshake_substreams.contains((peer, set)) && !(peer == peer_id && set
                    == set_id)
            &&& final(protocol)@ == (ProtocolView {
                bad_handshake_substreams: final(protocol)@.bad_handshake_substreams,
                ..old(protocol)@
            })
        },
        set_id != 0 && !old(protocol)@.bad_handshake_substreams.contains((peer_id, set_id)) ==> {
            &&& only_hands_out(step)
            &&& step.1->0 matches CustomMessageOutcome::NotificationStreamClosed {
                remote,
                protocol: name,
            }
            &&& remote == peer_id
            &&& name@ == old(protocol)@.notification_protocols[set_id - 1]
            &&& final(protocol)@ == old(protocol)@
        },
{
    lemma_actions(step.0@);
}

/// A notification is handed out alone, with its sender and under the name of its protocol,
/// unless the substream is marked. One of the block announces protocol waits, behind those
/// that came before it, while its sender is on probation.
pub proof fn lemma_notifications_are_handed_out<S>(
    protocol: &mut Protocol<S>,
    peer_id: PeerId,
    set_id: SetId,
    message: Vec<u8>,
    step: (Vec<ProtocolAction>, Option<CustomMessageOutcome<S>>),
)
    requires
        call_ensures(
            Protocol::<S>::poll,
            (protocol, NotificationsOut::Notification { peer_id, set_id, message }),
            step,
        ),
    ensures
        ({
            let waits = set_id == 0 && old(protocol)@.peers[peer_id].status
                == PeerStatus::OnProbation;
            let hidden = set_id != 0 && old(protocol)@.bad_handshake_substreams.contains(
                (peer_id, set_id),
            );
            &&& waits || hidden ==> does_nothing(step)
            &&& !waits ==> final(protocol)@ == old(protocol)@
            &&& !waits && !hidden ==> {
                &&& only_hands_out(step)
                &&& step.1->0 matches CustomMessageOutcome::NotificationsReceived {
                    remote,
                    messages,
                }
                &&& remote == peer_id
                &&& messages@.len() == 1
                &&& messages@[0].1@ == message@
                &&& set_id == 0 ==> messages@[0].0@ == old(protocol)@.block_announces_protocol_name
                &&& set_id != 0 ==> messages@[0].0@ == old(protocol)@.notification_protocols[set_id - 1]
            }
            &&& waits ==> {
                let before = old(protocol)@.peers[peer_id].pending_notifs;
                let after = final(protocol)@.peers[peer_id].pending_notifs;
                &&& final(protocol)@.peers.contains_key(peer_id)
                &&& after.len() == before.len() + 1
                &&& after[after.len() - 1] == (peer_id, message@)
                &&& forall|i: int| 0 <= i < before.len() ==> #[trigger] after[i] == before[i]
                &&& final(protocol)@.peers[peer_id].status == PeerStatus::OnProbation
                &&& final(protocol)@.peers[peer_id].roles == old(protocol)@.peers[peer_id].roles
                &&& differs_in_one_peer(old(protocol)@, final(protocol)@, peer_id)
            }
        }),
{
    lemma_actions(step.0@);
    if step.1 is Some {
        if let CustomMessageOutcome::NotificationsReceived { remote, messages } = step.1->0 {
            let views = messages@.map_values(
                |message: (String, Vec<u8>)| (message.0@, message.1@),
            );
            assert(views.len() == messages@.len());
            assert(views[0] == (messages@[0].0@, messages@[0].1@));
        }
    }
}

/// Whether the outcome that is handed out is the one that waited.
pub open spec fn is_told_as<S>(outcome: CustomMessageOutcome<S>, waiting: OutcomeView<S>) -> bool {
    match waiting {
        OutcomeView::SyncConnected(peer) => outcome == CustomMessageOutcome::<S>::SyncConnected(
            peer,
        ),
        OutcomeView::SyncDisconnected(peer) => outcome == CustomMessageOutcome::<
            S,
        >::SyncDisconnected(peer),
        OutcomeView::NotificationsReceived { remote, messages } => {
            &&& outcome matches CustomMessageOutcome::NotificationsReceived {
                remote: from,
                messages: received,
            }
            &&& from == remote
            &&& received@.len() == messages.len()
            &&& forall|i: int|
                0 <= i < messages.len() ==> (#[trigger] received@[i]).0@ == messages[i].0
                    && received@[i].1@ == messages[i].1
        },
        _ => outcome@ == waiting,
    }
}

/// The outcome that waits longest is handed out, and the others move up; where none waits,
/// there is none.
pub proof fn lemma_first_come_first_served<S>(
    protocol: &mut Protocol<S>,
    outcome: Option<CustomMessageOutcome<S>>,
)
    requires
        call_ensures(Protocol::<S>::poll_pending, (protocol,), outcome),
    ensures
        outcome is Some <==> old(protocol)@.pending_messages.len() > 0,
        outcome is Some ==> is_told_as(outcome->0, old(protocol)@.pending_messages[0]),
        outcome is Some ==> final(protocol)@.pending_messages.len() + 1 == old(protocol)@.pending_messages.len(),
        forall|i: int|
            0 <= i < final(protocol)@.pending_messages.len() ==> #[trigger] final(protocol)@.pending_messages[i] == old(protocol)@.pending_messages[i + 1],
        final(protocol)@ == (ProtocolView {
            pending_messages: final(protocol)@.pending_messages,
            ..old(protocol)@
        }),
        outcome is None ==> final(protocol)@ == old(protocol)@,
{
    if outcome is Some {
        if let CustomMessageOutcome::NotificationsReceived { remote, messages } = outcome->0 {
            let views = messages@.map_values(
                |message: (String, Vec<u8>)| (message.0@, message.1@),
            );
            assert(views.len() == messages@.len());
            assert forall|i: int| 0 <= i < messages@.len() implies #[trigger] views[i] == (
                messages@[i].0@,
                messages@[i].1@,
            ) by {}
            assert forall|i: int| 0 <= i < messages@.len() implies (#[trigger] messages@[i]).0@
                == views[i].0 && messages@[i].1@ == views[i].1 by {}
        }
    }
}

/// A peer is one that is synced with while it is known.
pub proof fn lemma_known_peers_are_synced_with<S>(protocol: &Protocol<S>, peer: PeerId, known: bool)
    requires
        call_ensures(Protocol::<S>::is_sync_peer, (protocol, peer), known),
    ensures
        known <==> protocol@.peers.contains_key(peer),
{
}

/// The acceptance of a known peer waits to be handed out, behind what waits already and
/// before what the peer sent while it was on probation, in the order in which it sent it.
/// The peer is accepted from then on, with the given roles, and nothing of it waits any
/// more.
pub proof fn lemma_accepted_peers_are_handed_out<S>(
    protocol: &mut Protocol<S>,
    peer: PeerId,
    roles: Roles,
    nothing: (),
)
    requires
        old(protocol)@.peers.contains_key(peer),
        call_ensures(
            Protocol::<S>::report_peer_validation_result,
            (protocol, peer, PeerValidationResult::Accepted(roles)),
            nothing,
        ),
    ensures
        ({
            let before = old(protocol)@.pending_messages;
            let waiting = old(protocol)@.peers[peer].pending_notifs;
            let after = final(protocol)@.pending_messages;
            &&& after.len() == before.len() + 1 + waiting.len()
            &&& forall|i: int| 0 <= i < before.len() ==> #[trigger] after[i] == before[i]
            &&& after[before.len() as int] == OutcomeView::<S>::SyncConnected(peer)
            &&& forall|i: int|
                before.len() < i < after.len() ==> #[trigger] after[i] == (OutcomeView::<
                    S,
                >::NotificationsReceived {
                    remote: waiting[i - before.len() - 1].0,
                    messages: seq![
                        (
                            old(protocol)@.block_announces_protocol_name,
                            waiting[i - before.len() - 1].1,
                        ),
                    ],
                })
            &&& final(protocol)@.peers.contains_key(peer)
            &&& final(protocol)@.peers[peer].status == PeerStatus::Accepted
            &&& final(protocol)@.peers[peer].roles == Some(roles)
            &&& final(protocol)@.peers[peer].pending_notifs.len() == 0
            &&& differs_in_one_peer(
                old(protocol)@,
                ProtocolView { pending_messages: before, ..final(protocol)@ },
                peer,
            )
        }),
{
}

/// A rejected peer is forgotten together with what it sent, nothing is handed out of it,
/// and the result of an unknown peer changes nothing.
pub proof fn lemma_rejected_peers_are_forgotten<S>(
    protocol: &mut Protocol<S>,
    peer: PeerId,
    result: PeerValidationResult,
    nothing: (),
)
    requires
        call_ensures(
            Protocol::<S>::report_peer_validation_result,
            (protocol, peer, result),
            nothing,
        ),
    ensures
        result is Rejected ==> !final(protocol)@.peers.contains_key(peer) && differs_in_one_peer(
            old(protocol)@,
            final(protocol)@,
            peer,
        ),
        !old(protocol)@.peers.contains_key(peer) ==> final(protocol)@ == old(protocol)@,
{
    if !old(protocol)@.peers.contains_key(peer) {
        assert(old(protocol)@.peers.remove(peer) =~= old(protocol)@.peers);
    }
}

/// A peer that is disconnected is forgotten, and that it is gone waits to be handed out,
/// behind what waits already.
pub proof fn lemma_disconnected_peers_are_handed_out<S>(
    protocol: &mut Protocol<S>,
    who: PeerId,
    nothing: (),
)
    requires
        call_ensures(Protocol::<S>::disconnect_sync_peer, (protocol, who), nothing),
    ensures
        ({
            let before = old(protocol)@.pending_messages;
            let after = final(protocol)@.pending_messages;
            &&& after.len() == before.len() + 1
            &&& forall|i: int| 0 <= i < before.len() ==> #[trigger] after[i] == before[i]
            &&& after[before.len() as int] == OutcomeView::<S>::SyncDisconnected(who)
            &&& !final(protocol)@.peers.contains_key(who)
            &&& differs_in_one_peer(
                old(protocol)@,
                ProtocolView { pending_messages: before, ..final(protocol)@ },
                who,
            )
        }),
{
}

/// Whether the set is the one that a name stands for: the first user-defined one with that
/// name.
pub open spec fn stands_for<S>(state: ProtocolView<S>, name: Seq<char>, set: SetId) -> bool {
    &&& 1 <= set <= state.notification_protocols.len()
    &&& state.notification_protocols[set - 1] == name
    &&& forall|i: int|
        0 <= i < set - 1 ==> #[trigger] state.notification_protocols[i] != name
}

/// A name stands for the first set with that name, and for none where there is none.
proof fn lemma_stands_for<S>(protocol: &Protocol<S>, name: Seq<char>)
    requires
        protocol@.notification_protocols.len() < usize::MAX,
    ensures
        protocol@.set_of(name) matches Some(set) ==> stands_for(protocol@, name, set),
        protocol@.set_of(name) is None ==> !protocol@.notification_protocols.contains(name),
{
    protocol@.notification_protocols.index_of_first_ensures(name);
}

/// What is done about a peer under the name of a user-defined protocol is done in the
/// first set with that name, and nothing is done exactly where no set has it.
pub proof fn lemma_names_stand_for_sets<S>(
    protocol: &Protocol<S>,
    name: &String,
    peer: PeerId,
    peers: HashSet<PeerId>,
    disconnect: Option<ProtocolAction>,
    set_reserved: Option<ProtocolAction>,
    remove_reserved: Option<ProtocolAction>,
    add_reserved: Option<ProtocolAction>,
    add: Option<ProtocolAction>,
    remove: Option<ProtocolAction>,
)
    requires
        protocol@.notification_protocols.len() < usize::MAX,
        call_ensures(Protocol::<S>::disconnect_peer, (protocol, peer, name), disconnect),
        call_ensures(
            Protocol::<S>::set_reserved_peerset_peers,
            (protocol, name, peers),
            set_reserved,
        ),
        call_ensures(
            Protocol::<S>::remove_set_reserved_peer,
            (protocol, name, peer),
            remove_reserved,
        ),
        call_ensures(Protocol::<S>::add_set_reserved_peer, (protocol, name, peer), add_reserved),
        call_ensures(Protocol::<S>::add_to_peers_set, (protocol, name, peer), add),
        call_ensures(Protocol::<S>::remove_from_peers_set, (protocol, name, peer), remove),
    ensures
        ({
            let known = exists|i: int|
                0 <= i < protocol@.notification_protocols.len()
                    && #[trigger] protocol@.notification_protocols[i] == name@;
            &&& disconnect is Some <==> known
            &&& set_reserved is Some <==> known
            &&& remove_reserved is Some <==> known
            &&& add_reserved is Some <==> known
            &&& add is Some <==> known
            &&& remove is Some <==> known
            &&& known ==> (disconnect->0 matches ProtocolAction::DisconnectPeer(who, set) && who
                == peer && stands_for(protocol@, name@, set))
            &&& known ==> (set_reserved->0 matches ProtocolAction::SetReservedPeers(set, reserved)
                && reserved@ == peers@ && stands_for(protocol@, name@, set))
            &&& known ==> (remove_reserved->0 matches ProtocolAction::RemoveReservedPeer(set, who)
                && who == peer && stands_for(protocol@, name@, set))
            &&& known ==> (add_reserved->0 matches ProtocolAction::AddReservedPeer(set, who) && who
                == peer && stands_for(protocol@, name@, set))
            &&& known ==> (add->0 matches ProtocolAction::AddToPeersSet(set, who) && who == peer
                && stands_for(protocol@, name@, set))
            &&& known ==> (remove->0 matches ProtocolAction::RemoveFromPeersSet(set, who) && who
                == peer && stands_for(protocol@, name@, set))
        }),
{
    lemma_stands_for(protocol, name@);
}

/// What is done for syncing is done in the first set, as it was given: one message is sent
/// to each of the given peers, in their order, and each discovered node is added.
pub proof fn lemma_syncing_is_the_first_set<S>(
    protocol: &Protocol<S>,
    peer: PeerId,
    peers: Vec<PeerId>,
    reserved: HashSet<PeerId>,
    bytes: Vec<u8>,
    reserved_only: bool,
    change: ReputationChange,
    handshake: ProtocolAction,
    notification: ProtocolAction,
    notifications: Vec<ProtocolAction>,
    discovered: Vec<ProtocolAction>,
    report: ProtocolAction,
    only_reserved: ProtocolAction,
    add: ProtocolAction,
    remove: ProtocolAction,
    set: ProtocolAction,
)
    requires
        call_ensures(Protocol::<S>::set_sync_handshake, (protocol, bytes), handshake),
        call_ensures(Protocol::<S>::write_sync_notification, (protocol, peer, bytes), notification),
        call_ensures(
            Protocol::<S>::write_batch_sync_notification,
            (protocol, peers, bytes),
            notifications,
        ),
        call_ensures(
            Protocol::<S>::add_default_set_discovered_nodes,
            (protocol, peers),
            discovered,
        ),
        call_ensures(Protocol::<S>::report_peer, (protocol, peer, change), report),
        call_ensures(Protocol::<S>::set_reserved_only, (protocol, reserved_only), only_reserved),
        call_ensures(Protocol::<S>::add_reserved_peer, (protocol, peer), add),
        call_ensures(Protocol::<S>::remove_reserved_peer, (protocol, peer), remove),
        call_ensures(Protocol::<S>::set_reserved_peers, (protocol, reserved), set),
    ensures
        handshake matches ProtocolAction::SetNotifProtocolHandshake(set, sent) && set == 0 && sent@
            == bytes@,
        notification matches ProtocolAction::WriteNotification(to, set, sent) && to == peer && set
            == 0 && sent@ == bytes@,
        notifications@.len() == peers@.len(),
        forall|i: int|
            0 <= i < peers@.len() ==> (#[trigger] notifications@[i] matches
                ProtocolAction::WriteNotification(to, set, sent) && to == peers@[i] && set == 0
                && sent@ == bytes@),
        discovered@.len() == peers@.len(),
        forall|i: int|
            0 <= i < peers@.len() ==> #[trigger] discovered@[i] == ProtocolAction::AddToPeersSet(
                0,
                peers@[i],
            ),
        report == ProtocolAction::ReportPeer(peer, change),
        only_reserved == ProtocolAction::SetReservedOnly(0, reserved_only),
        add == ProtocolAction::AddReservedPeer(0, peer),
        remove == ProtocolAction::RemoveReservedPeer(0, peer),
        set matches ProtocolAction::SetReservedPeers(id, sent) && id == 0 && sent@ == reserved@,
{
    lemma_actions(notifications@);
    lemma_actions(discovered@);
    assert forall|i: int| 0 <= i < peers@.len() implies (#[trigger] notifications@[i] matches
        ProtocolAction::WriteNotification(to, set, sent) && to == peers@[i] && set == 0 && sent@
        == bytes@) by {
        assert(actions_view(notifications@)[i] == notifications@[i]@);
    }
    assert forall|i: int| 0 <= i < peers@.len() implies #[trigger] discovered@[i]
        == ProtocolAction::AddToPeersSet(0, peers@[i]) by {
        assert(actions_view(discovered@)[i] == discovered@[i]@);
    }
}

/// The active peers are the connected ones among the queried ones: where all queried peers
/// are connected, all are counted, where none is, none, and one more queried peer counts
/// exactly where it is connected.
pub proof fn lemma_active_peers_are_counted<S>(
    protocol: &Protocol<S>,
    queried: &HashSet<PeerId>,
    more: &HashSet<PeerId>,
    peer: PeerId,
    count: usize,
    count_of_more: usize,
)
    requires
        !queried@.contains(peer),
        more@ == queried@.insert(peer),
        call_ensures(Protocol::<S>::num_active_peers, (protocol, queried), count),
        call_ensures(Protocol::<S>::num_active_peers, (protocol, more), count_of_more),
    ensures
        queried@.finite() ==> count_of_more == if protocol@.peers.contains_key(peer) {
            count + 1
        } else {
            count as int
        },
        (forall|id: PeerId| #[trigger]
            queried@.contains(id) ==> !protocol@.peers.contains_key(id)) ==> count == 0,
        (forall|id: PeerId| #[trigger]
            queried@.contains(id) ==> protocol@.peers.contains_key(id)) ==> count == queried@.len(),
{
    let connected = protocol@.peers.dom();
    let before = connected.intersect(queried@);
    let after = connected.intersect(more@);
    if connected.contains(peer) {
        assert(after =~= before.insert(peer));
    } else {
        assert(after =~= before);
    }
    if forall|id: PeerId| #[trigger] queried@.contains(id) ==> !connected.contains(id) {
        assert(before =~= Set::empty());
    }
    if forall|id: PeerId| #[trigger] queried@.contains(id) ==> connected.contains(id) {
        assert(before =~= queried@);
    }
}

/// Which events of the notifications layer are admitted: a peer opens the substream of the
/// block announces protocol only while it is unknown, and closes or uses it only while it
/// is known; a substream of another protocol is one of a user-defined protocol, unless it
/// is marked or opened with a bad handshake.
pub proof fn lemma_which_events_are_admitted<S>(
    protocol: &Protocol<S>,
    event: &NotificationsOut<S>,
    admitted: bool,
)
    requires
        call_ensures(Protocol::<S>::admits, (protocol, event), admitted),
    ensures
        match *event {
            NotificationsOut::CustomProtocolOpen { peer_id, set_id, received_handshake, .. } => {
                &&& set_id == 0 ==> admitted == !protocol@.peers.contains_key(peer_id)
                &&& set_id != 0 && set_id <= protocol@.notification_protocols.len() ==> admitted
                &&& set_id != 0 && set_id > protocol@.notification_protocols.len()
                    && received_handshake@.len() == 1 ==> admitted == (received_handshake@[0] > 7)
                &&& set_id != 0 && received_handshake@.len() > 1 ==> admitted
                &&& set_id != 0 && set_id > protocol@.notification_protocols.len()
                    && received_handshake@.len() == 0 ==> admitted == !(
                protocol@.peers.contains_key(peer_id) && protocol@.peers[peer_id].status
                    == PeerStatus::Accepted && protocol@.peers[peer_id].roles is Some)
            },
            NotificationsOut::CustomProtocolReplaced { peer_id, set_id, .. } => admitted == (set_id
                <= protocol@.notification_protocols.len()
                || protocol@.bad_handshake_substreams.contains((peer_id, set_id))),
            NotificationsOut::CustomProtocolClosed { peer_id, set_id }
            | NotificationsOut::Notification { peer_id, set_id, .. } => {
                &&& set_id == 0 ==> admitted == protocol@.peers.contains_key(peer_id)
                &&& set_id != 0 ==> admitted == (set_id <= protocol@.notification_protocols.len()
                    || protocol@.bad_handshake_substreams.contains((peer_id, set_id)))
            },
        },
{
}

/// What a new state machine comes with.
pub type NewParts<S> = (
    Protocol<S>,
    Vec<PeersetSetConfig>,
    Vec<ProtocolConfig>,
    Vec<(PeerId, Vec<u8>)>,
);

/// A new state machine knows no peer, no substream and no outcome. Its user-defined
/// protocols are those of the configuration in their order, important are the peers that
/// are reserved in any set, and the boot nodes are those of the configuration.
pub proof fn lemma_a_new_protocol<S>(
    roles: Roles,
    config: &NetworkConfiguration,
    handshakes: Vec<Vec<u8>>,
    sync_protocol: ProtocolConfig,
    parts: NewParts<S>,
)
    requires
        call_ensures(Protocol::<S>::new, (roles, config, handshakes, sync_protocol), parts),
    ensures
        parts.0@.pending_messages.len() == 0,
        forall|peer: PeerId| !#[trigger] parts.0@.peers.contains_key(peer),
        forall|substream: (PeerId, SetId)| !#[trigger]
            parts.0@.bad_handshake_substreams.contains(substream),
        parts.0@.notification_protocols.len() == config.extra_sets@.len(),
        forall|i: int|
            0 <= i < config.extra_sets@.len() ==> #[trigger] parts.0@.notification_protocols[i]
                == config.extra_sets@[i].notifications_protocol@,
        parts.0@.block_announces_protocol_name == sync_protocol.name@,
        parts.0@.roles == roles,
        forall|peer: PeerId| #[trigger]
            parts.0@.boot_node_ids.contains(peer) <==> is_among(config.boot_nodes@, peer),
        forall|peer: PeerId| #[trigger]
            parts.0@.important_peers.contains(peer) <==> is_among(
                config.default_peers_set.reserved_nodes@,
                peer,
            ) || exists|i: int|
                0 <= i < config.extra_sets@.len() && is_among(
                    (#[trigger] config.extra_sets@[i]).set_config.reserved_nodes@,
                    peer,
                ),
{
    assert forall|peer: PeerId| #[trigger] parts.0@.boot_node_ids.contains(peer) <==> is_among(
        config.boot_nodes@,
        peer,
    ) by {
        lemma_is_among(config.boot_nodes@, peer);
    }
    assert forall|peer: PeerId| #[trigger] parts.0@.important_peers.contains(peer) <==> is_among(
        config.default_peers_set.reserved_nodes@,
        peer,
    ) || exists|i: int|
        0 <= i < config.extra_sets@.len() && is_among(
            (#[trigger] config.extra_sets@[i]).set_config.reserved_nodes@,
            peer,
        ) by {
        lemma_is_among(config.default_peers_set.reserved_nodes@, peer);
        assert forall|i: int| 0 <= i < config.extra_sets@.len() implies is_among(
            (#[trigger] config.extra_sets@[i]).set_config.reserved_nodes@,
            peer,
        ) == config::peer_ids(config.extra_sets@[i].set_config.reserved_nodes@).contains(peer) by {
            lemma_is_among(config.extra_sets@[i].set_config.reserved_nodes@, peer);
        }
    }
}

/// Whether a peer is among the nodes.
pub open spec fn is_among(nodes: Seq<MultiaddrWithPeerId>, peer: PeerId) -> bool {
    exists|i: int| 0 <= i < nodes.len() && (#[trigger] nodes[i]).peer_id == peer
}

/// A peer is among the nodes where it is among their peers.
proof fn lemma_is_among(nodes: Seq<MultiaddrWithPeerId>, peer: PeerId)
    ensures
        is_among(nodes, peer) == config::peer_ids(nodes).contains(peer),
        config::peer_ids(nodes).to_set().contains(peer) == is_among(nodes, peer),
{
    let ids = config::peer_ids(nodes);
    if is_among(nodes, peer) {
        let i = choose|i: int| 0 <= i < nodes.len() && (#[trigger] nodes[i]).peer_id == peer;
        assert(ids[i] == peer);
    }
    if ids.contains(peer) {
        let i = choose|i: int| 0 <= i < ids.len() && ids[i] == peer;
        assert(nodes[i].peer_id == peer);
    }
}

/// Whether a set of peers is as it was configured.
pub open spec fn is_as_configured(set: PeersetSetConfig, config: SetConfig) -> bool {
    &&& set.in_peers == config.in_peers
    &&& set.out_peers == config.out_peers
    &&& set.reserved_only <==> config.non_reserved_mode is Deny
    &&& forall|peer: PeerId| #[trigger]
        set.reserved_nodes@.contains(peer) <==> is_among(config.reserved_nodes@, peer)
}

/// There is one set of peers for syncing, with the boot nodes in their order, and one for
/// each user-defined protocol, in their order and without boot nodes, each with the limits
/// and the reserved peers that are configured for it.
pub proof fn lemma_sets_are_as_configured<S>(
    roles: Roles,
    config: &NetworkConfiguration,
    handshakes: Vec<Vec<u8>>,
    sync_protocol: ProtocolConfig,
    parts: NewParts<S>,
)
    requires
        call_ensures(Protocol::<S>::new, (roles, config, handshakes, sync_protocol), parts),
    ensures
        parts.1@.len() == config.extra_sets@.len() + 1,
        is_as_configured(parts.1@[0], config.default_peers_set),
        parts.1@[0].bootnodes@.len() == config.boot_nodes@.len(),
        forall|i: int|
            0 <= i < config.boot_nodes@.len() ==> #[trigger] parts.1@[0].bootnodes@[i]
                == config.boot_nodes@[i].peer_id,
        forall|i: int|
            #![trigger config.extra_sets@[i]]
            0 <= i < config.extra_sets@.len() ==> is_as_configured(
                parts.1@[i + 1],
                config.extra_sets@[i].set_config,
            ) && parts.1@[i + 1].bootnodes@.len() == 0,
{
    assert forall|peer: PeerId| #[trigger] parts.1@[0].reserved_nodes@.contains(peer) <==> is_among(
        config.default_peers_set.reserved_nodes@,
        peer,
    ) by {
        lemma_is_among(config.default_peers_set.reserved_nodes@, peer);
    }
    assert forall|i: int|
        #![trigger config.extra_sets@[i]]
        0 <= i < config.extra_sets@.len() implies is_as_configured(
        parts.1@[i + 1],
        config.extra_sets@[i].set_config,
    ) && parts.1@[i + 1].bootnodes@.len() == 0 by {
        let nodes = config.extra_sets@[i].set_config.reserved_nodes@;
        assert forall|peer: PeerId| #[trigger] parts.1@[i + 1].reserved_nodes@.contains(peer)
            <==> is_among(nodes, peer) by {
            lemma_is_among(nodes, peer);
        }
    }
}

/// The protocols to speak are the block announces protocol as it was given and then the
/// user-defined ones in their order, each with its names, its size and its handshake, as
/// far as there are handshakes.
pub proof fn lemma_protocols_are_as_configured<S>(
    roles: Roles,
    config: &NetworkConfiguration,
    handshakes: Vec<Vec<u8>>,
    sync_protocol: ProtocolConfig,
    parts: NewParts<S>,
)
    requires
        call_ensures(Protocol::<S>::new, (roles, config, handshakes, sync_protocol), parts),
    ensures
        parts.2@.len() > 0,
        parts.2@[0] == sync_protocol,
        handshakes@.len() >= config.extra_sets@.len() ==> parts.2@.len() == config.extra_sets@.len()
            + 1,
        handshakes@.len() < config.extra_sets@.len() ==> parts.2@.len() == handshakes@.len() + 1,
        forall|i: int|
            #![trigger config.extra_sets@[i]]
            0 <= i < config.extra_sets@.len() && i < handshakes@.len() ==> {
                &&& parts.2@[i + 1].name@ == config.extra_sets@[i].notifications_protocol@
                &&& parts.2@[i + 1].fallback_names@ == config.extra_sets@[i].fallback_names@
                &&& parts.2@[i + 1].handshake@ == handshakes@[i]@
                &&& parts.2@[i + 1].max_notification_size
                    == config.extra_sets@[i].max_notification_size
            },
{
}

/// The address of a reserved peer of the set for syncing is made known exactly where it is
/// not empty: with one more such peer, and no user-defined protocol, there is one more
/// address at the end, or none.
pub proof fn lemma_addresses_of_the_default_set<S>(
    roles: Roles,
    config: &NetworkConfiguration,
    more: &NetworkConfiguration,
    node: MultiaddrWithPeerId,
    handshakes: Vec<Vec<u8>>,
    sync_protocol: ProtocolConfig,
    parts: NewParts<S>,
    parts_of_more: NewParts<S>,
)
    requires
        config.extra_sets@.len() == 0,
        more.extra_sets@.len() == 0,
        more.default_peers_set.reserved_nodes@ == config.default_peers_set.reserved_nodes@.push(
            node,
        ),
        call_ensures(Protocol::<S>::new, (roles, config, handshakes, sync_protocol), parts),
        call_ensures(Protocol::<S>::new, (roles, more, handshakes, sync_protocol), parts_of_more),
    ensures
        config.default_peers_set.reserved_nodes@.len() == 0 ==> parts.3@.len() == 0,
        parts_of_more.3@.len() == parts.3@.len() + if node.multiaddr@.len() > 0 { 1int } else { 0 },
        forall|i: int|
            0 <= i < parts.3@.len() ==> (#[trigger] parts.3@[i]).0 == parts_of_more.3@[i].0
                && parts.3@[i].1@ == parts_of_more.3@[i].1@,
        node.multiaddr@.len() > 0 ==> parts_of_more.3@[parts.3@.len() as int].0 == node.peer_id
            && parts_of_more.3@[parts.3@.len() as int].1@ == node.multiaddr@,
{
    let nodes = config.default_peers_set.reserved_nodes@;
    assert(nodes.push(node).drop_last() =~= nodes);
    let before = config::addresses_view(parts.3@);
    let after = config::addresses_view(parts_of_more.3@);
    assert(before =~= config::addressed(nodes));
    assert(after =~= config::addressed(nodes.push(node)));
    assert(before.len() == parts.3@.len());
    assert(after.len() == parts_of_more.3@.len());
    assert forall|i: int| 0 <= i < parts.3@.len() implies (#[trigger] parts.3@[i]).0
        == parts_of_more.3@[i].0 && parts.3@[i].1@ == parts_of_more.3@[i].1@ by {
        assert(before[i] == after[i]);
    }
    if node.multiaddr@.len() > 0 {
        assert(after[before.len() as int] == (node.peer_id, node.multiaddr@));
    }
}

/// The addresses of the reserved peers of a user-defined protocol are made known after all
/// others of a configuration without that protocol, in their order.
pub proof fn lemma_addresses_of_the_other_sets<S>(
    roles: Roles,
    config: &NetworkConfiguration,
    more: &NetworkConfiguration,
    set: NonDefaultSetConfig,
    handshakes: Vec<Vec<u8>>,
    sync_protocol: ProtocolConfig,
    parts: NewParts<S>,
    parts_of_more: NewParts<S>,
)
    requires
        more.extra_sets@ == config.extra_sets@.push(set),
        more.default_peers_set.reserved_nodes@ == config.default_peers_set.reserved_nodes@,
        call_ensures(Protocol::<S>::new, (roles, config, handshakes, sync_protocol), parts),
        call_ensures(Protocol::<S>::new, (roles, more, handshakes, sync_protocol), parts_of_more),
    ensures
        parts_of_more.3@.len() == parts.3@.len() + set.set_config.reserved_nodes@.len(),
        forall|i: int|
            0 <= i < parts.3@.len() ==> (#[trigger] parts.3@[i]).0 == parts_of_more.3@[i].0
                && parts.3@[i].1@ == parts_of_more.3@[i].1@,
        forall|i: int|
            #![trigger set.set_config.reserved_nodes@[i]]
            0 <= i < set.set_config.reserved_nodes@.len() ==> {
                &&& parts_of_more.3@[parts.3@.len() + i].0
                    == set.set_config.reserved_nodes@[i].peer_id
                &&& parts_of_more.3@[parts.3@.len() + i].1@
                    == set.set_config.reserved_nodes@[i].multiaddr@
            },
{
    let sets = config.extra_sets@;
    assert(sets.push(set).drop_last() =~= sets);
    let before = config::addresses_view(parts.3@);
    let after = config::addresses_view(parts_of_more.3@);
    let added = config::all_addresses(set.set_config.reserved_nodes@);
    assert(config::extra_addresses(sets.push(set)) == config::extra_addresses(sets) + added);
    assert(after =~= before + added);
    assert(before.len() == parts.3@.len());
    assert(after.len() == parts_of_more.3@.len());
    assert forall|i: int| 0 <= i < parts.3@.len() implies (#[trigger] parts.3@[i]).0
        == parts_of_more.3@[i].0 && parts.3@[i].1@ == parts_of_more.3@[i].1@ by {
        assert(before[i] == after[i]);
    }
    assert forall|i: int|
        #![trigger set.set_config.reserved_nodes@[i]]
        0 <= i < set.set_config.reserved_nodes@.len() implies parts_of_more.3@[parts.3@.len()
        + i].0 == set.set_config.reserved_nodes@[i].peer_id && parts_of_more.3@[parts.3@.len()
        + i].1@ == set.set_config.reserved_nodes@[i].multiaddr@ by {
        assert(added[i] == after[parts.3@.len() + i]);
    }
}

/// Waiting outcomes may always be taken. Every admitted event may be handled once none
/// waits, every result may be reported, and every known peer may be disconnected, as long
/// as the roles of every accepted peer are known.
pub proof fn lemma_every_admitted_event_may_come<S>(
    protocol: &mut Protocol<S>,
    event: NotificationsOut<S>,
    admitted: bool,
    peer: PeerId,
    result: PeerValidationResult,
)
    requires
        call_ensures(Protocol::<S>::admits, (&*old(protocol), &event), admitted),
        forall|peer: PeerId| #[trigger]
            old(protocol)@.peers.contains_key(peer) && old(protocol)@.peers[peer].status
                == PeerStatus::Accepted ==> old(protocol)@.peers[peer].roles is Some,
    ensures
        call_requires(Protocol::<S>::poll_pending, (protocol,)),
        admitted && old(protocol)@.pending_messages.len() == 0 ==> call_requires(
            Protocol::<S>::poll,
            (protocol, event),
        ),
        call_requires(Protocol::<S>::report_peer_validation_result, (protocol, peer, result)),
        old(protocol)@.peers.contains_key(peer) ==> call_requires(
            Protocol::<S>::disconnect_sync_peer,
            (protocol, peer),
        ),
{
}

} // verus!
