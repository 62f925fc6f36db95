//! What holds of the protocol state machine over several steps.
use crate::network::primitives::{PeerId, Roles, SetId};
use crate::network::protocol_model::{
    ActionView, EventView, OutcomeView, PeerStatus, ProtocolView, HARDCODED_PEERSETS_SYNC,
};
use crate::network::rep;
use vstd::prelude::*;

verus! {

/// Whether the event opens the substream.
pub open spec fn opens<S>(event: EventView<S>, peer: PeerId, set: SetId) -> bool {
    event matches EventView::CustomProtocolOpen { peer_id, set_id, .. } && peer_id == peer
        && set_id == set
}

/// Whether the event closes the substream.
pub open spec fn closes<S>(event: EventView<S>, peer: PeerId, set: SetId) -> bool {
    event == EventView::<S>::CustomProtocolClosed { peer_id: peer, set_id: set }
}

/// Whether the event is about the substream.
pub open spec fn concerns<S>(event: EventView<S>, peer: PeerId, set: SetId) -> bool {
    match event {
        EventView::CustomProtocolOpen { peer_id, set_id, .. } => peer_id == peer && set_id == set,
        EventView::CustomProtocolReplaced { peer_id, set_id, .. } => peer_id == peer && set_id
            == set,
        EventView::CustomProtocolClosed { peer_id, set_id } => peer_id == peer && set_id == set,
        EventView::Notification { peer_id, set_id, .. } => peer_id == peer && set_id == set,
    }
}

/// The state after a sequence of events.
pub open spec fn after_events<S>(state: ProtocolView<S>, events: Seq<EventView<S>>) -> ProtocolView<
    S,
>
    decreases events.len(),
{
    if events.len() == 0 {
        state
    } else {
        after_events(state, events.drop_last()).on_event(events.last()).0
    }
}

/// The state after notifications of the block announces protocol from one peer.
pub open spec fn after_notifications<S>(
    state: ProtocolView<S>,
    peer: PeerId,
    messages: Seq<Seq<u8>>,
) -> ProtocolView<S>
    decreases messages.len(),
{
    if messages.len() == 0 {
        state
    } else {
        after_notifications(state, peer, messages.drop_last()).on_notification(
            peer,
            HARDCODED_PEERSETS_SYNC,
            messages.last(),
        ).0
    }
}

/// The state once `count` waiting outcomes were handed out.
pub open spec fn after_drained<S>(state: ProtocolView<S>, count: nat) -> ProtocolView<S>
    decreases count,
{
    if count == 0 {
        state
    } else {
        after_drained(state, (count - 1) as nat).after_pending()
    }
}

/// A substream of a user-defined protocol is marked as opened with a bad handshake
/// exactly when it is opened with one; the mark leaves when it is closed, and no
/// other event changes it.
pub proof fn lemma_mark_of_substream<S>(
    state: ProtocolView<S>,
    event: EventView<S>,
    peer: PeerId,
    set: SetId,
)
    requires
        set != HARDCODED_PEERSETS_SYNC,
    ensures
        state.on_event(event).0.is_bad(peer, set) == match event {
            EventView::CustomProtocolOpen { peer_id, set_id, received_handshake, .. } => {
                state.is_bad(peer, set) || (peer_id == peer && set_id == set && state.stream_roles(
                    peer,
                    received_handshake,
                ) is None)
            },
            EventView::CustomProtocolClosed { peer_id, set_id } => {
                state.is_bad(peer, set) && !(peer_id == peer && set_id == set)
            },
            _ => state.is_bad(peer, set),
        },
{
}

/// The outer layers hear nothing of a substream with a bad handshake: not that it
/// was opened, nor anything else until it is closed, nor its closing, whatever
/// happens in between. The peer is disconnected from it and pays for the message.
pub proof fn lemma_bad_substream_stays_hidden<S>(
    state: ProtocolView<S>,
    peer: PeerId,
    set: SetId,
    handshake: Seq<u8>,
    sink: S,
    fallback: Option<Seq<char>>,
    events: Seq<EventView<S>>,
    event: EventView<S>,
)
    requires
        set != HARDCODED_PEERSETS_SYNC,
        state.stream_roles(peer, handshake) is None,
        forall|i: int| 0 <= i < events.len() ==> !closes(#[trigger] events[i], peer, set),
        concerns(event, peer, set),
        !opens(event, peer, set),
    ensures
        ({
            let opened = state.on_open(peer, set, handshake, sink, fallback);
            &&& opened.1 == OutcomeView::<S>::Nothing
            &&& opened.2 == seq![
                ActionView::DisconnectPeer(peer, set),
                ActionView::ReportPeer(peer, rep::bad_message()),
            ]
            &&& after_events(opened.0, events).on_event(event).1 == OutcomeView::<S>::Nothing
        }),
    decreases events.len(),
{
    let opened = state.on_open(peer, set, handshake, sink, fallback).0;
    lemma_mark_persists(opened, peer, set, events);
}

/// A mark persists while the substream is not closed.
proof fn lemma_mark_persists<S>(
    state: ProtocolView<S>,
    peer: PeerId,
    set: SetId,
    events: Seq<EventView<S>>,
)
    requires
        set != HARDCODED_PEERSETS_SYNC,
        state.is_bad(peer, set),
        forall|i: int| 0 <= i < events.len() ==> !closes(#[trigger] events[i], peer, set),
    ensures
        after_events(state, events).is_bad(peer, set),
    decreases events.len(),
{
    if events.len() > 0 {
        let rest = events.drop_last();
        assert forall|i: int| 0 <= i < rest.len() implies !closes(#[trigger] rest[i], peer, set) by {
            assert(rest[i] == events[i]);
        }
        lemma_mark_persists(state, peer, set, rest);
        lemma_mark_of_substream(after_events(state, rest), events.last(), peer, set);
        assert(!closes(events[events.len() - 1], peer, set));
    }
}

/// Opening and closing are reported in pairs: the closing of a substream is handed
/// out exactly when its opening was, and once it is closed the state is what it was
/// before.
pub proof fn lemma_open_close_pair<S>(
    state: ProtocolView<S>,
    peer: PeerId,
    set: SetId,
    handshake: Seq<u8>,
    sink: S,
    fallback: Option<Seq<char>>,
)
    requires
        set != HARDCODED_PEERSETS_SYNC,
        !state.is_bad(peer, set),
    ensures
        ({
            let opened = state.on_open(peer, set, handshake, sink, fallback);
            let closed = opened.0.on_closed(peer, set);
            &&& closed.0 == state
            &&& closed.1 == OutcomeView::<S>::Nothing <==> opened.1 == OutcomeView::<S>::Nothing
            &&& opened.1 != OutcomeView::<S>::Nothing ==> closed.1
                == OutcomeView::<S>::NotificationStreamClosed {
                remote: peer,
                protocol: state.protocol_of(set),
            }
        }),
{
    let opened = state.on_open(peer, set, handshake, sink, fallback).0;
    assert(opened.on_closed(peer, set).0 =~= state);
}

/// Notifications of a peer on probation wait, in the order in which they came, and
/// nothing is handed out meanwhile.
pub proof fn lemma_probation_holds_back<S>(
    state: ProtocolView<S>,
    peer: PeerId,
    messages: Seq<Seq<u8>>,
    message: Seq<u8>,
)
    requires
        state.peers.contains_key(peer),
        state.peers[peer].status == PeerStatus::OnProbation,
    ensures
        ({
            let after = after_notifications(state, peer, messages);
            let waiting = state.peers[peer].pending_notifs;
            &&& after.peers.contains_key(peer)
            &&& after.peers[peer].status == PeerStatus::OnProbation
            &&& after.peers[peer].pending_notifs == waiting + Seq::new(
                messages.len(),
                |i: int| (peer, messages[i]),
            )
            &&& after.peers.remove(peer) == state.peers.remove(peer)
            &&& after == (ProtocolView { peers: after.peers, ..state })
            &&& after.on_notification(peer, HARDCODED_PEERSETS_SYNC, message).1
                == OutcomeView::<S>::Nothing
        }),
    decreases messages.len(),
{
    let waiting = state.peers[peer].pending_notifs;
    let after = after_notifications(state, peer, messages);
    if messages.len() > 0 {
        lemma_probation_holds_back(state, peer, messages.drop_last(), messages.last());
        assert(after.peers.remove(peer) =~= state.peers.remove(peer)) by {
            let before = after_notifications(state, peer, messages.drop_last());
            assert(before.peers.remove(peer) == state.peers.remove(peer));
            assert forall|other: PeerId|
                #![auto]
                other != peer implies before.peers.contains_key(other)
                == state.peers.contains_key(other) && (state.peers.contains_key(other)
                ==> before.peers[other] == state.peers[other]) by {
                assert(before.peers.remove(peer).contains_key(other)
                    == state.peers.remove(peer).contains_key(other));
                assert(state.peers.contains_key(other) ==> before.peers.remove(peer)[other]
                    == state.peers.remove(peer)[other]);
            }
        }
    }
    assert(after.peers[peer].pending_notifs =~= waiting + Seq::new(
        messages.len(),
        |i: int| (peer, messages[i]),
    ));
}

/// What a newly connected peer sent before it was accepted is handed out once it
/// is, after its acceptance, in the order in which it was sent; once all that waited was
/// handed out, a later notification is handed out at once.
pub proof fn lemma_accepted_in_order<S>(
    state: ProtocolView<S>,
    peer: PeerId,
    handshake: Seq<u8>,
    sink: S,
    fallback: Option<Seq<char>>,
    messages: Seq<Seq<u8>>,
    roles: Roles,
    later: Seq<u8>,
)
    ensures
        ({
            let opened = state.on_open(peer, HARDCODED_PEERSETS_SYNC, handshake, sink, fallback).0;
            let accepted = after_notifications(opened, peer, messages).after_accepted(peer, roles);
            &&& accepted.pending_messages == state.pending_messages
                + seq![OutcomeView::SyncConnected(peer)] + Seq::new(
                messages.len(),
                |i: int| state.block_announce_received(peer, messages[i]),
            )
            &&& ({
                let drained = after_drained(accepted, accepted.pending_messages.len());
                &&& drained.pending_messages.len() == 0
                &&& drained.on_notification(peer, HARDCODED_PEERSETS_SYNC, later) == (
                    drained,
                    state.block_announce_received(peer, later),
                )
            })
        }),
{
    let opened = state.on_open(peer, HARDCODED_PEERSETS_SYNC, handshake, sink, fallback).0;
    lemma_probation_holds_back(opened, peer, messages, later);
    let before = after_notifications(opened, peer, messages);
    let accepted = before.after_accepted(peer, roles);
    assert(before.peers[peer].pending_notifs =~= Seq::new(
        messages.len(),
        |i: int| (peer, messages[i]),
    ));
    assert(accepted.pending_messages =~= state.pending_messages
        + seq![OutcomeView::SyncConnected(peer)] + Seq::new(
        messages.len(),
        |i: int| state.block_announce_received(peer, messages[i]),
    ));
    lemma_pending_in_order(accepted, accepted.pending_messages.len());
}

/// Waiting outcomes are handed out in the order in which they were queued, each
/// once, and nothing else changes by it.
pub proof fn lemma_pending_in_order<S>(state: ProtocolView<S>, count: nat)
    ensures
        count < state.pending_messages.len() ==> after_drained(state, count).first_pending()
            == Some(state.pending_messages[count as int]),
        count >= state.pending_messages.len() ==> after_drained(state, count).first_pending()
            is None,
        count <= state.pending_messages.len() ==> after_drained(state, count).pending_messages
            == state.pending_messages.skip(count as int),
        after_drained(state, count) == (ProtocolView {
            pending_messages: after_drained(state, count).pending_messages,
            ..state
        }),
    decreases count,
{
    if count > 0 {
        lemma_pending_in_order(state, (count - 1) as nat);
        if count <= state.pending_messages.len() {
            assert(state.pending_messages.skip(count - 1).drop_first()
                =~= state.pending_messages.skip(count as int));
        }
    } else {
        assert(state.pending_messages.skip(0) =~= state.pending_messages);
    }
}

/// A rejected peer leaves no trace: what it sent is dropped with it.
pub proof fn lemma_rejected_leaves_no_trace<S>(
    state: ProtocolView<S>,
    peer: PeerId,
    handshake: Seq<u8>,
    sink: S,
    fallback: Option<Seq<char>>,
    messages: Seq<Seq<u8>>,
)
    requires
        !state.peers.contains_key(peer),
    ensures
        ({
            let opened = state.on_open(peer, HARDCODED_PEERSETS_SYNC, handshake, sink, fallback).0;
            let before = after_notifications(opened, peer, messages);
            before.after_rejected(peer) == state
        }),
{
    let opened = state.on_open(peer, HARDCODED_PEERSETS_SYNC, handshake, sink, fallback).0;
    lemma_probation_holds_back(opened, peer, messages, Seq::empty());
    assert(opened.peers.remove(peer) =~= state.peers);
}

/// A peer that connects, is accepted and disconnects leaves nothing behind but what is
/// handed out: its acceptance, what it sent before that, and that it is gone.
pub proof fn lemma_connection_cycle<S>(
    state: ProtocolView<S>,
    peer: PeerId,
    handshake: Seq<u8>,
    sink: S,
    fallback: Option<Seq<char>>,
    messages: Seq<Seq<u8>>,
    roles: Roles,
)
    requires
        !state.peers.contains_key(peer),
    ensures
        ({
            let opened = state.on_open(peer, HARDCODED_PEERSETS_SYNC, handshake, sink, fallback).0;
            let accepted = after_notifications(opened, peer, messages).after_accepted(peer, roles);
            let closed = accepted.on_closed(peer, HARDCODED_PEERSETS_SYNC);
            &&& closed.1 == OutcomeView::<S>::NotificationStreamClosed {
                remote: peer,
                protocol: state.block_announces_protocol_name,
            }
            &&& closed.0.after_disconnected(peer) == (ProtocolView {
                pending_messages: state.pending_messages + seq![OutcomeView::SyncConnected(peer)]
                    + Seq::new(
                    messages.len(),
                    |i: int| state.block_announce_received(peer, messages[i]),
                ) + seq![OutcomeView::SyncDisconnected(peer)],
                ..state
            })
        }),
{
    let opened = state.on_open(peer, HARDCODED_PEERSETS_SYNC, handshake, sink, fallback).0;
    lemma_rejected_leaves_no_trace(state, peer, handshake, sink, fallback, messages);
    lemma_accepted_in_order(
        state,
        peer,
        handshake,
        sink,
        fallback,
        messages,
        roles,
        Seq::empty(),
    );
    lemma_probation_holds_back(opened, peer, messages, Seq::empty());
    let before = after_notifications(opened, peer, messages);
    let accepted = before.after_accepted(peer, roles);
    let gone = accepted.on_closed(peer, HARDCODED_PEERSETS_SYNC).0.after_disconnected(peer);
    assert(gone.peers =~= before.peers.remove(peer));
    assert(gone.pending_messages =~= state.pending_messages + seq![
        OutcomeView::SyncConnected(peer),
    ] + Seq::new(messages.len(), |i: int| state.block_announce_received(peer, messages[i])) + seq![
        OutcomeView::SyncDisconnected(peer),
    ]);
}

/// An event changes nothing that is known of other peers than the one that it is about.
pub proof fn lemma_other_peers_are_unaffected<S>(
    state: ProtocolView<S>,
    event: EventView<S>,
    peer: PeerId,
    set: SetId,
    other: PeerId,
)
    requires
        concerns(event, peer, set),
        other != peer,
    ensures
        ({
            let after = state.on_event(event).0;
            &&& after.peers.contains_key(other) == state.peers.contains_key(other)
            &&& state.peers.contains_key(other) ==> after.peers[other] == state.peers[other]
        }),
{
}

/// The set that a name stands for belongs to a user-defined protocol of that name;
/// a name stands for no set exactly when no user-defined protocol has it.
pub proof fn lemma_set_of_name<S>(state: ProtocolView<S>, name: Seq<char>)
    requires
        state.notification_protocols.len() <= usize::MAX,
    ensures
        match state.set_of(name) {
            Some(set) => state.is_user_defined(set) && state.protocol_of(set) == name && set
                != HARDCODED_PEERSETS_SYNC,
            None => !state.notification_protocols.contains(name),
        },
{
    state.notification_protocols.index_of_first_ensures(name);
}

} // verus!
