//! What holds of the syncing state machine over several steps.
use crate::hex;
use crate::network::announce_cache;
use crate::network::known_blocks;
use crate::network::primitives::{BlockAnnounce, BlockHash, BlockNumber, Header, PeerId};
use crate::network::sync_model::{
    after_known, block_announces_name, PeerConnected, Refusal, SyncView,
};
use crate::network::sync_types::{
    lemma_handshake_round_trip, BlockAnnouncesHandshake, SyncAction, SyncTypes,
    LIGHT_MAXIMAL_BLOCKS_DIFFERENCE, MAX_KNOWN_BLOCKS,
};
use crate::scale;
use vstd::prelude::*;

verus! {

/// A peer that connects and disconnects leaves the state as it was before.
pub proof fn lemma_connect_then_disconnect(
    state: SyncView,
    who: PeerId,
    status: BlockAnnouncesHandshake,
)
    requires
        state.wf(),
        !state.peers.contains_key(who),
    ensures
        state.after_connected(who, status).after_disconnected(who) == state,
{
    let after = state.after_connected(who, status).after_disconnected(who);
    assert(after.peers =~= state.peers);
    assert(after.no_slot_connected_peers =~= state.no_slot_connected_peers);
}

/// A refused peer changes nothing, and a peer that is not refused is one with our
/// genesis block. A light client takes in no light client, and no peer far behind it.
pub proof fn lemma_who_is_accepted(
    state: SyncView,
    who: PeerId,
    status: BlockAnnouncesHandshake,
    best_number: BlockNumber,
    num_sync_peers: nat,
)
    ensures
        ({
            let (after, outcome) = state.on_connected(who, status, best_number, num_sync_peers);
            match outcome {
                PeerConnected::Refused(_) => after == state,
                _ => {
                    &&& !state.peers.contains_key(who)
                    &&& status.genesis_hash == state.genesis_hash
                    &&& state.roles.is_light() ==> status.roles.is_full() && best_number
                        - status.best_number < LIGHT_MAXIMAL_BLOCKS_DIFFERENCE
                },
            }
        }),
{
}

/// The slots are kept: with an accepted light client there are no more light clients
/// than slots for them, and a full node is passed on only while there are fewer full
/// nodes than slots for them.
pub proof fn lemma_slots_are_kept(
    state: SyncView,
    who: PeerId,
    status: BlockAnnouncesHandshake,
    best_number: BlockNumber,
    num_sync_peers: nat,
)
    requires
        state.wf(),
    ensures
        ({
            let (after, outcome) = state.on_connected(who, status, best_number, num_sync_peers);
            &&& outcome == PeerConnected::Accepted ==> status.roles.is_light() && after.peers.len()
                - num_sync_peers <= state.num_light
            &&& outcome == PeerConnected::NewPeer ==> status.roles.is_full() && num_sync_peers + 1
                <= state.full_slots(who)
        }),
{
    let after = state.on_connected(who, status, best_number, num_sync_peers).0;
    if after != state {
        assert(after.peers.dom() =~= state.peers.dom().insert(who));
    }
}

/// A peer that connected is refused while it stays connected.
pub proof fn lemma_connected_once(
    state: SyncView,
    who: PeerId,
    status: BlockAnnouncesHandshake,
    again: BlockAnnouncesHandshake,
    best_number: BlockNumber,
    num_sync_peers: nat,
)
    ensures
        state.after_connected(who, status).refusal(who, again, best_number, num_sync_peers) == Some(
            Refusal::AlreadyConnected,
        ),
{
}

/// Once a block was announced every peer knows it, so that announcing it again right
/// away is sent to nobody.
pub proof fn lemma_announced_once(state: SyncView, hash: BlockHash, data: Option<Seq<u8>>)
    requires
        state.wf(),
    ensures
        state.after_announced(hash, data).peers_without(hash) == Set::<PeerId>::empty(),
{
    let after = state.after_announced(hash, data);
    assert forall|peer: PeerId|
        after.peers.contains_key(peer) implies #[trigger] after.peers[peer].known_blocks.contains(
        hash,
    ) by {
        let known = state.peers[peer].known_blocks;
        assert(after.peers[peer] == after_known(state.peers[peer], hash));
        known_blocks::lemma_inserted_is_known(known, MAX_KNOWN_BLOCKS as nat, hash);
    }
    assert(after.peers_without(hash) =~= Set::<PeerId>::empty());
}

/// Peers that go leave no peer behind that does not know a block that all knew.
pub proof fn lemma_known_by_all_stays(state: SyncView, hash: BlockHash, who: PeerId)
    requires
        state.peers_without(hash) == Set::<PeerId>::empty(),
    ensures
        state.after_disconnected(who).peers_without(hash) == Set::<PeerId>::empty(),
{
    let after = state.after_disconnected(who);
    assert forall|peer: PeerId| !after.peers_without(hash).contains(peer) by {
        assert(!state.peers_without(hash).contains(peer));
    }
    assert(after.peers_without(hash) =~= Set::<PeerId>::empty());
}

/// Announcing a block again right away sends nothing, whatever the data, the header and
/// the best block are then.
pub proof fn lemma_announcing_again_sends_nothing<T: SyncTypes>(
    state: SyncView,
    hash: BlockHash,
    data: Option<Seq<u8>>,
    header: Option<Header>,
    best_hash: BlockHash,
    between: SyncView,
    first: Seq<SyncAction<T>>,
    data_again: Option<Seq<u8>>,
    header_again: Option<Header>,
    best_hash_again: BlockHash,
    after: SyncView,
    second: Seq<SyncAction<T>>,
)
    requires
        state.wf(),
        SyncView::is_announced(header),
        state.announces(hash, data, header, best_hash, between, first),
        between.announces(hash, data_again, header_again, best_hash_again, after, second),
    ensures
        second.len() == 0,
        !between.is_sent(hash, header_again),
{
    lemma_announced_once(state, hash, data);
}

/// An unknown block and the genesis block are not announced, whatever the data is: nothing
/// is sent, and no peer is taken to know the block.
pub proof fn lemma_unknown_or_genesis_is_not_announced<T: SyncTypes>(
    state: SyncView,
    hash: BlockHash,
    data: Option<Seq<u8>>,
    header: Option<Header>,
    best_hash: BlockHash,
    after: SyncView,
    actions: Seq<SyncAction<T>>,
)
    requires
        header is None || header->0.number == 0,
        state.announces(hash, data, header, best_hash, after, actions),
    ensures
        actions.len() == 0,
        after == state,
        !state.is_sent(hash, header),
{
}

/// The handshake of a node is read back by every node, with any best block.
pub proof fn lemma_own_handshake_is_read(
    state: SyncView,
    best_number: BlockNumber,
    best_hash: BlockHash,
)
    requires
        state.wf(),
    ensures
        BlockAnnouncesHandshake::from_wire(
            scale::handshake_bytes(state.roles.bits, best_number, best_hash, state.genesis_hash),
        ) == Some(
            BlockAnnouncesHandshake {
                roles: state.roles,
                best_number,
                best_hash,
                genesis_hash: state.genesis_hash,
            },
        ),
{
    lemma_handshake_round_trip(
        BlockAnnouncesHandshake {
            roles: state.roles,
            best_number,
            best_hash,
            genesis_hash: state.genesis_hash,
        },
    );
}

/// A peer is not sent the announcement of a block that it has just announced itself.
pub proof fn lemma_not_echoed(state: SyncView, who: PeerId, hash: BlockHash)
    requires
        state.wf(),
        state.peers.contains_key(who),
    ensures
        !state.after_known(who, hash).peers_without(hash).contains(who),
{
    known_blocks::lemma_inserted_is_known(
        state.peers[who].known_blocks,
        MAX_KNOWN_BLOCKS as nat,
        hash,
    );
}

/// The data that came with a validated announcement goes with our own announcement of
/// that block, unless it is given other data, in every cache made for at least one
/// entry.
pub proof fn lemma_data_is_passed_on(state: SyncView, announce: BlockAnnounce)
    requires
        state.cache_capacity > 0,
        announce.data is Some,
        announce.data->0@.len() > 0,
    ensures
        state.after_announce_data(announce).announced_data(announce.header.spec_hash(), None)
            == announce.data->0@,
{
    announce_cache::lemma_put_then_get(
        state.cache,
        state.cache_capacity,
        announce.header.spec_hash(),
        announce.data->0@,
    );
}

/// Announcing a block does not change what data later announcements go with.
pub proof fn lemma_announcing_keeps_data(
    state: SyncView,
    hash: BlockHash,
    data: Option<Seq<u8>>,
    other: BlockHash,
)
    ensures
        state.after_announced(hash, data).announced_data(other, None) == state.announced_data(
            other,
            None,
        ),
{
    announce_cache::lemma_get_keeps_contents(state.cache, hash, other);
}

/// The name of the block announces protocol tells the chain: chains with another genesis
/// block or another fork have another name.
pub proof fn lemma_name_tells_the_chain(
    genesis: BlockHash,
    fork_id: Option<Seq<char>>,
    other: BlockHash,
    other_fork_id: Option<Seq<char>>,
)
    requires
        block_announces_name(genesis, fork_id) == block_announces_name(other, other_fork_id),
    ensures
        genesis == other,
        fork_id == other_fork_id,
{
    reveal_strlit("/");
    let name = block_announces_name(genesis, fork_id);
    let digits = hex::hex_of(genesis@);
    let other_digits = hex::hex_of(other@);
    assert(digits =~= name.subrange(1, 65));
    assert(other_digits =~= name.subrange(1, 65));
    hex::lemma_hex_is_injective(genesis@, other@);
    assert(genesis =~= other);
    let end = "/block-announces/1"@;
    match (fork_id, other_fork_id) {
        (Some(fork_id), Some(other_fork_id)) => {
            assert(name.len() == 66 + fork_id.len() + end.len());
            assert(name.len() == 66 + other_fork_id.len() + end.len());
            assert(fork_id =~= name.subrange(66, 66 + fork_id.len() as int));
            assert(other_fork_id =~= name.subrange(66, 66 + other_fork_id.len() as int));
        },
        (Some(fork_id), None) => {
            assert(name.len() == 66 + fork_id.len() + end.len());
            assert(name.len() == 65 + end.len());
        },
        (None, Some(other_fork_id)) => {
            assert(name.len() == 66 + other_fork_id.len() + end.len());
            assert(name.len() == 65 + end.len());
        },
        (None, None) => {},
    }
}

} // verus!
