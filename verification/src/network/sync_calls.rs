//! What the calls of the syncing state machine do about peers and announcements, told
//! from their arguments and results alone.
use crate::network::announce_cache;
use crate::network::known_blocks::{self, LruHashSet};
use crate::network::primitives::{
    BadPeer, BlockAnnounce, BlockHash, BlockNumber, BlockRequest, BlockState, Header, PeerId,
    Roles,
};
use crate::network::protocol::PeerValidationResult;
use crate::network::rep;
use crate::network::sync_helper::SyncingHelper;
use crate::network::sync_model::{PeerConnected, Refusal, SyncView};
use crate::network::sync_types::{
    BlockAnnouncesHandshake, ChainSyncStatus, IfDisconnected, LegacyHandshake, OpenStep,
    PollBlockAnnounceValidation, SyncAction, SyncAnswer, SyncEvent, SyncTypes,
};
use crate::scale;
use vstd::prelude::*;

verus! {

/// Whether a peer is connected that has not been told of the block and does not know it
/// otherwise.
pub open spec fn is_ignorant(state: SyncView, peer: PeerId, hash: BlockHash) -> bool {
    state.peers.contains_key(peer) && !exists|i: int|
        0 <= i < state.peers[peer].known_blocks.len() && #[trigger] state.peers[peer].known_blocks[i]
            == hash
}

/// Announcing a block that is not the genesis block tells every connected peer that does
/// not know it, whatever its roles, each once, and nobody else. Where all know it, or the
/// network service is missing, nothing is sent.
pub proof fn lemma_announced_to_all_who_do_not_know<T: SyncTypes>(
    helper: &mut SyncingHelper<T>,
    hash: BlockHash,
    data: Option<Vec<u8>>,
    header: Header,
    best_hash: BlockHash,
    actions: Vec<SyncAction<T>>,
)
    requires
        old(helper).wf(),
        header.number != 0,
        call_ensures(
            SyncingHelper::<T>::announce_block,
            (helper, hash, data, Some(header), best_hash),
            actions,
        ),
    ensures
        actions@.len() == if old(helper)@.has_service && exists|peer: PeerId|
            is_ignorant(old(helper)@, peer, hash) {
            1nat
        } else {
            0
        },
        actions@.len() == 1 ==> {
            &&& actions@[0] matches SyncAction::WriteBatchSyncNotification { peers, message }
            &&& peers@.no_duplicates()
            &&& forall|peer: PeerId|
                peers@.contains(peer) <==> #[trigger] is_ignorant(old(helper)@, peer, hash)
        },
{
    old(helper).lemma_wf();
    let state = old(helper)@;
    assert forall|peer: PeerId| #[trigger] is_ignorant(state, peer, hash)
        <==> state.peers.contains_key(peer) && !state.peers[peer].known_blocks.contains(hash) by {
    }
    let targets = state.peers_without(hash);
    assert forall|peer: PeerId| targets.contains(peer) <==> is_ignorant(state, peer, hash) by {}
    if exists|peer: PeerId| is_ignorant(state, peer, hash) {
        let peer = choose|peer: PeerId| is_ignorant(state, peer, hash);
        assert(targets.contains(peer));
        assert(targets.len() > 0);
    } else {
        assert(targets =~= Set::empty());
    }
    if actions@.len() == 1 {
        if let SyncAction::WriteBatchSyncNotification { peers, message } = actions@[0] {
            assert forall|peer: PeerId| peers@.contains(peer) <==> #[trigger] is_ignorant(
                state,
                peer,
                hash,
            ) by {
                assert(peers@.to_set().contains(peer) <==> peers@.contains(peer));
            }
        }
    }
}

/// What is sent of a block is its header, a byte that is one where it is our best block
/// and zero otherwise, and the given data or, where none is given, what is stored for the
/// block, behind its length.
pub proof fn lemma_what_is_announced<T: SyncTypes>(
    helper: &mut SyncingHelper<T>,
    hash: BlockHash,
    data: Option<Vec<u8>>,
    header: Option<Header>,
    best_hash: BlockHash,
    actions: Vec<SyncAction<T>>,
)
    requires
        call_ensures(
            SyncingHelper::<T>::announce_block,
            (helper, hash, data, header, best_hash),
            actions,
        ),
        actions@.len() > 0,
    ensures
        header is Some,
        actions@[0] matches SyncAction::WriteBatchSyncNotification { peers, message } && ({
            let start = header->0.encoded@.len() as int;
            let body = message@.skip(start + 1);
            &&& message@.take(start) == header->0.encoded@
            &&& message@.len() > start
            &&& message@[start] == if best_hash == hash { 1u8 } else { 0u8 }
            &&& data is Some ==> body == scale::byte_string(data->0@)
            &&& data is None && (forall|i: int|
                0 <= i < old(helper)@.cache.len() ==> (#[trigger] old(helper)@.cache[i]).0 != hash)
                ==> body == seq![0u8]
            &&& data is None ==> forall|i: int|
                #![trigger old(helper)@.cache[i]]
                0 <= i < old(helper)@.cache.len() && old(helper)@.cache[i].0 == hash && (forall|
                    j: int,
                |
                    0 <= j < i ==> (#[trigger] old(helper)@.cache[j]).0 != hash) ==> body
                    == scale::byte_string(old(helper)@.cache[i].1)
        }),
{
    let cache = old(helper)@.cache;
    announce_cache::lemma_lookup_is_entry(cache, hash);
    assert forall|i: int|
        #![trigger cache[i]]
        0 <= i < cache.len() && cache[i].0 == hash && (forall|j: int|
            0 <= j < i ==> (#[trigger] cache[j]).0 != hash) implies announce_cache::lookup(
        cache,
        hash,
    ) == Some(cache[i].1) by {
        lemma_lookup_finds_the_first(cache, hash, i);
    }
    if let SyncAction::WriteBatchSyncNotification { peers, message } = actions@[0] {
        let start = header->0.encoded@.len() as int;
        let found = old(helper)@.announced_data(
            hash,
            match data {
                Some(data) => Some(data@),
                None => None,
            },
        );
        assert(message@.take(start) =~= header->0.encoded@);
        assert(message@.skip(start + 1) =~= scale::byte_string(found));
        if found.len() == 0 {
            assert(found =~= Seq::empty());
            assert(scale::byte_string(found) =~= seq![0u8]);
        }
    }
}

/// The first entry with a key is the one that the key finds.
proof fn lemma_lookup_finds_the_first(
    entries: Seq<(BlockHash, Seq<u8>)>,
    hash: BlockHash,
    i: int,
)
    requires
        0 <= i < entries.len(),
        entries[i].0 == hash,
        forall|j: int| 0 <= j < i ==> (#[trigger] entries[j]).0 != hash,
    ensures
        announce_cache::lookup(entries, hash) == Some(entries[i].1),
    decreases i,
{
    if i > 0 {
        let rest = entries.drop_first();
        assert forall|j: int| 0 <= j < i - 1 implies (#[trigger] rest[j]).0 != hash by {
            assert(rest[j] == entries[j + 1]);
        }
        assert(rest[i - 1] == entries[i]);
        lemma_lookup_finds_the_first(rest, hash, i - 1);
    }
}

/// Once a block was announced every connected peer knows it as the newest one. Nobody
/// comes or goes, what the peers said of themselves stays, and a peer learns of no other
/// block and forgets at most the one that it knew longest, and that only where it knew as
/// many as are kept and this one was new.
pub proof fn lemma_announced_is_known<T: SyncTypes>(
    helper: &mut SyncingHelper<T>,
    hash: BlockHash,
    data: Option<Vec<u8>>,
    header: Header,
    best_hash: BlockHash,
    actions: Vec<SyncAction<T>>,
)
    requires
        old(helper).wf(),
        header.number != 0,
        call_ensures(
            SyncingHelper::<T>::announce_block,
            (helper, hash, data, Some(header), best_hash),
            actions,
        ),
    ensures
        final(helper)@.peers.dom() == old(helper)@.peers.dom(),
        forall|peer: PeerId| #[trigger]
            old(helper)@.peers.contains_key(peer) ==> {
                &&& final(helper)@.peers[peer].info == old(helper)@.peers[peer].info
                &&& is_told(
                    old(helper)@.peers[peer].known_blocks,
                    final(helper)@.peers[peer].known_blocks,
                    hash,
                )
            },
        same_but_peers_and_cache(old(helper)@, final(helper)@),
        data is Some ==> final(helper)@.cache == old(helper)@.cache,
        forall|other: BlockHash| #[trigger]
            announce_cache::lookup(final(helper)@.cache, other) == announce_cache::lookup(
                old(helper)@.cache,
                other,
            ),
{
    old(helper).lemma_wf();
    let state = old(helper)@;
    let after = final(helper)@;
    assert(after.peers.dom() =~= state.peers.dom());
    assert forall|peer: PeerId| #[trigger] state.peers.contains_key(peer) implies after.peers[peer].info
        == state.peers[peer].info && is_told(
        state.peers[peer].known_blocks,
        after.peers[peer].known_blocks,
        hash,
    ) by {
        lemma_insertion_tells(state.peers[peer].known_blocks, hash);
    }
    assert forall|other: BlockHash| #[trigger]
        announce_cache::lookup(after.cache, other) == announce_cache::lookup(
        state.cache,
        other,
    ) by {
        announce_cache::lemma_get_keeps_contents(state.cache, hash, other);
    }
}

/// Whether a peer that knew the blocks `before` knows the blocks `after` once it was told
/// of one more: that one is the newest, and at most the oldest one is forgotten.
pub open spec fn is_told(before: Seq<BlockHash>, after: Seq<BlockHash>, hash: BlockHash) -> bool {
    is_inserted(before, after, 1024, hash)
}

/// Whether a set of hashes below the limit, oldest first, becomes the other one when a hash
/// is inserted: that one is the newest, the others keep their order, and the oldest one
/// leaves exactly where the hash is new and there is no room.
pub open spec fn is_inserted(
    before: Seq<BlockHash>,
    after: Seq<BlockHash>,
    limit: nat,
    hash: BlockHash,
) -> bool {
    &&& after.len() > 0
    &&& after[after.len() - 1] == hash
    &&& after.no_duplicates()
    &&& after.len() < limit
    &&& forall|i: int|
        0 <= i < before.len() && (i > 0 || before.len() + 1 < limit || before.contains(hash))
            ==> after.contains(#[trigger] before[i])
    &&& forall|i: int| 0 <= i < after.len() - 1 ==> before.contains(#[trigger] after[i])
    &&& before.len() + 1 == limit && !before.contains(hash) ==> !after.contains(before[0])
    &&& forall|i: int, j: int|
        #![trigger after[i], after[j]]
        0 <= i < j < after.len() - 1 ==> before.index_of(after[i]) < before.index_of(after[j])
}

/// Whether two states differ in the peers and the stored data at most.
pub open spec fn same_but_peers_and_cache(before: SyncView, after: SyncView) -> bool {
    &&& after.cache_capacity == before.cache_capacity
    &&& after.genesis_hash == before.genesis_hash
    &&& after.roles == before.roles
    &&& after.num_full == before.num_full
    &&& after.num_light == before.num_light
    &&& after.no_slot_peers == before.no_slot_peers
    &&& after.no_slot_connected_peers == before.no_slot_connected_peers
    &&& after.names == before.names
    &&& after.has_service == before.has_service
}

/// Inserting a hash into the known ones is what telling a peer means.
proof fn lemma_insertion_tells(before: Seq<BlockHash>, hash: BlockHash)
    requires
        before.no_duplicates(),
        before.len() < 1024,
    ensures
        is_told(before, known_blocks::after_insert(before, 1024, hash), hash),
{
    lemma_is_inserted(before, 1024, hash);
}

/// The same of every limit.
proof fn lemma_is_inserted(before: Seq<BlockHash>, limit: nat, hash: BlockHash)
    requires
        before.no_duplicates(),
        before.len() < limit,
        limit > 1,
    ensures
        is_inserted(before, known_blocks::after_insert(before, limit, hash), limit, hash),
{
    let after = known_blocks::after_insert(before, limit, hash);
    known_blocks::lemma_insert(before, limit, hash);
    known_blocks::lemma_inserted_is_known(before, limit, hash);
    before.index_of_first_ensures(hash);
    if before.contains(hash) {
        let at = before.index_of_first(hash)->0;
        assert forall|i: int| 0 <= i < before.len() implies after.contains(#[trigger] before[i]) by {
            if i < at {
                assert(after[i] == before[i]);
            } else if i > at {
                assert(after[i - 1] == before[i]);
            }
        }
        assert forall|i: int| 0 <= i < after.len() - 1 implies before.contains(
            #[trigger] after[i],
        ) && before.index_of(after[i]) == if i < at { i } else { i + 1 } by {
            let old_i = if i < at { i } else { i + 1 };
            assert(after[i] == before[old_i]);
        }
    } else {
        let gone: int = if before.len() + 1 == limit { 1 } else { 0 };
        assert forall|i: int| gone <= i < before.len() implies after.contains(
            #[trigger] before[i],
        ) by {
            assert(after[i - gone] == before[i]);
        }
        assert forall|i: int| 0 <= i < after.len() - 1 implies before.contains(
            #[trigger] after[i],
        ) && before.index_of(after[i]) == i + gone by {
            assert(after[i] == before[i + gone]);
        }
        if gone == 1 && before.len() > 0 && after.contains(before[0]) {
            let i = choose|i: int| 0 <= i < after.len() && after[i] == before[0];
            if i < after.len() - 1 {
                assert(after[i] == before[i + 1]);
            }
        }
    }
}

/// A block that is not known here, and the genesis block, are announced to nobody, and
/// nobody is taken to know them.
pub proof fn lemma_no_header_no_announcement<T: SyncTypes>(
    helper: &mut SyncingHelper<T>,
    hash: BlockHash,
    data: Option<Vec<u8>>,
    header: Option<Header>,
    best_hash: BlockHash,
    actions: Vec<SyncAction<T>>,
)
    requires
        header matches Some(header) ==> header.number == 0,
        call_ensures(
            SyncingHelper::<T>::announce_block,
            (helper, hash, data, header, best_hash),
            actions,
        ),
    ensures
        actions@.len() == 0,
        final(helper)@ == old(helper)@,
{
}

/// The command to announce a block does what the call does.
pub proof fn lemma_command_announces<T: SyncTypes>(
    helper: &mut SyncingHelper<T>,
    other: &mut SyncingHelper<T>,
    hash: BlockHash,
    data: Option<Vec<u8>>,
    status: ChainSyncStatus,
    header: Option<Header>,
    best_hash: BlockHash,
    step: (Vec<SyncAction<T>>, SyncAnswer),
    actions: Vec<SyncAction<T>>,
)
    requires
        old(helper)@ == old(other)@,
        call_ensures(
            SyncingHelper::<T>::handle_command,
            (helper, SyncEvent::AnnounceBlock(hash, data), status, header, best_hash),
            step,
        ),
        call_ensures(
            SyncingHelper::<T>::announce_block,
            (other, hash, data, header, best_hash),
            actions,
        ),
    ensures
        final(helper)@ == final(other)@,
        step.1 == SyncAnswer::Announced,
        step.0@.len() == actions@.len(),
        actions@.len() > 0 ==> {
            &&& actions@[0] matches SyncAction::WriteBatchSyncNotification { peers, message }
            &&& step.0@[0] matches SyncAction::WriteBatchSyncNotification {
                peers: commanded,
                message: written,
            }
            &&& written@ == message@
            &&& forall|peer: PeerId| commanded@.contains(peer) <==> #[trigger] peers@.contains(peer)
        },
{
    if actions@.len() > 0 {
        if let SyncAction::WriteBatchSyncNotification { peers, message } = actions@[0] {
            if let SyncAction::WriteBatchSyncNotification {
                peers: commanded,
                message: written,
            } = step.0@[0] {
                assert forall|peer: PeerId| commanded@.contains(peer) <==> #[trigger] peers@.contains(
                    peer,
                ) by {
                    assert(peers@.to_set().contains(peer) <==> commanded@.to_set().contains(peer));
                }
            }
        }
    }
}

/// Whether a node with these role bits holds the full chain.
pub open spec fn holds_full_chain(bits: u8) -> bool {
    bits & 1u8 != 0 || bits & 4u8 != 0
}

/// Holding the full chain is being a full node.
pub proof fn lemma_holds_full_chain(bits: u8)
    ensures
        holds_full_chain(bits) == (bits & 0b101u8 != 0),
{
    assert((bits & 1u8 != 0 || bits & 4u8 != 0) == (bits & 0b101u8 != 0)) by (bit_vector);
}

/// Whether nothing but the slots speaks against a peer: it is not connected, has our
/// genesis block and, where we are a light client, holds the full chain and is fewer than
/// 8192 blocks behind us.
pub open spec fn is_suitable(
    state: SyncView,
    who: PeerId,
    status: BlockAnnouncesHandshake,
    best_number: BlockNumber,
) -> bool {
    &&& !state.peers.contains_key(who)
    &&& status.genesis_hash == state.genesis_hash
    &&& holds_full_chain(state.roles.bits) || (holds_full_chain(status.roles.bits) && best_number
        < status.best_number + 8192)
}

/// A peer is not refused without cause: a suitable light client is accepted exactly where
/// the peers beyond the full nodes that are synced with are fewer than the slots for light
/// clients, and a suitable full node is passed on exactly where the full nodes that are
/// synced with are fewer than the slots, one more for each connected peer that takes none,
/// and for itself where it takes none.
pub proof fn lemma_suitable_peers_find_a_slot<T: SyncTypes>(
    helper: &mut SyncingHelper<T>,
    who: PeerId,
    status: &BlockAnnouncesHandshake,
    best_number: BlockNumber,
    num_sync_peers: usize,
    outcome: PeerConnected,
)
    requires
        call_ensures(
            SyncingHelper::<T>::on_sync_peer_connected,
            (helper, who, status, best_number, num_sync_peers),
            outcome,
        ),
        is_suitable(old(helper)@, who, *status, best_number),
    ensures
        !holds_full_chain(status.roles.bits) ==> outcome == if old(helper)@.peers.len()
            < num_sync_peers + old(helper)@.num_light {
            PeerConnected::Accepted
        } else {
            PeerConnected::Refused(Refusal::NoLightSlot)
        },
        holds_full_chain(status.roles.bits) && !old(helper)@.no_slot_peers.contains(who) ==> outcome
            == if num_sync_peers < old(helper)@.num_full
            + old(helper)@.no_slot_connected_peers.len() {
            PeerConnected::NewPeer
        } else {
            PeerConnected::Refused(Refusal::NoFullSlot)
        },
        holds_full_chain(status.roles.bits) && old(helper)@.no_slot_peers.contains(who) ==> outcome
            == if num_sync_peers <= old(helper)@.num_full
            + old(helper)@.no_slot_connected_peers.len() {
            PeerConnected::NewPeer
        } else {
            PeerConnected::Refused(Refusal::NoFullSlot)
        },
{
    lemma_holds_full_chain(status.roles.bits);
    lemma_holds_full_chain(old(helper)@.roles.bits);
}

/// An unsuitable peer is refused, with the first of the reasons that there are.
pub proof fn lemma_unsuitable_peers_are_refused<T: SyncTypes>(
    helper: &mut SyncingHelper<T>,
    who: PeerId,
    status: &BlockAnnouncesHandshake,
    best_number: BlockNumber,
    num_sync_peers: usize,
    outcome: PeerConnected,
)
    requires
        call_ensures(
            SyncingHelper::<T>::on_sync_peer_connected,
            (helper, who, status, best_number, num_sync_peers),
            outcome,
        ),
        !is_suitable(old(helper)@, who, *status, best_number),
    ensures
        outcome == PeerConnected::Refused(
            if old(helper)@.peers.contains_key(who) {
                Refusal::AlreadyConnected
            } else if status.genesis_hash != old(helper)@.genesis_hash {
                Refusal::GenesisMismatch
            } else if !holds_full_chain(status.roles.bits) {
                Refusal::BadRole
            } else {
                Refusal::FarBehind
            },
        ),
{
    lemma_holds_full_chain(status.roles.bits);
    lemma_holds_full_chain(old(helper)@.roles.bits);
}

/// Only an accepted peer changes the state: it is then connected, with what it said of
/// itself and no block that it is known to know, and counts among those without a slot
/// where it takes none.
pub proof fn lemma_only_accepted_peers_enter<T: SyncTypes>(
    helper: &mut SyncingHelper<T>,
    who: PeerId,
    status: &BlockAnnouncesHandshake,
    best_number: BlockNumber,
    num_sync_peers: usize,
    outcome: PeerConnected,
)
    requires
        call_ensures(
            SyncingHelper::<T>::on_sync_peer_connected,
            (helper, who, status, best_number, num_sync_peers),
            outcome,
        ),
    ensures
        outcome != PeerConnected::Accepted ==> final(helper)@ == old(helper)@,
        outcome == PeerConnected::Accepted ==> has_entered(
            old(helper)@,
            final(helper)@,
            who,
            *status,
        ),
{
}

/// Whether the second state is the first one with one more peer, that has this handshake.
pub open spec fn has_entered(
    before: SyncView,
    after: SyncView,
    who: PeerId,
    status: BlockAnnouncesHandshake,
) -> bool {
    &&& after.peers.contains_key(who)
    &&& after.peers[who].info.roles == status.roles
    &&& after.peers[who].info.best_hash == status.best_hash
    &&& after.peers[who].info.best_number == status.best_number
    &&& after.peers[who].known_blocks.len() == 0
    &&& forall|peer: PeerId|
        #![trigger after.peers.contains_key(peer)]
        #![trigger before.peers.contains_key(peer)]
        peer != who ==> after.peers.contains_key(peer) == before.peers.contains_key(peer) && (
        before.peers.contains_key(peer) ==> after.peers[peer] == before.peers[peer])
    &&& forall|peer: PeerId|
        #![trigger after.no_slot_connected_peers.contains(peer)]
        #![trigger before.no_slot_connected_peers.contains(peer)]
        after.no_slot_connected_peers.contains(peer) <==> before.no_slot_connected_peers.contains(
            peer,
        ) || (peer == who && before.no_slot_peers.contains(who))
    &&& after.cache == before.cache
    &&& after.cache_capacity == before.cache_capacity
    &&& after.genesis_hash == before.genesis_hash
    &&& after.roles == before.roles
    &&& after.num_full == before.num_full
    &&& after.num_light == before.num_light
    &&& after.no_slot_peers == before.no_slot_peers
    &&& after.names == before.names
    &&& after.has_service == before.has_service
}

/// More slots never turn a peer away that fewer would have taken.
pub proof fn lemma_more_slots_refuse_nobody<T: SyncTypes>(
    fewer: &mut SyncingHelper<T>,
    more: &mut SyncingHelper<T>,
    who: PeerId,
    status: &BlockAnnouncesHandshake,
    best_number: BlockNumber,
    num_sync_peers: usize,
    outcome: PeerConnected,
    outcome_with_more: PeerConnected,
)
    requires
        old(fewer)@.num_full <= old(more)@.num_full,
        old(fewer)@.num_light <= old(more)@.num_light,
        old(more)@ == (SyncView {
            num_full: old(more)@.num_full,
            num_light: old(more)@.num_light,
            ..old(fewer)@
        }),
        call_ensures(
            SyncingHelper::<T>::on_sync_peer_connected,
            (fewer, who, status, best_number, num_sync_peers),
            outcome,
        ),
        call_ensures(
            SyncingHelper::<T>::on_sync_peer_connected,
            (more, who, status, best_number, num_sync_peers),
            outcome_with_more,
        ),
    ensures
        !(outcome is Refused) ==> outcome_with_more == outcome,
        outcome_with_more is Refused ==> outcome == outcome_with_more,
{
}

/// What a peer that opens the substream sent is its handshake, in the present form or in
/// that of older versions, and is treated as such: a refused peer is disconnected, unless
/// it is connected already, and pays where it is of another chain, a light client like us
/// or far behind; a full node is passed on; an accepted peer is reported as accepted with
/// its roles.
pub proof fn lemma_opening_treats_the_handshake<T: SyncTypes>(
    helper: &mut SyncingHelper<T>,
    other: &mut SyncingHelper<T>,
    who: PeerId,
    bytes: &Vec<u8>,
    legacy: LegacyHandshake,
    status: &BlockAnnouncesHandshake,
    best_number: BlockNumber,
    num_sync_peers: usize,
    step: OpenStep<T>,
    outcome: PeerConnected,
)
    requires
        old(helper)@ == old(other)@,
        legacy == LegacyHandshake::Status(*status) || (legacy == LegacyHandshake::Undecodable
            && bytes@ == scale::handshake_bytes(
            status.roles.bits,
            status.best_number,
            status.best_hash,
            status.genesis_hash,
        ) && status.roles.bits <= 7),
        call_ensures(
            SyncingHelper::<T>::custom_protocol_open,
            (helper, who, bytes, legacy, best_number, num_sync_peers),
            step,
        ),
        call_ensures(
            SyncingHelper::<T>::on_sync_peer_connected,
            (other, who, status, best_number, num_sync_peers),
            outcome,
        ),
    ensures
        final(helper)@ == final(other)@,
        outcome == PeerConnected::NewPeer <==> step is NewPeer,
        step matches OpenStep::NewPeer(passed_on) ==> passed_on == *status,
        step matches OpenStep::Done(actions) ==> {
            &&& outcome == PeerConnected::Accepted && old(helper)@.has_service ==> actions@.len() == 1
                && actions@[0] == SyncAction::<T>::ReportPeerValidationResult(
                who,
                PeerValidationResult::Accepted(status.roles),
            )
            &&& outcome == PeerConnected::Accepted && !old(helper)@.has_service ==> actions@.len()
                == 0
            &&& outcome == PeerConnected::Refused(Refusal::AlreadyConnected) ==> actions@.len() == 0
            &&& outcome is Refused && outcome != PeerConnected::Refused(Refusal::AlreadyConnected)
                ==> actions@.len() > 0 && actions@[0] == SyncAction::<T>::DisconnectPeer(who)
            &&& outcome == PeerConnected::Refused(Refusal::NoFullSlot) || outcome
                == PeerConnected::Refused(Refusal::NoLightSlot) ==> actions@.len() == 1
            &&& outcome == PeerConnected::Refused(Refusal::GenesisMismatch) ==> actions@.len() == 2
                && actions@[1] == SyncAction::<T>::ReportPeer(who, rep::genesis_mismatch())
            &&& outcome == PeerConnected::Refused(Refusal::BadRole) ==> actions@.len() == 2
                && actions@[1] == SyncAction::<T>::ReportPeer(who, rep::bad_role())
            &&& outcome == PeerConnected::Refused(Refusal::FarBehind) ==> actions@.len() == 2
                && actions@[1] == SyncAction::<T>::ReportPeer(who, rep::peer_behind_us_light())
        },
{
    if legacy == LegacyHandshake::Undecodable {
        crate::network::sync_types::lemma_handshake_round_trip(*status);
    }
}

/// A peer whose handshake cannot be read pays for it, and nothing else happens: it is one
/// of older versions that is no status, or its length is not that of a handshake, or its
/// first byte names unknown roles.
pub proof fn lemma_unreadable_handshakes_are_reported<T: SyncTypes>(
    helper: &mut SyncingHelper<T>,
    who: PeerId,
    bytes: &Vec<u8>,
    legacy: LegacyHandshake,
    best_number: BlockNumber,
    num_sync_peers: usize,
    step: OpenStep<T>,
)
    requires
        legacy == LegacyHandshake::Other || (legacy == LegacyHandshake::Undecodable && (bytes@.len()
            != 69 || bytes@[0] > 7)),
        call_ensures(
            SyncingHelper::<T>::custom_protocol_open,
            (helper, who, bytes, legacy, best_number, num_sync_peers),
            step,
        ),
    ensures
        final(helper)@ == old(helper)@,
        step matches OpenStep::Done(actions) && actions@.len() == 1 && actions@[0]
            == SyncAction::<T>::ReportPeer(who, rep::bad_message()),
{
    if legacy == LegacyHandshake::Undecodable {
        assert forall|handshake: BlockAnnouncesHandshake| !#[trigger] handshake.is_read_from(
            bytes@,
        ) by {
            assert(handshake.wire().len() == 69);
            assert(handshake.wire()[0] == handshake.roles.bits);
        }
    }
}

/// A full node that the chain sync agrees to enters, the request that the chain sync wants
/// is sent to it, and it is reported as accepted. One that the chain sync finds bad does
/// not enter, and who the chain sync names is disconnected and pays.
pub proof fn lemma_answer_on_a_new_peer<T: SyncTypes>(
    helper: &mut SyncingHelper<T>,
    who: PeerId,
    status: &BlockAnnouncesHandshake,
    result: Result<Option<BlockRequest>, BadPeer>,
    actions: Vec<SyncAction<T>>,
)
    requires
        call_ensures(
            SyncingHelper::<T>::new_peer_result,
            (helper, who, status, result),
            actions,
        ),
    ensures
        result is Ok ==> has_entered(old(helper)@, final(helper)@, who, *status),
        result matches Ok(request) ==> {
            let requests: int = if request is Some { 1 } else { 0 };
            let notices: int = if old(helper)@.has_service { 1 } else { 0 };
            &&& actions@.len() == requests + notices
            &&& request is Some ==> actions@[0] == (SyncAction::<T>::StartBlockRequest {
                who,
                request: request->0,
                protocol: if old(helper)@.has_service {
                    Some(old(helper)@.names.block_request)
                } else {
                    None
                },
                if_disconnected: IfDisconnected::ImmediateError,
            })
            &&& old(helper)@.has_service ==> actions@[requests]
                == SyncAction::<T>::ReportPeerValidationResult(
                who,
                PeerValidationResult::Accepted(status.roles),
            )
        },
        result matches Err(bad) ==> {
            &&& final(helper)@ == old(helper)@
            &&& actions@.len() == 2
            &&& actions@[0] == SyncAction::<T>::DisconnectPeer(bad.0)
            &&& actions@[1] == SyncAction::<T>::ReportPeer(bad.0, bad.1)
        },
{
}

/// Whether the second state is the first one without the peer.
pub open spec fn has_left(before: SyncView, after: SyncView, who: PeerId) -> bool {
    &&& forall|peer: PeerId|
        #![trigger after.peers.contains_key(peer)]
        #![trigger before.peers.contains_key(peer)]
        after.peers.contains_key(peer) == (peer != who && before.peers.contains_key(peer)) && (
        after.peers.contains_key(peer) ==> after.peers[peer] == before.peers[peer])
    &&& forall|peer: PeerId|
        #![trigger after.no_slot_connected_peers.contains(peer)]
        #![trigger before.no_slot_connected_peers.contains(peer)]
        after.no_slot_connected_peers.contains(peer) == (peer != who
            && before.no_slot_connected_peers.contains(peer))
    &&& after.cache == before.cache
    &&& after.cache_capacity == before.cache_capacity
    &&& after.genesis_hash == before.genesis_hash
    &&& after.roles == before.roles
    &&& after.num_full == before.num_full
    &&& after.num_light == before.num_light
    &&& after.no_slot_peers == before.no_slot_peers
    &&& after.names == before.names
    &&& after.has_service == before.has_service
}

/// A connected peer that is gone leaves, and the chain sync is told; one that is not
/// connected is an error and changes nothing.
pub proof fn lemma_disconnected_peers_leave<T: SyncTypes>(
    helper: &mut SyncingHelper<T>,
    who: PeerId,
    result: Result<Vec<SyncAction<T>>, ()>,
)
    requires
        call_ensures(SyncingHelper::<T>::on_sync_peer_disconnected, (helper, who), result),
    ensures
        result is Ok <==> old(helper)@.peers.contains_key(who),
        result is Err ==> final(helper)@ == old(helper)@,
        result matches Ok(actions) ==> has_left(old(helper)@, final(helper)@, who) && actions@.len()
            == 1 && actions@[0] == SyncAction::<T>::PeerDisconnected(who),
{
}

/// A connected peer whose substream of the block announces protocol is closed leaves, the
/// chain sync is told, and it is disconnected. Of other peers, and of other protocols,
/// nothing follows.
pub proof fn lemma_closing_the_substream<T: SyncTypes>(
    helper: &mut SyncingHelper<T>,
    other: &mut SyncingHelper<T>,
    who: PeerId,
    protocol: &String,
    actions: Vec<SyncAction<T>>,
    actions_of_stream: Vec<SyncAction<T>>,
)
    requires
        call_ensures(SyncingHelper::<T>::custom_protocol_close, (helper, who), actions),
        call_ensures(
            SyncingHelper::<T>::on_stream_closed,
            (other, who, protocol),
            actions_of_stream,
        ),
    ensures
        old(helper)@.peers.contains_key(who) ==> has_left(old(helper)@, final(helper)@, who)
            && actions@.len() == 2 && actions@[0] == SyncAction::<T>::PeerDisconnected(who)
            && actions@[1] == SyncAction::<T>::DisconnectSyncPeer(who),
        !old(helper)@.peers.contains_key(who) ==> final(helper)@ == old(helper)@ && actions@.len()
            == 0,
        protocol@ != old(other)@.names.block_announces@ ==> final(other)@ == old(other)@
            && actions_of_stream@.len() == 0,
        protocol@ == old(other)@.names.block_announces@ && old(other)@ == old(helper)@
            ==> final(other)@ == final(helper)@ && actions_of_stream@ =~= actions@,
{
}

/// An announcement by a connected peer makes that peer know the block, and changes nothing
/// else. Where it holds the full chain, the announcement is handed over for validation as
/// it came, as one of its best block unless it says otherwise. Announcements of others are
/// ignored.
pub proof fn lemma_announcements_of_full_nodes_are_validated<T: SyncTypes>(
    helper: &mut SyncingHelper<T>,
    who: PeerId,
    announce: BlockAnnounce,
    actions: Vec<SyncAction<T>>,
)
    requires
        old(helper).wf(),
        call_ensures(
            SyncingHelper::<T>::push_block_announce_validation,
            (helper, who, announce),
            actions,
        ),
    ensures
        !old(helper)@.peers.contains_key(who) ==> final(helper)@ == old(helper)@ && actions@.len()
            == 0,
        old(helper)@.peers.contains_key(who) ==> {
            let hash = scale::blake2_256_of(announce.header.encoded@);
            &&& learns_alone(old(helper)@, final(helper)@, who, hash)
            &&& !holds_full_chain(old(helper)@.peers[who].info.roles.bits) ==> actions@.len() == 0
            &&& holds_full_chain(old(helper)@.peers[who].info.roles.bits) ==> actions@.len() == 1
                && actions@[0] == (SyncAction::<T>::PushBlockAnnounceValidation {
                who,
                hash,
                announce,
                is_best: announce.state is None || announce.state == Some(BlockState::Best),
            })
        },
{
    old(helper).lemma_wf();
    if old(helper)@.peers.contains_key(who) {
        lemma_holds_full_chain(old(helper)@.peers[who].info.roles.bits);
        lemma_insertion_tells(
            old(helper)@.peers[who].known_blocks,
            scale::blake2_256_of(announce.header.encoded@),
        );
        assert(final(helper)@.peers.dom() =~= old(helper)@.peers.dom());
        match announce.state {
            Some(BlockState::Best) => {},
            Some(BlockState::Normal) => {},
            None => {},
        }
    }
}

/// Whether the second state is the first one with one peer told of a block.
pub open spec fn learns_alone(
    before: SyncView,
    after: SyncView,
    who: PeerId,
    hash: BlockHash,
) -> bool {
    &&& after.peers.dom() == before.peers.dom()
    &&& after.peers[who].info == before.peers[who].info
    &&& is_told(before.peers[who].known_blocks, after.peers[who].known_blocks, hash)
    &&& forall|peer: PeerId|
        #![trigger after.peers[peer]]
        before.peers.contains_key(peer) && peer != who ==> after.peers[peer] == before.peers[peer]
    &&& after.cache == before.cache
    &&& same_but_peers_and_cache(before, after)
}

/// What a connected full node wrote in an announcement is what is validated: the header,
/// the state and the data. The chain sync is asked once for ended validations after it.
pub proof fn lemma_notifications_are_read_as_written<T: SyncTypes>(
    helper: &mut SyncingHelper<T>,
    who: PeerId,
    message: &Vec<u8>,
    header: Header,
    is_best: bool,
    data: Seq<u8>,
    actions: Vec<SyncAction<T>>,
)
    requires
        old(helper)@.peers.contains_key(who),
        holds_full_chain(old(helper)@.peers[who].info.roles.bits),
        scale::header_number_of(header.encoded@) == Some(header.number),
        data.len() <= u32::MAX,
        message@ == header.encoded@ + seq![if is_best { 1u8 } else { 0u8 }] + scale::byte_string(
            data,
        ),
        call_ensures(SyncingHelper::<T>::notification, (helper, who, message), actions),
    ensures
        actions@.len() == 2,
        actions@[1] == SyncAction::<T>::PollBlockAnnounceValidation,
        actions@[0] matches SyncAction::PushBlockAnnounceValidation {
            who: from,
            hash,
            announce,
            is_best: claimed,
        } && {
            &&& from == who
            &&& hash == scale::blake2_256_of(header.encoded@)
            &&& announce.header.encoded@ == header.encoded@
            &&& announce.header.number == header.number
            &&& announce.state == Some(if is_best { BlockState::Best } else { BlockState::Normal })
            &&& announce.data is Some
            &&& announce.data->0@ == data
            &&& claimed == is_best
        },
{
    lemma_holds_full_chain(old(helper)@.peers[who].info.roles.bits);
    assert(crate::network::sync_model::announcement(header, is_best, data) =~= message@);
}

/// A notification that is an announcement makes its sender know the announced block, where
/// it is connected, and has the chain sync asked for ended validations. What else comes in,
/// and what others send, is ignored.
pub proof fn lemma_only_announcements_of_the_connected_count<T: SyncTypes>(
    helper: &mut SyncingHelper<T>,
    who: PeerId,
    message: &Vec<u8>,
    actions: Vec<SyncAction<T>>,
)
    requires
        old(helper).wf(),
        call_ensures(SyncingHelper::<T>::notification, (helper, who, message), actions),
    ensures
        !old(helper)@.peers.contains_key(who) || scale::block_announce_of(message@) is None
            ==> final(helper)@ == old(helper)@ && actions@.len() == 0,
        old(helper)@.peers.contains_key(who) ==> (scale::block_announce_of(message@) matches Some(
            (number, header, is_best, data),
        ) ==> {
            let last = actions@.len() - 1;
            &&& learns_alone(old(helper)@, final(helper)@, who, scale::blake2_256_of(header))
            &&& last == if holds_full_chain(old(helper)@.peers[who].info.roles.bits) { 1int } else {
                0
            }
            &&& actions@[last] == SyncAction::<T>::PollBlockAnnounceValidation
            &&& last == 1 ==> (actions@[0] matches SyncAction::PushBlockAnnounceValidation {
                who: from,
                hash,
                announce,
                is_best: claimed,
            } && {
                &&& from == who
                &&& hash == scale::blake2_256_of(header)
                &&& announce.header.number == number
                &&& announce.header.encoded@ == header
                &&& announce.state == match is_best {
                    Some(true) => Some(BlockState::Best),
                    Some(false) => Some(BlockState::Normal),
                    None => None,
                }
                &&& announce.data is Some <==> data is Some
                &&& data is Some ==> announce.data->0@ == data->0
                &&& claimed == (is_best != Some(false))
            })
        }),
{
    old(helper).lemma_wf();
    if old(helper)@.peers.contains_key(who) {
        lemma_holds_full_chain(old(helper)@.peers[who].info.roles.bits);
        if let Some(parts) = scale::block_announce_of(message@) {
            lemma_insertion_tells(
                old(helper)@.peers[who].known_blocks,
                scale::blake2_256_of(parts.1),
            );
            assert(final(helper)@.peers.dom() =~= old(helper)@.peers.dom());
        }
    }
}

/// The data of a validated announcement goes with our own announcement of the block when
/// no other data is given for it, in every cache made for at least one entry.
pub proof fn lemma_validated_data_is_passed_on<T: SyncTypes>(
    helper: &mut SyncingHelper<T>,
    result: PollBlockAnnounceValidation,
    announce: BlockAnnounce,
    answers: Vec<SyncAction<T>>,
    later: &mut SyncingHelper<T>,
    hash: BlockHash,
    header: Option<Header>,
    best_hash: BlockHash,
    actions: Vec<SyncAction<T>>,
)
    requires
        match result {
            PollBlockAnnounceValidation::Nothing { announce: validated, .. }
            | PollBlockAnnounceValidation::ImportHeader { announce: validated, .. } => validated
                == announce,
            _ => false,
        },
        announce.data is Some,
        announce.data->0@.len() > 0,
        old(helper)@.cache_capacity > 0,
        hash == scale::blake2_256_of(announce.header.encoded@),
        call_ensures(
            SyncingHelper::<T>::process_block_announce_validation_result,
            (helper, result),
            answers,
        ),
        call_ensures(
            SyncingHelper::<T>::announce_block,
            (later, hash, None::<Vec<u8>>, header, best_hash),
            actions,
        ),
    ensures
        old(later)@.cache == final(helper)@.cache && actions@.len() > 0 ==> (actions@[0] matches
            SyncAction::WriteBatchSyncNotification { peers, message } && header is Some
            && message@.skip((header->0.encoded@.len() + 1) as int) == scale::byte_string(
            announce.data->0@,
        )),
{
    announce_cache::lemma_put_then_get(
        old(helper)@.cache,
        old(helper)@.cache_capacity,
        hash,
        announce.data->0@,
    );
    if old(later)@.cache == final(helper)@.cache && actions@.len() > 0 {
        if let SyncAction::WriteBatchSyncNotification { peers, message } = actions@[0] {
            assert(message@.skip((header->0.encoded@.len() + 1) as int) =~= scale::byte_string(
                announce.data->0@,
            ));
        }
    }
}

/// The end of a validation changes nothing but the stored data, and that only where the
/// announcement was valid and came with data. Data of other blocks stays as it is, unless
/// it is what was used longest ago in a full cache. A failure costs the sender, who is
/// disconnected where that is asked for; a header that is to be imported is handed to the
/// chain sync as an unrequested block with nothing but the header.
pub proof fn lemma_what_the_end_of_a_validation_does<T: SyncTypes>(
    helper: &mut SyncingHelper<T>,
    result: PollBlockAnnounceValidation,
    actions: Vec<SyncAction<T>>,
)
    requires
        call_ensures(
            SyncingHelper::<T>::process_block_announce_validation_result,
            (helper, result),
            actions,
        ),
    ensures
        final(helper)@.peers == old(helper)@.peers,
        same_but_peers_and_cache(old(helper)@, final(helper)@),
        match result {
            PollBlockAnnounceValidation::Skip => final(helper)@.cache == old(helper)@.cache
                && actions@.len() == 0,
            PollBlockAnnounceValidation::Failure { who, disconnect } => {
                let last: int = if disconnect { 1 } else { 0 };
                &&& final(helper)@.cache == old(helper)@.cache
                &&& actions@.len() == last + 1
                &&& disconnect ==> actions@[0] == SyncAction::<T>::DisconnectPeer(who)
                &&& actions@[last] == SyncAction::<T>::ReportPeer(
                    who,
                    rep::bad_block_announcement(),
                )
            },
            PollBlockAnnounceValidation::Nothing { announce, .. } => {
                &&& stores(old(helper)@, final(helper)@, announce)
                &&& actions@.len() == 0
            },
            PollBlockAnnounceValidation::ImportHeader { announce, who, .. } => {
                &&& stores(old(helper)@, final(helper)@, announce)
                &&& actions@.len() == 1
                &&& actions@[0] matches SyncAction::OnBlockData { who: from, request, response }
                &&& from == who
                &&& request is None
                &&& response.id == 0
                &&& response.blocks@.len() == 1
                &&& response.blocks@[0].hash == scale::blake2_256_of(announce.header.encoded@)
                &&& response.blocks@[0].header == Some(announce.header)
                &&& response.blocks@[0].body is None
                &&& response.blocks@[0].indexed_body is None
                &&& response.blocks@[0].receipt is None
                &&& response.blocks@[0].message_queue is None
                &&& response.blocks@[0].justification is None
                &&& response.blocks@[0].justifications is None
            },
        },
{
    match result {
        PollBlockAnnounceValidation::Nothing { announce, .. }
        | PollBlockAnnounceValidation::ImportHeader { announce, .. } => {
            lemma_stores(old(helper)@, final(helper)@, announce);
        },
        _ => {},
    }
}

/// Whether the second state is the first one with the data of an announcement stored.
pub open spec fn stores(before: SyncView, after: SyncView, announce: BlockAnnounce) -> bool {
    let hash = scale::blake2_256_of(announce.header.encoded@);
    if announce.data is None || announce.data->0@.len() == 0 {
        after.cache == before.cache
    } else {
        &&& before.cache_capacity > 0 ==> after.cache.len() > 0 && after.cache[0] == (
            hash,
            announce.data->0@,
        )
        &&& forall|i: int|
            #![trigger before.cache[i]]
            0 <= i < before.cache.len() && before.cache[i].0 != hash && (i < before.cache.len() - 1
                || before.cache.len() < before.cache_capacity || exists|j: int|
                0 <= j < before.cache.len() && (#[trigger] before.cache[j]).0 == hash)
                ==> after.cache.contains(before.cache[i])
        &&& forall|i: int|
            0 <= i < after.cache.len() ==> #[trigger] after.cache[i] == (hash, announce.data->0@)
                || before.cache.contains(after.cache[i])
    }
}

/// Putting data into the cache is what storing it means.
proof fn lemma_stores(before: SyncView, after: SyncView, announce: BlockAnnounce)
    requires
        after == before.after_announce_data(announce),
    ensures
        stores(before, after, announce),
{
    if announce.data is Some && announce.data->0@.len() > 0 {
        let hash = scale::blake2_256_of(announce.header.encoded@);
        let data = announce.data->0@;
        let entries = before.cache;
        announce_cache::lemma_put_entries(entries, before.cache_capacity, hash, data);
        assert forall|i: int|
            #![trigger entries[i]]
            0 <= i < entries.len() && entries[i].0 != hash && (i < entries.len() - 1
                || entries.len() < before.cache_capacity || announce_cache::has_entry(
                entries,
                hash,
            )) implies after.cache.contains(entries[i]) by {
            if announce_cache::has_entry(entries, hash) {
                let keep = announce_cache::has_other_key(hash);
                entries.lemma_filter_contains(keep, i);
                let kept = entries.filter(keep);
                let j = choose|j: int| 0 <= j < kept.len() && kept[j] == entries[i];
                assert(after.cache[j + 1] == entries[i]);
            } else if before.cache_capacity == 0 {
                assert(after.cache[i] == entries[i]);
            } else {
                assert(after.cache[i + 1] == entries[i]);
            }
        }
    }
}

/// A set of known hashes starts empty. A hash that is inserted is new exactly where it was
/// not there, and is the newest one from then on.
pub proof fn lemma_known_hashes(
    limit: usize,
    new: LruHashSet,
    known: &mut LruHashSet,
    hash: BlockHash,
    inserted: bool,
)
    requires
        old(known).wf(),
        old(known).limit() > 1,
        call_ensures(LruHashSet::new, (limit,), new),
        call_ensures(LruHashSet::insert, (known, hash), inserted),
    ensures
        new@.len() == 0,
        new.limit() == limit,
        inserted <==> !exists|i: int|
            0 <= i < old(known)@.len() && #[trigger] old(known)@[i] == hash,
        is_inserted(old(known)@, final(known)@, old(known).limit(), hash),
        final(known).limit() == old(known).limit(),
{
    lemma_is_inserted(old(known)@, old(known).limit(), hash);
}

/// A node holds the full chain where it is a full node or an authority, and is a light
/// client where it does not; there are three roles.
pub proof fn lemma_roles(roles: &Roles, is_full: bool, is_light: bool, is_known: bool)
    requires
        call_ensures(Roles::is_full, (roles,), is_full),
        call_ensures(Roles::is_light, (roles,), is_light),
        call_ensures(Roles::is_known, (roles,), is_known),
    ensures
        is_full == holds_full_chain(roles.bits),
        is_light == !is_full,
        is_known == (roles.bits <= 1 + 2 + 4),
{
    lemma_holds_full_chain(roles.bits);
}

/// A header that is read keeps its bytes and has the number that they give, and its hash
/// is the digest of those bytes.
pub proof fn lemma_headers_keep_their_bytes(
    encoded: Vec<u8>,
    header: Option<Header>,
    any: &Header,
    hash: BlockHash,
)
    requires
        call_ensures(Header::decode_all, (encoded,), header),
        call_ensures(Header::hash, (any,), hash),
    ensures
        header is Some <==> scale::header_number_of(encoded@) is Some,
        header is Some ==> header->0.encoded@ == encoded@ && Some(header->0.number)
            == scale::header_number_of(encoded@),
        hash == scale::blake2_256_of(any.encoded@),
{
}

/// In every valid state every peer may connect, with every handshake, every peer may be
/// told of, and every notification may come in. A number of full nodes that are synced
/// with may be given as long as it does not exceed that of the connected peers.
pub proof fn lemma_every_peer_may_come<T: SyncTypes>(
    helper: &mut SyncingHelper<T>,
    who: PeerId,
    bytes: &Vec<u8>,
    legacy: LegacyHandshake,
    status: &BlockAnnouncesHandshake,
    best_number: BlockNumber,
    num_sync_peers: usize,
    result: Result<Option<BlockRequest>, BadPeer>,
    announce: BlockAnnounce,
)
    requires
        old(helper).wf(),
    ensures
        num_sync_peers <= old(helper)@.peers.dom().len() || holds_full_chain(status.roles.bits)
            ==> call_requires(
            SyncingHelper::<T>::on_sync_peer_connected,
            (helper, who, status, best_number, num_sync_peers),
        ),
        num_sync_peers <= old(helper)@.peers.dom().len() ==> call_requires(
            SyncingHelper::<T>::custom_protocol_open,
            (helper, who, bytes, legacy, best_number, num_sync_peers),
        ),
        call_requires(SyncingHelper::<T>::new_peer_result, (helper, who, status, result)),
        call_requires(SyncingHelper::<T>::on_sync_peer_disconnected, (helper, who)),
        old(helper)@.has_service || !old(helper)@.peers.contains_key(who) ==> call_requires(
            SyncingHelper::<T>::custom_protocol_close,
            (helper, who),
        ),
        call_requires(
            SyncingHelper::<T>::push_block_announce_validation,
            (helper, who, announce),
        ),
        call_requires(SyncingHelper::<T>::notification, (helper, who, bytes)),
{
    lemma_holds_full_chain(status.roles.bits);
}

/// In every valid state every block may be announced, every validation may end and every
/// command may be given, with data of up to 2^32 - 1 bytes.
pub proof fn lemma_everything_may_be_asked_for<T: SyncTypes>(
    helper: &mut SyncingHelper<T>,
    hash: BlockHash,
    data: Option<Vec<u8>>,
    header: Option<Header>,
    best_hash: BlockHash,
    result: PollBlockAnnounceValidation,
    announce: BlockAnnounce,
    event: SyncEvent<T>,
    status: ChainSyncStatus,
)
    requires
        old(helper).wf(),
        announce.data is Some ==> announce.data->0@.len() <= u32::MAX,
        match result {
            PollBlockAnnounceValidation::Nothing { announce: validated, .. }
            | PollBlockAnnounceValidation::ImportHeader { announce: validated, .. } => validated
                == announce,
            _ => true,
        },
    ensures
        data is None || data->0@.len() <= u32::MAX || header is None || header->0.number == 0
            || !old(helper)@.has_service ==> call_requires(
            SyncingHelper::<T>::announce_block,
            (helper, hash, data, header, best_hash),
        ),
        call_requires(
            SyncingHelper::<T>::process_block_announce_validation_result,
            (helper, result),
        ),
        !(event is AnnounceBlock) ==> call_requires(
            SyncingHelper::<T>::handle_command,
            (helper, event, status, header, best_hash),
        ),
        event matches SyncEvent::AnnounceBlock(_, None) ==> call_requires(
            SyncingHelper::<T>::handle_command,
            (helper, event, status, header, best_hash),
        ),
        event matches SyncEvent::AnnounceBlock(_, Some(given)) ==> given@.len() <= u32::MAX
            ==> call_requires(
            SyncingHelper::<T>::handle_command,
            (helper, event, status, header, best_hash),
        ),
{
}

} // verus!
