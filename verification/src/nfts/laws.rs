//! What holds of the token pallet over several calls.
use crate::nfts::approvals::deadline_after;
use crate::nfts::metadata::{deposit_change, deposit_of};
use crate::nfts::storage::PalletView;
use crate::nfts::types::{
    AccountId, Balance, BlockNumber, CollectionId, CollectionSettings, DepositChange, Error,
    ItemId, MetadataView,
};
use vstd::prelude::*;

verus! {

/// By how much the reserved amount grows.
pub open spec fn reserved_by(change: DepositChange) -> int {
    match change {
        DepositChange::Reserve(_, amount) => amount as int,
        DepositChange::Unreserve(_, amount) => -amount,
        DepositChange::Keep => 0,
    }
}

/// The items of a collection that have metadata.
pub open spec fn items_with_metadata(state: PalletView, collection: CollectionId) -> Set<
    (CollectionId, ItemId),
> {
    state.item_metadata.dom().filter(|key: (CollectionId, ItemId)| key.0 == collection)
}

/// The number of items with metadata is stored with every collection.
pub open spec fn metadata_is_counted(state: PalletView) -> bool {
    &&& state.item_metadata.dom().finite()
    &&& forall|collection: CollectionId| #[trigger]
        state.collections.contains_key(collection)
            ==> state.collections[collection].item_metadatas == items_with_metadata(
            state,
            collection,
        ).len()
}

/// Setting metadata of an item keeps the count of items with metadata right, unless the
/// count is at its limit and the item had none.
pub proof fn lemma_set_keeps_count(
    state: PalletView,
    collection: CollectionId,
    item: ItemId,
    metadata: MetadataView,
)
    requires
        metadata_is_counted(state),
        state.collections.contains_key(collection),
        !state.item_metadata.contains_key((collection, item))
            ==> state.collections[collection].item_metadatas < u32::MAX,
    ensures
        metadata_is_counted(state.after_item_set(collection, item, metadata)),
{
    let after = state.after_item_set(collection, item, metadata);
    let key = (collection, item);
    assert(after.item_metadata.dom() =~= state.item_metadata.dom().insert(key));
    assert forall|other: CollectionId| #[trigger]
        after.collections.contains_key(other) implies after.collections[other].item_metadatas
        == items_with_metadata(after, other).len() by {
        assert(state.collections.contains_key(other));
        if other == collection {
            assert(items_with_metadata(after, other) =~= items_with_metadata(
                state,
                other,
            ).insert(key));
        } else {
            assert(items_with_metadata(after, other) =~= items_with_metadata(state, other));
        }
    }
}

/// Clearing metadata of an item keeps the count of items with metadata right.
pub proof fn lemma_clear_keeps_count(state: PalletView, collection: CollectionId, item: ItemId)
    requires
        metadata_is_counted(state),
        state.collections.contains_key(collection),
        state.item_metadata.contains_key((collection, item)),
    ensures
        metadata_is_counted(state.after_item_cleared(collection, item)),
{
    let after = state.after_item_cleared(collection, item);
    let key = (collection, item);
    assert(after.item_metadata.dom() =~= state.item_metadata.dom().remove(key));
    assert forall|other: CollectionId| #[trigger]
        after.collections.contains_key(other) implies after.collections[other].item_metadatas
        == items_with_metadata(after, other).len() by {
        assert(state.collections.contains_key(other));
        if other == collection {
            assert(items_with_metadata(state, other).contains(key));
            assert(items_with_metadata(after, other) =~= items_with_metadata(
                state,
                other,
            ).remove(key));
        } else {
            assert(items_with_metadata(after, other) =~= items_with_metadata(state, other));
        }
    }
}

/// What is reserved is what is stored: when metadata of an item is set, the currency
/// changes what the owner has reserved by what the stored deposit changes by, and when
/// it is cleared, the currency gives back the whole of it.
pub proof fn lemma_reserved_is_stored(
    state: PalletView,
    collection: CollectionId,
    item: ItemId,
    metadata: MetadataView,
)
    requires
        state.collections.contains_key(collection),
    ensures
        ({
            let key = (collection, item);
            let owner = state.collections[collection].owner;
            let before = deposit_of(state.item_metadata.get(key));
            let change = deposit_change(owner, before, metadata.deposit);
            let after = state.after_item_set(collection, item, metadata);
            &&& deposit_of(after.item_metadata.get(key)) == before + reserved_by(change)
            &&& is_paid_by(change, owner)
            &&& deposit_of(state.after_item_cleared(collection, item).item_metadata.get(key))
                == before + reserved_by(DepositChange::Unreserve(owner, before))
        }),
{
}

/// Whose reserved amount changes.
pub open spec fn is_paid_by(change: DepositChange, owner: AccountId) -> bool {
    match change {
        DepositChange::Reserve(account, amount) => account == owner && amount > 0,
        DepositChange::Unreserve(account, amount) => account == owner && amount > 0,
        DepositChange::Keep => true,
    }
}

/// The same holds of the metadata of a collection.
pub proof fn lemma_reserved_is_stored_for_collections(
    state: PalletView,
    collection: CollectionId,
    metadata: MetadataView,
)
    requires
        state.collections.contains_key(collection),
    ensures
        ({
            let owner = state.collections[collection].owner;
            let before = deposit_of(state.collection_metadata.get(collection));
            let change = deposit_change(owner, before, metadata.deposit);
            let after = state.after_collection_set(collection, metadata);
            let cleared = state.after_collection_cleared(collection);
            &&& deposit_of(after.collection_metadata.get(collection)) == before + reserved_by(
                change,
            )
            &&& is_paid_by(change, owner)
            &&& deposit_of(cleared.collection_metadata.get(collection)) == before + reserved_by(
                DepositChange::Unreserve(owner, before),
            )
        }),
{
}

/// The sum of the deposits of the given items.
pub open spec fn sum_of_deposits(
    metadata: Map<(CollectionId, ItemId), MetadataView>,
    keys: Set<(CollectionId, ItemId)>,
) -> nat
    decreases keys.len(),
    when keys.finite()
{
    if keys.len() == 0 {
        0
    } else {
        let key = keys.choose();
        metadata[key].deposit as nat + sum_of_deposits(metadata, keys.remove(key))
    }
}

/// The deposits that are taken for the metadata of a collection and of its items.
pub open spec fn deposits_of(state: PalletView, collection: CollectionId) -> nat {
    sum_of_deposits(state.item_metadata, items_with_metadata(state, collection))
        + deposit_of(state.collection_metadata.get(collection)) as nat
}

/// The sum of the deposits that is stored with a collection covers all of them.
pub open spec fn deposits_are_covered(state: PalletView) -> bool {
    &&& state.item_metadata.dom().finite()
    &&& forall|collection: CollectionId| #[trigger]
        state.collections.contains_key(collection) ==> deposits_of(state, collection)
            <= state.collections[collection].total_deposit
}

/// The sum can be taken in any order.
proof fn lemma_sum_without(
    metadata: Map<(CollectionId, ItemId), MetadataView>,
    keys: Set<(CollectionId, ItemId)>,
    key: (CollectionId, ItemId),
)
    requires
        keys.finite(),
        keys.contains(key),
    ensures
        sum_of_deposits(metadata, keys) == metadata[key].deposit as nat + sum_of_deposits(
            metadata,
            keys.remove(key),
        ),
    decreases keys.len(),
{
    let first = keys.choose();
    if first != key {
        lemma_sum_without(metadata, keys.remove(first), key);
        lemma_sum_without(metadata, keys.remove(key), first);
        assert(keys.remove(first).remove(key) =~= keys.remove(key).remove(first));
    }
}

/// The sum depends on the deposits of the given items alone.
proof fn lemma_sum_of_same(
    metadata: Map<(CollectionId, ItemId), MetadataView>,
    other: Map<(CollectionId, ItemId), MetadataView>,
    keys: Set<(CollectionId, ItemId)>,
)
    requires
        keys.finite(),
        forall|key: (CollectionId, ItemId)| #[trigger]
            keys.contains(key) ==> metadata[key] == other[key],
    ensures
        sum_of_deposits(metadata, keys) == sum_of_deposits(other, keys),
    decreases keys.len(),
{
    if keys.len() > 0 {
        let key = keys.choose();
        assert(keys.contains(key));
        lemma_sum_of_same(metadata, other, keys.remove(key));
    }
}

/// What setting metadata of an item does to the sum.
proof fn lemma_sum_after_set(
    state: PalletView,
    collection: CollectionId,
    item: ItemId,
    metadata: MetadataView,
    of: CollectionId,
)
    requires
        state.item_metadata.dom().finite(),
    ensures
        ({
            let key = (collection, item);
            let after = state.item_metadata.insert(key, metadata);
            let before = deposit_of(state.item_metadata.get(key)) as nat;
            let keys = items_with_metadata(state, of);
            let after_keys = items_with_metadata(
                PalletView { item_metadata: after, ..state },
                of,
            );
            &&& of == collection ==> sum_of_deposits(after, after_keys) + before
                == sum_of_deposits(state.item_metadata, keys) + metadata.deposit
            &&& of != collection ==> sum_of_deposits(after, after_keys) == sum_of_deposits(
                state.item_metadata,
                keys,
            )
        }),
{
    let key = (collection, item);
    let after = state.item_metadata.insert(key, metadata);
    let keys = items_with_metadata(state, of);
    let after_keys = items_with_metadata(PalletView { item_metadata: after, ..state }, of);
    if of == collection {
        assert(after_keys =~= keys.insert(key));
        lemma_sum_without(after, after_keys, key);
        assert(after_keys.remove(key) =~= keys.remove(key));
        lemma_sum_of_same(after, state.item_metadata, keys.remove(key));
        if keys.contains(key) {
            lemma_sum_without(state.item_metadata, keys, key);
        } else {
            assert(keys.remove(key) =~= keys);
        }
    } else {
        assert(after_keys =~= keys);
        lemma_sum_of_same(after, state.item_metadata, keys);
    }
}

/// Setting metadata of an item keeps the deposits covered, as long as their sum does not
/// exceed the greatest amount.
pub proof fn lemma_item_set_keeps_cover(
    state: PalletView,
    collection: CollectionId,
    item: ItemId,
    metadata: MetadataView,
)
    requires
        deposits_are_covered(state),
        state.collections.contains_key(collection),
        deposits_of(state, collection) - deposit_of(state.item_metadata.get((collection, item)))
            + metadata.deposit <= Balance::MAX,
    ensures
        deposits_are_covered(state.after_item_set(collection, item, metadata)),
{
    let after = state.after_item_set(collection, item, metadata);
    let key = (collection, item);
    assert(after.item_metadata.dom() =~= state.item_metadata.dom().insert(key));
    assert forall|of: CollectionId| #[trigger] after.collections.contains_key(of) implies deposits_of(
        after,
        of,
    ) <= after.collections[of].total_deposit by {
        assert(state.collections.contains_key(of));
        lemma_sum_after_set(state, collection, item, metadata, of);
        let set = PalletView { item_metadata: after.item_metadata, ..state };
        assert(items_with_metadata(set, of) =~= items_with_metadata(after, of));
        if of == collection && state.item_metadata.contains_key(key) {
            assert(items_with_metadata(state, of).contains(key));
            lemma_sum_without(state.item_metadata, items_with_metadata(state, of), key);
        }
    }
}

/// Clearing metadata of an item keeps the deposits covered.
pub proof fn lemma_item_clear_keeps_cover(
    state: PalletView,
    collection: CollectionId,
    item: ItemId,
)
    requires
        deposits_are_covered(state),
        state.collections.contains_key(collection),
        state.item_metadata.contains_key((collection, item)),
    ensures
        deposits_are_covered(state.after_item_cleared(collection, item)),
{
    let after = state.after_item_cleared(collection, item);
    let key = (collection, item);
    assert(after.item_metadata.dom() =~= state.item_metadata.dom().remove(key));
    assert forall|of: CollectionId| #[trigger] after.collections.contains_key(of) implies deposits_of(
        after,
        of,
    ) <= after.collections[of].total_deposit by {
        assert(state.collections.contains_key(of));
        let keys = items_with_metadata(state, of);
        if of == collection {
            assert(keys.contains(key));
            assert(items_with_metadata(after, of) =~= keys.remove(key));
            lemma_sum_without(state.item_metadata, keys, key);
            lemma_sum_of_same(after.item_metadata, state.item_metadata, keys.remove(key));
        } else {
            assert(items_with_metadata(after, of) =~= keys);
            lemma_sum_of_same(after.item_metadata, state.item_metadata, keys);
        }
    }
}

/// Setting metadata of a collection keeps the deposits covered, as long as their sum does
/// not exceed the greatest amount.
pub proof fn lemma_collection_set_keeps_cover(
    state: PalletView,
    collection: CollectionId,
    metadata: MetadataView,
)
    requires
        deposits_are_covered(state),
        state.collections.contains_key(collection),
        deposits_of(state, collection) - deposit_of(state.collection_metadata.get(collection))
            + metadata.deposit <= Balance::MAX,
    ensures
        deposits_are_covered(state.after_collection_set(collection, metadata)),
{
    let after = state.after_collection_set(collection, metadata);
    assert forall|of: CollectionId| #[trigger] after.collections.contains_key(of) implies deposits_of(
        after,
        of,
    ) <= after.collections[of].total_deposit by {
        assert(state.collections.contains_key(of));
        assert(items_with_metadata(after, of) =~= items_with_metadata(state, of));
    }
}

/// Clearing metadata of a collection keeps the deposits covered: the stored sum stays,
/// and is from then on more than what is taken.
pub proof fn lemma_collection_clear_keeps_cover(state: PalletView, collection: CollectionId)
    requires
        deposits_are_covered(state),
        state.collections.contains_key(collection),
        state.collection_metadata.contains_key(collection),
    ensures
        deposits_are_covered(state.after_collection_cleared(collection)),
        deposits_of(state.after_collection_cleared(collection), collection) + deposit_of(
            state.collection_metadata.get(collection),
        ) <= state.after_collection_cleared(collection).collections[collection].total_deposit,
{
    let after = state.after_collection_cleared(collection);
    assert forall|of: CollectionId| #[trigger] after.collections.contains_key(of) implies deposits_of(
        after,
        of,
    ) <= after.collections[of].total_deposit by {
        assert(state.collections.contains_key(of));
        assert(items_with_metadata(after, of) =~= items_with_metadata(state, of));
    }
    assert(items_with_metadata(after, collection) =~= items_with_metadata(state, collection));
}

/// The sum of the deposits of a collection grows by what the deposit of an item grows
/// by, as long as it holds that deposit and does not exceed the greatest amount.
pub proof fn lemma_item_deposit_is_summed(
    state: PalletView,
    collection: CollectionId,
    item: ItemId,
    metadata: MetadataView,
)
    requires
        state.collections[collection].total_deposit >= deposit_of(
            state.item_metadata.get((collection, item)),
        ),
        state.collections[collection].total_deposit - deposit_of(
            state.item_metadata.get((collection, item)),
        ) + metadata.deposit <= Balance::MAX,
    ensures
        state.after_item_set(collection, item, metadata).collections[collection].total_deposit
            - metadata.deposit == state.collections[collection].total_deposit - deposit_of(
            state.item_metadata.get((collection, item)),
        ),
{
}

/// The sum of the deposits of a collection grows by what the deposit for its own
/// metadata grows by when that is set, as long as it holds that deposit and does not
/// exceed the greatest amount.
pub proof fn lemma_collection_deposit_is_summed(
    state: PalletView,
    collection: CollectionId,
    metadata: MetadataView,
)
    requires
        state.collections[collection].total_deposit >= deposit_of(
            state.collection_metadata.get(collection),
        ),
        state.collections[collection].total_deposit - deposit_of(
            state.collection_metadata.get(collection),
        ) + metadata.deposit <= Balance::MAX,
    ensures
        state.after_collection_set(collection, metadata).collections[collection].total_deposit
            - metadata.deposit == state.collections[collection].total_deposit - deposit_of(
            state.collection_metadata.get(collection),
        ),
{
}

/// Clearing the metadata of an item undoes setting it for an item that had none, as
/// long as neither the count nor the sum of the deposits reaches its limit.
pub proof fn lemma_clear_undoes_set(
    state: PalletView,
    collection: CollectionId,
    item: ItemId,
    metadata: MetadataView,
)
    requires
        state.collections.contains_key(collection),
        !state.item_metadata.contains_key((collection, item)),
        state.collections[collection].item_metadatas < u32::MAX,
        state.collections[collection].total_deposit + metadata.deposit <= Balance::MAX,
    ensures
        state.after_item_set(collection, item, metadata).after_item_cleared(collection, item)
            == state,
{
    let after = state.after_item_set(collection, item, metadata).after_item_cleared(
        collection,
        item,
    );
    assert(after.item_metadata =~= state.item_metadata);
    assert(after.collections =~= state.collections);
}

/// Metadata that was set last is the one that counts, whatever was set before: all is as
/// if it had been set alone, unless the sum of the deposits exceeded the greatest amount
/// meanwhile for a greater deposit than the last one.
pub proof fn lemma_last_set_counts(
    state: PalletView,
    collection: CollectionId,
    item: ItemId,
    first: MetadataView,
    second: MetadataView,
)
    requires
        state.collections[collection].total_deposit - deposit_of(
            state.item_metadata.get((collection, item)),
        ) + first.deposit <= Balance::MAX || first.deposit <= second.deposit,
    ensures
        state.after_item_set(collection, item, first).after_item_set(collection, item, second)
            == state.after_item_set(collection, item, second),
{
    let twice = state.after_item_set(collection, item, first).after_item_set(
        collection,
        item,
        second,
    );
    let once = state.after_item_set(collection, item, second);
    assert(twice.item_metadata =~= once.item_metadata);
    assert(twice.collections =~= once.collections);
}

/// No deposit is taken from a collection that is held for free, nor for a call that is
/// not made for an owner; otherwise the deposit does not shrink with the length.
pub proof fn lemma_who_pays(
    state: PalletView,
    maybe_check_owner: Option<AccountId>,
    settings: CollectionSettings,
    len: nat,
    longer: nat,
)
    requires
        len <= longer,
    ensures
        settings.free_holding || maybe_check_owner is None ==> state.metadata_deposit(
            maybe_check_owner,
            settings,
            len,
        ) == 0,
        state.metadata_deposit(maybe_check_owner, settings, len) <= state.metadata_deposit(
            maybe_check_owner,
            settings,
            longer,
        ),
{
    assert(state.deposit_per_byte * len <= state.deposit_per_byte * longer) by (nonlinear_arith)
        requires
            len <= longer,
            0 <= state.deposit_per_byte,
    ;
}

/// Cancelling an approval undoes giving it to an account that had none.
pub proof fn lemma_cancel_undoes_approve(
    state: PalletView,
    collection: CollectionId,
    item: ItemId,
    delegate: AccountId,
    deadline: Option<BlockNumber>,
)
    requires
        state.items.contains_key((collection, item)),
        !state.items[(collection, item)].approvals.contains_key(delegate),
    ensures
        ({
            let approvals = state.items[(collection, item)].approvals;
            let approved = state.with_approvals(
                collection,
                item,
                approvals.insert(delegate, deadline),
            );
            approved.with_approvals(
                collection,
                item,
                approved.items[(collection, item)].approvals.remove(delegate),
            ) == state
        }),
{
    let approvals = state.items[(collection, item)].approvals;
    assert(approvals.insert(delegate, deadline).remove(delegate) =~= approvals);
    let approved = state.with_approvals(collection, item, approvals.insert(delegate, deadline));
    let cancelled = approved.with_approvals(collection, item, approvals);
    assert(cancelled.items =~= state.items);
}

/// An approval for a number of blocks stands for those blocks: within them only the
/// administrator and the owner may cancel it, and after them anyone may, unless the
/// number of the last block is out of reach. One without limit never ends.
pub proof fn lemma_deadline(
    state: PalletView,
    collection: CollectionId,
    item: ItemId,
    delegate: AccountId,
    given: BlockNumber,
    blocks: Option<BlockNumber>,
    caller: AccountId,
    now: BlockNumber,
)
    requires
        state.collections.contains_key(collection),
        state.items.contains_key((collection, item)),
        state.items[(collection, item)].approvals.contains_key(delegate),
        state.items[(collection, item)].approvals[delegate] == deadline_after(given, blocks),
        !state.may_approve(caller, collection, item),
    ensures
        state.cancel_error(Some(caller), collection, item, delegate, now) == if blocks is Some
            && now > given + blocks->0 {
            None
        } else {
            Some(Error::NoPermission)
        },
{
}

/// Once all approvals of an item are cancelled, no account has one.
pub proof fn lemma_cleared_has_no_delegate(
    state: PalletView,
    collection: CollectionId,
    item: ItemId,
    delegate: AccountId,
    now: BlockNumber,
)
    requires
        state.collections.contains_key(collection),
        state.items.contains_key((collection, item)),
    ensures
        state.with_approvals(collection, item, Map::empty()).cancel_error(
            None,
            collection,
            item,
            delegate,
            now,
        ) == Some(Error::NotDelegate),
{
}

} // verus!
