//! What the calls of the token pallet do, told from their arguments and results alone.
use crate::nfts::storage::{Pallet, PalletView};
use crate::nfts::types::{
    AccountId, Balance, BlockNumber, CollectionDetails, CollectionId, CollectionSettings,
    DepositChange, DispatchError, Error, Event, ItemDetails, ItemId, Metadata,
};
use vstd::prelude::*;

verus! {

/// What metadata of the given length costs: the base and the price of each byte, up to the
/// greatest amount, and nothing where it is held for free or no owner is to pay.
pub open spec fn price(
    state: PalletView,
    maybe_check_owner: Option<AccountId>,
    settings: CollectionSettings,
    len: nat,
) -> int {
    if settings.free_holding || maybe_check_owner is None {
        0
    } else {
        vstd::math::min(
            state.metadata_deposit_base + state.deposit_per_byte * len,
            Balance::MAX as int,
        )
    }
}

/// The price is what the deposit is.
proof fn lemma_price(
    state: PalletView,
    maybe_check_owner: Option<AccountId>,
    settings: CollectionSettings,
    len: nat,
)
    ensures
        state.metadata_deposit(maybe_check_owner, settings, len) == price(
            state,
            maybe_check_owner,
            settings,
            len,
        ),
{
    assert(0 <= state.deposit_per_byte * len) by (nonlinear_arith)
        requires
            0 <= state.deposit_per_byte,
    ;
}

/// Whether the caller may act for the owner of the collection: no owner is to be checked,
/// or it is the owner.
pub open spec fn may_act(
    state: PalletView,
    maybe_check_owner: Option<AccountId>,
    collection: CollectionId,
) -> bool {
    maybe_check_owner is None || maybe_check_owner->0 == state.collections[collection].owner
}

/// What was paid for the metadata of an item.
pub open spec fn paid_for_item(state: PalletView, collection: CollectionId, item: ItemId) -> int {
    if state.item_metadata.contains_key((collection, item)) {
        state.item_metadata[(collection, item)].deposit as int
    } else {
        0
    }
}

/// What was paid for the metadata of a collection.
pub open spec fn paid_for_collection(state: PalletView, collection: CollectionId) -> int {
    if state.collection_metadata.contains_key(collection) {
        state.collection_metadata[collection].deposit as int
    } else {
        0
    }
}

/// Whether the sum of the deposits follows when one of them changes, within what an amount
/// can be.
pub open spec fn sum_follows(total: Balance, after: Balance, paid: int, to_pay: int) -> bool {
    &&& paid <= total ==> after == vstd::math::min(total - paid + to_pay, Balance::MAX as int)
    &&& paid > total ==> after == to_pay
}

/// Metadata of an item is set exactly where the collection is known, its settings can be
/// read, the caller may act for the owner, and what is to be paid on top of what was paid,
/// where it is more, could be reserved. Each failure is told by its own error, the first
/// that there is, and changes nothing.
pub proof fn lemma_when_item_metadata_is_set<const STRINGS: u32, const APPROVALS: u32, E>(
    pallet: &mut Pallet<STRINGS, APPROVALS>,
    maybe_check_owner: Option<AccountId>,
    collection: CollectionId,
    item: ItemId,
    data: Vec<u8>,
    settings: Result<CollectionSettings, E>,
    reserved: Result<(), E>,
    result: Result<Event, DispatchError<E>>,
)
    requires
        call_ensures(
            Pallet::<STRINGS, APPROVALS>::do_set_item_metadata::<E>,
            (pallet, maybe_check_owner, collection, item, data, settings, reserved),
            result,
        ),
    ensures
        result is Err ==> final(pallet)@ == old(pallet)@,
        !old(pallet)@.collections.contains_key(collection) ==> result == Err::<Event, _>(
            DispatchError::<E>::Pallet(Error::UnknownCollection),
        ),
        old(pallet)@.collections.contains_key(collection) && settings is Err ==> result == Err::<
            Event,
            _,
        >(DispatchError::Outside(settings->Err_0)),
        old(pallet)@.collections.contains_key(collection) && settings is Ok && !may_act(
            old(pallet)@,
            maybe_check_owner,
            collection,
        ) ==> result == Err::<Event, _>(DispatchError::<E>::Pallet(Error::NoPermission)),
        old(pallet)@.collections.contains_key(collection) && settings is Ok && may_act(
            old(pallet)@,
            maybe_check_owner,
            collection,
        ) ==> ({
            let more = price(old(pallet)@, maybe_check_owner, settings->Ok_0, data@.len())
                > paid_for_item(old(pallet)@, collection, item);
            &&& more && reserved is Err ==> result == Err::<Event, _>(
                DispatchError::Outside(reserved->Err_0),
            )
            &&& !more || reserved is Ok ==> (result matches Ok(Event::MetadataSet {
                collection: of_collection,
                item: of_item,
                data: set,
            }) && of_collection == collection && of_item == item && set@ == data@)
        }),
{
    if settings is Ok {
        lemma_price(old(pallet)@, maybe_check_owner, settings->Ok_0, data@.len());
    }
}

/// Once metadata of an item is set, it is stored for that item, with exactly the given
/// bytes and its price as the deposit, whatever was stored before. The item is counted
/// where it had none, and the sum of the deposits follows. Nothing else changes.
pub proof fn lemma_set_item_metadata_is_stored<const STRINGS: u32, const APPROVALS: u32, E>(
    pallet: &mut Pallet<STRINGS, APPROVALS>,
    maybe_check_owner: Option<AccountId>,
    collection: CollectionId,
    item: ItemId,
    data: Vec<u8>,
    settings: Result<CollectionSettings, E>,
    reserved: Result<(), E>,
    result: Result<Event, DispatchError<E>>,
)
    requires
        result is Ok,
        call_ensures(
            Pallet::<STRINGS, APPROVALS>::do_set_item_metadata::<E>,
            (pallet, maybe_check_owner, collection, item, data, settings, reserved),
            result,
        ),
    ensures
        final(pallet)@.item_metadata.contains_key((collection, item)),
        final(pallet)@.item_metadata[(collection, item)].data == data@,
        settings is Ok,
        final(pallet)@.item_metadata[(collection, item)].deposit == price(
            old(pallet)@,
            maybe_check_owner,
            settings->Ok_0,
            data@.len(),
        ),
        forall|key: (CollectionId, ItemId)|
            #![trigger final(pallet)@.item_metadata.contains_key(key)]
            #![trigger old(pallet)@.item_metadata.contains_key(key)]
            key != (collection, item) ==> final(pallet)@.item_metadata.contains_key(key) == old(pallet)@.item_metadata.contains_key(key) && final(pallet)@.item_metadata[key] == old(pallet)@.item_metadata[key],
        only_details_change(old(pallet)@, final(pallet)@, collection),
        final(pallet)@.collection_metadata == old(pallet)@.collection_metadata,
        ({
            let before = old(pallet)@.collections[collection];
            let after = final(pallet)@.collections[collection];
            &&& old(pallet)@.item_metadata.contains_key((collection, item)) ==> after.item_metadatas
                == before.item_metadatas
            &&& !old(pallet)@.item_metadata.contains_key((collection, item))
                ==> after.item_metadatas == vstd::math::min(
                before.item_metadatas + 1,
                u32::MAX as int,
            )
            &&& sum_follows(
                before.total_deposit,
                after.total_deposit,
                paid_for_item(old(pallet)@, collection, item),
                price(old(pallet)@, maybe_check_owner, settings->Ok_0, data@.len()),
            )
        }),
{
    if settings is Ok {
        lemma_price(old(pallet)@, maybe_check_owner, settings->Ok_0, data@.len());
    }
}

/// Whether of the collections at most the count and the sum of the given one change, and
/// neither the items nor the prices do.
pub open spec fn only_details_change(
    before: PalletView,
    after: PalletView,
    collection: CollectionId,
) -> bool {
    &&& forall|other: CollectionId|
        #![trigger after.collections.contains_key(other)]
        #![trigger before.collections.contains_key(other)]
        after.collections.contains_key(other) == before.collections.contains_key(other) && (other
            != collection ==> after.collections[other] == before.collections[other])
    &&& after.collections[collection].owner == before.collections[collection].owner
    &&& after.collections[collection].admin == before.collections[collection].admin
    &&& after.items == before.items
    &&& after.deposit_per_byte == before.deposit_per_byte
    &&& after.metadata_deposit_base == before.metadata_deposit_base
}

/// Metadata of an item is cleared exactly where the collection is known, the caller may
/// act for the owner, and there is any. It is then gone and no longer counted, and the
/// whole of the deposit is given back to the owner of the collection and leaves the sum.
/// Nothing else changes.
pub proof fn lemma_clearing_item_metadata<const STRINGS: u32, const APPROVALS: u32>(
    pallet: &mut Pallet<STRINGS, APPROVALS>,
    maybe_check_owner: Option<AccountId>,
    collection: CollectionId,
    item: ItemId,
    result: Result<(DepositChange, Event), Error>,
)
    requires
        call_ensures(
            Pallet::<STRINGS, APPROVALS>::do_clear_item_metadata,
            (pallet, maybe_check_owner, collection, item),
            result,
        ),
    ensures
        ({
            let known = old(pallet)@.collections.contains_key(collection);
            let allowed = may_act(old(pallet)@, maybe_check_owner, collection);
            let any = old(pallet)@.item_metadata.contains_key((collection, item));
            let before = old(pallet)@.collections[collection];
            let after = final(pallet)@.collections[collection];
            &&& !known ==> result == Err::<(DepositChange, Event), _>(Error::UnknownCollection)
            &&& known && !allowed ==> result == Err::<(DepositChange, Event), _>(
                Error::NoPermission,
            )
            &&& known && allowed && !any ==> result == Err::<(DepositChange, Event), _>(
                Error::UnknownCollection,
            )
            &&& result is Err ==> final(pallet)@ == old(pallet)@
            &&& known && allowed && any ==> {
                &&& result is Ok
                &&& result->Ok_0.0 == DepositChange::Unreserve(
                    before.owner,
                    old(pallet)@.item_metadata[(collection, item)].deposit,
                )
                &&& result->Ok_0.1 == (Event::MetadataCleared { collection, item })
                &&& forall|key: (CollectionId, ItemId)|
                    #![trigger final(pallet)@.item_metadata.contains_key(key)]
                    #![trigger old(pallet)@.item_metadata.contains_key(key)]
                    final(pallet)@.item_metadata.contains_key(key) == (key != (collection, item)
                        && old(pallet)@.item_metadata.contains_key(key)) && (key != (
                        collection,
                        item,
                    ) ==> final(pallet)@.item_metadata[key] == old(pallet)@.item_metadata[key])
                &&& only_details_change(old(pallet)@, final(pallet)@, collection)
                &&& final(pallet)@.collection_metadata == old(pallet)@.collection_metadata
                &&& after.item_metadatas == vstd::math::max(before.item_metadatas - 1, 0)
                &&& sum_follows(
                    before.total_deposit,
                    after.total_deposit,
                    paid_for_item(old(pallet)@, collection, item),
                    0,
                )
            }
        }),
{
}

/// Metadata of a collection is set exactly where the collection is known, the caller may
/// act for the owner, and what is to be paid on top of what was paid, where it is more,
/// could be reserved. Each failure is told by its own error and changes nothing.
pub proof fn lemma_when_collection_metadata_is_set<const STRINGS: u32, const APPROVALS: u32, E>(
    pallet: &mut Pallet<STRINGS, APPROVALS>,
    maybe_check_owner: Option<AccountId>,
    collection: CollectionId,
    data: Vec<u8>,
    settings: CollectionSettings,
    reserved: Result<(), E>,
    result: Result<Event, DispatchError<E>>,
)
    requires
        call_ensures(
            Pallet::<STRINGS, APPROVALS>::do_set_collection_metadata::<E>,
            (pallet, maybe_check_owner, collection, data, settings, reserved),
            result,
        ),
    ensures
        result is Err ==> final(pallet)@ == old(pallet)@,
        !old(pallet)@.collections.contains_key(collection) ==> result == Err::<Event, _>(
            DispatchError::<E>::Pallet(Error::UnknownCollection),
        ),
        old(pallet)@.collections.contains_key(collection) && !may_act(
            old(pallet)@,
            maybe_check_owner,
            collection,
        ) ==> result == Err::<Event, _>(DispatchError::<E>::Pallet(Error::NoPermission)),
        old(pallet)@.collections.contains_key(collection) && may_act(
            old(pallet)@,
            maybe_check_owner,
            collection,
        ) ==> ({
            let more = price(old(pallet)@, maybe_check_owner, settings, data@.len())
                > paid_for_collection(old(pallet)@, collection);
            &&& more && reserved is Err ==> result == Err::<Event, _>(
                DispatchError::Outside(reserved->Err_0),
            )
            &&& !more || reserved is Ok ==> (result matches Ok(Event::CollectionMetadataSet {
                collection: of_collection,
                data: set,
            }) && of_collection == collection && set@ == data@)
        }),
{
    lemma_price(old(pallet)@, maybe_check_owner, settings, data@.len());
}

/// Once metadata of a collection is set, exactly the given bytes are stored for that
/// collection, with their price as the deposit, whatever was stored before, and the sum of
/// the deposits follows. Nothing else changes.
pub proof fn lemma_set_collection_metadata_is_stored<const STRINGS: u32, const APPROVALS: u32, E>(
    pallet: &mut Pallet<STRINGS, APPROVALS>,
    maybe_check_owner: Option<AccountId>,
    collection: CollectionId,
    data: Vec<u8>,
    settings: CollectionSettings,
    reserved: Result<(), E>,
    result: Result<Event, DispatchError<E>>,
)
    requires
        result is Ok,
        call_ensures(
            Pallet::<STRINGS, APPROVALS>::do_set_collection_metadata::<E>,
            (pallet, maybe_check_owner, collection, data, settings, reserved),
            result,
        ),
    ensures
        final(pallet)@.collection_metadata.contains_key(collection),
        final(pallet)@.collection_metadata[collection].data == data@,
        final(pallet)@.collection_metadata[collection].deposit == price(
            old(pallet)@,
            maybe_check_owner,
            settings,
            data@.len(),
        ),
        forall|other: CollectionId|
            #![trigger final(pallet)@.collection_metadata.contains_key(other)]
            #![trigger old(pallet)@.collection_metadata.contains_key(other)]
            other != collection ==> final(pallet)@.collection_metadata.contains_key(other) == old(pallet)@.collection_metadata.contains_key(other) && final(pallet)@.collection_metadata[other]
                == old(pallet)@.collection_metadata[other],
        only_details_change(old(pallet)@, final(pallet)@, collection),
        final(pallet)@.item_metadata == old(pallet)@.item_metadata,
        final(pallet)@.collections[collection].item_metadatas == old(pallet)@.collections[collection].item_metadatas,
        sum_follows(
            old(pallet)@.collections[collection].total_deposit,
            final(pallet)@.collections[collection].total_deposit,
            paid_for_collection(old(pallet)@, collection),
            price(old(pallet)@, maybe_check_owner, settings, data@.len()),
        ),
{
    lemma_price(old(pallet)@, maybe_check_owner, settings, data@.len());
}

/// Setting metadata of a collection twice leaves what setting the second alone leaves, as
/// long as the sum of the deposits does not exceed the greatest amount meanwhile for a
/// greater deposit than the last one.
pub proof fn lemma_last_collection_metadata_counts<const STRINGS: u32, const APPROVALS: u32, E>(
    first: &mut Pallet<STRINGS, APPROVALS>,
    second: &mut Pallet<STRINGS, APPROVALS>,
    alone: &mut Pallet<STRINGS, APPROVALS>,
    maybe_check_owner: Option<AccountId>,
    collection: CollectionId,
    data: Vec<u8>,
    other_data: Vec<u8>,
    settings: CollectionSettings,
    reserved: Result<(), E>,
    first_result: Result<Event, DispatchError<E>>,
    second_result: Result<Event, DispatchError<E>>,
    alone_result: Result<Event, DispatchError<E>>,
)
    requires
        old(first)@ == old(alone)@,
        first_result is Ok,
        second_result is Ok,
        alone_result is Ok,
        call_ensures(
            Pallet::<STRINGS, APPROVALS>::do_set_collection_metadata::<E>,
            (first, maybe_check_owner, collection, other_data, settings, reserved),
            first_result,
        ),
        call_ensures(
            Pallet::<STRINGS, APPROVALS>::do_set_collection_metadata::<E>,
            (second, maybe_check_owner, collection, data, settings, reserved),
            second_result,
        ),
        call_ensures(
            Pallet::<STRINGS, APPROVALS>::do_set_collection_metadata::<E>,
            (alone, maybe_check_owner, collection, data, settings, reserved),
            alone_result,
        ),
    ensures
        old(second)@ == final(first)@ ==> {
            &&& final(second)@.collection_metadata == final(alone)@.collection_metadata
            &&& final(second)@.item_metadata == final(alone)@.item_metadata
            &&& final(second)@.items == final(alone)@.items
            &&& old(first)@.collections[collection].total_deposit - paid_for_collection(
                old(first)@,
                collection,
            ) + price(old(first)@, maybe_check_owner, settings, other_data@.len()) <= Balance::MAX
                || other_data@.len() <= data@.len() ==> final(second)@ == final(alone)@
        },
{
    let state = old(first)@;
    lemma_price(state, maybe_check_owner, settings, data@.len());
    lemma_price(state, maybe_check_owner, settings, other_data@.len());
    if old(second)@ == final(first)@ {
        if other_data@.len() <= data@.len() {
            assert(state.deposit_per_byte * other_data@.len() <= state.deposit_per_byte
                * data@.len()) by (nonlinear_arith)
                requires
                    other_data@.len() <= data@.len(),
                    0 <= state.deposit_per_byte,
            ;
        }
        assert(final(second)@.collection_metadata =~= final(alone)@.collection_metadata);
        if state.collections[collection].total_deposit - paid_for_collection(state, collection)
            + price(state, maybe_check_owner, settings, other_data@.len()) <= Balance::MAX
            || other_data@.len() <= data@.len() {
            assert(final(second)@.collections =~= final(alone)@.collections);
        }
    }
}

/// Metadata of a collection is cleared exactly where the collection is known, the caller
/// may act for the owner, and there is any. It is then gone, and the whole of the deposit
/// is given back to the owner of the collection. Nothing else changes.
pub proof fn lemma_clearing_collection_metadata<const STRINGS: u32, const APPROVALS: u32>(
    pallet: &mut Pallet<STRINGS, APPROVALS>,
    maybe_check_owner: Option<AccountId>,
    collection: CollectionId,
    result: Result<(DepositChange, Event), Error>,
)
    requires
        call_ensures(
            Pallet::<STRINGS, APPROVALS>::do_clear_collection_metadata,
            (pallet, maybe_check_owner, collection),
            result,
        ),
    ensures
        ({
            let known = old(pallet)@.collections.contains_key(collection);
            let allowed = may_act(old(pallet)@, maybe_check_owner, collection);
            let any = old(pallet)@.collection_metadata.contains_key(collection);
            &&& !known ==> result == Err::<(DepositChange, Event), _>(Error::UnknownCollection)
            &&& known && !allowed ==> result == Err::<(DepositChange, Event), _>(
                Error::NoPermission,
            )
            &&& known && allowed && !any ==> result == Err::<(DepositChange, Event), _>(
                Error::UnknownCollection,
            )
            &&& result is Err ==> final(pallet)@ == old(pallet)@
            &&& known && allowed && any ==> {
                &&& result is Ok
                &&& result->Ok_0.0 == DepositChange::Unreserve(
                    old(pallet)@.collections[collection].owner,
                    old(pallet)@.collection_metadata[collection].deposit,
                )
                &&& result->Ok_0.1 == (Event::CollectionMetadataCleared { collection })
                &&& forall|other: CollectionId|
                    #![trigger final(pallet)@.collection_metadata.contains_key(other)]
                    #![trigger old(pallet)@.collection_metadata.contains_key(other)]
                    final(pallet)@.collection_metadata.contains_key(other) == (other != collection
                        && old(pallet)@.collection_metadata.contains_key(other)) && (other
                        != collection ==> final(pallet)@.collection_metadata[other] == old(pallet)@.collection_metadata[other])
                &&& final(pallet)@ == (PalletView {
                    collection_metadata: final(pallet)@.collection_metadata,
                    ..old(pallet)@
                })
            }
        }),
{
}

/// Whether the currency moves the owner from what was paid to what is to be paid, by the
/// difference, and does nothing where there is none.
pub open spec fn moves(change: DepositChange, owner: AccountId, paid: int, to_pay: int) -> bool {
    &&& to_pay > paid ==> (change matches DepositChange::Reserve(who, amount) && who == owner
        && amount == to_pay - paid)
    &&& to_pay < paid ==> (change matches DepositChange::Unreserve(who, amount) && who == owner
        && amount == paid - to_pay)
    &&& to_pay == paid ==> change is Keep
}

/// What the currency has to do before metadata is set is to move the owner of the
/// collection to its price; where the call will fail, it is told why instead.
pub proof fn lemma_what_the_currency_does<const STRINGS: u32, const APPROVALS: u32, E>(
    pallet: &Pallet<STRINGS, APPROVALS>,
    maybe_check_owner: Option<AccountId>,
    collection: CollectionId,
    item: ItemId,
    settings: CollectionSettings,
    of_item: Result<CollectionSettings, E>,
    len: usize,
    item_change: Result<DepositChange, DispatchError<E>>,
    collection_change: Result<DepositChange, Error>,
)
    requires
        call_ensures(
            Pallet::<STRINGS, APPROVALS>::item_deposit_change::<E>,
            (pallet, maybe_check_owner, collection, item, of_item, len),
            item_change,
        ),
        call_ensures(
            Pallet::<STRINGS, APPROVALS>::collection_deposit_change,
            (pallet, maybe_check_owner, collection, settings, len),
            collection_change,
        ),
    ensures
        ({
            let known = pallet@.collections.contains_key(collection);
            let allowed = may_act(pallet@, maybe_check_owner, collection);
            let owner = pallet@.collections[collection].owner;
            &&& !known ==> item_change == Err::<DepositChange, _>(
                DispatchError::<E>::Pallet(Error::UnknownCollection),
            ) && collection_change == Err::<DepositChange, _>(Error::UnknownCollection)
            &&& known && !allowed ==> collection_change == Err::<DepositChange, _>(
                Error::NoPermission,
            )
            &&& known && of_item is Err ==> item_change == Err::<DepositChange, _>(
                DispatchError::Outside(of_item->Err_0),
            )
            &&& known && of_item is Ok && !allowed ==> item_change == Err::<DepositChange, _>(
                DispatchError::<E>::Pallet(Error::NoPermission),
            )
            &&& known && allowed ==> collection_change is Ok && moves(
                collection_change->Ok_0,
                owner,
                paid_for_collection(pallet@, collection),
                price(pallet@, maybe_check_owner, settings, len as nat),
            )
            &&& known && of_item is Ok && allowed ==> item_change is Ok && moves(
                item_change->Ok_0,
                owner,
                paid_for_item(pallet@, collection, item),
                price(pallet@, maybe_check_owner, of_item->Ok_0, len as nat),
            )
        }),
{
    lemma_price(pallet@, maybe_check_owner, settings, len as nat);
    if of_item is Ok {
        lemma_price(pallet@, maybe_check_owner, of_item->Ok_0, len as nat);
    }
}

/// Whether the item is there, and the caller, where one is to be checked, is the
/// administrator of its collection or its owner.
pub open spec fn may_change_approvals(
    state: PalletView,
    maybe_check_caller: Option<AccountId>,
    collection: CollectionId,
    item: ItemId,
) -> bool {
    maybe_check_caller matches Some(caller) ==> caller == state.collections[collection].admin
        || caller == state.items[(collection, item)].owner
}

/// Whether the collection and the item are there.
pub open spec fn is_there(state: PalletView, collection: CollectionId, item: ItemId) -> bool {
    state.collections.contains_key(collection) && state.items.contains_key((collection, item))
}

/// Whether nothing but the approvals of one item changes.
pub open spec fn only_approvals_change(
    before: PalletView,
    after: PalletView,
    collection: CollectionId,
    item: ItemId,
) -> bool {
    &&& forall|key: (CollectionId, ItemId)|
        #![trigger after.items.contains_key(key)]
        #![trigger before.items.contains_key(key)]
        after.items.contains_key(key) == before.items.contains_key(key) && (key != (
            collection,
            item,
        ) ==> after.items[key] == before.items[key])
    &&& after.items[(collection, item)].owner == before.items[(collection, item)].owner
    &&& after == (PalletView { items: after.items, ..before })
}

/// A transfer is approved exactly where the item is there, the caller may change its
/// approvals, and the delegate has one already or there is room. The delegate then has an
/// approval for the given number of blocks from now on, or without limit, and nobody
/// else's changes.
pub proof fn lemma_approving<const STRINGS: u32, const APPROVALS: u32>(
    pallet: &mut Pallet<STRINGS, APPROVALS>,
    maybe_check_caller: Option<AccountId>,
    collection: CollectionId,
    item: ItemId,
    delegate: AccountId,
    blocks: Option<BlockNumber>,
    now: BlockNumber,
    result: Result<Event, Error>,
)
    requires
        call_ensures(
            Pallet::<STRINGS, APPROVALS>::do_approve_transfer,
            (pallet, maybe_check_caller, collection, item, delegate, blocks, now),
            result,
        ),
    ensures
        ({
            let there = is_there(old(pallet)@, collection, item);
            let allowed = may_change_approvals(
                old(pallet)@,
                maybe_check_caller,
                collection,
                item,
            );
            let before = old(pallet)@.items[(collection, item)].approvals;
            let after = final(pallet)@.items[(collection, item)].approvals;
            let room = before.contains_key(delegate) || before.dom().len() < APPROVALS;
            &&& !there ==> result == Err::<Event, _>(Error::UnknownCollection)
            &&& there && !allowed ==> result == Err::<Event, _>(Error::NoPermission)
            &&& there && allowed && !room ==> result == Err::<Event, _>(
                Error::ReachedApprovalLimit,
            )
            &&& result is Err ==> final(pallet)@ == old(pallet)@
            &&& there && allowed && room ==> {
                &&& result matches Ok(Event::ApprovedTransfer {
                    collection: of_collection,
                    item: of_item,
                    owner,
                    delegate: to,
                    deadline,
                })
                &&& of_collection == collection
                &&& of_item == item
                &&& owner == old(pallet)@.items[(collection, item)].owner
                &&& to == delegate
                &&& deadline is Some <==> blocks is Some
                &&& blocks is Some ==> deadline->0 == vstd::math::min(
                    now + blocks->0,
                    BlockNumber::MAX as int,
                )
                &&& after.contains_key(delegate)
                &&& after[delegate] == deadline
                &&& forall|other: AccountId|
                    #![trigger after.contains_key(other)]
                    #![trigger before.contains_key(other)]
                    other != delegate ==> after.contains_key(other) == before.contains_key(other)
                        && after[other] == before[other]
                &&& only_approvals_change(old(pallet)@, final(pallet)@, collection, item)
            }
        }),
{
}

/// An approval is cancelled exactly where the item is there and the delegate has one, and
/// the caller may change approvals or the approval has ended: it was given up to a block
/// before now. It is then gone, and nobody else's changes.
pub proof fn lemma_cancelling<const STRINGS: u32, const APPROVALS: u32>(
    pallet: &mut Pallet<STRINGS, APPROVALS>,
    maybe_check_caller: Option<AccountId>,
    collection: CollectionId,
    item: ItemId,
    delegate: AccountId,
    now: BlockNumber,
    result: Result<Event, Error>,
)
    requires
        call_ensures(
            Pallet::<STRINGS, APPROVALS>::do_cancel_approval,
            (pallet, maybe_check_caller, collection, item, delegate, now),
            result,
        ),
    ensures
        ({
            let there = is_there(old(pallet)@, collection, item);
            let allowed = may_change_approvals(
                old(pallet)@,
                maybe_check_caller,
                collection,
                item,
            );
            let before = old(pallet)@.items[(collection, item)].approvals;
            let after = final(pallet)@.items[(collection, item)].approvals;
            let approved = before.contains_key(delegate);
            let ended = before[delegate] is Some && before[delegate]->0 < now;
            &&& !there ==> result == Err::<Event, _>(Error::UnknownCollection)
            &&& there && !approved ==> result == Err::<Event, _>(Error::NotDelegate)
            &&& there && approved && !ended && !allowed ==> result == Err::<Event, _>(
                Error::NoPermission,
            )
            &&& result is Err ==> final(pallet)@ == old(pallet)@
            &&& there && approved && (ended || allowed) ==> {
                &&& result == Ok::<_, Error>(
                    Event::ApprovalCancelled {
                        collection,
                        item,
                        owner: old(pallet)@.items[(collection, item)].owner,
                        delegate,
                    },
                )
                &&& forall|other: AccountId|
                    #![trigger after.contains_key(other)]
                    #![trigger before.contains_key(other)]
                    after.contains_key(other) == (other != delegate && before.contains_key(other))
                        && (other != delegate ==> after[other] == before[other])
                &&& only_approvals_change(old(pallet)@, final(pallet)@, collection, item)
            }
        }),
{
}

/// All approvals of an item are cancelled exactly where it is there and the caller may
/// change its approvals. Nobody has one then, and nothing else changes.
pub proof fn lemma_cancelling_all<const STRINGS: u32, const APPROVALS: u32>(
    pallet: &mut Pallet<STRINGS, APPROVALS>,
    maybe_check_caller: Option<AccountId>,
    collection: CollectionId,
    item: ItemId,
    result: Result<Event, Error>,
)
    requires
        call_ensures(
            Pallet::<STRINGS, APPROVALS>::do_clear_all_transfer_approvals,
            (pallet, maybe_check_caller, collection, item),
            result,
        ),
    ensures
        ({
            let there = is_there(old(pallet)@, collection, item);
            let allowed = may_change_approvals(
                old(pallet)@,
                maybe_check_caller,
                collection,
                item,
            );
            &&& !there ==> result == Err::<Event, _>(Error::UnknownCollection)
            &&& there && !allowed ==> result == Err::<Event, _>(Error::NoPermission)
            &&& result is Err ==> final(pallet)@ == old(pallet)@
            &&& there && allowed ==> {
                &&& result == Ok::<_, Error>(
                    Event::AllApprovalsCancelled {
                        collection,
                        item,
                        owner: old(pallet)@.items[(collection, item)].owner,
                    },
                )
                &&& forall|other: AccountId| !#[trigger]
                    final(pallet)@.items[(collection, item)].approvals.contains_key(other)
                &&& only_approvals_change(old(pallet)@, final(pallet)@, collection, item)
            }
        }),
{
}

/// A new pallet is empty and has the given prices.
pub proof fn lemma_a_new_pallet<const STRINGS: u32, const APPROVALS: u32>(
    per_byte: Balance,
    base: Balance,
    pallet: Pallet<STRINGS, APPROVALS>,
    price_of_byte: Balance,
    price_of_all: Balance,
)
    requires
        call_ensures(Pallet::<STRINGS, APPROVALS>::new, (per_byte, base), pallet),
        call_ensures(Pallet::<STRINGS, APPROVALS>::deposit_per_byte, (&pallet,), price_of_byte),
        call_ensures(Pallet::<STRINGS, APPROVALS>::metadata_deposit_base, (&pallet,), price_of_all),
    ensures
        price_of_byte == per_byte,
        price_of_all == base,
        forall|key: CollectionId| !#[trigger] pallet@.collections.contains_key(key),
        forall|key: CollectionId| !#[trigger] pallet@.collection_metadata.contains_key(key),
        forall|key: (CollectionId, ItemId)| !#[trigger] pallet@.items.contains_key(key),
        forall|key: (CollectionId, ItemId)| !#[trigger] pallet@.item_metadata.contains_key(key),
{
}

/// What is read is what is stored, and a collection or an item that is put is found as it
/// was put, an item without approvals, while all others are found as before.
pub proof fn lemma_what_is_put_is_found<const STRINGS: u32, const APPROVALS: u32>(
    pallet: &mut Pallet<STRINGS, APPROVALS>,
    other: &mut Pallet<STRINGS, APPROVALS>,
    collection: CollectionId,
    details: CollectionDetails,
    item: ItemId,
    owner: AccountId,
    nothing: (),
)
    requires
        call_ensures(
            Pallet::<STRINGS, APPROVALS>::put_collection,
            (pallet, collection, details),
            nothing,
        ),
        call_ensures(
            Pallet::<STRINGS, APPROVALS>::put_item,
            (other, collection, item, owner),
            nothing,
        ),
    ensures
        final(pallet)@.collections.contains_key(collection),
        final(pallet)@.collections[collection] == details,
        forall|key: CollectionId|
            #![trigger final(pallet)@.collections.contains_key(key)]
            #![trigger old(pallet)@.collections.contains_key(key)]
            key != collection ==> final(pallet)@.collections.contains_key(key) == old(pallet)@.collections.contains_key(key) && final(pallet)@.collections[key] == old(pallet)@.collections[key],
        final(pallet)@ == (PalletView {
            collections: final(pallet)@.collections,
            ..old(pallet)@
        }),
        final(other)@.items.contains_key((collection, item)),
        final(other)@.items[(collection, item)].owner == owner,
        forall|account: AccountId| !#[trigger]
            final(other)@.items[(collection, item)].approvals.contains_key(account),
        forall|key: (CollectionId, ItemId)|
            #![trigger final(other)@.items.contains_key(key)]
            #![trigger old(other)@.items.contains_key(key)]
            key != (collection, item) ==> final(other)@.items.contains_key(key) == old(other)@.items.contains_key(key) && final(other)@.items[key] == old(other)@.items[key],
        final(other)@ == (PalletView { items: final(other)@.items, ..old(other)@ }),
{
}

/// What is read is what is stored.
pub proof fn lemma_what_is_read_is_stored<const STRINGS: u32, const APPROVALS: u32>(
    pallet: &Pallet<STRINGS, APPROVALS>,
    collection: CollectionId,
    item: ItemId,
    details: Option<CollectionDetails>,
    item_details: Option<&ItemDetails>,
    of_item: Option<&Metadata>,
    of_collection: Option<&Metadata>,
)
    requires
        call_ensures(Pallet::<STRINGS, APPROVALS>::collection, (pallet, collection), details),
        call_ensures(Pallet::<STRINGS, APPROVALS>::item, (pallet, collection, item), item_details),
        call_ensures(
            Pallet::<STRINGS, APPROVALS>::item_metadata_of,
            (pallet, collection, item),
            of_item,
        ),
        call_ensures(
            Pallet::<STRINGS, APPROVALS>::collection_metadata_of,
            (pallet, collection),
            of_collection,
        ),
    ensures
        details is Some <==> pallet@.collections.contains_key(collection),
        details is Some ==> details->0 == pallet@.collections[collection],
        item_details is Some <==> pallet@.items.contains_key((collection, item)),
        item_details is Some ==> item_details->0.owner == pallet@.items[(collection, item)].owner
            && item_details->0.approvals@ == pallet@.items[(collection, item)].approvals,
        of_item is Some <==> pallet@.item_metadata.contains_key((collection, item)),
        of_item is Some ==> of_item->0.deposit == pallet@.item_metadata[(collection, item)].deposit
            && of_item->0.data@ == pallet@.item_metadata[(collection, item)].data,
        of_collection is Some <==> pallet@.collection_metadata.contains_key(collection),
        of_collection is Some ==> of_collection->0.deposit
            == pallet@.collection_metadata[collection].deposit && of_collection->0.data@
            == pallet@.collection_metadata[collection].data,
{
}

/// In every valid state every caller may try everything, with metadata that is not too
/// long.
pub proof fn lemma_everything_may_be_tried<const STRINGS: u32, const APPROVALS: u32, E>(
    pallet: &mut Pallet<STRINGS, APPROVALS>,
    caller: Option<AccountId>,
    collection: CollectionId,
    item: ItemId,
    data: Vec<u8>,
    settings: CollectionSettings,
    of_item: Result<CollectionSettings, E>,
    reserved: Result<(), E>,
    delegate: AccountId,
    blocks: Option<BlockNumber>,
    now: BlockNumber,
)
    requires
        old(pallet).wf(),
        data@.len() <= STRINGS,
    ensures
        call_requires(
            Pallet::<STRINGS, APPROVALS>::do_set_item_metadata::<E>,
            (pallet, caller, collection, item, data, of_item, reserved),
        ),
        call_requires(
            Pallet::<STRINGS, APPROVALS>::do_clear_item_metadata,
            (pallet, caller, collection, item),
        ),
        call_requires(
            Pallet::<STRINGS, APPROVALS>::do_set_collection_metadata::<E>,
            (pallet, caller, collection, data, settings, reserved),
        ),
        call_requires(
            Pallet::<STRINGS, APPROVALS>::do_clear_collection_metadata,
            (pallet, caller, collection),
        ),
        call_requires(
            Pallet::<STRINGS, APPROVALS>::do_approve_transfer,
            (pallet, caller, collection, item, delegate, blocks, now),
        ),
        call_requires(
            Pallet::<STRINGS, APPROVALS>::do_cancel_approval,
            (pallet, caller, collection, item, delegate, now),
        ),
        call_requires(
            Pallet::<STRINGS, APPROVALS>::do_clear_all_transfer_approvals,
            (pallet, caller, collection, item),
        ),
{
}

} // verus!
