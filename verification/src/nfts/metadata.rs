//! Metadata of items and collections, and the deposits for it.
use crate::nfts::storage::{Pallet, PalletView};
use crate::nfts::types::{
    AccountId, Balance, CollectionDetails, CollectionId, CollectionSettings, DepositChange,
    DispatchError, Error, Event, ItemId, Metadata, MetadataView,
};
use vstd::prelude::*;

verus! {

/// The sum of two amounts, or the greatest amount where it is greater than that.
pub open spec fn saturating_sum(a: Balance, b: Balance) -> Balance {
    if a + b > Balance::MAX {
        Balance::MAX
    } else {
        (a + b) as Balance
    }
}

/// The product of an amount and a number, or the greatest amount where it is greater
/// than that.
pub open spec fn saturating_product(a: Balance, b: nat) -> Balance {
    if a * b > Balance::MAX {
        Balance::MAX
    } else {
        (a * b) as Balance
    }
}

/// The difference of two amounts, or zero where it is negative.
pub open spec fn saturating_difference(a: Balance, b: Balance) -> Balance {
    if a < b {
        0
    } else {
        (a - b) as Balance
    }
}

/// What the currency has to do for a deposit of the owner to change.
pub open spec fn deposit_change(owner: AccountId, before: Balance, after: Balance) -> DepositChange {
    if after > before {
        DepositChange::Reserve(owner, (after - before) as Balance)
    } else if after < before {
        DepositChange::Unreserve(owner, (before - after) as Balance)
    } else {
        DepositChange::Keep
    }
}

/// The sum of the deposits once one of them changed.
pub open spec fn total_after(total: Balance, before: Balance, after: Balance) -> Balance {
    saturating_sum(saturating_difference(total, before), after)
}

/// The deposit that was taken for metadata, if there is any.
pub open spec fn deposit_of(metadata: Option<MetadataView>) -> Balance {
    match metadata {
        Some(metadata) => metadata.deposit,
        None => 0,
    }
}

/// Why a call fails on account of the collection or of the owner that is to be
/// checked.
pub open spec fn owner_error(
    details: Option<CollectionDetails>,
    maybe_check_owner: Option<AccountId>,
) -> Option<Error> {
    match details {
        Some(details) => if maybe_check_owner is Some && maybe_check_owner->0 != details.owner {
            Some(Error::NoPermission)
        } else {
            None
        },
        None => Some(Error::UnknownCollection),
    }
}

impl PalletView {
    /// The deposit for metadata of the given length: none where the call is not made
    /// for an owner or the collection is held for free.
    pub open spec fn metadata_deposit(
        self,
        maybe_check_owner: Option<AccountId>,
        settings: CollectionSettings,
        len: nat,
    ) -> Balance {
        if maybe_check_owner is Some && !settings.free_holding {
            saturating_sum(
                saturating_product(self.deposit_per_byte, len),
                self.metadata_deposit_base,
            )
        } else {
            0
        }
    }

    /// The deposit that metadata of an item will take, or why it cannot be set. The
    /// settings of an unknown collection do not count.
    pub open spec fn item_deposit<E>(
        self,
        maybe_check_owner: Option<AccountId>,
        collection: CollectionId,
        settings: Result<CollectionSettings, E>,
        len: nat,
    ) -> Result<Balance, DispatchError<E>> {
        if !self.collections.contains_key(collection) {
            Err(DispatchError::Pallet(Error::UnknownCollection))
        } else {
            match settings {
                Ok(settings) => match owner_error(
                    self.collections.get(collection),
                    maybe_check_owner,
                ) {
                    Some(error) => Err(DispatchError::Pallet(error)),
                    None => Ok(self.metadata_deposit(maybe_check_owner, settings, len)),
                },
                Err(error) => Err(DispatchError::Outside(error)),
            }
        }
    }

    /// The storage once metadata of an item was set.
    pub open spec fn after_item_set(
        self,
        collection: CollectionId,
        item: ItemId,
        metadata: MetadataView,
    ) -> PalletView {
        let details = self.collections[collection];
        let before = self.item_metadata.get((collection, item));
        PalletView {
            collections: self.collections.insert(
                collection,
                CollectionDetails {
                    item_metadatas: if before is None && details.item_metadatas < u32::MAX {
                        (details.item_metadatas + 1) as u32
                    } else {
                        details.item_metadatas
                    },
                    total_deposit: total_after(
                        details.total_deposit,
                        deposit_of(before),
                        metadata.deposit,
                    ),
                    ..details
                },
            ),
            item_metadata: self.item_metadata.insert((collection, item), metadata),
            ..self
        }
    }

    /// The storage once metadata of an item was cleared.
    pub open spec fn after_item_cleared(self, collection: CollectionId, item: ItemId) -> PalletView {
        let details = self.collections[collection];
        PalletView {
            collections: self.collections.insert(
                collection,
                CollectionDetails {
                    item_metadatas: if details.item_metadatas > 0 {
                        (details.item_metadatas - 1) as u32
                    } else {
                        0
                    },
                    total_deposit: saturating_difference(
                        details.total_deposit,
                        self.item_metadata[(collection, item)].deposit,
                    ),
                    ..details
                },
            ),
            item_metadata: self.item_metadata.remove((collection, item)),
            ..self
        }
    }

    /// The storage once metadata of a collection was set.
    pub open spec fn after_collection_set(
        self,
        collection: CollectionId,
        metadata: MetadataView,
    ) -> PalletView {
        let details = self.collections[collection];
        PalletView {
            collections: self.collections.insert(
                collection,
                CollectionDetails {
                    total_deposit: total_after(
                        details.total_deposit,
                        deposit_of(self.collection_metadata.get(collection)),
                        metadata.deposit,
                    ),
                    ..details
                },
            ),
            collection_metadata: self.collection_metadata.insert(collection, metadata),
            ..self
        }
    }

    /// The storage once metadata of a collection was cleared. The sum of the deposits
    /// stays as it is.
    pub open spec fn after_collection_cleared(self, collection: CollectionId) -> PalletView {
        PalletView { collection_metadata: self.collection_metadata.remove(collection), ..self }
    }
}

/// The product of two amounts, or the greatest amount where it is greater than that.
fn saturating_mul(a: Balance, b: Balance) -> (product: Balance)
    ensures
        product == saturating_product(a, b as nat),
{
    match a.checked_mul(b) {
        Some(product) => product,
        None => Balance::MAX,
    }
}

/// What the currency has to do for a deposit of the owner to change.
fn change_deposit(owner: AccountId, before: Balance, after: Balance) -> (change: DepositChange)
    ensures
        change == deposit_change(owner, before, after),
{
    if after > before {
        DepositChange::Reserve(owner, after - before)
    } else if after < before {
        DepositChange::Unreserve(owner, before - after)
    } else {
        DepositChange::Keep
    }
}

/// Checks the owner of a collection.
fn check_owner(
    details: Option<CollectionDetails>,
    maybe_check_owner: Option<AccountId>,
) -> (checked: Result<CollectionDetails, Error>)
    ensures
        match checked {
            Ok(found) => owner_error(details, maybe_check_owner) is None && details == Some(found),
            Err(error) => owner_error(details, maybe_check_owner) == Some(error),
        },
{
    match details {
        Some(details) => match maybe_check_owner {
            Some(owner) => if owner == details.owner {
                Ok(details)
            } else {
                Err(Error::NoPermission)
            },
            None => Ok(details),
        },
        None => Err(Error::UnknownCollection),
    }
}

impl<const STRING_LIMIT: u32, const APPROVALS_LIMIT: u32> Pallet<STRING_LIMIT, APPROVALS_LIMIT> {
    /// The deposit for metadata of the given length.
    fn metadata_deposit(
        &self,
        maybe_check_owner: Option<AccountId>,
        settings: CollectionSettings,
        len: usize,
    ) -> (deposit: Balance)
        ensures
            deposit == self@.metadata_deposit(maybe_check_owner, settings, len as nat),
    {
        if maybe_check_owner.is_some() && !settings.free_holding {
            saturating_mul(self.deposit_per_byte(), len as Balance).saturating_add(
                self.metadata_deposit_base(),
            )
        } else {
            0
        }
    }

    /// The deposit that metadata of an item will take.
    fn item_deposit<E>(
        &self,
        maybe_check_owner: Option<AccountId>,
        collection: CollectionId,
        settings: Result<CollectionSettings, E>,
        len: usize,
    ) -> (deposit: Result<Balance, DispatchError<E>>)
        ensures
            deposit == self@.item_deposit(maybe_check_owner, collection, settings, len as nat),
    {
        let details = self.collection(collection);
        if details.is_none() {
            return Err(DispatchError::Pallet(Error::UnknownCollection));
        }
        let settings = match settings {
            Ok(settings) => settings,
            Err(error) => return Err(DispatchError::Outside(error)),
        };
        match check_owner(details, maybe_check_owner) {
            Ok(_) => Ok(self.metadata_deposit(maybe_check_owner, settings, len)),
            Err(error) => Err(DispatchError::Pallet(error)),
        }
    }

    /// The deposit that was taken for the metadata of an item.
    fn old_item_deposit(&self, collection: CollectionId, item: ItemId) -> (deposit: Balance)
        ensures
            deposit == deposit_of(self@.item_metadata.get((collection, item))),
    {
        match self.item_metadata_of(collection, item) {
            Some(metadata) => metadata.deposit,
            None => 0,
        }
    }

    /// The deposit that was taken for the metadata of a collection.
    fn old_collection_deposit(&self, collection: CollectionId) -> (deposit: Balance)
        ensures
            deposit == deposit_of(self@.collection_metadata.get(collection)),
    {
        match self.collection_metadata_of(collection) {
            Some(metadata) => metadata.deposit,
            None => 0,
        }
    }

    /// What the currency has to do before metadata of the given length can be set for
    /// an item. `settings` are those of the collection.
    pub fn item_deposit_change<E>(
        &self,
        maybe_check_owner: Option<AccountId>,
        collection: CollectionId,
        item: ItemId,
        settings: Result<CollectionSettings, E>,
        len: usize,
    ) -> (change: Result<DepositChange, DispatchError<E>>)
        ensures
            change == match self@.item_deposit(maybe_check_owner, collection, settings, len as nat) {
                Ok(deposit) => Ok::<DepositChange, DispatchError<E>>(
                    deposit_change(
                        self@.collections[collection].owner,
                        deposit_of(self@.item_metadata.get((collection, item))),
                        deposit,
                    ),
                ),
                Err(error) => Err(error),
            },
    {
        match self.item_deposit(maybe_check_owner, collection, settings, len) {
            Ok(deposit) => {
                let old_deposit = self.old_item_deposit(collection, item);
                match self.collection(collection) {
                    Some(details) => Ok(change_deposit(details.owner, old_deposit, deposit)),
                    None => Err(DispatchError::Pallet(Error::UnknownCollection)),
                }
            },
            Err(error) => Err(error),
        }
    }

    /// Sets the metadata of an item. `settings` are those of the collection, and
    /// `reserved` is what became of the amount that had to be reserved for it, where
    /// one had to.
    pub fn do_set_item_metadata<E>(
        &mut self,
        maybe_check_owner: Option<AccountId>,
        collection: CollectionId,
        item: ItemId,
        data: Vec<u8>,
        settings: Result<CollectionSettings, E>,
        reserved: Result<(), E>,
    ) -> (result: Result<Event, DispatchError<E>>)
        requires
            old(self).wf(),
            data@.len() <= STRING_LIMIT,
        ensures
            final(self).wf(),
            match old(self)@.item_deposit(maybe_check_owner, collection, settings, data@.len()) {
                Ok(deposit) => {
                    let before = deposit_of(old(self)@.item_metadata.get((collection, item)));
                    if deposit > before && reserved is Err {
                        &&& result == Err::<Event, DispatchError<E>>(
                            DispatchError::Outside(reserved->Err_0),
                        )
                        &&& final(self)@ == old(self)@
                    } else {
                        &&& result matches Ok(Event::MetadataSet {
                            collection: in_collection,
                            item: of_item,
                            data: set,
                        })
                        &&& in_collection == collection
                        &&& of_item == item
                        &&& set@ == data@
                        &&& final(self)@ == old(self)@.after_item_set(
                            collection,
                            item,
                            MetadataView { deposit, data: data@ },
                        )
                    }
                },
                Err(error) => {
                    &&& result == Err::<Event, DispatchError<E>>(error)
                    &&& final(self)@ == old(self)@
                },
            },
    {
        let deposit = match self.item_deposit(maybe_check_owner, collection, settings, data.len()) {
            Ok(deposit) => deposit,
            Err(error) => return Err(error),
        };
        let old_deposit = self.old_item_deposit(collection, item);
        if deposit > old_deposit {
            match reserved {
                Ok(()) => {},
                Err(error) => return Err(DispatchError::Outside(error)),
            }
        }
        let mut details = match self.collection(collection) {
            Some(details) => details,
            None => return Err(DispatchError::Pallet(Error::UnknownCollection)),
        };
        if self.item_metadata_of(collection, item).is_none() {
            details.item_metadatas = details.item_metadatas.saturating_add(1);
        }
        details.total_deposit = details.total_deposit.saturating_sub(old_deposit).saturating_add(
            deposit,
        );
        let event = Event::MetadataSet { collection, item, data: data.clone() };
        self.put_item_metadata(collection, item, Metadata { deposit, data });
        self.put_collection(collection, details);
        assert(self@ =~= old(self)@.after_item_set(
            collection,
            item,
            MetadataView { deposit, data: data@ },
        ));
        Ok(event)
    }

    /// Clears the metadata of an item. Returns with the event what the currency has to
    /// do.
    pub fn do_clear_item_metadata(
        &mut self,
        maybe_check_owner: Option<AccountId>,
        collection: CollectionId,
        item: ItemId,
    ) -> (result: Result<(DepositChange, Event), Error>)
        requires
            old(self).wf(),
        ensures
            final(self).wf(),
            match owner_error(old(self)@.collections.get(collection), maybe_check_owner) {
                Some(error) => result == Err::<(DepositChange, Event), Error>(error) 
                    && final(self)@ == old(self)@,
                None => match old(self)@.item_metadata.get((collection, item)) {
                    Some(metadata) => {
                        &&& result == Ok::<(DepositChange, Event), Error>(
                            (
                                DepositChange::Unreserve(
                                    old(self)@.collections[collection].owner,
                                    metadata.deposit,
                                ),
                                Event::MetadataCleared { collection, item },
                            ),
                        )
                        &&& final(self)@ == old(self)@.after_item_cleared(collection, item)
                    },
                    None => {
                        &&& result == Err::<(DepositChange, Event), Error>(
                            Error::UnknownCollection,
                        )
                        &&& final(self)@ == old(self)@
                    },
                },
            },
    {
        let mut details = match check_owner(self.collection(collection), maybe_check_owner) {
            Ok(details) => details,
            Err(error) => return Err(error),
        };
        let deposit = match self.item_metadata_of(collection, item) {
            Some(metadata) => metadata.deposit,
            None => return Err(Error::UnknownCollection),
        };
        details.item_metadatas = details.item_metadatas.saturating_sub(1);
        details.total_deposit = details.total_deposit.saturating_sub(deposit);
        self.take_item_metadata(collection, item);
        self.put_collection(collection, details);
        Ok(
            (
                DepositChange::Unreserve(details.owner, deposit),
                Event::MetadataCleared { collection, item },
            ),
        )
    }

    /// What the currency has to do before metadata of the given length can be set for
    /// a collection.
    pub fn collection_deposit_change(
        &self,
        maybe_check_owner: Option<AccountId>,
        collection: CollectionId,
        settings: CollectionSettings,
        len: usize,
    ) -> (change: Result<DepositChange, Error>)
        ensures
            change == match owner_error(self@.collections.get(collection), maybe_check_owner) {
                Some(error) => Err::<DepositChange, Error>(error),
                None => Ok(
                    deposit_change(
                        self@.collections[collection].owner,
                        deposit_of(self@.collection_metadata.get(collection)),
                        self@.metadata_deposit(maybe_check_owner, settings, len as nat),
                    ),
                ),
            },
    {
        match check_owner(self.collection(collection), maybe_check_owner) {
            Ok(details) => {
                let old_deposit = self.old_collection_deposit(collection);
                let deposit = self.metadata_deposit(maybe_check_owner, settings, len);
                Ok(change_deposit(details.owner, old_deposit, deposit))
            },
            Err(error) => Err(error),
        }
    }

    /// Sets the metadata of a collection. `reserved` is what became of the amount that
    /// had to be reserved for it, where one had to.
    pub fn do_set_collection_metadata<E>(
        &mut self,
        maybe_check_owner: Option<AccountId>,
        collection: CollectionId,
        data: Vec<u8>,
        settings: CollectionSettings,
        reserved: Result<(), E>,
    ) -> (result: Result<Event, DispatchError<E>>)
        requires
            old(self).wf(),
            data@.len() <= STRING_LIMIT,
        ensures
            final(self).wf(),
            match owner_error(old(self)@.collections.get(collection), maybe_check_owner) {
                Some(error) => {
                    &&& result == Err::<Event, DispatchError<E>>(DispatchError::Pallet(error))
                    &&& final(self)@ == old(self)@
                },
                None => {
                    let before = deposit_of(old(self)@.collection_metadata.get(collection));
                    let deposit = old(self)@.metadata_deposit(
                        maybe_check_owner,
                        settings,
                        data@.len(),
                    );
                    if deposit > before && reserved is Err {
                        &&& result == Err::<Event, DispatchError<E>>(
                            DispatchError::Outside(reserved->Err_0),
                        )
                        &&& final(self)@ == old(self)@
                    } else {
                        &&& result matches Ok(Event::CollectionMetadataSet {
                            collection: of_collection,
                            data: set,
                        })
                        &&& of_collection == collection
                        &&& set@ == data@
                        &&& final(self)@ == old(self)@.after_collection_set(
                            collection,
                            MetadataView { deposit, data: data@ },
                        )
                    }
                },
            },
    {
        let mut details = match check_owner(self.collection(collection), maybe_check_owner) {
            Ok(details) => details,
            Err(error) => return Err(DispatchError::Pallet(error)),
        };
        let old_deposit = self.old_collection_deposit(collection);
        let deposit = self.metadata_deposit(maybe_check_owner, settings, data.len());
        if deposit > old_deposit {
            match reserved {
                Ok(()) => {},
                Err(error) => return Err(DispatchError::Outside(error)),
            }
        }
        details.total_deposit = details.total_deposit.saturating_sub(old_deposit).saturating_add(
            deposit,
        );
        let event = Event::CollectionMetadataSet { collection, data: data.clone() };
        self.put_collection(collection, details);
        self.put_collection_metadata(collection, Metadata { deposit, data });
        assert(self@ =~= old(self)@.after_collection_set(
            collection,
            MetadataView { deposit, data: data@ },
        ));
        Ok(event)
    }

    /// Clears the metadata of a collection. Returns with the event what the currency
    /// has to do.
    pub fn do_clear_collection_metadata(
        &mut self,
        maybe_check_owner: Option<AccountId>,
        collection: CollectionId,
    ) -> (result: Result<(DepositChange, Event), Error>)
        requires
            old(self).wf(),
        ensures
            final(self).wf(),
            match owner_error(old(self)@.collections.get(collection), maybe_check_owner) {
                Some(error) => result == Err::<(DepositChange, Event), Error>(error) 
                    && final(self)@ == old(self)@,
                None => match old(self)@.collection_metadata.get(collection) {
                    Some(metadata) => {
                        &&& result == Ok::<(DepositChange, Event), Error>(
                            (
                                DepositChange::Unreserve(
                                    old(self)@.collections[collection].owner,
                                    metadata.deposit,
                                ),
                                Event::CollectionMetadataCleared { collection },
                            ),
                        )
                        &&& final(self)@ == old(self)@.after_collection_cleared(collection)
                    },
                    None => {
                        &&& result == Err::<(DepositChange, Event), Error>(
                            Error::UnknownCollection,
                        )
                        &&& final(self)@ == old(self)@
                    },
                },
            },
    {
        let details = match check_owner(self.collection(collection), maybe_check_owner) {
            Ok(details) => details,
            Err(error) => return Err(error),
        };
        let deposit = match self.collection_metadata_of(collection) {
            Some(metadata) => metadata.deposit,
            None => return Err(Error::UnknownCollection),
        };
        self.take_collection_metadata(collection);
        Ok(
            (
                DepositChange::Unreserve(details.owner, deposit),
                Event::CollectionMetadataCleared { collection },
            ),
        )
    }
}

} // verus!
