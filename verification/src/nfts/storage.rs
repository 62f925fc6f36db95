//! The storage of the token pallet.
use crate::double_map::DoubleMap;
use crate::nfts::types::{
    AccountId, Balance, CollectionDetails, CollectionId, ItemDetails, ItemId, ItemView, Metadata,
    MetadataView,
};
use std::collections::{BTreeMap, HashMap};
use vstd::prelude::*;

verus! {

/// The token pallet. Metadata is at most `STRING_LIMIT` bytes long, and an item has at
/// most `APPROVALS_LIMIT` approvals.
pub struct Pallet<const STRING_LIMIT: u32, const APPROVALS_LIMIT: u32> {
    collections: HashMap<CollectionId, CollectionDetails>,
    items: DoubleMap<ItemDetails>,
    item_metadata: DoubleMap<Metadata>,
    collection_metadata: HashMap<CollectionId, Metadata>,
    deposit_per_byte: Balance,
    metadata_deposit_base: Balance,
}

/// What the pallet stores.
#[verifier::ext_equal]
pub struct PalletView {
    /// The collections.
    pub collections: Map<CollectionId, CollectionDetails>,
    /// The items.
    pub items: Map<(CollectionId, ItemId), ItemView>,
    /// The metadata of items.
    pub item_metadata: Map<(CollectionId, ItemId), MetadataView>,
    /// The metadata of collections.
    pub collection_metadata: Map<CollectionId, MetadataView>,
    /// The deposit for a byte of metadata.
    pub deposit_per_byte: Balance,
    /// The deposit for metadata beside that for its bytes.
    pub metadata_deposit_base: Balance,
}

impl<const STRING_LIMIT: u32, const APPROVALS_LIMIT: u32> View for Pallet<
    STRING_LIMIT,
    APPROVALS_LIMIT,
> {
    type V = PalletView;

    closed spec fn view(&self) -> PalletView {
        PalletView {
            collections: self.collections@,
            items: self.items@.map_values(|item: ItemDetails| item@),
            item_metadata: self.item_metadata@.map_values(|metadata: Metadata| metadata@),
            collection_metadata: self.collection_metadata@.map_values(
                |metadata: Metadata| metadata@,
            ),
            deposit_per_byte: self.deposit_per_byte,
            metadata_deposit_base: self.metadata_deposit_base,
        }
    }
}

impl<const STRING_LIMIT: u32, const APPROVALS_LIMIT: u32> Pallet<STRING_LIMIT, APPROVALS_LIMIT> {
    /// No item has more approvals than it may have, and no metadata is longer than it
    /// may be.
    pub open spec fn wf(&self) -> bool {
        &&& forall|key: (CollectionId, ItemId)| #[trigger]
            self@.items.contains_key(key) ==> self@.items[key].approvals.dom().finite()
                && self@.items[key].approvals.len() <= APPROVALS_LIMIT
        &&& forall|key: (CollectionId, ItemId)| #[trigger]
            self@.item_metadata.contains_key(key) ==> self@.item_metadata[key].data.len()
                <= STRING_LIMIT
        &&& forall|key: CollectionId| #[trigger]
            self@.collection_metadata.contains_key(key)
                ==> self@.collection_metadata[key].data.len() <= STRING_LIMIT
    }

    /// An empty pallet with the given deposits.
    pub fn new(deposit_per_byte: Balance, metadata_deposit_base: Balance) -> (pallet: Self)
        ensures
            pallet.wf(),
            pallet@ == (PalletView {
                collections: Map::empty(),
                items: Map::empty(),
                item_metadata: Map::empty(),
                collection_metadata: Map::empty(),
                deposit_per_byte,
                metadata_deposit_base,
            }),
    {
        let pallet = Pallet {
            collections: HashMap::new(),
            items: DoubleMap::new(),
            item_metadata: DoubleMap::new(),
            collection_metadata: HashMap::new(),
            deposit_per_byte,
            metadata_deposit_base,
        };
        assert(pallet@.items =~= Map::<(CollectionId, ItemId), ItemView>::empty());
        assert(pallet@.item_metadata =~= Map::<(CollectionId, ItemId), MetadataView>::empty());
        assert(pallet@.collection_metadata =~= Map::<CollectionId, MetadataView>::empty());
        pallet
    }

    /// The deposit for a byte of metadata.
    pub fn deposit_per_byte(&self) -> (deposit: Balance)
        ensures
            deposit == self@.deposit_per_byte,
    {
        self.deposit_per_byte
    }

    /// The deposit for metadata beside that for its bytes.
    pub fn metadata_deposit_base(&self) -> (deposit: Balance)
        ensures
            deposit == self@.metadata_deposit_base,
    {
        self.metadata_deposit_base
    }

    /// What is stored of a collection.
    pub fn collection(&self, collection: CollectionId) -> (details: Option<CollectionDetails>)
        ensures
            details == self@.collections.get(collection),
    {
        match self.collections.get(&collection) {
            Some(details) => Some(*details),
            None => None,
        }
    }

    /// Stores a collection.
    pub fn put_collection(&mut self, collection: CollectionId, details: CollectionDetails)
        requires
            old(self).wf(),
        ensures
            final(self).wf(),
            final(self)@ == (PalletView {
                collections: old(self)@.collections.insert(collection, details),
                ..old(self)@
            }),
    {
        self.collections.insert(collection, details);
    }

    /// What is stored of an item.
    pub fn item(&self, collection: CollectionId, item: ItemId) -> (details: Option<&ItemDetails>)
        ensures
            match details {
                Some(details) => self@.items.get((collection, item)) == Some(details@),
                None => self@.items.get((collection, item)) is None,
            },
    {
        self.items.get(collection, item)
    }

    /// Stores an item without approvals.
    pub fn put_item(&mut self, collection: CollectionId, item: ItemId, owner: AccountId)
        requires
            old(self).wf(),
        ensures
            final(self).wf(),
            final(self)@ == (PalletView {
                items: old(self)@.items.insert(
                    (collection, item),
                    ItemView { owner, approvals: Map::empty() },
                ),
                ..old(self)@
            }),
    {
        self.put_item_details(
            collection,
            item,
            ItemDetails { owner, approvals: BTreeMap::new() },
        );
    }

    /// Stores an item.
    pub(crate) fn put_item_details(
        &mut self,
        collection: CollectionId,
        item: ItemId,
        details: ItemDetails,
    )
        requires
            old(self).wf(),
            details@.approvals.dom().finite(),
            details@.approvals.len() <= APPROVALS_LIMIT,
        ensures
            final(self).wf(),
            final(self)@ == (PalletView {
                items: old(self)@.items.insert((collection, item), details@),
                ..old(self)@
            }),
    {
        self.items.insert(collection, item, details);
        assert(self@.items =~= old(self)@.items.insert((collection, item), details@));
    }

    /// Takes an item out of the storage.
    pub(crate) fn take_item(&mut self, collection: CollectionId, item: ItemId) -> (details: Option<
        ItemDetails,
    >)
        requires
            old(self).wf(),
        ensures
            final(self).wf(),
            final(self)@ == (PalletView {
                items: old(self)@.items.remove((collection, item)),
                ..old(self)@
            }),
            match details {
                Some(details) => old(self)@.items.get((collection, item)) == Some(details@),
                None => old(self)@.items.get((collection, item)) is None,
            },
    {
        let details = self.items.remove(collection, item);
        assert(self@.items =~= old(self)@.items.remove((collection, item)));
        details
    }

    /// The metadata of an item.
    pub fn item_metadata_of(&self, collection: CollectionId, item: ItemId) -> (metadata: Option<
        &Metadata,
    >)
        ensures
            match metadata {
                Some(metadata) => self@.item_metadata.get((collection, item)) == Some(metadata@),
                None => self@.item_metadata.get((collection, item)) is None,
            },
    {
        self.item_metadata.get(collection, item)
    }

    /// Stores the metadata of an item.
    pub(crate) fn put_item_metadata(
        &mut self,
        collection: CollectionId,
        item: ItemId,
        metadata: Metadata,
    )
        requires
            old(self).wf(),
            metadata.data@.len() <= STRING_LIMIT,
        ensures
            final(self).wf(),
            final(self)@ == (PalletView {
                item_metadata: old(self)@.item_metadata.insert((collection, item), metadata@),
                ..old(self)@
            }),
    {
        self.item_metadata.insert(collection, item, metadata);
        assert(self@.item_metadata =~= old(self)@.item_metadata.insert(
            (collection, item),
            metadata@,
        ));
    }

    /// Takes the metadata of an item out of the storage.
    pub(crate) fn take_item_metadata(&mut self, collection: CollectionId, item: ItemId)
        requires
            old(self).wf(),
        ensures
            final(self).wf(),
            final(self)@ == (PalletView {
                item_metadata: old(self)@.item_metadata.remove((collection, item)),
                ..old(self)@
            }),
    {
        self.item_metadata.remove(collection, item);
        assert(self@.item_metadata =~= old(self)@.item_metadata.remove((collection, item)));
    }

    /// The metadata of a collection.
    pub fn collection_metadata_of(&self, collection: CollectionId) -> (metadata: Option<&Metadata>)
        ensures
            match metadata {
                Some(metadata) => self@.collection_metadata.get(collection) == Some(metadata@),
                None => self@.collection_metadata.get(collection) is None,
            },
    {
        self.collection_metadata.get(&collection)
    }

    /// Stores the metadata of a collection.
    pub(crate) fn put_collection_metadata(&mut self, collection: CollectionId, metadata: Metadata)
        requires
            old(self).wf(),
            metadata.data@.len() <= STRING_LIMIT,
        ensures
            final(self).wf(),
            final(self)@ == (PalletView {
                collection_metadata: old(self)@.collection_metadata.insert(collection, metadata@),
                ..old(self)@
            }),
    {
        self.collection_metadata.insert(collection, metadata);
        assert(self@.collection_metadata =~= old(self)@.collection_metadata.insert(
            collection,
            metadata@,
        ));
    }

    /// Takes the metadata of a collection out of the storage.
    pub(crate) fn take_collection_metadata(&mut self, collection: CollectionId)
        requires
            old(self).wf(),
        ensures
            final(self).wf(),
            final(self)@ == (PalletView {
                collection_metadata: old(self)@.collection_metadata.remove(collection),
                ..old(self)@
            }),
    {
        self.collection_metadata.remove(&collection);
        assert(self@.collection_metadata =~= old(self)@.collection_metadata.remove(collection));
    }
}

} // verus!
