//! The values that the token pallet stores and exchanges.
use std::collections::BTreeMap;
use vstd::prelude::*;

verus! {

/// An account, numbered by the embedding runtime: equal numbers stand for equal
/// accounts.
pub type AccountId = u64;

/// A collection of items.
pub type CollectionId = u64;

/// An item of a collection.
pub type ItemId = u64;

/// An amount of the currency that deposits are taken in.
pub type Balance = u128;

/// The number of a block.
pub type BlockNumber = u32;

/// Why a call to the pallet failed.
#[derive(Clone, Copy, PartialEq, Eq, Structural, Debug)]
pub enum Error {
    /// The collection, the item or the metadata does not exist.
    UnknownCollection,
    /// The caller is not permitted to make the call.
    NoPermission,
    /// The item has as many approvals as it may have.
    ReachedApprovalLimit,
    /// The account has no approval.
    NotDelegate,
}

/// Why a call failed: for a reason of the pallet's own, or with the error of a service
/// that it relies on.
#[derive(Debug)]
pub enum DispatchError<E> {
    /// A reason of the pallet's own.
    Pallet(Error),
    /// The error of a service.
    Outside(E),
}

/// What is settled for a collection, as far as deposits depend on it.
#[derive(Clone, Copy, PartialEq, Eq, Structural, Debug)]
pub struct CollectionSettings {
    /// Whether no deposit is taken.
    pub free_holding: bool,
}

/// What is stored of a collection.
#[derive(Clone, Copy, PartialEq, Eq, Structural, Debug)]
pub struct CollectionDetails {
    /// The owner, who pays the deposits.
    pub owner: AccountId,
    /// The administrator.
    pub admin: AccountId,
    /// The sum of the deposits.
    pub total_deposit: Balance,
    /// The number of items with metadata.
    pub item_metadatas: u32,
}

/// What is stored of an item.
pub struct ItemDetails {
    /// The owner.
    pub owner: AccountId,
    /// Who may transfer the item, and until which block, where that is limited.
    pub approvals: BTreeMap<AccountId, Option<BlockNumber>>,
}

/// What is stored of an item.
#[verifier::ext_equal]
pub struct ItemView {
    /// The owner.
    pub owner: AccountId,
    /// Who may transfer the item, and until which block, where that is limited.
    pub approvals: Map<AccountId, Option<BlockNumber>>,
}

impl View for ItemDetails {
    type V = ItemView;

    open spec fn view(&self) -> ItemView {
        ItemView { owner: self.owner, approvals: self.approvals@ }
    }
}

/// Metadata, with the deposit that was taken for it.
#[derive(Debug)]
pub struct Metadata {
    /// The deposit.
    pub deposit: Balance,
    /// The metadata.
    pub data: Vec<u8>,
}

/// Metadata, with the deposit that was taken for it.
#[verifier::ext_equal]
pub struct MetadataView {
    /// The deposit.
    pub deposit: Balance,
    /// The metadata.
    pub data: Seq<u8>,
}

impl View for Metadata {
    type V = MetadataView;

    open spec fn view(&self) -> MetadataView {
        MetadataView { deposit: self.deposit, data: self.data@ }
    }
}

/// What the currency has to do.
#[derive(Clone, Copy, PartialEq, Eq, Structural, Debug)]
pub enum DepositChange {
    /// Reserve an amount of the account. This may fail.
    Reserve(AccountId, Balance),
    /// Give an amount back to the account.
    Unreserve(AccountId, Balance),
    /// Nothing.
    Keep,
}

/// What happened.
#[derive(Debug)]
pub enum Event {
    /// Metadata of an item was set.
    MetadataSet {
        /// The collection.
        collection: CollectionId,
        /// The item.
        item: ItemId,
        /// The metadata.
        data: Vec<u8>,
    },
    /// Metadata of an item was cleared.
    MetadataCleared {
        /// The collection.
        collection: CollectionId,
        /// The item.
        item: ItemId,
    },
    /// Metadata of a collection was set.
    CollectionMetadataSet {
        /// The collection.
        collection: CollectionId,
        /// The metadata.
        data: Vec<u8>,
    },
    /// Metadata of a collection was cleared.
    CollectionMetadataCleared {
        /// The collection.
        collection: CollectionId,
    },
    /// A transfer was approved.
    ApprovedTransfer {
        /// The collection.
        collection: CollectionId,
        /// The item.
        item: ItemId,
        /// The owner of the item.
        owner: AccountId,
        /// Who may transfer it.
        delegate: AccountId,
        /// Until which block, where that is limited.
        deadline: Option<BlockNumber>,
    },
    /// An approval was cancelled.
    ApprovalCancelled {
        /// The collection.
        collection: CollectionId,
        /// The item.
        item: ItemId,
        /// The owner of the item.
        owner: AccountId,
        /// Whose approval it was.
        delegate: AccountId,
    },
    /// All approvals of an item were cancelled.
    AllApprovalsCancelled {
        /// The collection.
        collection: CollectionId,
        /// The item.
        item: ItemId,
        /// The owner of the item.
        owner: AccountId,
    },
}

} // verus!
