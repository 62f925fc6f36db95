//! Approvals of transfers.
use crate::nfts::storage::{Pallet, PalletView};
use crate::nfts::types::{
    AccountId, BlockNumber, CollectionId, Error, Event, ItemId, ItemView,
};
use frame_support::traits::ConstU32;
use frame_support::BoundedBTreeMap;
use std::collections::BTreeMap;
use vstd::prelude::*;

verus! {

/// Calls `frame_support::BoundedBTreeMap::try_insert` on the entries of `map`, bounded
/// by `LIMIT`: the entry is inserted, in place of an earlier one with that key, unless
/// the key is new and there are `LIMIT` entries already, in which case nothing changes.
#[verifier::external_body]
pub(crate) fn try_insert<const LIMIT: u32>(
    map: &mut BTreeMap<u64, Option<u32>>,
    key: u64,
    value: Option<u32>,
) -> (inserted: bool)
    requires
        old(map)@.len() <= LIMIT,
    ensures
        inserted == (old(map)@.contains_key(key) || old(map)@.len() < LIMIT),
        final(map)@ == if inserted {
            old(map)@.insert(key, value)
        } else {
            old(map)@
        },
{
    let mut bounded: BoundedBTreeMap<u64, Option<u32>, ConstU32<LIMIT>> =
        std::mem::take(map).try_into().unwrap();
    let inserted = bounded.try_insert(key, value).is_ok();
    *map = bounded.into_inner();
    inserted
}

impl PalletView {
    /// Why a call that changes the approvals of an item fails on account of what is
    /// stored, for the caller that is to be checked: the collection or the item does
    /// not exist, or the caller is neither the administrator of the collection nor the
    /// owner of the item.
    pub open spec fn approval_error(
        self,
        maybe_check_caller: Option<AccountId>,
        collection: CollectionId,
        item: ItemId,
    ) -> Option<Error> {
        if !self.collections.contains_key(collection) || !self.items.contains_key(
            (collection, item),
        ) {
            Some(Error::UnknownCollection)
        } else if maybe_check_caller is Some && !self.may_approve(
            maybe_check_caller->0,
            collection,
            item,
        ) {
            Some(Error::NoPermission)
        } else {
            None
        }
    }

    /// Whether the caller is the administrator of the collection or the owner of the
    /// item.
    pub open spec fn may_approve(
        self,
        caller: AccountId,
        collection: CollectionId,
        item: ItemId,
    ) -> bool {
        caller == self.collections[collection].admin || caller == self.items[(
            collection,
            item,
        )].owner
    }

    /// The storage with these approvals of an item.
    pub open spec fn with_approvals(
        self,
        collection: CollectionId,
        item: ItemId,
        approvals: Map<AccountId, Option<BlockNumber>>,
    ) -> PalletView {
        let details = ItemView { approvals, ..self.items[(collection, item)] };
        PalletView { items: self.items.insert((collection, item), details), ..self }
    }

    /// Whether the approval of the delegate has a deadline that has passed.
    pub open spec fn is_past_deadline(
        self,
        collection: CollectionId,
        item: ItemId,
        delegate: AccountId,
        now: BlockNumber,
    ) -> bool {
        self.items[(collection, item)].approvals[delegate] matches Some(deadline) && now > deadline
    }

    /// Why the cancellation of an approval fails. Past its deadline anyone may cancel
    /// an approval.
    pub open spec fn cancel_error(
        self,
        maybe_check_caller: Option<AccountId>,
        collection: CollectionId,
        item: ItemId,
        delegate: AccountId,
        now: BlockNumber,
    ) -> Option<Error> {
        if self.approval_error(None, collection, item) is Some {
            Some(Error::UnknownCollection)
        } else if !self.items[(collection, item)].approvals.contains_key(delegate) {
            Some(Error::NotDelegate)
        } else if self.is_past_deadline(collection, item, delegate, now) {
            None
        } else {
            self.approval_error(maybe_check_caller, collection, item)
        }
    }
}

/// The block at which an approval ends that is given for a number of blocks.
pub open spec fn deadline_after(now: BlockNumber, blocks: Option<BlockNumber>) -> Option<
    BlockNumber,
> {
    match blocks {
        Some(blocks) => Some(
            if blocks + now > BlockNumber::MAX {
                BlockNumber::MAX
            } else {
                (blocks + now) as BlockNumber
            },
        ),
        None => None,
    }
}

impl<const STRING_LIMIT: u32, const APPROVALS_LIMIT: u32> Pallet<STRING_LIMIT, APPROVALS_LIMIT> {
    /// Checks the collection, the item and the caller. Returns the owner of the item.
    fn check_approval_caller(
        &self,
        maybe_check_caller: Option<AccountId>,
        collection: CollectionId,
        item: ItemId,
    ) -> (owner: Result<AccountId, Error>)
        ensures
            match owner {
                Ok(owner) => self@.approval_error(maybe_check_caller, collection, item) is None
                    && owner == self@.items[(collection, item)].owner,
                Err(error) => self@.approval_error(maybe_check_caller, collection, item) == Some(
                    error,
                ),
            },
    {
        let collection_details = match self.collection(collection) {
            Some(details) => details,
            None => return Err(Error::UnknownCollection),
        };
        let owner = match self.item(collection, item) {
            Some(details) => details.owner,
            None => return Err(Error::UnknownCollection),
        };
        match maybe_check_caller {
            Some(check) => if check == collection_details.admin || check == owner {
                Ok(owner)
            } else {
                Err(Error::NoPermission)
            },
            None => Ok(owner),
        }
    }

    /// Approves that `delegate` transfers an item, for a number of blocks from `now` or
    /// without limit.
    pub fn do_approve_transfer(
        &mut self,
        maybe_check_caller: Option<AccountId>,
        collection: CollectionId,
        item: ItemId,
        delegate: AccountId,
        maybe_deadline: Option<BlockNumber>,
        now: BlockNumber,
    ) -> (result: Result<Event, Error>)
        requires
            old(self).wf(),
        ensures
            final(self).wf(),
            ({
                let approvals = old(self)@.items[(collection, item)].approvals;
                let deadline = deadline_after(now, maybe_deadline);
                match old(self)@.approval_error(maybe_check_caller, collection, item) {
                    Some(error) => result == Err::<Event, Error>(error) && final(self)@ == old(
                        self,
                    )@,
                    None => if approvals.contains_key(delegate) || approvals.len()
                        < APPROVALS_LIMIT {
                        &&& final(self)@ == old(self)@.with_approvals(
                            collection,
                            item,
                            approvals.insert(delegate, deadline),
                        )
                        &&& result == Ok::<Event, Error>(
                            Event::ApprovedTransfer {
                                collection,
                                item,
                                owner: old(self)@.items[(collection, item)].owner,
                                delegate,
                                deadline,
                            },
                        )
                    } else {
                        result == Err::<Event, Error>(Error::ReachedApprovalLimit) && final(self)@
                            == old(self)@
                    },
                }
            }),
    {
        let owner = match self.check_approval_caller(maybe_check_caller, collection, item) {
            Ok(owner) => owner,
            Err(error) => return Err(error),
        };
        let deadline = match maybe_deadline {
            Some(blocks) => Some(blocks.saturating_add(now)),
            None => None,
        };
        match self.take_item(collection, item) {
            Some(details) => {
                let mut details = details;
                let inserted = try_insert::<APPROVALS_LIMIT>(
                    &mut details.approvals,
                    delegate,
                    deadline,
                );
                self.put_item_details(collection, item, details);
                assert(self@.items =~= old(self)@.items.insert((collection, item), details@));
                if inserted {
                    Ok(Event::ApprovedTransfer { collection, item, owner, delegate, deadline })
                } else {
                    assert(self@.items =~= old(self)@.items);
                    Err(Error::ReachedApprovalLimit)
                }
            },
            None => Err(Error::UnknownCollection),
        }
    }

    /// Cancels the approval of `delegate`.
    pub fn do_cancel_approval(
        &mut self,
        maybe_check_caller: Option<AccountId>,
        collection: CollectionId,
        item: ItemId,
        delegate: AccountId,
        now: BlockNumber,
    ) -> (result: Result<Event, Error>)
        requires
            old(self).wf(),
        ensures
            final(self).wf(),
            match old(self)@.cancel_error(maybe_check_caller, collection, item, delegate, now) {
                Some(error) => result == Err::<Event, Error>(error) && final(self)@ == old(self)@,
                None => {
                    &&& final(self)@ == old(self)@.with_approvals(
                        collection,
                        item,
                        old(self)@.items[(collection, item)].approvals.remove(delegate),
                    )
                    &&& result == Ok::<Event, Error>(
                        Event::ApprovalCancelled {
                            collection,
                            item,
                            owner: old(self)@.items[(collection, item)].owner,
                            delegate,
                        },
                    )
                },
            },
    {
        let owner = match self.check_approval_caller(None, collection, item) {
            Ok(owner) => owner,
            Err(error) => return Err(error),
        };
        let maybe_deadline = match self.item(collection, item) {
            Some(details) => match details.approvals.get(&delegate) {
                Some(deadline) => *deadline,
                None => return Err(Error::NotDelegate),
            },
            None => return Err(Error::UnknownCollection),
        };
        let is_past_deadline = match maybe_deadline {
            Some(deadline) => now > deadline,
            None => false,
        };
        if !is_past_deadline {
            match self.check_approval_caller(maybe_check_caller, collection, item) {
                Ok(_) => {},
                Err(error) => return Err(error),
            }
        }
        match self.take_item(collection, item) {
            Some(details) => {
                let mut details = details;
                details.approvals.remove(&delegate);
                self.put_item_details(collection, item, details);
                assert(self@.items =~= old(self)@.items.insert((collection, item), details@));
                Ok(Event::ApprovalCancelled { collection, item, owner, delegate })
            },
            None => Err(Error::UnknownCollection),
        }
    }

    /// Cancels all approvals of an item.
    pub fn do_clear_all_transfer_approvals(
        &mut self,
        maybe_check_caller: Option<AccountId>,
        collection: CollectionId,
        item: ItemId,
    ) -> (result: Result<Event, Error>)
        requires
            old(self).wf(),
        ensures
            final(self).wf(),
            match old(self)@.approval_error(maybe_check_caller, collection, item) {
                Some(error) => result == Err::<Event, Error>(error) && final(self)@ == old(self)@,
                None => {
                    &&& final(self)@ == old(self)@.with_approvals(collection, item, Map::empty())
                    &&& result == Ok::<Event, Error>(
                        Event::AllApprovalsCancelled {
                            collection,
                            item,
                            owner: old(self)@.items[(collection, item)].owner,
                        },
                    )
                },
            },
    {
        let owner = match self.check_approval_caller(maybe_check_caller, collection, item) {
            Ok(owner) => owner,
            Err(error) => return Err(error),
        };
        match self.take_item(collection, item) {
            Some(details) => {
                let mut details = details;
                details.approvals.clear();
                self.put_item_details(collection, item, details);
                assert(self@.items =~= old(self)@.items.insert((collection, item), details@));
                Ok(Event::AllApprovalsCancelled { collection, item, owner })
            },
            None => Err(Error::UnknownCollection),
        }
    }
}

} // verus!
