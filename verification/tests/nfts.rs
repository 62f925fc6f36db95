use substrate_features::nfts::storage::Pallet;
use substrate_features::nfts::types::{
    CollectionDetails, CollectionSettings, DepositChange, DispatchError, Error, Event,
};

const OWNER: u64 = 1;
const ADMIN: u64 = 2;
const HOLDER: u64 = 3;
const DELEGATE: u64 = 4;
const STRANGER: u64 = 5;
const PAID: CollectionSettings = CollectionSettings { free_holding: false };
const FREE: CollectionSettings = CollectionSettings { free_holding: true };

type Nfts = Pallet<50, 2>;

fn pallet() -> Nfts {
    let mut pallet = Nfts::new(2, 10);
    pallet.put_collection(
        7,
        CollectionDetails { owner: OWNER, admin: ADMIN, total_deposit: 100, item_metadatas: 0 },
    );
    pallet.put_item(7, 1, HOLDER);
    pallet
}

fn ok() -> Result<(), &'static str> {
    Ok(())
}

fn settings(settings: CollectionSettings) -> Result<CollectionSettings, &'static str> {
    Ok(settings)
}

#[test]
fn setting_item_metadata_takes_a_deposit() {
    let mut pallet = pallet();
    let change = pallet.item_deposit_change(Some(OWNER), 7, 1, settings(PAID), 3);
    assert!(matches!(change, Ok(DepositChange::Reserve(OWNER, 16))));
    let result =
        pallet.do_set_item_metadata(Some(OWNER), 7, 1, vec![1, 2, 3], settings(PAID), ok());
    match result {
        Ok(Event::MetadataSet { collection, item, data }) => {
            assert_eq!((collection, item, data), (7, 1, vec![1, 2, 3]));
        }
        other => panic!("unexpected {:?}", other),
    }
    let details = pallet.collection(7).unwrap();
    assert_eq!(details.total_deposit, 116);
    assert_eq!(details.item_metadatas, 1);
    let metadata = pallet.item_metadata_of(7, 1).unwrap();
    assert_eq!((metadata.deposit, metadata.data.clone()), (16, vec![1, 2, 3]));
}

#[test]
fn setting_item_metadata_again_settles_the_difference() {
    let mut pallet = pallet();
    pallet
        .do_set_item_metadata(Some(OWNER), 7, 1, vec![1, 2, 3], settings(PAID), ok())
        .unwrap();
    let change = pallet.item_deposit_change(Some(OWNER), 7, 1, settings(PAID), 1);
    assert!(matches!(change, Ok(DepositChange::Unreserve(OWNER, 4))));
    // What became of a reservation does not count where none is needed.
    pallet
        .do_set_item_metadata(Some(OWNER), 7, 1, vec![9], settings(PAID), Err("unused"))
        .unwrap();
    let details = pallet.collection(7).unwrap();
    assert_eq!((details.total_deposit, details.item_metadatas), (112, 1));
    let change = pallet.item_deposit_change(Some(OWNER), 7, 1, settings(PAID), 1);
    assert!(matches!(change, Ok(DepositChange::Keep)));
}

#[test]
fn no_deposit_for_free_holding_or_for_the_root() {
    let mut pallet = pallet();
    let change = pallet.item_deposit_change(Some(OWNER), 7, 1, settings(FREE), 3);
    assert!(matches!(change, Ok(DepositChange::Keep)));
    let change = pallet.item_deposit_change(None, 7, 1, settings(PAID), 3);
    assert!(matches!(change, Ok(DepositChange::Keep)));
    pallet.do_set_item_metadata(None, 7, 1, vec![1], settings(PAID), ok()).unwrap();
    assert_eq!(pallet.collection(7).unwrap().total_deposit, 100);
    assert_eq!(pallet.collection(7).unwrap().item_metadatas, 1);
}

#[test]
fn setting_item_metadata_can_fail() {
    let mut pallet = pallet();
    let result = pallet.do_set_item_metadata(Some(OWNER), 8, 1, vec![], Err("config"), ok());
    assert!(matches!(result, Err(DispatchError::Pallet(Error::UnknownCollection))));
    let result = pallet.do_set_item_metadata(Some(ADMIN), 7, 1, vec![], Err("config"), ok());
    assert!(matches!(result, Err(DispatchError::Outside("config"))));
    let result = pallet.do_set_item_metadata(Some(ADMIN), 7, 1, vec![], settings(PAID), ok());
    assert!(matches!(result, Err(DispatchError::Pallet(Error::NoPermission))));
    let result =
        pallet.do_set_item_metadata(Some(OWNER), 7, 1, vec![], settings(PAID), Err("poor"));
    assert!(matches!(result, Err(DispatchError::Outside("poor"))));
    assert!(pallet.item_metadata_of(7, 1).is_none());
    let details = pallet.collection(7).unwrap();
    assert_eq!((details.total_deposit, details.item_metadatas), (100, 0));
}

#[test]
fn clearing_item_metadata_gives_the_deposit_back() {
    let mut pallet = pallet();
    pallet
        .do_set_item_metadata(Some(OWNER), 7, 1, vec![1, 2, 3], settings(PAID), ok())
        .unwrap();
    assert!(matches!(pallet.do_clear_item_metadata(Some(ADMIN), 7, 1), Err(Error::NoPermission)));
    let result = pallet.do_clear_item_metadata(Some(OWNER), 7, 1);
    assert!(matches!(
        result,
        Ok((DepositChange::Unreserve(OWNER, 16), Event::MetadataCleared { collection: 7, item: 1 }))
    ));
    let details = pallet.collection(7).unwrap();
    assert_eq!((details.total_deposit, details.item_metadatas), (100, 0));
    assert!(matches!(pallet.do_clear_item_metadata(None, 7, 1), Err(Error::UnknownCollection)));
    assert!(matches!(pallet.do_clear_item_metadata(None, 8, 1), Err(Error::UnknownCollection)));
}

#[test]
fn collection_metadata_and_its_deposit() {
    let mut pallet = pallet();
    let change = pallet.collection_deposit_change(Some(OWNER), 7, PAID, 5);
    assert!(matches!(change, Ok(DepositChange::Reserve(OWNER, 20))));
    let result = pallet.do_set_collection_metadata(Some(OWNER), 7, vec![0; 5], PAID, ok());
    assert!(matches!(result, Ok(Event::CollectionMetadataSet { collection: 7, .. })));
    assert_eq!(pallet.collection(7).unwrap().total_deposit, 120);
    let change = pallet.collection_deposit_change(Some(OWNER), 7, FREE, 5);
    assert!(matches!(change, Ok(DepositChange::Unreserve(OWNER, 20))));
    let result = pallet.do_clear_collection_metadata(Some(OWNER), 7);
    assert!(matches!(
        result,
        Ok((
            DepositChange::Unreserve(OWNER, 20),
            Event::CollectionMetadataCleared { collection: 7 }
        ))
    ));
    // Clearing leaves the sum of the deposits as it is.
    assert_eq!(pallet.collection(7).unwrap().total_deposit, 120);
    assert!(pallet.collection_metadata_of(7).is_none());
    let result = pallet.do_clear_collection_metadata(None, 7);
    assert!(matches!(result, Err(Error::UnknownCollection)));
}

#[test]
fn setting_collection_metadata_can_fail() {
    let mut pallet = pallet();
    let result = pallet.do_set_collection_metadata(Some(OWNER), 8, vec![], PAID, ok());
    assert!(matches!(result, Err(DispatchError::Pallet(Error::UnknownCollection))));
    let result = pallet.do_set_collection_metadata(Some(ADMIN), 7, vec![], PAID, ok());
    assert!(matches!(result, Err(DispatchError::Pallet(Error::NoPermission))));
    let result = pallet.do_set_collection_metadata(Some(OWNER), 7, vec![], PAID, Err("poor"));
    assert!(matches!(result, Err(DispatchError::Outside("poor"))));
    assert!(pallet.collection_metadata_of(7).is_none());
    let result = pallet.do_clear_collection_metadata(Some(ADMIN), 7);
    assert!(matches!(result, Err(Error::NoPermission)));
    let result = pallet.do_clear_collection_metadata(None, 8);
    assert!(matches!(result, Err(Error::UnknownCollection)));
}

#[test]
fn the_stored_sum_covers_the_deposits() {
    let mut pallet = pallet();
    let owner = Some(OWNER);
    pallet.do_set_item_metadata(owner, 7, 1, vec![0; 3], settings(PAID), ok()).unwrap();
    pallet.do_set_item_metadata(owner, 7, 2, vec![0; 4], settings(PAID), ok()).unwrap();
    pallet.do_set_collection_metadata(owner, 7, vec![0; 5], PAID, ok()).unwrap();
    pallet.do_set_item_metadata(owner, 7, 1, vec![0; 7], settings(PAID), ok()).unwrap();
    let details = pallet.collection(7).unwrap();
    assert_eq!((details.total_deposit, details.item_metadatas), (100 + 24 + 18 + 20, 2));
    pallet.do_clear_item_metadata(owner, 7, 1).unwrap();
    let details = pallet.collection(7).unwrap();
    assert_eq!((details.total_deposit, details.item_metadatas), (100 + 18 + 20, 1));
    assert_eq!(pallet.item_metadata_of(7, 2).unwrap().deposit, 18);
}

#[test]
fn deposits_saturate() {
    let mut pallet = Pallet::<50, 2>::new(u128::MAX, 10);
    pallet.put_collection(
        7,
        CollectionDetails {
            owner: OWNER,
            admin: ADMIN,
            total_deposit: 3,
            item_metadatas: u32::MAX,
        },
    );
    let change = pallet.item_deposit_change(Some(OWNER), 7, 1, settings(PAID), 2);
    assert!(matches!(change, Ok(DepositChange::Reserve(OWNER, u128::MAX))));
    pallet.do_set_item_metadata(Some(OWNER), 7, 1, vec![1, 2], settings(PAID), ok()).unwrap();
    let details = pallet.collection(7).unwrap();
    assert_eq!((details.total_deposit, details.item_metadatas), (u128::MAX, u32::MAX));
}

#[test]
fn approving_and_cancelling() {
    let mut pallet = pallet();
    let result = pallet.do_approve_transfer(Some(HOLDER), 7, 1, DELEGATE, Some(5), 10);
    assert!(matches!(
        result,
        Ok(Event::ApprovedTransfer {
            collection: 7,
            item: 1,
            owner: HOLDER,
            delegate: DELEGATE,
            deadline: Some(15)
        })
    ));
    assert_eq!(pallet.item(7, 1).unwrap().approvals.get(&DELEGATE), Some(&Some(15)));
    let result = pallet.do_cancel_approval(Some(ADMIN), 7, 1, DELEGATE, 10);
    assert!(matches!(
        result,
        Ok(Event::ApprovalCancelled { collection: 7, item: 1, owner: HOLDER, delegate: DELEGATE })
    ));
    assert!(pallet.item(7, 1).unwrap().approvals.is_empty());
    let result = pallet.do_cancel_approval(Some(ADMIN), 7, 1, DELEGATE, 10);
    assert!(matches!(result, Err(Error::NotDelegate)));
}

#[test]
fn approvals_are_limited() {
    let mut pallet = pallet();
    assert!(pallet.do_approve_transfer(None, 7, 1, 10, None, 0).is_ok());
    assert!(pallet.do_approve_transfer(None, 7, 1, 11, None, 0).is_ok());
    let result = pallet.do_approve_transfer(None, 7, 1, 12, None, 0);
    assert!(matches!(result, Err(Error::ReachedApprovalLimit)));
    assert_eq!(pallet.item(7, 1).unwrap().approvals.len(), 2);
    // One that is there already can be renewed.
    assert!(pallet.do_approve_transfer(None, 7, 1, 11, Some(3), 4).is_ok());
    assert_eq!(pallet.item(7, 1).unwrap().approvals.get(&11), Some(&Some(7)));
    assert_eq!(pallet.item(7, 1).unwrap().approvals.get(&10), Some(&None));
}

#[test]
fn approving_can_fail() {
    let mut pallet = pallet();
    let result = pallet.do_approve_transfer(None, 8, 1, DELEGATE, None, 0);
    assert!(matches!(result, Err(Error::UnknownCollection)));
    let result = pallet.do_approve_transfer(None, 7, 2, DELEGATE, None, 0);
    assert!(matches!(result, Err(Error::UnknownCollection)));
    let result = pallet.do_approve_transfer(Some(STRANGER), 7, 1, DELEGATE, None, 0);
    assert!(matches!(result, Err(Error::NoPermission)));
    assert!(pallet.item(7, 1).unwrap().approvals.is_empty());
}

#[test]
fn anyone_cancels_past_the_deadline() {
    let mut pallet = pallet();
    pallet.do_approve_transfer(None, 7, 1, DELEGATE, Some(5), 10).unwrap();
    let result = pallet.do_cancel_approval(Some(STRANGER), 7, 1, DELEGATE, 15);
    assert!(matches!(result, Err(Error::NoPermission)));
    assert!(pallet.do_cancel_approval(Some(STRANGER), 7, 1, DELEGATE, 16).is_ok());
    pallet.do_approve_transfer(None, 7, 1, DELEGATE, None, 10).unwrap();
    let result = pallet.do_cancel_approval(Some(STRANGER), 7, 1, DELEGATE, u32::MAX);
    assert!(matches!(result, Err(Error::NoPermission)));
    let result = pallet.do_cancel_approval(None, 8, 1, DELEGATE, 16);
    assert!(matches!(result, Err(Error::UnknownCollection)));
    let result = pallet.do_cancel_approval(None, 7, 2, DELEGATE, 16);
    assert!(matches!(result, Err(Error::UnknownCollection)));
}

#[test]
fn a_deadline_does_not_overflow() {
    let mut pallet = pallet();
    pallet.do_approve_transfer(None, 7, 1, DELEGATE, Some(u32::MAX), 10).unwrap();
    assert_eq!(pallet.item(7, 1).unwrap().approvals.get(&DELEGATE), Some(&Some(u32::MAX)));
    let result = pallet.do_cancel_approval(Some(STRANGER), 7, 1, DELEGATE, u32::MAX);
    assert!(matches!(result, Err(Error::NoPermission)));
}

#[test]
fn clearing_all_approvals() {
    let mut pallet = pallet();
    pallet.do_approve_transfer(None, 7, 1, 10, None, 0).unwrap();
    pallet.do_approve_transfer(None, 7, 1, 11, None, 0).unwrap();
    let result = pallet.do_clear_all_transfer_approvals(Some(STRANGER), 7, 1);
    assert!(matches!(result, Err(Error::NoPermission)));
    assert_eq!(pallet.item(7, 1).unwrap().approvals.len(), 2);
    let result = pallet.do_clear_all_transfer_approvals(Some(HOLDER), 7, 1);
    assert!(matches!(
        result,
        Ok(Event::AllApprovalsCancelled { collection: 7, item: 1, owner: HOLDER })
    ));
    assert!(pallet.item(7, 1).unwrap().approvals.is_empty());
    let result = pallet.do_clear_all_transfer_approvals(None, 8, 1);
    assert!(matches!(result, Err(Error::UnknownCollection)));
    let result = pallet.do_clear_all_transfer_approvals(None, 7, 2);
    assert!(matches!(result, Err(Error::UnknownCollection)));
}
