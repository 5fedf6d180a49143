use hashed_pallets::afloat::{
    add_afloat_admin, assign_user_to_role, cancel_offer, confirm_sell_transaction, create_offer,
    create_tax_credit, finish_take_sell_transaction, initial_setup, kill_storage, run_steps, set_afloat_balance,
    sign_up, start_take_sell_order, update_user_info, AfloatRole, AfloatStep, AfloatStorage, CreateOfferArgs, Error,
    Event, InitialSetupArgs, KillStorageArgs, SignUpArgs, UpdateUserArgs, CLEAR_LIMIT,
};
use hashed_pallets::common::Origin;
use hashed_pallets::fruniques::FruniqueRole;

type Step = AfloatStep<u32>;

#[test]
fn initial_setup_runs_every_step_in_order() {
    let args = InitialSetupArgs::All { creator: 1, admin: 2, asset: 7u32 };
    let steps = initial_setup(Origin::Root, args).unwrap();
    assert_eq!(
        steps,
        vec![
            Step::FruniquesInitialSetup,
            Step::MarketplaceInitialSetup,
            Step::CreateAfloatFrunique { creator: 1, admin: 2 },
            Step::AddAccountToAfloatFrunique { who: 2, role: FruniqueRole::Admin },
            Step::CreateAfloatAsset { creator: 1, asset: 7 },
            Step::CreateAfloatMarketplace { creator: 1, admin: 2 },
            Step::SetupRoles { creator: 1, admin: 2 },
        ]
    );
    let steps = initial_setup::<u32>(Origin::Root, InitialSetupArgs::AddAfloatRole { who: 3, role: AfloatRole::CPA })
        .unwrap();
    assert_eq!(steps, vec![Step::GiveRoleToUser { who: 3, role: AfloatRole::CPA }]);
    let r = initial_setup::<u32>(Origin::Signed(1), InitialSetupArgs::Roles { creator: 1, admin: 2 });
    assert_eq!(r.unwrap_err(), Error::BadOrigin);
}

fn storage(offers: usize) -> AfloatStorage<u8, u8, u8> {
    AfloatStorage {
        user_info: vec![(3, 0), (4, 0)],
        marketplace_id: Some([1u8; 32]),
        collection_id: Some(2),
        asset_id: Some(3),
        offers: (0..offers).map(|k| ([k as u8; 32], 1)).collect(),
        transactions: vec![([9u8; 32], 2)],
    }
}

#[test]
fn kill_storage_needs_root() {
    let mut s = storage(2);
    assert_eq!(kill_storage(&mut s, Origin::Signed(1), KillStorageArgs::All, Ok(())), Err(Error::BadOrigin));
    assert_eq!(s.user_info.len(), 2);
    assert_eq!(s.marketplace_id, Some([1u8; 32]));
    assert_eq!(kill_storage(&mut s, Origin::Unsigned, KillStorageArgs::AfloatAssetId, Ok(())), Err(Error::BadOrigin));
    assert_eq!(s.asset_id, Some(3));
}

#[test]
fn kill_storage_wipes_only_the_named_item() {
    let mut s = storage(2);
    assert_eq!(kill_storage(&mut s, Origin::Root, KillStorageArgs::AfloatMarketPlaceId, Ok(())), Ok(()));
    assert_eq!(s.marketplace_id, None);
    assert_eq!((s.collection_id, s.asset_id), (Some(2), Some(3)));
    assert_eq!((s.user_info.len(), s.offers.len(), s.transactions.len()), (2, 2, 1));
    assert_eq!(kill_storage(&mut s, Origin::Root, KillStorageArgs::AfloatOffers, Ok(())), Ok(()));
    assert!(s.offers.is_empty());
    assert_eq!(s.transactions.len(), 1);
    assert_eq!(kill_storage(&mut s, Origin::Root, KillStorageArgs::UserInfo, Ok(())), Ok(()));
    assert!(s.user_info.is_empty());
    assert_eq!(s.collection_id, Some(2));
}

#[test]
fn kill_storage_all_stops_when_users_cannot_be_deleted() {
    let mut s = storage(2);
    let r = kill_storage(&mut s, Origin::Root, KillStorageArgs::All, Err(Error::UserNotFound));
    assert_eq!(r, Err(Error::UserNotFound));
    assert_eq!((s.user_info.len(), s.offers.len()), (2, 2));
    assert_eq!(s.collection_id, Some(2));
    // Only a wipe that deletes the users reads how their deletion went.
    assert_eq!(kill_storage(&mut s, Origin::Root, KillStorageArgs::AfloatCollectionId, Err(Error::UserNotFound)), Ok(()));
    assert_eq!(s.collection_id, None);
    assert_eq!(kill_storage(&mut s, Origin::Root, KillStorageArgs::All, Ok(())), Ok(()));
    assert!(s.user_info.is_empty() && s.offers.is_empty() && s.transactions.is_empty());
    assert_eq!((s.marketplace_id, s.collection_id, s.asset_id), (None, None, None));
}

#[test]
fn offers_are_cleared_a_thousand_at_a_time() {
    assert_eq!(CLEAR_LIMIT, 1000);
    let mut s = storage(1003);
    assert_eq!(kill_storage(&mut s, Origin::Root, KillStorageArgs::AfloatOffers, Ok(())), Ok(()));
    assert_eq!(s.offers.len(), 3);
    assert_eq!(s.offers[0].0, [(1000 % 256) as u8; 32]);
    assert_eq!(kill_storage(&mut s, Origin::Root, KillStorageArgs::AfloatOffers, Ok(())), Ok(()));
    assert!(s.offers.is_empty());
}

#[test]
fn a_call_stops_at_its_first_failing_step() {
    let args = InitialSetupArgs::All { creator: 1, admin: 2, asset: 7u32 };
    let steps = initial_setup(Origin::Root, args).unwrap();
    assert_eq!(run_steps(&steps, &vec![]), (1, None));
    assert_eq!(run_steps(&steps, &vec![Ok(()), Ok(())]), (3, None));
    let r = run_steps(&steps, &vec![Ok(()), Err(Error::MarketplaceNotInitialized), Ok(())]);
    assert_eq!(r, (2, Some(Err(Error::MarketplaceNotInitialized))));
    assert_eq!(run_steps(&steps, &vec![Ok(()); 7]), (7, Some(Ok(()))));
    assert_eq!(run_steps::<u32>(&vec![], &vec![]), (0, Some(Ok(()))));
}

#[test]
fn sign_up_creates_the_caller() {
    let args = SignUpArgs::BuyerOrSeller { cid: vec![1], cid_creator: vec![2], group: vec![3] };
    let steps = sign_up::<u32>(Origin::Signed(5), args.clone()).unwrap();
    assert_eq!(steps, vec![Step::CreateUser { creator: 5, who: 5, args: args.clone() }]);
    assert_eq!(sign_up::<u32>(Origin::Root, args).unwrap_err(), Error::BadOrigin);
}

#[test]
fn a_user_edits_its_own_profile_only() {
    let edit = UpdateUserArgs::Edit { cid: vec![1], cid_creator: vec![2] };
    let steps = update_user_info::<u32>(Origin::Signed(5), 5, edit.clone(), Ok(false), true).unwrap();
    assert_eq!(steps, vec![Step::EditUser { who: 5, address: 5, cid: vec![1], cid_creator: vec![2] }]);
    let r = update_user_info::<u32>(Origin::Signed(5), 6, edit.clone(), Ok(false), true);
    assert_eq!(r.unwrap_err(), Error::Unauthorized);
    let r = update_user_info::<u32>(Origin::Signed(5), 5, UpdateUserArgs::Delete, Ok(false), true);
    assert_eq!(r.unwrap_err(), Error::Unauthorized);
    let r = update_user_info::<u32>(Origin::Signed(5), 6, edit.clone(), Ok(true), false);
    assert_eq!(r.unwrap_err(), Error::UserNotFound);
    let r = update_user_info::<u32>(Origin::Signed(5), 6, edit.clone(), Err(Error::NotInitialized), true);
    assert_eq!(r.unwrap_err(), Error::NotInitialized);
    let r = update_user_info::<u32>(Origin::Root, 6, edit, Ok(true), true);
    assert_eq!(r.unwrap_err(), Error::BadOrigin);
}

#[test]
fn an_admin_edits_and_deletes_any_profile() {
    let args = UpdateUserArgs::AdminEdit { cid: vec![1], cid_creator: vec![2], group: vec![3] };
    let steps = update_user_info::<u32>(Origin::Signed(1), 6, args, Ok(true), true).unwrap();
    assert_eq!(
        steps,
        vec![Step::AdminEditUser { who: 1, address: 6, cid: vec![1], cid_creator: vec![2], group: vec![3] }]
    );
    let steps = update_user_info::<u32>(Origin::Signed(1), 6, UpdateUserArgs::Delete, Ok(true), true).unwrap();
    assert_eq!(steps, vec![Step::DeleteUser { who: 1, address: 6 }]);
}

#[test]
fn offers_and_transactions_are_signed_calls() {
    let sell = CreateOfferArgs::Sell { tax_credit_amount: 10, tax_credit_id: 3, price_per_credit: 5, expiration_date: 99 };
    let steps = create_offer::<u32>(Origin::Signed(4), sell).unwrap();
    assert_eq!(
        steps,
        vec![Step::CreateSellOrder {
            who: 4,
            tax_credit_id: 3,
            price_per_credit: 5,
            tax_credit_amount: 10,
            expiration_date: 99
        }]
    );
    let buy = CreateOfferArgs::Buy { tax_credit_amount: 1, tax_credit_id: 2, price_per_credit: 3, expiration_date: 4 };
    let steps = create_offer::<u32>(Origin::Signed(4), buy).unwrap();
    assert!(matches!(steps[0], Step::CreateBuyOrder { who: 4, tax_credit_id: 2, .. }));
    assert_eq!(create_offer::<u32>(Origin::Root, buy).unwrap_err(), Error::BadOrigin);
    let id = [8u8; 32];
    assert_eq!(
        start_take_sell_order::<u32>(Origin::Signed(4), id, 3).unwrap(),
        vec![Step::StartTakeSellOrder { who: 4, offer_id: id, tax_credit_amount: 3 }]
    );
    assert_eq!(
        confirm_sell_transaction::<u32>(Origin::Signed(4), id).unwrap(),
        vec![Step::ConfirmSellTransaction { who: 4, transaction_id: id }]
    );
    assert_eq!(
        finish_take_sell_transaction::<u32>(Origin::Signed(4), id).unwrap(),
        vec![Step::FinishTakeSellTransaction { who: 4, transaction_id: id }]
    );
    assert_eq!(cancel_offer::<u32>(Origin::Signed(4), id).unwrap(), vec![Step::CancelOffer { who: 4, order_id: id }]);
    assert_eq!(cancel_offer::<u32>(Origin::Unsigned, id).unwrap_err(), Error::BadOrigin);
    assert_eq!(start_take_sell_order::<u32>(Origin::Root, id, 3).unwrap_err(), Error::BadOrigin);
    let steps = create_tax_credit::<u32>(Origin::Signed(4), vec![1, 2], None, None).unwrap();
    assert_eq!(
        steps,
        vec![Step::CreateTaxCredit { who: 4, metadata: vec![1, 2], attributes: None, parent_info: None }]
    );
    assert_eq!(create_tax_credit::<u32>(Origin::Root, vec![], None, None).unwrap_err(), Error::BadOrigin);
}

#[test]
fn admin_calls_check_the_caller() {
    let steps = set_afloat_balance::<u32>(Origin::Signed(1), 2, 500, Ok(true)).unwrap();
    assert_eq!(steps, vec![Step::SetAfloatBalance { who: 1, beneficiary: 2, amount: 500 }]);
    assert_eq!(set_afloat_balance::<u32>(Origin::Signed(1), 2, 500, Ok(false)).unwrap_err(), Error::Unauthorized);
    assert_eq!(
        set_afloat_balance::<u32>(Origin::Signed(1), 2, 500, Err(Error::MarketPlaceIdNotFound)).unwrap_err(),
        Error::MarketPlaceIdNotFound
    );
    assert_eq!(set_afloat_balance::<u32>(Origin::Root, 2, 500, Ok(true)).unwrap_err(), Error::BadOrigin);
    let steps = add_afloat_admin::<u32>(Origin::Signed(1), 9, Ok(true)).unwrap();
    assert_eq!(steps, vec![Step::AddAfloatAdmin { who: 1, admin: 9 }]);
    assert_eq!(add_afloat_admin::<u32>(Origin::Signed(1), 9, Ok(false)).unwrap_err(), Error::Unauthorized);
}

#[test]
fn assigning_a_role_needs_a_profile() {
    let steps = assign_user_to_role::<u32>(Origin::Signed(1), 7, AfloatRole::CPA, Ok(true), true).unwrap();
    assert_eq!(
        steps,
        vec![
            Step::GiveRoleToUser { who: 7, role: AfloatRole::CPA },
            Step::DepositEvent(Event::UserAssignedToRoleAdded(1, 7, AfloatRole::CPA)),
        ]
    );
    let r = assign_user_to_role::<u32>(Origin::Signed(1), 7, AfloatRole::CPA, Ok(true), false);
    assert_eq!(r.unwrap_err(), Error::UserNotFound);
    let r = assign_user_to_role::<u32>(Origin::Signed(1), 7, AfloatRole::CPA, Ok(false), false);
    assert_eq!(r.unwrap_err(), Error::Unauthorized);
    let r = assign_user_to_role::<u32>(Origin::Unsigned, 7, AfloatRole::CPA, Ok(true), true);
    assert_eq!(r.unwrap_err(), Error::BadOrigin);
}

// The marketplace's owner is account 1 and its admin account 2; accounts 3
// and 4 are plain users. The role check on the caller is handed in as it
// answers for those accounts.

fn profile() -> SignUpArgs {
    SignUpArgs::BuyerOrSeller { cid: b"cid".to_vec(), cid_creator: b"cid_creator".to_vec(), group: b"Group".to_vec() }
}

fn is_admin_or_owner(who: u64) -> Result<bool, Error> {
    Ok(who == 1 || who == 2)
}

#[test]
fn sign_up_works() {
    let steps = sign_up::<u32>(Origin::Signed(3), profile()).unwrap();
    assert_eq!(steps, vec![Step::CreateUser { creator: 3, who: 3, args: profile() }]);
}

#[test]
fn update_user_info_edit_works() {
    let args = UpdateUserArgs::Edit { cid: b"New".to_vec(), cid_creator: b"User".to_vec() };
    let steps = update_user_info::<u32>(Origin::Signed(3), 3, args, is_admin_or_owner(3), true).unwrap();
    assert_eq!(
        steps,
        vec![Step::EditUser { who: 3, address: 3, cid: b"New".to_vec(), cid_creator: b"User".to_vec() }]
    );
}

#[test]
fn update_other_user_info_by_not_admin_fails() {
    let args = UpdateUserArgs::Edit { cid: b"New".to_vec(), cid_creator: b"User".to_vec() };
    let r = update_user_info::<u32>(Origin::Signed(4), 3, args, is_admin_or_owner(4), true);
    assert_eq!(r.unwrap_err(), Error::Unauthorized);
}

#[test]
fn update_other_user_info_by_admin_works() {
    let args = UpdateUserArgs::Edit { cid: b"New".to_vec(), cid_creator: b"User".to_vec() };
    let steps = update_user_info::<u32>(Origin::Signed(2), 3, args, is_admin_or_owner(2), true).unwrap();
    assert_eq!(
        steps,
        vec![Step::EditUser { who: 2, address: 3, cid: b"New".to_vec(), cid_creator: b"User".to_vec() }]
    );
}

#[test]
fn update_user_info_delete_works() {
    let steps =
        update_user_info::<u32>(Origin::Signed(2), 3, UpdateUserArgs::Delete, is_admin_or_owner(2), true).unwrap();
    assert_eq!(steps, vec![Step::DeleteUser { who: 2, address: 3 }]);
}

#[test]
fn set_afloat_balance_works() {
    let steps = set_afloat_balance::<u32>(Origin::Signed(1), 3, 10000, is_admin_or_owner(1)).unwrap();
    assert_eq!(steps, vec![Step::SetAfloatBalance { who: 1, beneficiary: 3, amount: 10000 }]);
    let steps = set_afloat_balance::<u32>(Origin::Signed(1), 3, 1000, is_admin_or_owner(1)).unwrap();
    assert_eq!(steps, vec![Step::SetAfloatBalance { who: 1, beneficiary: 3, amount: 1000 }]);
}

#[test]
fn set_balance_by_other_than_owner_fails() {
    let r = set_afloat_balance::<u32>(Origin::Signed(3), 4, 10000, is_admin_or_owner(3));
    assert_eq!(r.unwrap_err(), Error::Unauthorized);
    let r = set_afloat_balance::<u32>(Origin::Signed(4), 4, 10000, is_admin_or_owner(4));
    assert_eq!(r.unwrap_err(), Error::Unauthorized);
}

#[test]
fn create_tax_credit_works() {
    let steps = create_tax_credit::<u32>(Origin::Signed(3), b"dummy description".to_vec(), None, None).unwrap();
    assert_eq!(
        steps,
        vec![Step::CreateTaxCredit {
            who: 3,
            metadata: b"dummy description".to_vec(),
            attributes: None,
            parent_info: None
        }]
    );
}

#[test]
fn create_sell_order_works() {
    let args = CreateOfferArgs::Sell { tax_credit_id: 0, price_per_credit: 10000, tax_credit_amount: 10, expiration_date: 1000 };
    let steps = create_offer::<u32>(Origin::Signed(3), args).unwrap();
    assert_eq!(
        steps,
        vec![Step::CreateSellOrder {
            who: 3,
            tax_credit_id: 0,
            price_per_credit: 10000,
            tax_credit_amount: 10,
            expiration_date: 1000
        }]
    );
}

#[test]
fn create_buy_order_works() {
    set_afloat_balance::<u32>(Origin::Signed(1), 4, 100000, is_admin_or_owner(1)).unwrap();
    let args = CreateOfferArgs::Buy { tax_credit_id: 0, price_per_credit: 10000, tax_credit_amount: 10, expiration_date: 1000 };
    let steps = create_offer::<u32>(Origin::Signed(4), args).unwrap();
    assert_eq!(
        steps,
        vec![Step::CreateBuyOrder {
            who: 4,
            tax_credit_id: 0,
            price_per_credit: 10000,
            tax_credit_amount: 10,
            expiration_date: 1000
        }]
    );
}
