use hashed_pallets::common::Origin;
use hashed_pallets::fruniques::{Error, FruniqueRole, FruniquesCall, Pallet, ParentInfo};
use hashed_pallets::fruniques_migration::{MigrateToV1, MigrationPlan};
use hashed_pallets::per_things::Permill;
use hashed_pallets::weights::{RuntimeDbWeight, Weight};
use parity_scale_codec::Encode;

/// Creates a collection, every call it makes succeeding.
fn create_collection(p: &mut Pallet, origin: Origin, metadata: Vec<u8>, admin: u64) -> Result<(u32, Vec<FruniquesCall>), Error> {
    let (calls, end) = p.do_create_collection(origin, metadata, admin, &vec![Ok(()); 4]);
    match end {
        Some(Ok(class)) => Ok((class, calls)),
        Some(Err(e)) => Err(e),
        None => panic!("every call was answered"),
    }
}

/// Spawns a frunique, every uniques call of its mint succeeding.
fn spawn(
    p: &mut Pallet,
    collection: u32,
    owner: u64,
    metadata: Vec<u8>,
    attributes: Option<Vec<(Vec<u8>, Vec<u8>)>>,
    parent: Option<ParentInfo>,
) -> Result<Vec<FruniquesCall>, Error> {
    let (calls, end) = p.do_spawn(collection, owner, metadata, attributes, parent, &vec![Ok(()); 16]);
    match end {
        Some(Ok(())) => Ok(calls),
        Some(Err(e)) => Err(e),
        None => panic!("every call was answered"),
    }
}

fn setup() -> (Pallet, u32) {
    let mut p = Pallet::new(10);
    let (class, calls) = create_collection(&mut p, Origin::Signed(1), b"collection".to_vec(), 2).unwrap();
    assert_eq!(calls.len(), 4);
    (p, class)
}

#[test]
fn create_collection_takes_next_id_and_requires_signed_origin() {
    let mut p = Pallet::new(10);
    assert_eq!(create_collection(&mut p, Origin::Root, vec![], 2).unwrap_err(), Error::BadOrigin);
    let (class, calls) = create_collection(&mut p, Origin::Signed(7), b"m".to_vec(), 8).unwrap();
    assert_eq!(class, 0);
    assert_eq!(p.next_collection(), 1);
    assert!(p.collection_exists(0));
    let scope = sp_io::hashing::blake2_256(&0u32.encode());
    assert_eq!(Pallet::collection_scope(0), scope);
    match &calls[1] {
        FruniquesCall::AssignRole { user, scope: s, role } => {
            assert_eq!(*user, 7);
            assert_eq!(*s, scope);
            assert_eq!(*role, FruniqueRole::Owner);
        },
        _ => panic!("unexpected call"),
    }
    let (class2, _) = create_collection(&mut p, Origin::Signed(7), b"m".to_vec(), 8).unwrap();
    assert_eq!(class2, 1);
}

#[test]
fn spawn_root_and_child_divides_weight() {
    let (mut p, class) = setup();
    let attrs = Some(vec![(b"k".to_vec(), b"v".to_vec())]);
    let calls = spawn(&mut p, class, 3, b"parent".to_vec(), attrs, None).unwrap();
    assert_eq!(calls.len(), 3);
    assert!(p.instance_exists(class, 0));
    assert_eq!(p.admin_of(class, 0), Some(3));
    assert!(p.frunique_roots(class, 0));
    assert_eq!(p.frunique_info(class, 0).unwrap().weight.deconstruct(), 1_000_000);
    assert_eq!(p.get_nft_metadata(class, 0), b"parent".to_vec());

    let parent = ParentInfo {
        collection_id: class,
        parent_id: 0,
        parent_weight: Permill::from_percent(30),
        is_hierarchical: true,
    };
    spawn(&mut p, class, 4, b"child".to_vec(), None, Some(parent)).unwrap();
    assert_eq!(p.next_frunique(class), 2);
    let child = p.frunique_info(class, 1).unwrap();
    assert_eq!(child.weight.deconstruct(), 1_000_000);
    assert_eq!(child.parent.unwrap().parent_weight.deconstruct(), 300_000);
    let parent_data = p.frunique_info(class, 0).unwrap();
    assert_eq!(parent_data.weight.deconstruct(), 700_000);
    assert_eq!(parent_data.children.as_ref().unwrap().len(), 1);
    assert_eq!(parent_data.children.as_ref().unwrap()[0].child_id, 1);
    assert!(!p.frunique_roots(class, 1));

    // A grandchild inherits half of the child's full weight.
    let grand = ParentInfo {
        collection_id: class,
        parent_id: 1,
        parent_weight: Permill::from_percent(50),
        is_hierarchical: false,
    };
    spawn(&mut p, class, 5, b"grandchild".to_vec(), None, Some(grand)).unwrap();
    assert_eq!(p.frunique_info(class, 1).unwrap().weight.deconstruct(), 500_000);
    assert_eq!(p.frunique_info(class, 2).unwrap().parent.unwrap().parent_weight.deconstruct(), 500_000);
}

#[test]
fn spawn_errors_leave_state_unchanged() {
    let (mut p, class) = setup();
    assert_eq!(spawn(&mut p, 99, 3, vec![], None, None).unwrap_err(), Error::CollectionNotFound);
    let missing = ParentInfo { collection_id: class, parent_id: 5, parent_weight: Permill::from_percent(10), is_hierarchical: false };
    assert_eq!(spawn(&mut p, class, 3, vec![], None, Some(missing)).unwrap_err(), Error::FruniqueNotFound);
    assert_eq!(p.next_frunique(class), 0);
    assert!(!p.instance_exists(class, 0));
}

#[test]
fn redeem_freezes_and_blocks_division() {
    let (mut p, class) = setup();
    spawn(&mut p, class, 3, vec![1], None, None).unwrap();
    assert_eq!(p.do_redeem(class, 0), Ok(()));
    assert!(p.is_frozen(class, 0));
    assert!(p.frunique_redeemed(class, 0));
    assert_eq!(p.do_redeem(class, 0), Err(Error::FruniqueFrozen));
    let parent = ParentInfo { collection_id: class, parent_id: 0, parent_weight: Permill::from_percent(10), is_hierarchical: false };
    assert_eq!(spawn(&mut p, class, 3, vec![], None, Some(parent)).unwrap_err(), Error::ParentFrozen);
    assert_eq!(p.do_thaw(class, 0), Ok(()));
    assert_eq!(p.do_redeem(class, 0), Err(Error::FruniqueAlreadyRedeemed));
    assert_eq!(spawn(&mut p, class, 3, vec![], None, Some(parent)).unwrap_err(), Error::ParentAlreadyRedeemed);
    assert_eq!(p.do_redeem(class, 7), Err(Error::FruniqueNotFound));
    assert_eq!(p.do_redeem(42, 0), Err(Error::CollectionNotFound));
}

#[test]
fn freeze_and_thaw() {
    let (mut p, class) = setup();
    assert_eq!(p.do_freeze(class, 0), Err(Error::FruniqueNotFound));
    spawn(&mut p, class, 3, vec![], None, None).unwrap();
    assert_eq!(p.do_freeze(class, 0), Ok(()));
    assert!(p.is_frozen(class, 0));
    assert_eq!(p.do_thaw(class, 0), Ok(()));
    assert!(!p.is_frozen(class, 0));
}

#[test]
fn children_are_bounded() {
    let mut p = Pallet::new(1);
    let (class, _) = create_collection(&mut p, Origin::Signed(1), vec![], 1).unwrap();
    spawn(&mut p, class, 3, vec![], None, None).unwrap();
    let parent = ParentInfo { collection_id: class, parent_id: 0, parent_weight: Permill::from_percent(10), is_hierarchical: false };
    spawn(&mut p, class, 3, vec![], None, Some(parent)).unwrap();
    assert_eq!(spawn(&mut p, class, 3, vec![], None, Some(parent)).unwrap_err(), Error::MaxNumberOfChildrenReached);
    assert_eq!(p.next_frunique(class), 2);
}

#[test]
fn burn_needs_an_owner() {
    let (mut p, class) = setup();
    assert_eq!(p.burn(Origin::Signed(3), class, 0, Ok(())).1, Err(Error::InstanceNotOwned));
    spawn(&mut p, class, 3, vec![], None, None).unwrap();
    let (calls, r) = p.burn(Origin::Signed(3), class, 0, Ok(()));
    r.unwrap();
    match calls[0] {
        FruniquesCall::Burn { check_owner, item, .. } => {
            assert_eq!(check_owner, 3);
            assert_eq!(item, 0);
        },
        _ => panic!("unexpected call"),
    }
    assert!(!p.instance_exists(class, 0));
}

#[test]
fn mint_calls_carry_metadata_and_attributes() {
    let (mut p, class) = setup();
    let (calls, end) = p.do_mint(class, 9, b"md".to_vec(), Some(vec![(b"a".to_vec(), b"b".to_vec())]), &vec![Ok(()); 3]);
    assert_eq!(end, Some(Ok(())));
    match &calls[1] {
        FruniquesCall::SetMetadata { metadata, item, .. } => {
            assert_eq!(metadata, &b"md".to_vec());
            assert_eq!(*item, 0);
        },
        _ => panic!("unexpected call"),
    }
    match &calls[2] {
        FruniquesCall::SetAttribute { key, value, .. } => {
            assert_eq!(key, &b"a".to_vec());
            assert_eq!(value, &b"b".to_vec());
        },
        _ => panic!("unexpected call"),
    }
    assert_eq!(p.next_frunique(class), 1);
    assert!(p.frunique_info(class, 0).is_none());
}

#[test]
fn conversions() {
    assert_eq!(Pallet::percent_to_permill(25).deconstruct(), 250_000);
    assert_eq!(Pallet::percent_to_permill(250).deconstruct(), 1_000_000);
    assert_eq!(Pallet::permill_to_percent(Permill::from_parts(123)), 123);
    assert_eq!(Permill::from_parts(5_000_000).deconstruct(), 1_000_000);
    assert_eq!(Permill::from_parts(500_000).mul(Permill::from_parts(3)).deconstruct(), 1);
    assert_eq!(Permill::from_parts(500).sub(Permill::from_parts(200)).deconstruct(), 300);
    assert_eq!(Pallet::bytes_to_u32(vec![1, 2, 3, 4]), u32::from_ne_bytes([1, 2, 3, 4]));
    assert_eq!(Pallet::bytes_to_string(vec![72, 105, 233]), "Hi\u{e9}".to_string());
    assert_eq!(Pallet::u32_to_instance_id(7), 7);
    assert_eq!(Pallet::u32_to_class_id(8), 8);
    match Pallet::remove_auth_from_frunique_collection(4, 2, FruniqueRole::Holder) {
        FruniquesCall::RemoveRole { user, scope, role } => {
            assert_eq!(user, 4);
            assert_eq!(scope, sp_io::hashing::blake2_256(&[2, 0, 0, 0]));
            assert_eq!(role, FruniqueRole::Holder);
        },
        _ => panic!("unexpected call"),
    }
}

#[test]
fn migration_runs_once() {
    let db = RuntimeDbWeight { read: 10, write: 100 };
    let (plan, w) = MigrateToV1::on_runtime_upgrade(0, db);
    assert_eq!(plan, MigrationPlan {
        kill_frunique_cnt: true,
        clear_frunique_parent: true,
        clear_frunique_child: true,
        new_version: Some(1),
    });
    assert_eq!(w, Weight { ref_time: 140, proof_size: 0 });
    let (plan, w) = MigrateToV1::on_runtime_upgrade(1, db);
    assert_eq!(plan.new_version, None);
    assert!(!plan.kill_frunique_cnt);
    assert_eq!(w, Weight { ref_time: 100, proof_size: 0 });
}

#[test]
fn initial_setup_goes_through_the_role_groups() {
    let (calls, end) = Pallet::do_initial_setup(&vec![]);
    assert_eq!(end, None);
    assert_eq!(calls.len(), 1);
    assert!(matches!(calls[0], FruniquesCall::CreateAndSetRoles { group: FruniqueRole::Owner }));
    // Two owner roles, then one role for each other group; every call succeeds.
    let answers = vec![
        Ok(vec![[1u8; 32], [2u8; 32]]),
        Ok(vec![]),
        Ok(vec![]),
        Ok(vec![[3u8; 32]]),
        Ok(vec![]),
        Ok(vec![]),
        Ok(vec![]),
        Ok(vec![]),
    ];
    let (calls, end) = Pallet::do_initial_setup(&answers);
    assert_eq!(end, Some(Ok(())));
    assert_eq!(calls.len(), 8);
    match &calls[2] {
        FruniquesCall::CreateAndSetPermissions { role, group } => {
            assert_eq!(*role, [2u8; 32]);
            assert_eq!(*group, FruniqueRole::Owner);
        },
        other => panic!("unexpected call {:?}", other),
    }
    assert!(matches!(calls[3], FruniquesCall::CreateAndSetRoles { group: FruniqueRole::Admin }));
    assert!(matches!(calls[4], FruniquesCall::CreateAndSetPermissions { group: FruniqueRole::Admin, .. }));
    assert!(matches!(calls[5], FruniquesCall::CreateAndSetRoles { group: FruniqueRole::Collaborator }));
    assert!(matches!(calls[7], FruniquesCall::CreateAndSetRoles { group: FruniqueRole::Holder }));
}

#[test]
fn initial_setup_stops_at_the_first_error() {
    let answers = vec![Ok(vec![[1u8; 32]]), Err(Error::AccessControl(4)), Ok(vec![])];
    let (calls, end) = Pallet::do_initial_setup(&answers);
    assert_eq!(end, Some(Err(Error::AccessControl(4))));
    assert_eq!(calls.len(), 2);
    assert!(matches!(calls[1], FruniquesCall::CreateAndSetPermissions { group: FruniqueRole::Owner, .. }));
}

#[test]
fn set_attribute_forwards_the_origin() {
    match Pallet::set_attribute(Origin::Signed(4), 1, 2, b"k".to_vec(), b"v".to_vec()) {
        FruniquesCall::SetAttribute { origin, collection, item, key, value } => {
            assert_eq!(origin, Origin::Signed(4));
            assert_eq!((collection, item), (1, 2));
            assert_eq!((key, value), (b"k".to_vec(), b"v".to_vec()));
        },
        other => panic!("unexpected call {:?}", other),
    }
}

#[test]
fn fruniques_pallet_id_is_the_module_name() {
    match Pallet::pallet_id(&b"Fruniques".to_vec()) {
        hashed_pallets::rbac::IdOrVec::Vec(v) => assert_eq!(v, b"Fruniques".to_vec()),
        hashed_pallets::rbac::IdOrVec::Id(_) => panic!("the pallet id is built from the name"),
    }
}

#[test]
fn create_collection_stops_at_the_first_refused_call() {
    let mut p = Pallet::new(10);
    let (calls, end) = p.do_create_collection(Origin::Signed(7), b"m".to_vec(), 8, &vec![Ok(())]);
    assert_eq!(end, None);
    assert_eq!(calls.len(), 2);
    assert!(matches!(calls[1], FruniquesCall::AssignRole { user: 7, role: FruniqueRole::Owner, .. }));
    assert!(!p.collection_exists(0));
    let (calls, end) =
        p.do_create_collection(Origin::Signed(7), b"m".to_vec(), 8, &vec![Ok(()), Ok(()), Err(Error::AccessControl(9))]);
    assert_eq!(end, Some(Err(Error::AccessControl(9))));
    assert_eq!(calls.len(), 3);
    assert!(matches!(calls[2], FruniquesCall::CreateCollection { collection: 0, owner: 7, admin: 8 }));
    assert!(!p.collection_exists(0));
    assert_eq!(p.next_collection(), 0);
}

#[test]
fn a_refused_uniques_call_records_nothing() {
    let (mut p, class) = setup();
    let (calls, end) = p.do_mint(class, 9, b"md".to_vec(), None, &vec![Err(Error::Uniques(2))]);
    assert_eq!(end, Some(Err(Error::Uniques(2))));
    assert_eq!(calls.len(), 1);
    assert!(matches!(calls[0], FruniquesCall::Mint { item: 0, owner: 9, .. }));
    assert!(!p.instance_exists(class, 0));
    assert_eq!(p.next_frunique(class), 0);
    let (calls, end) = p.do_spawn(class, 9, b"md".to_vec(), None, None, &vec![Ok(())]);
    assert_eq!(end, None);
    assert_eq!(calls.len(), 2);
    assert!(p.frunique_info(class, 0).is_none());
    spawn(&mut p, class, 9, vec![], None, None).unwrap();
    let (calls, r) = p.burn(Origin::Signed(9), class, 0, Err(Error::Uniques(7)));
    assert_eq!(calls.len(), 1);
    assert_eq!(r, Err(Error::Uniques(7)));
    assert!(p.instance_exists(class, 0));
}
