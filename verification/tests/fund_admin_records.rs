use hashed_pallets::common::Origin;
use hashed_pallets::fund_admin_records::{
    record_id, Error, Event, Pallet, Record, RecordType, TableType,
};
use parity_scale_codec::Encode;

fn make_record(project_id: &str, hashed_info: &str, table: TableType, record_type: RecordType) -> Record {
    (project_id.as_bytes().to_vec(), hashed_info.as_bytes().to_vec(), table, record_type)
}

#[test]
fn set_signer_account_works() {
    let mut pallet = Pallet::new(10);
    let signer_account = 1;
    assert_eq!(pallet.set_signer_account(Origin::Root, signer_account), Ok(()));
    assert_eq!(pallet.signer_account(), Some(signer_account));
}

#[test]
fn cannot_add_record_if_signer_account_is_not_set() {
    let mut pallet = Pallet::new(10);
    let records = vec![make_record(
        "project_id_testing",
        "hashed_info_testing",
        TableType::Drawdown,
        RecordType::Creation,
    )];
    assert_eq!(pallet.add_record(Origin::Signed(1), &records, 1_000), Err(Error::SignerAccountNotSet));
    assert!(pallet.events().is_empty());
}

#[test]
fn add_drawdown_record_works() {
    let mut pallet = Pallet::new(10);
    let signer_account = 1;
    let project_id = b"project_id_testing".to_vec();
    let hashed_info = b"hashed_info_testing".to_vec();
    let table_type = TableType::Drawdown;
    let record_type = RecordType::Creation;
    let records = vec![(project_id.clone(), hashed_info.clone(), table_type, record_type)];

    assert_eq!(pallet.set_signer_account(Origin::Root, signer_account), Ok(()));
    assert_eq!(pallet.add_record(Origin::Signed(signer_account), &records, 1_000), Ok(()));

    let record_id = match &pallet.events()[0] {
        Event::RecordAdded(_, _, _, id) => *id,
    };
    let record_data = pallet.records(&project_id, table_type, &record_id).unwrap();
    assert_eq!(record_data.project_id, project_id);
    assert_eq!(record_data.hashed_info, hashed_info);
    assert_eq!(record_data.table_type, table_type);
    assert_eq!(record_data.record_type, record_type);
}

#[test]
fn record_id_is_blake2_of_encoded_project_id_and_date() {
    let project_id = b"project".to_vec();
    let expected = sp_io::hashing::blake2_256(&(project_id.clone(), 42u64).encode());
    assert_eq!(record_id(&project_id, 42), expected);
    let mut encoded = vec![7u8 << 2];
    encoded.extend_from_slice(b"project");
    encoded.extend_from_slice(&42u64.to_le_bytes());
    assert_eq!((project_id.clone(), 42u64).encode(), encoded);
    assert_ne!(record_id(&project_id, 42), record_id(&project_id, 43));
}

#[test]
fn add_record_by_other_account_fails() {
    let mut pallet = Pallet::new(10);
    pallet.set_signer_account(Origin::Root, 1).unwrap();
    let records = vec![make_record("p", "h", TableType::Revenue, RecordType::Submit)];
    assert_eq!(pallet.add_record(Origin::Signed(2), &records, 5), Err(Error::SenderIsNotTheSignerAccount));
    assert_eq!(pallet.add_record(Origin::Root, &records, 5), Err(Error::BadOrigin));
    assert_eq!(pallet.set_signer_account(Origin::Signed(1), 2), Err(Error::BadOrigin));
    assert_eq!(pallet.signer_account(), Some(1));
}

#[test]
fn record_validation_errors() {
    let mut pallet = Pallet::new(2);
    pallet.set_signer_account(Origin::Root, 1).unwrap();
    let who = Origin::Signed(1);
    let empty_project = vec![make_record("", "h", TableType::Revenue, RecordType::Submit)];
    assert_eq!(pallet.add_record(who, &empty_project, 5), Err(Error::ProjectIdIsEmpty));
    let empty_hash = vec![make_record("p", "", TableType::Revenue, RecordType::Submit)];
    assert_eq!(pallet.add_record(who, &empty_hash, 5), Err(Error::HashedInfoIsEmpty));
    let long_project = vec![(vec![1u8; 51], b"h".to_vec(), TableType::Revenue, RecordType::Submit)];
    assert_eq!(pallet.add_record(who, &long_project, 5), Err(Error::ProjectIdExceededMaxLength));
    let long_hash = vec![(b"p".to_vec(), vec![1u8; 401], TableType::Revenue, RecordType::Submit)];
    assert_eq!(pallet.add_record(who, &long_hash, 5), Err(Error::HashedInfoExceededMaxLength));
    let too_many = vec![
        make_record("a", "h", TableType::Revenue, RecordType::Submit),
        make_record("b", "h", TableType::Revenue, RecordType::Submit),
        make_record("c", "h", TableType::Revenue, RecordType::Submit),
    ];
    assert_eq!(pallet.add_record(who, &too_many, 5), Err(Error::MaxRegistrationsAtATimeReached));
    assert!(pallet.events().is_empty());
    assert_eq!(pallet.kill_storage(who), Err(Error::BadOrigin));
    assert_eq!(pallet.signer_account(), Some(1));
    assert_eq!(pallet.kill_storage(Origin::Root), Ok(()));
}

#[test]
fn kill_storage_wipes_the_signer_and_the_records() {
    let mut pallet = Pallet::new(10);
    pallet.set_signer_account(Origin::Root, 1).unwrap();
    let longest = vec![(vec![7u8; 50], b"h".to_vec(), TableType::Rebalance, RecordType::Confirm)];
    assert_eq!(pallet.add_record(Origin::Signed(1), &longest, 3), Ok(()));
    let id = record_id(&vec![7u8; 50], 3);
    assert!(pallet.records(&vec![7u8; 50], TableType::Rebalance, &id).is_some());
    assert_eq!(pallet.kill_storage(Origin::Root), Ok(()));
    assert_eq!(pallet.signer_account(), None);
    assert!(pallet.records(&vec![7u8; 50], TableType::Rebalance, &id).is_none());
    assert_eq!(pallet.add_record(Origin::Signed(1), &longest, 4), Err(Error::SignerAccountNotSet));
}

#[test]
fn same_project_and_time_in_one_table_is_rejected_and_nothing_is_added() {
    let mut pallet = Pallet::new(10);
    pallet.set_signer_account(Origin::Root, 1).unwrap();
    let records = vec![
        make_record("p", "h1", TableType::Drawdown, RecordType::Creation),
        make_record("p", "h2", TableType::Revenue, RecordType::Creation),
        make_record("p", "h3", TableType::Drawdown, RecordType::Submit),
    ];
    assert_eq!(pallet.add_record(Origin::Signed(1), &records, 9), Err(Error::IdAlreadyExists));
    assert!(pallet.events().is_empty());
    let id = record_id(&b"p".to_vec(), 9);
    assert!(pallet.records(&b"p".to_vec(), TableType::Drawdown, &id).is_none());
    // Same project at the same time in two tables is accepted.
    assert_eq!(pallet.add_record(Origin::Signed(1), &records[0..2].to_vec(), 9), Ok(()));
    assert_eq!(pallet.events().len(), 2);
    assert!(pallet.records(&b"p".to_vec(), TableType::Drawdown, &id).is_some());
    assert!(pallet.records(&b"p".to_vec(), TableType::Revenue, &id).is_some());
    // A later call at the same time hits the stored id.
    assert_eq!(pallet.add_record(Origin::Signed(1), &records[0..1].to_vec(), 9), Err(Error::IdAlreadyExists));
    assert_eq!(pallet.add_record(Origin::Signed(1), &records[0..1].to_vec(), 10), Ok(()));
}
