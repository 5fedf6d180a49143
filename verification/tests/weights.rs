use hashed_pallets::weights::{rocks_db_weight, RuntimeDbWeight, SubstrateWeight, Weight, WeightInfo};

#[test]
fn rocks_db_weights_are_25_and_100_micros() {
    let db = rocks_db_weight();
    assert_eq!(db.read, 25_000_000);
    assert_eq!(db.write, 100_000_000);
    assert_eq!(db.reads_writes(4, 1), Weight { ref_time: 200_000_000, proof_size: 0 });
}

#[test]
fn create_and_set_roles_weight() {
    let w = SubstrateWeight::new(rocks_db_weight()).tx_create_and_set_roles(1, 2, 3);
    let ref_time = 10_614_753u64 + 317_911 * 2 + 5_601_016 * 3 + 25_000_000 + 25_000_000 * 3
        + 100_000_000 + 100_000_000 * 3;
    assert_eq!(w, Weight { ref_time, proof_size: 5098 + 2558 * 3 });
    assert_eq!(().tx_create_and_set_roles(1, 2, 3), w);
}

#[test]
fn remove_role_from_user_weight() {
    let db = RuntimeDbWeight { read: 1, write: 10 };
    let w = SubstrateWeight::new(db).tx_remove_role_from_user(5, 2, 7);
    let ref_time = 55_383_876u64 + 10_464 * 5 + 975_224 * 2 + 82_973 * 7 + 2 + 20;
    assert_eq!(w, Weight { ref_time, proof_size: 19563 });
}

#[test]
fn other_weights_with_zero_db() {
    let s = SubstrateWeight::new(RuntimeDbWeight { read: 0, write: 0 });
    assert_eq!(s.tx_create_and_set_permissions(9, 3, 4), Weight {
        ref_time: 43_151_000 + 283_746 * 3 + 6_188_777 * 4,
        proof_size: 6731 + 2590 * 4,
    });
    assert_eq!(s.tx_assign_role_to_user(1, 2, 3, 4), Weight {
        ref_time: 58_811_667 + 49_726 + 56_844 * 2 + 911_702 * 3 + 100_764 * 4,
        proof_size: 19563,
    });
    assert_eq!(s.revoke_permission_from_role(1, 2, 3), Weight {
        ref_time: 49_544_932 + 54_049 * 2 + 63_399 * 3,
        proof_size: 6731,
    });
    assert_eq!(s.remove_permission_from_pallet(1, 2, 3, 4, 5), Weight {
        ref_time: 54_679_000 + 2_071_084 * 3 + 13_534_746 * 5,
        proof_size: 6731 + 5741 * 5,
    });
    assert_eq!(s.remove_pallet_permissions(1, 2, 3), Weight {
        ref_time: 4_366_435_000 + 3_973_731_500 * 2 + 767_998_348 * 3,
        proof_size: 288040 + 204303 * 2,
    });
}

#[test]
fn weights_saturate() {
    let s = SubstrateWeight::new(RuntimeDbWeight { read: u64::MAX, write: 1 });
    let w = s.tx_remove_role_from_user(0, 0, 0);
    assert_eq!(w.ref_time, u64::MAX);
    let w = Weight::from_parts(u64::MAX - 1, 3).saturating_add(Weight::from_parts(5, u64::MAX));
    assert_eq!(w, Weight { ref_time: u64::MAX, proof_size: u64::MAX });
    let w = Weight::from_parts(1 << 40, 2).saturating_mul(1 << 30);
    assert_eq!(w, Weight { ref_time: u64::MAX, proof_size: 1 << 31 });
}
