use hashed_pallets::bitcoin_vaults::{
    generate_description_sized, generate_output_descriptor_sized, generate_psbt_sized, generate_url_sized,
    generate_xpub_sized, get_proposal_sized, sign_proof_sized, sign_proposal_sized,
};
use hashed_pallets::confidential_docs::{
    generate_cid, generate_doc_desc, generate_doc_name, generate_group_name, generate_owned_doc,
    generate_public_key, generate_shared_doc, generate_user_id, generate_vault_sized,
};
use hashed_pallets::rbac::{
    generate_id, generate_pallet_id_sized, generate_permissions_sized, generate_roles_sized,
    generate_scope_sized, generate_vector, IdOrVec,
};
use parity_scale_codec::Encode;

#[test]
fn a_vector_is_its_prefix_then_its_id() {
    assert_eq!(generate_vector(9, 4, 1), vec![9]);
    assert_eq!(generate_vector(9, 4, 4), vec![9, 4, 4, 4]);
    assert_eq!(generate_scope_sized(7, 3), vec![2, 7, 7]);
    match generate_pallet_id_sized(5, 2) {
        IdOrVec::Vec(v) => assert_eq!(v, vec![0, 5]),
        IdOrVec::Id(_) => panic!("a pallet id is built as bytes"),
    }
}

#[test]
fn roles_and_permissions_are_numbered() {
    let roles = generate_roles_sized(3, 2);
    assert_eq!(roles, vec![vec![1, 0], vec![1, 1], vec![1, 2]]);
    let permissions = generate_permissions_sized(2, 3);
    assert_eq!(permissions, vec![vec![2, 0, 0], vec![2, 1, 1]]);
    assert!(generate_roles_sized(0, 2).is_empty());
}

#[test]
fn an_id_is_the_digest_of_the_encoded_item() {
    let item = b"scope".to_vec();
    assert_eq!(generate_id(item.clone()), sp_io::hashing::blake2_256(&item.encode()));
    assert_ne!(generate_id(item), sp_io::hashing::blake2_256(b"scope"));
}

#[test]
fn vault_fixtures() {
    assert_eq!(generate_xpub_sized(3, 2), vec![0, 3]);
    assert_eq!(generate_description_sized(3, 2), vec![1, 3]);
    assert_eq!(generate_output_descriptor_sized(3, 2), vec![2, 3]);
    assert_eq!(generate_url_sized(3, 2), vec![3, 3]);
    assert_eq!(generate_psbt_sized(3, 2), vec![4, 3]);
    let (address, amount, desc) = get_proposal_sized(7, 3, 2);
    assert_eq!(address, vec![0, 7, 7]);
    assert_eq!(amount, 1007);
    assert_eq!(desc, vec![1, 7]);
}

#[test]
fn document_fixtures() {
    let user = generate_user_id(42);
    assert_eq!(user, sp_io::hashing::blake2_256(&format!("user id: {}", 42).encode()));
    let key = generate_public_key(7);
    assert_eq!(key, sp_io::hashing::blake2_256(&format!("public key: {}", 7).encode()));
    assert_eq!(generate_user_id(200), sp_io::hashing::blake2_256(&"user id: 200".encode()));
    assert_eq!(generate_cid(5), vec![1, 5, 5]);
    assert_eq!(generate_doc_name(5), vec![2, 5, 5, 5]);
    assert_eq!(generate_doc_desc(5), vec![3, 5, 5, 5, 5]);
    assert_eq!(generate_group_name(5), vec![4, 5, 5]);
    let (u, k, cid) = generate_vault_sized(9, 2);
    assert_eq!(u, generate_user_id(9));
    assert_eq!(k, generate_public_key(9));
    assert_eq!(cid, vec![1, 9]);
    let doc = generate_owned_doc(2, 11);
    assert_eq!(doc.cid, vec![1, 2, 2, 2, 2]);
    assert_eq!(doc.owner, 11);
    let shared = generate_shared_doc(2, 11, 12);
    assert_eq!(shared.name, vec![2, 2, 2, 2, 2]);
    assert_eq!((shared.from, shared.to), (11, 12));
}

#[test]
fn signing_plans() {
    let plan = sign_proposal_sized(vec![5, 6, 7], 3, true, true);
    assert_eq!(plan.signers, vec![5, 6]);
    assert_eq!(plan.last_cosigner, Some(7));
    assert_eq!(plan.psbt, vec![4, 1, 1]);
    assert_eq!(plan.finalizer, Some(5));
    assert_eq!(plan.final_psbt, Some(vec![4, 2, 2]));
    let plan = sign_proof_sized(vec![5, 6], 2, false, false);
    assert_eq!(plan.signers, vec![5, 6]);
    assert_eq!(plan.last_cosigner, None);
    assert_eq!((plan.finalizer, plan.final_psbt), (None, None));
}
