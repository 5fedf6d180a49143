//! Inputs the confidential documents tests and benchmarks are built from.

use crate::bench_util::spec_vector;
use crate::codec::{blake2_256, blake2_256_of, encode_bytes, scale_bytes};
use crate::common::AccountId;
use vstd::prelude::*;

pub use crate::bench_util::generate_vector;

verus! {

/// A document owned by an account.
#[derive(Debug)]
pub struct OwnedDoc {
    pub cid: Vec<u8>,
    pub name: Vec<u8>,
    pub description: Vec<u8>,
    pub owner: AccountId,
}

/// A document shared by one account with another.
#[derive(Debug)]
pub struct SharedDoc {
    pub cid: Vec<u8>,
    pub name: Vec<u8>,
    pub description: Vec<u8>,
    pub from: AccountId,
    pub to: AccountId,
}

/// The decimal digits of `n` as ASCII bytes.
pub open spec fn decimal(n: nat) -> Seq<u8>
    decreases n,
{
    if n < 10 {
        seq![(48 + n) as u8]
    } else {
        decimal(n / 10) + seq![(48 + n % 10) as u8]
    }
}

/// `label` followed by the decimal digits of `id`.
pub open spec fn labelled(label: Seq<u8>, id: u8) -> Seq<u8> {
    label + decimal(id as nat)
}

/// The ASCII bytes of `label` followed by the decimal digits of `id`.
fn labelled_bytes(label: &Vec<u8>, id: u8) -> (r: Vec<u8>)
    ensures
        r@ == labelled(label@, id),
        r@.len() <= label@.len() + 3,
{
    let mut r = crate::common::bytes_copy(label);
    let ghost l = label@;
    if id >= 100 {
        r.push(48 + id / 100);
        r.push(48 + (id / 10) % 10);
        r.push(48 + id % 10);
        proof {
            let n = id as nat;
            assert(decimal(n / 10) == decimal(n / 100) + seq![(48 + (n / 10) % 10) as u8]);
            assert(decimal(n / 100) == seq![(48 + n / 100) as u8]);
            assert(r@ =~= labelled(l, id));
        }
    } else if id >= 10 {
        r.push(48 + id / 10);
        r.push(48 + id % 10);
        proof {
            let n = id as nat;
            assert(decimal(n / 10) == seq![(48 + n / 10) as u8]);
            assert(r@ =~= labelled(l, id));
        }
    } else {
        r.push(48 + id);
        proof {
            assert(r@ =~= labelled(l, id));
        }
    }
    r
}

/// The id of a text: the Blake2 digest of its SCALE encoding.
pub open spec fn text_id(text: Seq<u8>) -> Seq<u8> {
    blake2_256_of(scale_bytes(text))
}

/// The bytes of `user id: `.
pub open spec fn user_id_label() -> Seq<u8> {
    seq![117u8, 115, 101, 114, 32, 105, 100, 58, 32]
}

/// The bytes of `public key: `.
pub open spec fn public_key_label() -> Seq<u8> {
    seq![112u8, 117, 98, 108, 105, 99, 32, 107, 101, 121, 58, 32]
}

/// The user id of test `id`: the id of the text `user id: <id>`.
pub fn generate_user_id(id: u8) -> (r: [u8; 32])
    ensures
        r@ == text_id(labelled(user_id_label(), id)),
{
    let label: Vec<u8> = vec![117u8, 115, 101, 114, 32, 105, 100, 58, 32];
    assert(label@ =~= user_id_label());
    let text = labelled_bytes(&label, id);
    blake2_256(&encode_bytes(&text))
}

/// The public key of test `id`: the id of the text `public key: <id>`.
pub fn generate_public_key(id: u8) -> (r: [u8; 32])
    ensures
        r@ == text_id(labelled(public_key_label(), id)),
{
    let label: Vec<u8> = vec![112u8, 117, 98, 108, 105, 99, 32, 107, 101, 121, 58, 32];
    assert(label@ =~= public_key_label());
    let text = labelled_bytes(&label, id);
    blake2_256(&encode_bytes(&text))
}

/// The CID of test `id`: three bytes with prefix 1.
pub fn generate_cid(id: u8) -> (r: Vec<u8>)
    ensures
        r@ == spec_vector(1, id, 3),
{
    generate_cid_sized(id, 3)
}

/// The CID of test `id`: `size` bytes with prefix 1.
pub fn generate_cid_sized(id: u8, size: u32) -> (r: Vec<u8>)
    requires
        size > 0,
    ensures
        r@ == spec_vector(1, id, size as nat),
{
    generate_vector(1, id, size)
}

/// The document name of test `id`: four bytes with prefix 2.
pub fn generate_doc_name(id: u8) -> (r: Vec<u8>)
    ensures
        r@ == spec_vector(2, id, 4),
{
    generate_doc_name_sized(id, 4)
}

/// The document name of test `id`: `size` bytes with prefix 2.
pub fn generate_doc_name_sized(id: u8, size: u32) -> (r: Vec<u8>)
    requires
        size > 0,
    ensures
        r@ == spec_vector(2, id, size as nat),
{
    generate_vector(2, id, size)
}

/// The document description of test `id`: five bytes with prefix 3.
pub fn generate_doc_desc(id: u8) -> (r: Vec<u8>)
    ensures
        r@ == spec_vector(3, id, 5),
{
    generate_doc_desc_sized(id, 5)
}

/// The document description of test `id`: `size` bytes with prefix 3.
pub fn generate_doc_desc_sized(id: u8, size: u32) -> (r: Vec<u8>)
    requires
        size > 0,
    ensures
        r@ == spec_vector(3, id, size as nat),
{
    generate_vector(3, id, size)
}

/// The group name of test `id`: three bytes with prefix 4.
pub fn generate_group_name(id: u8) -> (r: Vec<u8>)
    ensures
        r@ == spec_vector(4, id, 3),
{
    generate_group_name_sized(id, 3)
}

/// The group name of test `id`: `size` bytes with prefix 4.
pub fn generate_group_name_sized(id: u8, size: u32) -> (r: Vec<u8>)
    requires
        size > 0,
    ensures
        r@ == spec_vector(4, id, size as nat),
{
    generate_vector(4, id, size)
}

/// The vault of test `id`: user id, public key and a CID of `size` bytes.
pub fn generate_vault_sized(id: u8, size: u32) -> (r: ([u8; 32], [u8; 32], Vec<u8>))
    requires
        size > 0,
    ensures
        r.0@ == text_id(labelled(user_id_label(), id)),
        r.1@ == text_id(labelled(public_key_label(), id)),
        r.2@ == spec_vector(1, id, size as nat),
{
    (generate_user_id(id), generate_public_key(id), generate_cid_sized(id, size))
}

/// The document of test `id` owned by `owner`, with five-byte CID, name and description.
pub fn generate_owned_doc(id: u8, owner: AccountId) -> (r: OwnedDoc)
    ensures
        r.cid@ == spec_vector(1, id, 5),
        r.name@ == spec_vector(2, id, 5),
        r.description@ == spec_vector(3, id, 5),
        r.owner == owner,
{
    generate_owned_doc_sized(id, owner, 5, 5, 5)
}

/// The document of test `id` owned by `owner`, with the given sizes.
pub fn generate_owned_doc_sized(id: u8, owner: AccountId, cid_size: u32, name_size: u32, desc_size: u32) -> (r:
    OwnedDoc)
    requires
        cid_size > 0,
        name_size > 0,
        desc_size > 0,
    ensures
        r.cid@ == spec_vector(1, id, cid_size as nat),
        r.name@ == spec_vector(2, id, name_size as nat),
        r.description@ == spec_vector(3, id, desc_size as nat),
        r.owner == owner,
{
    OwnedDoc {
        cid: generate_cid_sized(id, cid_size),
        name: generate_doc_name_sized(id, name_size),
        description: generate_doc_desc_sized(id, desc_size),
        owner,
    }
}

/// The document of test `id` shared by `from` with `to`, with five-byte CID, name and description.
pub fn generate_shared_doc(id: u8, from: AccountId, to: AccountId) -> (r: SharedDoc)
    ensures
        r.cid@ == spec_vector(1, id, 5),
        r.name@ == spec_vector(2, id, 5),
        r.description@ == spec_vector(3, id, 5),
        r.from == from,
        r.to == to,
{
    generate_shared_doc_sized(id, from, to, 5, 5, 5)
}

/// The document of test `id` shared by `from` with `to`, with the given sizes.
pub fn generate_shared_doc_sized(
    id: u8,
    from: AccountId,
    to: AccountId,
    cid_size: u32,
    name_size: u32,
    desc_size: u32,
) -> (r: SharedDoc)
    requires
        cid_size > 0,
        name_size > 0,
        desc_size > 0,
    ensures
        r.cid@ == spec_vector(1, id, cid_size as nat),
        r.name@ == spec_vector(2, id, name_size as nat),
        r.description@ == spec_vector(3, id, desc_size as nat),
        r.from == from,
        r.to == to,
{
    SharedDoc {
        cid: generate_cid_sized(id, cid_size),
        name: generate_doc_name_sized(id, name_size),
        description: generate_doc_desc_sized(id, desc_size),
        from,
        to,
    }
}

} // verus!
