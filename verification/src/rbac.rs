//! Identifiers of the role-based access control pallet and the inputs its
//! benchmarks are built from.

use crate::bench_util::spec_vector;
use crate::codec::{blake2_256, blake2_256_of, encode_bytes, scale_bytes};
use vstd::prelude::*;

pub use crate::bench_util::generate_vector;

verus! {

pub type PalletId = [u8; 32];

pub type RoleId = [u8; 32];

pub type ScopeId = [u8; 32];

pub type PermissionId = [u8; 32];

/// An identifier given either as 32 bytes or as a bounded string.
#[derive(Debug)]
pub enum IdOrString {
    Id([u8; 32]),
    String(Vec<u8>),
}

/// A pallet identifier given either as 32 bytes or as its name.
#[derive(Debug)]
pub enum IdOrVec {
    Id([u8; 32]),
    Vec(Vec<u8>),
}

/// The pallet id of benchmark `id`: a vector of `size` bytes with prefix 0.
pub fn generate_pallet_id_sized(id: u8, size: u32) -> (r: IdOrVec)
    requires
        size > 0,
    ensures
        r matches IdOrVec::Vec(v) && v@ == spec_vector(0, id, size as nat),
{
    IdOrVec::Vec(generate_vector(0, id, size))
}

/// The role name of benchmark `id`: `size` bytes with prefix 1.
pub fn generate_role_sized(id: u8, size: u32) -> (r: Vec<u8>)
    requires
        size > 0,
    ensures
        r@ == spec_vector(1, id, size as nat),
{
    generate_vector(1, id, size)
}

/// The scope name of benchmark `id`: `size` bytes with prefix 2.
pub fn generate_scope_sized(id: u8, size: u32) -> (r: Vec<u8>)
    requires
        size > 0,
    ensures
        r@ == spec_vector(2, id, size as nat),
{
    generate_vector(2, id, size)
}

/// The permission name of benchmark `id`: `size` bytes with prefix 2.
pub fn generate_permission_sized(id: u8, size: u32) -> (r: Vec<u8>)
    requires
        size > 0,
    ensures
        r@ == spec_vector(2, id, size as nat),
{
    generate_vector(2, id, size)
}

/// `num_roles` role names of `size` bytes; the `r`-th has id `r` modulo 256.
pub fn generate_roles_sized(num_roles: u32, size: u32) -> (roles: Vec<Vec<u8>>)
    requires
        size > 0,
    ensures
        roles@.len() == num_roles,
        forall|r: int| 0 <= r < num_roles ==> #[trigger] roles@[r]@ == spec_vector(1, (r % 256) as u8, size as nat),
{
    let mut roles: Vec<Vec<u8>> = Vec::new();
    let mut r: u32 = 0;
    while r < num_roles
        invariant
            0 <= r <= num_roles,
            size > 0,
            roles@.len() == r,
            forall|j: int| 0 <= j < r ==> #[trigger] roles@[j]@ == spec_vector(1, (j % 256) as u8, size as nat),
        decreases num_roles - r,
    {
        let id = (r % 256) as u8;
        roles.push(generate_role_sized(id, size));
        r = r + 1;
    }
    roles
}

/// `num_permissions` permission names of `size` bytes; the `p`-th has id `p` modulo 256.
pub fn generate_permissions_sized(num_permissions: u32, size: u32) -> (permissions: Vec<Vec<u8>>)
    requires
        size > 0,
    ensures
        permissions@.len() == num_permissions,
        forall|p: int|
            0 <= p < num_permissions ==> #[trigger] permissions@[p]@ == spec_vector(2, (p % 256) as u8, size as nat),
{
    let mut permissions: Vec<Vec<u8>> = Vec::new();
    let mut p: u32 = 0;
    while p < num_permissions
        invariant
            0 <= p <= num_permissions,
            size > 0,
            permissions@.len() == p,
            forall|j: int| 0 <= j < p ==> #[trigger] permissions@[j]@ == spec_vector(2, (j % 256) as u8, size as nat),
        decreases num_permissions - p,
    {
        let id = (p % 256) as u8;
        permissions.push(generate_permission_sized(id, size));
        p = p + 1;
    }
    permissions
}

/// The id of a name: the Blake2 digest of its SCALE encoding.
pub fn generate_id(item: Vec<u8>) -> (r: [u8; 32])
    requires
        item@.len() <= u32::MAX,
    ensures
        r@ == blake2_256_of(scale_bytes(item@)),
{
    let encoded = encode_bytes(&item);
    blake2_256(&encoded)
}

} // verus!
