//! Weight functions for the role-based access control pallet.
//!
//! A `Weight` is a pair of `u64` components (reference time, proof size)
//! combined with saturating arithmetic, and a `RuntimeDbWeight` gives the
//! cost of one database read and one database write.

use vstd::prelude::*;

verus! {

/// The saturating sum of two `u64` values.
pub open spec fn sat_add(a: u64, b: u64) -> u64 {
    if a + b > u64::MAX { u64::MAX } else { (a + b) as u64 }
}

/// The saturating product of two `u64` values.
pub open spec fn sat_mul(a: u64, b: u64) -> u64 {
    if a * b > u64::MAX { u64::MAX } else { (a * b) as u64 }
}

fn u64_sat_add(a: u64, b: u64) -> (r: u64)
    ensures
        r == sat_add(a, b),
{
    a.saturating_add(b)
}

fn u64_sat_mul(a: u64, b: u64) -> (r: u64)
    ensures
        r == sat_mul(a, b),
{
    match a.checked_mul(b) {
        Some(p) => p,
        None => u64::MAX,
    }
}

/// Two-dimensional weight: execution time and proof size.
#[derive(Clone, Copy, Debug, PartialEq, Eq, Structural)]
pub struct Weight {
    pub ref_time: u64,
    pub proof_size: u64,
}

impl Weight {
    pub open spec fn spec_add(self, rhs: Weight) -> Weight {
        Weight {
            ref_time: sat_add(self.ref_time, rhs.ref_time),
            proof_size: sat_add(self.proof_size, rhs.proof_size),
        }
    }

    pub open spec fn spec_scale(self, scalar: u64) -> Weight {
        Weight {
            ref_time: sat_mul(self.ref_time, scalar),
            proof_size: sat_mul(self.proof_size, scalar),
        }
    }

    /// Builds a weight from its two components.
    pub fn from_parts(ref_time: u64, proof_size: u64) -> (w: Weight)
        ensures
            w.ref_time == ref_time,
            w.proof_size == proof_size,
    {
        Weight { ref_time, proof_size }
    }

    /// Component-wise saturating addition.
    pub fn saturating_add(self, rhs: Weight) -> (w: Weight)
        ensures
            w == self.spec_add(rhs),
    {
        Weight {
            ref_time: u64_sat_add(self.ref_time, rhs.ref_time),
            proof_size: u64_sat_add(self.proof_size, rhs.proof_size),
        }
    }

    /// Component-wise saturating multiplication by a scalar.
    pub fn saturating_mul(self, scalar: u64) -> (w: Weight)
        ensures
            w == self.spec_scale(scalar),
    {
        Weight {
            ref_time: u64_sat_mul(self.ref_time, scalar),
            proof_size: u64_sat_mul(self.proof_size, scalar),
        }
    }
}

/// The cost of one read and of one write of the runtime database.
#[derive(Clone, Copy, Debug, PartialEq, Eq, Structural)]
pub struct RuntimeDbWeight {
    pub read: u64,
    pub write: u64,
}

impl RuntimeDbWeight {
    pub open spec fn spec_reads(self, r: u64) -> Weight {
        Weight { ref_time: sat_mul(self.read, r), proof_size: 0 }
    }

    pub open spec fn spec_writes(self, w: u64) -> Weight {
        Weight { ref_time: sat_mul(self.write, w), proof_size: 0 }
    }

    pub open spec fn spec_reads_writes(self, r: u64, w: u64) -> Weight {
        Weight { ref_time: sat_add(sat_mul(self.read, r), sat_mul(self.write, w)), proof_size: 0 }
    }

    /// The weight of `r` reads.
    pub fn reads(self, r: u64) -> (w: Weight)
        ensures
            w == self.spec_reads(r),
    {
        Weight::from_parts(u64_sat_mul(self.read, r), 0)
    }

    /// The weight of `w` writes.
    pub fn writes(self, w: u64) -> (res: Weight)
        ensures
            res == self.spec_writes(w),
    {
        Weight::from_parts(u64_sat_mul(self.write, w), 0)
    }

    /// The weight of `r` reads and `w` writes.
    pub fn reads_writes(self, r: u64, w: u64) -> (res: Weight)
        ensures
            res == self.spec_reads_writes(r, w),
    {
        let read_weight = u64_sat_mul(self.read, r);
        let write_weight = u64_sat_mul(self.write, w);
        Weight::from_parts(u64_sat_add(read_weight, write_weight), 0)
    }
}

/// Picoseconds of reference time in one nanosecond.
pub const WEIGHT_REF_TIME_PER_NANOS: u64 = 1_000;

/// The database weights measured on RocksDB: 25 µs per read and 100 µs per write.
pub open spec fn spec_rocks_db_weight() -> RuntimeDbWeight {
    RuntimeDbWeight { read: 25_000_000, write: 100_000_000 }
}

/// The RocksDB database weights.
pub fn rocks_db_weight() -> (w: RuntimeDbWeight)
    ensures
        w == spec_rocks_db_weight(),
{
    RuntimeDbWeight { read: 25_000 * WEIGHT_REF_TIME_PER_NANOS, write: 100_000 * WEIGHT_REF_TIME_PER_NANOS }
}

/// `base + per_l * l + per_r * r`, each term as a weight, summed with saturation.
pub open spec fn linear3(base: Weight, a: Weight, x: u64, b: Weight, y: u64) -> Weight {
    base.spec_add(a.spec_scale(x)).spec_add(b.spec_scale(y))
}

/// The weight of `tx_create_and_set_roles` for components `l` and `r`.
pub open spec fn spec_tx_create_and_set_roles(db: RuntimeDbWeight, l: u32, r: u32) -> Weight {
    linear3(
        Weight { ref_time: 10_614_753, proof_size: 5098 },
        Weight { ref_time: 317_911, proof_size: 0 }, l as u64,
        Weight { ref_time: 5_601_016, proof_size: 0 }, r as u64,
    ).spec_add(db.spec_reads(1)).spec_add(db.spec_reads(sat_mul(1, r as u64)))
        .spec_add(db.spec_writes(1)).spec_add(db.spec_writes(sat_mul(1, r as u64)))
        .spec_add(Weight { ref_time: 0, proof_size: 2558 }.spec_scale(r as u64))
}

/// The weight of `tx_remove_role_from_user` for components `i`, `r` and `u`.
pub open spec fn spec_tx_remove_role_from_user(db: RuntimeDbWeight, i: u32, r: u32, u: u32) -> Weight {
    linear3(
        Weight { ref_time: 55_383_876, proof_size: 19563 },
        Weight { ref_time: 10_464, proof_size: 0 }, i as u64,
        Weight { ref_time: 975_224, proof_size: 0 }, r as u64,
    ).spec_add(Weight { ref_time: 82_973, proof_size: 0 }.spec_scale(u as u64))
        .spec_add(db.spec_reads(2)).spec_add(db.spec_writes(2))
}

/// The weight of `tx_create_and_set_permissions` for components `l` and `p`.
pub open spec fn spec_tx_create_and_set_permissions(db: RuntimeDbWeight, l: u32, p: u32) -> Weight {
    linear3(
        Weight { ref_time: 43_151_000, proof_size: 6731 },
        Weight { ref_time: 283_746, proof_size: 0 }, l as u64,
        Weight { ref_time: 6_188_777, proof_size: 0 }, p as u64,
    ).spec_add(db.spec_reads(2)).spec_add(db.spec_reads(sat_mul(1, p as u64)))
        .spec_add(db.spec_writes(1)).spec_add(db.spec_writes(sat_mul(1, p as u64)))
        .spec_add(Weight { ref_time: 0, proof_size: 2590 }.spec_scale(p as u64))
}

/// The weight of `tx_assign_role_to_user` for components `i`, `s`, `r` and `u`.
pub open spec fn spec_tx_assign_role_to_user(
    db: RuntimeDbWeight,
    i: u32,
    s: u32,
    r: u32,
    u: u32,
) -> Weight {
    linear3(
        Weight { ref_time: 58_811_667, proof_size: 19563 },
        Weight { ref_time: 49_726, proof_size: 0 }, i as u64,
        Weight { ref_time: 56_844, proof_size: 0 }, s as u64,
    ).spec_add(Weight { ref_time: 911_702, proof_size: 0 }.spec_scale(r as u64))
        .spec_add(Weight { ref_time: 100_764, proof_size: 0 }.spec_scale(u as u64))
        .spec_add(db.spec_reads(4)).spec_add(db.spec_writes(2))
}

/// The weight of `revoke_permission_from_role` for components `l` and `p`.
pub open spec fn spec_revoke_permission_from_role(db: RuntimeDbWeight, l: u32, p: u32) -> Weight {
    linear3(
        Weight { ref_time: 49_544_932, proof_size: 6731 },
        Weight { ref_time: 54_049, proof_size: 0 }, l as u64,
        Weight { ref_time: 63_399, proof_size: 0 }, p as u64,
    ).spec_add(db.spec_reads(3)).spec_add(db.spec_writes(1))
}

/// The weight of `remove_permission_from_pallet` for components `p` and `r`.
pub open spec fn spec_remove_permission_from_pallet(db: RuntimeDbWeight, p: u32, r: u32) -> Weight {
    linear3(
        Weight { ref_time: 54_679_000, proof_size: 6731 },
        Weight { ref_time: 2_071_084, proof_size: 0 }, p as u64,
        Weight { ref_time: 13_534_746, proof_size: 0 }, r as u64,
    ).spec_add(db.spec_reads(2)).spec_add(db.spec_reads(sat_mul(1, r as u64)))
        .spec_add(db.spec_writes(1)).spec_add(db.spec_writes(sat_mul(1, r as u64)))
        .spec_add(Weight { ref_time: 0, proof_size: 5741 }.spec_scale(r as u64))
}

/// The weight of `remove_pallet_permissions` for components `s` and `u`.
pub open spec fn spec_remove_pallet_permissions(db: RuntimeDbWeight, s: u32, u: u32) -> Weight {
    linear3(
        Weight { ref_time: 4_366_435_000, proof_size: 288040 },
        Weight { ref_time: 3_973_731_500, proof_size: 0 }, s as u64,
        Weight { ref_time: 767_998_348, proof_size: 0 }, u as u64,
    ).spec_add(db.spec_reads(153)).spec_add(db.spec_reads(sat_mul(11, s as u64)))
        .spec_add(db.spec_writes(712)).spec_add(db.spec_writes(sat_mul(311, s as u64)))
        .spec_add(db.spec_writes(sat_mul(61, u as u64)))
        .spec_add(Weight { ref_time: 0, proof_size: 204303 }.spec_scale(s as u64))
}

/// Weight functions needed by the role-based access control pallet.
pub trait WeightInfo {
    fn tx_create_and_set_roles(&self, i: u32, l: u32, r: u32) -> Weight;

    fn tx_remove_role_from_user(&self, i: u32, r: u32, u: u32) -> Weight;

    fn tx_create_and_set_permissions(&self, i: u32, l: u32, p: u32) -> Weight;

    fn tx_assign_role_to_user(&self, i: u32, s: u32, r: u32, u: u32) -> Weight;

    fn revoke_permission_from_role(&self, i: u32, l: u32, p: u32) -> Weight;

    fn remove_permission_from_pallet(&self, i: u32, l: u32, p: u32, m: u32, r: u32) -> Weight;

    fn remove_pallet_permissions(&self, i: u32, s: u32, u: u32) -> Weight;
}

/// Weights measured for the pallet, priced with the runtime's database weights.
#[derive(Clone, Copy, Debug)]
pub struct SubstrateWeight {
    pub db: RuntimeDbWeight,
}

impl SubstrateWeight {
    /// The weights priced with the given database weights.
    pub fn new(db: RuntimeDbWeight) -> (s: SubstrateWeight)
        ensures
            s.db == db,
    {
        SubstrateWeight { db }
    }
}

impl WeightInfo for SubstrateWeight {
    fn tx_create_and_set_roles(&self, _i: u32, l: u32, r: u32) -> (w: Weight)
        ensures
            w == spec_tx_create_and_set_roles(self.db, l, r),
    {
        let db = self.db;
        Weight::from_parts(10_614_753, 5098)
            .saturating_add(Weight::from_parts(317_911, 0).saturating_mul(l as u64))
            .saturating_add(Weight::from_parts(5_601_016, 0).saturating_mul(r as u64))
            .saturating_add(db.reads(1))
            .saturating_add(db.reads(u64_sat_mul(1, r as u64)))
            .saturating_add(db.writes(1))
            .saturating_add(db.writes(u64_sat_mul(1, r as u64)))
            .saturating_add(Weight::from_parts(0, 2558).saturating_mul(r as u64))
    }

    fn tx_remove_role_from_user(&self, i: u32, r: u32, u: u32) -> (w: Weight)
        ensures
            w == spec_tx_remove_role_from_user(self.db, i, r, u),
    {
        let db = self.db;
        Weight::from_parts(55_383_876, 19563)
            .saturating_add(Weight::from_parts(10_464, 0).saturating_mul(i as u64))
            .saturating_add(Weight::from_parts(975_224, 0).saturating_mul(r as u64))
            .saturating_add(Weight::from_parts(82_973, 0).saturating_mul(u as u64))
            .saturating_add(db.reads(2))
            .saturating_add(db.writes(2))
    }

    fn tx_create_and_set_permissions(&self, _i: u32, l: u32, p: u32) -> (w: Weight)
        ensures
            w == spec_tx_create_and_set_permissions(self.db, l, p),
    {
        let db = self.db;
        Weight::from_parts(43_151_000, 6731)
            .saturating_add(Weight::from_parts(283_746, 0).saturating_mul(l as u64))
            .saturating_add(Weight::from_parts(6_188_777, 0).saturating_mul(p as u64))
            .saturating_add(db.reads(2))
            .saturating_add(db.reads(u64_sat_mul(1, p as u64)))
            .saturating_add(db.writes(1))
            .saturating_add(db.writes(u64_sat_mul(1, p as u64)))
            .saturating_add(Weight::from_parts(0, 2590).saturating_mul(p as u64))
    }

    fn tx_assign_role_to_user(&self, i: u32, s: u32, r: u32, u: u32) -> (w: Weight)
        ensures
            w == spec_tx_assign_role_to_user(self.db, i, s, r, u),
    {
        let db = self.db;
        Weight::from_parts(58_811_667, 19563)
            .saturating_add(Weight::from_parts(49_726, 0).saturating_mul(i as u64))
            .saturating_add(Weight::from_parts(56_844, 0).saturating_mul(s as u64))
            .saturating_add(Weight::from_parts(911_702, 0).saturating_mul(r as u64))
            .saturating_add(Weight::from_parts(100_764, 0).saturating_mul(u as u64))
            .saturating_add(db.reads(4))
            .saturating_add(db.writes(2))
    }

    fn revoke_permission_from_role(&self, _i: u32, l: u32, p: u32) -> (w: Weight)
        ensures
            w == spec_revoke_permission_from_role(self.db, l, p),
    {
        let db = self.db;
        Weight::from_parts(49_544_932, 6731)
            .saturating_add(Weight::from_parts(54_049, 0).saturating_mul(l as u64))
            .saturating_add(Weight::from_parts(63_399, 0).saturating_mul(p as u64))
            .saturating_add(db.reads(3))
            .saturating_add(db.writes(1))
    }

    fn remove_permission_from_pallet(&self, _i: u32, _l: u32, p: u32, _m: u32, r: u32) -> (w: Weight)
        ensures
            w == spec_remove_permission_from_pallet(self.db, p, r),
    {
        let db = self.db;
        Weight::from_parts(54_679_000, 6731)
            .saturating_add(Weight::from_parts(2_071_084, 0).saturating_mul(p as u64))
            .saturating_add(Weight::from_parts(13_534_746, 0).saturating_mul(r as u64))
            .saturating_add(db.reads(2))
            .saturating_add(db.reads(u64_sat_mul(1, r as u64)))
            .saturating_add(db.writes(1))
            .saturating_add(db.writes(u64_sat_mul(1, r as u64)))
            .saturating_add(Weight::from_parts(0, 5741).saturating_mul(r as u64))
    }

    fn remove_pallet_permissions(&self, _i: u32, s: u32, u: u32) -> (w: Weight)
        ensures
            w == spec_remove_pallet_permissions(self.db, s, u),
    {
        let db = self.db;
        Weight::from_parts(4_366_435_000, 288040)
            .saturating_add(Weight::from_parts(3_973_731_500, 0).saturating_mul(s as u64))
            .saturating_add(Weight::from_parts(767_998_348, 0).saturating_mul(u as u64))
            .saturating_add(db.reads(153))
            .saturating_add(db.reads(u64_sat_mul(11, s as u64)))
            .saturating_add(db.writes(712))
            .saturating_add(db.writes(u64_sat_mul(311, s as u64)))
            .saturating_add(db.writes(u64_sat_mul(61, u as u64)))
            .saturating_add(Weight::from_parts(0, 204303).saturating_mul(s as u64))
    }
}

/// The same weights priced with the RocksDB database weights.
impl WeightInfo for () {
    fn tx_create_and_set_roles(&self, i: u32, l: u32, r: u32) -> (w: Weight)
        ensures
            w == spec_tx_create_and_set_roles(spec_rocks_db_weight(), l, r),
    {
        SubstrateWeight::new(rocks_db_weight()).tx_create_and_set_roles(i, l, r)
    }

    fn tx_remove_role_from_user(&self, i: u32, r: u32, u: u32) -> (w: Weight)
        ensures
            w == spec_tx_remove_role_from_user(spec_rocks_db_weight(), i, r, u),
    {
        SubstrateWeight::new(rocks_db_weight()).tx_remove_role_from_user(i, r, u)
    }

    fn tx_create_and_set_permissions(&self, i: u32, l: u32, p: u32) -> (w: Weight)
        ensures
            w == spec_tx_create_and_set_permissions(spec_rocks_db_weight(), l, p),
    {
        SubstrateWeight::new(rocks_db_weight()).tx_create_and_set_permissions(i, l, p)
    }

    fn tx_assign_role_to_user(&self, i: u32, s: u32, r: u32, u: u32) -> (w: Weight)
        ensures
            w == spec_tx_assign_role_to_user(spec_rocks_db_weight(), i, s, r, u),
    {
        SubstrateWeight::new(rocks_db_weight()).tx_assign_role_to_user(i, s, r, u)
    }

    fn revoke_permission_from_role(&self, i: u32, l: u32, p: u32) -> (w: Weight)
        ensures
            w == spec_revoke_permission_from_role(spec_rocks_db_weight(), l, p),
    {
        SubstrateWeight::new(rocks_db_weight()).revoke_permission_from_role(i, l, p)
    }

    fn remove_permission_from_pallet(&self, i: u32, l: u32, p: u32, m: u32, r: u32) -> (w: Weight)
        ensures
            w == spec_remove_permission_from_pallet(spec_rocks_db_weight(), p, r),
    {
        SubstrateWeight::new(rocks_db_weight()).remove_permission_from_pallet(i, l, p, m, r)
    }

    fn remove_pallet_permissions(&self, i: u32, s: u32, u: u32) -> (w: Weight)
        ensures
            w == spec_remove_pallet_permissions(spec_rocks_db_weight(), s, u),
    {
        SubstrateWeight::new(rocks_db_weight()).remove_pallet_permissions(i, s, u)
    }
}

} // verus!
