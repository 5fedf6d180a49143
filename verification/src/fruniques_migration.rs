//! The storage migration of the fruniques pallet to version 1.
//!
//! Version 0 kept a frunique counter and parent and child maps that version 1
//! no longer has; the migration removes them and records the new version.

use crate::weights::{RuntimeDbWeight, Weight};
use vstd::prelude::*;

verus! {

/// What the migration does to storage.
#[derive(Clone, Copy, Debug, PartialEq, Eq, Structural)]
pub struct MigrationPlan {
    /// Remove the version 0 frunique counter.
    pub kill_frunique_cnt: bool,
    /// Clear the version 0 parent map (one entry at a time).
    pub clear_frunique_parent: bool,
    /// Clear the version 0 child map (one entry at a time).
    pub clear_frunique_child: bool,
    /// The storage version to record, if any.
    pub new_version: Option<u16>,
}

/// The migration from storage version 0 to version 1.
pub struct MigrateToV1;

impl MigrateToV1 {
    /// Given the on-chain storage version, the storage changes to make and the
    /// weight of the upgrade: below version 1 the old items are removed and
    /// version 1 recorded, counted as four reads and one write; otherwise nothing
    /// is done, counted as one write.
    pub fn on_runtime_upgrade(onchain_version: u16, db: RuntimeDbWeight) -> (r: (MigrationPlan, Weight))
        ensures
            onchain_version < 1 ==> r.0 == (MigrationPlan {
                kill_frunique_cnt: true,
                clear_frunique_parent: true,
                clear_frunique_child: true,
                new_version: Some(1u16),
            }) && r.1 == db.spec_reads_writes(4, 1),
            onchain_version >= 1 ==> r.0 == (MigrationPlan {
                kill_frunique_cnt: false,
                clear_frunique_parent: false,
                clear_frunique_child: false,
                new_version: None,
            }) && r.1 == db.spec_reads_writes(0, 1),
    {
        let mut writes: u64 = 0;
        let plan = if onchain_version < 1 {
            writes = 4;
            MigrationPlan {
                kill_frunique_cnt: true,
                clear_frunique_parent: true,
                clear_frunique_child: true,
                new_version: Some(1),
            }
        } else {
            MigrationPlan {
                kill_frunique_cnt: false,
                clear_frunique_parent: false,
                clear_frunique_child: false,
                new_version: None,
            }
        };
        (plan, db.reads_writes(writes, 1))
    }
}

} // verus!
