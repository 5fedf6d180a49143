//! Verified models of the hashed pallets: role-based-access weights,
//! fund-admin records, fruniques (fractional NFTs), the proxy project
//! registry and the afloat marketplace entry points.

pub mod assoc;
pub mod codec;
pub mod common;
pub mod per_things;
pub mod weights;
pub mod fund_admin_records;
pub mod fruniques;
pub mod proxy;
pub mod proxy_laws;
pub mod proxy_types;
pub mod fruniques_migration;
pub mod bench_util;
pub mod rbac;
pub mod bitcoin_vaults;
pub mod confidential_docs;
pub mod afloat;
