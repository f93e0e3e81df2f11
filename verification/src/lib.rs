//! Verified core of a lease-management protocol: rental arithmetic,
//! deposit settlement, escrow accounting and the decisions behind each
//! lease operation.

pub mod math;
pub mod types;
pub mod contract;
pub mod escrow;
pub mod solvency;
pub mod division;
pub mod proration;
pub mod storage;
pub mod access_token;
pub mod nft;
pub mod router;
pub mod iot;
pub mod dex;
pub mod monitor;
