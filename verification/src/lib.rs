//! Verified state handling and rebalancing rules of the bAsset vault and
//! farmer contracts, together with the querier helpers they share.

pub mod addr;
pub mod bignum;
pub mod error;
pub mod farmer;
pub mod querier;
pub mod vault;
