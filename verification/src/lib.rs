//! Custody vault for uniquely identified assets.
//!
//! A depositor hands one asset to the vault for a period of time. While the
//! asset is held a daily rent accrues; the asset is released only after the
//! hold period has passed and the rent has been paid. Collected rent sits in
//! the vault ledger until the vault authority withdraws it.

pub mod guarantees;
pub mod history;
pub mod identity;
pub mod nft_storage;
pub mod orders;
pub mod rent;
pub mod seeds;
pub mod store;
pub mod vault;
