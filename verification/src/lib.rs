//! A multi-asset balance ledger with operator approvals, and a two-asset
//! constant-product market maker that trades against it.

pub mod dex;
pub mod multi_token;
