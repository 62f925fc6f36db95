//! Non-fungible tokens: metadata with deposits, and approvals of transfers.

pub mod approvals;
pub mod calls;
pub mod laws;
pub mod metadata;
pub mod storage;
pub mod types;
