//! Pooled-custody vault: share accounting, the rebalance schedule, the
//! derived signing authority and the ledger transitions of the four
//! entry points.
pub mod authority;
pub mod laws;
pub mod schedule;
pub mod shares;
pub mod vault;
