//! The ledger: one append-only event log per slip, and the slip it folds to.
pub mod event;
pub mod fold;
pub mod load;
pub mod recent;
pub mod time;
