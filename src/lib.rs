//! Record migration for stake entries: a gated resize of a record's storage
//! slot, with its funding rebalanced, and a gated zero-fill of the record's
//! unused tail.
pub mod errors;
pub mod gate;
pub mod slot;
pub mod state;
pub mod stake_entry_fill_zeros;
pub mod stake_entry_resize;
pub mod laws;
