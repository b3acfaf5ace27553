//! Helpers for recording trajectories.
pub mod utils;
