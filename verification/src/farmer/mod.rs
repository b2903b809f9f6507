//! The bAsset farmer contract: its stored state and its queries.

pub mod queries;
pub mod state;
