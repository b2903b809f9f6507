//! The bAsset vault contract: its stored state.

pub mod state;
