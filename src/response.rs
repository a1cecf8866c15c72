//! The domain types that the requests hand back.

pub mod asset;
