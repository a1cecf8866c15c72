//! The normalised domain model.

pub mod asset;
pub mod author;
pub mod files;
