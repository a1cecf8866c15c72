//! The documents as the catalogue serves them, before normalisation.

pub mod asset;
pub mod author;
pub mod files;
