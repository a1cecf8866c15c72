//! Typed access to the Poly Haven catalogue.
//!
//! The library turns the loosely typed documents that the catalogue serves
//! (asset descriptions and file manifests) into a closed, immutable domain
//! model, and builds the query strings that select catalogue listings.
//! Resolution tokens such as `"4k"` become pixel counts, format and map-kind
//! tokens become open enums, and entries whose resolution cannot be read are
//! dropped rather than failing the whole document.

pub mod assoc;
pub mod data;
pub mod error;
pub mod json;
pub mod request;
pub mod response;
pub mod text;
