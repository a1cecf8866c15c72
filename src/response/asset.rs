//! Catalogue entries, as the requests hand them back.

pub use crate::data::asset::{Asset, AssetInfo, HDRIAsset, ModelAsset, TextureAsset};
