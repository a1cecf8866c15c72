//! Catalogue entries and the asset families.

use vstd::prelude::*;

use crate::assoc::{entries_map, keys_distinct};
use crate::error::Error;
use crate::text::{decimal, decimal_chars};

verus! {

/// One catalogue entry.
#[derive(Debug, Clone, PartialEq, Eq)]
pub struct AssetInfo {
    pub id: String,
    pub name: String,
    /// Seconds since the Unix epoch, UTC.
    pub date_published: i64,
    pub download_count: u64,
    /// Author id to the role the author had, each id once.
    pub authors: Vec<(String, String)>,
    pub donated: bool,
    pub categories: Vec<String>,
    pub tags: Vec<String>,
    pub asset: Asset,
}

/// An author id or role seen as its characters.
pub open spec fn chars_fn() -> spec_fn(String) -> Seq<char> {
    |x: String| x@
}

/// The authors of an entry as a map from author id to role.
pub open spec fn authors_model(v: Seq<(String, String)>) -> Map<Seq<char>, Seq<char>> {
    entries_map(v, chars_fn())
}

/// The address of the thumbnail of asset `id` at the given height.
pub open spec fn thumbnail_url(id: Seq<char>, resolution: u32) -> Seq<char> {
    "https://cdn.polyhaven.com/asset_img/thumbs/"@ + id + ".png?height="@ + decimal_chars(
        resolution as nat,
    )
}

impl AssetInfo {
    /// Each author id occurs once.
    pub open spec fn wf(&self) -> bool {
        keys_distinct(self.authors@)
    }

    /// The address of this asset's thumbnail, `resolution` pixels high.
    pub fn thumbnail(&self, resolution: u32) -> (r: String)
        ensures
            r@ == thumbnail_url(self.id@, resolution),
    {
        let mut url = String::from_str("https://cdn.polyhaven.com/asset_img/thumbs/");
        url.append(self.id.as_str());
        url.append(".png?height=");
        let digits = decimal(resolution as u64);
        url.append(digits.as_str());
        url
    }
}

/// The three asset families.
#[derive(Debug, Clone, Copy, PartialEq, Eq, Structural)]
pub enum AssetType {
    HDRI,
    Texture,
    Model,
}

/// The family that a catalogue code stands for: 0, 1 and 2 are HDRI,
/// texture and model.
pub open spec fn asset_type_of(code: i32) -> Option<AssetType> {
    if code == 0 {
        Some(AssetType::HDRI)
    } else if code == 1 {
        Some(AssetType::Texture)
    } else if code == 2 {
        Some(AssetType::Model)
    } else {
        None
    }
}

impl AssetType {
    /// The family that a catalogue code stands for, if any.
    pub fn from_code(code: i32) -> (r: Option<AssetType>)
        ensures
            r == asset_type_of(code),
    {
        if code == 0 {
            Some(AssetType::HDRI)
        } else if code == 1 {
            Some(AssetType::Texture)
        } else if code == 2 {
            Some(AssetType::Model)
        } else {
            None
        }
    }

    /// The family whose file manifest shape a catalogue code selects; an
    /// unknown code is an error, since no manifest shape stands for it.
    pub fn for_files(code: i32) -> (r: Result<AssetType, Error>)
        ensures
            r == match asset_type_of(code) {
                Some(t) => Ok(t),
                None => Err(Error::UnknownAssetType(code)),
            },
    {
        match Self::from_code(code) {
            Some(t) => Ok(t),
            None => Err(Error::UnknownAssetType(code)),
        }
    }
}

/// What is known of an asset beyond what all families share.
#[derive(Debug, Clone, Copy, PartialEq, Eq)]
pub enum Asset {
    HDRI(HDRIAsset),
    Texture(TextureAsset),
    Model(ModelAsset),
    /// The family code was not a known one.
    Unparsed,
}

/// What is known of an HDRI environment.
///
/// `coords` holds latitude and longitude as the bit patterns of
/// single-precision floats (`f32::to_bits`).
#[derive(Debug, Clone, Copy, PartialEq, Eq)]
pub struct HDRIAsset {
    pub whitebalance: Option<u32>,
    pub backplates: bool,
    pub evs_cap: u32,
    pub coords: Option<(u32, u32)>,
}

/// What is known of a texture set.
///
/// `dimensions` holds width and height in real-world units as the bit
/// patterns of single-precision floats (`f32::to_bits`).
#[derive(Debug, Clone, Copy, PartialEq, Eq)]
pub struct TextureAsset {
    pub dimensions: (u32, u32),
}

/// What is known of a model: nothing beyond the shared fields.
#[derive(Debug, Clone, Copy, PartialEq, Eq, Structural)]
pub struct ModelAsset;

} // verus!
