//! Catalogue entries as served, and how they become domain entries.

use vstd::prelude::*;

use crate::assoc::{keys_distinct, pairs_map, upsert};
use crate::data::asset;

verus! {

/// A catalogue entry as the catalogue serves it. The family-specific fields
/// are present only for their family; floats are kept as the bit patterns of
/// single-precision values (`f32::to_bits`).
#[derive(Debug, Clone, PartialEq, Eq)]
pub struct AssetInfo {
    pub id: String,
    /// The family code: 0 HDRI, 1 texture, 2 model.
    pub asset_type: i32,
    pub name: String,
    /// Seconds since the Unix epoch, UTC.
    pub date_published: i64,
    pub download_count: u64,
    pub authors: Vec<(String, String)>,
    pub donated: Option<bool>,
    pub categories: Vec<String>,
    pub tags: Vec<String>,
    pub whitebalance: Option<u32>,
    pub backplates: Option<bool>,
    pub evs_cap: Option<u32>,
    pub coords: Option<(u32, u32)>,
    pub dimensions: Option<(u32, u32)>,
}

/// The value of an optional field, or `default` where it is absent.
pub open spec fn or_default<T>(v: Option<T>, default: T) -> T {
    match v {
        Some(x) => x,
        None => default,
    }
}

/// The family-specific part of a wire entry: chosen by its family code, with
/// absent flags false, an absent exposure range 0 and absent dimensions
/// zero; an unknown code gives [`asset::Asset::Unparsed`].
pub open spec fn asset_of(json: AssetInfo) -> asset::Asset {
    if json.asset_type == 0 {
        asset::Asset::HDRI(
            asset::HDRIAsset {
                whitebalance: json.whitebalance,
                backplates: or_default(json.backplates, false),
                evs_cap: or_default(json.evs_cap, 0u32),
                coords: json.coords,
            },
        )
    } else if json.asset_type == 1 {
        asset::Asset::Texture(
            asset::TextureAsset { dimensions: or_default(json.dimensions, (0u32, 0u32)) },
        )
    } else if json.asset_type == 2 {
        asset::Asset::Model(asset::ModelAsset)
    } else {
        asset::Asset::Unparsed
    }
}

fn unwrap_bool(v: Option<bool>) -> (r: bool)
    ensures
        r == or_default(v, false),
{
    match v {
        Some(b) => b,
        None => false,
    }
}

/// The author pairs with each id once, a later pair for an id overriding an
/// earlier one.
fn distinct_authors(s: &Vec<(String, String)>) -> (r: Vec<(String, String)>)
    ensures
        keys_distinct(r@),
        asset::authors_model(r@) == pairs_map(s@, asset::chars_fn(), asset::chars_fn()),
{
    let mut out: Vec<(String, String)> = Vec::new();
    let mut i: usize = 0;
    while i < s.len()
        invariant
            i <= s.len(),
            keys_distinct(out@),
            asset::authors_model(out@) == pairs_map(
                s@.subrange(0, i as int),
                asset::chars_fn(),
                asset::chars_fn(),
            ),
        decreases s.len() - i,
    {
        let id = s[i].0.clone();
        let role = s[i].1.clone();
        upsert::<_, _, Seq<char>>(&mut out, id, role, Ghost(asset::chars_fn()));
        proof {
            assert(s@.subrange(0, i + 1).drop_last() == s@.subrange(0, i as int));
        }
        i = i + 1;
    }
    assert(s@.subrange(0, s.len() as int) == s@);
    out
}

impl asset::AssetInfo {
    /// Normalises a wire catalogue entry: the shared fields are kept (the
    /// authors as a map, a later pair for one id overriding an earlier one), an
    /// absent `donated` is false, and the family code selects the
    /// family-specific part.
    pub fn from_json(json: AssetInfo) -> (r: Self)
        ensures
            r.id == json.id,
            r.name == json.name,
            r.date_published == json.date_published,
            r.download_count == json.download_count,
            r.wf(),
            asset::authors_model(r.authors@) == pairs_map(
                json.authors@,
                asset::chars_fn(),
                asset::chars_fn(),
            ),
            r.donated == or_default(json.donated, false),
            r.categories == json.categories,
            r.tags == json.tags,
            r.asset == asset_of(json),
    {
        let authors = distinct_authors(&json.authors);
        let asset = if json.asset_type == 0 {
            let evs_cap = match json.evs_cap {
                Some(e) => e,
                None => 0,
            };
            asset::Asset::HDRI(
                asset::HDRIAsset {
                    whitebalance: json.whitebalance,
                    backplates: unwrap_bool(json.backplates),
                    evs_cap,
                    coords: json.coords,
                },
            )
        } else if json.asset_type == 1 {
            let dimensions = match json.dimensions {
                Some(d) => d,
                None => (0, 0),
            };
            asset::Asset::Texture(asset::TextureAsset { dimensions })
        } else if json.asset_type == 2 {
            asset::Asset::Model(asset::ModelAsset)
        } else {
            asset::Asset::Unparsed
        };
        asset::AssetInfo {
            id: json.id,
            name: json.name,
            date_published: json.date_published,
            download_count: json.download_count,
            authors,
            donated: unwrap_bool(json.donated),
            categories: json.categories,
            tags: json.tags,
            asset,
        }
    }
}


/// Absent optional fields take their defaults: an entry without `donated`
/// is not donated, and an HDRI entry without `evs_cap` has an exposure
/// range of 0.
pub proof fn absent_fields_take_defaults(json: AssetInfo)
    ensures
        json.donated is None ==> or_default(json.donated, false) == false,
        json.asset_type == 0 && json.evs_cap is None ==> (asset_of(json) matches asset::Asset::HDRI(
            h,
        ) && h.evs_cap == 0),
{
}

/// A family code other than 0, 1 and 2 is unknown: the entry's
/// family-specific part is [`asset::Asset::Unparsed`] (its other fields are
/// kept, as `from_json` states), and no file manifest shape is selected.
pub proof fn unknown_family_codes(json: AssetInfo)
    ensures
        asset::asset_type_of(json.asset_type) is None <==> !(0 <= json.asset_type <= 2),
        asset::asset_type_of(json.asset_type) is None ==> asset_of(json)
            == asset::Asset::Unparsed,
{
}

} // verus!
