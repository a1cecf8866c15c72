//! The asset listing endpoint.

use vstd::prelude::*;

use crate::data::asset::AssetType;
use crate::text::{chars_of, join, joined};

verus! {

/// The filters of an asset listing.
pub struct Params {
    pub asset_type: Option<AssetType>,
    pub categories: Vec<String>,
    pub author: Option<String>,
}

/// How a family is named in a query.
pub open spec fn type_token(t: AssetType) -> Seq<char> {
    match t {
        AssetType::HDRI => "hdris"@,
        AssetType::Texture => "textures"@,
        AssetType::Model => "models"@,
    }
}

/// How a family is named in a query.
pub fn family_name(t: AssetType) -> (r: &'static str)
    ensures
        r@ == type_token(t),
{
    match t {
        AssetType::HDRI => "hdris",
        AssetType::Texture => "textures",
        AssetType::Model => "models",
    }
}

/// `key=value`.
pub open spec fn query_pair(key: Seq<char>, value: Seq<char>) -> Seq<char> {
    key + "="@ + value
}

fn pair(key: &str, value: &str) -> (r: String)
    ensures
        r@ == query_pair(key@, value@),
{
    let mut s = String::from_str(key);
    s.append("=");
    s.append(value);
    s
}

/// The `key=value` pairs of an asset listing's filters: the categories,
/// comma-joined, where there are any; then the family; then the author,
/// where it is not empty.
pub open spec fn listing_pairs(p: Params) -> Seq<Seq<char>> {
    let c = if p.categories.len() > 0 {
        seq![query_pair("categories"@, joined(chars_of(p.categories@), ","@))]
    } else {
        Seq::empty()
    };
    let t = match p.asset_type {
        Some(t) => seq![query_pair("type"@, type_token(t))],
        None => Seq::empty(),
    };
    let a = match p.author {
        Some(x) => if x@.len() > 0 {
            seq![query_pair("author"@, x@)]
        } else {
            Seq::empty()
        },
        None => Seq::empty(),
    };
    c + t + a
}

/// The address of the asset listing for the query `query`.
pub open spec fn listing_url(query: Seq<char>) -> Seq<char> {
    "https://api.polyhaven.com/assets?"@ + query
}

impl Params {
    /// The query string of these filters: their `key=value` pairs joined by
    /// `&`, empty where no filter is set or every set filter is empty.
    pub fn as_query_params(&self) -> (r: String)
        ensures
            r@ == joined(listing_pairs(*self), "&"@),
    {
        let mut pairs: Vec<String> = Vec::new();
        if self.categories.len() > 0 {
            let cats = join(&self.categories, ",");
            pairs.push(pair("categories", cats.as_str()));
        }
        match &self.asset_type {
            Some(t) => pairs.push(pair("type", family_name(*t))),
            None => {},
        }
        match &self.author {
            Some(a) => {
                if !a.as_str().is_empty() {
                    pairs.push(pair("author", a.as_str()));
                }
            },
            None => {},
        }
        assert(chars_of(pairs@) == listing_pairs(*self));
        join(&pairs, "&")
    }

    /// The address of the asset listing that these filters select.
    pub fn url(&self) -> (r: String)
        ensures
            r@ == listing_url(joined(listing_pairs(*self), "&"@)),
    {
        let query = self.as_query_params();
        let mut url = String::from_str("https://api.polyhaven.com/assets?");
        url.append(query.as_str());
        url
    }
}

} // verus!
