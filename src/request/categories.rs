//! The category listing endpoint.

use vstd::prelude::*;

use crate::data::asset::AssetType;
use crate::request::assets::{family_name, query_pair, type_token};
use crate::text::{chars_of, join, joined};

verus! {

/// The filters of a category listing.
pub struct Params {
    pub asset_type: AssetType,
    pub in_categories: Vec<String>,
}

/// The `key=value` pairs of a category listing's filters: the enclosing
/// categories, comma-joined, where there are any.
pub open spec fn category_pairs(p: Params) -> Seq<Seq<char>> {
    if p.in_categories.len() > 0 {
        seq![query_pair("in"@, joined(chars_of(p.in_categories@), ","@))]
    } else {
        Seq::empty()
    }
}

/// The address of the category listing of family `t` for the query `query`.
pub open spec fn categories_url(t: AssetType, query: Seq<char>) -> Seq<char> {
    "https://api.polyhaven.com/categories/"@ + type_token(t) + "?"@ + query
}

impl Params {
    /// The query string of these filters: `in=` and the comma-joined
    /// categories, or empty where there are none.
    pub fn as_query_params(&self) -> (r: String)
        ensures
            r@ == joined(category_pairs(*self), "&"@),
    {
        let mut pairs: Vec<String> = Vec::new();
        if self.in_categories.len() > 0 {
            let cats = join(&self.in_categories, ",");
            let mut p = String::from_str("in");
            p.append("=");
            p.append(cats.as_str());
            pairs.push(p);
        }
        assert(chars_of(pairs@) == category_pairs(*self));
        join(&pairs, "&")
    }

    /// The address of the category listing that these filters select.
    pub fn url(&self) -> (r: String)
        ensures
            r@ == categories_url(self.asset_type, joined(category_pairs(*self), "&"@)),
    {
        let query = self.as_query_params();
        let mut url = String::from_str("https://api.polyhaven.com/categories/");
        url.append(family_name(self.asset_type));
        url.append("?");
        url.append(query.as_str());
        url
    }
}

} // verus!
