//! The asset description endpoint.

use vstd::prelude::*;

verus! {

/// The address of the asset description of `id`.
pub open spec fn info_url(id: Seq<char>) -> Seq<char> {
    "https://api.polyhaven.com/info/"@ + id
}

/// The address of the asset description of `id`.
pub fn url(id: &str) -> (r: String)
    ensures
        r@ == info_url(id@),
{
    let mut url = String::from_str("https://api.polyhaven.com/info/");
    url.append(id);
    url
}

} // verus!
