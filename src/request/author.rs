//! The author endpoint.

use vstd::prelude::*;

verus! {

/// The address of the author document of `id`.
pub open spec fn author_url(id: Seq<char>) -> Seq<char> {
    "https://api.polyhaven.com/author/"@ + id
}

/// The address of the author document of `id`.
pub fn url(id: &str) -> (r: String)
    ensures
        r@ == author_url(id@),
{
    let mut url = String::from_str("https://api.polyhaven.com/author/");
    url.append(id);
    url
}

} // verus!
