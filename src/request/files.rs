//! The file manifest endpoint.

use vstd::prelude::*;

verus! {

/// The address of the file manifest of `id`.
pub open spec fn files_url(id: Seq<char>) -> Seq<char> {
    "https://api.polyhaven.com/files/"@ + id
}

/// The address of the file manifest of `id`.
pub fn url(id: &str) -> (r: String)
    ensures
        r@ == files_url(id@),
{
    let mut url = String::from_str("https://api.polyhaven.com/files/");
    url.append(id);
    url
}

} // verus!
