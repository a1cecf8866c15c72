//! Authors as served, and how they become domain authors.

use vstd::prelude::*;

use crate::data::author;

verus! {

/// An author as the catalogue serves it.
#[derive(Debug, Clone, PartialEq, Eq)]
pub struct Author {
    pub name: String,
    pub link: Option<String>,
    pub email: Option<String>,
    pub donate: Option<String>,
}

impl author::Author {
    /// Takes over the fields of a wire author.
    pub fn from_json(json: Author) -> (r: Self)
        ensures
            r.name == json.name,
            r.link == json.link,
            r.email == json.email,
            r.donate == json.donate,
    {
        author::Author { name: json.name, link: json.link, email: json.email, donate: json.donate }
    }
}

} // verus!
