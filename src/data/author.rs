//! Authors of catalogue assets.

use vstd::prelude::*;

verus! {

/// An author of catalogue assets.
#[derive(Debug, Clone, PartialEq, Eq)]
pub struct Author {
    pub name: String,
    pub link: Option<String>,
    pub email: Option<String>,
    pub donate: Option<String>,
}

} // verus!
