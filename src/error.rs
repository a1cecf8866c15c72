//! The ways in which a token or a family code can fail to be read.

use vstd::prelude::*;

verus! {

/// Why a token or a family code could not be read.
#[derive(Debug, Clone, Copy, PartialEq, Eq, Structural)]
pub enum Error {
    /// A resolution token is neither a decimal number nor one followed by
    /// `k`/`K`.
    InvalidResolution,
    /// The asset family code is none of the known ones.
    UnknownAssetType(i32),
}

} // verus!
