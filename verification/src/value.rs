//! Typed amounts.

use vstd::prelude::*;

use crate::asset;

verus! {

/// An amount of some asset.
#[derive(Clone, Copy, Debug, PartialEq, Eq)]
pub struct Value {
    /// How many base units of the asset.
    pub amount: u64,
    /// Which asset.
    pub asset_id: asset::Id,
}

} // verus!
