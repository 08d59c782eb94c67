//! The wire messages that the domain types are encoded to and decoded from.
//!
//! Nested messages whose own encodings are defined elsewhere (trading pairs,
//! trading functions, asset identifiers) are held here already decoded.

use vstd::prelude::*;

use crate::asset;
use crate::dex::{TradingFunction, TradingPair};

verus! {

/// The wire form of a fee: the staking token's identifier is left out.
#[derive(Clone, Copy, Debug)]
pub struct Fee {
    pub amount: u64,
    pub asset_id: Option<asset::Id>,
}

/// The wire form of a liquidity position.
#[derive(Clone, Debug)]
pub struct Position {
    pub phi: Option<TradingFunction>,
    pub pair: Option<TradingPair>,
    pub nonce: Vec<u8>,
}

/// The wire form of a position identifier.
#[derive(Clone, Debug)]
pub struct PositionId {
    pub inner: Vec<u8>,
}

/// The wire form of a position state: the number of a [`PositionStateEnum`] variant.
#[derive(Clone, Copy, Debug, PartialEq, Eq, Structural)]
pub struct PositionState {
    pub state: i32,
}

/// The position states as numbered on the wire.
#[derive(Clone, Copy, Debug, PartialEq, Eq, Structural)]
pub enum PositionStateEnum {
    Opened,
    Closed,
    Withdrawn,
    Claimed,
}

/// The wire number of each position state.
pub open spec fn position_state_number(e: PositionStateEnum) -> int {
    match e {
        PositionStateEnum::Opened => 0,
        PositionStateEnum::Closed => 1,
        PositionStateEnum::Withdrawn => 2,
        PositionStateEnum::Claimed => 3,
    }
}

impl PositionStateEnum {
    /// The variant numbered `value`, if there is one.
    pub fn from_i32(value: i32) -> (e: Option<PositionStateEnum>)
        ensures
            match e {
                Some(e) => position_state_number(e) == value,
                None => !(0 <= value <= 3),
            },
    {
        match value {
            0 => Some(PositionStateEnum::Opened),
            1 => Some(PositionStateEnum::Closed),
            2 => Some(PositionStateEnum::Withdrawn),
            3 => Some(PositionStateEnum::Claimed),
            _ => None,
        }
    }

    /// The wire number of this variant.
    pub fn to_i32(self) -> (value: i32)
        ensures
            value == position_state_number(self),
    {
        match self {
            PositionStateEnum::Opened => 0,
            PositionStateEnum::Closed => 1,
            PositionStateEnum::Withdrawn => 2,
            PositionStateEnum::Claimed => 3,
        }
    }
}

} // verus!
