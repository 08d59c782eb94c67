//! Liquidity positions of the decentralized exchange.

use vstd::prelude::*;

use vstd::std_specs::cmp::PartialEqSpecImpl;
use vstd::string::StringSliceAdditionalSpecFns;
use vstd::utf8::is_ascii_chars_encode_utf8;

use crate::asset;
use crate::bech32str::{
    bech32_decoding, bech32m_encoding, bytes_from_base32, decode_bech32, encode_bech32m,
    is_lowercase_hrp, regroup_base32,
};
use crate::bytes::{
    array32_to_vec, bytes32_equal, le_bytes, le_nat, lemma_le_bytes_exact, lemma_pow256_bounds,
    push_all, push_le_bytes, str_equal, to_array32,
};
use crate::error::Error;
use crate::hash::{blake2b_512_personal, blake2b_personal};
use crate::proto::{self, position_state_number, PositionStateEnum};

verus! {

broadcast use vstd::array::group_array_axioms;

/// The pair of assets that a position trades between.
#[derive(Clone, Copy, Debug, PartialEq, Eq)]
pub struct TradingPair {
    pub asset_1: asset::Id,
    pub asset_2: asset::Id,
}

/// Whether both assets of `pair` are named by canonical identifiers.
pub open spec fn pair_is_canonical(pair: TradingPair) -> bool {
    asset::is_canonical_id(pair.asset_1) && asset::is_canonical_id(pair.asset_2)
}

/// The parameters of a position's trading function.
#[derive(Clone, Copy, Debug, PartialEq, Eq, Structural)]
pub struct TradingFunction {
    pub fee: u32,
    pub k: u64,
    pub p: u64,
    pub q: u64,
}

/// Data identifying a position.
#[derive(Clone, Copy, Debug, PartialEq, Eq)]
pub struct Position {
    pub pair: TradingPair,
    pub phi: TradingFunction,
    /// A random value used to disambiguate different positions with the exact same
    /// trading function.  The chain should reject newly created positions with the
    /// same nonce as an existing position.  This ensures that [`Id`]s will
    /// be unique, and allows us to track position ownership with a
    /// sequence of stateful NFTs based on the [`Id`].
    pub nonce: [u8; 32],
}

/// A hash of a [`Position`].
#[derive(Clone, Copy, Debug, PartialOrd, Ord)]
pub struct Id(pub [u8; 32]);

impl PartialEq for Id {
    fn eq(&self, other: &Id) -> (equal: bool) {
        bytes32_equal(&self.0, &other.0)
    }
}

impl Eq for Id {}

impl PartialEqSpecImpl for Id {
    open spec fn obeys_eq_spec() -> bool {
        true
    }

    open spec fn eq_spec(&self, other: &Id) -> bool {
        self.0@ == other.0@
    }
}

/// The personalization of the hash that identifies a position.
pub open spec fn position_id_personal() -> Seq<u8> {
    "penumbra_lp_id".spec_bytes()
}

/// The bytes a position's identifier is hashed from: the nonce, both assets, then the
/// trading function's fee and coefficients, each little-endian.
pub open spec fn position_id_preimage(position: Position) -> Seq<u8> {
    position.nonce@ + position.pair.asset_1.0@ + position.pair.asset_2.0@ + le_bytes(
        position.phi.fee as nat,
        4,
    ) + le_bytes(position.phi.k as nat, 8) + le_bytes(position.phi.p as nat, 8) + le_bytes(
        position.phi.q as nat,
        8,
    )
}

/// The identifier of `position`: the first 32 bytes of the hash of its data.
pub open spec fn position_id(position: Position) -> Seq<u8> {
    blake2b_personal(position_id_personal(), position_id_preimage(position)).take(32)
}

impl Position {
    /// Get the ID of this position.
    pub fn id(&self) -> (id: Id)
        ensures
            id.0@ == position_id(*self),
    {
        let personal = "penumbra_lp_id";
        proof {
            reveal_strlit("penumbra_lp_id");
            is_ascii_chars_encode_utf8(personal@);
        }
        let mut preimage: Vec<u8> = Vec::new();
        push_all(&mut preimage, &self.nonce);
        push_all(&mut preimage, &self.pair.asset_1.0);
        push_all(&mut preimage, &self.pair.asset_2.0);
        push_le_bytes(&mut preimage, self.phi.fee as u64, 4);
        push_le_bytes(&mut preimage, self.phi.k, 8);
        push_le_bytes(&mut preimage, self.phi.p, 8);
        push_le_bytes(&mut preimage, self.phi.q, 8);
        assert(preimage@ == position_id_preimage(*self));
        let digest = blake2b_512_personal(personal.as_bytes(), preimage.as_slice());
        let mut bytes = [0u8; 32];
        let mut i: usize = 0;
        while i < 32
            invariant
                i <= 32,
                digest@ == blake2b_personal(position_id_personal(), position_id_preimage(*self)),
                forall|j: int| 0 <= j < i ==> bytes@[j] == digest@[j],
            decreases 32 - i,
        {
            bytes[i] = digest[i];
            i = i + 1;
        }
        assert(bytes@ =~= digest@.take(32));
        Id(bytes)
    }
}

/// The state of a position.
#[derive(Clone, Copy, Debug, PartialEq, Eq, Structural)]
pub enum State {
    /// The position has been opened, is active, has reserves and accumulated
    /// fees, and can be traded against.
    Opened,
    /// The position has been closed, is inactive and can no longer be traded
    /// against, but still has reserves and accumulated fees.
    Closed,
    /// The final reserves and accumulated fees have been withdrawn, leaving an
    /// empty, inactive position awaiting (possible) retroactive rewards.
    Withdrawn,
    /// Any retroactive rewards have been claimed. The position is now an inert,
    /// historical artefact.
    Claimed,
}

/// The name under which a state is displayed and parsed.
pub open spec fn state_name(state: State) -> Seq<char> {
    match state {
        State::Opened => "opened"@,
        State::Closed => "closed"@,
        State::Withdrawn => "withdrawn"@,
        State::Claimed => "claimed"@,
    }
}

/// The state named `name`, if any.
pub open spec fn state_named(name: Seq<char>) -> Option<State> {
    if name == "opened"@ {
        Some(State::Opened)
    } else if name == "closed"@ {
        Some(State::Closed)
    } else if name == "withdrawn"@ {
        Some(State::Withdrawn)
    } else if name == "claimed"@ {
        Some(State::Claimed)
    } else {
        None
    }
}

/// The wire variant of a state.
pub open spec fn state_to_wire(state: State) -> PositionStateEnum {
    match state {
        State::Opened => PositionStateEnum::Opened,
        State::Closed => PositionStateEnum::Closed,
        State::Withdrawn => PositionStateEnum::Withdrawn,
        State::Claimed => PositionStateEnum::Claimed,
    }
}

/// The state of a wire variant.
pub open spec fn state_from_wire(e: PositionStateEnum) -> State {
    match e {
        PositionStateEnum::Opened => State::Opened,
        PositionStateEnum::Closed => State::Closed,
        PositionStateEnum::Withdrawn => State::Withdrawn,
        PositionStateEnum::Claimed => State::Claimed,
    }
}

/// The state numbered `n` on the wire, if any.
pub open spec fn state_numbered(n: int) -> Option<State> {
    if n == 0 {
        Some(State::Opened)
    } else if n == 1 {
        Some(State::Closed)
    } else if n == 2 {
        Some(State::Withdrawn)
    } else if n == 3 {
        Some(State::Claimed)
    } else {
        None
    }
}

impl State {
    /// The name of this state, as displayed.
    pub fn as_str(&self) -> (name: &'static str)
        ensures
            name@ == state_name(*self),
    {
        match self {
            State::Opened => "opened",
            State::Closed => "closed",
            State::Withdrawn => "withdrawn",
            State::Claimed => "claimed",
        }
    }

    /// The state named `s`.
    pub fn parse(s: &str) -> (state: Result<State, Error>)
        ensures
            state == match state_named(s@) {
                Some(st) => Ok(st),
                None => Err(Error::UnknownPositionState),
            },
    {
        if str_equal(s, "opened") {
            Ok(State::Opened)
        } else if str_equal(s, "closed") {
            Ok(State::Closed)
        } else if str_equal(s, "withdrawn") {
            Ok(State::Withdrawn)
        } else if str_equal(s, "claimed") {
            Ok(State::Claimed)
        } else {
            Err(Error::UnknownPositionState)
        }
    }

    /// The wire form of this state.
    pub fn to_proto(self) -> (msg: proto::PositionState)
        ensures
            msg.state == position_state_number(state_to_wire(self)),
    {
        let e = match self {
            State::Opened => PositionStateEnum::Opened,
            State::Closed => PositionStateEnum::Closed,
            State::Withdrawn => PositionStateEnum::Withdrawn,
            State::Claimed => PositionStateEnum::Claimed,
        };
        proto::PositionState { state: e.to_i32() }
    }

    /// The state that `msg` is the wire form of.
    pub fn try_from_proto(msg: proto::PositionState) -> (state: Result<State, Error>)
        ensures
            state == match state_numbered(msg.state as int) {
                Some(st) => Ok(st),
                None => Err(Error::MissingPositionState),
            },
    {
        match PositionStateEnum::from_i32(msg.state) {
            Some(PositionStateEnum::Opened) => Ok(State::Opened),
            Some(PositionStateEnum::Closed) => Ok(State::Closed),
            Some(PositionStateEnum::Withdrawn) => Ok(State::Withdrawn),
            Some(PositionStateEnum::Claimed) => Ok(State::Claimed),
            None => Err(Error::MissingPositionState),
        }
    }
}

impl core::str::FromStr for State {
    type Err = Error;

    /// The state named `s`, as [`State::parse`] reads it.
    fn from_str(s: &str) -> (state: Result<State, Error>)
        ensures
            state == match state_named(s@) {
                Some(st) => Ok(st),
                None => Err(Error::UnknownPositionState),
            },
    {
        State::parse(s)
    }
}

impl core::str::FromStr for Id {
    type Err = Error;

    /// The identifier whose text form is `s`, as [`Id::from_bech32m`] reads it.
    fn from_str(s: &str) -> (id: Result<Id, Error>)
        ensures
            match decode_position_id(s@) {
                Ok(bytes) => id matches Ok(i) && i.0@ == bytes,
                Err(e) => id == Err::<Id, Error>(e),
            },
    {
        Id::from_bech32m(s)
    }
}

/// The human-readable part of a position identifier's text form.
pub open spec fn position_id_prefix() -> Seq<char> {
    "plpid"@
}

/// What reading the text `s` as a position identifier gives: the identifier's bytes, or
/// why `s` is not one.
pub open spec fn decode_position_id(s: Seq<char>) -> Result<Seq<u8>, Error> {
    match bech32_decoding(s) {
        None => Err(Error::Bech32),
        Some((hrp, groups, m)) => if !m {
            Err(Error::Bech32Variant)
        } else if hrp != position_id_prefix() {
            Err(Error::Bech32Prefix)
        } else {
            match bytes_from_base32(groups) {
                None => Err(Error::Bech32),
                Some(bytes) => if bytes.len() == 32 {
                    Ok(bytes)
                } else {
                    Err(Error::IdLength)
                },
            }
        },
    }
}

impl Id {
    /// The text form of this identifier: its bytes in Bech32m under the `plpid` prefix.
    pub fn to_bech32m(&self) -> (text: String)
        ensures
            text@ == bech32m_encoding(position_id_prefix(), self.0@),
            decode_position_id(text@) == Ok::<Seq<u8>, Error>(self.0@),
    {
        let prefix = "plpid";
        proof {
            reveal_strlit("plpid");
            assert(is_lowercase_hrp(prefix@));
        }
        encode_bech32m(prefix, &self.0)
    }

    /// The identifier whose text form is `s`.
    pub fn from_bech32m(s: &str) -> (id: Result<Id, Error>)
        ensures
            match decode_position_id(s@) {
                Ok(bytes) => id matches Ok(i) && i.0@ == bytes,
                Err(e) => id == Err::<Id, Error>(e),
            },
    {
        let (hrp, groups, m) = match decode_bech32(s) {
            Some(decoded) => decoded,
            None => return Err(Error::Bech32),
        };
        if !m {
            return Err(Error::Bech32Variant);
        }
        if !str_equal(hrp.as_str(), "plpid") {
            return Err(Error::Bech32Prefix);
        }
        let bytes = match regroup_base32(groups.as_slice()) {
            Some(bytes) => bytes,
            None => return Err(Error::Bech32),
        };
        Id::try_from_proto(proto::PositionId { inner: bytes })
    }

    /// The wire form of this identifier.
    pub fn to_proto(&self) -> (msg: proto::PositionId)
        ensures
            msg.inner@ == self.0@,
    {
        proto::PositionId { inner: array32_to_vec(&self.0) }
    }

    /// The identifier that `msg` is the wire form of.
    pub fn try_from_proto(msg: proto::PositionId) -> (id: Result<Id, Error>)
        ensures
            match id {
                Ok(id) => msg.inner@.len() == 32 && id.0@ == msg.inner@,
                Err(e) => msg.inner@.len() != 32 && e == Error::IdLength,
            },
    {
        match to_array32(msg.inner.as_slice()) {
            Some(bytes) => Ok(Id(bytes)),
            None => Err(Error::IdLength),
        }
    }
}

impl Position {
    /// The wire form of this position.
    pub fn to_proto(&self) -> (msg: proto::Position)
        ensures
            msg.phi == Some(self.phi),
            msg.pair == Some(self.pair),
            msg.nonce@ == self.nonce@,
    {
        proto::Position {
            phi: Some(self.phi),
            pair: Some(self.pair),
            nonce: array32_to_vec(&self.nonce),
        }
    }

    /// The position that `msg` is the wire form of. The trading function is checked
    /// first, then the trading pair and its asset identifiers, then the nonce.
    pub fn try_from_proto(msg: proto::Position) -> (position: Result<Position, Error>)
        ensures
            match position {
                Ok(p) => msg.phi == Some(p.phi) && msg.pair == Some(p.pair) && p.nonce@ == msg.nonce@,
                Err(e) => e == if msg.phi is None {
                    Error::MissingTradingFunction
                } else if msg.pair is None {
                    Error::MissingTradingPair
                } else if !pair_is_canonical(msg.pair.unwrap()) {
                    Error::NonCanonicalAssetId
                } else {
                    Error::NonceLength
                },
            },
            (position is Err) <==> (msg.phi is None || msg.pair is None || !pair_is_canonical(
                msg.pair.unwrap(),
            ) || msg.nonce@.len() != 32),
    {
        let phi = match msg.phi {
            Some(phi) => phi,
            None => return Err(Error::MissingTradingFunction),
        };
        let pair = match msg.pair {
            Some(pair) => pair,
            None => return Err(Error::MissingTradingPair),
        };
        if !pair.asset_1.is_canonical() || !pair.asset_2.is_canonical() {
            return Err(Error::NonCanonicalAssetId);
        }
        match to_array32(msg.nonce.as_slice()) {
            Some(nonce) => Ok(Position { pair, phi, nonce }),
            None => Err(Error::NonceLength),
        }
    }
}

/// Every state is parsed back from its own name, and a name that parses names the
/// state it parses to.
pub proof fn lemma_state_name_round_trip(state: State, name: Seq<char>)
    ensures
        state_named(state_name(state)) == Some(state),
        state_named(name) == Some(state) ==> state_name(state) == name,
{
    reveal_strlit("opened");
    reveal_strlit("closed");
    reveal_strlit("withdrawn");
    reveal_strlit("claimed");
    assert("opened"@[0] != "closed"@[0]);
    assert("opened"@.len() != "withdrawn"@.len());
    assert("opened"@.len() != "claimed"@.len());
    assert("closed"@.len() != "withdrawn"@.len());
    assert("closed"@.len() != "claimed"@.len());
    assert("withdrawn"@.len() != "claimed"@.len());
}

/// Decoding the wire form of a state gives back that state.
pub proof fn lemma_state_wire_round_trip(state: State)
    ensures
        state_numbered(position_state_number(state_to_wire(state))) == Some(state),
        state_from_wire(state_to_wire(state)) == state,
{
}

/// Decoding the wire form of a position identifier gives back that identifier.
pub proof fn lemma_id_round_trip(id: Id, msg: proto::PositionId, decoded: Id)
    requires
        msg.inner@ == id.0@,
        decoded.0@ == msg.inner@,
    ensures
        decoded == id,
{
    assert(decoded.0 =~= id.0);
}

/// Reading the text form of a position identifier gives back that identifier: for a text
/// that decodes to the identifier's bytes, as the one [`Id::to_bech32m`] returns does,
/// every result that [`Id::from_bech32m`] or `from_str` may give is `Ok` of that identifier.
pub proof fn lemma_id_text_round_trip(id: Id, text: Seq<char>, decoded: Result<Id, Error>)
    requires
        decode_position_id(text) == Ok::<Seq<u8>, Error>(id.0@),
        match decode_position_id(text) {
            Ok(bytes) => decoded matches Ok(i) && i.0@ == bytes,
            Err(e) => decoded == Err::<Id, Error>(e),
        },
    ensures
        decoded == Ok::<Id, Error>(id),
{
    let i = decoded->Ok_0;
    assert(i.0 =~= id.0);
}

/// A text is refused as a position identifier exactly when it is not a Bech32 encoding,
/// carries the older checksum, has another prefix, has bad padding, or holds other than
/// 32 bytes.
pub proof fn lemma_id_text_refusals(s: Seq<char>)
    ensures
        (decode_position_id(s) is Err) <==> (match bech32_decoding(s) {
            None => true,
            Some((hrp, groups, m)) => !m || hrp != position_id_prefix() || match bytes_from_base32(
                groups,
            ) {
                None => true,
                Some(bytes) => bytes.len() != 32,
            },
        }),
{
}

/// Decoding the wire form of a position whose assets are named canonically gives back that
/// position.
pub proof fn lemma_position_round_trip(position: Position, msg: proto::Position, decoded: Position)
    requires
        pair_is_canonical(position.pair),
        msg.phi == Some(position.phi),
        msg.pair == Some(position.pair),
        msg.nonce@ == position.nonce@,
        msg.phi == Some(decoded.phi),
        msg.pair == Some(decoded.pair),
        decoded.nonce@ == msg.nonce@,
    ensures
        pair_is_canonical(msg.pair.unwrap()),
        msg.nonce@.len() == 32,
        decoded == position,
{
    assert(decoded.nonce =~= position.nonce);
}

/// The bytes a position's identifier is hashed from are 124 long and lay out every field of
/// the position in full: the nonce at `[0, 32)`, the first asset at `[32, 64)`, the second
/// at `[64, 96)`, then the trading function's fee as 4 little-endian bytes at `[96, 100)`
/// and `k`, `p`, `q` as 8 little-endian bytes each at `[100, 108)`, `[108, 116)` and
/// `[116, 124)`.
pub proof fn lemma_position_id_preimage_layout(position: Position)
    ensures
        position_id_preimage(position).len() == 124,
        position_id_preimage(position).subrange(0, 32) == position.nonce@,
        position_id_preimage(position).subrange(32, 64) == position.pair.asset_1.0@,
        position_id_preimage(position).subrange(64, 96) == position.pair.asset_2.0@,
        le_nat(position_id_preimage(position).subrange(96, 100)) == position.phi.fee,
        le_nat(position_id_preimage(position).subrange(100, 108)) == position.phi.k,
        le_nat(position_id_preimage(position).subrange(108, 116)) == position.phi.p,
        le_nat(position_id_preimage(position).subrange(116, 124)) == position.phi.q,
{
    let phi = position.phi;
    lemma_pow256_bounds();
    lemma_le_bytes_exact(phi.fee as nat, 4);
    lemma_le_bytes_exact(phi.k as nat, 8);
    lemma_le_bytes_exact(phi.p as nat, 8);
    lemma_le_bytes_exact(phi.q as nat, 8);
    let pre = position_id_preimage(position);
    assert(pre.subrange(0, 32) =~= position.nonce@);
    assert(pre.subrange(32, 64) =~= position.pair.asset_1.0@);
    assert(pre.subrange(64, 96) =~= position.pair.asset_2.0@);
    assert(pre.subrange(96, 100) =~= le_bytes(phi.fee as nat, 4));
    assert(pre.subrange(100, 108) =~= le_bytes(phi.k as nat, 8));
    assert(pre.subrange(108, 116) =~= le_bytes(phi.p as nat, 8));
    assert(pre.subrange(116, 124) =~= le_bytes(phi.q as nat, 8));
}

/// Distinct positions hash distinct bytes: two positions whose identifier preimages are
/// equal agree in every field, so they share an identifier only through a collision of
/// the hash.
pub proof fn lemma_position_id_preimage_injective(a: Position, b: Position)
    requires
        position_id_preimage(a) == position_id_preimage(b),
    ensures
        a == b,
{
    lemma_position_id_preimage_layout(a);
    lemma_position_id_preimage_layout(b);
    assert(a.nonce =~= b.nonce);
    assert(a.pair.asset_1.0 =~= b.pair.asset_1.0);
    assert(a.pair.asset_2.0 =~= b.pair.asset_2.0);
}

/// A position's identifier is the first 32 bytes of the `penumbra_lp_id`-personalized hash
/// of its preimage.
pub proof fn lemma_position_id_is_truncated_hash(position: Position)
    ensures
        position_id(position) == blake2b_personal("penumbra_lp_id".spec_bytes(), position_id_preimage(position)).take(32),
{
}

} // verus!
