//! Transaction fees.

use vstd::prelude::*;

use vstd::string::StringSliceAdditionalSpecFns;
use vstd::utf8::is_ascii_chars_encode_utf8;

use crate::asset::{
    self, asset_id_of_denom, is_canonical_id, is_staking_token, staking_token_asset_id,
    staking_token_denom,
};
use crate::hash::fq_modulus;
use crate::error::Error;
use crate::bytes::{
    le_bytes, le_nat, lemma_le_bytes_exact, lemma_le_nat_of_le_bytes, lemma_pow256_bounds, push_all,
    push_le_bytes,
};
use crate::hash::{blake2b_512_personal, blake2b_personal};
use crate::proto;
use crate::value::Value;

verus! {

broadcast use vstd::array::group_array_axioms;

/// The fee paid by a transaction.
#[derive(Clone, Debug, PartialEq, Eq)]
pub struct Fee(pub Value);

/// The personalization of a fee's authorizing hash.
pub open spec fn fee_auth_personal() -> Seq<u8> {
    "PAH:fee".spec_bytes()
}

/// The bytes a fee's authorizing hash is taken over: the amount, then the asset.
pub open spec fn fee_auth_preimage(fee: Fee) -> Seq<u8> {
    le_bytes(fee.0.amount as nat, 8) + fee.0.asset_id.0@
}

/// `msg` is the wire form of `fee`: the asset is left out exactly when it is the staking token.
pub open spec fn fee_encodes(fee: Fee, msg: proto::Fee) -> bool {
    &&& msg.amount == fee.0.amount
    &&& msg.asset_id == if is_staking_token(fee.0.asset_id) {
        None
    } else {
        Some(fee.0.asset_id)
    }
}

/// `fee` is what `msg` decodes to: a missing asset stands for the staking token.
pub open spec fn fee_decodes(msg: proto::Fee, fee: Fee) -> bool {
    &&& fee.0.amount == msg.amount
    &&& match msg.asset_id {
        Some(id) => fee.0.asset_id == id,
        None => is_staking_token(fee.0.asset_id),
    }
}

/// Whether decoding `msg` fails: it names an asset by an identifier that encodes no
/// field element.
pub open spec fn fee_refused(msg: proto::Fee) -> bool {
    msg.asset_id matches Some(id) && !is_canonical_id(id)
}

impl Fee {
    /// A fee of `amount` units of the staking token.
    pub fn from_staking_token_amount(amount: u64) -> (fee: Fee)
        ensures
            fee.0.amount == amount,
            is_staking_token(fee.0.asset_id),
    {
        Fee(Value { amount, asset_id: staking_token_asset_id() })
    }

    /// How many units are paid.
    pub fn amount(&self) -> (amount: u64)
        ensures
            amount == self.0.amount,
    {
        self.0.amount
    }

    /// Which asset is paid.
    pub fn asset_id(&self) -> (id: asset::Id)
        ensures
            id == self.0.asset_id,
    {
        self.0.asset_id
    }

    /// The value paid.
    pub fn value(&self) -> (value: Value)
        ensures
            value == self.0,
    {
        self.0
    }

    /// The hash that a transaction's authorization commits to for this fee.
    pub fn auth_hash(&self) -> (digest: [u8; 64])
        ensures
            digest@ == blake2b_personal(fee_auth_personal(), fee_auth_preimage(*self)),
    {
        let personal = "PAH:fee";
        proof {
            reveal_strlit("PAH:fee");
            is_ascii_chars_encode_utf8(personal@);
        }
        let mut preimage: Vec<u8> = Vec::new();
        push_le_bytes(&mut preimage, self.0.amount, 8);
        push_all(&mut preimage, &self.0.asset_id.0);
        assert(preimage@ == fee_auth_preimage(*self));
        blake2b_512_personal(personal.as_bytes(), preimage.as_slice())
    }

    /// The wire form of this fee.
    pub fn to_proto(&self) -> (msg: proto::Fee)
        ensures
            fee_encodes(*self, msg),
    {
        let staking = staking_token_asset_id();
        if self.0.asset_id == staking {
            assert(self.0.asset_id.0 == staking.0);
            proto::Fee { amount: self.0.amount, asset_id: None }
        } else {
            proto::Fee { amount: self.0.amount, asset_id: Some(self.0.asset_id) }
        }
    }

    /// The fee that `msg` is the wire form of; fails if its asset identifier is not a
    /// canonical field element.
    pub fn try_from_proto(msg: proto::Fee) -> (fee: Result<Fee, Error>)
        ensures
            match fee {
                Ok(f) => !fee_refused(msg) && fee_decodes(msg, f),
                Err(e) => fee_refused(msg) && e == Error::NonCanonicalAssetId,
            },
    {
        match msg.asset_id {
            Some(id) => if id.is_canonical() {
                Ok(Fee(Value { amount: msg.amount, asset_id: id }))
            } else {
                Err(Error::NonCanonicalAssetId)
            },
            None => Ok(Fee::from_staking_token_amount(msg.amount)),
        }
    }
}

impl Default for Fee {
    /// A fee of nothing, in the staking token.
    fn default() -> (fee: Fee)
        ensures
            fee.0.amount == 0,
            is_staking_token(fee.0.asset_id),
    {
        Fee::from_staking_token_amount(0)
    }
}

/// Decoding the wire form of a fee whose asset identifier is canonical succeeds, and
/// gives back that fee.
pub proof fn lemma_fee_round_trip(fee: Fee, msg: proto::Fee, decoded: Fee)
    requires
        is_canonical_id(fee.0.asset_id),
        fee_encodes(fee, msg),
        fee_decodes(msg, decoded),
    ensures
        !fee_refused(msg),
        decoded == fee,
{
    if is_staking_token(fee.0.asset_id) {
        assert(decoded.0.asset_id.0 =~= fee.0.asset_id.0);
    }
}

/// Encoding a decoded fee gives back the message, for every message that does not name
/// the staking token explicitly.
pub proof fn lemma_fee_message_round_trip(msg: proto::Fee, fee: Fee, encoded: proto::Fee)
    requires
        !(msg.asset_id matches Some(id) && is_staking_token(id)),
        fee_decodes(msg, fee),
        fee_encodes(fee, encoded),
    ensures
        encoded == msg,
{
}

/// A fee's authorizing hash covers 40 bytes, whatever the asset (the staking token
/// included): the amount as 8 little-endian bytes, then all 32 bytes of the asset
/// identifier. It is hashed under the personalization `PAH:fee`.
pub proof fn lemma_fee_auth_preimage_layout(fee: Fee)
    ensures
        fee_auth_preimage(fee).len() == 40,
        le_nat(fee_auth_preimage(fee).take(8)) == fee.0.amount,
        fee_auth_preimage(fee).skip(8) == fee.0.asset_id.0@,
        fee_auth_personal() == "PAH:fee".spec_bytes(),
{
    lemma_pow256_bounds();
    lemma_le_bytes_exact(fee.0.amount as nat, 8);
    assert(fee_auth_preimage(fee).take(8) =~= le_bytes(fee.0.amount as nat, 8));
    assert(fee_auth_preimage(fee).skip(8) =~= fee.0.asset_id.0@);
}

/// Distinct fees have distinct authorizing preimages.
pub proof fn lemma_fee_auth_preimage_injective(a: Fee, b: Fee)
    requires
        fee_auth_preimage(a) == fee_auth_preimage(b),
    ensures
        a == b,
{
    lemma_fee_auth_preimage_layout(a);
    lemma_fee_auth_preimage_layout(b);
    assert(a.0.asset_id.0 =~= b.0.asset_id.0);
}

/// The staking token's identifier is a canonical field element.
pub proof fn lemma_staking_token_is_canonical(id: asset::Id)
    requires
        is_staking_token(id),
    ensures
        is_canonical_id(id),
{
    let x = le_nat(crate::hash::blake2b_personal(asset::asset_id_personal(), staking_token_denom()))
        % fq_modulus();
    lemma_le_nat_of_le_bytes(x, 32);
    assert(id.0@ == asset_id_of_denom(staking_token_denom()));
}

/// Decoding a fee fails exactly when the message names an asset by an identifier whose
/// little-endian number is not below the field order; a missing asset, the staking
/// token's identifier and every other canonical identifier decode.
pub proof fn lemma_fee_refused_exactly(msg: proto::Fee)
    ensures
        fee_refused(msg) <==> (msg.asset_id matches Some(id) && le_nat(id.0@) >= fq_modulus()),
        msg.asset_id is None ==> !fee_refused(msg),
        msg.asset_id matches Some(id) && is_staking_token(id) ==> !fee_refused(msg),
{
    if let Some(id) = msg.asset_id {
        if is_staking_token(id) {
            lemma_staking_token_is_canonical(id);
        }
    }
}

/// The wire amount is the fee's amount, both ways, and the wire asset is the fee's asset
/// unless that is the staking token, which is left out and restored.
pub proof fn lemma_fee_wire_fields(fee: Fee, msg: proto::Fee, decoded: Fee)
    ensures
        fee_encodes(fee, msg) ==> msg.amount == fee.0.amount,
        fee_encodes(fee, msg) ==> (msg.asset_id is None <==> is_staking_token(fee.0.asset_id)),
        fee_encodes(fee, msg) && msg.asset_id is Some ==> msg.asset_id == Some(fee.0.asset_id),
        fee_decodes(msg, decoded) ==> decoded.0.amount == msg.amount,
        fee_decodes(msg, decoded) && msg.asset_id is Some ==> Some(decoded.0.asset_id)
            == msg.asset_id,
        fee_decodes(msg, decoded) && msg.asset_id is None ==> is_staking_token(decoded.0.asset_id),
{
}

} // verus!
