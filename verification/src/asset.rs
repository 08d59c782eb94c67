//! Asset identifiers.

use vstd::prelude::*;

use vstd::std_specs::cmp::PartialEqSpecImpl;
use vstd::string::StringSliceAdditionalSpecFns;
use vstd::utf8::is_ascii_chars_encode_utf8;

use crate::bytes::{
    bytes32_equal, le_bytes, le_nat, lemma_le_bytes_of_le_nat, lemma_le_nat_of_le_bytes,
};
use crate::hash::{blake2b_512_personal, blake2b_personal, fq_from_le_bytes_mod_order, fq_modulus};

verus! {

/// An asset identifier: the 32-byte little-endian encoding of a field element.
#[derive(Clone, Copy, Debug)]
pub struct Id(pub [u8; 32]);

impl PartialEq for Id {
    fn eq(&self, other: &Id) -> (equal: bool) {
        bytes32_equal(&self.0, &other.0)
    }
}

impl Eq for Id {}

impl PartialEqSpecImpl for Id {
    open spec fn obeys_eq_spec() -> bool {
        true
    }

    open spec fn eq_spec(&self, other: &Id) -> bool {
        self.0@ == other.0@
    }
}

/// The personalization under which base denominations are hashed to asset identifiers.
pub open spec fn asset_id_personal() -> Seq<u8> {
    "Penumbra_AssetID".spec_bytes()
}

/// The base denomination of the staking token.
pub open spec fn staking_token_denom() -> Seq<u8> {
    "upenumbra".spec_bytes()
}

/// The identifier of the asset with base denomination `denom`: its hash, read as a
/// little-endian integer and reduced into the field.
pub open spec fn asset_id_of_denom(denom: Seq<u8>) -> Seq<u8> {
    le_bytes(le_nat(blake2b_personal(asset_id_personal(), denom)) % fq_modulus(), 32)
}

/// Whether `id` is the canonical encoding of a field element: the little-endian number it
/// encodes is below the field order.
pub open spec fn is_canonical_id(id: Id) -> bool {
    le_nat(id.0@) < fq_modulus()
}

/// Whether `id` identifies the staking token.
pub open spec fn is_staking_token(id: Id) -> bool {
    id.0@ == asset_id_of_denom(staking_token_denom())
}

impl Id {
    /// The identifier of the asset whose base denomination is `denom`.
    pub fn from_base_denom(denom: &[u8]) -> (id: Id)
        ensures
            id.0@ == asset_id_of_denom(denom@),
            is_canonical_id(id),
    {
        let personal = "Penumbra_AssetID";
        proof {
            reveal_strlit("Penumbra_AssetID");
            is_ascii_chars_encode_utf8(personal@);
        }
        let digest = blake2b_512_personal(personal.as_bytes(), denom);
        let encoding = fq_from_le_bytes_mod_order(&digest);
        proof {
            lemma_le_nat_of_le_bytes(le_nat(digest@) % fq_modulus(), 32);
        }
        Id(encoding)
    }

    /// Whether this identifier is the canonical encoding of a field element, as every
    /// decoded identifier must be: reducing it into the field leaves it unchanged.
    pub fn is_canonical(&self) -> (canonical: bool)
        ensures
            canonical == is_canonical_id(*self),
    {
        let reduced = fq_from_le_bytes_mod_order(&self.0);
        proof {
            let x = le_nat(self.0@);
            lemma_le_bytes_of_le_nat(self.0@);
            lemma_le_nat_of_le_bytes(x % fq_modulus(), 32);
            if x < fq_modulus() {
                vstd::arithmetic::div_mod::lemma_small_mod(x, fq_modulus());
            }
        }
        bytes32_equal(&reduced, &self.0)
    }

    /// The 32-byte encoding of this identifier.
    pub fn to_bytes(&self) -> (bytes: [u8; 32])
        ensures
            bytes == self.0,
    {
        self.0
    }
}

/// The identifier of the staking token.
pub fn staking_token_asset_id() -> (id: Id)
    ensures
        is_staking_token(id),
        is_canonical_id(id),
{
    Id::from_base_denom("upenumbra".as_bytes())
}

} // verus!
