//! The outside hash and field computations the library relies on.

use vstd::prelude::*;

use ark_ff::{BigInteger, PrimeField};

use crate::bytes::{le_bytes, le_nat};

verus! {

/// The order of the field in which asset identifiers live (the scalar field of BLS12-377).
pub open spec fn fq_modulus() -> nat {
    8444461749428370424248824938781546531375899335154063827935233455917409239041nat
}

/// The 64-byte BLAKE2b digest of `input` under the personalization string `personal`.
pub uninterp spec fn blake2b_personal(personal: Seq<u8>, input: Seq<u8>) -> Seq<u8>;

/// Calls `blake2b_simd::Params::new().personal(personal).hash(input)` and returns the
/// 64 digest bytes. Trusted: the digest is the named value `blake2b_personal` of the
/// personalization and the input. The crate panics on a personalization longer than
/// 16 bytes, which `requires` rules out.
#[verifier::external_body]
pub(crate) fn blake2b_512_personal(personal: &[u8], input: &[u8]) -> (digest: [u8; 64])
    requires
        personal@.len() <= 16,
    ensures
        digest@ == blake2b_personal(personal@, input@),
{
    *blake2b_simd::Params::new().personal(personal).hash(input).as_array()
}

/// Calls `ark_ff::PrimeField::from_le_bytes_mod_order` on the field of `ark_ed_on_bls12_377::Fq`
/// and returns the little-endian encoding of the canonical representative. Trusted: the
/// result encodes, in 32 bytes, the little-endian integer of `bytes` reduced modulo the field
/// order, as the function's documentation says.
#[verifier::external_body]
pub(crate) fn fq_from_le_bytes_mod_order(bytes: &[u8]) -> (encoding: [u8; 32])
    ensures
        encoding@ == le_bytes(le_nat(bytes@) % fq_modulus(), 32),
{
    let element = ark_ed_on_bls12_377::Fq::from_le_bytes_mod_order(bytes);
    let mut encoding = [0u8; 32];
    encoding.copy_from_slice(&element.into_bigint().to_bytes_le());
    encoding
}

} // verus!
