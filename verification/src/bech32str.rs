//! Bech32 text encodings of byte strings, through the `bech32` crate.

use vstd::prelude::*;

use bech32::{FromBase32, ToBase32};

verus! {

/// A human-readable part that the `bech32` crate accepts as it is: 1 to 83 printable
/// ASCII characters, none of them upper case.
pub open spec fn is_lowercase_hrp(hrp: Seq<char>) -> bool {
    &&& 1 <= hrp.len() <= 83
    &&& forall|i: int|
        0 <= i < hrp.len() ==> '!' <= #[trigger] hrp[i] <= '~' && !('A' <= hrp[i] <= 'Z')
}

/// The Bech32m text encoding of `data` under the human-readable part `hrp`.
pub uninterp spec fn bech32m_encoding(hrp: Seq<char>, data: Seq<u8>) -> Seq<char>;

/// What decoding the text `s` as Bech32 or Bech32m gives: the lower-cased human-readable
/// part, the 5-bit groups of the payload, and whether the checksum is the Bech32m one;
/// nothing when `s` is not a valid encoding.
pub uninterp spec fn bech32_decoding(s: Seq<char>) -> Option<(Seq<char>, Seq<u8>, bool)>;

/// The bytes that the 5-bit groups `groups` regroup to; nothing when the groups end in
/// non-zero or excess padding.
pub uninterp spec fn bytes_from_base32(groups: Seq<u8>) -> Option<Seq<u8>>;

/// Calls `bech32::encode(hrp, data.to_base32(), Variant::Bech32m)`. Trusted: the text is
/// the named encoding of `hrp` and `data`, and, as for every valid Bech32m encoding,
/// decoding it gives back `hrp`, the Bech32m checksum, and groups that regroup to `data`.
/// The crate fails only on an invalid human-readable part, which `requires` rules out.
#[verifier::external_body]
pub(crate) fn encode_bech32m(hrp: &str, data: &[u8]) -> (text: String)
    requires
        is_lowercase_hrp(hrp@),
    ensures
        text@ == bech32m_encoding(hrp@, data@),
        bech32_decoding(text@) == Some((hrp@, bech32_decoding(text@).unwrap().1, true)),
        bytes_from_base32(bech32_decoding(text@).unwrap().1) == Some(data@),
{
    bech32::encode(hrp, data.to_base32(), bech32::Variant::Bech32m).unwrap()
}

/// Calls `bech32::decode(s)` and hands out the payload's 5-bit groups as bytes. Trusted:
/// the result is the named decoding of `s`, and every group is below 32.
#[verifier::external_body]
pub(crate) fn decode_bech32(s: &str) -> (decoded: Option<(String, Vec<u8>, bool)>)
    ensures
        match decoded {
            None => bech32_decoding(s@) is None,
            Some((hrp, groups, m)) => bech32_decoding(s@) == Some((hrp@, groups@, m)) && forall|
                i: int,
            | 0 <= i < groups@.len() ==> #[trigger] groups@[i] < 32,
        },
{
    match bech32::decode(s) {
        Ok((hrp, groups, variant)) => {
            let m = match variant {
                bech32::Variant::Bech32 => false,
                bech32::Variant::Bech32m => true,
            };
            Some((hrp, groups.iter().map(|g| g.to_u8()).collect(), m))
        },
        Err(_) => None,
    }
}

/// Calls `Vec::<u8>::from_base32` on the 5-bit groups `groups`. Trusted: the result is the
/// named regrouping of `groups`. Every group must be below 32 to be handed to the crate.
#[verifier::external_body]
pub(crate) fn regroup_base32(groups: &[u8]) -> (bytes: Option<Vec<u8>>)
    requires
        forall|i: int| 0 <= i < groups@.len() ==> #[trigger] groups@[i] < 32,
    ensures
        match bytes {
            None => bytes_from_base32(groups@) is None,
            Some(b) => bytes_from_base32(groups@) == Some(b@),
        },
{
    let groups: Vec<bech32::u5> = groups.iter().map(|g| bech32::u5::try_from_u8(*g).unwrap()).collect();
    Vec::<u8>::from_base32(&groups).ok()
}

} // verus!
