//! The errors of the decoding functions.

use vstd::prelude::*;

verus! {

/// Why a value could not be decoded.
#[derive(Clone, Copy, Debug, PartialEq, Eq, Structural)]
pub enum Error {
    /// A position message carries no trading function.
    MissingTradingFunction,
    /// A position message carries no trading pair.
    MissingTradingPair,
    /// A position nonce is not exactly 32 bytes long.
    NonceLength,
    /// A position identifier is not exactly 32 bytes long.
    IdLength,
    /// A position state message holds a number that names no state.
    MissingPositionState,
    /// A position state name is none of the four state names.
    UnknownPositionState,
    /// The view service's status stream ended before its first report.
    NoSyncStatus,
    /// A text is not a valid Bech32 encoding of bytes.
    Bech32,
    /// A text is encoded with the first Bech32 checksum rather than Bech32m.
    Bech32Variant,
    /// A text's human-readable part is not the one expected.
    Bech32Prefix,
    /// An asset identifier is not the canonical encoding of a field element.
    NonCanonicalAssetId,
}

/// The description of each error.
pub open spec fn error_message(e: Error) -> Seq<char> {
    match e {
        Error::MissingTradingFunction => "missing trading function"@,
        Error::MissingTradingPair => "missing trading pair"@,
        Error::NonceLength => "expected 32-byte nonce"@,
        Error::IdLength => "expected 32-byte id"@,
        Error::MissingPositionState => "missing position state"@,
        Error::UnknownPositionState => "unknown position state"@,
        Error::NoSyncStatus => "view service did not report sync status"@,
        Error::Bech32 => "invalid bech32 encoding"@,
        Error::Bech32Variant => "wrong bech32 variant, expected bech32m"@,
        Error::Bech32Prefix => "wrong bech32 prefix"@,
        Error::NonCanonicalAssetId => "asset id is not a canonical field element"@,
    }
}

impl Error {
    /// A human-readable description of the error.
    pub fn message(&self) -> (message: &'static str)
        ensures
            message@ == error_message(*self),
    {
        match self {
            Error::MissingTradingFunction => "missing trading function",
            Error::MissingTradingPair => "missing trading pair",
            Error::NonceLength => "expected 32-byte nonce",
            Error::IdLength => "expected 32-byte id",
            Error::MissingPositionState => "missing position state",
            Error::UnknownPositionState => "unknown position state",
            Error::NoSyncStatus => "view service did not report sync status",
            Error::Bech32 => "invalid bech32 encoding",
            Error::Bech32Variant => "wrong bech32 variant, expected bech32m",
            Error::Bech32Prefix => "wrong bech32 prefix",
            Error::NonCanonicalAssetId => "asset id is not a canonical field element",
        }
    }
}

} // verus!
