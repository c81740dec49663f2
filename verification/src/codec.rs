//! Standard base64 (RFC 4648 alphabet, with padding), through the `base64`
//! crate.

use vstd::prelude::*;

use base64::Engine;

use crate::text::{concat, concat3, decimal_digits, u64_to_decimal};

verus! {

/// Why a base64 text does not decode.
#[derive(Debug, Clone, Copy, PartialEq, Eq, Structural)]
pub enum Base64DecodeError {
    /// A symbol outside the alphabet, at an offset.
    InvalidByte(usize, u8),
    /// The number of symbols is invalid.
    InvalidLength(usize),
    /// The last symbol has bits set that would be discarded.
    InvalidLastSymbol(usize, u8),
    /// Padding is absent or wrong.
    InvalidPadding,
}

/// The standard base64 text of `bytes`.
pub uninterp spec fn base64_encoded(bytes: Seq<u8>) -> Seq<char>;

/// What decoding `text` as standard base64 gives.
pub uninterp spec fn base64_decoded(text: Seq<char>) -> Result<Seq<u8>, Base64DecodeError>;

/// Decoding `text` gives `bytes`.
pub open spec fn decodes_to(text: Seq<char>, bytes: Seq<u8>) -> bool {
    base64_decoded(text) matches Ok(b) && b == bytes
}

/// Decoding `text` fails with `e`.
pub open spec fn decode_fails_with(text: Seq<char>, e: Base64DecodeError) -> bool {
    base64_decoded(text) matches Err(f) && f == e
}

/// Encodes bytes as standard base64 (`STANDARD.encode`). Besides naming the
/// result, states that decoding it gives the bytes back.
#[verifier::external_body]
pub(crate) fn base64_encode(bytes: &[u8]) -> (r: String)
    ensures
        r@ == base64_encoded(bytes@),
        decodes_to(r@, bytes@),
{
    base64::engine::general_purpose::STANDARD.encode(bytes)
}

/// Decodes standard base64 (`STANDARD.decode`), the crate's error turned
/// into [`Base64DecodeError`] variant by variant.
#[verifier::external_body]
pub(crate) fn base64_decode(text: &str) -> (r: Result<Vec<u8>, Base64DecodeError>)
    ensures
        match r {
            Ok(v) => decodes_to(text@, v@),
            Err(e) => decode_fails_with(text@, e),
        },
        r is Ok <==> base64_decoded(text@) is Ok,
{
    match base64::engine::general_purpose::STANDARD.decode(text) {
        Ok(v) => Ok(v),
        Err(base64::DecodeError::InvalidByte(i, b)) => Err(Base64DecodeError::InvalidByte(i, b)),
        Err(base64::DecodeError::InvalidLength(n)) => Err(Base64DecodeError::InvalidLength(n)),
        Err(base64::DecodeError::InvalidLastSymbol(i, b)) => Err(Base64DecodeError::InvalidLastSymbol(i, b)),
        Err(base64::DecodeError::InvalidPadding) => Err(Base64DecodeError::InvalidPadding),
    }
}

/// The text of a decoding error, as the `base64` crate displays it.
pub open spec fn decode_error_text(e: Base64DecodeError) -> Seq<char> {
    match e {
        Base64DecodeError::InvalidByte(i, b) => "Invalid symbol "@ + decimal_digits(b as nat) + ", offset "@
            + decimal_digits(i as nat) + "."@,
        Base64DecodeError::InvalidLength(n) => "Invalid input length: "@ + decimal_digits(n as nat),
        Base64DecodeError::InvalidLastSymbol(i, b) => "Invalid last symbol "@ + decimal_digits(b as nat)
            + ", offset "@ + decimal_digits(i as nat) + "."@,
        Base64DecodeError::InvalidPadding => "Invalid padding"@,
    }
}

/// The text of a decoding error.
pub fn decode_error_message(e: Base64DecodeError) -> (s: String)
    ensures
        s@ == decode_error_text(e),
{
    match e {
        Base64DecodeError::InvalidByte(i, b) => {
            let a = concat3("Invalid symbol ", u64_to_decimal(b as u64).as_str(), ", offset ");
            concat3(a.as_str(), u64_to_decimal(i as u64).as_str(), ".")
        },
        Base64DecodeError::InvalidLength(n) => concat("Invalid input length: ", u64_to_decimal(n as u64).as_str()),
        Base64DecodeError::InvalidLastSymbol(i, b) => {
            let a = concat3("Invalid last symbol ", u64_to_decimal(b as u64).as_str(), ", offset ");
            concat3(a.as_str(), u64_to_decimal(i as u64).as_str(), ".")
        },
        Base64DecodeError::InvalidPadding => String::from_str("Invalid padding"),
    }
}

} // verus!
