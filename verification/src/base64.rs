//! Base64 text of byte strings, by the `base64` crate.

use vstd::prelude::*;

verus! {

/// Why a text is no base64.
#[derive(Debug, Clone, PartialEq, Eq)]
pub enum DecodeError {
    /// A byte outside the alphabet, with its offset.
    InvalidByte(usize, u8),
    /// The length is that of no encoding.
    InvalidLength,
    /// The last symbol holds bits that no encoding sets, with its offset.
    InvalidLastSymbol(usize, u8),
    /// Padding is missing or misplaced.
    InvalidPadding,
}

/// The standard-alphabet base64 text of `input`, padded with `=`.
pub uninterp spec fn standard_encoding(input: Seq<u8>) -> Seq<char>;

/// The URL-safe-alphabet base64 text of `input`, without padding.
pub uninterp spec fn urlsafe_encoding(input: Seq<u8>) -> Seq<char>;

/// The bytes that the standard-alphabet, padded base64 text `input` stands
/// for, or why it stands for none.
pub uninterp spec fn standard_decoding(input: Seq<char>) -> Result<Seq<u8>, DecodeError>;

/// Decodes standard-alphabet base64 with padding.
///
/// Trusted: `Engine::decode` of `general_purpose::STANDARD` of `base64`,
/// a function of the text alone; its result is named
/// [`standard_decoding`].
#[verifier::external_body]
pub fn decode(input: &str) -> (decoded: Result<Vec<u8>, DecodeError>)
    ensures
        decoded matches Ok(bytes) ==> standard_decoding(input@) is Ok && standard_decoding(
            input@,
        )->Ok_0 == bytes@,
        decoded matches Err(e) ==> standard_decoding(input@) is Err && standard_decoding(
            input@,
        )->Err_0 == e,
{
    match ::base64::Engine::decode(&::base64::engine::general_purpose::STANDARD, input) {
        Ok(bytes) => Ok(bytes),
        Err(::base64::DecodeError::InvalidByte(at, byte)) => Err(DecodeError::InvalidByte(at, byte)),
        Err(::base64::DecodeError::InvalidLength) => Err(DecodeError::InvalidLength),
        Err(::base64::DecodeError::InvalidLastSymbol(at, byte)) => Err(
            DecodeError::InvalidLastSymbol(at, byte),
        ),
        Err(::base64::DecodeError::InvalidPadding) => Err(DecodeError::InvalidPadding),
    }
}

/// Encodes with the standard alphabet and `=` padding.
///
/// Trusted: `Engine::encode` of `general_purpose::STANDARD` of `base64`, a
/// function of the bytes alone; its result is named [`standard_encoding`].
#[verifier::external_body]
pub fn encode(input: &[u8]) -> (text: String)
    ensures
        text@ == standard_encoding(input@),
{
    ::base64::Engine::encode(&::base64::engine::general_purpose::STANDARD, input)
}

/// Encodes with the URL-safe alphabet and no padding.
///
/// Trusted: `Engine::encode` of `general_purpose::URL_SAFE_NO_PAD` of
/// `base64`, a function of the bytes alone; its result is named
/// [`urlsafe_encoding`].
#[verifier::external_body]
pub fn encode_urlsafe_no_pad(input: &[u8]) -> (text: String)
    ensures
        text@ == urlsafe_encoding(input@),
{
    ::base64::Engine::encode(&::base64::engine::general_purpose::URL_SAFE_NO_PAD, input)
}

} // verus!
