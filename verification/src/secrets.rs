//! The decoding of the form in which the secrets are stored.

use vstd::prelude::*;
use vstd::utf8::{decode_utf8, valid_utf8};

verus! {

/// Why a stored secret could not be decoded. Each variant holds what the
/// decoder said of the failure.
#[derive(Debug)]
pub enum SecretError {
    /// The stored text is not base64.
    Base64(String),
    /// The decoded bytes are not UTF-8.
    Utf8(String),
}

impl SecretError {
    /// The text that describes the failure.
    pub fn message(&self) -> (text: String)
        ensures
            match self {
                SecretError::Base64(detail) => text@ == "base64 decode error: "@ + detail@,
                SecretError::Utf8(detail) => text@ == "utf8 error: "@ + detail@,
            },
    {
        match self {
            SecretError::Base64(detail) => {
                let mut text = "base64 decode error: ".to_owned();
                text.append(detail.as_str());
                text
            },
            SecretError::Utf8(detail) => {
                let mut text = "utf8 error: ".to_owned();
                text.append(detail.as_str());
                text
            },
        }
    }
}

/// The bytes that the base64 library's standard engine decodes `encoded` to
/// (`Engine::decode` of `BASE64_STANDARD`); none where it rejects the text.
pub uninterp spec fn base64_decoded(encoded: Seq<char>) -> Option<Seq<u8>>;

/// What a stored secret decodes to: the text whose UTF-8 encoding is what the
/// stored text holds in base64.
pub open spec fn secret_of(encoded: Seq<char>) -> Option<Seq<char>> {
    match base64_decoded(encoded) {
        Some(bytes) => if valid_utf8(bytes) {
            Some(decode_utf8(bytes))
        } else {
            None
        },
        None => None,
    }
}

/// Decodes with base64's `Engine::decode` on the `BASE64_STANDARD` engine; an
/// error is handed out as the text that its `Display` writes.
///
/// Claimed: whether the text is accepted, and the bytes it decodes to, are a
/// function of the text alone.
#[verifier::external_body]
pub(crate) fn base64_decode(encoded: &str) -> (decoded: Result<Vec<u8>, String>)
    ensures
        match decoded {
            Ok(bytes) => base64_decoded(encoded@) == Some(bytes@),
            Err(_) => base64_decoded(encoded@) is None,
        },
{
    base64::Engine::decode(&base64::prelude::BASE64_STANDARD, encoded).map_err(|error| error.to_string())
}

/// Decodes with std's `String::from_utf8`; an error is handed out as the
/// text that its `Display` writes.
///
/// Claimed: the bytes are accepted where they are valid UTF-8, and the text
/// is then what they encode.
#[verifier::external_body]
pub(crate) fn utf8_decode(bytes: Vec<u8>) -> (text: Result<String, String>)
    ensures
        match text {
            Ok(text) => valid_utf8(bytes@) && text@ == decode_utf8(bytes@),
            Err(_) => !valid_utf8(bytes@),
        },
{
    String::from_utf8(bytes).map_err(|error| error.to_string())
}

/// Decodes base64 text that has been decoded to `decoded` already: the text
/// that the bytes encode, where they are UTF-8.
pub fn decoded_to_string(decoded: Result<Vec<u8>, String>) -> (secret: Result<String, SecretError>)
    ensures
        match decoded {
            Ok(bytes) => if valid_utf8(bytes@) {
                secret matches Ok(text) && text@ == decode_utf8(bytes@)
            } else {
                secret matches Err(SecretError::Utf8(_))
            },
            Err(detail) => secret matches Err(SecretError::Base64(said)) && said@ == detail@,
        },
{
    match decoded {
        Ok(bytes) => match utf8_decode(bytes) {
            Ok(text) => Ok(text),
            Err(detail) => Err(SecretError::Utf8(detail)),
        },
        Err(detail) => Err(SecretError::Base64(detail)),
    }
}

/// Decodes a stored secret: base64 text that holds UTF-8.
pub fn b64_to_string(encoded: &str) -> (secret: Result<String, SecretError>)
    ensures
        match secret {
            Ok(text) => secret_of(encoded@) == Some(text@),
            Err(SecretError::Base64(_)) => base64_decoded(encoded@) is None,
            Err(SecretError::Utf8(_)) => base64_decoded(encoded@) matches Some(bytes) && !valid_utf8(
                bytes,
            ),
        },
{
    decoded_to_string(base64_decode(encoded))
}

} // verus!
