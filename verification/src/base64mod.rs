//! Standard base64 encoding and decoding, provided by an outside crate.
//!
//! Both directions are pure functions of the input text. Their results are
//! named rather than spelled out: `encode_base64` returns exactly
//! `base64_encode_of` of its input, and `decode_base64` succeeds exactly
//! where `base64_decode_of` is `Some`, with exactly those bytes. A decode
//! failure is the one non-fatal error of the library: it stays inside the
//! tab that asked for it.

use vstd::prelude::*;

use base64::Engine;

verus! {

/// The text that standard base64 encoding (with padding) produces for the
/// UTF-8 bytes of `s`: a function of `s` alone.
pub uninterp spec fn base64_encode_of(s: Seq<char>) -> Seq<char>;

/// The bytes that standard base64 decoding (with padding) yields for `s`:
/// `Some` exactly on well-formed standard base64, `None` on anything else;
/// a function of `s` alone.
pub uninterp spec fn base64_decode_of(s: Seq<char>) -> Option<Seq<u8>>;

/// The decode error of base64's engine, carried through untouched.
#[verifier::external_type_specification]
#[verifier::external_body]
pub struct ExDecodeError(base64::DecodeError);

/// Failure of an encoding utility: the input was not well-formed for the
/// encoding at hand. Local to the tab that decoded; never fatal.
#[derive(Clone, Copy, Debug, PartialEq, Eq, Structural)]
pub enum EncodingError {
    InvalidEncoding,
}

/// Encode a text's UTF-8 bytes as standard base64.
///
/// Relies on base64's `Engine::encode` with the standard alphabet and
/// padding: the result is a function of the input text alone. The length
/// bound keeps the engine's encoded-size computation from overflowing.
#[verifier::external_body]
pub fn encode_base64(input: &str) -> (r: String)
    requires
        input@.len() <= usize::MAX / 16,
    ensures
        r@ == base64_encode_of(input@),
{
    base64::prelude::BASE64_STANDARD.encode(input)
}

/// Relies on base64's `Engine::decode` with the standard alphabet and
/// padding: success and the decoded bytes are a function of the input text
/// alone.
#[verifier::external_body]
fn b64_decode(input: &str) -> (r: Result<Vec<u8>, base64::DecodeError>)
    ensures
        match r {
            Ok(v) => base64_decode_of(input@) == Some(v@),
            Err(_) => base64_decode_of(input@) is None,
        },
{
    base64::prelude::BASE64_STANDARD.decode(input)
}

/// Decode standard base64 back into bytes. Returns `Ok` with exactly the
/// encoded bytes when the input is well-formed standard base64, and
/// `InvalidEncoding` otherwise.
pub fn decode_base64(input: &str) -> (r: Result<Vec<u8>, EncodingError>)
    ensures
        match r {
            Ok(v) => base64_decode_of(input@) == Some(v@),
            Err(e) => base64_decode_of(input@) is None && e == EncodingError::InvalidEncoding,
        },
{
    match b64_decode(input) {
        Ok(v) => Ok(v),
        Err(_) => Err(EncodingError::InvalidEncoding),
    }
}

} // verus!
