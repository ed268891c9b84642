//! Unpadded URL-safe base64, as the packets carry their binary fields.

use vstd::prelude::*;
use crate::error::{sentence, CryptoError, ErrorView};
use base64::Engine;

verus! {

/// The unpadded URL-safe base64 text of `bytes`.
pub uninterp spec fn spec_b64_encode(bytes: Seq<u8>) -> Seq<char>;

/// The bytes that `text` stands for in unpadded URL-safe base64, or `None`
/// where `text` is not such an encoding.
pub uninterp spec fn spec_b64_decode(text: Seq<char>) -> Option<Seq<u8>>;

/// Whether `c` is in the URL-safe alphabet: a letter, a digit, `-` or `_`.
pub open spec fn is_b64_char(c: char) -> bool {
    ||| 'A' <= c <= 'Z'
    ||| 'a' <= c <= 'z'
    ||| '0' <= c <= '9'
    ||| c == '-'
    ||| c == '_'
}

/// How many characters encode `len` bytes without padding: four for every
/// three bytes, two for one byte left over, three for two.
pub open spec fn encoded_len(len: nat) -> nat {
    ((4 * len + 2) / 3) as nat
}

/// The error of the `base64` crate's decoder, carried through unread.
#[verifier::external_type_specification]
#[verifier::external_body]
pub struct ExBase64DecodeError(base64::DecodeError);

/// Encodes bytes as unpadded URL-safe base64.
///
/// Calls `Engine::encode` of `base64::engine::general_purpose::URL_SAFE_NO_PAD`.
/// Taken on trust: the text is the engine's encoding of the input, made of
/// characters of the URL-safe alphabet alone, without padding and so of the
/// length that the input's length gives; and the same engine decodes that
/// text back to the input (it writes canonical text, which is what its
/// decoder asks for).
#[verifier::external_body]
pub fn b64_encode(input: &[u8]) -> (text: String)
    ensures
        text@ == spec_b64_encode(input@),
        spec_b64_decode(text@) == Some(input@),
        text@.len() == encoded_len(input@.len()),
        forall|i: int| 0 <= i < text@.len() ==> is_b64_char(#[trigger] text@[i]),
{
    base64::engine::general_purpose::URL_SAFE_NO_PAD.encode(input)
}

/// Calls `Engine::decode` of `base64::engine::general_purpose::URL_SAFE_NO_PAD`.
/// Taken on trust: the call succeeds exactly on the texts that the engine
/// accepts, and then returns the bytes they stand for.
#[verifier::external_body]
fn b64_decode_engine(input: &str) -> (res: Result<Vec<u8>, base64::DecodeError>)
    ensures
        match res {
            Ok(bytes) => spec_b64_decode(input@) == Some(bytes@),
            Err(_) => spec_b64_decode(input@) is None,
        },
{
    base64::engine::general_purpose::URL_SAFE_NO_PAD.decode(input)
}

/// Decodes unpadded URL-safe base64. A character outside the alphabet, a
/// padding sign or a dangling group is an `EncodingError`.
pub fn b64_decode(input: &str) -> (res: Result<Vec<u8>, CryptoError>)
    ensures
        match res {
            Ok(bytes) => spec_b64_decode(input@) == Some(bytes@),
            Err(e) => e@ == ErrorView::EncodingError && spec_b64_decode(input@) is None,
        },
{
    match b64_decode_engine(input) {
        Ok(bytes) => Ok(bytes),
        Err(e) => Err(CryptoError::EncodingError(sentence("base64 decode error: ", e.to_string().as_str()))),
    }
}

} // verus!
