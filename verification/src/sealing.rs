//! Sealing a text under a 32-byte key into two base64 fields, and opening it.

use vstd::prelude::*;
use vstd::utf8::{decode_utf8, encode_utf8, valid_utf8};
use crate::aead::{aes_gcm_decrypt, aes_gcm_encrypt_with_nonce, opened, seals, KEY_LEN, MAX_PLAINTEXT_LEN, NONCE_LEN};
use crate::encoding::{b64_decode, b64_encode, spec_b64_decode, spec_b64_encode};
use crate::error::{CryptoError, ErrorView};
use crate::random::random_bytes;

verus! {

/// Turns bytes into a string. Calls `String::from_utf8`, which the standard
/// library documents to succeed exactly on well-formed UTF-8 and then to hold
/// the text that the bytes encode.
#[verifier::external_body]
fn string_from_utf8(bytes: Vec<u8>) -> (res: Option<String>)
    ensures
        match res {
            Some(text) => valid_utf8(bytes@) && text@ == decode_utf8(bytes@),
            None => !valid_utf8(bytes@),
        },
{
    String::from_utf8(bytes).ok()
}

/// Whether `text` is the base64 form of `bytes`, in both directions.
pub open spec fn encodes(text: Seq<char>, bytes: Seq<u8>) -> bool {
    text == spec_b64_encode(bytes) && spec_b64_decode(text) == Some(bytes)
}

/// Whether the two fields hold a nonce and the ciphertext that the cipher
/// gives for `plaintext` under `key` and that nonce.
pub open spec fn sealed_text(
    key: Seq<u8>,
    plaintext: Seq<char>,
    nonce_b64: Seq<char>,
    ciphertext_b64: Seq<char>,
) -> bool {
    &&& spec_b64_decode(nonce_b64) matches Some(nonce)
    &&& spec_b64_decode(ciphertext_b64) matches Some(sealed)
    &&& encodes(nonce_b64, nonce)
    &&& encodes(ciphertext_b64, sealed)
    &&& seals(key, nonce, encode_utf8(plaintext), sealed)
}

/// What opening the two fields under `key` gives: an `EncodingError` where a
/// field is not base64 (the nonce is looked at first), an
/// `AuthenticationFailure` where the cipher rejects them, an
/// `InvalidPlaintextEncoding` where the plaintext is not UTF-8, else the text.
pub open spec fn opened_text(key: Seq<u8>, nonce_b64: Seq<char>, ciphertext_b64: Seq<char>) -> Result<
    Seq<char>,
    ErrorView,
> {
    match spec_b64_decode(nonce_b64) {
        None => Err(ErrorView::EncodingError),
        Some(nonce) => match spec_b64_decode(ciphertext_b64) {
            None => Err(ErrorView::EncodingError),
            Some(sealed) => match opened(key, nonce, sealed) {
                None => Err(ErrorView::AuthenticationFailure),
                Some(bytes) => if valid_utf8(bytes) {
                    Ok(decode_utf8(bytes))
                } else {
                    Err(ErrorView::InvalidPlaintextEncoding)
                },
            },
        },
    }
}

/// What is opened is what was sealed.
pub proof fn lemma_open_sealed(
    key: Seq<u8>,
    plaintext: Seq<char>,
    nonce_b64: Seq<char>,
    ciphertext_b64: Seq<char>,
)
    requires
        sealed_text(key, plaintext, nonce_b64, ciphertext_b64),
    ensures
        opened_text(key, nonce_b64, ciphertext_b64) == Ok::<Seq<char>, ErrorView>(plaintext),
{
    vstd::utf8::encode_utf8_valid_utf8(plaintext);
    vstd::utf8::encode_utf8_decode_utf8(plaintext);
}

/// Seals `plaintext` under `key` with the given nonce; returns the nonce and
/// the ciphertext as base64.
///
/// Fails with `EncryptionFailure` exactly when the text is longer than 2^36
/// bytes.
pub fn seal_text_with_nonce(key: &[u8; 32], nonce: &[u8], plaintext: &str) -> (res: Result<
    (String, String),
    CryptoError,
>)
    requires
        nonce@.len() == NONCE_LEN,
    ensures
        res is Ok <==> encode_utf8(plaintext@).len() <= MAX_PLAINTEXT_LEN,
        match res {
            Ok((nonce_b64, ciphertext_b64)) => {
                &&& sealed_text(key@, plaintext@, nonce_b64@, ciphertext_b64@)
                &&& encodes(nonce_b64@, nonce@)
            },
            Err(e) => e == CryptoError::EncryptionFailure,
        },
{
    let sealed = aes_gcm_encrypt_with_nonce(key, nonce, plaintext.as_bytes())?;
    Ok((b64_encode(nonce), b64_encode(sealed.as_slice())))
}

/// Seals `plaintext` under `key` with a fresh random nonce.
///
/// Fails with `RandomnessUnavailable` when no nonce can be drawn, and with
/// `EncryptionFailure` only on a text longer than 2^36 bytes.
pub fn seal_text(key: &[u8; 32], plaintext: &str) -> (res: Result<(String, String), CryptoError>)
    ensures
        match res {
            Ok((nonce_b64, ciphertext_b64)) => sealed_text(
                key@,
                plaintext@,
                nonce_b64@,
                ciphertext_b64@,
            ),
            Err(e) => e@ == ErrorView::RandomnessUnavailable || (e
                == CryptoError::EncryptionFailure && encode_utf8(plaintext@).len()
                > MAX_PLAINTEXT_LEN),
        },
{
    let nonce = random_bytes(NONCE_LEN)?;
    seal_text_with_nonce(key, nonce.as_slice(), plaintext)
}

/// Opens the two base64 fields under `key`.
pub fn open_text(key: &[u8; 32], nonce_b64: &str, ciphertext_b64: &str) -> (res: Result<
    String,
    CryptoError,
>)
    ensures
        match res {
            Ok(text) => opened_text(key@, nonce_b64@, ciphertext_b64@) == Ok::<
                Seq<char>,
                ErrorView,
            >(text@),
            Err(e) => opened_text(key@, nonce_b64@, ciphertext_b64@) == Err::<
                Seq<char>,
                ErrorView,
            >(e@),
        },
{
    let nonce = b64_decode(nonce_b64)?;
    let sealed = b64_decode(ciphertext_b64)?;
    let bytes = aes_gcm_decrypt(key, nonce.as_slice(), sealed.as_slice())?;
    match string_from_utf8(bytes) {
        Some(text) => Ok(text),
        None => Err(CryptoError::InvalidPlaintextEncoding),
    }
}

/// What a key of 32 bytes is made of: the unwrapped bytes themselves, or
/// `InvalidKeyLength` where there are fewer or more than 32.
pub open spec fn key_of(bytes: Seq<u8>) -> Result<Seq<u8>, ErrorView> {
    if bytes.len() == KEY_LEN {
        Ok(bytes)
    } else {
        Err(ErrorView::InvalidKeyLength)
    }
}

/// Takes unwrapped bytes for a key: all 32 of them, never a cut or padded key.
pub fn key_from_unwrapped(bytes: &[u8]) -> (res: Result<[u8; 32], CryptoError>)
    ensures
        match res {
            Ok(key) => key_of(bytes@) == Ok::<Seq<u8>, ErrorView>(key@),
            Err(e) => key_of(bytes@) == Err::<Seq<u8>, ErrorView>(e@),
        },
{
    if bytes.len() != KEY_LEN {
        return Err(CryptoError::InvalidKeyLength);
    }
    let mut key = [0u8; 32];
    let mut i: usize = 0;
    while i < KEY_LEN
        invariant
            i <= KEY_LEN,
            bytes@.len() == KEY_LEN,
            forall|j: int| 0 <= j < i ==> key@[j] == bytes@[j],
        decreases KEY_LEN - i,
    {
        key[i] = bytes[i];
        i += 1;
    }
    proof {
        assert(key@ =~= bytes@);
    }
    Ok(key)
}

} // verus!
