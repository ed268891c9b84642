//! AES-256-GCM with a 96-bit nonce, a 128-bit tag and no associated data.

use vstd::prelude::*;
use crate::error::{CryptoError, ErrorView};
use crate::random::random_bytes;
use aes_gcm::aead::{Aead, KeyInit};

verus! {

/// The length of a key, in bytes.
pub const KEY_LEN: usize = 32;

/// The length of a nonce, in bytes.
pub const NONCE_LEN: usize = 12;

/// The length of the tag that follows the ciphertext, in bytes.
pub const TAG_LEN: usize = 16;

/// The longest plaintext that the cipher seals, in bytes.
pub const MAX_PLAINTEXT_LEN: u64 = 0x10_0000_0000;

/// The ciphertext and tag that AES-256-GCM gives for `plaintext` under `key`
/// and a 12-byte `nonce`, or `None` where the cipher refuses the plaintext.
pub uninterp spec fn spec_aes_gcm_seal(key: Seq<u8>, nonce: Seq<u8>, plaintext: Seq<u8>) -> Option<
    Seq<u8>,
>;

/// The plaintext that AES-256-GCM recovers from `sealed` (ciphertext and tag)
/// under `key` and a 12-byte `nonce`, or `None` where the tag does not verify.
pub uninterp spec fn spec_aes_gcm_open(key: Seq<u8>, nonce: Seq<u8>, sealed: Seq<u8>) -> Option<
    Seq<u8>,
>;

/// The error of the `aes_gcm` crate, which gives no cause; carried through unread.
#[verifier::external_type_specification]
#[verifier::external_body]
pub struct ExAeadError(aes_gcm::Error);

/// Seals `plaintext` with `Aes256Gcm::encrypt` (trait `Aead`) of the crate `aes_gcm`.
///
/// Taken on trust: the call fails exactly when the plaintext is longer than
/// the cipher's limit of 2^36 bytes; what it returns is the cipher's output for
/// these arguments, 16 bytes longer than the plaintext; and the cipher opens
/// what it sealed. `Nonce::from_slice` panics on a nonce that is not 12 bytes
/// long, which `requires` leaves out.
#[verifier::external_body]
fn aead_seal(key: &[u8; 32], nonce: &[u8], plaintext: &[u8]) -> (res: Result<
    Vec<u8>,
    aes_gcm::Error,
>)
    requires
        nonce@.len() == NONCE_LEN,
    ensures
        res is Ok <==> plaintext@.len() <= MAX_PLAINTEXT_LEN,
        match res {
            Ok(sealed) => {
                &&& spec_aes_gcm_seal(key@, nonce@, plaintext@) == Some(sealed@)
                &&& spec_aes_gcm_open(key@, nonce@, sealed@) == Some(plaintext@)
                &&& sealed@.len() == plaintext@.len() + TAG_LEN
            },
            Err(_) => spec_aes_gcm_seal(key@, nonce@, plaintext@) is None,
        },
{
    let cipher = aes_gcm::Aes256Gcm::new(aes_gcm::Key::<aes_gcm::Aes256Gcm>::from_slice(key));
    cipher.encrypt(aes_gcm::Nonce::from_slice(nonce), plaintext)
}

/// Opens `sealed` with `Aes256Gcm::decrypt` (trait `Aead`) of the crate `aes_gcm`.
///
/// Taken on trust: the call returns the cipher's plaintext for these
/// arguments, and fails where the cipher rejects them. `Nonce::from_slice`
/// panics on a nonce that is not 12 bytes long, which `requires` leaves out.
#[verifier::external_body]
fn aead_open(key: &[u8; 32], nonce: &[u8], sealed: &[u8]) -> (res: Result<Vec<u8>, aes_gcm::Error>)
    requires
        nonce@.len() == NONCE_LEN,
    ensures
        match res {
            Ok(plaintext) => spec_aes_gcm_open(key@, nonce@, sealed@) == Some(plaintext@),
            Err(_) => spec_aes_gcm_open(key@, nonce@, sealed@) is None,
        },
{
    let cipher = aes_gcm::Aes256Gcm::new(aes_gcm::Key::<aes_gcm::Aes256Gcm>::from_slice(key));
    cipher.decrypt(aes_gcm::Nonce::from_slice(nonce), sealed)
}

/// What opening `sealed` under `key` and `nonce` gives: the cipher's
/// plaintext, or `None` where the nonce has the wrong length or the cipher
/// rejects the input.
pub open spec fn opened(key: Seq<u8>, nonce: Seq<u8>, sealed: Seq<u8>) -> Option<Seq<u8>> {
    if nonce.len() == NONCE_LEN {
        spec_aes_gcm_open(key, nonce, sealed)
    } else {
        None
    }
}

/// Whether `sealed` is what the cipher gives for `plaintext` under `key` and
/// `nonce`, and opens to it again.
pub open spec fn seals(key: Seq<u8>, nonce: Seq<u8>, plaintext: Seq<u8>, sealed: Seq<u8>) -> bool {
    &&& nonce.len() == NONCE_LEN
    &&& spec_aes_gcm_seal(key, nonce, plaintext) == Some(sealed)
    &&& spec_aes_gcm_open(key, nonce, sealed) == Some(plaintext)
    &&& sealed.len() == plaintext.len() + TAG_LEN
}

/// Seals `plaintext` under `key_bytes` and the given 12-byte nonce.
///
/// Fails with `EncryptionFailure` exactly when the plaintext is longer than
/// 2^36 bytes.
pub fn aes_gcm_encrypt_with_nonce(key_bytes: &[u8; 32], nonce: &[u8], plaintext: &[u8]) -> (res:
    Result<Vec<u8>, CryptoError>)
    requires
        nonce@.len() == NONCE_LEN,
    ensures
        res is Ok <==> plaintext@.len() <= MAX_PLAINTEXT_LEN,
        match res {
            Ok(sealed) => seals(key_bytes@, nonce@, plaintext@, sealed@),
            Err(e) => e == CryptoError::EncryptionFailure,
        },
{
    match aead_seal(key_bytes, nonce, plaintext) {
        Ok(sealed) => Ok(sealed),
        Err(_) => Err(CryptoError::EncryptionFailure),
    }
}

/// Seals `plaintext` under `key_bytes` and a fresh random nonce; returns the
/// nonce and the ciphertext with its tag.
///
/// Fails with `RandomnessUnavailable` when no nonce can be drawn, and with
/// `EncryptionFailure` only on a plaintext longer than 2^36 bytes.
pub fn aes_gcm_encrypt(key_bytes: &[u8; 32], plaintext: &[u8]) -> (res: Result<
    (Vec<u8>, Vec<u8>),
    CryptoError,
>)
    ensures
        match res {
            Ok((nonce, sealed)) => seals(key_bytes@, nonce@, plaintext@, sealed@),
            Err(e) => e@ == ErrorView::RandomnessUnavailable || (e
                == CryptoError::EncryptionFailure && plaintext@.len() > MAX_PLAINTEXT_LEN),
        },
{
    let nonce = random_bytes(NONCE_LEN)?;
    let sealed = aes_gcm_encrypt_with_nonce(key_bytes, nonce.as_slice(), plaintext)?;
    Ok((nonce, sealed))
}

/// Opens ciphertext and tag under `key_bytes` and `nonce`.
///
/// Fails with `AuthenticationFailure`, whatever the cause: a nonce that is not
/// 12 bytes long, an input shorter than a tag, or a tag that does not verify.
pub fn aes_gcm_decrypt(key_bytes: &[u8; 32], nonce: &[u8], ciphertext: &[u8]) -> (res: Result<
    Vec<u8>,
    CryptoError,
>)
    ensures
        match res {
            Ok(plaintext) => opened(key_bytes@, nonce@, ciphertext@) == Some(plaintext@),
            Err(e) => e == CryptoError::AuthenticationFailure && opened(
                key_bytes@,
                nonce@,
                ciphertext@,
            ) is None,
        },
{
    if nonce.len() != NONCE_LEN {
        return Err(CryptoError::AuthenticationFailure);
    }
    match aead_open(key_bytes, nonce, ciphertext) {
        Ok(plaintext) => Ok(plaintext),
        Err(_) => Err(CryptoError::AuthenticationFailure),
    }
}

} // verus!
