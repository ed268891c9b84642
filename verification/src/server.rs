//! The server's side of a session: it keeps no key, and unwraps the one that
//! comes with each message.

use vstd::prelude::*;
use vstd::string::StringExecFns;
use vstd::utf8::encode_utf8;
use crate::aead::MAX_PLAINTEXT_LEN;
use crate::codec::{decode_session, decoded_session};
use crate::encoding::{b64_decode, spec_b64_decode};
use crate::error::{CryptoError, ErrorView};
use crate::packet::{SessionPacket, SessionPacketView, PACKET_VERSION};
use crate::rsa_keys::{parse_rsa_private_key, rsa_oaep_unwrap, spec_oaep_decrypt, spec_parse_private_key};
use crate::sealing::{key_from_unwrapped, key_of, open_text, opened_text, seal_text};
use crate::session::session_sealed;

verus! {

/// The private key text that the caller has, if any.
pub open spec fn pem_text(pem: Option<&str>) -> Option<Seq<char>> {
    match pem {
        Some(text) => Some(text@),
        None => None,
    }
}

/// The session key that the private key unwraps from `wrapped_key_b64`.
///
/// In this order: `PrivateKeyUnavailable` without a private key;
/// `UnwrapFailure` where its text is no key; `EncodingError` where the wrapped
/// key is not base64; `UnwrapFailure` where it does not open under the key;
/// `InvalidKeyLength` where what opens is not 32 bytes long.
pub open spec fn unwrapped_key(private_key_pem: Option<Seq<char>>, wrapped_key_b64: Seq<char>) -> Result<
    Seq<u8>,
    ErrorView,
> {
    match private_key_pem {
        None => Err(ErrorView::PrivateKeyUnavailable),
        Some(pem) => match spec_parse_private_key(pem) {
            None => Err(ErrorView::UnwrapFailure),
            Some(private) => match spec_b64_decode(wrapped_key_b64) {
                None => Err(ErrorView::EncodingError),
                Some(wrapped) => match spec_oaep_decrypt(private, wrapped) {
                    None => Err(ErrorView::UnwrapFailure),
                    Some(bytes) => key_of(bytes),
                },
            },
        },
    }
}

/// What the server reads in `packet` with the key that comes wrapped beside
/// it. The key is unwrapped first, so that without a private key the answer
/// is `PrivateKeyUnavailable` whatever the packet holds; then the header is
/// judged; then the ciphertext is opened.
pub open spec fn server_opened(
    private_key_pem: Option<Seq<char>>,
    wrapped_key_b64: Seq<char>,
    packet: SessionPacketView,
) -> Result<Seq<char>, ErrorView> {
    match unwrapped_key(private_key_pem, wrapped_key_b64) {
        Err(e) => Err(e),
        Ok(key) => match packet.verdict() {
            Err(e) => Err(e),
            Ok(()) => opened_text(key, packet.nonce_b64, packet.ciphertext_b64),
        },
    }
}

/// What the server reads in the JSON text of a packet with the key that comes
/// wrapped beside it. The key is unwrapped first, then the text is decoded,
/// then the ciphertext is opened.
pub open spec fn server_opened_json(
    private_key_pem: Option<Seq<char>>,
    wrapped_key_b64: Seq<char>,
    packet_json: Seq<char>,
) -> Result<Seq<char>, ErrorView> {
    match unwrapped_key(private_key_pem, wrapped_key_b64) {
        Err(e) => Err(e),
        Ok(key) => match decoded_session(packet_json) {
            Err(e) => Err(e),
            Ok(packet) => opened_text(key, packet.nonce_b64, packet.ciphertext_b64),
        },
    }
}

/// Unwraps the 32-byte session key with the server's private key.
///
/// `private_key_pem` is the key's PEM text in normal form, or `None` where
/// the caller has no private key: it is then no server.
pub fn unwrap_session_key_with_priv(private_key_pem: Option<&str>, wrapped_key_b64: &str) -> (res:
    Result<[u8; 32], CryptoError>)
    ensures
        match res {
            Ok(key) => unwrapped_key(pem_text(private_key_pem), wrapped_key_b64@) == Ok::<
                Seq<u8>,
                ErrorView,
            >(key@),
            Err(e) => unwrapped_key(pem_text(private_key_pem), wrapped_key_b64@) == Err::<
                Seq<u8>,
                ErrorView,
            >(e@),
        },
{
    let pem = match private_key_pem {
        Some(pem) => pem,
        None => {
            return Err(CryptoError::PrivateKeyUnavailable);
        },
    };
    let priv_key = parse_rsa_private_key(pem)?;
    let wrapped = b64_decode(wrapped_key_b64)?;
    let sym_key = rsa_oaep_unwrap(&priv_key, wrapped.as_slice())?;
    key_from_unwrapped(sym_key.as_slice())
}

/// Opens a session packet on the server, with the wrapped key that came
/// beside it. The key is unwrapped anew on every call, and before the packet
/// is looked at.
pub fn server_decrypt_with_wrapped(
    private_key_pem: Option<&str>,
    wrapped_key_b64: &str,
    packet: &SessionPacket,
) -> (res: Result<String, CryptoError>)
    ensures
        match res {
            Ok(text) => server_opened(pem_text(private_key_pem), wrapped_key_b64@, packet@) == Ok::<
                Seq<char>,
                ErrorView,
            >(text@),
            Err(e) => server_opened(pem_text(private_key_pem), wrapped_key_b64@, packet@) == Err::<
                Seq<char>,
                ErrorView,
            >(e@),
        },
{
    let key = unwrap_session_key_with_priv(private_key_pem, wrapped_key_b64)?;
    packet.check()?;
    open_text(&key, packet.nonce_b64.as_str(), packet.ciphertext_b64.as_str())
}

/// Opens a session packet on the server that arrives as JSON text, with the
/// wrapped key that came beside it: unwraps the key, decodes the text, opens
/// the ciphertext, and fails with the first of these that fails.
pub fn server_decrypt_json(private_key_pem: Option<&str>, wrapped_key_b64: &str, packet_json: &str) -> (res:
    Result<String, CryptoError>)
    ensures
        match res {
            Ok(text) => server_opened_json(
                pem_text(private_key_pem),
                wrapped_key_b64@,
                packet_json@,
            ) == Ok::<Seq<char>, ErrorView>(text@),
            Err(e) => server_opened_json(
                pem_text(private_key_pem),
                wrapped_key_b64@,
                packet_json@,
            ) == Err::<Seq<char>, ErrorView>(e@),
        },
{
    let key = unwrap_session_key_with_priv(private_key_pem, wrapped_key_b64)?;
    let packet = decode_session(packet_json)?;
    open_text(&key, packet.nonce_b64.as_str(), packet.ciphertext_b64.as_str())
}

/// Seals a text on the server under the session key that the client sent
/// wrapped.
///
/// Fails as the unwrapping does; with the key in hand it fails only where no
/// nonce can be drawn or the text is longer than 2^36 bytes.
pub fn server_encrypt_with_wrapped(
    private_key_pem: Option<&str>,
    wrapped_key_b64: &str,
    plaintext_json: &str,
) -> (res: Result<SessionPacket, CryptoError>)
    ensures
        match unwrapped_key(pem_text(private_key_pem), wrapped_key_b64@) {
            Err(refusal) => res matches Err(e) && e@ == refusal,
            Ok(key) => match res {
                Ok(packet) => session_sealed(key, plaintext_json@, packet@),
                Err(e) => e@ == ErrorView::RandomnessUnavailable || (e
                    == CryptoError::EncryptionFailure && encode_utf8(plaintext_json@).len()
                    > MAX_PLAINTEXT_LEN),
            },
        },
{
    let key = unwrap_session_key_with_priv(private_key_pem, wrapped_key_b64)?;
    let (nonce_b64, ciphertext_b64) = seal_text(&key, plaintext_json)?;
    Ok(
        SessionPacket {
            v: PACKET_VERSION,
            sym_alg: String::from_str("AES-256-GCM"),
            nonce_b64,
            ciphertext_b64,
        },
    )
}

} // verus!
