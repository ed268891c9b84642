//! One-shot hybrid encryption: every message carries its own wrapped key.

use vstd::prelude::*;
use vstd::string::StringExecFns;
use vstd::utf8::encode_utf8;
use crate::aead::{KEY_LEN, MAX_PLAINTEXT_LEN};
use crate::codec::{decode_hybrid, decoded_hybrid};
use crate::encoding::{b64_encode, spec_b64_decode};
use crate::error::{CryptoError, ErrorView};
use crate::packet::{asym_alg, sym_alg, HybridPacket, HybridPacketView, PACKET_VERSION};
use crate::random::random_bytes;
use crate::rsa_keys::{parse_rsa_public_key, rsa_oaep_wrap, spec_parse_public_key, wraps, PublicKeyView};
use crate::sealing::{encodes, key_from_unwrapped, open_text, opened_text, seal_text, sealed_text};
use crate::server::{pem_text, unwrap_session_key_with_priv, unwrapped_key};

verus! {

/// Whether `packet` is a hybrid packet for `plaintext` and the holder of
/// `public`: its wrapped key is some 32-byte key encrypted under `public`, and
/// its ciphertext seals `plaintext` under that key.
pub open spec fn hybrid_sealed(public: PublicKeyView, plaintext: Seq<char>, packet: HybridPacketView) -> bool {
    &&& packet.v == PACKET_VERSION
    &&& packet.alg == asym_alg()
    &&& packet.sym_alg == sym_alg()
    &&& spec_b64_decode(packet.wrapped_key_b64) matches Some(wrapped)
    &&& encodes(packet.wrapped_key_b64, wrapped)
    &&& exists|key: Seq<u8>|
        key.len() == KEY_LEN && #[trigger] wraps(public, key, wrapped) && sealed_text(
            key,
            plaintext,
            packet.nonce_b64,
            packet.ciphertext_b64,
        )
}

/// What the holder of the private key reads in `packet`. The key is
/// unwrapped first, so that without a private key the answer is
/// `PrivateKeyUnavailable` whatever the packet holds; then the header is
/// judged; then the ciphertext is opened.
pub open spec fn hybrid_opened(private_key_pem: Option<Seq<char>>, packet: HybridPacketView) -> Result<
    Seq<char>,
    ErrorView,
> {
    match unwrapped_key(private_key_pem, packet.wrapped_key_b64) {
        Err(e) => Err(e),
        Ok(key) => match packet.verdict() {
            Err(e) => Err(e),
            Ok(()) => opened_text(key, packet.nonce_b64, packet.ciphertext_b64),
        },
    }
}

/// What the holder of the private key reads in the JSON text of a hybrid
/// packet. Without a private key the answer is `PrivateKeyUnavailable`
/// whatever the text holds; then the text is decoded; then the packet is
/// read.
pub open spec fn hybrid_opened_json(private_key_pem: Option<Seq<char>>, packet_json: Seq<char>) -> Result<
    Seq<char>,
    ErrorView,
> {
    match private_key_pem {
        None => Err(ErrorView::PrivateKeyUnavailable),
        Some(_) => match decoded_hybrid(packet_json) {
            Err(e) => Err(e),
            Ok(packet) => hybrid_opened(private_key_pem, packet),
        },
    }
}

/// Puts a hybrid packet together from its three parts.
pub fn assemble_hybrid(wrapped: &[u8], nonce_b64: String, ciphertext_b64: String) -> (packet:
    HybridPacket)
    ensures
        packet@ == (HybridPacketView {
            v: PACKET_VERSION,
            alg: asym_alg(),
            sym_alg: sym_alg(),
            nonce_b64: nonce_b64@,
            wrapped_key_b64: packet@.wrapped_key_b64,
            ciphertext_b64: ciphertext_b64@,
        }),
        encodes(packet@.wrapped_key_b64, wrapped@),
{
    HybridPacket {
        v: PACKET_VERSION,
        alg: String::from_str("RSA-OAEP-256"),
        sym_alg: String::from_str("AES-256-GCM"),
        nonce_b64,
        wrapped_key_b64: b64_encode(wrapped),
        ciphertext_b64,
    }
}

/// Encrypts a text for the holder of the private key that belongs to
/// `public_key_pem`, under a key made for this one message.
///
/// No session state is touched. A PEM text that is no key is a
/// `WrapFailure`. Then the key is drawn, the text is sealed and the key is
/// wrapped: the call fails where no randomness is to be had
/// (`RandomnessUnavailable`), the text is longer than 2^36 bytes
/// (`EncryptionFailure`), or 32 bytes with their padding do not fit under the
/// key's modulus (`WrapFailure`), and on nothing else.
pub fn encrypt_hybrid(public_key_pem: &str, plaintext: &str) -> (res: Result<
    HybridPacket,
    CryptoError,
>)
    ensures
        match spec_parse_public_key(public_key_pem@) {
            None => res matches Err(e) && e@ == ErrorView::WrapFailure,
            Some(public) => match res {
                Ok(packet) => public.has_room_for(KEY_LEN as nat) && hybrid_sealed(
                    public,
                    plaintext@,
                    packet@,
                ),
                Err(e) => {
                    ||| e@ == ErrorView::RandomnessUnavailable
                    ||| e == CryptoError::EncryptionFailure && encode_utf8(plaintext@).len()
                        > MAX_PLAINTEXT_LEN
                    ||| e@ == ErrorView::WrapFailure && !public.has_room_for(KEY_LEN as nat)
                },
            },
        },
{
    let pub_key = parse_rsa_public_key(public_key_pem)?;
    let sym_key = random_bytes(KEY_LEN)?;
    let key = key_from_unwrapped(sym_key.as_slice())?;
    let (nonce_b64, ciphertext_b64) = seal_text(&key, plaintext)?;
    let wrapped = rsa_oaep_wrap(&pub_key, sym_key.as_slice())?;
    let packet = assemble_hybrid(wrapped.as_slice(), nonce_b64, ciphertext_b64);
    assert(wraps(pub_key@, key@, wrapped@));
    Ok(packet)
}

/// Decrypts a hybrid packet with the server's private key.
///
/// `private_key_pem` is the key's PEM text in normal form, or `None` where
/// the caller has no private key.
pub fn decrypt_hybrid(private_key_pem: Option<&str>, packet: &HybridPacket) -> (res: Result<
    String,
    CryptoError,
>)
    ensures
        match res {
            Ok(text) => hybrid_opened(pem_text(private_key_pem), packet@) == Ok::<
                Seq<char>,
                ErrorView,
            >(text@),
            Err(e) => hybrid_opened(pem_text(private_key_pem), packet@) == Err::<
                Seq<char>,
                ErrorView,
            >(e@),
        },
{
    let key = unwrap_session_key_with_priv(private_key_pem, packet.wrapped_key_b64.as_str())?;
    packet.check()?;
    open_text(&key, packet.nonce_b64.as_str(), packet.ciphertext_b64.as_str())
}

/// Decrypts a hybrid packet that arrives as JSON text. The private key is
/// asked for before the text is looked at.
pub fn decrypt_hybrid_json(private_key_pem: Option<&str>, packet_json: &str) -> (res: Result<
    String,
    CryptoError,
>)
    ensures
        match res {
            Ok(text) => hybrid_opened_json(pem_text(private_key_pem), packet_json@) == Ok::<
                Seq<char>,
                ErrorView,
            >(text@),
            Err(e) => hybrid_opened_json(pem_text(private_key_pem), packet_json@) == Err::<
                Seq<char>,
                ErrorView,
            >(e@),
        },
{
    if private_key_pem.is_none() {
        return Err(CryptoError::PrivateKeyUnavailable);
    }
    let packet = decode_hybrid(packet_json)?;
    decrypt_hybrid(private_key_pem, &packet)
}

} // verus!
