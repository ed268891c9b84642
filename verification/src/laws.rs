//! What holds of the library as a whole, proved from the contracts of its parts.

use vstd::prelude::*;
use vstd::utf8::encode_utf8;
use crate::aead::{opened, spec_aes_gcm_open, KEY_LEN, NONCE_LEN};
use crate::codec::{byte_member, decoded_hybrid, decoded_session, read_back, spec_json_object, text_member, Members};
use crate::encoding::spec_b64_decode;
use crate::error::ErrorView;
use crate::hybrid::{hybrid_opened, hybrid_opened_json, hybrid_sealed};
use crate::packet::{asym_alg, sym_alg, HybridPacketView, SessionKeyInfoView, SessionPacketView};
use crate::rsa_keys::{key_pair, spec_oaep_decrypt, spec_oaep_encrypt, spec_parse_private_key, spec_parse_public_key, wraps, PrivateKeyView, PublicKeyView, OAEP_SEED_LEN};
use crate::sealing::{lemma_open_sealed, opened_text};
use crate::server::{server_opened, server_opened_json, unwrapped_key};
use crate::session::{age, ensured, outbound_key, reusable, session_opened, session_sealed, SessionStateView, MAX_AGE_MS};

verus! {

/// The private half of a key pair unwraps what was wrapped under the public
/// half.
pub proof fn lemma_unwraps_what_was_wrapped(
    public: PublicKeyView,
    private: PrivateKeyView,
    key: Seq<u8>,
    wrapped: Seq<u8>,
)
    requires
        key_pair(public, private),
        wraps(public, key, wrapped),
    ensures
        spec_oaep_decrypt(private, wrapped) == Some(key),
{
    let seed = choose|seed: Seq<u8>|
        seed.len() == OAEP_SEED_LEN && #[trigger] spec_oaep_encrypt(public, seed, key) == Some(
            wrapped,
        );
    assert(spec_oaep_encrypt(public, seed, key) is Some);
}

/// A packet that was sealed has a header in order, so that written as JSON
/// and read back it is the same packet.
pub proof fn lemma_sealed_packets_are_in_order(
    public: PublicKeyView,
    key: Seq<u8>,
    plaintext: Seq<char>,
    session_packet: SessionPacketView,
    hybrid_packet: HybridPacketView,
)
    ensures
        session_sealed(key, plaintext, session_packet) ==> read_back(
            session_packet.verdict(),
            session_packet,
        ) == Ok::<SessionPacketView, ErrorView>(session_packet),
        hybrid_sealed(public, plaintext, hybrid_packet) ==> read_back(
            hybrid_packet.verdict(),
            hybrid_packet,
        ) == Ok::<HybridPacketView, ErrorView>(hybrid_packet),
{
}

/// Round trip of the hybrid packet: whatever `encrypt_hybrid` made for a
/// public key and a text, `decrypt_hybrid` reads as that text with the private
/// key of the same pair.
pub proof fn lemma_hybrid_round_trip(
    public: PublicKeyView,
    private_key_pem: Seq<char>,
    private: PrivateKeyView,
    plaintext: Seq<char>,
    packet: HybridPacketView,
)
    requires
        spec_parse_private_key(private_key_pem) == Some(private),
        key_pair(public, private),
        hybrid_sealed(public, plaintext, packet),
    ensures
        hybrid_opened(Some(private_key_pem), packet) == Ok::<Seq<char>, ErrorView>(plaintext),
{
    let wrapped = spec_b64_decode(packet.wrapped_key_b64)->0;
    let key = choose|key: Seq<u8>|
        key.len() == KEY_LEN && #[trigger] wraps(public, key, wrapped) && crate::sealing::sealed_text(
            key,
            plaintext,
            packet.nonce_b64,
            packet.ciphertext_b64,
        );
    lemma_unwraps_what_was_wrapped(public, private, key, wrapped);
    lemma_open_sealed(key, plaintext, packet.nonce_b64, packet.ciphertext_b64);
    assert(unwrapped_key(Some(private_key_pem), packet.wrapped_key_b64) == Ok::<
        Seq<u8>,
        ErrorView,
    >(key));
}

/// Round trip of the session packet: what the client sealed under a bound
/// session key, the client reads with that key, and the server reads with the
/// wrapped key and the private key of the pair.
pub proof fn lemma_session_round_trip(
    state: SessionStateView,
    private_key_pem: Seq<char>,
    private: PrivateKeyView,
    plaintext: Seq<char>,
    packet: SessionPacketView,
)
    requires
        state.is_bound(),
        spec_parse_private_key(private_key_pem) == Some(private),
        key_pair(spec_parse_public_key(state.pubkey_pem)->0, private),
        session_sealed(state.key, plaintext, packet),
    ensures
        session_opened(Some(state), packet) == Ok::<Seq<char>, ErrorView>(plaintext),
        server_opened(Some(private_key_pem), state.wrapped_key_b64, packet) == Ok::<
            Seq<char>,
            ErrorView,
        >(plaintext),
{
    let public = spec_parse_public_key(state.pubkey_pem)->0;
    let wrapped = spec_b64_decode(state.wrapped_key_b64)->0;
    lemma_unwraps_what_was_wrapped(public, private, state.key, wrapped);
    lemma_open_sealed(state.key, plaintext, packet.nonce_b64, packet.ciphertext_b64);
    assert(unwrapped_key(Some(private_key_pem), state.wrapped_key_b64) == Ok::<Seq<u8>, ErrorView>(
        state.key,
    ));
}

/// Tampering is reported as one error: where both fields are still base64 and
/// the cipher rejects the nonce or the ciphertext, opening gives
/// `AuthenticationFailure`, never a text.
pub proof fn lemma_rejected_is_authentication_failure(
    key: Seq<u8>,
    nonce_b64: Seq<char>,
    ciphertext_b64: Seq<char>,
)
    requires
        spec_b64_decode(nonce_b64) is Some,
        spec_b64_decode(ciphertext_b64) is Some,
        opened(key, spec_b64_decode(nonce_b64)->0, spec_b64_decode(ciphertext_b64)->0) is None,
    ensures
        opened_text(key, nonce_b64, ciphertext_b64) == Err::<Seq<char>, ErrorView>(
            ErrorView::AuthenticationFailure,
        ),
{
}

/// Nothing is read that the cipher did not authenticate: a text comes out
/// only where both fields are base64, the nonce has 12 bytes, and the cipher
/// opens the ciphertext under the key and that nonce to the bytes of that
/// very text.
pub proof fn lemma_opened_text_is_authentic(
    key: Seq<u8>,
    nonce_b64: Seq<char>,
    ciphertext_b64: Seq<char>,
    text: Seq<char>,
)
    requires
        opened_text(key, nonce_b64, ciphertext_b64) == Ok::<Seq<char>, ErrorView>(text),
    ensures
        spec_b64_decode(nonce_b64) matches Some(nonce) && spec_b64_decode(ciphertext_b64) matches Some(
            sealed,
        ) && nonce.len() == NONCE_LEN && spec_aes_gcm_open(key, nonce, sealed) == Some(
            encode_utf8(text),
        ),
{
    let nonce = spec_b64_decode(nonce_b64)->0;
    let sealed = spec_b64_decode(ciphertext_b64)->0;
    let bytes = opened(key, nonce, sealed)->0;
    vstd::utf8::decode_utf8_encode_utf8(bytes);
}

/// Algorithm pinning on the wire: JSON text whose members are all there and
/// of the right kind, but which names another algorithm than the supported
/// ones, is refused with `UnsupportedAlgorithm`, whatever its other members
/// hold.
pub proof fn lemma_decoding_pins_algorithms(
    text: Seq<char>,
    members: Members,
    v: u8,
    alg: Seq<char>,
    sym_alg_name: Seq<char>,
    nonce_b64: Seq<char>,
    wrapped_key_b64: Seq<char>,
    ciphertext_b64: Seq<char>,
)
    requires
        spec_json_object(text) == Ok::<Members, Seq<char>>(members),
        byte_member(members, "v"@) == Ok::<u8, ErrorView>(v),
        text_member(members, "sym_alg"@) == Ok::<Seq<char>, ErrorView>(sym_alg_name),
        text_member(members, "nonce_b64"@) == Ok::<Seq<char>, ErrorView>(nonce_b64),
        text_member(members, "ciphertext_b64"@) == Ok::<Seq<char>, ErrorView>(ciphertext_b64),
    ensures
        sym_alg_name != sym_alg() ==> decoded_session(text) == Err::<SessionPacketView, ErrorView>(
            ErrorView::UnsupportedAlgorithm,
        ),
        text_member(members, "alg"@) == Ok::<Seq<char>, ErrorView>(alg) && text_member(
            members,
            "wrapped_key_b64"@,
        ) == Ok::<Seq<char>, ErrorView>(wrapped_key_b64) && (alg != asym_alg() || sym_alg_name
            != sym_alg()) ==> decoded_hybrid(text) == Err::<HybridPacketView, ErrorView>(
            ErrorView::UnsupportedAlgorithm,
        ),
{
}

/// Session reuse: a second request for the same public key, made while the
/// key that the first request answered with is within its time to live, gets
/// the same wrapped key, marked as not fresh, and leaves the slot as it is.
pub proof fn lemma_session_reuse(
    slot0: Option<SessionStateView>,
    pubkey_pem: Seq<char>,
    now1: u64,
    slot1: Option<SessionStateView>,
    info1: SessionKeyInfoView,
    now2: u64,
    slot2: Option<SessionStateView>,
    answer2: Result<SessionKeyInfoView, ErrorView>,
)
    requires
        ensured(slot0, pubkey_pem, now1, slot1, Ok(info1)),
        age(now2, info1.created_ms) <= MAX_AGE_MS,
        ensured(slot1, pubkey_pem, now2, slot2, answer2),
    ensures
        answer2 matches Ok(info2) && info2.wrapped_key_b64 == info1.wrapped_key_b64 && !info2.fresh
            && info2.created_ms == info1.created_ms,
        slot2 == slot1,
{
}

/// Session expiry: once the key that a request answered with has outlived its
/// time to live, nothing is sealed under it any more (`SessionExpired`), and
/// the next request that succeeds answers with a key marked as fresh, made at
/// that moment, under which sealing is open again.
pub proof fn lemma_session_expiry(
    slot0: Option<SessionStateView>,
    pubkey_pem: Seq<char>,
    now1: u64,
    slot1: Option<SessionStateView>,
    info1: SessionKeyInfoView,
    now2: u64,
    slot2: Option<SessionStateView>,
    answer2: Result<SessionKeyInfoView, ErrorView>,
)
    requires
        ensured(slot0, pubkey_pem, now1, slot1, Ok(info1)),
        age(now2, info1.created_ms) > MAX_AGE_MS,
        ensured(slot1, pubkey_pem, now2, slot2, answer2),
    ensures
        outbound_key(slot1, now2) == Err::<Seq<u8>, ErrorView>(ErrorView::SessionExpired),
        answer2 matches Ok(info2) ==> info2.fresh && info2.created_ms == now2 && outbound_key(
            slot2,
            now2,
        ) is Ok,
        answer2 is Err ==> outbound_key(slot2, now2) == Err::<Seq<u8>, ErrorView>(
            ErrorView::SessionExpired,
        ),
{
}

/// Key-binding change: a request for another public key than the one the
/// cached key is bound to is never answered with the cached key, however
/// young that key is.
pub proof fn lemma_key_binding_change(
    slot: Option<SessionStateView>,
    pubkey_pem: Seq<char>,
    now_ms: u64,
    after: Option<SessionStateView>,
    answer: Result<SessionKeyInfoView, ErrorView>,
)
    requires
        slot matches Some(state) && state.pubkey_pem != pubkey_pem,
        ensured(slot, pubkey_pem, now_ms, after, answer),
    ensures
        !reusable(slot, pubkey_pem, now_ms),
        answer matches Ok(info) ==> info.fresh && after is Some && after->0.pubkey_pem
            == pubkey_pem,
{
}

/// Algorithm pinning: a packet that names another algorithm than the
/// supported ones is refused with `UnsupportedAlgorithm`, whatever its other
/// fields hold: by the client whatever the slot holds, and by the holder of
/// the private key wherever the key that comes with the packet unwraps.
pub proof fn lemma_algorithm_pinning(
    slot: Option<SessionStateView>,
    private_key_pem: Option<Seq<char>>,
    wrapped_key_b64: Seq<char>,
    session_packet: SessionPacketView,
    hybrid_packet: HybridPacketView,
)
    ensures
        !session_packet.algorithms_match() ==> session_opened(slot, session_packet) == Err::<
            Seq<char>,
            ErrorView,
        >(ErrorView::UnsupportedAlgorithm),
        !session_packet.algorithms_match() && unwrapped_key(private_key_pem, wrapped_key_b64)
            is Ok ==> server_opened(private_key_pem, wrapped_key_b64, session_packet) == Err::<
            Seq<char>,
            ErrorView,
        >(ErrorView::UnsupportedAlgorithm),
        !hybrid_packet.algorithms_match() && unwrapped_key(
            private_key_pem,
            hybrid_packet.wrapped_key_b64,
        ) is Ok ==> hybrid_opened(private_key_pem, hybrid_packet) == Err::<Seq<char>, ErrorView>(
            ErrorView::UnsupportedAlgorithm,
        ),
{
}

/// Without a private key nothing is read: the answer is
/// `PrivateKeyUnavailable`, whatever the wrapped key and the packet are, be
/// the packet text or already decoded.
pub proof fn lemma_no_private_key(
    wrapped_key_b64: Seq<char>,
    session_packet: SessionPacketView,
    hybrid_packet: HybridPacketView,
    packet_json: Seq<char>,
)
    ensures
        unwrapped_key(None, wrapped_key_b64) == Err::<Seq<u8>, ErrorView>(
            ErrorView::PrivateKeyUnavailable,
        ),
        server_opened(None, wrapped_key_b64, session_packet) == Err::<Seq<char>, ErrorView>(
            ErrorView::PrivateKeyUnavailable,
        ),
        server_opened_json(None, wrapped_key_b64, packet_json) == Err::<Seq<char>, ErrorView>(
            ErrorView::PrivateKeyUnavailable,
        ),
        hybrid_opened(None, hybrid_packet) == Err::<Seq<char>, ErrorView>(
            ErrorView::PrivateKeyUnavailable,
        ),
        hybrid_opened_json(None, packet_json) == Err::<Seq<char>, ErrorView>(
            ErrorView::PrivateKeyUnavailable,
        ),
{
}

/// Invalid unwrap length: a wrapped key that opens to fewer or more than 32
/// bytes is refused with `InvalidKeyLength`; one that opens to 32 bytes is
/// taken as it is, never cut or padded.
pub proof fn lemma_unwrap_length(
    private_key_pem: Seq<char>,
    wrapped_key_b64: Seq<char>,
    private: PrivateKeyView,
    wrapped: Seq<u8>,
    bytes: Seq<u8>,
)
    requires
        spec_parse_private_key(private_key_pem) == Some(private),
        spec_b64_decode(wrapped_key_b64) == Some(wrapped),
        spec_oaep_decrypt(private, wrapped) == Some(bytes),
    ensures
        bytes.len() != KEY_LEN ==> unwrapped_key(Some(private_key_pem), wrapped_key_b64) == Err::<
            Seq<u8>,
            ErrorView,
        >(ErrorView::InvalidKeyLength),
        bytes.len() == KEY_LEN ==> unwrapped_key(Some(private_key_pem), wrapped_key_b64) == Ok::<
            Seq<u8>,
            ErrorView,
        >(bytes),
{
}

} // verus!
