use hybrid_session::encoding::b64_decode;
use hybrid_session::error::{CryptoError, ErrorKind};
use hybrid_session::packet::{SessionKeyInfo, SessionPacket};
use hybrid_session::codec::encode_session;
use hybrid_session::server::{server_decrypt_json, server_decrypt_with_wrapped, server_encrypt_with_wrapped};
use hybrid_session::session::{
    decrypt_with_session, encrypt_with_session, ensure_session_key, install_session_key, session_get_any,
    session_get_if_valid, SessionStore, MAX_AGE_MS,
};
use rsa::pkcs8::{EncodePrivateKey, EncodePublicKey, LineEnding};

const PRIME_A_1: &str = "fb2b4f0afa0be32eb2f320e69441f8bcac083199e277439848e910364e0143acf2b49cc3604e349d8a4632bae7df936559f6c7de4ccad19813763f7e0aeea6a0dc2659341d71a32e17ab7952b070751b2922c6b93cdc85f4ed178d5eadd7f5a3e6ee5bd7ba9b56ffaaa18c2368a520599698fa2ba6e81c4d006dc93764f466af";
const PRIME_A_2: &str = "e4d65c3baf4586b21b0eba4badb6280ed3861948a3dc988ae6f3bedaaa251261744aee4a6459af6db4bf8e49cf71f8d9b269460ac85f7f012e4de4da009e68ede86e10c1c8ab62055b210ba970efb78fd2e70ad611d507a5b43d312ae075f67fbb006846a751c84aeee7ae73003c4e0ef705eb8e08e07c31b718fa64b6e82603";
const PRIME_B_1: &str = "f7a50ac5b7418373c00635cf8f556382d5b5eca209229f6cd6c9e5885c832dda3d1e1e0f5b0782063fd2c97e6a4c36a8ee672bb13950840940474922a6a0e2b228f5e51a74923cbe4ff148acb7ce2af33248308775a339de02bb4b1781a6146710f8e6e61845261af902bf252fba0594a35518bb5ed874d63a52910f938c4c23";
const PRIME_B_2: &str = "e05362fa725250a60b32568e15341783868793737d6cac2282be50444678a6e35fbd589a3ad7debb7aa3f2090d87686021f9fcfc69232ec4e01b285d3442d59df5e9d46b45e52fc28e6af31e8cb1176943101a1604c1ccb484c0a47355f7e0f3961d1db0a4bb53658a4748fc407ee5d4bdcd31acb00351fa6a0ee24e871b0a8f";

fn pems_of(prime1: &str, prime2: &str) -> (String, String) {
    let p = rsa::BigUint::parse_bytes(prime1.as_bytes(), 16).unwrap();
    let q = rsa::BigUint::parse_bytes(prime2.as_bytes(), 16).unwrap();
    let private = rsa::RsaPrivateKey::from_p_q(p, q, rsa::BigUint::from(65537u32)).unwrap();
    let public_pem = private.to_public_key().to_public_key_pem(LineEnding::LF).unwrap();
    let private_pem = private.to_pkcs8_pem(LineEnding::LF).unwrap().to_string();
    (public_pem, private_pem)
}

fn key_pair() -> (String, String) {
    pems_of(PRIME_A_1, PRIME_A_2)
}

fn other_key_pair() -> (String, String) {
    pems_of(PRIME_B_1, PRIME_B_2)
}

const T0: u64 = 1_700_000_000_000;

fn fresh_store(public_pem: &str) -> (SessionStore, SessionKeyInfo) {
    let mut store = SessionStore::new();
    let info = ensure_session_key(&mut store, public_pem, T0).unwrap();
    (store, info)
}

#[test]
fn the_time_to_live_is_a_quarter_of_an_hour() {
    assert_eq!(MAX_AGE_MS, 900_000);
    assert_eq!(MAX_AGE_MS, 15 * 60 * 1000);
}

#[test]
fn a_new_store_is_empty() {
    let store = SessionStore::new();
    assert!(session_get_any(&store).is_none());
    assert!(session_get_if_valid(&store, "any", 0).is_none());
    assert!(store.current_raw_key().is_none());
}

#[test]
fn the_first_request_makes_a_fresh_key() {
    let (public_pem, _) = key_pair();
    let (store, info) = fresh_store(&public_pem);
    assert_eq!(info.v, 1);
    assert_eq!(info.alg, "RSA-OAEP-256");
    assert_eq!(info.sym_alg, "AES-256-GCM");
    assert!(info.fresh);
    assert_eq!(info.created_ms, T0);
    assert_eq!(b64_decode(&info.wrapped_key_b64).unwrap().len(), 256);
    let state = session_get_any(&store).unwrap();
    assert_eq!(state.wrapped_key_b64(), &info.wrapped_key_b64);
    assert_eq!(state.created_ms(), T0);
    assert_eq!(state.pubkey_pem(), &public_pem);
    assert_ne!(store.current_raw_key().unwrap(), [0u8; 32]);
}

#[test]
fn a_second_request_within_the_time_to_live_reuses_the_key() {
    let (public_pem, _) = key_pair();
    let (mut store, first) = fresh_store(&public_pem);
    let key = store.current_raw_key().unwrap();
    let second = ensure_session_key(&mut store, &public_pem, T0 + 1).unwrap();
    assert_eq!(second.wrapped_key_b64, first.wrapped_key_b64);
    assert!(!second.fresh);
    assert_eq!(second.created_ms, T0);
    assert_eq!(second.v, 1);
    assert_eq!(second.alg, "RSA-OAEP-256");
    assert_eq!(second.sym_alg, "AES-256-GCM");
    assert_eq!(store.current_raw_key().unwrap(), key);
}

#[test]
fn the_key_is_reused_up_to_the_last_millisecond() {
    let (public_pem, _) = key_pair();
    let (mut store, first) = fresh_store(&public_pem);
    let last = ensure_session_key(&mut store, &public_pem, T0 + MAX_AGE_MS).unwrap();
    assert!(!last.fresh);
    assert_eq!(last.wrapped_key_b64, first.wrapped_key_b64);
    assert!(session_get_if_valid(&store, &public_pem, T0 + MAX_AGE_MS).is_some());
    assert!(session_get_if_valid(&store, &public_pem, T0 + MAX_AGE_MS + 1).is_none());
}

#[test]
fn after_the_time_to_live_the_key_is_replaced() {
    let (public_pem, _) = key_pair();
    let (mut store, first) = fresh_store(&public_pem);
    let key = store.current_raw_key().unwrap();
    let later = T0 + MAX_AGE_MS + 1;
    assert_eq!(encrypt_with_session(&store, "{}", later), Err(CryptoError::SessionExpired));
    let second = ensure_session_key(&mut store, &public_pem, later).unwrap();
    assert!(second.fresh);
    assert_eq!(second.created_ms, later);
    assert_ne!(second.wrapped_key_b64, first.wrapped_key_b64);
    assert_ne!(store.current_raw_key().unwrap(), key);
    assert!(encrypt_with_session(&store, "{}", later).is_ok());
}

#[test]
fn a_clock_that_ran_backwards_keeps_the_key() {
    let (public_pem, _) = key_pair();
    let (mut store, first) = fresh_store(&public_pem);
    let again = ensure_session_key(&mut store, &public_pem, T0 - 5_000_000).unwrap();
    assert!(!again.fresh);
    assert_eq!(again.wrapped_key_b64, first.wrapped_key_b64);
    assert!(encrypt_with_session(&store, "{}", 0).is_ok());
}

#[test]
fn another_public_key_gets_a_fresh_key_at_once() {
    let (public_pem, _) = key_pair();
    let (other_pem, _) = other_key_pair();
    let (mut store, first) = fresh_store(&public_pem);
    let second = ensure_session_key(&mut store, &other_pem, T0 + 1).unwrap();
    assert!(second.fresh);
    assert_eq!(second.created_ms, T0 + 1);
    assert_ne!(second.wrapped_key_b64, first.wrapped_key_b64);
    assert_eq!(session_get_any(&store).unwrap().pubkey_pem(), &other_pem);
    let back = ensure_session_key(&mut store, &public_pem, T0 + 2).unwrap();
    assert!(back.fresh);
}

#[test]
fn the_same_key_in_other_words_is_another_key() {
    let (public_pem, _) = key_pair();
    let (mut store, _) = fresh_store(&public_pem);
    let respelled = public_pem.replace('\n', "\r\n");
    match ensure_session_key(&mut store, &respelled, T0 + 1) {
        Ok(info) => assert!(info.fresh),
        Err(e) => assert_eq!(e.kind(), ErrorKind::WrapFailure),
    }
}

#[test]
fn a_failed_request_leaves_the_slot_as_it_was() {
    let (public_pem, _) = key_pair();
    let (mut store, first) = fresh_store(&public_pem);
    let key = store.current_raw_key().unwrap();
    assert_eq!(ensure_session_key(&mut store, "no key at all", T0 + 1).map_err(|e| e.kind()), Err(ErrorKind::WrapFailure));
    assert_eq!(store.current_raw_key().unwrap(), key);
    let state = session_get_any(&store).unwrap();
    assert_eq!(state.wrapped_key_b64(), &first.wrapped_key_b64);
    assert_eq!(state.pubkey_pem(), &public_pem);
    let again = ensure_session_key(&mut store, &public_pem, T0 + 2).unwrap();
    assert!(!again.fresh);
    assert_eq!(again.wrapped_key_b64, first.wrapped_key_b64);
}

#[test]
fn a_failed_first_request_leaves_the_slot_empty() {
    let mut store = SessionStore::new();
    assert_eq!(ensure_session_key(&mut store, "", T0).map_err(|e| e.kind()), Err(ErrorKind::WrapFailure));
    assert!(session_get_any(&store).is_none());
    assert_eq!(encrypt_with_session(&store, "{}", T0), Err(CryptoError::NoSessionKey));
}

#[test]
fn an_installed_key_is_what_the_slot_holds() {
    let (public_pem, private_pem) = key_pair();
    let public = hybrid_session::rsa_keys::parse_rsa_public_key(&public_pem).unwrap();
    let key: [u8; 32] = core::array::from_fn(|i| i as u8);
    let wrapped = hybrid_session::rsa_keys::rsa_oaep_wrap_with_seed(&public, &[5u8; 32], &key).unwrap();
    let mut store = SessionStore::new();
    let info = install_session_key(&mut store, &public_pem, key, &wrapped, 42);
    assert_eq!(
        info,
        SessionKeyInfo {
            v: 1,
            alg: "RSA-OAEP-256".to_string(),
            sym_alg: "AES-256-GCM".to_string(),
            wrapped_key_b64: hybrid_session::encoding::b64_encode(&wrapped),
            fresh: true,
            created_ms: 42,
        }
    );
    assert_eq!(store.current_raw_key(), Some(key));
    let state = session_get_any(&store).unwrap();
    assert_eq!(state.pubkey_pem(), &public_pem);
    assert_eq!(state.created_ms(), 42);
    assert_eq!(state.wrapped_key_b64(), &info.wrapped_key_b64);
    assert!(session_get_if_valid(&store, &public_pem, 42 + MAX_AGE_MS).is_some());
    assert!(session_get_if_valid(&store, &format!("{} ", public_pem), 42).is_none());
    assert_eq!(
        hybrid_session::server::unwrap_session_key_with_priv(Some(&private_pem), &info.wrapped_key_b64),
        Ok(key)
    );
}

#[test]
fn without_a_key_nothing_is_sealed_or_opened() {
    let store = SessionStore::new();
    assert_eq!(encrypt_with_session(&store, "{}", T0), Err(CryptoError::NoSessionKey));
    let packet = SessionPacket {
        v: 1,
        sym_alg: "AES-256-GCM".to_string(),
        nonce_b64: "AAAAAAAAAAAAAAAA".to_string(),
        ciphertext_b64: "Uw-K-8dFNrmpY7TxxMtziw".to_string(),
    };
    assert_eq!(decrypt_with_session(&store, &packet), Err(CryptoError::NoSessionKey));
}

#[test]
fn what_the_session_seals_it_opens() {
    let (public_pem, _) = key_pair();
    let (store, _) = fresh_store(&public_pem);
    let packet = encrypt_with_session(&store, "{\"a\":1}", T0 + 10).unwrap();
    assert_eq!(packet.v, 1);
    assert_eq!(packet.sym_alg, "AES-256-GCM");
    assert_eq!(b64_decode(&packet.nonce_b64).unwrap().len(), 12);
    assert_eq!(b64_decode(&packet.ciphertext_b64).unwrap().len(), 7 + 16);
    assert_eq!(decrypt_with_session(&store, &packet), Ok("{\"a\":1}".to_string()));
}

#[test]
fn a_known_key_opens_a_known_packet() {
    let (public_pem, _) = key_pair();
    let public = hybrid_session::rsa_keys::parse_rsa_public_key(&public_pem).unwrap();
    let wrapped = hybrid_session::rsa_keys::rsa_oaep_wrap(&public, &[0u8; 32]).unwrap();
    let mut store = SessionStore::new();
    install_session_key(&mut store, &public_pem, [0u8; 32], &wrapped, 0);
    let packet = SessionPacket {
        v: 1,
        sym_alg: "AES-256-GCM".to_string(),
        nonce_b64: "AAAAAAAAAAAAAAAA".to_string(),
        ciphertext_b64: "Uw-K-8dFNrmpY7TxxMtziw".to_string(),
    };
    assert_eq!(decrypt_with_session(&store, &packet), Ok(String::new()));
}

#[test]
fn an_expired_key_still_opens_what_came_in() {
    let (public_pem, _) = key_pair();
    let (store, _) = fresh_store(&public_pem);
    let packet = encrypt_with_session(&store, "late", T0 + MAX_AGE_MS).unwrap();
    assert_eq!(encrypt_with_session(&store, "late", T0 + MAX_AGE_MS + 1), Err(CryptoError::SessionExpired));
    assert_eq!(decrypt_with_session(&store, &packet), Ok("late".to_string()));
}

#[test]
fn the_server_reads_what_the_client_sealed() {
    let (public_pem, private_pem) = key_pair();
    let mut store = SessionStore::new();
    let info = ensure_session_key(&mut store, &public_pem, T0).unwrap();
    assert!(info.fresh);
    let packet = encrypt_with_session(&store, "{\"a\":1}", T0 + 1).unwrap();
    assert_eq!(
        server_decrypt_with_wrapped(Some(&private_pem), &info.wrapped_key_b64, &packet),
        Ok("{\"a\":1}".to_string())
    );
}

#[test]
fn the_client_reads_what_the_server_sealed() {
    let (public_pem, private_pem) = key_pair();
    let (store, info) = fresh_store(&public_pem);
    let packet = server_encrypt_with_wrapped(Some(&private_pem), &info.wrapped_key_b64, "{\"ok\":true}").unwrap();
    assert_eq!(packet.v, 1);
    assert_eq!(packet.sym_alg, "AES-256-GCM");
    assert_eq!(decrypt_with_session(&store, &packet), Ok("{\"ok\":true}".to_string()));
}

#[test]
fn the_server_needs_its_private_key() {
    let (public_pem, private_pem) = key_pair();
    let (_, other_private_pem) = other_key_pair();
    let (store, info) = fresh_store(&public_pem);
    let packet = encrypt_with_session(&store, "x", T0).unwrap();
    assert_eq!(
        server_decrypt_with_wrapped(None, &info.wrapped_key_b64, &packet),
        Err(CryptoError::PrivateKeyUnavailable)
    );
    assert_eq!(
        server_encrypt_with_wrapped(None, &info.wrapped_key_b64, "x"),
        Err(CryptoError::PrivateKeyUnavailable)
    );
    assert_eq!(server_decrypt_with_wrapped(Some(&other_private_pem), &info.wrapped_key_b64, &packet).map_err(|e| e.kind()), Err(ErrorKind::UnwrapFailure));
    assert_eq!(server_encrypt_with_wrapped(Some("junk"), &info.wrapped_key_b64, "x").map_err(|e| e.kind()), Err(ErrorKind::UnwrapFailure));
    assert_eq!(server_decrypt_with_wrapped(Some(&private_pem), "not base64!", &packet).map_err(|e| e.kind()), Err(ErrorKind::EncodingError));
}

#[test]
fn another_algorithm_is_refused_whatever_else_holds() {
    let (public_pem, private_pem) = key_pair();
    let (store, info) = fresh_store(&public_pem);
    let mut packet = encrypt_with_session(&store, "x", T0).unwrap();
    packet.sym_alg = "AES-128-GCM".to_string();
    assert_eq!(decrypt_with_session(&store, &packet), Err(CryptoError::UnsupportedAlgorithm));
    assert_eq!(
        server_decrypt_with_wrapped(Some(&private_pem), &info.wrapped_key_b64, &packet),
        Err(CryptoError::UnsupportedAlgorithm)
    );
    assert_eq!(decrypt_with_session(&SessionStore::new(), &packet), Err(CryptoError::UnsupportedAlgorithm));
    assert_eq!(server_decrypt_with_wrapped(None, "!", &packet), Err(CryptoError::PrivateKeyUnavailable));
    assert_eq!(
        server_decrypt_with_wrapped(Some(&private_pem), "!", &packet).map_err(|e| e.kind()),
        Err(ErrorKind::EncodingError)
    );
    packet.v = 9;
    packet.nonce_b64 = "!".to_string();
    assert_eq!(decrypt_with_session(&store, &packet), Err(CryptoError::UnsupportedAlgorithm));
    packet.sym_alg = "aes-256-gcm".to_string();
    assert_eq!(decrypt_with_session(&store, &packet), Err(CryptoError::UnsupportedAlgorithm));
}

#[test]
fn another_version_is_a_decode_error() {
    let (public_pem, _) = key_pair();
    let (store, _) = fresh_store(&public_pem);
    let mut packet = encrypt_with_session(&store, "x", T0).unwrap();
    packet.v = 2;
    assert_eq!(
        decrypt_with_session(&store, &packet),
        Err(CryptoError::DecodeError("unsupported packet version".to_string()))
    );
    assert_eq!(packet.check(), Err(CryptoError::DecodeError("unsupported packet version".to_string())));
    packet.v = 1;
    assert_eq!(packet.check(), Ok(()));
}

#[test]
fn a_tampered_session_packet_is_an_authentication_failure() {
    let (public_pem, private_pem) = key_pair();
    let (store, info) = fresh_store(&public_pem);
    let packet = encrypt_with_session(&store, "{\"a\":1}", T0).unwrap();
    let nonce = b64_decode(&packet.nonce_b64).unwrap();
    let sealed = b64_decode(&packet.ciphertext_b64).unwrap();
    for i in 0..sealed.len() {
        let mut bytes = sealed.clone();
        bytes[i] ^= 0x10;
        let tampered = SessionPacket {
            v: 1,
            sym_alg: packet.sym_alg.clone(),
            nonce_b64: packet.nonce_b64.clone(),
            ciphertext_b64: hybrid_session::encoding::b64_encode(&bytes),
        };
        assert_eq!(decrypt_with_session(&store, &tampered), Err(CryptoError::AuthenticationFailure));
    }
    for i in 0..nonce.len() {
        let mut bytes = nonce.clone();
        bytes[i] ^= 0x01;
        let tampered = SessionPacket {
            v: 1,
            sym_alg: packet.sym_alg.clone(),
            nonce_b64: hybrid_session::encoding::b64_encode(&bytes),
            ciphertext_b64: packet.ciphertext_b64.clone(),
        };
        assert_eq!(decrypt_with_session(&store, &tampered), Err(CryptoError::AuthenticationFailure));
    }
    let mut bytes = sealed.clone();
    bytes[0] ^= 0x80;
    let tampered = SessionPacket {
        v: 1,
        sym_alg: packet.sym_alg.clone(),
        nonce_b64: packet.nonce_b64.clone(),
        ciphertext_b64: hybrid_session::encoding::b64_encode(&bytes),
    };
    assert_eq!(
        server_decrypt_with_wrapped(Some(&private_pem), &info.wrapped_key_b64, &tampered),
        Err(CryptoError::AuthenticationFailure)
    );
}

#[test]
fn a_field_that_is_not_base64_is_an_encoding_error() {
    let (public_pem, _) = key_pair();
    let (store, _) = fresh_store(&public_pem);
    let mut packet = encrypt_with_session(&store, "x", T0).unwrap();
    packet.ciphertext_b64.push('=');
    assert_eq!(decrypt_with_session(&store, &packet).map_err(|e| e.kind()), Err(ErrorKind::EncodingError));
}

#[test]
fn a_packet_under_another_session_key_is_an_authentication_failure() {
    let (public_pem, _) = key_pair();
    let (store, _) = fresh_store(&public_pem);
    let (other_store, _) = fresh_store(&public_pem);
    let packet = encrypt_with_session(&store, "x", T0).unwrap();
    assert_eq!(decrypt_with_session(&other_store, &packet), Err(CryptoError::AuthenticationFailure));
}

#[test]
fn without_a_private_key_the_server_reads_nothing_whatever_comes() {
    let (public_pem, _) = key_pair();
    let (store, info) = fresh_store(&public_pem);
    let mut packet = encrypt_with_session(&store, "x", T0).unwrap();
    assert_eq!(
        server_decrypt_with_wrapped(None, &info.wrapped_key_b64, &packet),
        Err(CryptoError::PrivateKeyUnavailable)
    );
    packet.v = 7;
    assert_eq!(server_decrypt_with_wrapped(None, "", &packet), Err(CryptoError::PrivateKeyUnavailable));
    packet.sym_alg = "other".to_string();
    assert_eq!(server_decrypt_with_wrapped(None, "!", &packet), Err(CryptoError::PrivateKeyUnavailable));
    for text in ["", "null", "{", "{\"v\":1}", "{\"v\":1,\"sym_alg\":\"other\"}"] {
        assert_eq!(server_decrypt_json(None, "!", text), Err(CryptoError::PrivateKeyUnavailable));
        assert_eq!(
            server_decrypt_json(None, &info.wrapped_key_b64, text),
            Err(CryptoError::PrivateKeyUnavailable)
        );
    }
    assert_eq!(
        server_decrypt_json(None, &info.wrapped_key_b64, &encode_session(&packet)),
        Err(CryptoError::PrivateKeyUnavailable)
    );
}

#[test]
fn the_server_unwraps_then_decodes_then_opens() {
    let (public_pem, private_pem) = key_pair();
    let (store, info) = fresh_store(&public_pem);
    let packet = encrypt_with_session(&store, "{\"a\":1}", T0).unwrap();
    let text = encode_session(&packet);
    assert_eq!(
        server_decrypt_json(Some(&private_pem), &info.wrapped_key_b64, &text),
        Ok("{\"a\":1}".to_string())
    );
    assert_eq!(
        server_decrypt_json(Some("junk"), "!", "{").map_err(|e| e.kind()),
        Err(ErrorKind::UnwrapFailure)
    );
    assert_eq!(
        server_decrypt_json(Some(&private_pem), "!", "{").map_err(|e| e.kind()),
        Err(ErrorKind::EncodingError)
    );
    assert_eq!(
        server_decrypt_json(Some(&private_pem), "AAAA", "{").map_err(|e| e.kind()),
        Err(ErrorKind::UnwrapFailure)
    );
    assert_eq!(
        server_decrypt_json(Some(&private_pem), &info.wrapped_key_b64, "{").map_err(|e| e.kind()),
        Err(ErrorKind::DecodeError)
    );
    let mut other = encrypt_with_session(&store, "x", T0).unwrap();
    other.sym_alg = "AES-128-GCM".to_string();
    assert_eq!(
        server_decrypt_json(Some(&private_pem), &info.wrapped_key_b64, &encode_session(&other)),
        Err(CryptoError::UnsupportedAlgorithm)
    );
    assert_eq!(
        server_decrypt_json(Some(&private_pem), "!", &encode_session(&other)).map_err(|e| e.kind()),
        Err(ErrorKind::EncodingError)
    );
    let mut tampered = encrypt_with_session(&store, "x", T0).unwrap();
    tampered.nonce_b64 = "AAAAAAAAAAAAAAAA".to_string();
    assert_eq!(
        server_decrypt_json(Some(&private_pem), &info.wrapped_key_b64, &encode_session(&tampered)),
        Err(CryptoError::AuthenticationFailure)
    );
}
