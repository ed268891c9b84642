use hybrid_session::codec::{
    decode_hybrid, decode_session, encode_hybrid, encode_session, encode_session_key_info, find_member,
    hybrid_from_members, read_byte, read_text, session_from_members, JsonValue,
};
use hybrid_session::encoding::{b64_decode, b64_encode};
use hybrid_session::error::{CryptoError, ErrorKind};
use hybrid_session::hybrid::{assemble_hybrid, decrypt_hybrid, decrypt_hybrid_json, encrypt_hybrid};
use hybrid_session::packet::{same_text, HybridPacket, SessionKeyInfo, SessionPacket};
use hybrid_session::server::server_decrypt_with_wrapped;
use hybrid_session::session::{encrypt_with_session, ensure_session_key, SessionStore};
use rsa::pkcs8::{EncodePrivateKey, EncodePublicKey, LineEnding};

const PRIME_A_1: &str = "fb2b4f0afa0be32eb2f320e69441f8bcac083199e277439848e910364e0143acf2b49cc3604e349d8a4632bae7df936559f6c7de4ccad19813763f7e0aeea6a0dc2659341d71a32e17ab7952b070751b2922c6b93cdc85f4ed178d5eadd7f5a3e6ee5bd7ba9b56ffaaa18c2368a520599698fa2ba6e81c4d006dc93764f466af";
const PRIME_A_2: &str = "e4d65c3baf4586b21b0eba4badb6280ed3861948a3dc988ae6f3bedaaa251261744aee4a6459af6db4bf8e49cf71f8d9b269460ac85f7f012e4de4da009e68ede86e10c1c8ab62055b210ba970efb78fd2e70ad611d507a5b43d312ae075f67fbb006846a751c84aeee7ae73003c4e0ef705eb8e08e07c31b718fa64b6e82603";
const PRIME_B_1: &str = "f7a50ac5b7418373c00635cf8f556382d5b5eca209229f6cd6c9e5885c832dda3d1e1e0f5b0782063fd2c97e6a4c36a8ee672bb13950840940474922a6a0e2b228f5e51a74923cbe4ff148acb7ce2af33248308775a339de02bb4b1781a6146710f8e6e61845261af902bf252fba0594a35518bb5ed874d63a52910f938c4c23";
const PRIME_B_2: &str = "e05362fa725250a60b32568e15341783868793737d6cac2282be50444678a6e35fbd589a3ad7debb7aa3f2090d87686021f9fcfc69232ec4e01b285d3442d59df5e9d46b45e52fc28e6af31e8cb1176943101a1604c1ccb484c0a47355f7e0f3961d1db0a4bb53658a4748fc407ee5d4bdcd31acb00351fa6a0ee24e871b0a8f";

fn pems_of(prime1: &str, prime2: &str) -> (String, String) {
    let p = rsa::BigUint::parse_bytes(prime1.as_bytes(), 16).unwrap();
    let q = rsa::BigUint::parse_bytes(prime2.as_bytes(), 16).unwrap();
    let private = rsa::RsaPrivateKey::from_p_q(p, q, rsa::BigUint::from(65537u32)).unwrap();
    let public_pem = private.to_public_key().to_public_key_pem(LineEnding::LF).unwrap();
    let private_pem = private.to_pkcs8_pem(LineEnding::LF).unwrap().to_string();
    (public_pem, private_pem)
}

fn key_pair() -> (String, String) {
    pems_of(PRIME_A_1, PRIME_A_2)
}

fn other_key_pair() -> (String, String) {
    pems_of(PRIME_B_1, PRIME_B_2)
}

fn decode_error(text: &str) -> CryptoError {
    CryptoError::DecodeError(text.to_string())
}

fn sample_session() -> SessionPacket {
    SessionPacket {
        v: 1,
        sym_alg: "AES-256-GCM".to_string(),
        nonce_b64: "AAAAAAAAAAAAAAAA".to_string(),
        ciphertext_b64: "Uw-K-8dFNrmpY7TxxMtziw".to_string(),
    }
}

fn sample_hybrid() -> HybridPacket {
    HybridPacket {
        v: 1,
        alg: "RSA-OAEP-256".to_string(),
        sym_alg: "AES-256-GCM".to_string(),
        nonce_b64: "AAAAAAAAAAAAAAAA".to_string(),
        wrapped_key_b64: "d3JhcHBlZA".to_string(),
        ciphertext_b64: "Uw-K-8dFNrmpY7TxxMtziw".to_string(),
    }
}

#[test]
fn hybrid_round_trip() {
    let (public_pem, private_pem) = key_pair();
    for text in ["", "hello", "{\"a\":1}", "gr\u{fc}\u{df}e \u{4e16}\u{754c} \u{1f511}"] {
        let packet = encrypt_hybrid(&public_pem, text).unwrap();
        assert_eq!(decrypt_hybrid(Some(&private_pem), &packet), Ok(text.to_string()));
    }
}

#[test]
fn hybrid_round_trip_of_a_long_text() {
    let (public_pem, private_pem) = key_pair();
    let text: String = (0..100_000).map(|i| char::from(b'a' + (i % 26) as u8)).collect();
    let packet = encrypt_hybrid(&public_pem, &text).unwrap();
    assert_eq!(decrypt_hybrid(Some(&private_pem), &packet), Ok(text));
}

#[test]
fn a_hybrid_packet_has_its_shape() {
    let (public_pem, _) = key_pair();
    let packet = encrypt_hybrid(&public_pem, "hello").unwrap();
    assert_eq!(packet.v, 1);
    assert_eq!(packet.alg, "RSA-OAEP-256");
    assert_eq!(packet.sym_alg, "AES-256-GCM");
    assert_eq!(b64_decode(&packet.nonce_b64).unwrap().len(), 12);
    assert_eq!(b64_decode(&packet.wrapped_key_b64).unwrap().len(), 256);
    assert_eq!(b64_decode(&packet.ciphertext_b64).unwrap().len(), 5 + 16);
}

#[test]
fn every_hybrid_packet_has_its_own_key_and_nonce() {
    let (public_pem, _) = key_pair();
    let first = encrypt_hybrid(&public_pem, "hello").unwrap();
    let second = encrypt_hybrid(&public_pem, "hello").unwrap();
    assert_ne!(first.wrapped_key_b64, second.wrapped_key_b64);
    assert_ne!(first.nonce_b64, second.nonce_b64);
    assert_ne!(first.ciphertext_b64, second.ciphertext_b64);
}

#[test]
fn hybrid_encryption_needs_a_public_key() {
    assert_eq!(encrypt_hybrid("", "hello").map_err(|e| e.kind()), Err(ErrorKind::WrapFailure));
    let (_, private_pem) = key_pair();
    assert_eq!(encrypt_hybrid(&private_pem, "hello").map_err(|e| e.kind()), Err(ErrorKind::WrapFailure));
}

#[test]
fn hybrid_decryption_needs_the_private_key() {
    let (public_pem, _) = key_pair();
    let (_, other_private_pem) = other_key_pair();
    let packet = encrypt_hybrid(&public_pem, "hello").unwrap();
    assert_eq!(decrypt_hybrid(None, &packet), Err(CryptoError::PrivateKeyUnavailable));
    assert_eq!(decrypt_hybrid(Some("junk"), &packet).map_err(|e| e.kind()), Err(ErrorKind::UnwrapFailure));
    assert_eq!(decrypt_hybrid(Some(&other_private_pem), &packet).map_err(|e| e.kind()), Err(ErrorKind::UnwrapFailure));
}

#[test]
fn a_tampered_hybrid_packet_is_an_authentication_failure() {
    let (public_pem, private_pem) = key_pair();
    let packet = encrypt_hybrid(&public_pem, "{\"a\":1}").unwrap();
    let nonce = b64_decode(&packet.nonce_b64).unwrap();
    let sealed = b64_decode(&packet.ciphertext_b64).unwrap();
    for (i, bit) in [(0usize, 0u8), (3, 7), (sealed.len() - 1, 4), (sealed.len() - 16, 1)] {
        let mut bytes = sealed.clone();
        bytes[i] ^= 1 << bit;
        let mut tampered = encode_decode_hybrid(&packet);
        tampered.ciphertext_b64 = b64_encode(&bytes);
        assert_eq!(decrypt_hybrid(Some(&private_pem), &tampered), Err(CryptoError::AuthenticationFailure));
    }
    for (i, bit) in [(0usize, 0u8), (5, 3), (11, 7)] {
        let mut bytes = nonce.clone();
        bytes[i] ^= 1 << bit;
        let mut tampered = encode_decode_hybrid(&packet);
        tampered.nonce_b64 = b64_encode(&bytes);
        assert_eq!(decrypt_hybrid(Some(&private_pem), &tampered), Err(CryptoError::AuthenticationFailure));
    }
    assert_eq!(decrypt_hybrid(Some(&private_pem), &packet), Ok("{\"a\":1}".to_string()));
}

fn encode_decode_hybrid(packet: &HybridPacket) -> HybridPacket {
    decode_hybrid(&encode_hybrid(packet)).unwrap()
}

#[test]
fn a_hybrid_packet_with_another_algorithm_is_refused() {
    let (public_pem, private_pem) = key_pair();
    let packet = encrypt_hybrid(&public_pem, "hello").unwrap();
    let mut other = encode_decode_hybrid(&packet);
    other.alg = "RSA-OAEP".to_string();
    assert_eq!(decrypt_hybrid(Some(&private_pem), &other), Err(CryptoError::UnsupportedAlgorithm));
    assert_eq!(decrypt_hybrid(None, &other), Err(CryptoError::PrivateKeyUnavailable));
    let mut other = encode_decode_hybrid(&packet);
    other.sym_alg = "CHACHA20-POLY1305".to_string();
    assert_eq!(decrypt_hybrid(Some(&private_pem), &other), Err(CryptoError::UnsupportedAlgorithm));
    other.v = 0;
    assert_eq!(decrypt_hybrid(Some(&private_pem), &other), Err(CryptoError::UnsupportedAlgorithm));
    other.wrapped_key_b64 = "!".to_string();
    assert_eq!(decrypt_hybrid(Some(&private_pem), &other).map_err(|e| e.kind()), Err(ErrorKind::EncodingError));
    assert_eq!(other.check(), Err(CryptoError::UnsupportedAlgorithm));
}

#[test]
fn a_hybrid_packet_of_another_version_is_a_decode_error() {
    let (public_pem, private_pem) = key_pair();
    let mut packet = encode_decode_hybrid(&encrypt_hybrid(&public_pem, "hello").unwrap());
    packet.v = 2;
    assert_eq!(decrypt_hybrid(Some(&private_pem), &packet), Err(decode_error("unsupported packet version")));
    let mut packet = sample_hybrid();
    packet.v = 2;
    assert_eq!(
        decrypt_hybrid(Some(&private_pem), &packet).map_err(|e| e.kind()),
        Err(ErrorKind::UnwrapFailure)
    );
    assert_eq!(packet.check(), Err(decode_error("unsupported packet version")));
}

#[test]
fn a_wrapped_key_of_sixteen_bytes_is_an_invalid_key_length() {
    let (public_pem, private_pem) = key_pair();
    let public = hybrid_session::rsa_keys::parse_rsa_public_key(&public_pem).unwrap();
    let mut packet = encode_decode_hybrid(&encrypt_hybrid(&public_pem, "hello").unwrap());
    for len in [16usize, 31, 33] {
        let wrapped = hybrid_session::rsa_keys::rsa_oaep_wrap(&public, &vec![1u8; len]).unwrap();
        packet.wrapped_key_b64 = b64_encode(&wrapped);
        assert_eq!(decrypt_hybrid(Some(&private_pem), &packet), Err(CryptoError::InvalidKeyLength));
    }
}

#[test]
fn a_hybrid_packet_is_put_together_from_its_parts() {
    let packet = assemble_hybrid(b"wrapped", "AAAAAAAAAAAAAAAA".to_string(), "Uw-K-8dFNrmpY7TxxMtziw".to_string());
    assert_eq!(packet, sample_hybrid());
}

#[test]
fn texts_are_the_same_or_not() {
    assert!(same_text("", ""));
    assert!(same_text("AES-256-GCM", "AES-256-GCM"));
    assert!(!same_text("AES-256-GCM", "AES-256-GCM "));
    assert!(!same_text("a", "b"));
}

#[test]
fn a_session_packet_as_json() {
    assert_eq!(
        encode_session(&sample_session()),
        "{\"ciphertext_b64\":\"Uw-K-8dFNrmpY7TxxMtziw\",\"nonce_b64\":\"AAAAAAAAAAAAAAAA\",\"sym_alg\":\"AES-256-GCM\",\"v\":1}"
    );
}

#[test]
fn a_hybrid_packet_as_json() {
    assert_eq!(
        encode_hybrid(&sample_hybrid()),
        "{\"alg\":\"RSA-OAEP-256\",\"ciphertext_b64\":\"Uw-K-8dFNrmpY7TxxMtziw\",\"nonce_b64\":\"AAAAAAAAAAAAAAAA\",\"sym_alg\":\"AES-256-GCM\",\"v\":1,\"wrapped_key_b64\":\"d3JhcHBlZA\"}"
    );
}

#[test]
fn the_answer_to_a_key_request_as_json() {
    let info = SessionKeyInfo {
        v: 1,
        alg: "RSA-OAEP-256".to_string(),
        sym_alg: "AES-256-GCM".to_string(),
        wrapped_key_b64: "d3JhcHBlZA".to_string(),
        fresh: true,
        created_ms: 1_700_000_000_123,
    };
    assert_eq!(
        encode_session_key_info(&info),
        "{\"alg\":\"RSA-OAEP-256\",\"created_ms\":1700000000123,\"fresh\":true,\"sym_alg\":\"AES-256-GCM\",\"v\":1,\"wrapped_key_b64\":\"d3JhcHBlZA\"}"
    );
}

#[test]
fn strings_are_escaped_in_json() {
    let mut packet = sample_session();
    packet.nonce_b64 = "a\"b\\c\n".to_string();
    let text = encode_session(&packet);
    assert!(text.contains("\"nonce_b64\":\"a\\\"b\\\\c\\n\""));
    assert_eq!(decode_session(&text), Ok(packet));
}

#[test]
fn json_round_trip() {
    assert_eq!(decode_session(&encode_session(&sample_session())), Ok(sample_session()));
    assert_eq!(decode_hybrid(&encode_hybrid(&sample_hybrid())), Ok(sample_hybrid()));
}

#[test]
fn a_session_packet_is_read_in_any_order_and_with_white_space() {
    let text = " { \"nonce_b64\" : \"AAAAAAAAAAAAAAAA\",\n \"v\": 1, \"ciphertext_b64\": \"Uw-K-8dFNrmpY7TxxMtziw\",\t\"sym_alg\": \"AES-256-GCM\" } ";
    assert_eq!(decode_session(text), Ok(sample_session()));
}

#[test]
fn members_that_no_packet_knows_are_passed_over() {
    let text = "{\"v\":1,\"sym_alg\":\"AES-256-GCM\",\"nonce_b64\":\"AAAAAAAAAAAAAAAA\",\"ciphertext_b64\":\"Uw-K-8dFNrmpY7TxxMtziw\",\"later\":[1,{\"x\":null}],\"alg\":7}";
    assert_eq!(decode_session(text), Ok(sample_session()));
}

#[test]
fn text_that_is_no_json_object_is_a_decode_error_in_the_parsers_words() {
    for text in ["", "{", "[]", "1", "\"v\"", "{\"v\":1,}", "{\"v\":1} x", "null"] {
        match decode_session(text) {
            Err(CryptoError::DecodeError(why)) => assert!(!why.is_empty()),
            other => panic!("{:?}", other),
        }
        assert!(matches!(decode_hybrid(text), Err(CryptoError::DecodeError(_))));
    }
    assert_eq!(decode_session(""), Err(decode_error("EOF while parsing a value at line 1 column 0")));
    assert_eq!(decode_session("null"), Err(decode_error("invalid type: null, expected a map at line 1 column 4")));
    assert_eq!(decode_hybrid("null"), Err(decode_error("invalid type: null, expected a map at line 1 column 4")));
}

#[test]
fn a_missing_member_is_a_decode_error() {
    assert_eq!(decode_session("{}"), Err(decode_error("missing field `v`")));
    assert_eq!(decode_session("{\"v\":1}"), Err(decode_error("missing field `sym_alg`")));
    assert_eq!(
        decode_session("{\"v\":1,\"sym_alg\":\"AES-256-GCM\"}"),
        Err(decode_error("missing field `nonce_b64`"))
    );
    assert_eq!(
        decode_session("{\"v\":1,\"sym_alg\":\"AES-256-GCM\",\"nonce_b64\":\"\"}"),
        Err(decode_error("missing field `ciphertext_b64`"))
    );
    assert_eq!(decode_hybrid("{\"v\":1,\"sym_alg\":\"AES-256-GCM\"}"), Err(decode_error("missing field `alg`")));
    assert_eq!(
        decode_hybrid(&encode_session(&sample_session())),
        Err(decode_error("missing field `alg`"))
    );
    assert_eq!(
        decode_hybrid("{\"v\":1,\"alg\":\"RSA-OAEP-256\",\"sym_alg\":\"AES-256-GCM\",\"nonce_b64\":\"\",\"ciphertext_b64\":\"\"}"),
        Err(decode_error("missing field `wrapped_key_b64`"))
    );
}

#[test]
fn a_member_of_the_wrong_kind_is_a_decode_error() {
    for v in ["\"1\"", "-1", "1.5", "256", "true", "null", "[1]", "18446744073709551616"] {
        let text = format!("{{\"v\":{},\"sym_alg\":\"AES-256-GCM\",\"nonce_b64\":\"\",\"ciphertext_b64\":\"\"}}", v);
        assert_eq!(decode_session(&text), Err(decode_error("invalid type for field `v`")));
    }
    assert_eq!(
        decode_session("{\"v\":1,\"sym_alg\":7,\"nonce_b64\":\"\",\"ciphertext_b64\":\"\"}"),
        Err(decode_error("invalid type for field `sym_alg`"))
    );
    assert_eq!(
        decode_session("{\"v\":1,\"sym_alg\":\"AES-256-GCM\",\"nonce_b64\":\"\",\"ciphertext_b64\":null}"),
        Err(decode_error("invalid type for field `ciphertext_b64`"))
    );
}

#[test]
fn another_algorithm_in_json_is_refused() {
    assert_eq!(
        decode_session("{\"v\":1,\"sym_alg\":\"AES-128-GCM\",\"nonce_b64\":\"AAAAAAAAAAAAAAAA\",\"ciphertext_b64\":\"Uw-K-8dFNrmpY7TxxMtziw\"}"),
        Err(CryptoError::UnsupportedAlgorithm)
    );
    assert_eq!(
        decode_session("{\"v\":7,\"sym_alg\":\"\",\"nonce_b64\":\"!\",\"ciphertext_b64\":\"!\"}"),
        Err(CryptoError::UnsupportedAlgorithm)
    );
    let mut packet = sample_hybrid();
    packet.alg = "RSA-PKCS1".to_string();
    assert_eq!(decode_hybrid(&encode_hybrid(&packet)), Err(CryptoError::UnsupportedAlgorithm));
    let mut packet = sample_hybrid();
    packet.sym_alg = "AES-256-CBC".to_string();
    assert_eq!(decode_hybrid(&encode_hybrid(&packet)), Err(CryptoError::UnsupportedAlgorithm));
}

#[test]
fn another_version_in_json_is_a_decode_error() {
    for v in [0u8, 2, 255] {
        let mut packet = sample_session();
        packet.v = v;
        assert_eq!(decode_session(&encode_session(&packet)), Err(decode_error("unsupported packet version")));
        let mut packet = sample_hybrid();
        packet.v = v;
        assert_eq!(decode_hybrid(&encode_hybrid(&packet)), Err(decode_error("unsupported packet version")));
    }
}

#[test]
fn the_last_of_two_members_of_one_name_counts() {
    let text = "{\"v\":2,\"sym_alg\":\"AES-256-GCM\",\"nonce_b64\":\"AAAAAAAAAAAAAAAA\",\"ciphertext_b64\":\"Uw-K-8dFNrmpY7TxxMtziw\",\"v\":1}";
    assert_eq!(decode_session(text), Ok(sample_session()));
}

#[test]
fn members_are_found_by_name() {
    let members = vec![
        ("v".to_string(), JsonValue::Unsigned(1)),
        ("big".to_string(), JsonValue::Unsigned(256)),
        ("name".to_string(), JsonValue::Text("first".to_string())),
        ("name".to_string(), JsonValue::Text("second".to_string())),
        ("flag".to_string(), JsonValue::Flag(true)),
        ("none".to_string(), JsonValue::Other),
    ];
    assert_eq!(find_member(&members, "v"), Some(&JsonValue::Unsigned(1)));
    assert_eq!(find_member(&members, "name"), Some(&JsonValue::Text("first".to_string())));
    assert_eq!(find_member(&members, "V"), None);
    assert_eq!(find_member(&Vec::new(), "v"), None);
    assert_eq!(read_byte(&members, "v"), Ok(1));
    assert_eq!(read_byte(&members, "big"), Err(decode_error("invalid type for field `big`")));
    assert_eq!(read_byte(&members, "name"), Err(decode_error("invalid type for field `name`")));
    assert_eq!(read_byte(&members, "gone"), Err(decode_error("missing field `gone`")));
    assert_eq!(read_text(&members, "name"), Ok("first".to_string()));
    assert_eq!(read_text(&members, "flag"), Err(decode_error("invalid type for field `flag`")));
    assert_eq!(read_text(&members, "none"), Err(decode_error("invalid type for field `none`")));
    assert_eq!(read_text(&members, "gone"), Err(decode_error("missing field `gone`")));
}

#[test]
fn packets_are_made_of_members() {
    let members = vec![
        ("ciphertext_b64".to_string(), JsonValue::Text("Uw-K-8dFNrmpY7TxxMtziw".to_string())),
        ("nonce_b64".to_string(), JsonValue::Text("AAAAAAAAAAAAAAAA".to_string())),
        ("sym_alg".to_string(), JsonValue::Text("AES-256-GCM".to_string())),
        ("v".to_string(), JsonValue::Unsigned(1)),
    ];
    assert_eq!(session_from_members(&members), Ok(sample_session()));
    assert_eq!(hybrid_from_members(&members), Err(decode_error("missing field `alg`")));
    let mut members = members;
    members.push(("alg".to_string(), JsonValue::Text("RSA-OAEP-256".to_string())));
    members.push(("wrapped_key_b64".to_string(), JsonValue::Text("d3JhcHBlZA".to_string())));
    assert_eq!(hybrid_from_members(&members), Ok(sample_hybrid()));
}

#[test]
fn end_to_end_through_json() {
    let (public_pem, private_pem) = key_pair();
    let mut store = SessionStore::new();
    let info = ensure_session_key(&mut store, &public_pem, 1_000).unwrap();
    assert!(info.fresh);
    let answer = encode_session_key_info(&info);
    assert!(answer.contains("\"fresh\":true"));
    assert!(answer.contains(&format!("\"wrapped_key_b64\":\"{}\"", info.wrapped_key_b64)));
    let sent = encode_session(&encrypt_with_session(&store, "{\"a\":1}", 2_000).unwrap());
    let received = decode_session(&sent).unwrap();
    assert_eq!(
        server_decrypt_with_wrapped(Some(&private_pem), &info.wrapped_key_b64, &received),
        Ok("{\"a\":1}".to_string())
    );
}

#[test]
fn hybrid_end_to_end_through_json() {
    let (public_pem, private_pem) = key_pair();
    let sent = encode_hybrid(&encrypt_hybrid(&public_pem, "{\"a\":1}").unwrap());
    let received = decode_hybrid(&sent).unwrap();
    assert_eq!(decrypt_hybrid(Some(&private_pem), &received), Ok("{\"a\":1}".to_string()));
}

#[test]
fn without_a_private_key_no_hybrid_packet_is_read_whatever_comes() {
    let (public_pem, _) = key_pair();
    let packet = encrypt_hybrid(&public_pem, "hello").unwrap();
    assert_eq!(decrypt_hybrid(None, &packet), Err(CryptoError::PrivateKeyUnavailable));
    let mut other = sample_hybrid();
    other.v = 3;
    other.alg = "other".to_string();
    other.wrapped_key_b64 = "!".to_string();
    assert_eq!(decrypt_hybrid(None, &other), Err(CryptoError::PrivateKeyUnavailable));
    for text in ["", "null", "{", "{\"v\":1}", "{\"v\":1,\"alg\":\"other\"}"] {
        assert_eq!(decrypt_hybrid_json(None, text), Err(CryptoError::PrivateKeyUnavailable));
    }
    assert_eq!(decrypt_hybrid_json(None, &encode_hybrid(&packet)), Err(CryptoError::PrivateKeyUnavailable));
}

#[test]
fn a_hybrid_packet_as_text_is_decoded_and_read() {
    let (public_pem, private_pem) = key_pair();
    let packet = encrypt_hybrid(&public_pem, "{\"a\":1}").unwrap();
    let text = encode_hybrid(&packet);
    assert_eq!(decrypt_hybrid_json(Some(&private_pem), &text), Ok("{\"a\":1}".to_string()));
    assert_eq!(
        decrypt_hybrid_json(Some(&private_pem), "{").map_err(|e| e.kind()),
        Err(ErrorKind::DecodeError)
    );
    let mut other = encode_decode_hybrid(&packet);
    other.sym_alg = "AES-128-GCM".to_string();
    assert_eq!(
        decrypt_hybrid_json(Some(&private_pem), &encode_hybrid(&other)),
        Err(CryptoError::UnsupportedAlgorithm)
    );
    assert_eq!(
        decrypt_hybrid_json(Some("junk"), &text).map_err(|e| e.kind()),
        Err(ErrorKind::UnwrapFailure)
    );
}
