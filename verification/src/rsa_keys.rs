//! RSA keys and RSA-OAEP with SHA-256, used to wrap the symmetric key.
//!
//! A key is held as the big-endian bytes of its numbers, so that contracts can
//! speak of it. The arithmetic is the `rsa` crate's.

use vstd::prelude::*;
use vstd::string::StringExecFns;
use crate::error::{sentence, CryptoError, ErrorView};
use crate::random::random_bytes;
use rand::SeedableRng;
use rsa::pkcs8::{DecodePrivateKey, DecodePublicKey};
use rsa::traits::{PrivateKeyParts, PublicKeyParts};

verus! {

/// The length of the seed that each encryption starts from.
pub const OAEP_SEED_LEN: usize = 32;

/// What OAEP with SHA-256 adds to a payload, in bytes: two hashes and two
/// bytes.
pub const OAEP_OVERHEAD: usize = 66;

/// The longest modulus that is taken, in bytes: 4096 bits.
pub const MAX_MODULUS_LEN: usize = 512;

/// The largest public exponent that is taken: 2^33 - 1.
pub const MAX_PUBLIC_EXPONENT: u64 = 0x1_FFFF_FFFF;

/// An RSA public key: modulus and public exponent, big-endian.
pub struct PublicKey {
    modulus: Vec<u8>,
    exponent: Vec<u8>,
}

/// An RSA private key with two primes: the public numbers, the private
/// exponent and the primes, big-endian.
pub struct PrivateKey {
    modulus: Vec<u8>,
    public_exponent: Vec<u8>,
    private_exponent: Vec<u8>,
    prime1: Vec<u8>,
    prime2: Vec<u8>,
}

/// The numbers of a public key.
pub struct PublicKeyView {
    pub modulus: Seq<u8>,
    pub exponent: Seq<u8>,
}

/// The numbers of a private key.
pub struct PrivateKeyView {
    pub modulus: Seq<u8>,
    pub public_exponent: Seq<u8>,
    pub private_exponent: Seq<u8>,
    pub prime1: Seq<u8>,
    pub prime2: Seq<u8>,
}

/// The number that the bytes spell, big-endian.
pub open spec fn be_value(bytes: Seq<u8>) -> nat
    decreases bytes.len(),
{
    if bytes.len() == 0 {
        0
    } else {
        be_value(bytes.drop_last()) * 256 + bytes.last() as nat
    }
}

/// The length of the number that the bytes spell: the bytes without the zero
/// bytes they start with.
pub open spec fn be_len(bytes: Seq<u8>) -> nat
    decreases bytes.len(),
{
    if bytes.len() == 0 {
        0
    } else if bytes[0] == 0 {
        be_len(bytes.skip(1))
    } else {
        bytes.len()
    }
}

impl PublicKeyView {
    /// The length of the modulus in bytes, which is the length of everything
    /// that is encrypted under the key.
    pub open spec fn modulus_len(self) -> nat {
        be_len(self.modulus)
    }

    /// Whether the numbers are taken for a public key: a modulus of at most
    /// 4096 bits that is odd, and an exponent from 2 to 2^33 - 1 that is odd
    /// and less than the modulus.
    pub open spec fn is_acceptable(self) -> bool {
        &&& be_len(self.modulus) <= MAX_MODULUS_LEN
        &&& 2 <= be_value(self.exponent) <= MAX_PUBLIC_EXPONENT
        &&& be_value(self.exponent) < be_value(self.modulus)
        &&& be_value(self.modulus) % 2 == 1
        &&& be_value(self.exponent) % 2 == 1
    }

    /// Whether a payload of `len` bytes fits under the modulus with the
    /// padding around it.
    pub open spec fn has_room_for(self, len: nat) -> bool {
        len + OAEP_OVERHEAD <= self.modulus_len()
    }

    /// Whether a payload of `len` bytes can be encrypted under the key.
    pub open spec fn takes(self, len: nat) -> bool {
        self.is_acceptable() && self.has_room_for(len)
    }
}

impl View for PublicKey {
    type V = PublicKeyView;

    closed spec fn view(&self) -> PublicKeyView {
        PublicKeyView { modulus: self.modulus@, exponent: self.exponent@ }
    }
}

impl View for PrivateKey {
    type V = PrivateKeyView;

    closed spec fn view(&self) -> PrivateKeyView {
        PrivateKeyView {
            modulus: self.modulus@,
            public_exponent: self.public_exponent@,
            private_exponent: self.private_exponent@,
            prime1: self.prime1@,
            prime2: self.prime2@,
        }
    }
}

/// The public key that the PEM text (SubjectPublicKeyInfo) holds, or `None`
/// where the text is not an acceptable RSA public key.
pub uninterp spec fn spec_parse_public_key(pem: Seq<char>) -> Option<PublicKeyView>;

/// The private key that the PEM text (PKCS#8) holds, or `None` where the text
/// is not an acceptable two-prime RSA private key.
pub uninterp spec fn spec_parse_private_key(pem: Seq<char>) -> Option<PrivateKeyView>;

/// The RSA-OAEP (SHA-256, empty label) encryption of `message` under `key`,
/// with the padding drawn from the generator that `seed` starts; or `None`
/// where the key is refused or the message does not fit under it.
pub uninterp spec fn spec_oaep_encrypt(key: PublicKeyView, seed: Seq<u8>, message: Seq<u8>) -> Option<
    Seq<u8>,
>;

/// The message that RSA-OAEP (SHA-256, empty label) recovers from `wrapped`
/// under `key`, or `None` where the key is refused or the padding does not
/// check.
pub uninterp spec fn spec_oaep_decrypt(key: PrivateKeyView, wrapped: Seq<u8>) -> Option<Seq<u8>>;

/// The error of reading a public key, carried through unread.
#[verifier::external_type_specification]
#[verifier::external_body]
pub struct ExSpkiError(rsa::pkcs8::spki::Error);

/// The error of reading a private key, carried through unread.
#[verifier::external_type_specification]
#[verifier::external_body]
pub struct ExPkcs8Error(rsa::pkcs8::Error);

/// The error of the `rsa` crate's encryption and decryption, carried through unread.
#[verifier::external_type_specification]
#[verifier::external_body]
pub struct ExRsaError(rsa::Error);

/// Whether `wrapped` is an encryption of `message` under `key`, for some seed.
pub open spec fn wraps(key: PublicKeyView, message: Seq<u8>, wrapped: Seq<u8>) -> bool {
    exists|seed: Seq<u8>|
        seed.len() == OAEP_SEED_LEN && #[trigger] spec_oaep_encrypt(key, seed, message) == Some(
            wrapped,
        )
}

/// Whether `private` opens whatever is encrypted under `public`: the two are
/// the halves of one key pair.
pub open spec fn key_pair(public: PublicKeyView, private: PrivateKeyView) -> bool {
    forall|seed: Seq<u8>, message: Seq<u8>|
        seed.len() == OAEP_SEED_LEN && (#[trigger] spec_oaep_encrypt(public, seed, message))
            is Some ==> spec_oaep_decrypt(private, spec_oaep_encrypt(public, seed, message)->0)
            == Some(message)
}

/// Reads a public key with `RsaPublicKey::from_public_key_pem` (trait
/// `DecodePublicKey`) and copies out its modulus and exponent.
///
/// Taken on trust: the call succeeds exactly on the texts that the crate
/// accepts, and the key returned holds the numbers that it read. The crate
/// reads no key without putting it to `RsaPublicKey::new`, so the numbers
/// are acceptable; and `BigUint::to_bytes_be` writes no leading zero.
#[verifier::external_body]
fn decode_public_key_pem(pem: &str) -> (res: Result<PublicKey, rsa::pkcs8::spki::Error>)
    ensures
        match res {
            Ok(key) => {
                &&& spec_parse_public_key(pem@) == Some(key@)
                &&& key@.is_acceptable()
                &&& key@.modulus_len() == key@.modulus.len()
            },
            Err(_) => spec_parse_public_key(pem@) is None,
        },
{
    let key = rsa::RsaPublicKey::from_public_key_pem(pem)?;
    Ok(PublicKey { modulus: key.n().to_bytes_be(), exponent: key.e().to_bytes_be() })
}

/// Reads a private key with `RsaPrivateKey::from_pkcs8_pem` (trait
/// `DecodePrivateKey`) and copies out its numbers.
///
/// Taken on trust: the call succeeds exactly on the texts that the crate
/// accepts, and the key returned holds the numbers that it read.
#[verifier::external_body]
fn decode_private_key_pem(pem: &str) -> (res: Result<PrivateKey, rsa::pkcs8::Error>)
    ensures
        match res {
            Ok(key) => spec_parse_private_key(pem@) == Some(key@),
            Err(_) => spec_parse_private_key(pem@) is None,
        },
{
    let key = rsa::RsaPrivateKey::from_pkcs8_pem(pem)?;
    Ok(
        PrivateKey {
            modulus: key.n().to_bytes_be(),
            public_exponent: key.e().to_bytes_be(),
            private_exponent: key.d().to_bytes_be(),
            prime1: key.primes()[0].to_bytes_be(),
            prime2: key.primes()[1].to_bytes_be(),
        },
    )
}

/// Encrypts with `RsaPublicKey::encrypt`, padding `Oaep::new::<Sha256>()`, on
/// the key that `RsaPublicKey::new` makes of the numbers, with the generator
/// `StdRng::from_seed(seed)` of the crate `rand`, which cannot fail.
///
/// Taken on trust: the call succeeds exactly where the numbers are
/// acceptable and the message with 66 bytes of padding fits under the
/// modulus; the result, as long as the modulus, is the RSA-OAEP encryption
/// that these arguments determine.
#[verifier::external_body]
fn oaep_encrypt_seeded(key: &PublicKey, seed: &[u8; 32], message: &[u8]) -> (res: Result<
    Vec<u8>,
    rsa::Error,
>)
    ensures
        res is Ok <==> key@.takes(message@.len()),
        match res {
            Ok(wrapped) => spec_oaep_encrypt(key@, seed@, message@) == Some(wrapped@)
                && wrapped@.len() == key@.modulus_len(),
            Err(_) => spec_oaep_encrypt(key@, seed@, message@) is None,
        },
{
    let n = rsa::BigUint::from_bytes_be(&key.modulus);
    let e = rsa::BigUint::from_bytes_be(&key.exponent);
    let key = rsa::RsaPublicKey::new(n, e)?;
    let mut rng = rand::rngs::StdRng::from_seed(*seed);
    key.encrypt(&mut rng, rsa::Oaep::new::<sha2::Sha256>(), message)
}

/// Decrypts with `RsaPrivateKey::decrypt`, padding `Oaep::new::<Sha256>()`, on
/// the key that `RsaPrivateKey::from_components` makes of the numbers.
///
/// Taken on trust: the call, which uses no randomness, returns the message
/// that RSA-OAEP recovers for these arguments, and fails where the crate
/// refuses the key or the padding does not check.
#[verifier::external_body]
fn oaep_decrypt(key: &PrivateKey, wrapped: &[u8]) -> (res: Result<Vec<u8>, rsa::Error>)
    ensures
        match res {
            Ok(message) => spec_oaep_decrypt(key@, wrapped@) == Some(message@),
            Err(_) => spec_oaep_decrypt(key@, wrapped@) is None,
        },
{
    let n = rsa::BigUint::from_bytes_be(&key.modulus);
    let e = rsa::BigUint::from_bytes_be(&key.public_exponent);
    let d = rsa::BigUint::from_bytes_be(&key.private_exponent);
    let p = rsa::BigUint::from_bytes_be(&key.prime1);
    let q = rsa::BigUint::from_bytes_be(&key.prime2);
    let key = rsa::RsaPrivateKey::from_components(n, e, d, vec![p, q])?;
    key.decrypt(rsa::Oaep::new::<sha2::Sha256>(), wrapped)
}

/// Parses an RSA public key in PEM form (SubjectPublicKeyInfo).
///
/// A text that is not an acceptable key is a `WrapFailure`: nothing can be
/// wrapped under it. A key that is read is acceptable, and its modulus is
/// held without leading zero bytes.
pub fn parse_rsa_public_key(pem: &str) -> (res: Result<PublicKey, CryptoError>)
    ensures
        match res {
            Ok(key) => {
                &&& spec_parse_public_key(pem@) == Some(key@)
                &&& key@.is_acceptable()
                &&& key@.modulus_len() == key@.modulus.len()
            },
            Err(e) => e@ == ErrorView::WrapFailure && spec_parse_public_key(pem@) is None,
        },
{
    match decode_public_key_pem(pem) {
        Ok(key) => Ok(key),
        Err(e) => Err(CryptoError::WrapFailure(sentence("invalid public key: ", e.to_string().as_str()))),
    }
}

/// Parses an RSA private key in PEM form (PKCS#8).
///
/// A text that is not an acceptable key is an `UnwrapFailure`: nothing can be
/// unwrapped with it.
pub fn parse_rsa_private_key(pem: &str) -> (res: Result<PrivateKey, CryptoError>)
    ensures
        match res {
            Ok(key) => spec_parse_private_key(pem@) == Some(key@),
            Err(e) => e@ == ErrorView::UnwrapFailure && spec_parse_private_key(pem@) is None,
        },
{
    match decode_private_key_pem(pem) {
        Ok(key) => Ok(key),
        Err(e) => Err(
            CryptoError::UnwrapFailure(
                sentence("Invalid private key: PKCS#8 parse error: ", e.to_string().as_str()),
            ),
        ),
    }
}

impl PublicKey {
    /// The length of the modulus in bytes.
    pub fn modulus_len(&self) -> (len: usize)
        ensures
            len == self@.modulus_len(),
    {
        let n = self.modulus.len();
        let mut i: usize = 0;
        assert(self.modulus@.skip(0) == self.modulus@);
        while i < n && self.modulus[i] == 0
            invariant
                i <= n == self.modulus.len(),
                be_len(self.modulus@) == be_len(self.modulus@.skip(i as int)),
            decreases n - i,
        {
            proof {
                assert(self.modulus@.skip(i as int).skip(1) == self.modulus@.skip(i + 1));
            }
            i += 1;
        }
        n - i
    }

    /// Whether a payload of `len` bytes fits under the modulus with the
    /// padding around it.
    pub fn has_room_for(&self, len: usize) -> (fits: bool)
        ensures
            fits == self@.has_room_for(len as nat),
    {
        let m = self.modulus_len();
        m >= OAEP_OVERHEAD && len <= m - OAEP_OVERHEAD
    }
}

/// The error for a payload that does not fit under the modulus.
pub fn too_long() -> (e: CryptoError)
    ensures
        e@ == ErrorView::WrapFailure,
{
    CryptoError::WrapFailure(String::from_str("rsa wrap error: message too long"))
}

/// Wraps a symmetric key under a public key with RSA-OAEP (SHA-256), the
/// padding drawn from the generator that `seed` starts.
///
/// Succeeds exactly where the key is acceptable and the payload with its 66
/// bytes of padding fits under the modulus; the result is as long as the
/// modulus.
pub fn rsa_oaep_wrap_with_seed(pub_key: &PublicKey, seed: &[u8; 32], sym_key: &[u8]) -> (res: Result<
    Vec<u8>,
    CryptoError,
>)
    ensures
        res is Ok <==> pub_key@.takes(sym_key@.len()),
        match res {
            Ok(wrapped) => spec_oaep_encrypt(pub_key@, seed@, sym_key@) == Some(wrapped@)
                && wrapped@.len() == pub_key@.modulus_len(),
            Err(e) => e@ == ErrorView::WrapFailure,
        },
{
    match oaep_encrypt_seeded(pub_key, seed, sym_key) {
        Ok(wrapped) => Ok(wrapped),
        Err(e) => Err(CryptoError::WrapFailure(sentence("rsa wrap error: ", e.to_string().as_str()))),
    }
}

/// The seed that starts the padding of one encryption: 32 random bytes.
fn draw_seed() -> (res: Result<[u8; 32], CryptoError>)
    ensures
        res matches Err(e) ==> e@ == ErrorView::RandomnessUnavailable,
{
    let bytes = random_bytes(OAEP_SEED_LEN)?;
    let mut seed = [0u8; 32];
    let mut i: usize = 0;
    while i < OAEP_SEED_LEN
        invariant
            i <= OAEP_SEED_LEN,
            bytes@.len() == OAEP_SEED_LEN,
        decreases OAEP_SEED_LEN - i,
    {
        seed[i] = bytes[i];
        i += 1;
    }
    Ok(seed)
}

/// Wraps a symmetric key under a public key with RSA-OAEP (SHA-256).
///
/// A payload that does not fit under the modulus with its 66 bytes of padding
/// is a `WrapFailure`, and so is a key whose numbers are not acceptable.
/// Otherwise a seed is drawn for this call, which fails with
/// `RandomnessUnavailable` where no randomness is to be had, and the result is
/// an encryption of `sym_key` under `pub_key`, as long as the modulus.
pub fn rsa_oaep_wrap(pub_key: &PublicKey, sym_key: &[u8]) -> (res: Result<Vec<u8>, CryptoError>)
    ensures
        match res {
            Ok(wrapped) => {
                &&& pub_key@.takes(sym_key@.len())
                &&& wraps(pub_key@, sym_key@, wrapped@)
                &&& wrapped@.len() == pub_key@.modulus_len()
            },
            Err(e) => if pub_key@.takes(sym_key@.len()) {
                e@ == ErrorView::RandomnessUnavailable
            } else if pub_key@.has_room_for(sym_key@.len()) {
                e@ == ErrorView::WrapFailure || e@ == ErrorView::RandomnessUnavailable
            } else {
                e@ == ErrorView::WrapFailure
            },
        },
{
    if !pub_key.has_room_for(sym_key.len()) {
        return Err(too_long());
    }
    let seed = draw_seed()?;
    rsa_oaep_wrap_with_seed(pub_key, &seed, sym_key)
}

/// Unwraps a symmetric key with a private key and RSA-OAEP (SHA-256).
///
/// Every rejection, whether of the length, the padding or the key, is the one
/// error `UnwrapFailure`.
pub fn rsa_oaep_unwrap(priv_key: &PrivateKey, wrapped: &[u8]) -> (res: Result<Vec<u8>, CryptoError>)
    ensures
        match res {
            Ok(sym_key) => spec_oaep_decrypt(priv_key@, wrapped@) == Some(sym_key@),
            Err(e) => e@ == ErrorView::UnwrapFailure && spec_oaep_decrypt(priv_key@, wrapped@)
                is None,
        },
{
    match oaep_decrypt(priv_key, wrapped) {
        Ok(sym_key) => Ok(sym_key),
        Err(e) => Err(CryptoError::UnwrapFailure(sentence("rsa unwrap error: ", e.to_string().as_str()))),
    }
}

} // verus!
