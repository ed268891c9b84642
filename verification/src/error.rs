//! The closed set of failures that the library reports.

use vstd::prelude::*;
use vstd::string::StringExecFns;

verus! {

/// What went wrong, by kind. Every operation reports its failure at once and
/// leaves the state it was given untouched. Where a library underneath said
/// why, the error carries the sentence that says so.
#[derive(Debug, PartialEq, Eq)]
pub enum CryptoError {
    /// The operating system's entropy source reported an error.
    RandomnessUnavailable(String),
    /// The cipher refused to seal the plaintext.
    EncryptionFailure,
    /// The ciphertext, its tag or its nonce did not verify. No cause is given.
    AuthenticationFailure,
    /// The public key is malformed or the payload does not fit under it.
    WrapFailure(String),
    /// The private key is malformed or the wrapped key does not open under it.
    UnwrapFailure(String),
    /// A field is not unpadded URL-safe base64.
    EncodingError(String),
    /// The packet text is not the JSON object that was expected; the text says why.
    DecodeError(String),
    /// The packet names an algorithm other than the two supported ones.
    UnsupportedAlgorithm,
    /// The unwrapped key is not 32 bytes long.
    InvalidKeyLength,
    /// The decrypted bytes are not UTF-8.
    InvalidPlaintextEncoding,
    /// No session key has been generated yet.
    NoSessionKey,
    /// The cached session key is older than its time to live.
    SessionExpired,
    /// No private key was supplied: the caller is not the server.
    PrivateKeyUnavailable,
}

/// The kind of an error, without what it carries.
#[derive(Debug, Clone, Copy, PartialEq, Eq)]
pub enum ErrorKind {
    RandomnessUnavailable,
    EncryptionFailure,
    AuthenticationFailure,
    WrapFailure,
    UnwrapFailure,
    EncodingError,
    DecodeError,
    UnsupportedAlgorithm,
    InvalidKeyLength,
    InvalidPlaintextEncoding,
    NoSessionKey,
    SessionExpired,
    PrivateKeyUnavailable,
}

/// An error as contracts see it: the kind, and for a `DecodeError` its text.
/// The sentence that a library underneath gave is no part of it.
pub enum ErrorView {
    RandomnessUnavailable,
    EncryptionFailure,
    AuthenticationFailure,
    WrapFailure,
    UnwrapFailure,
    EncodingError,
    DecodeError(Seq<char>),
    UnsupportedAlgorithm,
    InvalidKeyLength,
    InvalidPlaintextEncoding,
    NoSessionKey,
    SessionExpired,
    PrivateKeyUnavailable,
}

impl ErrorView {
    /// The kind of the error.
    pub open spec fn kind(self) -> ErrorKind {
        match self {
            ErrorView::RandomnessUnavailable => ErrorKind::RandomnessUnavailable,
            ErrorView::EncryptionFailure => ErrorKind::EncryptionFailure,
            ErrorView::AuthenticationFailure => ErrorKind::AuthenticationFailure,
            ErrorView::WrapFailure => ErrorKind::WrapFailure,
            ErrorView::UnwrapFailure => ErrorKind::UnwrapFailure,
            ErrorView::EncodingError => ErrorKind::EncodingError,
            ErrorView::DecodeError(_) => ErrorKind::DecodeError,
            ErrorView::UnsupportedAlgorithm => ErrorKind::UnsupportedAlgorithm,
            ErrorView::InvalidKeyLength => ErrorKind::InvalidKeyLength,
            ErrorView::InvalidPlaintextEncoding => ErrorKind::InvalidPlaintextEncoding,
            ErrorView::NoSessionKey => ErrorKind::NoSessionKey,
            ErrorView::SessionExpired => ErrorKind::SessionExpired,
            ErrorView::PrivateKeyUnavailable => ErrorKind::PrivateKeyUnavailable,
        }
    }
}

impl View for CryptoError {
    type V = ErrorView;

    open spec fn view(&self) -> ErrorView {
        match self {
            CryptoError::RandomnessUnavailable(_) => ErrorView::RandomnessUnavailable,
            CryptoError::EncryptionFailure => ErrorView::EncryptionFailure,
            CryptoError::AuthenticationFailure => ErrorView::AuthenticationFailure,
            CryptoError::WrapFailure(_) => ErrorView::WrapFailure,
            CryptoError::UnwrapFailure(_) => ErrorView::UnwrapFailure,
            CryptoError::EncodingError(_) => ErrorView::EncodingError,
            CryptoError::DecodeError(why) => ErrorView::DecodeError(why@),
            CryptoError::UnsupportedAlgorithm => ErrorView::UnsupportedAlgorithm,
            CryptoError::InvalidKeyLength => ErrorView::InvalidKeyLength,
            CryptoError::InvalidPlaintextEncoding => ErrorView::InvalidPlaintextEncoding,
            CryptoError::NoSessionKey => ErrorView::NoSessionKey,
            CryptoError::SessionExpired => ErrorView::SessionExpired,
            CryptoError::PrivateKeyUnavailable => ErrorView::PrivateKeyUnavailable,
        }
    }
}

/// A sentence made of what went wrong and why.
pub fn sentence(what: &str, why: &str) -> (text: String)
    ensures
        text@ == what@ + why@,
{
    String::from_str(what).concat(why)
}

impl CryptoError {
    /// The sentence that describes this error to a human.
    pub open spec fn message_text(self) -> Seq<char> {
        match self {
            CryptoError::RandomnessUnavailable(said) => said@,
            CryptoError::EncryptionFailure => "aes-gcm encrypt error: aead::Error"@,
            CryptoError::AuthenticationFailure => "aes-gcm decrypt error: aead::Error"@,
            CryptoError::WrapFailure(said) => said@,
            CryptoError::UnwrapFailure(said) => said@,
            CryptoError::EncodingError(said) => said@,
            CryptoError::DecodeError(why) => "invalid packet json: "@ + why@,
            CryptoError::UnsupportedAlgorithm => "unsupported symmetric algorithm"@,
            CryptoError::InvalidKeyLength => "invalid symmetric key length"@,
            CryptoError::InvalidPlaintextEncoding => "plaintext is not valid UTF-8"@,
            CryptoError::NoSessionKey => "no session key; call ensure_session_key first"@,
            CryptoError::SessionExpired => "session key expired; call ensure_session_key to refresh"@,
            CryptoError::PrivateKeyUnavailable => "PRIVATE_KEY_PEM not found in env (server-only)"@,
        }
    }

    /// Renders the error as text.
    pub fn message(&self) -> (text: String)
        ensures
            text@ == self.message_text(),
    {
        match self {
            CryptoError::RandomnessUnavailable(said) => said.clone(),
            CryptoError::EncryptionFailure => String::from_str("aes-gcm encrypt error: aead::Error"),
            CryptoError::AuthenticationFailure => String::from_str("aes-gcm decrypt error: aead::Error"),
            CryptoError::WrapFailure(said) => said.clone(),
            CryptoError::UnwrapFailure(said) => said.clone(),
            CryptoError::EncodingError(said) => said.clone(),
            CryptoError::DecodeError(why) => sentence("invalid packet json: ", why.as_str()),
            CryptoError::UnsupportedAlgorithm => String::from_str("unsupported symmetric algorithm"),
            CryptoError::InvalidKeyLength => String::from_str("invalid symmetric key length"),
            CryptoError::InvalidPlaintextEncoding => String::from_str("plaintext is not valid UTF-8"),
            CryptoError::NoSessionKey => String::from_str("no session key; call ensure_session_key first"),
            CryptoError::SessionExpired => String::from_str("session key expired; call ensure_session_key to refresh"),
            CryptoError::PrivateKeyUnavailable => String::from_str("PRIVATE_KEY_PEM not found in env (server-only)"),
        }
    }

    /// The kind of the error.
    pub fn kind(&self) -> (kind: ErrorKind)
        ensures
            kind == self@.kind(),
    {
        match self {
            CryptoError::RandomnessUnavailable(_) => ErrorKind::RandomnessUnavailable,
            CryptoError::EncryptionFailure => ErrorKind::EncryptionFailure,
            CryptoError::AuthenticationFailure => ErrorKind::AuthenticationFailure,
            CryptoError::WrapFailure(_) => ErrorKind::WrapFailure,
            CryptoError::UnwrapFailure(_) => ErrorKind::UnwrapFailure,
            CryptoError::EncodingError(_) => ErrorKind::EncodingError,
            CryptoError::DecodeError(_) => ErrorKind::DecodeError,
            CryptoError::UnsupportedAlgorithm => ErrorKind::UnsupportedAlgorithm,
            CryptoError::InvalidKeyLength => ErrorKind::InvalidKeyLength,
            CryptoError::InvalidPlaintextEncoding => ErrorKind::InvalidPlaintextEncoding,
            CryptoError::NoSessionKey => ErrorKind::NoSessionKey,
            CryptoError::SessionExpired => ErrorKind::SessionExpired,
            CryptoError::PrivateKeyUnavailable => ErrorKind::PrivateKeyUnavailable,
        }
    }
}

} // verus!
