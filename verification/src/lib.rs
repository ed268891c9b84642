//! Hybrid public-key / symmetric encryption with a cached, short-lived session key.
//!
//! A client seals payloads for a server whose RSA public key it knows. A 32-byte
//! AES-256-GCM key is wrapped under that public key with RSA-OAEP (SHA-256) and
//! either travels inside each message (the hybrid packet) or is cached for a
//! quarter of an hour and sent once (the session packet).

pub mod error;
pub mod encoding;
pub mod pem;
pub mod random;
pub mod aead;
pub mod rsa_keys;
pub mod packet;
pub mod codec;
pub mod sealing;
pub mod session;
pub mod server;
pub mod hybrid;
pub mod laws;
