//! The two packets on the wire, and the answer to a request for a session key.

use vstd::prelude::*;
use vstd::string::StringExecFns;
use crate::error::{CryptoError, ErrorView};

verus! {

/// The one packet version that is understood.
pub const PACKET_VERSION: u8 = 1;

/// The name of the asymmetric algorithm: RSA-OAEP with SHA-256.
pub open spec fn asym_alg() -> Seq<char> {
    "RSA-OAEP-256"@
}

/// The name of the symmetric algorithm: AES-256-GCM.
pub open spec fn sym_alg() -> Seq<char> {
    "AES-256-GCM"@
}

/// What a decoder says of a packet whose version it does not know.
pub open spec fn version_complaint() -> Seq<char> {
    "unsupported packet version"@
}

/// A message that carries its own key: the symmetric key wrapped under the
/// receiver's public key, and the ciphertext under that symmetric key.
#[derive(Debug, PartialEq, Eq)]
pub struct HybridPacket {
    pub v: u8,
    pub alg: String,
    pub sym_alg: String,
    pub nonce_b64: String,
    pub wrapped_key_b64: String,
    pub ciphertext_b64: String,
}

/// A message under a session key that both sides already hold.
#[derive(Debug, PartialEq, Eq)]
pub struct SessionPacket {
    pub v: u8,
    pub sym_alg: String,
    pub nonce_b64: String,
    pub ciphertext_b64: String,
}

/// The answer to a request for a session key: the wrapped key to hand to the
/// server, whether it was made for this request, and when it was made.
#[derive(Debug, PartialEq, Eq)]
pub struct SessionKeyInfo {
    pub v: u8,
    pub alg: String,
    pub sym_alg: String,
    pub wrapped_key_b64: String,
    pub fresh: bool,
    pub created_ms: u64,
}

/// A hybrid packet as contracts see it.
pub struct HybridPacketView {
    pub v: u8,
    pub alg: Seq<char>,
    pub sym_alg: Seq<char>,
    pub nonce_b64: Seq<char>,
    pub wrapped_key_b64: Seq<char>,
    pub ciphertext_b64: Seq<char>,
}

/// A session packet as contracts see it.
pub struct SessionPacketView {
    pub v: u8,
    pub sym_alg: Seq<char>,
    pub nonce_b64: Seq<char>,
    pub ciphertext_b64: Seq<char>,
}

/// The answer to a request for a session key as contracts see it.
pub struct SessionKeyInfoView {
    pub v: u8,
    pub alg: Seq<char>,
    pub sym_alg: Seq<char>,
    pub wrapped_key_b64: Seq<char>,
    pub fresh: bool,
    pub created_ms: u64,
}

impl View for HybridPacket {
    type V = HybridPacketView;

    open spec fn view(&self) -> HybridPacketView {
        HybridPacketView {
            v: self.v,
            alg: self.alg@,
            sym_alg: self.sym_alg@,
            nonce_b64: self.nonce_b64@,
            wrapped_key_b64: self.wrapped_key_b64@,
            ciphertext_b64: self.ciphertext_b64@,
        }
    }
}

impl View for SessionPacket {
    type V = SessionPacketView;

    open spec fn view(&self) -> SessionPacketView {
        SessionPacketView {
            v: self.v,
            sym_alg: self.sym_alg@,
            nonce_b64: self.nonce_b64@,
            ciphertext_b64: self.ciphertext_b64@,
        }
    }
}

impl View for SessionKeyInfo {
    type V = SessionKeyInfoView;

    open spec fn view(&self) -> SessionKeyInfoView {
        SessionKeyInfoView {
            v: self.v,
            alg: self.alg@,
            sym_alg: self.sym_alg@,
            wrapped_key_b64: self.wrapped_key_b64@,
            fresh: self.fresh,
            created_ms: self.created_ms,
        }
    }
}

/// The verdict on a packet's header: `UnsupportedAlgorithm` where an algorithm
/// name is not the supported one, whatever else the packet holds; then a
/// `DecodeError` where the version is not the supported one.
pub open spec fn header_verdict(algorithms_match: bool, v: u8) -> Result<(), ErrorView> {
    if !algorithms_match {
        Err(ErrorView::UnsupportedAlgorithm)
    } else if v != PACKET_VERSION {
        Err(ErrorView::DecodeError(version_complaint()))
    } else {
        Ok(())
    }
}

impl HybridPacketView {
    /// Whether both algorithm names are the supported ones.
    pub open spec fn algorithms_match(self) -> bool {
        self.alg == asym_alg() && self.sym_alg == sym_alg()
    }

    /// The verdict on the header of this packet.
    pub open spec fn verdict(self) -> Result<(), ErrorView> {
        header_verdict(self.algorithms_match(), self.v)
    }
}

impl SessionPacketView {
    /// Whether the algorithm name is the supported one.
    pub open spec fn algorithms_match(self) -> bool {
        self.sym_alg == sym_alg()
    }

    /// The verdict on the header of this packet.
    pub open spec fn verdict(self) -> Result<(), ErrorView> {
        header_verdict(self.algorithms_match(), self.v)
    }
}

/// Whether two texts are the same.
pub fn same_text(a: &str, b: &str) -> (same: bool)
    ensures
        same == (a@ == b@),
{
    let x = String::from_str(a);
    let y = String::from_str(b);
    x == y
}

/// Judges a header from what was found in it.
fn judge_header(algorithms_match: bool, v: u8) -> (res: Result<(), CryptoError>)
    ensures
        match res {
            Ok(()) => header_verdict(algorithms_match, v) == Ok::<(), ErrorView>(()),
            Err(e) => header_verdict(algorithms_match, v) == Err::<(), ErrorView>(e@),
        },
{
    if !algorithms_match {
        Err(CryptoError::UnsupportedAlgorithm)
    } else if v != PACKET_VERSION {
        Err(CryptoError::DecodeError(String::from_str("unsupported packet version")))
    } else {
        Ok(())
    }
}

impl HybridPacket {
    /// Checks the algorithm names and the version.
    pub fn check(&self) -> (res: Result<(), CryptoError>)
        ensures
            match res {
                Ok(()) => self@.verdict() == Ok::<(), ErrorView>(()),
                Err(e) => self@.verdict() == Err::<(), ErrorView>(e@),
            },
    {
        let matching = same_text(self.alg.as_str(), "RSA-OAEP-256") && same_text(
            self.sym_alg.as_str(),
            "AES-256-GCM",
        );
        judge_header(matching, self.v)
    }
}

impl SessionPacket {
    /// Checks the algorithm name and the version.
    pub fn check(&self) -> (res: Result<(), CryptoError>)
        ensures
            match res {
                Ok(()) => self@.verdict() == Ok::<(), ErrorView>(()),
                Err(e) => self@.verdict() == Err::<(), ErrorView>(e@),
            },
    {
        let matching = same_text(self.sym_alg.as_str(), "AES-256-GCM");
        judge_header(matching, self.v)
    }
}

} // verus!
