//! The client's one cached session key: when it is reused, when it is replaced,
//! and what is sealed and opened under it.

use vstd::prelude::*;
use vstd::string::StringExecFns;
use vstd::utf8::encode_utf8;
use crate::aead::{KEY_LEN, MAX_PLAINTEXT_LEN};
use crate::encoding::{b64_encode, spec_b64_decode, spec_b64_encode};
use crate::error::{CryptoError, ErrorView};
use crate::packet::{asym_alg, sym_alg, SessionKeyInfo, SessionKeyInfoView, SessionPacket, SessionPacketView, PACKET_VERSION};
use crate::random::random_bytes;
use crate::rsa_keys::{parse_rsa_public_key, rsa_oaep_wrap, spec_parse_public_key, wraps};
use crate::sealing::{encodes, key_from_unwrapped, open_text, opened_text, seal_text, sealed_text};

verus! {

/// How long a session key lives, in milliseconds: a quarter of an hour.
pub const MAX_AGE_MS: u64 = 900_000;

/// A session key with what it is bound to.
pub struct SessionState {
    key: [u8; 32],
    wrapped_key_b64: String,
    created_ms: u64,
    pubkey_pem: String,
}

/// The slot that holds the session key, empty until a key is first asked for.
pub struct SessionStore {
    slot: Option<SessionState>,
}

/// A session key as contracts see it.
pub struct SessionStateView {
    /// The raw key, 32 bytes.
    pub key: Seq<u8>,
    /// The key wrapped under the public key, as base64.
    pub wrapped_key_b64: Seq<char>,
    /// When the key was made, in milliseconds since the epoch.
    pub created_ms: u64,
    /// The PEM text of the public key that the key was wrapped under.
    pub pubkey_pem: Seq<char>,
}

impl View for SessionState {
    type V = SessionStateView;

    closed spec fn view(&self) -> SessionStateView {
        SessionStateView {
            key: self.key@,
            wrapped_key_b64: self.wrapped_key_b64@,
            created_ms: self.created_ms,
            pubkey_pem: self.pubkey_pem@,
        }
    }
}

impl View for SessionStore {
    type V = Option<SessionStateView>;

    closed spec fn view(&self) -> Option<SessionStateView> {
        match self.slot {
            Some(state) => Some(state@),
            None => None,
        }
    }
}

/// The age of a key at `now_ms`. A clock that ran backwards gives the age 0.
pub open spec fn age(now_ms: u64, created_ms: u64) -> int {
    if now_ms >= created_ms {
        now_ms - created_ms
    } else {
        0
    }
}

impl SessionStateView {
    /// Whether the key has not outlived its time at `now_ms`.
    pub open spec fn is_live(self, now_ms: u64) -> bool {
        age(now_ms, self.created_ms) <= MAX_AGE_MS
    }

    /// Whether the wrapped form is the raw key, 32 bytes long, encrypted under
    /// the public key that the state names.
    pub open spec fn is_bound(self) -> bool {
        &&& self.key.len() == KEY_LEN
        &&& spec_parse_public_key(self.pubkey_pem) matches Some(public)
        &&& spec_b64_decode(self.wrapped_key_b64) matches Some(wrapped)
        &&& encodes(self.wrapped_key_b64, wrapped)
        &&& wraps(public, self.key, wrapped)
    }

    /// What the caller is told of this key.
    pub open spec fn info(self, fresh: bool) -> SessionKeyInfoView {
        SessionKeyInfoView {
            v: PACKET_VERSION,
            alg: asym_alg(),
            sym_alg: sym_alg(),
            wrapped_key_b64: self.wrapped_key_b64,
            fresh,
            created_ms: self.created_ms,
        }
    }
}

/// Whether the slot holds a key that a request for `pubkey_pem` at `now_ms`
/// gets again: one that is live and was wrapped under exactly this PEM text.
pub open spec fn reusable(slot: Option<SessionStateView>, pubkey_pem: Seq<char>, now_ms: u64) -> bool {
    slot matches Some(state) && state.is_live(now_ms) && state.pubkey_pem == pubkey_pem
}

/// Whether what the slot holds, if anything, is bound. This holds of every
/// slot at all times.
pub open spec fn slot_bound(slot: Option<SessionStateView>) -> bool {
    slot matches Some(state) ==> state.is_bound()
}

/// The key that outbound traffic may use at `now_ms`: `NoSessionKey` where the
/// slot is empty, `SessionExpired` where its key has outlived its time.
pub open spec fn outbound_key(slot: Option<SessionStateView>, now_ms: u64) -> Result<
    Seq<u8>,
    ErrorView,
> {
    match slot {
        None => Err(ErrorView::NoSessionKey),
        Some(state) => if state.is_live(now_ms) {
            Ok(state.key)
        } else {
            Err(ErrorView::SessionExpired)
        },
    }
}

/// What a request for a key for `pubkey_pem` at `now_ms` does to the slot and
/// answers.
///
/// A reusable key is handed out again, marked as not fresh, and the slot stays
/// as it is. Otherwise a success leaves a new key in the slot, made at
/// `now_ms`, bound to `pubkey_pem` and marked as fresh; a failure leaves the
/// slot as it is. It is a `WrapFailure` where the PEM text is no key. With a
/// key, the 32 bytes are drawn first: the failure is `RandomnessUnavailable`,
/// or a `WrapFailure` where 32 bytes with their padding do not fit under the
/// key's modulus, and nothing else.
pub open spec fn ensured(
    before: Option<SessionStateView>,
    pubkey_pem: Seq<char>,
    now_ms: u64,
    after: Option<SessionStateView>,
    answer: Result<SessionKeyInfoView, ErrorView>,
) -> bool {
    if reusable(before, pubkey_pem, now_ms) {
        after == before && answer == Ok::<SessionKeyInfoView, ErrorView>(before->0.info(false))
    } else {
        match answer {
            Ok(info) => {
                &&& after matches Some(state)
                &&& state.created_ms == now_ms
                &&& state.pubkey_pem == pubkey_pem
                &&& state.is_bound()
                &&& info == state.info(true)
            },
            Err(e) => {
                &&& after == before
                &&& match spec_parse_public_key(pubkey_pem) {
                    None => e == ErrorView::WrapFailure,
                    Some(public) => e == ErrorView::RandomnessUnavailable || (e
                        == ErrorView::WrapFailure && !public.has_room_for(KEY_LEN as nat)),
                }
            },
        }
    }
}

/// Whether `packet` is a session packet that seals `plaintext` under `key`.
pub open spec fn session_sealed(key: Seq<u8>, plaintext: Seq<char>, packet: SessionPacketView) -> bool {
    &&& packet.v == PACKET_VERSION
    &&& packet.sym_alg == sym_alg()
    &&& sealed_text(key, plaintext, packet.nonce_b64, packet.ciphertext_b64)
}

/// What opening `packet` with the key in the slot gives. The header is judged
/// first, then the slot; the age of the key is not looked at.
pub open spec fn session_opened(slot: Option<SessionStateView>, packet: SessionPacketView) -> Result<
    Seq<char>,
    ErrorView,
> {
    match packet.verdict() {
        Err(e) => Err(e),
        Ok(()) => match slot {
            None => Err(ErrorView::NoSessionKey),
            Some(state) => opened_text(state.key, packet.nonce_b64, packet.ciphertext_b64),
        },
    }
}

impl SessionState {
    /// Every state that exists is bound.
    #[verifier::type_invariant]
    spec fn bound(self) -> bool {
        self@.is_bound()
    }

    /// The key wrapped under the public key, as base64: safe to send.
    pub fn wrapped_key_b64(&self) -> (text: &String)
        ensures
            text@ == self@.wrapped_key_b64,
    {
        &self.wrapped_key_b64
    }

    /// When the key was made.
    pub fn created_ms(&self) -> (ms: u64)
        ensures
            ms == self@.created_ms,
    {
        self.created_ms
    }

    /// The PEM text of the public key that the key is bound to.
    pub fn pubkey_pem(&self) -> (text: &String)
        ensures
            text@ == self@.pubkey_pem,
    {
        &self.pubkey_pem
    }

    /// What the caller is told of this key.
    pub fn info(&self, fresh: bool) -> (info: SessionKeyInfo)
        ensures
            info@ == self@.info(fresh),
    {
        SessionKeyInfo {
            v: PACKET_VERSION,
            alg: String::from_str("RSA-OAEP-256"),
            sym_alg: String::from_str("AES-256-GCM"),
            wrapped_key_b64: self.wrapped_key_b64.clone(),
            fresh,
            created_ms: self.created_ms,
        }
    }
}

impl SessionStore {
    /// An empty slot.
    pub fn new() -> (store: SessionStore)
        ensures
            store@ is None,
    {
        SessionStore { slot: None }
    }

    /// The raw key in the slot, whatever its age and whatever it is bound to.
    pub fn current_raw_key(&self) -> (key: Option<[u8; 32]>)
        ensures
            match key {
                Some(k) => self@ matches Some(state) && state.key == k@,
                None => self@ is None,
            },
    {
        match &self.slot {
            Some(state) => Some(state.key),
            None => None,
        }
    }
}

/// The state in the slot, if a request for `pubkey_pem` at `now_ms` may reuse it.
pub fn session_get_if_valid<'a>(store: &'a SessionStore, pubkey_pem: &str, now_ms: u64) -> (res:
    Option<&'a SessionState>)
    ensures
        slot_bound(store@),
        match res {
            Some(state) => reusable(store@, pubkey_pem@, now_ms) && store@ == Some(state@),
            None => !reusable(store@, pubkey_pem@, now_ms),
        },
{
    match &store.slot {
        Some(state) => {
            proof {
                use_type_invariant(state);
            }
            let elapsed: u64 = if now_ms >= state.created_ms {
                now_ms - state.created_ms
            } else {
                0
            };
            let not_expired = elapsed <= MAX_AGE_MS;
            if not_expired && crate::packet::same_text(state.pubkey_pem.as_str(), pubkey_pem) {
                Some(state)
            } else {
                None
            }
        },
        None => None,
    }
}

/// The state in the slot, whatever its age and whatever it is bound to.
pub fn session_get_any<'a>(store: &'a SessionStore) -> (res: Option<&'a SessionState>)
    ensures
        slot_bound(store@),
        match res {
            Some(state) => store@ == Some(state@),
            None => store@ is None,
        },
{
    match &store.slot {
        Some(state) => {
            proof {
                use_type_invariant(state);
            }
            Some(state)
        },
        None => None,
    }
}

/// Replaces what the slot holds. What was there before is dropped.
fn session_set(store: &mut SessionStore, state: SessionState)
    requires
        state@.is_bound(),
    ensures
        final(store)@ == Some(state@),
{
    store.slot = Some(state);
}

/// Puts a new key into the slot, bound to `public_key_pem` and made at
/// `now_ms`, and says what the caller is told of it. The wrapped form must be
/// the key itself, encrypted under the public key that the PEM text holds:
/// the slot never holds anything else.
pub fn install_session_key(
    store: &mut SessionStore,
    public_key_pem: &str,
    key: [u8; 32],
    wrapped: &[u8],
    now_ms: u64,
) -> (info: SessionKeyInfo)
    requires
        spec_parse_public_key(public_key_pem@) matches Some(public) && wraps(
            public,
            key@,
            wrapped@,
        ),
    ensures
        final(store)@ == Some(
            SessionStateView {
                key: key@,
                wrapped_key_b64: spec_b64_encode(wrapped@),
                created_ms: now_ms,
                pubkey_pem: public_key_pem@,
            },
        ),
        encodes(spec_b64_encode(wrapped@), wrapped@),
        info@ == final(store)@->0.info(true),
{
    let state = SessionState {
        key,
        wrapped_key_b64: b64_encode(wrapped),
        created_ms: now_ms,
        pubkey_pem: String::from_str(public_key_pem),
    };
    let info = state.info(true);
    session_set(store, state);
    info
}

/// Makes sure that the slot holds a live key for `public_key_pem`.
///
/// A key that is live at `now_ms` and bound to exactly this PEM text is handed
/// out again, marked as not fresh, and the slot stays as it is. Otherwise 32
/// random bytes become the new key: they are wrapped under the public key,
/// stamped with `now_ms`, put into the slot and handed out marked as fresh.
/// Where the PEM text is no key, no randomness is to be had or the key cannot
/// be wrapped, the call fails and the slot stays as it is.
pub fn ensure_session_key(store: &mut SessionStore, public_key_pem: &str, now_ms: u64) -> (res:
    Result<SessionKeyInfo, CryptoError>)
    ensures
        slot_bound(final(store)@),
        match res {
            Ok(info) => ensured(old(store)@, public_key_pem@, now_ms, final(store)@, Ok(info@)),
            Err(e) => ensured(old(store)@, public_key_pem@, now_ms, final(store)@, Err(e@)),
        },
{
    match session_get_if_valid(store, public_key_pem, now_ms) {
        Some(state) => {
            return Ok(state.info(false));
        },
        None => {},
    }
    let pub_key = parse_rsa_public_key(public_key_pem)?;
    let sym_key = random_bytes(KEY_LEN)?;
    let key = key_from_unwrapped(sym_key.as_slice())?;
    let wrapped = rsa_oaep_wrap(&pub_key, sym_key.as_slice())?;
    Ok(install_session_key(store, public_key_pem, key, wrapped.as_slice(), now_ms))
}

/// Seals a text under the session key, for sending.
///
/// Asks for a key in the slot (`NoSessionKey`) that is not older than its time
/// to live at `now_ms` (`SessionExpired`). With such a key the call fails only
/// where no nonce can be drawn or the text is longer than 2^36 bytes.
pub fn encrypt_with_session(store: &SessionStore, plaintext_json: &str, now_ms: u64) -> (res: Result<
    SessionPacket,
    CryptoError,
>)
    ensures
        match outbound_key(store@, now_ms) {
            Err(refusal) => res matches Err(e) && e@ == refusal,
            Ok(key) => match res {
                Ok(packet) => session_sealed(key, plaintext_json@, packet@),
                Err(e) => e@ == ErrorView::RandomnessUnavailable || (e
                    == CryptoError::EncryptionFailure && encode_utf8(plaintext_json@).len()
                    > MAX_PLAINTEXT_LEN),
            },
        },
{
    let state = match session_get_any(store) {
        Some(state) => state,
        None => {
            return Err(CryptoError::NoSessionKey);
        },
    };
    let elapsed: u64 = if now_ms >= state.created_ms {
        now_ms - state.created_ms
    } else {
        0
    };
    if elapsed > MAX_AGE_MS {
        return Err(CryptoError::SessionExpired);
    }
    let (nonce_b64, ciphertext_b64) = seal_text(&state.key, plaintext_json)?;
    Ok(
        SessionPacket {
            v: PACKET_VERSION,
            sym_alg: String::from_str("AES-256-GCM"),
            nonce_b64,
            ciphertext_b64,
        },
    )
}

/// Opens a packet with the session key.
///
/// The header is judged first, then the slot must hold a key. The age of the
/// key is not looked at: what was sealed under a key that is still here can
/// still be read.
pub fn decrypt_with_session(store: &SessionStore, packet: &SessionPacket) -> (res: Result<
    String,
    CryptoError,
>)
    ensures
        match res {
            Ok(text) => session_opened(store@, packet@) == Ok::<Seq<char>, ErrorView>(text@),
            Err(e) => session_opened(store@, packet@) == Err::<Seq<char>, ErrorView>(e@),
        },
{
    packet.check()?;
    let state = match session_get_any(store) {
        Some(state) => state,
        None => {
            return Err(CryptoError::NoSessionKey);
        },
    };
    open_text(&state.key, packet.nonce_b64.as_str(), packet.ciphertext_b64.as_str())
}

} // verus!
