//! The packets as JSON text.
//!
//! Reading and writing JSON is `serde_json`'s work. What a packet must hold,
//! and what is said when it does not, is decided here.

use std::collections::BTreeMap;
use vstd::prelude::*;
use vstd::string::StringExecFns;
use crate::error::{CryptoError, ErrorView};
use crate::packet::{HybridPacket, HybridPacketView, SessionKeyInfo, SessionKeyInfoView, SessionPacket, SessionPacketView};

verus! {

/// The value of a member of a JSON object, as far as a packet can hold it.
#[derive(Debug, PartialEq, Eq)]
pub enum JsonValue {
    /// A string.
    Text(String),
    /// A whole number from 0 to 2^64 - 1.
    Unsigned(u64),
    /// `true` or `false`.
    Flag(bool),
    /// Anything else: `null`, another number, an array, an object.
    Other,
}

/// A member value as contracts see it.
pub enum JsonValueView {
    Text(Seq<char>),
    Unsigned(u64),
    Flag(bool),
    Other,
}

impl View for JsonValue {
    type V = JsonValueView;

    open spec fn view(&self) -> JsonValueView {
        match self {
            JsonValue::Text(text) => JsonValueView::Text(text@),
            JsonValue::Unsigned(n) => JsonValueView::Unsigned(*n),
            JsonValue::Flag(b) => JsonValueView::Flag(*b),
            JsonValue::Other => JsonValueView::Other,
        }
    }
}

/// The members of a JSON object: names and values.
pub type Members = Seq<(Seq<char>, JsonValueView)>;

/// The members that a vector of members stands for.
pub open spec fn members_view(members: Seq<(String, JsonValue)>) -> Members {
    Seq::new(members.len(), |i: int| (members[i].0@, members[i].1@))
}

/// The members of the JSON object that `text` holds, each name once, in the
/// order of the names; where a name stands twice in the text, with the value
/// that stands last. Where `text` is not one JSON object (`null` is none),
/// what the parser says of it.
pub uninterp spec fn spec_json_object(text: Seq<char>) -> Result<Members, Seq<char>>;

/// The compact JSON text of the object with the given members, where a later
/// member replaces an earlier one of the same name.
pub uninterp spec fn spec_json_text(members: Members) -> Seq<char>;

/// The value of the first member called `name`.
pub open spec fn member(members: Members, name: Seq<char>) -> Option<JsonValueView>
    decreases members.len(),
{
    if members.len() == 0 {
        None
    } else if members[0].0 == name {
        Some(members[0].1)
    } else {
        member(members.skip(1), name)
    }
}

/// Whether no two members have one name.
pub open spec fn distinct_names(members: Members) -> bool {
    forall|i: int, j: int|
        0 <= i < j < members.len() ==> (#[trigger] members[i]).0 != (#[trigger] members[j]).0
}

/// Parses one JSON object with `serde_json::from_str` into a `BTreeMap` of
/// `serde_json::Value` and hands out its members, each value by its kind.
///
/// Taken on trust: the members are those that the parser read, as the map
/// yields them; the error is the parser's own text.
#[verifier::external_body]
fn json_object(text: &str) -> (res: Result<Vec<(String, JsonValue)>, String>)
    ensures
        match res {
            Ok(members) => spec_json_object(text@) == Ok::<Members, Seq<char>>(
                members_view(members@),
            ),
            Err(why) => spec_json_object(text@) == Err::<Members, Seq<char>>(why@),
        },
{
    let object = match serde_json::from_str::<BTreeMap<String, serde_json::Value>>(text) {
        Ok(object) => object,
        Err(e) => return Err(e.to_string()),
    };
    let mut members = Vec::new();
    for (name, value) in object {
        members.push((name, match value {
            serde_json::Value::String(text) => JsonValue::Text(text),
            serde_json::Value::Number(n) => n.as_u64().map_or(JsonValue::Other, JsonValue::Unsigned),
            serde_json::Value::Bool(b) => JsonValue::Flag(b),
            _ => JsonValue::Other,
        }));
    }
    Ok(members)
}

/// Writes a JSON object: fills a `serde_json::Map` with the members and
/// renders it with `Value::to_string`. A value of the kind `Other` is written
/// as `null`.
///
/// Taken on trust: the text is the crate's compact rendering of that object;
/// and the crate's parser takes that text for one object in which every name
/// has the value given here, as long as no two members share a name.
#[verifier::external_body]
fn json_text(members: &Vec<(String, JsonValue)>) -> (text: String)
    ensures
        text@ == spec_json_text(members_view(members@)),
        distinct_names(members_view(members@)) ==> spec_json_object(text@) is Ok && forall|
            name: Seq<char>,
        | #[trigger]
            member(spec_json_object(text@)->Ok_0, name) == member(members_view(members@), name),
{
    let mut object = serde_json::Map::new();
    for (name, value) in members {
        object.insert(name.clone(), match value {
            JsonValue::Text(text) => serde_json::Value::String(text.clone()),
            JsonValue::Unsigned(n) => serde_json::Value::from(*n),
            JsonValue::Flag(b) => serde_json::Value::Bool(*b),
            JsonValue::Other => serde_json::Value::Null,
        });
    }
    serde_json::Value::Object(object).to_string()
}

// ---------------------------------------------------------------------------
// What a packet must hold
// ---------------------------------------------------------------------------

/// What is said of a member that is not there.
pub open spec fn missing(name: Seq<char>) -> Seq<char> {
    "missing field `"@ + name + "`"@
}

/// What is said of a member that holds a value of the wrong kind.
pub open spec fn mistyped(name: Seq<char>) -> Seq<char> {
    "invalid type for field `"@ + name + "`"@
}

/// The string that the member `name` holds.
pub open spec fn text_member(members: Members, name: Seq<char>) -> Result<Seq<char>, ErrorView> {
    match member(members, name) {
        None => Err(ErrorView::DecodeError(missing(name))),
        Some(JsonValueView::Text(text)) => Ok(text),
        Some(_) => Err(ErrorView::DecodeError(mistyped(name))),
    }
}

/// The number from 0 to 255 that the member `name` holds.
pub open spec fn byte_member(members: Members, name: Seq<char>) -> Result<u8, ErrorView> {
    match member(members, name) {
        None => Err(ErrorView::DecodeError(missing(name))),
        Some(JsonValueView::Unsigned(n)) => if n <= 255 {
            Ok(n as u8)
        } else {
            Err(ErrorView::DecodeError(mistyped(name)))
        },
        Some(_) => Err(ErrorView::DecodeError(mistyped(name))),
    }
}

/// The session packet that the members make. Members are asked for in the
/// order `v`, `sym_alg`, `nonce_b64`, `ciphertext_b64`, and the first that is
/// missing or of the wrong kind is a `DecodeError`; members that no packet
/// knows are passed over; then the header is judged.
pub open spec fn session_packet_of(members: Members) -> Result<SessionPacketView, ErrorView> {
    match byte_member(members, "v"@) {
        Err(e) => Err(e),
        Ok(v) => match text_member(members, "sym_alg"@) {
            Err(e) => Err(e),
            Ok(sym_alg) => match text_member(members, "nonce_b64"@) {
                Err(e) => Err(e),
                Ok(nonce_b64) => match text_member(members, "ciphertext_b64"@) {
                    Err(e) => Err(e),
                    Ok(ciphertext_b64) => {
                        let packet = SessionPacketView { v, sym_alg, nonce_b64, ciphertext_b64 };
                        match packet.verdict() {
                            Err(e) => Err(e),
                            Ok(()) => Ok(packet),
                        }
                    },
                },
            },
        },
    }
}

/// The hybrid packet that the members make. Members are asked for in the
/// order `v`, `alg`, `sym_alg`, `nonce_b64`, `wrapped_key_b64`,
/// `ciphertext_b64`; then the header is judged.
pub open spec fn hybrid_packet_of(members: Members) -> Result<HybridPacketView, ErrorView> {
    match byte_member(members, "v"@) {
        Err(e) => Err(e),
        Ok(v) => match text_member(members, "alg"@) {
            Err(e) => Err(e),
            Ok(alg) => match text_member(members, "sym_alg"@) {
                Err(e) => Err(e),
                Ok(sym_alg) => match text_member(members, "nonce_b64"@) {
                    Err(e) => Err(e),
                    Ok(nonce_b64) => match text_member(members, "wrapped_key_b64"@) {
                        Err(e) => Err(e),
                        Ok(wrapped_key_b64) => match text_member(members, "ciphertext_b64"@) {
                            Err(e) => Err(e),
                            Ok(ciphertext_b64) => {
                                let packet = HybridPacketView {
                                    v,
                                    alg,
                                    sym_alg,
                                    nonce_b64,
                                    wrapped_key_b64,
                                    ciphertext_b64,
                                };
                                match packet.verdict() {
                                    Err(e) => Err(e),
                                    Ok(()) => Ok(packet),
                                }
                            },
                        },
                    },
                },
            },
        },
    }
}

/// The session packet that `text` holds: a `DecodeError` with the parser's
/// words where `text` is not one JSON object, else what its members make.
pub open spec fn decoded_session(text: Seq<char>) -> Result<SessionPacketView, ErrorView> {
    match spec_json_object(text) {
        Err(why) => Err(ErrorView::DecodeError(why)),
        Ok(members) => session_packet_of(members),
    }
}

/// The hybrid packet that `text` holds.
pub open spec fn decoded_hybrid(text: Seq<char>) -> Result<HybridPacketView, ErrorView> {
    match spec_json_object(text) {
        Err(why) => Err(ErrorView::DecodeError(why)),
        Ok(members) => hybrid_packet_of(members),
    }
}

/// The members of a session packet.
pub open spec fn session_members(packet: SessionPacketView) -> Members {
    seq![
        ("v"@, JsonValueView::Unsigned(packet.v as u64)),
        ("sym_alg"@, JsonValueView::Text(packet.sym_alg)),
        ("nonce_b64"@, JsonValueView::Text(packet.nonce_b64)),
        ("ciphertext_b64"@, JsonValueView::Text(packet.ciphertext_b64)),
    ]
}

/// The members of a hybrid packet.
pub open spec fn hybrid_members(packet: HybridPacketView) -> Members {
    seq![
        ("v"@, JsonValueView::Unsigned(packet.v as u64)),
        ("alg"@, JsonValueView::Text(packet.alg)),
        ("sym_alg"@, JsonValueView::Text(packet.sym_alg)),
        ("nonce_b64"@, JsonValueView::Text(packet.nonce_b64)),
        ("wrapped_key_b64"@, JsonValueView::Text(packet.wrapped_key_b64)),
        ("ciphertext_b64"@, JsonValueView::Text(packet.ciphertext_b64)),
    ]
}

/// The members of the answer to a request for a session key.
pub open spec fn session_key_info_members(info: SessionKeyInfoView) -> Members {
    seq![
        ("v"@, JsonValueView::Unsigned(info.v as u64)),
        ("alg"@, JsonValueView::Text(info.alg)),
        ("sym_alg"@, JsonValueView::Text(info.sym_alg)),
        ("wrapped_key_b64"@, JsonValueView::Text(info.wrapped_key_b64)),
        ("fresh"@, JsonValueView::Flag(info.fresh)),
        ("created_ms"@, JsonValueView::Unsigned(info.created_ms)),
    ]
}

/// What decoding gives for the JSON text of a packet, by the verdict on its
/// header: the packet itself where the header is in order, else what the
/// header is refused with.
pub open spec fn read_back<P>(verdict: Result<(), ErrorView>, packet: P) -> Result<P, ErrorView> {
    match verdict {
        Ok(()) => Ok(packet),
        Err(e) => Err(e),
    }
}

/// A member that is the first of its name is the one that is found.
pub proof fn lemma_member_at(members: Members, i: int, name: Seq<char>)
    requires
        0 <= i < members.len(),
        members[i].0 == name,
        forall|j: int| 0 <= j < i ==> (#[trigger] members[j]).0 != name,
    ensures
        member(members, name) == Some(members[i].1),
    decreases i,
{
    if i > 0 {
        let rest = members.skip(1);
        assert(members[0].0 != name);
        assert(rest[i - 1] == members[i]);
        assert forall|j: int| 0 <= j < i - 1 implies (#[trigger] rest[j]).0 != name by {
            assert(rest[j] == members[j + 1]);
        }
        lemma_member_at(rest, i - 1, name);
    }
}

/// The names of a session packet's members differ, and each is found.
pub proof fn lemma_session_members(packet: SessionPacketView)
    ensures
        distinct_names(session_members(packet)),
        member(session_members(packet), "v"@) == Some(JsonValueView::Unsigned(packet.v as u64)),
        member(session_members(packet), "sym_alg"@) == Some(JsonValueView::Text(packet.sym_alg)),
        member(session_members(packet), "nonce_b64"@) == Some(
            JsonValueView::Text(packet.nonce_b64),
        ),
        member(session_members(packet), "ciphertext_b64"@) == Some(
            JsonValueView::Text(packet.ciphertext_b64),
        ),
{
    reveal_strlit("v");
    reveal_strlit("sym_alg");
    reveal_strlit("nonce_b64");
    reveal_strlit("ciphertext_b64");
    let m = session_members(packet);
    assert(m.len() == 4 && m[0].0.len() == 1 && m[1].0.len() == 7 && m[2].0.len() == 9
        && m[3].0.len() == 14);
    lemma_member_at(m, 0, "v"@);
    lemma_member_at(m, 1, "sym_alg"@);
    lemma_member_at(m, 2, "nonce_b64"@);
    lemma_member_at(m, 3, "ciphertext_b64"@);
}

/// The names of a hybrid packet's members differ, and each is found.
pub proof fn lemma_hybrid_members(packet: HybridPacketView)
    ensures
        distinct_names(hybrid_members(packet)),
        member(hybrid_members(packet), "v"@) == Some(JsonValueView::Unsigned(packet.v as u64)),
        member(hybrid_members(packet), "alg"@) == Some(JsonValueView::Text(packet.alg)),
        member(hybrid_members(packet), "sym_alg"@) == Some(JsonValueView::Text(packet.sym_alg)),
        member(hybrid_members(packet), "nonce_b64"@) == Some(JsonValueView::Text(packet.nonce_b64)),
        member(hybrid_members(packet), "wrapped_key_b64"@) == Some(
            JsonValueView::Text(packet.wrapped_key_b64),
        ),
        member(hybrid_members(packet), "ciphertext_b64"@) == Some(
            JsonValueView::Text(packet.ciphertext_b64),
        ),
{
    reveal_strlit("v");
    reveal_strlit("alg");
    reveal_strlit("sym_alg");
    reveal_strlit("nonce_b64");
    reveal_strlit("wrapped_key_b64");
    reveal_strlit("ciphertext_b64");
    let m = hybrid_members(packet);
    assert(m.len() == 6 && m[0].0.len() == 1 && m[1].0.len() == 3 && m[2].0.len() == 7
        && m[3].0.len() == 9 && m[4].0.len() == 15 && m[5].0.len() == 14);
    lemma_member_at(m, 0, "v"@);
    lemma_member_at(m, 1, "alg"@);
    lemma_member_at(m, 2, "sym_alg"@);
    lemma_member_at(m, 3, "nonce_b64"@);
    lemma_member_at(m, 4, "wrapped_key_b64"@);
    lemma_member_at(m, 5, "ciphertext_b64"@);
}

/// The names of the members of an answer to a key request differ.
pub proof fn lemma_session_key_info_members(info: SessionKeyInfoView)
    ensures
        distinct_names(session_key_info_members(info)),
{
    reveal_strlit("v");
    reveal_strlit("alg");
    reveal_strlit("sym_alg");
    reveal_strlit("wrapped_key_b64");
    reveal_strlit("fresh");
    reveal_strlit("created_ms");
    let m = session_key_info_members(info);
    assert(m.len() == 6 && m[0].0.len() == 1 && m[1].0.len() == 3 && m[2].0.len() == 7
        && m[3].0.len() == 15 && m[4].0.len() == 5 && m[5].0.len() == 10);
}

/// Finds the value of the first member called `name`.
pub fn find_member<'a>(members: &'a Vec<(String, JsonValue)>, name: &str) -> (res: Option<
    &'a JsonValue,
>)
    ensures
        match res {
            Some(value) => member(members_view(members@), name@) == Some(value@),
            None => member(members_view(members@), name@) is None,
        },
{
    let ghost all = members_view(members@);
    let mut i: usize = 0;
    assert(all.skip(0) == all);
    while i < members.len()
        invariant
            i <= members.len(),
            all == members_view(members@),
            member(all, name@) == member(all.skip(i as int), name@),
        decreases members.len() - i,
    {
        proof {
            assert(all.skip(i as int)[0] == all[i as int]);
            assert(all.skip(i as int).skip(1) == all.skip(i + 1));
        }
        if crate::packet::same_text(members[i].0.as_str(), name) {
            return Some(&members[i].1);
        }
        i += 1;
    }
    None
}

/// Says that the member `name` is not there.
fn complain_missing(name: &str) -> (e: CryptoError)
    ensures
        e@ == ErrorView::DecodeError(missing(name@)),
{
    CryptoError::DecodeError(String::from_str("missing field `").concat(name).concat("`"))
}

/// Says that the member `name` holds a value of the wrong kind.
fn complain_mistyped(name: &str) -> (e: CryptoError)
    ensures
        e@ == ErrorView::DecodeError(mistyped(name@)),
{
    CryptoError::DecodeError(String::from_str("invalid type for field `").concat(name).concat("`"))
}

/// Reads the string that the member `name` holds.
pub fn read_text(members: &Vec<(String, JsonValue)>, name: &str) -> (res: Result<String, CryptoError>)
    ensures
        match res {
            Ok(text) => text_member(members_view(members@), name@) == Ok::<Seq<char>, ErrorView>(
                text@,
            ),
            Err(e) => text_member(members_view(members@), name@) == Err::<Seq<char>, ErrorView>(
                e@,
            ),
        },
{
    match find_member(members, name) {
        None => Err(complain_missing(name)),
        Some(JsonValue::Text(text)) => Ok(text.clone()),
        Some(_) => Err(complain_mistyped(name)),
    }
}

/// Reads the number from 0 to 255 that the member `name` holds.
pub fn read_byte(members: &Vec<(String, JsonValue)>, name: &str) -> (res: Result<u8, CryptoError>)
    ensures
        match res {
            Ok(n) => byte_member(members_view(members@), name@) == Ok::<u8, ErrorView>(n),
            Err(e) => byte_member(members_view(members@), name@) == Err::<u8, ErrorView>(e@),
        },
{
    match find_member(members, name) {
        None => Err(complain_missing(name)),
        Some(JsonValue::Unsigned(n)) => {
            if *n <= 255 {
                Ok(*n as u8)
            } else {
                Err(complain_mistyped(name))
            }
        },
        Some(_) => Err(complain_mistyped(name)),
    }
}

/// Makes a session packet of the members of a JSON object.
pub fn session_from_members(members: &Vec<(String, JsonValue)>) -> (res: Result<
    SessionPacket,
    CryptoError,
>)
    ensures
        match res {
            Ok(packet) => session_packet_of(members_view(members@)) == Ok::<
                SessionPacketView,
                ErrorView,
            >(packet@),
            Err(e) => session_packet_of(members_view(members@)) == Err::<
                SessionPacketView,
                ErrorView,
            >(e@),
        },
{
    let v = read_byte(members, "v")?;
    let sym_alg = read_text(members, "sym_alg")?;
    let nonce_b64 = read_text(members, "nonce_b64")?;
    let ciphertext_b64 = read_text(members, "ciphertext_b64")?;
    let packet = SessionPacket { v, sym_alg, nonce_b64, ciphertext_b64 };
    packet.check()?;
    Ok(packet)
}

/// Makes a hybrid packet of the members of a JSON object.
pub fn hybrid_from_members(members: &Vec<(String, JsonValue)>) -> (res: Result<
    HybridPacket,
    CryptoError,
>)
    ensures
        match res {
            Ok(packet) => hybrid_packet_of(members_view(members@)) == Ok::<
                HybridPacketView,
                ErrorView,
            >(packet@),
            Err(e) => hybrid_packet_of(members_view(members@)) == Err::<
                HybridPacketView,
                ErrorView,
            >(e@),
        },
{
    let v = read_byte(members, "v")?;
    let alg = read_text(members, "alg")?;
    let sym_alg = read_text(members, "sym_alg")?;
    let nonce_b64 = read_text(members, "nonce_b64")?;
    let wrapped_key_b64 = read_text(members, "wrapped_key_b64")?;
    let ciphertext_b64 = read_text(members, "ciphertext_b64")?;
    let packet = HybridPacket { v, alg, sym_alg, nonce_b64, wrapped_key_b64, ciphertext_b64 };
    packet.check()?;
    Ok(packet)
}

/// Reads a session packet from JSON text.
///
/// Text that is not one JSON object is a `DecodeError` with the parser's
/// words; so is a member that is missing or of the wrong kind, and a version
/// other than 1. An algorithm name other than the supported one is an
/// `UnsupportedAlgorithm`. Members that no packet knows are passed over.
pub fn decode_session(text: &str) -> (res: Result<SessionPacket, CryptoError>)
    ensures
        match res {
            Ok(packet) => decoded_session(text@) == Ok::<SessionPacketView, ErrorView>(packet@),
            Err(e) => decoded_session(text@) == Err::<SessionPacketView, ErrorView>(e@),
        },
{
    match json_object(text) {
        Ok(members) => session_from_members(&members),
        Err(why) => Err(CryptoError::DecodeError(why)),
    }
}

/// Reads a hybrid packet from JSON text, as `decode_session` reads a session
/// packet.
pub fn decode_hybrid(text: &str) -> (res: Result<HybridPacket, CryptoError>)
    ensures
        match res {
            Ok(packet) => decoded_hybrid(text@) == Ok::<HybridPacketView, ErrorView>(packet@),
            Err(e) => decoded_hybrid(text@) == Err::<HybridPacketView, ErrorView>(e@),
        },
{
    match json_object(text) {
        Ok(members) => hybrid_from_members(&members),
        Err(why) => Err(CryptoError::DecodeError(why)),
    }
}

/// One member that holds a string.
fn text_entry(name: &str, text: &String) -> (entry: (String, JsonValue))
    ensures
        entry.0@ == name@,
        entry.1@ == JsonValueView::Text(text@),
{
    (String::from_str(name), JsonValue::Text(text.clone()))
}

/// One member that holds a number.
fn number_entry(name: &str, n: u64) -> (entry: (String, JsonValue))
    ensures
        entry.0@ == name@,
        entry.1@ == JsonValueView::Unsigned(n),
{
    (String::from_str(name), JsonValue::Unsigned(n))
}

/// Writes a session packet as JSON text. Read back, the text gives the
/// packet again, or what its header is refused with.
pub fn encode_session(packet: &SessionPacket) -> (text: String)
    ensures
        text@ == spec_json_text(session_members(packet@)),
        decoded_session(text@) == read_back(packet@.verdict(), packet@),
{
    let mut members: Vec<(String, JsonValue)> = Vec::new();
    members.push(number_entry("v", packet.v as u64));
    members.push(text_entry("sym_alg", &packet.sym_alg));
    members.push(text_entry("nonce_b64", &packet.nonce_b64));
    members.push(text_entry("ciphertext_b64", &packet.ciphertext_b64));
    proof {
        assert(members_view(members@) =~= session_members(packet@));
        lemma_session_members(packet@);
    }
    json_text(&members)
}

/// Writes a hybrid packet as JSON text. Read back, the text gives the packet
/// again, or what its header is refused with.
pub fn encode_hybrid(packet: &HybridPacket) -> (text: String)
    ensures
        text@ == spec_json_text(hybrid_members(packet@)),
        decoded_hybrid(text@) == read_back(packet@.verdict(), packet@),
{
    let mut members: Vec<(String, JsonValue)> = Vec::new();
    members.push(number_entry("v", packet.v as u64));
    members.push(text_entry("alg", &packet.alg));
    members.push(text_entry("sym_alg", &packet.sym_alg));
    members.push(text_entry("nonce_b64", &packet.nonce_b64));
    members.push(text_entry("wrapped_key_b64", &packet.wrapped_key_b64));
    members.push(text_entry("ciphertext_b64", &packet.ciphertext_b64));
    proof {
        assert(members_view(members@) =~= hybrid_members(packet@));
        lemma_hybrid_members(packet@);
    }
    json_text(&members)
}

/// Writes the answer to a request for a session key as JSON text: one JSON
/// object in which every member is found with its value.
pub fn encode_session_key_info(info: &SessionKeyInfo) -> (text: String)
    ensures
        text@ == spec_json_text(session_key_info_members(info@)),
        spec_json_object(text@) matches Ok(back) && forall|name: Seq<char>| #[trigger]
            member(back, name) == member(session_key_info_members(info@), name),
{
    let mut members: Vec<(String, JsonValue)> = Vec::new();
    members.push(number_entry("v", info.v as u64));
    members.push(text_entry("alg", &info.alg));
    members.push(text_entry("sym_alg", &info.sym_alg));
    members.push(text_entry("wrapped_key_b64", &info.wrapped_key_b64));
    members.push((String::from_str("fresh"), JsonValue::Flag(info.fresh)));
    members.push(number_entry("created_ms", info.created_ms));
    proof {
        assert(members_view(members@) =~= session_key_info_members(info@));
        lemma_session_key_info_members(info@);
    }
    json_text(&members)
}

} // verus!
