use vstd::prelude::*;

use crate::hexenc::{hex_decode, hex_decode_spec, hex_encode, law_hex_encode_decode};
use crate::mac::{parse_mac_spec, MacAddr};
use crate::text::{hex_lower_spec, str_eq};
use vstd::utf8::encode_utf8;

verus! {

/// Version of the envelope format.
pub const ENVELOPE_VERSION: u8 = 1;

/// Largest accepted difference between an envelope's timestamp and the
/// receiver's clock, in milliseconds.
pub const MAX_SKEW_MS: u64 = 30_000;

/// Random token that ties the messages of one handoff together.
pub type Nonce = [u8; 16];

/// What a group member announces about itself.
#[derive(Debug, Clone, PartialEq, Eq)]
pub struct PeerInfo {
    pub id: String,
    pub hostname: String,
    pub os: String,
    pub can_audio: bool,
    pub holding: Option<String>,
    pub app_version: String,
}

/// A message between group members.
#[derive(Debug, Clone, PartialEq, Eq)]
pub enum GroupMessage {
    Announce { peer: PeerInfo },
    HandoffRequest { headphone: String, nonce: String, deadline_ms: u64 },
    HandoffHasAudio { nonce: String },
    HandoffNoAudio { nonce: String },
    HandoffReleased { nonce: String },
    HandoffTaken { nonce: String },
    HandoffAbort { nonce: String, reason: String },
    HandoffBusy { nonce: String },
}

/// A signed group message: format version, group id (hex), timestamp,
/// message, and the hex HMAC over the envelope with an empty `mac`.
#[derive(Debug, Clone, PartialEq, Eq)]
pub struct Envelope {
    pub version: u8,
    pub group_id: String,
    pub ts_ms: u64,
    pub body: GroupMessage,
    pub mac: String,
}

/// The mathematical value of a group message.
pub enum MessageView {
    Announce { peer: PeerInfo },
    HandoffRequest { headphone: Seq<char>, nonce: Seq<char>, deadline_ms: u64 },
    HandoffHasAudio { nonce: Seq<char> },
    HandoffNoAudio { nonce: Seq<char> },
    HandoffReleased { nonce: Seq<char> },
    HandoffTaken { nonce: Seq<char> },
    HandoffAbort { nonce: Seq<char>, reason: Seq<char> },
    HandoffBusy { nonce: Seq<char> },
}

impl View for GroupMessage {
    type V = MessageView;

    open spec fn view(&self) -> MessageView {
        match *self {
            GroupMessage::Announce { peer } => MessageView::Announce { peer },
            GroupMessage::HandoffRequest { headphone, nonce, deadline_ms } => MessageView::HandoffRequest {
                headphone: headphone@,
                nonce: nonce@,
                deadline_ms,
            },
            GroupMessage::HandoffHasAudio { nonce } => MessageView::HandoffHasAudio { nonce: nonce@ },
            GroupMessage::HandoffNoAudio { nonce } => MessageView::HandoffNoAudio { nonce: nonce@ },
            GroupMessage::HandoffReleased { nonce } => MessageView::HandoffReleased { nonce: nonce@ },
            GroupMessage::HandoffTaken { nonce } => MessageView::HandoffTaken { nonce: nonce@ },
            GroupMessage::HandoffAbort { nonce, reason } => MessageView::HandoffAbort {
                nonce: nonce@,
                reason: reason@,
            },
            GroupMessage::HandoffBusy { nonce } => MessageView::HandoffBusy { nonce: nonce@ },
        }
    }
}

fn copy_opt_string(s: &Option<String>) -> (r: Option<String>)
    ensures
        r == *s,
{
    match s {
        Some(x) => Some(x.clone()),
        None => None,
    }
}

impl PeerInfo {
    /// A copy of the record.
    pub fn duplicate(&self) -> (r: Self)
        ensures
            r == *self,
    {
        PeerInfo {
            id: self.id.clone(),
            hostname: self.hostname.clone(),
            os: self.os.clone(),
            can_audio: self.can_audio,
            holding: copy_opt_string(&self.holding),
            app_version: self.app_version.clone(),
        }
    }
}

impl GroupMessage {
    /// A copy of the message.
    pub fn duplicate(&self) -> (r: Self)
        ensures
            r == *self,
    {
        match self {
            GroupMessage::Announce { peer } => GroupMessage::Announce { peer: peer.duplicate() },
            GroupMessage::HandoffRequest { headphone, nonce, deadline_ms } => GroupMessage::HandoffRequest {
                headphone: headphone.clone(),
                nonce: nonce.clone(),
                deadline_ms: *deadline_ms,
            },
            GroupMessage::HandoffHasAudio { nonce } => GroupMessage::HandoffHasAudio { nonce: nonce.clone() },
            GroupMessage::HandoffNoAudio { nonce } => GroupMessage::HandoffNoAudio { nonce: nonce.clone() },
            GroupMessage::HandoffReleased { nonce } => GroupMessage::HandoffReleased { nonce: nonce.clone() },
            GroupMessage::HandoffTaken { nonce } => GroupMessage::HandoffTaken { nonce: nonce.clone() },
            GroupMessage::HandoffAbort { nonce, reason } => GroupMessage::HandoffAbort {
                nonce: nonce.clone(),
                reason: reason.clone(),
            },
            GroupMessage::HandoffBusy { nonce } => GroupMessage::HandoffBusy { nonce: nonce.clone() },
        }
    }
}

/// The nonce a string carries: exactly 32 hex digits.
pub open spec fn parse_nonce_spec(s: Seq<char>) -> Option<Seq<u8>> {
    match hex_decode_spec(encode_utf8(s)) {
        Some(b) => if b.len() == 16 {
            Some(b)
        } else {
            None
        },
        None => None,
    }
}

/// A nonce as lower-case hex.
pub fn nonce_to_hex(nonce: Nonce) -> (s: String)
    ensures
        s@ == hex_lower_spec(nonce@),
{
    hex_encode(nonce.as_slice())
}

/// Reads a nonce written as 32 hex digits.
pub fn parse_nonce(s: &str) -> (r: Option<Nonce>)
    ensures
        match parse_nonce_spec(s@) {
            Some(b) => r matches Some(n) && n@ == b,
            None => r is None,
        },
{
    let bytes = match hex_decode(s) {
        Ok(b) => b,
        Err(_) => return None,
    };
    if bytes.len() != 16 {
        return None;
    }
    let mut n = [0u8; 16];
    let mut i: usize = 0;
    while i < 16
        invariant
            i <= 16,
            bytes@.len() == 16,
            n@.len() == 16,
            forall|k: int| 0 <= k < i ==> n@[k] == bytes@[k],
        decreases 16 - i,
    {
        n[i] = bytes[i];
        i = i + 1;
    }
    assert(n@ =~= bytes@);
    Some(n)
}

/// Reads the headphone address of a handoff request.
pub fn parse_headphone(s: &str) -> (r: Option<MacAddr>)
    ensures
        match parse_mac_spec(s@) {
            Some(b) => r matches Some(m) && m.0@ == b,
            None => r is None,
        },
{
    MacAddr::parse(s).ok()
}

/// Law: a nonce written by `nonce_to_hex` reads back as the same nonce.
pub proof fn law_nonce_roundtrip(nonce: Seq<u8>)
    requires
        nonce.len() == 16,
    ensures
        parse_nonce_spec(hex_lower_spec(nonce)) == Some(nonce),
{
    law_hex_encode_decode(nonce);
}

/// Whether a peer is the one a user names, by id or by host name.
pub open spec fn names_peer(p: PeerInfo, name: Seq<char>) -> bool {
    p.id@ == name || p.hostname@ == name
}

/// Message for a name that no peer has.
pub open spec fn no_such_peer_message() -> Seq<char> {
    "组里没有这个成员"@
}

/// Message for a peer that holds no headphone.
pub open spec fn peer_not_holding_message() -> Seq<char> {
    "该成员没有持有耳机"@
}

/// The headphone to claim from the first peer named `peer_id` (by id or
/// host name): the address it holds.
pub fn claim_target(peers: &[PeerInfo], peer_id: &str) -> (r: Result<String, String>)
    ensures
        match r {
            Ok(mac) => exists|i: int|
                0 <= i < peers@.len() && names_peer(peers@[i], peer_id@) && (forall|k: int|
                    0 <= k < i ==> !names_peer(#[trigger] peers@[k], peer_id@)) && (peers@[i].holding matches Some(
                    h,
                ) && h@ == mac@),
            Err(m) => (forall|k: int| 0 <= k < peers@.len() ==> !names_peer(#[trigger] peers@[k], peer_id@))
                && m@ == no_such_peer_message() || exists|i: int|
                0 <= i < peers@.len() && names_peer(peers@[i], peer_id@) && (forall|k: int|
                    0 <= k < i ==> !names_peer(#[trigger] peers@[k], peer_id@)) && peers@[i].holding is None
                    && m@ == peer_not_holding_message(),
        },
{
    let mut i: usize = 0;
    while i < peers.len()
        invariant
            i <= peers@.len(),
            forall|k: int| 0 <= k < i ==> !names_peer(#[trigger] peers@[k], peer_id@),
        decreases peers@.len() - i,
    {
        let p = &peers[i];
        if str_eq(p.id.as_str(), peer_id) || str_eq(p.hostname.as_str(), peer_id) {
            assert(names_peer(peers@[i as int], peer_id@));
            return match &p.holding {
                Some(h) => Ok(h.clone()),
                None => Err("该成员没有持有耳机".to_owned()),
            };
        }
        i = i + 1;
    }
    Err("组里没有这个成员".to_owned())
}

} // verus!
