use vstd::prelude::*;

use crate::action_json::{progress_json_of, ProgressJson};
use crate::audio::{audio_state_key, AudioState};
use crate::handoff::HandoffProgress;
use crate::message::PeerInfo;
use crate::notification::Notification;
use crate::notify_json::{notify_of, NotifyJson};
use crate::text::str_eq;

verus! {

/// The kind of link to the headphone's control channel.
#[derive(Debug, Clone, Copy, PartialEq, Eq, Structural)]
pub enum LinkKind {
    Rfcomm,
    Ble,
}

/// A headphone found by a scan.
#[derive(Debug, Clone, PartialEq, Eq)]
pub struct ScanResult {
    pub address: String,
    pub name: String,
    pub kind: LinkKind,
    pub service_uuid: Option<String>,
}

/// What the runtime reports to its user.
#[derive(Debug, Clone, PartialEq, Eq)]
pub enum RuntimeEvent {
    BtState { connected: bool, kind: Option<LinkKind>, address: Option<String> },
    Headset(Notification),
    Audio(AudioState),
    Peer(PeerInfo),
    Handoff(HandoffProgress),
    Message(String),
}

/// An event as the JSON interface writes it (`kind` names the variant).
#[derive(Debug, Clone, PartialEq, Eq)]
pub enum EventJson {
    Empty,
    BtState { connected: bool, link: Option<&'static str>, address: Option<String> },
    Headset { notification: NotifyJson },
    Audio { state: &'static str },
    Peer { peer: PeerInfo },
    Handoff { progress: ProgressJson },
    Message { text: String },
}

/// A scan result as the JSON interface writes it.
#[derive(Debug, Clone, PartialEq, Eq)]
pub struct ScanJson {
    pub address: String,
    pub name: String,
    pub kind: &'static str,
    pub service_uuid: Option<String>,
}

/// The key of a link kind.
pub open spec fn link_key(kind: LinkKind) -> Seq<char> {
    match kind {
        LinkKind::Rfcomm => "rfcomm"@,
        LinkKind::Ble => "ble"@,
    }
}

/// The key of a link kind.
pub fn link_str(kind: LinkKind) -> (s: &'static str)
    ensures
        s@ == link_key(kind),
{
    match kind {
        LinkKind::Rfcomm => "rfcomm",
        LinkKind::Ble => "ble",
    }
}

/// The link kind a user names: "rfcomm" or "ble".
pub open spec fn link_kind_spec(kind: Seq<char>) -> Option<LinkKind> {
    if kind == "rfcomm"@ {
        Some(LinkKind::Rfcomm)
    } else if kind == "ble"@ {
        Some(LinkKind::Ble)
    } else {
        None
    }
}

/// Message for a link kind that is neither "rfcomm" nor "ble".
pub open spec fn bad_kind_message() -> Seq<char> {
    "kind 只能是 rfcomm 或 ble"@
}

/// Reads the link kind a user names.
pub fn parse_kind(kind: &str) -> (r: Result<LinkKind, String>)
    ensures
        match link_kind_spec(kind@) {
            Some(k) => r == Ok::<LinkKind, String>(k),
            None => (r matches Err(m) && m@ == bad_kind_message()),
        },
{
    if str_eq(kind, "rfcomm") {
        Ok(LinkKind::Rfcomm)
    } else if str_eq(kind, "ble") {
        Ok(LinkKind::Ble)
    } else {
        Err("kind 只能是 rfcomm 或 ble".to_owned())
    }
}

/// Two optional strings hold the same text.
pub open spec fn same_opt_text(a: Option<String>, b: Option<String>) -> bool {
    match (a, b) {
        (Some(x), Some(y)) => x@ == y@,
        (None, None) => true,
        _ => false,
    }
}

/// Whether `j` is the JSON form of event `ev`.
pub open spec fn event_json_of(ev: RuntimeEvent, j: EventJson) -> bool {
    match (ev, j) {
        (RuntimeEvent::BtState { connected: c, kind, address: a }, EventJson::BtState { connected, link, address }) => {
            &&& connected == c
            &&& match kind {
                Some(k) => (link matches Some(l) && l@ == link_key(k)),
                None => link is None,
            }
            &&& same_opt_text(address, a)
        },
        (RuntimeEvent::Headset(n), EventJson::Headset { notification }) => notify_of(n@, notification),
        (RuntimeEvent::Audio(s), EventJson::Audio { state }) => state@ == audio_state_key(s),
        (RuntimeEvent::Peer(p), EventJson::Peer { peer }) => peer == p,
        (RuntimeEvent::Handoff(p), EventJson::Handoff { progress }) => progress_json_of(p@, progress),
        (RuntimeEvent::Message(t), EventJson::Message { text }) => text@ == t@,
        _ => false,
    }
}

fn clone_opt_string(s: &Option<String>) -> (r: Option<String>)
    ensures
        same_opt_text(r, *s),
{
    match s {
        Some(x) => Some(x.clone()),
        None => None,
    }
}

fn clone_progress(p: &HandoffProgress) -> (r: HandoffProgress)
    ensures
        r@ == p@,
{
    match p {
        HandoffProgress::Requesting => HandoffProgress::Requesting,
        HandoffProgress::WaitingPeer => HandoffProgress::WaitingPeer,
        HandoffProgress::Releasing => HandoffProgress::Releasing,
        HandoffProgress::Connecting => HandoffProgress::Connecting,
        HandoffProgress::FallbackCd => HandoffProgress::FallbackCd,
        HandoffProgress::Done => HandoffProgress::Done,
        HandoffProgress::Failed(reason) => HandoffProgress::Failed(reason.clone()),
        HandoffProgress::Busy => HandoffProgress::Busy,
    }
}

/// The JSON form of an event.
pub fn event_json(ev: &RuntimeEvent) -> (j: EventJson)
    ensures
        event_json_of(*ev, j),
{
    match ev {
        RuntimeEvent::BtState { connected, kind, address } => EventJson::BtState {
            connected: *connected,
            link: match kind {
                Some(k) => Some(link_str(*k)),
                None => None,
            },
            address: clone_opt_string(address),
        },
        RuntimeEvent::Headset(n) => EventJson::Headset { notification: NotifyJson::from_notification(n) },
        RuntimeEvent::Audio(state) => EventJson::Audio { state: state.as_str() },
        RuntimeEvent::Peer(peer) => EventJson::Peer { peer: peer.duplicate() },
        RuntimeEvent::Handoff(p) => EventJson::Handoff { progress: ProgressJson::from_progress(clone_progress(p)) },
        RuntimeEvent::Message(text) => EventJson::Message { text: text.clone() },
    }
}

/// Whether `j` is the JSON form of scan result `s`.
pub open spec fn scan_json_of(s: ScanResult, j: ScanJson) -> bool {
    &&& j.address@ == s.address@
    &&& j.name@ == s.name@
    &&& j.kind@ == link_key(s.kind)
    &&& same_opt_text(j.service_uuid, s.service_uuid)
}

/// The JSON forms of scan results, in order.
pub fn scan_json(list: &[ScanResult]) -> (v: Vec<ScanJson>)
    ensures
        v@.len() == list@.len(),
        forall|i: int| 0 <= i < v@.len() ==> scan_json_of(list@[i], #[trigger] v@[i]),
{
    let mut v: Vec<ScanJson> = Vec::new();
    let mut i: usize = 0;
    while i < list.len()
        invariant
            i <= list@.len(),
            v@.len() == i,
            forall|k: int| 0 <= k < i ==> scan_json_of(list@[k], #[trigger] v@[k]),
        decreases list@.len() - i,
    {
        let s = &list[i];
        v.push(
            ScanJson {
                address: s.address.clone(),
                name: s.name.clone(),
                kind: link_str(s.kind),
                service_uuid: clone_opt_string(&s.service_uuid),
            },
        );
        i = i + 1;
    }
    v
}

} // verus!
