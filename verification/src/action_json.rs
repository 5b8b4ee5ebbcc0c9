use vstd::prelude::*;

use crate::handoff::{Action, ActionView, HandoffProgress, ProgressView};
use crate::mac::{colon_hex_spec, mac_error_message, parse_mac_spec, MacAddr};
use crate::message::GroupMessage;

verus! {

/// A handoff progress report as the JSON interface writes it.
#[derive(Debug, Clone, PartialEq, Eq)]
pub enum ProgressJson {
    Requesting,
    WaitingPeer,
    Releasing,
    Connecting,
    FallbackCd,
    Done,
    Failed { reason: String },
    Busy,
}

/// An action of the handoff machine as the JSON interface writes it, with
/// addresses in colon form.
#[derive(Debug, Clone, PartialEq, Eq)]
pub enum ActionJson {
    Send { message: GroupMessage },
    ConnectAudio { mac: String },
    DisconnectAudio { mac: String },
    SuppressAutoreconnect { mac: String, suppress: bool },
    SendHeadsetDisconnect,
    Report { progress: ProgressJson },
}

/// Whether `j` is the JSON form of progress `p`.
pub open spec fn progress_json_of(p: ProgressView, j: ProgressJson) -> bool {
    match (p, j) {
        (ProgressView::Requesting, ProgressJson::Requesting) => true,
        (ProgressView::WaitingPeer, ProgressJson::WaitingPeer) => true,
        (ProgressView::Releasing, ProgressJson::Releasing) => true,
        (ProgressView::Connecting, ProgressJson::Connecting) => true,
        (ProgressView::FallbackCd, ProgressJson::FallbackCd) => true,
        (ProgressView::Done, ProgressJson::Done) => true,
        (ProgressView::Failed(r), ProgressJson::Failed { reason }) => reason@ == r,
        (ProgressView::Busy, ProgressJson::Busy) => true,
        _ => false,
    }
}

/// Whether `j` is the JSON form of action `a`.
pub open spec fn action_json_of(a: ActionView, j: ActionJson) -> bool {
    match (a, j) {
        (ActionView::Send(m), ActionJson::Send { message }) => message@ == m,
        (ActionView::ConnectAudio(b), ActionJson::ConnectAudio { mac }) => mac@ == colon_hex_spec(b),
        (ActionView::DisconnectAudio(b), ActionJson::DisconnectAudio { mac }) => mac@ == colon_hex_spec(b),
        (ActionView::SuppressAutoreconnect { mac: b, suppress: s }, ActionJson::SuppressAutoreconnect {
            mac,
            suppress,
        }) => mac@ == colon_hex_spec(b) && suppress == s,
        (ActionView::SendHeadsetDisconnect, ActionJson::SendHeadsetDisconnect) => true,
        (ActionView::Report(p), ActionJson::Report { progress }) => progress_json_of(p, progress),
        _ => false,
    }
}

impl ProgressJson {
    /// The JSON form of a progress report.
    pub fn from_progress(p: HandoffProgress) -> (j: Self)
        ensures
            progress_json_of(p@, j),
    {
        match p {
            HandoffProgress::Requesting => ProgressJson::Requesting,
            HandoffProgress::WaitingPeer => ProgressJson::WaitingPeer,
            HandoffProgress::Releasing => ProgressJson::Releasing,
            HandoffProgress::Connecting => ProgressJson::Connecting,
            HandoffProgress::FallbackCd => ProgressJson::FallbackCd,
            HandoffProgress::Done => ProgressJson::Done,
            HandoffProgress::Failed(reason) => ProgressJson::Failed { reason },
            HandoffProgress::Busy => ProgressJson::Busy,
        }
    }
}

impl ActionJson {
    /// The JSON form of an action.
    pub fn from_action(action: Action) -> (j: Self)
        ensures
            action_json_of(action@, j),
    {
        match action {
            Action::Send(message) => ActionJson::Send { message },
            Action::ConnectAudio(mac) => ActionJson::ConnectAudio { mac: mac.to_colon_string() },
            Action::DisconnectAudio(mac) => ActionJson::DisconnectAudio { mac: mac.to_colon_string() },
            Action::SuppressAutoreconnect { mac, suppress } => ActionJson::SuppressAutoreconnect {
                mac: mac.to_colon_string(),
                suppress,
            },
            Action::SendHeadsetDisconnect => ActionJson::SendHeadsetDisconnect,
            Action::Report(progress) => ActionJson::Report { progress: ProgressJson::from_progress(progress) },
        }
    }
}

/// The JSON forms of a list of actions, in order.
pub fn actions_json_items(actions: Vec<Action>) -> (v: Vec<ActionJson>)
    ensures
        v@.len() == actions@.len(),
        forall|i: int| 0 <= i < v@.len() ==> action_json_of(actions@[i]@, #[trigger] v@[i]),
{
    let ghost all = actions@;
    let mut rest = actions;
    let mut v: Vec<ActionJson> = Vec::new();
    while rest.len() > 0
        invariant
            v@.len() + rest@.len() == all.len(),
            rest@ == all.skip(v@.len() as int),
            forall|k: int| 0 <= k < v@.len() ==> action_json_of(all[k]@, #[trigger] v@[k]),
        decreases rest@.len(),
    {
        let ghost n = v@.len();
        let a = rest.remove(0);
        assert(a == all[n as int]);
        v.push(ActionJson::from_action(a));
        assert(rest@ =~= all.skip(v@.len() as int));
    }
    v
}

/// Reads a MAC address; the error is the parse failure's message.
pub fn parse_mac(mac: &str) -> (r: Result<MacAddr, String>)
    ensures
        match parse_mac_spec(mac@) {
            Some(b) => (r matches Ok(m) && m.0@ == b),
            None => (r matches Err(e) && e@ == mac_error_message()),
        },
{
    match MacAddr::parse(mac) {
        Ok(m) => Ok(m),
        Err(e) => Err(e.message()),
    }
}

} // verus!
