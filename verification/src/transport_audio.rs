use vstd::prelude::*;

use crate::audio::AudioState;
use crate::text::{eq_ignore_ascii_case, lower_chars, str_eq};

verus! {

/// Service UUID of an A2DP sink.
pub const A2DP_SINK: &'static str = "0000110b-0000-1000-8000-00805f9b34fb";

/// Service UUID of an A2DP source.
pub const A2DP_SOURCE: &'static str = "0000110a-0000-1000-8000-00805f9b34fb";

/// The properties of one BlueZ media transport that decide the audio state.
#[derive(Debug, Clone, Copy)]
pub struct Transport<'a> {
    pub uuid: Option<&'a str>,
    pub state: Option<&'a str>,
}

/// Whether a service UUID is one of A2DP, up to ASCII case.
pub open spec fn is_a2dp_uuid(u: Seq<char>) -> bool {
    lower_chars(u) == lower_chars(A2DP_SINK@) || lower_chars(u) == lower_chars(A2DP_SOURCE@)
}

/// Transport states in which the A2DP link is configured: "idle" only means
/// that nothing plays.
pub open spec fn is_configured_state(s: Seq<char>) -> bool {
    s == "idle"@ || s == "pending"@ || s == "active"@
}

/// Whether the transport shows a configured A2DP link.
pub open spec fn holds_a2dp(t: Transport) -> bool {
    &&& t.uuid matches Some(u) && is_a2dp_uuid(u@)
    &&& t.state matches Some(s) && is_configured_state(s@)
}

/// The audio state the transports show: connected while any configured A2DP
/// transport exists; otherwise disconnected only once every ACL link of the
/// device is down, since the transports do not cover HFP/SCO.
pub open spec fn transport_state_spec(ts: Seq<Transport>, all_acls_disconnected: bool) -> AudioState {
    if exists|i: int| 0 <= i < ts.len() && holds_a2dp(#[trigger] ts[i]) {
        AudioState::Connected
    } else if all_acls_disconnected {
        AudioState::Disconnected
    } else {
        AudioState::Unknown
    }
}

fn is_a2dp(uuid: &str) -> (r: bool)
    ensures
        r == is_a2dp_uuid(uuid@),
{
    eq_ignore_ascii_case(uuid, A2DP_SINK) || eq_ignore_ascii_case(uuid, A2DP_SOURCE)
}

fn is_configured(state: &str) -> (r: bool)
    ensures
        r == is_configured_state(state@),
{
    str_eq(state, "idle") || str_eq(state, "pending") || str_eq(state, "active")
}

/// The audio state shown by the media transports of a device and whether
/// all of its ACL links are down.
pub fn audio_state(transports: &[Transport], all_acls_disconnected: bool) -> (r: AudioState)
    ensures
        r == transport_state_spec(transports@, all_acls_disconnected),
{
    let mut i: usize = 0;
    while i < transports.len()
        invariant
            i <= transports@.len(),
            forall|k: int| 0 <= k < i ==> !holds_a2dp(#[trigger] transports@[k]),
        decreases transports@.len() - i,
    {
        let t = transports[i];
        if let Some(uuid) = t.uuid {
            if is_a2dp(uuid) {
                if let Some(state) = t.state {
                    if is_configured(state) {
                        assert(holds_a2dp(transports@[i as int]));
                        return AudioState::Connected;
                    }
                }
            }
        }
        i = i + 1;
    }
    if all_acls_disconnected {
        AudioState::Disconnected
    } else {
        AudioState::Unknown
    }
}

/// Law: while an ACL link of the device is up, the transports alone never
/// confirm a release; and a configured A2DP transport always means connected.
pub proof fn law_release_needs_acl_down(ts: Seq<Transport>, i: int)
    ensures
        transport_state_spec(ts, false) != AudioState::Disconnected,
        0 <= i < ts.len() && holds_a2dp(ts[i]) ==> transport_state_spec(ts, true) == AudioState::Connected,
{
}

} // verus!
